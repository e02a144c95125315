use vstd::prelude::*;

use crate::youtube_types::GetLiveChatBody;

verus! {

/// Session parameters that every chat fetch needs.
#[derive(Debug, Clone, PartialEq, Eq)]
pub struct RequestOptions {
    pub api_key: String,
    pub client_version: String,
    pub continuation: String,
}

pub const CHAT_ENDPOINT: &'static str = "https://www.youtube.com/youtubei/v1/live_chat/get_live_chat?key=";

pub const CLIENT_NAME: &'static str = "WEB";

/// The chat-fetch URL, with the API key as its query credential.
pub fn chat_endpoint(api_key: &str) -> (r: String)
    ensures
        r@ == CHAT_ENDPOINT@ + api_key@,
{
    let mut url = CHAT_ENDPOINT.to_owned();
    url.append(api_key);
    url
}

/// The request body of a chat fetch for the given session.
pub fn chat_request_body(options: &RequestOptions) -> (r: GetLiveChatBody)
    ensures
        r.continuation == options.continuation,
        r.context.client.client_version == options.client_version,
        r.context.client.client_name@ == CLIENT_NAME@,
{
    GetLiveChatBody::new(
        options.continuation.clone(),
        options.client_version.clone(),
        CLIENT_NAME.to_owned(),
    )
}

} // verus!
