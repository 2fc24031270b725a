use vstd::prelude::*;

use crate::text::concat_text;

verus! {

/// What comes before the folder id in a model address.
pub const MODEL_URI_HEAD: &'static str = "gpt://";

/// What comes after the folder id in a model address.
pub const MODEL_URI_TAIL: &'static str = "/yandexgpt";

/// What comes before the key in the authorization header.
pub const AUTH_SCHEME: &'static str = "Api-Key ";

/// The most tokens that one answer may take, as the service expects it written.
pub const MAX_TOKENS: &'static str = "4000";

/// The settings of a chat-model service: key, address and folder.
pub struct YandexGPTClient {
    api_key: String,
    base_url: String,
    folder_id: String,
}

/// Who wrote a message.
#[allow(non_camel_case_types)]
pub enum Role {
    system,
    user,
    assistant,
}

/// One message of a conversation.
pub struct Message {
    pub role: Role,
    pub text: String,
}

/// The usage counts that the service reports, as it writes them.
#[allow(non_snake_case)]
pub struct Usage {
    pub inputTextTokens: String,
    pub completionTokens: String,
    pub totalTokens: String,
}

/// One answer that the service offers.
pub struct Alternative {
    pub message: Message,
    pub status: String,
}

/// The body of a reply.
#[allow(non_snake_case)]
pub struct ResultData {
    pub alternatives: Vec<Alternative>,
    pub usage: Usage,
    pub modelVersion: String,
}

/// A reply of the service.
pub struct YandexGPTResponse {
    pub result: ResultData,
}

impl YandexGPTClient {
    pub closed spec fn key_view(&self) -> Seq<char> {
        self.api_key@
    }

    pub closed spec fn url_view(&self) -> Seq<char> {
        self.base_url@
    }

    pub closed spec fn folder_view(&self) -> Seq<char> {
        self.folder_id@
    }

    /// A client for the given key, service address and folder.
    pub fn new(api_key: String, base_url: String, folder_id: String) -> (r: Self)
        ensures
            r.key_view() == api_key@,
            r.url_view() == base_url@,
            r.folder_view() == folder_id@,
    {
        YandexGPTClient { api_key, base_url, folder_id }
    }

    /// The address of the service.
    pub fn base_url(&self) -> (r: &String)
        ensures
            r@ == self.url_view(),
    {
        &self.base_url
    }

    /// The address of the model within the client's folder.
    pub fn model_uri(&self) -> (r: String)
        ensures
            r@ == MODEL_URI_HEAD@ + self.folder_view() + MODEL_URI_TAIL@,
    {
        let head = concat_text(MODEL_URI_HEAD, self.folder_id.as_str());
        concat_text(head.as_str(), MODEL_URI_TAIL)
    }

    /// The value of the authorization header.
    pub fn authorization(&self) -> (r: String)
        ensures
            r@ == AUTH_SCHEME@ + self.key_view(),
    {
        concat_text(AUTH_SCHEME, self.api_key.as_str())
    }
}

/// The conversation sent with a request: the system prompt, then the user's text.
pub fn request_messages(system_prompt: &str, user_text: &str) -> (r: Vec<Message>)
    ensures
        r@.len() == 2,
        r@[0].role is system,
        r@[0].text@ == system_prompt@,
        r@[1].role is user,
        r@[1].text@ == user_text@,
{
    let mut v: Vec<Message> = Vec::new();
    v.push(Message { role: Role::system, text: system_prompt.to_owned() });
    v.push(Message { role: Role::user, text: user_text.to_owned() });
    v
}

/// The text of the first answer of a reply, or `None` where it offers none.
pub fn first_answer(response: &YandexGPTResponse) -> (r: Option<String>)
    ensures
        response.result.alternatives@.len() == 0 <==> r is None,
        r matches Some(t) ==> t@ == response.result.alternatives@[0].message.text@,
{
    if response.result.alternatives.len() > 0 {
        Some(response.result.alternatives[0].message.text.clone())
    } else {
        None
    }
}

} // verus!
