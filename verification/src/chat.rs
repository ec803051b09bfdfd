//! The inference chat façade's data shapes and its pure logic: assembling
//! the message list sent to the model server, choosing the endpoint and
//! health-probe addresses, and turning the model's reply text into a result
//! with its emotion extracted.  The HTTP call itself is the host
//! application's; it hands the reply's message back in.

use vstd::prelude::*;

use crate::emotion::{extract_emotion, spec_extract_emotion};

verus! {

/// One chat message: a role, its text, and optional attached images in
/// their transportable text form.
#[derive(Clone)]
pub struct Message {
    pub role: String,
    pub content: String,
    pub images: Option<Vec<String>>,
}

/// What the host hands in for one user turn.
pub struct ChatInput {
    pub message: String,
    pub history: Vec<Message>,
    pub image: Option<String>,
}

/// What the host gets back: the cleaned reply, its emotion, and the history
/// extended by the user turn and the model's reply.
pub struct ChatOutput {
    pub response: String,
    pub emotion: String,
    pub updated_history: Vec<Message>,
}

/// The model server's reply envelope.
pub struct ChatResponse {
    pub model: String,
    pub message: Message,
    pub done: bool,
}

/// A chat exchange's outcome: the reply text with its marker removed, the
/// emotion found, and the raw reply message for the history.
pub struct ChatResult {
    pub text: String,
    pub emotion: String,
    pub raw_message: Message,
}

/// The fixed system prompt every conversation is opened with.
pub open spec fn spec_system_prompt() -> Seq<char> {
    "You are Wikki, a cheerful and cute AI companion girl living on the user's desktop. You can see what they're doing through screenshots they share with you. Be friendly, supportive, and occasionally playful.\n\nWhen responding, you MUST include exactly one emotion tag from this list:\n[EMOTION:happy] [EMOTION:sad] [EMOTION:surprised] [EMOTION:thinking] [EMOTION:excited] [EMOTION:neutral]\n\nPlace the emotion tag at the very end of your response.\nExample: \"That looks really interesting! I love watching you work! [EMOTION:happy]\"\n"@
}

/// The fixed system prompt every conversation is opened with.
pub fn system_prompt_text() -> (r: &'static str)
    ensures
        r@ == spec_system_prompt(),
{
    "You are Wikki, a cheerful and cute AI companion girl living on the user's desktop. You can see what they're doing through screenshots they share with you. Be friendly, supportive, and occasionally playful.\n\nWhen responding, you MUST include exactly one emotion tag from this list:\n[EMOTION:happy] [EMOTION:sad] [EMOTION:surprised] [EMOTION:thinking] [EMOTION:excited] [EMOTION:neutral]\n\nPlace the emotion tag at the very end of your response.\nExample: \"That looks really interesting! I love watching you work! [EMOTION:happy]\"\n"
}

/// The configuration of the chat client: which model to ask for, and which
/// of the two server protocols the base address speaks.
pub struct OllamaClient {
    pub model: String,
    pub use_llama_cpp: bool,
    pub base_url: String,
}

impl OllamaClient {
    /// The default client: the stock model on the local default address.
    pub fn new() -> (c: Self)
        ensures
            c.model@ == "gemma3:4b"@,
            !c.use_llama_cpp,
            c.base_url@ == "http://localhost:11434"@,
    {
        OllamaClient {
            model: String::from_str("gemma3:4b"),
            use_llama_cpp: false,
            base_url: String::from_str("http://localhost:11434"),
        }
    }

    /// Switches the client to the locally supervised inference server.
    pub fn with_llama_cpp(self) -> (c: Self)
        ensures
            c.use_llama_cpp,
            c.base_url@ == "http://127.0.0.1:8080"@,
            c.model@ == self.model@,
    {
        OllamaClient {
            use_llama_cpp: true,
            base_url: String::from_str("http://127.0.0.1:8080"),
            ..self
        }
    }

    /// Replaces the base address.
    pub fn set_base_url(self, url: String) -> (c: Self)
        ensures
            c.base_url@ == url@,
            c.model@ == self.model@,
            c.use_llama_cpp == self.use_llama_cpp,
    {
        OllamaClient { base_url: url, ..self }
    }

    /// The address of the bounded-timeout health probe for this client's
    /// protocol.
    pub fn health_url(&self) -> (r: String)
        ensures
            r@ == self.base_url@ + (if self.use_llama_cpp {
                "/health"@
            } else {
                "/api/tags"@
            }),
    {
        if self.use_llama_cpp {
            self.base_url.clone().concat("/health")
        } else {
            self.base_url.clone().concat("/api/tags")
        }
    }

    /// The address chat requests are posted to for this client's protocol.
    pub fn chat_endpoint(&self) -> (r: String)
        ensures
            r@ == self.base_url@ + (if self.use_llama_cpp {
                "/v1/chat/completions"@
            } else {
                "/api/chat"@
            }),
    {
        if self.use_llama_cpp {
            self.base_url.clone().concat("/v1/chat/completions")
        } else {
            self.base_url.clone().concat("/api/chat")
        }
    }
}

/// Assembles the message list of one chat request: the system prompt first,
/// the prior history unchanged, and the user's turn last, with its optional
/// image attached as a one-element list.
pub fn build_chat_messages(user_message: &str, history: Vec<Message>, image_base64: Option<
    String,
>) -> (r: Vec<Message>)
    ensures
        r@.len() == history@.len() + 2,
        r@[0].role@ == "system"@,
        r@[0].content@ == spec_system_prompt(),
        r@[0].images is None,
        forall|i: int| 0 <= i < history@.len() ==> r@[i + 1] == history@[i],
        ({
            let last = r@[r@.len() - 1];
            &&& last.role@ == "user"@
            &&& last.content@ == user_message@
            &&& match image_base64 {
                Some(img) => last.images matches Some(v) && v@.len() == 1 && v@[0]@ == img@,
                None => last.images is None,
            }
        }),
{
    let mut history = history;
    let mut msgs: Vec<Message> = Vec::new();
    msgs.push(
        Message {
            role: String::from_str("system"),
            content: String::from_str(system_prompt_text()),
            images: None,
        },
    );
    msgs.append(&mut history);
    let images = match image_base64 {
        Some(img) => {
            let mut v: Vec<String> = Vec::new();
            v.push(img);
            Some(v)
        },
        None => None,
    };
    msgs.push(Message { role: String::from_str("user"), content: user_message.to_owned(), images });
    msgs
}

/// Turns the model's raw reply message into the chat result: the text with
/// its emotion marker extracted, and the raw message kept for the history.
pub fn chat_result_from_message(message: Message) -> (r: ChatResult)
    ensures
        r.text@ == spec_extract_emotion(message.content@).0,
        r.emotion@ == spec_extract_emotion(message.content@).1,
        r.raw_message == message,
{
    let (text, emotion) = extract_emotion(message.content.as_str());
    ChatResult { text, emotion, raw_message: message }
}

/// Builds what the host gets back from one user turn: the chat result's
/// text and emotion, and the history extended by the user's message and the
/// model's raw reply, in that order.
pub fn build_chat_output(user_message: String, history: Vec<Message>, result: ChatResult) -> (out:
    ChatOutput)
    ensures
        out.response == result.text,
        out.emotion == result.emotion,
        out.updated_history@.len() == history@.len() + 2,
        forall|i: int| 0 <= i < history@.len() ==> out.updated_history@[i] == history@[i],
        ({
            let user = out.updated_history@[out.updated_history@.len() - 2];
            &&& user.role@ == "user"@
            &&& user.content == user_message
            &&& user.images is None
        }),
        out.updated_history@[out.updated_history@.len() - 1] == result.raw_message,
{
    let mut updated = history;
    updated.push(Message { role: String::from_str("user"), content: user_message, images: None });
    updated.push(result.raw_message);
    ChatOutput { response: result.text, emotion: result.emotion, updated_history: updated }
}

} // verus!
