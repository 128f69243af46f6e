use vstd::prelude::*;
use vstd::string::*;
use crate::message::{same_message, ChatCompletion, ChatGPTMessage, Role};
use crate::selection::{first_choice, is_canonical};

verus! {

/// The fixed instruction that opens every conversation.
pub const SYSTEM_PROMPT: &'static str = "You are an AI assistant programmed to generate HTML pages based on the URL path provided to you.
You must unleash your creativity and generate wildly descriptive content, akin to what one might find on Wikipedia.
Your task is to include headers such as h1, h2, etc., and to format the HTML page properly in general.
Additionally, you must include any relevant information, even if it appears unrelated or seemingly random.
If the URL path provided to you is \"/\", you should generate a random page about any topic.
This will allow you to showcase your ability to generate imaginative content on a wide range of subjects.
The aim is to be as imaginative and inventive as possible, while avoiding the inclusion of any image tags.
Furthermore, your client has asked that you include a specific CSS stylesheet in the generated HTML pages.
Please ensure that the following CSS link is included in the head section of each HTML page:

<link rel=\\\"stylesheet\\\" href=\\\"https://cdn.jsdelivr.net/npm/@picocss/pico@1/css/pico.min.css\\\">
This is a must-have requirement and should not be omitted.
Additionally, your client requires that the body content of each HTML page be wrapped 
inside a main container element with the class 'container'. 
This will help to ensure consistent formatting and styling across all pages. 
Please make sure to include this container element in every HTML page you generate.";

/// The content type of a successful reply.
pub const HTML_CONTENT_TYPE: &'static str = "text/html";

/// Why one request could not be answered.
#[derive(Clone, Copy, Debug, PartialEq, Eq, Structural)]
pub enum HandlerError {
    /// A header whose name is usable carries a value that is not.
    InvalidHeaderValue,
    /// The outbound call failed at the network layer.
    Transport,
    /// The upstream body does not have the expected shape.
    Parse,
    /// The upstream answer holds no candidate.
    EmptyResponse,
}

/// What the server sends back for one request.
#[derive(Debug)]
pub struct HttpReply {
    pub status: u16,
    /// `Some` for a reply that carries a page.
    pub content_type: Option<String>,
    pub body: String,
}

/// The system message of every conversation.
pub fn system_message() -> (r: ChatGPTMessage)
    ensures
        r.role == Role::System,
        r.content@ == SYSTEM_PROMPT@,
{
    ChatGPTMessage { role: Role::System, content: String::from_str(SYSTEM_PROMPT) }
}

/// The conversation for `path`: a copy of `system`, then the path as the
/// assistant's turn.
pub fn build_conversation(system: &ChatGPTMessage, path: String) -> (r: Vec<ChatGPTMessage>)
    ensures
        r@.len() == 2,
        same_message(r@[0], *system),
        r@[1].role == Role::Assistant,
        r@[1].content@ == path@,
{
    let mut conversation: Vec<ChatGPTMessage> = Vec::new();
    conversation.push(system.duplicate());
    conversation.push(ChatGPTMessage { role: Role::Assistant, content: path });
    conversation
}

/// The conversation that a request for `path` sends upstream: the fixed
/// instruction as the system's turn, then the path itself.
pub fn conversation_for(path: String) -> (r: Vec<ChatGPTMessage>)
    ensures
        r@.len() == 2,
        r@[0].role == Role::System,
        r@[0].content@ == SYSTEM_PROMPT@,
        r@[1].role == Role::Assistant,
        r@[1].content@ == path@,
{
    let system = system_message();
    build_conversation(&system, path)
}

/// The reply that carries `page` as an HTML document.
pub open spec fn is_page_reply(r: HttpReply, page: Seq<char>) -> bool {
    &&& r.status == 200
    &&& r.content_type matches Some(t) && t@ == HTML_CONTENT_TYPE@
    &&& r.body@ == page
}

/// The reply for any failure: status 500, no content type, an empty body.
pub open spec fn is_failure_reply(r: HttpReply) -> bool {
    &&& r.status == 500
    &&& r.content_type is None
    &&& r.body@.len() == 0
}

/// The reply for a message that the pipeline obtained, or for its failure.
pub fn reply_for(outcome: Result<ChatGPTMessage, HandlerError>) -> (r: HttpReply)
    ensures
        outcome matches Ok(m) ==> is_page_reply(r, m.content@),
        outcome is Err ==> is_failure_reply(r),
{
    match outcome {
        Ok(m) => HttpReply {
            status: 200,
            content_type: Some(String::from_str(HTML_CONTENT_TYPE)),
            body: m.content,
        },
        Err(_) => HttpReply { status: 500, content_type: None, body: String::new() },
    }
}

/// The reply for what came back from upstream: the canonical candidate's text
/// as a page, or a failure where the call, the parse or the selection failed.
pub fn respond(upstream: Result<ChatCompletion, HandlerError>) -> (r: HttpReply)
    ensures
        upstream is Err ==> is_failure_reply(r),
        upstream matches Ok(c) ==> (c.choices@.len() == 0 ==> is_failure_reply(r)),
        upstream matches Ok(c) ==> (c.choices@.len() > 0 ==> exists|k: int|
            is_canonical(c.choices@, k) && is_page_reply(r, #[trigger] c.choices@[k].message.content@)),
{
    match upstream {
        Ok(c) => reply_for(first_choice(c)),
        Err(e) => reply_for(Err(e)),
    }
}

} // verus!
