use pagegen::message::{ChatCompletion, ChatGPTMessage, Choice, Role};
use pagegen::prompt::{
    build_conversation, conversation_for, reply_for, respond, system_message, HandlerError,
    SYSTEM_PROMPT,
};
use pagegen::selection::{canonical_position, first_choice};

fn choice(index: i32, content: &str) -> Choice {
    Choice {
        index,
        message: ChatGPTMessage { role: Role::Assistant, content: content.to_string() },
    }
}

fn completion(choices: Vec<Choice>) -> ChatCompletion {
    ChatCompletion { choices }
}

#[test]
fn first_choice_takes_smallest_index() {
    let c = completion(vec![choice(3, "c"), choice(1, "b"), choice(2, "x"), choice(5, "e")]);
    let m = first_choice(c).unwrap();
    assert_eq!(m.content, "b");
    assert_eq!(m.role, Role::Assistant);
}

#[test]
fn first_choice_tie_takes_earliest() {
    let c = completion(vec![choice(4, "late"), choice(0, "first"), choice(0, "second")]);
    assert_eq!(first_choice(c).unwrap().content, "first");
}

#[test]
fn first_choice_single_and_negative_indices() {
    assert_eq!(first_choice(completion(vec![choice(7, "only")])).unwrap().content, "only");
    let c = completion(vec![choice(0, "zero"), choice(-2, "neg"), choice(i32::MIN, "min")]);
    assert_eq!(first_choice(c).unwrap().content, "min");
}

#[test]
fn first_choice_empty_fails() {
    let r = first_choice(completion(vec![]));
    assert!(matches!(r, Err(HandlerError::EmptyResponse)));
}

#[test]
fn canonical_position_of_list() {
    assert_eq!(canonical_position(&vec![]), None);
    assert_eq!(canonical_position(&vec![choice(2, "a"), choice(1, "b"), choice(1, "c")]), Some(1));
}

#[test]
fn conversation_for_root_path() {
    let conv = conversation_for("/".to_string());
    assert_eq!(conv.len(), 2);
    assert_eq!(conv[0].role, Role::System);
    assert_eq!(conv[0].content, SYSTEM_PROMPT);
    assert_eq!(conv[1].role, Role::Assistant);
    assert_eq!(conv[1].content, "/");
}

#[test]
fn conversation_keeps_path_verbatim() {
    let path = "/wiki/Rust (language)?q=1";
    let conv = conversation_for(path.to_string());
    assert_eq!(conv.len(), 2);
    assert_eq!(conv[1].content, path);
}

#[test]
fn build_conversation_copies_system_message() {
    let system = ChatGPTMessage { role: Role::User, content: "be brief".to_string() };
    let conv = build_conversation(&system, "/a".to_string());
    assert_eq!(conv.len(), 2);
    assert_eq!(conv[0].role, Role::User);
    assert_eq!(conv[0].content, "be brief");
    assert_eq!(conv[1].role, Role::Assistant);
    assert_eq!(conv[1].content, "/a");
}

#[test]
fn system_message_holds_instruction() {
    let m = system_message();
    assert_eq!(m.role, Role::System);
    assert!(m.content.starts_with("You are an AI assistant programmed to generate HTML pages"));
    assert!(m.content.contains(
        "<link rel=\\\"stylesheet\\\" href=\\\"https://cdn.jsdelivr.net/npm/@picocss/pico@1/css/pico.min.css\\\">"
    ));
    assert!(m.content.contains("be wrapped \ninside a main container element with the class 'container'. \n"));
    assert!(m.content.ends_with("in every HTML page you generate."));
}

#[test]
fn respond_returns_page_of_smallest_index() {
    let c = completion(vec![choice(1, "<html>B</html>"), choice(0, "<html>A</html>")]);
    let reply = respond(Ok(c));
    assert_eq!(reply.status, 200);
    assert_eq!(reply.content_type.as_deref(), Some("text/html"));
    assert_eq!(reply.body, "<html>A</html>");
}

#[test]
fn respond_empty_choices_is_server_error() {
    let reply = respond(Ok(completion(vec![])));
    assert_eq!(reply.status, 500);
    assert_eq!(reply.content_type, None);
    assert_eq!(reply.body, "");
}

#[test]
fn respond_transport_failure_is_server_error() {
    let reply = respond(Err(HandlerError::Transport));
    assert_eq!(reply.status, 500);
    assert_eq!(reply.content_type, None);
    assert_eq!(reply.body, "");
}

#[test]
fn respond_parse_failure_is_server_error() {
    let reply = respond(Err(HandlerError::Parse));
    assert_eq!(reply.status, 500);
    assert_eq!(reply.body, "");
}

#[test]
fn reply_for_message_and_error() {
    let ok = reply_for(Ok(ChatGPTMessage { role: Role::Assistant, content: "<p>x</p>".to_string() }));
    assert_eq!(ok.status, 200);
    assert_eq!(ok.content_type.as_deref(), Some("text/html"));
    assert_eq!(ok.body, "<p>x</p>");
    let err = reply_for(Err(HandlerError::InvalidHeaderValue));
    assert_eq!(err.status, 500);
    assert_eq!(err.content_type, None);
    assert_eq!(err.body, "");
}

#[test]
fn role_tags_are_lowercase() {
    assert_eq!(Role::User.tag(), "user");
    assert_eq!(Role::Assistant.tag(), "assistant");
    assert_eq!(Role::System.tag(), "system");
}

#[test]
fn role_tag_round_trip() {
    for r in [Role::User, Role::Assistant, Role::System] {
        assert_eq!(Role::from_tag(&r.tag()), Some(r));
    }
    assert_eq!(Role::from_tag("System"), None);
    assert_eq!(Role::from_tag(""), None);
    assert_eq!(Role::from_tag("users"), None);
}

#[test]
fn message_duplicate_keeps_fields() {
    let m = ChatGPTMessage { role: Role::System, content: "hello".to_string() };
    let d = m.duplicate();
    assert_eq!(d.role, Role::System);
    assert_eq!(d.content, "hello");
}
