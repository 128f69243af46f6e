use vstd::prelude::*;
use vstd::string::*;
use crate::config::starts_with;

verus! {

/// Who speaks in one turn of a conversation.
#[derive(Clone, Copy, Debug, PartialEq, Eq, Structural)]
pub enum Role {
    User,
    Assistant,
    System,
}

/// One turn of a conversation: a role and its text.
#[derive(Clone, Debug)]
pub struct ChatGPTMessage {
    pub role: Role,
    pub content: String,
}

/// One candidate answer of the upstream API.
#[derive(Debug)]
pub struct Choice {
    pub index: i32,
    pub message: ChatGPTMessage,
}

/// The parsed answer of the upstream API: its candidates, in the order given.
#[derive(Debug)]
pub struct ChatCompletion {
    pub choices: Vec<Choice>,
}

/// The lowercase tag that stands for a role on the wire.
pub open spec fn role_tag(r: Role) -> Seq<char> {
    match r {
        Role::User => seq!['u', 's', 'e', 'r'],
        Role::Assistant => seq!['a', 's', 's', 'i', 's', 't', 'a', 'n', 't'],
        Role::System => seq!['s', 'y', 's', 't', 'e', 'm'],
    }
}

/// The role that a wire tag stands for, if any.
pub open spec fn role_of_tag(t: Seq<char>) -> Option<Role> {
    if t == role_tag(Role::User) {
        Some(Role::User)
    } else if t == role_tag(Role::Assistant) {
        Some(Role::Assistant)
    } else if t == role_tag(Role::System) {
        Some(Role::System)
    } else {
        None
    }
}

/// Two messages hold the same role and the same text.
pub open spec fn same_message(a: ChatGPTMessage, b: ChatGPTMessage) -> bool {
    a.role == b.role && a.content@ == b.content@
}

/// Reading back the tag of a role gives that role, for each of the three roles.
pub proof fn lemma_role_tag_round_trip(r: Role)
    ensures
        role_of_tag(role_tag(r)) == Some(r),
{
    assert(role_tag(Role::User) != role_tag(Role::Assistant));
    assert(role_tag(Role::User) != role_tag(Role::System));
    assert(role_tag(Role::Assistant) != role_tag(Role::System));
}

fn same_text(a: &str, b: &str) -> (r: bool)
    ensures
        r == (a@ == b@),
{
    if a.unicode_len() != b.unicode_len() {
        return false;
    }
    let r = starts_with(a, b);
    assert(r ==> a@ =~= b@);
    r
}

impl Role {
    /// The lowercase wire tag of this role.
    pub fn tag(&self) -> (r: String)
        ensures
            r@ == role_tag(*self),
    {
        proof {
            reveal_strlit("user");
            reveal_strlit("assistant");
            reveal_strlit("system");
        }
        match self {
            Role::User => String::from_str("user"),
            Role::Assistant => String::from_str("assistant"),
            Role::System => String::from_str("system"),
        }
    }

    /// The role whose wire tag is `t`; `None` for any other text.
    pub fn from_tag(t: &str) -> (r: Option<Role>)
        ensures
            r == role_of_tag(t@),
    {
        proof {
            reveal_strlit("user");
            reveal_strlit("assistant");
            reveal_strlit("system");
            assert("user"@ =~= role_tag(Role::User));
            assert("assistant"@ =~= role_tag(Role::Assistant));
            assert("system"@ =~= role_tag(Role::System));
        }
        if same_text(t, "user") {
            Some(Role::User)
        } else if same_text(t, "assistant") {
            Some(Role::Assistant)
        } else if same_text(t, "system") {
            Some(Role::System)
        } else {
            None
        }
    }
}

impl ChatGPTMessage {
    /// A copy of this message, with the same role and text.
    pub fn duplicate(&self) -> (r: ChatGPTMessage)
        ensures
            same_message(r, *self),
    {
        ChatGPTMessage { role: self.role, content: self.content.clone() }
    }
}

} // verus!
