use vstd::prelude::*;
use vstd::string::*;
use crate::message::ChatGPTMessage;
use crate::prompt::HandlerError;

verus! {

/// The chat-completion endpoint that conversations are posted to.
pub const OPENAI_CHAT_API_URL: &'static str = "https://api.openai.com/v1/chat/completions";

/// The model that every request asks for.
pub const OPENAI_MODEL: &'static str = "gpt-3.5-turbo";

pub const CONTENT_TYPE_HEADER: &'static str = "Content-Type";

pub const JSON_CONTENT_TYPE: &'static str = "application/json";

pub const AUTHORIZATION_HEADER: &'static str = "Authorization";

pub const BEARER_PREFIX: &'static str = "Bearer ";

/// A character that may stand in a header name (a token character; upper
/// case letters are taken and lowered).
pub open spec fn is_header_name_char(c: char) -> bool {
    ||| ('a' <= c && c <= 'z')
    ||| ('A' <= c && c <= 'Z')
    ||| ('0' <= c && c <= '9')
    ||| c == '!' || c == '"' || c == '#' || c == '$' || c == '%' || c == '&' || c == '\''
    ||| c == '*' || c == '+' || c == '-' || c == '.' || c == '^' || c == '_' || c == '`'
    ||| c == '|' || c == '~'
}

/// Text that the transport takes as a header name.
pub open spec fn valid_header_name(s: Seq<char>) -> bool {
    &&& 1 <= s.len() <= 65535
    &&& forall|i: int| 0 <= i < s.len() ==> is_header_name_char(#[trigger] s[i])
}

/// Text that the transport takes as a header value: no control character
/// but the tab.
pub open spec fn valid_header_value(s: Seq<char>) -> bool {
    forall|i: int|
        0 <= i < s.len() ==> (#[trigger] s[i] == '\t' || (s[i] as u32 >= 32 && s[i] as u32 != 127))
}

/// Relies on `FromStr` for `reqwest::header::HeaderName` (http's): it accepts
/// a name of 1 to 65535 bytes, each a token character.
#[verifier::external_body]
fn header_name_parses(name: &str) -> (r: bool)
    ensures
        r == valid_header_name(name@),
{
    name.parse::<reqwest::header::HeaderName>().is_ok()
}

/// Relies on `reqwest::header::HeaderValue::from_str` (http's): it refuses a
/// value exactly when one of its bytes is below 32 but for the tab, or is 127.
#[verifier::external_body]
fn header_value_parses(value: &str) -> (r: bool)
    ensures
        r == valid_header_value(value@),
{
    reqwest::header::HeaderValue::from_str(value).is_ok()
}

pub open spec fn header_view(h: (String, String)) -> (Seq<char>, Seq<char>) {
    (h.0@, h.1@)
}

/// The text of a list of header entries.
pub open spec fn headers_view(hs: Seq<(String, String)>) -> Seq<(Seq<char>, Seq<char>)> {
    hs.map_values(|h: (String, String)| header_view(h))
}

/// The entries whose names the transport takes, in their order.
pub open spec fn kept_headers(hs: Seq<(Seq<char>, Seq<char>)>) -> Seq<(Seq<char>, Seq<char>)>
    decreases hs.len(),
{
    if hs.len() == 0 {
        Seq::empty()
    } else {
        let rest = kept_headers(hs.drop_last());
        if valid_header_name(hs.last().0) {
            rest.push(hs.last())
        } else {
            rest
        }
    }
}

/// Some entry has a usable name and a value that the transport refuses.
pub open spec fn has_bad_value(hs: Seq<(Seq<char>, Seq<char>)>) -> bool {
    exists|i: int|
        0 <= i < hs.len() && valid_header_name(#[trigger] hs[i].0) && !valid_header_value(hs[i].1)
}

/// Every entry that is kept has a usable name and is one of the given ones.
pub proof fn lemma_kept_headers_valid(hs: Seq<(Seq<char>, Seq<char>)>)
    ensures
        forall|i: int|
            0 <= i < kept_headers(hs).len() ==> valid_header_name(#[trigger] kept_headers(hs)[i].0),
        forall|i: int| 0 <= i < kept_headers(hs).len() ==> hs.contains(#[trigger] kept_headers(hs)[i]),
    decreases hs.len(),
{
    if hs.len() > 0 {
        lemma_kept_headers_valid(hs.drop_last());
        let rest = kept_headers(hs.drop_last());
        assert forall|i: int| 0 <= i < kept_headers(hs).len() implies hs.contains(
            #[trigger] kept_headers(hs)[i],
        ) by {
            if i < rest.len() {
                let j = choose|j: int| 0 <= j < hs.drop_last().len() && hs.drop_last()[j] == rest[i];
                assert(hs[j] == rest[i]);
            } else {
                assert(hs[hs.len() - 1] == hs.last());
            }
        }
    }
}

/// The headers that go out with a request: entries whose names the transport
/// refuses are left out, and the others keep their order. Fails where a kept
/// entry's value is refused.
pub fn usable_headers(headers: &Vec<(String, String)>) -> (r: Result<Vec<(String, String)>, HandlerError>)
    ensures
        r is Err <==> has_bad_value(headers_view(headers@)),
        r matches Err(e) ==> e == HandlerError::InvalidHeaderValue,
        r matches Ok(v) ==> headers_view(v@) == kept_headers(headers_view(headers@)),
{
    let ghost all = headers_view(headers@);
    let mut out: Vec<(String, String)> = Vec::new();
    let mut i: usize = 0;
    while i < headers.len()
        invariant
            i <= headers@.len(),
            all == headers_view(headers@),
            headers_view(out@) == kept_headers(all.subrange(0, i as int)),
            !has_bad_value(all.subrange(0, i as int)),
        decreases headers@.len() - i,
    {
        let ghost before = all.subrange(0, i as int);
        let ghost upto = all.subrange(0, i + 1);
        assert(upto.drop_last() =~= before);
        assert(upto.last() == header_view(headers@[i as int]));
        let name = &headers[i].0;
        let value = &headers[i].1;
        if header_name_parses(name.as_str()) {
            if !header_value_parses(value.as_str()) {
                assert(all[i as int] == header_view(headers@[i as int]));
                assert(valid_header_name(all[i as int].0) && !valid_header_value(all[i as int].1));
                return Err(HandlerError::InvalidHeaderValue);
            }
            let ghost old_out = out@;
            out.push((name.clone(), value.clone()));
            assert(headers_view(out@) =~= headers_view(old_out).push(upto.last()));
        }
        assert(!has_bad_value(upto)) by {
            assert forall|j: int| 0 <= j < upto.len() && valid_header_name(#[trigger] upto[j].0)
                implies valid_header_value(upto[j].1) by {
                if j < i {
                    assert(upto[j] == before[j]);
                }
            }
        }
        i = i + 1;
    }
    assert(all.subrange(0, i as int) =~= all);
    Ok(out)
}

/// The headers of every upstream request: a JSON content type and the bearer
/// credential.
pub fn completion_headers(token: &str) -> (r: Vec<(String, String)>)
    ensures
        headers_view(r@) == seq![
            (CONTENT_TYPE_HEADER@, JSON_CONTENT_TYPE@),
            (AUTHORIZATION_HEADER@, BEARER_PREFIX@ + token@),
        ],
{
    let mut r: Vec<(String, String)> = Vec::new();
    r.push((String::from_str(CONTENT_TYPE_HEADER), String::from_str(JSON_CONTENT_TYPE)));
    r.push((String::from_str(AUTHORIZATION_HEADER), String::from_str(BEARER_PREFIX).concat(token)));
    assert(headers_view(r@) =~= seq![
        (CONTENT_TYPE_HEADER@, JSON_CONTENT_TYPE@),
        (AUTHORIZATION_HEADER@, BEARER_PREFIX@ + token@),
    ]);
    r
}

/// Everything that one upstream call sends.
#[derive(Debug)]
pub struct OutboundRequest {
    pub url: String,
    pub headers: Vec<(String, String)>,
    pub model: String,
    pub messages: Vec<ChatGPTMessage>,
}

/// The request that posts `messages` to `url` with `headers`: the usable
/// headers only, the fixed model, and the conversation as given. Fails where
/// a usable header's value is refused.
pub fn prepare_request(url: &str, headers: &Vec<(String, String)>, messages: Vec<ChatGPTMessage>) -> (r: Result<OutboundRequest, HandlerError>)
    ensures
        r is Err <==> has_bad_value(headers_view(headers@)),
        r matches Err(e) ==> e == HandlerError::InvalidHeaderValue,
        r matches Ok(q) ==> {
            &&& q.url@ == url@
            &&& headers_view(q.headers@) == kept_headers(headers_view(headers@))
            &&& q.model@ == OPENAI_MODEL@
            &&& q.messages@ == messages@
        },
{
    match usable_headers(headers) {
        Ok(kept) => Ok(OutboundRequest {
            url: String::from_str(url),
            headers: kept,
            model: String::from_str(OPENAI_MODEL),
            messages,
        }),
        Err(e) => Err(e),
    }
}

} // verus!
