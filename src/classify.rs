//! The text exchanged with the classification service: the prompt built from
//! a message, and the JSON object picked out of the service's answer.
use vstd::prelude::*;
use crate::mail::{opt_view, or_default};

verus! {

/// The first group of the leftmost match of ```` ```json\s*([\s\S]*?)\s*``` ````
/// in a text: the inside of a fenced JSON block, if there is one.
pub uninterp spec fn fenced_json_of(text: Seq<char>) -> Option<Seq<char>>;

/// Relies on regex's `Regex::captures` (with `Captures::get(1)`): the first
/// capture group of the leftmost match, which depends on the text alone.
#[verifier::external_body]
fn fenced_json(text: &str) -> (r: Option<String>)
    ensures
        opt_view(r) == fenced_json_of(text@),
{
    let re = regex::Regex::new(r"```json\s*([\s\S]*?)\s*```").unwrap();
    re.captures(text).and_then(|c| c.get(1)).map(|m| m.as_str().to_string())
}

/// The instruction given to the classification service.
pub open spec fn system_prompt_spec() -> Seq<char> {
    "당신은 이메일 스팸 분류 전문가입니다. 결과는 정확히 JSON 하나만, 예시처럼 응답하세요:\n{\"category\":\"SPAM\",\"confidence\":0.87}"@
}

/// The question asked about one message.
pub open spec fn user_prompt_spec(subject: Seq<char>, body: Seq<char>) -> Seq<char> {
    "제목: "@ + subject + "\n본문:\n"@ + body
}

/// The instruction given to the classification service: answer with exactly
/// one JSON object holding `category` and `confidence`.
pub fn system_prompt() -> (r: String)
    ensures
        r@ == system_prompt_spec(),
{
    String::from_str(
        "당신은 이메일 스팸 분류 전문가입니다. 결과는 정확히 JSON 하나만, 예시처럼 응답하세요:\n{\"category\":\"SPAM\",\"confidence\":0.87}",
    )
}

/// The question asked about a message with `subject` and `body`.
pub fn user_prompt(subject: &str, body: &str) -> (r: String)
    ensures
        r@ == user_prompt_spec(subject@, body@),
{
    let mut text = String::from_str("제목: ");
    text.append(subject);
    text.append("\n본문:\n");
    text.append(body);
    proof {
        assert(text@ =~= "제목: "@ + subject@ + "\n본문:\n"@ + body@);
    }
    text
}

/// The text to read as JSON, given the fenced block found in the answer
/// `full`, if any: that block, else the whole answer.
pub fn select_json_block(full: &str, fenced: Option<String>) -> (r: String)
    ensures
        r@ == or_default(opt_view(fenced), full@),
{
    match fenced {
        Some(block) => block,
        None => String::from_str(full),
    }
}

/// The text to read as JSON in the service's answer `full`: the inside of its
/// first fenced JSON block, else the whole answer.
pub fn json_block(full: &str) -> (r: String)
    ensures
        r@ == or_default(fenced_json_of(full@), full@),
{
    let fenced = fenced_json(full);
    select_json_block(full, fenced)
}

} // verus!
