//! The morning greeting: what is read from the picture-of-the-day payload
//! and the message that is made of it.

use vstd::prelude::*;

verus! {

/// What stands under `key` in the JSON object `body`: its compact JSON
/// text, and the string that it is, if it is one. Nothing where `body` is
/// no JSON document, no object, or holds no such key.
pub uninterp spec fn json_member(body: Seq<char>, key: Seq<char>) -> Option<(Seq<char>, Option<Seq<char>>)>;

/// The compact JSON text of what stands under `key` in `body`.
pub open spec fn json_member_rendering(body: Seq<char>, key: Seq<char>) -> Option<Seq<char>> {
    match json_member(body, key) {
        Some(member) => Some(member.0),
        None => None,
    }
}

/// The string that stands under `key` in `body`; nothing where something
/// other than a string stands there.
pub open spec fn json_member_string(body: Seq<char>, key: Seq<char>) -> Option<Seq<char>> {
    match json_member(body, key) {
        Some(member) => member.1,
        None => None,
    }
}

/// A member of a JSON object, as far as the greeting reads it.
pub struct JsonMember {
    /// The member as compact JSON text.
    pub rendering: String,
    /// The member as the string that it is, if it is one.
    pub string: Option<String>,
}

/// The text of a string that may be missing.
pub open spec fn text_of(string: Option<String>) -> Option<Seq<char>> {
    match string {
        Some(string) => Some(string@),
        None => None,
    }
}

/// Parses `body` with `serde_json::from_str` into a `serde_json::Value`,
/// looks `key` up with `Value::get`, renders what stands there with the
/// value's `Display`, which writes compact JSON, and reads it as a string
/// with `Value::as_str`. The outcome depends on the two texts alone and
/// goes by the name `json_member`.
#[verifier::external_body]
fn lookup(body: &str, key: &str) -> (found: Option<JsonMember>)
    ensures
        found.is_some() == json_member(body@, key@).is_some(),
        found.is_some() ==> found.unwrap().rendering@ == json_member(body@, key@).unwrap().0
            && text_of(found.unwrap().string) == json_member(body@, key@).unwrap().1,
{
    let document: serde_json::Value = serde_json::from_str(body).ok()?;
    let member = document.get(key)?;
    Some(JsonMember { rendering: member.to_string(), string: member.as_str().map(String::from) })
}

/// Whether `text` reads as a URL.
pub uninterp spec fn url_parses(text: Seq<char>) -> bool;

/// Asks `url::Url::parse` whether it accepts `text`. The answer depends on
/// the text alone and goes by the name `url_parses`.
#[verifier::external_body]
fn parses_as_url(text: &str) -> (accepted: bool)
    ensures
        accepted == url_parses(text@),
{
    url::Url::parse(text).is_ok()
}

/// What the greeting needs of the payload.
pub struct Payload {
    pub title: String,
    pub explanation: String,
    pub image_url: String,
}

/// The greeting as the notification sink takes it: first the photo, then
/// the message.
pub struct Greeting {
    pub image_url: String,
    pub message: String,
}

pub open spec fn greeting_head() -> Seq<char> {
    "☀️ <b>Good morning everyone!</b>\n🪐 <b>Let's wake up to today's <a href=\"https://apod.nasa.gov/apod/astropix.html\">APOD</a>: <i>"@
}

pub open spec fn greeting_middle() -> Seq<char> {
    "</i></b>\n<i>"@
}

pub open spec fn greeting_tail() -> Seq<char> {
    "</i>"@
}

/// The message that greets with a title and an explanation.
pub open spec fn greeting_text(title: Seq<char>, explanation: Seq<char>) -> Seq<char> {
    greeting_head() + title + greeting_middle() + explanation + greeting_tail()
}

/// The message that greets with a title and an explanation.
pub fn compose_message(title: &str, explanation: &str) -> (message: String)
    ensures
        message@ == greeting_text(title@, explanation@),
{
    String::from_str(
        "☀️ <b>Good morning everyone!</b>\n🪐 <b>Let's wake up to today's <a href=\"https://apod.nasa.gov/apod/astropix.html\">APOD</a>: <i>",
    ).concat(title).concat("</i></b>\n<i>").concat(explanation).concat("</i>")
}

/// The payload made of its three members: there is one exactly where none
/// of the members is missing.
pub fn payload_from_members(
    title: Option<String>,
    explanation: Option<String>,
    image_url: Option<String>,
) -> (payload: Option<Payload>)
    ensures
        payload.is_some() <==> title.is_some() && explanation.is_some() && image_url.is_some(),
        payload.is_some() ==> payload.unwrap().title == title.unwrap()
            && payload.unwrap().explanation == explanation.unwrap() && payload.unwrap().image_url
            == image_url.unwrap(),
{
    match (title, explanation, image_url) {
        (Some(title), Some(explanation), Some(image_url)) => Some(
            Payload { title, explanation, image_url },
        ),
        _ => None,
    }
}

/// The members that a payload must hold.
pub open spec fn payload_is_complete(body: Seq<char>) -> bool {
    &&& json_member_rendering(body, "title"@).is_some()
    &&& json_member_rendering(body, "explanation"@).is_some()
    &&& json_member_string(body, "hdurl"@).is_some()
}

/// Reads the payload from the text that the content source sent: the title
/// and the explanation as they are rendered, the picture's address as the
/// string that it is.
pub fn read_payload(body: &str) -> (payload: Option<Payload>)
    ensures
        payload.is_some() <==> payload_is_complete(body@),
        payload.is_some() ==> payload.unwrap().title@ == json_member_rendering(
            body@,
            "title"@,
        ).unwrap() && payload.unwrap().explanation@ == json_member_rendering(
            body@,
            "explanation"@,
        ).unwrap() && payload.unwrap().image_url@ == json_member_string(body@, "hdurl"@).unwrap(),
{
    let title = match lookup(body, "title") {
        Some(member) => Some(member.rendering),
        None => None,
    };
    let explanation = match lookup(body, "explanation") {
        Some(member) => Some(member.rendering),
        None => None,
    };
    let image_url = match lookup(body, "hdurl") {
        Some(member) => member.string,
        None => None,
    };
    payload_from_members(title, explanation, image_url)
}

/// The greeting made of a payload, given whether the picture's address
/// reads as a URL: there is a greeting exactly where it does.
pub fn greeting_if(payload: Payload, address_is_url: bool) -> (greeting: Option<Greeting>)
    ensures
        greeting.is_some() <==> address_is_url,
        greeting.is_some() ==> greeting.unwrap().image_url == payload.image_url
            && greeting.unwrap().message@ == greeting_text(payload.title@, payload.explanation@),
{
    if address_is_url {
        let message = compose_message(payload.title.as_str(), payload.explanation.as_str());
        Some(Greeting { image_url: payload.image_url, message })
    } else {
        None
    }
}

/// The greeting made of a payload; nothing where the picture's address does
/// not read as a URL.
pub fn greeting_of(payload: Payload) -> (greeting: Option<Greeting>)
    ensures
        greeting.is_some() <==> url_parses(payload.image_url@),
        greeting.is_some() ==> greeting.unwrap().image_url == payload.image_url
            && greeting.unwrap().message@ == greeting_text(payload.title@, payload.explanation@),
{
    let address_is_url = parses_as_url(payload.image_url.as_str());
    greeting_if(payload, address_is_url)
}

} // verus!
