//! Mailbox records: the account a worker signs in with and the messages that
//! a poll yields.
use vstd::prelude::*;

verus! {

/// Sign-in data of the mailbox account.
pub struct GmailConfig {
    pub email: String,
    pub password: String,
}

impl GmailConfig {
    pub fn new(email: String, password: String) -> (r: GmailConfig)
        ensures
            r.email@ == email@,
            r.password@ == password@,
    {
        GmailConfig { email, password }
    }
}

/// One unread message, as fetched from the mailbox.
pub struct ParsedEmail {
    pub uid: String,
    pub subject: String,
    pub from: String,
    pub body: String,
    pub attachments: Vec<String>,
    pub gmail_link: String,
}

/// Web link that opens a search for the message in the mailbox's web client.
pub open spec fn link_spec(uid: Seq<char>) -> Seq<char> {
    "https://mail.google.com/mail/u/0/#search/rfc822msgid:"@ + uid
}

/// Subject used when the message has no `Subject` header.
pub open spec fn no_subject() -> Seq<char> {
    "(제목 없음)"@
}

/// Sender used when the message has no `From` header.
pub open spec fn no_sender() -> Seq<char> {
    "(보낸 사람 없음)"@
}

/// Body used when no part of the message yields text.
pub open spec fn no_body() -> Seq<char> {
    "(본문 없음)"@
}

/// A present text, or the fallback.
pub open spec fn or_default(v: Option<Seq<char>>, fallback: Seq<char>) -> Seq<char> {
    match v {
        Some(s) => s,
        None => fallback,
    }
}

/// The view of an optional `String`.
pub open spec fn opt_view(v: Option<String>) -> Option<Seq<char>> {
    match v {
        Some(s) => Some(s@),
        None => None,
    }
}

/// The web link of the message with identifier `uid`.
pub fn gmail_link(uid: &str) -> (r: String)
    ensures
        r@ == link_spec(uid@),
{
    let mut link = String::from_str("https://mail.google.com/mail/u/0/#search/rfc822msgid:");
    link.append(uid);
    link
}

fn text_or(v: Option<String>, fallback: &str) -> (r: String)
    ensures
        r@ == or_default(opt_view(v), fallback@),
{
    match v {
        Some(s) => s,
        None => String::from_str(fallback),
    }
}

impl ParsedEmail {
    /// Builds the record of a parsed message; a missing subject, sender or
    /// body is replaced by its placeholder text.
    pub fn new(
        uid: String,
        subject: Option<String>,
        from: Option<String>,
        body: Option<String>,
        attachments: Vec<String>,
    ) -> (r: ParsedEmail)
        ensures
            r.uid@ == uid@,
            r.subject@ == or_default(opt_view(subject), no_subject()),
            r.from@ == or_default(opt_view(from), no_sender()),
            r.body@ == or_default(opt_view(body), no_body()),
            r.attachments@ == attachments@,
            r.gmail_link@ == link_spec(uid@),
    {
        let gmail_link = gmail_link(uid.as_str());
        ParsedEmail {
            uid,
            subject: text_or(subject, "(제목 없음)"),
            from: text_or(from, "(보낸 사람 없음)"),
            body: text_or(body, "(본문 없음)"),
            attachments,
            gmail_link,
        }
    }

    /// The record of a message that was fetched but could not be parsed:
    /// every text field holds a placeholder and there are no attachments.
    pub fn unparsed(uid: String) -> (r: ParsedEmail)
        ensures
            r.uid@ == uid@,
            r.subject@ == "(제목 파싱 실패)"@,
            r.from@ == "(발신자 파싱 실패)"@,
            r.body@ == "(본문 파싱 실패)"@,
            r.attachments@.len() == 0,
            r.gmail_link@ == link_spec(uid@),
    {
        let gmail_link = gmail_link(uid.as_str());
        ParsedEmail {
            uid,
            subject: String::from_str("(제목 파싱 실패)"),
            from: String::from_str("(발신자 파싱 실패)"),
            body: String::from_str("(본문 파싱 실패)"),
            attachments: Vec::new(),
            gmail_link,
        }
    }
}

} // verus!
