//! The MIME structure of a fetched message, and what is read out of it: the
//! text of the body and the names of the attachments.
use vstd::prelude::*;
use vstd::string::StringSliceAdditionalSpecFns;
use vstd::utf8::encode_utf8;
use crate::mail::{no_body, no_sender, no_subject, opt_view, or_default, link_spec, ParsedEmail};
use crate::text::{ascii_eq_ignore_case, eq_ignore_ascii_case, has_prefix, lower_of, lowercase, starts_with};

verus! {

/// One part of a message, with its decoded contents.
pub struct MimePart {
    /// The media type of the part, as `type/subtype`.
    pub mimetype: String,
    /// The decoded body; `None` when it could not be decoded.
    pub body: Option<String>,
    /// The value of the `Content-Disposition` header, if present.
    pub disposition: Option<String>,
    /// The `filename` parameter of the content disposition, if present.
    pub filename: Option<String>,
    /// The `name` parameter of the content type, if present.
    pub name: Option<String>,
    /// The nested parts of a multipart part.
    pub subparts: Vec<MimePart>,
}

/// The visible text of an HTML fragment: its text nodes, in document order.
pub uninterp spec fn html_text_of(html: Seq<char>) -> Seq<char>;

/// Relies on scraper's `Html::parse_fragment`, `ElementRef::text` of the root
/// element, joined: the text of the fragment, a function of the markup alone.
#[verifier::external_body]
fn html_text(html: &str) -> (r: String)
    ensures
        r@ == html_text_of(html@),
{
    let fragment = scraper::Html::parse_fragment(html);
    fragment.root_element().text().collect::<Vec<_>>().join("")
}

/// `mimetype` names the media type `t`, without regard to ASCII case.
pub open spec fn is_type(mimetype: Seq<char>, t: Seq<char>) -> bool {
    ascii_eq_ignore_case(encode_utf8(mimetype), encode_utf8(t))
}

/// The body text of a part: a plain-text leaf gives its decoded body; else
/// the first nested part that gives a text; else an HTML leaf gives the text
/// of its markup.
pub open spec fn plain_body_spec(p: MimePart) -> Option<Seq<char>>
    decreases p, 1nat, 0nat,
{
    if p.subparts@.len() == 0 && is_type(p.mimetype@, "text/plain"@) {
        opt_view(p.body)
    } else {
        match first_body_from(p, 0) {
            Some(b) => Some(b),
            None => if p.subparts@.len() == 0 && is_type(p.mimetype@, "text/html"@)
                && p.body is Some {
                Some(html_text_of(p.body->0@))
            } else {
                None
            },
        }
    }
}

/// The body text of the first of the nested parts from index `i` on that
/// gives one.
pub open spec fn first_body_from(p: MimePart, i: int) -> Option<Seq<char>>
    decreases p, 0nat, p.subparts@.len() - i,
{
    if 0 <= i < p.subparts@.len() {
        match plain_body_spec(p.subparts@[i]) {
            Some(b) => Some(b),
            None => first_body_from(p, i + 1),
        }
    } else {
        None
    }
}

/// A disposition value that marks an attachment.
pub open spec fn marks_attachment(disposition: Seq<char>) -> bool {
    has_prefix(encode_utf8(lower_of(disposition)), encode_utf8("attachment"@))
}

/// The names that a part itself declares: the file name of an attachment
/// disposition, then the name parameter of its content type.
pub open spec fn own_names(p: MimePart) -> Seq<Seq<char>> {
    (if p.disposition is Some && marks_attachment(p.disposition->0@) && p.filename is Some {
        seq![p.filename->0@]
    } else {
        Seq::empty()
    }) + (if p.name is Some {
        seq![p.name->0@]
    } else {
        Seq::empty()
    })
}

/// The attachment names of a part and of all nested parts, in depth-first
/// order.
pub open spec fn attachments_spec(p: MimePart) -> Seq<Seq<char>>
    decreases p, 1nat, 0nat,
{
    own_names(p) + names_from(p, 0)
}

/// The attachment names of the nested parts from index `i` on.
pub open spec fn names_from(p: MimePart, i: int) -> Seq<Seq<char>>
    decreases p, 0nat, p.subparts@.len() - i,
{
    if 0 <= i < p.subparts@.len() {
        attachments_spec(p.subparts@[i]) + names_from(p, i + 1)
    } else {
        Seq::empty()
    }
}

/// The views of a vector of strings.
pub open spec fn views(v: Seq<String>) -> Seq<Seq<char>> {
    v.map_values(|s: String| s@)
}

fn copy_opt(v: &Option<String>) -> (r: Option<String>)
    ensures
        opt_view(r) == opt_view(*v),
{
    match v {
        Some(s) => Some(s.clone()),
        None => None,
    }
}

/// The body text of `part`: see `plain_body_spec`.
pub fn plain_body(part: &MimePart) -> (r: Option<String>)
    ensures
        opt_view(r) == plain_body_spec(*part),
    decreases part, 1nat, 0nat,
{
    let leaf = part.subparts.len() == 0;
    if leaf && eq_ignore_ascii_case(part.mimetype.as_str(), "text/plain") {
        return copy_opt(&part.body);
    }
    let found = first_body(part, 0);
    if found.is_some() {
        return found;
    }
    if leaf && eq_ignore_ascii_case(part.mimetype.as_str(), "text/html") {
        match &part.body {
            Some(html) => {
                return Some(html_text(html.as_str()));
            },
            None => {},
        }
    }
    None
}

fn first_body(part: &MimePart, i: usize) -> (r: Option<String>)
    requires
        i <= part.subparts@.len(),
    ensures
        opt_view(r) == first_body_from(*part, i as int),
    decreases part, 0nat, part.subparts@.len() - i,
{
    if i >= part.subparts.len() {
        return None;
    }
    let b = plain_body(&part.subparts[i]);
    if b.is_some() {
        b
    } else {
        first_body(part, i + 1)
    }
}

/// Appends to `out` the attachment names of `part` and its nested parts:
/// see `attachments_spec`.
pub fn collect_attachments(part: &MimePart, out: &mut Vec<String>)
    ensures
        views(final(out)@) == views(old(out)@) + attachments_spec(*part),
    decreases part, 1nat, 0nat,
{
    let ghost start = views(out@);
    match &part.disposition {
        Some(disp) => {
            let lowered = lowercase(disp.as_str());
            if starts_with(lowered.as_str(), "attachment") {
                match &part.filename {
                    Some(f) => {
                        out.push(f.clone());
                    },
                    None => {},
                }
            }
        },
        None => {},
    }
    match &part.name {
        Some(n) => {
            out.push(n.clone());
        },
        None => {},
    }
    assert(views(out@) =~= start + own_names(*part));
    collect_from(part, 0, out);
    assert(views(out@) =~= start + attachments_spec(*part));
}

fn collect_from(part: &MimePart, i: usize, out: &mut Vec<String>)
    requires
        i <= part.subparts@.len(),
    ensures
        views(final(out)@) == views(old(out)@) + names_from(*part, i as int),
    decreases part, 0nat, part.subparts@.len() - i,
{
    if i >= part.subparts.len() {
        assert(views(out@) =~= views(out@) + Seq::<Seq<char>>::empty());
        return;
    }
    let ghost start = views(out@);
    collect_attachments(&part.subparts[i], out);
    let ghost mid = views(out@);
    collect_from(part, i + 1, out);
    assert(views(out@) =~= start + names_from(*part, i as int));
}

impl ParsedEmail {
    /// The record of a parsed message with identifier `uid`, headers
    /// `subject` and `from`, and MIME structure `root`. The body is the text
    /// that `plain_body` finds, else the decoded body of the root, else a
    /// placeholder; missing headers become placeholders too.
    pub fn from_mime(uid: String, subject: Option<String>, from: Option<String>, root: &MimePart) -> (r:
        ParsedEmail)
        ensures
            r.uid@ == uid@,
            r.subject@ == or_default(opt_view(subject), no_subject()),
            r.from@ == or_default(opt_view(from), no_sender()),
            r.body@ == or_default(
                match plain_body_spec(*root) {
                    Some(b) => Some(b),
                    None => opt_view(root.body),
                },
                no_body(),
            ),
            views(r.attachments@) == attachments_spec(*root),
            r.gmail_link@ == link_spec(uid@),
    {
        let body = match plain_body(root) {
            Some(b) => Some(b),
            None => copy_opt(&root.body),
        };
        let mut attachments: Vec<String> = Vec::new();
        collect_attachments(root, &mut attachments);
        assert(views(attachments@) =~= attachments_spec(*root));
        ParsedEmail::new(uid, subject, from, body, attachments)
    }
}

} // verus!
