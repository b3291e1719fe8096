//! The per-message pipeline decisions: whether a classified message yields a
//! chat notification, and the text of that notification.
use vstd::prelude::*;
use vstd::utf8::encode_utf8;
use crate::mail::ParsedEmail;
use crate::text::{ascii_eq_ignore_case, eq_ignore_ascii_case};

verus! {

/// The body of a chat-webhook message.
pub struct DiscordPayload {
    pub content: String,
}

/// Why a classification call produced no label.
#[derive(Clone, Copy, Debug, PartialEq, Eq, Structural)]
pub enum ClassifyError {
    /// The call did not answer within the configured time.
    Timeout,
    /// The service answered with an error, or could not be reached.
    Service,
    /// The answer held no readable `category` / `confidence` object.
    Malformed,
}

/// Whether a category label is the spam label, compared without regard to
/// ASCII case.
pub open spec fn is_spam_category(category: Seq<char>) -> bool {
    ascii_eq_ignore_case(encode_utf8(category), encode_utf8("SPAM"@))
}

/// The prefix that marks a spam notification.
pub open spec fn spam_prefix() -> Seq<char> {
    "[스팸] "@
}

/// The text of the notification for a classified message.
pub open spec fn alert_text(
    subject: Seq<char>,
    sender: Seq<char>,
    category: Seq<char>,
    worker: Option<Seq<char>>,
) -> Seq<char> {
    (if is_spam_category(category) {
        spam_prefix()
    } else {
        Seq::empty()
    }) + "📬 메일 알림\n제목: "@ + subject + "\n보낸이: "@ + sender + "\n분류: "@ + category + match worker {
        Some(w) => "\n처리자: "@ + w,
        None => Seq::empty(),
    }
}

/// Whether `category` equals `SPAM` without regard to ASCII case.
pub fn is_spam_label(category: &str) -> (r: bool)
    ensures
        r == is_spam_category(category@),
{
    eq_ignore_ascii_case(category, "SPAM")
}

/// The notification text for a message with `subject` from `sender`,
/// classified as `category`, optionally naming the worker that handled it.
pub fn alert_content(subject: &str, sender: &str, category: &str, worker_id: Option<&str>) -> (r:
    String)
    ensures
        r@ == alert_text(
            subject@,
            sender@,
            category@,
            match worker_id {
                Some(w) => Some(w@),
                None => None,
            },
        ),
{
    let mut text = if is_spam_label(category) {
        String::from_str("[스팸] ")
    } else {
        String::new()
    };
    text.append("📬 메일 알림\n제목: ");
    text.append(subject);
    text.append("\n보낸이: ");
    text.append(sender);
    text.append("\n분류: ");
    text.append(category);
    match worker_id {
        Some(w) => {
            text.append("\n처리자: ");
            text.append(w);
        },
        None => {},
    }
    proof {
        let worker = match worker_id {
            Some(w) => Some(w@),
            None => None,
        };
        let prefix = if is_spam_category(category@) {
            spam_prefix()
        } else {
            Seq::<char>::empty()
        };
        let tail = match worker {
            Some(w) => "\n처리자: "@ + w,
            None => Seq::<char>::empty(),
        };
        assert(text@ =~= prefix + "📬 메일 알림\n제목: "@ + subject@ + "\n보낸이: "@ + sender@
            + "\n분류: "@ + category@ + tail);
    }
    text
}

/// The notification that a pipeline unit sends once its message has been
/// classified: `None` when classification failed, so that nothing is sent;
/// otherwise the alert for the message under the returned label.
pub fn alert_for(
    email: &ParsedEmail,
    verdict: &Result<String, ClassifyError>,
    worker_id: Option<&str>,
) -> (r: Option<DiscordPayload>)
    ensures
        match verdict {
            Ok(category) => r is Some && r->0.content@ == alert_text(
                email.subject@,
                email.from@,
                category@,
                match worker_id {
                    Some(w) => Some(w@),
                    None => None,
                },
            ),
            Err(_) => r is None,
        },
{
    match verdict {
        Ok(category) => Some(
            DiscordPayload {
                content: alert_content(
                    email.subject.as_str(),
                    email.from.as_str(),
                    category.as_str(),
                    worker_id,
                ),
            },
        ),
        Err(_) => None,
    }
}

} // verus!
