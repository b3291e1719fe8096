use mail_shard::alert::{alert_content, alert_for, is_spam_label, ClassifyError};
use mail_shard::mail::ParsedEmail;

fn email(subject: &str, from: &str) -> ParsedEmail {
    ParsedEmail::new(
        "7".to_string(),
        Some(subject.to_string()),
        Some(from.to_string()),
        Some("body".to_string()),
        Vec::new(),
    )
}

#[test]
fn spam_label_ignores_ascii_case() {
    assert!(is_spam_label("SPAM"));
    assert!(is_spam_label("spam"));
    assert!(is_spam_label("SpAm"));
    assert!(!is_spam_label("spam "));
    assert!(!is_spam_label("spa"));
    assert!(!is_spam_label("일반"));
    assert!(!is_spam_label(""));
}

#[test]
fn spam_category_uses_spam_prefix() {
    let text = alert_content("Hello", "a@b.c", "SPAM", None);
    assert_eq!(text, "[스팸] 📬 메일 알림\n제목: Hello\n보낸이: a@b.c\n분류: SPAM");
}

#[test]
fn other_category_uses_default_format() {
    let text = alert_content("Hello", "a@b.c", "일반", None);
    assert_eq!(text, "📬 메일 알림\n제목: Hello\n보낸이: a@b.c\n분류: 일반");
}

#[test]
fn alert_names_the_worker() {
    let text = alert_content("S", "F", "spam", Some("2"));
    assert_eq!(text, "[스팸] 📬 메일 알림\n제목: S\n보낸이: F\n분류: spam\n처리자: 2");
}

#[test]
fn classified_message_yields_payload() {
    let em = email("Win", "x@y.z");
    let p = alert_for(&em, &Ok("SPAM".to_string()), Some("0")).unwrap();
    assert_eq!(p.content, "[스팸] 📬 메일 알림\n제목: Win\n보낸이: x@y.z\n분류: SPAM\n처리자: 0");
}

#[test]
fn failed_classification_sends_nothing() {
    let em = email("Win", "x@y.z");
    assert!(alert_for(&em, &Err(ClassifyError::Timeout), None).is_none());
    assert!(alert_for(&em, &Err(ClassifyError::Service), None).is_none());
    assert!(alert_for(&em, &Err(ClassifyError::Malformed), Some("1")).is_none());
}
