use mail_shard::rules::{categorize_lowered, rule_category, RuleCategory};
use mail_shard::text::{contains, eq_ignore_ascii_case, starts_with};

#[test]
fn urgent_words_win_first() {
    assert_eq!(rule_category("URGENT: reply", ""), RuleCategory::Urgent);
    assert_eq!(rule_category("promo inside", "answer ASAP"), RuleCategory::Urgent);
}

#[test]
fn promotion_words() {
    assert_eq!(rule_category("Big DISCOUNT", "today"), RuleCategory::Promotion);
    assert_eq!(rule_category("news", "new PROMOtion"), RuleCategory::Promotion);
}

#[test]
fn everything_else_is_general() {
    assert_eq!(rule_category("hello", "world"), RuleCategory::General);
    assert_eq!(rule_category("", ""), RuleCategory::General);
    assert_eq!(rule_category("urg", "ent"), RuleCategory::General);
}

#[test]
fn labels_and_confidences() {
    assert_eq!(RuleCategory::Urgent.label(), "긴급");
    assert_eq!(RuleCategory::Promotion.label(), "홍보");
    assert_eq!(RuleCategory::General.label(), "일반");
    assert_eq!(RuleCategory::Urgent.confidence_percent(), 90);
    assert_eq!(RuleCategory::Promotion.confidence_percent(), 80);
    assert_eq!(RuleCategory::General.confidence_percent(), 50);
}

#[test]
fn byte_comparisons() {
    assert!(contains("abc", ""));
    assert!(contains("abcabd", "abd"));
    assert!(!contains("", "a"));
    assert!(!contains("ab", "abc"));
    assert!(starts_with("attachment; filename=x", "attachment"));
    assert!(!starts_with("attach", "attachment"));
    assert!(eq_ignore_ascii_case("Text/HTML", "text/html"));
    assert!(!eq_ignore_ascii_case("ÄB", "äb"));
    assert!(!eq_ignore_ascii_case("text/plain ", "text/plain"));
}

#[test]
fn rules_on_lowered_text() {
    assert_eq!(categorize_lowered("urgent discount", ""), RuleCategory::Urgent);
    assert_eq!(categorize_lowered("weekly promo", ""), RuleCategory::Promotion);
    assert_eq!(categorize_lowered("hello", "world"), RuleCategory::General);
    assert_eq!(categorize_lowered("as", "ap"), RuleCategory::General);
    assert_eq!(categorize_lowered("URGENT", ""), RuleCategory::General);
}
