//! A classifier that needs no service: it looks for keywords in the lower
//! case text of a message.
use vstd::prelude::*;
use vstd::utf8::encode_utf8;
use crate::text::{contains, has_infix, lower_of, lowercase};

verus! {

/// The category that the keyword rules assign.
#[derive(Clone, Copy, Debug, PartialEq, Eq, Structural)]
pub enum RuleCategory {
    /// The text asks for haste (`urgent`, `asap`).
    Urgent,
    /// The text advertises (`discount`, `promo`).
    Promotion,
    /// Anything else.
    General,
}

/// The text that the rules read: the lower case subject and body, joined by
/// a space.
pub open spec fn rule_text(subject: Seq<char>, body: Seq<char>) -> Seq<char> {
    lower_of(subject) + " "@ + lower_of(body)
}

/// Whether a keyword occurs in a text.
pub open spec fn mentions(text: Seq<char>, word: Seq<char>) -> bool {
    has_infix(encode_utf8(text), encode_utf8(word))
}

/// The category that the keyword rules give a text; the first rule that
/// matches decides.
pub open spec fn rules_on_text(t: Seq<char>) -> RuleCategory {
    if mentions(t, "urgent"@) || mentions(t, "asap"@) {
        RuleCategory::Urgent
    } else if mentions(t, "discount"@) || mentions(t, "promo"@) {
        RuleCategory::Promotion
    } else {
        RuleCategory::General
    }
}

/// The category of a message under the keyword rules.
pub open spec fn rule_category_spec(subject: Seq<char>, body: Seq<char>) -> RuleCategory {
    rules_on_text(rule_text(subject, body))
}

impl RuleCategory {
    /// The label reported for the category.
    pub open spec fn label_spec(self) -> Seq<char> {
        match self {
            RuleCategory::Urgent => "긴급"@,
            RuleCategory::Promotion => "홍보"@,
            RuleCategory::General => "일반"@,
        }
    }

    /// The confidence reported for the category, in hundredths.
    pub open spec fn confidence_spec(self) -> u8 {
        match self {
            RuleCategory::Urgent => 90,
            RuleCategory::Promotion => 80,
            RuleCategory::General => 50,
        }
    }

    /// The label reported for the category.
    pub fn label(&self) -> (r: String)
        ensures
            r@ == self.label_spec(),
    {
        match self {
            RuleCategory::Urgent => String::from_str("긴급"),
            RuleCategory::Promotion => String::from_str("홍보"),
            RuleCategory::General => String::from_str("일반"),
        }
    }

    /// The confidence reported for the category, in hundredths.
    pub fn confidence_percent(&self) -> (r: u8)
        ensures
            r == self.confidence_spec(),
    {
        match self {
            RuleCategory::Urgent => 90,
            RuleCategory::Promotion => 80,
            RuleCategory::General => 50,
        }
    }
}

/// Applies the keyword rules to a message whose subject and body are already
/// in lower case: the rules read them joined by a space.
pub fn categorize_lowered(subject_lower: &str, body_lower: &str) -> (r: RuleCategory)
    ensures
        r == rules_on_text(subject_lower@ + " "@ + body_lower@),
{
    let mut text = String::from_str(subject_lower);
    text.append(" ");
    text.append(body_lower);
    let t = text.as_str();
    if contains(t, "urgent") || contains(t, "asap") {
        RuleCategory::Urgent
    } else if contains(t, "discount") || contains(t, "promo") {
        RuleCategory::Promotion
    } else {
        RuleCategory::General
    }
}

/// Classifies a message by its keywords: see `rule_category_spec`.
pub fn rule_category(subject: &str, body: &str) -> (r: RuleCategory)
    ensures
        r == rule_category_spec(subject@, body@),
{
    let subject_lower = lowercase(subject);
    let body_lower = lowercase(body);
    categorize_lowered(subject_lower.as_str(), body_lower.as_str())
}

} // verus!
