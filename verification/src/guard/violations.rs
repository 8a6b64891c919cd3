//! Validation failures: the violations that the validator recorded, and the
//! texts under which they are reported.

use vstd::prelude::*;
use vstd::multiset::Multiset;
use validator::{ValidationError, ValidationErrors};

verus! {

/// `validator::ValidationError`, one broken rule. The library carries it and
/// reads its message.
#[verifier::external_type_specification]
#[verifier::external_body]
pub struct ExValidationError(ValidationError);

/// `validator::ValidationErrors`, the broken rules of one value, by field. The
/// library carries it and reads the messages of its field-level violations.
#[verifier::external_type_specification]
#[verifier::external_body]
pub struct ExValidationErrors(ValidationErrors);

/// The message that a violation carries, if it carries one.
pub uninterp spec fn message_of(violation: ValidationError) -> Option<Seq<char>>;

/// The field-level violations that `errors` holds: one sequence for each field
/// that `field_errors` gives, of the messages of that field's violations in
/// the order in which they were recorded. The fields themselves are in no
/// order.
pub uninterp spec fn field_groups(errors: ValidationErrors) -> Multiset<Seq<Option<Seq<char>>>>;

/// Reads the public field `message` of a `validator::ValidationError` and
/// hands its text on as a `String`.
#[verifier::external_body]
pub(crate) fn message(violation: &ValidationError) -> (message: Option<String>)
    ensures
        message.deep_view() == message_of(*violation),
{
    violation.message.as_deref().map(str::to_owned)
}

/// Calls `validator::ValidationErrors::field_errors`, which gives each field
/// that holds field-level violations once, with its violations in the order in
/// which they were added, and walks what it gives in the order of a hash map,
/// which is not fixed. Of each violation the message is handed on.
#[verifier::external_body]
pub(crate) fn field_messages(errors: &ValidationErrors) -> (groups: Vec<Vec<Option<String>>>)
    ensures
        groups.deep_view().to_multiset() == field_groups(*errors),
{
    let mut groups = Vec::new();
    for violations in errors.field_errors().values() {
        let mut messages = Vec::new();
        for violation in violations.iter() {
            messages.push(violation.message.as_deref().map(str::to_owned));
        }
        groups.push(messages);
    }
    groups
}

/// A message between single quotes.
pub open spec fn quoted(message: Seq<char>) -> Seq<char> {
    "'"@ + message + "'"@
}

/// The text that reports one violation: its message between single quotes, or
/// nothing where it has no message.
pub open spec fn violation_text(message: Option<Seq<char>>) -> Seq<char> {
    match message {
        Some(message) => quoted(message),
        None => Seq::empty(),
    }
}

/// The entry that a violation gets in a list of reports: its quoted message,
/// or none where it has no message.
pub open spec fn listed(message: Option<Seq<char>>) -> Option<Seq<char>> {
    match message {
        Some(message) => Some(quoted(message)),
        None => None,
    }
}

/// The reports of the violations of all fields, field after field: one entry
/// for each violation that has a message, none for the others.
pub open spec fn collected_texts(groups: Seq<Seq<Option<Seq<char>>>>) -> Seq<Seq<char>> {
    listed_texts(groups.flatten())
}

/// The reports of a run of violations: one entry for each violation that has
/// a message, none for the others.
pub open spec fn listed_texts(messages: Seq<Option<Seq<char>>>) -> Seq<Seq<char>> {
    messages.filter_map(|message: Option<Seq<char>>| listed(message))
}

/// `texts` reports the field-level violations of `errors`, the fields taken in
/// some order.
pub open spec fn reports(texts: Seq<Seq<char>>, errors: ValidationErrors) -> bool {
    exists|groups: Seq<Seq<Option<Seq<char>>>>|
        #![trigger collected_texts(groups)]
        groups.to_multiset() == field_groups(errors) && texts == collected_texts(groups)
}

/// The text that reports a violation with the given message.
pub fn format_violation(message: &Option<String>) -> (text: String)
    ensures
        text@ == violation_text(message.deep_view()),
{
    match message {
        Some(message) => {
            let mut text = String::from_str("'");
            text.append(message.as_str());
            text.append("'");
            text
        },
        None => String::new(),
    }
}

/// The reports of two runs of violations, one after the other, are the reports
/// of the first followed by those of the second.
pub proof fn lemma_listed_texts_concat(
    front: Seq<Option<Seq<char>>>,
    back: Seq<Option<Seq<char>>>,
)
    ensures
        listed_texts(front + back) == listed_texts(front) + listed_texts(back),
    decreases back.len(),
{
    if back.len() > 0 {
        assert((front + back).drop_last() =~= front + back.drop_last());
        lemma_listed_texts_concat(front, back.drop_last());
    }
}

/// The reports of one field more are appended to those of the fields before.
pub proof fn lemma_collected_texts_push(
    groups: Seq<Seq<Option<Seq<char>>>>,
    group: Seq<Option<Seq<char>>>,
)
    ensures
        collected_texts(groups.push(group)) == collected_texts(groups) + listed_texts(group),
{
    groups.lemma_flatten_push(group);
    lemma_listed_texts_concat(groups.flatten(), group);
}

/// The reports of the violations in `groups`, field after field: the quoted
/// message of each violation that has one.
pub fn collect(groups: &Vec<Vec<Option<String>>>) -> (texts: Vec<String>)
    ensures
        texts.deep_view() == collected_texts(groups.deep_view()),
{
    let ghost fields = groups.deep_view();
    let mut texts: Vec<String> = Vec::new();
    let mut field: usize = 0;
    while field < groups.len()
        invariant
            field <= groups.len(),
            fields == groups.deep_view(),
            texts.deep_view() == collected_texts(fields.take(field as int)),
        decreases groups.len() - field,
    {
        let group = &groups[field];
        let ghost messages = group.deep_view();
        let ghost before = collected_texts(fields.take(field as int));
        let mut at: usize = 0;
        while at < group.len()
            invariant
                at <= group.len(),
                messages == group.deep_view(),
                texts.deep_view() == before + listed_texts(messages.take(at as int)),
            decreases group.len() - at,
        {
            let ghost earlier = texts.deep_view();
            proof {
                messages.lemma_filter_map_take_succ(
                    |message: Option<Seq<char>>| listed(message),
                    at as int,
                );
            }
            if group[at].is_some() {
                let text = format_violation(&group[at]);
                texts.push(text);
                assert(texts.deep_view() =~= earlier.push(text@));
            }
            at = at + 1;
        }
        proof {
            assert(messages.take(at as int) =~= messages);
            lemma_collected_texts_push(fields.take(field as int), messages);
            assert(fields.take(field as int).push(messages) =~= fields.take(field + 1));
        }
        field = field + 1;
    }
    assert(fields.take(field as int) =~= fields);
    texts
}

} // verus!
