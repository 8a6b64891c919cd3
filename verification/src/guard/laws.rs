//! What holds of the guard on every request.

use vstd::prelude::*;
use vstd::seq_lib::lemma_flatten_concat;
use validator::ValidationErrors;
use crate::guard::decode::{category_of, ErrorCategory};
use crate::guard::request::declares_json;
use crate::guard::outcome::Outcome;
use crate::guard::text::joined;
use crate::guard::violations::{
    collected_texts, field_groups, lemma_collected_texts_push, lemma_listed_texts_concat,
    listed_texts, reports,
};
use crate::guard::{answers, settles, validation_message, Progress, Step, LIMIT};

verus! {

/// A request that does not declare a JSON body is forwarded: it is neither
/// read nor refused.
pub proof fn law_other_content_is_forwarded<T>(progress: Progress<T>, step: Step<T>)
    requires
        answers(progress, step),
        progress matches Progress::Received { content_type } && !declares_json(content_type),
    ensures
        step == (Step::Done { outcome: Outcome::<T>::Forward }),
        !(step matches Step::Done { outcome: Outcome::Failure(_) }),
        !(step is ReadBody),
{
}

/// Whenever the guard asks for a body to be read, it asks for no more than
/// `LIMIT` bytes; and the body that it hands to the decoder is the one that
/// was read, nothing added.
pub proof fn law_read_is_bounded<T>(progress: Progress<T>, step: Step<T>)
    requires
        answers(progress, step),
    ensures
        step matches Step::ReadBody { limit } ==> limit == LIMIT,
        step matches Step::Decode { body } ==> progress == (Progress::<T>::BodyRead {
            read: Ok(body),
        }),
{
}

/// A body that does not decode is refused, with the status of its failure:
/// 400 where the input ends early or is not JSON, 422 where it is JSON of the
/// wrong shape, 500 where bytes could not be read.
pub proof fn law_decode_failure_is_refused<T>(error: serde_json::Error, step: Step<T>)
    requires
        answers(Progress::<T>::Decoded { decoded: Err(error) }, step),
    ensures
        step matches Step::Done { outcome: Outcome::Failure(rejection) } && rejection.status.code()
            == match category_of(error) {
            ErrorCategory::Eof => 400u16,
            ErrorCategory::Syntax => 400u16,
            ErrorCategory::Data => 422u16,
            ErrorCategory::Io => 500u16,
        },
{
}

/// Whether every violation in `groups` carries a message.
pub open spec fn all_have_messages(groups: Seq<Seq<Option<Seq<char>>>>) -> bool {
    forall|field: int, at: int|
        #![trigger groups[field][at]]
        0 <= field < groups.len() && 0 <= at < groups[field].len() ==> groups[field][at] is Some
}

/// The number of violations in `groups`, over all fields.
pub open spec fn violation_count(groups: Seq<Seq<Option<Seq<char>>>>) -> nat {
    groups.flatten().len()
}

/// A run of violations has at most one report for each violation, and exactly
/// one where every violation carries a message.
proof fn lemma_listed_texts_len(messages: Seq<Option<Seq<char>>>)
    ensures
        listed_texts(messages).len() <= messages.len(),
        (forall|at: int| 0 <= at < messages.len() ==> (#[trigger] messages[at]) is Some)
            ==> listed_texts(messages).len() == messages.len(),
    decreases messages.len(),
{
    if messages.len() > 0 {
        lemma_listed_texts_len(messages.drop_last());
    }
}

/// Where every violation of every field carries a message, every violation of
/// the fields taken together does.
proof fn lemma_flatten_has_messages(groups: Seq<Seq<Option<Seq<char>>>>)
    requires
        all_have_messages(groups),
    ensures
        forall|at: int|
            0 <= at < groups.flatten().len() ==> (#[trigger] groups.flatten()[at]) is Some,
    decreases groups.len(),
{
    if groups.len() > 0 {
        let rest = groups.drop_first();
        assert(all_have_messages(rest));
        lemma_flatten_has_messages(rest);
    }
}

/// Leaving one field out leaves its reports out, and no others.
proof fn lemma_collected_texts_remove(groups: Seq<Seq<Option<Seq<char>>>>, field: int)
    requires
        0 <= field < groups.len(),
    ensures
        collected_texts(groups).len() == collected_texts(groups.remove(field)).len() + listed_texts(
            groups[field],
        ).len(),
{
    let front = groups.take(field);
    let back = groups.skip(field + 1);
    assert(groups =~= front.push(groups[field]) + back);
    lemma_flatten_concat(front.push(groups[field]), back);
    lemma_flatten_concat(front, back);
    front.lemma_flatten_push(groups[field]);
    lemma_listed_texts_concat(front.flatten() + groups[field], back.flatten());
    lemma_listed_texts_concat(front.flatten(), groups[field]);
    lemma_listed_texts_concat(front.flatten(), back.flatten());
}

/// The number of reports does not depend on the order in which the fields are
/// taken.
pub proof fn lemma_reports_len_any_order(
    first: Seq<Seq<Option<Seq<char>>>>,
    second: Seq<Seq<Option<Seq<char>>>>,
)
    requires
        first.to_multiset() == second.to_multiset(),
    ensures
        collected_texts(first).len() == collected_texts(second).len(),
    decreases first.len(),
{
    broadcast use vstd::seq_lib::group_to_multiset_ensures;

    second.to_multiset_ensures();
    if first.len() > 0 {
        let group = first.last();
        assert(second.to_multiset().count(group) > 0);
        let field = choose|field: int| 0 <= field < second.len() && second[field] == group;
        assert(first.remove(first.len() - 1) =~= first.drop_last());
        lemma_reports_len_any_order(first.drop_last(), second.remove(field));
        lemma_collected_texts_push(first.drop_last(), group);
        assert(first.drop_last().push(group) =~= first);
        lemma_collected_texts_remove(second, field);
    }
}

/// A list of reports has at most one entry for each violation, and exactly
/// one where every violation carries a message: for `groups` any way of taking
/// the fields of `errors` in turn, `texts` is as long as `groups` has
/// violations.
pub proof fn law_one_report_per_violation(
    texts: Seq<Seq<char>>,
    errors: ValidationErrors,
    groups: Seq<Seq<Option<Seq<char>>>>,
)
    requires
        reports(texts, errors),
        groups.to_multiset() == field_groups(errors),
    ensures
        texts.len() <= violation_count(groups),
        all_have_messages(groups) ==> texts.len() == violation_count(groups),
{
    let taken = choose|taken: Seq<Seq<Option<Seq<char>>>>|
        #![trigger collected_texts(taken)]
        taken.to_multiset() == field_groups(errors) && texts == collected_texts(taken);
    lemma_reports_len_any_order(taken, groups);
    lemma_listed_texts_len(groups.flatten());
    if all_have_messages(groups) {
        lemma_flatten_has_messages(groups);
    }
}

/// A value that breaks rules, each with a message, is refused with status 400
/// and a message that lists as many reports as rules were broken, separated
/// by `;`, after the fixed introduction.
pub proof fn law_refusal_lists_every_violation<T>(
    resource: T,
    errors: ValidationErrors,
    outcome: Outcome<T>,
    groups: Seq<Seq<Option<Seq<char>>>>,
)
    requires
        settles(resource, Err(errors), outcome),
        groups.to_multiset() == field_groups(errors),
        all_have_messages(groups),
    ensures
        outcome matches Outcome::Failure(rejection) && rejection.status.code() == 400
            && exists|texts: Seq<Seq<char>>|
            #![trigger joined(texts, ";"@)]
            texts.len() == violation_count(groups) && rejection.message@
                == "The following validation errors occurred: "@ + joined(texts, ";"@),
{
    let rejection = outcome->Failure_0;
    let texts = choose|texts: Seq<Seq<char>>|
        #![trigger reports(texts, errors)]
        reports(texts, errors) && rejection.message@ == validation_message(texts);
    law_one_report_per_violation(texts, errors, groups);
    assert(rejection.message@ == "The following validation errors occurred: "@ + joined(
        texts,
        ";"@,
    ));
}

} // verus!
