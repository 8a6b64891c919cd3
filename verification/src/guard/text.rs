//! Joining texts with a separator.

use vstd::prelude::*;

verus! {

/// The parts in order, with the separator between each two neighbours.
pub open spec fn joined(parts: Seq<Seq<char>>, separator: Seq<char>) -> Seq<char>
    decreases parts.len(),
{
    if parts.len() == 0 {
        Seq::empty()
    } else if parts.len() == 1 {
        parts[0]
    } else {
        joined(parts.drop_last(), separator) + separator + parts.last()
    }
}

/// Joining one part more appends the separator and the part, unless it is the
/// first part.
pub proof fn lemma_joined_push(parts: Seq<Seq<char>>, part: Seq<char>, separator: Seq<char>)
    ensures
        joined(parts.push(part), separator) == if parts.len() == 0 {
            part
        } else {
            joined(parts, separator) + separator + part
        },
{
    let longer = parts.push(part);
    assert(longer.drop_last() =~= parts);
}

/// Joins `parts` with `separator` between them.
pub fn join(parts: &Vec<String>, separator: &str) -> (text: String)
    ensures
        text@ == joined(parts.deep_view(), separator@),
{
    let ghost views = parts.deep_view();
    let mut text = String::new();
    let mut done: usize = 0;
    while done < parts.len()
        invariant
            done <= parts.len(),
            views == parts.deep_view(),
            text@ == joined(views.take(done as int), separator@),
        decreases parts.len() - done,
    {
        proof {
            lemma_joined_push(views.take(done as int), views[done as int], separator@);
            assert(views.take(done as int).push(views[done as int]) =~= views.take(done + 1));
        }
        if done > 0 {
            text.append(separator);
        }
        text.append(parts[done].as_str());
        done = done + 1;
    }
    assert(views.take(done as int) =~= views);
    text
}

} // verus!
