//! Topic filters matched against concrete topics.
//!
//! Topics and filters are held as text. Whether a filter matches is decided by
//! the broker's own topic type, so that this layer and the broker agree on
//! every wildcard and on the `$`-prefixed system levels.

use vstd::prelude::*;

verus! {

/// What the broker's topic type answers for a filter and a topic, both as
/// text: `None` where the filter does not parse, else whether it matches.
pub uninterp spec fn filter_match(filter: Seq<char>, topic: Seq<char>) -> Option<bool>;

/// Parses `filter` with `rmqtt::topic::Topic::from_str` and, where that
/// succeeds, asks `rmqtt::topic::Topic::matches_str` whether it matches
/// `topic`. Both depend on the two texts alone; the contract names the answer
/// and claims nothing more of it.
#[verifier::external_body]
fn match_text(filter: &str, topic: &str) -> (r: Option<bool>)
    ensures
        r == filter_match(filter@, topic@),
{
    match filter.parse::<rmqtt::topic::Topic>() {
        Ok(parsed) => Some(parsed.matches_str(topic)),
        Err(_) => None,
    }
}

/// A filter matches a topic when it parses and the broker's matching says so.
pub open spec fn matches_spec(filter: Seq<char>, topic: Seq<char>) -> bool {
    filter_match(filter, topic) == Some(true)
}

/// Some filter of the set matches the topic.
pub open spec fn any_matches_spec(filters: Seq<String>, topic: Seq<char>) -> bool {
    exists|i: int| 0 <= i < filters.len() && #[trigger] matches_spec(filters[i]@, topic)
}

/// The verdict for one answer of the broker's matching: a filter that does
/// not parse matches nothing.
pub fn verdict(answer: Option<bool>) -> (r: bool)
    ensures
        r == (answer == Some(true)),
{
    match answer {
        Some(b) => b,
        None => false,
    }
}

/// Whether `filter` matches `topic`.
pub fn filter_matches(filter: &str, topic: &str) -> (r: bool)
    ensures
        r == matches_spec(filter@, topic@),
{
    verdict(match_text(filter, topic))
}

/// Whether any filter of `filters` matches `topic`.
pub fn any_matches(filters: &Vec<String>, topic: &str) -> (r: bool)
    ensures
        r == any_matches_spec(filters@, topic@),
{
    let mut i: usize = 0;
    while i < filters.len()
        invariant
            i <= filters.len(),
            forall|j: int| 0 <= j < i ==> !#[trigger] matches_spec(filters@[j]@, topic@),
        decreases filters.len() - i,
    {
        if filter_matches(filters[i].as_str(), topic) {
            return true;
        }
        i += 1;
    }
    false
}

} // verus!
