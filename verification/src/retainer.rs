//! Retained messages: a store of one node, and the cluster-wide read that
//! adds what the peers hold to what the node's own store returned.

use crate::assoc::{
    distinct_keys, key_index, lemma_key_index, lemma_key_index_is_first, lemma_put_distinct,
    lemma_put_value, put, value_of,
};
use crate::peers::SendResult;
use crate::topic::{filter_matches, matches_spec};
use crate::types::{MessageType, Retain, RetainModel, RpcMessage, RpcMessageModel, RpcReply};
use vstd::prelude::*;

verus! {

/// A retained message with the topic it is stored under.
pub type RetainEntry = (Seq<char>, RetainModel);

/// The models of a list of retained messages.
pub open spec fn entries_model(entries: Seq<(String, Retain)>) -> Seq<RetainEntry> {
    Seq::new(entries.len(), |i: int| (entries[i].0@, entries[i].1@))
}

/// The entries whose topic the filter matches, in their order.
pub open spec fn matching(entries: Seq<RetainEntry>, filter: Seq<char>) -> Seq<RetainEntry>
    decreases entries.len(),
{
    if entries.len() == 0 {
        Seq::empty()
    } else if matches_spec(filter, entries.last().0) {
        matching(entries.drop_last(), filter).push(entries.last())
    } else {
        matching(entries.drop_last(), filter)
    }
}

/// What one peer contributes to a read: the retained messages of its answer,
/// and nothing where the send failed or the answer is of another kind.
pub open spec fn reply_retains(outcome: SendResult) -> Seq<RetainEntry> {
    match outcome {
        Ok(RpcReply::GetRetains(retains)) => entries_model(retains@),
        _ => Seq::empty(),
    }
}

/// What each peer contributes, peer by peer.
pub open spec fn answers_of(outcomes: Seq<SendResult>) -> Seq<Seq<RetainEntry>> {
    Seq::new(outcomes.len(), |i: int| reply_retains(outcomes[i]))
}

/// The contributions of all peers, one after the other.
pub open spec fn gathered(answers: Seq<Seq<RetainEntry>>) -> Seq<RetainEntry>
    decreases answers.len(),
{
    if answers.len() == 0 {
        Seq::empty()
    } else {
        gathered(answers.drop_last()) + answers.last()
    }
}

/// The retained messages of one node, one per topic.
pub struct RetainStore {
    pub entries: Vec<(String, Retain)>,
}

impl View for RetainStore {
    type V = Seq<RetainEntry>;

    open spec fn view(&self) -> Seq<RetainEntry> {
        entries_model(self.entries@)
    }
}

impl RetainStore {
    /// No topic is stored twice.
    pub open spec fn wf(&self) -> bool {
        distinct_keys(self@)
    }

    /// A store that holds nothing.
    pub fn new() -> (r: RetainStore)
        ensures
            r.wf(),
            r@ == Seq::<RetainEntry>::empty(),
    {
        let r = RetainStore { entries: Vec::new() };
        assert(r@ =~= Seq::<RetainEntry>::empty());
        r
    }

    /// Stores `retain` under `topic`, in place of what was stored there.
    pub fn set(&mut self, topic: &str, retain: Retain)
        requires
            old(self).wf(),
        ensures
            final(self).wf(),
            final(self)@ == put(old(self)@, topic@, retain@),
    {
        let ghost before = self@;
        let name = String::from_str(topic);
        let mut i: usize = 0;
        while i < self.entries.len() && self.entries[i].0 != name
            invariant
                i <= self.entries.len(),
                self@ == before,
                name@ == topic@,
                forall|j: int| 0 <= j < i ==> self.entries@[j].0@ != topic@,
            decreases self.entries.len() - i,
        {
            i += 1;
        }
        proof {
            assert forall|j: int| 0 <= j < i implies before[j].0 != topic@ by {
                assert(before[j].0 == self.entries@[j].0@);
            }
            lemma_key_index(before, topic@, i as int);
            lemma_put_distinct(before, topic@, retain@);
        }
        if i < self.entries.len() {
            self.entries.set(i, (name, retain));
        } else {
            self.entries.push((name, retain));
        }
        assert(self@ =~= put(before, topic@, retain@));
    }

    /// The retained messages whose topic `filter` matches, in the order in
    /// which their topics were first stored.
    pub fn get(&self, filter: &str) -> (r: Vec<(String, Retain)>)
        ensures
            entries_model(r@) == matching(self@, filter@),
    {
        let mut found: Vec<(String, Retain)> = Vec::new();
        assert(entries_model(found@) =~= Seq::empty());
        let mut i: usize = 0;
        while i < self.entries.len()
            invariant
                i <= self.entries.len(),
                entries_model(found@) == matching(self@.take(i as int), filter@),
            decreases self.entries.len() - i,
        {
            assert(self@.take(i + 1).drop_last() =~= self@.take(i as int));
            assert(self@.take(i + 1).last() == (self.entries@[i as int].0@, self.entries@[i as int].1@));
            if filter_matches(filter, self.entries[i].0.as_str()) {
                let ghost before = found@;
                found.push((self.entries[i].0.clone(), self.entries[i].1.duplicate()));
                assert(entries_model(found@) =~= entries_model(before).push(self@[i as int]));
            }
            i += 1;
        }
        assert(self@.take(i as int) =~= self@);
        found
    }
}

/// A read of the node's own store failed.
#[derive(Clone, Debug, PartialEq, Eq)]
pub struct StoreError {
    pub reason: String,
}

/// How a read of the node's own store ended.
pub type LocalRead = Result<Vec<(String, Retain)>, StoreError>;

/// The cluster-wide read of retained messages on one node. Writes stay on
/// the node that takes them; a read adds what the peers answer to what the
/// node's own store returned.
pub struct ClusterRetainer {
    pub message_type: MessageType,
}

impl ClusterRetainer {
    /// A retainer whose questions to the peers carry `message_type`.
    pub fn new(message_type: MessageType) -> (r: ClusterRetainer)
        ensures
            r.message_type == message_type,
    {
        ClusterRetainer { message_type }
    }

    /// The question that a read with `filter` asks every peer, given how the
    /// read of the node's own store ended. After a failed local read no peer
    /// is asked.
    pub fn query(&self, filter: &str, local: &LocalRead) -> (r: Option<RpcMessage>)
        ensures
            match local {
                Ok(_) => r matches Some(msg) && msg@ == RpcMessageModel::GetRetains(filter@),
                Err(_) => r.is_none(),
            },
    {
        match local {
            Ok(_) => Some(RpcMessage::GetRetains(String::from_str(filter))),
            Err(_) => None,
        }
    }

    /// The outcome of a cluster-wide read. A failed local read is handed on
    /// as it is, whatever the peers answered. Else the result holds what the
    /// local read returned, then what each peer answered, peer after peer; a
    /// peer whose send failed, or that answered something else, contributes
    /// nothing and does not fail the read.
    pub fn get(&self, local: LocalRead, outcomes: Vec<SendResult>) -> (r: LocalRead)
        ensures
            match local {
                Ok(found) => r matches Ok(all) && entries_model(all@) == entries_model(found@)
                    + gathered(answers_of(outcomes@)),
                Err(e) => r matches Err(handed) && handed == e,
            },
    {
        let mut retains = match local {
            Ok(found) => found,
            Err(e) => {
                return Err(e);
            },
        };
        let ghost local_model = entries_model(retains@);
        let ghost answers = answers_of(outcomes@);
        assert(answers.take(0) =~= Seq::empty());
        for outcome in it: outcomes
            invariant
                it.seq() == outcomes@,
                answers == answers_of(outcomes@),
                entries_model(retains@) == local_model + gathered(
                    answers.take(it.index() as int),
                ),
        {
            let ghost i = it.index() as int;
            let ghost before = retains@;
            proof {
                assert(answers.take(i + 1).drop_last() =~= answers.take(i));
                assert(answers.take(i + 1).last() == reply_retains(outcome));
            }
            match outcome {
                Ok(RpcReply::GetRetains(peer_retains)) => {
                    let mut more = peer_retains;
                    retains.append(&mut more);
                    assert(entries_model(retains@) =~= entries_model(before) + entries_model(
                        peer_retains@,
                    ));
                    assert(local_model + gathered(answers.take(i)) + reply_retains(outcome)
                        =~= local_model + (gathered(answers.take(i)) + reply_retains(outcome)));
                },
                _ => {
                    assert(gathered(answers.take(i)) + Seq::<RetainEntry>::empty() =~= gathered(
                        answers.take(i),
                    ));
                },
            }
        }
        assert(answers.take(outcomes@.len() as int) =~= answers);
        Ok(retains)
    }
}

/// The store after the writes `sets` were made to it, one after the other.
pub open spec fn after_sets(store: Seq<RetainEntry>, sets: Seq<RetainEntry>) -> Seq<RetainEntry>
    decreases sets.len(),
{
    if sets.len() == 0 {
        store
    } else {
        put(after_sets(store, sets.drop_last()), sets.last().0, sets.last().1)
    }
}

/// The last message that the writes `sets` stored under `topic`, if any did.
pub open spec fn last_written(sets: Seq<RetainEntry>, topic: Seq<char>) -> Option<RetainModel>
    decreases sets.len(),
{
    if sets.len() == 0 {
        None
    } else if sets.last().0 == topic {
        Some(sets.last().1)
    } else {
        last_written(sets.drop_last(), topic)
    }
}

/// What the peers of the node `at` answer to a read with `filter`, node by
/// node, where every peer is reached and answers with what its own store
/// holds. The node itself is not asked and stands with an empty answer.
pub open spec fn peer_answers(stores: Seq<Seq<RetainEntry>>, at: int, filter: Seq<char>) -> Seq<
    Seq<RetainEntry>,
> {
    Seq::new(
        stores.len(),
        |j: int|
            if j == at {
                Seq::empty()
            } else {
                matching(stores[j], filter)
            },
    )
}

/// What a read with `filter` on the node `at` returns where every peer is
/// reached: the node's own matches, then those of its peers.
pub open spec fn cluster_get(stores: Seq<Seq<RetainEntry>>, at: int, filter: Seq<char>) -> Seq<
    RetainEntry,
> {
    matching(stores[at], filter) + gathered(peer_answers(stores, at, filter))
}

/// An entry whose topic the filter matches is among the matches.
pub proof fn lemma_matching_contains(entries: Seq<RetainEntry>, filter: Seq<char>, i: int)
    requires
        0 <= i < entries.len(),
        matches_spec(filter, entries[i].0),
    ensures
        matching(entries, filter).contains(entries[i]),
    decreases entries.len(),
{
    let found = matching(entries, filter);
    if i == entries.len() - 1 {
        assert(found[found.len() - 1] == entries[i]);
    } else {
        let rest = entries.drop_last();
        assert(rest[i] == entries[i]);
        lemma_matching_contains(rest, filter, i);
        let k = choose|k: int| 0 <= k < matching(rest, filter).len() && matching(rest, filter)[k]
            == entries[i];
        assert(found[k] == entries[i]);
    }
}

/// What one peer contributed is in what all peers contributed.
pub proof fn lemma_gathered_contains(answers: Seq<Seq<RetainEntry>>, j: int, entry: RetainEntry)
    requires
        0 <= j < answers.len(),
        answers[j].contains(entry),
    ensures
        gathered(answers).contains(entry),
    decreases answers.len(),
{
    let all = gathered(answers);
    let before = gathered(answers.drop_last());
    if j == answers.len() - 1 {
        let k = choose|k: int| 0 <= k < answers[j].len() && answers[j][k] == entry;
        assert(all[before.len() + k] == entry);
    } else {
        assert(answers.drop_last()[j] == answers[j]);
        lemma_gathered_contains(answers.drop_last(), j, entry);
        let k = choose|k: int| 0 <= k < before.len() && before[k] == entry;
        assert(all[k] == entry);
    }
}

/// After a run of writes, each topic written holds what was written to it
/// last, and every other topic holds what it held before.
pub proof fn lemma_value_after_sets(
    store: Seq<RetainEntry>,
    sets: Seq<RetainEntry>,
    topic: Seq<char>,
)
    ensures
        value_of(after_sets(store, sets), topic) == match last_written(sets, topic) {
            Some(retain) => Some(retain),
            None => value_of(store, topic),
        },
    decreases sets.len(),
{
    if sets.len() > 0 {
        lemma_value_after_sets(store, sets.drop_last(), topic);
        lemma_put_value(
            after_sets(store, sets.drop_last()),
            sets.last().0,
            sets.last().1,
            topic,
        );
    }
}

/// After any run of writes, a read whose filter matches a topic that was
/// written returns that topic with the message written to it last.
pub proof fn lemma_get_after_sets(
    store: Seq<RetainEntry>,
    sets: Seq<RetainEntry>,
    topic: Seq<char>,
    retain: RetainModel,
    filter: Seq<char>,
)
    requires
        last_written(sets, topic) == Some(retain),
        matches_spec(filter, topic),
    ensures
        matching(after_sets(store, sets), filter).contains((topic, retain)),
{
    let after = after_sets(store, sets);
    lemma_value_after_sets(store, sets, topic);
    lemma_key_index_is_first(after, topic);
    let at = key_index(after, topic);
    assert(after[at] == (topic, retain));
    lemma_matching_contains(after, filter, at);
}

/// In a cluster whose peers are all reached, a read on any node returns
/// every retained message, of whichever node, whose topic the filter matches.
pub proof fn lemma_cluster_get_complete(
    stores: Seq<Seq<RetainEntry>>,
    at: int,
    node: int,
    i: int,
    filter: Seq<char>,
)
    requires
        0 <= at < stores.len(),
        0 <= node < stores.len(),
        0 <= i < stores[node].len(),
        matches_spec(filter, stores[node][i].0),
    ensures
        cluster_get(stores, at, filter).contains(stores[node][i]),
{
    let entry = stores[node][i];
    let local = matching(stores[at], filter);
    let answers = peer_answers(stores, at, filter);
    let all = cluster_get(stores, at, filter);
    lemma_matching_contains(stores[node], filter, i);
    if node == at {
        let k = choose|k: int| 0 <= k < local.len() && local[k] == entry;
        assert(all[k] == entry);
    } else {
        assert(answers[node] == matching(stores[node], filter));
        lemma_gathered_contains(answers, node, entry);
        let k = choose|k: int| 0 <= k < gathered(answers).len() && gathered(answers)[k] == entry;
        assert(all[local.len() + k] == entry);
    }
}

/// Whether some node of the cluster holds `entry` under a topic that the
/// filter matches.
pub open spec fn held_somewhere(
    stores: Seq<Seq<RetainEntry>>,
    filter: Seq<char>,
    entry: RetainEntry,
) -> bool {
    exists|node: int, i: int|
        0 <= node < stores.len() && 0 <= i < stores[node].len() && #[trigger] stores[node][i]
            == entry && matches_spec(filter, entry.0)
}

/// What is among the matches is an entry whose topic the filter matches.
pub proof fn lemma_matching_from(entries: Seq<RetainEntry>, filter: Seq<char>, entry: RetainEntry)
    requires
        matching(entries, filter).contains(entry),
    ensures
        exists|i: int| 0 <= i < entries.len() && #[trigger] entries[i] == entry,
        matches_spec(filter, entry.0),
    decreases entries.len(),
{
    let found = matching(entries, filter);
    let k = choose|k: int| 0 <= k < found.len() && found[k] == entry;
    if entries.len() > 0 {
        let rest = entries.drop_last();
        let before = matching(rest, filter);
        if matches_spec(filter, entries.last().0) && k == before.len() {
            assert(entries[entries.len() - 1] == entry);
        } else {
            assert(before[k] == entry);
            lemma_matching_from(rest, filter, entry);
            let i = choose|i: int| 0 <= i < rest.len() && #[trigger] rest[i] == entry;
            assert(entries[i] == entry);
        }
    }
}

/// What all peers contributed was contributed by one of them.
pub proof fn lemma_gathered_from(answers: Seq<Seq<RetainEntry>>, entry: RetainEntry)
    requires
        gathered(answers).contains(entry),
    ensures
        exists|j: int| 0 <= j < answers.len() && (#[trigger] answers[j]).contains(entry),
    decreases answers.len(),
{
    let all = gathered(answers);
    let k = choose|k: int| 0 <= k < all.len() && all[k] == entry;
    if answers.len() > 0 {
        let rest = answers.drop_last();
        let before = gathered(rest);
        if k < before.len() {
            assert(before[k] == entry);
            lemma_gathered_from(rest, entry);
            let j = choose|j: int| 0 <= j < rest.len() && (#[trigger] rest[j]).contains(entry);
            assert(answers[j] == rest[j]);
        } else {
            assert(answers.last()[k - before.len()] == entry);
            assert(answers[answers.len() - 1].contains(entry));
        }
    }
}

/// In a cluster whose peers are all reached, a read returns exactly the
/// retained messages that some node holds under a topic the filter matches,
/// so every node gives the same answer, up to order.
pub proof fn lemma_cluster_get_same(
    stores: Seq<Seq<RetainEntry>>,
    at: int,
    other: int,
    filter: Seq<char>,
    entry: RetainEntry,
)
    requires
        0 <= at < stores.len(),
        0 <= other < stores.len(),
    ensures
        cluster_get(stores, at, filter).contains(entry) == held_somewhere(stores, filter, entry),
        cluster_get(stores, at, filter).contains(entry) == cluster_get(
            stores,
            other,
            filter,
        ).contains(entry),
{
    lemma_cluster_get_exact(stores, at, filter, entry);
    lemma_cluster_get_exact(stores, other, filter, entry);
}

/// A read on the node `at` returns an entry exactly where some node holds it
/// under a topic the filter matches.
pub proof fn lemma_cluster_get_exact(
    stores: Seq<Seq<RetainEntry>>,
    at: int,
    filter: Seq<char>,
    entry: RetainEntry,
)
    requires
        0 <= at < stores.len(),
    ensures
        cluster_get(stores, at, filter).contains(entry) == held_somewhere(stores, filter, entry),
{
    let local = matching(stores[at], filter);
    let answers = peer_answers(stores, at, filter);
    let all = cluster_get(stores, at, filter);
    if all.contains(entry) {
        let k = choose|k: int| 0 <= k < all.len() && all[k] == entry;
        if k < local.len() {
            assert(local[k] == entry);
            lemma_matching_from(stores[at], filter, entry);
            let i = choose|i: int| 0 <= i < stores[at].len() && #[trigger] stores[at][i] == entry;
            assert(stores[at][i] == entry);
        } else {
            assert(gathered(answers)[k - local.len()] == entry);
            lemma_gathered_from(answers, entry);
            let j = choose|j: int| 0 <= j < answers.len() && (#[trigger] answers[j]).contains(entry);
            assert(j != at) by {
                if j == at {
                    let m = choose|m: int| 0 <= m < answers[j].len() && answers[j][m] == entry;
                }
            }
            lemma_matching_from(stores[j], filter, entry);
            let i = choose|i: int| 0 <= i < stores[j].len() && #[trigger] stores[j][i] == entry;
            assert(stores[j][i] == entry);
        }
    }
    if held_somewhere(stores, filter, entry) {
        let (node, i) = choose|node: int, i: int|
            0 <= node < stores.len() && 0 <= i < stores[node].len() && #[trigger] stores[node][i]
                == entry && matches_spec(filter, entry.0);
        lemma_cluster_get_complete(stores, at, node, i, filter);
    }
}

} // verus!
