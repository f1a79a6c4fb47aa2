//! Fan-out: one delivery for each shared inbox among the followers of an
//! actor, however many followers share it.

use vstd::prelude::*;
use vstd::string::*;
use crate::dbif::{FollowerRecord, FollowerRecordView};
use crate::text::str_eq;

verus! {

/// The items in the order in which each comes first, each once.
pub open spec fn distinct<T>(items: Seq<T>) -> Seq<T>
    decreases items.len(),
{
    if items.len() == 0 {
        items
    } else {
        let earlier = distinct(items.drop_last());
        if earlier.contains(items.last()) {
            earlier
        } else {
            earlier.push(items.last())
        }
    }
}

/// The shared inbox of each follower, in the order of the followers.
pub open spec fn shared_inboxes(followers: Seq<FollowerRecordView>) -> Seq<Seq<char>> {
    Seq::new(followers.len(), |i: int| followers[i].shared_inbox)
}

/// The inboxes that a note for these followers is delivered to: the shared
/// inbox of each follower, each inbox once, in the order in which the
/// followers first name them.
pub open spec fn delivery_targets(followers: Seq<FollowerRecordView>) -> Seq<Seq<char>> {
    distinct(shared_inboxes(followers))
}

/// Nothing occurs twice among the distinct items, and they are the items
/// that occur at all.
pub proof fn lemma_distinct<T>(items: Seq<T>)
    ensures
        distinct(items).no_duplicates(),
        distinct(items).len() <= items.len(),
        forall|x: T| distinct(items).contains(x) <==> items.contains(x),
    decreases items.len(),
{
    if items.len() > 0 {
        let front = items.drop_last();
        let last = items.last();
        let earlier = distinct(front);
        let found = distinct(items);
        lemma_distinct(front);
        assert forall|x: T| items.contains(x) implies found.contains(x) by {
            let at = choose|at: int| 0 <= at < items.len() && items[at] == x;
            if at < items.len() - 1 {
                assert(front[at] == x);
                assert(front.contains(x));
                assert(earlier.contains(x));
                let k = choose|k: int| 0 <= k < earlier.len() && earlier[k] == x;
                assert(found[k] == x);
            } else if !earlier.contains(last) {
                assert(found[earlier.len() as int] == x);
            }
        }
        assert forall|x: T| found.contains(x) implies items.contains(x) by {
            let k = choose|k: int| 0 <= k < found.len() && found[k] == x;
            if k < earlier.len() {
                assert(earlier[k] == x);
                assert(earlier.contains(x));
                assert(front.contains(x));
                let at = choose|at: int| 0 <= at < front.len() && front[at] == x;
                assert(items[at] == x);
            } else {
                assert(items[items.len() - 1] == x);
            }
        }
        assert(found.no_duplicates()) by {
            if !earlier.contains(last) {
                assert forall|i: int, j: int|
                    0 <= i < found.len() && 0 <= j < found.len() && i != j implies found[i]
                    != found[j] by {
                    if i < earlier.len() && j < earlier.len() {
                    } else if i < earlier.len() {
                        assert(earlier.contains(earlier[i]));
                    } else {
                        assert(earlier.contains(earlier[j]));
                    }
                }
            }
        }
    }
}

/// Fan-out reaches every follower and repeats no inbox: each follower's
/// shared inbox is among the targets, each target is the shared inbox of a
/// follower, and no target occurs twice.
pub proof fn lemma_delivery_targets(followers: Seq<FollowerRecordView>)
    ensures
        delivery_targets(followers).no_duplicates(),
        delivery_targets(followers).len() <= followers.len(),
        forall|i: int|
            0 <= i < followers.len() ==> delivery_targets(followers).contains(
                #[trigger] followers[i].shared_inbox,
            ),
        forall|k: int|
            0 <= k < delivery_targets(followers).len() ==> exists|i: int|
                0 <= i < followers.len() && followers[i].shared_inbox
                    == #[trigger] delivery_targets(followers)[k],
{
    let inboxes = shared_inboxes(followers);
    lemma_distinct(inboxes);
    assert forall|i: int| 0 <= i < followers.len() implies delivery_targets(followers).contains(
        #[trigger] followers[i].shared_inbox,
    ) by {
        assert(inboxes[i] == followers[i].shared_inbox);
        assert(inboxes.contains(followers[i].shared_inbox));
    }
    assert forall|k: int| 0 <= k < delivery_targets(followers).len() implies exists|i: int|
        0 <= i < followers.len() && followers[i].shared_inbox == #[trigger] delivery_targets(
            followers,
        )[k] by {
        let x = delivery_targets(followers)[k];
        assert(distinct(inboxes).contains(x));
        assert(inboxes.contains(x));
        let i = choose|i: int| 0 <= i < inboxes.len() && inboxes[i] == x;
        assert(followers[i].shared_inbox == x);
    }
}

/// The texts of the strings.
pub open spec fn texts(strings: Seq<String>) -> Seq<Seq<char>> {
    Seq::new(strings.len(), |i: int| strings[i]@)
}

/// Whether `wanted` is among `strings`.
pub fn holds_text(strings: &Vec<String>, wanted: &str) -> (held: bool)
    ensures
        held == texts(strings@).contains(wanted@),
{
    let mut i: usize = 0;
    while i < strings.len()
        invariant
            i <= strings.len(),
            forall|k: int| 0 <= k < i ==> strings[k]@ != wanted@,
        decreases strings.len() - i,
    {
        if str_eq(strings[i].as_str(), wanted) {
            assert(texts(strings@)[i as int] == wanted@);
            return true;
        }
        i += 1;
    }
    assert(!texts(strings@).contains(wanted@)) by {
        if texts(strings@).contains(wanted@) {
            let k = choose|k: int| 0 <= k < strings.len() && texts(strings@)[k] == wanted@;
            assert(strings[k]@ == wanted@);
        }
    }
    false
}

/// The inboxes that a note for `followers` is delivered to: one for each
/// shared inbox, in the order in which the followers first name them.
pub fn notify(followers: &Vec<FollowerRecord>) -> (targets: Vec<String>)
    ensures
        texts(targets@) == delivery_targets(followers.deep_view()),
        texts(targets@).no_duplicates(),
{
    let ghost rows = followers.deep_view();
    let ghost inboxes = shared_inboxes(rows);
    let mut targets: Vec<String> = Vec::new();
    let mut i: usize = 0;
    assert(texts(targets@) =~= distinct(inboxes.take(0)));
    while i < followers.len()
        invariant
            i <= followers.len(),
            rows == followers.deep_view(),
            inboxes == shared_inboxes(rows),
            texts(targets@) == distinct(inboxes.take(i as int)),
        decreases followers.len() - i,
    {
        assert(inboxes.take(i + 1).drop_last() =~= inboxes.take(i as int));
        assert(inboxes.take(i + 1).last() == followers[i as int].shared_inbox@);
        if !holds_text(&targets, followers[i].shared_inbox.as_str()) {
            let ghost earlier = texts(targets@);
            targets.push(followers[i].shared_inbox.clone());
            assert(texts(targets@) =~= earlier.push(followers[i as int].shared_inbox@));
        }
        i += 1;
    }
    proof {
        assert(inboxes.take(inboxes.len() as int) =~= inboxes);
        lemma_distinct(inboxes);
    }
    targets
}

/// A fan-out under way: the inboxes to deliver to, and what came of the
/// deliveries made so far. Each inbox has its turn, whatever came of the
/// ones before it.
#[derive(Debug)]
pub struct Fanout {
    targets: Vec<String>,
    outcomes: Vec<bool>,
}

impl Fanout {
    /// The inboxes to deliver to, in the order of their turns.
    pub closed spec fn targets(&self) -> Seq<Seq<char>> {
        texts(self.targets@)
    }

    /// Whether each delivery made so far succeeded, in the order of the
    /// turns.
    pub closed spec fn outcomes(&self) -> Seq<bool> {
        self.outcomes@
    }

    /// Starts a fan-out to `inboxes`.
    pub fn start(inboxes: Vec<String>) -> (run: Fanout)
        ensures
            run.targets() == texts(inboxes@),
            run.outcomes().len() == 0,
    {
        Fanout { targets: inboxes, outcomes: Vec::new() }
    }

    /// The inbox whose turn it is; `None` once every inbox had its turn.
    pub fn next(&self) -> (target: Option<String>)
        ensures
            target is Some <==> self.outcomes().len() < self.targets().len(),
            target matches Some(inbox) ==> inbox@ == self.targets()[self.outcomes().len() as int],
    {
        if self.outcomes.len() < self.targets.len() {
            Some(self.targets[self.outcomes.len()].clone())
        } else {
            None
        }
    }

    /// Records what came of the delivery to the inbox whose turn it was,
    /// and passes the turn on. Once every inbox had its turn nothing is
    /// recorded.
    pub fn record(&mut self, delivered: bool)
        ensures
            final(self).targets() == old(self).targets(),
            final(self).outcomes() == if old(self).outcomes().len() < old(self).targets().len() {
                old(self).outcomes().push(delivered)
            } else {
                old(self).outcomes()
            },
    {
        if self.outcomes.len() < self.targets.len() {
            self.outcomes.push(delivered);
        }
    }

    /// The number of deliveries made so far.
    pub fn attempted(&self) -> (count: usize)
        ensures
            count == self.outcomes().len(),
    {
        self.outcomes.len()
    }

    /// Whether the delivery of turn `turn` succeeded; `None` for a turn
    /// that is still to come.
    pub fn outcome(&self, turn: usize) -> (delivered: Option<bool>)
        ensures
            delivered == if turn < self.outcomes().len() {
                Some(self.outcomes()[turn as int])
            } else {
                None
            },
    {
        if turn < self.outcomes.len() {
            Some(self.outcomes[turn])
        } else {
            None
        }
    }
}

} // verus!
