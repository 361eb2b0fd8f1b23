//! Properties of whole sessions, stated over the consumer's model and proved.

use vstd::prelude::*;

use crate::consumer::{next, quiet, terminal_outcome, ConsumerState, OutcomeView, ReactionView, StreamItem};
use crate::event::{is_terminal, DownloadEvent, DownloadStatus};

verus! {

/// The state after a sequence of items.
pub open spec fn run(c: ConsumerState, items: Seq<StreamItem>) -> ConsumerState
    decreases items.len(),
{
    if items.len() == 0 {
        c
    } else {
        run(next(c, items[0]).0, items.drop_first())
    }
}

/// The reactions to a sequence of items, one per item.
pub open spec fn reactions(c: ConsumerState, items: Seq<StreamItem>) -> Seq<ReactionView>
    decreases items.len(),
{
    if items.len() == 0 {
        seq![]
    } else {
        seq![next(c, items[0]).1] + reactions(next(c, items[0]).0, items.drop_first())
    }
}

/// A frame, if any, has its bar position within 0..=100.
pub open spec fn frame_in_range(f: Option<(u64, Seq<char>)>) -> bool {
    f is Some ==> (f->0).0 <= 100
}

/// There is one reaction per item.
pub proof fn lemma_one_reaction_per_item(c: ConsumerState, items: Seq<StreamItem>)
    ensures
        reactions(c, items).len() == items.len(),
    decreases items.len(),
{
    if items.len() > 0 {
        lemma_one_reaction_per_item(next(c, items[0]).0, items.drop_first());
    }
}

/// Whatever the stream delivers, every frame shown has its bar position
/// within 0..=100, and so does the last frame the consumer keeps.
pub proof fn lemma_positions_in_range(c: ConsumerState, items: Seq<StreamItem>)
    requires
        frame_in_range(c.last_frame),
    ensures
        forall|i: int|
            0 <= i < reactions(c, items).len() ==> #[trigger] frame_in_range(
                reactions(c, items)[i].frame,
            ),
        frame_in_range(run(c, items).last_frame),
    decreases items.len(),
{
    if items.len() > 0 {
        let c2 = next(c, items[0]).0;
        lemma_positions_in_range(c2, items.drop_first());
        let rs = reactions(c, items);
        let tail = reactions(c2, items.drop_first());
        assert forall|i: int| 0 <= i < rs.len() implies #[trigger] frame_in_range(rs[i].frame) by {
            if i > 0 {
                assert(rs[i] == tail[i - 1]);
            }
        }
    }
}

/// Once the session has ended, further items change nothing and ask for
/// nothing: no outcome other than the one already given, and no more work.
pub proof fn lemma_finished_is_quiet(c: ConsumerState, items: Seq<StreamItem>)
    requires
        c.finished,
    ensures
        run(c, items) == c,
        forall|i: int| 0 <= i < reactions(c, items).len() ==> #[trigger] reactions(c, items)[i] == quiet(),
    decreases items.len(),
{
    if items.len() > 0 {
        lemma_finished_is_quiet(c, items.drop_first());
        let rs = reactions(c, items);
        let tail = reactions(c, items.drop_first());
        assert forall|i: int| 0 <= i < rs.len() implies #[trigger] rs[i] == quiet() by {
            if i > 0 {
                assert(rs[i] == tail[i - 1]);
            }
        }
    }
}

/// Three silent waits in a row, with no item between them, end a running
/// session with `TimedOut`; the first two only report the count of waits.
pub proof fn lemma_three_timeouts(c: ConsumerState)
    requires
        !c.finished,
        c.timeouts == 0,
    ensures
        ({
            let items = seq![StreamItem::Timeout, StreamItem::Timeout, StreamItem::Timeout];
            &&& reactions(c, items).len() == 3
            &&& reactions(c, items)[0].waiting == Some(1nat)
            &&& reactions(c, items)[1].waiting == Some(2nat)
            &&& reactions(c, items)[2].outcome == Some(OutcomeView::TimedOut)
            &&& run(c, items).finished
        }),
{
    let items = seq![StreamItem::Timeout, StreamItem::Timeout, StreamItem::Timeout];
    reveal_with_fuel(run, 4);
    reveal_with_fuel(reactions, 4);
    assert(items.drop_first() =~= seq![StreamItem::Timeout, StreamItem::Timeout]);
    assert(items.drop_first().drop_first() =~= seq![StreamItem::Timeout]);
    assert(items.drop_first().drop_first().drop_first() =~= seq![]);
}

/// A terminal event ends a running session at once with the matching
/// outcome (`Completed` for a completed download, `Cancelled` for a cancelled
/// one, whether or not a cancellation was requested before); the items after
/// it are not consumed.
pub proof fn lemma_terminal_event_ends(c: ConsumerState, e: DownloadEvent, rest: Seq<StreamItem>)
    requires
        !c.finished,
        is_terminal(e.status),
    ensures
        ({
            let items = seq![StreamItem::Event(e)] + rest;
            &&& reactions(c, items)[0].outcome == Some(terminal_outcome(e))
            &&& run(c, items) == next(c, StreamItem::Event(e)).0
            &&& run(c, items).finished
            &&& forall|i: int|
                1 <= i < reactions(c, items).len() ==> #[trigger] reactions(c, items)[i] == quiet()
        }),
        e.status == DownloadStatus::Completed ==> terminal_outcome(e) == OutcomeView::Completed,
        e.status == DownloadStatus::Cancelled ==> terminal_outcome(e) == OutcomeView::Cancelled,
{
    let items = seq![StreamItem::Event(e)] + rest;
    assert(items[0] == StreamItem::Event(e));
    assert(items.drop_first() =~= rest);
    let c2 = next(c, StreamItem::Event(e)).0;
    lemma_finished_is_quiet(c2, rest);
    let rs = reactions(c, items);
    let tail = reactions(c2, rest);
    assert forall|i: int| 1 <= i < rs.len() implies #[trigger] rs[i] == quiet() by {
        assert(rs[i] == tail[i - 1]);
    }
}

/// Between announcement `i` and announcement `j` there is no other one.
pub open spec fn adjacent_announcements(rs: Seq<ReactionView>, i: int, j: int) -> bool {
    &&& 0 <= i < j < rs.len()
    &&& rs[i].announce is Some
    &&& rs[j].announce is Some
    &&& forall|k: int| i < k < j ==> (#[trigger] rs[k].announce) is None
}

/// Announcement `j` is the first one.
pub open spec fn first_announcement(rs: Seq<ReactionView>, j: int) -> bool {
    &&& 0 <= j < rs.len()
    &&& rs[j].announce is Some
    &&& forall|k: int| 0 <= k < j ==> (#[trigger] rs[k].announce) is None
}

proof fn lemma_announce_sets_last(c: ConsumerState, item: StreamItem)
    ensures
        next(c, item).1.announce is Some ==> next(c, item).0.last_status == next(c, item).1.announce,
        next(c, item).1.announce is Some ==> next(c, item).1.announce != c.last_status,
        next(c, item).1.announce is None ==> next(c, item).0.last_status == c.last_status,
{
}

/// No two consecutive status announcements name the same status, and the
/// first one differs from the status the consumer started from.
pub proof fn lemma_announcements_deduplicated(c: ConsumerState, items: Seq<StreamItem>)
    ensures
        forall|i: int, j: int|
            #[trigger] adjacent_announcements(reactions(c, items), i, j) ==> reactions(c, items)[i].announce
                != reactions(c, items)[j].announce,
        forall|j: int|
            #[trigger] first_announcement(reactions(c, items), j) ==> reactions(c, items)[j].announce
                != c.last_status,
    decreases items.len(),
{
    if items.len() > 0 {
        let c2 = next(c, items[0]).0;
        let r0 = next(c, items[0]).1;
        lemma_announcements_deduplicated(c2, items.drop_first());
        lemma_announce_sets_last(c, items[0]);
        let rs = reactions(c, items);
        let tail = reactions(c2, items.drop_first());
        assert(rs[0] == r0);
        assert forall|k: int| 1 <= k < rs.len() implies #[trigger] rs[k] == tail[k - 1] by {}
        assert forall|i: int, j: int| #[trigger] adjacent_announcements(rs, i, j) implies rs[i].announce
            != rs[j].announce by {
            if i == 0 {
                assert forall|k: int| 0 <= k < j - 1 implies (#[trigger] tail[k].announce) is None by {
                    assert(rs[k + 1] == tail[k]);
                }
                assert(first_announcement(tail, j - 1));
            } else {
                assert forall|k: int| i - 1 < k < j - 1 implies (#[trigger] tail[k].announce) is None by {
                    assert(rs[k + 1] == tail[k]);
                }
                assert(adjacent_announcements(tail, i - 1, j - 1));
            }
        }
        assert forall|j: int| #[trigger] first_announcement(rs, j) implies rs[j].announce != c.last_status by {
            if j > 0 {
                assert forall|k: int| 0 <= k < j - 1 implies (#[trigger] tail[k].announce) is None by {
                    assert(rs[k + 1] == tail[k]);
                }
                assert(first_announcement(tail, j - 1));
            }
        }
    }
}

} // verus!
