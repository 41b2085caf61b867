//! The tool calls that the agent still waits for.

use crate::protocol::{ToolCall, ToolCallId};
use crate::text::same_text;
use crate::views;
use vstd::prelude::*;
use vstd::string::*;

verus! {

/// The tool calls of a batch that have not ended: the name of each under its identifier.
///
/// Calls that share an identifier count as one.
#[derive(Debug)]
pub struct PendingCalls {
    entries: Vec<(ToolCallId, String)>,
}

/// The map that a list of entries stands for: later entries win.
spec fn entry_map(entries: Seq<(ToolCallId, String)>) -> Map<Seq<char>, Seq<char>>
    decreases entries.len(),
{
    if entries.len() == 0 {
        Map::empty()
    } else {
        entry_map(entries.drop_last()).insert(entries.last().0@, entries.last().1@)
    }
}

impl View for PendingCalls {
    type V = Map<Seq<char>, Seq<char>>;

    closed spec fn view(&self) -> Map<Seq<char>, Seq<char>> {
        entry_map(self.entries@)
    }
}

/// The calls of a batch, each under its identifier.
pub open spec fn batch(calls: Seq<crate::protocol::ToolCallView>) -> Map<Seq<char>, Seq<char>>
    decreases calls.len(),
{
    if calls.len() == 0 {
        Map::empty()
    } else {
        batch(calls.drop_last()).insert(calls.last().id, calls.last().name)
    }
}

impl PendingCalls {
    /// Waits for every call of a batch.
    pub fn of_batch(calls: &Vec<ToolCall>) -> (pending: PendingCalls)
        ensures
            pending@ == batch(views::views(calls@)),
    {
        let ghost all = views::views(calls@);
        let mut entries: Vec<(ToolCallId, String)> = Vec::new();
        let mut i: usize = 0;
        while i < calls.len()
            invariant
                i <= calls@.len(),
                all == views::views(calls@),
                entry_map(entries@) == batch(all.take(i as int)),
            decreases calls@.len() - i,
        {
            let ghost before = entries@;
            entries.push((calls[i].id.clone(), calls[i].name.clone()));
            assert(entries@.drop_last() =~= before);
            assert(all.take(i + 1).drop_last() =~= all.take(i as int));
            i += 1;
        }
        assert(all.take(i as int) =~= all);
        PendingCalls { entries }
    }

    /// Stops waiting for a call.
    pub fn remove(&mut self, id: &ToolCallId)
        ensures
            final(self)@ == old(self)@.remove(id@),
    {
        let ghost all = self.entries@;
        let mut kept: Vec<(ToolCallId, String)> = Vec::new();
        let mut i: usize = 0;
        assert(entry_map(kept@) =~= entry_map(all.take(0)).remove(id@));
        while i < self.entries.len()
            invariant
                i <= all.len(),
                all == self.entries@,
                entry_map(kept@) == entry_map(all.take(i as int)).remove(id@),
            decreases all.len() - i,
        {
            let (entry_id, name) = &self.entries[i];
            assert(all.take(i + 1).drop_last() =~= all.take(i as int));
            if !same_text(entry_id.0.as_str(), id.0.as_str()) {
                let ghost before = kept@;
                kept.push((entry_id.clone(), name.clone()));
                assert(kept@.drop_last() =~= before);
            }
            assert(entry_map(kept@) =~= entry_map(all.take(i + 1)).remove(id@));
            i += 1;
        }
        assert(all.take(i as int) =~= all);
        self.entries = kept;
    }

    /// Whether no call is left.
    pub fn is_empty(&self) -> (empty: bool)
        ensures
            empty == (self@ == Map::<Seq<char>, Seq<char>>::empty()),
    {
        proof {
            if self.entries@.len() > 0 {
                assert(self@.dom().contains(self.entries@.last().0@));
            }
        }
        self.entries.len() == 0
    }

    /// Whether no call but the given one is left.
    pub fn is_settled_by(&self, id: &ToolCallId) -> (settled: bool)
        ensures
            settled == (self@.remove(id@) == Map::<Seq<char>, Seq<char>>::empty()),
    {
        let ghost all = self.entries@;
        let mut i: usize = 0;
        assert(entry_map(all.take(0)).remove(id@) =~= Map::<Seq<char>, Seq<char>>::empty());
        while i < self.entries.len()
            invariant
                i <= all.len(),
                all == self.entries@,
                entry_map(all.take(i as int)).remove(id@) == Map::<Seq<char>, Seq<char>>::empty(),
            decreases all.len() - i,
        {
            assert(all.take(i + 1).drop_last() =~= all.take(i as int));
            if !same_text(self.entries[i].0.0.as_str(), id.0.as_str()) {
                proof {
                    lemma_entry_is_in_map(all, i as int);
                    assert(self@.remove(id@).dom().contains(all[i as int].0@));
                }
                return false;
            }
            assert(entry_map(all.take(i + 1)).remove(id@) =~= entry_map(all.take(i as int)).remove(
                id@,
            ));
            i += 1;
        }
        assert(all.take(i as int) =~= all);
        true
    }
}

/// Every entry has its identifier in the map.
proof fn lemma_entry_is_in_map(entries: Seq<(ToolCallId, String)>, at: int)
    requires
        0 <= at < entries.len(),
    ensures
        entry_map(entries).dom().contains(entries[at].0@),
    decreases entries.len(),
{
    if at < entries.len() - 1 {
        lemma_entry_is_in_map(entries.drop_last(), at);
    }
}

/// A batch waits for the identifiers of its calls and for nothing else.
pub proof fn lemma_batch_holds_its_calls(calls: Seq<crate::protocol::ToolCallView>, id: Seq<char>)
    ensures
        batch(calls).dom().contains(id) <==> exists|i: int|
            0 <= i < calls.len() && (#[trigger] calls[i]).id == id,
        batch(calls) == Map::<Seq<char>, Seq<char>>::empty() <==> calls.len() == 0,
    decreases calls.len(),
{
    if calls.len() > 0 {
        let front = calls.drop_last();
        lemma_batch_holds_its_calls(front, id);
        assert(batch(calls).dom().contains(calls.last().id));
        if exists|i: int| 0 <= i < front.len() && (#[trigger] front[i]).id == id {
            let i = choose|i: int| 0 <= i < front.len() && (#[trigger] front[i]).id == id;
            assert(calls[i].id == id);
        }
        if exists|i: int| 0 <= i < calls.len() && (#[trigger] calls[i]).id == id {
            let i = choose|i: int| 0 <= i < calls.len() && (#[trigger] calls[i]).id == id;
            if i < front.len() {
                assert(front[i].id == id);
            }
        }
        if calls.last().id == id {
            assert(calls[calls.len() - 1].id == id);
        }
    }
}

} // verus!
