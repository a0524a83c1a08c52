//! The update poller: keeps the cursor from which the next batch of updates
//! is asked for, and hands the messages of a batch out for dispatch.

use vstd::prelude::*;
use crate::message::{
    message_views, update_views, Message, MessageView, Update, UpdateContent, UpdateContentView,
    UpdateView,
};

verus! {

/// The greatest id of a batch. Zero for the empty batch.
pub open spec fn max_id(updates: Seq<UpdateView>) -> int
    decreases updates.len(),
{
    if updates.len() == 0 {
        0
    } else {
        let before = max_id(updates.drop_last());
        if updates.len() == 1 || updates.last().id > before {
            updates.last().id as int
        } else {
            before
        }
    }
}

/// The cursor after a batch: one behind the greatest id of the batch; the
/// cursor as it was for the empty batch.
pub open spec fn next_cursor(cursor: Option<i64>, updates: Seq<UpdateView>) -> Option<i64> {
    if updates.len() == 0 {
        cursor
    } else {
        Some((max_id(updates) + 1) as i64)
    }
}

/// The messages that a batch hands out for dispatch: those of the updates
/// that carry a message, in the order of the batch.
pub open spec fn dispatched(updates: Seq<UpdateView>) -> Seq<MessageView>
    decreases updates.len(),
{
    if updates.len() == 0 {
        Seq::empty()
    } else {
        let before = dispatched(updates.drop_last());
        match updates.last().content {
            UpdateContentView::TextMessage(message) => before.push(message),
            UpdateContentView::Other => before,
        }
    }
}

/// The greatest id of a batch that is not empty is the id of one of its
/// updates, and no update of the batch has a greater one.
pub proof fn lemma_max_id_is_greatest(updates: Seq<UpdateView>)
    requires
        updates.len() > 0,
    ensures
        exists|i: int| 0 <= i < updates.len() && #[trigger] updates[i].id == max_id(updates),
        forall|i: int| 0 <= i < updates.len() ==> #[trigger] updates[i].id <= max_id(updates),
    decreases updates.len(),
{
    let n = updates.len() as int;
    if n == 1 {
        assert(updates[0].id == max_id(updates));
    } else {
        let before = updates.drop_last();
        lemma_max_id_is_greatest(before);
        let k = choose|i: int| 0 <= i < before.len() && #[trigger] before[i].id == max_id(before);
        assert(updates[k] == before[k]);
        if updates.last().id > max_id(before) {
            assert(updates[n - 1].id == max_id(updates));
        } else {
            assert(updates[k].id == max_id(updates));
        }
        assert forall|i: int| 0 <= i < n implies #[trigger] updates[i].id <= max_id(updates) by {
            if i < n - 1 {
                assert(updates[i] == before[i]);
            }
        }
    }
}

/// Where the platform delivers only updates from the cursor on, a batch that
/// is not empty moves the cursor strictly forward.
pub proof fn lemma_cursor_advances(cursor: i64, updates: Seq<UpdateView>)
    requires
        updates.len() > 0,
        forall|i: int| 0 <= i < updates.len() ==> #[trigger] updates[i].id >= cursor,
    ensures
        next_cursor(Some(cursor), updates) is Some,
        next_cursor(Some(cursor), updates)->0 > cursor,
{
    lemma_max_id_is_greatest(updates);
}

/// The cursor of the long-poll loop.
#[derive(Clone, Copy, Debug, PartialEq, Eq)]
pub struct Poller {
    cursor: Option<i64>,
}

impl View for Poller {
    type V = Option<i64>;

    closed spec fn view(&self) -> Option<i64> {
        self.cursor
    }
}

/// What came back from asking for updates.
#[derive(Clone, Debug, PartialEq, Eq)]
pub enum PollEvent {
    /// A batch of updates, in delivery order.
    Batch { updates: Vec<Update> },
    /// The request failed.
    FetchFailed,
}

impl Poller {
    /// A poller that has seen no update: the first request names no offset.
    pub fn new() -> (poller: Poller)
        ensures
            poller@ is None,
    {
        Poller { cursor: None }
    }

    /// The offset to ask the next batch from.
    pub fn cursor(&self) -> (cursor: Option<i64>)
        ensures
            cursor == self@,
    {
        self.cursor
    }

    /// Takes a batch: moves the cursor behind its greatest id and hands out
    /// its messages for dispatch, in order. The cursor moves whatever becomes
    /// of the messages.
    pub fn on_batch(&mut self, updates: Vec<Update>) -> (messages: Vec<Message>)
        ensures
            final(self)@ == next_cursor(old(self)@, update_views(updates@)),
            message_views(messages@) == dispatched(update_views(updates@)),
    {
        let ghost all = update_views(updates@);
        let mut messages: Vec<Message> = Vec::new();
        let mut greatest: Option<u32> = None;
        let batch = updates.into_iter();
        for update in it: batch
            invariant
                it.seq() == updates@,
                all == update_views(updates@),
                message_views(messages@) == dispatched(all.take(it.index())),
                match greatest {
                    Some(id) => it.index() > 0 && id == max_id(all.take(it.index())),
                    None => it.index() == 0,
                },
        {
            proof {
                let i = it.index();
                assert(all.take(i + 1).drop_last() == all.take(i));
                assert(all.take(i + 1).last() == update@);
            }
            greatest = match greatest {
                Some(id) => if update.id > id {
                    Some(update.id)
                } else {
                    Some(id)
                },
                None => Some(update.id),
            };
            match update.content {
                UpdateContent::TextMessage(message) => {
                    let ghost before = messages@;
                    messages.push(message);
                    assert(message_views(messages@) =~= message_views(before).push(message@));
                },
                UpdateContent::Other => {},
            }
        }
        assert(all.take(all.len() as int) == all);
        match greatest {
            Some(id) => {
                self.cursor = Some(id as i64 + 1);
            },
            None => {},
        }
        messages
    }

    /// Takes what came back from asking for updates. A failed request leaves
    /// the cursor as it is and hands out nothing: the next request asks from
    /// the same offset.
    pub fn on_event(&mut self, event: PollEvent) -> (messages: Vec<Message>)
        ensures
            match event {
                PollEvent::Batch { updates } => {
                    &&& final(self)@ == next_cursor(old(self)@, update_views(updates@))
                    &&& message_views(messages@) == dispatched(update_views(updates@))
                },
                PollEvent::FetchFailed => final(self)@ == old(self)@ && messages@.len() == 0,
            },
    {
        match event {
            PollEvent::Batch { updates } => self.on_batch(updates),
            PollEvent::FetchFailed => Vec::new(),
        }
    }
}

} // verus!
