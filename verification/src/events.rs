//! Broadcast logs: one writer appends events, any number of readers each
//! keep a cursor and see every event once, in the order it was written.

use vstd::prelude::*;

verus! {

/// A reader's cursor into an [`EventLog`]: the number of events that had
/// been written when the reader last read (or registered).
#[derive(Debug)]
pub struct ReaderId {
    position: usize,
}

impl ReaderId {
    /// The count of events the reader has already passed.
    pub closed spec fn position(&self) -> nat {
        self.position as nat
    }
}

/// An append-only log of events with a count of the events that have been
/// rotated out of it.
#[derive(Debug)]
pub struct EventLog<E> {
    retained: Vec<E>,
    dropped: usize,
}

impl<E: Copy> EventLog<E> {
    /// The events still held, oldest first.
    pub closed spec fn view(&self) -> Seq<E> {
        self.retained@
    }

    /// How many events were rotated out before the first one still held.
    pub closed spec fn dropped(&self) -> nat {
        self.dropped as nat
    }

    /// How many events were ever written.
    pub open spec fn written(&self) -> nat {
        self.dropped() + self@.len()
    }

    /// The counters fit the machine word.
    pub open spec fn wf(&self) -> bool {
        self.written() <= usize::MAX
    }

    /// The events a reader at `position` has not seen and can still get.
    pub open spec fn unread_from(&self, position: nat) -> Seq<E> {
        if position >= self.written() {
            Seq::empty()
        } else if position <= self.dropped() {
            self@
        } else {
            self@.subrange(position - self.dropped(), self@.len() as int)
        }
    }

    /// An empty log.
    pub fn new() -> (log: Self)
        ensures
            log.wf(),
            log@ == Seq::<E>::empty(),
            log.dropped() == 0,
    {
        EventLog { retained: Vec::new(), dropped: 0 }
    }

    /// Computes [`EventLog::written`].
    pub fn written_count(&self) -> (count: usize)
        requires
            self.wf(),
        ensures
            count == self.written(),
    {
        self.dropped + self.retained.len()
    }

    /// A reader that will see exactly the events written from now on.
    pub fn register_reader(&self) -> (reader: ReaderId)
        requires
            self.wf(),
        ensures
            reader.position() == self.written(),
    {
        ReaderId { position: self.dropped + self.retained.len() }
    }

    /// Appends one event.
    pub fn single_write(&mut self, event: E)
        requires
            old(self).wf(),
            old(self).written() < usize::MAX,
        ensures
            final(self).wf(),
            final(self)@ == old(self)@.push(event),
            final(self).dropped() == old(self).dropped(),
    {
        self.retained.push(event);
    }

    /// Hands out the events written since the reader's last read, in
    /// order, and moves the reader's cursor to the end of the log.
    pub fn read(&self, reader: &mut ReaderId) -> (events: Vec<E>)
        requires
            self.wf(),
        ensures
            events@ == self.unread_from(old(reader).position()),
            final(reader).position() == self.written(),
    {
        let end: usize = self.dropped + self.retained.len();
        let mut events: Vec<E> = Vec::new();
        if reader.position < end {
            let mut i: usize = if reader.position <= self.dropped {
                0
            } else {
                reader.position - self.dropped
            };
            let ghost start: int = i as int;
            while i < self.retained.len()
                invariant
                    0 <= start <= i <= self.retained.len(),
                    events@ == self.retained@.subrange(start, i as int),
                decreases self.retained.len() - i,
            {
                events.push(self.retained[i]);
                i = i + 1;
            }
        }
        reader.position = end;
        events
    }

    /// Drops the held events at the end of a tick. Readers that have read
    /// everything lose nothing; the count of written events stays.
    pub fn rotate(&mut self)
        requires
            old(self).wf(),
        ensures
            final(self).wf(),
            final(self)@ == Seq::<E>::empty(),
            final(self).written() == old(self).written(),
    {
        self.dropped = self.dropped + self.retained.len();
        self.retained.clear();
    }

    /// Two reads in a row, with any writes between them and no rotation,
    /// hand out between them exactly what one read at the end would have:
    /// every event once, none twice, in the order written.
    pub proof fn lemma_reads_partition(before: Self, after: Self, position: nat)
        requires
            before.wf(),
            after.wf(),
            after.dropped() == before.dropped(),
            before@.is_prefix_of(after@),
        ensures
            before.unread_from(position) + after.unread_from(
                if before.written() >= position {
                    before.written()
                } else {
                    position
                },
            ) == after.unread_from(position),
    {
    }

    /// A reader that registers and then reads gets exactly the events
    /// written after it registered.
    pub proof fn lemma_reader_sees_later_writes(before: Self, after: Self, written: Seq<E>)
        requires
            before.wf(),
            after.wf(),
            after.dropped() == before.dropped(),
            after@ == before@ + written,
        ensures
            after.unread_from(before.written()) == written,
    {
    }
}

} // verus!
