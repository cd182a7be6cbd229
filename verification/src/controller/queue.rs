//! Upcoming tracks, topped up from a schedule.

use crate::audio::Track;
use crate::schedule::Schedule;
use std::collections::VecDeque;
use vstd::prelude::*;

verus! {

/// The least number of tracks left in the queue after a skip.
pub const MINIMUM_IN_QUEUE: usize = 2;

/// Upcoming tracks, first to play first, and the schedule that supplies
/// more.
pub struct Queue<S: Schedule> {
    schedule: S,
    queue: VecDeque<Track>,
}

impl<S: Schedule> View for Queue<S> {
    type V = Seq<Track>;

    closed spec fn view(&self) -> Seq<Track> {
        self.queue@
    }
}

impl<S: Schedule> Queue<S> {
    /// The schedule that supplies the tracks.
    pub closed spec fn schedule(&self) -> S {
        self.schedule
    }

    /// An empty queue over `schedule`.
    pub fn new(schedule: S) -> (queue: Self)
        ensures
            queue@ == Seq::<Track>::empty(),
            queue.schedule() == schedule,
    {
        Queue { schedule, queue: VecDeque::new() }
    }

    /// Tops the queue up from the schedule until it holds one track more
    /// than the minimum, then takes the first track out. Tracks that were
    /// queued keep their places in front of those newly scheduled, and a
    /// queue that was long enough asks the schedule for nothing.
    pub fn skip(&mut self) -> (track: Track)
        requires
            old(self).schedule().ready(),
        ensures
            final(self).schedule().ready(),
            final(self)@.len() == if old(self)@.len() > MINIMUM_IN_QUEUE {
                old(self)@.len() - 1
            } else {
                MINIMUM_IN_QUEUE as int
            },
            (seq![track] + final(self)@).take(old(self)@.len() as int) == old(self)@,
            old(self)@.len() > MINIMUM_IN_QUEUE ==> final(self).schedule() == old(self).schedule(),
    {
        while self.queue.len() < MINIMUM_IN_QUEUE + 1
            invariant
                self.schedule.ready(),
                old(self)@.len() <= self@.len(),
                self@.len() <= MINIMUM_IN_QUEUE + 1 || self@.len() == old(self)@.len(),
                self@.take(old(self)@.len() as int) == old(self)@,
                old(self)@.len() > MINIMUM_IN_QUEUE ==> self.schedule == old(self).schedule,
            decreases MINIMUM_IN_QUEUE + 1 - self.queue@.len(),
        {
            let ghost before = self@;
            let next = self.schedule.next();
            self.queue.push_back(next);
            assert(self@.take(old(self)@.len() as int) =~= before.take(old(self)@.len() as int));
        }
        let ghost full = self@;
        let track = self.queue.pop_front().unwrap();
        assert(seq![track] + self@ =~= full);
        track
    }

    /// Takes the track at place `id` out, if there is one.
    pub fn remove(&mut self, id: usize) -> (track: Option<Track>)
        ensures
            id < old(self)@.len() ==> track == Some(old(self)@[id as int]) && final(self)@ == old(
                self,
            )@.remove(id as int),
            id >= old(self)@.len() ==> track is None && final(self)@ == old(self)@,
            final(self).schedule() == old(self).schedule(),
    {
        self.queue.remove(id)
    }

    /// The track that is first, if there is one.
    pub fn current(&self) -> (track: Option<&Track>)
        ensures
            self@.len() == 0 <==> track is None,
            track is Some ==> *track->Some_0 == self@[0],
    {
        if self.queue.len() == 0 {
            None
        } else {
            Some(&self.queue[0])
        }
    }
}

} // verus!
