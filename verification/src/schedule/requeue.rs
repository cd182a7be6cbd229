//! A schedule that plays its tracks round and round, putting each track back
//! at a random place in the rear of the queue.

use crate::audio::Track;
use crate::schedule::Schedule;
use rand::Rng;
use std::collections::VecDeque;
use vstd::prelude::*;
use vstd::seq_lib::*;

verus! {

/// The draws are positions in millionths; a draw stays below this bound, so
/// that a track is put back into the rear six tenths of the queue.
pub const DRAW_BOUND: u32 = 600_000;

/// `Rng::gen_range` on `rand::thread_rng()` with the range `0..bound`: a
/// random number. Trusted: the number is below `bound`. The range must not be
/// empty, as the call panics on an empty one.
#[verifier::external_body]
fn draw_below(bound: u32) -> (draw: u32)
    requires
        bound > 0,
    ensures
        draw < bound,
{
    rand::thread_rng().gen_range(0..bound)
}

/// Where a track is put back into a queue of `len` other tracks for a draw:
/// at `len` times one minus the draw, rounded down.
pub open spec fn spec_insert_index(len: nat, draw: u32) -> nat {
    (len * (1_000_000 - draw) as nat) / 1_000_000
}

/// The queue after its first track was taken out and put back at the place
/// that `draw` gives.
pub open spec fn spec_shift(queue: Seq<Track>, draw: u32) -> Seq<Track> {
    queue.drop_first().insert(
        spec_insert_index((queue.len() - 1) as nat, draw) as int,
        queue.first(),
    )
}

/// The queue after one shift for each of `draws`, in their order.
pub open spec fn spec_shifts(queue: Seq<Track>, draws: Seq<u32>) -> Seq<Track>
    decreases draws.len(),
{
    if draws.len() == 0 {
        queue
    } else {
        spec_shift(spec_shifts(queue, draws.drop_last()), draws.last())
    }
}

/// Whether every draw is one that a shift can make.
pub open spec fn valid_draws(draws: Seq<u32>) -> bool {
    forall|i: int| 0 <= i < draws.len() ==> #[trigger] draws[i] < DRAW_BOUND
}

/// A shift moves one track and keeps all of them: the queue holds the same
/// tracks, each as often as before.
pub proof fn law_shift_keeps_tracks(queue: Seq<Track>, draw: u32)
    requires
        queue.len() > 0,
        draw <= 1_000_000,
    ensures
        spec_insert_index((queue.len() - 1) as nat, draw) <= queue.len() - 1,
        spec_shift(queue, draw).len() == queue.len(),
        spec_shift(queue, draw).to_multiset() == queue.to_multiset(),
{
    let len = (queue.len() - 1) as nat;
    let index = spec_insert_index(len, draw);
    let factor = (1_000_000 - draw) as nat;
    assert((len * factor) / 1_000_000 <= len) by (nonlinear_arith)
        requires
            factor <= 1_000_000,
    ;
    let rest = queue.drop_first();
    assert(rest =~= queue.remove(0));
    to_multiset_remove(queue, 0);
    to_multiset_insert(rest, index as int, queue.first());
    queue.to_multiset_ensures();
    assert(queue.contains(queue.first()));
    assert(queue.to_multiset().count(queue.first()) > 0);
    assert(queue.to_multiset().remove(queue.first()).insert(queue.first())
        =~= queue.to_multiset());
}

/// A queue of tracks that are played round and round.
pub struct Requeue {
    queue: VecDeque<Track>,
}

impl View for Requeue {
    type V = Seq<Track>;

    closed spec fn view(&self) -> Seq<Track> {
        self.queue@
    }
}

impl Requeue {
    /// A queue of the given tracks, in their order.
    pub fn new(tracks: Vec<Track>) -> (requeue: Requeue)
        ensures
            requeue@ == tracks@,
    {
        let mut tracks = tracks;
        let mut queue: VecDeque<Track> = VecDeque::new();
        let ghost all = tracks@;
        while tracks.len() > 0
            invariant
                tracks@ + queue@ == all,
            decreases tracks@.len(),
        {
            let ghost before = tracks@;
            let ghost held = queue@;
            let track = tracks.pop().unwrap();
            queue.push_front(track);
            assert(tracks@ + queue@ =~= before + held);
        }
        proof {
            assert(tracks@ + queue@ =~= queue@);
        }
        Requeue { queue }
    }

    /// Takes the first track out and puts it back at the place that `draw`
    /// gives.
    pub fn shift_with(&mut self, draw: u32)
        requires
            old(self)@.len() > 0,
            draw <= 1_000_000,
        ensures
            final(self)@ == spec_shift(old(self)@, draw),
            final(self)@.len() == old(self)@.len(),
            final(self)@.to_multiset() == old(self)@.to_multiset(),
    {
        proof {
            law_shift_keeps_tracks(self@, draw);
        }
        let next = self.queue.pop_front().unwrap();
        let len: usize = self.queue.len();
        let factor: u128 = (1_000_000 - draw) as u128;
        assert(len as u128 * factor <= 0xffff_ffff_ffff_ffff * 1_000_000) by (nonlinear_arith)
            requires
                len <= 0xffff_ffff_ffff_ffff,
                factor <= 1_000_000,
        ;
        let index: u128 = (len as u128 * factor) / 1_000_000;
        self.queue.insert(index as usize, next);
    }

    /// Takes the first track out and puts it back at a random place in the
    /// rear six tenths of the queue.
    pub fn shift(&mut self)
        requires
            old(self)@.len() > 0,
        ensures
            exists|draw: u32| draw < DRAW_BOUND && final(self)@ == spec_shift(old(self)@, draw),
            final(self)@.len() == old(self)@.len(),
            final(self)@.to_multiset() == old(self)@.to_multiset(),
    {
        let draw: u32 = draw_below(DRAW_BOUND);
        self.shift_with(draw);
    }

    /// Shifts a hundred times.
    pub fn shuffle(&mut self)
        requires
            old(self)@.len() > 0,
        ensures
            exists|draws: Seq<u32>|
                draws.len() == 100 && valid_draws(draws) && final(self)@ == spec_shifts(
                    old(self)@,
                    draws,
                ),
            final(self)@.len() == old(self)@.len(),
            final(self)@.to_multiset() == old(self)@.to_multiset(),
    {
        let mut round: u32 = 0;
        let ghost mut draws: Seq<u32> = Seq::empty();
        while round < 100
            invariant
                round <= 100,
                draws.len() == round,
                valid_draws(draws),
                self@ == spec_shifts(old(self)@, draws),
                self@.len() > 0,
                self@.len() == old(self)@.len(),
                self@.to_multiset() == old(self)@.to_multiset(),
            decreases 100 - round,
        {
            let ghost before = self@;
            self.shift();
            proof {
                let draw = choose|draw: u32| draw < DRAW_BOUND && self@ == spec_shift(before, draw);
                let earlier = draws;
                draws = draws.push(draw);
                assert(draws.drop_last() =~= earlier);
            }
            round = round + 1;
        }
    }

    /// The number of tracks.
    pub fn len(&self) -> (len: usize)
        ensures
            len == self@.len(),
    {
        self.queue.len()
    }

    /// The tracks, first to last.
    pub fn tracks(&self) -> (tracks: Vec<Track>)
        ensures
            tracks@ == self@,
    {
        let mut tracks: Vec<Track> = Vec::new();
        let len: usize = self.queue.len();
        let mut i: usize = 0;
        while i < len
            invariant
                len == self.queue@.len(),
                i <= len,
                tracks@ == self@.take(i as int),
            decreases len - i,
        {
            tracks.push(self.queue[i].clone());
            assert(tracks@ =~= self@.take(i as int + 1));
            i = i + 1;
        }
        assert(self@.take(len as int) =~= self@);
        tracks
    }
}

impl Schedule for Requeue {
    /// The queue holds a track.
    open spec fn ready(&self) -> bool {
        self@.len() > 0
    }

    /// Shifts, then names the track that is first.
    fn next(&mut self) -> (track: Track)
        ensures
            exists|draw: u32| draw < DRAW_BOUND && final(self)@ == spec_shift(old(self)@, draw),
            final(self)@.to_multiset() == old(self)@.to_multiset(),
            track == final(self)@.first(),
    {
        self.shift();
        self.queue[0].clone()
    }
}

} // verus!
