//! A chunk of converted samples that is handed out piece by piece.

use crate::audio::Sample;
use vstd::prelude::*;

verus! {

/// Converted samples of which a front part may have been taken already.
pub struct Buffer {
    buffer: Vec<Sample>,
    ptr: usize,
}

impl View for Buffer {
    type V = Seq<Sample>;

    /// The samples not taken yet.
    closed spec fn view(&self) -> Seq<Sample> {
        self.buffer@.skip(self.ptr as int)
    }
}

impl Buffer {
    /// What was taken is part of what there is.
    #[verifier::type_invariant]
    closed spec fn wf(&self) -> bool {
        self.ptr <= self.buffer@.len()
    }

    /// A buffer of which nothing has been taken.
    pub fn new(buffer: Vec<Sample>) -> (made: Buffer)
        ensures
            made@ == buffer@,
    {
        assert(buffer@.skip(0) =~= buffer@);
        Buffer { buffer, ptr: 0 }
    }

    /// The number of samples not taken yet.
    pub fn len(&self) -> (len: usize)
        ensures
            len == self@.len(),
    {
        proof {
            use_type_invariant(self);
        }
        self.buffer.len() - self.ptr
    }

    /// Appends up to `count` samples to `dest`. Where more than `count` are
    /// left, the rest of the buffer is given back; else the buffer is used
    /// up, and the number of samples that it gave is returned.
    pub fn take(self, dest: &mut Vec<Sample>, count: usize) -> (rest: Result<Buffer, usize>)
        ensures
            rest is Ok <==> self@.len() > count,
            rest is Ok ==> {
                &&& final(dest)@ == old(dest)@ + self@.take(count as int)
                &&& rest->Ok_0@ == self@.skip(count as int)
            },
            rest is Err ==> {
                &&& final(dest)@ == old(dest)@ + self@
                &&& rest->Err_0 == self@.len()
            },
    {
        proof {
            use_type_invariant(&self);
        }
        let left: usize = self.buffer.len() - self.ptr;
        let given: usize = if left > count {
            count
        } else {
            left
        };
        let ghost start = self@;
        let mut i: usize = 0;
        while i < given
            invariant
                i <= given <= start.len(),
                self.ptr + start.len() == self.buffer@.len(),
                self.buffer@.len() <= usize::MAX,
                start == self.buffer@.skip(self.ptr as int),
                dest@ == old(dest)@ + start.take(i as int),
            decreases given - i,
        {
            dest.push(self.buffer[self.ptr + i]);
            proof {
                assert(start[i as int] == self.buffer@[self.ptr + i]);
                assert(start.take(i as int + 1) =~= start.take(i as int).push(start[i as int]));
                assert(dest@ =~= old(dest)@ + start.take(i as int + 1));
            }
            i = i + 1;
        }
        if left > count {
            let rest = Buffer { buffer: self.buffer, ptr: self.ptr + count };
            assert(rest@ =~= start.skip(count as int));
            Ok(rest)
        } else {
            assert(start.take(given as int) =~= start);
            Err(given)
        }
    }
}

/// The samples of two channels in turn: first left, then right, for each
/// frame that both channels have.
pub open spec fn spec_interleave(left: Seq<Sample>, right: Seq<Sample>) -> Seq<Sample> {
    Seq::new(
        2 * (if left.len() <= right.len() {
            left.len()
        } else {
            right.len()
        }),
        |i: int|
            if i % 2 == 0 {
                left[i / 2]
            } else {
                right[i / 2]
            },
    )
}

/// The samples of a decoded packet laid out for `channels_out` channels:
/// for one channel the first channel of the packet; for two the first and
/// the second in turn, where the first stands in for a second that the
/// packet lacks. No other layout is supported.
pub open spec fn spec_layout(
    channels_out: u8,
    first: Seq<Sample>,
    second: Option<Seq<Sample>>,
) -> Option<Seq<Sample>> {
    if channels_out == 1 {
        Some(first)
    } else if channels_out == 2 {
        Some(
            spec_interleave(
                first,
                match second {
                    Some(right) => right,
                    None => first,
                },
            ),
        )
    } else {
        None
    }
}

/// The samples of two channels in turn.
pub fn interleave(left: &[Sample], right: &[Sample]) -> (out: Vec<Sample>)
    ensures
        out@ == spec_interleave(left@, right@),
{
    let frames: usize = if left.len() <= right.len() {
        left.len()
    } else {
        right.len()
    };
    let mut out: Vec<Sample> = Vec::new();
    let mut i: usize = 0;
    while i < frames
        invariant
            i <= frames,
            frames <= left@.len(),
            frames <= right@.len(),
            out@.len() == 2 * i,
            forall|j: int|
                0 <= j < 2 * i ==> #[trigger] out@[j] == (if j % 2 == 0 {
                    left@[j / 2]
                } else {
                    right@[j / 2]
                }),
        decreases frames - i,
    {
        out.push(left[i]);
        out.push(right[i]);
        i = i + 1;
    }
    assert(out@ =~= spec_interleave(left@, right@));
    out
}

/// Lays the channels of a decoded packet out for `channels_out` channels,
/// or gives nothing where that number is not supported.
pub fn layout(channels_out: u8, first: &[Sample], second: Option<&[Sample]>) -> (out: Option<
    Vec<Sample>,
>)
    ensures
        out is Some <==> channels_out == 1 || channels_out == 2,
        out is Some ==> Some(out->Some_0@) == spec_layout(
            channels_out,
            first@,
            match second {
                Some(right) => Some(right@),
                None => None,
            },
        ),
{
    if channels_out == 1 {
        let mut out: Vec<Sample> = Vec::new();
        let mut i: usize = 0;
        while i < first.len()
            invariant
                i <= first@.len(),
                out@ == first@.take(i as int),
            decreases first@.len() - i,
        {
            out.push(first[i]);
            assert(out@ =~= first@.take(i as int + 1));
            i = i + 1;
        }
        assert(first@.take(i as int) =~= first@);
        Some(out)
    } else if channels_out == 2 {
        match second {
            Some(right) => Some(interleave(first, right)),
            None => Some(interleave(first, first)),
        }
    } else {
        None
    }
}

} // verus!
