//! The broadcast buffer: a bounded lookback window of pages, a version that
//! counts the pushes, and the cursors of the receivers that follow it.

use crate::station::codec::page::{Page, PageView};
use std::collections::VecDeque;
use vstd::prelude::*;

verus! {

/// The summed duration of `pages`, in nanoseconds.
pub open spec fn total_duration(pages: Seq<PageView>) -> nat
    decreases pages.len(),
{
    if pages.len() == 0 {
        0
    } else {
        total_duration(pages.drop_last()) + pages.last().duration as nat
    }
}

/// What is left of `pages` once pages have been dropped from the front, one
/// at a time, for as long as any are left and their total duration is not
/// below `max_length`.
pub open spec fn retained(pages: Seq<PageView>, max_length: u64) -> Seq<PageView>
    decreases pages.len(),
{
    if pages.len() == 0 || total_duration(pages) < max_length {
        pages
    } else {
        retained(pages.drop_first(), max_length)
    }
}

/// The total duration splits at the front as it does at the back.
pub proof fn lemma_total_duration_front(pages: Seq<PageView>)
    requires
        pages.len() > 0,
    ensures
        total_duration(pages) == pages.first().duration + total_duration(pages.drop_first()),
    decreases pages.len(),
{
    if pages.len() == 1 {
        assert(pages.drop_last() =~= pages.drop_first());
        assert(total_duration(pages.drop_first()) == 0);
    } else {
        let front = pages.drop_last();
        lemma_total_duration_front(front);
        assert(front.drop_first() =~= pages.drop_first().drop_last());
        assert(front.first() == pages.first());
        assert(pages.drop_first().last() == pages.last());
    }
}

/// What is retained is the longest tail of the pages that lasts less than
/// the window: it is the tail from some index on, it is empty or lasts less
/// than `max_length`, and every longer tail lasts as long as `max_length` or
/// longer.
pub proof fn lemma_retained_is_longest_tail_below_window(
    pages: Seq<PageView>,
    max_length: u64,
) -> (k: int)
    ensures
        0 <= k <= pages.len(),
        retained(pages, max_length) == pages.skip(k),
        retained(pages, max_length).len() == 0 || total_duration(retained(pages, max_length))
            < max_length,
        total_duration(retained(pages, max_length)) <= max_length,
        forall|j: int| 0 <= j < k ==> total_duration(#[trigger] pages.skip(j)) >= max_length,
    decreases pages.len(),
{
    if pages.len() == 0 || total_duration(pages) < max_length {
        assert(pages.skip(0) =~= pages);
        0
    } else {
        let rest = pages.drop_first();
        let k0 = lemma_retained_is_longest_tail_below_window(rest, max_length);
        assert(rest.skip(k0) =~= pages.skip(k0 + 1));
        assert forall|j: int| 0 <= j < k0 + 1 implies total_duration(#[trigger] pages.skip(j))
            >= max_length by {
            if j == 0 {
                assert(pages.skip(0) =~= pages);
            } else {
                assert(rest.skip(j - 1) =~= pages.skip(j));
            }
        }
        k0 + 1
    }
}

/// The pages kept for listeners who join, oldest first, with their summed
/// duration and the window that bounds it.
pub struct Queue {
    queue: VecDeque<Page>,
    length: u128,
    max_length: u64,
}

impl View for Queue {
    type V = Seq<PageView>;

    closed spec fn view(&self) -> Seq<PageView> {
        self.queue@.map_values(|p: Page| p@)
    }
}

impl Queue {
    /// The window, in nanoseconds, below which the pages present before a
    /// push stay.
    pub closed spec fn spec_max_length(&self) -> u64 {
        self.max_length
    }

    /// The recorded length is the summed duration of the pages held.
    #[verifier::type_invariant]
    closed spec fn wf(&self) -> bool {
        self.length == total_duration(self@)
    }

    /// An empty queue with the given window.
    pub fn new(max_length: u64) -> (q: Queue)
        ensures
            q@ == Seq::<PageView>::empty(),
            q.spec_max_length() == max_length,
    {
        let queue: VecDeque<Page> = VecDeque::new();
        assert(queue@.map_values(|p: Page| p@) =~= Seq::<PageView>::empty());
        Queue { queue, length: 0, max_length }
    }

    /// Drops pages from the front while what is buffered is not below the
    /// window, then appends `page`. The page being appended is never
    /// dropped.
    pub fn push(&mut self, page: Page)
        ensures
            final(self).spec_max_length() == old(self).spec_max_length(),
            final(self)@ == retained(old(self)@, old(self).spec_max_length()).push(page@),
            final(self)@.len() == 1 || total_duration(final(self)@.drop_last()) < old(
                self,
            ).spec_max_length(),
            total_duration(final(self)@.drop_last()) <= old(self).spec_max_length(),
            total_duration(final(self)@) <= old(self).spec_max_length() + page.duration,
    {
        proof {
            use_type_invariant(&*self);
        }
        let mut held = Queue::new(self.max_length);
        std::mem::swap(self, &mut held);
        let Queue { queue, length, max_length } = held;
        let mut queue = queue;
        let mut length = length;
        let ghost start = queue@.map_values(|p: Page| p@);
        while queue.len() > 0 && length >= max_length as u128
            invariant
                length == total_duration(queue@.map_values(|p: Page| p@)),
                retained(queue@.map_values(|p: Page| p@), max_length) == retained(
                    start,
                    max_length,
                ),
            decreases queue@.len(),
        {
            let ghost before = queue@.map_values(|p: Page| p@);
            proof {
                lemma_total_duration_front(before);
            }
            let front = queue.pop_front();
            match front {
                Some(dropped) => {
                    proof {
                        assert(dropped@ == before.first());
                        assert(queue@.map_values(|p: Page| p@) =~= before.drop_first());
                    }
                    length = length - dropped.duration as u128;
                },
                None => {
                    proof {
                        assert(false);
                    }
                },
            }
        }
        let ghost kept = queue@.map_values(|p: Page| p@);
        proof {
            assert(retained(kept, max_length) == kept);
        }
        length = length + page.duration as u128;
        let ghost added = page@;
        queue.push_back(page);
        proof {
            assert(queue@.map_values(|p: Page| p@) =~= kept.push(added));
            assert(kept.push(added).drop_last() =~= kept);
        }
        *self = Queue { queue, length, max_length };
    }

    /// The summed duration of the pages held, in nanoseconds.
    pub fn length(&self) -> (length: u128)
        ensures
            length == total_duration(self@),
    {
        proof {
            use_type_invariant(self);
        }
        self.length
    }

    /// The window given at construction.
    pub fn max_length(&self) -> (max_length: u64)
        ensures
            max_length == self.spec_max_length(),
    {
        self.max_length
    }

    /// The number of pages held.
    pub fn len(&self) -> (len: usize)
        ensures
            len == self@.len(),
    {
        self.queue.len()
    }

    /// The page pushed last, if any page is held.
    pub fn latest(&self) -> (page: Option<Page>)
        ensures
            self@.len() == 0 <==> page is None,
            page is Some ==> page->Some_0@ == self@.last(),
    {
        let len: usize = self.queue.len();
        if len == 0 {
            None
        } else {
            Some(self.queue[len - 1].clone())
        }
    }

    /// The `count` pages pushed last, oldest first; all pages where fewer are
    /// held.
    pub fn tail(&self, count: usize) -> (pages: Vec<Page>)
        ensures
            count <= self@.len() ==> pages@.map_values(|p: Page| p@) == self@.skip(
                self@.len() - count,
            ),
            count > self@.len() ==> pages@.map_values(|p: Page| p@) == self@,
    {
        let len: usize = self.queue.len();
        let start: usize = if count <= len {
            len - count
        } else {
            0
        };
        let mut pages: Vec<Page> = Vec::new();
        let mut i: usize = start;
        while i < len
            invariant
                len == self.queue@.len(),
                start <= i <= len,
                pages@.map_values(|p: Page| p@) == self@.subrange(start as int, i as int),
            decreases len - i,
        {
            let ghost before = pages@.map_values(|p: Page| p@);
            pages.push(self.queue[i].clone());
            proof {
                assert(pages@.map_values(|p: Page| p@) =~= before.push(self@[i as int]));
                assert(self@.subrange(start as int, i as int + 1) =~= self@.subrange(
                    start as int,
                    i as int,
                ).push(self@[i as int]));
            }
            i = i + 1;
        }
        proof {
            assert(self@.subrange(start as int, len as int) =~= self@.skip(start as int));
            assert(self@.skip(0) =~= self@);
        }
        pages
    }

    /// All pages held, oldest first.
    pub fn pages(&self) -> (pages: Vec<Page>)
        ensures
            pages@.map_values(|p: Page| p@) == self@,
    {
        let mut pages: Vec<Page> = Vec::new();
        let len: usize = self.queue.len();
        let mut i: usize = 0;
        while i < len
            invariant
                len == self.queue@.len(),
                i <= len,
                pages@.map_values(|p: Page| p@) == self@.take(i as int),
            decreases len - i,
        {
            let ghost before = pages@.map_values(|p: Page| p@);
            pages.push(self.queue[i].clone());
            proof {
                assert(pages@.map_values(|p: Page| p@) =~= before.push(self@[i as int]));
                assert(self@.take(i as int + 1) =~= self@.take(i as int).push(self@[i as int]));
            }
            i = i + 1;
        }
        proof {
            assert(self@.take(len as int) =~= self@);
        }
        pages
    }
}

/// The version that follows `version`: one more, starting over at zero once
/// the counter is exhausted.
pub open spec fn next_version(version: usize) -> usize {
    if version == usize::MAX {
        0
    } else {
        (version + 1) as usize
    }
}

/// What a buffer is, as a mathematical value: the pages retained, oldest
/// first, the window that bounds them, and the number of pushes so far.
pub struct BufferView {
    pub pages: Seq<PageView>,
    pub max_length: u64,
    pub version: usize,
}

impl BufferView {
    /// The buffer after `page` has been pushed.
    pub open spec fn push(self, page: PageView) -> BufferView {
        BufferView {
            pages: retained(self.pages, self.max_length).push(page),
            max_length: self.max_length,
            version: next_version(self.version),
        }
    }

    /// The buffer after all of `pages` have been pushed, first to last.
    pub open spec fn push_all(self, pages: Seq<PageView>) -> BufferView
        decreases pages.len(),
    {
        if pages.len() == 0 {
            self
        } else {
            self.push_all(pages.drop_last()).push(pages.last())
        }
    }

    /// What a receiver whose cursor is `cursor` gets when it polls: nothing
    /// while the version equals its cursor, else the page pushed last.
    pub open spec fn poll(self, cursor: usize) -> Option<PageView> {
        if self.version == cursor || self.pages.len() == 0 {
            None
        } else {
            Some(self.pages.last())
        }
    }

    /// The number of pushes since the version was `cursor`, counted as the
    /// versions are: modulo the range of `usize`.
    pub open spec fn pushes_since(self, cursor: usize) -> nat {
        if self.version >= cursor {
            (self.version - cursor) as nat
        } else {
            (self.version + usize::MAX - cursor + 1) as nat
        }
    }

    /// What a receiver whose cursor is `cursor` gets when it drains: the
    /// pages pushed since, as far as they are still retained, oldest first.
    pub open spec fn missed(self, cursor: usize) -> Seq<PageView> {
        let count = if self.pushes_since(cursor) <= self.pages.len() {
            self.pushes_since(cursor)
        } else {
            self.pages.len()
        };
        self.pages.skip(self.pages.len() - count)
    }

    /// What a receiver observes that starts at `cursor` and polls once after
    /// each push of `pages`.
    pub open spec fn observed(self, cursor: usize, pages: Seq<PageView>) -> Seq<PageView>
        decreases pages.len(),
    {
        if pages.len() == 0 {
            Seq::<PageView>::empty()
        } else {
            let pushed = self.push(pages.first());
            let seen = match pushed.poll(cursor) {
                Some(page) => seq![page],
                None => Seq::<PageView>::empty(),
            };
            seen + pushed.observed(pushed.version, pages.drop_first())
        }
    }
}

/// Eviction invariant: right after a push the pages that were there before
/// it last no longer than the window (less, if any are left), so the buffer
/// exceeds the window by at most the duration of the page just pushed.
pub proof fn law_push_bounds_duration(buffer: BufferView, page: PageView)
    ensures
        buffer.push(page).pages.last() == page,
        buffer.push(page).pages.len() == 1 || total_duration(
            buffer.push(page).pages.drop_last(),
        ) < buffer.max_length,
        total_duration(buffer.push(page).pages.drop_last()) <= buffer.max_length,
        total_duration(buffer.push(page).pages) <= buffer.max_length + page.duration,
{
    let kept = retained(buffer.pages, buffer.max_length);
    lemma_retained_is_longest_tail_below_window(buffer.pages, buffer.max_length);
    assert(kept.push(page).drop_last() =~= kept);
}

/// The eviction invariant holds after any sequence of pushes, whatever the
/// buffer held before: the pages in front of the last one fit the window.
pub proof fn law_pushes_keep_window(buffer: BufferView, pages: Seq<PageView>)
    requires
        pages.len() > 0,
    ensures
        buffer.push_all(pages).pages.last() == pages.last(),
        buffer.push_all(pages).max_length == buffer.max_length,
        total_duration(buffer.push_all(pages).pages.drop_last()) <= buffer.max_length,
        total_duration(buffer.push_all(pages).pages) <= buffer.max_length
            + pages.last().duration,
    decreases pages.len(),
{
    let before = buffer.push_all(pages.drop_last());
    if pages.len() > 1 {
        law_pushes_keep_window(buffer, pages.drop_last());
    }
    law_push_bounds_duration(before, pages.last());
}

/// A receiver that was up to date before a push gets exactly the pushed page
/// from its next poll, and nothing from the poll after that.
pub proof fn law_poll_sees_each_push_once(buffer: BufferView, page: PageView)
    ensures
        buffer.push(page).poll(buffer.version) == Some(page),
        buffer.push(page).poll(buffer.push(page).version) == None::<PageView>,
{
}

/// A receiver that lets two pushes pass before it polls gets the second
/// page only: a poll gives the page pushed last, not those before it.
pub proof fn law_poll_gives_the_latest_page_only(
    buffer: BufferView,
    first: PageView,
    second: PageView,
)
    ensures
        buffer.push(first).push(second).poll(buffer.version) == Some(second),
{
}

/// A receiver that is up to date and polls after every push observes every
/// pushed page exactly once, in the order of the pushes.
pub proof fn law_polling_observes_every_push(buffer: BufferView, pages: Seq<PageView>)
    ensures
        buffer.observed(buffer.version, pages) == pages,
    decreases pages.len(),
{
    if pages.len() > 0 {
        let pushed = buffer.push(pages.first());
        law_poll_sees_each_push_once(buffer, pages.first());
        law_polling_observes_every_push(pushed, pages.drop_first());
        assert(seq![pages.first()] + pages.drop_first() =~= pages);
    } else {
        assert(pages =~= Seq::<PageView>::empty());
    }
}

/// Each push is counted: after `pushes` pushes, as many pushes have passed
/// since the version that the buffer had before them.
pub proof fn law_pushes_are_counted(buffer: BufferView, pushes: Seq<PageView>)
    requires
        pushes.len() <= usize::MAX,
    ensures
        buffer.push_all(pushes).pushes_since(buffer.version) == pushes.len(),
    decreases pushes.len(),
{
    if pushes.len() > 0 {
        law_pushes_are_counted(buffer, pushes.drop_last());
    }
}

/// Pushes only append at the back and evict at the front: what a buffer
/// holds after `pushes` is a tail of what it held followed by `pushes`.
pub proof fn lemma_pushes_keep_a_tail(buffer: BufferView, pushes: Seq<PageView>) -> (k: int)
    ensures
        0 <= k <= buffer.pages.len() + pushes.len(),
        buffer.push_all(pushes).pages == (buffer.pages + pushes).skip(k),
    decreases pushes.len(),
{
    if pushes.len() == 0 {
        assert(buffer.pages + pushes =~= buffer.pages);
        assert(buffer.pages.skip(0) =~= buffer.pages);
        0
    } else {
        let front = pushes.drop_last();
        let before = buffer.push_all(front);
        let k0 = lemma_pushes_keep_a_tail(buffer, front);
        let k1 = lemma_retained_is_longest_tail_below_window(before.pages, before.max_length);
        lemma_pushes_keep_the_window(buffer, front);
        assert((buffer.pages + front).skip(k0).skip(k1).push(pushes.last()) =~= (buffer.pages
            + pushes).skip(k0 + k1));
        k0 + k1
    }
}

/// Pushes leave the window as it is.
pub proof fn lemma_pushes_keep_the_window(buffer: BufferView, pushes: Seq<PageView>)
    ensures
        buffer.push_all(pushes).max_length == buffer.max_length,
    decreases pushes.len(),
{
    if pushes.len() > 0 {
        lemma_pushes_keep_the_window(buffer, pushes.drop_last());
    }
}

/// A receiver that was up to date before some pushes and then drains gets
/// the pages of those pushes, in their order, from the oldest that is still
/// retained to the last: none twice, none out of order, and none missing but
/// those that were evicted before it looked.
pub proof fn law_drain_gives_the_pushes_in_order(buffer: BufferView, pushes: Seq<PageView>)
    requires
        pushes.len() <= usize::MAX,
    ensures
        buffer.push_all(pushes).missed(buffer.version).len() <= pushes.len(),
        buffer.push_all(pushes).missed(buffer.version) == pushes.skip(
            pushes.len() - buffer.push_all(pushes).missed(buffer.version).len(),
        ),
        pushes.len() <= buffer.push_all(pushes).pages.len() ==> buffer.push_all(pushes).missed(
            buffer.version,
        ) == pushes,
        pushes.len() > 0 ==> buffer.push_all(pushes).missed(buffer.version).len() > 0,
{
    let after = buffer.push_all(pushes);
    law_pushes_are_counted(buffer, pushes);
    let k = lemma_pushes_keep_a_tail(buffer, pushes);
    let got = after.missed(buffer.version);
    let all = buffer.pages + pushes;
    assert(got =~= pushes.skip(pushes.len() - got.len()));
    if pushes.len() <= after.pages.len() {
        assert(pushes.skip(0) =~= pushes);
    }
    if pushes.len() > 0 {
        assert(after.pages.len() > 0);
    }
}

/// A receiver that drains after every push gets exactly the pushed page each
/// time, and nothing from a drain that no push came before.
pub proof fn law_drain_after_each_push(buffer: BufferView, page: PageView)
    ensures
        buffer.push(page).missed(buffer.version) == seq![page],
        buffer.missed(buffer.version) == Seq::<PageView>::empty(),
{
    let after = buffer.push(page);
    assert(after.missed(buffer.version) =~= seq![page]);
    assert(buffer.missed(buffer.version) =~= Seq::<PageView>::empty());
}

/// Pushes that evict nothing are all retained: while the pages before the
/// last one last less than the window together, an empty buffer holds
/// exactly the pages pushed, in order.
pub proof fn law_pushes_without_eviction_are_kept(buffer: BufferView, pages: Seq<PageView>)
    requires
        buffer.pages.len() == 0,
        pages.len() >= 2 ==> total_duration(pages.drop_last()) < buffer.max_length,
    ensures
        buffer.push_all(pages).pages == pages,
        buffer.push_all(pages).max_length == buffer.max_length,
    decreases pages.len(),
{
    if pages.len() == 0 {
        assert(buffer.pages =~= pages);
    } else {
        let front = pages.drop_last();
        law_pushes_without_eviction_are_kept(buffer, front);
        assert(front.push(pages.last()) =~= pages);
    }
}

/// Pages that all last some time and fit the window together are all
/// retained: an empty buffer holds exactly the pages pushed, in order.
pub proof fn law_pushes_within_window_are_kept(buffer: BufferView, pages: Seq<PageView>)
    requires
        buffer.pages.len() == 0,
        forall|i: int| 0 <= i < pages.len() ==> (#[trigger] pages[i]).duration > 0,
        total_duration(pages) <= buffer.max_length,
    ensures
        buffer.push_all(pages).pages == pages,
{
    law_pushes_without_eviction_are_kept(buffer, pages);
}

/// Pages that all last `duration` last their number times `duration`
/// together.
pub proof fn lemma_total_duration_of_equal_pages(pages: Seq<PageView>, duration: u64)
    requires
        forall|i: int| 0 <= i < pages.len() ==> (#[trigger] pages[i]).duration == duration,
    ensures
        total_duration(pages) == pages.len() * duration,
    decreases pages.len(),
{
    if pages.len() > 0 {
        let front = pages.drop_last();
        assert forall|i: int| 0 <= i < front.len() implies (#[trigger] front[i]).duration
            == duration by {
            assert(front[i] == pages[i]);
        }
        lemma_total_duration_of_equal_pages(front, duration);
        assert(front.len() * duration + duration == pages.len() * duration) by (nonlinear_arith)
            requires
                front.len() + 1 == pages.len(),
        ;
    }
}

/// A window of `count` times the duration of a page holds `count` pages:
/// where all pages last the same, nothing is evicted until `count` pages are
/// held, and from then on each push evicts exactly the oldest page.
pub proof fn law_window_of_equal_pages(
    buffer: BufferView,
    page: PageView,
    duration: u64,
    count: nat,
)
    requires
        duration > 0,
        count >= 1,
        buffer.max_length == count * duration,
        buffer.pages.len() <= count,
        forall|i: int|
            0 <= i < buffer.pages.len() ==> (#[trigger] buffer.pages[i]).duration == duration,
    ensures
        buffer.pages.len() < count ==> buffer.push(page).pages == buffer.pages.push(page),
        buffer.pages.len() == count ==> buffer.push(page).pages
            == buffer.pages.drop_first().push(page),
        buffer.push(page).pages.len() <= count,
{
    let held = buffer.pages;
    lemma_total_duration_of_equal_pages(held, duration);
    if held.len() < count {
        assert(held.len() * duration < count * duration) by (nonlinear_arith)
            requires
                held.len() < count,
                duration > 0,
        ;
    } else {
        let rest = held.drop_first();
        assert forall|i: int| 0 <= i < rest.len() implies (#[trigger] rest[i]).duration
            == duration by {
            assert(rest[i] == held[i + 1]);
        }
        lemma_total_duration_of_equal_pages(rest, duration);
        assert(rest.len() * duration < count * duration) by (nonlinear_arith)
            requires
                rest.len() < count,
                duration > 0,
        ;
        assert(retained(held, buffer.max_length) == retained(rest, buffer.max_length));
        assert(retained(rest, buffer.max_length) == rest);
    }
}

/// The broadcast buffer: the retained pages and the version that counts the
/// pushes.
pub struct Buffer {
    queue: Queue,
    version: usize,
}

/// A reader's cursor: the last version of the buffer that it has observed.
pub struct Receiver {
    version: usize,
}

impl View for Buffer {
    type V = BufferView;

    closed spec fn view(&self) -> BufferView {
        BufferView {
            pages: self.queue@,
            max_length: self.queue.spec_max_length(),
            version: self.version,
        }
    }
}

impl View for Receiver {
    type V = usize;

    closed spec fn view(&self) -> usize {
        self.version
    }
}

impl Buffer {
    /// An empty buffer whose window is `length` nanoseconds, and a first
    /// receiver for it.
    pub fn new(length: u64) -> (made: (Buffer, Receiver))
        ensures
            made.0@ == (BufferView {
                pages: Seq::<PageView>::empty(),
                max_length: length,
                version: 0,
            }),
            made.1@ == 0,
    {
        (Buffer { queue: Queue::new(length), version: 0 }, Receiver { version: 0 })
    }

    /// Appends `page`, evicting from the front first, and moves on to the
    /// next version.
    pub fn push(&mut self, page: Page)
        ensures
            final(self)@ == old(self)@.push(page@),
            final(self)@.pages.len() == 1 || total_duration(final(self)@.pages.drop_last()) < old(
                self,
            )@.max_length,
            total_duration(final(self)@.pages.drop_last()) <= old(self)@.max_length,
            total_duration(final(self)@.pages) <= old(self)@.max_length + page.duration,
    {
        self.queue.push(page);
        self.version = if self.version == usize::MAX {
            0
        } else {
            self.version + 1
        };
    }

    /// A new receiver that is up to date with this buffer.
    pub fn subscribe(&self) -> (receiver: Receiver)
        ensures
            receiver@ == self@.version,
    {
        Receiver { version: self.version }
    }

    /// The number of pushes so far, counted modulo the range of `usize`.
    pub fn version(&self) -> (version: usize)
        ensures
            version == self@.version,
    {
        self.version
    }

    /// The summed duration of the retained pages, in nanoseconds.
    pub fn buffered_duration(&self) -> (length: u128)
        ensures
            length == total_duration(self@.pages),
    {
        self.queue.length()
    }
}

impl Receiver {
    /// The version this receiver has observed last.
    pub fn cursor(&self) -> (version: usize)
        ensures
            version == self@,
    {
        self.version
    }

    /// A snapshot of all retained pages, oldest first; the receiver is up to
    /// date afterwards.
    pub fn buffered(&mut self, buffer: &Buffer) -> (pages: Vec<Page>)
        ensures
            pages@.map_values(|p: Page| p@) == buffer@.pages,
            final(self)@ == buffer@.version,
    {
        self.version = buffer.version;
        buffer.queue.pages()
    }

    /// The pages pushed since this receiver last looked, as far as they are
    /// still retained, oldest first; the receiver is up to date afterwards.
    pub fn drain(&mut self, buffer: &Buffer) -> (pages: Vec<Page>)
        ensures
            pages@.map_values(|p: Page| p@) == buffer@.missed(old(self)@),
            final(self)@ == buffer@.version,
    {
        let since: usize = if buffer.version >= self.version {
            buffer.version - self.version
        } else {
            buffer.version + (usize::MAX - self.version) + 1
        };
        self.version = buffer.version;
        buffer.queue.tail(since)
    }

    /// The page pushed last if the buffer has moved on since this receiver
    /// last looked, nothing otherwise; the receiver is up to date afterwards.
    pub fn poll(&mut self, buffer: &Buffer) -> (page: Option<Page>)
        ensures
            page is Some <==> buffer@.poll(old(self)@) is Some,
            page is Some ==> page->Some_0@ == buffer@.poll(old(self)@)->Some_0,
            final(self)@ == buffer@.version,
    {
        if buffer.version == self.version {
            None
        } else {
            self.version = buffer.version;
            buffer.queue.latest()
        }
    }
}

} // verus!
