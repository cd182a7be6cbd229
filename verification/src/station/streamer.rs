//! What one listener is sent: the session's header, the backlog at the time
//! it connects, then every page as it is made.

use crate::station::buffer::{
    law_drain_after_each_push, law_drain_gives_the_pushes_in_order, Buffer, BufferView, Receiver,
};
use crate::station::codec::page::{bytes_clone, bytes_content, Page, PageView};
use bytes::Bytes;
use vstd::prelude::*;

verus! {

/// What a listener is sent when it connects: the header first, then the
/// bytes of each retained page, oldest first.
pub open spec fn spec_opening(header: Seq<u8>, backlog: Seq<PageView>) -> Seq<Seq<u8>> {
    seq![header] + backlog.map_values(|p: PageView| p.data)
}

/// The header comes before any page, whenever the listener connects, and
/// every retained page follows it in order.
pub proof fn law_header_comes_first(header: Seq<u8>, backlog: Seq<PageView>)
    ensures
        spec_opening(header, backlog).len() == backlog.len() + 1,
        spec_opening(header, backlog)[0] == header,
        forall|i: int|
            0 <= i < backlog.len() ==> #[trigger] spec_opening(header, backlog)[i + 1]
                == backlog[i].data,
{
}

/// What a listener is sent next that has been served up to the version
/// `cursor`: the bytes of each page pushed since, as far as they are still
/// retained, oldest first.
pub open spec fn spec_next(buffer: BufferView, cursor: usize) -> Seq<Seq<u8>> {
    buffer.missed(cursor).map_values(|p: PageView| p.data)
}

/// All that a listener is sent that connects to `buffer` and is served next
/// when the pages `later` have been pushed.
pub open spec fn spec_received(header: Seq<u8>, buffer: BufferView, later: Seq<PageView>) -> Seq<
    Seq<u8>,
> {
    spec_opening(header, buffer.pages) + spec_next(buffer.push_all(later), buffer.version)
}

/// A listener is sent the header, then the backlog of the time it connected,
/// then the later pages in the order of the pushes: all of them, where it is
/// served before any of them is evicted, and else from the oldest that is
/// still retained on.
pub proof fn law_listener_is_sent_everything_in_order(
    header: Seq<u8>,
    buffer: BufferView,
    later: Seq<PageView>,
)
    requires
        later.len() <= usize::MAX,
    ensures
        spec_next(buffer.push_all(later), buffer.version).len() <= later.len(),
        spec_received(header, buffer, later) == seq![header] + buffer.pages.map_values(
            |p: PageView| p.data,
        ) + later.skip(
            later.len() - spec_next(buffer.push_all(later), buffer.version).len(),
        ).map_values(|p: PageView| p.data),
        later.len() <= buffer.push_all(later).pages.len() ==> spec_received(header, buffer, later)
            == seq![header] + buffer.pages.map_values(|p: PageView| p.data) + later.map_values(
            |p: PageView| p.data,
        ),
{
    law_drain_gives_the_pushes_in_order(buffer, later);
}

/// A listener that is served after every push is sent exactly the pushed
/// page each time.
pub proof fn law_listener_served_after_each_push(buffer: BufferView, page: PageView)
    ensures
        spec_next(buffer.push(page), buffer.version) == seq![page.data],
        spec_next(buffer, buffer.version) == Seq::<Seq<u8>>::empty(),
{
    law_drain_after_each_push(buffer, page);
    assert(seq![page].map_values(|p: PageView| p.data) =~= seq![page.data]);
    assert(Seq::<PageView>::empty().map_values(|p: PageView| p.data) =~= Seq::<Seq<u8>>::empty());
}

/// The headers of the response that carries the stream: its content type,
/// leave to read it from any origin, and no caching anywhere.
pub open spec fn spec_response_headers() -> Seq<(&'static str, &'static str)> {
    seq![
        ("Content-Type", "audio/ogg"),
        ("Access-Control-Allow-Origin", "*"),
        ("Connection", "close"),
        ("Cache-Control", "no-cache, no-store"),
        ("Pragma", "no-cache"),
        ("Expires", "0"),
    ]
}

/// The headers of the response that carries the stream, as name and value.
pub fn response_headers() -> (headers: Vec<(&'static str, &'static str)>)
    ensures
        headers@ == spec_response_headers(),
{
    let mut headers: Vec<(&'static str, &'static str)> = Vec::new();
    headers.push(("Content-Type", "audio/ogg"));
    headers.push(("Access-Control-Allow-Origin", "*"));
    headers.push(("Connection", "close"));
    headers.push(("Cache-Control", "no-cache, no-store"));
    headers.push(("Pragma", "no-cache"));
    headers.push(("Expires", "0"));
    assert(headers@ =~= spec_response_headers());
    headers
}

/// The stream of one listener: its place in the broadcast.
pub struct Stream {
    receiver: Receiver,
}

impl Stream {
    /// The version of the buffer up to which this listener has been served.
    pub closed spec fn cursor(&self) -> usize {
        self.receiver@
    }

    /// Connects a listener: gives what it is sent at once, and the stream
    /// from which the rest comes.
    pub fn open(buffer: &Buffer, header: &Bytes) -> (opened: (Stream, Vec<Bytes>))
        ensures
            opened.0.cursor() == buffer@.version,
            opened.1@.map_values(|b: Bytes| bytes_content(b)) == spec_opening(
                bytes_content(*header),
                buffer@.pages,
            ),
    {
        let mut receiver = buffer.subscribe();
        let backlog: Vec<Page> = receiver.buffered(buffer);
        let mut chunks: Vec<Bytes> = Vec::new();
        chunks.push(bytes_clone(header));
        let ghost pages = buffer@.pages;
        assert(chunks@.map_values(|b: Bytes| bytes_content(b)) =~= spec_opening(
            bytes_content(*header),
            pages.take(0),
        ));
        let mut i: usize = 0;
        while i < backlog.len()
            invariant
                i <= backlog@.len(),
                backlog@.map_values(|p: Page| p@) == pages,
                chunks@.map_values(|b: Bytes| bytes_content(b)) == spec_opening(
                    bytes_content(*header),
                    pages.take(i as int),
                ),
            decreases backlog@.len() - i,
        {
            let ghost before = chunks@.map_values(|b: Bytes| bytes_content(b));
            let data = bytes_clone(&backlog[i].data);
            chunks.push(data);
            proof {
                assert(pages[i as int] == backlog@[i as int]@);
                assert(chunks@.map_values(|b: Bytes| bytes_content(b)) =~= before.push(
                    pages[i as int].data,
                ));
                assert(pages.take(i as int + 1) =~= pages.take(i as int).push(pages[i as int]));
                assert(spec_opening(bytes_content(*header), pages.take(i as int + 1))
                    =~= before.push(pages[i as int].data));
            }
            i = i + 1;
        }
        proof {
            assert(pages.take(i as int) =~= pages);
        }
        (Stream { receiver }, chunks)
    }

    /// The bytes of each page pushed since this listener was last served,
    /// as far as they are still retained, oldest first; nothing where the
    /// buffer has not moved on.
    pub fn next(&mut self, buffer: &Buffer) -> (chunks: Vec<Bytes>)
        ensures
            chunks@.map_values(|b: Bytes| bytes_content(b)) == spec_next(
                buffer@,
                old(self).cursor(),
            ),
            final(self).cursor() == buffer@.version,
    {
        let pages: Vec<Page> = self.receiver.drain(buffer);
        let ghost missed = pages@.map_values(|p: Page| p@);
        let mut chunks: Vec<Bytes> = Vec::new();
        let mut i: usize = 0;
        while i < pages.len()
            invariant
                i <= pages@.len(),
                pages@.map_values(|p: Page| p@) == missed,
                chunks@.map_values(|b: Bytes| bytes_content(b)) == missed.take(
                    i as int,
                ).map_values(|p: PageView| p.data),
            decreases pages@.len() - i,
        {
            let ghost before = chunks@.map_values(|b: Bytes| bytes_content(b));
            chunks.push(bytes_clone(&pages[i].data));
            proof {
                assert(missed[i as int] == pages@[i as int]@);
                assert(missed.take(i as int + 1) =~= missed.take(i as int).push(missed[i as int]));
                assert(chunks@.map_values(|b: Bytes| bytes_content(b)) =~= before.push(
                    missed[i as int].data,
                ));
                assert(missed.take(i as int + 1).map_values(|p: PageView| p.data) =~= before.push(
                    missed[i as int].data,
                ));
            }
            i = i + 1;
        }
        proof {
            assert(missed.take(i as int) =~= missed);
        }
        chunks
    }
}

} // verus!
