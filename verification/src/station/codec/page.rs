//! Pages: the immutable unit of encoded output.

use bytes::Bytes;
use vstd::prelude::*;
use vstd::std_specs::cmp::PartialEqSpecImpl;

verus! {

#[verifier::external_type_specification]
#[verifier::external_body]
pub struct ExBytes(bytes::Bytes);

/// The bytes that a `Bytes` handle gives access to, in order.
pub uninterp spec fn bytes_content(b: Bytes) -> Seq<u8>;

/// `Bytes::copy_from_slice`: a new handle over a copy of `data`. Trusted: the
/// handle holds exactly the bytes of `data`.
#[verifier::external_body]
fn bytes_from_slice(data: &[u8]) -> (b: Bytes)
    ensures
        bytes_content(b) == data@,
{
    Bytes::copy_from_slice(data)
}

/// `Bytes::clone`: a second handle on the same shared memory. Trusted: both
/// handles give access to the same bytes.
#[verifier::external_body]
pub(crate) fn bytes_clone(b: &Bytes) -> (c: Bytes)
    ensures
        bytes_content(c) == bytes_content(*b),
{
    b.clone()
}

/// `Bytes::eq`: compares the two handles as byte slices. Trusted: the result
/// is true exactly when both give access to the same sequence of bytes.
#[verifier::external_body]
fn bytes_eq(a: &Bytes, b: &Bytes) -> (same: bool)
    ensures
        same == (bytes_content(*a) == bytes_content(*b)),
{
    a.eq(b)
}

/// `Bytes::to_vec` (through its deref to a slice): copies the bytes out.
/// Trusted: the vector holds exactly the bytes of the handle.
#[verifier::external_body]
fn bytes_to_vec(b: &Bytes) -> (v: Vec<u8>)
    ensures
        v@ == bytes_content(*b),
{
    b.to_vec()
}

/// What a page is, as a mathematical value.
pub struct PageView {
    pub data: Seq<u8>,
    pub duration: u64,
    pub id: u64,
}

/// One unit of Ogg-framed encoded audio: its bytes, shared by reference
/// count, the duration of audio it carries in nanoseconds, and its sequence
/// number within the session.
#[derive(Debug, Hash)]
pub struct Page {
    pub data: Bytes,
    pub duration: u64,
    pub id: u64,
}

impl View for Page {
    type V = PageView;

    open spec fn view(&self) -> PageView {
        PageView { data: bytes_content(self.data), duration: self.duration, id: self.id }
    }
}

impl Page {
    /// A page over a copy of `data`.
    pub fn new(data: &[u8], duration: u64, id: u64) -> (page: Page)
        ensures
            page@ == (PageView { data: data@, duration, id }),
    {
        Page { data: bytes_from_slice(data), duration, id }
    }

    /// A copy of the page's bytes.
    pub fn bytes(&self) -> (v: Vec<u8>)
        ensures
            v@ == self@.data,
    {
        bytes_to_vec(&self.data)
    }
}

impl Clone for Page {
    /// A second handle on the same page; no byte is copied.
    fn clone(&self) -> (page: Page)
        ensures
            page@ == self@,
    {
        Page { data: bytes_clone(&self.data), duration: self.duration, id: self.id }
    }
}

impl PartialEq for Page {
    fn eq(&self, other: &Page) -> (same: bool) {
        bytes_eq(&self.data, &other.data) && self.duration == other.duration && self.id
            == other.id
    }
}

impl PartialEqSpecImpl for Page {
    open spec fn obeys_eq_spec() -> bool {
        true
    }

    open spec fn eq_spec(&self, other: &Page) -> bool {
        self@ == other@
    }
}

impl Eq for Page {

}

} // verus!
