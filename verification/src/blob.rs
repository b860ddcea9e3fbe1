//! The length-and-range structure exchanged with the protection facility.

use vstd::prelude::*;
use vstd::slice::slice_to_vec;

verus! {

/// A non-owning view of a byte range, with the length the facility is told.
///
/// The view either covers a range (`pb_data` is `Some`) or stands for "no
/// data", the state of a zero-initialised placeholder.
#[derive(Clone, Copy, Debug)]
pub struct Blob<'a> {
    cb_data: u32,
    pb_data: Option<&'a [u8]>,
}

impl<'a> View for Blob<'a> {
    type V = Seq<u8>;

    /// The bytes the blob describes; none for a placeholder.
    closed spec fn view(&self) -> Seq<u8> {
        match self.pb_data {
            Some(range) => range@,
            None => Seq::empty(),
        }
    }
}

impl<'a> Blob<'a> {
    /// The length field.
    pub closed spec fn spec_len(&self) -> u32 {
        self.cb_data
    }

    /// Whether the blob stands for "no data".
    pub closed spec fn spec_is_null(&self) -> bool {
        self.pb_data is None
    }

    /// The length field and the range describe the same memory.
    pub closed spec fn wf(&self) -> bool {
        match self.pb_data {
            Some(range) => range@.len() == self.cb_data,
            None => self.cb_data == 0,
        }
    }

    /// Views `buffer` without taking ownership of it.
    pub fn new(buffer: &'a [u8]) -> (blob: Blob<'a>)
        requires
            buffer@.len() <= u32::MAX,
        ensures
            blob.wf(),
            blob@ == buffer@,
            blob.spec_len() == buffer@.len(),
            !blob.spec_is_null(),
    {
        Blob { cb_data: buffer.len() as u32, pb_data: Some(buffer) }
    }

    /// The zero-initialised placeholder: length 0 and no data.
    pub fn null() -> (blob: Blob<'a>)
        ensures
            blob.wf(),
            blob@ == Seq::<u8>::empty(),
            blob.spec_len() == 0,
            blob.spec_is_null(),
    {
        Blob { cb_data: 0, pb_data: None }
    }

    /// The described bytes as a slice; empty for a placeholder.
    pub fn slice(&self) -> (range: &'a [u8])
        ensures
            range@ == self@,
    {
        match self.pb_data {
            Some(range) => range,
            None => {
                let empty: &'static [u8; 0] = &[];
                vstd::array::array_as_slice(empty)
            },
        }
    }

    /// The length field, as the facility is to be told it.
    #[verifier::when_used_as_spec(spec_len)]
    pub fn len(&self) -> (n: u32)
        ensures
            n == self.spec_len(),
    {
        self.cb_data
    }

    /// Whether the blob stands for "no data".
    #[verifier::when_used_as_spec(spec_is_null)]
    pub fn is_null(&self) -> (b: bool)
        ensures
            b == self.spec_is_null(),
    {
        self.pb_data.is_none()
    }

    /// Copies the described bytes into a freshly owned buffer.
    pub fn to_vec(&self) -> (bytes: Vec<u8>)
        ensures
            bytes@ == self@,
    {
        match self.pb_data {
            Some(range) => slice_to_vec(range),
            None => Vec::new(),
        }
    }
}

} // verus!
