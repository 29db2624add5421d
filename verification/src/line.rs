//! The fixed-capacity text line that a refresh hands to the display.
//!
//! The storage is `arrayvec::ArrayString<[u8; 64]>`. Verus cannot look inside
//! it, so the few calls made into it are stated here and taken on trust.

use arrayvec::ArrayString;
use vstd::prelude::*;
use vstd::string::StringSliceAdditionalSpecFns;

verus! {

/// Number of bytes a line can hold.
pub const LINE_CAPACITY: usize = 64;

/// One line of display text, stored inline without allocation.
#[verifier::external_body]
pub struct LineBuffer {
    text: ArrayString<[u8; 64]>,
}

/// The bytes a line holds, first to last.
pub uninterp spec fn line_bytes(line: LineBuffer) -> Seq<u8>;

impl View for LineBuffer {
    type V = Seq<u8>;

    open spec fn view(&self) -> Seq<u8> {
        line_bytes(*self)
    }
}

/// Trusted: `ArrayString::new` returns a string of length zero.
#[verifier::external_body]
fn empty_line() -> (line: LineBuffer)
    ensures
        line_bytes(line) == Seq::<u8>::empty(),
{
    LineBuffer { text: ArrayString::new() }
}

/// Trusted: `ArrayString::push` appends the UTF-8 encoding of a character and
/// panics only when that encoding does not fit. A character below 128 encodes
/// as the single byte of its code, so one free byte is enough.
#[verifier::external_body]
pub(crate) fn push_ascii(line: &mut LineBuffer, byte: u8)
    requires
        byte < 128,
        line_bytes(*old(line)).len() < LINE_CAPACITY,
    ensures
        line_bytes(*final(line)) == line_bytes(*old(line)).push(byte),
{
    line.text.push(char::from(byte))
}

/// Trusted: `ArrayString::as_str` borrows exactly the bytes held, as a string
/// slice.
#[verifier::external_body]
fn borrow_str(line: &LineBuffer) -> (text: &str)
    ensures
        text.spec_bytes() == line_bytes(*line),
{
    line.text.as_str()
}

impl LineBuffer {
    /// An empty line.
    pub fn new() -> (line: Self)
        ensures
            line@.len() == 0,
    {
        empty_line()
    }

    /// The text held, as a string slice whose UTF-8 bytes are `self@`.
    pub fn as_str(&self) -> (text: &str)
        ensures
            text.spec_bytes() == self@,
    {
        borrow_str(self)
    }
}

} // verus!
