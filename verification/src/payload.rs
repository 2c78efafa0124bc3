//! The bounded text buffer in which a report is put together.

use vstd::prelude::*;
use vstd::string::StringSliceAdditionalSpecFns;

verus! {

/// `heapless::String`, a string of at most `N` bytes stored in place.
#[verifier::external_type_specification]
#[verifier::external_body]
pub struct ExBoundedString<const N: usize>(heapless::String<N>);

/// The bytes that a buffer of capacity [`PAYLOAD_CAPACITY`] holds.
pub uninterp spec fn buffer_bytes(buffer: heapless::String<32>) -> Seq<u8>;

/// The number of bytes a payload can hold.
pub const PAYLOAD_CAPACITY: usize = 32;

/// `heapless::String::new`: the buffer it returns holds no bytes.
#[verifier::external_body]
fn buffer_new() -> (buffer: heapless::String<32>)
    ensures
        buffer_bytes(buffer) == Seq::<u8>::empty(),
{
    heapless::String::new()
}

/// `heapless::String::push_str`: when the bytes held and those of `text`
/// together fit the capacity, `text` is appended and the call succeeds;
/// otherwise nothing is changed and the call fails.
#[verifier::external_body]
fn buffer_push_str(buffer: &mut heapless::String<32>, text: &str) -> (pushed: Result<(), ()>)
    ensures
        pushed is Ok <==> buffer_bytes(*old(buffer)).len() + text.spec_bytes().len() <= 32,
        pushed is Ok ==> buffer_bytes(*final(buffer)) == buffer_bytes(*old(buffer))
            + text.spec_bytes(),
        pushed is Err ==> buffer_bytes(*final(buffer)) == buffer_bytes(*old(buffer)),
{
    buffer.push_str(text)
}

/// `heapless::String::as_str`: the string slice it returns is made of the
/// bytes the buffer holds, which are no more than its capacity.
#[verifier::external_body]
fn buffer_as_str(buffer: &heapless::String<32>) -> (text: &str)
    ensures
        text.spec_bytes() == buffer_bytes(*buffer),
        text.spec_bytes().len() <= 32,
{
    buffer.as_str()
}

/// A report ready to be published: at most [`PAYLOAD_CAPACITY`] bytes of text.
#[derive(Debug)]
pub struct Payload {
    text: heapless::String<32>,
}

impl View for Payload {
    type V = Seq<u8>;

    closed spec fn view(&self) -> Seq<u8> {
        buffer_bytes(self.text)
    }
}

impl Payload {
    /// An empty payload.
    pub fn new() -> (payload: Payload)
        ensures
            payload@ == Seq::<u8>::empty(),
    {
        Payload { text: buffer_new() }
    }

    /// Appends `text` when it still fits; a text that does not fit is left
    /// out whole.
    pub fn append(&mut self, text: &str) -> (appended: bool)
        ensures
            appended == (old(self)@.len() + text.spec_bytes().len() <= PAYLOAD_CAPACITY),
            final(self)@ == if appended {
                old(self)@ + text.spec_bytes()
            } else {
                old(self)@
            },
    {
        let pushed = buffer_push_str(&mut self.text, text);
        pushed.is_ok()
    }

    /// The text of the payload.
    pub fn as_str(&self) -> (text: &str)
        ensures
            text.spec_bytes() == self@,
            text.spec_bytes().len() <= PAYLOAD_CAPACITY,
    {
        buffer_as_str(&self.text)
    }
}

} // verus!
