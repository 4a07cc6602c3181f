//! Values exchanged with the Discord Social SDK, as plain data.
#![allow(non_camel_case_types)]
use vstd::prelude::*;

verus! {

/// The text `String::from_utf8_lossy` makes of `bytes`.
pub uninterp spec fn utf8_lossy(bytes: Seq<u8>) -> Seq<char>;

/// Calls `String::from_utf8_lossy` on `bytes` and takes the result owned.
///
/// The contract names the result [`utf8_lossy`] of the bytes and states what
/// the standard library documents of it: bytes that are valid UTF-8 come
/// back as the text they encode. How invalid sequences are replaced is
/// left to the standard library.
#[verifier::external_body]
fn lossy_text(bytes: &[u8]) -> (text: String)
    ensures
        text@ == utf8_lossy(bytes@),
        vstd::utf8::valid_utf8(bytes@) ==> text@ == vstd::utf8::decode_utf8(bytes@),
{
    String::from_utf8_lossy(bytes).into_owned()
}

/// A string as the SDK passes it: a run of UTF-8 bytes, possibly none.
pub struct Discord_String {
    bytes: Vec<u8>,
}

impl View for Discord_String {
    type V = Seq<u8>;

    closed spec fn view(&self) -> Seq<u8> {
        self.bytes@
    }
}

impl Discord_String {
    /// The string of no bytes.
    pub fn empty() -> (s: Discord_String)
        ensures
            s@ == Seq::<u8>::empty(),
    {
        Discord_String { bytes: Vec::new() }
    }

    /// The string made of the bytes of `value`, which is left as it was.
    pub fn from_mut_bytes(value: &mut Vec<u8>) -> (s: Discord_String)
        ensures
            s@ == old(value)@,
            final(value)@ == old(value)@,
    {
        let mut bytes: Vec<u8> = Vec::new();
        let mut i: usize = 0;
        while i < value.len()
            invariant
                i <= value@.len(),
                bytes@ == value@.take(i as int),
            decreases value@.len() - i,
        {
            bytes.push(value[i]);
            i = i + 1;
        }
        assert(value@.take(value@.len() as int) == value@);
        Discord_String { bytes }
    }

    /// The string's bytes, invalid UTF-8 replaced; no bytes give no text.
    pub fn to_string_lossy(&self) -> (text: String)
        ensures
            self@.len() == 0 ==> text@ == Seq::<char>::empty(),
            self@.len() > 0 ==> text@ == utf8_lossy(self@),
            vstd::utf8::valid_utf8(self@) ==> text@ == vstd::utf8::decode_utf8(self@),
    {
        if self.bytes.len() == 0 {
            return String::new();
        }
        lossy_text(self.bytes.as_slice())
    }
}

/// A string owned for as long as the SDK may read it.
pub struct DiscordOwnedString {
    pub bytes: Vec<u8>,
}

impl DiscordOwnedString {
    /// The UTF-8 bytes of `value`.
    pub fn new(value: &str) -> (s: DiscordOwnedString)
        ensures
            s.bytes@ == vstd::utf8::encode_utf8(value@),
    {
        let bytes = vstd::slice::slice_to_vec(value.as_bytes());
        DiscordOwnedString { bytes }
    }

    /// The SDK's view of the string.
    pub fn raw(&mut self) -> (s: Discord_String)
        ensures
            s@ == old(self).bytes@,
            final(self).bytes@ == old(self).bytes@,
    {
        Discord_String::from_mut_bytes(&mut self.bytes)
    }
}

} // verus!
