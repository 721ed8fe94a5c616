//! Marshaling of platform string handles into owned UTF-8 strings.

use vstd::prelude::*;

verus! {

/// Why a platform string could not be turned into an owned string.
#[derive(Clone, Copy, Debug, PartialEq, Eq, Structural)]
pub enum Error {
    /// The platform reported a failure while copying the bytes out.
    FailToGetBytes,
    /// The string reports no characters.
    LengthIsZero,
    /// The handle is null.
    NullString,
    /// The copied bytes are not valid UTF-8.
    Utf8,
}

/// Relies on `String::from_utf8`: it succeeds exactly on valid UTF-8 and
/// then holds the characters the bytes encode.
#[verifier::external_body]
fn from_utf8_bytes(bytes: Vec<u8>) -> (r: Option<String>)
    ensures
        match r {
            Some(s) => vstd::utf8::valid_utf8(bytes@) && s@ == vstd::utf8::decode_utf8(bytes@),
            None => !vstd::utf8::valid_utf8(bytes@),
        },
{
    String::from_utf8(bytes).ok()
}

/// What marshaling a buffer of UTF-8 bytes yields.
pub open spec fn spec_text_of(b: Seq<u8>) -> Result<Seq<char>, Error> {
    if vstd::utf8::valid_utf8(b) {
        Ok(vstd::utf8::decode_utf8(b))
    } else {
        Err(Error::Utf8)
    }
}

/// The text a marshaling result carries, with its error unchanged.
pub open spec fn text_view(r: Result<String, Error>) -> Result<Seq<char>, Error> {
    match r {
        Ok(s) => Ok(s@),
        Err(e) => Err(e),
    }
}

/// The byte count a string of `length` characters is measured with, or the
/// error for an empty string.
pub fn check_length(length: i64) -> (r: Result<i64, Error>)
    ensures
        r == (if length > 0 { Ok(length) } else { Err::<i64, Error>(Error::LengthIsZero) }),
{
    if length <= 0 {
        Err(Error::LengthIsZero)
    } else {
        Ok(length)
    }
}

/// Judges the sizing pass of a copy-out: it must have converted some
/// characters and reported a positive buffer size, which is then used.
pub fn check_probe(converted: i64, size: i64) -> (r: Result<usize, Error>)
    ensures
        r == (if converted > 0 && size > 0 {
            Ok(size as usize)
        } else {
            Err::<usize, Error>(Error::FailToGetBytes)
        }),
{
    if converted <= 0 || size <= 0 {
        Err(Error::FailToGetBytes)
    } else {
        Ok(size as usize)
    }
}

/// Judges the copying pass of a copy-out: it must have converted some characters.
pub fn check_fill(converted: i64) -> (r: Result<(), Error>)
    ensures
        r == (if converted > 0 { Ok(()) } else { Err::<(), Error>(Error::FailToGetBytes) }),
{
    if converted <= 0 {
        Err(Error::FailToGetBytes)
    } else {
        Ok(())
    }
}

/// Decodes a buffer copied out of a platform string.
pub fn btye_array_to_string(buffer: Vec<u8>) -> (r: Result<String, Error>)
    ensures
        text_view(r) == spec_text_of(buffer@),
{
    match from_utf8_bytes(buffer) {
        Some(s) => Ok(s),
        None => Err(Error::Utf8),
    }
}

/// A platform string handle as this library sees it: `None` for a null
/// handle, else the outcome of copying its bytes out.
#[derive(Debug)]
pub struct StringRef {
    pub extracted: Option<Result<Vec<u8>, Error>>,
}

impl StringRef {
    /// What converting this handle yields.
    pub open spec fn spec_to_string(self) -> Result<Seq<char>, Error> {
        match self.extracted {
            None => Err(Error::NullString),
            Some(Err(e)) => Err(e),
            Some(Ok(b)) => spec_text_of(b@),
        }
    }

    pub fn new(extracted: Option<Result<Vec<u8>, Error>>) -> (r: StringRef)
        ensures
            r.extracted == extracted,
    {
        StringRef { extracted }
    }

    /// A null handle.
    pub fn null() -> (r: StringRef)
        ensures
            r.extracted is None,
    {
        StringRef { extracted: None }
    }

    pub fn to_string(&self) -> (r: Result<String, Error>)
        ensures
            text_view(r) == self.spec_to_string(),
    {
        match &self.extracted {
            None => Err(Error::NullString),
            Some(Err(e)) => Err(*e),
            Some(Ok(b)) => btye_array_to_string(b.clone()),
        }
    }

    pub fn into_string(self) -> (r: Result<String, Error>)
        ensures
            text_view(r) == self.spec_to_string(),
    {
        self.to_string()
    }
}

} // verus!
