//! The address-keyed property protocol: addresses, query failures, and the
//! checked reinterpretation of the raw bytes a query hands back.

use vstd::prelude::*;

verus! {

/// The element every address in this library names (the master element).
pub const ELEMENT_MASTER: u32 = 0;

/// Byte width of one object handle, the element type of every array property.
pub const HANDLE_SIZE: usize = 4;

/// The domain-specific key of a property.
#[derive(Clone, Copy, Debug, PartialEq, Eq, Structural)]
pub enum Selector {
    /// The name of an object, as a platform string handle.
    ObjectName,
    /// The list of all device handles.
    Devices,
    /// The handle of the default input device.
    DefaultInputDevice,
    /// The handle of the default output device.
    DefaultOutputDevice,
    /// The list of stream identifiers of a device.
    Streams,
    /// The identifier of a device's current data source.
    DataSource,
    /// Translation of a data-source identifier into its name.
    DataSourceNameForId,
}

/// The half of a device's stream graph an address targets.
#[derive(Clone, Copy, Debug, PartialEq, Eq, Structural)]
pub enum AddressScope {
    Global,
    Input,
    Output,
}

/// Identifies exactly one queryable or settable property of an object.
#[derive(Clone, Copy, Debug, PartialEq, Eq, Structural)]
pub struct PropertyAddress {
    pub selector: Selector,
    pub scope: AddressScope,
    pub element: u32,
}

/// A write of one handle-sized value to a property of an object.
#[derive(Clone, Copy, Debug, PartialEq, Eq, Structural)]
pub struct PropertyWrite {
    pub object: u32,
    pub address: PropertyAddress,
    pub value: u32,
}

/// Why a property query failed.
#[derive(Clone, Copy, Debug, PartialEq, Eq, Structural)]
pub enum QueryError {
    /// The platform rejected the handle or the address with this status.
    Status(i32),
    /// The platform reported a byte size that does not fit the expected type.
    UnexpectedSize(usize),
}

/// The handle-sized word stored at index `i` of `b`, least significant byte first.
pub open spec fn word_at(b: Seq<u8>, i: int) -> int {
    b[4 * i] + 256 * b[4 * i + 1] + 65536 * b[4 * i + 2] + 16777216 * b[4 * i + 3]
}

/// `b` read as consecutive handle-sized words.
pub open spec fn words_of(b: Seq<u8>) -> Seq<u32> {
    Seq::new(b.len() / 4, |i: int| word_at(b, i) as u32)
}

/// Number of elements in an array property of `byte_size` bytes, or the
/// size error when the bytes do not split into whole elements.
pub open spec fn spec_element_count(byte_size: usize, element_size: usize) -> Result<usize, QueryError> {
    if byte_size % element_size == 0 {
        Ok((byte_size / element_size) as usize)
    } else {
        Err(QueryError::UnexpectedSize(byte_size))
    }
}

/// The length of an array property: its byte size divided by the size of
/// one element, refused unless the division is exact.
pub fn element_count(byte_size: usize, element_size: usize) -> (r: Result<usize, QueryError>)
    requires
        element_size > 0,
    ensures
        r == spec_element_count(byte_size, element_size),
{
    if byte_size % element_size == 0 {
        Ok(byte_size / element_size)
    } else {
        Err(QueryError::UnexpectedSize(byte_size))
    }
}

fn read_word(bytes: &Vec<u8>, i: usize) -> (r: u32)
    requires
        4 * i + 4 <= bytes@.len(),
    ensures
        r as int == word_at(bytes@, i as int),
{
    let len = bytes.len();
    assert(4 * i + 4 <= len);
    let k: usize = 4 * i;
    let b0 = bytes[k] as u32;
    let b1 = bytes[k + 1] as u32;
    let b2 = bytes[k + 2] as u32;
    let b3 = bytes[k + 3] as u32;
    b0 + 256 * b1 + 65536 * b2 + 16777216 * b3
}

/// Reads the raw bytes of an array property as handle-sized words.
pub fn words_from_bytes(bytes: &Vec<u8>) -> (r: Result<Vec<u32>, QueryError>)
    ensures
        match r {
            Ok(v) => bytes@.len() % 4 == 0 && v@ == words_of(bytes@),
            Err(e) => bytes@.len() % 4 != 0 && e == QueryError::UnexpectedSize(bytes@.len() as usize),
        },
{
    let n = match element_count(bytes.len(), HANDLE_SIZE) {
        Ok(n) => n,
        Err(e) => return Err(e),
    };
    let mut out: Vec<u32> = Vec::new();
    let mut i: usize = 0;
    while i < n
        invariant
            n == bytes@.len() / 4,
            bytes@.len() % 4 == 0,
            i <= n,
            out@.len() == i,
            forall|j: int| 0 <= j < i ==> out@[j] == words_of(bytes@)[j],
        decreases n - i,
    {
        let w = read_word(bytes, i);
        out.push(w);
        i = i + 1;
    }
    assert(out@ =~= words_of(bytes@));
    Ok(out)
}

/// Checks the byte count a single-value query reported against the size of
/// the value it was to fill.
pub fn check_value_size(reported: usize, expected: usize) -> (r: Result<(), QueryError>)
    ensures
        r == (if reported == expected {
            Ok(())
        } else {
            Err::<(), QueryError>(QueryError::UnexpectedSize(reported))
        }),
{
    if reported == expected {
        Ok(())
    } else {
        Err(QueryError::UnexpectedSize(reported))
    }
}

/// Reads the raw bytes of a single-value property as one handle-sized word;
/// any other byte count is a size error.
pub fn word_from_bytes(bytes: &Vec<u8>) -> (r: Result<u32, QueryError>)
    ensures
        match r {
            Ok(w) => bytes@.len() == 4 && w as int == word_at(bytes@, 0),
            Err(e) => bytes@.len() != 4 && e == QueryError::UnexpectedSize(bytes@.len() as usize),
        },
{
    match check_value_size(bytes.len(), HANDLE_SIZE) {
        Err(e) => Err(e),
        Ok(()) => Ok(read_word(bytes, 0)),
    }
}

} // verus!
