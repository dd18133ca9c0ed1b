//! Read access to the memory of a delivered buffer, as 16-bit samples.
//!
//! A delivered buffer is a run of bytes somewhere in memory. Its samples are
//! read in place: the bytes are reinterpreted, two per sample in the byte
//! order of the machine, not copied.

use byte_slice_cast::AsSliceOf;
use vstd::prelude::*;

verus! {

/// Why the samples of a delivered buffer could not be read.
#[derive(Clone, Copy, Debug, PartialEq, Eq)]
pub enum ResourceError {
    /// The delivery carried no buffer.
    BufferMissing,
    /// The buffer's memory could not be mapped for reading.
    MapFailed,
    /// The mapped bytes are not a whole number of properly aligned samples.
    ReinterpretFailed,
}

impl ResourceError {
    /// The text of `message`, by variant.
    pub open spec fn message_text(self) -> Seq<char> {
        match self {
            ResourceError::BufferMissing => "Failed to get buffer from appsink"@,
            ResourceError::MapFailed => "Failed to map buffer readable"@,
            ResourceError::ReinterpretFailed => "Failed to interprete buffer as S16 PCM"@,
        }
    }

    /// The message posted on the sink for this error.
    pub fn message(&self) -> (text: &'static str)
        ensures
            text@ == self.message_text(),
    {
        match self {
            ResourceError::BufferMissing => "Failed to get buffer from appsink",
            ResourceError::MapFailed => "Failed to map buffer readable",
            ResourceError::ReinterpretFailed => "Failed to interprete buffer as S16 PCM",
        }
    }
}

/// How far the sink got in handing over the next buffer.
#[derive(Clone, Copy, Debug, PartialEq, Eq)]
pub enum Pulled<'a> {
    /// Nothing was pulled: the stream has ended.
    StreamEnded,
    /// A sample was pulled, but it holds no buffer.
    NoBuffer,
    /// The buffer could not be mapped for reading.
    Unmapped,
    /// The buffer's memory, mapped for reading.
    Mapped(&'a [u8]),
}

/// The order in which the two bytes of a sample lie in memory.
#[derive(Clone, Copy, Debug, PartialEq, Eq)]
pub enum ByteOrder {
    /// Low byte first.
    LittleEndian,
    /// High byte first.
    BigEndian,
}

/// The sample whose two's complement representation has the given low and
/// high byte.
pub open spec fn sample_from(low: u8, high: u8) -> i16 {
    let unsigned: int = low as int + 256 * (high as int);
    if unsigned < 32768 {
        unsigned as i16
    } else {
        (unsigned - 65536) as i16
    }
}

/// The samples that `bytes` hold when read two by two in the given order. A
/// last odd byte belongs to no sample.
pub open spec fn decoded(bytes: Seq<u8>, order: ByteOrder) -> Seq<i16> {
    Seq::new(
        (bytes.len() / 2) as nat,
        |i: int|
            match order {
                ByteOrder::LittleEndian => sample_from(bytes[2 * i], bytes[2 * i + 1]),
                ByteOrder::BigEndian => sample_from(bytes[2 * i + 1], bytes[2 * i]),
            },
    )
}

/// `samples` is `bytes` seen as whole samples, in one of the two byte orders.
pub open spec fn reinterprets(bytes: Seq<u8>, samples: Seq<i16>) -> bool {
    &&& bytes.len() % 2 == 0
    &&& samples == decoded(bytes, ByteOrder::LittleEndian) || samples == decoded(
        bytes,
        ByteOrder::BigEndian,
    )
}

/// The error type of the crate `byte_slice_cast`, carried through unread.
#[verifier::external_type_specification]
#[verifier::external_body]
pub struct ExCastError(byte_slice_cast::Error);

/// Calls `as_slice_of::<i16>` of `byte_slice_cast` on the bytes.
///
/// That function refuses a non-empty slice whose address is odd or whose
/// length is odd, and accepts every empty slice. What it returns on success
/// is the same memory typed as `i16`: half as many samples as bytes, each
/// made of two neighbouring bytes in the byte order of the machine. Whether
/// an address is even cannot be told from the bytes, so nothing is claimed
/// about when a non-empty slice is accepted.
#[verifier::external_body]
fn cast_to_samples(bytes: &[u8]) -> (cast: Result<&[i16], byte_slice_cast::Error>)
    ensures
        bytes@.len() == 0 ==> cast is Ok,
        cast matches Ok(samples) ==> reinterprets(bytes@, samples@),
{
    bytes.as_slice_of::<i16>()
}

/// What `samples_of` returns once the cast has been made.
pub open spec fn view_after(
    cast: Result<&[i16], byte_slice_cast::Error>,
) -> Result<&[i16], ResourceError> {
    match cast {
        Ok(samples) => Ok(samples),
        Err(_) => Err(ResourceError::ReinterpretFailed),
    }
}

/// Maps the outcome of the cast to a view of the samples or to the error
/// that is raised on the sink.
pub fn view_from_cast(cast: Result<&[i16], byte_slice_cast::Error>) -> (view: Result<
    &[i16],
    ResourceError,
>)
    ensures
        view == view_after(cast),
{
    match cast {
        Ok(samples) => Ok(samples),
        Err(_) => Err(ResourceError::ReinterpretFailed),
    }
}

/// Views mapped bytes as signed 16-bit samples, without copying.
///
/// An empty buffer always gives an empty view, and an odd number of bytes
/// is always refused. For other buffers the view is given if the memory is
/// aligned for samples. A view holds the samples that the bytes spell in the
/// byte order of the machine.
pub fn samples_of(bytes: &[u8]) -> (view: Result<&[i16], ResourceError>)
    ensures
        bytes@.len() == 0 ==> view is Ok,
        bytes@.len() % 2 == 1 ==> view is Err,
        view matches Ok(samples) ==> reinterprets(bytes@, samples@),
        view matches Err(error) ==> error == ResourceError::ReinterpretFailed && bytes@.len() > 0,
{
    view_from_cast(cast_to_samples(bytes))
}

} // verus!
