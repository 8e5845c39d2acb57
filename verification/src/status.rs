//! The status-code protocol: a closed set of six one-byte outcome codes that
//! the peers exchange after nearly every protocol step.

use vstd::prelude::*;

verus! {

/// One outcome code of the protocol.  On the wire each variant is exactly one
/// byte, 0 through 5; every other byte is a protocol violation.
#[derive(Clone, Copy, Debug, PartialEq, Eq, Structural)]
pub enum Status {
    Okay,
    Abort,
    FileAlreadyExists,
    NameError,
    FileOpenError,
    Stop,
}

/// A violation of the wire protocol.  It aborts only the connection on which
/// it was seen, never the whole process.
#[derive(Clone, Copy, Debug, PartialEq, Eq, Structural)]
pub enum ProtocolError {
    /// A status byte outside 0..=5, carrying the offending byte.
    BadStatusByte(u8),
    /// A batch header announcing a negative file count.
    NegativeCount(i16),
}

/// The wire byte of a status code: a total, injective map onto 0..=5.
pub open spec fn status_byte(stat: Status) -> u8 {
    match stat {
        Status::Okay => 0,
        Status::Abort => 1,
        Status::FileAlreadyExists => 2,
        Status::NameError => 3,
        Status::FileOpenError => 4,
        Status::Stop => 5,
    }
}

/// The status a wire byte stands for, or `None` for the bytes that stand for
/// no status at all.
pub open spec fn decoded_status(n: u8) -> Option<Status> {
    if n == 0 {
        Some(Status::Okay)
    } else if n == 1 {
        Some(Status::Abort)
    } else if n == 2 {
        Some(Status::FileAlreadyExists)
    } else if n == 3 {
        Some(Status::NameError)
    } else if n == 4 {
        Some(Status::FileOpenError)
    } else if n == 5 {
        Some(Status::Stop)
    } else {
        None
    }
}

/// Encodes a status code as its wire byte.
pub fn to_u8(stat: Status) -> (n: u8)
    ensures
        n == status_byte(stat),
        n <= 5,
{
    match stat {
        Status::Okay => 0,
        Status::Abort => 1,
        Status::FileAlreadyExists => 2,
        Status::NameError => 3,
        Status::FileOpenError => 4,
        Status::Stop => 5,
    }
}

/// Decodes a wire byte.  Bytes 0..=5 yield the matching status; every other
/// byte is a recoverable protocol violation carrying the offending byte.
pub fn from_u8(n: u8) -> (r: Result<Status, ProtocolError>)
    ensures
        n <= 5 ==> r == Ok::<Status, ProtocolError>(decoded_status(n)->Some_0),
        n > 5 ==> r == Err::<Status, ProtocolError>(ProtocolError::BadStatusByte(n)),
{
    match n {
        0 => Ok(Status::Okay),
        1 => Ok(Status::Abort),
        2 => Ok(Status::FileAlreadyExists),
        3 => Ok(Status::NameError),
        4 => Ok(Status::FileOpenError),
        5 => Ok(Status::Stop),
        _ => Err(ProtocolError::BadStatusByte(n)),
    }
}

/// Law: decoding an encoded status gives the status back, and decoding
/// succeeds on exactly the bytes 0..=5.
pub proof fn lemma_status_round_trip(stat: Status, n: u8)
    ensures
        decoded_status(status_byte(stat)) == Some(stat),
        n > 5 ==> decoded_status(n) is None,
        n <= 5 ==> status_byte(decoded_status(n)->Some_0) == n,
{
}

} // verus!
