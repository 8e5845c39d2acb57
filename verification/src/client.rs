//! The initiator's side of one connection: it either sends the halt signal,
//! or announces a batch and then walks its file list through the
//! header / accept-status / open-status / payload exchange, in exactly that
//! order, recording one outcome per offered file.
//!
//! The session is a state machine.  The caller owns the socket and the local
//! files; it asks the session what to do next, performs the read, write or
//! open, and hands the resulting bytes or answers back.

use vstd::prelude::*;
use vstd::bytes::*;
use vstd::string::StringSliceAdditionalSpecFns;
use vstd::utf8::*;

use crate::codec::{
    count_to_u16, encode_batch_header, encode_file_header, file_header_bytes, wire_name,
    EncodeError, MAX_NAME_LEN,
};
use crate::file_utils::{count_true, filtered_by, lemma_filtered_by_length};
use crate::status::{decoded_status, from_u8, ProtocolError, Status};

verus! {

/// What the initiator wants of one connection: offer a batch of files, or
/// tell the listener's acceptance loop to stop.
#[derive(Debug, PartialEq, Eq)]
pub enum ClientMode {
    SendFile(Vec<String>),
    SendStop,
}

/// Why a batch broke off before every file was resolved.
#[derive(Clone, Copy, Debug, PartialEq, Eq, Structural)]
pub enum ClientError {
    /// The peer sent an undecodable status byte.
    Protocol(ProtocolError),
    /// A transmitted name would exceed the 255-byte name field.
    NameTooLong,
}

/// Where the session stands within the current file's exchange.
#[derive(Clone, Copy, Debug, PartialEq, Eq, Structural)]
pub enum SendPhase {
    /// Query the current file's size and send its header next.
    Header,
    /// Read the peer's accept decision for the current file.
    AwaitAccept,
    /// Open the local source and send the result status.
    LocalOpen,
    /// Read the peer's own open result.
    AwaitPeerOpen,
    /// Stream the source in chunks until end of file.
    Streaming,
    /// Every file has its outcome.
    Done,
    /// The operation broke off; see [`ClientSession::error`].
    Failed,
}

/// The first status byte of a connection announces a batch or a halt.
pub fn initial_status(mode: &ClientMode) -> (r: Status)
    ensures
        r == (match mode {
            ClientMode::SendFile(_) => Status::Okay,
            ClientMode::SendStop => Status::Stop,
        }),
{
    match mode {
        ClientMode::SendFile(_) => Status::Okay,
        ClientMode::SendStop => Status::Stop,
    }
}

/// The initiator's per-connection state machine for one batch.
pub struct ClientSession {
    /// The files to offer, already filtered to existing regular files.
    pub files: Vec<String>,
    /// How many files are fully resolved.
    pub idx: usize,
    /// The next exchange step.
    pub phase: SendPhase,
    /// One final status per resolved file, in list order.
    pub outcomes: Vec<Status>,
    /// Why the operation failed; `Some` exactly in the `Failed` phase.
    pub error: Option<ClientError>,
    /// How many file headers have been produced.
    pub headers_sent: Ghost<int>,
}

impl ClientSession {
    /// The transmitted name of the file at position `i`.
    pub open spec fn spec_wire_name(self, i: int) -> Seq<u8> {
        wire_name(encode_utf8(self.files@[i]@))
    }

    /// The session's invariant: outcomes and headers track the file cursor,
    /// and the phase always points at a real file until all are resolved.
    pub open spec fn wf(self) -> bool {
        &&& self.files@.len() <= 32767
        &&& self.idx <= self.files@.len()
        &&& self.outcomes@.len() == self.idx
        &&& (self.error is Some <==> self.phase == SendPhase::Failed)
        &&& match self.phase {
            SendPhase::Header => self.idx < self.files@.len() && self.headers_sent@ == self.idx,
            SendPhase::AwaitAccept | SendPhase::LocalOpen | SendPhase::AwaitPeerOpen
                | SendPhase::Streaming => self.idx < self.files@.len() && self.headers_sent@
                == self.idx + 1,
            SendPhase::Done => self.idx == self.files@.len() && self.headers_sent@ == self.idx,
            SendPhase::Failed => true,
        }
    }

    /// The phase that follows once the file at `idx` is resolved.
    pub open spec fn phase_after_file(next_idx: int, total: int) -> SendPhase {
        if next_idx == total {
            SendPhase::Done
        } else {
            SendPhase::Header
        }
    }

    /// Starts a batch over the given (already cleaned) file list.
    pub fn new(files: Vec<String>) -> (s: Self)
        requires
            files@.len() <= 32767,
        ensures
            s.wf(),
            s.files == files,
            s.idx == 0,
            s.outcomes@.len() == 0,
            s.error is None,
            s.phase == (if files@.len() == 0 {
                SendPhase::Done
            } else {
                SendPhase::Header
            }),
    {
        let phase = if files.len() == 0 {
            SendPhase::Done
        } else {
            SendPhase::Header
        };
        ClientSession {
            files,
            idx: 0,
            phase,
            outcomes: Vec::new(),
            error: None,
            headers_sent: Ghost(0),
        }
    }

    /// The two-byte batch header announcing how many files will follow.
    pub fn batch_header(&self) -> (r: Vec<u8>)
        requires
            self.wf(),
        ensures
            r@ == spec_u16_to_le_bytes(count_to_u16(self.files@.len() as i16)),
            r@.len() == 2,
    {
        encode_batch_header(self.files.len() as i16)
    }

    /// Builds the current file's 265-byte header from its just-queried
    /// size.  A transmitted name over 255 bytes fails the whole operation,
    /// distinctly, before anything of this file reaches the wire.
    pub fn next_header(&mut self, size: u64) -> (r: Result<Vec<u8>, EncodeError>)
        requires
            old(self).wf(),
            old(self).phase == SendPhase::Header,
        ensures
            final(self).wf(),
            final(self).files == old(self).files,
            final(self).idx == old(self).idx,
            final(self).outcomes == old(self).outcomes,
            r is Ok <==> old(self).spec_wire_name(old(self).idx as int).len() <= MAX_NAME_LEN,
            r matches Ok(v) ==> {
                &&& v@ == file_header_bytes(old(self).spec_wire_name(old(self).idx as int), size)
                &&& final(self).phase == SendPhase::AwaitAccept
                &&& final(self).headers_sent@ == old(self).headers_sent@ + 1
                &&& final(self).error is None
            },
            r is Err ==> {
                &&& final(self).phase == SendPhase::Failed
                &&& final(self).error == Some(ClientError::NameTooLong)
            },
    {
        let name: &String = &self.files[self.idx];
        match encode_file_header(name.as_str(), size) {
            Ok(header) => {
                self.phase = SendPhase::AwaitAccept;
                proof {
                    self.headers_sent@ = self.headers_sent@ + 1;
                }
                Ok(header)
            },
            Err(e) => {
                self.phase = SendPhase::Failed;
                self.error = Some(ClientError::NameTooLong);
                Err(e)
            },
        }
    }

    /// Takes the peer's accept decision for the current file.  Anything but
    /// `Okay` resolves the file with that status and no payload follows; an
    /// undecodable byte is a protocol violation that ends the operation.
    pub fn on_accept_byte(&mut self, b: u8)
        requires
            old(self).wf(),
            old(self).phase == SendPhase::AwaitAccept,
        ensures
            final(self).wf(),
            final(self).files == old(self).files,
            final(self).headers_sent@ == old(self).headers_sent@,
            decoded_status(b) is None ==> {
                &&& final(self).phase == SendPhase::Failed
                &&& final(self).error == Some(
                    ClientError::Protocol(ProtocolError::BadStatusByte(b)),
                )
                &&& final(self).idx == old(self).idx
                &&& final(self).outcomes == old(self).outcomes
            },
            decoded_status(b) == Some(Status::Okay) ==> {
                &&& final(self).phase == SendPhase::LocalOpen
                &&& final(self).idx == old(self).idx
                &&& final(self).outcomes == old(self).outcomes
                &&& final(self).error is None
            },
            decoded_status(b) matches Some(s) ==> s != Status::Okay ==> {
                &&& final(self).outcomes@ == old(self).outcomes@.push(s)
                &&& final(self).idx == old(self).idx + 1
                &&& final(self).phase == Self::phase_after_file(
                    old(self).idx + 1,
                    old(self).files@.len() as int,
                )
                &&& final(self).error is None
            },
    {
        match from_u8(b) {
            Err(e) => {
                self.phase = SendPhase::Failed;
                self.error = Some(ClientError::Protocol(e));
            },
            Ok(Status::Okay) => {
                self.phase = SendPhase::LocalOpen;
            },
            Ok(s) => {
                self.resolve_file(s);
            },
        }
    }

    /// Takes the local open result and answers with the status byte to
    /// send.  A failed open is an ordinary negotiated outcome: it is
    /// reported to the peer, recorded as this file's outcome, and the
    /// session continues with the next file — no payload is sent, and the
    /// peer, seeing the failure status, creates no destination.
    pub fn on_open_result(&mut self, opened: bool) -> (reply: Status)
        requires
            old(self).wf(),
            old(self).phase == SendPhase::LocalOpen,
        ensures
            final(self).wf(),
            final(self).files == old(self).files,
            final(self).headers_sent@ == old(self).headers_sent@,
            final(self).error is None,
            opened ==> {
                &&& reply == Status::Okay
                &&& final(self).phase == SendPhase::AwaitPeerOpen
                &&& final(self).idx == old(self).idx
                &&& final(self).outcomes == old(self).outcomes
            },
            !opened ==> {
                &&& reply == Status::FileOpenError
                &&& final(self).outcomes@ == old(self).outcomes@.push(Status::FileOpenError)
                &&& final(self).idx == old(self).idx + 1
                &&& final(self).phase == Self::phase_after_file(
                    old(self).idx + 1,
                    old(self).files@.len() as int,
                )
            },
    {
        if opened {
            self.phase = SendPhase::AwaitPeerOpen;
            Status::Okay
        } else {
            self.resolve_file(Status::FileOpenError);
            Status::FileOpenError
        }
    }

    /// Takes the peer's own open result.  `FileOpenError` resolves the file
    /// without payload; any other status opens the payload stream; an
    /// undecodable byte is a protocol violation that ends the operation.
    pub fn on_peer_open_byte(&mut self, b: u8)
        requires
            old(self).wf(),
            old(self).phase == SendPhase::AwaitPeerOpen,
        ensures
            final(self).wf(),
            final(self).files == old(self).files,
            final(self).headers_sent@ == old(self).headers_sent@,
            decoded_status(b) is None ==> {
                &&& final(self).phase == SendPhase::Failed
                &&& final(self).error == Some(
                    ClientError::Protocol(ProtocolError::BadStatusByte(b)),
                )
                &&& final(self).idx == old(self).idx
                &&& final(self).outcomes == old(self).outcomes
            },
            decoded_status(b) == Some(Status::FileOpenError) ==> {
                &&& final(self).outcomes@ == old(self).outcomes@.push(Status::FileOpenError)
                &&& final(self).idx == old(self).idx + 1
                &&& final(self).phase == Self::phase_after_file(
                    old(self).idx + 1,
                    old(self).files@.len() as int,
                )
                &&& final(self).error is None
            },
            decoded_status(b) matches Some(s) ==> s != Status::FileOpenError ==> {
                &&& final(self).phase == SendPhase::Streaming
                &&& final(self).idx == old(self).idx
                &&& final(self).outcomes == old(self).outcomes
                &&& final(self).error is None
            },
    {
        match from_u8(b) {
            Err(e) => {
                self.phase = SendPhase::Failed;
                self.error = Some(ClientError::Protocol(e));
            },
            Ok(Status::FileOpenError) => {
                self.resolve_file(Status::FileOpenError);
            },
            Ok(_) => {
                self.phase = SendPhase::Streaming;
            },
        }
    }

    /// Marks the current file fully streamed: its payload was copied chunk
    /// by chunk until end of file, and its outcome is `Okay`.
    pub fn on_eof(&mut self)
        requires
            old(self).wf(),
            old(self).phase == SendPhase::Streaming,
        ensures
            final(self).wf(),
            final(self).files == old(self).files,
            final(self).headers_sent@ == old(self).headers_sent@,
            final(self).outcomes@ == old(self).outcomes@.push(Status::Okay),
            final(self).idx == old(self).idx + 1,
            final(self).phase == Self::phase_after_file(
                old(self).idx + 1,
                old(self).files@.len() as int,
            ),
            final(self).error is None,
    {
        self.resolve_file(Status::Okay);
    }

    /// Records the current file's final status and moves to the next file,
    /// or finishes the batch after the last one.
    fn resolve_file(&mut self, outcome: Status)
        requires
            old(self).wf(),
            old(self).idx < old(self).files@.len(),
            old(self).error is None,
            old(self).headers_sent@ == old(self).idx + 1,
        ensures
            final(self).wf(),
            final(self).files == old(self).files,
            final(self).headers_sent@ == old(self).headers_sent@,
            final(self).outcomes@ == old(self).outcomes@.push(outcome),
            final(self).idx == old(self).idx + 1,
            final(self).phase == Self::phase_after_file(
                old(self).idx + 1,
                old(self).files@.len() as int,
            ),
            final(self).error is None,
    {
        self.outcomes.push(outcome);
        self.idx = self.idx + 1;
        self.phase = if self.idx == self.files.len() {
            SendPhase::Done
        } else {
            SendPhase::Header
        };
    }
}

/// Law: a finished batch of M offered files has produced exactly M file
/// headers and reported exactly M outcomes, one per file, in list order.
pub proof fn lemma_batch_accounting(s: ClientSession)
    requires
        s.wf(),
        s.phase == SendPhase::Done,
    ensures
        s.outcomes@.len() == s.files@.len(),
        s.headers_sent@ == s.files@.len(),
{
}

/// Law: of N requested entries with M qualifying probe answers, a session
/// over the filtered list offers exactly the M qualifying entries: its
/// batch count is M, and once finished it has produced exactly M file
/// headers and M outcomes — the other N − M entries were dropped before
/// the batch header was computed and got neither.
pub proof fn lemma_requested_batch_accounting(
    requested: Seq<String>,
    keep: Seq<bool>,
    s: ClientSession,
)
    requires
        keep.len() == requested.len(),
        s.files@ == filtered_by(requested, keep),
        s.wf(),
        s.phase == SendPhase::Done,
    ensures
        s.files@.len() == count_true(keep),
        s.outcomes@.len() == count_true(keep),
        s.headers_sent@ == count_true(keep),
{
    lemma_filtered_by_length(requested, keep);
}

} // verus!
