//! The listener's side: one "round" per accepted connection.  A round reads
//! one status (a halt signal stops the acceptance loop), then the batch
//! header, then for each announced file its fixed-size header, the
//! existence check, the double open-status handshake, and exactly
//! `size` payload bytes in chunks.  Above the rounds stands the acceptance
//! policy deciding how many connections to serve.
//!
//! The session is a state machine.  The caller owns the socket and the
//! destination directory; it asks the session how many bytes to read or
//! which filesystem answer is needed, and hands the result back.

use vstd::prelude::*;
use vstd::bytes::*;
use vstd::utf8::*;

use crate::codec::{
    decode_batch_header, decode_file_header, header_name_field, header_size_field, u16_to_count,
    CHUNK_SIZE, FILE_HEADER_LEN,
};
use crate::status::{decoded_status, from_u8, ProtocolError, Status};

verus! {

/// How many rounds the listener serves: exactly one, up to a count, or
/// until a halt signal arrives.
#[derive(Clone, Copy, Debug, PartialEq, Eq, Structural)]
pub enum ServerMode {
    Once,
    Count(u16),
    ForEver,
}

/// Where a round stands.
#[derive(Clone, Copy, Debug, PartialEq, Eq, Structural)]
pub enum ListenPhase {
    /// Read the connection's first status byte.
    AwaitFirst,
    /// Read the two-byte batch header.
    AwaitCount,
    /// Read the next 265-byte file header.
    AwaitHeader,
    /// Answer whether the decoded destination path already exists.
    AwaitExists,
    /// Read the initiator's local-open status byte.
    AwaitSenderOpen,
    /// Attempt to create the destination and answer whether it opened.
    AwaitCreate,
    /// Read the next payload chunk.
    AwaitChunk,
    /// The round is over; see [`ListenerSession::keep_serving`].
    Closed,
    /// The round broke off; see [`ListenerSession::error`].
    Failed,
}

/// The listener's per-connection state machine for one round.
pub struct ListenerSession {
    /// The next step of the exchange.
    pub phase: ListenPhase,
    /// Once `Closed`: whether the acceptance loop should go on serving.
    pub keep_serving: bool,
    /// The protocol violation that failed the round; `Some` exactly in the
    /// `Failed` phase.  Only the peer can fail a round: local filesystem
    /// refusals are ordinary negotiated outcomes.
    pub error: Option<ProtocolError>,
    /// How many files the batch announced.
    pub total: u16,
    /// How many files, the current one included, still lack an outcome.
    pub files_left: u16,
    /// The decoded destination name of the current file.
    pub cur_name: String,
    /// The announced size of the current file.
    pub cur_size: u64,
    /// Payload bytes of the current file not yet received.
    pub remaining: u64,
    /// The payload bytes received for the current file, in order.
    pub received: Ghost<Seq<u8>>,
    /// One final status per finished file, in batch order.
    pub outcomes: Vec<Status>,
}

impl ListenerSession {
    /// The session's invariant: outcomes account for every finished file,
    /// and during payload transfer the received bytes and the bytes still
    /// owed always add up to the announced size.
    pub open spec fn wf(self) -> bool {
        &&& (self.error is Some <==> self.phase == ListenPhase::Failed)
        &&& match self.phase {
            ListenPhase::AwaitFirst | ListenPhase::AwaitCount => self.total == 0
                && self.files_left == 0 && self.outcomes@.len() == 0,
            ListenPhase::AwaitHeader | ListenPhase::AwaitExists | ListenPhase::AwaitSenderOpen
                | ListenPhase::AwaitCreate => 1 <= self.files_left
                && self.outcomes@.len() + self.files_left == self.total,
            ListenPhase::AwaitChunk => {
                &&& 1 <= self.files_left
                &&& self.outcomes@.len() + self.files_left == self.total
                &&& 1 <= self.remaining <= self.cur_size
                &&& self.received@.len() + self.remaining == self.cur_size
            },
            ListenPhase::Closed => self.keep_serving ==> self.outcomes@.len() == self.total,
            ListenPhase::Failed => true,
        }
    }

    /// Opens a round on a freshly accepted connection.
    pub fn new() -> (s: Self)
        ensures
            s.wf(),
            s.phase == ListenPhase::AwaitFirst,
            s.outcomes@.len() == 0,
    {
        ListenerSession {
            phase: ListenPhase::AwaitFirst,
            keep_serving: true,
            error: None,
            total: 0,
            files_left: 0,
            cur_name: String::new(),
            cur_size: 0,
            remaining: 0,
            received: Ghost(Seq::empty()),
            outcomes: Vec::new(),
        }
    }

    /// Takes the connection's first status byte.  A halt signal closes the
    /// round and tells the acceptance loop to stop; any decodable other
    /// status announces a batch; an undecodable byte fails the round.
    pub fn on_first_byte(&mut self, b: u8)
        requires
            old(self).wf(),
            old(self).phase == ListenPhase::AwaitFirst,
        ensures
            final(self).wf(),
            final(self).outcomes == old(self).outcomes,
            final(self).total == old(self).total,
            decoded_status(b) is None ==> {
                &&& final(self).phase == ListenPhase::Failed
                &&& final(self).error == Some(
                    ProtocolError::BadStatusByte(b),
                )
            },
            decoded_status(b) == Some(Status::Stop) ==> {
                &&& final(self).phase == ListenPhase::Closed
                &&& final(self).keep_serving == false
                &&& final(self).error is None
            },
            decoded_status(b) matches Some(s) ==> s != Status::Stop ==> {
                &&& final(self).phase == ListenPhase::AwaitCount
                &&& final(self).error is None
            },
    {
        match from_u8(b) {
            Err(e) => {
                self.phase = ListenPhase::Failed;
                self.error = Some(e);
            },
            Ok(Status::Stop) => {
                self.phase = ListenPhase::Closed;
                self.keep_serving = false;
            },
            Ok(_) => {
                self.phase = ListenPhase::AwaitCount;
            },
        }
    }

    /// Takes the two-byte batch header.  A negative count is a protocol
    /// violation and fails the round rather than being reinterpreted as a
    /// large unsigned one; an empty batch closes the round at once.
    pub fn on_count_bytes(&mut self, bytes: &[u8])
        requires
            old(self).wf(),
            old(self).phase == ListenPhase::AwaitCount,
            bytes@.len() == 2,
        ensures
            final(self).wf(),
            final(self).outcomes == old(self).outcomes,
            ({
                let count = u16_to_count(spec_u16_from_le_bytes(bytes@));
                &&& count < 0 ==> {
                    &&& final(self).phase == ListenPhase::Failed
                    &&& final(self).error == Some(
                        ProtocolError::NegativeCount(count),
                    )
                }
                &&& count == 0 ==> {
                    &&& final(self).phase == ListenPhase::Closed
                    &&& final(self).keep_serving == true
                    &&& final(self).total == 0
                    &&& final(self).error is None
                }
                &&& count > 0 ==> {
                    &&& final(self).phase == ListenPhase::AwaitHeader
                    &&& final(self).total == count
                    &&& final(self).files_left == count
                    &&& final(self).error is None
                }
            }),
    {
        let count = decode_batch_header(bytes);
        if count < 0 {
            self.phase = ListenPhase::Failed;
            self.error = Some(ProtocolError::NegativeCount(count));
        } else if count == 0 {
            self.phase = ListenPhase::Closed;
            self.keep_serving = true;
        } else {
            self.total = count as u16;
            self.files_left = count as u16;
            self.phase = ListenPhase::AwaitHeader;
        }
    }

    /// Takes the next file's 265 header bytes, always fully consumed so the
    /// stream stays aligned.  An undecodable name finishes the file with
    /// `NameError`, which is also the status byte to send back; a decoded
    /// name waits for the existence check and nothing is sent yet.
    pub fn on_header_bytes(&mut self, bytes: &[u8]) -> (reply: Option<Status>)
        requires
            old(self).wf(),
            old(self).phase == ListenPhase::AwaitHeader,
            bytes@.len() == FILE_HEADER_LEN,
        ensures
            final(self).wf(),
            final(self).total == old(self).total,
            !valid_utf8(header_name_field(bytes@)) ==> {
                &&& reply == Some(Status::NameError)
                &&& final(self).outcomes@ == old(self).outcomes@.push(Status::NameError)
                &&& final(self).files_left == old(self).files_left - 1
                &&& final(self).phase == Self::phase_after_file(old(self).files_left as int)
                &&& final(self).keep_serving
                &&& final(self).error is None
            },
            valid_utf8(header_name_field(bytes@)) ==> {
                &&& reply is None
                &&& final(self).phase == ListenPhase::AwaitExists
                &&& final(self).outcomes == old(self).outcomes
                &&& final(self).files_left == old(self).files_left
                &&& final(self).cur_name@ == decode_utf8(header_name_field(bytes@))
                &&& final(self).cur_size == header_size_field(bytes@)
                &&& final(self).error is None
            },
    {
        match decode_file_header(bytes) {
            Some((name, size)) => {
                self.cur_name = name;
                self.cur_size = size;
                self.phase = ListenPhase::AwaitExists;
                None
            },
            None => {
                self.finish_file(Status::NameError);
                Some(Status::NameError)
            },
        }
    }

    /// Takes the answer to the existence check made at header-receipt time.
    /// An existing destination finishes the file with `FileAlreadyExists`
    /// (the status byte to send back) and nothing more is exchanged for it,
    /// so the existing file is left untouched; otherwise the file is
    /// accepted with `Okay` and the initiator's open status comes next.
    pub fn on_exists_answer(&mut self, dest_exists: bool) -> (reply: Status)
        requires
            old(self).wf(),
            old(self).phase == ListenPhase::AwaitExists,
        ensures
            final(self).wf(),
            final(self).total == old(self).total,
            dest_exists ==> {
                &&& reply == Status::FileAlreadyExists
                &&& final(self).outcomes@ == old(self).outcomes@.push(Status::FileAlreadyExists)
                &&& final(self).files_left == old(self).files_left - 1
                &&& final(self).phase == Self::phase_after_file(old(self).files_left as int)
                &&& final(self).keep_serving
                &&& final(self).error is None
            },
            !dest_exists ==> {
                &&& reply == Status::Okay
                &&& final(self).phase == ListenPhase::AwaitSenderOpen
                &&& final(self).outcomes == old(self).outcomes
                &&& final(self).files_left == old(self).files_left
                &&& final(self).cur_name == old(self).cur_name
                &&& final(self).cur_size == old(self).cur_size
                &&& final(self).error is None
            },
    {
        if dest_exists {
            self.finish_file(Status::FileAlreadyExists);
            Status::FileAlreadyExists
        } else {
            self.phase = ListenPhase::AwaitSenderOpen;
            Status::Okay
        }
    }

    /// Takes the initiator's local-open status byte.  `FileOpenError`
    /// finishes the file without payload and with no destination created;
    /// any other decodable status moves on to creating the destination; an
    /// undecodable byte fails the round.
    pub fn on_sender_open_byte(&mut self, b: u8)
        requires
            old(self).wf(),
            old(self).phase == ListenPhase::AwaitSenderOpen,
        ensures
            final(self).wf(),
            final(self).total == old(self).total,
            decoded_status(b) is None ==> {
                &&& final(self).phase == ListenPhase::Failed
                &&& final(self).error == Some(
                    ProtocolError::BadStatusByte(b),
                )
            },
            decoded_status(b) == Some(Status::FileOpenError) ==> {
                &&& final(self).outcomes@ == old(self).outcomes@.push(Status::FileOpenError)
                &&& final(self).files_left == old(self).files_left - 1
                &&& final(self).phase == Self::phase_after_file(old(self).files_left as int)
                &&& final(self).keep_serving
                &&& final(self).error is None
            },
            decoded_status(b) matches Some(s) ==> s != Status::FileOpenError ==> {
                &&& final(self).phase == ListenPhase::AwaitCreate
                &&& final(self).outcomes == old(self).outcomes
                &&& final(self).files_left == old(self).files_left
                &&& final(self).cur_name == old(self).cur_name
                &&& final(self).cur_size == old(self).cur_size
                &&& final(self).error is None
            },
    {
        match from_u8(b) {
            Err(e) => {
                self.phase = ListenPhase::Failed;
                self.error = Some(e);
            },
            Ok(Status::FileOpenError) => {
                self.finish_file(Status::FileOpenError);
            },
            Ok(_) => {
                self.phase = ListenPhase::AwaitCreate;
            },
        }
    }

    /// Takes the destination-create result and answers with the status byte
    /// to send.  On success the payload follows, exactly `cur_size` bytes
    /// (an empty file is finished at once).  A failed create is an ordinary
    /// negotiated outcome: `FileOpenError` is reported to the peer — which
    /// then sends no payload, so the stream stays aligned — recorded as
    /// this file's outcome, and the round continues with the next file.
    pub fn on_create_result(&mut self, created: bool) -> (reply: Status)
        requires
            old(self).wf(),
            old(self).phase == ListenPhase::AwaitCreate,
        ensures
            final(self).wf(),
            final(self).total == old(self).total,
            final(self).error is None,
            !created ==> {
                &&& reply == Status::FileOpenError
                &&& final(self).outcomes@ == old(self).outcomes@.push(Status::FileOpenError)
                &&& final(self).files_left == old(self).files_left - 1
                &&& final(self).phase == Self::phase_after_file(old(self).files_left as int)
                &&& final(self).keep_serving
            },
            created ==> reply == Status::Okay,
            created && old(self).cur_size == 0 ==> {
                &&& final(self).outcomes@ == old(self).outcomes@.push(Status::Okay)
                &&& final(self).files_left == old(self).files_left - 1
                &&& final(self).phase == Self::phase_after_file(old(self).files_left as int)
                &&& final(self).keep_serving
            },
            created && old(self).cur_size > 0 ==> {
                &&& final(self).phase == ListenPhase::AwaitChunk
                &&& final(self).outcomes == old(self).outcomes
                &&& final(self).files_left == old(self).files_left
                &&& final(self).cur_name == old(self).cur_name
                &&& final(self).cur_size == old(self).cur_size
                &&& final(self).remaining == old(self).cur_size
                &&& final(self).received@ == Seq::<u8>::empty()
            },
    {
        if created {
            if self.cur_size == 0 {
                self.finish_file(Status::Okay);
            } else {
                self.remaining = self.cur_size;
                self.received = Ghost(Seq::empty());
                self.phase = ListenPhase::AwaitChunk;
            }
            Status::Okay
        } else {
            self.finish_file(Status::FileOpenError);
            Status::FileOpenError
        }
    }

    /// The chunk length owed next: a full chunk, or exactly the bytes
    /// still owed when fewer than a chunk remain.
    pub open spec fn spec_chunk_len(self) -> u64 {
        if self.remaining > CHUNK_SIZE {
            CHUNK_SIZE as u64
        } else {
            self.remaining
        }
    }

    /// How many payload bytes to read next: a full chunk, or exactly the
    /// bytes still owed when fewer than a chunk remain — never more.
    pub fn chunk_len(&self) -> (n: usize)
        requires
            self.wf(),
            self.phase == ListenPhase::AwaitChunk,
        ensures
            n == self.spec_chunk_len(),
            1 <= n <= CHUNK_SIZE,
    {
        if self.remaining > CHUNK_SIZE as u64 {
            CHUNK_SIZE
        } else {
            self.remaining as usize
        }
    }

    /// Takes one payload chunk, of exactly the length [`chunk_len`] asked
    /// for; the caller writes the same bytes verbatim to the destination.
    /// The last chunk finishes the file with outcome `Okay`, at which point
    /// the bytes received add up to exactly the announced size.
    pub fn on_chunk(&mut self, chunk: &[u8])
        requires
            old(self).wf(),
            old(self).phase == ListenPhase::AwaitChunk,
            chunk@.len() == old(self).spec_chunk_len(),
        ensures
            final(self).wf(),
            final(self).total == old(self).total,
            final(self).received@ == old(self).received@ + chunk@,
            old(self).remaining > chunk@.len() ==> {
                &&& final(self).phase == ListenPhase::AwaitChunk
                &&& final(self).remaining == old(self).remaining - chunk@.len()
                &&& final(self).outcomes == old(self).outcomes
                &&& final(self).files_left == old(self).files_left
                &&& final(self).cur_name == old(self).cur_name
                &&& final(self).cur_size == old(self).cur_size
                &&& final(self).error is None
            },
            old(self).remaining == chunk@.len() ==> {
                &&& final(self).received@.len() == old(self).cur_size
                &&& final(self).outcomes@ == old(self).outcomes@.push(Status::Okay)
                &&& final(self).files_left == old(self).files_left - 1
                &&& final(self).phase == Self::phase_after_file(old(self).files_left as int)
                &&& final(self).keep_serving
                &&& final(self).error is None
            },
    {
        proof {
            self.received@ = self.received@ + chunk@;
        }
        self.remaining = self.remaining - chunk.len() as u64;
        if self.remaining == 0 {
            self.finish_file(Status::Okay);
        }
    }

    /// The phase that follows once a file's outcome is recorded, given how
    /// many files (that one included) were still unresolved.
    pub open spec fn phase_after_file(files_left: int) -> ListenPhase {
        if files_left == 1 {
            ListenPhase::Closed
        } else {
            ListenPhase::AwaitHeader
        }
    }

    /// Records the current file's final status and moves to the next file,
    /// or closes the round after the last one.
    fn finish_file(&mut self, outcome: Status)
        requires
            1 <= old(self).files_left,
            old(self).outcomes@.len() + old(self).files_left == old(self).total,
            old(self).error is None,
        ensures
            final(self).wf(),
            final(self).total == old(self).total,
            final(self).outcomes@ == old(self).outcomes@.push(outcome),
            final(self).files_left == old(self).files_left - 1,
            final(self).phase == Self::phase_after_file(old(self).files_left as int),
            final(self).keep_serving,
            final(self).error is None,
            final(self).received == old(self).received,
    {
        self.outcomes.push(outcome);
        self.files_left = self.files_left - 1;
        self.keep_serving = true;
        if self.files_left == 0 {
            self.phase = ListenPhase::Closed;
        } else {
            self.phase = ListenPhase::AwaitHeader;
        }
    }
}

/// Law: a round that closed with the batch complete reported exactly one
/// outcome per announced file.
pub proof fn lemma_round_accounting(s: ListenerSession)
    requires
        s.wf(),
        s.phase == ListenPhase::Closed,
        s.keep_serving,
    ensures
        s.outcomes@.len() == s.total,
{
}

// ---------------------------------------------------------------------------
// Acceptance policy
// ---------------------------------------------------------------------------

/// Whether the policy admits one more round after `done` rounds and a halt
/// flag of `stopped`.
pub open spec fn may_accept(mode: ServerMode, done: u64, stopped: bool) -> bool {
    &&& !stopped
    &&& match mode {
        ServerMode::Once => done < 1,
        ServerMode::Count(n) => done < n,
        ServerMode::ForEver => true,
    }
}

/// The acceptance loop's state: its policy, how many rounds have run, and
/// whether a round has signalled a halt.
pub struct AcceptLoop {
    pub mode: ServerMode,
    pub rounds_done: u64,
    pub stopped: bool,
}

impl AcceptLoop {
    /// Starts the loop under the given policy.
    pub fn new(mode: ServerMode) -> (s: Self)
        ensures
            s.mode == mode,
            s.rounds_done == 0,
            !s.stopped,
    {
        AcceptLoop { mode, rounds_done: 0, stopped: false }
    }

    /// Whether to accept another connection.
    pub fn should_accept(&self) -> (r: bool)
        ensures
            r == may_accept(self.mode, self.rounds_done, self.stopped),
    {
        if self.stopped {
            false
        } else {
            match self.mode {
                ServerMode::Once => self.rounds_done < 1,
                ServerMode::Count(n) => self.rounds_done < n as u64,
                ServerMode::ForEver => true,
            }
        }
    }

    /// Records one finished round and whether it asked to keep serving; a
    /// halt signal stops the loop for good.
    pub fn record_round(&mut self, keep_going: bool)
        ensures
            final(self).mode == old(self).mode,
            final(self).rounds_done == (if old(self).rounds_done < u64::MAX {
                old(self).rounds_done + 1
            } else {
                old(self).rounds_done as int
            }),
            final(self).stopped == (old(self).stopped || !keep_going),
    {
        if self.rounds_done < u64::MAX {
            self.rounds_done = self.rounds_done + 1;
        }
        if !keep_going {
            self.stopped = true;
        }
    }
}

/// How many rounds the policy serves when the successive rounds' continue
/// signals are `signals` (each entry: one accepted round's wish to go on).
/// The sequence may be cut short; only as many rounds as it holds can run.
pub open spec fn rounds_served(mode: ServerMode, signals: Seq<bool>) -> int
    decreases signals.len(),
{
    if signals.len() == 0 {
        0
    } else {
        match mode {
            ServerMode::Once => 1,
            ServerMode::Count(n) => {
                if n == 0 {
                    0
                } else if signals[0] {
                    1 + rounds_served(ServerMode::Count((n - 1) as u16), signals.drop_first())
                } else {
                    1
                }
            },
            ServerMode::ForEver => {
                if signals[0] {
                    1 + rounds_served(ServerMode::ForEver, signals.drop_first())
                } else {
                    1
                }
            },
        }
    }
}

/// How many rounds a driver loop over [`AcceptLoop`] runs from the given
/// state: it accepts while [`may_accept`] allows and a signal is left, and
/// records each round's signal exactly as [`AcceptLoop::record_round`]
/// does.
pub open spec fn loop_rounds(mode: ServerMode, done: u64, stopped: bool, signals: Seq<bool>) -> int
    decreases signals.len(),
{
    if !may_accept(mode, done, stopped) || signals.len() == 0 {
        0
    } else {
        loop_rounds(
            mode,
            if done < u64::MAX {
                (done + 1) as u64
            } else {
                done
            },
            stopped || !signals[0],
            signals.drop_first(),
        ) + 1
    }
}

proof fn lemma_loop_rounds_stopped(mode: ServerMode, done: u64, signals: Seq<bool>)
    ensures
        loop_rounds(mode, done, true, signals) == 0,
{
}

proof fn lemma_loop_rounds_count(n: u16, done: u64, signals: Seq<bool>)
    requires
        done <= n,
    ensures
        loop_rounds(ServerMode::Count(n), done, false, signals) == rounds_served(
            ServerMode::Count((n - done) as u16),
            signals,
        ),
    decreases signals.len(),
{
    if done < n && signals.len() > 0 {
        if signals[0] {
            lemma_loop_rounds_count(n, (done + 1) as u64, signals.drop_first());
        } else {
            lemma_loop_rounds_stopped(
                ServerMode::Count(n),
                (done + 1) as u64,
                signals.drop_first(),
            );
        }
    }
}

proof fn lemma_loop_rounds_forever(done: u64, signals: Seq<bool>)
    ensures
        loop_rounds(ServerMode::ForEver, done, false, signals) == rounds_served(
            ServerMode::ForEver,
            signals,
        ),
    decreases signals.len(),
{
    if signals.len() > 0 {
        if signals[0] {
            let next = if done < u64::MAX {
                (done + 1) as u64
            } else {
                done
            };
            lemma_loop_rounds_forever(next, signals.drop_first());
        } else {
            lemma_loop_rounds_stopped(
                ServerMode::ForEver,
                if done < u64::MAX {
                    (done + 1) as u64
                } else {
                    done
                },
                signals.drop_first(),
            );
        }
    }
}

/// Law: a driver loop that starts [`AcceptLoop`] fresh serves exactly the
/// rounds the policy model prescribes, whatever the rounds signal.
pub proof fn lemma_policy_matches_model(mode: ServerMode, signals: Seq<bool>)
    ensures
        loop_rounds(mode, 0, false, signals) == rounds_served(mode, signals),
{
    match mode {
        ServerMode::Once => {
            if signals.len() > 0 {
                assert(!may_accept(ServerMode::Once, 1, false));
                assert(!may_accept(ServerMode::Once, 1, true));
                assert(loop_rounds(ServerMode::Once, 1, false, signals.drop_first()) == 0);
                assert(loop_rounds(ServerMode::Once, 1, true, signals.drop_first()) == 0);
            }
        },
        ServerMode::Count(n) => {
            lemma_loop_rounds_count(n, 0, signals);
        },
        ServerMode::ForEver => {
            lemma_loop_rounds_forever(0, signals);
        },
    }
}

/// Law: a counted policy serves at most its count, however the rounds
/// signal.
pub proof fn lemma_count_bounded(n: u16, signals: Seq<bool>)
    ensures
        rounds_served(ServerMode::Count(n), signals) <= n,
    decreases signals.len(),
{
    if signals.len() > 0 && n > 0 && signals[0] {
        lemma_count_bounded((n - 1) as u16, signals.drop_first());
    }
}

/// Law: under any policy, the first halt signal ends the service — the
/// round that signalled it is the last one served.
pub proof fn lemma_halt_stops(mode: ServerMode, signals: Seq<bool>, i: int)
    requires
        0 <= i < signals.len(),
        !signals[i],
        forall|j: int| 0 <= j < i ==> signals[j],
    ensures
        rounds_served(mode, signals) <= i + 1,
    decreases signals.len(),
{
    if i > 0 {
        match mode {
            ServerMode::Once => {},
            ServerMode::Count(n) => {
                if n > 0 {
                    lemma_halt_stops(ServerMode::Count((n - 1) as u16), signals.drop_first(), i - 1);
                }
            },
            ServerMode::ForEver => {
                lemma_halt_stops(ServerMode::ForEver, signals.drop_first(), i - 1);
            },
        }
    }
}

/// Law: the unbounded policy never stops of its own accord — with no halt
/// signal it serves every round offered to it.
pub proof fn lemma_forever_serves_all(signals: Seq<bool>)
    requires
        forall|j: int| 0 <= j < signals.len() ==> signals[j],
    ensures
        rounds_served(ServerMode::ForEver, signals) == signals.len(),
    decreases signals.len(),
{
    if signals.len() > 0 {
        lemma_forever_serves_all(signals.drop_first());
    }
}

} // verus!
