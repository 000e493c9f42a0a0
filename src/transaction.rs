//! The bus transactor: one command, then zero, one or two checksummed words.
//!
//! The exchange is a state machine. [`Transaction::request`] names the bus
//! operation to perform next; the caller performs it and hands the outcome to
//! [`Transaction::handle`], which either names the next operation or finishes
//! with the validated words. A failed write-then-read falls back to bare reads,
//! with a 1 ms pause between attempts, until one succeeds.
use vstd::prelude::*;
use crate::checksum::{checksum, crc8_nrsc5};
use crate::types::Error;

verus! {

/// Largest number of words one transaction reads.
pub const MAX_WORDS: usize = 2;

/// Pause between two read attempts, in milliseconds.
pub const RETRY_DELAY_MS: u32 = 1;

/// The big-endian word made of `hi` and `lo`.
pub open spec fn word_of(hi: u8, lo: u8) -> u16 {
    (hi as int * 256 + lo as int) as u16
}

/// The checksum byte of word `i` of a response matches its two data bytes.
pub open spec fn word_checksum_ok(b: Seq<u8>, i: int) -> bool {
    b[3 * i + 2] == crc8_nrsc5(b.subrange(3 * i, 3 * i + 2))
}

/// Every one of the first `n` words of a response carries a matching checksum.
pub open spec fn response_valid(b: Seq<u8>, n: nat) -> bool {
    forall|i: int| 0 <= i < n ==> #[trigger] word_checksum_ok(b, i)
}

/// The first `n` words of a response, checksums left aside.
pub open spec fn response_words(b: Seq<u8>, n: nat) -> Seq<u16> {
    Seq::new(n, |i: int| word_of(b[3 * i], b[3 * i + 1]))
}

/// What a response of `n` words yields: its words when it has the right
/// length and every checksum matches, else the error.
pub open spec fn response_result<E>(b: Seq<u8>, n: nat) -> Result<Seq<u16>, Error<E>> {
    if b.len() != 3 * n {
        Err(Error::InvalidInputData)
    } else if response_valid(b, n) {
        Ok(response_words(b, n))
    } else {
        Err(Error::CrcMismatch)
    }
}

pub open spec fn view_result<E>(r: Result<Vec<u16>, Error<E>>) -> Result<Seq<u16>, Error<E>> {
    match r {
        Ok(v) => Ok(v@),
        Err(e) => Err(e),
    }
}

/// One received word, given its data bytes, the checksum byte that came with
/// them and the checksum computed over them: the word when the two agree.
pub fn checked_word(hi: u8, lo: u8, received: u8, computed: u8) -> (r: Option<u16>)
    ensures
        r == (if received == computed { Some(word_of(hi, lo)) } else { None::<u16> }),
{
    if received == computed {
        let w: u16 = ((hi as u16) << 8u16) | (lo as u16);
        assert(((hi as u16) << 8u16) | (lo as u16) == (hi as u16) * 256 + (lo as u16)) by (bit_vector);
        Some(w)
    } else {
        None
    }
}

/// Validates a response of `n_words` words and assembles them big-endian.
/// The first word whose checksum does not match aborts with `CrcMismatch`.
pub fn decode_response<E>(buf: &[u8], n_words: usize) -> (r: Result<Vec<u16>, Error<E>>)
    requires
        n_words <= MAX_WORDS,
    ensures
        view_result(r) == response_result::<E>(buf@, n_words as nat),
{
    if buf.len() != 3 * n_words {
        return Err(Error::InvalidInputData);
    }
    let mut words: Vec<u16> = Vec::new();
    let mut i: usize = 0;
    while i < n_words
        invariant
            i <= n_words <= MAX_WORDS,
            buf@.len() == 3 * n_words,
            forall|k: int| 0 <= k < i ==> #[trigger] word_checksum_ok(buf@, k),
            words@ == response_words(buf@, i as nat),
        decreases n_words - i,
    {
        let hi = buf[3 * i];
        let lo = buf[3 * i + 1];
        let payload: [u8; 2] = [hi, lo];
        assert(payload@ =~= buf@.subrange(3 * i as int, 3 * i as int + 2));
        let computed = checksum(payload);
        match checked_word(hi, lo, buf[3 * i + 2], computed) {
            Some(w) => {
                words.push(w);
            },
            None => {
                assert(!word_checksum_ok(buf@, i as int));
                return Err(Error::CrcMismatch);
            },
        }
        assert(words@ =~= response_words(buf@, (i + 1) as nat));
        i += 1;
    }
    Ok(words)
}

/// Where a transaction stands.
#[derive(Clone, Copy, Debug, PartialEq, Eq, Structural)]
pub enum Phase {
    /// writing a command that returns nothing
    Write,
    /// writing the command and reading its response in one exchange
    WriteRead,
    /// reading the response again after a failed exchange
    Read,
    /// pausing before the next read attempt
    Wait,
}

/// A bus operation that a transaction asks for.
#[derive(Clone, Copy, Debug)]
pub enum BusRequest {
    /// write these bytes to the device
    Write { bytes: [u8; 2] },
    /// write these bytes, then read `read_len` bytes, in one exchange
    WriteRead { bytes: [u8; 2], read_len: usize },
    /// read `read_len` bytes
    Read { read_len: usize },
    /// pause for `ms` milliseconds
    DelayMs { ms: u32 },
    /// write a command with its 2-byte argument; no response
    WriteConfig { config: [u8; 4] },
}

/// The outcome of the bus operation last asked for.
#[derive(Debug)]
pub enum BusEvent<E> {
    /// the write went through
    Written,
    /// the read went through and gave these bytes
    Received(Vec<u8>),
    /// the transport failed
    Failed(E),
    /// the pause is over
    Waited,
}

/// One command exchange with the device.
#[derive(Clone, Copy, Debug)]
pub struct Transaction {
    pub cmd: [u8; 2],
    pub words: usize,
    pub phase: Phase,
}

/// What handling an event leads to.
#[derive(Debug)]
pub enum TxStep<E> {
    /// the transaction goes on and asks for its next request
    Continue(Transaction),
    /// the transaction is over
    Done(Result<Vec<u16>, Error<E>>),
}

/// The meaning of a [`TxStep`].
pub enum Outcome<E> {
    Next(Transaction),
    Finish(Result<Seq<u16>, Error<E>>),
}

impl<E> TxStep<E> {
    pub open spec fn view(self) -> Outcome<E> {
        match self {
            TxStep::Continue(t) => Outcome::Next(t),
            TxStep::Done(r) => Outcome::Finish(view_result(r)),
        }
    }
}

/// The protocol: where a transaction goes on each event.
pub open spec fn transition<E>(t: Transaction, ev: BusEvent<E>) -> Outcome<E> {
    match t.phase {
        Phase::Write => match ev {
            BusEvent::Written => Outcome::Finish(Ok(Seq::empty())),
            BusEvent::Failed(e) => Outcome::Finish(Err(Error::I2c(e))),
            _ => Outcome::Finish(Err(Error::InvalidInputData)),
        },
        Phase::WriteRead => match ev {
            BusEvent::Received(b) => Outcome::Finish(response_result(b@, t.words as nat)),
            BusEvent::Failed(_) => Outcome::Next(Transaction { phase: Phase::Read, ..t }),
            _ => Outcome::Finish(Err(Error::InvalidInputData)),
        },
        Phase::Read => match ev {
            BusEvent::Received(b) => Outcome::Finish(response_result(b@, t.words as nat)),
            BusEvent::Failed(_) => Outcome::Next(Transaction { phase: Phase::Wait, ..t }),
            _ => Outcome::Finish(Err(Error::InvalidInputData)),
        },
        Phase::Wait => match ev {
            BusEvent::Waited => Outcome::Next(Transaction { phase: Phase::Read, ..t }),
            _ => Outcome::Finish(Err(Error::InvalidInputData)),
        },
    }
}

impl Transaction {
    /// At most two words, and a transaction without words only writes.
    pub open spec fn wf(self) -> bool {
        &&& self.words <= MAX_WORDS
        &&& (self.words == 0 <==> self.phase == Phase::Write)
    }

    pub open spec fn spec_request(self) -> BusRequest {
        match self.phase {
            Phase::Write => BusRequest::Write { bytes: self.cmd },
            Phase::WriteRead => BusRequest::WriteRead { bytes: self.cmd, read_len: (3 * self.words) as usize },
            Phase::Read => BusRequest::Read { read_len: (3 * self.words) as usize },
            Phase::Wait => BusRequest::DelayMs { ms: RETRY_DELAY_MS },
        }
    }

    /// A transaction that sends `cmd` and reads `words` words back: a bare
    /// write when no word is wanted, else a write-then-read exchange.
    pub fn start(cmd: [u8; 2], words: usize) -> (r: Transaction)
        requires
            words <= MAX_WORDS,
        ensures
            r.wf(),
            r.cmd == cmd,
            r.words == words,
            r.phase == (if words == 0 { Phase::Write } else { Phase::WriteRead }),
    {
        let phase = if words == 0 { Phase::Write } else { Phase::WriteRead };
        Transaction { cmd, words, phase }
    }

    /// The bus operation to perform next.
    pub fn request(&self) -> (r: BusRequest)
        requires
            self.wf(),
        ensures
            r == self.spec_request(),
    {
        match self.phase {
            Phase::Write => BusRequest::Write { bytes: self.cmd },
            Phase::WriteRead => BusRequest::WriteRead { bytes: self.cmd, read_len: 3 * self.words },
            Phase::Read => BusRequest::Read { read_len: 3 * self.words },
            Phase::Wait => BusRequest::DelayMs { ms: RETRY_DELAY_MS },
        }
    }

    /// Takes in the outcome of the last request. An event that does not
    /// answer that request ends the transaction with `InvalidInputData`.
    pub fn handle<E>(self, event: BusEvent<E>) -> (r: TxStep<E>)
        requires
            self.wf(),
        ensures
            r@ == transition(self, event),
            r matches TxStep::Continue(t) ==> t.wf(),
    {
        match self.phase {
            Phase::Write => match event {
                BusEvent::Written => TxStep::Done(Ok(Vec::new())),
                BusEvent::Failed(e) => TxStep::Done(Err(Error::I2c(e))),
                _ => TxStep::Done(Err(Error::InvalidInputData)),
            },
            Phase::WriteRead => match event {
                BusEvent::Received(b) => TxStep::Done(decode_response(b.as_slice(), self.words)),
                BusEvent::Failed(_) => TxStep::Continue(Transaction { phase: Phase::Read, ..self }),
                _ => TxStep::Done(Err(Error::InvalidInputData)),
            },
            Phase::Read => match event {
                BusEvent::Received(b) => TxStep::Done(decode_response(b.as_slice(), self.words)),
                BusEvent::Failed(_) => TxStep::Continue(Transaction { phase: Phase::Wait, ..self }),
                _ => TxStep::Done(Err(Error::InvalidInputData)),
            },
            Phase::Wait => match event {
                BusEvent::Waited => TxStep::Continue(Transaction { phase: Phase::Read, ..self }),
                _ => TxStep::Done(Err(Error::InvalidInputData)),
            },
        }
    }
}

/// A response in which the checksum byte of any one of the requested words
/// does not match that word's data bytes ends the transaction with
/// `CrcMismatch`, and no word of it is returned.
pub proof fn lemma_corrupt_checksum_rejected<E>(t: Transaction, b: Vec<u8>, i: int)
    requires
        t.wf(),
        t.phase == Phase::WriteRead || t.phase == Phase::Read,
        b@.len() == 3 * t.words,
        0 <= i < t.words,
        b@[3 * i + 2] != crc8_nrsc5(b@.subrange(3 * i, 3 * i + 2)),
    ensures
        transition(t, BusEvent::<E>::Received(b)) == Outcome::<E>::Finish(Err(Error::CrcMismatch)),
{
    assert(!word_checksum_ok(b@, i));
}

} // verus!
