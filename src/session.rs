//! Running the plan of an operation: its steps in order, each command as one
//! transaction, stopping at the first error and collecting every word read.
use vstd::prelude::*;
use crate::hw_def::{be_bytes, u16_to_be_bytes};
use crate::ops::{words_read, BusOp, Operation};
use crate::transaction::{transition, BusEvent, BusRequest, Outcome, Phase, Transaction, TxStep, MAX_WORDS};
use crate::types::Error;

verus! {

/// Every command of a plan reads at most two words.
pub open spec fn plan_wf(steps: Seq<BusOp>) -> bool {
    forall|i: int| 0 <= i < steps.len() ==> (#[trigger] steps[i]).spec_words() <= MAX_WORDS
}

/// `t` is how the step `op` starts: the transaction of a command, none for a
/// configuration write.
pub open spec fn starts(t: Option<Transaction>, op: BusOp) -> bool {
    match op {
        BusOp::Command { code, words } => t matches Some(t) && t.wf() && t.cmd@ == be_bytes(code)
            && t.words == words,
        BusOp::Configure { .. } => t is None,
    }
}

/// The transaction that starts step `op`.
fn start_step(op: BusOp) -> (r: Option<Transaction>)
    requires
        op.spec_words() <= MAX_WORDS,
    ensures
        starts(r, op),
        r matches Some(t) ==> t.phase == (if t.words == 0 { Phase::Write } else { Phase::WriteRead }),
{
    match op {
        BusOp::Command { code, words } => Some(Transaction::start(u16_to_be_bytes(code), words)),
        BusOp::Configure { .. } => None,
    }
}

/// An operation under way: step `next` of `steps` is running, through
/// `current` when it is a command.
#[derive(Debug)]
pub struct Session {
    pub steps: Vec<BusOp>,
    pub next: usize,
    pub current: Option<Transaction>,
    pub words: Vec<u16>,
}

/// What handling an event leads to.
#[derive(Debug)]
pub enum SessionStep<E> {
    /// the operation goes on and asks for its next request
    Continue(Session),
    /// the operation is over: every word read, or the first error
    Done(Result<Vec<u16>, Error<E>>),
}

impl Session {
    pub open spec fn wf(self) -> bool {
        &&& plan_wf(self.steps@)
        &&& self.next < self.steps@.len()
        &&& starts(self.current, self.steps@[self.next as int])
        &&& self.words@.len() == words_read(self.steps@.take(self.next as int))
    }

    /// The session that runs the plan of `op` from its first step.
    pub fn start(op: Operation) -> (r: Session)
        ensures
            r.wf(),
            r.steps@ == op.spec_steps(),
            r.next == 0,
            r.words@.len() == 0,
            r.current matches Some(t) ==> t.phase == (if t.words == 0 { Phase::Write } else { Phase::WriteRead }),
    {
        let steps = op.steps();
        let current = start_step(steps[0]);
        let r = Session { steps, next: 0, current, words: Vec::new() };
        assert(r.steps@.take(0) =~= Seq::<BusOp>::empty());
        r
    }

    /// The bus operation to perform next.
    pub fn request(&self) -> (r: BusRequest)
        requires
            self.wf(),
        ensures
            self.current matches Some(t) ==> r == t.spec_request(),
            self.steps@[self.next as int] matches BusOp::Configure { code, setting } ==> (r
                matches BusRequest::WriteConfig { config } && config@ == be_bytes(code) + be_bytes(
                setting,
            )),
    {
        match self.steps[self.next] {
            BusOp::Command { .. } => self.current.unwrap().request(),
            BusOp::Configure { code, setting } => BusRequest::WriteConfig {
                config: BusOp::config_bytes(code, setting),
            },
        }
    }

    /// Step `next` is over and read `read`: the session moves to the next
    /// step, or ends with all words when it was the last.
    fn advance<E>(self, read: Vec<u16>) -> (r: SessionStep<E>)
        requires
            self.wf(),
            read@.len() == self.steps@[self.next as int].spec_words(),
        ensures
            self.next + 1 == self.steps@.len() ==> (r matches SessionStep::Done(Ok(v)) && v@
                == self.words@ + read@),
            self.next + 1 < self.steps@.len() ==> (r matches SessionStep::Continue(s) && s.wf()
                && s.steps == self.steps && s.next == self.next + 1 && s.words@ == self.words@
                + read@ && (s.current matches Some(t) ==> t.phase == (if t.words == 0 {
                Phase::Write
            } else {
                Phase::WriteRead
            }))),
    {
        let n = self.steps.len();
        let mut words = self.words;
        let mut read = read;
        words.append(&mut read);
        assert(self.steps@.take(self.next + 1).drop_last() =~= self.steps@.take(self.next as int));
        let next = self.next + 1;
        if next == n {
            SessionStep::Done(Ok(words))
        } else {
            let current = start_step(self.steps[next]);
            SessionStep::Continue(Session { steps: self.steps, next, current, words })
        }
    }

    /// Takes in the outcome of the last request. The first error ends the
    /// operation; an event that does not answer the request ends it with
    /// `InvalidInputData`.
    pub fn handle<E>(self, event: BusEvent<E>) -> (r: SessionStep<E>)
        requires
            self.wf(),
        ensures
            r matches SessionStep::Continue(s) ==> s.wf() && s.steps == self.steps,
            r matches SessionStep::Done(Ok(v)) ==> v@.len() == words_read(self.steps@),
            self.current matches Some(t) ==> match transition(t, event) {
                Outcome::Next(t2) => r matches SessionStep::Continue(s) && s.current == Some(t2)
                    && s.next == self.next && s.words@ == self.words@,
                Outcome::Finish(Err(e)) => r matches SessionStep::Done(Err(e2)) && e2 == e,
                Outcome::Finish(Ok(read)) => self.step_done(r, read),
            },
            self.current is None ==> match event {
                BusEvent::Written => self.step_done(r, Seq::empty()),
                BusEvent::Failed(e) => r matches SessionStep::Done(Err(Error::I2c(e2))) && e2 == e,
                _ => r matches SessionStep::Done(Err(Error::InvalidInputData)),
            },
    {
        proof {
            assert(self.steps@.take(self.steps@.len() as int) =~= self.steps@);
        }
        match self.current {
            Some(t) => match t.handle(event) {
                TxStep::Continue(t2) => {
                    let s = Session { steps: self.steps, next: self.next, current: Some(t2), words: self.words };
                    SessionStep::Continue(s)
                },
                TxStep::Done(Err(e)) => SessionStep::Done(Err(e)),
                TxStep::Done(Ok(read)) => self.advance(read),
            },
            None => match event {
                BusEvent::Written => self.advance(Vec::new()),
                BusEvent::Failed(e) => SessionStep::Done(Err(Error::I2c(e))),
                _ => SessionStep::Done(Err(Error::InvalidInputData)),
            },
        }
    }

    /// The current step finished, having read `read`: the session moved on
    /// past it, or ended with all the words when it was the last.
    pub open spec fn step_done<E>(self, r: SessionStep<E>, read: Seq<u16>) -> bool {
        &&& self.next + 1 == self.steps@.len() ==> (r matches SessionStep::Done(Ok(v)) && v@
            == self.words@ + read)
        &&& self.next + 1 < self.steps@.len() ==> (r matches SessionStep::Continue(s) && s.next
            == self.next + 1 && s.words@ == self.words@ + read && (s.current matches Some(t)
            ==> t.phase == (if t.words == 0 {
            Phase::Write
        } else {
            Phase::WriteRead
        })))
    }
}

} // verus!
