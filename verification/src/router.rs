//! The submission side of the router.
//!
//! A `SubmissionMechanism` is the capability that takes already-encoded call
//! data plus a sender identity and dispatches it as a chain transaction. The
//! trait carries a ghost history of dispatched calls, so that callers can
//! state exactly what was, or was not, handed to the mechanism.
use crate::abi::push_all;
use vstd::prelude::*;

verus! {

/// One dispatched call: the specification-level record of a submission.
pub ghost struct DispatchRecord {
    pub sender: Seq<u8>,
    pub payload: Seq<u8>,
}

/// The reason a submission mechanism reports for a failed dispatch. Its
/// content is opaque to this crate and passed through to the caller.
#[derive(Clone, Copy, Debug)]
pub struct SubmissionError {
    pub reason: &'static str,
}

/// The capability that dispatches encoded call data as a chain transaction.
/// Every implementation appends each dispatched call to its ghost history,
/// whether or not the dispatch succeeds.
pub trait SubmissionMechanism: Sized {
    /// The history of every call handed to this mechanism.
    spec fn log(&self) -> Seq<DispatchRecord>;

    /// Performs the mechanism's own initialization; dispatches nothing.
    fn do_init(&mut self) -> (r: Result<(), SubmissionError>)
        ensures
            final(self).log() == old(self).log(),
    ;

    /// Dispatches one encoded call and appends it to the history.
    fn dispatch(&mut self, sender: &Vec<u8>, payload: Vec<u8>) -> (r: Result<(), SubmissionError>)
        ensures
            final(self).log() == old(self).log().push(
                DispatchRecord { sender: sender@, payload: payload@ },
            ),
    ;
}

/// A submission mechanism that performs no chain call: it records every
/// dispatched call, so that a test can inspect what would have been
/// submitted.
pub struct RecordingMechanism {
    sent: Vec<(Vec<u8>, Vec<u8>)>,
}

/// A fresh copy of a byte vector.
pub fn clone_bytes(v: &Vec<u8>) -> (r: Vec<u8>)
    ensures
        r@ == v@,
{
    let mut r: Vec<u8> = Vec::new();
    push_all(&mut r, v);
    proof {
        assert(r@ =~= v@);
    }
    r
}

impl RecordingMechanism {
    /// A recorder with an empty history.
    pub fn new() -> (r: RecordingMechanism)
        ensures
            r.log() == Seq::<DispatchRecord>::empty(),
    {
        let r = RecordingMechanism { sent: Vec::new() };
        proof {
            assert(r.log() =~= Seq::<DispatchRecord>::empty());
        }
        r
    }

    /// How many calls were dispatched.
    pub fn sent_count(&self) -> (r: usize)
        ensures
            r == self.log().len(),
    {
        self.sent.len()
    }

    /// The sender of the `i`-th dispatched call.
    pub fn sent_sender(&self, i: usize) -> (r: &Vec<u8>)
        requires
            i < self.log().len(),
        ensures
            r@ == self.log()[i as int].sender,
    {
        &self.sent[i].0
    }

    /// The payload of the `i`-th dispatched call.
    pub fn sent_payload(&self, i: usize) -> (r: &Vec<u8>)
        requires
            i < self.log().len(),
        ensures
            r@ == self.log()[i as int].payload,
    {
        &self.sent[i].1
    }
}

impl SubmissionMechanism for RecordingMechanism {
    closed spec fn log(&self) -> Seq<DispatchRecord> {
        self.sent@.map(
            |i: int, p: (Vec<u8>, Vec<u8>)| DispatchRecord { sender: p.0@, payload: p.1@ },
        )
    }

    fn do_init(&mut self) -> (r: Result<(), SubmissionError>) {
        Ok(())
    }

    fn dispatch(&mut self, sender: &Vec<u8>, payload: Vec<u8>) -> (r: Result<(), SubmissionError>) {
        let s: Vec<u8> = clone_bytes(sender);
        let ghost rec = DispatchRecord { sender: sender@, payload: payload@ };
        self.sent.push((s, payload));
        proof {
            assert(self.log() =~= old(self).log().push(rec));
        }
        Ok(())
    }
}

} // verus!
