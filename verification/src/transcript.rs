//! The Fiat-Shamir transcript, as far as the commitment scheme needs it: an
//! object that absorbs elements of `Gt`, one after the other.

use crate::commitment::{Commitment, CommitmentView};
use crate::curve::Gt;
use vstd::prelude::*;

verus! {

/// An append-only transcript. What it has absorbed so far is a sequence of
/// messages; every challenge that an implementation derives is a function of
/// that sequence.
pub trait Transcript {
    /// The messages absorbed so far, oldest first.
    spec fn absorbed(&self) -> Seq<Seq<u8>>;

    /// Absorbs an element of `Gt`.
    fn append_gt(&mut self, gt: &Gt)
        ensures
            final(self).absorbed() == old(self).absorbed().push(gt@),
    ;
}

/// Something that can be written to a transcript.
pub trait AppendToTranscript {
    /// The messages that this value contributes, in the order in which they
    /// are absorbed.
    spec fn messages(&self) -> Seq<Seq<u8>>;

    /// Writes this value to the transcript.
    fn append_to_transcript<T: Transcript>(&self, transcript: &mut T)
        ensures
            final(transcript).absorbed() == old(transcript).absorbed() + self.messages(),
    ;
}

impl CommitmentView {
    /// The three elements in the order in which a transcript absorbs them:
    /// `c`, then `d1`, then `d2`.
    pub open spec fn messages(self) -> Seq<Seq<u8>> {
        seq![self.c, self.d1, self.d2]
    }
}

impl AppendToTranscript for Commitment {
    open spec fn messages(&self) -> Seq<Seq<u8>> {
        self@.messages()
    }

    fn append_to_transcript<T: Transcript>(&self, transcript: &mut T) {
        transcript.append_gt(&self.c);
        transcript.append_gt(&self.d1);
        transcript.append_gt(&self.d2);
        proof {
            assert(transcript.absorbed() =~= old(transcript).absorbed() + self.messages());
        }
    }
}

/// The messages of a sequence of byte vectors.
pub open spec fn message_values(log: Seq<Vec<u8>>) -> Seq<Seq<u8>> {
    Seq::new(log.len(), |i: int| log[i]@)
}

/// A transcript that keeps every message it absorbed.
#[derive(Debug)]
pub struct TranscriptLog {
    log: Vec<Vec<u8>>,
}

impl TranscriptLog {
    /// A transcript that has absorbed nothing.
    pub fn new() -> (r: TranscriptLog)
        ensures
            r.absorbed() == Seq::<Seq<u8>>::empty(),
    {
        let r = TranscriptLog { log: Vec::new() };
        proof {
            assert(r.absorbed() =~= Seq::<Seq<u8>>::empty());
        }
        r
    }

    /// The messages absorbed so far, oldest first.
    pub fn log(&self) -> (r: &Vec<Vec<u8>>)
        ensures
            message_values(r@) == self.absorbed(),
    {
        &self.log
    }
}

impl Transcript for TranscriptLog {
    closed spec fn absorbed(&self) -> Seq<Seq<u8>> {
        message_values(self.log@)
    }

    fn append_gt(&mut self, gt: &Gt) {
        let bytes = gt.to_bytes();
        let mut message: Vec<u8> = Vec::new();
        crate::encoding::append_bytes(&mut message, bytes.as_slice());
        self.log.push(message);
        proof {
            assert(self.absorbed() =~= old(self).absorbed().push(gt@));
        }
    }
}

} // verus!
