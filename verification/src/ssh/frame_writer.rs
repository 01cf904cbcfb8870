//! Writing one frame to a stream that may take it in pieces.
//!
//! The stream belongs to the caller. A `FrameWriter` says which bytes to
//! offer next and, told what the stream answered, whether to go on.

use crate::errors::{SshError, SshErrorKind};
use vstd::prelude::*;
use vstd::slice::slice_subrange;

verus! {

/// A frame on its way out, as contracts see it: the bytes that the stream has
/// taken and those it has not. Together, in this order, they are the frame.
pub struct FrameWriterView {
    pub sent: Seq<u8>,
    pub remaining: Seq<u8>,
}

impl FrameWriterView {
    /// The whole frame.
    pub open spec fn frame(self) -> Seq<u8> {
        self.sent + self.remaining
    }

    /// Nothing is left to write.
    pub open spec fn is_complete(self) -> bool {
        self.remaining.len() == 0
    }

    /// A report of `count` bytes written cannot be accepted: the stream took
    /// nothing although bytes were offered, or claims more than were offered.
    pub open spec fn refuses(self, count: nat) -> bool {
        count > self.remaining.len() || (count == 0 && self.remaining.len() > 0)
    }

    /// The writer after the stream has taken `count` of the remaining bytes.
    pub open spec fn after_write(self, count: nat) -> FrameWriterView
        recommends
            count <= self.remaining.len(),
    {
        FrameWriterView {
            sent: self.sent + self.remaining.take(count as int),
            remaining: self.remaining.skip(count as int),
        }
    }
}

/// The text of a write error whose cause is `cause`.
pub open spec fn write_error_message(cause: Seq<char>) -> Seq<char> {
    "An error occured while sending datas : "@ + cause
}

/// The cause named when the stream took none of the bytes offered to it.
pub open spec fn no_progress_cause() -> Seq<char> {
    "the stream took no bytes"@
}

/// The cause named when the stream reports more bytes than it was offered.
pub open spec fn over_report_cause() -> Seq<char> {
    "the stream reported more bytes than it was given"@
}

/// A frame that is being written, with the count of bytes already taken.
#[derive(Debug)]
pub struct FrameWriter {
    frame: Vec<u8>,
    written: usize,
}

impl View for FrameWriter {
    type V = FrameWriterView;

    closed spec fn view(&self) -> FrameWriterView {
        FrameWriterView {
            sent: self.frame@.take(self.written as int),
            remaining: self.frame@.skip(self.written as int),
        }
    }
}

impl FrameWriter {
    #[verifier::type_invariant]
    spec fn well_formed(self) -> bool {
        self.written <= self.frame@.len()
    }

    /// Starts writing `frame`: nothing of it has been taken yet.
    pub fn new(frame: Vec<u8>) -> (writer: Self)
        ensures
            writer@ == (FrameWriterView { sent: Seq::empty(), remaining: frame@ }),
    {
        let writer = Self { frame, written: 0 };
        assert(writer@.sent =~= Seq::<u8>::empty());
        assert(writer@.remaining =~= frame@);
        writer
    }

    /// Whether the stream has taken the whole frame.
    pub fn is_complete(&self) -> (complete: bool)
        ensures
            complete == self@.is_complete(),
    {
        proof {
            use_type_invariant(self);
        }
        self.written == self.frame.len()
    }

    /// The bytes to offer to the stream next.
    pub fn remaining(&self) -> (bytes: &[u8])
        ensures
            bytes@ == self@.remaining,
    {
        proof {
            use_type_invariant(self);
        }
        slice_subrange(self.frame.as_slice(), self.written, self.frame.len())
    }

    /// Takes note of what the stream answered when it was offered
    /// [`remaining`](FrameWriter::remaining): the count of bytes it took, or
    /// the cause of its failure.
    ///
    /// A failure of the stream is a write error, and so is a count of zero
    /// while bytes remain, or a count above what was offered. After an error
    /// the writer is as it was. Any other count moves that many bytes from
    /// the remaining to the sent ones, so that each accepted report of an
    /// unfinished write leaves fewer bytes to write.
    pub fn advance(&mut self, outcome: Result<usize, String>) -> (result: Result<(), SshError>)
        ensures
            match outcome {
                Ok(count) => if old(self)@.refuses(count as nat) {
                    &&& final(self)@ == old(self)@
                    &&& result is Err
                    &&& result.unwrap_err()@.kind == SshErrorKind::WriteError
                    &&& result.unwrap_err()@.message == write_error_message(
                        if count == 0 {
                            no_progress_cause()
                        } else {
                            over_report_cause()
                        },
                    )
                } else {
                    &&& final(self)@ == old(self)@.after_write(count as nat)
                    &&& result is Ok
                },
                Err(cause) => {
                    &&& final(self)@ == old(self)@
                    &&& result is Err
                    &&& result.unwrap_err()@.kind == SshErrorKind::WriteError
                    &&& result.unwrap_err()@.message == write_error_message(cause@)
                },
            },
    {
        proof {
            use_type_invariant(&*self);
        }
        match outcome {
            Ok(count) => {
                let left: usize = self.frame.len() - self.written;
                if count > left {
                    Err(write_error("the stream reported more bytes than it was given"))
                } else if count == 0 && left > 0 {
                    Err(write_error("the stream took no bytes"))
                } else {
                    self.written = self.written + count;
                    assert(self@.sent =~= old(self)@.sent + old(self)@.remaining.take(count as int));
                    assert(self@.remaining =~= old(self)@.remaining.skip(count as int));
                    Ok(())
                }
            },
            Err(cause) => Err(write_error(cause.as_str())),
        }
    }
}

/// The write error with the given cause.
fn write_error(cause: &str) -> (e: SshError)
    ensures
        e@.kind == SshErrorKind::WriteError,
        e@.message == write_error_message(cause@),
{
    let mut message: String = "An error occured while sending datas : ".to_owned();
    message.append(cause);
    SshError::new(SshErrorKind::WriteError, message)
}

/// A write that has not finished cannot go on for ever: whatever the stream
/// reports, the report is refused, or fewer bytes remain after it. A report
/// of no bytes at all is refused.
pub proof fn lemma_accepted_write_makes_progress(writer: FrameWriterView, count: nat)
    requires
        !writer.is_complete(),
    ensures
        writer.refuses(0),
        !writer.refuses(count) ==> writer.after_write(count).remaining.len()
            < writer.remaining.len(),
        !writer.refuses(count) ==> writer.after_write(count).frame() == writer.frame(),
{
    if !writer.refuses(count) {
        assert(writer.after_write(count).frame() =~= writer.frame());
    }
}

} // verus!
