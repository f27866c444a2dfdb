use vstd::prelude::*;
use crate::buffer::{Frame, frame_contents, frame_slice};

verus! {

/// What one attempt of a non-blocking serial primitive (write one byte, or
/// flush) reported.
#[derive(Clone, Copy, Debug, PartialEq, Eq, Structural)]
pub enum Readiness {
    /// The byte was accepted, or the transmit path is drained.
    Ready,
    /// The peripheral is busy: the same attempt is to be made again.
    NotReady,
    /// A genuine peripheral error.
    Fault,
}

/// A peripheral error that aborted a frame.
#[derive(Clone, Copy, Debug, PartialEq, Eq, Structural)]
pub enum SerialError {
    /// Reported while a byte was being written.
    WriteFailed,
    /// Reported while the transmit path was being flushed.
    FlushFailed,
}

/// Where a frame transmission stands.
#[derive(Clone, Copy, Debug, PartialEq, Eq, Structural)]
pub enum WriterStatus {
    Sending,
    Done,
    Failed(SerialError),
}

/// The next thing the peripheral is to be asked for.
#[derive(Clone, Copy, Debug, PartialEq, Eq, Structural)]
pub enum WriterAction {
    /// Attempt to write this byte.
    Write(u8),
    /// Attempt to flush the transmit path.
    Flush,
    /// Every byte was accepted and the transmit path drained; nothing more is to be attempted.
    Completed,
    /// The transmission was aborted by this error; nothing more is to be attempted.
    Aborted(SerialError),
}

/// Abstract state of a frame transmission: the frame, how many of its bytes
/// the peripheral has accepted, and where it stands.
pub struct WriterView {
    pub bytes: Seq<u8>,
    pub sent: nat,
    pub status: WriterStatus,
}

/// The bytes of the frame that the peripheral has accepted so far.
pub open spec fn transmitted(w: WriterView) -> Seq<u8> {
    w.bytes.subrange(0, w.sent as int)
}

/// What a transmission asks for next: each byte in order, then a flush, then
/// nothing more.
pub open spec fn writer_action(w: WriterView) -> WriterAction {
    match w.status {
        WriterStatus::Sending => if w.sent < w.bytes.len() {
            WriterAction::Write(w.bytes[w.sent as int])
        } else {
            WriterAction::Flush
        },
        WriterStatus::Done => WriterAction::Completed,
        WriterStatus::Failed(e) => WriterAction::Aborted(e),
    }
}

/// How a transmission moves on what the peripheral reported: `Ready` moves to
/// the next byte, or ends the transmission after the flush; `NotReady`
/// changes nothing, so that the same attempt is made again; `Fault` aborts.
/// A finished transmission ignores every report.
pub open spec fn writer_step(w: WriterView, r: Readiness) -> WriterView {
    match w.status {
        WriterStatus::Sending => match r {
            Readiness::Ready => if w.sent < w.bytes.len() {
                WriterView { sent: w.sent + 1, ..w }
            } else {
                WriterView { status: WriterStatus::Done, ..w }
            },
            Readiness::NotReady => w,
            Readiness::Fault => WriterView {
                status: WriterStatus::Failed(
                    if w.sent < w.bytes.len() {
                        SerialError::WriteFailed
                    } else {
                        SerialError::FlushFailed
                    },
                ),
                ..w
            },
        },
        _ => w,
    }
}

/// A blocking write of one frame, driven one primitive attempt at a time:
/// the caller performs `next_action` on the peripheral and hands the
/// outcome to `on_event`, until the action is `Completed` or `Aborted`.
pub struct FrameWriter {
    frame: Frame,
    sent: usize,
    status: WriterStatus,
}

impl View for FrameWriter {
    type V = WriterView;

    closed spec fn view(&self) -> WriterView {
        WriterView { bytes: frame_contents(self.frame), sent: self.sent as nat, status: self.status }
    }
}

impl FrameWriter {
    #[verifier::type_invariant]
    spec fn sent_within_frame(self) -> bool {
        self.sent <= frame_contents(self.frame).len()
    }

    /// Starts the transmission of `frame`, with no byte sent yet.
    pub fn new(frame: Frame) -> (r: FrameWriter)
        ensures
            r@ == (WriterView {
                bytes: frame_contents(frame),
                sent: 0,
                status: WriterStatus::Sending,
            }),
    {
        FrameWriter { frame, sent: 0, status: WriterStatus::Sending }
    }

    /// The attempt to make next.
    pub fn next_action(&self) -> (r: WriterAction)
        ensures
            r == writer_action(self@),
    {
        proof {
            use_type_invariant(self);
        }
        match self.status {
            WriterStatus::Sending => {
                let bytes = frame_slice(&self.frame);
                if self.sent < bytes.len() {
                    WriterAction::Write(bytes[self.sent])
                } else {
                    WriterAction::Flush
                }
            },
            WriterStatus::Done => WriterAction::Completed,
            WriterStatus::Failed(e) => WriterAction::Aborted(e),
        }
    }

    /// Takes in what the peripheral reported for the last attempt.
    pub fn on_event(&mut self, r: Readiness)
        ensures
            final(self)@ == writer_step(old(self)@, r),
    {
        proof {
            use_type_invariant(&*self);
        }
        if let WriterStatus::Sending = self.status {
            let len = frame_slice(&self.frame).len();
            match r {
                Readiness::Ready => {
                    if self.sent < len {
                        self.sent = self.sent + 1;
                    } else {
                        self.status = WriterStatus::Done;
                    }
                },
                Readiness::NotReady => {},
                Readiness::Fault => {
                    self.status = WriterStatus::Failed(
                        if self.sent < len {
                            SerialError::WriteFailed
                        } else {
                            SerialError::FlushFailed
                        },
                    );
                },
            }
        }
    }

    /// How many bytes of the frame the peripheral has accepted.
    pub fn sent(&self) -> (r: usize)
        ensures
            r == self@.sent,
    {
        self.sent
    }
}

/// A transmission after each of the reports `rs`, in order.
pub open spec fn writer_run(w: WriterView, rs: Seq<Readiness>) -> WriterView
    decreases rs.len(),
{
    if rs.len() == 0 {
        w
    } else {
        writer_run(writer_step(w, rs[0]), rs.drop_first())
    }
}

/// A fault while a byte is being written aborts the frame with the bytes
/// before it sent and no more; whatever is reported afterwards, nothing
/// further is sent and the frame is not retried.
pub proof fn lemma_write_fault_aborts_frame(w: WriterView, later: Seq<Readiness>)
    requires
        w.status == WriterStatus::Sending,
        w.sent < w.bytes.len(),
    ensures
        writer_step(w, Readiness::Fault).status == WriterStatus::Failed(SerialError::WriteFailed),
        transmitted(writer_step(w, Readiness::Fault)) == transmitted(w),
        writer_run(writer_step(w, Readiness::Fault), later) == writer_step(w, Readiness::Fault),
        writer_action(writer_run(writer_step(w, Readiness::Fault), later)) == WriterAction::Aborted(
            SerialError::WriteFailed,
        ),
    decreases later.len(),
{
    if later.len() > 0 {
        lemma_write_fault_aborts_frame(w, later.drop_first());
    }
}

} // verus!
