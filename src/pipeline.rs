use vstd::prelude::*;
use crate::frame::{Sample, encode, frame_bytes};
use crate::serial::{
    FrameWriter, Readiness, SerialError, WriterAction, WriterStatus, WriterView, writer_action,
    writer_step,
};

verus! {

/// A failed bus transaction with the accelerometer.
#[derive(Clone, Copy, Debug, PartialEq, Eq, Structural)]
pub enum SensorError {
    /// The "new data available" status query failed.
    StatusQueryFailed,
    /// The acceleration read failed.
    ReadFailed,
}

/// An error of one loop iteration, with the stage that it came from.
#[derive(Clone, Copy, Debug, PartialEq, Eq, Structural)]
pub enum LoopError {
    Sensor(SensorError),
    Serial(SerialError),
}

/// A line for the debug channel.
#[derive(Clone, Copy, Debug, PartialEq, Eq, Structural)]
pub enum Report {
    /// A sample was acquired.
    Sample(Sample),
    /// An iteration ended on this error.
    Error(LoopError),
}

/// What the hardware reported for the last action.
#[derive(Clone, Copy, Debug, PartialEq, Eq, Structural)]
pub enum Event {
    /// The status query failed.
    StatusFailed,
    /// The status query answered; `xyz_new_data` tells whether a new sample is
    /// ready on all three axes.
    Status { xyz_new_data: bool },
    /// The acceleration read failed.
    ReadFailed,
    /// The acceleration read returned this sample.
    Acceleration(Sample),
    /// The serial primitive answered the last write or flush attempt.
    Serial(Readiness),
}

/// The next thing the hardware is to do.
#[derive(Clone, Copy, Debug, PartialEq, Eq, Structural)]
pub enum Action {
    /// Query the accelerometer's status.
    QueryStatus,
    /// Read the latest acceleration sample.
    ReadAcceleration,
    /// Attempt to write this byte on the serial link.
    Write(u8),
    /// Attempt to flush the serial link.
    Flush,
}

/// Abstract state of the loop.
pub enum LoopView {
    /// Polling: waiting for the status query's answer.
    AwaitStatus,
    /// New data was signalled: waiting for the acceleration read.
    AwaitRead,
    /// Transmitting the frame of the last sample.
    Transmitting(WriterView),
}

/// The action that a loop state asks for.
pub open spec fn loop_action(s: LoopView) -> Action {
    match s {
        LoopView::AwaitStatus => Action::QueryStatus,
        LoopView::AwaitRead => Action::ReadAcceleration,
        LoopView::Transmitting(w) => match writer_action(w) {
            WriterAction::Write(b) => Action::Write(b),
            WriterAction::Flush => Action::Flush,
            _ => Action::QueryStatus,
        },
    }
}

/// How the loop moves on an event, and what it reports to the debug channel.
/// A failed query, or a status without new data, goes straight back to
/// polling; a sample starts the transmission of its frame; the end of a
/// transmission, completed or aborted, goes back to polling. An event that
/// does not answer the state's action changes nothing.
pub open spec fn loop_step(s: LoopView, e: Event) -> (LoopView, Option<Report>) {
    match (s, e) {
        (LoopView::AwaitStatus, Event::StatusFailed) => (
            LoopView::AwaitStatus,
            Some(Report::Error(LoopError::Sensor(SensorError::StatusQueryFailed))),
        ),
        (LoopView::AwaitStatus, Event::Status { xyz_new_data }) => if xyz_new_data {
            (LoopView::AwaitRead, None)
        } else {
            (LoopView::AwaitStatus, None)
        },
        (LoopView::AwaitRead, Event::ReadFailed) => (
            LoopView::AwaitStatus,
            Some(Report::Error(LoopError::Sensor(SensorError::ReadFailed))),
        ),
        (LoopView::AwaitRead, Event::Acceleration(a)) => (
            LoopView::Transmitting(
                WriterView {
                    bytes: frame_bytes(a.x, a.y, a.z),
                    sent: 0,
                    status: WriterStatus::Sending,
                },
            ),
            Some(Report::Sample(a)),
        ),
        (LoopView::Transmitting(w), Event::Serial(r)) => {
            let w2 = writer_step(w, r);
            match w2.status {
                WriterStatus::Sending => (LoopView::Transmitting(w2), None),
                WriterStatus::Done => (LoopView::AwaitStatus, None),
                WriterStatus::Failed(err) => (
                    LoopView::AwaitStatus,
                    Some(Report::Error(LoopError::Serial(err))),
                ),
            }
        },
        _ => (s, None),
    }
}

enum LoopState {
    AwaitStatus,
    AwaitRead,
    Transmitting(FrameWriter),
}

/// The polling loop: acquire a sample, encode it, transmit it, forever.
/// The caller performs `next_action` on the hardware and hands what came
/// back to `on_event`, logging each report that it returns.
pub struct Pipeline {
    state: LoopState,
}

impl View for Pipeline {
    type V = LoopView;

    closed spec fn view(&self) -> LoopView {
        match self.state {
            LoopState::AwaitStatus => LoopView::AwaitStatus,
            LoopState::AwaitRead => LoopView::AwaitRead,
            LoopState::Transmitting(w) => LoopView::Transmitting(w@),
        }
    }
}

impl Pipeline {
    /// The loop's first state, entered once setup is done: polling.
    pub fn new() -> (r: Pipeline)
        ensures
            r@ == LoopView::AwaitStatus,
    {
        Pipeline { state: LoopState::AwaitStatus }
    }

    /// The action to perform next.
    pub fn next_action(&self) -> (r: Action)
        ensures
            r == loop_action(self@),
    {
        match &self.state {
            LoopState::AwaitStatus => Action::QueryStatus,
            LoopState::AwaitRead => Action::ReadAcceleration,
            LoopState::Transmitting(w) => match w.next_action() {
                WriterAction::Write(b) => Action::Write(b),
                WriterAction::Flush => Action::Flush,
                _ => Action::QueryStatus,
            },
        }
    }

    /// Takes in what the hardware reported for the last action, and returns
    /// the line to log for it, if any.
    pub fn on_event(&mut self, e: Event) -> (r: Option<Report>)
        ensures
            (final(self)@, r) == loop_step(old(self)@, e),
    {
        let mut state = LoopState::AwaitStatus;
        std::mem::swap(&mut state, &mut self.state);
        match (state, e) {
            (LoopState::AwaitStatus, Event::StatusFailed) => {
                Some(Report::Error(LoopError::Sensor(SensorError::StatusQueryFailed)))
            },
            (LoopState::AwaitStatus, Event::Status { xyz_new_data }) => {
                if xyz_new_data {
                    self.state = LoopState::AwaitRead;
                }
                None
            },
            (LoopState::AwaitRead, Event::ReadFailed) => {
                Some(Report::Error(LoopError::Sensor(SensorError::ReadFailed)))
            },
            (LoopState::AwaitRead, Event::Acceleration(a)) => {
                let frame = encode(a);
                self.state = LoopState::Transmitting(FrameWriter::new(frame));
                Some(Report::Sample(a))
            },
            (LoopState::Transmitting(mut w), Event::Serial(r)) => {
                w.on_event(r);
                match w.next_action() {
                    WriterAction::Completed => None,
                    WriterAction::Aborted(err) => Some(Report::Error(LoopError::Serial(err))),
                    _ => {
                        self.state = LoopState::Transmitting(w);
                        None
                    },
                }
            },
            (other, _) => {
                self.state = other;
                None
            },
        }
    }
}

/// A failed status query ends the iteration at once: the failure is
/// reported, the loop polls again, and no frame is encoded or written.
pub proof fn lemma_status_failure_skips_frame()
    ensures
        loop_step(LoopView::AwaitStatus, Event::StatusFailed) == (
            LoopView::AwaitStatus,
            Some(Report::Error(LoopError::Sensor(SensorError::StatusQueryFailed))),
        ),
        loop_action(loop_step(LoopView::AwaitStatus, Event::StatusFailed).0)
            == Action::QueryStatus,
{
}

/// A status without new data ends the iteration at once and silently: the
/// loop polls again, and no frame is encoded or written.
pub proof fn lemma_no_new_data_skips_frame()
    ensures
        loop_step(LoopView::AwaitStatus, Event::Status { xyz_new_data: false }) == (
            LoopView::AwaitStatus,
            None::<Report>,
        ),
        loop_action(loop_step(LoopView::AwaitStatus, Event::Status { xyz_new_data: false }).0)
            == Action::QueryStatus,
{
}

/// The bytes that reach the wire when the loop in state `s` gets event `e`:
/// the byte being written, when the peripheral took it.
pub open spec fn wire_of(s: LoopView, e: Event) -> Seq<u8> {
    match (loop_action(s), e) {
        (Action::Write(b), Event::Serial(Readiness::Ready)) => seq![b],
        _ => Seq::empty(),
    }
}

/// Runs the loop from `s` through the events `es`: the state reached, and
/// the bytes put on the wire, in order.
pub open spec fn run(s: LoopView, es: Seq<Event>) -> (LoopView, Seq<u8>)
    decreases es.len(),
{
    if es.len() == 0 {
        (s, Seq::empty())
    } else {
        let rest = run(loop_step(s, es[0]).0, es.drop_first());
        (rest.0, wire_of(s, es[0]) + rest.1)
    }
}

/// `n` serial attempts that each succeed at once.
pub open spec fn all_ready(n: nat) -> Seq<Event> {
    Seq::new(n, |i: int| Event::Serial(Readiness::Ready))
}

/// The events of one iteration that acquires `a` and transmits it without a
/// hitch: new data, the sample, fifteen accepted bytes and an accepted flush.
pub open spec fn clean_iteration(a: Sample) -> Seq<Event> {
    seq![Event::Status { xyz_new_data: true }, Event::Acceleration(a)] + all_ready(16)
}

/// Clean iterations, one per sample, in order.
pub open spec fn clean_iterations(samples: Seq<Sample>) -> Seq<Event>
    decreases samples.len(),
{
    if samples.len() == 0 {
        Seq::empty()
    } else {
        clean_iteration(samples[0]) + clean_iterations(samples.drop_first())
    }
}

/// The frames of the samples, back to back.
pub open spec fn frames_of(samples: Seq<Sample>) -> Seq<u8>
    decreases samples.len(),
{
    if samples.len() == 0 {
        Seq::empty()
    } else {
        frame_bytes(samples[0].x, samples[0].y, samples[0].z) + frames_of(samples.drop_first())
    }
}

/// Running through two stretches of events is running through the first,
/// then through the second from where the first ended; the wire gets the
/// bytes of the first, then those of the second.
pub proof fn lemma_run_append(s: LoopView, a: Seq<Event>, b: Seq<Event>)
    ensures
        run(s, a + b) == (run(run(s, a).0, b).0, run(s, a).1 + run(run(s, a).0, b).1),
    decreases a.len(),
{
    if a.len() == 0 {
        assert(a + b =~= b);
        assert(run(s, a).1 + run(s, b).1 =~= run(s, b).1);
    } else {
        let s1 = loop_step(s, a[0]).0;
        assert((a + b).drop_first() =~= a.drop_first() + b);
        lemma_run_append(s1, a.drop_first(), b);
        let mid = run(s1, a.drop_first());
        assert(wire_of(s, a[0]) + (mid.1 + run(mid.0, b).1) =~= (wire_of(s, a[0]) + mid.1) + run(
            mid.0,
            b,
        ).1);
    }
}

/// A transmission with `k` bytes sent, met by one ready answer per
/// remaining byte and one for the flush, puts the rest of its frame on the
/// wire and goes back to polling.
proof fn lemma_transmit_rest(bytes: Seq<u8>, k: nat)
    requires
        k <= bytes.len(),
    ensures
        run(
            LoopView::Transmitting(WriterView { bytes, sent: k, status: WriterStatus::Sending }),
            all_ready((bytes.len() - k + 1) as nat),
        ) == (LoopView::AwaitStatus, bytes.subrange(k as int, bytes.len() as int)),
    decreases bytes.len() - k,
{
    let s = LoopView::Transmitting(WriterView { bytes, sent: k, status: WriterStatus::Sending });
    let es = all_ready((bytes.len() - k + 1) as nat);
    assert(es[0] == Event::Serial(Readiness::Ready));
    if k < bytes.len() {
        assert(es.drop_first() =~= all_ready((bytes.len() - (k + 1) + 1) as nat));
        let next = LoopView::Transmitting(
            WriterView { bytes, sent: k + 1, status: WriterStatus::Sending },
        );
        assert(writer_step(WriterView { bytes, sent: k, status: WriterStatus::Sending }, Readiness::Ready)
            == WriterView { bytes, sent: k + 1, status: WriterStatus::Sending });
        assert(loop_step(s, es[0]).0 == next);
        assert(wire_of(s, es[0]) == seq![bytes[k as int]]);
        lemma_transmit_rest(bytes, k + 1);
        assert(seq![bytes[k as int]] + bytes.subrange(k + 1int, bytes.len() as int) =~= bytes.subrange(
            k as int,
            bytes.len() as int,
        ));
    } else {
        assert(es.drop_first() =~= Seq::<Event>::empty());
        assert(bytes.subrange(k as int, bytes.len() as int) =~= Seq::<u8>::empty());
        assert(wire_of(s, es[0]) =~= Seq::<u8>::empty());
        assert(loop_step(s, es[0]).0 == LoopView::AwaitStatus);
        assert(run(LoopView::AwaitStatus, es.drop_first()) == (LoopView::AwaitStatus, Seq::<u8>::empty()));
    }
}

/// One clean iteration puts exactly the sample's frame on the wire and
/// leaves the loop polling again.
pub proof fn lemma_clean_iteration(a: Sample)
    ensures
        run(LoopView::AwaitStatus, clean_iteration(a)) == (
            LoopView::AwaitStatus,
            frame_bytes(a.x, a.y, a.z),
        ),
{
    let es = clean_iteration(a);
    let f = frame_bytes(a.x, a.y, a.z);
    let w = LoopView::Transmitting(WriterView { bytes: f, sent: 0, status: WriterStatus::Sending });
    assert(es.drop_first().drop_first() =~= all_ready(16));
    assert(f.len() == 15);
    lemma_transmit_rest(f, 0);
    assert(f.subrange(0, 15) =~= f);
    assert(run(w, all_ready(16)) == (LoopView::AwaitStatus, f));
    assert(es[1] == Event::Acceleration(a));
    assert(wire_of(LoopView::AwaitRead, es[1]) =~= Seq::<u8>::empty());
    assert(run(LoopView::AwaitRead, es.drop_first()).1 =~= f);
    assert(wire_of(LoopView::AwaitStatus, es[0]) =~= Seq::<u8>::empty());
    assert(run(LoopView::AwaitStatus, es).1 =~= f);
}

/// Consecutive clean iterations put their frames on the wire back to back,
/// with nothing between them, and leave the loop polling.
pub proof fn lemma_frames_are_adjacent(samples: Seq<Sample>)
    ensures
        run(LoopView::AwaitStatus, clean_iterations(samples)) == (
            LoopView::AwaitStatus,
            frames_of(samples),
        ),
    decreases samples.len(),
{
    if samples.len() > 0 {
        let first = clean_iteration(samples[0]);
        let rest = clean_iterations(samples.drop_first());
        lemma_clean_iteration(samples[0]);
        lemma_frames_are_adjacent(samples.drop_first());
        lemma_run_append(LoopView::AwaitStatus, first, rest);
    } else {
        assert(run(LoopView::AwaitStatus, clean_iterations(samples)).1 =~= frames_of(samples));
    }
}

/// A write fault ends the iteration: the error is reported, and the loop
/// polls again instead of retrying the frame.
pub proof fn lemma_write_fault_ends_iteration(w: WriterView)
    requires
        w.status == WriterStatus::Sending,
        w.sent < w.bytes.len(),
    ensures
        loop_step(LoopView::Transmitting(w), Event::Serial(Readiness::Fault)) == (
            LoopView::AwaitStatus,
            Some(Report::Error(LoopError::Serial(SerialError::WriteFailed))),
        ),
        wire_of(LoopView::Transmitting(w), Event::Serial(Readiness::Fault)) == Seq::<u8>::empty(),
{
}

} // verus!
