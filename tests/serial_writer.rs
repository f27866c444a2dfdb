use accel_stream::frame::format_row;
use accel_stream::serial::{FrameWriter, Readiness, SerialError, WriterAction};

/// Drives a writer, answering each attempt from `answers` in turn (and
/// `Ready` once they run out); returns the bytes that were accepted.
fn drive(w: &mut FrameWriter, answers: &[Readiness]) -> Vec<u8> {
    let mut wire = Vec::new();
    let mut k = 0;
    for _ in 0..1000 {
        let action = w.next_action();
        let answer = if k < answers.len() { answers[k] } else { Readiness::Ready };
        k += 1;
        match action {
            WriterAction::Write(b) => {
                if answer == Readiness::Ready {
                    wire.push(b);
                }
            }
            WriterAction::Flush => {}
            WriterAction::Completed | WriterAction::Aborted(_) => return wire,
        }
        w.on_event(answer);
    }
    panic!("writer did not finish");
}

#[test]
fn writes_every_byte_then_completes() {
    let frame = format_row(100, -200, 300);
    let expected = frame.as_slice().to_vec();
    let mut w = FrameWriter::new(frame);
    let wire = drive(&mut w, &[]);
    assert_eq!(wire, expected);
    assert_eq!(w.next_action(), WriterAction::Completed);
    assert_eq!(w.sent(), 15);
}

#[test]
fn not_ready_repeats_the_same_attempt() {
    let frame = format_row(1, 2, 3);
    let mut w = FrameWriter::new(frame);
    assert_eq!(w.next_action(), WriterAction::Write(0));
    w.on_event(Readiness::NotReady);
    w.on_event(Readiness::NotReady);
    assert_eq!(w.next_action(), WriterAction::Write(0));
    assert_eq!(w.sent(), 0);
    let wire = drive(&mut w, &[Readiness::NotReady, Readiness::Ready, Readiness::NotReady]);
    assert_eq!(wire, format_row(1, 2, 3).as_slice().to_vec());
    assert_eq!(w.next_action(), WriterAction::Completed);
}

#[test]
fn flush_follows_last_byte() {
    let mut w = FrameWriter::new(format_row(0, 0, 0));
    for _ in 0..15 {
        w.on_event(Readiness::Ready);
    }
    assert_eq!(w.next_action(), WriterAction::Flush);
    w.on_event(Readiness::NotReady);
    assert_eq!(w.next_action(), WriterAction::Flush);
    w.on_event(Readiness::Ready);
    assert_eq!(w.next_action(), WriterAction::Completed);
}

#[test]
fn fault_on_sixth_byte_aborts_frame() {
    let mut w = FrameWriter::new(format_row(100, -200, 300));
    let answers = [Readiness::Ready; 5];
    let mut all = answers.to_vec();
    all.push(Readiness::Fault);
    let wire = drive(&mut w, &all);
    assert_eq!(wire, vec![0x00, 0x00, 0x00, 0x64, 0x2C]);
    assert!(wire.len() <= 5);
    assert_eq!(w.next_action(), WriterAction::Aborted(SerialError::WriteFailed));
    w.on_event(Readiness::Ready);
    assert_eq!(w.next_action(), WriterAction::Aborted(SerialError::WriteFailed));
    assert_eq!(w.sent(), 5);
}

#[test]
fn fault_while_flushing() {
    let mut w = FrameWriter::new(format_row(5, 6, 7));
    for _ in 0..15 {
        w.on_event(Readiness::Ready);
    }
    w.on_event(Readiness::Fault);
    assert_eq!(w.next_action(), WriterAction::Aborted(SerialError::FlushFailed));
}
