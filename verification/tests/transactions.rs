use ddc_luminance::codec::ProtocolError;
use ddc_luminance::sequencer::{Action, Outcome, Sequencer};
use ddc_luminance::{current_luminance, set_luminance};

/// A scripted transport: statuses for each successive write, one read
/// result, and a log of everything the sequencer asked for.
struct Scripted {
    write_statuses: Vec<i32>,
    read_status: i32,
    read_buf: Vec<u8>,
    steps: Vec<&'static str>,
    frames: Vec<Vec<u8>>,
    ok_writes: usize,
    failed_writes: usize,
}

impl Scripted {
    fn new(write_statuses: Vec<i32>, read_status: i32, read_buf: Vec<u8>) -> Self {
        Scripted {
            write_statuses,
            read_status,
            read_buf,
            steps: Vec::new(),
            frames: Vec::new(),
            ok_writes: 0,
            failed_writes: 0,
        }
    }

    fn drive(&mut self, mut s: Sequencer) -> Outcome {
        loop {
            match s.next_action() {
                Action::Delay => {
                    self.steps.push("delay");
                    s.on_delay();
                }
                Action::Write(frame) => {
                    let status = self.write_statuses.remove(0);
                    if status == 0 {
                        self.ok_writes += 1;
                    } else {
                        self.failed_writes += 1;
                    }
                    self.steps.push("write");
                    self.frames.push(frame);
                    s.on_write(status);
                }
                Action::Read(n) => {
                    assert_eq!(n, 12);
                    self.steps.push("read");
                    let buf = self.read_buf.clone();
                    s.on_read(self.read_status, &buf);
                }
                Action::Stop => return s.outcome(),
            }
        }
    }
}

fn well_formed_response(level: u8) -> Vec<u8> {
    let mut buf = vec![0u8; 12];
    buf[0] = 0x6E;
    buf[8] = 0x00;
    buf[9] = level;
    buf
}

#[test]
fn get_issues_one_write_one_read_each_after_delay() {
    let mut t = Scripted::new(vec![0], 0, well_formed_response(10));
    let outcome = t.drive(current_luminance());
    assert_eq!(t.steps, vec!["delay", "write", "delay", "read"]);
    assert_eq!(t.frames.len(), 1);
    assert_eq!(t.frames[0], vec![0x82, 0x01, 0x10, 0xFD]);
    assert_eq!(outcome, Outcome::Value(10));
}

#[test]
fn set_issues_two_writes_no_read() {
    let mut t = Scripted::new(vec![0, 0], 0, Vec::new());
    let outcome = t.drive(set_luminance(50));
    assert_eq!(t.steps, vec!["delay", "write", "delay", "write"]);
    assert_eq!(t.frames.len(), 2);
    assert_eq!(t.frames[0], vec![0x84, 0x03, 0x10, 0x00, 0x32, 0x9A]);
    assert_eq!(t.frames[1], t.frames[0]);
    assert_eq!(outcome, Outcome::Accepted);
}

#[test]
fn get_returns_75_on_well_formed_response() {
    // Transport always succeeds and answers with luminance 0x4B.
    let mut t = Scripted::new(vec![0], 0, well_formed_response(0x4B));
    let outcome = t.drive(current_luminance());
    assert_eq!(outcome, Outcome::Value(75));
}

#[test]
fn set_fails_fast_when_second_write_fails() {
    // The first write succeeds, the second reports a nonzero code: the
    // transaction ends in WriteFailed with one write of each kind recorded.
    let mut t = Scripted::new(vec![0, -536870174], 0, Vec::new());
    let outcome = t.drive(set_luminance(50));
    assert_eq!(outcome, Outcome::Failure(ProtocolError::WriteFailed(-536870174)));
    assert_eq!(t.ok_writes, 1);
    assert_eq!(t.failed_writes, 1);
    assert_eq!(t.steps, vec!["delay", "write", "delay", "write"]);
}

#[test]
fn set_fails_fast_when_first_write_fails() {
    // The first write fails: no second write is attempted.
    let mut t = Scripted::new(vec![3], 0, Vec::new());
    let outcome = t.drive(set_luminance(50));
    assert_eq!(outcome, Outcome::Failure(ProtocolError::WriteFailed(3)));
    assert_eq!(t.ok_writes, 0);
    assert_eq!(t.failed_writes, 1);
    assert_eq!(t.steps, vec!["delay", "write"]);
}

#[test]
fn set_above_maximum_sends_the_frames_of_the_maximum() {
    let mut high = Scripted::new(vec![0, 0], 0, Vec::new());
    high.drive(set_luminance(150));
    let mut max = Scripted::new(vec![0, 0], 0, Vec::new());
    max.drive(set_luminance(100));
    assert_eq!(high.frames, max.frames);
    assert_eq!(high.frames.len(), 2);
}

#[test]
fn get_rejects_response_with_wrong_source_byte() {
    // The read succeeds but the buffer opens with 0x00: InvalidResponse,
    // never a decoded value.
    let mut bad = well_formed_response(75);
    bad[0] = 0x00;
    let mut t = Scripted::new(vec![0], 0, bad);
    let outcome = t.drive(current_luminance());
    assert_eq!(outcome, Outcome::Failure(ProtocolError::InvalidResponse));
}

#[test]
fn get_surfaces_read_failure() {
    let mut t = Scripted::new(vec![0], 11, well_formed_response(75));
    let outcome = t.drive(current_luminance());
    assert_eq!(outcome, Outcome::Failure(ProtocolError::ReadFailed(11)));
    assert_eq!(t.steps, vec!["delay", "write", "delay", "read"]);
}

#[test]
fn get_surfaces_write_failure() {
    let mut t = Scripted::new(vec![9], 0, well_formed_response(75));
    let outcome = t.drive(current_luminance());
    assert_eq!(outcome, Outcome::Failure(ProtocolError::WriteFailed(9)));
    assert_eq!(t.steps, vec!["delay", "write"]);
}

#[test]
fn sequencer_reports_pending_until_stopped() {
    let mut s = current_luminance();
    assert!(!s.finished());
    assert_eq!(s.outcome(), Outcome::Pending);
    s.on_delay();
    assert!(!s.finished());
    s.on_write(0);
    assert_eq!(s.outcome(), Outcome::Pending);
    s.on_delay();
    s.on_read(0, &well_formed_response(1));
    assert!(s.finished());
    assert_eq!(s.outcome(), Outcome::Value(1));
    assert!(matches!(s.next_action(), Action::Stop));
}
