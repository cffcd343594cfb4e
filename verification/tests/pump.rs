use pty_pump::pump::{Interest, Pump};
use pty_pump::recorder::{Recorder, Tap, Transcript};
use pty_pump::session::{announce, exit_code, WaitOutcome};
use pty_pump::transfer::{ReadAttempt, WriteAttempt};

const READ: Interest = Interest { readable: true, writable: false };
const READ_WRITE: Interest = Interest { readable: true, writable: true };
const RETIRED: Interest = Interest { readable: false, writable: false };

fn chunk(bytes: &[u8]) -> Vec<ReadAttempt> {
    vec![ReadAttempt::Data(bytes.to_vec()), ReadAttempt::Failed]
}

#[test]
fn a_new_pump_watches_both_for_reading() {
    let pump = Pump::new();
    assert!(pump.output().is_empty());
    assert!(pump.input().is_empty());
    assert!(!pump.is_flushing());
    assert!(!pump.has_ended());
    assert_eq!(pump.master_interest(), READ);
    assert_eq!(pump.terminal_interest(), READ);
}

#[test]
fn hi_then_exit_zero() {
    let mut recorder = Transcript::new();
    let mut tap = Tap::new(&mut recorder);
    assert_eq!(announce(Some((80, 24)), &mut tap).ok(), Some((80, 24)));
    let mut pump = Pump::new();

    assert_eq!(pump.master_readable(&chunk(b"hi\n"), &mut tap), 3);
    assert_eq!(pump.terminal_interest(), READ_WRITE);
    assert_eq!(pump.output(), &b"hi\n".to_vec());

    assert!(!pump.terminal_writable(&vec![WriteAttempt::Accepted(3)]));
    assert_eq!(pump.terminal_interest(), READ);
    assert!(pump.output().is_empty());

    assert!(pump.master_read_closed());
    assert!(pump.has_ended());
    assert!(!pump.is_flushing());

    assert_eq!(recorder.recorded_output(), &b"hi\n".to_vec());
    assert!(recorder.recorded_input().is_empty());
    assert_eq!(recorder.size(), Some((80, 24)));
    assert_eq!(exit_code(WaitOutcome::Exited(0)), 0);
}

#[test]
fn output_is_recorded_without_loss() {
    let mut recorder = Transcript::new();
    let mut tap = Tap::new(&mut recorder);
    let mut pump = Pump::new();
    let rounds: Vec<Vec<ReadAttempt>> = vec![
        vec![ReadAttempt::Data(b"one ".to_vec()), ReadAttempt::Data(b"two ".to_vec()), ReadAttempt::Failed],
        vec![ReadAttempt::Failed],
        vec![ReadAttempt::Data(Vec::new()), ReadAttempt::Data(b"three".to_vec()), ReadAttempt::Failed],
    ];
    let mut total = 0;
    for round in rounds.iter() {
        total += pump.master_readable(round, &mut tap);
    }
    assert_eq!(total, 13);
    assert_eq!(recorder.recorded_output(), &b"one two three".to_vec());
    assert_eq!(pump.output(), &b"one two three".to_vec());
    assert!(recorder.recorded_input().is_empty());
}

#[test]
fn input_is_recorded_without_loss() {
    let mut recorder = Transcript::new();
    let mut tap = Tap::new(&mut recorder);
    let mut pump = Pump::new();
    assert_eq!(pump.terminal_readable(&chunk(b"ls"), &mut tap), 2);
    assert_eq!(pump.master_interest(), READ_WRITE);
    assert_eq!(pump.terminal_readable(&chunk(b" -l\n"), &mut tap), 4);
    assert_eq!(recorder.recorded_input(), &b"ls -l\n".to_vec());
    assert_eq!(pump.input(), &b"ls -l\n".to_vec());
    assert!(recorder.recorded_output().is_empty());

    assert_eq!(pump.master_writable(&vec![WriteAttempt::Accepted(2), WriteAttempt::Failed]), 4);
    assert_eq!(pump.input(), &b" -l\n".to_vec());
    assert_eq!(pump.master_interest(), READ_WRITE);
    assert_eq!(pump.master_writable(&vec![WriteAttempt::Accepted(4)]), 0);
    assert!(pump.input().is_empty());
    assert_eq!(pump.master_interest(), READ);
}

#[test]
fn an_empty_drain_changes_no_interest() {
    let mut recorder = Transcript::new();
    let mut tap = Tap::new(&mut recorder);
    let mut pump = Pump::new();
    assert_eq!(pump.master_readable(&vec![ReadAttempt::Failed], &mut tap), 0);
    assert_eq!(pump.terminal_interest(), READ);
    assert_eq!(pump.terminal_readable(&vec![ReadAttempt::Failed], &mut tap), 0);
    assert_eq!(pump.master_interest(), READ);
    assert!(recorder.recorded_output().is_empty());
    assert!(recorder.recorded_input().is_empty());
}

#[test]
fn trailing_output_is_flushed_before_the_end() {
    let mut recorder = Transcript::new();
    let mut tap = Tap::new(&mut recorder);
    let mut pump = Pump::new();
    pump.master_readable(&chunk(b"goodbye"), &mut tap);

    assert!(!pump.master_read_closed());
    assert!(pump.is_flushing());
    assert!(!pump.has_ended());
    assert_eq!(pump.master_interest(), RETIRED);
    assert_eq!(pump.terminal_interest(), READ_WRITE);

    assert!(!pump.terminal_writable(&vec![WriteAttempt::Accepted(4), WriteAttempt::Failed]));
    assert_eq!(pump.output(), &b"bye".to_vec());
    assert!(!pump.has_ended());
    assert_eq!(pump.terminal_interest(), READ_WRITE);

    assert!(!pump.terminal_writable(&vec![WriteAttempt::Failed]));
    assert_eq!(pump.output(), &b"bye".to_vec());

    assert!(pump.terminal_writable(&vec![WriteAttempt::Accepted(3)]));
    assert!(pump.has_ended());
    assert!(pump.output().is_empty());
}

#[test]
fn queued_input_is_given_up_when_the_master_closes() {
    let mut recorder = Transcript::new();
    let mut tap = Tap::new(&mut recorder);
    let mut pump = Pump::new();
    pump.terminal_readable(&chunk(b"typed"), &mut tap);
    pump.master_readable(&chunk(b"out"), &mut tap);
    assert!(!pump.master_read_closed());
    assert!(pump.input().is_empty());
    assert_eq!(pump.output(), &b"out".to_vec());
    assert_eq!(recorder.recorded_input(), &b"typed".to_vec());
}

#[test]
fn input_read_while_flushing_is_still_recorded() {
    let mut recorder = Transcript::new();
    let mut tap = Tap::new(&mut recorder);
    let mut pump = Pump::new();
    pump.master_readable(&chunk(b"out"), &mut tap);
    assert!(!pump.master_read_closed());
    assert_eq!(pump.terminal_readable(&chunk(b"x"), &mut tap), 1);
    assert_eq!(recorder.recorded_input(), &b"x".to_vec());
    assert_eq!(pump.master_interest(), READ_WRITE);
    assert!(pump.is_flushing());
}

#[test]
fn a_closed_terminal_ends_the_pump_at_once() {
    let mut recorder = Transcript::new();
    let mut tap = Tap::new(&mut recorder);
    let mut pump = Pump::new();
    pump.master_readable(&chunk(b"pending output"), &mut tap);
    pump.terminal_readable(&chunk(b"pending input"), &mut tap);
    pump.terminal_read_closed();
    assert!(pump.has_ended());
    assert_eq!(pump.terminal_interest(), RETIRED);
    assert_eq!(pump.output(), &b"pending output".to_vec());
    assert_eq!(pump.input(), &b"pending input".to_vec());
}

#[test]
fn a_closed_terminal_ends_a_flushing_pump() {
    let mut recorder = Transcript::new();
    let mut tap = Tap::new(&mut recorder);
    let mut pump = Pump::new();
    pump.master_readable(&chunk(b"abc"), &mut tap);
    assert!(!pump.master_read_closed());
    pump.terminal_read_closed();
    assert!(pump.has_ended());
    assert_eq!(pump.output(), &b"abc".to_vec());
}

#[test]
fn a_drained_terminal_is_no_longer_watched_for_writing() {
    let mut recorder = Transcript::new();
    let mut tap = Tap::new(&mut recorder);
    let mut pump = Pump::new();
    pump.master_readable(&chunk(b"abcd"), &mut tap);
    assert!(!pump.terminal_writable(&vec![WriteAttempt::Accepted(1), WriteAttempt::Failed]));
    assert_eq!(pump.terminal_interest(), READ_WRITE);
    assert!(!pump.terminal_writable(&vec![WriteAttempt::Accepted(3)]));
    assert_eq!(pump.terminal_interest(), READ);
    assert!(!pump.has_ended());
}

#[test]
fn the_transcript_keeps_the_announced_size() {
    let mut recorder = Transcript::new();
    assert_eq!(recorder.size(), None);
    assert!(recorder.start((132, 43)).is_ok());
    assert_eq!(recorder.size(), Some((132, 43)));
    recorder.output(b"a");
    recorder.input(b"b");
    recorder.output(b"c");
    assert_eq!(recorder.recorded_output(), &b"ac".to_vec());
    assert_eq!(recorder.recorded_input(), &b"b".to_vec());
}

struct Chunks {
    outputs: Vec<Vec<u8>>,
    inputs: Vec<Vec<u8>>,
    refuse: bool,
}

impl Recorder for Chunks {
    fn start(&mut self, _size: (u16, u16)) -> std::io::Result<()> {
        if self.refuse {
            Err(std::io::Error::new(std::io::ErrorKind::Other, "refused"))
        } else {
            Ok(())
        }
    }

    fn output(&mut self, data: &[u8]) {
        self.outputs.push(data.to_vec());
    }

    fn input(&mut self, data: &[u8]) {
        self.inputs.push(data.to_vec());
    }
}

#[test]
fn the_recorder_gets_only_the_new_bytes_of_each_round() {
    let mut recorder = Chunks { outputs: Vec::new(), inputs: Vec::new(), refuse: false };
    let mut tap = Tap::new(&mut recorder);
    let mut pump = Pump::new();
    pump.master_readable(&chunk(b"first"), &mut tap);
    pump.master_readable(&vec![ReadAttempt::Failed], &mut tap);
    pump.master_readable(
        &vec![ReadAttempt::Data(b"sec".to_vec()), ReadAttempt::Data(b"ond".to_vec()), ReadAttempt::Failed],
        &mut tap,
    );
    pump.terminal_readable(&chunk(b"key"), &mut tap);
    pump.terminal_readable(&vec![ReadAttempt::Failed], &mut tap);
    assert_eq!(recorder.outputs, vec![b"first".to_vec(), b"second".to_vec()]);
    assert_eq!(recorder.inputs, vec![b"key".to_vec()]);
}

#[test]
fn a_refused_start_is_handed_back() {
    let mut recorder = Chunks { outputs: Vec::new(), inputs: Vec::new(), refuse: true };
    let mut tap = Tap::new(&mut recorder);
    let started = announce(Some((80, 24)), &mut tap);
    assert!(started.is_err());
    assert!(recorder.outputs.is_empty());
}
