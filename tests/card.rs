use std::cell::RefCell;
use std::collections::VecDeque;
use std::rc::Rc;

use jpki_nfc::apdu::StatusError;
use jpki_nfc::card::{Card, FragmentedRead};
use jpki_nfc::nfc;

/// A transport that answers from a script and records what it was sent.
struct Scripted {
    answers: VecDeque<Vec<u8>>,
    sent: Rc<RefCell<Vec<Vec<u8>>>>,
}

impl nfc::Card<u32> for Scripted {
    fn handle(&mut self, ctx: u32, command: Vec<u8>) -> Vec<u8> {
        assert_eq!(ctx, 7);
        self.sent.borrow_mut().push(command);
        self.answers.pop_front().unwrap_or_else(|| vec![0x6B, 0x00])
    }
}

fn session(answers: Vec<Vec<u8>>) -> (Card<Scripted, u32>, Rc<RefCell<Vec<Vec<u8>>>>) {
    let sent = Rc::new(RefCell::new(Vec::new()));
    let transport = Scripted { answers: answers.into(), sent: sent.clone() };
    (Card::new(Box::new(transport)), sent)
}

fn ok(mut payload: Vec<u8>) -> Vec<u8> {
    payload.push(0x90);
    payload.push(0x00);
    payload
}

fn read_all(card: &mut Card<Scripted, u32>, len: Option<u16>) -> Result<Vec<u8>, StatusError> {
    let mut progress = FragmentedRead::new(len);
    while !progress.is_finished() {
        card.read_fragment(7, &mut progress)?;
    }
    Ok(progress.into_buffer())
}

#[test]
fn select_df_sends_select_by_name() {
    let (mut card, sent) = session(vec![ok(vec![])]);
    assert_eq!(card.select_df(7, vec![0xD3, 0x92]), Ok(()));
    assert_eq!(*sent.borrow(), vec![vec![0x00, 0xA4, 0x04, 0x0C, 0x02, 0xD3, 0x92]]);
}

#[test]
fn select_ef_sends_select_under_df() {
    let (mut card, sent) = session(vec![ok(vec![0xEE])]);
    assert_eq!(card.select_ef(7, vec![0x00, 0x1B]), Ok(()));
    assert_eq!(*sent.borrow(), vec![vec![0x00, 0xA4, 0x02, 0x0C, 0x02, 0x00, 0x1B]]);
}

#[test]
fn select_failure_keeps_status() {
    let (mut card, _) = session(vec![vec![0x6A, 0x82]]);
    assert_eq!(card.select_ef(7, vec![0x00, 0x1B]), Err(StatusError { sw1: 0x6A, sw2: 0x82 }));
}

#[test]
fn verify_sends_pin() {
    let (mut card, sent) = session(vec![ok(vec![]), vec![0x63, 0xC2]]);
    assert_eq!(card.verify(7, vec![0x31, 0x32]), Ok(()));
    assert_eq!(card.verify(7, vec![]), Err(StatusError { sw1: 0x63, sw2: 0xC2 }));
    assert_eq!(
        *sent.borrow(),
        vec![vec![0x00, 0x20, 0x00, 0x80, 0x02, 0x31, 0x32], vec![0x00, 0x20, 0x00, 0x80]]
    );
}

#[test]
fn sign_sends_one_command_and_returns_signature() {
    let (mut card, sent) = session(vec![ok(vec![0xAA, 0xBB, 0xCC])]);
    assert_eq!(card.sign(7, vec![1, 2, 3]), Ok(vec![0xAA, 0xBB, 0xCC]));
    assert_eq!(*sent.borrow(), vec![vec![0x80, 0x2A, 0x00, 0x80, 0x03, 1, 2, 3, 0x00]]);
}

#[test]
fn sign_failure_keeps_status() {
    let (mut card, _) = session(vec![vec![0x69, 0x82]]);
    assert_eq!(card.sign(7, vec![1]), Err(StatusError { sw1: 0x69, sw2: 0x82 }));
}

#[test]
fn read_of_300_takes_two_fragments() {
    let first: Vec<u8> = (0..255u32).map(|i| i as u8).collect();
    let second: Vec<u8> = (0..45u32).map(|i| (i + 100) as u8).collect();
    let (mut card, sent) = session(vec![ok(first.clone()), ok(second.clone())]);
    let data = read_all(&mut card, Some(300)).unwrap();
    let mut expected = first;
    expected.extend_from_slice(&second);
    assert_eq!(data.len(), 300);
    assert_eq!(data, expected);
    assert_eq!(
        *sent.borrow(),
        vec![vec![0x00, 0xB0, 0x00, 0x00, 0x00], vec![0x00, 0xB0, 0x00, 0xFF, 45]]
    );
}

#[test]
fn short_fragment_ends_read_early() {
    let (mut card, sent) = session(vec![ok(vec![1, 2, 3])]);
    assert_eq!(read_all(&mut card, Some(10)), Ok(vec![1, 2, 3]));
    assert_eq!(*sent.borrow(), vec![vec![0x00, 0xB0, 0x00, 0x00, 10]]);
}

#[test]
fn read_error_discards_buffer() {
    let (mut card, _) = session(vec![ok(vec![0; 255]), vec![0x6B, 0x00]]);
    assert_eq!(read_all(&mut card, Some(400)), Err(StatusError { sw1: 0x6B, sw2: 0x00 }));
}

#[test]
fn read_of_zero_sends_nothing() {
    let (mut card, sent) = session(vec![]);
    assert_eq!(read_all(&mut card, Some(0)), Ok(vec![]));
    assert!(sent.borrow().is_empty());
}

#[test]
fn read_of_unknown_length_runs_until_status_error() {
    let (mut card, sent) = session(vec![ok(vec![5; 256]), vec![0x6B, 0x00]]);
    assert_eq!(read_all(&mut card, None), Err(StatusError { sw1: 0x6B, sw2: 0x00 }));
    assert_eq!(
        *sent.borrow(),
        vec![vec![0x00, 0xB0, 0x00, 0x00, 0x00], vec![0x00, 0xB0, 0x01, 0x00, 0x00]]
    );
}

#[test]
fn fragment_steps_track_offset() {
    let (mut card, _) = session(vec![ok(vec![9; 20])]);
    let mut progress = FragmentedRead::new(Some(20));
    assert!(!progress.is_finished());
    assert_eq!(progress.next_command().into_bytes(), vec![0x00, 0xB0, 0x00, 0x00, 20]);
    assert_eq!(card.read_fragment(7, &mut progress), Ok(()));
    assert!(progress.is_finished());
    assert_eq!(progress.into_buffer(), vec![9; 20]);
}
