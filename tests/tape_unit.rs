use ibm701::error::TapeError;
use ibm701::tape::{Tape, TAPE_CAPACITY, WORD_SIZE};

#[test]
fn new_tape_is_blank() {
    let tape = Tape::new('J');
    assert_eq!(tape.id(), 'J');
    assert_eq!(tape.position(), 0);
    assert_eq!(tape.current_word(), Ok([0u8; 9]));
    assert!(!tape.protocol_violated());
}

#[test]
fn tape_fills_then_reports_full() {
    let mut tape = Tape::new('K');
    let word = [1u8, 2, 3, 4, 5, 6, 7, 8, 9];
    for _ in 0..TAPE_CAPACITY / WORD_SIZE {
        assert_eq!(tape.write(&word), Ok(()));
    }
    assert_eq!(tape.position(), 140_000 / 9 * 9);
    assert_eq!(tape.write(&word), Err(TapeError::TapeFull));
    assert_eq!(tape.position(), 140_000 / 9 * 9);
    assert_eq!(tape.current_word(), Err(TapeError::EndOfTape));
}

#[test]
fn rewind_at_start_is_a_no_op() {
    let mut tape = Tape::new('L');
    assert_eq!(tape.rewind(), None);
    assert_eq!(tape.position(), 0);
}

#[test]
fn write_rewind_read_round_trip() {
    let mut tape = Tape::new('M');
    let a = [9u8, 8, 7, 6, 5, 4, 3, 2, 1];
    let b = [0xFFu8; 9];
    tape.write(&a).unwrap();
    tape.write(&b).unwrap();
    assert_eq!(tape.position(), 18);
    assert_eq!(tape.rewind(), Some(()));
    assert_eq!(tape.rewind(), Some(()));
    assert_eq!(tape.position(), 0);
    assert_eq!(tape.read(), Ok(a));
    assert_eq!(tape.read(), Ok(b));
    assert_eq!(tape.position(), 18);
    assert_eq!(tape.read(), Ok([0u8; 9]));
}

#[test]
fn erase_zeroes_without_moving() {
    let mut tape = Tape::new('J');
    tape.write(&[3u8; 9]).unwrap();
    tape.rewind().unwrap();
    assert_eq!(tape.erase(), Ok(()));
    assert_eq!(tape.position(), 0);
    assert_eq!(tape.current_word(), Ok([0u8; 9]));
}

#[test]
fn read_at_end_reports_end_of_tape() {
    let mut tape = Tape::new('K');
    for _ in 0..TAPE_CAPACITY / WORD_SIZE {
        tape.read().unwrap();
    }
    assert_eq!(tape.read(), Err(TapeError::EndOfTape));
    assert_eq!(tape.erase(), Err(TapeError::EndOfTape));
}

#[test]
fn write_after_read_is_recorded() {
    let mut tape = Tape::new('L');
    tape.write(&[1u8; 9]).unwrap();
    tape.rewind().unwrap();
    assert!(!tape.protocol_violated());
    tape.read().unwrap();
    assert!(!tape.protocol_violated());
    tape.write(&[2u8; 9]).unwrap();
    assert!(tape.protocol_violated());
}
