use atmega32u4_usb_serial::bring_up::{BringUp, Step};
use atmega32u4_usb_serial::signals::ControlSignals;
use atmega32u4_usb_serial::stream::{finish_read, finish_write, plan_read, ReadPlan, TextWriter};

#[test]
fn control_byte_zero_has_no_signal() {
    let s = ControlSignals::from_byte(0);
    assert!(!s.get_dtr());
    assert!(!s.get_rts());
}

#[test]
fn dtr_is_bit_zero_alone() {
    let s = ControlSignals::from_byte(0x01);
    assert!(s.get_dtr());
    assert!(!s.get_rts());
}

#[test]
fn rts_is_bit_one_alone() {
    let s = ControlSignals::from_byte(0x02);
    assert!(!s.get_dtr());
    assert!(s.get_rts());
}

#[test]
fn both_signals_set() {
    let s = ControlSignals::from_byte(0x03);
    assert!(s.get_dtr());
    assert!(s.get_rts());
}

#[test]
fn higher_bits_do_not_set_signals() {
    let s = ControlSignals::from_byte(0xFC);
    assert!(!s.get_dtr());
    assert!(!s.get_rts());
    let t = ControlSignals::from_byte(0xFD);
    assert!(t.get_dtr());
    assert!(!t.get_rts());
}

#[test]
fn signals_are_independent_over_all_bytes() {
    for c in 0..=255u8 {
        let s = ControlSignals::from_byte(c);
        assert_eq!(s.get_dtr(), c & 1 != 0);
        assert_eq!(s.get_rts(), c & 2 != 0);
        assert_eq!(ControlSignals::from_byte(c ^ 2).get_dtr(), s.get_dtr());
        assert_eq!(ControlSignals::from_byte(c ^ 1).get_rts(), s.get_rts());
    }
}

#[test]
fn read_with_nothing_available_would_block_without_fetch() {
    match plan_read(0) {
        ReadPlan::Reply(r) => assert_eq!(r, Err(nb::Error::WouldBlock)),
        ReadPlan::Fetch => panic!("a fetch was planned with no byte available"),
    }
}

#[test]
fn read_with_bytes_available_fetches() {
    assert!(matches!(plan_read(1), ReadPlan::Fetch));
    assert!(matches!(plan_read(255), ReadPlan::Fetch));
}

#[test]
fn read_of_no_byte_sentinel_would_block() {
    assert_eq!(finish_read(-1), Err(nb::Error::WouldBlock));
}

#[test]
fn read_returns_fetched_byte() {
    assert_eq!(finish_read(0x41), Ok(0x41));
    assert_eq!(finish_read(0), Ok(0));
    assert_eq!(finish_read(255), Ok(255));
}

#[test]
fn write_with_zero_status_succeeds() {
    assert_eq!(finish_write(0), Ok(()));
}

#[test]
fn write_with_busy_status_would_block() {
    assert_eq!(finish_write(1), Err(nb::Error::WouldBlock));
    assert_eq!(finish_write(-1), Err(nb::Error::WouldBlock));
    assert_eq!(finish_write(127), Err(nb::Error::WouldBlock));
}

/// Drives a text delivery against a put whose statuses come from `statuses`
/// in turn (zero once they run out); returns the bytes the put accepted.
fn deliver(text: &str, statuses: &[i8]) -> Vec<u8> {
    let mut writer = TextWriter::new(text);
    let mut taken = Vec::new();
    let mut i = 0;
    while let Some(byte) = writer.pending() {
        let status = if i < statuses.len() { statuses[i] } else { 0 };
        i += 1;
        if status == 0 {
            taken.push(byte);
        }
        writer.record(status);
    }
    assert!(writer.is_done());
    taken
}

#[test]
fn text_reaches_engine_in_order() {
    assert_eq!(deliver("hello", &[]), b"hello".to_vec());
}

#[test]
fn text_survives_busy_output_path() {
    assert_eq!(deliver("abc", &[1, 1, 0, -1, 0, 5, 5, 5, 0]), b"abc".to_vec());
}

#[test]
fn text_is_sent_as_utf8_bytes() {
    assert_eq!(deliver("é€", &[]), vec![0xC3, 0xA9, 0xE2, 0x82, 0xAC]);
}

#[test]
fn empty_text_sends_nothing() {
    let writer = TextWriter::new("");
    assert!(writer.is_done());
    assert_eq!(writer.pending(), None);
}

#[test]
fn busy_status_keeps_byte_pending() {
    let mut writer = TextWriter::new("xy");
    assert_eq!(writer.pending(), Some(b'x'));
    writer.record(3);
    assert_eq!(writer.pending(), Some(b'x'));
    writer.record(0);
    assert_eq!(writer.pending(), Some(b'y'));
    writer.record(0);
    assert_eq!(writer.pending(), None);
    writer.record(0);
    assert!(writer.is_done());
}

/// Runs bring-up against a simulated collaborator whose PLL locks on the
/// `pll`-th lock poll and whose engine is configured on the `cfg`-th poll.
fn simulate_bring_up(pll: u32, cfg: u32) -> Vec<Step> {
    let mut b = BringUp::new();
    let mut done = Vec::new();
    let mut pll_polls = 0;
    let mut cfg_polls = 0;
    while !b.is_ready() {
        let step = b.current();
        done.push(step);
        let reply = match step {
            Step::AwaitPllLock => {
                pll_polls += 1;
                pll_polls >= pll
            }
            Step::AwaitConfigured => {
                cfg_polls += 1;
                cfg_polls >= cfg
            }
            _ => true,
        };
        b.advance(reply);
    }
    done
}

#[test]
fn bring_up_waits_for_lock_then_configuration() {
    let done = simulate_bring_up(3, 5);
    let mut expected = vec![Step::EnableRegulator, Step::EnableController, Step::StartPll];
    expected.extend([Step::AwaitPllLock; 3]);
    expected.extend([
        Step::UnfreezeClock,
        Step::Attach,
        Step::ArmInterrupts,
        Step::InitEngine,
        Step::EnableInterrupts,
    ]);
    expected.extend([Step::AwaitConfigured; 5]);
    assert_eq!(done, expected);
    let last_lock = done.iter().rposition(|s| *s == Step::AwaitPllLock).unwrap();
    let init = done.iter().position(|s| *s == Step::InitEngine).unwrap();
    let first_cfg = done.iter().position(|s| *s == Step::AwaitConfigured).unwrap();
    assert!(last_lock < init && init < first_cfg);
}

#[test]
fn bring_up_with_immediate_answers() {
    let done = simulate_bring_up(1, 1);
    assert_eq!(done.len(), 10);
    assert_eq!(done[3], Step::AwaitPllLock);
    assert_eq!(done[9], Step::AwaitConfigured);
}

#[test]
fn failed_polls_do_not_advance() {
    let mut b = BringUp::new();
    for _ in 0..3 {
        b.advance(true);
    }
    assert_eq!(b.current(), Step::AwaitPllLock);
    b.advance(false);
    b.advance(false);
    assert_eq!(b.current(), Step::AwaitPllLock);
    b.advance(true);
    assert_eq!(b.current(), Step::UnfreezeClock);
}

#[test]
fn ready_is_terminal() {
    let mut b = BringUp::new();
    while !b.is_ready() {
        b.advance(true);
    }
    b.advance(false);
    b.advance(true);
    assert!(b.is_ready());
    assert_eq!(b.current(), Step::Ready);
}
