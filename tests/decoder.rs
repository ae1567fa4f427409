use wwvb_decoder::decoder::{pulse_width, DecodeEvent, Decoder, SyncState};
use wwvb_decoder::wwvb::{RawFields, Symbol, WWVBError};

const MARK: u16 = 2000;
const ONE: u16 = 5000;
const ZERO: u16 = 8000;

/// Pulse widths of one frame: markers at their positions, ones at `ones`.
fn frame_pulses(ones: &[usize]) -> Vec<u16> {
    (0..60)
        .map(|i| {
            if [0, 9, 19, 29, 39, 49, 59].contains(&i) {
                MARK
            } else if ones.contains(&i) {
                ONE
            } else {
                ZERO
            }
        })
        .collect()
}

/// Minute 30, hour 14, day 100, year 24, not a leap year.
const SCENARIO_ONES: [usize; 7] = [2, 3, 13, 16, 23, 47, 51];

#[test]
fn new_decoder_is_idle() {
    let d = Decoder::new();
    assert_eq!(d.state(), SyncState::NotSynced);
    assert_eq!(d.index(), 0);
    for i in 0..60 {
        assert_eq!(d.slot(i), 0);
    }
}

#[test]
fn single_marker_is_rejected() {
    for sym in [Symbol::Zero, Symbol::One, Symbol::Unknown] {
        let mut d = Decoder::new();
        assert_eq!(d.on_symbol(Symbol::Marker), DecodeEvent::NoOp);
        assert_eq!(d.state(), SyncState::FirstSync);
        assert_eq!(d.on_symbol(sym), DecodeEvent::NoOp);
        assert_eq!(d.state(), SyncState::NotSynced);
        assert_eq!(d.index(), 0);
    }
}

#[test]
fn non_marker_while_not_synced_is_ignored() {
    let mut d = Decoder::new();
    assert_eq!(d.on_pulse(ONE), DecodeEvent::NoOp);
    assert_eq!(d.on_pulse(3500), DecodeEvent::NoOp);
    assert_eq!(d.state(), SyncState::NotSynced);
}

#[test]
fn two_markers_acquire_sync() {
    let mut d = Decoder::new();
    assert_eq!(d.on_pulse(MARK), DecodeEvent::NoOp);
    assert_eq!(d.state(), SyncState::FirstSync);
    assert_eq!(d.on_pulse(MARK), DecodeEvent::NoOp);
    assert_eq!(d.state(), SyncState::Synced);
    assert_eq!(d.index(), 1);
    assert_eq!(d.slot(0), 2);
}

#[test]
fn marker_at_index_five_resyncs() {
    let mut d = Decoder::new();
    d.on_pulse(MARK);
    d.on_pulse(MARK);
    for _ in 1..5 {
        assert_eq!(d.on_pulse(ZERO), DecodeEvent::NoOp);
    }
    assert_eq!(d.index(), 5);
    assert_eq!(d.on_pulse(MARK), DecodeEvent::Resync(WWVBError::InvalidSync));
    assert_eq!(d.state(), SyncState::NotSynced);
    assert_eq!(d.index(), 0);
    assert_eq!(d.slot(0), 0);
}

#[test]
fn data_bit_at_marker_position_resyncs() {
    for bit in [ONE, ZERO] {
        let mut d = Decoder::new();
        d.on_pulse(MARK);
        d.on_pulse(MARK);
        for _ in 1..9 {
            assert_eq!(d.on_pulse(ONE), DecodeEvent::NoOp);
        }
        assert_eq!(d.index(), 9);
        assert_eq!(d.on_pulse(bit), DecodeEvent::Resync(WWVBError::InvalidSync));
        assert_eq!(d.state(), SyncState::NotSynced);
        assert_eq!(d.index(), 0);
        for i in 0..60 {
            assert_eq!(d.slot(i), 0);
        }
    }
}

#[test]
fn unknown_pulse_resyncs() {
    let mut d = Decoder::new();
    d.on_pulse(MARK);
    d.on_pulse(MARK);
    d.on_pulse(ONE);
    assert_eq!(d.on_pulse(6500), DecodeEvent::Resync(WWVBError::UnknownSignal));
    assert_eq!(d.state(), SyncState::NotSynced);
    assert_eq!(d.index(), 0);
    assert_eq!(d.slot(1), 0);
}

#[test]
fn full_frame_is_decoded() {
    let mut d = Decoder::new();
    // The last marker of the previous frame.
    assert_eq!(d.on_pulse(MARK), DecodeEvent::NoOp);
    let pulses = frame_pulses(&SCENARIO_ONES);
    for (i, &p) in pulses.iter().enumerate() {
        let ev = d.on_pulse(p);
        if i < 59 {
            assert_eq!(ev, DecodeEvent::NoOp);
        } else {
            assert_eq!(
                ev,
                DecodeEvent::FrameReady(RawFields {
                    minute: 30,
                    hour: 14,
                    doy: 100,
                    year: 24,
                    leap: false,
                })
            );
        }
    }
    assert_eq!(d.state(), SyncState::Synced);
    assert_eq!(d.index(), 0);
}

#[test]
fn next_frame_follows_without_reacquiring() {
    let mut d = Decoder::new();
    d.on_pulse(MARK);
    let pulses = frame_pulses(&SCENARIO_ONES);
    for &p in &pulses {
        d.on_pulse(p);
    }
    let mut last = DecodeEvent::NoOp;
    for &p in &pulses {
        last = d.on_pulse(p);
    }
    assert!(matches!(last, DecodeEvent::FrameReady(f) if f.minute == 30));
}

#[test]
fn out_of_range_minute_resyncs() {
    let mut d = Decoder::new();
    d.on_pulse(MARK);
    // 40 + 20 + 1 = 61.
    let pulses = frame_pulses(&[1, 2, 8, 13, 16, 23, 47, 51]);
    for (i, &p) in pulses.iter().enumerate() {
        let ev = d.on_pulse(p);
        if i < 59 {
            assert_eq!(ev, DecodeEvent::NoOp);
        } else {
            assert_eq!(ev, DecodeEvent::Resync(WWVBError::InvalidField));
        }
    }
    assert_eq!(d.state(), SyncState::NotSynced);
    assert_eq!(d.index(), 0);
}

#[test]
fn pulse_width_wraps_counter() {
    assert_eq!(pulse_width(1000, 9000), 8000);
    assert_eq!(pulse_width(9000, 1000), 2000);
    assert_eq!(pulse_width(500, 500), 0);
    assert_eq!(pulse_width(10000, 0), 0);
}
