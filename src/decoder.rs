//! The frame synchroniser and assembler: one pulse per second in, a decoded
//! frame or a resynchronisation out.
use vstd::prelude::*;

use crate::consts;
use crate::wwvb::{
    classify, decode_fields, decode_spec, slot_value, slots_ok, symbol_of, symbol_value,
    RawFields, Symbol, WWVBError,
};

verus! {

/// Progress towards frame alignment.
#[derive(Clone, Copy, Debug, PartialEq, Eq, Structural)]
pub enum SyncState {
    NotSynced,
    /// One marker seen; a second in a row marks the start of a frame.
    FirstSync,
    Synced,
}

/// What one pulse leads to.
#[derive(Clone, Copy, Debug, PartialEq, Eq, Structural)]
pub enum DecodeEvent {
    /// Still acquiring, or in the middle of a frame.
    NoOp,
    /// The frame was given up and the decoder is back to `NotSynced`.
    Resync(WWVBError),
    /// A frame was completed and its fields are in range.
    FrameReady(RawFields),
}

/// The state of a decoder: where it stands in acquiring sync, the next slot
/// of the frame to fill, and the frame so far.
pub struct DecoderView {
    pub state: SyncState,
    pub index: int,
    pub frame: Seq<u16>,
}

/// The decoding session: the frame being assembled and the sync state.
pub struct Decoder {
    frame: [u16; 60],
    index: usize,
    state: SyncState,
}

pub open spec fn empty_frame() -> Seq<u16> {
    Seq::new(60, |i: int| 0u16)
}

/// The state after a reset: nothing acquired, frame cleared.
pub open spec fn idle() -> DecoderView {
    DecoderView { state: SyncState::NotSynced, index: 0, frame: empty_frame() }
}

impl DecoderView {
    pub open spec fn wf(self) -> bool {
        &&& self.frame.len() == 60
        &&& 0 <= self.index < 60
        &&& slots_ok(self.frame)
        &&& self.state != SyncState::Synced ==> self.index == 0 && self.frame == empty_frame()
    }
}

/// The next state and the event for symbol `sym` received in state `d`.
pub open spec fn step(d: DecoderView, sym: Symbol) -> (DecoderView, DecodeEvent) {
    match d.state {
        SyncState::NotSynced => if sym == Symbol::Marker {
            (DecoderView { state: SyncState::FirstSync, ..idle() }, DecodeEvent::NoOp)
        } else {
            (idle(), DecodeEvent::NoOp)
        },
        // The second marker in a row is second 0 of the new frame.
        SyncState::FirstSync => if sym == Symbol::Marker {
            (
                DecoderView {
                    state: SyncState::Synced,
                    index: 1,
                    frame: empty_frame().update(0, 2u16),
                },
                DecodeEvent::NoOp,
            )
        } else {
            (idle(), DecodeEvent::NoOp)
        },
        SyncState::Synced => match slot_value(sym, d.index) {
            Err(e) => (idle(), DecodeEvent::Resync(e)),
            Ok(v) => {
                let f = d.frame.update(d.index, v);
                if d.index + 1 == 60 {
                    match decode_spec(f) {
                        Ok(fields) => (
                            DecoderView { state: SyncState::Synced, ..idle() },
                            DecodeEvent::FrameReady(fields),
                        ),
                        Err(e) => (idle(), DecodeEvent::Resync(e)),
                    }
                } else {
                    (
                        DecoderView { state: SyncState::Synced, index: d.index + 1, frame: f },
                        DecodeEvent::NoOp,
                    )
                }
            },
        },
    }
}

impl View for Decoder {
    type V = DecoderView;

    closed spec fn view(&self) -> DecoderView {
        DecoderView { state: self.state, index: self.index as int, frame: self.frame@ }
    }
}

/// A marker followed by any other symbol leaves the decoder where it started,
/// not synced.
pub proof fn lemma_single_marker_rejected(d: DecoderView, sym: Symbol)
    requires
        d.wf(),
        d.state == SyncState::NotSynced,
        sym != Symbol::Marker,
    ensures
        step(d, Symbol::Marker).0.state == SyncState::FirstSync,
        step(step(d, Symbol::Marker).0, sym).0 == idle(),
        step(step(d, Symbol::Marker).0, sym).1 == DecodeEvent::NoOp,
{
}

/// Two markers in a row take the decoder from `NotSynced` through `FirstSync`
/// to `Synced`, with the second marker in slot 0 and slot 1 next.
pub proof fn lemma_two_markers_sync(d: DecoderView)
    requires
        d.wf(),
        d.state == SyncState::NotSynced,
    ensures
        step(d, Symbol::Marker).0.state == SyncState::FirstSync,
        ({
            let s = step(step(d, Symbol::Marker).0, Symbol::Marker).0;
            &&& s.state == SyncState::Synced
            &&& s.index == 1
            &&& s.frame[0] == 2
            &&& s.wf()
        }),
{
    let s = step(step(d, Symbol::Marker).0, Symbol::Marker).0;
    assert(slots_ok(s.frame));
}

/// While synced, a marker where the frame has none gives up the frame with
/// `InvalidSync` and resets the decoder.
pub proof fn lemma_misplaced_marker(d: DecoderView)
    requires
        d.wf(),
        d.state == SyncState::Synced,
        !crate::wwvb::is_marker_index(d.index),
    ensures
        step(d, Symbol::Marker) == (idle(), DecodeEvent::Resync(WWVBError::InvalidSync)),
{
}

/// While synced, a data bit where the frame has a marker gives up the frame
/// with `InvalidSync` and resets the decoder.
pub proof fn lemma_missing_marker(d: DecoderView, sym: Symbol)
    requires
        d.wf(),
        d.state == SyncState::Synced,
        crate::wwvb::is_marker_index(d.index),
        sym == Symbol::One || sym == Symbol::Zero,
    ensures
        step(d, sym) == (idle(), DecodeEvent::Resync(WWVBError::InvalidSync)),
{
}

/// Every step keeps the decoder's state well formed.
pub proof fn lemma_step_wf(d: DecoderView, sym: Symbol)
    requires
        d.wf(),
    ensures
        step(d, sym).0.wf(),
{
    let s = step(d, sym).0;
    assert(slots_ok(empty_frame().update(0, 2u16)));
    if d.state == SyncState::Synced {
        if let Ok(v) = slot_value(sym, d.index) {
            assert(slots_ok(d.frame.update(d.index, v)));
        }
    }
}

/// The pulse width from a capture of the falling edge at `duty_cycle` and the
/// period end at `period`, corrected for the counter wrapping at
/// `consts::ARR` in between.
pub fn pulse_width(duty_cycle: u16, period: u16) -> (r: u16)
    requires
        period < duty_cycle ==> duty_cycle - period <= consts::ARR,
    ensures
        r == if period < duty_cycle {
            consts::ARR - (duty_cycle - period)
        } else {
            period - duty_cycle
        },
{
    if period < duty_cycle {
        consts::ARR - (duty_cycle - period)
    } else {
        period - duty_cycle
    }
}

impl Decoder {
    pub fn new() -> (r: Self)
        ensures
            r@ == idle(),
            r@.wf(),
    {
        let r = Decoder { frame: [0u16; 60], index: 0, state: SyncState::NotSynced };
        assert(r.frame@ =~= empty_frame());
        r
    }

    pub fn state(&self) -> (r: SyncState)
        ensures
            r == self@.state,
    {
        self.state
    }

    /// The slot of the frame that the next symbol goes to.
    pub fn index(&self) -> (r: usize)
        ensures
            r == self@.index,
    {
        self.index
    }

    /// The value held in slot `i` of the frame.
    pub fn slot(&self, i: usize) -> (r: u16)
        requires
            i < consts::FRAME_LEN,
        ensures
            r == self@.frame[i as int],
    {
        self.frame[i]
    }

    fn reset(&mut self)
        ensures
            final(self)@ == idle(),
    {
        self.frame = [0u16; 60];
        self.index = 0;
        self.state = SyncState::NotSynced;
        assert(self.frame@ =~= empty_frame());
    }

    /// Feeds one classified symbol to the decoder.
    pub fn on_symbol(&mut self, sym: Symbol) -> (r: DecodeEvent)
        requires
            old(self)@.wf(),
        ensures
            final(self)@.wf(),
            (final(self)@, r) == step(old(self)@, sym),
    {
        proof {
            lemma_step_wf(self@, sym);
        }
        let ghost d = self@;
        match self.state {
            SyncState::Synced => {
                match symbol_value(sym, self.index) {
                    Ok(val) => {
                        self.frame[self.index] = val;
                        self.index = self.index + 1;
                        assert(self.frame@ =~= d.frame.update(d.index, val));
                        if self.index == consts::FRAME_LEN {
                            match decode_fields(&self.frame) {
                                Ok(fields) => {
                                    self.frame = [0u16; 60];
                                    self.index = 0;
                                    assert(self.frame@ =~= empty_frame());
                                    DecodeEvent::FrameReady(fields)
                                },
                                Err(e) => {
                                    self.reset();
                                    DecodeEvent::Resync(e)
                                },
                            }
                        } else {
                            DecodeEvent::NoOp
                        }
                    },
                    // WWVB carries no redundancy: a bad pulse loses the whole
                    // minute, and sync has to be acquired again.
                    Err(e) => {
                        self.reset();
                        DecodeEvent::Resync(e)
                    },
                }
            },
            _ => {
                if sym == Symbol::Marker {
                    if self.state == SyncState::NotSynced {
                        self.state = SyncState::FirstSync;
                    } else {
                        self.state = SyncState::Synced;
                        self.frame[0] = 2;
                        self.index = 1;
                        assert(self.frame@ =~= empty_frame().update(0, 2u16));
                    }
                } else {
                    self.state = SyncState::NotSynced;
                }
                DecodeEvent::NoOp
            },
        }
    }

    /// Classifies a measured pulse width and feeds the symbol to the decoder.
    pub fn on_pulse(&mut self, duty: u16) -> (r: DecodeEvent)
        requires
            old(self)@.wf(),
        ensures
            final(self)@.wf(),
            (final(self)@, r) == step(old(self)@, symbol_of(duty)),
    {
        let sym = classify(duty);
        self.on_symbol(sym)
    }
}

} // verus!
