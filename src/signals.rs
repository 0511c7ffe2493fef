//! Host control signals, decoded from the engine's control byte.
use vstd::prelude::*;

verus! {

/// Data terminal ready is bit 0 of the control byte.
pub open spec fn dtr_of(control: u8) -> bool {
    control % 2 == 1
}

/// Request to send is bit 1 of the control byte.
pub open spec fn rts_of(control: u8) -> bool {
    (control / 2) % 2 == 1
}

/// A snapshot of the two control signals that the host last set.
#[derive(Clone, Copy, Debug, PartialEq, Eq, Structural)]
pub struct ControlSignals {
    pub dtr: bool,
    pub rts: bool,
}

impl ControlSignals {
    /// Decodes the byte returned by the engine's control-signal query.
    pub fn from_byte(control: u8) -> (r: ControlSignals)
        ensures
            r.dtr == dtr_of(control),
            r.rts == rts_of(control),
    {
        assert((control & 1u8 != 0) == (control % 2 == 1)) by (bit_vector);
        assert((control & 2u8 != 0) == ((control / 2) % 2 == 1)) by (bit_vector);
        ControlSignals { dtr: control & 1u8 != 0, rts: control & 2u8 != 0 }
    }

    /// Whether the host asserts data terminal ready.
    pub fn get_dtr(&self) -> (r: bool)
        ensures
            r == self.dtr,
    {
        self.dtr
    }

    /// Whether the host asserts request to send.
    pub fn get_rts(&self) -> (r: bool)
        ensures
            r == self.rts,
    {
        self.rts
    }
}

/// Each signal is read from its own bit: changing the other bit of the
/// control byte leaves it as it was.
pub proof fn lemma_signals_independent(control: u8)
    ensures
        dtr_of(control ^ 2u8) == dtr_of(control),
        rts_of(control ^ 1u8) == rts_of(control),
        dtr_of(control) <==> control & 1u8 != 0,
        rts_of(control) <==> control & 2u8 != 0,
{
    assert(((control ^ 2u8) % 2 == 1) == (control % 2 == 1)) by (bit_vector);
    assert((((control ^ 1u8) / 2) % 2 == 1) == ((control / 2) % 2 == 1)) by (bit_vector);
    assert((control & 1u8 != 0) == (control % 2 == 1)) by (bit_vector);
    assert((control & 2u8 != 0) == ((control / 2) % 2 == 1)) by (bit_vector);
}

} // verus!
