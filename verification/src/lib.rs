//! Verified core of a DDC/CI luminance controller for an external display.
//!
//! The crate is split in two layers.  [`codec`] holds the pure frame logic:
//! building a get or set request, the XOR checksum, and decoding a response.
//! [`sequencer`] drives one logical transaction as a state machine whose
//! actions (delay, write, read) a caller performs against the physical bus,
//! feeding the results back in.

use vstd::prelude::*;

pub mod codec;
pub mod luminance_packet;
pub mod sequencer;

pub use luminance_packet::LuminancePacket;

verus! {

/// Begin a transaction that reads the display's current luminance.
///
/// The caller performs the actions the sequencer asks for — delay, one write,
/// delay, one read — and finds the reported level, or the error, in the
/// outcome.
pub fn current_luminance() -> (s: sequencer::Sequencer)
    ensures
        s.wf(),
        s.command is GetLevel,
        s.pc == 0,
        s.outcome is Pending,
        s.history@ == Seq::<sequencer::StepKind>::empty(),
{
    sequencer::Sequencer::new(sequencer::VcpCommand::GetLevel)
}

/// Begin a transaction that sets the display's luminance.
///
/// The raw level is clamped into `[0, MAX_LUMINANCE]` first, so a request
/// above the maximum behaves exactly like one for the maximum.  The caller
/// performs the actions the sequencer asks for: delay, write, delay, and the
/// same write again.
pub fn set_luminance(value: u8) -> (s: sequencer::Sequencer)
    ensures
        s.wf(),
        (s.command matches sequencer::VcpCommand::SetLevel(v) && v.spec_level() == codec::clamped(
            value,
        )),
        s.pc == 0,
        s.outcome is Pending,
        s.history@ == Seq::<sequencer::StepKind>::empty(),
{
    sequencer::Sequencer::new(sequencer::VcpCommand::SetLevel(codec::LuminanceValue::new(value)))
}

} // verus!
