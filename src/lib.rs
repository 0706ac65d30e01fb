//! External-interrupt line driver: line configuration, the edge-detection
//! fiber and the two pulse delivery policies, modelled as plain state.

mod drv;
mod stream;

pub use crate::drv::{configured, fib_report, lemma_trigger_selection, serviced, ExtiDrv, ExtiRegs, ExtiSetup};
pub use crate::stream::{
    drained, fresh_state, lemma_detached_stays_silent, lemma_pulse_max_bounds, lemma_saturating_interleaved,
    lemma_saturating_undrained, lemma_try_interleaved, lemma_try_undrained, saturating_deliver,
    saturating_edges, saturating_interleaved, saturating_item, saturating_run, state_wf,
    try_deliver, try_edges, try_interleaved, try_item, try_run, ExtiOverflow, PulseState,
    SaturatingStream, TryStream, PULSE_MAX,
};
