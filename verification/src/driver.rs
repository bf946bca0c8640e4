//! The device-driver contract: the capability interface every force-feedback
//! backend implements, uniform across a hardware-capture-backed backend and a
//! synthesizing one.

use crate::effects::Effect;
use crate::error::FFBResult;
use vstd::prelude::*;

verus! {

/// Trait for force-feedback device drivers.
pub trait FfbDriver {
    /// Initialize the device; must be called before any effect is applied.
    fn initialize(&mut self) -> FFBResult<()>;

    /// Apply (create and start) an effect.
    ///
    /// Returns captured or generated command packets as hex strings, one per
    /// transmitted report. A capture-backed driver waits for the effect
    /// duration and captures live traffic; a synthesizing driver returns
    /// generated reports immediately.
    fn apply_effect(&mut self, effect: &Effect) -> FFBResult<Vec<String>>
        requires
            effect.spec_condition_coeffs_above_min(),
    ;

    /// Stop all effects; best-effort, never fails if nothing is active.
    fn stop_all_effects(&mut self) -> FFBResult<()>;

    /// Shutdown the device and release resources.
    fn shutdown(&mut self) -> FFBResult<()>;

    /// Get the driver name for logging.
    fn name(&self) -> &str;
}

} // verus!
