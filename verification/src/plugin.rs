//! Registration-time configuration and the refresh cadence.
//!
//! The creation pass runs every tick; the refresh pass is gated to fire
//! once per configured period so that synchronization cost is bounded
//! independently of the frame rate.

use vstd::prelude::*;
use vstd::arithmetic::div_mod::lemma_small_mod;
use crate::assets::ImageStore;
use crate::engine::{UiElement, spawn_nine_slice, spec_spawn_pass, spec_sync_pass, sync_nine_slice};
use crate::material::MaterialStore;

verus! {

/// What the host hands the registration entry point: how often, in
/// milliseconds, the refresh pass fires.
#[derive(Clone, Copy, Debug, PartialEq, Eq, Structural)]
pub struct NineSliceUiPlugin {
    pub sync_rate_ms: u64,
}

impl NineSliceUiPlugin {
    /// A plugin with an explicit refresh period.
    pub fn new(sync_rate_ms: u64) -> (p: NineSliceUiPlugin)
        requires
            sync_rate_ms > 0,
        ensures
            p.sync_rate_ms == sync_rate_ms,
    {
        NineSliceUiPlugin { sync_rate_ms }
    }

    /// The repeating timer that gates this plugin's refresh pass.
    pub fn refresh_timer(&self) -> (t: RefreshTimer)
        requires
            self.sync_rate_ms > 0,
        ensures
            t.period_ms == self.sync_rate_ms,
            t.elapsed_ms == 0,
            t.wf(),
    {
        RefreshTimer { period_ms: self.sync_rate_ms, elapsed_ms: 0 }
    }
}

impl Default for NineSliceUiPlugin {
    /// The refresh pass defaults to firing every 100 milliseconds.
    fn default() -> (p: NineSliceUiPlugin)
        ensures
            p.sync_rate_ms == 100,
    {
        NineSliceUiPlugin { sync_rate_ms: 100 }
    }
}

/// A repeating timer: accumulates the host's tick deltas and fires each
/// time a whole period has elapsed, carrying the remainder over so the
/// cadence keeps no long-term drift.
#[derive(Clone, Copy, Debug, PartialEq, Eq, Structural)]
pub struct RefreshTimer {
    pub period_ms: u64,
    pub elapsed_ms: u64,
}

impl RefreshTimer {
    /// The accumulated time is always a proper remainder.
    pub open spec fn wf(self) -> bool {
        self.period_ms > 0 && self.elapsed_ms < self.period_ms
    }

    pub fn new(period_ms: u64) -> (t: RefreshTimer)
        requires
            period_ms > 0,
        ensures
            t.period_ms == period_ms,
            t.elapsed_ms == 0,
            t.wf(),
    {
        RefreshTimer { period_ms, elapsed_ms: 0 }
    }

    /// Advance the timer by one tick's delta. Fires exactly when the
    /// accumulated time reaches the period, and keeps the remainder.
    pub fn tick(&mut self, delta_ms: u64) -> (fired: bool)
        requires
            old(self).wf(),
        ensures
            final(self).wf(),
            final(self).period_ms == old(self).period_ms,
            fired == (old(self).elapsed_ms + delta_ms >= old(self).period_ms),
            final(self).elapsed_ms == (old(self).elapsed_ms + delta_ms) % (
            old(self).period_ms as int),
    {
        let total: u128 = self.elapsed_ms as u128 + delta_ms as u128;
        let period: u128 = self.period_ms as u128;
        if total >= period {
            self.elapsed_ms = (total % period) as u64;
            true
        } else {
            proof {
                lemma_small_mod(total as nat, period as nat);
            }
            self.elapsed_ms = total as u64;
            false
        }
    }
}

/// One scheduling tick: the creation pass runs unconditionally, and the
/// refresh pass runs exactly when the timer's period has elapsed, over
/// the registry the creation pass just produced.
pub fn run_tick(
    elements: &mut Vec<UiElement>,
    images: &ImageStore,
    materials: &mut MaterialStore,
    timer: &mut RefreshTimer,
    delta_ms: u64,
) -> (fired: bool)
    requires
        old(timer).wf(),
    ensures
        final(timer).wf(),
        final(timer).period_ms == old(timer).period_ms,
        fired == (old(timer).elapsed_ms + delta_ms >= old(timer).period_ms),
        ({
            let spawned = spec_spawn_pass(old(elements)@, old(materials)@, images@);
            &&& final(elements)@ == spawned.0
            &&& final(materials)@ == if fired {
                spec_sync_pass(spawned.0, spawned.1, images@)
            } else {
                spawned.1
            }
        }),
{
    spawn_nine_slice(elements, images, materials);
    let fired = timer.tick(delta_ms);
    if fired {
        sync_nine_slice(elements, images, materials);
    }
    fired
}

} // verus!
