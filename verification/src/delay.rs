//! Busy-wait delays.

use vstd::prelude::*;

verus! {

/// Tells the processor it is in a spin-wait loop (`core::hint::spin_loop`).
#[verifier::external_body]
fn spin_hint() {
    core::hint::spin_loop();
}

/// Number of spin iterations per microsecond of a busy-wait delay.
pub const SPINS_PER_US: u64 = 100;

/// Busy-waits for about `us` microseconds: `us * SPINS_PER_US` spin hints.
pub fn spin_delay_us(us: u32) {
    let n: u64 = us as u64 * SPINS_PER_US;
    let mut i: u64 = 0;
    while i < n
        invariant
            i <= n,
        decreases n - i,
    {
        spin_hint();
        i = i + 1;
    }
}

/// Number of spin iterations per microsecond of the PHY delay.
pub const PHY_SPINS_PER_US: u32 = 50;

/// Busy-waits for about `us` microseconds: `us` rounds of
/// `PHY_SPINS_PER_US` spin hints.
pub fn udelay(us: u32) {
    let mut i: u32 = 0;
    while i < us
        invariant
            i <= us,
        decreases us - i,
    {
        let mut j: u32 = 0;
        while j < PHY_SPINS_PER_US
            invariant
                j <= PHY_SPINS_PER_US,
            decreases PHY_SPINS_PER_US - j,
        {
            spin_hint();
            j = j + 1;
        }
        i = i + 1;
    }
}

} // verus!
