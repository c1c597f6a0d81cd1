//! What the per-monitor virtual device advertises, and how a failed forward
//! is recovered.
use vstd::prelude::*;

verus! {

/// Number of key codes the virtual device advertises: every code up to the
/// kernel's largest key code.
pub const KEY_CODE_COUNT: u16 = 768;

/// Miscellaneous event code for scan codes.
pub const MSC_SCAN: u16 = 0x04;

/// Relative axis codes.
pub const REL_X: u16 = 0x00;
pub const REL_Y: u16 = 0x01;
pub const REL_HWHEEL: u16 = 0x06;
pub const REL_WHEEL: u16 = 0x08;
pub const REL_WHEEL_HI_RES: u16 = 0x0b;
pub const REL_HWHEEL_HI_RES: u16 = 0x0c;

/// Every key code, from 0 up to but not including `KEY_CODE_COUNT`.
pub fn virtual_key_codes() -> (r: Vec<u16>)
    ensures
        r@ == Seq::new(KEY_CODE_COUNT as nat, |i: int| i as u16),
{
    let mut out: Vec<u16> = Vec::new();
    let mut c: u16 = 0;
    while c < KEY_CODE_COUNT
        invariant
            c <= KEY_CODE_COUNT,
            out@ == Seq::new(c as nat, |i: int| i as u16),
        decreases KEY_CODE_COUNT - c,
    {
        out.push(c);
        c = c + 1;
        assert(out@ =~= Seq::new(c as nat, |i: int| i as u16));
    }
    out
}

/// The miscellaneous event codes: scan codes.
pub fn virtual_misc_codes() -> (r: Vec<u16>)
    ensures
        r@ == seq![MSC_SCAN],
{
    vec![MSC_SCAN]
}

/// The relative axes, so that pointing hardware built into a keyboard is
/// proxied too: pointer motion and both wheels, plain and high resolution.
pub fn virtual_relative_axes() -> (r: Vec<u16>)
    ensures
        r@ == seq![REL_X, REL_Y, REL_WHEEL, REL_HWHEEL, REL_WHEEL_HI_RES, REL_HWHEEL_HI_RES],
{
    vec![REL_X, REL_Y, REL_WHEEL, REL_HWHEEL, REL_WHEEL_HI_RES, REL_HWHEEL_HI_RES]
}

/// What to do after forwarding a batch failed.
#[derive(Clone, Copy, PartialEq, Eq, Structural, Debug)]
pub enum ForwardRecovery {
    /// Recreate the virtual device and forward the same batch again.
    RecreateAndRetry,
    /// Give up on this batch.
    Drop,
}

/// After `failures` failed attempts at forwarding one batch: the first
/// failure recreates the device and retries once, any later one drops the
/// batch.
pub fn after_forward_failure(failures: u32) -> (r: ForwardRecovery)
    ensures
        r == (if failures <= 1 { ForwardRecovery::RecreateAndRetry } else { ForwardRecovery::Drop }),
{
    if failures <= 1 {
        ForwardRecovery::RecreateAndRetry
    } else {
        ForwardRecovery::Drop
    }
}

} // verus!
