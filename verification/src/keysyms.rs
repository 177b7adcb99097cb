//! The keys that have a meaning of their own, whatever the configuration says.
//!
//! Their numbers are read from the crate `xkeysym`. The `keysyms` of smithay have the same ones,
//! but a program that links smithay also needs libxkbcommon.

use vstd::prelude::*;

verus! {

/// The keysym of `XF86Switch_VT_1`, the first of twelve consecutive ones.
pub open spec fn first_switch_vt() -> u32 {
    0x1008_FE01
}

/// The keysym of `XF86Switch_VT_12`, the last of them.
pub open spec fn last_switch_vt() -> u32 {
    0x1008_FE0C
}

/// The keysym of `XF86PowerOff`.
pub open spec fn power_off() -> u32 {
    0x1008_FF2A
}

/// Reads the constant `xkeysym::key::XF86_Switch_VT_1`.
///
/// Not proved: that the crate gives this constant the number that the contract names.
#[verifier::external_body]
pub(crate) fn key_first_switch_vt() -> (sym: u32)
    ensures
        sym == first_switch_vt(),
{
    xkeysym::key::XF86_Switch_VT_1
}

/// Reads the constant `xkeysym::key::XF86_Switch_VT_12`.
///
/// Not proved: that the crate gives this constant the number that the contract names.
#[verifier::external_body]
pub(crate) fn key_last_switch_vt() -> (sym: u32)
    ensures
        sym == last_switch_vt(),
{
    xkeysym::key::XF86_Switch_VT_12
}

/// Reads the constant `xkeysym::key::XF86_PowerOff`.
///
/// Not proved: that the crate gives this constant the number that the contract names.
#[verifier::external_body]
pub(crate) fn key_power_off() -> (sym: u32)
    ensures
        sym == power_off(),
{
    xkeysym::key::XF86_PowerOff
}

} // verus!
