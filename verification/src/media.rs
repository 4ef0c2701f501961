//! Participating media are an interface stub: the phase function math is
//! provided, and `MediumInterface` marks surfaces without carrying a medium.

use vstd::prelude::*;

use crate::common::FX_TAU;
use crate::fixed::{s_add, s_div, s_mul, s_sqrt, s_sub, Fx, fx_add, fx_div, fx_mul, fx_sqrt, fx_sub, FX_ONE};
use crate::vector::{s_dot, Vec3};

verus! {

/// Mirror of the Henyey-Greenstein phase function:
/// `(1 / (4 pi)) (1 - g^2) / (denom * sqrt(denom))` with
/// `denom = 1 + g^2 + 2 g cos`.
pub open spec fn s_phase_hg(cos_theta: int, g: int) -> int {
    let denom = s_add(s_add(FX_ONE as int, s_mul(g, g)), s_mul(s_mul(2 * FX_ONE as int, g), cos_theta));
    s_mul(
        s_div(FX_ONE as int, 2 * FX_TAU as int),
        s_div(s_sub(FX_ONE as int, s_mul(g, g)), s_mul(denom, s_sqrt(denom))),
    )
}

/// The Henyey-Greenstein phase function of an anisotropy `g`.
pub fn phase_hg(cos_theta: Fx, g: Fx) -> (r: Fx)
    ensures
        r as int == s_phase_hg(cos_theta as int, g as int),
{
    let denom = fx_add(fx_add(FX_ONE, fx_mul(g, g)), fx_mul(fx_mul(2 * FX_ONE, g), cos_theta));
    fx_mul(
        fx_div(FX_ONE, 2 * FX_TAU),
        fx_div(fx_sub(FX_ONE, fx_mul(g, g)), fx_mul(denom, fx_sqrt(denom))),
    )
}

/// An anisotropic phase lobe.
pub struct HenyeyGreenstein {
    pub g: Fx,
}

impl HenyeyGreenstein {
    /// The phase value between an outgoing and an incoming direction.
    pub fn p(&self, wo: &Vec3, wi: &Vec3) -> (r: Fx)
        ensures
            r as int == s_phase_hg(s_dot(*wo, *wi), self.g as int),
    {
        phase_hg(wo.dot(*wi), self.g)
    }
}

/// The two media a surface separates. Media themselves are outside this
/// core's scope, so the interface carries no payload.
pub struct MediumInterface {}

impl MediumInterface {
    /// A surface with no media on either side.
    pub fn new_empty() -> Self {
        Self {  }
    }

    /// A surface that does not mark a medium transition.
    pub fn new_non_transition() -> Self {
        Self {  }
    }
}

} // verus!
