//! Textures evaluated at a surface interaction. The closed set holds the
//! constant scalar and the solid color.

use vstd::prelude::*;

use crate::color::Color3;
use crate::fixed::Fx;
use crate::interaction::SurfaceInteraction;

verus! {

/// A constant scalar field.
pub struct ConstantValue {
    pub val: Fx,
}

/// A single-color field.
pub struct SolidColor {
    pub color: Color3,
}

/// A scalar texture.
pub enum ScalarTexture {
    Constant(ConstantValue),
}

impl ScalarTexture {
    /// The scalar this texture takes at an interaction.
    pub open spec fn spec_eval(self) -> Fx {
        match self {
            ScalarTexture::Constant(c) => c.val,
        }
    }

    /// Evaluates the texture at the interaction.
    pub fn eval(&self, _inter: &SurfaceInteraction) -> (r: Fx)
        ensures
            r == self.spec_eval(),
    {
        match self {
            ScalarTexture::Constant(c) => c.val,
        }
    }
}

/// A color texture.
pub enum ColorTexture {
    Solid(SolidColor),
}

impl ColorTexture {
    /// The color this texture takes at an interaction.
    pub open spec fn spec_eval(self) -> Color3 {
        match self {
            ColorTexture::Solid(s) => s.color,
        }
    }

    /// Evaluates the texture at the interaction.
    pub fn eval(&self, _inter: &SurfaceInteraction) -> (r: Color3)
        ensures
            r == self.spec_eval(),
    {
        match self {
            ColorTexture::Solid(s) => s.color,
        }
    }
}

} // verus!
