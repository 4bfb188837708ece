use vstd::prelude::*;

verus! {

/// How a surface reflects light.
#[derive(Debug, Clone, Copy, PartialEq, Eq, Structural)]
pub enum Kind {
    /// No reflection model chosen.
    Unspecified,
    /// A constant share of the light is reflected, tinted by the surface.
    Metal,
    /// The reflected share grows towards grazing angles, untinted.
    Dielectric,
}

impl Default for Kind {
    fn default() -> (r: Kind)
        ensures
            r == Kind::Unspecified,
    {
        Kind::Unspecified
    }
}

} // verus!
