use vstd::prelude::*;

verus! {

/// The unit a width is given in.
#[derive(Clone, Copy, Debug, PartialEq, Eq, Structural)]
pub enum WidthType {
    /// Twentieths of a point.
    DXA,
}

impl WidthType {
    /// The schema token for the unit.
    pub fn token(&self) -> (r: String)
        ensures
            r@ == "dxa"@,
    {
        match self {
            WidthType::DXA => String::from_str("dxa"),
        }
    }
}

} // verus!
