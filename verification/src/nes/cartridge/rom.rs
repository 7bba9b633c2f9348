use vstd::prelude::*;

verus! {

/// How the four logical nametables map onto the console's two physical ones.
#[derive(Clone, Copy, Debug, PartialEq, Eq, Structural)]
pub enum Mirroring {
    Horizontal,
    Vertical,
    FourScreen,
    Single0,
    Single1,
}

} // verus!
