use vstd::prelude::*;

verus! {

/// The unit sphere: radius 1, centred at the world origin.
///
/// It carries no state; two spheres are always equal, which is what an
/// intersection record compares when it names the shape that produced it.
#[derive(Clone, Copy, Debug, PartialEq, Eq)]
pub struct Sphere {}

} // verus!
