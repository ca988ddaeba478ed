//! Marker types naming the interpreter configurations of the toy language:
//! which stage it starts at and which value domain it computes in.

use vstd::prelude::*;

verus! {

/// Concrete execution at the source stage with 64-bit integer values.
#[derive(Clone, Copy, Debug, PartialEq, Eq, Structural)]
pub struct ToySourceConcrete;

/// Concrete execution at the lowered stage with 64-bit integer values.
#[derive(Clone, Copy, Debug, PartialEq, Eq, Structural)]
pub struct ToyLoweredConcrete;

/// A single constant-propagation run at the source stage.
#[derive(Clone, Copy, Debug, PartialEq, Eq, Structural)]
pub struct ToySourceConstProp;

/// A single constant-propagation run at the lowered stage.
#[derive(Clone, Copy, Debug, PartialEq, Eq, Structural)]
pub struct ToyLoweredConstProp;

/// The constant-propagation fixpoint over functions of both stages.
#[derive(Clone, Copy, Debug, PartialEq, Eq, Structural)]
pub struct ToyConstPropFunction;

/// The constant-propagation fixpoint pinned to the lowered stage.
#[derive(Clone, Copy, Debug, PartialEq, Eq, Structural)]
pub struct ToyConstPropLowered;

} // verus!
