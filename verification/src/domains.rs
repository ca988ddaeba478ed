//! The abstract value domains of the analyses: a type lattice and a
//! constant-propagation lattice, with the lattice operations and the
//! abstract transfer functions of every arithmetic, comparison, bitwise and
//! control-flow operation of the language.

use vstd::prelude::*;
use vstd::wrapping::i64_specs;

verus! {

/// What a literal of the arithmetic dialect carries, as far as the domains
/// read it: a 64-bit integer, or a literal of another arithmetic type.
#[derive(Clone, Copy, Debug, PartialEq, Eq, Structural)]
pub enum ArithLiteral {
    I64(i64),
    Other,
}

// ---------------------------------------------------------------------------
// ToyType
// ---------------------------------------------------------------------------

/// The type lattice used by type-propagating abstract interpretation:
/// `Bottom ⊑ I64, Bool ⊑ Top`, with `I64` and `Bool` incomparable.
#[derive(Clone, Copy, Debug, PartialEq, Eq, Structural)]
pub enum ToyType {
    Bottom,
    I64,
    Bool,
    Top,
}

impl ToyType {
    /// Least upper bound.
    pub open spec fn spec_join(self, other: ToyType) -> ToyType {
        if self == ToyType::Bottom {
            other
        } else if other == ToyType::Bottom {
            self
        } else if self == other {
            self
        } else {
            ToyType::Top
        }
    }

    /// Greatest lower bound.
    pub open spec fn spec_meet(self, other: ToyType) -> ToyType {
        if self == ToyType::Top {
            other
        } else if other == ToyType::Top {
            self
        } else if self == other {
            self
        } else {
            ToyType::Bottom
        }
    }

    /// The lattice order.
    pub open spec fn spec_le(self, other: ToyType) -> bool {
        other == ToyType::Top || self == ToyType::Bottom || self == other
    }

    pub fn join(&self, other: &ToyType) -> (r: ToyType)
        ensures
            r == self.spec_join(*other),
    {
        match (self, other) {
            (ToyType::Bottom, x) => *x,
            (x, ToyType::Bottom) => *x,
            (a, b) => {
                if *a == *b {
                    *a
                } else {
                    ToyType::Top
                }
            },
        }
    }

    pub fn meet(&self, other: &ToyType) -> (r: ToyType)
        ensures
            r == self.spec_meet(*other),
    {
        match (self, other) {
            (ToyType::Top, x) => *x,
            (x, ToyType::Top) => *x,
            (a, b) => {
                if *a == *b {
                    *a
                } else {
                    ToyType::Bottom
                }
            },
        }
    }

    pub fn is_subseteq(&self, other: &ToyType) -> (r: bool)
        ensures
            r == self.spec_le(*other),
    {
        let ordered = match (self, other) {
            (_, ToyType::Top) => true,
            (ToyType::Bottom, _) => true,
            _ => false,
        };
        ordered || *self == *other
    }

    pub fn bottom() -> (r: ToyType)
        ensures
            r == ToyType::Bottom,
    {
        ToyType::Bottom
    }

    /// Widening; the lattice has finite height, so it is the join.
    pub fn widen(&self, next: &ToyType) -> (r: ToyType)
        ensures
            r == self.spec_join(*next),
    {
        self.join(next)
    }

    /// A type never decides a branch.
    pub fn is_truthy(&self) -> (r: Option<bool>)
        ensures
            r is None,
    {
        None
    }

    /// A type never decides whether a loop goes on.
    pub fn loop_condition(&self, end: &ToyType) -> (r: Option<bool>)
        ensures
            r is None,
    {
        None
    }

    /// The induction variable's type after one step: the join of the
    /// variable's and the step's type.
    pub fn loop_step(&self, step: &ToyType) -> (r: Option<ToyType>)
        ensures
            r == Some(self.spec_join(*step)),
    {
        Some(self.join(step))
    }

    /// A tuple of typed values is typed `Top`.
    pub fn from_product(components: &[ToyType]) -> (r: ToyType)
        ensures
            r == ToyType::Top,
    {
        ToyType::Top
    }

    /// Every arithmetic literal is typed `I64`.
    pub fn from_arith(value: ArithLiteral) -> (r: ToyType)
        ensures
            r == ToyType::I64,
    {
        ToyType::I64
    }

    pub fn cmp_eq(&self, other: &ToyType) -> (r: ToyType)
        ensures
            r == ToyType::Bool,
    {
        ToyType::Bool
    }

    pub fn cmp_ne(&self, other: &ToyType) -> (r: ToyType)
        ensures
            r == ToyType::Bool,
    {
        ToyType::Bool
    }

    pub fn cmp_lt(&self, other: &ToyType) -> (r: ToyType)
        ensures
            r == ToyType::Bool,
    {
        ToyType::Bool
    }

    pub fn cmp_le(&self, other: &ToyType) -> (r: ToyType)
        ensures
            r == ToyType::Bool,
    {
        ToyType::Bool
    }

    pub fn cmp_gt(&self, other: &ToyType) -> (r: ToyType)
        ensures
            r == ToyType::Bool,
    {
        ToyType::Bool
    }

    pub fn cmp_ge(&self, other: &ToyType) -> (r: ToyType)
        ensures
            r == ToyType::Bool,
    {
        ToyType::Bool
    }

    pub fn add(self, rhs: ToyType) -> (r: ToyType)
        ensures
            r == self.spec_join(rhs),
    {
        self.join(&rhs)
    }

    pub fn sub(self, rhs: ToyType) -> (r: ToyType)
        ensures
            r == self.spec_join(rhs),
    {
        self.join(&rhs)
    }

    pub fn mul(self, rhs: ToyType) -> (r: ToyType)
        ensures
            r == self.spec_join(rhs),
    {
        self.join(&rhs)
    }

    pub fn neg(self) -> (r: ToyType)
        ensures
            r == self,
    {
        self
    }

    pub fn not(self) -> (r: ToyType)
        ensures
            r == self,
    {
        self
    }

    pub fn bitand(self, rhs: ToyType) -> (r: ToyType)
        ensures
            r == self.spec_join(rhs),
    {
        self.join(&rhs)
    }

    pub fn bitor(self, rhs: ToyType) -> (r: ToyType)
        ensures
            r == self.spec_join(rhs),
    {
        self.join(&rhs)
    }

    pub fn bitxor(self, rhs: ToyType) -> (r: ToyType)
        ensures
            r == self.spec_join(rhs),
    {
        self.join(&rhs)
    }

    /// Division keeps the dividend's type and never fails on types.
    pub fn checked_div(self, rhs: ToyType) -> (r: Option<ToyType>)
        ensures
            r == Some(self),
    {
        Some(self)
    }

    pub fn checked_rem(self, rhs: ToyType) -> (r: Option<ToyType>)
        ensures
            r == Some(self),
    {
        Some(self)
    }

    pub fn checked_shl(self, rhs: ToyType) -> (r: Option<ToyType>)
        ensures
            r == Some(self),
    {
        Some(self)
    }

    pub fn checked_shr(self, rhs: ToyType) -> (r: Option<ToyType>)
        ensures
            r == Some(self),
    {
        Some(self)
    }
}

// ---------------------------------------------------------------------------
// ConstProp
// ---------------------------------------------------------------------------

/// The constant-propagation lattice: `Bottom` (no value), `Const(n)` (exactly
/// `n`), `Top` (any value).
#[derive(Clone, Copy, Debug, PartialEq, Eq, Structural)]
pub enum ConstProp {
    Bottom,
    Const(i64),
    Top,
}

/// The 64-bit left shift of the language for an amount in `0..64`.
pub open spec fn shl_spec(a: i64, b: i64) -> i64 {
    a << (b as u32)
}

/// The 64-bit arithmetic right shift of the language for an amount in `0..64`.
pub open spec fn shr_spec(a: i64, b: i64) -> i64 {
    a >> (b as u32)
}

/// `1` when the comparison holds, `0` when it does not.
pub open spec fn flag(b: bool) -> i64 {
    if b {
        1
    } else {
        0
    }
}

impl ConstProp {
    /// The set of concrete values that `self` stands for.
    pub open spec fn concretizes(self, v: i64) -> bool {
        match self {
            ConstProp::Bottom => false,
            ConstProp::Const(c) => c == v,
            ConstProp::Top => true,
        }
    }

    pub open spec fn spec_join(self, other: ConstProp) -> ConstProp {
        match (self, other) {
            (ConstProp::Bottom, x) => x,
            (x, ConstProp::Bottom) => x,
            (ConstProp::Const(a), ConstProp::Const(b)) => if a == b {
                ConstProp::Const(a)
            } else {
                ConstProp::Top
            },
            _ => ConstProp::Top,
        }
    }

    pub open spec fn spec_meet(self, other: ConstProp) -> ConstProp {
        match (self, other) {
            (ConstProp::Top, x) => x,
            (x, ConstProp::Top) => x,
            (ConstProp::Const(a), ConstProp::Const(b)) => if a == b {
                ConstProp::Const(a)
            } else {
                ConstProp::Bottom
            },
            _ => ConstProp::Bottom,
        }
    }

    pub open spec fn spec_le(self, other: ConstProp) -> bool {
        other == ConstProp::Top || self == ConstProp::Bottom || self == other
    }

    /// A binary operation lifted to the lattice: exact on two constants,
    /// `Bottom` when either side is `Bottom`, `Top` otherwise.
    pub open spec fn lift2(self, rhs: ConstProp, f: spec_fn(i64, i64) -> i64) -> ConstProp {
        match (self, rhs) {
            (ConstProp::Const(a), ConstProp::Const(b)) => ConstProp::Const(f(a, b)),
            (ConstProp::Bottom, _) => ConstProp::Bottom,
            (_, ConstProp::Bottom) => ConstProp::Bottom,
            _ => ConstProp::Top,
        }
    }

    /// A unary operation lifted to the lattice.
    pub open spec fn lift1(self, f: spec_fn(i64) -> i64) -> ConstProp {
        match self {
            ConstProp::Const(n) => ConstProp::Const(f(n)),
            other => other,
        }
    }

    /// A partial binary operation lifted to the lattice; a failure on two
    /// constants is a failure of the whole operation.
    pub open spec fn lift2_partial(
        self,
        rhs: ConstProp,
        f: spec_fn(i64, i64) -> Option<i64>,
    ) -> Option<ConstProp> {
        match (self, rhs) {
            (ConstProp::Const(a), ConstProp::Const(b)) => match f(a, b) {
                Some(c) => Some(ConstProp::Const(c)),
                None => None,
            },
            (ConstProp::Bottom, _) => Some(ConstProp::Bottom),
            (_, ConstProp::Bottom) => Some(ConstProp::Bottom),
            _ => Some(ConstProp::Top),
        }
    }

    /// A shift lifted to the lattice: exact on two constants whose amount is
    /// in `0..64`; otherwise `Bottom` when either side is `Bottom`, else `Top`.
    pub open spec fn lift_shift(self, rhs: ConstProp, f: spec_fn(i64, i64) -> i64) -> Option<
        ConstProp,
    > {
        match (self, rhs) {
            (ConstProp::Const(a), ConstProp::Const(b)) if 0 <= b < 64 => Some(
                ConstProp::Const(f(a, b)),
            ),
            (ConstProp::Bottom, _) => Some(ConstProp::Bottom),
            (_, ConstProp::Bottom) => Some(ConstProp::Bottom),
            _ => Some(ConstProp::Top),
        }
    }

    pub open spec fn spec_add(self, rhs: ConstProp) -> ConstProp {
        self.lift2(rhs, |a: i64, b: i64| i64_specs::wrapping_add(a, b))
    }

    pub open spec fn spec_sub(self, rhs: ConstProp) -> ConstProp {
        self.lift2(rhs, |a: i64, b: i64| i64_specs::wrapping_sub(a, b))
    }

    pub open spec fn spec_mul(self, rhs: ConstProp) -> ConstProp {
        self.lift2(rhs, |a: i64, b: i64| i64_specs::wrapping_mul(a, b))
    }

    pub open spec fn spec_neg(self) -> ConstProp {
        self.lift1(|n: i64| i64_specs::wrapping_sub(0, n))
    }

    pub open spec fn spec_not(self) -> ConstProp {
        self.lift1(|n: i64| !n)
    }

    pub open spec fn spec_bitand(self, rhs: ConstProp) -> ConstProp {
        self.lift2(rhs, |a: i64, b: i64| a & b)
    }

    pub open spec fn spec_bitor(self, rhs: ConstProp) -> ConstProp {
        self.lift2(rhs, |a: i64, b: i64| a | b)
    }

    pub open spec fn spec_bitxor(self, rhs: ConstProp) -> ConstProp {
        self.lift2(rhs, |a: i64, b: i64| a ^ b)
    }

    pub open spec fn spec_checked_div(self, rhs: ConstProp) -> Option<ConstProp> {
        self.lift2_partial(rhs, |a: i64, b: i64| a.checked_div(b))
    }

    pub open spec fn spec_checked_rem(self, rhs: ConstProp) -> Option<ConstProp> {
        self.lift2_partial(rhs, |a: i64, b: i64| a.checked_rem(b))
    }

    pub open spec fn spec_checked_shl(self, rhs: ConstProp) -> Option<ConstProp> {
        self.lift_shift(rhs, |a: i64, b: i64| shl_spec(a, b))
    }

    pub open spec fn spec_checked_shr(self, rhs: ConstProp) -> Option<ConstProp> {
        self.lift_shift(rhs, |a: i64, b: i64| shr_spec(a, b))
    }

    pub open spec fn spec_cmp_eq(self, rhs: ConstProp) -> ConstProp {
        self.lift2(rhs, |a: i64, b: i64| flag(a == b))
    }

    pub open spec fn spec_cmp_ne(self, rhs: ConstProp) -> ConstProp {
        self.lift2(rhs, |a: i64, b: i64| flag(a != b))
    }

    pub open spec fn spec_cmp_lt(self, rhs: ConstProp) -> ConstProp {
        self.lift2(rhs, |a: i64, b: i64| flag(a < b))
    }

    pub open spec fn spec_cmp_le(self, rhs: ConstProp) -> ConstProp {
        self.lift2(rhs, |a: i64, b: i64| flag(a <= b))
    }

    pub open spec fn spec_cmp_gt(self, rhs: ConstProp) -> ConstProp {
        self.lift2(rhs, |a: i64, b: i64| flag(a > b))
    }

    pub open spec fn spec_cmp_ge(self, rhs: ConstProp) -> ConstProp {
        self.lift2(rhs, |a: i64, b: i64| flag(a >= b))
    }

    /// Whether the value decides a branch: a constant does (non-zero is
    /// true), `Bottom` and `Top` do not.
    pub open spec fn spec_is_truthy(self) -> Option<bool> {
        match self {
            ConstProp::Const(n) => Some(n != 0),
            _ => None,
        }
    }

    /// Whether a counted loop goes on: decided only when the induction
    /// variable and the bound are both constants.
    pub open spec fn spec_loop_condition(self, end: ConstProp) -> Option<bool> {
        match (self, end) {
            (ConstProp::Const(iv), ConstProp::Const(e)) => Some(iv < e),
            _ => None,
        }
    }

    pub fn join(&self, other: &ConstProp) -> (r: ConstProp)
        ensures
            r == self.spec_join(*other),
    {
        match (self, other) {
            (ConstProp::Bottom, x) => *x,
            (x, ConstProp::Bottom) => *x,
            (ConstProp::Const(a), ConstProp::Const(b)) => {
                if *a == *b {
                    ConstProp::Const(*a)
                } else {
                    ConstProp::Top
                }
            },
            _ => ConstProp::Top,
        }
    }

    pub fn meet(&self, other: &ConstProp) -> (r: ConstProp)
        ensures
            r == self.spec_meet(*other),
    {
        match (self, other) {
            (ConstProp::Top, x) => *x,
            (x, ConstProp::Top) => *x,
            (ConstProp::Const(a), ConstProp::Const(b)) => {
                if *a == *b {
                    ConstProp::Const(*a)
                } else {
                    ConstProp::Bottom
                }
            },
            _ => ConstProp::Bottom,
        }
    }

    pub fn is_subseteq(&self, other: &ConstProp) -> (r: bool)
        ensures
            r == self.spec_le(*other),
    {
        let ordered = match (self, other) {
            (_, ConstProp::Top) => true,
            (ConstProp::Bottom, _) => true,
            _ => false,
        };
        ordered || *self == *other
    }

    pub fn bottom() -> (r: ConstProp)
        ensures
            r == ConstProp::Bottom,
    {
        ConstProp::Bottom
    }

    /// Widening; constants form a lattice of height two, so it is the join.
    pub fn widen(&self, next: &ConstProp) -> (r: ConstProp)
        ensures
            r == self.spec_join(*next),
    {
        self.join(next)
    }

    pub fn is_truthy(&self) -> (r: Option<bool>)
        ensures
            r == self.spec_is_truthy(),
    {
        match self {
            ConstProp::Const(0) => Some(false),
            ConstProp::Const(_) => Some(true),
            _ => None,
        }
    }

    pub fn loop_condition(&self, end: &ConstProp) -> (r: Option<bool>)
        ensures
            r == self.spec_loop_condition(*end),
    {
        match (self, end) {
            (ConstProp::Const(iv), ConstProp::Const(e)) => Some(*iv < *e),
            _ => None,
        }
    }

    /// The induction variable after one step of `step`.
    pub fn loop_step(&self, step: &ConstProp) -> (r: Option<ConstProp>)
        ensures
            r == Some(self.spec_add(*step)),
    {
        match (self, step) {
            (ConstProp::Const(iv), ConstProp::Const(s)) => Some(ConstProp::Const(iv.wrapping_add(*s))),
            (ConstProp::Bottom, _) => Some(ConstProp::Bottom),
            (_, ConstProp::Bottom) => Some(ConstProp::Bottom),
            _ => Some(ConstProp::Top),
        }
    }

    /// A tuple of values is not tracked: it stands for any value.
    pub fn from_product(components: &[ConstProp]) -> (r: ConstProp)
        ensures
            r == ConstProp::Top,
    {
        ConstProp::Top
    }

    /// A 64-bit literal is that constant; any other literal is `Top`.
    pub fn from_arith(value: ArithLiteral) -> (r: ConstProp)
        ensures
            r == (match value {
                ArithLiteral::I64(n) => ConstProp::Const(n),
                ArithLiteral::Other => ConstProp::Top,
            }),
    {
        match value {
            ArithLiteral::I64(n) => ConstProp::Const(n),
            ArithLiteral::Other => ConstProp::Top,
        }
    }

    pub fn cmp_eq(&self, other: &ConstProp) -> (r: ConstProp)
        ensures
            r == self.spec_cmp_eq(*other),
    {
        match (self, other) {
            (ConstProp::Const(a), ConstProp::Const(b)) => ConstProp::Const(
                if *a == *b {
                    1
                } else {
                    0
                },
            ),
            (ConstProp::Bottom, _) => ConstProp::Bottom,
            (_, ConstProp::Bottom) => ConstProp::Bottom,
            _ => ConstProp::Top,
        }
    }

    pub fn cmp_ne(&self, other: &ConstProp) -> (r: ConstProp)
        ensures
            r == self.spec_cmp_ne(*other),
    {
        match (self, other) {
            (ConstProp::Const(a), ConstProp::Const(b)) => ConstProp::Const(
                if *a != *b {
                    1
                } else {
                    0
                },
            ),
            (ConstProp::Bottom, _) => ConstProp::Bottom,
            (_, ConstProp::Bottom) => ConstProp::Bottom,
            _ => ConstProp::Top,
        }
    }

    pub fn cmp_lt(&self, other: &ConstProp) -> (r: ConstProp)
        ensures
            r == self.spec_cmp_lt(*other),
    {
        match (self, other) {
            (ConstProp::Const(a), ConstProp::Const(b)) => ConstProp::Const(
                if *a < *b {
                    1
                } else {
                    0
                },
            ),
            (ConstProp::Bottom, _) => ConstProp::Bottom,
            (_, ConstProp::Bottom) => ConstProp::Bottom,
            _ => ConstProp::Top,
        }
    }

    pub fn cmp_le(&self, other: &ConstProp) -> (r: ConstProp)
        ensures
            r == self.spec_cmp_le(*other),
    {
        match (self, other) {
            (ConstProp::Const(a), ConstProp::Const(b)) => ConstProp::Const(
                if *a <= *b {
                    1
                } else {
                    0
                },
            ),
            (ConstProp::Bottom, _) => ConstProp::Bottom,
            (_, ConstProp::Bottom) => ConstProp::Bottom,
            _ => ConstProp::Top,
        }
    }

    pub fn cmp_gt(&self, other: &ConstProp) -> (r: ConstProp)
        ensures
            r == self.spec_cmp_gt(*other),
    {
        match (self, other) {
            (ConstProp::Const(a), ConstProp::Const(b)) => ConstProp::Const(
                if *a > *b {
                    1
                } else {
                    0
                },
            ),
            (ConstProp::Bottom, _) => ConstProp::Bottom,
            (_, ConstProp::Bottom) => ConstProp::Bottom,
            _ => ConstProp::Top,
        }
    }

    pub fn cmp_ge(&self, other: &ConstProp) -> (r: ConstProp)
        ensures
            r == self.spec_cmp_ge(*other),
    {
        match (self, other) {
            (ConstProp::Const(a), ConstProp::Const(b)) => ConstProp::Const(
                if *a >= *b {
                    1
                } else {
                    0
                },
            ),
            (ConstProp::Bottom, _) => ConstProp::Bottom,
            (_, ConstProp::Bottom) => ConstProp::Bottom,
            _ => ConstProp::Top,
        }
    }

    pub fn add(self, rhs: ConstProp) -> (r: ConstProp)
        ensures
            r == self.spec_add(rhs),
    {
        match (self, rhs) {
            (ConstProp::Const(a), ConstProp::Const(b)) => ConstProp::Const(a.wrapping_add(b)),
            (ConstProp::Bottom, _) => ConstProp::Bottom,
            (_, ConstProp::Bottom) => ConstProp::Bottom,
            _ => ConstProp::Top,
        }
    }

    pub fn sub(self, rhs: ConstProp) -> (r: ConstProp)
        ensures
            r == self.spec_sub(rhs),
    {
        match (self, rhs) {
            (ConstProp::Const(a), ConstProp::Const(b)) => ConstProp::Const(a.wrapping_sub(b)),
            (ConstProp::Bottom, _) => ConstProp::Bottom,
            (_, ConstProp::Bottom) => ConstProp::Bottom,
            _ => ConstProp::Top,
        }
    }

    pub fn mul(self, rhs: ConstProp) -> (r: ConstProp)
        ensures
            r == self.spec_mul(rhs),
    {
        match (self, rhs) {
            (ConstProp::Const(a), ConstProp::Const(b)) => ConstProp::Const(a.wrapping_mul(b)),
            (ConstProp::Bottom, _) => ConstProp::Bottom,
            (_, ConstProp::Bottom) => ConstProp::Bottom,
            _ => ConstProp::Top,
        }
    }

    /// Two's-complement negation, wrapping `i64::MIN` to itself.
    pub fn neg(self) -> (r: ConstProp)
        ensures
            r == self.spec_neg(),
    {
        match self {
            ConstProp::Const(n) => ConstProp::Const(0i64.wrapping_sub(n)),
            other => other,
        }
    }

    pub fn not(self) -> (r: ConstProp)
        ensures
            r == self.spec_not(),
    {
        match self {
            ConstProp::Const(n) => ConstProp::Const(!n),
            other => other,
        }
    }

    pub fn bitand(self, rhs: ConstProp) -> (r: ConstProp)
        ensures
            r == self.spec_bitand(rhs),
    {
        match (self, rhs) {
            (ConstProp::Const(a), ConstProp::Const(b)) => ConstProp::Const(a & b),
            (ConstProp::Bottom, _) => ConstProp::Bottom,
            (_, ConstProp::Bottom) => ConstProp::Bottom,
            _ => ConstProp::Top,
        }
    }

    pub fn bitor(self, rhs: ConstProp) -> (r: ConstProp)
        ensures
            r == self.spec_bitor(rhs),
    {
        match (self, rhs) {
            (ConstProp::Const(a), ConstProp::Const(b)) => ConstProp::Const(a | b),
            (ConstProp::Bottom, _) => ConstProp::Bottom,
            (_, ConstProp::Bottom) => ConstProp::Bottom,
            _ => ConstProp::Top,
        }
    }

    pub fn bitxor(self, rhs: ConstProp) -> (r: ConstProp)
        ensures
            r == self.spec_bitxor(rhs),
    {
        match (self, rhs) {
            (ConstProp::Const(a), ConstProp::Const(b)) => ConstProp::Const(a ^ b),
            (ConstProp::Bottom, _) => ConstProp::Bottom,
            (_, ConstProp::Bottom) => ConstProp::Bottom,
            _ => ConstProp::Top,
        }
    }

    /// Truncating division; `None` for a constant divisor of zero and for
    /// `i64::MIN / -1`.
    pub fn checked_div(self, rhs: ConstProp) -> (r: Option<ConstProp>)
        ensures
            r == self.spec_checked_div(rhs),
    {
        match (self, rhs) {
            (ConstProp::Const(a), ConstProp::Const(b)) => match a.checked_div(b) {
                Some(c) => Some(ConstProp::Const(c)),
                None => None,
            },
            (ConstProp::Bottom, _) => Some(ConstProp::Bottom),
            (_, ConstProp::Bottom) => Some(ConstProp::Bottom),
            _ => Some(ConstProp::Top),
        }
    }

    pub fn checked_rem(self, rhs: ConstProp) -> (r: Option<ConstProp>)
        ensures
            r == self.spec_checked_rem(rhs),
    {
        match (self, rhs) {
            (ConstProp::Const(a), ConstProp::Const(b)) => match a.checked_rem(b) {
                Some(c) => Some(ConstProp::Const(c)),
                None => None,
            },
            (ConstProp::Bottom, _) => Some(ConstProp::Bottom),
            (_, ConstProp::Bottom) => Some(ConstProp::Bottom),
            _ => Some(ConstProp::Top),
        }
    }

    pub fn checked_shl(self, rhs: ConstProp) -> (r: Option<ConstProp>)
        ensures
            r == self.spec_checked_shl(rhs),
    {
        match (self, rhs) {
            (ConstProp::Const(a), ConstProp::Const(b)) if 0 <= b && b < 64 => Some(
                ConstProp::Const(a << (b as u32)),
            ),
            (ConstProp::Bottom, _) => Some(ConstProp::Bottom),
            (_, ConstProp::Bottom) => Some(ConstProp::Bottom),
            _ => Some(ConstProp::Top),
        }
    }

    pub fn checked_shr(self, rhs: ConstProp) -> (r: Option<ConstProp>)
        ensures
            r == self.spec_checked_shr(rhs),
    {
        match (self, rhs) {
            (ConstProp::Const(a), ConstProp::Const(b)) if 0 <= b && b < 64 => Some(
                ConstProp::Const(a >> (b as u32)),
            ),
            (ConstProp::Bottom, _) => Some(ConstProp::Bottom),
            (_, ConstProp::Bottom) => Some(ConstProp::Bottom),
            _ => Some(ConstProp::Top),
        }
    }
}

} // verus!
