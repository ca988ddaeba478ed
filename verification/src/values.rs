//! The value interfaces the interpreters are generic over: `ToyVal` for the
//! operations every value domain provides, `AbstractToyVal` for the lattice
//! structure an abstract domain adds. Both domains of this crate implement
//! them.

use vstd::prelude::*;
use crate::domains::{ArithLiteral, ConstProp, ToyType};

verus! {

/// The operations of the language on a value domain.
pub trait ToyVal: Sized + Copy {
    fn add(self, rhs: Self) -> Self;

    fn sub(self, rhs: Self) -> Self;

    fn mul(self, rhs: Self) -> Self;

    fn neg(self) -> Self;

    fn not(self) -> Self;

    fn bitand(self, rhs: Self) -> Self;

    fn bitor(self, rhs: Self) -> Self;

    fn bitxor(self, rhs: Self) -> Self;

    fn checked_div(self, rhs: Self) -> Option<Self>;

    fn checked_rem(self, rhs: Self) -> Option<Self>;

    fn checked_shl(self, rhs: Self) -> Option<Self>;

    fn checked_shr(self, rhs: Self) -> Option<Self>;

    fn cmp_eq(&self, other: &Self) -> Self;

    fn cmp_ne(&self, other: &Self) -> Self;

    fn cmp_lt(&self, other: &Self) -> Self;

    fn cmp_le(&self, other: &Self) -> Self;

    fn cmp_gt(&self, other: &Self) -> Self;

    fn cmp_ge(&self, other: &Self) -> Self;

    fn is_truthy(&self) -> Option<bool>;

    fn loop_condition(&self, end: &Self) -> Option<bool>;

    fn loop_step(&self, step: &Self) -> Option<Self>;

    fn from_arith(value: ArithLiteral) -> Self;

    fn from_product(components: &[Self]) -> Self;
}

/// A value domain that is a lattice, as abstract interpretation needs it.
pub trait AbstractToyVal: ToyVal {
    /// The lattice order.
    spec fn spec_le(&self, other: &Self) -> bool;

    /// The least element.
    spec fn spec_bottom() -> Self;

    /// The least upper bound.
    spec fn spec_join(&self, other: &Self) -> Self;

    /// The order is a partial order with `spec_bottom` least.
    proof fn lemma_order(a: Self, b: Self, c: Self)
        ensures
            a.spec_le(&a),
            a.spec_le(&b) && b.spec_le(&a) ==> a == b,
            a.spec_le(&b) && b.spec_le(&c) ==> a.spec_le(&c),
            Self::spec_bottom().spec_le(&a),
    ;

    /// The join is the least upper bound.
    proof fn lemma_join_lub(a: Self, b: Self, c: Self)
        ensures
            a.spec_le(&a.spec_join(&b)),
            b.spec_le(&a.spec_join(&b)),
            a.spec_le(&c) && b.spec_le(&c) ==> a.spec_join(&b).spec_le(&c),
    ;

    fn is_subseteq(&self, other: &Self) -> (r: bool)
        ensures
            r == self.spec_le(other),
    ;

    fn bottom() -> (r: Self)
        ensures
            r == Self::spec_bottom(),
    ;

    fn join(&self, other: &Self) -> (r: Self)
        ensures
            r == self.spec_join(other),
    ;

    fn widen(&self, next: &Self) -> (r: Self)
        ensures
            self.spec_le(&r),
            next.spec_le(&r),
    ;
}

impl ToyVal for ToyType {
    fn add(self, rhs: Self) -> (r: Self)
        ensures
            r == ToyType::spec_join(self, rhs),
    {
        ToyType::add(self, rhs)
    }

    fn sub(self, rhs: Self) -> (r: Self)
        ensures
            r == ToyType::spec_join(self, rhs),
    {
        ToyType::sub(self, rhs)
    }

    fn mul(self, rhs: Self) -> (r: Self)
        ensures
            r == ToyType::spec_join(self, rhs),
    {
        ToyType::mul(self, rhs)
    }

    fn neg(self) -> (r: Self)
        ensures
            r == self,
    {
        ToyType::neg(self)
    }

    fn not(self) -> (r: Self)
        ensures
            r == self,
    {
        ToyType::not(self)
    }

    fn bitand(self, rhs: Self) -> (r: Self)
        ensures
            r == ToyType::spec_join(self, rhs),
    {
        ToyType::bitand(self, rhs)
    }

    fn bitor(self, rhs: Self) -> (r: Self)
        ensures
            r == ToyType::spec_join(self, rhs),
    {
        ToyType::bitor(self, rhs)
    }

    fn bitxor(self, rhs: Self) -> (r: Self)
        ensures
            r == ToyType::spec_join(self, rhs),
    {
        ToyType::bitxor(self, rhs)
    }

    fn checked_div(self, rhs: Self) -> (r: Option<Self>)
        ensures
            r == Some(self),
    {
        ToyType::checked_div(self, rhs)
    }

    fn checked_rem(self, rhs: Self) -> (r: Option<Self>)
        ensures
            r == Some(self),
    {
        ToyType::checked_rem(self, rhs)
    }

    fn checked_shl(self, rhs: Self) -> (r: Option<Self>)
        ensures
            r == Some(self),
    {
        ToyType::checked_shl(self, rhs)
    }

    fn checked_shr(self, rhs: Self) -> (r: Option<Self>)
        ensures
            r == Some(self),
    {
        ToyType::checked_shr(self, rhs)
    }

    fn cmp_eq(&self, other: &Self) -> (r: Self)
        ensures
            r == ToyType::Bool,
    {
        ToyType::cmp_eq(self, other)
    }

    fn cmp_ne(&self, other: &Self) -> (r: Self)
        ensures
            r == ToyType::Bool,
    {
        ToyType::cmp_ne(self, other)
    }

    fn cmp_lt(&self, other: &Self) -> (r: Self)
        ensures
            r == ToyType::Bool,
    {
        ToyType::cmp_lt(self, other)
    }

    fn cmp_le(&self, other: &Self) -> (r: Self)
        ensures
            r == ToyType::Bool,
    {
        ToyType::cmp_le(self, other)
    }

    fn cmp_gt(&self, other: &Self) -> (r: Self)
        ensures
            r == ToyType::Bool,
    {
        ToyType::cmp_gt(self, other)
    }

    fn cmp_ge(&self, other: &Self) -> (r: Self)
        ensures
            r == ToyType::Bool,
    {
        ToyType::cmp_ge(self, other)
    }

    fn is_truthy(&self) -> (r: Option<bool>)
        ensures
            r == None::<bool>,
    {
        ToyType::is_truthy(self)
    }

    fn loop_condition(&self, end: &Self) -> (r: Option<bool>)
        ensures
            r == None::<bool>,
    {
        ToyType::loop_condition(self, end)
    }

    fn loop_step(&self, step: &Self) -> (r: Option<Self>)
        ensures
            r == Some(ToyType::spec_join(*self, *step)),
    {
        ToyType::loop_step(self, step)
    }

    fn from_arith(value: ArithLiteral) -> (r: Self)
        ensures
            r == ToyType::I64,
    {
        ToyType::from_arith(value)
    }

    fn from_product(components: &[Self]) -> (r: Self)
        ensures
            r == ToyType::Top,
    {
        ToyType::from_product(components)
    }
}

impl AbstractToyVal for ToyType {
    open spec fn spec_le(&self, other: &Self) -> bool {
        ToyType::spec_le(*self, *other)
    }

    open spec fn spec_bottom() -> Self {
        ToyType::Bottom
    }

    open spec fn spec_join(&self, other: &Self) -> Self {
        ToyType::spec_join(*self, *other)
    }

    proof fn lemma_order(a: Self, b: Self, c: Self) {
    }

    proof fn lemma_join_lub(a: Self, b: Self, c: Self) {
    }

    fn is_subseteq(&self, other: &Self) -> (r: bool) {
        ToyType::is_subseteq(self, other)
    }

    fn bottom() -> (r: Self) {
        ToyType::bottom()
    }

    fn join(&self, other: &Self) -> (r: Self) {
        ToyType::join(self, other)
    }

    fn widen(&self, next: &Self) -> (r: Self)
        ensures
            r == ToyType::spec_join(*self, *next),
    {
        ToyType::widen(self, next)
    }
}

impl ToyVal for ConstProp {
    fn add(self, rhs: Self) -> (r: Self)
        ensures
            r == self.spec_add(rhs),
    {
        ConstProp::add(self, rhs)
    }

    fn sub(self, rhs: Self) -> (r: Self)
        ensures
            r == self.spec_sub(rhs),
    {
        ConstProp::sub(self, rhs)
    }

    fn mul(self, rhs: Self) -> (r: Self)
        ensures
            r == self.spec_mul(rhs),
    {
        ConstProp::mul(self, rhs)
    }

    fn neg(self) -> (r: Self)
        ensures
            r == self.spec_neg(),
    {
        ConstProp::neg(self)
    }

    fn not(self) -> (r: Self)
        ensures
            r == self.spec_not(),
    {
        ConstProp::not(self)
    }

    fn bitand(self, rhs: Self) -> (r: Self)
        ensures
            r == self.spec_bitand(rhs),
    {
        ConstProp::bitand(self, rhs)
    }

    fn bitor(self, rhs: Self) -> (r: Self)
        ensures
            r == self.spec_bitor(rhs),
    {
        ConstProp::bitor(self, rhs)
    }

    fn bitxor(self, rhs: Self) -> (r: Self)
        ensures
            r == self.spec_bitxor(rhs),
    {
        ConstProp::bitxor(self, rhs)
    }

    fn checked_div(self, rhs: Self) -> (r: Option<Self>)
        ensures
            r == self.spec_checked_div(rhs),
    {
        ConstProp::checked_div(self, rhs)
    }

    fn checked_rem(self, rhs: Self) -> (r: Option<Self>)
        ensures
            r == self.spec_checked_rem(rhs),
    {
        ConstProp::checked_rem(self, rhs)
    }

    fn checked_shl(self, rhs: Self) -> (r: Option<Self>)
        ensures
            r == self.spec_checked_shl(rhs),
    {
        ConstProp::checked_shl(self, rhs)
    }

    fn checked_shr(self, rhs: Self) -> (r: Option<Self>)
        ensures
            r == self.spec_checked_shr(rhs),
    {
        ConstProp::checked_shr(self, rhs)
    }

    fn cmp_eq(&self, other: &Self) -> (r: Self)
        ensures
            r == self.spec_cmp_eq(*other),
    {
        ConstProp::cmp_eq(self, other)
    }

    fn cmp_ne(&self, other: &Self) -> (r: Self)
        ensures
            r == self.spec_cmp_ne(*other),
    {
        ConstProp::cmp_ne(self, other)
    }

    fn cmp_lt(&self, other: &Self) -> (r: Self)
        ensures
            r == self.spec_cmp_lt(*other),
    {
        ConstProp::cmp_lt(self, other)
    }

    fn cmp_le(&self, other: &Self) -> (r: Self)
        ensures
            r == self.spec_cmp_le(*other),
    {
        ConstProp::cmp_le(self, other)
    }

    fn cmp_gt(&self, other: &Self) -> (r: Self)
        ensures
            r == self.spec_cmp_gt(*other),
    {
        ConstProp::cmp_gt(self, other)
    }

    fn cmp_ge(&self, other: &Self) -> (r: Self)
        ensures
            r == self.spec_cmp_ge(*other),
    {
        ConstProp::cmp_ge(self, other)
    }

    fn is_truthy(&self) -> (r: Option<bool>)
        ensures
            r == self.spec_is_truthy(),
    {
        ConstProp::is_truthy(self)
    }

    fn loop_condition(&self, end: &Self) -> (r: Option<bool>)
        ensures
            r == self.spec_loop_condition(*end),
    {
        ConstProp::loop_condition(self, end)
    }

    fn loop_step(&self, step: &Self) -> (r: Option<Self>)
        ensures
            r == Some(self.spec_add(*step)),
    {
        ConstProp::loop_step(self, step)
    }

    fn from_arith(value: ArithLiteral) -> (r: Self)
        ensures
            r == (match value {
                ArithLiteral::I64(n) => ConstProp::Const(n),
                ArithLiteral::Other => ConstProp::Top,
            }),
    {
        ConstProp::from_arith(value)
    }

    fn from_product(components: &[Self]) -> (r: Self)
        ensures
            r == ConstProp::Top,
    {
        ConstProp::from_product(components)
    }
}

impl AbstractToyVal for ConstProp {
    open spec fn spec_le(&self, other: &Self) -> bool {
        ConstProp::spec_le(*self, *other)
    }

    open spec fn spec_bottom() -> Self {
        ConstProp::Bottom
    }

    open spec fn spec_join(&self, other: &Self) -> Self {
        ConstProp::spec_join(*self, *other)
    }

    proof fn lemma_order(a: Self, b: Self, c: Self) {
    }

    proof fn lemma_join_lub(a: Self, b: Self, c: Self) {
    }

    fn is_subseteq(&self, other: &Self) -> (r: bool) {
        ConstProp::is_subseteq(self, other)
    }

    fn bottom() -> (r: Self) {
        ConstProp::bottom()
    }

    fn join(&self, other: &Self) -> (r: Self) {
        ConstProp::join(self, other)
    }

    fn widen(&self, next: &Self) -> (r: Self)
        ensures
            r == ConstProp::spec_join(*self, *next),
    {
        ConstProp::widen(self, next)
    }
}

} // verus!
