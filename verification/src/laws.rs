//! The laws of the two value domains: each is a lattice whose order agrees
//! with its join and meet, widening over-approximates both operands, and the
//! constant-propagation transfer functions are sound with respect to 64-bit
//! arithmetic and monotone in their operands.

use vstd::prelude::*;
use vstd::wrapping::i64_specs;
use crate::domains::{ArithLiteral, ConstProp, ToyType, flag, shl_spec, shr_spec};

verus! {

// ---------------------------------------------------------------------------
// ToyType
// ---------------------------------------------------------------------------

/// The join of types is commutative, associative and idempotent.
pub proof fn toytype_join_semilattice(a: ToyType, b: ToyType, c: ToyType)
    ensures
        a.spec_join(b) == b.spec_join(a),
        a.spec_join(b.spec_join(c)) == a.spec_join(b).spec_join(c),
        a.spec_join(a) == a,
{
}

/// The meet of types is commutative, associative and idempotent.
pub proof fn toytype_meet_semilattice(a: ToyType, b: ToyType, c: ToyType)
    ensures
        a.spec_meet(b) == b.spec_meet(a),
        a.spec_meet(b.spec_meet(c)) == a.spec_meet(b).spec_meet(c),
        a.spec_meet(a) == a,
{
}

/// Join and meet absorb each other.
pub proof fn toytype_absorption(a: ToyType, b: ToyType)
    ensures
        a.spec_join(a.spec_meet(b)) == a,
        a.spec_meet(a.spec_join(b)) == a,
{
}

/// `is_subseteq` is a partial order with `Bottom` least and `Top` greatest.
pub proof fn toytype_order(a: ToyType, b: ToyType, c: ToyType)
    ensures
        a.spec_le(a),
        a.spec_le(b) && b.spec_le(a) ==> a == b,
        a.spec_le(b) && b.spec_le(c) ==> a.spec_le(c),
        ToyType::Bottom.spec_le(a),
        a.spec_le(ToyType::Top),
{
}

/// The order agrees with the join and the meet: `a ⊑ b` exactly when
/// `a ⊔ b = b`, exactly when `a ⊓ b = a`.
pub proof fn toytype_order_agrees(a: ToyType, b: ToyType)
    ensures
        a.spec_le(b) <==> a.spec_join(b) == b,
        a.spec_le(b) <==> a.spec_meet(b) == a,
{
}

/// The join is the least upper bound and the meet the greatest lower bound.
pub proof fn toytype_bounds(a: ToyType, b: ToyType, c: ToyType)
    ensures
        a.spec_le(a.spec_join(b)),
        b.spec_le(a.spec_join(b)),
        a.spec_le(c) && b.spec_le(c) ==> a.spec_join(b).spec_le(c),
        a.spec_meet(b).spec_le(a),
        a.spec_meet(b).spec_le(b),
        c.spec_le(a) && c.spec_le(b) ==> c.spec_le(a.spec_meet(b)),
{
}

/// The join (and so every binary transfer function of the type domain) is
/// monotone in both operands.
pub proof fn toytype_join_monotone(a: ToyType, a2: ToyType, b: ToyType, b2: ToyType)
    requires
        a.spec_le(a2),
        b.spec_le(b2),
    ensures
        a.spec_join(b).spec_le(a2.spec_join(b2)),
{
}

// ---------------------------------------------------------------------------
// ConstProp: lattice
// ---------------------------------------------------------------------------

/// The join of constants is commutative, associative and idempotent, with
/// `Bottom` as its unit and `Top` absorbing.
pub proof fn constprop_join_semilattice(a: ConstProp, b: ConstProp, c: ConstProp)
    ensures
        a.spec_join(b) == b.spec_join(a),
        a.spec_join(b.spec_join(c)) == a.spec_join(b).spec_join(c),
        a.spec_join(a) == a,
        ConstProp::Bottom.spec_join(a) == a,
        ConstProp::Top.spec_join(a) == ConstProp::Top,
{
}

/// The meet of constants is commutative, associative and idempotent, with
/// `Top` as its unit and `Bottom` absorbing.
pub proof fn constprop_meet_semilattice(a: ConstProp, b: ConstProp, c: ConstProp)
    ensures
        a.spec_meet(b) == b.spec_meet(a),
        a.spec_meet(b.spec_meet(c)) == a.spec_meet(b).spec_meet(c),
        a.spec_meet(a) == a,
        ConstProp::Top.spec_meet(a) == a,
        ConstProp::Bottom.spec_meet(a) == ConstProp::Bottom,
{
}

/// Join and meet absorb each other.
pub proof fn constprop_absorption(a: ConstProp, b: ConstProp)
    ensures
        a.spec_join(a.spec_meet(b)) == a,
        a.spec_meet(a.spec_join(b)) == a,
{
}

/// `is_subseteq` is a partial order with `Bottom` least and `Top` greatest.
pub proof fn constprop_order(a: ConstProp, b: ConstProp, c: ConstProp)
    ensures
        a.spec_le(a),
        a.spec_le(b) && b.spec_le(a) ==> a == b,
        a.spec_le(b) && b.spec_le(c) ==> a.spec_le(c),
        ConstProp::Bottom.spec_le(a),
        a.spec_le(ConstProp::Top),
{
}

/// The order agrees with the join and the meet.
pub proof fn constprop_order_agrees(a: ConstProp, b: ConstProp)
    ensures
        a.spec_le(b) <==> a.spec_join(b) == b,
        a.spec_le(b) <==> a.spec_meet(b) == a,
{
}

/// The join is the least upper bound and the meet the greatest lower bound.
pub proof fn constprop_bounds(a: ConstProp, b: ConstProp, c: ConstProp)
    ensures
        a.spec_le(a.spec_join(b)),
        b.spec_le(a.spec_join(b)),
        a.spec_le(c) && b.spec_le(c) ==> a.spec_join(b).spec_le(c),
        a.spec_meet(b).spec_le(a),
        a.spec_meet(b).spec_le(b),
        c.spec_le(a) && c.spec_le(b) ==> c.spec_le(a.spec_meet(b)),
{
}

/// Widening (the join) reaches a fixpoint exactly when the new value adds
/// nothing: `widen(a, b) == a` iff `b ⊑ a`.
pub proof fn constprop_widen_stable(a: ConstProp, b: ConstProp)
    ensures
        a.spec_join(b) == a <==> b.spec_le(a),
{
}

/// The same for the type lattice.
pub proof fn toytype_widen_stable(a: ToyType, b: ToyType)
    ensures
        a.spec_join(b) == a <==> b.spec_le(a),
{
}

// ---------------------------------------------------------------------------
// ConstProp: meaning
// ---------------------------------------------------------------------------

/// The order is inclusion of the sets of values the elements stand for.
pub proof fn constprop_order_is_inclusion(a: ConstProp, b: ConstProp)
    ensures
        a.spec_le(b) <==> (forall|v: i64| a.concretizes(v) ==> b.concretizes(v)),
{
    if !a.spec_le(b) {
        let w: i64 = match (a, b) {
            (ConstProp::Const(x), _) => x,
            (ConstProp::Top, ConstProp::Const(y)) => if y == 0 {
                1
            } else {
                0
            },
            _ => 0,
        };
        assert(a.concretizes(w) && !b.concretizes(w));
    }
}

/// The join over-approximates the union and the meet is exactly the
/// intersection of what its operands stand for.
pub proof fn constprop_join_meet_meaning(a: ConstProp, b: ConstProp, v: i64)
    ensures
        a.concretizes(v) || b.concretizes(v) ==> a.spec_join(b).concretizes(v),
        a.spec_meet(b).concretizes(v) <==> a.concretizes(v) && b.concretizes(v),
{
}

/// A lifted binary operation is sound: applied to elements standing for `v`
/// and `w`, it gives an element standing for `f(v, w)`.
pub proof fn constprop_lift2_sound(
    x: ConstProp,
    y: ConstProp,
    f: spec_fn(i64, i64) -> i64,
    v: i64,
    w: i64,
)
    requires
        x.concretizes(v),
        y.concretizes(w),
    ensures
        x.lift2(y, f).concretizes(f(v, w)),
{
}

/// A lifted binary operation is monotone in both operands.
pub proof fn constprop_lift2_monotone(
    x: ConstProp,
    x2: ConstProp,
    y: ConstProp,
    y2: ConstProp,
    f: spec_fn(i64, i64) -> i64,
)
    requires
        x.spec_le(x2),
        y.spec_le(y2),
    ensures
        x.lift2(y, f).spec_le(x2.lift2(y2, f)),
{
}

/// A lifted unary operation is sound and monotone.
pub proof fn constprop_lift1_sound_monotone(
    x: ConstProp,
    x2: ConstProp,
    f: spec_fn(i64) -> i64,
    v: i64,
)
    ensures
        x.concretizes(v) ==> x.lift1(f).concretizes(f(v)),
        x.spec_le(x2) ==> x.lift1(f).spec_le(x2.lift1(f)),
{
}

/// The arithmetic, bitwise and comparison transfer functions are sound with
/// respect to wrapping 64-bit arithmetic and 0/1 comparison results.
pub proof fn constprop_binary_ops_sound(x: ConstProp, y: ConstProp, v: i64, w: i64)
    requires
        x.concretizes(v),
        y.concretizes(w),
    ensures
        x.spec_add(y).concretizes(i64_specs::wrapping_add(v, w)),
        x.spec_sub(y).concretizes(i64_specs::wrapping_sub(v, w)),
        x.spec_mul(y).concretizes(i64_specs::wrapping_mul(v, w)),
        x.spec_bitand(y).concretizes(v & w),
        x.spec_bitor(y).concretizes(v | w),
        x.spec_bitxor(y).concretizes(v ^ w),
        x.spec_cmp_eq(y).concretizes(flag(v == w)),
        x.spec_cmp_ne(y).concretizes(flag(v != w)),
        x.spec_cmp_lt(y).concretizes(flag(v < w)),
        x.spec_cmp_le(y).concretizes(flag(v <= w)),
        x.spec_cmp_gt(y).concretizes(flag(v > w)),
        x.spec_cmp_ge(y).concretizes(flag(v >= w)),
{
}

/// Negation and bitwise not are sound.
pub proof fn constprop_unary_ops_sound(x: ConstProp, v: i64)
    requires
        x.concretizes(v),
    ensures
        x.spec_neg().concretizes(i64_specs::wrapping_sub(0, v)),
        x.spec_not().concretizes(!v),
{
}

/// The arithmetic, bitwise and comparison transfer functions are monotone.
pub proof fn constprop_binary_ops_monotone(x: ConstProp, x2: ConstProp, y: ConstProp, y2: ConstProp)
    requires
        x.spec_le(x2),
        y.spec_le(y2),
    ensures
        x.spec_add(y).spec_le(x2.spec_add(y2)),
        x.spec_sub(y).spec_le(x2.spec_sub(y2)),
        x.spec_mul(y).spec_le(x2.spec_mul(y2)),
        x.spec_bitand(y).spec_le(x2.spec_bitand(y2)),
        x.spec_bitor(y).spec_le(x2.spec_bitor(y2)),
        x.spec_bitxor(y).spec_le(x2.spec_bitxor(y2)),
        x.spec_cmp_eq(y).spec_le(x2.spec_cmp_eq(y2)),
        x.spec_cmp_lt(y).spec_le(x2.spec_cmp_lt(y2)),
        x.spec_neg().spec_le(x2.spec_neg()),
        x.spec_not().spec_le(x2.spec_not()),
{
}

/// Division and remainder are sound: where the 64-bit operation succeeds
/// on values the operands stand for, the abstract operation succeeds with
/// an element standing for the quotient (remainder).
pub proof fn constprop_div_rem_sound(x: ConstProp, y: ConstProp, v: i64, w: i64)
    requires
        x.concretizes(v),
        y.concretizes(w),
    ensures
        v.checked_div(w) matches Some(q) ==> (x.spec_checked_div(y) matches Some(r)
            && r.concretizes(q)),
        v.checked_rem(w) matches Some(q) ==> (x.spec_checked_rem(y) matches Some(r)
            && r.concretizes(q)),
{
}

/// Division and remainder fail only on two constants on which the 64-bit
/// operation fails (a zero divisor, or `i64::MIN` by `-1`).
pub proof fn constprop_div_rem_fail_exactly(x: ConstProp, y: ConstProp)
    ensures
        x.spec_checked_div(y) is None <==> (x matches ConstProp::Const(a) && y matches ConstProp::Const(
            b,
        ) && a.checked_div(b) is None),
        x.spec_checked_rem(y) is None <==> (x matches ConstProp::Const(a) && y matches ConstProp::Const(
            b,
        ) && a.checked_rem(b) is None),
{
}

/// Where both operands' results are defined, division and remainder are
/// monotone.
pub proof fn constprop_div_rem_monotone(x: ConstProp, x2: ConstProp, y: ConstProp, y2: ConstProp)
    requires
        x.spec_le(x2),
        y.spec_le(y2),
    ensures
        x.spec_checked_div(y) is Some && x2.spec_checked_div(y2) is Some ==> x.spec_checked_div(
            y,
        ).unwrap().spec_le(x2.spec_checked_div(y2).unwrap()),
        x.spec_checked_rem(y) is Some && x2.spec_checked_rem(y2) is Some ==> x.spec_checked_rem(
            y,
        ).unwrap().spec_le(x2.spec_checked_rem(y2).unwrap()),
{
}

/// Shifts never fail, are sound for every amount in `0..64`, and are
/// monotone.
pub proof fn constprop_shifts_sound_monotone(
    x: ConstProp,
    x2: ConstProp,
    y: ConstProp,
    y2: ConstProp,
    v: i64,
    w: i64,
)
    ensures
        x.spec_checked_shl(y) is Some,
        x.spec_checked_shr(y) is Some,
        x.concretizes(v) && y.concretizes(w) && 0 <= w < 64 ==> x.spec_checked_shl(
            y,
        ).unwrap().concretizes(shl_spec(v, w)),
        x.concretizes(v) && y.concretizes(w) && 0 <= w < 64 ==> x.spec_checked_shr(
            y,
        ).unwrap().concretizes(shr_spec(v, w)),
        x.spec_le(x2) && y.spec_le(y2) ==> x.spec_checked_shl(y).unwrap().spec_le(
            x2.spec_checked_shl(y2).unwrap(),
        ),
        x.spec_le(x2) && y.spec_le(y2) ==> x.spec_checked_shr(y).unwrap().spec_le(
            x2.spec_checked_shr(y2).unwrap(),
        ),
{
}

/// A decided branch is decided correctly: every value the condition stands
/// for is non-zero exactly when the branch is taken.
pub proof fn constprop_branch_sound(x: ConstProp, v: i64)
    requires
        x.concretizes(v),
    ensures
        x.spec_is_truthy() matches Some(t) ==> t == (v != 0),
{
}

/// A decided loop test is decided correctly, and the loop step is sound.
pub proof fn constprop_loop_sound(iv: ConstProp, end: ConstProp, v: i64, e: i64)
    requires
        iv.concretizes(v),
        end.concretizes(e),
    ensures
        iv.spec_loop_condition(end) matches Some(c) ==> c == (v < e),
        iv.spec_add(end).concretizes(i64_specs::wrapping_add(v, e)),
{
}

/// A 64-bit literal is abstracted by an element standing for its value.
pub proof fn constprop_literal_sound(n: i64)
    ensures
        (match ArithLiteral::I64(n) {
            ArithLiteral::I64(m) => ConstProp::Const(m),
            ArithLiteral::Other => ConstProp::Top,
        }).concretizes(n),
{
}

/// On two constants every arithmetic, bitwise and comparison transfer
/// function is exact: the result is the one constant that wrapping 64-bit
/// arithmetic gives, and a comparison gives 1 when it holds and 0 when it
/// does not. Nothing is lost where both operands are known.
pub proof fn constprop_constants_fold_exactly(a: i64, b: i64)
    ensures
        ConstProp::Const(a).spec_add(ConstProp::Const(b)) == ConstProp::Const(
            i64_specs::wrapping_add(a, b),
        ),
        ConstProp::Const(a).spec_sub(ConstProp::Const(b)) == ConstProp::Const(
            i64_specs::wrapping_sub(a, b),
        ),
        ConstProp::Const(a).spec_mul(ConstProp::Const(b)) == ConstProp::Const(
            i64_specs::wrapping_mul(a, b),
        ),
        ConstProp::Const(a).spec_bitand(ConstProp::Const(b)) == ConstProp::Const(a & b),
        ConstProp::Const(a).spec_bitor(ConstProp::Const(b)) == ConstProp::Const(a | b),
        ConstProp::Const(a).spec_bitxor(ConstProp::Const(b)) == ConstProp::Const(a ^ b),
        ConstProp::Const(a).spec_neg() == ConstProp::Const(i64_specs::wrapping_sub(0, a)),
        ConstProp::Const(a).spec_not() == ConstProp::Const(!a),
        a == b ==> ConstProp::Const(a).spec_cmp_eq(ConstProp::Const(b)) == ConstProp::Const(1),
        a != b ==> ConstProp::Const(a).spec_cmp_eq(ConstProp::Const(b)) == ConstProp::Const(0),
        a != b ==> ConstProp::Const(a).spec_cmp_ne(ConstProp::Const(b)) == ConstProp::Const(1),
        a == b ==> ConstProp::Const(a).spec_cmp_ne(ConstProp::Const(b)) == ConstProp::Const(0),
        a < b ==> ConstProp::Const(a).spec_cmp_lt(ConstProp::Const(b)) == ConstProp::Const(1),
        a >= b ==> ConstProp::Const(a).spec_cmp_lt(ConstProp::Const(b)) == ConstProp::Const(0),
        a <= b ==> ConstProp::Const(a).spec_cmp_le(ConstProp::Const(b)) == ConstProp::Const(1),
        a > b ==> ConstProp::Const(a).spec_cmp_le(ConstProp::Const(b)) == ConstProp::Const(0),
        a > b ==> ConstProp::Const(a).spec_cmp_gt(ConstProp::Const(b)) == ConstProp::Const(1),
        a <= b ==> ConstProp::Const(a).spec_cmp_gt(ConstProp::Const(b)) == ConstProp::Const(0),
        a >= b ==> ConstProp::Const(a).spec_cmp_ge(ConstProp::Const(b)) == ConstProp::Const(1),
        a < b ==> ConstProp::Const(a).spec_cmp_ge(ConstProp::Const(b)) == ConstProp::Const(0),
        a.checked_div(b) matches Some(q) ==> ConstProp::Const(a).spec_checked_div(
            ConstProp::Const(b),
        ) == Some(ConstProp::Const(q)),
        a.checked_rem(b) matches Some(q) ==> ConstProp::Const(a).spec_checked_rem(
            ConstProp::Const(b),
        ) == Some(ConstProp::Const(q)),
{
}

/// Constants decide branches and loops: a constant condition takes the
/// branch exactly when it is non-zero, and a constant induction variable
/// runs on exactly while it is below a constant bound. Where the condition,
/// or either side of a loop test, is not a constant, nothing is decided.
pub proof fn constprop_constants_decide(x: ConstProp, y: ConstProp, a: i64, b: i64)
    ensures
        ConstProp::Const(a).spec_is_truthy() == Some(a != 0),
        ConstProp::Const(a).spec_loop_condition(ConstProp::Const(b)) == Some(a < b),
        x.spec_is_truthy() is None <==> !(x is Const),
        x.spec_loop_condition(y) is None <==> !(x is Const && y is Const),
{
}

/// An unreachable operand makes the result unreachable: every transfer
/// function, and every partial one, gives `Bottom` when either operand is
/// `Bottom`.
pub proof fn constprop_bottom_is_strict(x: ConstProp)
    ensures
        ConstProp::Bottom.spec_add(x) == ConstProp::Bottom,
        x.spec_add(ConstProp::Bottom) == ConstProp::Bottom,
        ConstProp::Bottom.spec_sub(x) == ConstProp::Bottom,
        x.spec_sub(ConstProp::Bottom) == ConstProp::Bottom,
        ConstProp::Bottom.spec_mul(x) == ConstProp::Bottom,
        x.spec_mul(ConstProp::Bottom) == ConstProp::Bottom,
        ConstProp::Bottom.spec_bitand(x) == ConstProp::Bottom,
        x.spec_bitand(ConstProp::Bottom) == ConstProp::Bottom,
        ConstProp::Bottom.spec_bitor(x) == ConstProp::Bottom,
        x.spec_bitor(ConstProp::Bottom) == ConstProp::Bottom,
        ConstProp::Bottom.spec_bitxor(x) == ConstProp::Bottom,
        x.spec_bitxor(ConstProp::Bottom) == ConstProp::Bottom,
        ConstProp::Bottom.spec_cmp_eq(x) == ConstProp::Bottom,
        x.spec_cmp_eq(ConstProp::Bottom) == ConstProp::Bottom,
        ConstProp::Bottom.spec_cmp_ne(x) == ConstProp::Bottom,
        x.spec_cmp_ne(ConstProp::Bottom) == ConstProp::Bottom,
        ConstProp::Bottom.spec_cmp_lt(x) == ConstProp::Bottom,
        x.spec_cmp_lt(ConstProp::Bottom) == ConstProp::Bottom,
        ConstProp::Bottom.spec_cmp_le(x) == ConstProp::Bottom,
        x.spec_cmp_le(ConstProp::Bottom) == ConstProp::Bottom,
        ConstProp::Bottom.spec_cmp_gt(x) == ConstProp::Bottom,
        x.spec_cmp_gt(ConstProp::Bottom) == ConstProp::Bottom,
        ConstProp::Bottom.spec_cmp_ge(x) == ConstProp::Bottom,
        x.spec_cmp_ge(ConstProp::Bottom) == ConstProp::Bottom,
        ConstProp::Bottom.spec_checked_div(x) == Some(ConstProp::Bottom),
        x.spec_checked_div(ConstProp::Bottom) == Some(ConstProp::Bottom),
        ConstProp::Bottom.spec_checked_rem(x) == Some(ConstProp::Bottom),
        x.spec_checked_rem(ConstProp::Bottom) == Some(ConstProp::Bottom),
        ConstProp::Bottom.spec_checked_shl(x) == Some(ConstProp::Bottom),
        x.spec_checked_shl(ConstProp::Bottom) == Some(ConstProp::Bottom),
        ConstProp::Bottom.spec_checked_shr(x) == Some(ConstProp::Bottom),
        x.spec_checked_shr(ConstProp::Bottom) == Some(ConstProp::Bottom),
        ConstProp::Bottom.spec_neg() == ConstProp::Bottom,
        ConstProp::Bottom.spec_not() == ConstProp::Bottom,
{
}

/// An unknown operand makes the result unknown: when neither operand is
/// `Bottom` and one of them is `Top`, every transfer function gives `Top`
/// and no partial one fails.
pub proof fn constprop_unknown_operand_gives_top(x: ConstProp, y: ConstProp)
    requires
        x != ConstProp::Bottom,
        y != ConstProp::Bottom,
        x == ConstProp::Top || y == ConstProp::Top,
    ensures
        x.spec_add(y) == ConstProp::Top,
        x.spec_sub(y) == ConstProp::Top,
        x.spec_mul(y) == ConstProp::Top,
        x.spec_bitand(y) == ConstProp::Top,
        x.spec_bitor(y) == ConstProp::Top,
        x.spec_bitxor(y) == ConstProp::Top,
        x.spec_cmp_eq(y) == ConstProp::Top,
        x.spec_cmp_ne(y) == ConstProp::Top,
        x.spec_cmp_lt(y) == ConstProp::Top,
        x.spec_cmp_le(y) == ConstProp::Top,
        x.spec_cmp_gt(y) == ConstProp::Top,
        x.spec_cmp_ge(y) == ConstProp::Top,
        x.spec_checked_div(y) == Some(ConstProp::Top),
        x.spec_checked_rem(y) == Some(ConstProp::Top),
        x.spec_checked_shl(y) == Some(ConstProp::Top),
        x.spec_checked_shr(y) == Some(ConstProp::Top),
        x == ConstProp::Top ==> x.spec_neg() == ConstProp::Top && x.spec_not() == ConstProp::Top,
{
}

/// On a constant and a constant amount in `0..64` both shifts are exact;
/// an amount outside `0..64` gives `Top`, never a failure.
pub proof fn constprop_constant_shifts_exact(a: i64, b: i64)
    ensures
        0 <= b < 64 ==> ConstProp::Const(a).spec_checked_shl(ConstProp::Const(b)) == Some(
            ConstProp::Const(a << (b as u32)),
        ),
        0 <= b < 64 ==> ConstProp::Const(a).spec_checked_shr(ConstProp::Const(b)) == Some(
            ConstProp::Const(a >> (b as u32)),
        ),
        !(0 <= b < 64) ==> ConstProp::Const(a).spec_checked_shl(ConstProp::Const(b)) == Some(
            ConstProp::Top,
        ),
        !(0 <= b < 64) ==> ConstProp::Const(a).spec_checked_shr(ConstProp::Const(b)) == Some(
            ConstProp::Top,
        ),
{
}

} // verus!
