use toy_lang::domains::{ArithLiteral, ConstProp, ToyType};

const ALL_TYPES: [ToyType; 4] = [ToyType::Bottom, ToyType::I64, ToyType::Bool, ToyType::Top];

fn some_consts() -> Vec<ConstProp> {
    vec![
        ConstProp::Bottom,
        ConstProp::Const(0),
        ConstProp::Const(1),
        ConstProp::Const(-7),
        ConstProp::Const(i64::MAX),
        ConstProp::Const(i64::MIN),
        ConstProp::Top,
    ]
}

#[test]
fn toytype_join_and_meet() {
    assert_eq!(ToyType::Bottom.join(&ToyType::I64), ToyType::I64);
    assert_eq!(ToyType::I64.join(&ToyType::Bottom), ToyType::I64);
    assert_eq!(ToyType::I64.join(&ToyType::Bool), ToyType::Top);
    assert_eq!(ToyType::Bool.join(&ToyType::Bool), ToyType::Bool);
    assert_eq!(ToyType::Top.meet(&ToyType::Bool), ToyType::Bool);
    assert_eq!(ToyType::I64.meet(&ToyType::Bool), ToyType::Bottom);
    assert_eq!(ToyType::I64.meet(&ToyType::I64), ToyType::I64);
    assert!(ToyType::Bottom.is_subseteq(&ToyType::I64));
    assert!(ToyType::I64.is_subseteq(&ToyType::Top));
    assert!(ToyType::Bool.is_subseteq(&ToyType::Bool));
    assert!(!ToyType::I64.is_subseteq(&ToyType::Bool));
    assert!(!ToyType::Top.is_subseteq(&ToyType::I64));
    assert_eq!(ToyType::bottom(), ToyType::Bottom);
    assert_eq!(ToyType::I64.widen(&ToyType::Bool), ToyType::Top);
}

#[test]
fn toytype_lattice_laws_on_all_values() {
    for a in ALL_TYPES {
        assert_eq!(a.join(&a), a);
        assert_eq!(a.meet(&a), a);
        for b in ALL_TYPES {
            assert_eq!(a.join(&b), b.join(&a));
            assert_eq!(a.meet(&b), b.meet(&a));
            assert_eq!(a.join(&a.meet(&b)), a);
            assert_eq!(a.meet(&a.join(&b)), a);
            assert_eq!(a.is_subseteq(&b), a.join(&b) == b);
            assert_eq!(a.is_subseteq(&b), a.meet(&b) == a);
            for c in ALL_TYPES {
                assert_eq!(a.join(&b.join(&c)), a.join(&b).join(&c));
            }
        }
    }
}

#[test]
fn toytype_transfer_functions() {
    assert_eq!(ToyType::I64.add(ToyType::I64), ToyType::I64);
    assert_eq!(ToyType::I64.sub(ToyType::Bottom), ToyType::I64);
    assert_eq!(ToyType::I64.mul(ToyType::Bool), ToyType::Top);
    assert_eq!(ToyType::Bool.bitand(ToyType::Bool), ToyType::Bool);
    assert_eq!(ToyType::I64.bitor(ToyType::I64), ToyType::I64);
    assert_eq!(ToyType::Bottom.bitxor(ToyType::Bottom), ToyType::Bottom);
    assert_eq!(ToyType::Bool.neg(), ToyType::Bool);
    assert_eq!(ToyType::I64.not(), ToyType::I64);
    assert_eq!(ToyType::I64.cmp_eq(&ToyType::I64), ToyType::Bool);
    assert_eq!(ToyType::Top.cmp_ne(&ToyType::Bottom), ToyType::Bool);
    assert_eq!(ToyType::I64.cmp_lt(&ToyType::I64), ToyType::Bool);
    assert_eq!(ToyType::I64.cmp_le(&ToyType::I64), ToyType::Bool);
    assert_eq!(ToyType::I64.cmp_gt(&ToyType::I64), ToyType::Bool);
    assert_eq!(ToyType::I64.cmp_ge(&ToyType::I64), ToyType::Bool);
    assert_eq!(ToyType::I64.checked_div(ToyType::Bool), Some(ToyType::I64));
    assert_eq!(ToyType::Bool.checked_rem(ToyType::I64), Some(ToyType::Bool));
    assert_eq!(ToyType::Top.checked_shl(ToyType::I64), Some(ToyType::Top));
    assert_eq!(ToyType::I64.checked_shr(ToyType::I64), Some(ToyType::I64));
    assert_eq!(ToyType::I64.is_truthy(), None);
    assert_eq!(ToyType::I64.loop_condition(&ToyType::I64), None);
    assert_eq!(ToyType::I64.loop_step(&ToyType::Bool), Some(ToyType::Top));
    assert_eq!(ToyType::from_arith(ArithLiteral::I64(3)), ToyType::I64);
    assert_eq!(ToyType::from_arith(ArithLiteral::Other), ToyType::I64);
    assert_eq!(ToyType::from_product(&[ToyType::I64, ToyType::Bool]), ToyType::Top);
}

#[test]
fn constprop_join_meet_order() {
    assert_eq!(ConstProp::Const(3).join(&ConstProp::Const(3)), ConstProp::Const(3));
    assert_eq!(ConstProp::Const(3).join(&ConstProp::Const(4)), ConstProp::Top);
    assert_eq!(ConstProp::Bottom.join(&ConstProp::Const(4)), ConstProp::Const(4));
    assert_eq!(ConstProp::Top.join(&ConstProp::Bottom), ConstProp::Top);
    assert_eq!(ConstProp::Const(3).meet(&ConstProp::Const(4)), ConstProp::Bottom);
    assert_eq!(ConstProp::Top.meet(&ConstProp::Const(4)), ConstProp::Const(4));
    assert!(ConstProp::Bottom.is_subseteq(&ConstProp::Const(9)));
    assert!(ConstProp::Const(9).is_subseteq(&ConstProp::Const(9)));
    assert!(!ConstProp::Const(9).is_subseteq(&ConstProp::Const(8)));
    assert!(!ConstProp::Top.is_subseteq(&ConstProp::Const(8)));
    assert_eq!(ConstProp::bottom(), ConstProp::Bottom);
    assert_eq!(ConstProp::Const(1).widen(&ConstProp::Const(2)), ConstProp::Top);
    assert_eq!(ConstProp::Const(1).widen(&ConstProp::Const(1)), ConstProp::Const(1));
}

#[test]
fn constprop_lattice_laws_on_sample_values() {
    let vals = some_consts();
    for a in &vals {
        assert_eq!(a.join(a), *a);
        for b in &vals {
            assert_eq!(a.join(b), b.join(a));
            assert_eq!(a.meet(b), b.meet(a));
            assert_eq!(a.join(&a.meet(b)), *a);
            assert_eq!(a.is_subseteq(b), a.join(b) == *b);
            assert!(a.is_subseteq(&a.join(b)));
            assert!(a.meet(b).is_subseteq(a));
            for c in &vals {
                assert_eq!(a.join(&b.join(c)), a.join(b).join(c));
                assert_eq!(a.meet(&b.meet(c)), a.meet(b).meet(c));
            }
        }
    }
}

#[test]
fn constprop_arithmetic_is_wrapping() {
    assert_eq!(ConstProp::Const(2).add(ConstProp::Const(3)), ConstProp::Const(5));
    assert_eq!(ConstProp::Const(i64::MAX).add(ConstProp::Const(1)), ConstProp::Const(i64::MIN));
    assert_eq!(ConstProp::Const(i64::MIN).sub(ConstProp::Const(1)), ConstProp::Const(i64::MAX));
    assert_eq!(ConstProp::Const(7).sub(ConstProp::Const(10)), ConstProp::Const(-3));
    assert_eq!(ConstProp::Const(6).mul(ConstProp::Const(-7)), ConstProp::Const(-42));
    assert_eq!(ConstProp::Const(i64::MAX).mul(ConstProp::Const(2)), ConstProp::Const(-2));
    assert_eq!(ConstProp::Const(5).neg(), ConstProp::Const(-5));
    assert_eq!(ConstProp::Const(i64::MIN).neg(), ConstProp::Const(i64::MIN));
    assert_eq!(ConstProp::Top.neg(), ConstProp::Top);
    assert_eq!(ConstProp::Bottom.neg(), ConstProp::Bottom);
    assert_eq!(ConstProp::Const(0).not(), ConstProp::Const(-1));
    assert_eq!(ConstProp::Top.not(), ConstProp::Top);
    assert_eq!(ConstProp::Const(0b1100).bitand(ConstProp::Const(0b1010)), ConstProp::Const(0b1000));
    assert_eq!(ConstProp::Const(0b1100).bitor(ConstProp::Const(0b1010)), ConstProp::Const(0b1110));
    assert_eq!(ConstProp::Const(0b1100).bitxor(ConstProp::Const(0b1010)), ConstProp::Const(0b0110));
}

#[test]
fn constprop_bottom_and_top_operands() {
    assert_eq!(ConstProp::Bottom.add(ConstProp::Const(1)), ConstProp::Bottom);
    assert_eq!(ConstProp::Top.add(ConstProp::Bottom), ConstProp::Bottom);
    assert_eq!(ConstProp::Top.add(ConstProp::Const(1)), ConstProp::Top);
    assert_eq!(ConstProp::Const(1).mul(ConstProp::Top), ConstProp::Top);
    assert_eq!(ConstProp::Top.cmp_eq(&ConstProp::Const(1)), ConstProp::Top);
    assert_eq!(ConstProp::Bottom.cmp_lt(&ConstProp::Top), ConstProp::Bottom);
}

#[test]
fn constprop_comparisons_give_zero_or_one() {
    let a = ConstProp::Const(3);
    let b = ConstProp::Const(5);
    assert_eq!(a.cmp_eq(&b), ConstProp::Const(0));
    assert_eq!(a.cmp_eq(&a), ConstProp::Const(1));
    assert_eq!(a.cmp_ne(&b), ConstProp::Const(1));
    assert_eq!(a.cmp_lt(&b), ConstProp::Const(1));
    assert_eq!(b.cmp_lt(&a), ConstProp::Const(0));
    assert_eq!(a.cmp_le(&a), ConstProp::Const(1));
    assert_eq!(a.cmp_gt(&b), ConstProp::Const(0));
    assert_eq!(b.cmp_ge(&a), ConstProp::Const(1));
}

#[test]
fn constprop_division_and_remainder() {
    assert_eq!(ConstProp::Const(7).checked_div(ConstProp::Const(2)), Some(ConstProp::Const(3)));
    assert_eq!(ConstProp::Const(-7).checked_div(ConstProp::Const(2)), Some(ConstProp::Const(-3)));
    assert_eq!(ConstProp::Const(7).checked_rem(ConstProp::Const(-2)), Some(ConstProp::Const(1)));
    assert_eq!(ConstProp::Const(-7).checked_rem(ConstProp::Const(2)), Some(ConstProp::Const(-1)));
    assert_eq!(ConstProp::Const(7).checked_div(ConstProp::Const(0)), None);
    assert_eq!(ConstProp::Const(7).checked_rem(ConstProp::Const(0)), None);
    assert_eq!(ConstProp::Const(i64::MIN).checked_div(ConstProp::Const(-1)), None);
    assert_eq!(ConstProp::Const(i64::MIN).checked_rem(ConstProp::Const(-1)), None);
    assert_eq!(ConstProp::Top.checked_div(ConstProp::Const(0)), Some(ConstProp::Top));
    assert_eq!(ConstProp::Bottom.checked_div(ConstProp::Const(0)), Some(ConstProp::Bottom));
    assert_eq!(ConstProp::Const(1).checked_rem(ConstProp::Bottom), Some(ConstProp::Bottom));
}

#[test]
fn constprop_shifts() {
    assert_eq!(ConstProp::Const(1).checked_shl(ConstProp::Const(4)), Some(ConstProp::Const(16)));
    assert_eq!(ConstProp::Const(1).checked_shl(ConstProp::Const(63)), Some(ConstProp::Const(i64::MIN)));
    assert_eq!(ConstProp::Const(-3).checked_shl(ConstProp::Const(1)), Some(ConstProp::Const(-6)));
    assert_eq!(ConstProp::Const(-16).checked_shr(ConstProp::Const(2)), Some(ConstProp::Const(-4)));
    assert_eq!(ConstProp::Const(1).checked_shl(ConstProp::Const(64)), Some(ConstProp::Top));
    assert_eq!(ConstProp::Const(1).checked_shr(ConstProp::Const(-1)), Some(ConstProp::Top));
    assert_eq!(ConstProp::Bottom.checked_shl(ConstProp::Const(64)), Some(ConstProp::Bottom));
    assert_eq!(ConstProp::Const(1).checked_shr(ConstProp::Top), Some(ConstProp::Top));
}

#[test]
fn constprop_branches_and_loops() {
    assert_eq!(ConstProp::Const(0).is_truthy(), Some(false));
    assert_eq!(ConstProp::Const(-2).is_truthy(), Some(true));
    assert_eq!(ConstProp::Top.is_truthy(), None);
    assert_eq!(ConstProp::Bottom.is_truthy(), None);
    assert_eq!(ConstProp::Const(2).loop_condition(&ConstProp::Const(5)), Some(true));
    assert_eq!(ConstProp::Const(5).loop_condition(&ConstProp::Const(5)), Some(false));
    assert_eq!(ConstProp::Top.loop_condition(&ConstProp::Const(5)), None);
    assert_eq!(ConstProp::Const(2).loop_step(&ConstProp::Const(3)), Some(ConstProp::Const(5)));
    assert_eq!(ConstProp::Const(i64::MAX).loop_step(&ConstProp::Const(1)), Some(ConstProp::Const(i64::MIN)));
    assert_eq!(ConstProp::Bottom.loop_step(&ConstProp::Top), Some(ConstProp::Bottom));
    assert_eq!(ConstProp::Top.loop_step(&ConstProp::Const(1)), Some(ConstProp::Top));
}

#[test]
fn constprop_literals_and_products() {
    assert_eq!(ConstProp::from_arith(ArithLiteral::I64(42)), ConstProp::Const(42));
    assert_eq!(ConstProp::from_arith(ArithLiteral::Other), ConstProp::Top);
    assert_eq!(ConstProp::from_product(&[ConstProp::Const(1)]), ConstProp::Top);
}

/// Soundness on sample values: an operation on constants standing for `v`
/// and `w` gives an element standing for the concrete result.
#[test]
fn constprop_transfer_is_sound_on_samples() {
    let samples = [0i64, 1, -1, 7, i64::MAX, i64::MIN];
    for &v in &samples {
        for &w in &samples {
            for x in [ConstProp::Const(v), ConstProp::Top] {
                for y in [ConstProp::Const(w), ConstProp::Top] {
                    let covers = |c: ConstProp, n: i64| match c {
                        ConstProp::Bottom => false,
                        ConstProp::Const(k) => k == n,
                        ConstProp::Top => true,
                    };
                    assert!(covers(x.add(y), v.wrapping_add(w)));
                    assert!(covers(x.sub(y), v.wrapping_sub(w)));
                    assert!(covers(x.mul(y), v.wrapping_mul(w)));
                    assert!(covers(x.cmp_lt(&y), if v < w { 1 } else { 0 }));
                    if let Some(q) = v.checked_div(w) {
                        assert!(covers(x.checked_div(y).unwrap(), q));
                    }
                }
            }
        }
    }
}

// Single-function analyses composed from the transfer functions.

/// `add(%a, %b)` analyzed with two constants.
#[test]
fn tests_constprop_add_two_constants() {
    let result = ConstProp::Const(2).add(ConstProp::Const(3));
    assert_eq!(Some(result), Some(ConstProp::Const(5)));
}

/// `add(%a, %b)` with one unknown argument.
#[test]
fn tests_constprop_top_input_propagates() {
    let result = ConstProp::Top.add(ConstProp::Const(3));
    assert_eq!(Some(result), Some(ConstProp::Top));
}

/// `sign(%x)`: `%is_neg = lt %x, 0`, then `ret 1` or `ret 0`.
fn analyze_sign(x: ConstProp) -> ConstProp {
    let zero = ConstProp::from_arith(ArithLiteral::I64(0));
    let is_neg = x.cmp_lt(&zero);
    let neg_branch = ConstProp::from_arith(ArithLiteral::I64(1));
    let pos_branch = ConstProp::from_arith(ArithLiteral::I64(0));
    match is_neg.is_truthy() {
        Some(true) => neg_branch,
        Some(false) => pos_branch,
        None => neg_branch.join(&pos_branch),
    }
}

#[test]
fn tests_constprop_branch_positive_input() {
    assert_eq!(Some(analyze_sign(ConstProp::Const(5))), Some(ConstProp::Const(0)));
}

#[test]
fn tests_constprop_branch_negative_input() {
    assert_eq!(Some(analyze_sign(ConstProp::Const(-3))), Some(ConstProp::Const(1)));
}

#[test]
fn tests_constprop_branch_unknown_joins_both_paths() {
    assert_eq!(Some(analyze_sign(ConstProp::Top)), Some(ConstProp::Top));
}

#[test]
fn tests_toytype_lowered_add_propagates_i64() {
    let result = ToyType::I64.add(ToyType::I64);
    assert_eq!(Some(result), Some(ToyType::I64));
}

/// `maybe_add(%a, %b, %c)` returns `add %a, %b`; the unused `%c` is `Bottom`.
#[test]
fn tests_sparse_type_propagation() {
    let args = [ToyType::I64, ToyType::I64, ToyType::Bottom];
    let result = args[0].add(args[1]);
    assert_eq!(Some(result), Some(ToyType::I64));
}
