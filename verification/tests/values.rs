use toy_lang::cursors::{HighLevelCursor, LowLevelAbstract, MultiCursor, ScfCursor};
use toy_lang::domains::{ArithLiteral, ConstProp, ToyType};
use toy_lang::profile::{
    ToyConstPropFunction, ToyConstPropLowered, ToyLoweredConcrete, ToyLoweredConstProp,
    ToySourceConcrete, ToySourceConstProp,
};
use toy_lang::values::{AbstractToyVal, ToyVal};

/// `x + y * x` through the generic interface.
fn poly<V: ToyVal>(x: V, y: V) -> V {
    x.add(y.mul(x))
}

/// The join of all values, starting from bottom.
fn join_all<V: AbstractToyVal>(vals: &[V]) -> V {
    let mut acc = V::bottom();
    for v in vals {
        acc = acc.join(v);
    }
    acc
}

#[test]
fn generic_operations_on_both_domains() {
    assert_eq!(poly(ConstProp::Const(3), ConstProp::Const(4)), ConstProp::Const(15));
    assert_eq!(poly(ConstProp::Top, ConstProp::Const(4)), ConstProp::Top);
    assert_eq!(poly(ToyType::I64, ToyType::I64), ToyType::I64);
    assert_eq!(<ConstProp as ToyVal>::from_arith(ArithLiteral::I64(8)), ConstProp::Const(8));
    assert_eq!(<ToyType as ToyVal>::from_arith(ArithLiteral::I64(8)), ToyType::I64);
    assert_eq!(ToyVal::checked_div(ConstProp::Const(8), ConstProp::Const(0)), None);
    assert_eq!(ToyVal::is_truthy(&ConstProp::Const(8)), Some(true));
    assert_eq!(ToyVal::loop_step(&ToyType::I64, &ToyType::I64), Some(ToyType::I64));
}

#[test]
fn generic_lattice_operations() {
    assert_eq!(join_all::<ConstProp>(&[]), ConstProp::Bottom);
    assert_eq!(join_all(&[ConstProp::Const(2), ConstProp::Const(2)]), ConstProp::Const(2));
    assert_eq!(join_all(&[ConstProp::Const(2), ConstProp::Const(3)]), ConstProp::Top);
    assert_eq!(join_all(&[ToyType::I64, ToyType::Bool]), ToyType::Top);
    assert!(AbstractToyVal::is_subseteq(&ConstProp::Const(2), &ConstProp::Top));
    let w = AbstractToyVal::widen(&ConstProp::Const(1), &ConstProp::Const(2));
    assert!(ConstProp::Const(1).is_subseteq(&w) && ConstProp::Const(2).is_subseteq(&w));
}

#[test]
fn cursor_injections_and_projections() {
    type Multi = MultiCursor<&'static str, u8, u16, char>;
    assert_eq!(Multi::from_high("b").try_project_high(), Ok("b"));
    assert_eq!(Multi::from_low('l').try_project_low(), Ok('l'));
    assert_eq!(Multi::from_if(1).try_project_high(), Err(MultiCursor::Scf(ScfCursor::If(1))));
    assert_eq!(Multi::from_for(2), MultiCursor::Scf(ScfCursor::For(2)));
    assert_eq!(Multi::from_scf(ScfCursor::If(3)).try_project_low(), Err(MultiCursor::Scf(ScfCursor::If(3))));
    type High = HighLevelCursor<&'static str, u8, u16>;
    assert_eq!(High::from_block("b").try_project_block(), Ok("b"));
    assert_eq!(High::from_if(4).try_project_scf(), Ok(ScfCursor::If(4)));
    assert_eq!(High::from_for(5).try_project_block(), Err(HighLevelCursor::Scf(ScfCursor::For(5))));
    assert_eq!(High::from_scf(ScfCursor::For(6)), HighLevelCursor::Scf(ScfCursor::For(6)));
    assert_eq!(LowLevelAbstract('x').0, 'x');
}

#[test]
fn profiles_are_distinct_markers() {
    assert_eq!(ToySourceConcrete, ToySourceConcrete);
    assert_eq!(ToyLoweredConcrete, ToyLoweredConcrete);
    assert_eq!(ToySourceConstProp, ToySourceConstProp);
    assert_eq!(ToyLoweredConstProp, ToyLoweredConstProp);
    assert_eq!(ToyConstPropFunction, ToyConstPropFunction);
    assert_eq!(ToyConstPropLowered, ToyConstPropLowered);
}
