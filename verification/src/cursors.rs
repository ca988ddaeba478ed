//! The cursor coproducts of the interpreters: which kinds of cursor may sit
//! on one stack, with the injections of each kind into the coproduct and the
//! projections back. The cursor kinds themselves (a block walker, the
//! structured `if`/`for` cursors) are type parameters.

use vstd::prelude::*;

verus! {

/// A cursor of a structured construct: an `if` or a `for`.
#[derive(Clone, Copy, Debug, PartialEq, Eq)]
pub enum ScfCursor<I, F> {
    If(I),
    For(F),
}

/// The cursors of a source-stage-only interpreter: block walkers and
/// structured constructs. (The abstract interpreter uses the same shape
/// with abstract `if`/`for` cursors.)
#[derive(Clone, Copy, Debug, PartialEq, Eq)]
pub enum HighLevelCursor<B, I, F> {
    Block(B),
    Scf(ScfCursor<I, F>),
}

/// The cursors of an interpreter spanning both stages: source block walkers,
/// structured constructs, and lowered block walkers.
#[derive(Clone, Copy, Debug, PartialEq, Eq)]
pub enum MultiCursor<B, I, F, L> {
    High(B),
    Scf(ScfCursor<I, F>),
    Low(L),
}

/// A lowered-stage block walker used as the only cursor kind of a
/// lowered-stage abstract interpreter.
#[derive(Clone, Copy, Debug, PartialEq, Eq)]
pub struct LowLevelAbstract<L>(pub L);

impl<B, I, F> HighLevelCursor<B, I, F> {
    pub open spec fn spec_try_project_block(self) -> Result<B, Self> {
        match self {
            HighLevelCursor::Block(c) => Ok(c),
            other => Err(other),
        }
    }

    pub open spec fn spec_try_project_scf(self) -> Result<ScfCursor<I, F>, Self> {
        match self {
            HighLevelCursor::Scf(c) => Ok(c),
            other => Err(other),
        }
    }

    pub fn from_block(c: B) -> (r: Self)
        ensures
            r == HighLevelCursor::<B, I, F>::Block(c),
    {
        HighLevelCursor::Block(c)
    }

    pub fn from_scf(c: ScfCursor<I, F>) -> (r: Self)
        ensures
            r == HighLevelCursor::<B, I, F>::Scf(c),
    {
        HighLevelCursor::Scf(c)
    }

    pub fn from_if(c: I) -> (r: Self)
        ensures
            r == HighLevelCursor::<B, I, F>::Scf(ScfCursor::If(c)),
    {
        HighLevelCursor::Scf(ScfCursor::If(c))
    }

    pub fn from_for(c: F) -> (r: Self)
        ensures
            r == HighLevelCursor::<B, I, F>::Scf(ScfCursor::For(c)),
    {
        HighLevelCursor::Scf(ScfCursor::For(c))
    }

    /// The block walker, or the cursor unchanged when it is another kind.
    pub fn try_project_block(self) -> (r: Result<B, Self>)
        ensures
            r == self.spec_try_project_block(),
    {
        match self {
            HighLevelCursor::Block(c) => Ok(c),
            other => Err(other),
        }
    }

    /// The structured-construct cursor, or the cursor unchanged.
    pub fn try_project_scf(self) -> (r: Result<ScfCursor<I, F>, Self>)
        ensures
            r == self.spec_try_project_scf(),
    {
        match self {
            HighLevelCursor::Scf(c) => Ok(c),
            other => Err(other),
        }
    }
}

impl<B, I, F, L> MultiCursor<B, I, F, L> {
    pub open spec fn spec_try_project_high(self) -> Result<B, Self> {
        match self {
            MultiCursor::High(c) => Ok(c),
            other => Err(other),
        }
    }

    pub open spec fn spec_try_project_low(self) -> Result<L, Self> {
        match self {
            MultiCursor::Low(c) => Ok(c),
            other => Err(other),
        }
    }

    pub fn from_high(c: B) -> (r: Self)
        ensures
            r == MultiCursor::<B, I, F, L>::High(c),
    {
        MultiCursor::High(c)
    }

    pub fn from_scf(c: ScfCursor<I, F>) -> (r: Self)
        ensures
            r == MultiCursor::<B, I, F, L>::Scf(c),
    {
        MultiCursor::Scf(c)
    }

    pub fn from_if(c: I) -> (r: Self)
        ensures
            r == MultiCursor::<B, I, F, L>::Scf(ScfCursor::If(c)),
    {
        MultiCursor::Scf(ScfCursor::If(c))
    }

    pub fn from_for(c: F) -> (r: Self)
        ensures
            r == MultiCursor::<B, I, F, L>::Scf(ScfCursor::For(c)),
    {
        MultiCursor::Scf(ScfCursor::For(c))
    }

    pub fn from_low(c: L) -> (r: Self)
        ensures
            r == MultiCursor::<B, I, F, L>::Low(c),
    {
        MultiCursor::Low(c)
    }

    /// The source block walker, or the cursor unchanged.
    pub fn try_project_high(self) -> (r: Result<B, Self>)
        ensures
            r == self.spec_try_project_high(),
    {
        match self {
            MultiCursor::High(c) => Ok(c),
            other => Err(other),
        }
    }

    /// The lowered block walker, or the cursor unchanged.
    pub fn try_project_low(self) -> (r: Result<L, Self>)
        ensures
            r == self.spec_try_project_low(),
    {
        match self {
            MultiCursor::Low(c) => Ok(c),
            other => Err(other),
        }
    }
}

/// Projecting a cursor that was just injected gives it back, and
/// projecting to another kind gives the coproduct back unchanged.
pub proof fn projection_undoes_injection<B, I, F, L>(b: B, i: I, f: F, l: L)
    ensures
        MultiCursor::<B, I, F, L>::High(b).spec_try_project_high() == Ok::<
            B,
            MultiCursor<B, I, F, L>,
        >(b),
        MultiCursor::<B, I, F, L>::Low(l).spec_try_project_low() == Ok::<
            L,
            MultiCursor<B, I, F, L>,
        >(l),
        MultiCursor::<B, I, F, L>::Scf(ScfCursor::If(i)).spec_try_project_high() == Err::<
            B,
            MultiCursor<B, I, F, L>,
        >(MultiCursor::Scf(ScfCursor::If(i))),
        MultiCursor::<B, I, F, L>::Low(l).spec_try_project_high() == Err::<
            B,
            MultiCursor<B, I, F, L>,
        >(MultiCursor::Low(l)),
        HighLevelCursor::<B, I, F>::Block(b).spec_try_project_block() == Ok::<
            B,
            HighLevelCursor<B, I, F>,
        >(b),
        HighLevelCursor::<B, I, F>::Scf(ScfCursor::For(f)).spec_try_project_scf() == Ok::<
            ScfCursor<I, F>,
            HighLevelCursor<B, I, F>,
        >(ScfCursor::For(f)),
        HighLevelCursor::<B, I, F>::Scf(ScfCursor::For(f)).spec_try_project_block() == Err::<
            B,
            HighLevelCursor<B, I, F>,
        >(HighLevelCursor::Scf(ScfCursor::For(f))),
{
}

} // verus!
