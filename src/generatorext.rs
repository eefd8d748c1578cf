use crate::filter::Filter;
use crate::func::{apply2, deterministic2, folded, total2};
use crate::generator::{Generator, GeneratorState};
use crate::iter::GenIter;
use crate::map::MapYield;
use crate::mapped::Mapped;
use crate::take::Take;
use crate::takewhile::TakeWhile;
use vstd::prelude::*;

verus! {

/// Chaining methods available on every generator.
pub trait GeneratorExt: Generator {
    /// An adapter that pulls this generator's values one at a time.
    fn into_iter(self) -> (r: GenIter<Self>)
        requires
            self.wf(),
            !self.finished(),
        ensures
            r.wf(),
            r.source() == Some(self),
    {
        GenIter::new(self)
    }

    /// A borrow of this generator, itself a generator, so that adapters can
    /// drive it and leave it in place.
    fn by_ref(&mut self) -> (r: &mut Self)
        ensures
            *r == *old(self),
    {
        self
    }

    /// A generator that yields `f` of each value of this one.
    fn map<F, O>(self, f: F) -> (r: MapYield<Self, F>)
        where
            F: Fn(Self::Yield) -> O,
        ensures
            r.inner() == self,
            r.func() == f,
    {
        MapYield::new(self, f)
    }

    /// A generator that yields the values of this one that `pred` accepts.
    fn filter<F>(self, pred: F) -> (r: Filter<Self, F>)
        where
            F: Fn(&Self::Yield) -> bool,
        ensures
            r.inner() == self,
            r.pred() == pred,
    {
        Filter::new(self, pred)
    }

    /// A generator that yields the values of this one while `predicate`
    /// accepts them.
    fn take_while<F>(self, predicate: F) -> (r: TakeWhile<Self, F>)
        where
            F: Fn(&Self::Yield) -> bool,
        ensures
            r.inner() == self,
            r.pred() == predicate,
            !r.is_complete(),
    {
        TakeWhile::new(self, predicate)
    }

    /// A generator that yields at most `count` values of this one.
    fn take(self, count: usize) -> (r: Take<Self>)
        ensures
            r.inner() == self,
            r.remaining() == count,
    {
        Take::new(self, count)
    }

    /// A generator built by `f` from this whole generator.
    fn mapped<F, G>(self, f: F) -> (r: Mapped<G>)
        where
            F: FnOnce(Self) -> G,
            G: Generator,
        requires
            f.requires((self,)),
        ensures
            f.ensures((self,), r.inner()),
    {
        Mapped::new(f(self))
    }

    /// Runs this generator to completion, combining its values into `init`
    /// with `f`; also hands back its final result.
    fn fold_ret<B, F>(self, init: B, f: F) -> (r: (B, Self::Return))
        where
            F: Fn(B, Self::Yield) -> B,
        requires
            self.wf(),
            !self.finished(),
            total2::<B, Self::Yield, F>(f),
            deterministic2::<B, Self::Yield, F>(f),
        ensures
            r.0 == folded(self.pending(), init, f),
            r.1 == self.outcome(),
    {
        let mut gen = self;
        let mut acc = init;
        loop
            invariant
                gen.wf(),
                !gen.finished(),
                gen.outcome() == self.outcome(),
                total2::<B, Self::Yield, F>(f),
                deterministic2::<B, Self::Yield, F>(f),
                folded(gen.pending(), acc, f) == folded(self.pending(), init, f),
            decreases gen.pending().len(),
        {
            match gen.resume() {
                GeneratorState::Yielded(y) => {
                    let ghost prev = acc;
                    acc = f(acc, y);
                    assert(apply2(f, prev, y) == acc);
                },
                GeneratorState::Complete(r) => {
                    return (acc, r);
                },
            }
        }
    }

    /// Runs this generator to completion, combining its values into `init`
    /// with `f`.
    fn fold<B, F>(self, init: B, f: F) -> (r: B)
        where
            F: Fn(B, Self::Yield) -> B,
        requires
            self.wf(),
            !self.finished(),
            total2::<B, Self::Yield, F>(f),
            deterministic2::<B, Self::Yield, F>(f),
        ensures
            r == folded(self.pending(), init, f),
    {
        self.fold_ret(init, f).0
    }
}

impl<G: Generator> GeneratorExt for G {

}

/// Methods for driving a generator in place, through a borrow.
pub trait PinGeneratorExt: Generator {
    /// An adapter that pulls values through a borrow of this generator.
    fn iter(&mut self) -> (r: GenIter<&mut Self>)
        requires
            old(self).wf(),
            !old(self).finished(),
        ensures
            r.wf(),
            r.pending() == old(self).pending(),
    {
        GenIter::new(self)
    }
}

impl<G: Generator> PinGeneratorExt for G {

}

impl<'a, G: Generator> Generator for &'a mut G {
    type Yield = G::Yield;

    type Return = G::Return;

    open spec fn pending(&self) -> Seq<G::Yield> {
        (**self).pending()
    }

    open spec fn outcome(&self) -> G::Return {
        (**self).outcome()
    }

    open spec fn finished(&self) -> bool {
        (**self).finished()
    }

    open spec fn wf(&self) -> bool {
        (**self).wf()
    }

    fn resume(&mut self) -> (r: GeneratorState<G::Yield, G::Return>) {
        (**self).resume()
    }
}

} // verus!
