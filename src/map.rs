use crate::func::{apply, deterministic, total};
use crate::generator::{Generator, GeneratorState};
use vstd::prelude::*;

verus! {

/// Applies a function to each value that the inner generator yields.
pub struct MapYield<G, F> {
    g: G,
    f: F,
}

impl<G, F> MapYield<G, F> {
    /// The wrapped generator.
    pub closed spec fn inner(&self) -> G {
        self.g
    }

    /// The transform applied to each yielded value.
    pub closed spec fn func(&self) -> F {
        self.f
    }

    pub fn new(g: G, f: F) -> (r: Self)
        ensures
            r.inner() == g,
            r.func() == f,
    {
        MapYield { g, f }
    }
}

impl<G: Generator, F, O> Generator for MapYield<G, F> where F: Fn(G::Yield) -> O {
    type Yield = O;

    type Return = G::Return;

    open spec fn pending(&self) -> Seq<O> {
        self.inner().pending().map_values(|y: G::Yield| apply::<G::Yield, O, F>(self.func(), y))
    }

    open spec fn outcome(&self) -> G::Return {
        self.inner().outcome()
    }

    open spec fn finished(&self) -> bool {
        self.inner().finished()
    }

    open spec fn wf(&self) -> bool {
        &&& self.inner().wf()
        &&& total::<G::Yield, O, F>(self.func())
        &&& deterministic::<G::Yield, O, F>(self.func())
    }

    fn resume(&mut self) -> (r: GeneratorState<O, G::Return>)
        ensures
            final(self).func() == old(self).func(),
    {
        match self.g.resume() {
            GeneratorState::Yielded(y) => {
                let o = (self.f)(y);
                GeneratorState::Yielded(o)
            },
            GeneratorState::Complete(r) => GeneratorState::Complete(r),
        }
    }
}

/// Mapping keeps the number and the order of values: the value yielded at
/// each position is what the transform returns on the inner generator's value
/// at that position.
pub proof fn lemma_map_keeps_order<G: Generator, F: Fn(G::Yield) -> O, O>(m: MapYield<G, F>)
    requires
        m.wf(),
    ensures
        m.pending().len() == m.inner().pending().len(),
        forall|i: int, o: O|
            0 <= i < m.pending().len() && #[trigger] m.func().ensures((m.inner().pending()[i],), o)
                ==> m.pending()[i] == o,
{
    assert forall|i: int, o: O|
        0 <= i < m.pending().len() && #[trigger] m.func().ensures((m.inner().pending()[i],), o)
        implies m.pending()[i] == o by {
        let y = m.inner().pending()[i];
        assert(m.func().ensures((y,), apply::<G::Yield, O, F>(m.func(), y)));
    }
}

} // verus!
