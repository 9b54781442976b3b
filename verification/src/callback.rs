//! A list of callbacks that are run one after the other on one value.

use vstd::prelude::*;

verus! {

/// Callbacks of type `F`, in the order in which they were registered.
pub struct Callback<F> {
    items: Vec<F>,
}

/// Whether the callback `f` can turn `before` into `after`.
pub open spec fn turns<A, F: Fn(&A) -> A>(f: F, before: A, after: A) -> bool {
    call_ensures(f, (&before,), after)
}

/// Whether running the first `n` callbacks of `fs` in order can turn `x`
/// into `y`: each takes what the one before returned.
pub open spec fn chained<A, F: Fn(&A) -> A>(fs: Seq<F>, n: nat, x: A, y: A) -> bool
    decreases n,
{
    if n == 0 {
        x == y
    } else {
        exists|m: A| chained(fs, (n - 1) as nat, x, m) && #[trigger] turns(fs[n - 1], m, y)
    }
}

/// One more callback extends a chain.
pub proof fn lemma_chain_extends<A, F: Fn(&A) -> A>(fs: Seq<F>, n: nat, x: A, m: A, y: A)
    requires
        n < fs.len(),
        chained(fs, n, x, m),
        turns(fs[n as int], m, y),
    ensures
        chained(fs, n + 1, x, y),
{
    assert(((n + 1) - 1) as nat == n);
    assert(chained(fs, ((n + 1) - 1) as nat, x, m) && turns(fs[(n + 1) - 1], m, y));
}

impl<F> Callback<F> {
    /// The callbacks, in the order in which they were registered.
    pub closed spec fn items(&self) -> Seq<F> {
        self.items@
    }

    /// No callbacks.
    pub fn new() -> (c: Callback<F>)
        ensures
            c.items() == Seq::<F>::empty(),
    {
        Callback { items: Vec::new() }
    }

    /// Adds a callback behind those that are there.
    pub fn register(&mut self, f: F)
        ensures
            final(self).items() == old(self).items().push(f),
    {
        self.items.push(f)
    }

    /// The number of callbacks.
    pub fn len(&self) -> (n: usize)
        ensures
            n == self.items().len(),
    {
        self.items.len()
    }

    /// Runs every callback once, in the order of registration: the first
    /// takes `v`, each later one what the one before it returned, and `v`
    /// becomes what the last one returned. Each callback must accept every
    /// value.
    pub fn fire<A>(&self, v: &mut A) where F: Fn(&A) -> A
        requires
            forall|i: int, a: &A|
                0 <= i < self.items().len() ==> #[trigger] call_requires(self.items()[i], (a,)),
        ensures
            chained(self.items(), self.items().len(), *old(v), *final(v)),
    {
        let mut i: usize = 0;
        while i < self.items.len()
            invariant
                i <= self.items().len(),
                self.items() == self.items@,
                forall|i: int, a: &A|
                    0 <= i < self.items().len() ==> #[trigger] call_requires(self.items()[i], (a,)),
                chained(self.items(), i as nat, *old(v), *v),
            decreases self.items().len() - i,
        {
            let ghost before = *v;
            let next = (self.items[i])(&*v);
            proof {
                lemma_chain_extends(self.items(), i as nat, *old(v), before, next);
            }
            *v = next;
            i += 1;
        }
    }
}

} // verus!
