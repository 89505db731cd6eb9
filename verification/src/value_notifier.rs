//! A value that tells its listeners about every new value, and forgets the listeners
//! that are no longer interested.
use vstd::prelude::*;

verus! {

/// The current value and the listeners still interested in it. A listener is called with
/// each new value and answers whether it wants to hear of the next.
pub struct ValueNotifier<T, L> {
    value: T,
    listeners: Vec<L>,
}

/// `s` with the elements at the places where `keep` is false taken out, in order.
pub open spec fn kept<L>(s: Seq<L>, keep: Seq<bool>) -> Seq<L>
    decreases s.len(),
{
    if s.len() == 0 || keep.len() == 0 {
        Seq::empty()
    } else {
        let prev = kept(s.drop_last(), keep.drop_last());
        if keep.last() {
            prev.push(s.last())
        } else {
            prev
        }
    }
}

impl<T, L: Fn(&T) -> bool> ValueNotifier<T, L> {
    /// The current value.
    pub closed spec fn current(&self) -> T {
        self.value
    }

    /// The listeners, in the order they started listening.
    pub closed spec fn listening(&self) -> Seq<L> {
        self.listeners@
    }

    /// A notifier holding `v`, with nobody listening.
    pub fn new(v: T) -> (r: ValueNotifier<T, L>)
        ensures
            r.current() == v,
            r.listening() == Seq::<L>::empty(),
    {
        ValueNotifier { value: v, listeners: Vec::new() }
    }

    /// The current value.
    pub fn load(&self) -> (r: &T)
        ensures
            *r == self.current(),
    {
        &self.value
    }

    /// How many listeners are still listening.
    pub fn num_listeners(&self) -> (r: usize)
        ensures
            r == self.listening().len(),
    {
        self.listeners.len()
    }

    /// Adds a listener, told of every value stored from now on.
    pub fn listen(&mut self, listener: L)
        ensures
            final(self).current() == old(self).current(),
            final(self).listening() == old(self).listening().push(listener),
    {
        self.listeners.push(listener);
    }

    /// Makes `v` the current value and calls each listener with it, in order; a listener
    /// that answers `false` is dropped, the others stay in their order.
    pub fn store(&mut self, v: T)
        requires
            forall|i: int| 0 <= i < old(self).listening().len() ==> old(self).listening()[i].requires((&v,)),
        ensures
            final(self).current() == v,
            exists|keep: Seq<bool>|
                {
                    &&& keep.len() == old(self).listening().len()
                    &&& forall|i: int|
                        0 <= i < keep.len() ==> old(self).listening()[i].ensures((&v,), #[trigger] keep[i])
                    &&& final(self).listening() == kept(old(self).listening(), keep)
                },
    {
        self.value = v;
        let ghost all = self.listeners@;
        let ghost mut keep: Seq<bool> = Seq::empty();
        let mut listeners: Vec<L> = Vec::new();
        std::mem::swap(&mut listeners, &mut self.listeners);
        let mut kept_listeners: Vec<L> = Vec::new();
        let mut i: usize = 0;
        let total = listeners.len();
        proof {
            assert(all.take(0) =~= Seq::<L>::empty());
            assert(all == old(self).listening());
            assert forall|j: int| 0 <= j < all.len() implies all[j].requires((&v,)) by {
                assert(old(self).listening()[j] == all[j]);
            }
        }
        while listeners.len() > 0
            invariant
                all.len() == total,
                i + listeners@.len() == total,
                listeners@ == all.skip(i as int),
                keep.len() == i,
                kept_listeners@ == kept(all.take(i as int), keep),
                self.value == v,
                forall|j: int| 0 <= j < all.len() ==> all[j].requires((&v,)),
                forall|j: int| 0 <= j < i ==> all[j].ensures((&v,), #[trigger] keep[j]),
            decreases listeners@.len(),
        {
            let l = listeners.remove(0);
            proof {
                assert(l == all[i as int]);
                assert(listeners@ =~= all.skip(i + 1));
                assert(all.take(i + 1).drop_last() =~= all.take(i as int));
            }
            let stay = l(&self.value);
            proof {
                assert((keep.push(stay)).drop_last() =~= keep);
                keep = keep.push(stay);
            }
            if stay {
                kept_listeners.push(l);
            }
            i += 1;
        }
        proof {
            assert(all.take(i as int) =~= all);
        }
        self.listeners = kept_listeners;
    }
}

} // verus!
