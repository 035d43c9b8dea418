//! An event that fires once for everybody who waits for it.

use vstd::prelude::*;

verus! {

/// Collects the callbacks of those who wait for the next firing of an
/// event, and hands them out, in the order in which they came, when the
/// event fires.
///
/// `trigger` does not run the callbacks: it hands them out, and the emitter
/// is free again while they run (`run` runs them). So a callback that comes
/// in while those of a firing are run waits for the next firing.
pub struct OneShotEventEmitter<T> {
    callbacks: Vec<T>,
}

impl<T> View for OneShotEventEmitter<T> {
    type V = Seq<T>;

    /// The callbacks that wait, in the order in which they came.
    closed spec fn view(&self) -> Seq<T> {
        self.callbacks@
    }
}

impl<T> OneShotEventEmitter<T> {
    /// An emitter for which nobody waits yet.
    pub fn new() -> (emitter: Self)
        ensures
            emitter@ == Seq::<T>::empty(),
    {
        OneShotEventEmitter { callbacks: Vec::new() }
    }

    /// Registers `callback` for the next firing.
    pub fn listen(&mut self, callback: T)
        ensures
            final(self)@ == old(self)@.push(callback),
    {
        self.callbacks.push(callback);
    }

    /// The number of callbacks that wait.
    pub fn pending(&self) -> (count: usize)
        ensures
            count == self@.len(),
    {
        self.callbacks.len()
    }

    /// Fires the event: hands out every callback that waits, in the order
    /// in which they came, and forgets them.
    pub fn trigger(&mut self) -> (fired: Vec<T>)
        ensures
            fired@ == old(self)@,
            final(self)@ == Seq::<T>::empty(),
    {
        let mut fired: Vec<T> = Vec::new();
        std::mem::swap(&mut self.callbacks, &mut fired);
        fired
    }
}

impl<T: FnOnce()> OneShotEventEmitter<T> {
    /// Runs the callbacks that a firing handed out: each of them once, in
    /// the order in which they came.
    pub fn run(fired: Vec<T>)
        requires
            forall|i: int| 0 <= i < fired@.len() ==> call_requires(#[trigger] fired@[i], ()),
        ensures
            forall|i: int| 0 <= i < fired@.len() ==> call_ensures(#[trigger] fired@[i], (), ()),
    {
        let ghost all = fired@;
        let ghost mut done: int = 0;
        let mut waiting = fired;
        while waiting.len() > 0
            invariant
                0 <= done,
                done + waiting@.len() == all.len(),
                forall|i: int| 0 <= i < waiting@.len() ==> waiting@[i] == all[done + i],
                forall|i: int| 0 <= i < all.len() ==> call_requires(#[trigger] all[i], ()),
                forall|i: int| 0 <= i < done ==> call_ensures(#[trigger] all[i], (), ()),
            decreases waiting.len(),
        {
            let callback = waiting.remove(0);
            assert(callback == all[done]);
            callback();
            proof {
                done = done + 1;
            }
        }
    }
}

} // verus!
