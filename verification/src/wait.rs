//! Waits on signals, as state machines that a task polls.

use vstd::prelude::*;
use core::task::Waker;
use crate::object::{KernelObject, SignalCallback, SignalHandler};
use crate::signal::Signal;

verus! {

/// What one poll of a wait gives.
#[derive(Debug, PartialEq, Eq)]
pub enum Poll<T> {
    /// The wait is over, with this value.
    Ready(T),
    /// The task is to be suspended until it is woken.
    Pending,
}

/// A wait for one of the bits of `signal` on one object.
///
/// `first` holds until the wait has registered its callback, which it does
/// at most once.
#[must_use]
pub struct SignalFuture {
    pub signal: Signal,
    pub first: bool,
}

impl SignalFuture {
    /// One step of the wait on `object`, for the task that `waker` wakes.
    ///
    /// Where the object's signal meets the awaited one, the wait is over and
    /// gives the signal as it is; nothing changes. Otherwise the task is to
    /// suspend, and on the first such poll one callback is registered with
    /// the object, which wakes the task once the signal meets the awaited
    /// one. The wait looks at the signal again on every poll, so a wake
    /// without cause does no harm.
    pub fn poll<O: KernelObject + ?Sized>(&mut self, object: &mut O, waker: &Waker) -> (poll: Poll<Signal>)
        ensures
            final(self).signal == old(self).signal,
            old(object).base().current_signal().intersects(old(self).signal) ==> {
                &&& poll == Poll::Ready(old(object).base().current_signal())
                &&& *final(self) == *old(self)
                &&& final(object).base() == old(object).base()
            },
            !old(object).base().current_signal().intersects(old(self).signal) ==> {
                &&& poll == Poll::<Signal>::Pending
                &&& !final(self).first
                &&& old(self).first ==> final(object).base().is_waiter_registration_of(
                    &old(object).base(),
                    old(self).signal,
                )
                &&& !old(self).first ==> final(object).base() == old(object).base()
            },
    {
        let current_signal = object.signal();
        if current_signal.intersects(self.signal) {
            return Poll::Ready(current_signal);
        }
        if self.first {
            let callback = SignalHandler::Wake { signal: self.signal, waker: waker.clone() };
            object.add_signal_callback(callback);
            self.first = false;
            proof {
                let before = old(object).base().callbacks();
                assert(!callback.retires_on(current_signal));
                assert(object.base().callbacks() == before.push(callback));
                assert(before.push(callback).drop_last() =~= before);
            }
        }
        Poll::Pending
    }
}

/// The current signal of each object, in order.
pub open spec fn signals_of<O: KernelObject>(objects: Seq<O>) -> Seq<Signal> {
    Seq::new(objects.len(), |i: int| objects[i].base().current_signal())
}

/// Whether some signal of `current` meets the mask at its place in
/// `desired`.
pub open spec fn any_met(desired: Seq<Signal>, current: Seq<Signal>) -> bool {
    exists|i: int|
        0 <= i < desired.len() && i < current.len() && (#[trigger] current[i]).intersects(
            desired[i],
        )
}

/// A wait on several objects at once, for one mask each. It is over once
/// any of the objects meets its own mask.
///
/// `first` holds until the wait has registered its callbacks, one with each
/// object, which it does at most once.
#[must_use]
pub struct SignalManyFuture {
    pub targets: Vec<Signal>,
    pub first: bool,
}

impl SignalManyFuture {
    /// Whether some signal of `current_signals` meets the mask that is
    /// awaited at its place.
    pub fn happened(&self, current_signals: &Vec<Signal>) -> (met: bool)
        ensures
            met == any_met(self.targets@, current_signals@),
    {
        let mut i: usize = 0;
        while i < self.targets.len() && i < current_signals.len()
            invariant
                i <= self.targets.len(),
                i <= current_signals.len(),
                forall|j: int| 0 <= j < i ==> !(#[trigger] current_signals@[j]).intersects(self.targets@[j]),
            decreases self.targets.len() - i,
        {
            if current_signals[i].intersects(self.targets[i]) {
                return true;
            }
            i += 1;
        }
        false
    }

    /// One step of the wait on `objects`, for the task that `waker` wakes.
    /// The objects are those that the masks were given for, in that order.
    ///
    /// Where some object's signal meets its mask, the wait is over and gives
    /// the signal of every object as it is, not only of those that met
    /// theirs; nothing changes. Otherwise the task is to suspend, and on the
    /// first such poll one callback is registered with each object, which
    /// wakes the task once that object's signal meets its mask.
    pub fn poll<O: KernelObject>(&mut self, objects: &mut Vec<O>, waker: &Waker) -> (poll: Poll<
        Vec<Signal>,
    >)
        requires
            old(objects).len() == old(self).targets.len(),
        ensures
            final(self).targets == old(self).targets,
            final(objects).len() == old(objects).len(),
            any_met(old(self).targets@, signals_of(old(objects)@)) ==> {
                &&& poll matches Poll::Ready(signals) && signals@ == signals_of(old(objects)@)
                    && signals@.len() == old(self).targets@.len()
                &&& *final(self) == *old(self)
                &&& *final(objects) == *old(objects)
            },
            !any_met(old(self).targets@, signals_of(old(objects)@)) ==> {
                &&& poll is Pending
                &&& !final(self).first
                &&& old(self).first ==> forall|i: int|
                    0 <= i < old(objects).len() ==> (#[trigger] final(objects)[i]).base().is_waiter_registration_of(
                        &old(objects)[i].base(),
                        old(self).targets[i],
                    )
                &&& !old(self).first ==> *final(objects) == *old(objects)
            },
    {
        let count = objects.len();
        let mut current_signals: Vec<Signal> = Vec::new();
        let mut i: usize = 0;
        while i < count
            invariant
                i <= count,
                count == objects.len(),
                *objects == *old(objects),
                current_signals@ == signals_of(objects@.take(i as int)),
            decreases count - i,
        {
            current_signals.push(objects[i].signal());
            i += 1;
            proof {
                assert(current_signals@ =~= signals_of(objects@.take(i as int)));
            }
        }
        proof {
            assert(objects@.take(count as int) == objects@);
        }
        if self.happened(&current_signals) {
            return Poll::Ready(current_signals);
        }
        if self.first {
            let mut k: usize = 0;
            while k < count
                invariant
                    k <= count,
                    count == objects.len(),
                    count == old(objects).len(),
                    count == self.targets.len(),
                    *self == *old(self),
                    current_signals@ == signals_of(old(objects)@),
                    !any_met(self.targets@, current_signals@),
                    forall|j: int|
                        0 <= j < k ==> (#[trigger] objects[j]).base().is_waiter_registration_of(
                            &old(objects)[j].base(),
                            self.targets[j],
                        ),
                    forall|j: int| k <= j < count ==> objects[j] == old(objects)[j],
                decreases count - k,
            {
                let desired = self.targets[k];
                let callback = SignalHandler::Wake { signal: desired, waker: waker.clone() };
                let ghost before = objects[k as int].base();
                objects[k].add_signal_callback(callback);
                proof {
                    assert(before == old(objects)[k as int].base());
                    assert(current_signals@[k as int] == before.current_signal());
                    assert(!callback.retires_on(before.current_signal()));
                    assert(objects[k as int].base().callbacks() == before.callbacks().push(callback));
                    assert(before.callbacks().push(callback).drop_last() =~= before.callbacks());
                }
                k += 1;
            }
            self.first = false;
        }
        Poll::Pending
    }
}

/// Asynchronous wait signal for multiple objects: the wait for the masks of
/// `targets`, one for each object, in its first state. It does nothing
/// unless polled.
pub fn wait_signal_many(targets: &[Signal]) -> (future: SignalManyFuture)
    ensures
        future.targets@ == targets@,
        future.first,
{
    SignalManyFuture { targets: vstd::slice::slice_to_vec(targets), first: true }
}

} // verus!
