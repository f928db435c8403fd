//! What holds of every kernel object, whatever is done to it: stated over
//! the relations between the states before and after one operation.

use vstd::prelude::*;
use core::task::Waker;
use crate::object::{
    following, pending_on, unretired, KObjectBase, KoID, SignalCallback, SignalHandler, FIRST_KOID,
};
use crate::port::{PacketSignal, PayloadRepr, PortPacketRepr};
use crate::signal::{lemma_change_idempotent, lemma_set_contains, lemma_set_intersects, Signal};
use crate::object::spec_signal_delivery;

verus! {

/// As long as the counter has not reached its last value, each ID is one
/// above the ID before it: the IDs grow, none comes twice, and none lies
/// below the first.
pub proof fn lemma_koids_grow(id: KoID)
    requires
        FIRST_KOID <= id < u64::MAX,
    ensures
        following(id) == id + 1,
        following(id) > id,
        following(id) > FIRST_KOID,
{
}

/// Applying `signal_change(clear, set)` twice in a row leaves the signal that
/// applying it once leaves, and the second application keeps every callback.
pub proof fn lemma_signal_change_twice(
    pre: KObjectBase,
    once: KObjectBase,
    twice: KObjectBase,
    clear: Signal,
    set: Signal,
)
    requires
        once.is_change_of(&pre, clear, set),
        twice.is_change_of(&once, clear, set),
    ensures
        twice.current_signal() == once.current_signal(),
        twice.callbacks() == once.callbacks(),
        twice.same_identity(&pre),
{
    lemma_change_idempotent(pre.current_signal(), clear, set);
}

/// A change of the signal keeps the callbacks pending: after it, no
/// registered callback is done with the new signal.
pub proof fn lemma_change_keeps_pending(
    pre: KObjectBase,
    post: KObjectBase,
    clear: Signal,
    set: Signal,
)
    requires
        pre.callbacks_pending(),
        post.is_change_of(&pre, clear, set),
    ensures
        post.callbacks_pending(),
{
    let changed = post.current_signal();
    if changed != pre.current_signal() {
        assert forall|i: int| 0 <= i < post.callbacks().len() implies !(
        #[trigger] post.callbacks()[i]).retires_on(changed) by {
            pre.callbacks().lemma_filter_pred(pending_on(changed), i);
        }
    }
}

/// A callback that is done with the new signal is dropped by the change that
/// brings it, so no later change calls it; and a change adds no callback:
/// each one that is left was registered before.
pub proof fn lemma_retired_is_dropped(
    pre: KObjectBase,
    post: KObjectBase,
    clear: Signal,
    set: Signal,
    callback: SignalHandler,
)
    requires
        post.is_change_of(&pre, clear, set),
        post.current_signal() != pre.current_signal(),
    ensures
        callback.retires_on(post.current_signal()) ==> !post.callbacks().contains(callback),
        post.callbacks().contains(callback) ==> pre.callbacks().contains(callback),
        post.callbacks().len() <= pre.callbacks().len(),
{
    let changed = post.current_signal();
    let pending = pending_on(changed);
    pre.callbacks().lemma_filter_len(pending);
    if post.callbacks().contains(callback) {
        let i = choose|i: int| 0 <= i < post.callbacks().len() && post.callbacks()[i] == callback;
        pre.callbacks().lemma_filter_pred(pending, i);
        pre.callbacks().lemma_filter_contains_rev(pending, callback);
    }
}

/// A callback that is not done with the new signal stays registered through
/// the change: a wait whose mask is not met remains suspended.
pub proof fn lemma_pending_is_kept(
    pre: KObjectBase,
    post: KObjectBase,
    clear: Signal,
    set: Signal,
    callback: SignalHandler,
)
    requires
        post.is_change_of(&pre, clear, set),
        pre.callbacks().contains(callback),
        post.current_signal() == pre.current_signal() || !callback.retires_on(
            post.current_signal(),
        ),
    ensures
        post.callbacks().contains(callback),
{
    let changed = post.current_signal();
    if changed != pre.current_signal() {
        let i = choose|i: int| 0 <= i < pre.callbacks().len() && pre.callbacks()[i] == callback;
        pre.callbacks().lemma_filter_contains(pending_on(changed), i);
    }
}

/// `add_signal_callback` never stores a callback that is done with the
/// current signal, and it keeps the callbacks pending.
pub proof fn lemma_registration_keeps_pending(
    pre: KObjectBase,
    post: KObjectBase,
    callback: SignalHandler,
)
    requires
        pre.callbacks_pending(),
        post.is_registration_of(&pre, callback),
    ensures
        post.callbacks_pending(),
        callback.retires_on(pre.current_signal()) ==> post.callbacks() == pre.callbacks(),
        !callback.retires_on(pre.current_signal()) ==> post.callbacks().contains(callback),
{
    if !callback.retires_on(pre.current_signal()) {
        assert(post.callbacks().last() == callback);
    }
}

/// No missed wakeup. A wait for a mask that is not empty is registered with
/// an object, and then the mask is asserted. Then the signal meets the mask,
/// so the next poll of the wait gives it; and the wait's callback is gone
/// from the registry: it was called, found itself done and woke its task,
/// either at its registration or by the change.
pub proof fn lemma_no_missed_wakeup(
    pre: KObjectBase,
    registered: KObjectBase,
    post: KObjectBase,
    desired: Signal,
    waker: Waker,
)
    requires
        !desired.is_empty(),
        pre.callbacks_pending(),
        registered.is_registration_of(&pre, SignalHandler::Wake { signal: desired, waker }),
        post.is_change_of(&registered, Signal { bits: 0 }, desired),
    ensures
        post.current_signal().intersects(desired),
        post.current_signal().contains(desired),
        !post.callbacks().contains(SignalHandler::Wake { signal: desired, waker }),
        pre.current_signal().intersects(desired) || registered.callbacks().contains(
            SignalHandler::Wake { signal: desired, waker },
        ),
{
    let callback = SignalHandler::Wake { signal: desired, waker };
    let before = registered.current_signal();
    lemma_set_contains(before, desired);
    lemma_set_intersects(before, desired);
    lemma_registration_keeps_pending(pre, registered, callback);
    lemma_change_keeps_pending(registered, post, Signal { bits: 0 }, desired);
    if post.callbacks().contains(callback) {
        let i = choose|i: int| 0 <= i < post.callbacks().len() && post.callbacks()[i] == callback;
        assert(!post.callbacks()[i].retires_on(post.current_signal()));
    }
}

/// The other order: the mask is asserted before the wait looks. Then the
/// signal meets the mask, whatever it was before.
pub proof fn lemma_set_is_seen(pre: KObjectBase, post: KObjectBase, desired: Signal)
    requires
        !desired.is_empty(),
        post.is_change_of(&pre, Signal { bits: 0 }, desired),
    ensures
        post.current_signal().intersects(desired),
{
    lemma_set_contains(pre.current_signal(), desired);
    lemma_set_intersects(pre.current_signal(), desired);
}

/// A wait that registers only after its mask was asserted: its callback is
/// called at the registration, finds itself done and wakes its task, and is
/// not stored.
pub proof fn lemma_late_registration_is_not_stored(
    pre: KObjectBase,
    set: KObjectBase,
    registered: KObjectBase,
    desired: Signal,
    waker: Waker,
)
    requires
        !desired.is_empty(),
        set.is_change_of(&pre, Signal { bits: 0 }, desired),
        registered.is_registration_of(&set, SignalHandler::Wake { signal: desired, waker }),
    ensures
        (SignalHandler::Wake { signal: desired, waker }).retires_on(set.current_signal()),
        registered.callbacks() == set.callbacks(),
        registered.current_signal().intersects(desired),
{
    lemma_set_is_seen(pre, set, desired);
}

/// The packet for a condition that is already met: it stands for one
/// observation, and the observed signal is the one that was found.
pub proof fn lemma_delivery_of_met_condition(observed: Signal, desired: Signal, key: u64)
    requires
        observed.intersects(desired),
    ensures
        spec_signal_delivery(observed, desired, key) == Some(
            PortPacketRepr {
                key,
                status: crate::error::ZxError::OK,
                data: PayloadRepr::Signal(
                    PacketSignal {
                        trigger: desired,
                        observed,
                        count: 1,
                        timestamp: 0,
                        _reserved1: 0,
                    },
                ),
            },
        ),
{
}

/// Filtering leaves the handlers that are pending, in their order: the
/// result of a change holds exactly the callbacks of before that are not
/// done with the new signal.
pub proof fn lemma_unretired_members(handlers: Seq<SignalHandler>, signal: Signal, callback: SignalHandler)
    ensures
        unretired(handlers, signal).contains(callback) <==> handlers.contains(callback)
            && !callback.retires_on(signal),
{
    let pending = pending_on(signal);
    if unretired(handlers, signal).contains(callback) {
        let i = choose|i: int|
            0 <= i < unretired(handlers, signal).len() && unretired(handlers, signal)[i]
                == callback;
        handlers.lemma_filter_pred(pending, i);
        handlers.lemma_filter_contains_rev(pending, callback);
    }
    if handlers.contains(callback) && !callback.retires_on(signal) {
        let i = choose|i: int| 0 <= i < handlers.len() && handlers[i] == callback;
        handlers.lemma_filter_contains(pending, i);
    }
}

} // verus!
