//! Kernel object basis: the state that every kernel object carries, and the
//! rules by which its signal changes and its callbacks are kept.
//!
//! A kernel object is a struct with a field of type [`KObjectBase`] that
//! implements [`KernelObject`] by handing each operation on to that field.
//! Every operation that changes the state takes `&mut self`: whoever shares
//! an object between tasks puts it behind one lock, and holds that lock for
//! the whole of one operation.

use vstd::prelude::*;
use core::task::Waker;
use crate::error::{ZxError, ZxResult};
use crate::port::{Port, PortPacketRepr};
use crate::signal::Signal;
use crate::wait::SignalFuture;

verus! {

/// The type of kernel object ID.
pub type KoID = u64;

/// The first ID that is handed out; the values below it are reserved.
pub const FIRST_KOID: KoID = 1024;

/// `core::task::Waker`: the handle by which an executor is told to poll a
/// task again. It is carried through as it is.
#[verifier::external_type_specification]
#[verifier::external_body]
pub struct ExWaker(Waker);

/// `Waker::wake_by_ref` asks the executor to poll the waker's task again.
/// It returns nothing, and nothing is claimed of it.
pub assume_specification[ Waker::wake_by_ref ](waker: &Waker);

/// `Waker::clone` gives a second handle to the same task. Nothing is claimed
/// of the handle.
pub assume_specification[ <Waker as Clone>::clone ](waker: &Waker) -> (handle: Waker);

/// The ID that the counter holds after it has handed out `id`: one more, and
/// zero after the last value.
pub open spec fn following(id: KoID) -> KoID {
    if id == u64::MAX {
        0
    } else {
        (id + 1) as u64
    }
}

/// The source of kernel object IDs: one counter for the whole kernel.
pub struct KoidAllocator {
    next: KoID,
}

impl KoidAllocator {
    /// The ID that the next call of `new_koid` returns.
    pub closed spec fn next_koid(&self) -> KoID {
        self.next
    }

    /// A counter that starts at the first ID.
    pub fn new() -> (ids: KoidAllocator)
        ensures
            ids.next_koid() == FIRST_KOID,
    {
        KoidAllocator { next: FIRST_KOID }
    }

    /// A counter that starts at `first`: for a kernel that takes its IDs up
    /// where another left off, and for trying things out apart from the
    /// kernel's own counter.
    pub fn starting_at(first: KoID) -> (ids: KoidAllocator)
        ensures
            ids.next_koid() == first,
    {
        KoidAllocator { next: first }
    }

    /// Generate a new KoID. The counter goes up by one, and wraps after the
    /// last value.
    pub fn new_koid(&mut self) -> (id: KoID)
        ensures
            id == old(self).next_koid(),
            final(self).next_koid() == following(id),
    {
        let id = self.next;
        self.next = id.wrapping_add(1);
        id
    }
}

/// A predicate over signal values that a user of the library supplies.
///
/// `call` runs on the stack of whoever changes the signal. It says whether
/// the callback is done: what it returns depends on the signal alone.
pub trait SignalCallback: Send {
    /// Whether the callback is done once it has seen `signal`.
    spec fn retires_on(&self, signal: Signal) -> bool;

    fn call(&self, signal: Signal) -> (retire: bool)
        ensures
            retire == self.retires_on(signal),
    ;
}

/// The packet that is owed to a port that waits for `desired` with `key`,
/// once the signal is `observed`: none while the two masks share no bit.
pub open spec fn spec_signal_delivery(observed: Signal, desired: Signal, key: u64) -> Option<
    PortPacketRepr,
> {
    if observed.intersects(desired) {
        Some(PortPacketRepr::signal(key, desired, observed))
    } else {
        None
    }
}

/// The packet that is owed to a port that waits for `desired` with `key`,
/// once the signal is `observed`: none while the two masks share no bit.
#[verifier::when_used_as_spec(spec_signal_delivery)]
pub fn signal_delivery(observed: Signal, desired: Signal, key: u64) -> (packet: Option<
    PortPacketRepr,
>)
    ensures
        packet == spec_signal_delivery(observed, desired, key),
{
    if observed.intersects(desired) {
        Some(PortPacketRepr::signal(key, desired, observed))
    } else {
        None
    }
}

/// A callback for signal status changes.
///
/// It is called with the new signal and returns whether it is done. If it
/// returns true it is never called again.
pub enum SignalHandler {
    /// Wakes a waiting task once the signal meets `signal`.
    Wake { signal: Signal, waker: Waker },
    /// Pushes one packet with `key` into `port` once the signal meets `signal`.
    Port { signal: Signal, key: u64, port: Box<dyn Port> },
    /// A callback of the user's own.
    Custom(Box<dyn SignalCallback>),
}

impl SignalCallback for SignalHandler {
    /// Whether the handler is done once it has seen `signal`.
    open spec fn retires_on(&self, signal: Signal) -> bool {
        match self {
            SignalHandler::Wake { signal: desired, .. } => signal.intersects(*desired),
            SignalHandler::Port { signal: desired, .. } => signal.intersects(*desired),
            SignalHandler::Custom(callback) => callback.retires_on(signal),
        }
    }

    /// Shows `signal` to the handler. A handler that is done has woken its
    /// task or pushed its packet.
    fn call(&self, signal: Signal) -> (retire: bool) {
        match self {
            SignalHandler::Wake { signal: desired, waker } => {
                if !signal.intersects(*desired) {
                    return false;
                }
                waker.wake_by_ref();
                true
            },
            SignalHandler::Port { signal: desired, key, port } => {
                match signal_delivery(signal, *desired, *key) {
                    Some(packet) => {
                        port.push(packet);
                        true
                    },
                    None => false,
                }
            },
            SignalHandler::Custom(callback) => callback.call(signal),
        }
    }
}

/// The handlers of `handlers` that are not done once they have seen `signal`,
/// in their order.
pub open spec fn unretired(handlers: Seq<SignalHandler>, signal: Signal) -> Seq<SignalHandler> {
    handlers.filter(pending_on(signal))
}

/// The test that a handler passes if it is not done once it has seen `signal`.
pub open spec fn pending_on(signal: Signal) -> spec_fn(SignalHandler) -> bool {
    |h: SignalHandler| !h.retires_on(signal)
}

/// The base struct of a kernel object.
pub struct KObjectBase {
    id: KoID,
    name: String,
    signal: Signal,
    signal_callbacks: Vec<SignalHandler>,
}

impl KObjectBase {
    /// The object's KoID.
    pub closed spec fn koid(&self) -> KoID {
        self.id
    }

    /// The object's name, as characters.
    pub closed spec fn name_view(&self) -> Seq<char> {
        self.name@
    }

    /// The signal status.
    pub closed spec fn current_signal(&self) -> Signal {
        self.signal
    }

    /// The registered callbacks, oldest first.
    pub closed spec fn callbacks(&self) -> Seq<SignalHandler> {
        self.signal_callbacks@
    }

    /// No registered callback is done with the current signal: one that is
    /// was dropped by the transition that made it so, or was never stored.
    /// Every constructor establishes this and every operation keeps it.
    pub open spec fn callbacks_pending(&self) -> bool {
        forall|i: int|
            0 <= i < self.callbacks().len() ==> !(#[trigger] self.callbacks()[i]).retires_on(
                self.current_signal(),
            )
    }

    /// `self` is an object as a constructor leaves it: no callback yet.
    pub open spec fn is_fresh(&self, id: KoID, name: Seq<char>, signal: Signal) -> bool {
        &&& self.koid() == id
        &&& self.name_view() == name
        &&& self.current_signal() == signal
        &&& self.callbacks() == Seq::<SignalHandler>::empty()
    }

    /// `self` is `pre` but for its signal and callbacks.
    pub open spec fn same_identity(&self, pre: &KObjectBase) -> bool {
        &&& self.koid() == pre.koid()
        &&& self.name_view() == pre.name_view()
    }

    /// `self` is what `set_name` makes of `pre`, given a name with the
    /// characters `name`.
    pub open spec fn is_renaming_of(&self, pre: &KObjectBase, name: Seq<char>) -> bool {
        &&& self.koid() == pre.koid()
        &&& self.name_view() == name
        &&& self.current_signal() == pre.current_signal()
        &&& self.callbacks() == pre.callbacks()
    }

    /// `self` is what `signal_change(clear, set)` makes of `pre`.
    pub open spec fn is_change_of(&self, pre: &KObjectBase, clear: Signal, set: Signal) -> bool {
        let changed = pre.current_signal().changed(clear, set);
        &&& self.same_identity(pre)
        &&& self.current_signal() == changed
        &&& self.callbacks() == if changed == pre.current_signal() {
            pre.callbacks()
        } else {
            unretired(pre.callbacks(), changed)
        }
    }

    /// `self` is `pre` with one more callback, the last: one that wakes a
    /// task once the signal meets `desired`.
    pub open spec fn is_waiter_registration_of(&self, pre: &KObjectBase, desired: Signal) -> bool {
        &&& self.same_identity(pre)
        &&& self.current_signal() == pre.current_signal()
        &&& self.callbacks().len() == pre.callbacks().len() + 1
        &&& self.callbacks().drop_last() == pre.callbacks()
        &&& self.callbacks().last() matches SignalHandler::Wake { signal, .. } && signal == desired
    }

    /// `self` is what `add_signal_callback(callback)` makes of `pre`.
    pub open spec fn is_registration_of(&self, pre: &KObjectBase, callback: SignalHandler) -> bool {
        &&& self.same_identity(pre)
        &&& self.current_signal() == pre.current_signal()
        &&& self.callbacks() == if callback.retires_on(pre.current_signal()) {
            pre.callbacks()
        } else {
            pre.callbacks().push(callback)
        }
    }

    /// Create a new kernel object base.
    pub fn new(ids: &mut KoidAllocator) -> (base: KObjectBase)
        ensures
            base.is_fresh(old(ids).next_koid(), Seq::<char>::empty(), Signal { bits: 0 }),
            final(ids).next_koid() == following(old(ids).next_koid()),
    {
        proof {
            reveal_strlit("");
            assert(""@ =~= Seq::<char>::empty());
        }
        KObjectBase::with(ids, "", Signal::empty())
    }

    /// Create a kernel object base with initial `signal`.
    pub fn with_signal(ids: &mut KoidAllocator, signal: Signal) -> (base: KObjectBase)
        ensures
            base.is_fresh(old(ids).next_koid(), Seq::<char>::empty(), signal),
            final(ids).next_koid() == following(old(ids).next_koid()),
    {
        proof {
            reveal_strlit("");
            assert(""@ =~= Seq::<char>::empty());
        }
        KObjectBase::with(ids, "", signal)
    }

    /// Create a kernel object base with `name`.
    pub fn with_name(ids: &mut KoidAllocator, name: &str) -> (base: KObjectBase)
        ensures
            base.is_fresh(old(ids).next_koid(), name@, Signal { bits: 0 }),
            final(ids).next_koid() == following(old(ids).next_koid()),
    {
        KObjectBase::with(ids, name, Signal::empty())
    }

    /// Create a kernel object base with both signal and name.
    pub fn with(ids: &mut KoidAllocator, name: &str, signal: Signal) -> (base: KObjectBase)
        ensures
            base.is_fresh(old(ids).next_koid(), name@, signal),
            final(ids).next_koid() == following(old(ids).next_koid()),
    {
        KObjectBase {
            id: ids.new_koid(),
            name: name.to_owned(),
            signal,
            signal_callbacks: Vec::new(),
        }
    }

    /// Get object's KoID.
    pub fn id(&self) -> (id: KoID)
        ensures
            id == self.koid(),
    {
        self.id
    }

    /// Get object's name.
    pub fn name(&self) -> (name: String)
        ensures
            name@ == self.name_view(),
    {
        self.name.clone()
    }

    /// Set object's name.
    pub fn set_name(&mut self, name: &str)
        ensures
            final(self).is_renaming_of(old(self), name@),
    {
        self.name = name.to_owned();
    }

    /// Get the signal status.
    pub fn signal(&self) -> (signal: Signal)
        ensures
            signal == self.current_signal(),
    {
        self.signal
    }

    /// Get the number of registered callbacks.
    pub fn callback_count(&self) -> (count: usize)
        ensures
            count == self.callbacks().len(),
    {
        self.signal_callbacks.len()
    }

    /// Change signal status: first `clear` then `set` indicated bits.
    ///
    /// Where that leaves the signal as it was, nothing else happens.
    /// Otherwise every callback is called with the new signal, oldest first,
    /// and those that are done are dropped.
    pub fn signal_change(&mut self, clear: Signal, set: Signal)
        ensures
            final(self).is_change_of(old(self), clear, set),
            old(self).callbacks_pending() ==> final(self).callbacks_pending(),
    {
        let mut new_signal = self.signal;
        new_signal.remove(clear);
        new_signal.insert(set);
        if new_signal == self.signal {
            return ;
        }
        let mut callbacks: Vec<SignalHandler> = Vec::new();
        core::mem::swap(&mut callbacks, &mut self.signal_callbacks);
        let kept = retain_unretired(callbacks, new_signal);
        self.signal = new_signal;
        self.signal_callbacks = kept;
    }

    /// Assert `signal`.
    pub fn signal_set(&mut self, signal: Signal)
        ensures
            final(self).is_change_of(old(self), Signal { bits: 0 }, signal),
            old(self).callbacks_pending() ==> final(self).callbacks_pending(),
    {
        self.signal_change(Signal::empty(), signal);
    }

    /// Deassert `signal`.
    pub fn signal_clear(&mut self, signal: Signal)
        ensures
            final(self).is_change_of(old(self), signal, Signal { bits: 0 }),
            old(self).callbacks_pending() ==> final(self).callbacks_pending(),
    {
        self.signal_change(signal, Signal::empty());
    }

    /// Add `callback` for signal status changes.
    ///
    /// The callback is called at once with the current signal, so that a
    /// change that came just before the registration is not missed. If it is
    /// done by that, it is dropped; otherwise it is stored behind the
    /// callbacks that are already there.
    pub fn add_signal_callback(&mut self, callback: SignalHandler)
        ensures
            final(self).is_registration_of(old(self), callback),
            old(self).callbacks_pending() ==> final(self).callbacks_pending(),
    {
        if !callback.call(self.signal) {
            self.signal_callbacks.push(callback);
        }
    }
}

/// Calls each handler with `signal`, oldest first, and keeps those that are
/// not done.
fn retain_unretired(handlers: Vec<SignalHandler>, signal: Signal) -> (kept: Vec<SignalHandler>)
    ensures
        kept@ == unretired(handlers@, signal),
        forall|i: int| 0 <= i < kept@.len() ==> !(#[trigger] kept@[i]).retires_on(signal),
{
    let ghost all = handlers@;
    let ghost pending = pending_on(signal);
    let mut kept: Vec<SignalHandler> = Vec::new();
    for handler in it: handlers
        invariant
            it.seq() == all,
            pending == pending_on(signal),
            kept@ == all.take(it.index() as int).filter(pending),
            forall|i: int| 0 <= i < kept@.len() ==> !(#[trigger] kept@[i]).retires_on(signal),
    {
        let ghost seen = all.take(it.index() as int);
        let ghost next = all.take(it.index() + 1);
        let ghost current = handler;
        let retire = handler.call(signal);
        if !retire {
            kept.push(handler);
        }
        proof {
            reveal(Seq::filter);
            assert(next.drop_last() == seen);
            assert(next.last() == current);
            assert(retire == current.retires_on(signal));
            assert(pending(current) == !retire);
            assert(next.filter(pending) == if pending(next.last()) {
                next.drop_last().filter(pending).push(next.last())
            } else {
                next.drop_last().filter(pending)
            });
        }
    }
    proof {
        assert(all.take(all.len() as int) == all);
    }
    kept
}

/// The text that `{:?}` gives for a tuple struct named `kind_name` with the
/// two fields `id` and `name`.
pub uninterp spec fn debug_tuple_text(kind_name: Seq<char>, id: KoID, name: Seq<char>) -> Seq<char>;

/// `format!` with the type's name, then, in round brackets and separated by
/// a comma and a space, `id` and `name` as `{:?}` writes them: the number in
/// decimal, the string in double quotes with its special characters
/// escaped. The text depends on the three arguments alone.
#[verifier::external_body]
fn format_debug_tuple(kind_name: &str, id: KoID, name: &str) -> (text: String)
    ensures
        text@ == debug_tuple_text(kind_name@, id, name@),
{
    format!("{}({:?}, {:?})", kind_name, id, name)
}

/// The relations to other objects, and the set of allowed signals, that a
/// kind of kernel object has of its own. A kind that has none of them leaves
/// the four operations at their defaults.
pub struct Relations {
    /// The object has children that `get_child` finds.
    pub children: bool,
    /// The object has a peer.
    pub peer: bool,
    /// The object has a related object.
    pub related: bool,
    /// The object allows other signals than the user signals.
    pub own_allowed_signals: bool,
}

impl Relations {
    /// The relations of a kind that has none.
    pub open spec fn none() -> Relations {
        Relations { children: false, peer: false, related: false, own_allowed_signals: false }
    }
}

/// Common interface of a kernel object.
///
/// An implementation keeps a [`KObjectBase`] and hands the operations below
/// on to it; `base` is that state. The four relations at the end have
/// defaults for the kinds of object that have no such relation, and a kind
/// that has one gives its own.
pub trait KernelObject {
    /// The state of the object's base.
    spec fn base(&self) -> KObjectBase;

    /// The name of the object's type.
    spec fn spec_kind_name(&self) -> &'static str;

    /// What the object's kind has of its own, where other kinds have the
    /// default.
    spec fn relations(&self) -> Relations;

    /// Get object's KoID.
    fn id(&self) -> (id: KoID)
        ensures
            id == self.base().koid(),
    ;

    /// Get the name of the type of the kernel object.
    fn kind_name(&self) -> (name: &str)
        ensures
            name@ == self.spec_kind_name()@,
    ;

    /// Get object's name.
    fn name(&self) -> (name: String)
        ensures
            name@ == self.base().name_view(),
    ;

    /// Set object's name.
    fn set_name(&mut self, name: &str)
        ensures
            final(self).base().is_renaming_of(&old(self).base(), name@),
    ;

    /// Get the signal status.
    fn signal(&self) -> (signal: Signal)
        ensures
            signal == self.base().current_signal(),
    ;

    /// Assert `signal`.
    fn signal_set(&mut self, signal: Signal)
        ensures
            final(self).base().is_change_of(&old(self).base(), Signal { bits: 0 }, signal),
    ;

    /// Deassert `signal`.
    fn signal_clear(&mut self, signal: Signal)
        ensures
            final(self).base().is_change_of(&old(self).base(), signal, Signal { bits: 0 }),
    ;

    /// Change signal status: first `clear` then `set` indicated bits.
    ///
    /// All signal callbacks will be called.
    fn signal_change(&mut self, clear: Signal, set: Signal)
        ensures
            final(self).base().is_change_of(&old(self).base(), clear, set),
    ;

    /// Add `callback` for signal status changes.
    ///
    /// The callback says whether it is done. If it is, it will never be
    /// called again.
    fn add_signal_callback(&mut self, callback: SignalHandler)
        ensures
            final(self).base().is_registration_of(&old(self).base(), callback),
    ;

    /// Attempt to find a child of the object with given KoID, and give its
    /// KoID back. An object of a kind without children is of the wrong type
    /// for this.
    fn get_child(&self, _id: KoID) -> (child: ZxResult<KoID>)
        ensures
            !self.relations().children ==> child == Err::<KoID, ZxError>(ZxError::WRONG_TYPE),
    {
        Err(ZxError::WRONG_TYPE)
    }

    /// Attempt to get the KoID of the object's peer: the opposite endpoint
    /// of a channel, socket, fifo or event pair. An object of a kind without
    /// peers does not support this.
    fn peer(&self) -> (peer: ZxResult<KoID>)
        ensures
            !self.relations().peer ==> peer == Err::<KoID, ZxError>(ZxError::NOT_SUPPORTED),
    {
        Err(ZxError::NOT_SUPPORTED)
    }

    /// If the object is related to another (such as the other end of a
    /// channel, or the parent of a job), returns the KoID of that object,
    /// otherwise returns zero.
    fn related_koid(&self) -> (id: KoID)
        ensures
            !self.relations().related ==> id == 0,
    {
        0
    }

    /// Get object's allowed signals: all the user signals, for an object of
    /// a kind that has no set of its own.
    fn allowed_signals(&self) -> (allowed: Signal)
        ensures
            !self.relations().own_allowed_signals ==> allowed == (Signal { bits: 0xff00_0000 }),
    {
        Signal::user_all()
    }

    /// The standard debug representation: the type's name, then the KoID and
    /// the name in round brackets.
    fn debug_string(&self) -> (text: String)
        ensures
            text@ == debug_tuple_text(
                self.spec_kind_name()@,
                self.base().koid(),
                self.base().name_view(),
            ),
    {
        let name = self.name();
        format_debug_tuple(self.kind_name(), self.id(), name.as_str())
    }
}

impl dyn KernelObject {
    /// Asynchronous wait for one of `signal`: the wait in its first state,
    /// with no callback registered yet. It does nothing unless polled.
    pub fn wait_signal(&self, signal: Signal) -> (future: SignalFuture)
        ensures
            future == (SignalFuture { signal, first: true }),
    {
        SignalFuture { signal, first: true }
    }

    /// Once one of the `signal` asserted, push a packet with `key` into the
    /// `port`.
    ///
    /// Where the current signal already meets `signal`, the packet is pushed
    /// at once, with the current signal as the observed one, and nothing is
    /// registered. Otherwise a callback is registered that pushes the packet
    /// on the first change that meets `signal`, and is done by that.
    pub fn send_signal_to_port_async(&mut self, signal: Signal, port: Box<dyn Port>, key: u64)
        ensures
            final(self).base().is_registration_of(
                &old(self).base(),
                SignalHandler::Port { signal, key, port },
            ),
    {
        let current_signal = self.signal();
        match signal_delivery(current_signal, signal, key) {
            Some(packet) => {
                port.push(packet);
                assert(final(self).base().callbacks() == old(self).base().callbacks());
            },
            None => {
                self.add_signal_callback(SignalHandler::Port { signal, key, port });
            },
        }
    }
}

/// Empty kernel object. Just for test.
pub struct DummyObject {
    base: KObjectBase,
}

impl KernelObject for DummyObject {
    closed spec fn base(&self) -> KObjectBase {
        self.base
    }

    open spec fn spec_kind_name(&self) -> &'static str {
        "DummyObject"
    }

    open spec fn relations(&self) -> Relations {
        Relations::none()
    }

    fn id(&self) -> (id: KoID) {
        self.base.id()
    }

    fn kind_name(&self) -> (name: &str) {
        "DummyObject"
    }

    fn name(&self) -> (name: String) {
        self.base.name()
    }

    fn set_name(&mut self, name: &str) {
        self.base.set_name(name)
    }

    fn signal(&self) -> (signal: Signal) {
        self.base.signal()
    }

    fn signal_set(&mut self, signal: Signal) {
        self.base.signal_set(signal);
    }

    fn signal_clear(&mut self, signal: Signal) {
        self.base.signal_clear(signal);
    }

    fn signal_change(&mut self, clear: Signal, set: Signal) {
        self.base.signal_change(clear, set);
    }

    fn add_signal_callback(&mut self, callback: SignalHandler) {
        self.base.add_signal_callback(callback);
    }
}

impl DummyObject {
    /// Create a new `DummyObject`.
    pub fn new(ids: &mut KoidAllocator) -> (object: DummyObject)
        ensures
            object.base().is_fresh(old(ids).next_koid(), Seq::<char>::empty(), Signal { bits: 0 }),
            final(ids).next_koid() == following(old(ids).next_koid()),
    {
        DummyObject { base: KObjectBase::new(ids) }
    }
}

} // verus!
