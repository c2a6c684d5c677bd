//! Smart pointers to wake tasks on access.
use std::task::Waker;
use vstd::prelude::*;

verus! {

/// `std::task::Waker` (the type async-std re-exports as `task::Waker`), held
/// opaque: the wrapper only stores, hands back and wakes it.
#[verifier::external_type_specification]
#[verifier::external_body]
pub struct ExWaker(Waker);

/// Relies on `Waker::wake_by_ref`: it signals the waker's executor that the
/// task may make progress, and hands nothing back. Its effect lies outside
/// this crate, so nothing is stated of it.
pub assume_specification[ Waker::wake_by_ref ](waker: &Waker);

/// The notifications sent by one mutable access while `waker` is registered:
/// one to that waker, or none when no waker is registered.
pub open spec fn wake_record(waker: Option<Waker>) -> Seq<Waker> {
    match waker {
        Some(w) => seq![w],
        None => seq![],
    }
}

/// The waker an `Option<&Waker>` points at, as a value.
pub open spec fn peeked(r: Option<&Waker>) -> Option<Waker> {
    match r {
        Some(w) => Some(*w),
        None => None,
    }
}

/// A wrapper type which wakes tasks whenever the wrapped value is accessed
/// through an `&mut` reference.
///
/// `T` is the type of the value being wrapped. The wrapper is `Deref` and
/// `DerefMut` for that type, giving `&T` and `&mut T` respectively. When a
/// `Waker` is registered with `set_waker`, that `Waker` is woken whenever the
/// wrapped value is accessed through an `&mut` reference and therefore
/// potentially mutated.
///
/// A future that polls the state of the wrapped value registers the `Waker`
/// of its `Context` here, so that every later mutable access wakes it to
/// check the value again.
///
/// Values with interior mutability can change without an `&mut` access, and
/// such changes wake nobody.
#[derive(Clone)]
pub struct WakeOnWrite<T> {
    inner: T,
    waker: Option<Waker>,
    /// Ghost record of the wakes sent, so that contracts can count them.
    wakes: Ghost<Seq<Waker>>,
}

impl<T> WakeOnWrite<T> {
    /// The wrapped value.
    pub closed spec fn value(&self) -> T {
        self.inner
    }

    /// The registered waker, if there is one.
    pub closed spec fn registered(&self) -> Option<Waker> {
        self.waker
    }

    /// Every wake this wrapper has sent, oldest first.
    pub closed spec fn notified(&self) -> Seq<Waker> {
        self.wakes@
    }

    /// `c` wraps `value`, with no waker registered and no wake sent.
    pub open spec fn fresh(c: Self, value: T) -> bool {
        &&& c.value() == value
        &&& c.registered() is None
        &&& c.notified() == Seq::<Waker>::empty()
    }

    /// `post` is `pre` with `waker` registered in place of `prev`.
    pub open spec fn installs(pre: Self, waker: Waker, post: Self, prev: Option<Waker>) -> bool {
        &&& prev == pre.registered()
        &&& post.registered() == Some(waker)
        &&& post.value() == pre.value()
        &&& post.notified() == pre.notified()
    }

    /// `post` is `pre` with its waker `prev` taken out.
    pub open spec fn removes(pre: Self, post: Self, prev: Option<Waker>) -> bool {
        &&& prev == pre.registered()
        &&& post.registered() is None
        &&& post.value() == pre.value()
        &&& post.notified() == pre.notified()
    }

    /// `post` is `pre` after one mutable access: the registered waker, if
    /// any, has been woken once and stays registered; the value is whatever
    /// the holder of the access left behind.
    pub open spec fn accessed_mut(pre: Self, post: Self) -> bool {
        &&& post.registered() == pre.registered()
        &&& post.notified() == pre.notified() + wake_record(pre.registered())
    }

    /// Create a new `WakeOnWrite` with the given value.
    pub fn new(value: T) -> (r: Self)
        ensures
            Self::fresh(r, value),
    {
        WakeOnWrite { inner: value, waker: None, wakes: Ghost(Seq::empty()) }
    }

    /// Set the `Waker` to be awoken when this value is mutated.
    ///
    /// Returns the currently registered `Waker`, if there is one.
    pub fn set_waker(wow: &mut Self, waker: Waker) -> (r: Option<Waker>)
        ensures
            Self::installs(*old(wow), waker, *final(wow), r),
    {
        let prev = wow.waker.take();
        wow.waker = Some(waker);
        prev
    }

    /// Removes and returns the currently registered `Waker`, if there is one.
    pub fn take_waker(wow: &mut Self) -> (r: Option<Waker>)
        ensures
            Self::removes(*old(wow), *final(wow), r),
    {
        wow.waker.take()
    }

    /// Returns the currently registered `Waker`, leaving it registered, if
    /// there is one.
    pub fn waker(wow: &Self) -> (r: Option<&Waker>)
        ensures
            peeked(r) == wow.registered(),
    {
        wow.waker.as_ref()
    }
}

impl<T: Default> Default for WakeOnWrite<T> {
    /// A wrapper around `T`'s default value, with no waker registered.
    fn default() -> (r: Self)
        ensures
            call_ensures(T::default, (), r.value()),
            r.registered() is None,
            r.notified() == Seq::<Waker>::empty(),
    {
        Self::new(T::default())
    }
}

impl<T> std::ops::Deref for WakeOnWrite<T> {
    type Target = T;

    /// The wrapped value, read-only; nobody is woken.
    fn deref(&self) -> (r: &T)
        ensures
            *r == self.value(),
    {
        &self.inner
    }
}

impl<T> std::ops::DerefMut for WakeOnWrite<T> {
    /// The wrapped value, for writing. The registered waker, if any, is woken
    /// once, whether or not the value is then changed, and stays registered.
    fn deref_mut(&mut self) -> (r: &mut T)
        ensures
            *r == old(self).value(),
            final(self).value() == *final(r),
            Self::accessed_mut(*old(self), *final(self)),
    {
        if let Some(w) = &self.waker {
            w.wake_by_ref();
        }
        self.wakes = Ghost(self.wakes@ + wake_record(self.waker));
        &mut self.inner
    }
}

/// The wakes sent by `n` mutable accesses in a row while `waker` stays
/// registered: `n` wakes of that waker, or none when none is registered.
pub open spec fn wake_records(waker: Option<Waker>, n: nat) -> Seq<Waker> {
    match waker {
        Some(w) => Seq::new(n, |i: int| w),
        None => seq![],
    }
}

/// Reading a fresh wrapper of `value` yields exactly `value`, and no wake
/// has been sent; a read takes `&self`, so any number of reads leave the
/// wrapper as it was.
pub proof fn lemma_read_transparent<T>(value: T, c: WakeOnWrite<T>, read: T)
    requires
        WakeOnWrite::fresh(c, value),
        read == c.value(),
    ensures
        read == value,
        c.notified() == Seq::<Waker>::empty(),
{
}

/// One mutable access to a wrapper with `waker` registered wakes `waker`
/// exactly once, whatever value the access leaves behind, and `waker` stays
/// registered.
pub proof fn lemma_write_wakes<T>(pre: WakeOnWrite<T>, waker: Waker, post: WakeOnWrite<T>)
    requires
        pre.registered() == Some(waker),
        WakeOnWrite::accessed_mut(pre, post),
    ensures
        post.notified() == pre.notified().push(waker),
        post.registered() == Some(waker),
{
    assert(post.notified() =~= pre.notified().push(waker));
}

/// Over any run of mutable accesses, the wakes sent are one per access to the
/// waker registered at the start, and none at all when none is registered.
pub proof fn lemma_each_access_wakes<T>(states: Seq<WakeOnWrite<T>>)
    requires
        states.len() >= 1,
        forall|i: int|
            0 <= i < states.len() - 1 ==> #[trigger] WakeOnWrite::accessed_mut(
                states[i],
                states[i + 1],
            ),
    ensures
        states.last().registered() == states[0].registered(),
        states.last().notified() == states[0].notified() + wake_records(
            states[0].registered(),
            (states.len() - 1) as nat,
        ),
    decreases states.len(),
{
    let n = states.len();
    if n == 1 {
        assert(states[0].notified() + wake_records(states[0].registered(), 0) =~= states[0].notified());
    } else {
        let front = states.drop_last();
        assert(front.len() == n - 1);
        assert forall|i: int| 0 <= i < front.len() - 1 implies #[trigger] WakeOnWrite::accessed_mut(
            front[i],
            front[i + 1],
        ) by {
            assert(front[i] == states[i] && front[i + 1] == states[i + 1]);
        }
        lemma_each_access_wakes(front);
        let j: int = n - 2;
        assert(WakeOnWrite::accessed_mut(states[j], states[j + 1]));
        assert(front.last() == states[j]);
        let w = states[0].registered();
        assert(wake_records(w, (n - 2) as nat) + wake_record(w) =~= wake_records(w, (n - 1) as nat));
        assert(states[0].notified() + wake_records(w, (n - 2) as nat) + wake_record(w)
            =~= states[0].notified() + wake_records(w, (n - 1) as nat));
    }
}

/// With no waker registered, a mutable access sends no wake and registers
/// nothing.
pub proof fn lemma_no_waker_no_wake<T>(pre: WakeOnWrite<T>, post: WakeOnWrite<T>)
    requires
        pre.registered() is None,
        WakeOnWrite::accessed_mut(pre, post),
    ensures
        post.notified() == pre.notified(),
        post.registered() is None,
{
    assert(post.notified() =~= pre.notified());
}

/// Setting `second` after `first` hands back `first`, and looking then
/// shows `second`.
pub proof fn lemma_set_replaces<T>(
    c0: WakeOnWrite<T>,
    first: Waker,
    c1: WakeOnWrite<T>,
    prev1: Option<Waker>,
    second: Waker,
    c2: WakeOnWrite<T>,
    prev2: Option<Waker>,
    look: Option<&Waker>,
)
    requires
        WakeOnWrite::installs(c0, first, c1, prev1),
        WakeOnWrite::installs(c1, second, c2, prev2),
        peeked(look) == c2.registered(),
    ensures
        prev2 == Some(first),
        peeked(look) == Some(second),
{
}

/// Taking the waker after setting `waker` hands back `waker`; looking then
/// shows none, and a mutable access then wakes nobody.
pub proof fn lemma_take_clears<T>(
    c0: WakeOnWrite<T>,
    waker: Waker,
    c1: WakeOnWrite<T>,
    prev1: Option<Waker>,
    c2: WakeOnWrite<T>,
    taken: Option<Waker>,
    look: Option<&Waker>,
    c3: WakeOnWrite<T>,
)
    requires
        WakeOnWrite::installs(c0, waker, c1, prev1),
        WakeOnWrite::removes(c1, c2, taken),
        peeked(look) == c2.registered(),
        WakeOnWrite::accessed_mut(c2, c3),
    ensures
        taken == Some(waker),
        peeked(look) is None,
        c3.notified() == c2.notified(),
{
    lemma_no_waker_no_wake(c2, c3);
}

/// Taking the waker from a wrapper that has none hands back nothing and
/// leaves the wrapper exactly as it was.
pub proof fn lemma_take_idempotent<T>(pre: WakeOnWrite<T>, post: WakeOnWrite<T>, taken: Option<Waker>)
    requires
        pre.registered() is None,
        WakeOnWrite::removes(pre, post, taken),
    ensures
        taken is None,
        post == pre,
{
}

} // verus!
