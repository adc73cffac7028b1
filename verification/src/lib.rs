//! A mutable, lazily-initialized cell.
//!
//! A [`LazyMut`] owns either a deferred initializer or a fully constructed
//! value, and hands the value out by exclusive (mutable) reference so that it
//! can be built on first use and then mutated in place. The cell moves through
//! a small state machine: it starts `Uninit`, becomes `Inited` the first time
//! the value is demanded, and is marked `Poisoned` while that transition is in
//! flight, so that an initializer that never returns leaves the cell in a
//! well-defined, permanently unusable state rather than holding torn data.

use vstd::prelude::*;
use vstd::string::StringExecFns;

verus! {

/// The state a [`LazyMut`] cell is in at any observation point.
///
/// Exactly one variant holds at a time; the only reachable transitions are
/// `Uninit -> Inited` and `Uninit -> Poisoned`, and `Poisoned` is terminal.
/// The type is public so that the contracts on [`LazyMut`] can name the
/// cell's state directly.
pub enum State<T, F> {
    /// The initializer has not run yet; the cell owns it, unconsumed.
    Uninit(F),
    /// The initializer has been consumed; the cell owns the constructed value.
    Inited(T),
    /// An initialization attempt began and did not complete: the cell owns
    /// neither an initializer nor a value, and no operation can revive it.
    Poisoned,
}

/// A mutable, lazily-initialized cell: a value of type `T` built on first
/// demand by an initializer of type `F`, then accessed and mutated in place.
pub struct LazyMut<T, F = fn() -> T> {
    state: State<T, F>,
}

impl<T, F> LazyMut<T, F> {
    /// The cell's current state, for use in contracts.
    pub closed spec fn state_of(self) -> State<T, F> {
        self.state
    }

    /// Creates a new cell holding `f`, without invoking it.
    pub fn new(f: F) -> (c: Self)
        ensures
            c.state_of() == State::<T, F>::Uninit(f),
    {
        LazyMut { state: State::Uninit(f) }
    }

    /// Returns a reference to the value if the cell is initialized, and
    /// `None` otherwise, without triggering initialization.
    pub fn try_get(&self) -> (r: Option<&T>)
        ensures
            match r {
                Some(v) => self.state_of() matches State::Inited(val) && *v == val,
                None => !(self.state_of() is Inited),
            },
    {
        self.state.try_get()
    }

    /// Returns an exclusive reference to the value if the cell is
    /// initialized, and `None` otherwise, without triggering initialization.
    /// In either case the cell stays in its current state; mutation through
    /// the returned reference is reflected in the cell's value.
    pub fn try_get_mut(&mut self) -> (r: Option<&mut T>)
        ensures
            match r {
                Some(v) => old(self).state_of() matches State::Inited(val) && *v == val
                    && final(self).state_of() == State::<T, F>::Inited(*final(v)),
                None => !(old(self).state_of() is Inited) && *final(self) == *old(self),
            },
    {
        self.state.try_get_mut()
    }

    /// Consumes the cell and returns the owned value if it was initialized,
    /// and `None` if it was never initialized (the initializer is dropped
    /// without ever running). Consumption never triggers initialization. A
    /// poisoned cell must not be handed to this operation: reuse after a
    /// failed initialization is a caller error.
    pub fn into_inner(self) -> (r: Option<T>)
        requires
            !(self.state_of() is Poisoned),
        ensures
            match r {
                Some(v) => self.state_of() == State::<T, F>::Inited(v),
                None => self.state_of() is Uninit,
            },
    {
        match self.state {
            State::Uninit(_) => None,
            State::Inited(v) => Some(v),
            State::Poisoned => unreached(),
        }
    }
}

impl<T, F: FnOnce() -> T> LazyMut<T, F> {
    /// Returns an exclusive reference to the value, invoking the stored
    /// initializer first if the cell has never been initialized. After the
    /// call the cell is initialized with whatever value the returned
    /// reference leaves behind. A poisoned cell must not be handed to this
    /// operation: reuse after a failed initialization is a caller error.
    pub fn get(&mut self) -> (r: &mut T)
        requires
            !(old(self).state_of() is Poisoned),
            old(self).state_of() matches State::Uninit(f) ==> call_requires(f, ()),
        ensures
            old(self).state_of() matches State::Inited(val) ==> *r == val,
            old(self).state_of() matches State::Uninit(f) ==> call_ensures(f, (), *r),
            final(self).state_of() == State::<T, F>::Inited(*final(r)),
    {
        self.state.get_or_init()
    }
}

impl<T, F> State<T, F> {
    /// Returns a reference to the value of an `Inited` state, and `None`
    /// for the other two states.
    pub fn try_get(&self) -> (r: Option<&T>)
        ensures
            match r {
                Some(v) => *self matches State::Inited(val) && *v == val,
                None => !(*self is Inited),
            },
    {
        if let State::Inited(v) = self {
            Some(v)
        } else {
            None
        }
    }

    /// Returns an exclusive reference to the value of an `Inited` state, and
    /// `None` for the other two states; the state itself is not changed.
    pub fn try_get_mut(&mut self) -> (r: Option<&mut T>)
        ensures
            match r {
                Some(v) => *old(self) matches State::Inited(val) && *v == val
                    && *final(self) == State::<T, F>::Inited(*final(v)),
                None => !(*old(self) is Inited) && *final(self) == *old(self),
            },
    {
        if let State::Inited(v) = self {
            Some(v)
        } else {
            None
        }
    }
}

impl<T, F: FnOnce() -> T> State<T, F> {
    /// Returns an exclusive reference to the value, first consuming and
    /// invoking the initializer if the state is still `Uninit`. While the
    /// initializer runs, the state is transiently `Poisoned`, so an
    /// initializer that never returns leaves the state `Poisoned` rather
    /// than partially built. A `Poisoned` state must not be handed in.
    pub fn get_or_init(&mut self) -> (r: &mut T)
        requires
            !(*old(self) is Poisoned),
            *old(self) matches State::Uninit(f) ==> call_requires(f, ()),
        ensures
            *old(self) matches State::Inited(val) ==> *r == val,
            *old(self) matches State::Uninit(f) ==> call_ensures(f, (), *r),
            *final(self) == State::<T, F>::Inited(*final(r)),
    {
        match self {
            State::Inited(v) => v,
            State::Uninit(_) => {
                let mut this = State::Poisoned;
                core::mem::swap(self, &mut this);
                match this {
                    State::Uninit(f) => {
                        *self = State::Inited(f());
                        match self {
                            State::Inited(v) => v,
                            _ => unreached(),
                        }
                    },
                    _ => unreached(),
                }
            },
            State::Poisoned => unreached(),
        }
    }
}

/// Relies on `format!` with `core::fmt::Debug`: renders a value as its
/// `Debug` text. The text depends on the value type's `Debug` implementation,
/// so nothing is stated about it.
#[verifier::external_body]
fn debug_of<T: core::fmt::Debug>(v: &T) -> String {
    format!("{:?}", v)
}

impl<T: core::fmt::Debug, F> LazyMut<T, F> {
    /// An inspection rendering of the cell: the initialized value's `Debug`
    /// text between `LazyMut(` and `)` when a value is present, and the
    /// placeholder `LazyMut(<uninit>)` otherwise. Inspection never triggers
    /// initialization, and does not distinguish a poisoned cell from an
    /// uninitialized one.
    pub fn debug_string(&self) -> (r: String)
        ensures
            !(self.state_of() is Inited) ==> r@ == "LazyMut(<uninit>)"@,
            self.state_of() is Inited ==> exists|d: Seq<char>|
                r@ == "LazyMut("@ + d + ")"@,
    {
        match self.state.try_get() {
            Some(v) => {
                let d = debug_of(v);
                let mut s = String::new();
                s.append("LazyMut(");
                s.append(d.as_str());
                s.append(")");
                proof {
                    assert(s@ == "LazyMut("@ + d@ + ")"@) by {
                        assert(Seq::<char>::empty() + "LazyMut("@ =~= "LazyMut("@);
                    }
                }
                s
            },
            None => {
                let mut s = String::new();
                s.append("LazyMut(<uninit>)");
                proof {
                    assert(s@ =~= "LazyMut(<uninit>)"@);
                }
                s
            },
        }
    }
}

impl<T: Default, F> Default for State<T, F> {
    /// Builds a state that is already `Inited`, holding the value type's
    /// default value; the `Uninit` state is bypassed entirely.
    fn default() -> (s: Self)
        ensures
            s matches State::Inited(v) && call_ensures(T::default, (), v),
    {
        State::Inited(T::default())
    }
}

impl<T: Default, F> Default for LazyMut<T, F> {
    /// Builds a cell that is already initialized with the value type's
    /// default value, without an initializer; peeking at it immediately
    /// yields that value.
    fn default() -> (c: Self)
        ensures
            c.state_of() matches State::Inited(v) && call_ensures(T::default, (), v),
    {
        LazyMut { state: State::default() }
    }
}

/// Law: the three cell states are mutually exclusive — at any observation
/// point exactly one of `Uninit`, `Inited` and `Poisoned` holds, so "no
/// value yet", "value present" and "initialization failed" can never overlap.
pub proof fn lemma_states_mutually_exclusive<T, F>(c: LazyMut<T, F>)
    ensures
        c.state_of() is Uninit || c.state_of() is Inited || c.state_of() is Poisoned,
        c.state_of() is Uninit ==> !(c.state_of() is Inited) && !(c.state_of() is Poisoned),
        c.state_of() is Inited ==> !(c.state_of() is Uninit) && !(c.state_of() is Poisoned),
        c.state_of() is Poisoned ==> !(c.state_of() is Uninit) && !(c.state_of() is Inited),
{
}

/// Law: a fresh cell holds no value. `new(f)` leaves the cell `Uninit`, and
/// an `Uninit` state is not `Inited`, so by the contracts of `try_get` and
/// `try_get_mut` both peeks return `None` before any call to `get`, and by
/// the contract of `into_inner` consuming the untouched cell returns `None`
/// with the initializer dropped unrun.
pub proof fn lemma_fresh_cell_holds_no_value<T, F>(c: LazyMut<T, F>, f: F)
    requires
        c.state_of() == State::<T, F>::Uninit(f),
    ensures
        !(c.state_of() is Inited),
        !(c.state_of() is Poisoned),
{
}

/// Law: once a cell is initialized its value is pinned until it is mutated
/// or consumed. For a cell in state `Inited(v)`, the contracts of `get`,
/// `try_get` and `try_get_mut` all yield exactly `v` (no initializer exists
/// any more to be invoked again), and `into_inner` yields `Some(v)`.
pub proof fn lemma_initialized_value_pinned<T, F>(c: LazyMut<T, F>, v: T)
    requires
        c.state_of() == State::<T, F>::Inited(v),
    ensures
        c.state_of() is Inited,
        !(c.state_of() is Poisoned),
        c.state_of() matches State::Inited(val) && val == v,
{
}

/// Law: every operation respects the state machine, at the granularity of
/// the three states. The contracts of `try_get`, `try_get_mut`, `get` and
/// `into_inner` only ever relate a prior state and a later state that sit in
/// the same variant (the value inside `Inited` may change, through the
/// exclusive references the accessors hand out), or that step out of
/// `Uninit` into `Inited` or `Poisoned`: `Inited` and `Poisoned` are
/// terminal variants, and nothing re-enters `Uninit`.
pub open spec fn state_step<T, F>(pre: State<T, F>, post: State<T, F>) -> bool {
    ||| pre is Uninit
    ||| (pre is Inited && post is Inited)
    ||| (pre is Poisoned && post is Poisoned)
}

/// Law: `Poisoned` is terminal and irreversible. Any step the state machine
/// allows from a `Poisoned` state leaves the state exactly as it is: no
/// initializer remains to be re-invoked and no stale value can be handed
/// out. The value-producing operations (`get`, `into_inner`) exclude a
/// `Poisoned` prior state outright in their preconditions, so reuse of a
/// poisoned cell is a caller error, never an admitted input.
pub proof fn lemma_poisoned_is_terminal<T, F>(pre: State<T, F>, post: State<T, F>)
    requires
        pre is Poisoned,
        state_step(pre, post),
    ensures
        post == pre,
{
}

/// Law: materialization steps the state machine into `Inited`. Any prior
/// state admitted by `get`'s precondition and any final state described by
/// `get`'s postcondition form an allowed step, and the final state is
/// `Inited` — so a cell that `get` has returned from can never again be
/// `Uninit` or become `Poisoned` by that call.
pub proof fn lemma_get_steps_to_inited<T, F>(pre: State<T, F>, post: State<T, F>, v: T)
    requires
        !(pre is Poisoned),
        pre matches State::Inited(val) ==> val == v,
        post == State::<T, F>::Inited(v),
    ensures
        state_step(pre, post),
        post is Inited,
{
}

} // verus!
