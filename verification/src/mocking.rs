//! The mock registry and its dispatch protocol.
//!
//! A registry belongs to one thread of a test run: every thread works on its
//! own registry value, so replacements registered on one thread are never
//! seen from another. The registry maps function identities to replacement
//! closures. Dispatch, run at the entry of every mockable function, asks the
//! registry for the active replacement; the replacement answers with a
//! [`MockResult`] verdict that either substitutes the call's arguments or
//! supplies the call's result outright.

use std::collections::HashMap;
use vstd::prelude::*;

verus! {

broadcast use vstd::std_specs::hash::group_hash_axioms;

/// The verdict a replacement closure returns to the dispatch engine.
pub enum MockResult<T, O> {
    /// Proceed into the real function body, using the carried tuple (possibly
    /// different from the original call arguments) as the effective
    /// arguments.
    Continue(T),
    /// Skip the real body entirely; the carried value becomes the call's
    /// result. For an asynchronous function the value is itself a still
    /// pending computation, which the caller drives exactly as it would have
    /// driven the original one.
    Return(O),
}

/// A stable identity for one mockable function, or for one concrete
/// instantiation of a generic one.
///
/// Distinct functions, and distinct instantiations of one generic function,
/// carry distinct tokens; the token is the key under which a replacement is
/// stored. The identity also records whether the function is required to be
/// evaluable at compile time: such a function is compiled before any registry
/// exists, so dispatch never consults a registry for it.
#[derive(Clone, Copy, Debug, PartialEq, Eq, Hash, Structural)]
pub struct FnId {
    /// The unique token of this function or instantiation.
    pub token: u64,
    /// Whether the function is required to be evaluable at compile time.
    pub const_evaluated: bool,
}

impl FnId {
    /// The identity of an ordinary runtime function.
    pub fn of_fn(token: u64) -> (id: FnId)
        ensures
            id == (FnId { token, const_evaluated: false }),
    {
        FnId { token, const_evaluated: false }
    }

    /// The identity of a function that is required to be evaluable at
    /// compile time.
    pub fn of_const_fn(token: u64) -> (id: FnId)
        ensures
            id == (FnId { token, const_evaluated: true }),
    {
        FnId { token, const_evaluated: true }
    }
}

/// The replacement that dispatch consults for `id` in a registry whose
/// contents are `mocks`: the one stored under the identity's token, except
/// that a function evaluated at compile time never has an active replacement,
/// however much is registered against it.
pub open spec fn active_mock<M>(mocks: Map<u64, M>, id: FnId) -> Option<M> {
    if !id.const_evaluated && mocks.contains_key(id.token) {
        Some(mocks[id.token])
    } else {
        None
    }
}

/// One thread's mock registry: at most one active replacement per function
/// identity.
///
/// The registry's view is the map from tokens to stored replacements.
pub struct MockRegistry<M> {
    slots: HashMap<u64, M>,
}

impl<M> MockRegistry<M> {
    /// The stored replacements, by token.
    pub closed spec fn view(&self) -> Map<u64, M> {
        self.slots@
    }

    /// Creates the registry of a thread on which nothing has been mocked
    /// yet: every function still shows its real behavior.
    pub fn new() -> (registry: Self)
        ensures
            registry@ == Map::<u64, M>::empty(),
    {
        MockRegistry { slots: HashMap::new() }
    }

    /// Registers `mock` as the active replacement for the function identity
    /// `id`. A replacement registered earlier under the same identity is
    /// silently replaced; no error is raised on overwrite.
    ///
    /// Registration succeeds even for an identity whose function is
    /// evaluated at compile time; the stored replacement is then simply
    /// never consulted.
    pub fn set_mock(&mut self, id: FnId, mock: M)
        ensures
            final(self)@ == old(self)@.insert(id.token, mock),
    {
        self.slots.insert(id.token, mock);
    }

    /// Removes the active replacement for the function identity `id`, so
    /// that the real behavior runs again. Removing an identity that has no
    /// replacement is a no-op.
    pub fn unmock(&mut self, id: FnId)
        ensures
            final(self)@ == old(self)@.remove(id.token),
    {
        self.slots.remove(&id.token);
    }

    /// Removes every registered replacement.
    pub fn clear_mocks(&mut self)
        ensures
            final(self)@ == Map::<u64, M>::empty(),
    {
        self.slots.clear();
    }

    /// Whether a replacement is stored under the function identity `id`.
    ///
    /// A stored replacement is not necessarily consulted: for an identity
    /// whose function is evaluated at compile time, dispatch ignores it.
    pub fn is_mocked(&self, id: FnId) -> (mocked: bool)
        ensures
            mocked == self@.contains_key(id.token),
    {
        self.slots.contains_key(&id.token)
    }
}

/// Dispatch: given the arguments of one call of the function with identity
/// `id`, consults the registry. With no active replacement the verdict is
/// `Continue` with the arguments unchanged, so the caller proceeds into the
/// real body exactly as if nothing were mocked; with an active replacement
/// the verdict is whatever the replacement returns for these arguments.
pub fn call_mock<A, R, F: Fn(A) -> MockResult<A, R>>(
    registry: &MockRegistry<F>,
    id: FnId,
    input: A,
) -> (verdict: MockResult<A, R>)
    requires
        active_mock(registry@, id) matches Some(mock) ==> call_requires(mock, (input,)),
    ensures
        active_mock(registry@, id) is None ==> verdict == MockResult::<A, R>::Continue(input),
        active_mock(registry@, id) matches Some(mock) ==> call_ensures(mock, (input,), verdict),
{
    if id.const_evaluated {
        return MockResult::Continue(input);
    }
    match registry.slots.get(&id.token) {
        Some(mock) => mock(input),
        None => MockResult::Continue(input),
    }
}

/// What a mocked call may return: some verdict of the replacement `mock` on
/// `input` explains the output. A `Continue` verdict ran the real `body` on
/// the substituted arguments; a `Return` verdict became the output as it
/// stands, never run or altered by dispatch.
pub open spec fn mocked_call_ensures<A, R, F: Fn(A) -> MockResult<A, R>, Body: FnOnce(A) -> R>(
    mock: F,
    body: Body,
    input: A,
    output: R,
) -> bool {
    exists|verdict: MockResult<A, R>|
        #[trigger] call_ensures(mock, (input,), verdict) && match verdict {
            MockResult::Continue(args) => call_ensures(body, (args,), output),
            MockResult::Return(value) => output == value,
        }
}

/// The dispatch preamble of one mockable function: consults the registry for
/// the identity `id` and branches on the verdict. With no active replacement
/// the real `body` runs on the original arguments; a `Continue` verdict runs
/// the real `body` on the substituted arguments; a `Return` verdict becomes
/// the call's result directly.
///
/// The registry is consulted exactly once per call. A code generator that
/// wraps one function's body in this preamble more than once changes what a
/// `Continue` verdict does — the replacement would run once per wrapping —
/// so keeping the wrapping single is the generator's obligation.
pub fn run_mockable<A, R, F: Fn(A) -> MockResult<A, R>, Body: FnOnce(A) -> R>(
    registry: &MockRegistry<F>,
    id: FnId,
    input: A,
    body: Body,
) -> (output: R)
    requires
        active_mock(registry@, id) is None ==> call_requires(body, (input,)),
        active_mock(registry@, id) matches Some(mock) ==> call_requires(mock, (input,))
            && forall|args: A|
            call_ensures(mock, (input,), MockResult::Continue(args)) ==> call_requires(
                body,
                (args,),
            ),
    ensures
        active_mock(registry@, id) is None ==> call_ensures(body, (input,), output),
        active_mock(registry@, id) matches Some(mock) ==> mocked_call_ensures(
            mock,
            body,
            input,
            output,
        ),
{
    match call_mock(registry, id, input) {
        MockResult::Continue(args) => body(args),
        MockResult::Return(value) => value,
    }
}

/// A thread on which nothing has been mocked yet sees every function's real
/// behavior: no identity has an active replacement in an empty registry.
/// Registries are per thread, so however much another thread's tests have
/// mocked, a test on a fresh thread starts from this state.
pub proof fn lemma_fresh_registry_is_unmocked<M>(id: FnId)
    ensures
        active_mock(Map::<u64, M>::empty(), id) is None,
{
}

/// Distinct function identities are isolated: registering a replacement
/// under one identity leaves the active replacement of every other identity
/// unchanged. In particular, mocking one concrete instantiation of a generic
/// function never affects another instantiation, because distinct
/// instantiations carry distinct tokens.
pub proof fn lemma_distinct_identities_are_isolated<M>(
    mocks: Map<u64, M>,
    mocked: FnId,
    other: FnId,
    mock: M,
)
    requires
        mocked.token != other.token,
    ensures
        active_mock(mocks.insert(mocked.token, mock), other) == active_mock(mocks, other),
{
}

/// Removing an identity's replacement restores its real behavior: after
/// `unmock`, dispatch for that identity no longer finds an active
/// replacement.
pub proof fn lemma_unmock_restores_real_behavior<M>(mocks: Map<u64, M>, id: FnId)
    ensures
        active_mock(mocks.remove(id.token), id) is None,
{
}

/// A function that is required to be evaluable at compile time never has an
/// active replacement, whatever is registered against its token: a mock
/// registered for it is accepted, stored and silently never consulted.
pub proof fn lemma_const_evaluated_ignores_mocks<M>(mocks: Map<u64, M>, id: FnId)
    requires
        id.const_evaluated,
    ensures
        active_mock(mocks, id) is None,
{
}

/// A `Continue` verdict substitutes arguments, not results: when the
/// replacement always answers `Continue` with the two arguments swapped, and
/// the real body always returns its first argument, a mocked call returns
/// the original second argument — the real computation ran, on the swapped
/// arguments.
pub proof fn lemma_continue_substitutes_arguments<
    T,
    F: Fn((T, T)) -> MockResult<(T, T), T>,
    Body: FnOnce((T, T)) -> T,
>(mock: F, body: Body, first: T, second: T, output: T)
    requires
        forall|verdict: MockResult<(T, T), T>|
            #[trigger] call_ensures(mock, ((first, second),), verdict) ==> verdict
                == MockResult::<(T, T), T>::Continue((second, first)),
        forall|args: (T, T), result: T|
            #[trigger] call_ensures(body, (args,), result) ==> result == args.0,
        mocked_call_ensures(mock, body, (first, second), output),
    ensures
        output == second,
{
}

} // verus!
