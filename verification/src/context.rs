//! Context-gated values.
//!
//! A [`ContextDependent`] wraps a value whose operations may only run while
//! a host context (such as a graphics context) is entered. The wrapper is
//! a type-state machine: in the [`Enabled`] state it carries a borrow of
//! the live context, in the [`Disabled`] state the value can only be
//! stored, re-enabled, or temporarily viewed through a guard holding a
//! fresh context borrow. All transitions keep the wrapped value.

use vstd::prelude::*;
use vstd::pervasive::unreached;
use core::marker::PhantomData;

verus! {

/// A host context: while a value of the type lives, context-dependent
/// operations may run. Implementors connect to the host, so nothing is
/// promised of these methods.
pub trait Context: Sized {
    /// Enters the context only if it is not already entered. Returns
    /// `None` if it is, or if entering failed.
    fn enter_once() -> Option<Self>;

    /// Retrieves the context entered by the host around a callback.
    /// Returns `None` if the context is not entered.
    fn get_current() -> Option<Self>;

    /// Either retrieves the current context, or tries to enter it.
    /// Returns `None` on failure.
    fn enter() -> Option<Self> {
        if let Some(current) = Self::get_current() {
            Some(current)
        } else {
            Self::enter_once()
        }
    }
}

/// The two states a [`ContextDependent`] can be in.
pub trait ContextDependentState {
    /// Whether this state carries a live context.
    fn is_enabled() -> bool;
}

/// State of a wrapper holding a borrow of the live context `C`.
pub struct Enabled<'a, C: Context> {
    context: &'a C,
}

impl<'a, C: Context> ContextDependentState for Enabled<'a, C> {
    fn is_enabled() -> bool {
        true
    }
}

/// State of a wrapper whose value is stored outside the context.
pub struct Disabled;

impl ContextDependentState for Disabled {
    fn is_enabled() -> bool {
        false
    }
}

/// A wrapper for context-dependent values; operations on the wrapped value
/// are only reachable while the wrapper is in the [`Enabled`] state.
pub struct ContextDependent<T, C: Context, S: ContextDependentState> {
    data: Option<T>,
    state: S,
    __marker: PhantomData<C>,
}

impl<T, C: Context, S: ContextDependentState> ContextDependent<T, C, S> {
    /// The wrapped value, if the wrapper is not mid-transition.
    pub closed spec fn spec_data(self) -> Option<T> {
        self.data
    }

    /// The state value.
    pub closed spec fn spec_state(self) -> S {
        self.state
    }

    /// Read access to the state value.
    pub fn state(&self) -> (r: &S)
        ensures
            *r == self.spec_state(),
    {
        &self.state
    }
}

impl<'a, T, C: Context> ContextDependent<T, C, Enabled<'a, C>> {
    /// The context borrow carried by the enabled state.
    pub closed spec fn spec_context(self) -> &'a C {
        self.state.context
    }

    /// Wrap a value within a live context.
    pub fn new(data: T, context: &'a C) -> (r: Self)
        ensures
            r.spec_data() == Some(data),
            r.spec_context() == context,
    {
        Self {
            data: Some(data),
            state: Enabled { context },
            __marker: PhantomData,
        }
    }

    /// Leave the context: the wrapped value becomes inert but storable.
    /// The returned disabled value must be re-enabled, not dropped.
    #[must_use]
    pub fn disable(self) -> (r: ContextDependent<T, C, Disabled>)
        ensures
            r.spec_data() == self.spec_data(),
    {
        let ContextDependent { data, state: _, __marker: _ } = self;
        ContextDependent {
            data,
            state: Disabled,
            __marker: PhantomData,
        }
    }

    /// Transform the wrapped value without leaving the context.
    pub fn map<R, F: FnOnce(T) -> R>(self, map: F) -> (r: ContextDependent<R, C, Enabled<'a, C>>)
        requires
            self.spec_data() is Some,
            map.requires((self.spec_data().unwrap(),)),
        ensures
            r.spec_data() is Some,
            map.ensures((self.spec_data().unwrap(),), r.spec_data().unwrap()),
            r.spec_context() == self.spec_context(),
    {
        let ContextDependent { data, state, __marker: _ } = self;
        let mapped_data = (map)(data.unwrap());
        ContextDependent {
            data: Some(mapped_data),
            state: Enabled { context: state.context },
            __marker: PhantomData,
        }
    }

    /// The live context this wrapper is tied to.
    pub fn context(&self) -> (r: &'a C)
        ensures
            r == self.spec_context(),
    {
        &self.state.context
    }

    /// Borrow the wrapped value; inside the context it is freely readable.
    pub fn get(&self) -> (r: &T)
        requires
            self.spec_data() is Some,
        ensures
            *r == self.spec_data().unwrap(),
    {
        match self.data.as_ref() {
            Some(data) => data,
            None => unreached(),
        }
    }

    /// Borrow the wrapped value mutably; the wrapper afterwards holds
    /// whatever the caller wrote through the borrow, under the same
    /// context.
    pub fn get_mut(&mut self) -> (r: &mut T)
        requires
            old(self).spec_data() is Some,
        ensures
            *r == old(self).spec_data().unwrap(),
            final(self).spec_data() == Some(*final(r)),
            final(self).spec_context() == old(self).spec_context(),
    {
        match self.data.as_mut() {
            Some(data) => data,
            None => unreached(),
        }
    }
}

impl<T, C: Context> ContextDependent<T, C, Disabled> {
    /// Re-enter a context: the wrapped value becomes usable again.
    pub fn enable<'a>(self, context: &'a C) -> (r: ContextDependent<T, C, Enabled<'a, C>>)
        ensures
            r.spec_data() == self.spec_data(),
            r.spec_context() == context,
    {
        let ContextDependent { data, state: _, __marker: _ } = self;
        ContextDependent {
            data,
            state: Enabled { context },
            __marker: PhantomData,
        }
    }

    /// View the stored value through a guard while a context is live.
    pub fn as_enabled<'a, 'b>(&'b self, context: &'a C) -> (r: EnableGuard<'a, 'b, T, C>)
        ensures
            r.spec_disabled() == self,
            r.spec_context() == context,
    {
        EnableGuard { disabled: self, context }
    }

    /// View the stored value mutably through a guard while a context is
    /// live: the guard starts over this wrapper's value, and the wrapper
    /// afterwards holds whatever was written through the guard.
    pub fn as_enabled_mut<'a, 'b>(&'b mut self, context: &'a C) -> (r: EnableGuardMut<'a, 'b, T, C>)
        ensures
            r.spec_disabled() == *old(self),
            *final(self) == *final(r.disabled),
            r.spec_context() == context,
    {
        EnableGuardMut { disabled: self, context }
    }
}

/// Mutable guard lending a context to a disabled wrapper.
///
/// The borrow of the wrapper is a public field so that contracts can
/// relate the wrapper behind the guard to the wrapper the guard was made
/// from, including what it holds once the borrow expires.
pub struct EnableGuardMut<'a, 'b, T, C: Context> {
    pub disabled: &'b mut ContextDependent<T, C, Disabled>,
    pub context: &'a C,
}

impl<'a, 'b, T, C: Context> EnableGuardMut<'a, 'b, T, C> {
    /// The guarded wrapper, as the guard sees it.
    pub closed spec fn spec_disabled(self) -> ContextDependent<T, C, Disabled> {
        *self.disabled
    }

    /// The context lent to the guard.
    pub closed spec fn spec_context(self) -> &'a C {
        self.context
    }

    /// The context lent to the guard.
    pub fn context(&self) -> (r: &'a C)
        ensures
            r == self.spec_context(),
    {
        self.context
    }

    /// Borrow the guarded wrapper's stored value; within the lent context
    /// it is freely readable.
    pub fn get(&self) -> (r: &T)
        requires
            self.spec_disabled().spec_data() is Some,
        ensures
            *r == self.spec_disabled().spec_data().unwrap(),
    {
        match self.disabled.data.as_ref() {
            Some(data) => data,
            None => unreached(),
        }
    }

    /// Take the guard's mutable access to the stored value, for the whole
    /// lifetime the guard covers: once the borrow expires, the wrapper the
    /// guard was made from holds whatever the caller wrote through it, and
    /// stays disabled.
    pub fn get_mut(self) -> (r: &'b mut T)
        requires
            self.spec_disabled().spec_data() is Some,
        ensures
            *r == self.spec_disabled().spec_data().unwrap(),
            (*final(self.disabled)).spec_data() == Some(*final(r)),
            (*final(self.disabled)).spec_state() == self.spec_disabled().spec_state(),
    {
        match self.disabled.data.as_mut() {
            Some(data) => data,
            None => unreached(),
        }
    }
}

/// Shared guard lending a context to a disabled wrapper.
pub struct EnableGuard<'a, 'b, T, C: Context> {
    disabled: &'b ContextDependent<T, C, Disabled>,
    context: &'a C,
}

impl<'a, 'b, T, C: Context> EnableGuard<'a, 'b, T, C> {
    /// The guarded wrapper.
    pub closed spec fn spec_disabled(self) -> &'b ContextDependent<T, C, Disabled> {
        self.disabled
    }

    /// The context lent to the guard.
    pub closed spec fn spec_context(self) -> &'a C {
        self.context
    }

    /// The context lent to the guard.
    pub fn context(&self) -> (r: &'a C)
        ensures
            r == self.spec_context(),
    {
        self.context
    }

    /// Borrow the guarded wrapper's stored value; within the lent context
    /// it is freely readable.
    pub fn get(&self) -> (r: &T)
        requires
            self.spec_disabled().spec_data() is Some,
        ensures
            *r == self.spec_disabled().spec_data().unwrap(),
    {
        match self.disabled.data.as_ref() {
            Some(data) => data,
            None => unreached(),
        }
    }
}

/// Types that can be created directly inside a context.
pub trait DefaultInContext<C: Context>: Sized {
    /// Create the default value of the type within the live context.
    fn default_in_context<'a>(context: &'a C) -> ContextDependent<Self, C, Enabled<'a, C>>;
}

/// Types that carry a context and can lend it out.
pub trait ContextCarrier<C: Context> {
    /// The carried context.
    fn context(&self) -> &C;
}

impl<C: Context> ContextCarrier<C> for C {
    fn context(&self) -> (r: &C)
        ensures
            r == self,
    {
        self
    }
}

} // verus!
