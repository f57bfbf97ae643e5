//! A value that may or may not be loaded yet.
use vstd::prelude::*;

verus! {

/// Either a loaded value, or nothing yet.
#[derive(Debug, Copy, Clone, Hash, PartialEq, Eq)]
pub enum Lazy<T> {
    Loaded(T),
    Unloaded,
}

/// The `Lazy` that holds what `opt` holds.
pub open spec fn lazy_from_option<T>(opt: Option<T>) -> Lazy<T> {
    match opt {
        Some(x) => Lazy::Loaded(x),
        None => Lazy::Unloaded,
    }
}

impl<T> Lazy<T> {
    /// The `Option` that holds what this holds.
    pub open spec fn spec_into_option(self) -> Option<T> {
        match self {
            Lazy::Loaded(x) => Some(x),
            Lazy::Unloaded => None,
        }
    }

    pub fn from_option(opt: Option<T>) -> (r: Lazy<T>)
        ensures
            r == lazy_from_option(opt),
    {
        match opt {
            Some(x) => Lazy::Loaded(x),
            None => Lazy::Unloaded,
        }
    }

    pub fn into_option(self) -> (r: Option<T>)
        ensures
            r == self.spec_into_option(),
    {
        match self {
            Lazy::Loaded(x) => Some(x),
            Lazy::Unloaded => None,
        }
    }

    pub fn is_loaded(&self) -> (r: bool)
        ensures
            r == (*self is Loaded),
    {
        if let Lazy::Loaded(_) = *self {
            true
        } else {
            false
        }
    }

    pub fn is_unloaded(&self) -> (r: bool)
        ensures
            r == (*self is Unloaded),
    {
        !self.is_loaded()
    }

    pub fn set(&mut self, value: T)
        ensures
            *final(self) == Lazy::Loaded(value),
    {
        *self = Lazy::Loaded(value);
    }

    pub fn unload(&mut self)
        ensures
            *final(self) == Lazy::<T>::Unloaded,
    {
        *self = Lazy::Unloaded;
    }

    pub fn as_ref(&self) -> (r: Lazy<&T>)
        ensures
            r == (match *self {
                Lazy::Loaded(x) => Lazy::Loaded(&x),
                Lazy::Unloaded => Lazy::<&T>::Unloaded,
            }),
    {
        match self {
            Lazy::Loaded(x) => Lazy::Loaded(x),
            Lazy::Unloaded => Lazy::Unloaded,
        }
    }

    pub fn as_mut(&mut self) -> (r: Lazy<&mut T>)
        ensures
            match r {
                Lazy::Loaded(x) => *old(self) matches Lazy::Loaded(v) && *x == v && *final(self)
                    == Lazy::Loaded(*final(x)),
                Lazy::Unloaded => *old(self) is Unloaded && *final(self) is Unloaded,
            },
    {
        match self {
            Lazy::Loaded(x) => Lazy::Loaded(x),
            Lazy::Unloaded => Lazy::Unloaded,
        }
    }

    /// The loaded value; there must be one.
    pub fn unwrap(self) -> (r: T)
        requires
            self is Loaded,
        ensures
            self == Lazy::Loaded(r),
    {
        self.expect("Tried to unwrap() an unloaded value")
    }

    /// The loaded value; there must be one (`msg` says why).
    pub fn expect(self, msg: &str) -> (r: T)
        requires
            self is Loaded,
        ensures
            self == Lazy::Loaded(r),
    {
        match self {
            Lazy::Loaded(x) => x,
            Lazy::Unloaded => vstd::pervasive::unreached(),
        }
    }
}

impl<T> From<Option<T>> for Lazy<T> {
    fn from(opt: Option<T>) -> (r: Lazy<T>) {
        Lazy::from_option(opt)
    }
}

impl<T> vstd::std_specs::convert::FromSpecImpl<Option<T>> for Lazy<T> {
    open spec fn obeys_from_spec() -> bool {
        true
    }

    open spec fn from_spec(opt: Option<T>) -> Lazy<T> {
        lazy_from_option(opt)
    }
}

impl<T> Default for Lazy<T> {
    fn default() -> (r: Lazy<T>)
        ensures
            r is Unloaded,
    {
        Lazy::Unloaded
    }
}

} // verus!
