//! Linear resource handles with explicit acquire and release.

use core::marker::PhantomData;
use vstd::prelude::*;

use super::multiplicitas::Semel;
use super::qtt::Qtt;

verus! {

/// A linear handle to a resource that must be explicitly released.
///
/// The handle owns its resource from `acquire` until `release` (or one of
/// the operations built on it) consumes the handle, or until `take_resource`
/// takes the resource out for good and leaves the handle released.
#[derive(Debug)]
pub struct ManusLinearis<T> {
    resource: Option<T>,
    _linear: PhantomData<Semel>,
}

impl<T> View for ManusLinearis<T> {
    type V = T;

    /// The held resource (meaningful while the handle is not released).
    closed spec fn view(&self) -> T {
        self.resource->0
    }
}

impl<T> ManusLinearis<T> {
    /// Whether the resource has been taken out of the handle.
    pub closed spec fn released(&self) -> bool {
        self.resource is None
    }

    /// Acquire a linear resource, creating a handle.
    pub fn acquire(resource: T) -> (r: Self)
        ensures
            r@ == resource,
            !r.released(),
    {
        ManusLinearis { resource: Some(resource), _linear: PhantomData }
    }

    /// Use the resource by shared reference without consuming the handle.
    pub fn use_ref<R, F>(&self, f: F) -> (r: R) where F: FnOnce(&T) -> R
        requires
            !self.released(),
            f.requires((&self@,)),
        ensures
            f.ensures((&self@,), r),
    {
        match &self.resource {
            Some(x) => f(x),
            None => vstd::pervasive::unreached(),
        }
    }

    /// Use the resource by mutable reference without consuming the handle.
    pub fn use_mut<R, F>(&mut self, f: F) -> (r: R) where F: FnOnce(&mut T) -> R
        requires
            !old(self).released(),
            forall|x: &mut T| *x == old(self)@ ==> f.requires((x,)),
        ensures
            !final(self).released(),
            exists|x: &mut T| *x == old(self)@ && *final(x) == final(self)@ && f.ensures((x,), r),
    {
        let x = self.resource_mut();
        f(x)
    }

    /// A reference to the resource.
    pub fn resource(&self) -> (r: &T)
        requires
            !self.released(),
        ensures
            *r == self@,
    {
        match &self.resource {
            Some(x) => x,
            None => vstd::pervasive::unreached(),
        }
    }

    /// Borrow the resource mutably; what is written through the borrow is
    /// the resource the handle holds afterwards.
    pub fn resource_mut(&mut self) -> (r: &mut T)
        requires
            !old(self).released(),
        ensures
            *r == old(self)@,
            final(self)@ == *final(r),
            !final(self).released(),
    {
        match &mut self.resource {
            Some(x) => x,
            None => vstd::pervasive::unreached(),
        }
    }

    /// Take the resource out for good: the handle is released afterwards.
    pub fn take_resource(&mut self) -> (r: T)
        requires
            !old(self).released(),
        ensures
            r == old(self)@,
            final(self).released(),
    {
        match self.resource.take() {
            Some(x) => x,
            None => vstd::pervasive::unreached(),
        }
    }

    /// Release the resource, consuming the handle.
    pub fn release(self) -> (r: T)
        requires
            !self.released(),
        ensures
            r == self@,
    {
        match self.resource {
            Some(x) => x,
            None => vstd::pervasive::unreached(),
        }
    }

    /// Release the resource through a cleanup function, returning its result.
    pub fn release_with<R, F>(self, f: F) -> (r: R) where F: FnOnce(T) -> R
        requires
            !self.released(),
            f.requires((self@,)),
        ensures
            f.ensures((self@,), r),
    {
        f(self.release())
    }

    /// Map a function over the resource, giving a new handle.
    pub fn map<U, F>(self, f: F) -> (r: ManusLinearis<U>) where F: FnOnce(T) -> U
        requires
            !self.released(),
            f.requires((self@,)),
        ensures
            f.ensures((self@,), r@),
            !r.released(),
    {
        ManusLinearis::acquire(f(self.release()))
    }

    /// Chain operations on the resource handle.
    pub fn and_then<U, F>(self, f: F) -> (r: ManusLinearis<U>) where
        F: FnOnce(T) -> ManusLinearis<U>,

        requires
            !self.released(),
            f.requires((self@,)),
        ensures
            f.ensures((self@,), r),
    {
        f(self.release())
    }

    /// Whether the resource has been taken out of the handle.
    pub fn is_released(&self) -> (r: bool)
        ensures
            r == self.released(),
    {
        self.resource.is_none()
    }

    /// Convert to a linear `Qtt`.
    pub fn into_qtt(self) -> (r: Qtt<T, Semel>)
        requires
            !self.released(),
        ensures
            r@ == self@,
    {
        Qtt::linear(self.release())
    }
}

} // verus!
