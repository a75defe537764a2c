//! The driver-lifecycle pieces the boot sequence uses: the interface a
//! device driver offers, its registration descriptor, and the fixed-capacity
//! manager that remembers what was registered.

use vstd::prelude::*;

use crate::sync::NullLock;

verus! {

/// A device driver the boot sequence can initialize once.
pub trait Driver {
    /// When the driver may be initialized.
    spec fn ready(&self) -> bool;

    /// What a successful initialization establishes, relating the driver
    /// before the call to the driver after it.
    spec fn init_done(&self, pre: &Self) -> bool;

    fn init(&mut self) -> (r: Result<(), &'static str>)
        requires
            old(self).ready(),
        ensures
            r is Ok ==> final(self).init_done(old(self)),
    ;
}

/// What the boot sequence registers for one driver. The driver itself and
/// its post-initialization hook live with the boot code; the manager's logic
/// needs only the identity.
pub struct DriverDescriptor {
    pub name: &'static str,
}

/// Registration storage for at most `N` drivers, in registration order.
pub struct DriverManagerInner<const N: usize> {
    pub drivers: Vec<DriverDescriptor>,
}

impl<const N: usize> DriverManagerInner<N> {
    pub open spec fn wf(self) -> bool {
        self.drivers@.len() <= N
    }

    pub fn new() -> (r: Self)
        ensures
            r.wf(),
            r.drivers@.len() == 0,
    {
        Self { drivers: Vec::new() }
    }

    pub fn register_driver(&mut self, driver_descriptor: DriverDescriptor)
        requires
            old(self).wf(),
            old(self).drivers@.len() < N,
        ensures
            final(self).wf(),
            final(self).drivers@ == old(self).drivers@.push(driver_descriptor),
    {
        self.drivers.push(driver_descriptor);
    }
}

/// The boot sequence's driver registry.
pub struct DriverManager<const N: usize> {
    pub inner: NullLock<DriverManagerInner<N>>,
}

impl<const N: usize> DriverManager<N> {
    pub open spec fn wf(self) -> bool {
        self.inner.data.wf()
    }

    pub open spec fn view(self) -> Seq<DriverDescriptor> {
        self.inner.data.drivers@
    }

    pub fn new() -> (r: Self)
        ensures
            r.wf(),
            r@.len() == 0,
    {
        Self { inner: NullLock::new(DriverManagerInner::new()) }
    }

    pub fn register_driver(&mut self, driver_descriptor: DriverDescriptor)
        requires
            old(self).wf(),
            old(self)@.len() < N,
        ensures
            final(self).wf(),
            final(self)@ == old(self)@.push(driver_descriptor),
    {
        self.inner.data.register_driver(driver_descriptor);
    }

    pub fn num_registered(&self) -> (r: usize)
        ensures
            r == self@.len(),
    {
        self.inner.get().drivers.len()
    }
}

} // verus!
