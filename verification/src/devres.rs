//! Device-scoped revocable container. A `Devres<T>` owns one `T` whose
//! lifetime is tied to a device: when the device framework revokes the
//! container (at device teardown), every later access reports the resource
//! as unavailable instead of handing out the wrapped value. Revocation only
//! gates access, never lifetime: the wrapped value is destroyed exactly
//! once, when the container itself is consumed.

use vstd::prelude::*;

use crate::error::Error;
use crate::platform::Device;

verus! {

/// One device-scoped resource. Every read or write of the wrapped value
/// must go through a checked accessor, which fails after revocation.
#[derive(Debug)]
pub struct Devres<T> {
    value: T,
    revoked: bool,
}

impl<T> Devres<T> {
    /// The wrapped value. It is retained even after revocation: an
    /// in-flight holder may still legitimately own it; only new accesses
    /// are refused.
    pub closed spec fn spec_value(&self) -> T {
        self.value
    }

    /// The device framework has revoked this container.
    pub closed spec fn spec_revoked(&self) -> bool {
        self.revoked
    }

    /// What a checked access observes: the wrapped value while the
    /// container is live, nothing once it is revoked.
    pub open spec fn spec_try_access(&self) -> Option<T> {
        if self.spec_revoked() {
            None
        } else {
            Some(self.spec_value())
        }
    }

    /// Registers `value` against `device`, tying its accessibility to the
    /// device's lifetime. Fails with `NoSuchDevice` exactly when the
    /// device is already being torn down.
    pub fn new(device: &Device, value: T) -> (r: Result<Devres<T>, Error>)
        ensures
            device.spec_bound() ==> (r matches Ok(d) && !d.spec_revoked() && d.spec_value()
                == value),
            !device.spec_bound() ==> (r matches Err(e) && e == Error::NoSuchDevice),
    {
        if device.is_bound() {
            Ok(Devres { value, revoked: false })
        } else {
            Err(Error::NoSuchDevice)
        }
    }

    /// Checked access: a reference to the wrapped value while the
    /// container has not been revoked, `None` afterwards. Never blocks, so
    /// it is safe to call from interrupt context.
    pub fn try_access(&self) -> (r: Option<&T>)
        ensures
            r is None <==> self.spec_revoked(),
            r matches Some(v) ==> Some(*v) == self.spec_try_access(),
    {
        if self.revoked {
            None
        } else {
            Some(&self.value)
        }
    }

    /// Checked mutable access, with the same gating as `try_access`.
    pub fn try_access_mut(&mut self) -> (r: Option<&mut T>)
        ensures
            old(self).spec_revoked() ==> r is None && *final(self) == *old(self),
            !old(self).spec_revoked() ==> (r matches Some(v) && *v == old(self).spec_value()
                && final(self).spec_value() == *final(v) && !final(self).spec_revoked()),
    {
        if self.revoked {
            None
        } else {
            Some(&mut self.value)
        }
    }

    /// Revocation, invoked by the device framework at teardown, never by
    /// driver code: all later accesses report the resource unavailable.
    /// The wrapped value is kept; only access is gated.
    pub fn revoke(&mut self)
        ensures
            final(self).spec_revoked(),
            final(self).spec_value() == old(self).spec_value(),
    {
        self.revoked = true;
    }

    /// The container has been revoked.
    pub fn is_revoked(&self) -> (r: bool)
        ensures
            r == self.spec_revoked(),
    {
        self.revoked
    }

    /// Consumes the container and yields the wrapped value, revoked or
    /// not: this is the teardown path, where the last owner destroys the
    /// value exactly once. Revocation gates access, not lifetime.
    pub fn into_inner(self) -> (r: T)
        ensures
            r == self.spec_value(),
    {
        self.value
    }
}

/// Law: no access after revoke. Once a container is revoked, a checked
/// access observes nothing, from any context; and since no operation of
/// this crate ever clears the revoked state, every subsequent access
/// observes nothing as well.
pub proof fn lemma_no_access_after_revoke<T>(d: Devres<T>)
    requires
        d.spec_revoked(),
    ensures
        d.spec_try_access() is None,
{
}

} // verus!
