//! Exclusive ownership of the console's hardware services.
//!
//! A `ServiceTable` records which services this process currently holds. A
//! service is acquired through the table, which hands out the one
//! `ServiceHandle` for it; the handle cannot be copied, and it goes back to
//! the table when the service is released.
use crate::error::{Error, Result, RESULT_SUCCESS};
use vstd::prelude::*;

verus! {

/// The status with which acquisition fails for a service that is already held.
pub const ALREADY_ACQUIRED: i32 = -1;

/// A hardware service of the console.
#[derive(Debug, Clone, Copy, PartialEq, Eq, Structural)]
pub enum Service {
    /// Buttons, pads and touch screen.
    Input,
    /// The applet and lifecycle coordinator.
    Applet,
    /// The power and battery controller.
    Power,
    /// The built-in cameras.
    Camera,
}

/// The set of held services after acquiring `service`, where the service
/// layer's own acquisition call reported `status`; or the error.
pub open spec fn acquired(live: Set<Service>, service: Service, status: i32) -> core::result::Result<
    Set<Service>,
    Error,
> {
    if live.contains(service) {
        Err(Error::ServiceError(ALREADY_ACQUIRED))
    } else if status != RESULT_SUCCESS {
        Err(Error::ServiceError(status))
    } else {
        Ok(live.insert(service))
    }
}

/// The set of held services after releasing `service`.
pub open spec fn released(live: Set<Service>, service: Service) -> Set<Service> {
    live.remove(service)
}

/// Which services this process holds.
pub struct ServiceTable {
    input: bool,
    applet: bool,
    power: bool,
    camera: bool,
}

/// Ownership of one acquired service. It is not `Clone`: moving it moves the
/// duty to release the service.
pub struct ServiceHandle {
    service: Service,
}

impl View for ServiceHandle {
    type V = Service;

    closed spec fn view(&self) -> Service {
        self.service
    }
}

impl ServiceHandle {
    /// The service this handle owns.
    pub fn service(&self) -> (r: Service)
        ensures
            r == self@,
    {
        self.service
    }
}

impl View for ServiceTable {
    type V = Set<Service>;

    closed spec fn view(&self) -> Set<Service> {
        Set::new(
            |s: Service|
                match s {
                    Service::Input => self.input,
                    Service::Applet => self.applet,
                    Service::Power => self.power,
                    Service::Camera => self.camera,
                },
        )
    }
}

impl ServiceTable {
    /// A table in which no service is held.
    pub fn new() -> (r: ServiceTable)
        ensures
            r@ == Set::<Service>::empty(),
    {
        let r = ServiceTable { input: false, applet: false, power: false, camera: false };
        assert(r@ =~= Set::<Service>::empty());
        r
    }

    /// Whether a handle to `service` is live.
    pub fn is_live(&self, service: Service) -> (r: bool)
        ensures
            r == self@.contains(service),
    {
        match service {
            Service::Input => self.input,
            Service::Applet => self.applet,
            Service::Power => self.power,
            Service::Camera => self.camera,
        }
    }

    fn mark(&mut self, service: Service, live: bool)
        ensures
            live ==> final(self)@ == old(self)@.insert(service),
            !live ==> final(self)@ == old(self)@.remove(service),
    {
        match service {
            Service::Input => self.input = live,
            Service::Applet => self.applet = live,
            Service::Power => self.power = live,
            Service::Camera => self.camera = live,
        }
        assert(live ==> final(self)@ =~= old(self)@.insert(service));
        assert(!live ==> final(self)@ =~= old(self)@.remove(service));
    }

    /// Acquires `service`, whose acquisition call in the service layer
    /// reported `init_status`. Fails with `ALREADY_ACQUIRED` while a handle
    /// to the service is live, and with the reported code when the call
    /// failed; the table is then unchanged.
    pub fn acquire(&mut self, service: Service, init_status: i32) -> (r: Result<ServiceHandle>)
        ensures
            match acquired(old(self)@, service, init_status) {
                Ok(live) => r matches Ok(h) && h@ == service && final(self)@ == live,
                Err(e) => r matches Err(f) && f == e && final(self)@ == old(self)@,
            },
    {
        if self.is_live(service) {
            return Err(Error::ServiceError(ALREADY_ACQUIRED));
        }
        if init_status != RESULT_SUCCESS {
            return Err(Error::ServiceError(init_status));
        }
        self.mark(service, true);
        Ok(ServiceHandle { service })
    }

    /// Releases the service that `handle` owns. The teardown call has no
    /// error channel: whatever it reports, the service is no longer held.
    pub fn release(&mut self, handle: ServiceHandle)
        ensures
            final(self)@ == released(old(self)@, handle@),
    {
        self.mark(handle.service, false);
    }
}

/// A service that is held cannot be acquired a second time, whatever the
/// service layer reports; once its handle is released, acquiring it succeeds
/// again when the service layer's call does.
pub proof fn lemma_acquire_release_acquire(
    live: Set<Service>,
    service: Service,
    first: i32,
    second: i32,
    retry: i32,
)
    requires
        !live.contains(service),
        first == RESULT_SUCCESS,
        retry == RESULT_SUCCESS,
    ensures
        acquired(live, service, first) == Ok::<Set<Service>, Error>(live.insert(service)),
        acquired(live.insert(service), service, second) == Err::<Set<Service>, Error>(
            Error::ServiceError(ALREADY_ACQUIRED),
        ),
        acquired(released(live.insert(service), service), service, retry) == Ok::<
            Set<Service>,
            Error,
        >(live.insert(service)),
{
    assert(released(live.insert(service), service) =~= live);
}

} // verus!
