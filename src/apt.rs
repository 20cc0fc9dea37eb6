//! The applet service: the application's place among the console's other
//! programs, such as the home menu and sleep mode.
use crate::error::{status_result, Result, ResultCode};
use crate::service::{acquired, released, Service, ServiceHandle, ServiceTable};
use vstd::prelude::*;

verus! {

/// Handle to the applet service.
pub struct Apt {
    handle: ServiceHandle,
}

impl Apt {
    /// Whether the handle owns the applet service.
    pub closed spec fn wf(&self) -> bool {
        self.handle@ == Service::Applet
    }

    /// Acquires the applet service, whose acquisition call reported
    /// `init_status`.
    pub fn new(table: &mut ServiceTable, init_status: i32) -> (r: Result<Apt>)
        ensures
            match acquired(old(table)@, Service::Applet, init_status) {
                Ok(live) => r matches Ok(a) && a.wf() && final(table)@ == live,
                Err(e) => r matches Err(f) && f == e && final(table)@ == old(table)@,
            },
    {
        let handle = table.acquire(Service::Applet, init_status)?;
        Ok(Apt { handle })
    }

    /// Records the share of the system core lent to the application, in
    /// percent, whose service call reported `status`.
    pub fn set_app_cpu_time_limit(&mut self, percent: u32, status: i32) -> (r: Result<()>)
        ensures
            r == status_result(status),
            final(self).wf() == old(self).wf(),
    {
        ResultCode(status).into_result()
    }

    /// Releases the applet service.
    pub fn release(self, table: &mut ServiceTable)
        requires
            self.wf(),
        ensures
            final(table)@ == released(old(table)@, Service::Applet),
    {
        table.release(self.handle);
    }
}

} // verus!
