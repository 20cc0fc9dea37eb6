//! The power and battery controller.
use crate::error::{status_result, with_status, Result, ResultCode, RESULT_SUCCESS};
use crate::service::{acquired, released, Service, ServiceHandle, ServiceTable};
use vstd::prelude::*;

verus! {

/// Bytes in a pattern for the notification light.
pub const LED_PATTERN_LEN: usize = 100;

/// The controller register that takes a pattern for the notification light.
pub const LED_PATTERN_REGISTER: u8 = 0x2D;

/// A write of bytes into a register of the controller.
#[derive(Debug)]
pub struct RegisterWrite {
    pub register: u8,
    pub data: Vec<u8>,
}

/// The outcome of a call that returns `value` and reported `status`.
pub open spec fn read_result(status: i32, value: u8) -> core::result::Result<u8, crate::error::Error> {
    if status == RESULT_SUCCESS {
        Ok(value)
    } else {
        Err(crate::error::Error::ServiceError(status))
    }
}

/// Handle to the power and battery controller.
pub struct McuHwc {
    handle: ServiceHandle,
}

impl McuHwc {
    /// Whether the handle owns the controller service.
    pub closed spec fn wf(&self) -> bool {
        self.handle@ == Service::Power
    }

    /// Acquires the controller service, whose acquisition call reported
    /// `init_status`.
    pub fn new(table: &mut ServiceTable, init_status: i32) -> (r: Result<McuHwc>)
        ensures
            match acquired(old(table)@, Service::Power, init_status) {
                Ok(live) => r matches Ok(m) && m.wf() && final(table)@ == live,
                Err(e) => r matches Err(f) && f == e && final(table)@ == old(table)@,
            },
    {
        let handle = table.acquire(Service::Power, init_status)?;
        Ok(McuHwc { handle })
    }

    /// The register write that sets the notification light to `pattern`.
    pub fn led_pattern_write(&self, pattern: &[u8; 100]) -> (r: RegisterWrite)
        ensures
            r.register == LED_PATTERN_REGISTER,
            r.data@ == pattern@,
    {
        let mut data: Vec<u8> = Vec::new();
        let mut i: usize = 0;
        while i < LED_PATTERN_LEN
            invariant
                i <= LED_PATTERN_LEN,
                pattern@.len() == LED_PATTERN_LEN,
                data@ == pattern@.subrange(0, i as int),
            decreases LED_PATTERN_LEN - i,
        {
            data.push(pattern[i]);
            i = i + 1;
        }
        assert(data@ =~= pattern@);
        RegisterWrite { register: LED_PATTERN_REGISTER, data }
    }

    /// The outcome of writing a light pattern, whose register write reported
    /// `status`.
    pub fn write_led_pattern(&self, status: i32) -> (r: Result<()>)
        ensures
            r == status_result(status),
    {
        ResultCode(status).into_result()
    }

    /// The battery voltage, as the call that read `voltage` reported `status`.
    pub fn get_battery_voltage(&self, status: i32, voltage: u8) -> (r: Result<u8>)
        ensures
            r == read_result(status, voltage),
    {
        with_status(status, voltage)
    }

    /// The battery level in percent, as the call that read `level` reported
    /// `status`.
    pub fn get_battery_level(&self, status: i32, level: u8) -> (r: Result<u8>)
        ensures
            r == read_result(status, level),
    {
        with_status(status, level)
    }

    /// The position of the volume slider, as the call that read `level`
    /// reported `status`.
    pub fn get_sound_slider_level(&self, status: i32, level: u8) -> (r: Result<u8>)
        ensures
            r == read_result(status, level),
    {
        with_status(status, level)
    }

    /// The position of the 3D depth slider, as the call that read `level`
    /// reported `status`.
    pub fn get_3d_slider_level(&self, status: i32, level: u8) -> (r: Result<u8>)
        ensures
            r == read_result(status, level),
    {
        with_status(status, level)
    }

    /// Releases the controller service.
    pub fn release(self, table: &mut ServiceTable)
        requires
            self.wf(),
        ensures
            final(table)@ == released(old(table)@, Service::Power),
    {
        table.release(self.handle);
    }
}

} // verus!
