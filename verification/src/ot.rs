//! The engine instance's adaptation state and the cooperative scheduling
//! decisions the layer makes around it.  The engine itself is an external
//! collaborator reached through a fixed function table; the host performs
//! those calls and feeds their outcomes (status codes, the pending-work flag,
//! the drained radio frames, the millisecond clock) into the functions here,
//! which decide — verifiably — what is submitted, forwarded and reported.

use crate::checked;
use crate::net::{ipv6_bytes, ipv6_from_octets, NetworkInterfaceUnicastAddress, RawUnicastAddress};
use crate::dataset::{
    dataset_from_raw_dataset, dataset_to_raw, marshals_to, unmarshals_to, OperationalDataset,
    RawOperationalDataset,
};
use crate::radio::{converts_to, convert_received_frame, frame_wf, RadioFrame, RawReceivedFrame};
use crate::registry::Registry;
use crate::role::{spec_role_from_u32, ThreadDeviceRole};
use crate::Error;
use vstd::prelude::*;

verus! {

/// What one `process` invocation does, in order: first the due timer work is
/// run (never after a frame), then the listed frames are handed to the
/// engine's frame-received entry point, first to last, each with a success
/// status.
pub struct ProcessPlan {
    /// Whether the engine's timer callback must run now, before any frame is
    /// forwarded.
    pub run_timers: bool,
    /// The frames to forward to the engine, in arrival order, already in the
    /// engine's fixed layout.
    pub frames: Vec<RadioFrame>,
}

/// An instance of the protocol engine, as this layer tracks it: the shared
/// registry holding the radio handle (of type `R`), the network settings and
/// the user's change callback (of type `C`).
pub struct OpenThread<R, C> {
    pub registry: Registry<R, C>,
}

impl<R, C> OpenThread<R, C> {
    /// Sets up the adaptation state for a freshly initialized engine
    /// instance: the radio handle is registered for the engine's lifetime; no
    /// settings and no callback are stored yet.
    pub fn new(radio: R) -> (r: OpenThread<R, C>)
        ensures
            r.registry.spec_radio() == Some(radio),
            r.registry.spec_settings() is None,
            r.registry.spec_change_callback() is None,
    {
        let mut registry = Registry::new();
        registry.register_radio(radio);
        OpenThread { registry }
    }

    /// Marshals the dataset to activate into the engine's fixed layout (see
    /// [`marshals_to`]); the host submits the result to the engine's
    /// set-active-dataset entry point and maps the status through
    /// [`checked`](crate::checked).
    pub fn set_active_dataset(&self, dataset: &OperationalDataset) -> (raw: RawOperationalDataset)
        ensures
            marshals_to(*dataset, raw),
    {
        dataset_to_raw(dataset)
    }

    /// Interprets the engine's answer to a get-active-dataset query: a
    /// non-zero status is surfaced verbatim, and an accepted query yields the
    /// dataset read back from the fixed layout the engine filled (see
    /// [`unmarshals_to`]).
    pub fn get_active_dataset(&self, raw: &RawOperationalDataset, status: u32) -> (r: Result<
        OperationalDataset,
        Error,
    >)
        ensures
            r is Ok <==> status == 0,
            r matches Ok(d) ==> unmarshals_to(*raw, d),
            status != 0 ==> r == Err::<OperationalDataset, Error>(Error::InternalError(status)),
    {
        match checked(status) {
            Ok(()) => Ok(dataset_from_raw_dataset(raw)),
            Err(e) => Err(e),
        }
    }

    /// The tasklet decision: the engine's queued work runs exactly when the
    /// engine reports work pending.
    pub fn run_tasklets(&self, tasklets_pending: bool) -> (run: bool)
        ensures
            run == tasklets_pending,
    {
        tasklets_pending
    }

    /// One cooperative `process` invocation, as a plan: the due timer work
    /// runs first exactly when a timer is due, then every currently buffered
    /// frame — reformatted into the engine's layout with the clock reading
    /// `now_millis` (see [`converts_to`]) — is forwarded in arrival order.
    /// With no due timer and no buffered frame the plan is empty: idle
    /// `process` calls are a no-op.
    pub fn process(&self, timer_due: bool, received: &Vec<RawReceivedFrame>, now_millis: u64) -> (
    plan: ProcessPlan)
        requires
            forall|i: int| 0 <= i < received@.len() ==> frame_wf(received@[i]),
            now_millis * 1000 <= u64::MAX,
        ensures
            plan.run_timers == timer_due,
            plan.frames@.len() == received@.len(),
            forall|i: int|
                0 <= i < received@.len() ==> converts_to(
                    received@[i],
                    now_millis,
                    #[trigger] plan.frames@[i],
                ),
            (!timer_due && received@.len() == 0) ==> (!plan.run_timers && plan.frames@.len()
                == 0),
    {
        let mut frames: Vec<RadioFrame> = Vec::new();
        let mut i: usize = 0;
        while i < received.len()
            invariant
                i <= received@.len(),
                frames@.len() == i,
                forall|j: int| 0 <= j < received@.len() ==> frame_wf(received@[j]),
                now_millis * 1000 <= u64::MAX,
                forall|j: int|
                    0 <= j < i ==> converts_to(received@[j], now_millis, #[trigger] frames@[j]),
            decreases received@.len() - i,
        {
            frames.push(convert_received_frame(&received[i], now_millis));
            i += 1;
        }
        ProcessPlan { run_timers: timer_due, frames }
    }

    /// Interprets the status of the engine's call that brings the IPv6
    /// interface up or down: `0` is success, anything else is surfaced
    /// verbatim.
    pub fn ipv6_set_enabled(&self, status: u32) -> (r: Result<(), Error>)
        ensures
            r is Ok <==> status == 0,
            status != 0 ==> r == Err::<(), Error>(Error::InternalError(status)),
    {
        checked(status)
    }

    /// Interprets the status of the engine's call that starts or stops Thread
    /// protocol operation: `0` is success, anything else is surfaced
    /// verbatim.  The interface must be up when the host makes that call.
    pub fn thread_set_enabled(&self, status: u32) -> (r: Result<(), Error>)
        ensures
            r is Ok <==> status == 0,
            status != 0 ==> r == Err::<(), Error>(Error::InternalError(status)),
    {
        checked(status)
    }

    /// Converts the engine's unicast-address list, handed over as plain
    /// values, into addresses for the caller: the first `N` entries when the
    /// list is longer, all of them otherwise, in list order.
    pub fn ipv6_get_unicast_addresses<const N: usize>(&self, raw: &Vec<RawUnicastAddress>) -> (r:
        Vec<NetworkInterfaceUnicastAddress>)
        ensures
            r@.len() == (if raw@.len() > N {
                N as int
            } else {
                raw@.len() as int
            }),
            forall|i: int|
                0 <= i < r@.len() ==> ipv6_bytes(#[trigger] r@[i].address) == raw@[i].address@,
            forall|i: int|
                0 <= i < r@.len() ==> (#[trigger] r@[i]).prefix == raw@[i].prefix && r@[i].origin
                    == raw@[i].origin,
    {
        let count = if raw.len() > N {
            N
        } else {
            raw.len()
        };
        let mut result: Vec<NetworkInterfaceUnicastAddress> = Vec::new();
        let mut i: usize = 0;
        while i < count
            invariant
                i <= count,
                count <= raw@.len(),
                result@.len() == i,
                forall|j: int|
                    0 <= j < i ==> ipv6_bytes(#[trigger] result@[j].address) == raw@[j].address@,
                forall|j: int|
                    0 <= j < i ==> (#[trigger] result@[j]).prefix == raw@[j].prefix
                        && result@[j].origin == raw@[j].origin,
            decreases count - i,
        {
            let entry = &raw[i];
            result.push(
                NetworkInterfaceUnicastAddress {
                    address: ipv6_from_octets(&entry.address),
                    prefix: entry.prefix,
                    origin: entry.origin,
                },
            );
            i += 1;
        }
        result
    }

    /// Decodes the raw role code the engine's device-role query returned.
    pub fn get_role(&self, role_raw: u32) -> (r: Option<ThreadDeviceRole>)
        ensures
            r == spec_role_from_u32(role_raw),
    {
        ThreadDeviceRole::from_u32(role_raw)
    }

    /// Converts the device role to a human-readable string.
    pub fn device_role_to_string(&self, role: ThreadDeviceRole) -> (r: &'static str)
        ensures
            role == ThreadDeviceRole::Leader ==> r@ == "leader"@,
            role == ThreadDeviceRole::Child ==> r@ == "child"@,
            role == ThreadDeviceRole::Router ==> r@ == "router"@,
            role == ThreadDeviceRole::Detached ==> r@ == "detached"@,
            role == ThreadDeviceRole::Disabled ==> r@ == "disabled"@,
    {
        match role {
            ThreadDeviceRole::Leader => "leader",
            ThreadDeviceRole::Child => "child",
            ThreadDeviceRole::Router => "router",
            ThreadDeviceRole::Detached => "detached",
            ThreadDeviceRole::Disabled => "disabled",
        }
    }

    /// Stores the user's change callback, silently replacing and dropping any
    /// previous one.
    pub fn set_change_callback(&mut self, callback: Option<C>)
        ensures
            final(self).registry.spec_change_callback() == callback,
            final(self).registry.spec_radio() == old(self).registry.spec_radio(),
            final(self).registry.spec_settings() == old(self).registry.spec_settings(),
    {
        self.registry.set_change_callback(callback);
    }

    /// Releases everything the layer holds for the engine instance: the radio
    /// handle, the settings and the callback.  The host calls this when the
    /// instance is dropped.
    pub fn teardown(&mut self)
        ensures
            final(self).registry.spec_radio() is None,
            final(self).registry.spec_settings() is None,
            final(self).registry.spec_change_callback() is None,
    {
        self.registry.teardown();
    }
}

} // verus!
