//! The device whose outputs are awaited.

use vstd::prelude::*;
use crate::api::{Input, Output};
use crate::windows_impl::api::{outcome, outcome_of_call, Error};
use crate::windows_impl::shared_impl::{
    queue_step, report_after, AddedTarget, OutputQueue, RawOutput, XusbReport,
};

verus! {

/// The capability to create devices: a client that is connected to the
/// bus driver.
pub struct Bus {}

impl Bus {
    /// Gives the bus, where connecting to the driver went well. `connected`
    /// is the code that the driver gave.
    pub fn new(connected: u32) -> (bus: Result<Bus, Error>)
        ensures
            match outcome_of_call(connected) {
                Ok(_) => bus is Ok,
                Err(e) => bus is Err && bus->Err_0 == e,
            },
    {
        match outcome(connected) {
            Ok(_) => Ok(Bus {  }),
            Err(e) => Err(e),
        }
    }

    /// Gives the device, where adding a controller to the bus went well.
    /// `added` is the code that the driver gave. A new device is at rest,
    /// and nothing waits for its consumer.
    pub fn plug_in(&mut self, added: u32) -> (device: Result<Device, Error>)
        ensures
            match outcome_of_call(added) {
                Ok(_) => device is Ok && device->Ok_0.report() == (XusbReport {
                    w_buttons: 0,
                    b_left_trigger: 0,
                    b_right_trigger: 0,
                    s_thumb_lx: 0,
                    s_thumb_ly: 0,
                    s_thumb_rx: 0,
                    s_thumb_ry: 0,
                }) && device->Ok_0.waiting() == Seq::<Output>::empty() && device->Ok_0.latest() == (
                RawOutput { large_motor: 0, small_motor: 0, led_number: 0 }),
                Err(e) => device is Err && device->Err_0 == e,
            },
    {
        match outcome(added) {
            Ok(_) => Ok(Device { target: AddedTarget::new(), output_queue: OutputQueue::new() }),
            Err(e) => Err(e),
        }
    }
}

/// One virtual controller.
pub struct Device {
    target: AddedTarget,
    output_queue: OutputQueue,
}

impl Device {
    /// The report that the driver was sent last.
    pub closed spec fn report(&self) -> XusbReport {
        self.target.report()
    }

    /// The outputs that wait for the consumer, oldest first.
    pub closed spec fn waiting(&self) -> Seq<Output> {
        self.output_queue.waiting()
    }

    /// The notification that came last.
    pub closed spec fn latest(&self) -> RawOutput {
        self.output_queue.latest()
    }

    /// Brings `input` into the report and gives the report that is to be
    /// sent to the driver. What waits for the consumer stays.
    pub fn put_input(&mut self, input: Input) -> (report: XusbReport)
        ensures
            report == report_after(old(self).report(), input),
            final(self).report() == report,
            final(self).waiting() == old(self).waiting(),
            final(self).latest() == old(self).latest(),
    {
        self.target.send_report(input)
    }

    /// Gives the consumer its next output, for what the channel of
    /// notifications gave after the wait: a notification, or nothing once
    /// the sending end is gone. A notification is taken in and the oldest
    /// output that then waits is handed out; without one, the oldest that
    /// waits already, until none is left.
    pub fn get_output(&mut self, received: Option<RawOutput>) -> (output: Option<Output>)
        ensures
            final(self).report() == old(self).report(),
            match received {
                Some(raw) => output == Some(
                    queue_step(old(self).latest(), old(self).waiting(), raw).0,
                ) && final(self).waiting() == queue_step(
                    old(self).latest(),
                    old(self).waiting(),
                    raw,
                ).1 && final(self).latest() == raw,
                None => final(self).latest() == old(self).latest() && if old(
                    self,
                ).waiting().len() > 0 {
                    output == Some(old(self).waiting()[0]) && final(self).waiting() == old(
                        self,
                    ).waiting().subrange(1, old(self).waiting().len() as int)
                } else {
                    output.is_none() && final(self).waiting() == old(self).waiting()
                },
            },
    {
        match received {
            Some(raw) => self.output_queue.put_and_get(raw),
            None => self.output_queue.get(),
        }
    }

    /// Ends the device. `removed` is the code that the driver gave when
    /// the controller was taken off the bus.
    pub fn unplug(self, removed: u32) -> (ended: Result<(), Error>)
        ensures
            ended == outcome_of_call(removed),
    {
        outcome(removed)
    }
}

} // verus!
