//! The device that is polled: its owner asks for an output when it sees fit.

use vstd::prelude::*;
use crate::api::{Input, Output};
use crate::windows_impl::api::{outcome, outcome_of_call, Error, ErrorView};
use crate::windows_impl::shared_impl::{
    queue_step, report_after, AddedTarget, OutputQueue, RawOutput, XusbReport,
};

verus! {

/// What a look into the channel of notifications found.
#[derive(Debug, Clone, Copy, PartialEq, Eq, Structural)]
pub enum Received {
    /// A notification of the driver.
    Raw(RawOutput),
    /// Nothing, for now.
    Empty,
    /// Nothing, and nothing will come: the sending end is gone.
    Disconnected,
}

/// What is said when the channel of notifications has lost its sender.
pub open spec fn disconnected_text() -> Seq<char> {
    "Trying to get output from device but the sender channel is already closed."@
}

/// The capability to create devices: a client that is connected to the
/// bus driver.
pub struct Bus {}

impl Bus {
    /// Gives the bus, where connecting to the driver went well. `connected`
    /// is the code that the driver gave.
    pub fn new(connected: u32) -> (bus: Result<Bus, Error>)
        ensures
            match outcome_of_call(connected) {
                Ok(_) => bus is Ok,
                Err(e) => bus is Err && bus->Err_0 == e,
            },
    {
        match outcome(connected) {
            Ok(_) => Ok(Bus {  }),
            Err(e) => Err(e),
        }
    }

    /// Gives the device, where adding a controller to the bus went well.
    /// `added` is the code that the driver gave. A new device is at rest,
    /// and nothing waits for its consumer.
    pub fn plug_in(&mut self, added: u32) -> (device: Result<Device, Error>)
        ensures
            match outcome_of_call(added) {
                Ok(_) => device is Ok && device->Ok_0.report() == (XusbReport {
                    w_buttons: 0,
                    b_left_trigger: 0,
                    b_right_trigger: 0,
                    s_thumb_lx: 0,
                    s_thumb_ly: 0,
                    s_thumb_rx: 0,
                    s_thumb_ry: 0,
                }) && device->Ok_0.waiting() == Seq::<Output>::empty() && device->Ok_0.latest() == (
                RawOutput { large_motor: 0, small_motor: 0, led_number: 0 }),
                Err(e) => device is Err && device->Err_0 == e,
            },
    {
        match outcome(added) {
            Ok(_) => Ok(Device { target: AddedTarget::new(), output_queue: OutputQueue::new() }),
            Err(e) => Err(e),
        }
    }
}

/// One virtual controller.
pub struct Device {
    target: AddedTarget,
    output_queue: OutputQueue,
}

impl Device {
    /// The report that the driver was sent last.
    pub closed spec fn report(&self) -> XusbReport {
        self.target.report()
    }

    /// The outputs that wait for the consumer, oldest first.
    pub closed spec fn waiting(&self) -> Seq<Output> {
        self.output_queue.waiting()
    }

    /// The notification that came last.
    pub closed spec fn latest(&self) -> RawOutput {
        self.output_queue.latest()
    }

    /// Brings `input` into the report and gives the report that is to be
    /// sent to the driver. What waits for the consumer stays.
    pub fn put_input(&mut self, input: Input) -> (report: XusbReport)
        ensures
            report == report_after(old(self).report(), input),
            final(self).report() == report,
            final(self).waiting() == old(self).waiting(),
            final(self).latest() == old(self).latest(),
    {
        self.target.send_report(input)
    }

    /// Gives the consumer its next output, for what a look into the
    /// channel of notifications found. A notification is taken in and the
    /// oldest output that then waits is handed out; without one, the
    /// oldest that waits already; where none waits, the output that says
    /// so. A channel that has lost its sender is an error.
    pub fn get_output(&mut self, received: Received) -> (output: Result<Output, Error>)
        ensures
            final(self).report() == old(self).report(),
            match received {
                Received::Raw(raw) => output == Ok::<Output, Error>(
                    queue_step(old(self).latest(), old(self).waiting(), raw).0,
                ) && final(self).waiting() == queue_step(
                    old(self).latest(),
                    old(self).waiting(),
                    raw,
                ).1 && final(self).latest() == raw,
                Received::Empty => final(self).latest() == old(self).latest() && if old(
                    self,
                ).waiting().len() > 0 {
                    output == Ok::<Output, Error>(old(self).waiting()[0]) && final(self).waiting()
                        == old(self).waiting().subrange(1, old(self).waiting().len() as int)
                } else {
                    output == Ok::<Output, Error>(Output::Nothing) && final(self).waiting() == old(
                        self,
                    ).waiting()
                },
                Received::Disconnected => output is Err && output->Err_0@ == ErrorView::Unknown(
                    disconnected_text(),
                ) && final(self).waiting() == old(self).waiting() && final(self).latest() == old(
                    self,
                ).latest(),
            },
    {
        match received {
            Received::Raw(raw) => match self.output_queue.put_and_get(raw) {
                Some(output) => Ok(output),
                None => Ok(Output::Nothing),
            },
            Received::Empty => match self.output_queue.get() {
                Some(output) => Ok(output),
                None => Ok(Output::Nothing),
            },
            Received::Disconnected => Err(
                Error::Unknown(
                    "Trying to get output from device but the sender channel is already closed.".to_owned(),
                ),
            ),
        }
    }

    /// Ends the device. `removed` is the code that the driver gave when
    /// the controller was taken off the bus.
    pub fn unplug(self, removed: u32) -> (ended: Result<(), Error>)
        ensures
            ended == outcome_of_call(removed),
    {
        outcome(removed)
    }
}

} // verus!
