//! The device that is polled: its owner reads when it sees fit.

use vstd::prelude::*;
use crate::api::{error_of_errno, Error, ErrorView, Input, Output, EAGAIN};
use crate::linux_impl::text::size_mismatch_text;
use crate::linux_impl::clock::is_clock_time;
use crate::linux_impl::shared_impl::{
    capability_plan, create_uinput_device, read_step, step_view, write_outcome, write_view,
    Request, SetupStep, UInputFDReader, UInputFDWriter,
};
use crate::linux_impl::types::{
    upload_effect, with_retval, ForceFeedbackErase, ForceFeedbackUpload, InputEvent,
    VgpDeviceForceFeedback, INPUT_EVENT_SIZE,
};

verus! {

/// The capability to create devices. It owns nothing: the device node is
/// opened anew for every device.
pub struct Bus {}

impl Bus {
    /// Gives the bus, where the facility that registers devices can be
    /// reached. `opened` is the outcome of opening its device node: the
    /// error number, if that failed. Missing access rights are told apart
    /// from every other failure, since the user can mend them.
    pub fn new(opened: Result<(), i32>) -> (bus: Result<Bus, Error>)
        ensures
            match opened {
                Ok(_) => bus is Ok,
                Err(errno) => bus is Err && bus->Err_0 == error_of_errno(errno),
            },
    {
        match opened {
            Ok(_) => Ok(Bus {  }),
            Err(errno) => Err(Error::from_errno(errno)),
        }
    }

    /// The steps that register a device with the kernel, in the order in which
    /// they are taken on a freshly opened device node. The first step that
    /// fails ends the registration.
    pub fn plan(&self) -> (plan: Vec<SetupStep>)
        ensures
            plan@ == capability_plan(),
    {
        create_uinput_device()
    }

    /// Gives the device that was registered. `registered` is the outcome of
    /// opening the device node and taking the steps of the plan: the error
    /// number of the first that failed, if one did. A registration that
    /// failed gives no device, and a new device knows no effect.
    pub fn plug_in(&mut self, registered: Result<(), i32>) -> (device: Result<Device, Error>)
        ensures
            match registered {
                Ok(_) => device is Ok && device->Ok_0.effects() == Map::<
                    i64,
                    VgpDeviceForceFeedback,
                >::empty(),
                Err(errno) => device is Err && device->Err_0 == error_of_errno(errno),
            },
    {
        match registered {
            Ok(_) => Ok(Device { fd_reader: UInputFDReader::new(), fd_writer: UInputFDWriter::new() }),
            Err(errno) => Err(Error::from_errno(errno)),
        }
    }
}

/// One virtual controller.
pub struct Device {
    fd_reader: UInputFDReader,
    fd_writer: UInputFDWriter,
}

impl Device {
    /// The effects that the kernel has uploaded and not erased.
    pub closed spec fn effects(&self) -> Map<i64, VgpDeviceForceFeedback> {
        self.fd_reader.effects()
    }

    /// Builds the images that submit `input`: they are written to the
    /// device one by one, in their order, and a write that fails ends the
    /// submission. The frame is stamped with the wall clock's time; a clock
    /// that cannot be read is reported. The device stays as it is.
    pub fn put_input(&mut self, input: Input) -> (written: Result<Vec<InputEvent>, Error>)
        ensures
            exists|clock: Option<(i64, i64)>|
                (clock is Some ==> is_clock_time(clock->0)) && write_view(written)
                    == #[trigger] write_outcome(input, clock),
            final(self).effects() == old(self).effects(),
    {
        self.fd_writer.write(input)
    }

    /// Decides what the outcome of one read from the device asks for: the
    /// bytes that were read, or the error number of the read that failed.
    /// The device stays as it is.
    pub fn get_output(&mut self, outcome: Result<Vec<u8>, i32>) -> (step: Result<Request, Error>)
        ensures
            step_view(step) == read_step(
                match outcome {
                    Ok(bytes) => Ok(bytes@),
                    Err(errno) => Err(errno),
                },
                old(self).effects(),
            ),
            outcome == Err::<Vec<u8>, i32>(EAGAIN) ==> step == Ok::<Request, Error>(
                Request::Done(Output::Nothing),
            ),
            outcome is Ok && outcome->Ok_0@.len() != INPUT_EVENT_SIZE ==> step is Err
                && step->Err_0@ == ErrorView::Unknown(
                size_mismatch_text(INPUT_EVENT_SIZE as nat, outcome->Ok_0@.len()),
            ),
            final(self).effects() == old(self).effects(),
    {
        self.fd_reader.read(outcome)
    }

    /// Takes an upload request as the kernel has filled it in: keeps the
    /// effect and accepts the request.
    pub fn upload(&mut self, request: &mut ForceFeedbackUpload) -> (output: Output)
        ensures
            final(self).effects() == old(self).effects().insert(
                upload_effect(old(request)@).id as i64,
                upload_effect(old(request)@),
            ),
            final(request)@ == with_retval(old(request)@, 0),
            final(request).retval() == 0,
            final(request).request_id() == old(request).request_id(),
            output == Output::Nothing,
    {
        self.fd_reader.upload(request)
    }

    /// Takes an erase request as the kernel has filled it in: forgets the
    /// effect and accepts the request.
    pub fn erase(&mut self, request: &mut ForceFeedbackErase) -> (output: Output)
        ensures
            final(self).effects() == old(self).effects().remove(old(request).effect_id() as i64),
            final(request)@ == with_retval(old(request)@, 0),
            final(request).retval() == 0,
            final(request).request_id() == old(request).request_id(),
            final(request).effect_id() == old(request).effect_id(),
            output == Output::Nothing,
    {
        self.fd_reader.erase(request)
    }

    /// Ends the device. `destroyed` is the outcome of tearing the device
    /// down in the kernel; the device is gone either way, so that it is
    /// torn down once and no more.
    pub fn unplug(self, destroyed: Result<(), i32>) -> (ended: Result<(), Error>)
        ensures
            match destroyed {
                Ok(_) => ended is Ok,
                Err(errno) => ended is Err && ended->Err_0 == error_of_errno(errno),
            },
    {
        match destroyed {
            Ok(_) => Ok(()),
            Err(errno) => Err(Error::from_errno(errno)),
        }
    }
}

} // verus!
