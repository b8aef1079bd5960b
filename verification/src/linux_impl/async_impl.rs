//! The device whose outputs are awaited: a worker reads the device and
//! hands what it decodes on through a queue.
//!
//! The worker waits until the device is ready or the wait runs out, and
//! then decides here what to do. The device's owner keeps the writing half
//! and the receiving end of the queue.

use vstd::prelude::*;
use crate::api::{error_of_errno, Error, ErrorView, Input, Output, EAGAIN};
use crate::linux_impl::clock::is_clock_time;
use crate::linux_impl::shared_impl::{
    capability_plan, create_uinput_device, read_step, step_view, write_outcome, write_view,
    Request, SetupStep, UInputFDReader, UInputFDWriter,
};
use crate::linux_impl::text::{
    closed_message, closed_text, size_mismatch_text, worker_message, worker_text,
};
use crate::linux_impl::types::{
    upload_effect, with_retval, ForceFeedbackErase, ForceFeedbackUpload, InputEvent,
    VgpDeviceForceFeedback, INPUT_EVENT_SIZE,
};

verus! {

/// The longest the worker waits for the device before it looks whether
/// its consumer is still there, in milliseconds.
pub const POLL_WAIT_MS: isize = 250;

/// What the worker does when its wait ends.
#[derive(Debug, Clone, Copy, PartialEq, Eq, Structural)]
pub enum Wake {
    /// The consumer is gone: end, without fault.
    Exit,
    /// Nothing is ready: wait again.
    Wait,
    /// The device is ready: read it.
    Read,
}

/// What the worker does with what it has decoded.
#[derive(Debug, Clone, Copy, PartialEq, Eq, Structural)]
pub enum Forward {
    /// Hand the output on through the queue.
    Send(Output),
    /// Hand nothing on.
    Skip,
}

/// What the worker does when its wait ends: a closed queue ends it,
/// whatever is ready; else it reads the device if something is ready.
pub open spec fn wake_step(consumer_closed: bool, ready: usize) -> Wake {
    if consumer_closed {
        Wake::Exit
    } else if ready == 0 {
        Wake::Wait
    } else {
        Wake::Read
    }
}

/// What the worker does with an output: only magnitudes are handed on.
pub open spec fn forward_step(output: Output) -> Forward {
    match output {
        Output::Nothing => Forward::Skip,
        Output::Unsupported => Forward::Skip,
        Output::Rumble { large_motor, small_motor } => Forward::Send(output),
    }
}

/// Once the consumer has closed its end of the queue, the worker ends at
/// its next wake, whatever is ready then; and while the consumer is there,
/// the worker never ends of its own accord.
pub proof fn lemma_closed_consumer_ends_worker(ready: usize)
    ensures
        wake_step(true, ready) == Wake::Exit,
        wake_step(false, ready) != Wake::Exit,
{
}

/// Of what the device sends back, the consumer is handed magnitudes and
/// nothing else.
pub proof fn lemma_only_magnitudes_are_sent(output: Output)
    ensures
        forward_step(output) == Forward::Send(output) <==> output is Rumble,
        forward_step(output) == Forward::Skip <==> !(output is Rumble),
{
}

/// The capability to create devices. It owns nothing: the device node is
/// opened anew for every device.
pub struct Bus {}

impl Bus {
    /// Gives the bus, where the facility that registers devices can be
    /// reached. `opened` is the outcome of opening its device node: the
    /// error number, if that failed. Missing access rights are told apart
    /// from every other failure, since the user can mend them.
    pub fn new(opened: Result<(), i32>) -> (bus: Result<Bus, Error>)
        ensures
            match opened {
                Ok(_) => bus is Ok,
                Err(errno) => bus is Err && bus->Err_0 == error_of_errno(errno),
            },
    {
        match opened {
            Ok(_) => Ok(Bus {  }),
            Err(errno) => Err(Error::from_errno(errno)),
        }
    }

    /// The steps that register a device with the kernel, in the order in which
    /// they are taken on a freshly opened device node. The first step that
    /// fails ends the registration.
    pub fn plan(&self) -> (plan: Vec<SetupStep>)
        ensures
            plan@ == capability_plan(),
    {
        create_uinput_device()
    }

    /// Gives the device that was registered, and the worker that is to
    /// read it. `registered` is the outcome of opening the device node and
    /// taking the steps of the plan: the error number of the first that
    /// failed, if one did. A registration that failed gives neither, and a
    /// new worker knows no effect.
    pub fn plug_in(&mut self, registered: Result<(), i32>) -> (device: Result<
        (Device, Worker),
        Error,
    >)
        ensures
            match registered {
                Ok(_) => device is Ok && device->Ok_0.1.effects() == Map::<
                    i64,
                    VgpDeviceForceFeedback,
                >::empty(),
                Err(errno) => device is Err && device->Err_0 == error_of_errno(errno),
            },
    {
        match registered {
            Ok(_) => Ok(
                (
                    Device { fd_writer: UInputFDWriter::new() },
                    Worker { fd_reader: UInputFDReader::new() },
                ),
            ),
            Err(errno) => Err(Error::from_errno(errno)),
        }
    }
}

/// The worker's side of a device: the half that reads.
pub struct Worker {
    fd_reader: UInputFDReader,
}

impl Worker {
    /// The effects that the kernel has uploaded and not erased.
    pub closed spec fn effects(&self) -> Map<i64, VgpDeviceForceFeedback> {
        self.fd_reader.effects()
    }

    /// Decides what to do when the wait ends. `consumer_closed` says
    /// whether the receiving end of the queue is closed, `ready` how many
    /// readiness events the wait gave.
    pub fn on_wake(&self, consumer_closed: bool, ready: usize) -> (wake: Wake)
        ensures
            wake == wake_step(consumer_closed, ready),
    {
        if consumer_closed {
            Wake::Exit
        } else if ready == 0 {
            Wake::Wait
        } else {
            Wake::Read
        }
    }

    /// Decides what the outcome of one read from the device asks for, as
    /// the polled device does. An error ends the worker. The effects stay
    /// as they are.
    pub fn read(&mut self, outcome: Result<Vec<u8>, i32>) -> (step: Result<Request, Error>)
        ensures
            step_view(step) == read_step(
                match outcome {
                    Ok(bytes) => Ok(bytes@),
                    Err(errno) => Err(errno),
                },
                old(self).effects(),
            ),
            outcome == Err::<Vec<u8>, i32>(EAGAIN) ==> step == Ok::<Request, Error>(
                Request::Done(Output::Nothing),
            ),
            outcome is Ok && outcome->Ok_0@.len() != INPUT_EVENT_SIZE ==> step is Err
                && step->Err_0@ == ErrorView::Unknown(
                size_mismatch_text(INPUT_EVENT_SIZE as nat, outcome->Ok_0@.len()),
            ),
            final(self).effects() == old(self).effects(),
    {
        self.fd_reader.read(outcome)
    }

    /// Takes an upload request as the kernel has filled it in: keeps the
    /// effect and accepts the request.
    pub fn upload(&mut self, request: &mut ForceFeedbackUpload) -> (output: Output)
        ensures
            final(self).effects() == old(self).effects().insert(
                upload_effect(old(request)@).id as i64,
                upload_effect(old(request)@),
            ),
            final(request)@ == with_retval(old(request)@, 0),
            final(request).retval() == 0,
            final(request).request_id() == old(request).request_id(),
            output == Output::Nothing,
    {
        self.fd_reader.upload(request)
    }

    /// Takes an erase request as the kernel has filled it in: forgets the
    /// effect and accepts the request.
    pub fn erase(&mut self, request: &mut ForceFeedbackErase) -> (output: Output)
        ensures
            final(self).effects() == old(self).effects().remove(old(request).effect_id() as i64),
            final(request)@ == with_retval(old(request)@, 0),
            final(request).retval() == 0,
            final(request).request_id() == old(request).request_id(),
            final(request).effect_id() == old(request).effect_id(),
            output == Output::Nothing,
    {
        self.fd_reader.erase(request)
    }

    /// Decides whether an output is handed on: magnitudes are, the rest
    /// is dropped.
    pub fn forward(&self, output: Output) -> (forward: Forward)
        ensures
            forward == forward_step(output),
    {
        match output {
            Output::Nothing => Forward::Skip,
            Output::Unsupported => Forward::Skip,
            Output::Rumble { large_motor, small_motor } => Forward::Send(output),
        }
    }

    /// Judges an attempt to hand an output on: one that the queue took
    /// lets the worker go on, one that it refused ends the worker with a
    /// report.
    pub fn on_sent(&self, taken: bool) -> (went: Result<(), Error>)
        ensures
            taken ==> went is Ok,
            !taken ==> went is Err && went->Err_0@ == ErrorView::Unknown(closed_text()),
    {
        if taken {
            Ok(())
        } else {
            Err(Error::Unknown(closed_message()))
        }
    }
}

/// The owner's side of a device: the half that writes.
pub struct Device {
    fd_writer: UInputFDWriter,
}

impl Device {
    /// Builds the images that submit `input`: they are written to the
    /// device one by one, in their order, and a write that fails ends the
    /// submission. The frame is stamped with the wall clock's time; a clock
    /// that cannot be read is reported.
    pub fn put_input(&mut self, input: Input) -> (written: Result<Vec<InputEvent>, Error>)
        ensures
            exists|clock: Option<(i64, i64)>|
                (clock is Some ==> is_clock_time(clock->0)) && write_view(written)
                    == #[trigger] write_outcome(input, clock),
    {
        self.fd_writer.write(input)
    }

    /// Ends the device, after the queue was closed, the worker was joined
    /// and the device was torn down in the kernel. `joined` is how the
    /// worker ended, or nothing where it ended abnormally; `destroyed` is
    /// the outcome of the teardown. An abnormal end is reported, and an
    /// error of the worker is passed on; where the worker ended well, the
    /// outcome is that of the teardown. The device is gone either way, so
    /// that it is torn down once and no more.
    pub fn unplug(self, joined: Option<Result<(), Error>>, destroyed: Result<(), i32>) -> (ended:
        Result<(), Error>)
        ensures
            match joined {
                None => ended is Err && ended->Err_0@ == ErrorView::Unknown(worker_text()),
                Some(Err(e)) => ended == Err::<(), Error>(e),
                Some(Ok(_)) => match destroyed {
                    Ok(_) => ended is Ok,
                    Err(errno) => ended is Err && ended->Err_0 == error_of_errno(errno),
                },
            },
    {
        match joined {
            None => Err(Error::Unknown(worker_message())),
            Some(Err(e)) => Err(e),
            Some(Ok(_)) => match destroyed {
                Ok(_) => Ok(()),
                Err(errno) => Err(Error::from_errno(errno)),
            },
        }
    }
}

} // verus!
