//! The scan orchestrator: one device session from driver start-up to
//! teardown, as a machine that is handed the outcome of each driver call and
//! answers with the next call to make. Whoever runs it performs the actions;
//! the machine decides their order, the resolution to ask for, what is sent
//! downstream, and that every opened handle is released on every path.
use vstd::prelude::*;

use crate::bmp::{bmp_header, encodable, encode_as_bmp, encode_bmp_header, rgb_to_bgr, swap_channels};
use crate::error::{ErrorKind, ScanError};
use crate::options::{
    choose_resolution, decode_options, first_option_error, lemma_resolution_of_decoded,
    raw_resolution_to_set, OptionValue, RawOptionDescriptor, SetInfo, TARGET_RESOLUTION_DPI,
};

verus! {

/// Capacity of the buffer each read fills: 3 MiB, a whole number of 3-byte
/// pixels, so that no buffer ends inside a pixel.
pub const READ_BUFFER_SIZE: usize = 3 * 1024 * 1024;

/// Geometry and format of the image, as reported once scanning starts.
#[derive(Clone, Copy, Debug, PartialEq, Eq, Structural)]
pub struct ScanParameters {
    pub format: u32,
    pub last_frame: bool,
    pub bytes_per_line: i32,
    pub pixels_per_line: i32,
    /// Negative while the driver cannot tell yet.
    pub lines: i32,
    pub depth: i32,
}

/// Whether the image goes downstream chunk by chunk, or is gathered whole.
#[derive(Clone, Copy, Debug, PartialEq, Eq, Structural)]
pub enum Mode {
    Batch,
    Streaming,
}

/// The driver call or delivery whose outcome the machine waits for.
#[derive(Clone, Copy, Debug, PartialEq, Eq, Structural)]
pub enum Phase {
    AwaitInit,
    AwaitDevices,
    AwaitOpen,
    AwaitOptions,
    AwaitSet,
    AwaitValue,
    AwaitStart,
    AwaitDelivery,
    AwaitRead,
    AwaitCancel,
    AwaitClose,
    AwaitExit,
    Finished,
}

/// What to do next.
#[derive(Clone, Debug)]
pub enum Action {
    /// Start the driver library.
    InitSession,
    /// List the attached devices.
    ListDevices,
    /// Open the device at this position of the list.
    OpenDevice(usize),
    /// Fetch the option descriptors.
    FetchOptions,
    /// Set the option at `index` to the integer `value`.
    SetOption { index: i32, value: i32 },
    /// Read back the value of the option at `index`.
    FetchValue { index: i32 },
    /// Start scanning and report the parameters.
    StartScan,
    /// Send these bytes downstream.
    Deliver(Vec<u8>),
    /// Read the next buffer of pixel data.
    Read,
    /// Cancel the scan.
    Cancel,
    /// Close the device handle.
    CloseDevice,
    /// Shut the driver library down.
    ExitSession,
    /// Send this failure downstream; nothing follows.
    Fail(ScanError),
    /// The sequence is complete; nothing follows.
    Finish,
}

/// An action without the bytes it delivers.
#[derive(Clone, Copy, Debug, PartialEq, Eq, Structural)]
pub enum ActionKind {
    InitSession,
    ListDevices,
    OpenDevice(usize),
    FetchOptions,
    SetOption { index: i32, value: i32 },
    FetchValue { index: i32 },
    StartScan,
    Deliver,
    Read,
    Cancel,
    CloseDevice,
    ExitSession,
    Fail(ScanError),
    Finish,
}

impl Action {
    pub open spec fn kind(&self) -> ActionKind {
        match *self {
            Action::InitSession => ActionKind::InitSession,
            Action::ListDevices => ActionKind::ListDevices,
            Action::OpenDevice(i) => ActionKind::OpenDevice(i),
            Action::FetchOptions => ActionKind::FetchOptions,
            Action::SetOption { index, value } => ActionKind::SetOption { index, value },
            Action::FetchValue { index } => ActionKind::FetchValue { index },
            Action::StartScan => ActionKind::StartScan,
            Action::Deliver(_) => ActionKind::Deliver,
            Action::Read => ActionKind::Read,
            Action::Cancel => ActionKind::Cancel,
            Action::CloseDevice => ActionKind::CloseDevice,
            Action::ExitSession => ActionKind::ExitSession,
            Action::Fail(e) => ActionKind::Fail(e),
            Action::Finish => ActionKind::Finish,
        }
    }
}

/// The outcome of the last action.
#[derive(Clone, Debug)]
pub enum Event {
    /// The action completed and had nothing to report.
    Done,
    /// The number of devices found.
    Devices(usize),
    /// The option descriptors, as the driver reports them.
    Options(Vec<RawOptionDescriptor>),
    /// The value read back from an option.
    Value(OptionValue),
    /// What the driver said after an option was set.
    OptionSet(SetInfo),
    /// Scanning started with these parameters.
    Started(ScanParameters),
    /// A buffer of pixel data.
    Data(Vec<u8>),
    /// The image is complete.
    EndOfData,
    /// The driver call failed with this status code.
    Failed(u32),
}

/// Everything the machine remembers besides the gathered image.
#[derive(Clone, Copy, Debug, PartialEq, Eq, Structural)]
pub struct ScanState {
    pub mode: Mode,
    pub phase: Phase,
    /// The driver library is started and not yet shut down.
    pub session_open: bool,
    /// A device handle is open and not yet closed.
    pub device_open: bool,
    /// The resolution policy has been applied.
    pub negotiated: bool,
    /// The option being set and read back.
    pub pending_index: i32,
    /// The last set asked for the descriptors to be fetched again.
    pub reload_options: bool,
    /// The resolution the device settled on, once read back.
    pub resolution: Option<i32>,
    pub width: u32,
    pub height: u32,
    /// Why the scan stopped, once it did; nothing for a complete image.
    pub outcome: Option<ScanError>,
}

/// The last step: deliver the outcome.
pub open spec fn finish(s: ScanState) -> (ScanState, ActionKind) {
    (
        ScanState { phase: Phase::Finished, ..s },
        match s.outcome {
            Some(e) => ActionKind::Fail(e),
            None => ActionKind::Finish,
        },
    )
}

/// Shut the driver down if it is started, then finish.
pub open spec fn exit_or_finish(s: ScanState) -> (ScanState, ActionKind) {
    if s.session_open {
        (ScanState { phase: Phase::AwaitExit, ..s }, ActionKind::ExitSession)
    } else {
        finish(s)
    }
}

/// Stop with `outcome`: cancel and close an open device, shut the driver
/// down, then finish.
pub open spec fn teardown(s: ScanState, outcome: Option<ScanError>) -> (ScanState, ActionKind) {
    let t = ScanState { outcome, ..s };
    if t.device_open {
        (ScanState { phase: Phase::AwaitCancel, ..t }, ActionKind::Cancel)
    } else {
        exit_or_finish(t)
    }
}

/// Stop with the failure of a driver call.
pub open spec fn fail_with(s: ScanState, kind: ErrorKind, code: u32) -> (ScanState, ActionKind) {
    teardown(s, Some(ScanError { kind, status: Some(code) }))
}

/// The number of pixel bytes the parameters announce: 3 per pixel.
pub open spec fn image_len(width: u32, height: u32) -> nat {
    (width * height * 3) as nat
}

/// The events the machine can take in each phase.
pub open spec fn accepts(s: ScanState, ev: Event) -> bool {
    match s.phase {
        Phase::AwaitInit => ev is Done || ev is Failed,
        Phase::AwaitDevices => ev is Devices || ev is Failed,
        Phase::AwaitOpen => ev is Done || ev is Failed,
        Phase::AwaitOptions => ev is Options || ev is Failed,
        Phase::AwaitSet => ev is OptionSet || ev is Failed,
        Phase::AwaitValue => ev is Value || ev is Failed,
        Phase::AwaitStart => ev is Started || ev is Failed,
        Phase::AwaitDelivery => ev is Done,
        Phase::AwaitRead => ev is Data || ev is EndOfData || ev is Failed,
        Phase::AwaitCancel | Phase::AwaitClose | Phase::AwaitExit => ev is Done || ev is Failed,
        Phase::Finished => false,
    }
}

/// The next state and action, for an event that the state accepts.
pub open spec fn next(s: ScanState, ev: Event) -> (ScanState, ActionKind) {
    match s.phase {
        Phase::AwaitInit => match ev {
            Event::Failed(code) => fail_with(s, ErrorKind::DriverInitFailed, code),
            _ => (ScanState { session_open: true, phase: Phase::AwaitDevices, ..s }, ActionKind::ListDevices),
        },
        Phase::AwaitDevices => match ev {
            Event::Devices(n) => if n == 0 {
                teardown(s, Some(ScanError { kind: ErrorKind::NoScannerFound, status: None }))
            } else {
                (ScanState { phase: Phase::AwaitOpen, ..s }, ActionKind::OpenDevice(0))
            },
            Event::Failed(code) => fail_with(s, ErrorKind::DriverInitFailed, code),
            _ => (s, ActionKind::Finish),
        },
        Phase::AwaitOpen => match ev {
            Event::Failed(code) => fail_with(s, ErrorKind::DeviceOpenFailed, code),
            _ => (ScanState { device_open: true, phase: Phase::AwaitOptions, ..s }, ActionKind::FetchOptions),
        },
        Phase::AwaitOptions => match ev {
            Event::Options(raws) => if first_option_error(raws@) is Some {
                teardown(s, first_option_error(raws@))
            } else if s.negotiated {
                (ScanState { phase: Phase::AwaitStart, ..s }, ActionKind::StartScan)
            } else {
                match raw_resolution_to_set(raws@, TARGET_RESOLUTION_DPI) {
                    Some(index) => (
                        ScanState { phase: Phase::AwaitSet, pending_index: index, ..s },
                        ActionKind::SetOption { index, value: TARGET_RESOLUTION_DPI },
                    ),
                    None => (
                        ScanState { phase: Phase::AwaitStart, negotiated: true, ..s },
                        ActionKind::StartScan,
                    ),
                }
            },
            Event::Failed(code) => fail_with(s, ErrorKind::OptionQueryFailed, code),
            _ => (s, ActionKind::Finish),
        },
        Phase::AwaitSet => match ev {
            Event::OptionSet(info) => (
                ScanState { phase: Phase::AwaitValue, reload_options: info.reload_options, ..s },
                ActionKind::FetchValue { index: s.pending_index },
            ),
            Event::Failed(code) => fail_with(s, ErrorKind::OptionSetFailed, code),
            _ => (s, ActionKind::Finish),
        },
        Phase::AwaitValue => match ev {
            Event::Value(v) => {
                let t = ScanState {
                    negotiated: true,
                    resolution: match v {
                        OptionValue::Int(x) => Some(x),
                        _ => None,
                    },
                    ..s
                };
                if s.reload_options {
                    (ScanState { phase: Phase::AwaitOptions, ..t }, ActionKind::FetchOptions)
                } else {
                    (ScanState { phase: Phase::AwaitStart, ..t }, ActionKind::StartScan)
                }
            },
            Event::Failed(code) => fail_with(s, ErrorKind::OptionQueryFailed, code),
            _ => (s, ActionKind::Finish),
        },
        Phase::AwaitStart => match ev {
            Event::Started(p) => if p.pixels_per_line < 0 || p.lines < 0 {
                teardown(s, Some(ScanError { kind: ErrorKind::ScanParametersFailed, status: None }))
            } else {
                let t = ScanState { width: p.pixels_per_line as u32, height: p.lines as u32, ..s };
                match s.mode {
                    Mode::Streaming => if encodable(image_len(t.width, t.height), t.height) {
                        (ScanState { phase: Phase::AwaitDelivery, ..t }, ActionKind::Deliver)
                    } else {
                        teardown(t, Some(ScanError::encoding()))
                    },
                    Mode::Batch => (ScanState { phase: Phase::AwaitRead, ..t }, ActionKind::Read),
                }
            },
            Event::Failed(code) => fail_with(s, ErrorKind::ScanStartFailed, code),
            _ => (s, ActionKind::Finish),
        },
        Phase::AwaitDelivery => (ScanState { phase: Phase::AwaitRead, ..s }, ActionKind::Read),
        Phase::AwaitRead => match ev {
            Event::Data(chunk) => if chunk@.len() > 0 && s.mode == Mode::Streaming {
                (ScanState { phase: Phase::AwaitDelivery, ..s }, ActionKind::Deliver)
            } else {
                (s, ActionKind::Read)
            },
            Event::EndOfData => teardown(s, None),
            Event::Failed(code) => fail_with(s, ErrorKind::ReadFailed, code),
            _ => (s, ActionKind::Finish),
        },
        Phase::AwaitCancel => (ScanState { phase: Phase::AwaitClose, ..s }, ActionKind::CloseDevice),
        Phase::AwaitClose => exit_or_finish(ScanState { device_open: false, ..s }),
        Phase::AwaitExit => finish(ScanState { session_open: false, ..s }),
        Phase::Finished => (s, ActionKind::Finish),
    }
}

/// The bytes a `Deliver` action hands downstream: the headers once scanning
/// starts, then each buffer with its channels swapped.
pub open spec fn delivered(s: ScanState, ev: Event) -> Seq<u8> {
    match ev {
        Event::Started(p) => bmp_header(
            image_len(p.pixels_per_line as u32, p.lines as u32),
            p.pixels_per_line as u32,
            p.lines as u32,
        ),
        Event::Data(chunk) => swap_channels(chunk@),
        _ => Seq::empty(),
    }
}

/// The image gathered in batch mode after the event: each buffer is
/// appended as it was read.
pub open spec fn gathered(s: ScanState, image: Seq<u8>, ev: Event) -> Seq<u8> {
    match ev {
        Event::Data(chunk) => if s.phase == Phase::AwaitRead && s.mode == Mode::Batch {
            image + chunk@
        } else {
            image
        },
        _ => image,
    }
}

/// A scan in progress.
pub struct ScanMachine {
    pub state: ScanState,
    /// The pixel data gathered so far in batch mode.
    pub image: Vec<u8>,
}

/// A complete image as read from the device: red-green-blue bytes, line by
/// line from the top.
pub struct ScanImage {
    pub raw_data: Vec<u8>,
    pub width: u32,
    pub height: u32,
}

impl ScanMachine {
    /// A machine for a new scan, and its first action: starting the driver.
    pub fn new(mode: Mode) -> (r: (ScanMachine, Action))
        ensures
            r.0.state == (ScanState {
                mode,
                phase: Phase::AwaitInit,
                session_open: false,
                device_open: false,
                negotiated: false,
                pending_index: 0,
                reload_options: false,
                resolution: None,
                width: 0,
                height: 0,
                outcome: None,
            }),
            r.0.image@.len() == 0,
            r.1 is InitSession,
    {
        let state = ScanState {
            mode,
            phase: Phase::AwaitInit,
            session_open: false,
            device_open: false,
            negotiated: false,
            pending_index: 0,
            reload_options: false,
            resolution: None,
            width: 0,
            height: 0,
            outcome: None,
        };
        (ScanMachine { state, image: Vec::new() }, Action::InitSession)
    }

    /// Whether the machine can take `ev` now.
    pub fn accepts(&self, ev: &Event) -> (r: bool)
        ensures
            r == accepts(self.state, *ev),
    {
        match self.state.phase {
            Phase::AwaitInit => matches!(ev, Event::Done | Event::Failed(_)),
            Phase::AwaitDevices => matches!(ev, Event::Devices(_) | Event::Failed(_)),
            Phase::AwaitOpen => matches!(ev, Event::Done | Event::Failed(_)),
            Phase::AwaitOptions => matches!(ev, Event::Options(_) | Event::Failed(_)),
            Phase::AwaitSet => matches!(ev, Event::OptionSet(_) | Event::Failed(_)),
            Phase::AwaitValue => matches!(ev, Event::Value(_) | Event::Failed(_)),
            Phase::AwaitStart => matches!(ev, Event::Started(_) | Event::Failed(_)),
            Phase::AwaitDelivery => matches!(ev, Event::Done),
            Phase::AwaitRead => matches!(ev, Event::Data(_) | Event::EndOfData | Event::Failed(_)),
            Phase::AwaitCancel | Phase::AwaitClose | Phase::AwaitExit => matches!(ev, Event::Done | Event::Failed(_)),
            Phase::Finished => false,
        }
    }

    fn finish(&mut self) -> (r: Action)
        ensures
            (final(self).state, r.kind()) == finish(old(self).state),
            final(self).image@ == old(self).image@,
    {
        self.state.phase = Phase::Finished;
        match self.state.outcome {
            Some(e) => Action::Fail(e),
            None => Action::Finish,
        }
    }

    fn exit_or_finish(&mut self) -> (r: Action)
        ensures
            (final(self).state, r.kind()) == exit_or_finish(old(self).state),
            final(self).image@ == old(self).image@,
    {
        if self.state.session_open {
            self.state.phase = Phase::AwaitExit;
            Action::ExitSession
        } else {
            self.finish()
        }
    }

    fn teardown(&mut self, outcome: Option<ScanError>) -> (r: Action)
        ensures
            (final(self).state, r.kind()) == teardown(old(self).state, outcome),
            final(self).image@ == old(self).image@,
    {
        self.state.outcome = outcome;
        if self.state.device_open {
            self.state.phase = Phase::AwaitCancel;
            Action::Cancel
        } else {
            self.exit_or_finish()
        }
    }

    fn fail_with(&mut self, kind: ErrorKind, code: u32) -> (r: Action)
        ensures
            (final(self).state, r.kind()) == fail_with(old(self).state, kind, code),
            final(self).image@ == old(self).image@,
    {
        self.teardown(Some(ScanError::driver(kind, code)))
    }

    fn options_fetched(&mut self, raws: &Vec<RawOptionDescriptor>) -> (r: Action)
        requires
            old(self).state.phase == Phase::AwaitOptions,
        ensures
            (final(self).state, r.kind()) == next(old(self).state, Event::Options(*raws)),
            final(self).image@ == old(self).image@,
    {
        match decode_options(raws) {
            Err(e) => self.teardown(Some(e)),
            Ok(opts) => {
                if self.state.negotiated {
                    self.state.phase = Phase::AwaitStart;
                    Action::StartScan
                } else {
                    proof {
                        lemma_resolution_of_decoded(raws@, opts@, TARGET_RESOLUTION_DPI);
                    }
                    match choose_resolution(&opts, TARGET_RESOLUTION_DPI) {
                        Some(index) => {
                            self.state.phase = Phase::AwaitSet;
                            self.state.pending_index = index;
                            Action::SetOption { index, value: TARGET_RESOLUTION_DPI }
                        },
                        None => {
                            self.state.phase = Phase::AwaitStart;
                            self.state.negotiated = true;
                            Action::StartScan
                        },
                    }
                }
            },
        }
    }

    fn started(&mut self, p: ScanParameters) -> (r: Action)
        requires
            old(self).state.phase == Phase::AwaitStart,
        ensures
            (final(self).state, r.kind()) == next(old(self).state, Event::Started(p)),
            r matches Action::Deliver(b) ==> b@ == delivered(old(self).state, Event::Started(p)),
            final(self).image@ == old(self).image@,
    {
        if p.pixels_per_line < 0 || p.lines < 0 {
            return self.teardown(Some(ScanError { kind: ErrorKind::ScanParametersFailed, status: None }));
        }
        let width = p.pixels_per_line as u32;
        let height = p.lines as u32;
        self.state.width = width;
        self.state.height = height;
        match self.state.mode {
            Mode::Streaming => {
                assert(width as u64 * height as u64 <= 0x4000_0000_0000_0000) by (nonlinear_arith)
                    requires width < 0x8000_0000, height < 0x8000_0000;
                let len: u64 = width as u64 * height as u64 * 3;
                assert(len == image_len(width, height)) by (nonlinear_arith)
                    requires len == width as u64 * height as u64 * 3, width < 0x8000_0000, height < 0x8000_0000;
                let mut header: Vec<u8> = Vec::new();
                match encode_bmp_header(len, width, height, &mut header) {
                    Ok(()) => {
                        assert(header@ =~= bmp_header(image_len(width, height), width, height));
                        self.state.phase = Phase::AwaitDelivery;
                        Action::Deliver(header)
                    },
                    Err(e) => self.teardown(Some(e)),
                }
            },
            Mode::Batch => {
                self.state.phase = Phase::AwaitRead;
                Action::Read
            },
        }
    }

    /// Takes the outcome of the last action and returns the next one.
    pub fn step(&mut self, ev: Event) -> (r: Action)
        requires
            accepts(old(self).state, ev),
        ensures
            (final(self).state, r.kind()) == next(old(self).state, ev),
            r matches Action::Deliver(b) ==> b@ == delivered(old(self).state, ev),
            final(self).image@ == gathered(old(self).state, old(self).image@, ev),
    {
        match self.state.phase {
            Phase::AwaitInit => match ev {
                Event::Failed(code) => self.fail_with(ErrorKind::DriverInitFailed, code),
                _ => {
                    self.state.session_open = true;
                    self.state.phase = Phase::AwaitDevices;
                    Action::ListDevices
                },
            },
            Phase::AwaitDevices => match ev {
                Event::Devices(n) => {
                    if n == 0 {
                        self.teardown(Some(ScanError { kind: ErrorKind::NoScannerFound, status: None }))
                    } else {
                        self.state.phase = Phase::AwaitOpen;
                        Action::OpenDevice(0)
                    }
                },
                Event::Failed(code) => self.fail_with(ErrorKind::DriverInitFailed, code),
                _ => Action::Finish,
            },
            Phase::AwaitOpen => match ev {
                Event::Failed(code) => self.fail_with(ErrorKind::DeviceOpenFailed, code),
                _ => {
                    self.state.device_open = true;
                    self.state.phase = Phase::AwaitOptions;
                    Action::FetchOptions
                },
            },
            Phase::AwaitOptions => match ev {
                Event::Options(raws) => self.options_fetched(&raws),
                Event::Failed(code) => self.fail_with(ErrorKind::OptionQueryFailed, code),
                _ => Action::Finish,
            },
            Phase::AwaitSet => match ev {
                Event::OptionSet(info) => {
                    self.state.phase = Phase::AwaitValue;
                    self.state.reload_options = info.reload_options;
                    Action::FetchValue { index: self.state.pending_index }
                },
                Event::Failed(code) => self.fail_with(ErrorKind::OptionSetFailed, code),
                _ => Action::Finish,
            },
            Phase::AwaitValue => match ev {
                Event::Value(v) => {
                    self.state.negotiated = true;
                    self.state.resolution = match v {
                        OptionValue::Int(x) => Some(x),
                        _ => None,
                    };
                    if self.state.reload_options {
                        self.state.phase = Phase::AwaitOptions;
                        Action::FetchOptions
                    } else {
                        self.state.phase = Phase::AwaitStart;
                        Action::StartScan
                    }
                },
                Event::Failed(code) => self.fail_with(ErrorKind::OptionQueryFailed, code),
                _ => Action::Finish,
            },
            Phase::AwaitStart => match ev {
                Event::Started(p) => self.started(p),
                Event::Failed(code) => self.fail_with(ErrorKind::ScanStartFailed, code),
                _ => Action::Finish,
            },
            Phase::AwaitDelivery => {
                self.state.phase = Phase::AwaitRead;
                Action::Read
            },
            Phase::AwaitRead => match ev {
                Event::Data(chunk) => {
                    if chunk.len() > 0 && self.state.mode == Mode::Streaming {
                        let mut out = chunk;
                        rgb_to_bgr(&mut out);
                        self.state.phase = Phase::AwaitDelivery;
                        Action::Deliver(out)
                    } else {
                        if self.state.mode == Mode::Batch {
                            self.image.extend_from_slice(chunk.as_slice());
                        }
                        Action::Read
                    }
                },
                Event::EndOfData => self.teardown(None),
                Event::Failed(code) => self.fail_with(ErrorKind::ReadFailed, code),
                _ => Action::Finish,
            },
            Phase::AwaitCancel => {
                self.state.phase = Phase::AwaitClose;
                Action::CloseDevice
            },
            Phase::AwaitClose => {
                self.state.device_open = false;
                self.exit_or_finish()
            },
            Phase::AwaitExit => {
                self.state.session_open = false;
                self.finish()
            },
            Phase::Finished => Action::Finish,
        }
    }
}

impl ScanState {
    /// What is open matches the phase: the driver is started from the device
    /// listing until it is shut down, a device is open from fetching the
    /// options until it is closed, and nothing is open once finished.
    pub open spec fn wf(self) -> bool {
        match self.phase {
            Phase::AwaitInit => !self.session_open && !self.device_open,
            Phase::AwaitDevices | Phase::AwaitOpen => self.session_open && !self.device_open,
            Phase::AwaitOptions | Phase::AwaitSet | Phase::AwaitValue | Phase::AwaitStart
            | Phase::AwaitDelivery | Phase::AwaitRead | Phase::AwaitCancel
            | Phase::AwaitClose => self.session_open && self.device_open,
            Phase::AwaitExit => self.session_open && !self.device_open,
            Phase::Finished => !self.session_open && !self.device_open,
        }
    }
}

/// Every step keeps what is open in line with the phase, so a scan that has
/// finished, however it ended, has closed its device and shut the driver
/// down, and scanning only ever starts on an open device.
pub proof fn lemma_step_keeps_wf(s: ScanState, ev: Event)
    requires
        s.wf(),
        accepts(s, ev),
    ensures
        next(s, ev).0.wf(),
        next(s, ev).0.phase == Phase::Finished ==> !next(s, ev).0.device_open && !next(s, ev).0.session_open,
        next(s, ev).1 is StartScan ==> s.device_open && next(s, ev).0.device_open,
        next(s, ev).1 is OpenDevice ==> s.session_open && !s.device_open,
{
}

/// The outcome goes downstream exactly once, last: a step hands out `Fail` or
/// `Finish` exactly when it enters the finished phase, which takes no event.
pub proof fn lemma_outcome_is_last(s: ScanState, ev: Event)
    requires
        s.wf(),
        accepts(s, ev),
    ensures
        (next(s, ev).1 is Fail || next(s, ev).1 is Finish) <==> next(s, ev).0.phase == Phase::Finished,
        next(s, ev).0.phase == Phase::Finished ==> forall|e: Event| !accepts(next(s, ev).0, e),
{
}

/// A device is let go only in order: the handle is closed only by the step
/// after `CloseDevice`, `CloseDevice` comes only after `Cancel`, and the
/// outcome goes downstream only once no device is open. A driver failure
/// while letting go never replaces the outcome already decided.
pub proof fn lemma_teardown_order(s: ScanState, ev: Event)
    requires
        s.wf(),
        accepts(s, ev),
    ensures
        s.device_open && !next(s, ev).0.device_open ==> s.phase == Phase::AwaitClose,
        next(s, ev).0.phase == Phase::AwaitClose ==> s.phase == Phase::AwaitCancel && next(s, ev).1 is CloseDevice,
        next(s, ev).0.phase == Phase::AwaitCancel ==> next(s, ev).1 is Cancel,
        (next(s, ev).1 is Fail || next(s, ev).1 is Finish) ==> !s.device_open,
        s.phase == Phase::AwaitCancel || s.phase == Phase::AwaitClose || s.phase == Phase::AwaitExit
            ==> next(s, ev).0.outcome == s.outcome,
{
}

impl ScanMachine {
    /// The gathered image of a batch scan that read to the end; nothing for a
    /// streaming scan, one still running, or one that failed.
    pub fn into_image(self) -> (r: Option<ScanImage>)
        ensures
            r is Some <==> (self.state.mode == Mode::Batch && self.state.phase == Phase::Finished
                && self.state.outcome is None),
            r matches Some(img) ==> img.raw_data@ == self.image@ && img.width == self.state.width
                && img.height == self.state.height,
    {
        if self.state.mode == Mode::Batch && self.state.phase == Phase::Finished && self.state.outcome.is_none() {
            Some(ScanImage { raw_data: self.image, width: self.state.width, height: self.state.height })
        } else {
            None
        }
    }
}

/// The BMP file for a batch scan: the headers for the image's geometry and
/// size, then its pixels with the red and blue bytes swapped.
pub fn scan_to_file(image: ScanImage) -> (r: Result<Vec<u8>, ScanError>)
    ensures
        r is Ok <==> encodable(image.raw_data@.len(), image.height),
        r matches Ok(bytes) ==> bytes@ == bmp_header(image.raw_data@.len(), image.width, image.height)
            + swap_channels(image.raw_data@),
        r matches Err(e) ==> e == ScanError::encoding(),
{
    let mut data = image.raw_data;
    rgb_to_bgr(&mut data);
    let mut out: Vec<u8> = Vec::new();
    match encode_as_bmp(data.as_slice(), (image.width, image.height), &mut out) {
        Ok(()) => {
            assert(out@ =~= bmp_header(image.raw_data@.len(), image.width, image.height) + swap_channels(image.raw_data@));
            Ok(out)
        },
        Err(e) => Err(e),
    }
}

} // verus!
