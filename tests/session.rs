use sane_web_scanner::error::{ErrorKind, ScanError};
use sane_web_scanner::options::{OptionValue, RawConstraint, RawOptionDescriptor, SetInfo};
use sane_web_scanner::session::{Action, Event, Mode, Phase, ScanMachine, ScanParameters};

struct FakeDriver {
    devices: usize,
    options: Vec<RawOptionDescriptor>,
    set_info: SetInfo,
    reads: Vec<Event>,
    params: ScanParameters,
    fail_open: Option<u32>,
    value_after_set: i32,
    log: Vec<String>,
    sets: Vec<(i32, i32)>,
    delivered: Vec<Vec<u8>>,
    errors: Vec<ScanError>,
    finished: bool,
}

fn params(width: i32, lines: i32) -> ScanParameters {
    ScanParameters { format: 1, last_frame: true, bytes_per_line: 3 * width, pixels_per_line: width, lines, depth: 8 }
}

fn resolution_option(words: Vec<i32>) -> RawOptionDescriptor {
    let mut list = vec![words.len() as i32];
    list.extend(words);
    RawOptionDescriptor {
        index: 2,
        name: b"resolution".to_vec(),
        title: b"Scan resolution".to_vec(),
        desc: b"Sets the resolution of the scanned image.".to_vec(),
        type_code: 1,
        unit_code: 4,
        size: 4,
        cap_bits: 5,
        constraint: RawConstraint { kind: 2, min: 0, max: 0, quant: 0, words: list, strings: vec![] },
    }
}

impl FakeDriver {
    fn new(devices: usize) -> FakeDriver {
        FakeDriver {
            devices,
            options: vec![resolution_option(vec![100, 200, 300, 600])],
            set_info: SetInfo { inexact: false, reload_options: false, reload_params: true },
            reads: vec![Event::EndOfData],
            params: params(2, 1),
            fail_open: None,
            value_after_set: 300,
            log: Vec::new(),
            sets: Vec::new(),
            delivered: Vec::new(),
            errors: Vec::new(),
            finished: false,
        }
    }

    fn respond(&mut self, action: &Action) -> Option<Event> {
        let (name, event) = match action {
            Action::InitSession => ("init", Event::Done),
            Action::ListDevices => ("list", Event::Devices(self.devices)),
            Action::OpenDevice(_) => match self.fail_open {
                Some(code) => ("open", Event::Failed(code)),
                None => ("open", Event::Done),
            },
            Action::FetchOptions => ("options", Event::Options(self.options.clone())),
            Action::SetOption { index, value } => {
                self.sets.push((*index, *value));
                ("set", Event::OptionSet(self.set_info))
            }
            Action::FetchValue { .. } => ("get", Event::Value(OptionValue::Int(self.value_after_set))),
            Action::StartScan => ("start", Event::Started(self.params)),
            Action::Deliver(bytes) => {
                self.delivered.push(bytes.clone());
                ("deliver", Event::Done)
            }
            Action::Read => ("read", self.reads.remove(0)),
            Action::Cancel => ("cancel", Event::Done),
            Action::CloseDevice => ("close", Event::Done),
            Action::ExitSession => ("exit", Event::Done),
            Action::Fail(e) => {
                self.errors.push(*e);
                self.log.push("fail".to_string());
                return None;
            }
            Action::Finish => {
                self.finished = true;
                self.log.push("finish".to_string());
                return None;
            }
        };
        self.log.push(name.to_string());
        Some(event)
    }
}

fn run(mode: Mode, driver: &mut FakeDriver) -> ScanMachine {
    let (mut machine, mut action) = ScanMachine::new(mode);
    while let Some(event) = driver.respond(&action) {
        assert!(machine.accepts(&event));
        action = machine.step(event);
    }
    assert_eq!(machine.state.phase, Phase::Finished);
    assert!(!machine.state.device_open && !machine.state.session_open);
    machine
}

fn count(driver: &FakeDriver, name: &str) -> usize {
    driver.log.iter().filter(|l| l.as_str() == name).count()
}

#[test]
fn no_devices_fails_without_opening() {
    let mut d = FakeDriver::new(0);
    run(Mode::Streaming, &mut d);
    assert_eq!(d.errors, vec![ScanError { kind: ErrorKind::NoScannerFound, status: None }]);
    assert_eq!(count(&d, "open"), 0);
    assert_eq!(count(&d, "start"), 0);
    assert_eq!(d.log, vec!["init", "list", "exit", "fail"]);
    assert!(d.delivered.is_empty());
}

#[test]
fn resolution_300_is_set_once_and_read_back() {
    let mut d = FakeDriver::new(1);
    let m = run(Mode::Streaming, &mut d);
    assert_eq!(d.sets, vec![(2, 300)]);
    assert_eq!(count(&d, "get"), 1);
    assert_eq!(m.state.resolution, Some(300));
    assert!(d.errors.is_empty() && d.finished);
}

#[test]
fn clamped_resolution_is_what_is_recorded() {
    let mut d = FakeDriver::new(1);
    d.set_info = SetInfo { inexact: true, reload_options: false, reload_params: false };
    d.value_after_set = 299;
    let m = run(Mode::Streaming, &mut d);
    assert_eq!(m.state.resolution, Some(299));
}

#[test]
fn reload_request_fetches_options_again_without_second_set() {
    let mut d = FakeDriver::new(1);
    d.set_info = SetInfo { inexact: false, reload_options: true, reload_params: false };
    run(Mode::Streaming, &mut d);
    assert_eq!(count(&d, "options"), 2);
    assert_eq!(d.sets.len(), 1);
    assert_eq!(d.log[..8], ["init", "list", "open", "options", "set", "get", "options", "start"]);
}

#[test]
fn resolution_absent_from_list_is_not_set() {
    let mut d = FakeDriver::new(1);
    d.options = vec![resolution_option(vec![75, 150])];
    let m = run(Mode::Streaming, &mut d);
    assert!(d.sets.is_empty());
    assert_eq!(m.state.resolution, None);
    assert_eq!(count(&d, "start"), 1);
}

#[test]
fn end_of_data_at_once_delivers_only_header() {
    let mut d = FakeDriver::new(1);
    run(Mode::Streaming, &mut d);
    assert_eq!(d.delivered.len(), 1);
    assert_eq!(d.delivered[0].len(), 54);
    assert_eq!(u32::from_le_bytes([d.delivered[0][2], d.delivered[0][3], d.delivered[0][4], d.delivered[0][5]]), 60);
    assert!(d.errors.is_empty() && d.finished);
    let tail = &d.log[d.log.len() - 5..];
    assert_eq!(tail, ["read", "cancel", "close", "exit", "finish"]);
}

#[test]
fn read_failure_forwards_one_error_after_teardown() {
    let mut d = FakeDriver::new(1);
    d.reads = vec![Event::Data(vec![1, 2, 3, 4, 5, 6]), Event::Failed(9)];
    run(Mode::Streaming, &mut d);
    assert_eq!(d.delivered.len(), 2);
    assert_eq!(d.delivered[1], vec![3, 2, 1, 6, 5, 4]);
    assert_eq!(d.errors, vec![ScanError { kind: ErrorKind::ReadFailed, status: Some(9) }]);
    assert!(!d.finished);
    assert_eq!(count(&d, "cancel"), 1);
    assert_eq!(count(&d, "close"), 1);
    let tail = &d.log[d.log.len() - 5..];
    assert_eq!(tail, ["read", "cancel", "close", "exit", "fail"]);
}

#[test]
fn streaming_chunks_follow_header_in_order() {
    let mut d = FakeDriver::new(1);
    d.params = params(2, 2);
    d.reads = vec![Event::Data(vec![1, 2, 3]), Event::Data(vec![]), Event::Data(vec![4, 5, 6, 7, 8, 9, 10, 11, 12]), Event::EndOfData];
    run(Mode::Streaming, &mut d);
    assert_eq!(d.delivered.len(), 3);
    assert_eq!(d.delivered[1], vec![3, 2, 1]);
    assert_eq!(d.delivered[2], vec![6, 5, 4, 9, 8, 7, 12, 11, 10]);
}

#[test]
fn open_failure_shuts_driver_down() {
    let mut d = FakeDriver::new(2);
    d.fail_open = Some(3);
    run(Mode::Streaming, &mut d);
    assert_eq!(d.errors, vec![ScanError { kind: ErrorKind::DeviceOpenFailed, status: Some(3) }]);
    assert_eq!(d.log, vec!["init", "list", "open", "exit", "fail"]);
}

#[test]
fn init_failure_has_nothing_to_release() {
    let (mut m, a) = ScanMachine::new(Mode::Batch);
    assert!(matches!(a, Action::InitSession));
    let next = m.step(Event::Failed(10));
    assert!(matches!(next, Action::Fail(ScanError { kind: ErrorKind::DriverInitFailed, status: Some(10) })));
    assert!(!m.accepts(&Event::Done));
}

#[test]
fn unsupported_constraint_closes_device() {
    let mut d = FakeDriver::new(1);
    d.options[0].constraint.kind = 8;
    run(Mode::Streaming, &mut d);
    assert_eq!(d.errors[0].kind, ErrorKind::UnsupportedConstraintKind);
    assert_eq!(d.log, vec!["init", "list", "open", "options", "cancel", "close", "exit", "fail"]);
}

#[test]
fn undetermined_line_count_fails_before_header() {
    let mut d = FakeDriver::new(1);
    d.params = params(100, -1);
    run(Mode::Streaming, &mut d);
    assert_eq!(d.errors[0].kind, ErrorKind::ScanParametersFailed);
    assert!(d.delivered.is_empty());
    assert_eq!(count(&d, "close"), 1);
}

#[test]
fn batch_gathers_raw_image() {
    let mut d = FakeDriver::new(1);
    d.reads = vec![Event::Data(vec![1, 2, 3]), Event::Data(vec![4, 5, 6]), Event::EndOfData];
    let m = run(Mode::Batch, &mut d);
    assert!(d.delivered.is_empty());
    let img = m.into_image().unwrap();
    assert_eq!(img.raw_data, vec![1, 2, 3, 4, 5, 6]);
    assert_eq!((img.width, img.height), (2, 1));
}

#[test]
fn failed_batch_has_no_image() {
    let mut d = FakeDriver::new(1);
    d.reads = vec![Event::Data(vec![1, 2, 3]), Event::Failed(9)];
    let m = run(Mode::Batch, &mut d);
    assert!(m.into_image().is_none());
}

#[test]
fn machine_refuses_out_of_order_events() {
    let (m, _) = ScanMachine::new(Mode::Streaming);
    assert!(!m.accepts(&Event::EndOfData));
    assert!(m.accepts(&Event::Done));
    assert!(m.accepts(&Event::Failed(1)));
}

#[test]
fn read_buffer_holds_whole_pixels() {
    assert_eq!(sane_web_scanner::session::READ_BUFFER_SIZE % 3, 0);
    assert_eq!(sane_web_scanner::session::READ_BUFFER_SIZE, 3 * 1024 * 1024);
}
