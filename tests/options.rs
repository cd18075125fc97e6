use sane_web_scanner::error::{DriverStatus, ErrorKind, ScanError};
use sane_web_scanner::options::{
    choose_resolution, decode_constraint, decode_option, decode_options, decode_string_list,
    decode_word_list, is_resolution_name, Capabilities, Constraint, OptionDescriptor, RawConstraint,
    RawOptionDescriptor, SetInfo, Unit, ValueType,
};

fn raw(kind: u32) -> RawConstraint {
    RawConstraint { kind, min: 0, max: 0, quant: 0, words: vec![], strings: vec![] }
}

fn raw_option(index: i32, name: &str, unit_code: u32, words: Vec<i32>) -> RawOptionDescriptor {
    RawOptionDescriptor {
        index,
        name: name.as_bytes().to_vec(),
        title: b"Title".to_vec(),
        desc: b"Description".to_vec(),
        type_code: 1,
        unit_code,
        size: 4,
        cap_bits: 5,
        constraint: RawConstraint { words, ..raw(2) },
    }
}

fn decoded(raws: Vec<RawOptionDescriptor>) -> Vec<OptionDescriptor> {
    decode_options(&raws).unwrap()
}

#[test]
fn word_list_reads_counted_words() {
    assert_eq!(decode_word_list(&vec![3, 100, 200, 300, 999]).unwrap(), vec![100, 200, 300]);
    assert_eq!(decode_word_list(&vec![0]).unwrap(), Vec::<i32>::new());
}

#[test]
fn word_list_with_bad_count_fails() {
    let q = ScanError { kind: ErrorKind::OptionQueryFailed, status: None };
    assert_eq!(decode_word_list(&vec![4, 1, 2, 3]), Err(q));
    assert_eq!(decode_word_list(&vec![-1, 1]), Err(q));
    assert_eq!(decode_word_list(&vec![]), Err(q));
}

#[test]
fn string_list_stops_at_first_null() {
    let list = vec![Some(b"Flatbed".to_vec()), Some(b"ADF".to_vec()), None, Some(b"Hidden".to_vec()), None];
    assert_eq!(decode_string_list(&list).unwrap(), vec![b"Flatbed".to_vec(), b"ADF".to_vec()]);
}

#[test]
fn string_list_immediately_null_is_empty() {
    let list = vec![None, Some(b"Hidden".to_vec())];
    assert!(decode_string_list(&list).unwrap().is_empty());
}

#[test]
fn string_list_without_null_fails() {
    let list = vec![Some(b"A".to_vec())];
    assert_eq!(decode_string_list(&list).unwrap_err().kind, ErrorKind::OptionQueryFailed);
    assert!(decode_string_list(&vec![]).is_err());
}

#[test]
fn range_keeps_bounds_and_step() {
    let r = RawConstraint { min: 50, max: 1200, quant: 25, ..raw(1) };
    match decode_constraint(&r).unwrap() {
        Constraint::Range { min, max, quant } => assert_eq!((min, max, quant), (50, 1200, 25)),
        _ => panic!("expected a range"),
    }
}

#[test]
fn range_steps_reach_max_up_to_rounding() {
    let r = RawConstraint { min: 0, max: 10, quant: 3, ..raw(1) };
    match decode_constraint(&r).unwrap() {
        Constraint::Range { min, max, quant } => {
            assert!(max >= min && quant > 0);
            let steps = (max - min) / quant;
            assert_eq!(steps, 3);
            assert!(min + steps * quant <= max && max < min + (steps + 1) * quant);
        }
        _ => panic!("expected a range"),
    }
}

#[test]
fn range_without_step_gets_unit_step() {
    let r = RawConstraint { min: -5, max: 5, quant: 0, ..raw(1) };
    match decode_constraint(&r).unwrap() {
        Constraint::Range { quant, .. } => assert_eq!(quant, 1),
        _ => panic!("expected a range"),
    }
}

#[test]
fn malformed_range_fails() {
    let down = RawConstraint { min: 10, max: 0, quant: 1, ..raw(1) };
    assert_eq!(decode_constraint(&down).unwrap_err().kind, ErrorKind::OptionQueryFailed);
    let negative = RawConstraint { min: 0, max: 10, quant: -2, ..raw(1) };
    assert_eq!(decode_constraint(&negative).unwrap_err().kind, ErrorKind::OptionQueryFailed);
}

#[test]
fn unknown_constraint_kind_is_unsupported() {
    assert_eq!(decode_constraint(&raw(7)).unwrap_err().kind, ErrorKind::UnsupportedConstraintKind);
    assert!(matches!(decode_constraint(&raw(0)).unwrap(), Constraint::Unconstrained));
}

#[test]
fn constraint_lists_decode() {
    let w = RawConstraint { words: vec![2, 75, 150], ..raw(2) };
    match decode_constraint(&w).unwrap() {
        Constraint::WordList(v) => assert_eq!(v, vec![75, 150]),
        _ => panic!("expected a word list"),
    }
    let s = RawConstraint { strings: vec![Some(b"Color".to_vec()), None], ..raw(3) };
    match decode_constraint(&s).unwrap() {
        Constraint::StringList(v) => assert_eq!(v, vec![b"Color".to_vec()]),
        _ => panic!("expected a string list"),
    }
}

#[test]
fn option_descriptor_decodes_fields() {
    let d = decode_option(&raw_option(2, "resolution", 4, vec![1, 300])).unwrap();
    assert_eq!(d.index, 2);
    assert_eq!(d.name, b"resolution".to_vec());
    assert_eq!(d.title, b"Title".to_vec());
    assert_eq!(d.value_type, ValueType::Int);
    assert_eq!(d.unit, Unit::Dpi);
    assert_eq!(d.size, 4);
    assert!(d.cap.soft_select && d.cap.soft_detect && !d.cap.hard_select && !d.cap.inactive);
}

#[test]
fn option_index_zero_is_refused() {
    let e = decode_option(&raw_option(0, "count", 0, vec![0])).unwrap_err();
    assert_eq!(e.kind, ErrorKind::OptionQueryFailed);
}

#[test]
fn option_with_unknown_codes_is_refused() {
    let mut r = raw_option(1, "x", 0, vec![0]);
    r.type_code = 6;
    assert!(decode_option(&r).is_err());
    let mut r = raw_option(1, "x", 7, vec![0]);
    r.unit_code = 7;
    assert!(decode_option(&r).is_err());
    let mut r = raw_option(1, "x", 0, vec![0]);
    r.size = -1;
    assert!(decode_option(&r).is_err());
}

#[test]
fn options_fail_with_first_bad_descriptor() {
    let mut bad = raw_option(3, "mode", 0, vec![]);
    bad.constraint = raw(9);
    let raws = vec![raw_option(1, "a", 0, vec![0]), bad, raw_option(0, "b", 0, vec![0])];
    assert_eq!(decode_options(&raws).unwrap_err().kind, ErrorKind::UnsupportedConstraintKind);
}

#[test]
fn resolution_name_matches_exactly() {
    assert!(is_resolution_name(&b"resolution".to_vec()));
    assert!(!is_resolution_name(&b"resolutions".to_vec()));
    assert!(!is_resolution_name(&b"Resolution".to_vec()));
}

#[test]
fn resolution_chosen_from_dpi_list() {
    let opts = decoded(vec![
        raw_option(1, "mode", 0, vec![1, 1]),
        raw_option(4, "resolution", 4, vec![4, 100, 200, 300, 600]),
    ]);
    assert_eq!(choose_resolution(&opts, 300), Some(4));
    assert_eq!(choose_resolution(&opts, 150), None);
}

#[test]
fn resolution_not_in_dpi_is_left_alone() {
    let opts = decoded(vec![raw_option(4, "resolution", 3, vec![4, 100, 200, 300, 600])]);
    assert_eq!(choose_resolution(&opts, 300), None);
    let opts = decoded(vec![raw_option(1, "depth", 4, vec![1, 300])]);
    assert_eq!(choose_resolution(&opts, 300), None);
}

#[test]
fn only_first_resolution_option_counts() {
    let opts = decoded(vec![
        raw_option(2, "resolution", 4, vec![1, 100]),
        raw_option(5, "resolution", 4, vec![1, 300]),
    ]);
    assert_eq!(choose_resolution(&opts, 300), None);
}

#[test]
fn codes_and_bits_decode() {
    assert_eq!(ValueType::from_code(3), Some(ValueType::Str));
    assert_eq!(ValueType::from_code(6), None);
    assert_eq!(Unit::from_code(6), Some(Unit::Microsecond));
    assert_eq!(Unit::from_code(0), Some(Unit::Unitless));
    let c = Capabilities::from_bits(32 | 64 | 2);
    assert!(c.inactive && c.advanced && c.hard_select && !c.soft_select && !c.emulated);
    let i = SetInfo::from_bits(3);
    assert!(i.inexact && i.reload_options && !i.reload_params);
}

#[test]
fn driver_status_codes() {
    assert_eq!(DriverStatus::from_code(0), DriverStatus::Good);
    assert_eq!(DriverStatus::from_code(3), DriverStatus::DeviceBusy);
    assert_eq!(DriverStatus::from_code(9), DriverStatus::IoError);
    assert_eq!(DriverStatus::from_code(42), DriverStatus::Unknown(42));
    let e = ScanError::driver(ErrorKind::ReadFailed, 7);
    assert_eq!(e.driver_status(), Some(DriverStatus::NoDocument));
    assert_eq!(ScanError::encoding().driver_status(), None);
}
