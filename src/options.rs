//! Device option descriptors: their decoding from the driver's layout, and
//! the choice of the resolution to ask for.
use vstd::prelude::*;

use crate::error::{ErrorKind, ScanError};

verus! {

/// The driver's code for an option without constraint.
pub const CONSTRAINT_NONE: u32 = 0;

/// The driver's code for a range with a step.
pub const CONSTRAINT_RANGE: u32 = 1;

/// The driver's code for a length-prefixed list of numbers.
pub const CONSTRAINT_WORD_LIST: u32 = 2;

/// The driver's code for a null-terminated list of strings.
pub const CONSTRAINT_STRING_LIST: u32 = 3;

/// The resolution asked for when the device offers it.
pub const TARGET_RESOLUTION_DPI: i32 = 300;

/// The kind of value an option holds.
#[derive(Clone, Copy, Debug, PartialEq, Eq, Structural)]
pub enum ValueType {
    Bool,
    Int,
    Fixed,
    Str,
    Button,
    Group,
}

impl ValueType {
    pub open spec fn spec_from_code(code: u32) -> Option<ValueType> {
        if code == 0 {
            Some(ValueType::Bool)
        } else if code == 1 {
            Some(ValueType::Int)
        } else if code == 2 {
            Some(ValueType::Fixed)
        } else if code == 3 {
            Some(ValueType::Str)
        } else if code == 4 {
            Some(ValueType::Button)
        } else if code == 5 {
            Some(ValueType::Group)
        } else {
            None
        }
    }

    /// The value type that the driver's code `code` stands for.
    #[verifier::when_used_as_spec(spec_from_code)]
    pub fn from_code(code: u32) -> (r: Option<ValueType>)
        ensures
            r == ValueType::spec_from_code(code),
    {
        if code == 0 {
            Some(ValueType::Bool)
        } else if code == 1 {
            Some(ValueType::Int)
        } else if code == 2 {
            Some(ValueType::Fixed)
        } else if code == 3 {
            Some(ValueType::Str)
        } else if code == 4 {
            Some(ValueType::Button)
        } else if code == 5 {
            Some(ValueType::Group)
        } else {
            None
        }
    }
}

/// The physical unit of an option's value.
#[derive(Clone, Copy, Debug, PartialEq, Eq, Structural)]
pub enum Unit {
    Unitless,
    Pixel,
    Bit,
    Millimeter,
    Dpi,
    Percent,
    Microsecond,
}

impl Unit {
    pub open spec fn spec_from_code(code: u32) -> Option<Unit> {
        if code == 0 {
            Some(Unit::Unitless)
        } else if code == 1 {
            Some(Unit::Pixel)
        } else if code == 2 {
            Some(Unit::Bit)
        } else if code == 3 {
            Some(Unit::Millimeter)
        } else if code == 4 {
            Some(Unit::Dpi)
        } else if code == 5 {
            Some(Unit::Percent)
        } else if code == 6 {
            Some(Unit::Microsecond)
        } else {
            None
        }
    }

    /// The unit that the driver's code `code` stands for.
    #[verifier::when_used_as_spec(spec_from_code)]
    pub fn from_code(code: u32) -> (r: Option<Unit>)
        ensures
            r == Unit::spec_from_code(code),
    {
        if code == 0 {
            Some(Unit::Unitless)
        } else if code == 1 {
            Some(Unit::Pixel)
        } else if code == 2 {
            Some(Unit::Bit)
        } else if code == 3 {
            Some(Unit::Millimeter)
        } else if code == 4 {
            Some(Unit::Dpi)
        } else if code == 5 {
            Some(Unit::Percent)
        } else if code == 6 {
            Some(Unit::Microsecond)
        } else {
            None
        }
    }
}

/// What may be done with an option, from the driver's capability bits.
#[derive(Clone, Copy, Debug, PartialEq, Eq, Structural)]
pub struct Capabilities {
    pub soft_select: bool,
    pub hard_select: bool,
    pub soft_detect: bool,
    pub emulated: bool,
    pub automatic: bool,
    pub inactive: bool,
    pub advanced: bool,
}

impl Capabilities {
    pub open spec fn spec_from_bits(bits: u32) -> Capabilities {
        Capabilities {
            soft_select: bits & 1 != 0,
            hard_select: bits & 2 != 0,
            soft_detect: bits & 4 != 0,
            emulated: bits & 8 != 0,
            automatic: bits & 16 != 0,
            inactive: bits & 32 != 0,
            advanced: bits & 64 != 0,
        }
    }

    /// Reads the capability bits one flag each; other bits are ignored.
    #[verifier::when_used_as_spec(spec_from_bits)]
    pub fn from_bits(bits: u32) -> (r: Capabilities)
        ensures
            r == Capabilities::spec_from_bits(bits),
    {
        Capabilities {
            soft_select: bits & 1 != 0,
            hard_select: bits & 2 != 0,
            soft_detect: bits & 4 != 0,
            emulated: bits & 8 != 0,
            automatic: bits & 16 != 0,
            inactive: bits & 32 != 0,
            advanced: bits & 64 != 0,
        }
    }
}

/// What the driver reports after setting an option.
#[derive(Clone, Copy, Debug, PartialEq, Eq, Structural)]
pub struct SetInfo {
    /// The value was rounded or clamped: it has to be read back.
    pub inexact: bool,
    /// Other options changed: the descriptors have to be fetched again.
    pub reload_options: bool,
    /// The scan parameters changed.
    pub reload_params: bool,
}

impl SetInfo {
    pub open spec fn spec_from_bits(bits: u32) -> SetInfo {
        SetInfo { inexact: bits & 1 != 0, reload_options: bits & 2 != 0, reload_params: bits & 4 != 0 }
    }

    /// Reads the driver's info bits one flag each; other bits are ignored.
    #[verifier::when_used_as_spec(spec_from_bits)]
    pub fn from_bits(bits: u32) -> (r: SetInfo)
        ensures
            r == SetInfo::spec_from_bits(bits),
    {
        SetInfo { inexact: bits & 1 != 0, reload_options: bits & 2 != 0, reload_params: bits & 4 != 0 }
    }
}

/// The value of an option, as read from the device.
#[derive(Clone, Debug)]
pub enum OptionValue {
    Bool(bool),
    Int(i32),
    Fixed(i32),
    Str(Vec<u8>),
    Button,
    Group,
}

/// The set of values an option accepts.
#[derive(Clone, Debug)]
pub enum Constraint {
    Unconstrained,
    /// The values `min`, `min + quant`, ... up to `max`.
    Range { min: i32, max: i32, quant: i32 },
    WordList(Vec<i32>),
    StringList(Vec<Vec<u8>>),
}

impl Constraint {
    /// A range runs upwards with a positive step.
    pub open spec fn wf(&self) -> bool {
        match *self {
            Constraint::Range { min, max, quant } => min <= max && quant > 0,
            _ => true,
        }
    }
}

/// A constraint as the driver lays it out: a kind code, the three words of
/// a range, a list of words whose first word is the count of those that
/// follow, and an array of strings that ends at the first null entry.
#[derive(Clone, Debug)]
pub struct RawConstraint {
    pub kind: u32,
    pub min: i32,
    pub max: i32,
    pub quant: i32,
    pub words: Vec<i32>,
    pub strings: Vec<Option<Vec<u8>>>,
}

/// The words that a length-prefixed list holds, if the prefix is a count
/// that the list has room for.
pub open spec fn word_list_of(raw: Seq<i32>) -> Option<Seq<i32>> {
    if raw.len() >= 1 && 0 <= raw[0] && raw[0] < raw.len() {
        Some(raw.subrange(1, raw[0] + 1))
    } else {
        None
    }
}

/// The entries of `raw` before index `n` are all strings and entry `n` is the
/// null that ends the list.
pub open spec fn ends_at(raw: Seq<Option<Vec<u8>>>, n: int) -> bool {
    &&& 0 <= n < raw.len()
    &&& raw[n] is None
    &&& forall|i: int| 0 <= i < n ==> #[trigger] raw[i] is Some
}

/// Reads a length-prefixed list of words; fails with `OptionQueryFailed`
/// when the count is negative or runs past the list.
pub fn decode_word_list(raw: &Vec<i32>) -> (r: Result<Vec<i32>, ScanError>)
    ensures
        r matches Ok(v) ==> word_list_of(raw@) == Some(v@),
        r is Err <==> word_list_of(raw@) is None,
        r matches Err(e) ==> e == ScanError::query(),
{
    if raw.len() == 0 || raw[0] < 0 || raw[0] as usize >= raw.len() {
        return Err(ScanError::query());
    }
    let len: usize = raw.len();
    let n: usize = raw[0] as usize;
    let mut out: Vec<i32> = Vec::new();
    let mut i: usize = 1;
    while i <= n
        invariant
            1 <= i <= n + 1,
            n < len,
            len == raw@.len(),
            out@ == raw@.subrange(1, i as int),
        decreases n + 1 - i,
    {
        out.push(raw[i]);
        i = i + 1;
        assert(out@ =~= raw@.subrange(1, i as int));
    }
    Ok(out)
}

/// Reads a null-terminated array of strings, stopping at the first null
/// entry: an array whose first entry is null gives no strings. An array with
/// no null entry fails with `OptionQueryFailed`.
pub fn decode_string_list(raw: &Vec<Option<Vec<u8>>>) -> (r: Result<Vec<Vec<u8>>, ScanError>)
    ensures
        r matches Ok(v) ==> {
            &&& ends_at(raw@, v@.len() as int)
            &&& forall|i: int| 0 <= i < v@.len() ==> raw@[i]->Some_0@ == (#[trigger] v@[i])@
        },
        r is Err <==> forall|i: int| 0 <= i < raw@.len() ==> #[trigger] raw@[i] is Some,
        r matches Err(e) ==> e == ScanError::query(),
        raw@.len() > 0 && raw@[0] is None ==> (r matches Ok(v) && v@.len() == 0),
{
    let mut out: Vec<Vec<u8>> = Vec::new();
    let mut i: usize = 0;
    while i < raw.len()
        invariant
            i <= raw@.len(),
            out@.len() == i,
            forall|j: int| 0 <= j < i ==> #[trigger] raw@[j] is Some,
            forall|j: int| 0 <= j < i ==> raw@[j]->Some_0@ == (#[trigger] out@[j])@,
        decreases raw@.len() - i,
    {
        match &raw[i] {
            Some(s) => {
                let copy = s.clone();
                assert(copy@ =~= s@);
                out.push(copy);
            },
            None => {
                return Ok(out);
            },
        }
        i = i + 1;
    }
    Err(ScanError::query())
}

/// A constraint kind code that the decoder knows.
pub open spec fn known_kind(kind: u32) -> bool {
    kind <= CONSTRAINT_STRING_LIST
}

/// The raw constraint describes a well-formed set of values.
pub open spec fn decodable(raw: RawConstraint) -> bool {
    if raw.kind == CONSTRAINT_NONE {
        true
    } else if raw.kind == CONSTRAINT_RANGE {
        raw.min <= raw.max && raw.quant >= 0
    } else if raw.kind == CONSTRAINT_WORD_LIST {
        word_list_of(raw.words@) is Some
    } else if raw.kind == CONSTRAINT_STRING_LIST {
        !(forall|i: int| 0 <= i < raw.strings@.len() ==> #[trigger] raw.strings@[i] is Some)
    } else {
        false
    }
}

/// The failure for a raw constraint that cannot be decoded.
pub open spec fn decode_error(raw: RawConstraint) -> ScanError {
    if known_kind(raw.kind) {
        ScanError::query()
    } else {
        ScanError { kind: ErrorKind::UnsupportedConstraintKind, status: None }
    }
}

/// The step of a range: a step of 0 lets every value through, which for
/// values that are whole numbers is a step of 1.
pub open spec fn range_step(quant: i32) -> i32 {
    if quant == 0 {
        1
    } else {
        quant
    }
}

/// `c` is what `raw` describes.
pub open spec fn decoded_as(raw: RawConstraint, c: Constraint) -> bool {
    match c {
        Constraint::Unconstrained => raw.kind == CONSTRAINT_NONE,
        Constraint::Range { min, max, quant } => {
            &&& raw.kind == CONSTRAINT_RANGE
            &&& min == raw.min
            &&& max == raw.max
            &&& quant == range_step(raw.quant)
        },
        Constraint::WordList(v) => raw.kind == CONSTRAINT_WORD_LIST && word_list_of(raw.words@) == Some(v@),
        Constraint::StringList(v) => {
            &&& raw.kind == CONSTRAINT_STRING_LIST
            &&& ends_at(raw.strings@, v@.len() as int)
            &&& forall|i: int| 0 <= i < v@.len() ==> raw.strings@[i]->Some_0@ == (#[trigger] v@[i])@
        },
    }
}

/// Decodes a constraint from the driver's layout. A range must not run
/// downwards nor have a negative step; a step of 0 becomes 1. An unknown kind
/// fails with `UnsupportedConstraintKind`, a malformed one with
/// `OptionQueryFailed`.
pub fn decode_constraint(raw: &RawConstraint) -> (r: Result<Constraint, ScanError>)
    ensures
        r is Ok <==> decodable(*raw),
        r matches Ok(c) ==> c.wf() && decoded_as(*raw, c),
        r matches Err(e) ==> e == decode_error(*raw),
{
    if raw.kind == CONSTRAINT_NONE {
        Ok(Constraint::Unconstrained)
    } else if raw.kind == CONSTRAINT_RANGE {
        if raw.min <= raw.max && raw.quant >= 0 {
            let quant: i32 = if raw.quant == 0 { 1 } else { raw.quant };
            Ok(Constraint::Range { min: raw.min, max: raw.max, quant })
        } else {
            Err(ScanError::query())
        }
    } else if raw.kind == CONSTRAINT_WORD_LIST {
        match decode_word_list(&raw.words) {
            Ok(v) => Ok(Constraint::WordList(v)),
            Err(e) => Err(e),
        }
    } else if raw.kind == CONSTRAINT_STRING_LIST {
        match decode_string_list(&raw.strings) {
            Ok(v) => Ok(Constraint::StringList(v)),
            Err(e) => Err(e),
        }
    } else {
        Err(ScanError { kind: ErrorKind::UnsupportedConstraintKind, status: None })
    }
}

/// Every decoded range runs upwards with a positive step, and its values
/// `min, min + quant, ...` reach as close to `max` as the step allows:
/// `(max - min) / quant` whole steps stay within `max`, one more passes it.
pub proof fn lemma_range_steps(c: Constraint)
    requires
        c.wf(),
        c is Range,
    ensures
        c matches Constraint::Range { min, max, quant } && {
            let steps = (max - min) / (quant as int);
            &&& min <= max
            &&& quant > 0
            &&& steps >= 0
            &&& min + steps * quant <= max
            &&& max < min + (steps + 1) * quant
        },
{
    if let Constraint::Range { min, max, quant } = c {
        let d: int = max - min;
        let q: int = quant as int;
        let steps = d / q;
        assert(steps >= 0 && steps * q <= d && d < (steps + 1) * q) by (nonlinear_arith)
            requires d >= 0, q > 0, steps == d / q;
    }
}

/// An option descriptor as the driver reports it.
#[derive(Clone, Debug)]
pub struct RawOptionDescriptor {
    pub index: i32,
    pub name: Vec<u8>,
    pub title: Vec<u8>,
    pub desc: Vec<u8>,
    pub type_code: u32,
    pub unit_code: u32,
    pub size: i32,
    pub cap_bits: u32,
    pub constraint: RawConstraint,
}

/// A decoded option descriptor.
#[derive(Clone, Debug)]
pub struct OptionDescriptor {
    /// The option's position on the device; never 0, which holds the count.
    pub index: i32,
    pub name: Vec<u8>,
    pub title: Vec<u8>,
    pub desc: Vec<u8>,
    pub value_type: ValueType,
    pub unit: Unit,
    pub size: u32,
    pub cap: Capabilities,
    pub constraint: Constraint,
}

/// Why `raw` cannot be decoded, if it cannot: the reserved index 0, an
/// unknown value type or unit, a negative size, or its constraint.
pub open spec fn option_error(raw: RawOptionDescriptor) -> Option<ScanError> {
    if raw.index < 1 || ValueType::from_code(raw.type_code) is None || Unit::from_code(raw.unit_code) is None
        || raw.size < 0 {
        Some(ScanError::query())
    } else if !decodable(raw.constraint) {
        Some(decode_error(raw.constraint))
    } else {
        None
    }
}

/// `d` is what `raw` describes.
#[verifier::opaque]
pub open spec fn describes(raw: RawOptionDescriptor, d: OptionDescriptor) -> bool {
    &&& d.index == raw.index
    &&& d.name@ == raw.name@
    &&& d.title@ == raw.title@
    &&& d.desc@ == raw.desc@
    &&& ValueType::from_code(raw.type_code) == Some(d.value_type)
    &&& Unit::from_code(raw.unit_code) == Some(d.unit)
    &&& d.size == raw.size
    &&& d.cap == Capabilities::from_bits(raw.cap_bits)
    &&& d.constraint.wf()
    &&& decoded_as(raw.constraint, d.constraint)
}

/// Decodes one option descriptor.
pub fn decode_option(raw: &RawOptionDescriptor) -> (r: Result<OptionDescriptor, ScanError>)
    ensures
        r matches Ok(d) ==> option_error(*raw) is None && describes(*raw, d),
        r matches Err(e) ==> option_error(*raw) == Some(e),
{
    if raw.index < 1 || raw.size < 0 {
        return Err(ScanError::query());
    }
    let value_type = match ValueType::from_code(raw.type_code) {
        Some(t) => t,
        None => {
            return Err(ScanError::query());
        },
    };
    let unit = match Unit::from_code(raw.unit_code) {
        Some(u) => u,
        None => {
            return Err(ScanError::query());
        },
    };
    let constraint = match decode_constraint(&raw.constraint) {
        Ok(c) => c,
        Err(e) => {
            return Err(e);
        },
    };
    let name = raw.name.clone();
    let title = raw.title.clone();
    let desc = raw.desc.clone();
    assert(name@ =~= raw.name@);
    assert(title@ =~= raw.title@);
    assert(desc@ =~= raw.desc@);
    let d = OptionDescriptor {
        index: raw.index,
        name,
        title,
        desc,
        value_type,
        unit,
        size: raw.size as u32,
        cap: Capabilities::from_bits(raw.cap_bits),
        constraint,
    };
    proof {
        reveal(describes);
    }
    Ok(d)
}

/// The failure of the first descriptor of `raws` that cannot be decoded.
pub open spec fn first_option_error(raws: Seq<RawOptionDescriptor>) -> Option<ScanError>
    decreases raws.len(),
{
    if raws.len() == 0 {
        None
    } else {
        match option_error(raws[0]) {
            Some(e) => Some(e),
            None => first_option_error(raws.drop_first()),
        }
    }
}

/// Decodes every descriptor of a device, failing with the failure of the
/// first one that cannot be decoded.
pub fn decode_options(raws: &Vec<RawOptionDescriptor>) -> (r: Result<Vec<OptionDescriptor>, ScanError>)
    ensures
        r matches Ok(v) ==> v@.len() == raws@.len() && forall|i: int|
            0 <= i < raws@.len() ==> describes(raws@[i], #[trigger] v@[i]),
        r matches Err(e) ==> first_option_error(raws@) == Some(e),
        r is Ok <==> first_option_error(raws@) is None,
{
    let mut out: Vec<OptionDescriptor> = Vec::new();
    let mut i: usize = 0;
    assert(raws@.subrange(0, raws@.len() as int) =~= raws@);
    while i < raws.len()
        invariant
            i <= raws@.len(),
            out@.len() == i,
            first_option_error(raws@) == first_option_error(raws@.subrange(i as int, raws@.len() as int)),
            forall|j: int| 0 <= j < i ==> describes(raws@[j], #[trigger] out@[j]),
        decreases raws@.len() - i,
    {
        let ghost rest = raws@.subrange(i as int, raws@.len() as int);
        assert(rest.drop_first() =~= raws@.subrange(i + 1, raws@.len() as int));
        assert(rest[0] == raws@[i as int]);
        match decode_option(&raws[i]) {
            Ok(d) => {
                let ghost before = out@;
                out.push(d);
                assert forall|j: int| 0 <= j < i + 1 implies describes(raws@[j], #[trigger] out@[j]) by {
                    if j < i {
                        assert(out@[j] == before[j]);
                    }
                }
            },
            Err(e) => {
                return Err(e);
            },
        }
        i = i + 1;
    }
    assert(raws@.subrange(i as int, raws@.len() as int).len() == 0);
    Ok(out)
}

/// The name of the resolution option.
pub open spec fn resolution_name() -> Seq<u8> {
    seq![114u8, 101u8, 115u8, 111u8, 108u8, 117u8, 116u8, 105u8, 111u8, 110u8]
}

/// Whether `name` is the name of the resolution option.
pub fn is_resolution_name(name: &Vec<u8>) -> (r: bool)
    ensures
        r == (name@ == resolution_name()),
{
    let r = name.len() == 10 && name[0] == 114u8 && name[1] == 101u8 && name[2] == 115u8 && name[3] == 111u8
        && name[4] == 108u8 && name[5] == 117u8 && name[6] == 116u8 && name[7] == 105u8 && name[8] == 111u8
        && name[9] == 110u8;
    if r {
        assert(name@ =~= resolution_name());
    }
    r
}

/// The option is measured in DPI and offers `target` in a list of values.
pub open spec fn offers(d: OptionDescriptor, target: i32) -> bool {
    &&& d.unit == Unit::Dpi
    &&& d.constraint matches Constraint::WordList(v) && v@.contains(target)
}

/// The index of the option to set to `target`: the first option named
/// "resolution", when it offers `target`; otherwise nothing is set.
pub open spec fn resolution_to_set(opts: Seq<OptionDescriptor>, target: i32) -> Option<i32>
    decreases opts.len(),
{
    if opts.len() == 0 {
        None
    } else if opts[0].name@ == resolution_name() {
        if offers(opts[0], target) {
            Some(opts[0].index)
        } else {
            None
        }
    } else {
        resolution_to_set(opts.drop_first(), target)
    }
}

fn list_contains(v: &Vec<i32>, x: i32) -> (r: bool)
    ensures
        r == v@.contains(x),
{
    let mut i: usize = 0;
    while i < v.len()
        invariant
            i <= v@.len(),
            forall|j: int| 0 <= j < i ==> v@[j] != x,
        decreases v@.len() - i,
    {
        if v[i] == x {
            return true;
        }
        i = i + 1;
    }
    false
}

/// Picks the option to set to `target` under the resolution policy: the
/// first option named "resolution", if its unit is DPI and it lists `target`.
pub fn choose_resolution(opts: &Vec<OptionDescriptor>, target: i32) -> (r: Option<i32>)
    ensures
        r == resolution_to_set(opts@, target),
{
    let mut i: usize = 0;
    assert(opts@.subrange(0, opts@.len() as int) =~= opts@);
    while i < opts.len()
        invariant
            i <= opts@.len(),
            resolution_to_set(opts@, target) == resolution_to_set(opts@.subrange(i as int, opts@.len() as int), target),
        decreases opts@.len() - i,
    {
        let ghost rest = opts@.subrange(i as int, opts@.len() as int);
        assert(rest.drop_first() =~= opts@.subrange(i + 1, opts@.len() as int));
        assert(rest[0] == opts@[i as int]);
        let d = &opts[i];
        if is_resolution_name(&d.name) {
            let found = d.unit == Unit::Dpi && match &d.constraint {
                Constraint::WordList(v) => list_contains(v, target),
                _ => false,
            };
            if found {
                return Some(d.index);
            } else {
                return None;
            }
        }
        i = i + 1;
    }
    assert(opts@.subrange(i as int, opts@.len() as int).len() == 0);
    None
}

/// The raw descriptor is measured in DPI and offers `target` in a list of
/// values.
pub open spec fn raw_offers(raw: RawOptionDescriptor, target: i32) -> bool {
    &&& Unit::from_code(raw.unit_code) == Some(Unit::Dpi)
    &&& raw.constraint.kind == CONSTRAINT_WORD_LIST
    &&& word_list_of(raw.constraint.words@) matches Some(w) && w.contains(target)
}

/// The resolution policy read off the raw descriptors.
pub open spec fn raw_resolution_to_set(raws: Seq<RawOptionDescriptor>, target: i32) -> Option<i32>
    decreases raws.len(),
{
    if raws.len() == 0 {
        None
    } else if raws[0].name@ == resolution_name() {
        if raw_offers(raws[0], target) {
            Some(raws[0].index)
        } else {
            None
        }
    } else {
        raw_resolution_to_set(raws.drop_first(), target)
    }
}

/// Decoding keeps the choice of the resolution option.
pub proof fn lemma_resolution_of_decoded(raws: Seq<RawOptionDescriptor>, opts: Seq<OptionDescriptor>, target: i32)
    requires
        raws.len() == opts.len(),
        forall|i: int| 0 <= i < raws.len() ==> describes(raws[i], #[trigger] opts[i]),
    ensures
        resolution_to_set(opts, target) == raw_resolution_to_set(raws, target),
    decreases raws.len(),
{
    if raws.len() > 0 {
        reveal(describes);
        assert(describes(raws[0], opts[0]));
        let rr = raws.drop_first();
        let ro = opts.drop_first();
        assert forall|i: int| 0 <= i < rr.len() implies describes(rr[i], #[trigger] ro[i]) by {
            assert(describes(raws[i + 1], opts[i + 1]));
        }
        lemma_resolution_of_decoded(rr, ro, target);
    }
}

} // verus!
