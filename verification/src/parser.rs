//! Decoding of one telegram in the fixed-column format of the Japan
//! Meteorological Agency.

use crate::clock::{
    chrono_parse_datetime, chrono_parse_time, datetime_from_text, resolve_arrival_time,
    spec_resolve_arrival_time, time_from_text, JST_OFFSET_SECS,
};
use crate::code_dict::CodeDict;
use crate::eew::{
    AreaEEW, AreaEEWView, EEWDetail, EEWDetailView, EEWView, IntensityClass, IssuePattern, Kind,
    EEW,
};
use crate::field_codes::{
    decode_change_reason, decode_depth_accuracy, decode_epicenter_accuracy,
    decode_epicenter_category, decode_intensity, decode_intensity_change, decode_issue_pattern,
    decode_kind, decode_magnitude_accuracy, decode_source, decode_status, decode_warning_status,
    decode_wave_status, spec_decode_change_reason, spec_decode_depth_accuracy,
    spec_decode_epicenter_accuracy, spec_decode_epicenter_category, spec_decode_intensity,
    spec_decode_intensity_change, spec_decode_issue_pattern, spec_decode_kind,
    spec_decode_magnitude_accuracy, spec_decode_source, spec_decode_status,
    spec_decode_warning_status, spec_decode_wave_status,
};
use vstd::prelude::*;
use vstd::slice::slice_subrange;
use vstd::utf8::{decode_utf8, valid_utf8};

verus! {

#[derive(PartialEq, Eq, Debug, Clone, Copy, Hash, Structural)]
pub enum JMAFormatParseError {
    TooShort,
    Split,
    InvalidPattern,
    InvalidSource,
    InvalidKind,
    InvalidIssueTime,
    InvalidOoccurrenceTime,
    InvalidId,
    InvalidStatus,
    InvalidNumber,
    UnknownEpicenterCode,
    InvalidLL,
    InvalidDepth,
    InvalidMagnitude,
    InvalidMaximumIntensity,
    InvalidEpicenterAccuracy,
    InvalidDepthAccuracy,
    InvalidMagnitudeAccuracy,
    InvalidEpicenterCategory,
    InvalidWarningStatus,
    InvalidIntensityChange,
    InvalidChangeReason,
    InvalidWaveStatus,
    InvalidEBI,
    PrematureEOS,
    UnknownAreaCode,
}

/// `core::str::Utf8Error`, which is passed on without a look inside.
#[verifier::external_type_specification]
#[verifier::external_body]
pub struct ExUtf8Error(core::str::Utf8Error);

/// `core::str::from_utf8` succeeds exactly on well-formed UTF-8 and then
/// returns the text that the bytes encode.
pub assume_specification[ core::str::from_utf8 ](v: &[u8]) -> (r: Result<&str, core::str::Utf8Error>)
    ensures
        r is Ok <==> valid_utf8(v@),
        r matches Ok(s) ==> s@ == decode_utf8(v@),
;

/// The shortest telegram that holds every fixed field.
pub const MINIMUM_LENGTH: usize = 140;

/// Length of one record of the area block.
pub const EBI_PART_LEN: usize = 20;

pub const SLASH: u8 = 0x2f;

// ---------------------------------------------------------------------------
// Numbers
// ---------------------------------------------------------------------------
pub open spec fn is_digit(b: u8) -> bool {
    0x30 <= b <= 0x39
}

pub open spec fn all_digits(s: Seq<u8>) -> bool {
    forall|i: int| 0 <= i < s.len() ==> is_digit(#[trigger] s[i])
}

/// The number that a run of decimal digits denotes.
pub open spec fn digits_value(s: Seq<u8>) -> nat
    decreases s.len(),
{
    if s.len() == 0 {
        0
    } else {
        digits_value(s.drop_last()) * 10 + (s.last() - 0x30) as nat
    }
}

/// The digits of a number's text: all of it but an optional leading plus sign.
pub open spec fn digits_of(s: Seq<u8>) -> Seq<u8> {
    if s.len() > 0 && s[0] == 0x2b {
        s.subrange(1, s.len() as int)
    } else {
        s
    }
}

/// A decimal number: an optional plus sign, then one digit or more, with a
/// value that a `u32` can hold.
pub open spec fn spec_parse_number(s: Seq<u8>) -> Option<u32> {
    let d = digits_of(s);
    if d.len() > 0 && all_digits(d) && digits_value(d) <= u32::MAX {
        Some(digits_value(d) as u32)
    } else {
        None
    }
}

proof fn lemma_digits_value_prefix(s: Seq<u8>, n: int)
    requires
        0 <= n <= s.len(),
    ensures
        digits_value(s.subrange(0, n)) <= digits_value(s),
    decreases s.len() - n,
{
    if n < s.len() {
        lemma_digits_value_prefix(s, n + 1);
        let t = s.subrange(0, n + 1);
        assert(t.drop_last() =~= s.subrange(0, n));
    } else {
        assert(s.subrange(0, n) =~= s);
    }
}

/// A number written with at most four characters is below ten thousand.
proof fn lemma_short_number_is_small(s: Seq<u8>)
    requires
        s.len() <= 4,
    ensures
        spec_parse_number(s) matches Some(v) ==> v <= 9999,
{
    let d = digits_of(s);
    if d.len() > 0 && all_digits(d) {
        reveal_with_fuel(digits_value, 6);
        let d1 = d.drop_last();
        if d1.len() > 0 {
            assert(is_digit(d[d.len() - 1]));
            assert(is_digit(d1[d1.len() - 1]));
            let d2 = d1.drop_last();
            if d2.len() > 0 {
                assert(is_digit(d2[d2.len() - 1]));
                let d3 = d2.drop_last();
                if d3.len() > 0 {
                    assert(is_digit(d3[d3.len() - 1]));
                }
            }
        } else {
            assert(is_digit(d[d.len() - 1]));
        }
    }
}

pub fn parse_number(number_text: &[u8]) -> (r: Option<u32>)
    ensures
        r == spec_parse_number(number_text@),
{
    let n = number_text.len();
    let start: usize = if n > 0 && number_text[0] == 0x2b {
        1
    } else {
        0
    };
    if start == n {
        return None;
    }
    let ghost d = digits_of(number_text@);
    assert(d =~= number_text@.subrange(start as int, n as int));
    let mut acc: u64 = 0;
    let mut i: usize = start;
    while i < n
        invariant
            start <= i <= n,
            n == number_text@.len(),
            d == number_text@.subrange(start as int, n as int),
            d == digits_of(number_text@),
            d.len() == n - start,
            all_digits(d.subrange(0, i - start)),
            acc == digits_value(d.subrange(0, i - start)),
            acc <= u32::MAX,
        decreases n - i,
    {
        let b = number_text[i];
        if b < 0x30 || b > 0x39 {
            assert(!is_digit(d[i - start]));
            return None;
        }
        let next: u64 = acc * 10 + (b - 0x30) as u64;
        proof {
            let p = d.subrange(0, i - start + 1);
            assert(p.drop_last() =~= d.subrange(0, i - start));
            assert(p.last() == b);
            assert(next == digits_value(p));
            assert forall|k: int| 0 <= k < p.len() implies is_digit(#[trigger] p[k]) by {
                if k < p.len() - 1 {
                    assert(p[k] == d.subrange(0, i - start)[k]);
                }
            }
        }
        if next > u32::MAX as u64 {
            proof {
                lemma_digits_value_prefix(d, i - start + 1);
                assert(digits_value(d) > u32::MAX);
            }
            return None;
        }
        acc = next;
        i = i + 1;
    }
    assert(d.subrange(0, n - start) =~= d);
    Some(acc as u32)
}

pub fn parse_intensity(intensity_text: &[u8]) -> (r: Option<IntensityClass>)
    ensures
        r == if intensity_text@.len() == 2 {
            spec_decode_intensity(intensity_text@[0], intensity_text@[1])
        } else {
            None
        },
{
    if intensity_text.len() == 2 {
        decode_intensity(intensity_text[0], intensity_text[1])
    } else {
        None
    }
}

pub open spec fn all_slashes(s: Seq<u8>) -> bool {
    forall|i: int| 0 <= i < s.len() ==> #[trigger] s[i] == SLASH
}

fn is_all_slashes(t: &[u8]) -> (r: bool)
    ensures
        r == all_slashes(t@),
{
    let mut i: usize = 0;
    while i < t.len()
        invariant
            i <= t.len(),
            forall|k: int| 0 <= k < i ==> #[trigger] t@[k] == SLASH,
        decreases t.len() - i,
    {
        if t[i] != SLASH {
            return false;
        }
        i = i + 1;
    }
    true
}

/// A field that holds a number, or slashes where the number is unknown.
/// The outer `None` stands for a field that is neither.
pub open spec fn spec_optional_number(s: Seq<u8>) -> Option<Option<u32>> {
    match spec_parse_number(s) {
        Some(v) => Some(Some(v)),
        None => if all_slashes(s) {
            Some(None)
        } else {
            None
        },
    }
}

fn parse_optional_number(t: &[u8]) -> (r: Option<Option<u32>>)
    ensures
        r == spec_optional_number(t@),
{
    match parse_number(t) {
        Some(v) => Some(Some(v)),
        None => if is_all_slashes(t) {
            Some(None)
        } else {
            None
        },
    }
}

/// A field that holds an intensity code, or two slashes where the intensity
/// is unknown. The outer `None` stands for a field that is neither.
pub open spec fn spec_optional_intensity(a: u8, b: u8) -> Option<Option<IntensityClass>> {
    match spec_decode_intensity(a, b) {
        Some(v) => Some(Some(v)),
        None => if a == SLASH && b == SLASH {
            Some(None)
        } else {
            None
        },
    }
}

fn parse_optional_intensity(a: u8, b: u8) -> (r: Option<Option<IntensityClass>>)
    ensures
        r == spec_optional_intensity(a, b),
{
    match decode_intensity(a, b) {
        Some(v) => Some(Some(v)),
        None => if a == SLASH && b == SLASH {
            Some(None)
        } else {
            None
        },
    }
}

/// A coordinate in tenths of a degree: a hemisphere letter, then a number
/// of at most four characters. `positive` and `negative` are the two letters.
pub open spec fn spec_coordinate(letter: u8, digits: Seq<u8>, positive: u8, negative: u8) -> Option<i32>
    recommends
        digits.len() <= 4,
{
    match spec_parse_number(digits) {
        Some(v) => if letter == positive {
            Some(v as i32)
        } else if letter == negative {
            Some((-(v as int)) as i32)
        } else {
            None
        },
        None => None,
    }
}

fn parse_coordinate(letter: u8, digits: &[u8], positive: u8, negative: u8) -> (r: Option<i32>)
    requires
        digits@.len() <= 4,
    ensures
        r == spec_coordinate(letter, digits@, positive, negative),
{
    proof {
        lemma_short_number_is_small(digits@);
    }
    match parse_number(digits) {
        Some(v) => if letter == positive {
            Some(v as i32)
        } else if letter == negative {
            Some(-(v as i32))
        } else {
            None
        },
        None => None,
    }
}

// ---------------------------------------------------------------------------
// Times
// ---------------------------------------------------------------------------
/// A date and time written as `YYMMDDhhmmss` in Japan Standard Time, to
/// the whole second.
pub open spec fn spec_parse_datetime(t: Seq<u8>) -> Option<i64> {
    match datetime_from_text(t, JST_OFFSET_SECS as int, "%y%m%d%H%M%S"@) {
        Some(instant) => Some(instant.0),
        None => None,
    }
}

pub fn parse_datetime(datetime_text: &[u8]) -> (r: Option<i64>)
    ensures
        r == spec_parse_datetime(datetime_text@),
{
    match chrono_parse_datetime(datetime_text, JST_OFFSET_SECS, "%y%m%d%H%M%S") {
        Some(instant) => Some(instant.0),
        None => None,
    }
}

/// The arrival instant for a time of day that was already read from the
/// telegram, next to the instant `base` at which the earthquake occurred.
pub open spec fn arrival_from_time(time: Option<(u32, u32)>, base: i64) -> Option<i64> {
    match time {
        Some(t) => spec_resolve_arrival_time(base, t.0, t.1),
        None => None,
    }
}

/// An arrival time written as `hhmmss` in Japan Standard Time.
pub open spec fn spec_parse_arrival_time(t: Seq<u8>, base: i64) -> Option<i64> {
    arrival_from_time(time_from_text(t, "%H%M%S"@), base)
}

pub fn parse_arrival_time(arrival_text: &[u8], base: i64) -> (r: Option<i64>)
    ensures
        r == spec_parse_arrival_time(arrival_text@, base),
{
    match chrono_parse_time(arrival_text, "%H%M%S") {
        Some(t) => resolve_arrival_time(base, t.0, t.1),
        None => None,
    }
}

// ---------------------------------------------------------------------------
// The area block
// ---------------------------------------------------------------------------
/// The arrival field of an area record, given the arrival instant that was
/// read from it: that instant, or nothing where the field is six slashes.
/// The outer `None` stands for a field that is neither.
pub open spec fn spec_reach_at(field: Seq<u8>, arrival: Option<i64>) -> Option<Option<i64>> {
    match arrival {
        Some(v) => Some(Some(v)),
        None => if all_slashes(field) {
            Some(None)
        } else {
            None
        },
    }
}

/// The forecast that one twenty-byte record of the area block holds, given
/// the arrival instant read from its bytes 11 to 16.
pub open spec fn spec_area_record(
    part: Seq<u8>,
    arrival: Option<i64>,
    areas: Map<Seq<u8>, Seq<char>>,
) -> Result<AreaEEWView, JMAFormatParseError> {
    let left = spec_decode_intensity(part[6], part[7]);
    let right = spec_optional_intensity(part[8], part[9]);
    let reach_at = spec_reach_at(part.subrange(11, 17), arrival);
    let warning = spec_decode_warning_status(part[18]);
    let wave = spec_decode_wave_status(part[19]);
    if !areas.contains_key(part.subrange(1, 4)) {
        Err(JMAFormatParseError::UnknownAreaCode)
    } else if left is None || right is None || reach_at is None || warning is None || wave is None {
        Err(JMAFormatParseError::InvalidEBI)
    } else {
        Ok(
            AreaEEWView {
                area_name: areas[part.subrange(1, 4)],
                minimum_intensity: match right.unwrap() {
                    Some(v) => v,
                    None => left.unwrap(),
                },
                maximum_intensity: match right.unwrap() {
                    Some(_) => left,
                    None => None,
                },
                reach_at: reach_at.unwrap(),
                warning_status: warning.unwrap(),
                wave_status: wave.unwrap(),
            },
        )
    }
}

/// Decodes one record of the area block. `arrival` is the arrival instant
/// that was read from the record's arrival field, if one could be read.
pub fn parse_area_record(part: &[u8], arrival: Option<i64>, area_code_dict: &CodeDict) -> (r: Result<
    AreaEEW,
    JMAFormatParseError,
>)
    requires
        part@.len() == EBI_PART_LEN,
    ensures
        match r {
            Ok(a) => spec_area_record(part@, arrival, area_code_dict@) == Ok::<
                AreaEEWView,
                JMAFormatParseError,
            >(a@),
            Err(e) => spec_area_record(part@, arrival, area_code_dict@) == Err::<
                AreaEEWView,
                JMAFormatParseError,
            >(e),
        },
{
    let area_name = match area_code_dict.get(slice_subrange(part, 1, 4)) {
        Some(s) => s.clone(),
        None => return Err(JMAFormatParseError::UnknownAreaCode),
    };
    let left_intensity = match decode_intensity(part[6], part[7]) {
        Some(v) => v,
        None => return Err(JMAFormatParseError::InvalidEBI),
    };
    let right_intensity = match parse_optional_intensity(part[8], part[9]) {
        Some(v) => v,
        None => return Err(JMAFormatParseError::InvalidEBI),
    };
    let (minimum_intensity, maximum_intensity) = match right_intensity {
        Some(v) => (v, Some(left_intensity)),
        None => (left_intensity, None),
    };
    let reach_at = match arrival {
        Some(v) => Some(v),
        None => if is_all_slashes(slice_subrange(part, 11, 17)) {
            None
        } else {
            return Err(JMAFormatParseError::InvalidEBI);
        },
    };
    let local_warning_status = match decode_warning_status(part[18]) {
        Some(v) => v,
        None => return Err(JMAFormatParseError::InvalidEBI),
    };
    let wave_status = match decode_wave_status(part[19]) {
        Some(v) => v,
        None => return Err(JMAFormatParseError::InvalidEBI),
    };
    Ok(
        AreaEEW {
            area_name: area_name,
            minimum_intensity: minimum_intensity,
            maximum_intensity: maximum_intensity,
            reach_at: reach_at,
            warning_status: local_warning_status,
            wave_status: wave_status,
        },
    )
}

/// The bytes `9999=` stand at offset `at + 1`.
pub open spec fn is_terminator(text: Seq<u8>, at: int) -> bool {
    &&& text[at + 1] == 0x39
    &&& text[at + 2] == 0x39
    &&& text[at + 3] == 0x39
    &&& text[at + 4] == 0x39
    &&& text[at + 5] == 0x3d
}

fn at_terminator(text: &[u8], at: usize) -> (r: bool)
    requires
        at + 5 < text.len(),
    ensures
        r == is_terminator(text@, at as int),
{
    text[at + 1] == 0x39 && text[at + 2] == 0x39 && text[at + 3] == 0x39 && text[at + 4] == 0x39
        && text[at + 5] == 0x3d
}

/// The forecasts of the area block from offset `at` on: one per record up
/// to the terminator `9999=`, which has to follow the last record.
pub open spec fn spec_area_records(
    text: Seq<u8>,
    at: int,
    occurred_at: i64,
    areas: Map<Seq<u8>, Seq<char>>,
) -> Result<Seq<AreaEEWView>, JMAFormatParseError>
    decreases text.len() - at,
{
    if at + EBI_PART_LEN < text.len() && !is_terminator(text, at) {
        let part = text.subrange(at, at + EBI_PART_LEN);
        match spec_area_record(
            part,
            spec_parse_arrival_time(part.subrange(11, 17), occurred_at),
            areas,
        ) {
            Err(e) => Err(e),
            Ok(a) => match spec_area_records(text, at + EBI_PART_LEN, occurred_at, areas) {
                Err(e) => Err(e),
                Ok(rest) => Ok(seq![a] + rest),
            },
        }
    } else if at + 5 >= text.len() || !is_terminator(text, at) {
        Err(JMAFormatParseError::PrematureEOS)
    } else {
        Ok(Seq::empty())
    }
}

/// `records` with `done` put in front, where there are records at all.
pub open spec fn after(done: Seq<AreaEEWView>, records: Result<Seq<AreaEEWView>, JMAFormatParseError>) -> Result<
    Seq<AreaEEWView>,
    JMAFormatParseError,
> {
    match records {
        Err(e) => Err(e),
        Ok(rest) => Ok(done + rest),
    }
}

pub open spec fn area_views(v: Seq<AreaEEW>) -> Seq<AreaEEWView> {
    v.map_values(|a: AreaEEW| a@)
}

fn parse_area_records(text: &[u8], occurred_at: i64, area_code_dict: &CodeDict) -> (r: Result<
    Vec<AreaEEW>,
    JMAFormatParseError,
>)
    requires
        text@.len() >= MINIMUM_LENGTH,
    ensures
        match r {
            Ok(v) => spec_area_records(text@, 138, occurred_at, area_code_dict@) == Ok::<
                Seq<AreaEEWView>,
                JMAFormatParseError,
            >(area_views(v@)),
            Err(e) => spec_area_records(text@, 138, occurred_at, area_code_dict@) == Err::<
                Seq<AreaEEWView>,
                JMAFormatParseError,
            >(e),
        },
{
    let mut area_info: Vec<AreaEEW> = Vec::new();
    let mut it: usize = 138;
    let ghost whole = spec_area_records(text@, 138, occurred_at, area_code_dict@);
    proof {
        assert(area_views(area_info@) =~= Seq::<AreaEEWView>::empty());
        if whole is Ok {
            assert(Seq::<AreaEEWView>::empty() + whole.unwrap() =~= whole.unwrap());
        }
    }
    while it < text.len() - EBI_PART_LEN && !at_terminator(text, it)
        invariant
            138 <= it <= text.len(),
            text.len() >= MINIMUM_LENGTH,
            whole == spec_area_records(text@, 138, occurred_at, area_code_dict@),
            whole == after(
                area_views(area_info@),
                spec_area_records(text@, it as int, occurred_at, area_code_dict@),
            ),
        decreases text@.len() - it,
    {
        let part = slice_subrange(text, it, it + EBI_PART_LEN);
        let arrival = parse_arrival_time(slice_subrange(part, 11, 17), occurred_at);
        let area_eew = match parse_area_record(part, arrival, area_code_dict) {
            Ok(a) => a,
            Err(e) => {
                return Err(e);
            },
        };
        proof {
            let rest = spec_area_records(
                text@,
                it + EBI_PART_LEN,
                occurred_at,
                area_code_dict@,
            );
            assert(area_views(area_info@.push(area_eew)) =~= area_views(area_info@).push(
                area_eew@,
            ));
            if rest is Ok {
                assert(area_views(area_info@) + (seq![area_eew@] + rest.unwrap()) =~= area_views(
                    area_info@,
                ).push(area_eew@) + rest.unwrap());
            }
        }
        area_info.push(area_eew);
        it = it + EBI_PART_LEN;
    }
    if text.len() - it <= 5 || !at_terminator(text, it) {
        return Err(JMAFormatParseError::PrematureEOS);
    }
    assert(area_views(area_info@) + Seq::<AreaEEWView>::empty() =~= area_views(area_info@));
    Ok(area_info)
}

// ---------------------------------------------------------------------------
// The telegram
// ---------------------------------------------------------------------------
/// The area block is present: the bytes `EBI` stand at offset 135.
pub open spec fn has_area_block(text: Seq<u8>) -> bool {
    text[135] == 0x45 && text[136] == 0x42 && text[137] == 0x49
}

/// What the first 62 bytes of a telegram say, given the two instants that
/// were read from bytes 9 to 20 and 26 to 37: the report without its detail.
pub open spec fn spec_header_with(text: Seq<u8>, issued_at: Option<i64>, occurred_at: Option<i64>) -> Result<
    EEWView,
    JMAFormatParseError,
> {
    let pattern = spec_decode_issue_pattern(text[0], text[1]);
    let source = spec_decode_source(text[3], text[4]);
    let kind = spec_decode_kind(text[6], text[7]);
    let status = spec_decode_status(text[59]);
    let number = spec_parse_number(text.subrange(60, 62));
    if pattern is None {
        Err(JMAFormatParseError::InvalidPattern)
    } else if source is None {
        Err(JMAFormatParseError::InvalidSource)
    } else if kind is None {
        Err(JMAFormatParseError::InvalidKind)
    } else if issued_at is None {
        Err(JMAFormatParseError::InvalidIssueTime)
    } else if text[24] != 0x31 {
        Err(JMAFormatParseError::Split)
    } else if occurred_at is None {
        Err(JMAFormatParseError::InvalidOoccurrenceTime)
    } else if !valid_utf8(text.subrange(39, 55)) {
        Err(JMAFormatParseError::InvalidId)
    } else if status is None {
        Err(JMAFormatParseError::InvalidStatus)
    } else if number is None {
        Err(JMAFormatParseError::InvalidNumber)
    } else {
        Ok(
            EEWView {
                issue_pattern: pattern.unwrap(),
                source: source.unwrap(),
                kind: kind.unwrap(),
                issued_at: issued_at.unwrap(),
                occurred_at: occurred_at.unwrap(),
                id: decode_utf8(text.subrange(39, 55)),
                status: status.unwrap(),
                number: number.unwrap(),
                detail: None,
            },
        )
    }
}

/// What the first 62 bytes of a telegram say: the report without its detail.
pub open spec fn spec_header(text: Seq<u8>) -> Result<EEWView, JMAFormatParseError> {
    spec_header_with(
        text,
        spec_parse_datetime(text.subrange(9, 21)),
        spec_parse_datetime(text.subrange(26, 38)),
    )
}

/// What bytes 86 and up of a telegram say about the earthquake.
pub open spec fn spec_detail(
    text: Seq<u8>,
    occurred_at: i64,
    epicenters: Map<Seq<u8>, Seq<char>>,
    areas: Map<Seq<u8>, Seq<char>>,
) -> Result<EEWDetailView, JMAFormatParseError> {
    let lat = spec_coordinate(text[90], text.subrange(91, 94), 0x4e, 0x53);
    let lon = spec_coordinate(text[95], text.subrange(96, 100), 0x45, 0x57);
    let depth = spec_optional_number(text.subrange(101, 104));
    let magnitude = spec_optional_number(text.subrange(105, 107));
    let intensity = spec_optional_intensity(text[108], text[109]);
    let epicenter_accuracy = spec_decode_epicenter_accuracy(text[113]);
    let depth_accuracy = spec_decode_depth_accuracy(text[114]);
    let magnitude_accuracy = spec_decode_magnitude_accuracy(text[115]);
    let category = spec_decode_epicenter_category(text[121]);
    let warning = spec_decode_warning_status(text[122]);
    let change = spec_decode_intensity_change(text[129]);
    let reason = spec_decode_change_reason(text[130]);
    let records = if has_area_block(text) {
        spec_area_records(text, 138, occurred_at, areas)
    } else {
        Ok(Seq::empty())
    };
    if !epicenters.contains_key(text.subrange(86, 89)) {
        Err(JMAFormatParseError::UnknownEpicenterCode)
    } else if lat is None || lon is None {
        Err(JMAFormatParseError::InvalidLL)
    } else if depth is None {
        Err(JMAFormatParseError::InvalidDepth)
    } else if magnitude is None {
        Err(JMAFormatParseError::InvalidMagnitude)
    } else if intensity is None {
        Err(JMAFormatParseError::InvalidMaximumIntensity)
    } else if epicenter_accuracy is None {
        Err(JMAFormatParseError::InvalidEpicenterAccuracy)
    } else if depth_accuracy is None {
        Err(JMAFormatParseError::InvalidDepthAccuracy)
    } else if magnitude_accuracy is None {
        Err(JMAFormatParseError::InvalidMagnitudeAccuracy)
    } else if category is None {
        Err(JMAFormatParseError::InvalidEpicenterCategory)
    } else if warning is None {
        Err(JMAFormatParseError::InvalidWarningStatus)
    } else if change is None {
        Err(JMAFormatParseError::InvalidIntensityChange)
    } else if reason is None {
        Err(JMAFormatParseError::InvalidChangeReason)
    } else {
        match records {
            Err(e) => Err(e),
            Ok(area_info) => Ok(
                EEWDetailView {
                    epicenter_name: epicenters[text.subrange(86, 89)],
                    epicenter: (lat.unwrap(), lon.unwrap()),
                    depth: depth.unwrap(),
                    magnitude: magnitude.unwrap(),
                    maximum_intensity: intensity.unwrap(),
                    epicenter_accuracy: epicenter_accuracy.unwrap(),
                    depth_accuracy: depth_accuracy.unwrap(),
                    magnitude_accuracy: magnitude_accuracy.unwrap(),
                    epicenter_category: category.unwrap(),
                    warning_status: warning.unwrap(),
                    intensity_change: change.unwrap(),
                    change_reason: reason.unwrap(),
                    area_info: area_info,
                },
            ),
        }
    }
}

/// The report that a telegram holds, or the first reason why it holds none.
pub open spec fn spec_parse_jma_format(
    text: Seq<u8>,
    epicenters: Map<Seq<u8>, Seq<char>>,
    areas: Map<Seq<u8>, Seq<char>>,
) -> Result<EEWView, JMAFormatParseError> {
    if text.len() < MINIMUM_LENGTH {
        Err(JMAFormatParseError::TooShort)
    } else {
        match spec_header(text) {
            Err(e) => Err(e),
            Ok(header) => if header.issue_pattern == IssuePattern::Cancel {
                Ok(header)
            } else {
                match spec_detail(text, header.occurred_at, epicenters, areas) {
                    Err(e) => Err(e),
                    Ok(detail) => Ok(EEWView { detail: Some(detail), ..header }),
                }
            },
        }
    }
}

/// A report read from a telegram carries detail exactly where its issue
/// pattern is not the cancellation.
pub proof fn lemma_parsed_detail_follows_pattern(
    text: Seq<u8>,
    epicenters: Map<Seq<u8>, Seq<char>>,
    areas: Map<Seq<u8>, Seq<char>>,
)
    requires
        spec_parse_jma_format(text, epicenters, areas) is Ok,
    ensures
        ({
            let e = spec_parse_jma_format(text, epicenters, areas).unwrap();
            e.detail is None <==> e.issue_pattern == IssuePattern::Cancel
        }),
{
}

/// A report read from a telegram is consistent, provided that the telegram
/// numbers it from one and marks a cancellation by its kind only together
/// with the cancellation pattern.
pub proof fn lemma_parsed_event_is_consistent(
    text: Seq<u8>,
    epicenters: Map<Seq<u8>, Seq<char>>,
    areas: Map<Seq<u8>, Seq<char>>,
)
    requires
        spec_parse_jma_format(text, epicenters, areas) is Ok,
        ({
            let e = spec_parse_jma_format(text, epicenters, areas).unwrap();
            &&& e.number >= 1
            &&& (e.kind == Kind::Cancel || e.kind == Kind::DrillCancel) ==> e.issue_pattern
                == IssuePattern::Cancel
        }),
    ensures
        spec_parse_jma_format(text, epicenters, areas).unwrap().is_consistent(),
{
}

/// Decodes the fields in front of the detail. `issued_at` and
/// `occurred_at` are the instants that were read from the two time fields,
/// where they could be read.
pub fn parse_header(text: &[u8], issued_at: Option<i64>, occurred_at: Option<i64>) -> (r: Result<
    EEW,
    JMAFormatParseError,
>)
    requires
        text@.len() >= MINIMUM_LENGTH,
    ensures
        match r {
            Ok(e) => spec_header_with(text@, issued_at, occurred_at) == Ok::<
                EEWView,
                JMAFormatParseError,
            >(e@),
            Err(e) => spec_header_with(text@, issued_at, occurred_at) == Err::<
                EEWView,
                JMAFormatParseError,
            >(e),
        },
{
    let issue_pattern = match decode_issue_pattern(text[0], text[1]) {
        Some(v) => v,
        None => return Err(JMAFormatParseError::InvalidPattern),
    };
    let source = match decode_source(text[3], text[4]) {
        Some(v) => v,
        None => return Err(JMAFormatParseError::InvalidSource),
    };
    let kind = match decode_kind(text[6], text[7]) {
        Some(v) => v,
        None => return Err(JMAFormatParseError::InvalidKind),
    };
    let issued_at = match issued_at {
        Some(v) => v,
        None => return Err(JMAFormatParseError::InvalidIssueTime),
    };
    if text[24] != 0x31 {
        return Err(JMAFormatParseError::Split);
    }
    let occurred_at = match occurred_at {
        Some(v) => v,
        None => return Err(JMAFormatParseError::InvalidOoccurrenceTime),
    };
    let id = match core::str::from_utf8(slice_subrange(text, 39, 55)) {
        Ok(s) => s.to_owned(),
        Err(_) => return Err(JMAFormatParseError::InvalidId),
    };
    let status = match decode_status(text[59]) {
        Some(v) => v,
        None => return Err(JMAFormatParseError::InvalidStatus),
    };
    let number = match parse_number(slice_subrange(text, 60, 62)) {
        Some(v) => v,
        None => return Err(JMAFormatParseError::InvalidNumber),
    };
    Ok(
        EEW {
            issue_pattern: issue_pattern,
            source: source,
            kind: kind,
            issued_at: issued_at,
            occurred_at: occurred_at,
            id: id,
            status: status,
            number: number,
            detail: None,
        },
    )
}

/// Decodes the detail of a report about an earthquake that occurred at
/// `occurred_at`.
pub fn parse_detail(
    text: &[u8],
    occurred_at: i64,
    epicenter_code_dict: &CodeDict,
    area_code_dict: &CodeDict,
) -> (r: Result<EEWDetail, JMAFormatParseError>)
    requires
        text@.len() >= MINIMUM_LENGTH,
    ensures
        match r {
            Ok(d) => spec_detail(text@, occurred_at, epicenter_code_dict@, area_code_dict@) == Ok::<
                EEWDetailView,
                JMAFormatParseError,
            >(d@),
            Err(e) => spec_detail(text@, occurred_at, epicenter_code_dict@, area_code_dict@)
                == Err::<EEWDetailView, JMAFormatParseError>(e),
        },
{
    let epicenter_name = match epicenter_code_dict.get(slice_subrange(text, 86, 89)) {
        Some(s) => s.clone(),
        None => return Err(JMAFormatParseError::UnknownEpicenterCode),
    };
    let lat = match parse_coordinate(text[90], slice_subrange(text, 91, 94), 0x4e, 0x53) {
        Some(v) => v,
        None => return Err(JMAFormatParseError::InvalidLL),
    };
    let lon = match parse_coordinate(text[95], slice_subrange(text, 96, 100), 0x45, 0x57) {
        Some(v) => v,
        None => return Err(JMAFormatParseError::InvalidLL),
    };
    let depth = match parse_optional_number(slice_subrange(text, 101, 104)) {
        Some(v) => v,
        None => return Err(JMAFormatParseError::InvalidDepth),
    };
    let magnitude = match parse_optional_number(slice_subrange(text, 105, 107)) {
        Some(v) => v,
        None => return Err(JMAFormatParseError::InvalidMagnitude),
    };
    let maximum_intensity = match parse_optional_intensity(text[108], text[109]) {
        Some(v) => v,
        None => return Err(JMAFormatParseError::InvalidMaximumIntensity),
    };
    let epicenter_accuracy = match decode_epicenter_accuracy(text[113]) {
        Some(v) => v,
        None => return Err(JMAFormatParseError::InvalidEpicenterAccuracy),
    };
    let depth_accuracy = match decode_depth_accuracy(text[114]) {
        Some(v) => v,
        None => return Err(JMAFormatParseError::InvalidDepthAccuracy),
    };
    let magnitude_accuracy = match decode_magnitude_accuracy(text[115]) {
        Some(v) => v,
        None => return Err(JMAFormatParseError::InvalidMagnitudeAccuracy),
    };
    let epicenter_category = match decode_epicenter_category(text[121]) {
        Some(v) => v,
        None => return Err(JMAFormatParseError::InvalidEpicenterCategory),
    };
    let warning_status = match decode_warning_status(text[122]) {
        Some(v) => v,
        None => return Err(JMAFormatParseError::InvalidWarningStatus),
    };
    let intensity_change = match decode_intensity_change(text[129]) {
        Some(v) => v,
        None => return Err(JMAFormatParseError::InvalidIntensityChange),
    };
    let change_reason = match decode_change_reason(text[130]) {
        Some(v) => v,
        None => return Err(JMAFormatParseError::InvalidChangeReason),
    };
    let area_info = if text[135] == 0x45 && text[136] == 0x42 && text[137] == 0x49 {
        match parse_area_records(text, occurred_at, area_code_dict) {
            Ok(v) => v,
            Err(e) => return Err(e),
        }
    } else {
        let none: Vec<AreaEEW> = Vec::new();
        assert(area_views(none@) =~= Seq::<AreaEEWView>::empty());
        none
    };
    let detail = EEWDetail {
        epicenter_name: epicenter_name,
        epicenter: (lat, lon),
        depth: depth,
        magnitude: magnitude,
        maximum_intensity: maximum_intensity,
        epicenter_accuracy: epicenter_accuracy,
        depth_accuracy: depth_accuracy,
        magnitude_accuracy: magnitude_accuracy,
        epicenter_category: epicenter_category,
        warning_status: warning_status,
        intensity_change: intensity_change,
        change_reason: change_reason,
        area_info: area_info,
    };
    assert(detail@.area_info == area_views(area_info@));
    Ok(detail)
}

/// Decodes one telegram. The epicenter and the areas are named through the
/// two dictionaries. The result is the report that the telegram holds, or
/// the first field, in the order of the format, that could not be read;
/// nothing is returned for a telegram that is only partly readable.
pub fn parse_jma_format(text: &[u8], epicenter_code_dict: &CodeDict, area_code_dict: &CodeDict) -> (r:
    Result<EEW, JMAFormatParseError>)
    ensures
        match r {
            Ok(e) => spec_parse_jma_format(text@, epicenter_code_dict@, area_code_dict@) == Ok::<
                EEWView,
                JMAFormatParseError,
            >(e@),
            Err(e) => spec_parse_jma_format(text@, epicenter_code_dict@, area_code_dict@) == Err::<
                EEWView,
                JMAFormatParseError,
            >(e),
        },
{
    if text.len() < MINIMUM_LENGTH {
        return Err(JMAFormatParseError::TooShort);
    }
    let issued_at = parse_datetime(slice_subrange(text, 9, 21));
    let occurred_at = parse_datetime(slice_subrange(text, 26, 38));
    let header = match parse_header(text, issued_at, occurred_at) {
        Ok(h) => h,
        Err(e) => return Err(e),
    };
    if header.issue_pattern == IssuePattern::Cancel {
        return Ok(header);
    }
    let detail = match parse_detail(text, header.occurred_at, epicenter_code_dict, area_code_dict) {
        Ok(d) => d,
        Err(e) => return Err(e),
    };
    Ok(
        EEW {
            issue_pattern: header.issue_pattern,
            source: header.source,
            kind: header.kind,
            issued_at: header.issued_at,
            occurred_at: header.occurred_at,
            id: header.id,
            status: header.status,
            number: header.number,
            detail: Some(detail),
        },
    )
}

} // verus!
