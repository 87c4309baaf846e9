//! The one-line Japanese rendering of a report.

use crate::clock::jst_second_of_day;
use crate::condition::{both_details, rank_or_unknown, view_of};
use crate::eew::{EEWDetail, EEWDetailView, EEWPhase, EEWView, IntensityClass, EEW};
use crate::text::{
    clock_text, decimal, one_decimal, push_clock_jst, push_decimal, push_one_decimal,
};
use std::cmp::Ordering;
use vstd::prelude::*;

verus! {

pub open spec fn intensity_text(intensity: Option<IntensityClass>) -> Seq<char> {
    match intensity {
        None => "震度不明"@,
        Some(IntensityClass::Zero) => "震度0"@,
        Some(IntensityClass::One) => "震度1"@,
        Some(IntensityClass::Two) => "震度2"@,
        Some(IntensityClass::Three) => "震度3"@,
        Some(IntensityClass::Four) => "震度4"@,
        Some(IntensityClass::FiveLower) => "震度5弱"@,
        Some(IntensityClass::FiveUpper) => "震度5強"@,
        Some(IntensityClass::SixLower) => "震度6弱"@,
        Some(IntensityClass::SixUpper) => "震度6強"@,
        Some(IntensityClass::Seven) => "震度7"@,
    }
}

pub fn format_intensity(intensity: Option<IntensityClass>) -> (r: String)
    ensures
        r@ == intensity_text(intensity),
{
    let s: &str = match intensity {
        None => "震度不明",
        Some(IntensityClass::Zero) => "震度0",
        Some(IntensityClass::One) => "震度1",
        Some(IntensityClass::Two) => "震度2",
        Some(IntensityClass::Three) => "震度3",
        Some(IntensityClass::Four) => "震度4",
        Some(IntensityClass::FiveLower) => "震度5弱",
        Some(IntensityClass::FiveUpper) => "震度5強",
        Some(IntensityClass::SixLower) => "震度6弱",
        Some(IntensityClass::SixUpper) => "震度6強",
        Some(IntensityClass::Seven) => "震度7",
    };
    String::from_str(s)
}

/// The time of day in Japan at the instant `t`, as `hh:mm:ss`.
pub fn format_time(t: i64) -> (r: String)
    ensures
        r@ == clock_text(jst_second_of_day(t) as nat),
{
    let mut out = String::new();
    push_clock_jst(&mut out, t);
    assert(out@ =~= clock_text(jst_second_of_day(t) as nat));
    out
}

/// One coordinate: the letter of its hemisphere and its size in degrees
/// with one decimal place.
pub open spec fn coordinate_text(tenths: i32, positive: Seq<char>, negative: Seq<char>) -> Seq<char> {
    if tenths >= 0 {
        positive + one_decimal(tenths as nat)
    } else {
        negative + one_decimal((-tenths) as nat)
    }
}

pub open spec fn position_text(pos: (i32, i32)) -> Seq<char> {
    coordinate_text(pos.0, "N"@, "S"@) + "/"@ + coordinate_text(pos.1, "E"@, "W"@)
}

fn push_coordinate(out: &mut String, tenths: i32, positive: &str, negative: &str)
    ensures
        final(out)@ == old(out)@ + coordinate_text(tenths, positive@, negative@),
{
    if tenths >= 0 {
        out.append(positive);
        push_one_decimal(out, tenths as u64);
    } else {
        out.append(negative);
        push_one_decimal(out, (-(tenths as i64)) as u64);
    }
    assert(out@ =~= old(out)@ + coordinate_text(tenths, positive@, negative@));
}

/// A position given in tenths of a degree, such as `N34.4/E135.7`.
pub fn format_position(pos: (i32, i32)) -> (r: String)
    ensures
        r@ == position_text(pos),
{
    let mut out = String::new();
    push_coordinate(&mut out, pos.0, "N", "S");
    out.append("/");
    push_coordinate(&mut out, pos.1, "E", "W");
    assert(out@ =~= position_text(pos));
    out
}

pub open spec fn magnitude_text(m: Option<u32>) -> Seq<char> {
    match m {
        None => "M---"@,
        Some(tenths) => "M"@ + one_decimal(tenths as nat),
    }
}

/// A magnitude given in tenths, such as `M5.9`.
pub fn format_magnitude(m: Option<u32>) -> (r: String)
    ensures
        r@ == magnitude_text(m),
{
    match m {
        None => String::from_str("M---"),
        Some(tenths) => {
            let mut out = String::from_str("M");
            push_one_decimal(&mut out, tenths as u64);
            out
        },
    }
}

pub open spec fn depth_text(d: Option<u32>) -> Seq<char> {
    match d {
        None => "---km"@,
        Some(km) => decimal(km as nat) + "km"@,
    }
}

/// A depth in kilometres, such as `10km`.
pub fn format_depth(d: Option<u32>) -> (r: String)
    ensures
        r@ == depth_text(d),
{
    match d {
        None => String::from_str("---km"),
        Some(km) => {
            let mut out = String::new();
            push_decimal(&mut out, km as u64);
            out.append("km");
            assert(out@ =~= depth_text(d));
            out
        },
    }
}

/// How the maximum intensity of `e` stands to that of the report before
/// it; an unknown intensity counts as weaker than any grade, and reports
/// without detail do not compare.
pub open spec fn intensity_trend(e: EEWView, prev: Option<EEWView>) -> Ordering {
    match both_details(e, prev) {
        None => Ordering::Equal,
        Some((d, pd)) => if rank_or_unknown(d.maximum_intensity) < rank_or_unknown(
            pd.maximum_intensity,
        ) {
            Ordering::Less
        } else if rank_or_unknown(d.maximum_intensity) > rank_or_unknown(pd.maximum_intensity) {
            Ordering::Greater
        } else {
            Ordering::Equal
        },
    }
}

fn grade(intensity: Option<IntensityClass>) -> (r: i32)
    ensures
        r == rank_or_unknown(intensity),
{
    match intensity {
        Some(i) => i.ord(),
        None => -1,
    }
}

pub fn compare_intensity(eew: &EEW, prev_opt: Option<&EEW>) -> (r: Ordering)
    ensures
        r == intensity_trend(eew@, view_of(prev_opt)),
{
    let prev = match prev_opt {
        Some(p) => p,
        None => return Ordering::Equal,
    };
    match (&eew.detail, &prev.detail) {
        (Some(detail), Some(prev_detail)) => {
            let a = grade(detail.maximum_intensity);
            let b = grade(prev_detail.maximum_intensity);
            if a < b {
                Ordering::Less
            } else if a > b {
                Ordering::Greater
            } else {
                Ordering::Equal
            }
        },
        _ => Ordering::Equal,
    }
}

/// The word for the phase of a report; a report without phase has none.
pub open spec fn title_text(phase: Option<EEWPhase>) -> Option<Seq<char>> {
    match phase {
        Some(EEWPhase::Cancel) => Some("取消"@),
        Some(EEWPhase::FastForecast) => Some("速報"@),
        Some(EEWPhase::Forecast) => Some("予報"@),
        Some(EEWPhase::Alert) => Some("警報"@),
        None => None,
    }
}

/// The arrow that shows a rise or a fall of the maximum intensity.
pub open spec fn trend_mark(e: EEWView, prev: Option<EEWView>) -> Seq<char> {
    match intensity_trend(e, prev) {
        Ordering::Greater => "↑"@,
        Ordering::Less => "↓"@,
        Ordering::Equal => Seq::empty(),
    }
}

/// What stands between the square brackets: the tags for tests and
/// drills, the title, the arrow and the mark of a final report.
pub open spec fn header_text(e: EEWView, prev: Option<EEWView>) -> Option<Seq<char>> {
    match title_text(e.phase()) {
        None => None,
        Some(title) => Some(
            (if e.is_test() {
                "テスト配信 | "@
            } else {
                Seq::empty()
            }) + (if e.is_drill() {
                "訓練 | "@
            } else {
                Seq::empty()
            }) + title + trend_mark(e, prev) + (if e.is_last() {
                "/最終"@
            } else {
                Seq::empty()
            }),
        ),
    }
}

pub open spec fn detail_text(d: EEWDetailView, occurred_at: i64) -> Seq<char> {
    d.epicenter_name + " "@ + intensity_text(d.maximum_intensity) + " "@ + magnitude_text(
        d.magnitude,
    ) + " "@ + depth_text(d.depth) + " ("@ + position_text(d.epicenter) + ") "@ + clock_text(
        jst_second_of_day(occurred_at) as nat,
    ) + "発生"@
}

/// The summary of the earthquake, or three dashes for a report without detail.
pub open spec fn body_text(e: EEWView) -> Seq<char> {
    match e.detail {
        None => "---"@,
        Some(d) => detail_text(d, e.occurred_at),
    }
}

pub open spec fn footer_text(e: EEWView) -> Seq<char> {
    "第"@ + decimal(e.number as nat) + "報 "@ + e.id
}

/// The whole line, `[header] body | footer`; nothing for a report without phase.
pub open spec fn short_text(e: EEWView, prev: Option<EEWView>) -> Option<Seq<char>> {
    match header_text(e, prev) {
        None => None,
        Some(header) => Some("["@ + header + "] "@ + body_text(e) + " | "@ + footer_text(e)),
    }
}

fn push_detail(out: &mut String, detail: &EEWDetail, occurred_at: i64)
    ensures
        final(out)@ == old(out)@ + detail_text(detail@, occurred_at),
{
    out.append(detail.epicenter_name.as_str());
    out.append(" ");
    let intensity = format_intensity(detail.maximum_intensity);
    out.append(intensity.as_str());
    out.append(" ");
    let magnitude = format_magnitude(detail.magnitude);
    out.append(magnitude.as_str());
    out.append(" ");
    let depth = format_depth(detail.depth);
    out.append(depth.as_str());
    out.append(" (");
    let position = format_position(detail.epicenter);
    out.append(position.as_str());
    out.append(") ");
    push_clock_jst(out, occurred_at);
    out.append("発生");
    assert(out@ =~= old(out)@ + detail_text(detail@, occurred_at));
}

fn push_footer(out: &mut String, eew: &EEW)
    ensures
        final(out)@ == old(out)@ + footer_text(eew@),
{
    out.append("第");
    push_decimal(out, eew.number as u64);
    out.append("報 ");
    out.append(eew.id.as_str());
    assert(out@ =~= old(out)@ + footer_text(eew@));
}

fn push_body(out: &mut String, eew: &EEW)
    ensures
        final(out)@ == old(out)@ + body_text(eew@),
{
    match &eew.detail {
        None => {
            out.append("---");
        },
        Some(detail) => {
            push_detail(out, detail, eew.occurred_at);
        },
    }
}

fn title_of(phase: Option<EEWPhase>) -> (r: Option<&'static str>)
    ensures
        match r {
            Some(s) => title_text(phase) == Some(s@),
            None => title_text(phase) is None,
        },
{
    match phase {
        Some(EEWPhase::Cancel) => Some("取消"),
        Some(EEWPhase::FastForecast) => Some("速報"),
        Some(EEWPhase::Forecast) => Some("予報"),
        Some(EEWPhase::Alert) => Some("警報"),
        None => None,
    }
}

/// The part of the line between the square brackets; nothing for a report
/// without phase.
pub fn format_header(eew: &EEW, prev_opt: Option<&EEW>) -> (r: Option<String>)
    ensures
        match r {
            Some(header) => header_text(eew@, view_of(prev_opt)) == Some(header@),
            None => header_text(eew@, view_of(prev_opt)) is None,
        },
{
    let title = match title_of(eew.get_eew_phase()) {
        Some(t) => t,
        None => return None,
    };
    let mut out = String::new();
    if eew.is_test() {
        out.append("テスト配信 | ");
    }
    if eew.is_drill() {
        out.append("訓練 | ");
    }
    out.append(title);
    match compare_intensity(eew, prev_opt) {
        Ordering::Greater => {
            out.append("↑");
        },
        Ordering::Less => {
            out.append("↓");
        },
        Ordering::Equal => {},
    }
    if eew.is_last() {
        out.append("/最終");
    }
    assert(out@ =~= header_text(eew@, view_of(prev_opt)).unwrap());
    Some(out)
}

/// The summary of the earthquake that stands behind the brackets.
pub fn format_body(eew: &EEW) -> (r: String)
    ensures
        r@ == body_text(eew@),
{
    let mut out = String::new();
    push_body(&mut out, eew);
    assert(out@ =~= body_text(eew@));
    out
}

/// The number of the report and the id of its earthquake.
pub fn format_footer(eew: &EEW) -> (r: String)
    ensures
        r@ == footer_text(eew@),
{
    let mut out = String::new();
    push_footer(&mut out, eew);
    assert(out@ =~= footer_text(eew@));
    out
}

/// Renders a report on one line, next to the report that the destination
/// got before it. A report without phase is not rendered.
pub fn format_eew_short(eew: &EEW, prev_opt: Option<&EEW>) -> (r: Option<String>)
    ensures
        match r {
            Some(line) => short_text(eew@, view_of(prev_opt)) == Some(line@),
            None => short_text(eew@, view_of(prev_opt)) is None,
        },
{
    let header = match format_header(eew, prev_opt) {
        Some(h) => h,
        None => return None,
    };
    let mut out = String::from_str("[");
    out.append(header.as_str());
    out.append("] ");
    push_body(&mut out, eew);
    out.append(" | ");
    push_footer(&mut out, eew);
    assert(out@ =~= short_text(eew@, view_of(prev_opt)).unwrap());
    Some(out)
}

} // verus!
