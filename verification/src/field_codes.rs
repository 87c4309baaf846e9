//! The one- and two-byte codes of a telegram and what each stands for.

use crate::eew::{
    ChangeReason, DepthAccuracy, EpicenterAccuracy, EpicenterCategory, IntensityChange,
    IntensityClass, IssuePattern, Kind, MagnitudeAccuracy, Source, Status, WarningStatus,
    WaveStatus,
};
use vstd::prelude::*;

verus! {

/// The issue pattern that a two-byte code stands for.
pub open spec fn spec_decode_issue_pattern(a: u8, b: u8) -> Option<IssuePattern> {
    if a == '3' as u8 && b == '5' as u8 {
        Some(IssuePattern::IntensityOnly)
    } else if a == '3' as u8 && b == '6' as u8 {
        Some(IssuePattern::LowAccuracy)
    } else if a == '3' as u8 && b == '7' as u8 {
        Some(IssuePattern::HighAccuracy)
    } else if a == '3' as u8 && b == '9' as u8 {
        Some(IssuePattern::Cancel)
    } else {
        None
    }
}

pub fn decode_issue_pattern(a: u8, b: u8) -> (r: Option<IssuePattern>)
    ensures
        r == spec_decode_issue_pattern(a, b),
{
    if a == '3' as u8 && b == '5' as u8 {
        Some(IssuePattern::IntensityOnly)
    } else if a == '3' as u8 && b == '6' as u8 {
        Some(IssuePattern::LowAccuracy)
    } else if a == '3' as u8 && b == '7' as u8 {
        Some(IssuePattern::HighAccuracy)
    } else if a == '3' as u8 && b == '9' as u8 {
        Some(IssuePattern::Cancel)
    } else {
        None
    }
}

/// The issuing office that a two-byte code stands for.
pub open spec fn spec_decode_source(a: u8, b: u8) -> Option<Source> {
    if a == '0' as u8 && b == '3' as u8 {
        Some(Source::Tokyo)
    } else if a == '0' as u8 && b == '4' as u8 {
        Some(Source::Osaka)
    } else {
        None
    }
}

pub fn decode_source(a: u8, b: u8) -> (r: Option<Source>)
    ensures
        r == spec_decode_source(a, b),
{
    if a == '0' as u8 && b == '3' as u8 {
        Some(Source::Tokyo)
    } else if a == '0' as u8 && b == '4' as u8 {
        Some(Source::Osaka)
    } else {
        None
    }
}

/// The kind of report that a two-byte code stands for.
pub open spec fn spec_decode_kind(a: u8, b: u8) -> Option<Kind> {
    if a == '0' as u8 && b == '0' as u8 {
        Some(Kind::Normal)
    } else if a == '0' as u8 && b == '1' as u8 {
        Some(Kind::Drill)
    } else if a == '1' as u8 && b == '0' as u8 {
        Some(Kind::Cancel)
    } else if a == '1' as u8 && b == '1' as u8 {
        Some(Kind::DrillCancel)
    } else if a == '2' as u8 && b == '0' as u8 {
        Some(Kind::Reference)
    } else if a == '3' as u8 && b == '0' as u8 {
        Some(Kind::Trial)
    } else {
        None
    }
}

pub fn decode_kind(a: u8, b: u8) -> (r: Option<Kind>)
    ensures
        r == spec_decode_kind(a, b),
{
    if a == '0' as u8 && b == '0' as u8 {
        Some(Kind::Normal)
    } else if a == '0' as u8 && b == '1' as u8 {
        Some(Kind::Drill)
    } else if a == '1' as u8 && b == '0' as u8 {
        Some(Kind::Cancel)
    } else if a == '1' as u8 && b == '1' as u8 {
        Some(Kind::DrillCancel)
    } else if a == '2' as u8 && b == '0' as u8 {
        Some(Kind::Reference)
    } else if a == '3' as u8 && b == '0' as u8 {
        Some(Kind::Trial)
    } else {
        None
    }
}

/// The status that a one-byte code stands for.
pub open spec fn spec_decode_status(a: u8) -> Option<Status> {
    if a == '0' as u8 {
        Some(Status::Normal)
    } else if a == '6' as u8 {
        Some(Status::Correction)
    } else if a == '7' as u8 {
        Some(Status::CancelCorrection)
    } else if a == '8' as u8 {
        Some(Status::LastWithCorrection)
    } else if a == '9' as u8 {
        Some(Status::Last)
    } else if a == '/' as u8 {
        Some(Status::Unknown)
    } else {
        None
    }
}

pub fn decode_status(a: u8) -> (r: Option<Status>)
    ensures
        r == spec_decode_status(a),
{
    if a == '0' as u8 {
        Some(Status::Normal)
    } else if a == '6' as u8 {
        Some(Status::Correction)
    } else if a == '7' as u8 {
        Some(Status::CancelCorrection)
    } else if a == '8' as u8 {
        Some(Status::LastWithCorrection)
    } else if a == '9' as u8 {
        Some(Status::Last)
    } else if a == '/' as u8 {
        Some(Status::Unknown)
    } else {
        None
    }
}

/// The epicenter accuracy that a one-byte code stands for.
pub open spec fn spec_decode_epicenter_accuracy(a: u8) -> Option<EpicenterAccuracy> {
    if a == '1' as u8 {
        Some(EpicenterAccuracy::Single)
    } else if a == '2' as u8 {
        Some(EpicenterAccuracy::Territory)
    } else if a == '3' as u8 {
        Some(EpicenterAccuracy::GridSearchLow)
    } else if a == '4' as u8 {
        Some(EpicenterAccuracy::GridSearchHigh)
    } else if a == '5' as u8 {
        Some(EpicenterAccuracy::NIEDLow)
    } else if a == '6' as u8 {
        Some(EpicenterAccuracy::NIEDHigh)
    } else if a == '7' as u8 {
        Some(EpicenterAccuracy::EPOSLow)
    } else if a == '8' as u8 {
        Some(EpicenterAccuracy::EPOSHigh)
    } else if a == '/' as u8 {
        Some(EpicenterAccuracy::Unknown)
    } else {
        None
    }
}

pub fn decode_epicenter_accuracy(a: u8) -> (r: Option<EpicenterAccuracy>)
    ensures
        r == spec_decode_epicenter_accuracy(a),
{
    if a == '1' as u8 {
        Some(EpicenterAccuracy::Single)
    } else if a == '2' as u8 {
        Some(EpicenterAccuracy::Territory)
    } else if a == '3' as u8 {
        Some(EpicenterAccuracy::GridSearchLow)
    } else if a == '4' as u8 {
        Some(EpicenterAccuracy::GridSearchHigh)
    } else if a == '5' as u8 {
        Some(EpicenterAccuracy::NIEDLow)
    } else if a == '6' as u8 {
        Some(EpicenterAccuracy::NIEDHigh)
    } else if a == '7' as u8 {
        Some(EpicenterAccuracy::EPOSLow)
    } else if a == '8' as u8 {
        Some(EpicenterAccuracy::EPOSHigh)
    } else if a == '/' as u8 {
        Some(EpicenterAccuracy::Unknown)
    } else {
        None
    }
}

/// The depth accuracy that a one-byte code stands for.
pub open spec fn spec_decode_depth_accuracy(a: u8) -> Option<DepthAccuracy> {
    if a == '1' as u8 {
        Some(DepthAccuracy::Single)
    } else if a == '2' as u8 {
        Some(DepthAccuracy::Territory)
    } else if a == '3' as u8 {
        Some(DepthAccuracy::GridSearchLow)
    } else if a == '4' as u8 {
        Some(DepthAccuracy::GridSearchHigh)
    } else if a == '5' as u8 {
        Some(DepthAccuracy::NIEDLow)
    } else if a == '6' as u8 {
        Some(DepthAccuracy::NIEDHigh)
    } else if a == '7' as u8 {
        Some(DepthAccuracy::EPOSLow)
    } else if a == '8' as u8 {
        Some(DepthAccuracy::EPOSHigh)
    } else if a == '/' as u8 {
        Some(DepthAccuracy::Unknown)
    } else {
        None
    }
}

pub fn decode_depth_accuracy(a: u8) -> (r: Option<DepthAccuracy>)
    ensures
        r == spec_decode_depth_accuracy(a),
{
    if a == '1' as u8 {
        Some(DepthAccuracy::Single)
    } else if a == '2' as u8 {
        Some(DepthAccuracy::Territory)
    } else if a == '3' as u8 {
        Some(DepthAccuracy::GridSearchLow)
    } else if a == '4' as u8 {
        Some(DepthAccuracy::GridSearchHigh)
    } else if a == '5' as u8 {
        Some(DepthAccuracy::NIEDLow)
    } else if a == '6' as u8 {
        Some(DepthAccuracy::NIEDHigh)
    } else if a == '7' as u8 {
        Some(DepthAccuracy::EPOSLow)
    } else if a == '8' as u8 {
        Some(DepthAccuracy::EPOSHigh)
    } else if a == '/' as u8 {
        Some(DepthAccuracy::Unknown)
    } else {
        None
    }
}

/// The magnitude accuracy that a one-byte code stands for.
pub open spec fn spec_decode_magnitude_accuracy(a: u8) -> Option<MagnitudeAccuracy> {
    if a == '2' as u8 {
        Some(MagnitudeAccuracy::NIED)
    } else if a == '3' as u8 {
        Some(MagnitudeAccuracy::PWave)
    } else if a == '4' as u8 {
        Some(MagnitudeAccuracy::PSMixed)
    } else if a == '5' as u8 {
        Some(MagnitudeAccuracy::SWave)
    } else if a == '6' as u8 {
        Some(MagnitudeAccuracy::EPOS)
    } else if a == '8' as u8 {
        Some(MagnitudeAccuracy::Level)
    } else if a == '/' as u8 {
        Some(MagnitudeAccuracy::Unknown)
    } else {
        None
    }
}

pub fn decode_magnitude_accuracy(a: u8) -> (r: Option<MagnitudeAccuracy>)
    ensures
        r == spec_decode_magnitude_accuracy(a),
{
    if a == '2' as u8 {
        Some(MagnitudeAccuracy::NIED)
    } else if a == '3' as u8 {
        Some(MagnitudeAccuracy::PWave)
    } else if a == '4' as u8 {
        Some(MagnitudeAccuracy::PSMixed)
    } else if a == '5' as u8 {
        Some(MagnitudeAccuracy::SWave)
    } else if a == '6' as u8 {
        Some(MagnitudeAccuracy::EPOS)
    } else if a == '8' as u8 {
        Some(MagnitudeAccuracy::Level)
    } else if a == '/' as u8 {
        Some(MagnitudeAccuracy::Unknown)
    } else {
        None
    }
}

/// The epicenter category that a one-byte code stands for.
pub open spec fn spec_decode_epicenter_category(a: u8) -> Option<EpicenterCategory> {
    if a == '0' as u8 {
        Some(EpicenterCategory::Land)
    } else if a == '1' as u8 {
        Some(EpicenterCategory::Sea)
    } else if a == '/' as u8 {
        Some(EpicenterCategory::Unknown)
    } else {
        None
    }
}

pub fn decode_epicenter_category(a: u8) -> (r: Option<EpicenterCategory>)
    ensures
        r == spec_decode_epicenter_category(a),
{
    if a == '0' as u8 {
        Some(EpicenterCategory::Land)
    } else if a == '1' as u8 {
        Some(EpicenterCategory::Sea)
    } else if a == '/' as u8 {
        Some(EpicenterCategory::Unknown)
    } else {
        None
    }
}

/// The warning status that a one-byte code stands for.
pub open spec fn spec_decode_warning_status(a: u8) -> Option<WarningStatus> {
    if a == '0' as u8 {
        Some(WarningStatus::Forecast)
    } else if a == '1' as u8 {
        Some(WarningStatus::Alert)
    } else if a == '/' as u8 {
        Some(WarningStatus::Unknown)
    } else {
        None
    }
}

pub fn decode_warning_status(a: u8) -> (r: Option<WarningStatus>)
    ensures
        r == spec_decode_warning_status(a),
{
    if a == '0' as u8 {
        Some(WarningStatus::Forecast)
    } else if a == '1' as u8 {
        Some(WarningStatus::Alert)
    } else if a == '/' as u8 {
        Some(WarningStatus::Unknown)
    } else {
        None
    }
}

/// The change of intensity that a one-byte code stands for.
pub open spec fn spec_decode_intensity_change(a: u8) -> Option<IntensityChange> {
    if a == '0' as u8 {
        Some(IntensityChange::Same)
    } else if a == '1' as u8 {
        Some(IntensityChange::Up)
    } else if a == '2' as u8 {
        Some(IntensityChange::Down)
    } else if a == '/' as u8 {
        Some(IntensityChange::Unknown)
    } else {
        None
    }
}

pub fn decode_intensity_change(a: u8) -> (r: Option<IntensityChange>)
    ensures
        r == spec_decode_intensity_change(a),
{
    if a == '0' as u8 {
        Some(IntensityChange::Same)
    } else if a == '1' as u8 {
        Some(IntensityChange::Up)
    } else if a == '2' as u8 {
        Some(IntensityChange::Down)
    } else if a == '/' as u8 {
        Some(IntensityChange::Unknown)
    } else {
        None
    }
}

/// The reason of change that a one-byte code stands for.
pub open spec fn spec_decode_change_reason(a: u8) -> Option<ChangeReason> {
    if a == '0' as u8 {
        Some(ChangeReason::Nothing)
    } else if a == '1' as u8 {
        Some(ChangeReason::Magnitude)
    } else if a == '2' as u8 {
        Some(ChangeReason::Epicenter)
    } else if a == '3' as u8 {
        Some(ChangeReason::Mixed)
    } else if a == '4' as u8 {
        Some(ChangeReason::Depth)
    } else if a == '/' as u8 {
        Some(ChangeReason::Unknown)
    } else {
        None
    }
}

pub fn decode_change_reason(a: u8) -> (r: Option<ChangeReason>)
    ensures
        r == spec_decode_change_reason(a),
{
    if a == '0' as u8 {
        Some(ChangeReason::Nothing)
    } else if a == '1' as u8 {
        Some(ChangeReason::Magnitude)
    } else if a == '2' as u8 {
        Some(ChangeReason::Epicenter)
    } else if a == '3' as u8 {
        Some(ChangeReason::Mixed)
    } else if a == '4' as u8 {
        Some(ChangeReason::Depth)
    } else if a == '/' as u8 {
        Some(ChangeReason::Unknown)
    } else {
        None
    }
}

/// The wave status that a one-byte code stands for.
pub open spec fn spec_decode_wave_status(a: u8) -> Option<WaveStatus> {
    if a == '0' as u8 {
        Some(WaveStatus::Unreached)
    } else if a == '1' as u8 {
        Some(WaveStatus::Reached)
    } else if a == '/' as u8 {
        Some(WaveStatus::Unknown)
    } else {
        None
    }
}

pub fn decode_wave_status(a: u8) -> (r: Option<WaveStatus>)
    ensures
        r == spec_decode_wave_status(a),
{
    if a == '0' as u8 {
        Some(WaveStatus::Unreached)
    } else if a == '1' as u8 {
        Some(WaveStatus::Reached)
    } else if a == '/' as u8 {
        Some(WaveStatus::Unknown)
    } else {
        None
    }
}

/// The intensity grade that a two-byte code stands for.
pub open spec fn spec_decode_intensity(a: u8, b: u8) -> Option<IntensityClass> {
    if a == '0' as u8 && b == '1' as u8 {
        Some(IntensityClass::One)
    } else if a == '0' as u8 && b == '2' as u8 {
        Some(IntensityClass::Two)
    } else if a == '0' as u8 && b == '3' as u8 {
        Some(IntensityClass::Three)
    } else if a == '0' as u8 && b == '4' as u8 {
        Some(IntensityClass::Four)
    } else if a == '5' as u8 && b == '-' as u8 {
        Some(IntensityClass::FiveLower)
    } else if a == '5' as u8 && b == '+' as u8 {
        Some(IntensityClass::FiveUpper)
    } else if a == '6' as u8 && b == '-' as u8 {
        Some(IntensityClass::SixLower)
    } else if a == '6' as u8 && b == '+' as u8 {
        Some(IntensityClass::SixUpper)
    } else if a == '0' as u8 && b == '7' as u8 {
        Some(IntensityClass::Seven)
    } else {
        None
    }
}

pub fn decode_intensity(a: u8, b: u8) -> (r: Option<IntensityClass>)
    ensures
        r == spec_decode_intensity(a, b),
{
    if a == '0' as u8 && b == '1' as u8 {
        Some(IntensityClass::One)
    } else if a == '0' as u8 && b == '2' as u8 {
        Some(IntensityClass::Two)
    } else if a == '0' as u8 && b == '3' as u8 {
        Some(IntensityClass::Three)
    } else if a == '0' as u8 && b == '4' as u8 {
        Some(IntensityClass::Four)
    } else if a == '5' as u8 && b == '-' as u8 {
        Some(IntensityClass::FiveLower)
    } else if a == '5' as u8 && b == '+' as u8 {
        Some(IntensityClass::FiveUpper)
    } else if a == '6' as u8 && b == '-' as u8 {
        Some(IntensityClass::SixLower)
    } else if a == '6' as u8 && b == '+' as u8 {
        Some(IntensityClass::SixUpper)
    } else if a == '0' as u8 && b == '7' as u8 {
        Some(IntensityClass::Seven)
    } else {
        None
    }
}

} // verus!
