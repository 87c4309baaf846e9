//! The earthquake early warning event and what can be derived from it.

use vstd::prelude::*;

verus! {

#[derive(PartialEq, Eq, Debug, Clone, Copy, Structural)]
pub enum IssuePattern {
    Cancel,
    IntensityOnly,
    LowAccuracy,
    HighAccuracy,
}

#[derive(PartialEq, Eq, Debug, Clone, Copy, Structural)]
pub enum Source {
    Tokyo,
    Osaka,
}

#[derive(PartialEq, Eq, Debug, Clone, Copy, Structural)]
pub enum Kind {
    Normal,
    Drill,
    Cancel,
    DrillCancel,
    Reference,
    Trial,
}

#[derive(PartialEq, Eq, Debug, Clone, Copy, Structural)]
pub enum Status {
    Normal,
    Correction,
    CancelCorrection,
    LastWithCorrection,
    Last,
    Unknown,
}

#[derive(PartialEq, Eq, Debug, Clone, Copy, Structural)]
pub enum EpicenterAccuracy {
    Single,
    Territory,
    GridSearchLow,
    GridSearchHigh,
    NIEDLow,
    NIEDHigh,
    EPOSLow,
    EPOSHigh,
    Unknown,
}

#[derive(PartialEq, Eq, Debug, Clone, Copy, Structural)]
pub enum DepthAccuracy {
    Single,
    Territory,
    GridSearchLow,
    GridSearchHigh,
    NIEDLow,
    NIEDHigh,
    EPOSLow,
    EPOSHigh,
    Unknown,
}

#[derive(PartialEq, Eq, Debug, Clone, Copy, Structural)]
pub enum MagnitudeAccuracy {
    NIED,
    PWave,
    PSMixed,
    SWave,
    EPOS,
    Level,
    Unknown,
}

#[derive(PartialEq, Eq, Debug, Clone, Copy, Structural)]
pub enum EpicenterCategory {
    Land,
    Sea,
    Unknown,
}

#[derive(PartialEq, Eq, Debug, Clone, Copy, Structural)]
pub enum WarningStatus {
    Forecast,
    Alert,
    Unknown,
}

#[derive(PartialEq, Eq, Debug, Clone, Copy, Structural)]
pub enum IntensityChange {
    Same,
    Up,
    Down,
    Unknown,
}

#[derive(PartialEq, Eq, Debug, Clone, Copy, Structural)]
pub enum ChangeReason {
    Nothing,
    Magnitude,
    Epicenter,
    Mixed,
    Depth,
    Unknown,
}

#[derive(PartialEq, Eq, Debug, Clone, Copy, Structural)]
pub enum WaveStatus {
    Unreached,
    Reached,
    Unknown,
}

/// The ten grades of the seismic intensity scale, weakest first.
#[derive(Ord, PartialOrd, Eq, PartialEq, Debug, Clone, Copy, Structural)]
pub enum IntensityClass {
    Zero,
    One,
    Two,
    Three,
    Four,
    FiveLower,
    FiveUpper,
    SixLower,
    SixUpper,
    Seven,
}

impl IntensityClass {
    /// Position of the grade on the scale, 0 for the weakest and 9 for the strongest.
    pub open spec fn rank(self) -> int {
        match self {
            IntensityClass::Zero => 0,
            IntensityClass::One => 1,
            IntensityClass::Two => 2,
            IntensityClass::Three => 3,
            IntensityClass::Four => 4,
            IntensityClass::FiveLower => 5,
            IntensityClass::FiveUpper => 6,
            IntensityClass::SixLower => 7,
            IntensityClass::SixUpper => 8,
            IntensityClass::Seven => 9,
        }
    }

    /// The grade of a measured intensity given in tenths: each grade covers a
    /// band that includes its lower bound and excludes its upper bound.
    pub open spec fn of_tenths(tenths: int) -> IntensityClass {
        if tenths < 5 {
            IntensityClass::Zero
        } else if tenths < 15 {
            IntensityClass::One
        } else if tenths < 25 {
            IntensityClass::Two
        } else if tenths < 35 {
            IntensityClass::Three
        } else if tenths < 45 {
            IntensityClass::Four
        } else if tenths < 50 {
            IntensityClass::FiveLower
        } else if tenths < 55 {
            IntensityClass::FiveUpper
        } else if tenths < 60 {
            IntensityClass::SixLower
        } else if tenths < 65 {
            IntensityClass::SixUpper
        } else {
            IntensityClass::Seven
        }
    }

    /// Classifies a measured intensity given in tenths of a unit
    /// (`45` stands for 4.5).
    pub fn new(tenths: i32) -> (class: IntensityClass)
        ensures
            class == Self::of_tenths(tenths as int),
    {
        if tenths < 5 {
            IntensityClass::Zero
        } else if tenths < 15 {
            IntensityClass::One
        } else if tenths < 25 {
            IntensityClass::Two
        } else if tenths < 35 {
            IntensityClass::Three
        } else if tenths < 45 {
            IntensityClass::Four
        } else if tenths < 50 {
            IntensityClass::FiveLower
        } else if tenths < 55 {
            IntensityClass::FiveUpper
        } else if tenths < 60 {
            IntensityClass::SixLower
        } else if tenths < 65 {
            IntensityClass::SixUpper
        } else {
            IntensityClass::Seven
        }
    }

    pub fn ord(&self) -> (r: i32)
        ensures
            r == self.rank(),
    {
        match *self {
            IntensityClass::Zero => 0,
            IntensityClass::One => 1,
            IntensityClass::Two => 2,
            IntensityClass::Three => 3,
            IntensityClass::Four => 4,
            IntensityClass::FiveLower => 5,
            IntensityClass::FiveUpper => 6,
            IntensityClass::SixLower => 7,
            IntensityClass::SixUpper => 8,
            IntensityClass::Seven => 9,
        }
    }

    /// A stronger measurement never gets a weaker grade.
    pub proof fn lemma_of_tenths_monotonic(x: int, y: int)
        requires
            x <= y,
        ensures
            Self::of_tenths(x).rank() <= Self::of_tenths(y).rank(),
    {
    }

    /// The grade changes exactly at the band boundaries: a value on a
    /// boundary belongs to the upper band, the value just below it to the lower.
    pub proof fn lemma_of_tenths_boundaries()
        ensures
            Self::of_tenths(4) == IntensityClass::Zero,
            Self::of_tenths(5) == IntensityClass::One,
            Self::of_tenths(14) == IntensityClass::One,
            Self::of_tenths(15) == IntensityClass::Two,
            Self::of_tenths(24) == IntensityClass::Two,
            Self::of_tenths(25) == IntensityClass::Three,
            Self::of_tenths(34) == IntensityClass::Three,
            Self::of_tenths(35) == IntensityClass::Four,
            Self::of_tenths(44) == IntensityClass::Four,
            Self::of_tenths(45) == IntensityClass::FiveLower,
            Self::of_tenths(49) == IntensityClass::FiveLower,
            Self::of_tenths(50) == IntensityClass::FiveUpper,
            Self::of_tenths(54) == IntensityClass::FiveUpper,
            Self::of_tenths(55) == IntensityClass::SixLower,
            Self::of_tenths(59) == IntensityClass::SixLower,
            Self::of_tenths(60) == IntensityClass::SixUpper,
            Self::of_tenths(64) == IntensityClass::SixUpper,
            Self::of_tenths(65) == IntensityClass::Seven,
    {
    }
}

/// The forecast for one area.
#[derive(PartialEq, Debug)]
pub struct AreaEEW {
    pub area_name: String,
    pub minimum_intensity: IntensityClass,
    /// Absent when the forecast is a single grade.
    pub maximum_intensity: Option<IntensityClass>,
    /// Expected arrival, in seconds since the Unix epoch; absent when unknown.
    pub reach_at: Option<i64>,
    pub warning_status: WarningStatus,
    pub wave_status: WaveStatus,
}

impl Clone for AreaEEW {
    fn clone(&self) -> (r: AreaEEW)
        ensures
            r@ == self@,
    {
        AreaEEW {
            area_name: self.area_name.clone(),
            minimum_intensity: self.minimum_intensity,
            maximum_intensity: self.maximum_intensity,
            reach_at: self.reach_at,
            warning_status: self.warning_status,
            wave_status: self.wave_status,
        }
    }
}

pub struct AreaEEWView {
    pub area_name: Seq<char>,
    pub minimum_intensity: IntensityClass,
    pub maximum_intensity: Option<IntensityClass>,
    pub reach_at: Option<i64>,
    pub warning_status: WarningStatus,
    pub wave_status: WaveStatus,
}

impl View for AreaEEW {
    type V = AreaEEWView;

    open spec fn view(&self) -> AreaEEWView {
        AreaEEWView {
            area_name: self.area_name@,
            minimum_intensity: self.minimum_intensity,
            maximum_intensity: self.maximum_intensity,
            reach_at: self.reach_at,
            warning_status: self.warning_status,
            wave_status: self.wave_status,
        }
    }
}

/// What a report says about the earthquake itself.
#[derive(PartialEq, Debug)]
pub struct EEWDetail {
    pub epicenter_name: String,
    /// Latitude and longitude in tenths of a degree; south and west are negative.
    pub epicenter: (i32, i32),
    /// Depth in kilometres.
    pub depth: Option<u32>,
    /// Magnitude in tenths.
    pub magnitude: Option<u32>,
    pub maximum_intensity: Option<IntensityClass>,
    pub epicenter_accuracy: EpicenterAccuracy,
    pub depth_accuracy: DepthAccuracy,
    pub magnitude_accuracy: MagnitudeAccuracy,
    pub epicenter_category: EpicenterCategory,
    pub warning_status: WarningStatus,
    pub intensity_change: IntensityChange,
    pub change_reason: ChangeReason,
    pub area_info: Vec<AreaEEW>,
}

impl Clone for EEWDetail {
    fn clone(&self) -> (r: EEWDetail)
        ensures
            r@ == self@,
    {
        let mut area_info: Vec<AreaEEW> = Vec::new();
        let mut i: usize = 0;
        while i < self.area_info.len()
            invariant
                i <= self.area_info@.len(),
                area_info@.len() == i,
                forall|k: int| 0 <= k < i ==> (#[trigger] area_info@[k])@ == self.area_info@[k]@,
            decreases self.area_info@.len() - i,
        {
            area_info.push(self.area_info[i].clone());
            i = i + 1;
        }
        assert(area_info@.map_values(|a: AreaEEW| a@) =~= self.area_info@.map_values(
            |a: AreaEEW| a@,
        ));
        EEWDetail {
            epicenter_name: self.epicenter_name.clone(),
            epicenter: (self.epicenter.0, self.epicenter.1),
            depth: self.depth,
            magnitude: self.magnitude,
            maximum_intensity: self.maximum_intensity,
            epicenter_accuracy: self.epicenter_accuracy,
            depth_accuracy: self.depth_accuracy,
            magnitude_accuracy: self.magnitude_accuracy,
            epicenter_category: self.epicenter_category,
            warning_status: self.warning_status,
            intensity_change: self.intensity_change,
            change_reason: self.change_reason,
            area_info: area_info,
        }
    }
}

pub struct EEWDetailView {
    pub epicenter_name: Seq<char>,
    pub epicenter: (i32, i32),
    pub depth: Option<u32>,
    pub magnitude: Option<u32>,
    pub maximum_intensity: Option<IntensityClass>,
    pub epicenter_accuracy: EpicenterAccuracy,
    pub depth_accuracy: DepthAccuracy,
    pub magnitude_accuracy: MagnitudeAccuracy,
    pub epicenter_category: EpicenterCategory,
    pub warning_status: WarningStatus,
    pub intensity_change: IntensityChange,
    pub change_reason: ChangeReason,
    pub area_info: Seq<AreaEEWView>,
}

impl View for EEWDetail {
    type V = EEWDetailView;

    open spec fn view(&self) -> EEWDetailView {
        EEWDetailView {
            epicenter_name: self.epicenter_name@,
            epicenter: self.epicenter,
            depth: self.depth,
            magnitude: self.magnitude,
            maximum_intensity: self.maximum_intensity,
            epicenter_accuracy: self.epicenter_accuracy,
            depth_accuracy: self.depth_accuracy,
            magnitude_accuracy: self.magnitude_accuracy,
            epicenter_category: self.epicenter_category,
            warning_status: self.warning_status,
            intensity_change: self.intensity_change,
            change_reason: self.change_reason,
            area_info: self.area_info@.map_values(|a: AreaEEW| a@),
        }
    }
}

/// One report of an earthquake early warning.
#[derive(PartialEq, Debug)]
pub struct EEW {
    pub issue_pattern: IssuePattern,
    pub source: Source,
    pub kind: Kind,
    /// Seconds since the Unix epoch.
    pub issued_at: i64,
    /// Seconds since the Unix epoch.
    pub occurred_at: i64,
    pub id: String,
    pub status: Status,
    pub number: u32,
    pub detail: Option<EEWDetail>,
}

impl Clone for EEW {
    fn clone(&self) -> (r: EEW)
        ensures
            r@ == self@,
    {
        EEW {
            issue_pattern: self.issue_pattern,
            source: self.source,
            kind: self.kind,
            issued_at: self.issued_at,
            occurred_at: self.occurred_at,
            id: self.id.clone(),
            status: self.status,
            number: self.number,
            detail: match &self.detail {
                Some(d) => Some(d.clone()),
                None => None,
            },
        }
    }
}

pub struct EEWView {
    pub issue_pattern: IssuePattern,
    pub source: Source,
    pub kind: Kind,
    pub issued_at: i64,
    pub occurred_at: i64,
    pub id: Seq<char>,
    pub status: Status,
    pub number: u32,
    pub detail: Option<EEWDetailView>,
}

impl View for EEW {
    type V = EEWView;

    open spec fn view(&self) -> EEWView {
        EEWView {
            issue_pattern: self.issue_pattern,
            source: self.source,
            kind: self.kind,
            issued_at: self.issued_at,
            occurred_at: self.occurred_at,
            id: self.id@,
            status: self.status,
            number: self.number,
            detail: match self.detail {
                Some(d) => Some(d@),
                None => None,
            },
        }
    }
}

/// The stage of its life cycle that a report stands for.
#[derive(Ord, PartialOrd, Eq, PartialEq, Debug, Clone, Copy, Structural)]
pub enum EEWPhase {
    Cancel,
    FastForecast,
    Forecast,
    Alert,
}

impl EEWView {
    pub open spec fn phase(self) -> Option<EEWPhase> {
        match self.kind {
            Kind::Cancel | Kind::DrillCancel => Some(EEWPhase::Cancel),
            _ => match self.detail {
                Some(d) => match d.warning_status {
                    WarningStatus::Alert => Some(EEWPhase::Alert),
                    WarningStatus::Forecast => match self.issue_pattern {
                        IssuePattern::IntensityOnly | IssuePattern::LowAccuracy => Some(
                            EEWPhase::FastForecast,
                        ),
                        IssuePattern::HighAccuracy => Some(EEWPhase::Forecast),
                        IssuePattern::Cancel => None,
                    },
                    WarningStatus::Unknown => None,
                },
                None => None,
            },
        }
    }

    pub open spec fn is_high_accuracy(self) -> bool {
        self.issue_pattern == IssuePattern::HighAccuracy
    }

    pub open spec fn is_last(self) -> bool {
        self.status == Status::Last || self.status == Status::LastWithCorrection
    }

    pub open spec fn is_drill(self) -> bool {
        self.kind == Kind::Drill || self.kind == Kind::DrillCancel
    }

    pub open spec fn is_test(self) -> bool {
        self.kind == Kind::Reference || self.kind == Kind::Trial
    }

    /// `other` supersedes `self`: both are about the same earthquake and
    /// `other` has a higher number, or the same number while cancelling a
    /// report that was not itself a cancellation.
    pub open spec fn is_succeeded_by(self, other: EEWView) -> bool {
        self.id == other.id && (self.number < other.number || (self.number == other.number
            && self.phase() != Some(EEWPhase::Cancel) && other.phase() == Some(EEWPhase::Cancel)))
    }

    /// A cancellation carries no detail and every other report does; the
    /// number is positive.
    pub open spec fn is_consistent(self) -> bool {
        &&& self.number >= 1
        &&& self.detail is None <==> (self.issue_pattern == IssuePattern::Cancel || self.kind
            == Kind::Cancel || self.kind == Kind::DrillCancel)
    }
}

impl EEW {
    pub fn get_eew_phase(&self) -> (phase: Option<EEWPhase>)
        ensures
            phase == self@.phase(),
    {
        match self.kind {
            Kind::Cancel | Kind::DrillCancel => Some(EEWPhase::Cancel),
            Kind::Normal | Kind::Drill | Kind::Reference | Kind::Trial => {
                match &self.detail {
                    Some(d) => match d.warning_status {
                        WarningStatus::Alert => Some(EEWPhase::Alert),
                        WarningStatus::Forecast => match self.issue_pattern {
                            IssuePattern::IntensityOnly | IssuePattern::LowAccuracy => Some(
                                EEWPhase::FastForecast,
                            ),
                            IssuePattern::HighAccuracy => Some(EEWPhase::Forecast),
                            IssuePattern::Cancel => None,
                        },
                        WarningStatus::Unknown => None,
                    },
                    None => None,
                }
            },
        }
    }

    pub fn is_high_accuracy(&self) -> (r: bool)
        ensures
            r == self@.is_high_accuracy(),
    {
        self.issue_pattern == IssuePattern::HighAccuracy
    }

    pub fn is_last(&self) -> (r: bool)
        ensures
            r == self@.is_last(),
    {
        match self.status {
            Status::LastWithCorrection | Status::Last => true,
            _ => false,
        }
    }

    pub fn is_drill(&self) -> (r: bool)
        ensures
            r == self@.is_drill(),
    {
        self.kind == Kind::Drill || self.kind == Kind::DrillCancel
    }

    pub fn is_test(&self) -> (r: bool)
        ensures
            r == self@.is_test(),
    {
        self.kind == Kind::Reference || self.kind == Kind::Trial
    }

    pub fn is_succeeded_by(&self, eew: &EEW) -> (r: bool)
        ensures
            r == self@.is_succeeded_by(eew@),
    {
        if self.id != eew.id {
            false
        } else if self.number != eew.number {
            self.number < eew.number
        } else {
            match (self.get_eew_phase(), eew.get_eew_phase()) {
                (Some(EEWPhase::Cancel), _) => false,
                (_, Some(EEWPhase::Cancel)) => true,
                _ => false,
            }
        }
    }
}

/// Of two reports, at most one supersedes the other.
pub proof fn lemma_succession_antisymmetric(a: EEWView, b: EEWView)
    ensures
        !(a.is_succeeded_by(b) && b.is_succeeded_by(a)),
{
}

/// No report supersedes itself.
pub proof fn lemma_succession_irreflexive(a: EEWView)
    ensures
        !a.is_succeeded_by(a),
{
}

} // verus!
