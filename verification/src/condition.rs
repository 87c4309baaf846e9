//! Conditions that decide whether a report is passed on to a destination.

use crate::eew::{EEWDetail, EEWDetailView, EEWPhase, EEWView, IntensityClass, EEW};
use vstd::prelude::*;

verus! {

/// The views of an optional report.
pub open spec fn view_of(prev: Option<&EEW>) -> Option<EEWView> {
    match prev {
        Some(p) => Some(p@),
        None => None,
    }
}

/// A predicate over the report at hand and the report that the same
/// destination let through before it for the same earthquake.
pub trait Condition {
    spec fn holds(&self, latest: EEWView, prev: Option<EEWView>) -> bool;

    fn is_satisfied(&self, latest: &EEW, prev: Option<&EEW>) -> (r: bool)
        ensures
            r == self.holds(latest@, view_of(prev)),
    ;
}

/// A condition that gives the same answer for every report.
#[derive(PartialEq, Eq, Debug, Clone, Copy, Structural)]
pub enum ConstantCondition {
    Never,
    Always,
}

pub const TRUE_CONDITION: ConstantCondition = ConstantCondition::Always;

pub const FALSE_CONDITION: ConstantCondition = ConstantCondition::Never;

impl Condition for ConstantCondition {
    open spec fn holds(&self, latest: EEWView, prev: Option<EEWView>) -> bool {
        *self == ConstantCondition::Always
    }

    fn is_satisfied(&self, latest: &EEW, prev: Option<&EEW>) -> (r: bool) {
        match self {
            ConstantCondition::Always => true,
            ConstantCondition::Never => false,
        }
    }
}

/// A condition that holds where at least one of its clauses holds.
pub struct DisjunctiveCondition<C> {
    pub clauses: Vec<C>,
}

impl<C> DisjunctiveCondition<C> {
    pub fn new(clauses: Vec<C>) -> (r: DisjunctiveCondition<C>)
        ensures
            r.clauses == clauses,
    {
        DisjunctiveCondition { clauses: clauses }
    }
}

impl<C: Condition> Condition for DisjunctiveCondition<C> {
    open spec fn holds(&self, latest: EEWView, prev: Option<EEWView>) -> bool {
        exists|i: int| 0 <= i < self.clauses@.len() && (#[trigger] self.clauses@[i]).holds(latest, prev)
    }

    fn is_satisfied(&self, latest: &EEW, prev: Option<&EEW>) -> (r: bool) {
        let mut i: usize = 0;
        while i < self.clauses.len()
            invariant
                i <= self.clauses@.len(),
                forall|k: int| 0 <= k < i ==> !(#[trigger] self.clauses@[k]).holds(latest@, view_of(prev)),
            decreases self.clauses@.len() - i,
        {
            if self.clauses[i].is_satisfied(latest, prev) {
                return true;
            }
            i = i + 1;
        }
        false
    }
}

impl<C> From<Vec<C>> for DisjunctiveCondition<C> {
    fn from(clauses: Vec<C>) -> (r: DisjunctiveCondition<C>) {
        DisjunctiveCondition { clauses: clauses }
    }
}

impl<C> vstd::std_specs::convert::FromSpecImpl<Vec<C>> for DisjunctiveCondition<C> {
    open spec fn obeys_from_spec() -> bool {
        true
    }

    open spec fn from_spec(clauses: Vec<C>) -> DisjunctiveCondition<C> {
        DisjunctiveCondition { clauses: clauses }
    }
}

/// A disjunction without clauses holds of nothing.
pub proof fn lemma_empty_disjunction_is_false<C: Condition>(
    cond: DisjunctiveCondition<C>,
    latest: EEWView,
    prev: Option<EEWView>,
)
    requires
        cond.clauses@.len() == 0,
    ensures
        !cond.holds(latest, prev),
{
}

/// A disjunction of a single clause holds exactly where that clause holds:
/// over the constant true it is true, over the constant false it is false.
pub proof fn lemma_single_disjunction<C: Condition>(
    cond: DisjunctiveCondition<C>,
    latest: EEWView,
    prev: Option<EEWView>,
)
    requires
        cond.clauses@.len() == 1,
    ensures
        cond.holds(latest, prev) == cond.clauses@[0].holds(latest, prev),
{
    if cond.clauses@[0].holds(latest, prev) {
        assert(cond.holds(latest, prev));
    }
}

/// A disjunction holds as soon as one clause holds, and fails where every
/// clause fails.
pub proof fn lemma_disjunction_by_clauses<C: Condition>(
    cond: DisjunctiveCondition<C>,
    latest: EEWView,
    prev: Option<EEWView>,
    i: int,
)
    requires
        0 <= i < cond.clauses@.len(),
    ensures
        cond.clauses@[i].holds(latest, prev) ==> cond.holds(latest, prev),
        (forall|k: int| 0 <= k < cond.clauses@.len() ==> !(#[trigger] cond.clauses@[k]).holds(latest, prev))
            ==> !cond.holds(latest, prev),
{
}

/// A bundle of optional tests. A test that is absent asks for nothing; the
/// tests that are present all have to pass.
#[derive(PartialEq, Eq, Debug, Clone, Copy, Structural)]
pub struct ValueCondition {
    /// No report was let through before this one.
    pub first: Option<bool>,
    /// Some report was let through before this one.
    pub succeeding: Option<bool>,
    pub alert: Option<bool>,
    pub last: Option<bool>,
    pub cancel: Option<bool>,
    pub drill: Option<bool>,
    pub test: Option<bool>,
    pub phase_changed: Option<bool>,
    pub epicenter_name_changed: Option<bool>,
    /// Least magnitude, in tenths.
    pub magnitude_over: Option<u32>,
    pub intensity_over: Option<IntensityClass>,
    /// Least number of grades by which the maximum intensity rose.
    pub intensity_up: Option<u8>,
    /// Least number of grades by which the maximum intensity fell.
    pub intensity_down: Option<u8>,
}

/// A yes-or-no test: absent, or equal to what was observed.
pub open spec fn spec_test_bool(expected: Option<bool>, actual: bool) -> bool {
    match expected {
        None => true,
        Some(v) => v == actual,
    }
}

pub fn test_bool(expected: Option<bool>, actual: bool) -> (r: bool)
    ensures
        r == spec_test_bool(expected, actual),
{
    match expected {
        None => true,
        Some(v) => v == actual,
    }
}

/// Rank of an optional maximum intensity, with -1 for an unknown one.
pub open spec fn rank_or_unknown(intensity: Option<IntensityClass>) -> int {
    match intensity {
        Some(i) => i.rank(),
        None => -1,
    }
}

fn rank_of(intensity: Option<IntensityClass>) -> (r: i32)
    ensures
        r == rank_or_unknown(intensity),
{
    match intensity {
        Some(i) => i.ord(),
        None => -1,
    }
}

/// The magnitude is known and at least `least`.
pub open spec fn magnitude_reaches(least: Option<u32>, latest: EEWView) -> bool {
    match least {
        None => true,
        Some(v) => match latest.detail {
            Some(d) => match d.magnitude {
                Some(m) => m >= v,
                None => false,
            },
            None => false,
        },
    }
}

/// The maximum intensity is known and at least `least`.
pub open spec fn intensity_reaches(least: Option<IntensityClass>, latest: EEWView) -> bool {
    match least {
        None => true,
        Some(v) => match latest.detail {
            Some(d) => match d.maximum_intensity {
                Some(m) => m.rank() >= v.rank(),
                None => false,
            },
            None => false,
        },
    }
}

/// The phase differs from that of the previous report, or not, as `expected` asks.
pub open spec fn phase_change_matches(expected: Option<bool>, latest: EEWView, prev: Option<EEWView>) -> bool {
    match (expected, prev) {
        (None, _) => true,
        (Some(_), None) => false,
        (Some(v), Some(p)) => (latest.phase() != p.phase()) == v,
    }
}

/// The two details that a test on both reports looks at.
pub open spec fn both_details(latest: EEWView, prev: Option<EEWView>) -> Option<(EEWDetailView, EEWDetailView)> {
    match prev {
        Some(p) => match (latest.detail, p.detail) {
            (Some(ld), Some(pd)) => Some((ld, pd)),
            _ => None,
        },
        None => None,
    }
}

pub open spec fn epicenter_change_matches(expected: Option<bool>, latest: EEWView, prev: Option<EEWView>) -> bool {
    match expected {
        None => true,
        Some(v) => match both_details(latest, prev) {
            Some((ld, pd)) => (ld.epicenter_name != pd.epicenter_name) == v,
            None => false,
        },
    }
}

/// The maximum intensity rose by `least` grades or more.
pub open spec fn intensity_rose(least: Option<u8>, latest: EEWView, prev: Option<EEWView>) -> bool {
    match least {
        None => true,
        Some(v) => match both_details(latest, prev) {
            Some((ld, pd)) => rank_or_unknown(ld.maximum_intensity) - rank_or_unknown(
                pd.maximum_intensity,
            ) >= v,
            None => false,
        },
    }
}

/// The maximum intensity fell by `least` grades or more.
pub open spec fn intensity_fell(least: Option<u8>, latest: EEWView, prev: Option<EEWView>) -> bool {
    match least {
        None => true,
        Some(v) => match both_details(latest, prev) {
            Some((ld, pd)) => rank_or_unknown(pd.maximum_intensity) - rank_or_unknown(
                ld.maximum_intensity,
            ) >= v,
            None => false,
        },
    }
}

fn details_of<'a>(latest: &'a EEW, prev: Option<&'a EEW>) -> (r: Option<(&'a EEWDetail, &'a EEWDetail)>)
    ensures
        match r {
            Some((ld, pd)) => both_details(latest@, view_of(prev)) == Some((ld@, pd@)),
            None => both_details(latest@, view_of(prev)) is None,
        },
{
    match prev {
        Some(p) => match (&latest.detail, &p.detail) {
            (Some(ld), Some(pd)) => Some((ld, pd)),
            _ => None,
        },
        None => None,
    }
}

impl Condition for ValueCondition {
    open spec fn holds(&self, latest: EEWView, prev: Option<EEWView>) -> bool {
        &&& spec_test_bool(self.first, prev is None)
        &&& spec_test_bool(self.succeeding, prev is Some)
        &&& spec_test_bool(self.alert, latest.phase() == Some(EEWPhase::Alert))
        &&& spec_test_bool(self.last, latest.is_last())
        &&& spec_test_bool(self.cancel, latest.phase() == Some(EEWPhase::Cancel))
        &&& spec_test_bool(self.drill, latest.is_drill())
        &&& spec_test_bool(self.test, latest.is_test())
        &&& magnitude_reaches(self.magnitude_over, latest)
        &&& intensity_reaches(self.intensity_over, latest)
        &&& phase_change_matches(self.phase_changed, latest, prev)
        &&& epicenter_change_matches(self.epicenter_name_changed, latest, prev)
        &&& intensity_rose(self.intensity_up, latest, prev)
        &&& intensity_fell(self.intensity_down, latest, prev)
    }

    fn is_satisfied(&self, latest: &EEW, prev: Option<&EEW>) -> (r: bool) {
        let phase = latest.get_eew_phase();
        let magnitude_ok = match self.magnitude_over {
            None => true,
            Some(v) => match &latest.detail {
                Some(d) => match d.magnitude {
                    Some(m) => m >= v,
                    None => false,
                },
                None => false,
            },
        };
        let intensity_ok = match self.intensity_over {
            None => true,
            Some(v) => match &latest.detail {
                Some(d) => match d.maximum_intensity {
                    Some(m) => m.ord() >= v.ord(),
                    None => false,
                },
                None => false,
            },
        };
        let phase_ok = match (self.phase_changed, prev) {
            (None, _) => true,
            (Some(_), None) => false,
            (Some(v), Some(p)) => (phase != p.get_eew_phase()) == v,
        };
        let details = details_of(latest, prev);
        let name_ok = match self.epicenter_name_changed {
            None => true,
            Some(v) => match details {
                Some((ld, pd)) => (ld.epicenter_name != pd.epicenter_name) == v,
                None => false,
            },
        };
        let up_ok = match self.intensity_up {
            None => true,
            Some(v) => match details {
                Some((ld, pd)) => rank_of(ld.maximum_intensity) - rank_of(pd.maximum_intensity)
                    >= v as i32,
                None => false,
            },
        };
        let down_ok = match self.intensity_down {
            None => true,
            Some(v) => match details {
                Some((ld, pd)) => rank_of(pd.maximum_intensity) - rank_of(ld.maximum_intensity)
                    >= v as i32,
                None => false,
            },
        };
        test_bool(self.first, prev.is_none()) && test_bool(self.succeeding, prev.is_some())
            && test_bool(self.alert, phase == Some(EEWPhase::Alert)) && test_bool(
            self.last,
            latest.is_last(),
        ) && test_bool(self.cancel, phase == Some(EEWPhase::Cancel)) && test_bool(
            self.drill,
            latest.is_drill(),
        ) && test_bool(self.test, latest.is_test()) && magnitude_ok && intensity_ok && phase_ok
            && name_ok && up_ok && down_ok
    }
}

impl ValueCondition {
    /// The condition that asks for nothing.
    pub open spec fn unset() -> ValueCondition {
        ValueCondition {
            first: None,
            succeeding: None,
            alert: None,
            last: None,
            cancel: None,
            drill: None,
            test: None,
            phase_changed: None,
            epicenter_name_changed: None,
            magnitude_over: None,
            intensity_over: None,
            intensity_up: None,
            intensity_down: None,
        }
    }

    /// A condition without any test holds of every report, whatever came before.
    pub proof fn lemma_unset_always_holds(latest: EEWView, prev: Option<EEWView>)
        ensures
            Self::unset().holds(latest, prev),
    {
    }
}

} // verus!
