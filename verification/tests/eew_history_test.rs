use chrono::{TimeZone, Utc};
use tina::{
    ChangeReason, DepthAccuracy, EEWDetail, EpicenterAccuracy, EpicenterCategory,
    IntensityChange, IntensityClass, IssuePattern, Kind, MagnitudeAccuracy, Source, Status,
    WarningStatus, EEW,
};
use tina::EEWHistory;

fn at(year: i32, month: u32, day: u32, hour: u32, min: u32, sec: u32) -> i64 {
    Utc.with_ymd_and_hms(year, month, day, hour, min, sec).unwrap().timestamp()
}

#[derive(PartialEq, Debug, Clone)]
struct EEWBuilder {
    issue_pattern: Option<IssuePattern>,
    kind: Option<Kind>,
    issued_at: Option<i64>,
    occurred_at: Option<i64>,
    id: Option<String>,
    status: Option<Status>,
    number: Option<u32>,
    detail_none: bool,
    epicenter_name: Option<String>,
    epicenter: Option<(i32, i32)>,
    depth: Option<Option<u32>>,
    magnitude: Option<Option<u32>>,
    maximum_intensity: Option<Option<IntensityClass>>,
    warning_status: Option<WarningStatus>,
}

#[allow(dead_code)]
impl EEWBuilder {
    fn new() -> Self {
        EEWBuilder {
            issue_pattern: None,
            kind: None,
            issued_at: None,
            occurred_at: None,
            id: None,
            status: None,
            number: None,
            detail_none: false,
            epicenter_name: None,
            epicenter: None,
            depth: None,
            magnitude: None,
            maximum_intensity: None,
            warning_status: None,
        }
    }

    fn issue_pattern(self, issue_pattern: IssuePattern) -> Self {
        Self { issue_pattern: Some(issue_pattern), ..self }
    }

    fn kind(self, kind: Kind) -> Self {
        Self { kind: Some(kind), ..self }
    }

    fn issued_at(self, issued_at: i64) -> Self {
        Self { issued_at: Some(issued_at), ..self }
    }

    fn occurred_at(self, occurred_at: i64) -> Self {
        Self { occurred_at: Some(occurred_at), ..self }
    }

    fn id(self, id: &str) -> Self {
        Self { id: Some(id.to_owned()), ..self }
    }

    fn status(self, status: Status) -> Self {
        Self { status: Some(status), ..self }
    }

    fn number(self, number: u32) -> Self {
        Self { number: Some(number), ..self }
    }

    fn detail_none(self) -> Self {
        Self { detail_none: true, ..self }
    }

    fn epicenter_name(self, name: &str) -> Self {
        Self { epicenter_name: Some(name.to_owned()), ..self }
    }

    fn epicenter(self, epicenter: (i32, i32)) -> Self {
        Self { epicenter: Some(epicenter), ..self }
    }

    fn depth(self, depth: Option<u32>) -> Self {
        Self { depth: Some(depth), ..self }
    }

    fn magnitude(self, magnitude: Option<u32>) -> Self {
        Self { magnitude: Some(magnitude), ..self }
    }

    fn maximum_intensity(self, maximum_intensity: Option<IntensityClass>) -> Self {
        Self { maximum_intensity: Some(maximum_intensity), ..self }
    }

    fn warning_status(self, warning_status: WarningStatus) -> Self {
        Self { warning_status: Some(warning_status), ..self }
    }

    fn build(self) -> EEW {
        let detail = EEWDetail {
            epicenter_name: self.epicenter_name.unwrap_or("奈良県".to_owned()),
            epicenter: self.epicenter.unwrap_or((344, 1357)),
            depth: self.depth.unwrap_or(Some(10)),
            magnitude: self.magnitude.unwrap_or(Some(59)),
            maximum_intensity: self.maximum_intensity.unwrap_or(Some(IntensityClass::FiveLower)),
            epicenter_accuracy: EpicenterAccuracy::GridSearchLow,
            depth_accuracy: DepthAccuracy::GridSearchLow,
            magnitude_accuracy: MagnitudeAccuracy::SWave,
            epicenter_category: EpicenterCategory::Land,
            warning_status: self.warning_status.unwrap_or(WarningStatus::Forecast),
            intensity_change: IntensityChange::Unknown,
            change_reason: ChangeReason::Unknown,
            area_info: vec![],
        };

        EEW {
            issue_pattern: self.issue_pattern.unwrap_or(IssuePattern::HighAccuracy),
            source: Source::Tokyo,
            kind: self.kind.unwrap_or(Kind::Normal),
            issued_at: self.issued_at.unwrap_or(at(2010, 1, 1, 1, 0, 2)),
            occurred_at: self.occurred_at.unwrap_or(at(2010, 1, 1, 0, 55, 59)),
            id: self.id.unwrap_or("ND20100101005559".to_owned()),
            status: self.status.unwrap_or(Status::Normal),
            number: self.number.unwrap_or(10),
            detail: if self.detail_none { None } else { Some(detail) },
        }
    }
}

fn append(his: &mut EEWHistory, eew: &EEW, ok: bool) {
    let result = his.append(eew.clone());
    let expected = if ok { Some(eew) } else { None };

    assert_eq!(result.as_ref().map(|arc| arc.as_ref()), expected);
}

#[test]
fn it_should_hold_eews() {
    let eew_a1 = EEWBuilder::new().id("A").number(1).build();
    let eew_a2 = EEWBuilder::new().id("A").number(2).build();
    let eew_a3 = EEWBuilder::new().id("A").number(3).build();
    let eew_b = EEWBuilder::new().id("B").number(1).build();

    let mut his = EEWHistory::new(2);

    append(&mut his, &eew_a1, true);
    append(&mut his, &eew_a2, true);
    append(&mut his, &eew_a3, true);
    append(&mut his, &eew_b, true);
}

#[test]
fn it_should_reject_non_successor_eew() {
    let eew_1 = EEWBuilder::new().id("A").number(1).build();
    let eew_2x = EEWBuilder::new().id("A").number(2).build();
    let eew_2y = EEWBuilder::new().id("A").number(2).build();
    let eew_3 = EEWBuilder::new().id("A").number(3).build();

    let mut his = EEWHistory::new(4);

    append(&mut his, &eew_1, true);
    append(&mut his, &eew_2x, true);
    append(&mut his, &eew_2y, false);
    append(&mut his, &eew_3, true);
}

#[test]
fn eew_history_test_it_should_erase_old_blocks_with_fifo_manner() {
    let eew_a1 = EEWBuilder::new().id("A").number(1).build();
    let eew_b1 = EEWBuilder::new().id("B").number(1).build();
    let eew_c1 = EEWBuilder::new().id("C").number(1).build();
    let eew_c2 = EEWBuilder::new().id("C").number(2).build();
    let eew_d1 = EEWBuilder::new().id("D").number(1).build();
    let eew_d2 = EEWBuilder::new().id("D").number(2).build();

    let mut his = EEWHistory::new(3);

    append(&mut his, &eew_a1, true);
    append(&mut his, &eew_b1, true);
    append(&mut his, &eew_c1, true);
    append(&mut his, &eew_c2, true);

    append(&mut his, &eew_a1, false);
    append(&mut his, &eew_b1, false);

    append(&mut his, &eew_d1, true);
    append(&mut his, &eew_d2, true);

    append(&mut his, &eew_a1, true);
    append(&mut his, &eew_b1, true);
}

#[test]
fn history_rejects_reordering() {
    let mut his = EEWHistory::new(128);
    append(&mut his, &EEWBuilder::new().id("A").number(1).build(), true);
    append(&mut his, &EEWBuilder::new().id("A").number(3).build(), true);
    append(&mut his, &EEWBuilder::new().id("A").number(2).build(), false);
    append(&mut his, &EEWBuilder::new().id("A").number(3).build(), false);
}

#[test]
fn history_lets_cancel_override_an_equal_numbered_report() {
    let mut his = EEWHistory::new(128);
    let normal = EEWBuilder::new().id("A").number(2).build();
    let cancel = EEWBuilder::new()
        .id("A")
        .number(2)
        .issue_pattern(IssuePattern::Cancel)
        .kind(Kind::Cancel)
        .detail_none()
        .build();
    append(&mut his, &normal, true);
    append(&mut his, &cancel, true);
    append(&mut his, &cancel, false);
    append(&mut his, &normal, false);
}

#[test]
fn history_refuses_a_report_it_took_in_however_often_it_comes() {
    let mut his = EEWHistory::new(1);
    let eew = EEWBuilder::new().id("A").number(7).build();
    append(&mut his, &eew, true);
    for _ in 0..5 {
        append(&mut his, &eew, false);
    }
}

#[test]
fn history_hands_back_the_report_unchanged() {
    let mut his = EEWHistory::new(2);
    let eew = EEWBuilder::new()
        .id("A")
        .number(4)
        .kind(Kind::Drill)
        .status(Status::Last)
        .warning_status(WarningStatus::Alert)
        .build();
    let shared = his.append(eew.clone()).unwrap();
    assert_eq!(shared.id, eew.id);
    assert_eq!(shared.number, eew.number);
    assert_eq!(shared.get_eew_phase(), eew.get_eew_phase());
    assert_eq!(shared.is_last(), eew.is_last());
    assert_eq!(shared.is_drill(), eew.is_drill());
    assert_eq!(shared.is_test(), eew.is_test());
}
