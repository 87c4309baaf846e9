use chrono::{TimeZone, Utc};
use tina::{
    ChangeReason, DepthAccuracy, EEWDetail, EpicenterAccuracy, EpicenterCategory,
    IntensityChange, IntensityClass, IssuePattern, Kind, MagnitudeAccuracy, Source, Status,
    WarningStatus, EEW,
};
use tina::ja_format_eew_short;

fn at(year: i32, month: u32, day: u32, hour: u32, min: u32, sec: u32) -> i64 {
    Utc.with_ymd_and_hms(year, month, day, hour, min, sec).unwrap().timestamp()
}

#[derive(PartialEq, Debug, Clone)]
struct EEWBuilder {
    issue_pattern: Option<IssuePattern>,
    kind: Option<Kind>,
    issued_at: Option<i64>,
    occurred_at: Option<i64>,
    id: Option<String>,
    status: Option<Status>,
    number: Option<u32>,
    detail_none: bool,
    epicenter_name: Option<String>,
    epicenter: Option<(i32, i32)>,
    depth: Option<Option<u32>>,
    magnitude: Option<Option<u32>>,
    maximum_intensity: Option<Option<IntensityClass>>,
    warning_status: Option<WarningStatus>,
}

#[allow(dead_code)]
impl EEWBuilder {
    fn new() -> Self {
        EEWBuilder {
            issue_pattern: None,
            kind: None,
            issued_at: None,
            occurred_at: None,
            id: None,
            status: None,
            number: None,
            detail_none: false,
            epicenter_name: None,
            epicenter: None,
            depth: None,
            magnitude: None,
            maximum_intensity: None,
            warning_status: None,
        }
    }

    fn issue_pattern(self, issue_pattern: IssuePattern) -> Self {
        Self { issue_pattern: Some(issue_pattern), ..self }
    }

    fn kind(self, kind: Kind) -> Self {
        Self { kind: Some(kind), ..self }
    }

    fn issued_at(self, issued_at: i64) -> Self {
        Self { issued_at: Some(issued_at), ..self }
    }

    fn occurred_at(self, occurred_at: i64) -> Self {
        Self { occurred_at: Some(occurred_at), ..self }
    }

    fn id(self, id: &str) -> Self {
        Self { id: Some(id.to_owned()), ..self }
    }

    fn status(self, status: Status) -> Self {
        Self { status: Some(status), ..self }
    }

    fn number(self, number: u32) -> Self {
        Self { number: Some(number), ..self }
    }

    fn detail_none(self) -> Self {
        Self { detail_none: true, ..self }
    }

    fn epicenter_name(self, name: &str) -> Self {
        Self { epicenter_name: Some(name.to_owned()), ..self }
    }

    fn epicenter(self, epicenter: (i32, i32)) -> Self {
        Self { epicenter: Some(epicenter), ..self }
    }

    fn depth(self, depth: Option<u32>) -> Self {
        Self { depth: Some(depth), ..self }
    }

    fn magnitude(self, magnitude: Option<u32>) -> Self {
        Self { magnitude: Some(magnitude), ..self }
    }

    fn maximum_intensity(self, maximum_intensity: Option<IntensityClass>) -> Self {
        Self { maximum_intensity: Some(maximum_intensity), ..self }
    }

    fn warning_status(self, warning_status: WarningStatus) -> Self {
        Self { warning_status: Some(warning_status), ..self }
    }

    fn build(self) -> EEW {
        let detail = EEWDetail {
            epicenter_name: self.epicenter_name.unwrap_or("奈良県".to_owned()),
            epicenter: self.epicenter.unwrap_or((344, 1357)),
            depth: self.depth.unwrap_or(Some(10)),
            magnitude: self.magnitude.unwrap_or(Some(59)),
            maximum_intensity: self.maximum_intensity.unwrap_or(Some(IntensityClass::FiveLower)),
            epicenter_accuracy: EpicenterAccuracy::GridSearchLow,
            depth_accuracy: DepthAccuracy::GridSearchLow,
            magnitude_accuracy: MagnitudeAccuracy::SWave,
            epicenter_category: EpicenterCategory::Land,
            warning_status: self.warning_status.unwrap_or(WarningStatus::Forecast),
            intensity_change: IntensityChange::Unknown,
            change_reason: ChangeReason::Unknown,
            area_info: vec![],
        };

        EEW {
            issue_pattern: self.issue_pattern.unwrap_or(IssuePattern::HighAccuracy),
            source: Source::Tokyo,
            kind: self.kind.unwrap_or(Kind::Normal),
            issued_at: self.issued_at.unwrap_or(at(2010, 1, 1, 1, 0, 2)),
            occurred_at: self.occurred_at.unwrap_or(at(2010, 1, 1, 0, 55, 59)),
            id: self.id.unwrap_or("ND20100101005559".to_owned()),
            status: self.status.unwrap_or(Status::Normal),
            number: self.number.unwrap_or(10),
            detail: if self.detail_none { None } else { Some(detail) },
        }
    }
}

#[test]
fn it_should_format_eew_with_south_west_epicenter() {
    let eew = EEWBuilder::new()
        .epicenter((-344, -1357))
        .build();

    let expected =
        "[予報] 奈良県 震度5弱 M5.9 10km (S34.4/W135.7) 09:55:59発生 \
        | 第10報 ND20100101005559".to_owned();

    let result = ja_format_eew_short(&eew, None);

    assert_eq!(result, Some(expected));
}

#[test]
fn ja_translator_rare_test_it_should_format_drill_eew() {
    let eew = EEWBuilder::new()
        .kind(Kind::Drill)
        .build();

    let expected =
        "[訓練 | 予報] 奈良県 震度5弱 M5.9 10km (N34.4/E135.7) 09:55:59発生 \
        | 第10報 ND20100101005559".to_owned();

    let result = ja_format_eew_short(&eew, None);

    assert_eq!(result, Some(expected));
}

#[test]
fn ja_translator_rare_test_it_should_format_drill_cancel_eew() {
    let eew = EEWBuilder::new()
        .issue_pattern(IssuePattern::Cancel)
        .kind(Kind::DrillCancel)
        .detail_none()
        .build();

    let expected =
        "[訓練 | 取消] --- | 第10報 ND20100101005559".to_owned();

    let result = ja_format_eew_short(&eew, None);

    assert_eq!(result, Some(expected));
}

#[test]
fn ja_translator_rare_test_it_should_format_reference_eew() {
    let eew = EEWBuilder::new()
        .kind(Kind::Reference)
        .build();

    let expected =
        "[テスト配信 | 予報] 奈良県 震度5弱 M5.9 10km (N34.4/E135.7) 09:55:59発生 \
        | 第10報 ND20100101005559".to_owned();

    let result = ja_format_eew_short(&eew, None);

    assert_eq!(result, Some(expected));
}

#[test]
fn it_should_format_trial_eew() {
    let eew = EEWBuilder::new()
        .kind(Kind::Trial)
        .build();

    let expected =
        "[テスト配信 | 予報] 奈良県 震度5弱 M5.9 10km (N34.4/E135.7) 09:55:59発生 \
        | 第10報 ND20100101005559".to_owned();

    let result = ja_format_eew_short(&eew, None);

    assert_eq!(result, Some(expected));
}
