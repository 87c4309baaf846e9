use chrono::{TimeZone, Utc};
use tina::{
    ChangeReason, DepthAccuracy, EEWDetail, EpicenterAccuracy, EpicenterCategory,
    IntensityChange, IntensityClass, IssuePattern, Kind, MagnitudeAccuracy, Source, Status,
    WarningStatus, EEW,
};
use tina::parser::{parse_arrival_time, parse_datetime, parse_intensity, parse_number};
use tina::{parse_jma_format, AreaEEW, CodeDict, JMAFormatParseError, WaveStatus};

fn at(year: i32, month: u32, day: u32, hour: u32, min: u32, sec: u32) -> i64 {
    Utc.with_ymd_and_hms(year, month, day, hour, min, sec).unwrap().timestamp()
}

#[derive(PartialEq, Debug, Clone)]
struct EEWBuilder {
    issue_pattern: Option<IssuePattern>,
    kind: Option<Kind>,
    issued_at: Option<i64>,
    occurred_at: Option<i64>,
    id: Option<String>,
    status: Option<Status>,
    number: Option<u32>,
    detail_none: bool,
    epicenter_name: Option<String>,
    epicenter: Option<(i32, i32)>,
    depth: Option<Option<u32>>,
    magnitude: Option<Option<u32>>,
    maximum_intensity: Option<Option<IntensityClass>>,
    warning_status: Option<WarningStatus>,
}

#[allow(dead_code)]
impl EEWBuilder {
    fn new() -> Self {
        EEWBuilder {
            issue_pattern: None,
            kind: None,
            issued_at: None,
            occurred_at: None,
            id: None,
            status: None,
            number: None,
            detail_none: false,
            epicenter_name: None,
            epicenter: None,
            depth: None,
            magnitude: None,
            maximum_intensity: None,
            warning_status: None,
        }
    }

    fn issue_pattern(self, issue_pattern: IssuePattern) -> Self {
        Self { issue_pattern: Some(issue_pattern), ..self }
    }

    fn kind(self, kind: Kind) -> Self {
        Self { kind: Some(kind), ..self }
    }

    fn issued_at(self, issued_at: i64) -> Self {
        Self { issued_at: Some(issued_at), ..self }
    }

    fn occurred_at(self, occurred_at: i64) -> Self {
        Self { occurred_at: Some(occurred_at), ..self }
    }

    fn id(self, id: &str) -> Self {
        Self { id: Some(id.to_owned()), ..self }
    }

    fn status(self, status: Status) -> Self {
        Self { status: Some(status), ..self }
    }

    fn number(self, number: u32) -> Self {
        Self { number: Some(number), ..self }
    }

    fn detail_none(self) -> Self {
        Self { detail_none: true, ..self }
    }

    fn epicenter_name(self, name: &str) -> Self {
        Self { epicenter_name: Some(name.to_owned()), ..self }
    }

    fn epicenter(self, epicenter: (i32, i32)) -> Self {
        Self { epicenter: Some(epicenter), ..self }
    }

    fn depth(self, depth: Option<u32>) -> Self {
        Self { depth: Some(depth), ..self }
    }

    fn magnitude(self, magnitude: Option<u32>) -> Self {
        Self { magnitude: Some(magnitude), ..self }
    }

    fn maximum_intensity(self, maximum_intensity: Option<IntensityClass>) -> Self {
        Self { maximum_intensity: Some(maximum_intensity), ..self }
    }

    fn warning_status(self, warning_status: WarningStatus) -> Self {
        Self { warning_status: Some(warning_status), ..self }
    }

    fn build(self) -> EEW {
        let detail = EEWDetail {
            epicenter_name: self.epicenter_name.unwrap_or("奈良県".to_owned()),
            epicenter: self.epicenter.unwrap_or((344, 1357)),
            depth: self.depth.unwrap_or(Some(10)),
            magnitude: self.magnitude.unwrap_or(Some(59)),
            maximum_intensity: self.maximum_intensity.unwrap_or(Some(IntensityClass::FiveLower)),
            epicenter_accuracy: EpicenterAccuracy::GridSearchLow,
            depth_accuracy: DepthAccuracy::GridSearchLow,
            magnitude_accuracy: MagnitudeAccuracy::SWave,
            epicenter_category: EpicenterCategory::Land,
            warning_status: self.warning_status.unwrap_or(WarningStatus::Forecast),
            intensity_change: IntensityChange::Unknown,
            change_reason: ChangeReason::Unknown,
            area_info: vec![],
        };

        EEW {
            issue_pattern: self.issue_pattern.unwrap_or(IssuePattern::HighAccuracy),
            source: Source::Tokyo,
            kind: self.kind.unwrap_or(Kind::Normal),
            issued_at: self.issued_at.unwrap_or(at(2010, 1, 1, 1, 0, 2)),
            occurred_at: self.occurred_at.unwrap_or(at(2010, 1, 1, 0, 55, 59)),
            id: self.id.unwrap_or("ND20100101005559".to_owned()),
            status: self.status.unwrap_or(Status::Normal),
            number: self.number.unwrap_or(10),
            detail: if self.detail_none { None } else { Some(detail) },
        }
    }
}

fn detail_of(eew: &EEW) -> &EEWDetail {
    eew.detail.as_ref().unwrap()
}

#[test]
fn it_should_parse_cancel_eew() {
    let telegram = b"39 03 10 120108133217 C11 120108133154 \
        ND20120108133201 NCN003 JD////////////// JN/// \
        /// //// ///// /// // // RK///// RT///// RC///// \
        9999=";

    let epicenter = CodeDict::new();
    let area = CodeDict::new();

    let expected = EEW {
        issue_pattern: IssuePattern::Cancel,
        source: Source::Tokyo,
        kind: Kind::Cancel,
        issued_at: at(2012, 1, 8, 4, 32, 17),
        occurred_at: at(2012, 1, 8, 4, 31, 54),
        id: "ND20120108133201".to_owned(),
        status: Status::Normal,
        number: 3,
        detail: None,
    };

    let result = parse_jma_format(telegram, &epicenter, &area);

    assert!(result.is_ok());
    assert_eq!(result.unwrap(), expected);
}

#[test]
fn it_should_parse_normal_eew_01() {
    let telegram = b"36 03 00 130804122905 C11 130804122849 \
        ND20130804122902 NCN001 JD////////////// JN/// \
        287 N380 E1420 010 59 04 RK11311 RT10/// RC///// \
        9999=";

    let mut epicenter = CodeDict::new();
    let area = CodeDict::new();
    epicenter.insert(b"287".to_owned(), "宮城県沖".to_owned());

    let expected = EEW {
        issue_pattern: IssuePattern::LowAccuracy,
        source: Source::Tokyo,
        kind: Kind::Normal,
        issued_at: at(2013, 8, 4, 3, 29, 5),
        occurred_at: at(2013, 8, 4, 3, 28, 49),
        id: "ND20130804122902".to_owned(),
        status: Status::Normal,
        number: 1,
        detail: Some(EEWDetail {
            epicenter_name: "宮城県沖".to_owned(),
            epicenter: (380, 1420),
            depth: Some(10),
            magnitude: Some(59),
            maximum_intensity: Some(IntensityClass::Four),
            epicenter_accuracy: EpicenterAccuracy::Single,
            depth_accuracy: DepthAccuracy::Single,
            magnitude_accuracy: MagnitudeAccuracy::PWave,
            epicenter_category: EpicenterCategory::Sea,
            warning_status: WarningStatus::Forecast,
            intensity_change: IntensityChange::Unknown,
            change_reason: ChangeReason::Unknown,
            area_info: vec![],
        }),
    };

    let result = parse_jma_format(telegram, &epicenter, &area);

    assert!(result.is_ok());
    assert_eq!(result.unwrap(), expected);
}

#[test]
fn it_should_parse_normal_eew_02() {
    let telegram = b"37 03 00 130808165702 C11 130808165559 \
        ND20130808165608 NCN006 JD////////////// JN/// \
        540 N344 E1357 060 68 5+ RK33513 RT01/// RC21/// \
        9999=";

    let mut epicenter = CodeDict::new();
    let area = CodeDict::new();
    epicenter.insert(b"540".to_owned(), "奈良県".to_owned());

    let expected = EEW {
        issue_pattern: IssuePattern::HighAccuracy,
        source: Source::Tokyo,
        kind: Kind::Normal,
        issued_at: at(2013, 8, 8, 7, 57, 2),
        occurred_at: at(2013, 8, 8, 7, 55, 59),
        id: "ND20130808165608".to_owned(),
        status: Status::Normal,
        number: 6,
        detail: Some(EEWDetail {
            epicenter_name: "奈良県".to_owned(),
            epicenter: (344, 1357),
            depth: Some(60),
            magnitude: Some(68),
            maximum_intensity: Some(IntensityClass::FiveUpper),
            epicenter_accuracy: EpicenterAccuracy::GridSearchLow,
            depth_accuracy: DepthAccuracy::GridSearchLow,
            magnitude_accuracy: MagnitudeAccuracy::SWave,
            epicenter_category: EpicenterCategory::Land,
            warning_status: WarningStatus::Alert,
            intensity_change: IntensityChange::Down,
            change_reason: ChangeReason::Magnitude,
            area_info: vec![],
        }),
    };

    let result = parse_jma_format(telegram, &epicenter, &area);

    assert!(result.is_ok());
    assert_eq!(result.unwrap(), expected);
}

const EBI_TELEGRAM: &[u8] = b"37 03 00 130808165702 C11 130808165559 \
        ND20130808165608 NCN006 JD////////////// JN/// \
        540 N344 E1357 060 68 5+ RK33513 RT01/// RC21/// \
        EBI 521 S5+5+ ////// 11 540 S5+5- ////// 11 511 S5+5- ////// 11 \
        550 S5-5- ////// 11 551 S5-04 ////// 11 535 S5-04 ////// 11 \
        391 S0404 ////// 11 620 S0404 ////// 11 563 S0404 165703 10 \
        592 S0404 165703 10 591 S0403 ////// 11 301 S5-// 010101 01 \
        9999=";

fn ebi_dicts() -> (CodeDict, CodeDict) {
    let mut epicenter = CodeDict::new();
    let mut area = CodeDict::new();
    epicenter.insert(b"540".to_owned(), "奈良県".to_owned());
    area.insert(b"521".to_owned(), "大阪府南部".to_owned());
    area.insert(b"540".to_owned(), "奈良県".to_owned());
    area.insert(b"511".to_owned(), "京都府南部".to_owned());
    area.insert(b"550".to_owned(), "和歌山県北部".to_owned());
    area.insert(b"551".to_owned(), "和歌山県南部".to_owned());
    area.insert(b"535".to_owned(), "兵庫県淡路島".to_owned());
    area.insert(b"391".to_owned(), "石川県加賀".to_owned());
    area.insert(b"620".to_owned(), "愛媛県東予".to_owned());
    area.insert(b"563".to_owned(), "鳥取県西部".to_owned());
    area.insert(b"592".to_owned(), "広島県南西部".to_owned());
    area.insert(b"591".to_owned(), "広島県南東部".to_owned());
    area.insert(b"301".to_owned(), "茨城県南部".to_owned());
    (epicenter, area)
}

#[test]
fn it_should_parse_ebi_part() {
    let telegram = EBI_TELEGRAM;
    let (epicenter, area) = ebi_dicts();

    let make_areaeew = |area_name: &str,
                        minimum_intensity: IntensityClass,
                        maximum_intensity: Option<IntensityClass>,
                        reach_at: Option<i64>,
                        warning: bool,
                        reached: bool|
     -> AreaEEW {
        AreaEEW {
            area_name: area_name.to_string(),
            minimum_intensity: minimum_intensity,
            maximum_intensity: maximum_intensity,
            reach_at: reach_at,
            warning_status: if warning { WarningStatus::Alert } else { WarningStatus::Forecast },
            wave_status: if reached { WaveStatus::Reached } else { WaveStatus::Unreached },
        }
    };

    let upper = IntensityClass::FiveUpper;
    let lower = IntensityClass::FiveLower;
    let four = IntensityClass::Four;
    let three = IntensityClass::Three;

    let expected = vec![
        make_areaeew("大阪府南部", upper, Some(upper), None, true, true),
        make_areaeew("奈良県", lower, Some(upper), None, true, true),
        make_areaeew("京都府南部", lower, Some(upper), None, true, true),
        make_areaeew("和歌山県北部", lower, Some(lower), None, true, true),
        make_areaeew("和歌山県南部", four, Some(lower), None, true, true),
        make_areaeew("兵庫県淡路島", four, Some(lower), None, true, true),
        make_areaeew("石川県加賀", four, Some(four), None, true, true),
        make_areaeew("愛媛県東予", four, Some(four), None, true, true),
        make_areaeew("鳥取県西部", four, Some(four), Some(at(2013, 8, 8, 7, 57, 3)), true, false),
        make_areaeew("広島県南西部", four, Some(four), Some(at(2013, 8, 8, 7, 57, 3)), true, false),
        make_areaeew("広島県南東部", three, Some(four), None, true, true),
        make_areaeew("茨城県南部", lower, None, Some(at(2013, 8, 8, 16, 1, 1)), false, true),
    ];

    let full_result = parse_jma_format(telegram, &epicenter, &area);
    assert!(full_result.is_ok());

    let result = match full_result.unwrap().detail {
        Some(v) => v.area_info,
        None => panic!(),
    };

    for (r, e) in result.iter().zip(expected.iter()) {
        assert_eq!(r, e);
    }

    assert_eq!(result, expected);
}

#[test]
fn it_should_parse_eew_with_unknown_values() {
    let telegram = b"37 03 00 160610231341 C11 160610231254 \
        ND20160610231334 NCN001 JD////////////// JN/// \
        432 N354 E1369 /// // // RK6620/ RT00/// RC///// \
        9999=";

    let mut epicenter = CodeDict::new();
    let area = CodeDict::new();
    epicenter.insert(b"432".to_owned(), "岐阜県美濃中西部".to_owned());

    let expected = EEW {
        issue_pattern: IssuePattern::HighAccuracy,
        source: Source::Tokyo,
        kind: Kind::Normal,
        issued_at: at(2016, 6, 10, 14, 13, 41),
        occurred_at: at(2016, 6, 10, 14, 12, 54),
        id: "ND20160610231334".to_owned(),
        status: Status::Normal,
        number: 1,
        detail: Some(EEWDetail {
            epicenter_name: "岐阜県美濃中西部".to_owned(),
            epicenter: (354, 1369),
            depth: None,
            magnitude: None,
            maximum_intensity: None,
            epicenter_accuracy: EpicenterAccuracy::NIEDHigh,
            depth_accuracy: DepthAccuracy::NIEDHigh,
            magnitude_accuracy: MagnitudeAccuracy::NIED,
            epicenter_category: EpicenterCategory::Land,
            warning_status: WarningStatus::Forecast,
            intensity_change: IntensityChange::Unknown,
            change_reason: ChangeReason::Unknown,
            area_info: vec![],
        }),
    };

    let result = parse_jma_format(telegram, &epicenter, &area);

    assert!(result.is_ok());
    assert_eq!(result.unwrap(), expected);
}

const NORMAL: &[u8] = b"37 03 00 130808165702 C11 130808165559 \
        ND20130808165608 NCN006 JD////////////// JN/// \
        540 N344 E1357 060 68 5+ RK33513 RT01/// RC21/// \
        9999=";

fn parse_with(change: &[(usize, &[u8])]) -> Result<EEW, JMAFormatParseError> {
    let mut telegram = NORMAL.to_vec();
    for (offset, bytes) in change.iter() {
        telegram[*offset..*offset + bytes.len()].copy_from_slice(bytes);
    }
    let (epicenter, area) = ebi_dicts();
    parse_jma_format(&telegram, &epicenter, &area)
}

#[test]
fn parser_names_the_field_that_cannot_be_read() {
    let (epicenter, area) = ebi_dicts();
    assert_eq!(
        parse_jma_format(&NORMAL[0..139], &epicenter, &area),
        Err(JMAFormatParseError::TooShort)
    );
    assert_eq!(parse_with(&[(0, b"38")]), Err(JMAFormatParseError::InvalidPattern));
    assert_eq!(parse_with(&[(3, b"05")]), Err(JMAFormatParseError::InvalidSource));
    assert_eq!(parse_with(&[(6, b"02")]), Err(JMAFormatParseError::InvalidKind));
    assert_eq!(parse_with(&[(9, b"131308165702")]), Err(JMAFormatParseError::InvalidIssueTime));
    assert_eq!(parse_with(&[(24, b"2")]), Err(JMAFormatParseError::Split));
    assert_eq!(
        parse_with(&[(26, b"130808256559")]),
        Err(JMAFormatParseError::InvalidOoccurrenceTime)
    );
    assert_eq!(parse_with(&[(39, b"\xff")]), Err(JMAFormatParseError::InvalidId));
    assert_eq!(parse_with(&[(59, b"1")]), Err(JMAFormatParseError::InvalidStatus));
    assert_eq!(parse_with(&[(60, b"//")]), Err(JMAFormatParseError::InvalidNumber));
    assert_eq!(parse_with(&[(86, b"999")]), Err(JMAFormatParseError::UnknownEpicenterCode));
    assert_eq!(parse_with(&[(90, b"X")]), Err(JMAFormatParseError::InvalidLL));
    assert_eq!(parse_with(&[(91, b"3x4")]), Err(JMAFormatParseError::InvalidLL));
    assert_eq!(parse_with(&[(95, b"N")]), Err(JMAFormatParseError::InvalidLL));
    assert_eq!(parse_with(&[(96, b"////")]), Err(JMAFormatParseError::InvalidLL));
    assert_eq!(parse_with(&[(101, b"0/0")]), Err(JMAFormatParseError::InvalidDepth));
    assert_eq!(parse_with(&[(105, b"/8")]), Err(JMAFormatParseError::InvalidMagnitude));
    assert_eq!(parse_with(&[(108, b"05")]), Err(JMAFormatParseError::InvalidMaximumIntensity));
    assert_eq!(parse_with(&[(113, b"9")]), Err(JMAFormatParseError::InvalidEpicenterAccuracy));
    assert_eq!(parse_with(&[(114, b"0")]), Err(JMAFormatParseError::InvalidDepthAccuracy));
    assert_eq!(parse_with(&[(115, b"7")]), Err(JMAFormatParseError::InvalidMagnitudeAccuracy));
    assert_eq!(parse_with(&[(121, b"2")]), Err(JMAFormatParseError::InvalidEpicenterCategory));
    assert_eq!(parse_with(&[(122, b"2")]), Err(JMAFormatParseError::InvalidWarningStatus));
    assert_eq!(parse_with(&[(129, b"3")]), Err(JMAFormatParseError::InvalidIntensityChange));
    assert_eq!(parse_with(&[(130, b"5")]), Err(JMAFormatParseError::InvalidChangeReason));
}

#[test]
fn parser_reports_the_first_unreadable_field() {
    assert_eq!(parse_with(&[(0, b"38"), (3, b"05")]), Err(JMAFormatParseError::InvalidPattern));
    assert_eq!(parse_with(&[(59, b"1"), (60, b"//")]), Err(JMAFormatParseError::InvalidStatus));
    assert_eq!(parse_with(&[(101, b"0/0"), (90, b"X")]), Err(JMAFormatParseError::InvalidLL));
}

fn parse_ebi_with(change: &[(usize, &[u8])]) -> Result<EEW, JMAFormatParseError> {
    let mut telegram = EBI_TELEGRAM.to_vec();
    for (offset, bytes) in change.iter() {
        telegram[*offset..*offset + bytes.len()].copy_from_slice(bytes);
    }
    let (epicenter, area) = ebi_dicts();
    parse_jma_format(&telegram, &epicenter, &area)
}

#[test]
fn parser_checks_every_part_of_an_area_record() {
    assert!(parse_ebi_with(&[]).is_ok());
    assert_eq!(parse_ebi_with(&[(139, b"999")]), Err(JMAFormatParseError::UnknownAreaCode));
    assert_eq!(parse_ebi_with(&[(144, b"//")]), Err(JMAFormatParseError::InvalidEBI));
    assert_eq!(parse_ebi_with(&[(146, b"08")]), Err(JMAFormatParseError::InvalidEBI));
    assert_eq!(parse_ebi_with(&[(149, b"25////")]), Err(JMAFormatParseError::InvalidEBI));
    assert_eq!(parse_ebi_with(&[(156, b"2")]), Err(JMAFormatParseError::InvalidEBI));
    assert_eq!(parse_ebi_with(&[(157, b"2")]), Err(JMAFormatParseError::InvalidEBI));
}

#[test]
fn parser_wants_the_terminator_behind_the_area_block() {
    let (epicenter, area) = ebi_dicts();
    let cut = &EBI_TELEGRAM[0..EBI_TELEGRAM.len() - 6];
    assert_eq!(parse_jma_format(cut, &epicenter, &area), Err(JMAFormatParseError::PrematureEOS));
    let n = EBI_TELEGRAM.len();
    assert_eq!(parse_ebi_with(&[(n - 1, b"!")]), Err(JMAFormatParseError::PrematureEOS));
}

#[test]
fn parser_takes_a_cancel_without_looking_at_the_rest() {
    let result = parse_with(&[(0, b"39"), (86, b"///"), (113, b"?")]).unwrap();
    assert_eq!(result.issue_pattern, IssuePattern::Cancel);
    assert_eq!(result.kind, Kind::Normal);
    assert_eq!(result.detail, None);
    assert_eq!(result.number, 6);
}

#[test]
fn parser_reads_hemispheres_kinds_and_sources() {
    let south_west = parse_with(&[(90, b"S"), (95, b"W")]).unwrap();
    assert_eq!(detail_of(&south_west).epicenter, (-344, -1357));
    let osaka_drill = parse_with(&[(3, b"04"), (6, b"01"), (59, b"9")]).unwrap();
    assert_eq!(osaka_drill.source, Source::Osaka);
    assert_eq!(osaka_drill.kind, Kind::Drill);
    assert_eq!(osaka_drill.status, Status::Last);
    assert!(osaka_drill.is_drill() && osaka_drill.is_last());
}

#[test]
fn parse_number_reads_decimal_digits() {
    assert_eq!(parse_number(b"06"), Some(6));
    assert_eq!(parse_number(b"1420"), Some(1420));
    assert_eq!(parse_number(b"+7"), Some(7));
    assert_eq!(parse_number(b"4294967295"), Some(4294967295));
    assert_eq!(parse_number(b"4294967296"), None);
    assert_eq!(parse_number(b""), None);
    assert_eq!(parse_number(b"+"), None);
    assert_eq!(parse_number(b"-1"), None);
    assert_eq!(parse_number(b" 1"), None);
    assert_eq!(parse_number(b"//"), None);
    assert_eq!(parse_number("１".as_bytes()), None);
}

#[test]
fn parse_intensity_reads_the_two_byte_codes() {
    assert_eq!(parse_intensity(b"01"), Some(IntensityClass::One));
    assert_eq!(parse_intensity(b"02"), Some(IntensityClass::Two));
    assert_eq!(parse_intensity(b"03"), Some(IntensityClass::Three));
    assert_eq!(parse_intensity(b"04"), Some(IntensityClass::Four));
    assert_eq!(parse_intensity(b"5-"), Some(IntensityClass::FiveLower));
    assert_eq!(parse_intensity(b"5+"), Some(IntensityClass::FiveUpper));
    assert_eq!(parse_intensity(b"6-"), Some(IntensityClass::SixLower));
    assert_eq!(parse_intensity(b"6+"), Some(IntensityClass::SixUpper));
    assert_eq!(parse_intensity(b"07"), Some(IntensityClass::Seven));
    assert_eq!(parse_intensity(b"00"), None);
    assert_eq!(parse_intensity(b"//"), None);
    assert_eq!(parse_intensity(b"7"), None);
}

#[test]
fn parse_datetime_converts_from_japan_time() {
    assert_eq!(parse_datetime(b"120108133217"), Some(at(2012, 1, 8, 4, 32, 17)));
    assert_eq!(parse_datetime(b"700101090000"), Some(0));
    assert_eq!(parse_datetime(b"120230000000"), None);
    assert_eq!(parse_datetime(b"////////////"), None);
}

#[test]
fn arrival_time_is_placed_next_to_the_occurrence() {
    let base = at(2013, 8, 8, 7, 55, 59);
    assert_eq!(parse_arrival_time(b"165703", base), Some(at(2013, 8, 8, 7, 57, 3)));
    assert_eq!(parse_arrival_time(b"165500", base), Some(at(2013, 8, 8, 7, 55, 0)));
    assert_eq!(parse_arrival_time(b"185559", base), Some(at(2013, 8, 8, 9, 55, 59)));
    assert_eq!(parse_arrival_time(b"185600", base), Some(at(2013, 8, 7, 9, 56, 0)));
    assert_eq!(parse_arrival_time(b"145559", base), Some(at(2013, 8, 8, 5, 55, 59)));
    assert_eq!(parse_arrival_time(b"145558", base), Some(at(2013, 8, 9, 5, 55, 58)));
    assert_eq!(parse_arrival_time(b"010101", base), Some(at(2013, 8, 8, 16, 1, 1)));
    assert_eq!(parse_arrival_time(b"//////", base), None);
    let late = at(2013, 8, 8, 14, 59, 30);
    assert_eq!(parse_arrival_time(b"000010", late), Some(at(2013, 8, 8, 15, 0, 10)));
}

#[test]
fn code_dict_keeps_names_under_three_byte_codes() {
    let mut dict = CodeDict::new();
    assert_eq!(dict.get(b"287"), None);
    dict.insert(*b"287", "a".to_owned());
    dict.insert(*b"782", "b".to_owned());
    assert_eq!(dict.get(b"287"), Some(&"a".to_owned()));
    assert_eq!(dict.get(b"782"), Some(&"b".to_owned()));
    assert_eq!(dict.get(b"28"), None);
    assert_eq!(dict.get(b"2870"), None);
    dict.insert(*b"287", "c".to_owned());
    assert_eq!(dict.get(b"287"), Some(&"c".to_owned()));
}

#[test]
fn parsed_report_keeps_the_shape_of_a_report() {
    for telegram in [NORMAL, EBI_TELEGRAM].iter() {
        let (epicenter, area) = ebi_dicts();
        let eew = parse_jma_format(telegram, &epicenter, &area).unwrap();
        assert!(eew.number >= 1);
        assert_eq!(eew.detail.is_none(), eew.issue_pattern == IssuePattern::Cancel);
    }
}
