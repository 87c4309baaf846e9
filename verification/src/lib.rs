//! Earthquake early warning ingestion: telegram decoding, the event model,
//! deduplication and per-destination routing.

pub mod clock;
pub mod code_dict;
pub mod condition;
pub mod eew;
pub mod field_codes;
pub mod history;
pub mod limited_queue;
pub mod moderator;
pub mod parser;
pub mod router;
pub mod slack;
pub mod supervisor;
pub mod text;
pub mod translator;
pub mod twitter;
pub mod wire;
pub mod wni;

pub use self::code_dict::CodeDict;
pub use self::condition::{
    Condition, ConstantCondition, DisjunctiveCondition, ValueCondition, FALSE_CONDITION,
    TRUE_CONDITION,
};
pub use self::eew::{
    AreaEEW, ChangeReason, DepthAccuracy, EEWDetail, EEWPhase, EpicenterAccuracy,
    EpicenterCategory, IntensityChange, IntensityClass, IssuePattern, Kind, MagnitudeAccuracy,
    Source, Status, WarningStatus, WaveStatus, EEW,
};
pub use self::history::{EEWBuffer, EEWHistory};
pub use self::limited_queue::{IndexedLimitedQueue, LimitedQueue};
pub use self::router::{Delivery, Router};
pub use self::slack::{Slack, SlackError, SlackMessageType};
pub use self::twitter::{Twitter, TwitterError};
pub use self::wni::{WniConnection, WniError};
pub use self::translator::format_eew_short as ja_format_eew_oneline;
pub use self::translator::format_eew_short as ja_format_eew_short;
pub use self::moderator::Moderator;
pub use self::parser::{parse_jma_format, JMAFormatParseError};
