//! Status updates: what is posted, how the answer of the service is read,
//! and how updates about one earthquake are chained as replies.

use crate::condition::view_of;
use crate::eew::{EEWView, EEW};
use crate::limited_queue::{index_of, newest, IndexedLimitedQueue};
use crate::text::{decimal, push_decimal};
use crate::translator::{format_eew_short, short_text};
use vstd::prelude::*;

verus! {

#[derive(PartialEq, Eq, Debug, Clone)]
pub enum TwitterError {
    Duplicated,
    RateLimitExceeded,
    InvalidTweet,
    InvalidResponse,
    Network,
    Unauthorized,
    Unknown(String),
}

/// An error with its text as a sequence of characters.
pub enum TwitterErrorView {
    Duplicated,
    RateLimitExceeded,
    InvalidTweet,
    InvalidResponse,
    Network,
    Unauthorized,
    Unknown(Seq<char>),
}

impl View for TwitterError {
    type V = TwitterErrorView;

    open spec fn view(&self) -> TwitterErrorView {
        match self {
            TwitterError::Duplicated => TwitterErrorView::Duplicated,
            TwitterError::RateLimitExceeded => TwitterErrorView::RateLimitExceeded,
            TwitterError::InvalidTweet => TwitterErrorView::InvalidTweet,
            TwitterError::InvalidResponse => TwitterErrorView::InvalidResponse,
            TwitterError::Network => TwitterErrorView::Network,
            TwitterError::Unauthorized => TwitterErrorView::Unauthorized,
            TwitterError::Unknown(s) => TwitterErrorView::Unknown(s@),
        }
    }
}

/// Number of earthquakes for which the last status is remembered.
pub const STATUS_MEMORY: usize = 16;

/// The error code that means the status is invalid.
pub const CODE_INVALID_TWEET: i64 = 186;

/// The error code that means the same status was posted before.
pub const CODE_DUPLICATED: i64 = 187;

/// The number under `errors[0].code` in a JSON text, as serde_json reads it.
pub uninterp spec fn first_error_code(body: Seq<char>) -> Option<i64>;

/// The number under `id` in a JSON text, as serde_json reads it.
pub uninterp spec fn status_id(body: Seq<char>) -> Option<u64>;

/// Reads `body` with `serde_json::from_str` and looks up `errors[0].code`
/// with `Value::as_i64`. Trusted: the result depends on the text alone;
/// text that is no JSON, or holds no such number, gives `None`.
#[verifier::external_body]
fn json_error_code(body: &str) -> (r: Option<i64>)
    ensures
        r == first_error_code(body@),
{
    let json: serde_json::Value = serde_json::from_str(body).ok()?;
    json["errors"][0]["code"].as_i64()
}

/// Reads `body` with `serde_json::from_str` and looks up `id` with
/// `Value::as_u64`. Trusted: the result depends on the text alone; text
/// that is no JSON, or holds no such number, gives `None`.
#[verifier::external_body]
fn json_status_id(body: &str) -> (r: Option<u64>)
    ensures
        r == status_id(body@),
{
    let json: serde_json::Value = serde_json::from_str(body).ok()?;
    json["id"].as_u64()
}

/// The outcome of a status update, given the HTTP status of the answer,
/// its status line and body, and the two numbers read from the body.
pub open spec fn spec_classify_response(
    status: u16,
    status_text: Seq<char>,
    body: Seq<char>,
    error_code: Option<i64>,
    id: Option<u64>,
) -> Result<u64, TwitterErrorView> {
    if status == 403 {
        if error_code == Some(CODE_INVALID_TWEET) {
            Err(TwitterErrorView::InvalidTweet)
        } else if error_code == Some(CODE_DUPLICATED) {
            Err(TwitterErrorView::Duplicated)
        } else {
            Err(TwitterErrorView::Unknown(body))
        }
    } else if status == 200 {
        match id {
            Some(v) => Ok(v),
            None => Err(TwitterErrorView::InvalidResponse),
        }
    } else if status == 429 {
        Err(TwitterErrorView::RateLimitExceeded)
    } else if status == 401 {
        Err(TwitterErrorView::Unauthorized)
    } else {
        Err(TwitterErrorView::Unknown("unknown status: "@ + status_text))
    }
}

pub open spec fn outcome_view(r: Result<u64, TwitterError>) -> Result<u64, TwitterErrorView> {
    match r {
        Ok(v) => Ok(v),
        Err(e) => Err(e@),
    }
}

pub fn classify_response(
    status: u16,
    status_text: &str,
    body: &str,
    error_code: Option<i64>,
    id: Option<u64>,
) -> (r: Result<u64, TwitterError>)
    ensures
        outcome_view(r) == spec_classify_response(status, status_text@, body@, error_code, id),
{
    if status == 403 {
        match error_code {
            Some(186) => Err(TwitterError::InvalidTweet),
            Some(187) => Err(TwitterError::Duplicated),
            _ => Err(TwitterError::Unknown(String::from_str(body))),
        }
    } else if status == 200 {
        match id {
            Some(v) => Ok(v),
            None => Err(TwitterError::InvalidResponse),
        }
    } else if status == 429 {
        Err(TwitterError::RateLimitExceeded)
    } else if status == 401 {
        Err(TwitterError::Unauthorized)
    } else {
        let mut text = String::from_str("unknown status: ");
        text.append(status_text);
        Err(TwitterError::Unknown(text))
    }
}

/// Reads the answer to a status update: the id of the new status, or what
/// went wrong.
pub fn interpret_response(status: u16, status_text: &str, body: &str) -> (r: Result<u64, TwitterError>)
    ensures
        outcome_view(r) == spec_classify_response(
            status,
            status_text@,
            body@,
            first_error_code(body@),
            status_id(body@),
        ),
{
    let error_code = if status == 403 {
        json_error_code(body)
    } else {
        None
    };
    let id = if status == 200 {
        json_status_id(body)
    } else {
        None
    };
    classify_response(status, status_text, body, error_code, id)
}

/// The form fields of a status update.
pub open spec fn spec_update_args(message: Seq<char>, in_reply_to: Option<u64>) -> Seq<(Seq<char>, Seq<char>)> {
    match in_reply_to {
        None => seq![("status"@, message)],
        Some(id) => seq![("status"@, message), ("in_reply_to_status_id"@, decimal(id as nat))],
    }
}

pub open spec fn field_views(args: Seq<(String, String)>) -> Seq<(Seq<char>, Seq<char>)> {
    args.map_values(|a: (String, String)| (a.0@, a.1@))
}

pub fn update_args(message: &str, in_reply_to: Option<u64>) -> (r: Vec<(String, String)>)
    ensures
        field_views(r@) == spec_update_args(message@, in_reply_to),
{
    let mut args: Vec<(String, String)> = Vec::new();
    args.push((String::from_str("status"), String::from_str(message)));
    if let Some(id) = in_reply_to {
        let mut number = String::new();
        push_decimal(&mut number, id);
        assert(number@ =~= decimal(id as nat));
        args.push((String::from_str("in_reply_to_status_id"), number));
    }
    assert(field_views(args@) =~= spec_update_args(message@, in_reply_to));
    args
}

/// A status that is ready to be posted.
#[derive(PartialEq, Eq, Debug, Clone)]
pub struct StatusUpdate {
    pub text: String,
    pub in_reply_to: Option<u64>,
}

/// For each earthquake, the id of the last status posted about it.
pub type StatusMemory = Seq<(Seq<char>, u64)>;

pub open spec fn remembered_status(memory: StatusMemory, id: Seq<char>) -> Option<u64> {
    match index_of(memory, id) {
        Some(i) => Some(memory[i].1),
        None => None,
    }
}

/// The memory after the status `status` was posted about the earthquake `id`.
pub open spec fn memory_after(memory: StatusMemory, id: Seq<char>, status: u64, limit: nat) -> StatusMemory {
    match index_of(memory, id) {
        Some(i) => memory.update(i, (id, status)),
        None => newest(memory.push((id, status)), limit as int),
    }
}

/// The state of the destination that posts status updates.
pub struct Twitter {
    latest_tw_ids: IndexedLimitedQueue<u64>,
    reply_enabled: bool,
    updown_enabled: bool,
}

impl Twitter {
    pub closed spec fn memory(&self) -> StatusMemory {
        self.latest_tw_ids@
    }

    pub closed spec fn limit(&self) -> nat {
        self.latest_tw_ids.limit()
    }

    pub closed spec fn reply_enabled(&self) -> bool {
        self.reply_enabled
    }

    pub closed spec fn updown_enabled(&self) -> bool {
        self.updown_enabled
    }

    pub closed spec fn wf(&self) -> bool {
        self.latest_tw_ids.wf()
    }

    pub fn new(reply_enabled: bool, updown_enabled: bool) -> (r: Twitter)
        ensures
            r.wf(),
            r.memory() == Seq::<(Seq<char>, u64)>::empty(),
            r.limit() == STATUS_MEMORY,
            r.reply_enabled() == reply_enabled,
            r.updown_enabled() == updown_enabled,
    {
        Twitter {
            latest_tw_ids: IndexedLimitedQueue::new(STATUS_MEMORY),
            reply_enabled: reply_enabled,
            updown_enabled: updown_enabled,
        }
    }

    /// The report before `latest` as far as this destination looks at it.
    pub open spec fn regarded(&self, prev: Option<EEWView>) -> Option<EEWView> {
        if self.updown_enabled() {
            prev
        } else {
            None
        }
    }

    /// The status for a report: its one-line rendering, as a reply to the
    /// last status about the same earthquake where replies are enabled.
    /// Nothing is posted for a report that cannot be rendered.
    pub fn prepare(&self, latest: &EEW, prev: Option<&EEW>) -> (r: Option<StatusUpdate>)
        requires
            self.wf(),
        ensures
            match r {
                Some(update) => {
                    &&& short_text(latest@, self.regarded(view_of(prev))) == Some(update.text@)
                    &&& update.in_reply_to == if self.reply_enabled() {
                        remembered_status(self.memory(), latest.id@)
                    } else {
                        None
                    }
                },
                None => short_text(latest@, self.regarded(view_of(prev))) is None,
            },
    {
        let regarded = if self.updown_enabled {
            prev
        } else {
            None
        };
        let text = match format_eew_short(latest, regarded) {
            Some(out) => out,
            None => return None,
        };
        let in_reply_to = if self.reply_enabled {
            match self.latest_tw_ids.get(latest.id.as_str()) {
                Some(v) => Some(*v),
                None => None,
            }
        } else {
            None
        };
        Some(StatusUpdate { text: text, in_reply_to: in_reply_to })
    }

    /// Takes the outcome of posting a status about the earthquake `id`:
    /// the id of a posted status is remembered, and an error changes nothing.
    pub fn record(&mut self, id: &str, outcome: &Result<u64, TwitterError>)
        requires
            old(self).wf(),
        ensures
            final(self).wf(),
            final(self).limit() == old(self).limit(),
            final(self).reply_enabled() == old(self).reply_enabled(),
            final(self).updown_enabled() == old(self).updown_enabled(),
            final(self).memory() == match outcome {
                Ok(status) => memory_after(old(self).memory(), id@, *status, old(self).limit()),
                Err(_) => old(self).memory(),
            },
    {
        match outcome {
            Ok(status) => {
                let _ = self.latest_tw_ids.upsert(id, *status);
            },
            Err(_) => {},
        }
    }
}

} // verus!
