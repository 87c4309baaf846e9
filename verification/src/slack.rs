//! Webhook messages: what is posted and how the answer is read.

use crate::condition::view_of;
use crate::eew::{EEWPhase, EEWView, EEW};
use crate::translator::{
    body_text, footer_text, format_body, format_footer, format_header, header_text,
};
use vstd::prelude::*;

verus! {

#[derive(PartialEq, Eq, Debug, Clone, Copy, Structural)]
pub enum SlackError {
    Network,
    Rejected,
}

#[derive(PartialEq, Eq, Debug, Clone, Copy, Structural)]
pub enum SlackMessageType {
    Warning,
    Info,
}

pub open spec fn color_text(msg_type: SlackMessageType) -> Seq<char> {
    match msg_type {
        SlackMessageType::Warning => "#CF0301"@,
        SlackMessageType::Info => "#E8E8E8"@,
    }
}

/// The colour of the bar beside a message.
pub fn color_of(msg_type: SlackMessageType) -> (r: &'static str)
    ensures
        r@ == color_text(msg_type),
{
    match msg_type {
        SlackMessageType::Warning => "#CF0301",
        SlackMessageType::Info => "#E8E8E8",
    }
}

/// An alert is shown as a warning, anything else as information.
pub open spec fn spec_message_type(latest: EEWView) -> SlackMessageType {
    if latest.phase() == Some(EEWPhase::Alert) {
        SlackMessageType::Warning
    } else {
        SlackMessageType::Info
    }
}

/// A posted message was accepted exactly where the answer has status 200.
pub open spec fn spec_post_result(status: u16) -> Result<(), SlackError> {
    if status == 200 {
        Ok(())
    } else {
        Err(SlackError::Rejected)
    }
}

pub fn post_result(status: u16) -> (r: Result<(), SlackError>)
    ensures
        r == spec_post_result(status),
{
    if status == 200 {
        Ok(())
    } else {
        Err(SlackError::Rejected)
    }
}

/// A message that is ready to be posted.
#[derive(PartialEq, Eq, Debug, Clone)]
pub struct SlackMessage {
    /// Shown as the text and as the fallback of the attachment.
    pub body: String,
    pub footer: String,
    pub msg_type: SlackMessageType,
}

/// The text of a message: the header in square brackets, then the body.
pub open spec fn message_text(header: Seq<char>, latest: EEWView) -> Seq<char> {
    "["@ + header + "] "@ + body_text(latest)
}

/// The state of the destination that posts to a webhook.
pub struct Slack {
    updown_enabled: bool,
}

impl Slack {
    pub closed spec fn updown_enabled(&self) -> bool {
        self.updown_enabled
    }

    pub fn build(updown_enabled: bool) -> (r: Slack)
        ensures
            r.updown_enabled() == updown_enabled,
    {
        Slack { updown_enabled: updown_enabled }
    }

    /// The report before `latest` as far as this destination looks at it.
    pub open spec fn regarded(&self, prev: Option<EEWView>) -> Option<EEWView> {
        if self.updown_enabled() {
            prev
        } else {
            None
        }
    }

    /// The message for a report; nothing for a report that cannot be rendered.
    pub fn compose(&self, latest: &EEW, prev: Option<&EEW>) -> (r: Option<SlackMessage>)
        ensures
            match header_text(latest@, self.regarded(view_of(prev))) {
                Some(header) => r matches Some(m) && m.body@ == message_text(header, latest@)
                    && m.footer@ == footer_text(latest@) && m.msg_type == spec_message_type(
                    latest@,
                ),
                None => r is None,
            },
    {
        let regarded = if self.updown_enabled {
            prev
        } else {
            None
        };
        let header = match format_header(latest, regarded) {
            Some(h) => h,
            None => return None,
        };
        let mut body = String::from_str("[");
        body.append(header.as_str());
        body.append("] ");
        let summary = format_body(latest);
        body.append(summary.as_str());
        assert(body@ =~= message_text(header@, latest@));
        let msg_type = match latest.get_eew_phase() {
            Some(EEWPhase::Alert) => SlackMessageType::Warning,
            _ => SlackMessageType::Info,
        };
        Some(SlackMessage { body: body, footer: format_footer(latest), msg_type: msg_type })
    }
}

} // verus!
