//! Change detection and fan-out delivery for a feed of airdrop campaign records.
//!
//! The library holds the decisions of a monitoring bot: how a campaign record is
//! rendered, which records of a fetched snapshot are announced, when a record counts
//! as delivered, how the webhook payload and the fetch request are framed, and how
//! inbound chat commands are parsed and answered. The program around it performs the
//! network calls and hands the outcomes back.

mod command;
mod config;
mod dispatch;
mod poll;
mod record;
mod seen;
mod source;
mod text;
mod time;

pub use text::{decimal, digit_char, zero_padded};

pub use time::{
    civil_text, civil_time_of, display_time, format_timestamp, invalid_time_marker,
    render_civil_time, timestamp_text, year_text, CivilTime, DISPLAY_OFFSET_SECS,
};

pub use record::{
    announcement, announcement_text, announcement_with_times, ended_status, envelope_records,
    is_ended, records_or_empty, render_announcement, render_summary_line, summary_line,
    CampaignRecord,
};

pub use seen::SeenSet;

pub use dispatch::{
    disabled_side_channel_not_sent, frame_webhook_payload, json_string_of, outcome_of,
    plan_delivery, plan_text_delivery, plans_text, side_channel_never_decides, webhook_body,
    webhook_frame, webhook_payload, ChannelConfig, DeliveryOutcome, DispatchPlan, SideOutcome,
    WebhookSend,
};

pub use poll::{
    delivered_not_repeated, ended_never_delivered, failed_delivery_retried, seen_after,
    should_deliver, side_failure_still_marks_seen, PollCycle,
};
pub use source::{fetch_request_body, request_body, FetchError, FETCH_PAGE, FETCH_ROWS};

pub use config::{BotConfig, ConfigError, DEFAULT_POLL_INTERVAL_SECS, DEV_CHAT_ID};

pub use command::{
    after_first, answer, answers, before_first, command_named, folded_code, latest_reply,
    latest_reply_text, parse_command, parsed_command, restricted_command_guarded,
    same_ignoring_ascii_case, Command, CommandAction, CHANNEL_TEST_TEXT, FETCH_FAILED_PREFIX,
    HELP_TEXT, NO_RECORDS_TEXT, PONG_TEXT, PRIVATE_TEST_TEXT,
};
