use vstd::prelude::*;
use vstd::string::*;
use crate::record::{announcement, render_announcement, CampaignRecord};

verus! {

/// The JSON string literal that serde_json writes for `s`, quotes and escapes included.
pub uninterp spec fn json_string_of(s: Seq<char>) -> Seq<char>;

/// Relies on `serde_json::to_string` on a `str`: one JSON string literal, written into
/// memory, where serialising a string cannot fail.
#[verifier::external_body]
fn json_string(s: &str) -> (r: String)
    ensures
        r@ == json_string_of(s@),
{
    serde_json::to_string(s).unwrap_or_default()
}

/// The body of a webhook text message around the JSON string literal of its content.
pub open spec fn webhook_frame(quoted: Seq<char>) -> Seq<char> {
    "{\"msgtype\":\"text\",\"text\":{\"content\":"@ + quoted + "}}"@
}

/// The body of a webhook text message with content `content`.
pub open spec fn webhook_body(content: Seq<char>) -> Seq<char> {
    webhook_frame(json_string_of(content))
}

/// Frames the JSON string literal of a content as a webhook text message.
pub fn frame_webhook_payload(quoted: &str) -> (r: String)
    ensures
        r@ == webhook_frame(quoted@),
{
    let mut s = String::from_str("{\"msgtype\":\"text\",\"text\":{\"content\":");
    s.append(quoted);
    s.append("}}");
    s
}

/// The JSON body of a webhook text message.
pub fn webhook_payload(content: &str) -> (r: String)
    ensures
        r@ == webhook_body(content@),
{
    let quoted = json_string(content);
    frame_webhook_payload(quoted.as_str())
}

/// Where announcements go: the primary chat always, the webhook where one is configured.
pub struct ChannelConfig {
    pub primary_chat: i64,
    pub webhook_url: Option<String>,
}

/// One send to the webhook side channel.
pub struct WebhookSend {
    pub url: String,
    pub body: String,
}

/// The sends that deliver one text: to the primary chat, and to the webhook where it is
/// enabled. They are independent of each other and may run concurrently.
pub struct DispatchPlan {
    pub primary_chat: i64,
    pub text: String,
    pub webhook: Option<WebhookSend>,
}

/// What the outcome of a webhook send was.
pub enum SideOutcome {
    Disabled,
    Sent,
    Failed,
}

/// The result of delivering one text; only the primary channel counts.
pub struct DeliveryOutcome {
    pub primary_succeeded: bool,
}

/// Whether `plan` delivers `text` under `config`.
pub open spec fn plans_text(config: ChannelConfig, text: Seq<char>, plan: DispatchPlan) -> bool {
    &&& plan.primary_chat == config.primary_chat
    &&& plan.text@ == text
    &&& match config.webhook_url {
        None => plan.webhook is None,
        Some(url) => match plan.webhook {
            Some(w) => w.url@ == url@ && w.body@ == webhook_body(text),
            None => false,
        },
    }
}

/// The outcome of a delivery, from what each channel reported.
pub open spec fn outcome_of(primary_ok: bool, side: SideOutcome) -> DeliveryOutcome {
    DeliveryOutcome { primary_succeeded: primary_ok }
}

/// Plans the delivery of a text to every enabled channel.
pub fn plan_text_delivery(config: &ChannelConfig, text: &str) -> (r: DispatchPlan)
    ensures
        plans_text(*config, text@, r),
{
    let webhook = match &config.webhook_url {
        Some(url) => Some(WebhookSend { url: url.clone(), body: webhook_payload(text) }),
        None => None,
    };
    DispatchPlan { primary_chat: config.primary_chat, text: String::from_str(text), webhook }
}

/// Plans the delivery of the announcement of a record to every enabled channel.
pub fn plan_delivery(config: &ChannelConfig, record: &CampaignRecord) -> (r: DispatchPlan)
    ensures
        plans_text(*config, announcement(*record), r),
{
    let text = render_announcement(record);
    plan_text_delivery(config, text.as_str())
}

impl DeliveryOutcome {
    /// The outcome of a delivery once every send of its plan has completed.
    pub fn from_channels(primary_ok: bool, side: SideOutcome) -> (r: DeliveryOutcome)
        ensures
            r == outcome_of(primary_ok, side),
    {
        DeliveryOutcome { primary_succeeded: primary_ok }
    }
}

/// A webhook that fails, or is switched off, leaves the outcome of a delivery as the
/// primary channel reported it.
pub proof fn side_channel_never_decides(primary_ok: bool, side: SideOutcome, other: SideOutcome)
    ensures
        outcome_of(primary_ok, side) == outcome_of(primary_ok, other),
        outcome_of(primary_ok, side).primary_succeeded == primary_ok,
{
}

/// Without a configured webhook URL, a delivery sends to the primary chat alone.
pub proof fn disabled_side_channel_not_sent(config: ChannelConfig, text: Seq<char>, plan: DispatchPlan)
    requires
        config.webhook_url is None,
        plans_text(config, text, plan),
    ensures
        plan.webhook is None,
        plan.primary_chat == config.primary_chat,
{
}

} // verus!
