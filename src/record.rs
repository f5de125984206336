use vstd::prelude::*;
use vstd::string::*;
use crate::time::{display_time, format_timestamp};

verus! {

/// One campaign record of a fetched snapshot.
///
/// The amounts are kept as the decimal text under which the feed reports them.
pub struct CampaignRecord {
    pub id: String,
    pub name: String,
    pub status: String,
    pub amount: String,
    pub token_symbol: String,
    pub claim_start_ms: i64,
    pub claim_end_ms: i64,
    pub points_threshold: String,
    pub points_cost: String,
    pub contract_address: String,
}

/// The status value after which a campaign is never announced.
pub open spec fn ended_status() -> Seq<char> {
    seq!['e', 'n', 'd', 'e', 'd']
}

/// Whether a record has reached its terminal status.
pub open spec fn is_ended(r: CampaignRecord) -> bool {
    r.status@ == ended_status()
}

/// The announcement of a record, given the display text of its claim window.
pub open spec fn announcement_text(r: CampaignRecord, start: Seq<char>, end: Seq<char>) -> Seq<
    char,
> {
    "📢 新空投上线: "@ + r.name@ + "\n🪙 Token: "@ + r.token_symbol@ + "\n🎁 空投量: "@ + r.amount@
        + "\n📈 积分门槛: "@ + r.points_threshold@ + "\n💸 积分消耗: "@ + r.points_cost@
        + "\n📦 合约地址: "@ + r.contract_address@ + "\n🕒 开始时间: "@ + start
        + "\n⏳ 结束时间: "@ + end + "\n🚦 状态: "@ + r.status@
}

/// The full announcement of a record.
pub open spec fn announcement(r: CampaignRecord) -> Seq<char> {
    announcement_text(r, display_time(r.claim_start_ms as int), display_time(r.claim_end_ms as int))
}

/// The one-line form of a record used in listings.
pub open spec fn summary_line(r: CampaignRecord) -> Seq<char> {
    r.name@ + " | "@ + r.token_symbol@ + " "@ + r.amount@ + " | "@ + r.status@
}

/// The records of a fetched envelope: none where the envelope holds no payload.
pub open spec fn envelope_records(data: Option<Seq<CampaignRecord>>) -> Seq<CampaignRecord> {
    match data {
        Some(rs) => rs,
        None => Seq::empty(),
    }
}

impl CampaignRecord {
    /// Whether the record has reached its terminal status.
    pub fn is_ended(&self) -> (r: bool)
        ensures
            r == is_ended(*self),
    {
        proof { reveal_strlit("ended"); }
        let ended = String::from_str("ended");
        assert(ended@ =~= ended_status());
        self.status == ended
    }
}

/// Renders the announcement of a record around the given display text of its claim
/// window.
pub fn announcement_with_times(record: &CampaignRecord, start: &str, end: &str) -> (r: String)
    ensures
        r@ == announcement_text(*record, start@, end@),
{
    let mut s = String::from_str("📢 新空投上线: ");
    s.append(record.name.as_str());
    s.append("\n🪙 Token: ");
    s.append(record.token_symbol.as_str());
    s.append("\n🎁 空投量: ");
    s.append(record.amount.as_str());
    s.append("\n📈 积分门槛: ");
    s.append(record.points_threshold.as_str());
    s.append("\n💸 积分消耗: ");
    s.append(record.points_cost.as_str());
    s.append("\n📦 合约地址: ");
    s.append(record.contract_address.as_str());
    s.append("\n🕒 开始时间: ");
    s.append(start);
    s.append("\n⏳ 结束时间: ");
    s.append(end);
    s.append("\n🚦 状态: ");
    s.append(record.status.as_str());
    s
}

/// Renders the full announcement of a record, its claim window in the display time zone.
pub fn render_announcement(record: &CampaignRecord) -> (r: String)
    ensures
        r@ == announcement(*record),
{
    let start = format_timestamp(record.claim_start_ms);
    let end = format_timestamp(record.claim_end_ms);
    announcement_with_times(record, start.as_str(), end.as_str())
}

/// Renders the one-line listing form of a record.
pub fn render_summary_line(record: &CampaignRecord) -> (r: String)
    ensures
        r@ == summary_line(*record),
{
    let mut s = record.name.clone();
    s.append(" | ");
    s.append(record.token_symbol.as_str());
    s.append(" ");
    s.append(record.amount.as_str());
    s.append(" | ");
    s.append(record.status.as_str());
    s
}

/// The records of a fetched envelope, empty where it holds no payload.
pub fn records_or_empty(data: Option<Vec<CampaignRecord>>) -> (r: Vec<CampaignRecord>)
    ensures
        r@ == envelope_records(
            match data {
                Some(v) => Some(v@),
                None => None,
            },
        ),
{
    match data {
        Some(v) => v,
        None => Vec::new(),
    }
}

} // verus!
