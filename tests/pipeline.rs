use airdrop_bot::{
    answer, fetch_request_body, format_timestamp, latest_reply, parse_command, plan_delivery,
    plan_text_delivery, records_or_empty, render_announcement, render_civil_time,
    render_summary_line, webhook_payload, BotConfig, CampaignRecord, ChannelConfig, Command,
    CommandAction, ConfigError, DeliveryOutcome, FetchError, PollCycle, SeenSet, SideOutcome,
    CHANNEL_TEST_TEXT, HELP_TEXT, NO_RECORDS_TEXT, PONG_TEXT, PRIVATE_TEST_TEXT,
};

fn record(id: &str, status: &str) -> CampaignRecord {
    CampaignRecord {
        id: id.to_string(),
        name: format!("Campaign {}", id),
        status: status.to_string(),
        amount: "1500".to_string(),
        token_symbol: "TKN".to_string(),
        claim_start_ms: 0,
        claim_end_ms: 86_400_000,
        points_threshold: "200".to_string(),
        points_cost: "15".to_string(),
        contract_address: "0xabc".to_string(),
    }
}

fn config(webhook: Option<&str>) -> BotConfig {
    BotConfig::from_values(
        Some("https://example.invalid/feed".to_string()),
        Some(-100123),
        webhook.map(|w| w.to_string()),
        None,
        None,
    )
    .ok()
    .unwrap()
}

/// Runs one poll cycle; `primary_ok` decides what the primary channel reports for each
/// record delivered. Returns the ids of the records delivered, in order.
fn run_cycle(
    seen: &mut SeenSet,
    fetched: Result<Vec<CampaignRecord>, FetchError>,
    primary_ok: &dyn Fn(&str) -> bool,
    side: &dyn Fn() -> SideOutcome,
) -> Vec<String> {
    let mut cycle = PollCycle::from_fetch(fetched);
    let mut delivered = Vec::new();
    while let Some(i) = cycle.next_delivery(seen) {
        let id = cycle.records[i].id.clone();
        let outcome = DeliveryOutcome::from_channels(primary_ok(&id), side());
        delivered.push(id);
        cycle.finish_delivery(seen, i, outcome);
    }
    delivered
}

fn seen_ids(seen: &SeenSet) -> Vec<String> {
    let mut ids = seen.ids.clone();
    ids.sort();
    ids
}

#[test]
fn one_active_one_ended_cycle() {
    let mut seen = SeenSet::new();
    let fetched = Ok(vec![record("A", "active"), record("B", "ended")]);
    let delivered = run_cycle(&mut seen, fetched, &|_| true, &|| SideOutcome::Sent);
    assert_eq!(delivered, vec!["A".to_string()]);
    assert_eq!(seen_ids(&seen), vec!["A".to_string()]);
}

#[test]
fn ended_records_never_delivered() {
    let mut seen = SeenSet::new();
    let fetched = Ok(vec![record("X", "ended"), record("Y", "ended")]);
    let delivered = run_cycle(&mut seen, fetched, &|_| true, &|| SideOutcome::Sent);
    assert!(delivered.is_empty());
    assert!(seen.ids.is_empty());
}

#[test]
fn delivered_record_not_repeated() {
    let mut seen = SeenSet::new();
    let first = run_cycle(&mut seen, Ok(vec![record("A", "active")]), &|_| true, &|| {
        SideOutcome::Disabled
    });
    assert_eq!(first, vec!["A".to_string()]);
    let second = run_cycle(
        &mut seen,
        Ok(vec![record("A", "active"), record("C", "upcoming")]),
        &|_| true,
        &|| SideOutcome::Disabled,
    );
    assert_eq!(second, vec!["C".to_string()]);
    assert_eq!(seen_ids(&seen), vec!["A".to_string(), "C".to_string()]);
}

#[test]
fn duplicate_id_in_one_snapshot_marked_once() {
    let mut seen = SeenSet::new();
    let delivered = run_cycle(
        &mut seen,
        Ok(vec![record("A", "active"), record("A", "active")]),
        &|_| true,
        &|| SideOutcome::Sent,
    );
    assert_eq!(delivered, vec!["A".to_string()]);
    assert_eq!(seen.ids.len(), 1);
}

#[test]
fn failed_primary_retried_next_cycle() {
    let mut seen = SeenSet::new();
    let first = run_cycle(&mut seen, Ok(vec![record("A", "active")]), &|_| false, &|| {
        SideOutcome::Sent
    });
    assert_eq!(first, vec!["A".to_string()]);
    assert!(!seen.contains(&"A".to_string()));
    let second = run_cycle(&mut seen, Ok(vec![record("A", "active")]), &|_| true, &|| {
        SideOutcome::Sent
    });
    assert_eq!(second, vec!["A".to_string()]);
    assert!(seen.contains(&"A".to_string()));
}

#[test]
fn failing_side_channel_still_marks_seen() {
    let mut seen = SeenSet::new();
    let delivered = run_cycle(&mut seen, Ok(vec![record("A", "active")]), &|_| true, &|| {
        SideOutcome::Failed
    });
    assert_eq!(delivered, vec!["A".to_string()]);
    assert!(seen.contains(&"A".to_string()));
    assert!(DeliveryOutcome::from_channels(true, SideOutcome::Failed).primary_succeeded);
    assert!(!DeliveryOutcome::from_channels(false, SideOutcome::Sent).primary_succeeded);
}

#[test]
fn failed_fetch_changes_nothing() {
    let mut seen = SeenSet::new();
    seen.mark_seen(&"Z".to_string());
    let fetched = Err(FetchError { detail: "timed out".to_string() });
    let delivered = run_cycle(&mut seen, fetched, &|_| true, &|| SideOutcome::Sent);
    assert!(delivered.is_empty());
    assert_eq!(seen_ids(&seen), vec!["Z".to_string()]);
}

#[test]
fn seen_set_membership() {
    let mut seen = SeenSet::new();
    let a = "A".to_string();
    assert!(seen.is_novel(&a));
    seen.mark_seen(&a);
    seen.mark_seen(&a);
    assert!(!seen.is_novel(&a));
    assert!(seen.is_novel(&"B".to_string()));
    assert_eq!(seen.ids.len(), 1);
}

#[test]
fn disabled_side_channel_not_planned() {
    let plan = plan_delivery(&config(None).channels, &record("A", "active"));
    assert!(plan.webhook.is_none());
    assert_eq!(plan.primary_chat, -100123);
    assert_eq!(plan.text, render_announcement(&record("A", "active")));
}

#[test]
fn enabled_side_channel_planned() {
    let channels = ChannelConfig {
        primary_chat: 7,
        webhook_url: Some("https://hook.invalid/send".to_string()),
    };
    let plan = plan_text_delivery(&channels, "hi");
    let hook = plan.webhook.unwrap();
    assert_eq!(hook.url, "https://hook.invalid/send");
    assert_eq!(hook.body, "{\"msgtype\":\"text\",\"text\":{\"content\":\"hi\"}}");
    assert_eq!(plan.primary_chat, 7);
    assert_eq!(plan.text, "hi");
}

#[test]
fn webhook_payload_escapes_content() {
    assert_eq!(
        webhook_payload("a \"b\"\nc"),
        "{\"msgtype\":\"text\",\"text\":{\"content\":\"a \\\"b\\\"\\nc\"}}"
    );
}

#[test]
fn fetch_body_asks_first_page_of_twenty() {
    assert_eq!(fetch_request_body(1, 20), "{\"page\":1,\"rows\":20}");
    assert_eq!(fetch_request_body(0, 1234567), "{\"page\":0,\"rows\":1234567}");
}

#[test]
fn epoch_start_in_display_zone() {
    assert_eq!(format_timestamp(0), "1970-01-01 08:00:00");
    assert_eq!(format_timestamp(1_700_000_000_000), "2023-11-15 06:13:20");
    assert_eq!(format_timestamp(-1000), "1970-01-01 07:59:59");
}

#[test]
fn out_of_range_timestamp_is_marked_invalid() {
    assert_eq!(format_timestamp(i64::MAX), "无效时间");
    assert_eq!(format_timestamp(i64::MIN), "无效时间");
    assert_eq!(render_civil_time(None), "无效时间");
}

#[test]
fn civil_time_years_outside_four_digits() {
    assert_eq!(render_civil_time(Some((-1, 1, 2, 3, 4, 5))), "-0001-01-02 03:04:05");
    assert_eq!(render_civil_time(Some((12345, 12, 31, 23, 59, 59))), "+12345-12-31 23:59:59");
    assert_eq!(render_civil_time(Some((7, 6, 5, 4, 3, 2))), "0007-06-05 04:03:02");
}

#[test]
fn announcement_lists_every_field() {
    let text = render_announcement(&record("A", "active"));
    assert_eq!(
        text,
        "📢 新空投上线: Campaign A\n🪙 Token: TKN\n🎁 空投量: 1500\n📈 积分门槛: 200\n💸 积分消耗: 15\n📦 合约地址: 0xabc\n🕒 开始时间: 1970-01-01 08:00:00\n⏳ 结束时间: 1970-01-02 08:00:00\n🚦 状态: active"
    );
}

#[test]
fn summary_line_is_compact() {
    assert_eq!(render_summary_line(&record("A", "active")), "Campaign A | TKN 1500 | active");
}

#[test]
fn missing_payload_gives_no_records() {
    assert!(records_or_empty(None).is_empty());
    assert_eq!(records_or_empty(Some(vec![record("A", "active")])).len(), 1);
}

#[test]
fn latest_query_empty_snapshot() {
    assert_eq!(latest_reply(&Ok(vec![])), NO_RECORDS_TEXT);
}

#[test]
fn latest_query_first_record_only() {
    let reply = latest_reply(&Ok(vec![record("A", "active"), record("B", "ended")]));
    assert_eq!(reply, render_announcement(&record("A", "active")));
    assert!(!reply.contains("Campaign B"));
}

#[test]
fn latest_query_failure_carries_detail() {
    let reply = latest_reply(&Err(FetchError { detail: "status 502".to_string() }));
    assert_eq!(reply, "获取空投信息失败: status 502");
}

#[test]
fn restricted_command_from_other_chat_sends_nothing() {
    let cfg = config(Some("https://hook.invalid/send"));
    match answer(Command::MsgTest, 42, &cfg) {
        CommandAction::Reply { chat, text } => {
            assert_eq!(chat, 42);
            assert_eq!(text, PRIVATE_TEST_TEXT);
        }
        _ => panic!("expected a reply"),
    }
}

#[test]
fn restricted_command_from_allowed_chat_reaches_all_channels() {
    let cfg = config(Some("https://hook.invalid/send"));
    match answer(Command::MsgTest, cfg.dev_chat, &cfg) {
        CommandAction::Broadcast { plan } => {
            assert_eq!(plan.primary_chat, -100123);
            assert_eq!(plan.text, CHANNEL_TEST_TEXT);
            assert_eq!(plan.webhook.unwrap().url, "https://hook.invalid/send");
        }
        _ => panic!("expected a broadcast"),
    }
    match answer(Command::MsgTest, cfg.dev_chat, &config(None)) {
        CommandAction::Broadcast { plan } => assert!(plan.webhook.is_none()),
        _ => panic!("expected a broadcast"),
    }
}

#[test]
fn ping_help_and_query_answers() {
    let cfg = config(None);
    match answer(Command::Ping, 5, &cfg) {
        CommandAction::Reply { chat, text } => {
            assert_eq!(chat, 5);
            assert_eq!(text, PONG_TEXT);
        }
        _ => panic!("expected a reply"),
    }
    match answer(Command::Help, 5, &cfg) {
        CommandAction::Reply { text, .. } => {
            assert_eq!(text, HELP_TEXT);
            assert!(text.contains("/msgtest"));
        }
        _ => panic!("expected a reply"),
    }
    assert!(matches!(answer(Command::Airdrops, 5, &cfg), CommandAction::FetchLatest { chat: 5 }));
}

#[test]
fn command_parsing() {
    assert_eq!(parse_command("/ping", "MyBot"), Some(Command::Ping));
    assert_eq!(parse_command("/help extra words", "MyBot"), Some(Command::Help));
    assert_eq!(parse_command("/airdrops@mybot", "MyBot"), Some(Command::Airdrops));
    assert_eq!(parse_command("/msgtest@MYBOT now", "MyBot"), Some(Command::MsgTest));
    assert_eq!(parse_command("/ping@otherbot", "MyBot"), None);
    assert_eq!(parse_command("/unknown", "MyBot"), None);
    assert_eq!(parse_command("ping", "MyBot"), None);
    assert_eq!(parse_command("", "MyBot"), None);
}

#[test]
fn config_requires_source_and_chat() {
    assert_eq!(
        BotConfig::from_values(None, Some(1), None, None, None).err(),
        Some(ConfigError::MissingSourceUrl)
    );
    assert_eq!(
        BotConfig::from_values(Some("u".to_string()), None, None, None, None).err(),
        Some(ConfigError::MissingPrimaryChat)
    );
    let cfg = BotConfig::from_values(Some("u".to_string()), Some(9), None, Some(3), Some(60))
        .ok()
        .unwrap();
    assert_eq!(cfg.channels.primary_chat, 9);
    assert_eq!(cfg.dev_chat, 3);
    assert_eq!(cfg.poll_interval_secs, 60);
    let defaults = config(None);
    assert_eq!(defaults.dev_chat, 962210352);
    assert_eq!(defaults.poll_interval_secs, 30);
}
