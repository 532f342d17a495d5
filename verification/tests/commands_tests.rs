use neutrobot::ai::{
    ai_mode_summary, ask_action, ask_refusal, current_model_summary, pick_chat_model,
    sanitize_discord_mentions, strip_bot_mention, token_claim_times_now, url_encode, AskAction,
    PromptImage,
};
use neutrobot::bot::{
    has_admin_permissions, has_private_voice_access, has_staff_access, owner_user_id,
    terminal_channel_id, MemberAccess,
};
use neutrobot::infra::{stub_address, stub_port, stub_response};
use neutrobot::moderation::{
    checked_duration_secs, clear_fetch_limit, fill_text, minutes_label, parse_duration_to_secs,
    reason_or_default, stream_text,
};
use neutrobot::settings::{set_id_setting, GuildSettings, IdSetting};
use neutrobot::store::KeyedStore;
use neutrobot::utility::{joined_info, parse_quote, profile_text, roles_info, QuoteOutcome};

fn s(x: &str) -> String {
    x.to_string()
}

#[test]
fn durations() {
    assert_eq!(parse_duration_to_secs("30m"), Some(1800));
    assert_eq!(parse_duration_to_secs(" 2H "), Some(7200));
    assert_eq!(parse_duration_to_secs("1d"), Some(86400));
    assert_eq!(parse_duration_to_secs("10s"), Some(10));
    assert_eq!(parse_duration_to_secs("0m"), None);
    assert_eq!(parse_duration_to_secs("-5m"), None);
    assert_eq!(parse_duration_to_secs("5w"), None);
    assert_eq!(parse_duration_to_secs("m"), None);
    assert_eq!(parse_duration_to_secs("+3m"), Some(180));
    assert_eq!(checked_duration_secs("30m"), Some(Some(1800)));
    assert_eq!(checked_duration_secs("5é"), None);
    assert_eq!(checked_duration_secs("9223372036854775807d"), None);
    assert_eq!(checked_duration_secs("9223372036854775807s"), Some(Some(9223372036854775807)));
}

#[test]
fn templates_and_defaults() {
    assert_eq!(fill_text(s("{user} was kicked: {reason}"), &[("{user}", "ann"), ("{reason}", "spam")]), "ann was kicked: spam");
    assert_eq!(reason_or_default(None), "No reason provided");
    assert_eq!(reason_or_default(Some(s("r"))), "r");
    assert_eq!(minutes_label(15), "15m");
    assert_eq!(minutes_label(-3), "-3m");
    assert_eq!(minutes_label(i64::MIN), "-9223372036854775808m");
    assert_eq!(clear_fetch_limit(300), 44);
    assert_eq!(stream_text("<@&{role_id}> {user} live: {link}", 5, "ann", "https://t"), "<@&5> ann live: https://t");
}

#[test]
fn model_choice() {
    assert_eq!(current_model_summary(" FLASH "), "gemini-2.5-flash");
    assert_eq!(ai_mode_summary("gemini-2.5-pro"), "gemini-2.5-pro");
    assert_eq!(ai_mode_summary("whatever"), "adaptive (`gemini-2.5-flash` or `gemini-2.5-pro`)");
    assert_eq!(pick_chat_model("adaptive", "please explain WHY this fails"), "gemini-2.5-pro");
    assert_eq!(pick_chat_model("adaptive", "hello"), "gemini-2.5-flash");
    assert_eq!(pick_chat_model("pro", "hello"), "gemini-2.5-pro");
    assert_eq!(pick_chat_model("image", "hello"), "gemini-2.5-flash");
}

#[test]
fn mentions_are_defused_and_stripped() {
    assert_eq!(sanitize_discord_mentions("@everyone <@1> <@&2> @here"), "@\u{200B}everyone <@\u{200B}1> <@\u{200B}&\u{200B}2> @\u{200B}here");
    assert_eq!(strip_bot_mention("<@9> hi <@!9>", 9), "hi");
    assert_eq!(url_encode("a b/é"), "a%20b%2F%C3%A9");
}

#[test]
fn image_data_is_base64() {
    let img = PromptImage::from_bytes(s("image/png"), b"hello");
    assert_eq!(img.data_base64(), "aGVsbG8=");
    assert_eq!(img.mime_type(), "image/png");
    assert_eq!(PromptImage::from_bytes(s("image/gif"), b"a").data_base64(), "YQ==");
    assert_eq!(PromptImage::from_bytes(s("image/gif"), b"").data_base64(), "");
    assert_eq!(PromptImage::from_bytes(s("image/gif"), &[0xfb, 0xff]).data_base64(), "+/8=");
}

#[test]
fn claim_times_from_a_reading() {
    assert_eq!(neutrobot::ai::claim_times_at(100), Some((100, 3700)));
    assert_eq!(neutrobot::ai::claim_times_at(usize::MAX - 3599), None);
    assert_eq!(neutrobot::ai::claim_times_at(usize::MAX - 3600), Some((usize::MAX - 3600, usize::MAX)));
}

#[test]
fn token_times_are_an_hour_apart() {
    let (iat, exp) = token_claim_times_now().unwrap();
    assert_eq!(exp, iat + 3600);
    assert!(iat > 1_600_000_000);
}

#[test]
fn ask_decisions() {
    let mut store: KeyedStore<GuildSettings> = KeyedStore::new();
    assert!(matches!(ask_action(&store, None, 1, None, "ann", "q"), AskAction::NotInGuild));
    assert!(matches!(ask_action(&store, Some(1), 1, None, "ann", "q"), AskAction::Disabled));
    let mut g = GuildSettings::default();
    g.ai_enabled = true;
    g.ai_channel_id = Some(3);
    g.staff_role_id = Some(50);
    store.insert(s("1"), g);
    assert!(matches!(ask_action(&store, Some(1), 4, None, "ann", "q"), AskAction::Restricted(3)));
    let staff = MemberAccess { permissions: None, roles: vec![50] };
    match ask_action(&store, Some(1), 4, Some(&staff), "ann", "  q  ") {
        AskAction::Generate(p) => assert_eq!(p, "ann: q"),
        _ => panic!("staff may ask anywhere"),
    }
    assert!(matches!(ask_action(&store, Some(1), 3, None, "ann", "   "), AskAction::EmptyPrompt));
    assert_eq!(ask_refusal(Some(3), false, true), "AI commands are restricted to <#3> on this server.");
    assert_eq!(ask_refusal(None, false, true), "Prompt cannot be empty.");
}

#[test]
fn access_checks() {
    let mut store: KeyedStore<GuildSettings> = KeyedStore::new();
    assert!(has_admin_permissions(Some(8)));
    assert!(has_admin_permissions(Some(32)));
    assert!(!has_admin_permissions(Some(16)));
    assert!(!has_admin_permissions(None));
    let m = MemberAccess { permissions: Some(0), roles: vec![7] };
    assert!(!has_staff_access(&store, Some(1), Some(&m)));
    set_id_setting(&mut store, 1, IdSetting::PrivateVoiceRole, Some(7));
    assert!(!has_staff_access(&store, Some(1), Some(&m)));
    assert!(has_private_voice_access(&store, Some(1), Some(&m)));
    set_id_setting(&mut store, 1, IdSetting::StaffRole, Some(7));
    assert!(has_staff_access(&store, Some(1), Some(&m)));
    assert!(!has_staff_access(&store, Some(1), None));
}

#[test]
fn configured_ids() {
    assert_eq!(owner_user_id(None), Some(s("1117969014698811593")));
    assert_eq!(owner_user_id(Some("  ")), Some(s("1117969014698811593")));
    assert_eq!(owner_user_id(Some("42")), Some(s("42")));
    let mut store: KeyedStore<GuildSettings> = KeyedStore::new();
    assert_eq!(terminal_channel_id(&store, Some(1), Some("9")), Some(9));
    set_id_setting(&mut store, 1, IdSetting::TerminalChannel, Some(5));
    assert_eq!(terminal_channel_id(&store, Some(1), Some("9")), Some(5));
    assert_eq!(terminal_channel_id(&store, None, None), None);
}

#[test]
fn health_endpoint() {
    assert_eq!(stub_port(Some("8080")), 8080);
    assert_eq!(stub_port(Some("70000")), 3000);
    assert_eq!(stub_port(None), 3000);
    assert_eq!(stub_address(80), "0.0.0.0:80");
    assert_eq!(stub_response(b""), None);
    let ok = stub_response(b"GET /health HTTP/1.1\r\n\r\n").unwrap();
    let body = "{\"ok\":true,\"service\":\"neutrobot-rust\"}";
    assert_eq!(ok, format!("HTTP/1.1 200 OK\r\nContent-Type: application/json\r\nContent-Length: {}\r\nConnection: close\r\n\r\n{}", body.len(), body));
    let missing = stub_response(b"GET /x HTTP/1.1\r\n").unwrap();
    let body = "{\"ok\":false,\"error\":\"not_found\"}";
    assert_eq!(missing, format!("HTTP/1.1 404 Not Found\r\nContent-Type: application/json\r\nContent-Length: {}\r\nConnection: close\r\n\r\n{}", body.len(), body));
    assert!(stub_response(b"GET / HTTP/1.1").unwrap().starts_with("HTTP/1.1 200"));
    assert!(stub_response(b"GET /healthz HTTP/1.1").unwrap().starts_with("HTTP/1.1 404"));
}

#[test]
fn quotes() {
    assert!(matches!(parse_quote("   "), QuoteOutcome::Usage));
    assert!(matches!(parse_quote("#ff0000"), QuoteOutcome::NoText));
    match parse_quote("  #FF0000   hello world ") {
        QuoteOutcome::Quote(c, t) => assert_eq!((c, t.as_str()), (0xFF0000, "hello world")),
        _ => panic!("expected a quote"),
    }
    match parse_quote("##FF0000 hi") {
        QuoteOutcome::Quote(c, t) => assert_eq!((c, t.as_str()), (0x2B2D31, "##FF0000 hi")),
        _ => panic!("expected a quote"),
    }
    match parse_quote("facade is nice") {
        QuoteOutcome::Quote(c, t) => assert_eq!((c, t.as_str()), (2829617, "facade is nice")),
        _ => panic!("expected a quote"),
    }
    match parse_quote("#12345 hi") {
        QuoteOutcome::Quote(c, t) => assert_eq!((c, t.as_str()), (0x2B2D31, "#12345 hi")),
        _ => panic!("expected a quote"),
    }
}

#[test]
fn profiles() {
    assert_eq!(joined_info("en", "2024"), "\n**Joined Server:** 2024");
    assert_eq!(roles_info("en", 0, &[]), "");
    assert_eq!(roles_info("en", 2, &[s("a"), s("b")]), "\n**Roles:** @a, @b");
    assert_eq!(roles_info("en", 3, &[]), "\n**Roles:** 3 roles hidden");
    assert_eq!(
        profile_text("en", "Ann", 7, "2020", "", ""),
        "## Profile - Ann\n**ID:** 7\n**Registered:** 2020"
    );
}
