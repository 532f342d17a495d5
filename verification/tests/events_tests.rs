use neutrobot::events::{
    already_starboarded, approval_button_ids, approval_info_text, approved_by_reaction_text,
    approved_post_text, audit_actor, block_target, build_ai_prompt, build_attachment_media_items,
    button_verdict, command_log_entry, delete_log_entry, display_name, extract_meta_content,
    extract_tenor_media_url, extract_urls, gallery_urls, is_direct_media_url, is_logged_command,
    is_star_emoji, is_tenor_page, join_role, media_queue_target, mention_action,
    new_media_request, reaction_role_config, reaction_role_prompt, reaction_role_target,
    reaction_verdict, record_sticky_post, restricted_reply, role_change_text, role_log_entry,
    star_count, starboard_post_text, starboard_step, sticky_repost, sticky_setup, voice_change,
    voice_log_entry, HistoryEntry, MediaVerdict, MentionAction, StarboardStep, StickySetup,
    VoiceChange,
};
use neutrobot::settings::GuildSettings;
use neutrobot::state::{MediaRequest, StickyMessage};
use neutrobot::store::KeyedStore;
use neutrobot::terminal::flags_add;

fn s(x: &str) -> String {
    x.to_string()
}

#[test]
fn urls_are_whitespace_words_with_http_scheme() {
    let urls = extract_urls("look https://a.com/x.png and http://b.org ftp://c nothttps://d");
    assert_eq!(urls, vec![s("https://a.com/x.png"), s("http://b.org")]);
    assert!(extract_urls("").is_empty());
}

#[test]
fn direct_media_ignores_query_and_case() {
    assert!(is_direct_media_url("https://x.com/a.PNG?size=2"));
    assert!(is_direct_media_url("https://x.com/clip.mp4"));
    assert!(!is_direct_media_url("https://x.com/page.html"));
    assert!(!is_direct_media_url("https://x.com/a?.png"));
}

#[test]
fn meta_content_reads_quoted_value() {
    let body: Vec<char> = "<meta property=\"og:image\" content=\"https://m/x.gif\">".chars().collect();
    let marker: Vec<char> = "property=\"og:image\" content=\"".chars().collect();
    let got = extract_meta_content(&body, &marker).map(|v| v.into_iter().collect::<String>());
    assert_eq!(got, Some(s("https://m/x.gif")));
    let none: Vec<char> = "nothing".chars().collect();
    assert_eq!(extract_meta_content(&none, &marker), None);
}

#[test]
fn tenor_page_media_from_meta_or_bare_link() {
    let page = "<meta property=\"og:video\" content=\"https:\\/\\/media.tenor.com\\/a.mp4\">";
    assert_eq!(extract_tenor_media_url(page), Some(s("https://media.tenor.com/a.mp4")));
    let bare = "junk https://media.tenor.com/b.gif<end";
    assert_eq!(extract_tenor_media_url(bare), Some(s("https://media.tenor.com/b.gif")));
    assert_eq!(extract_tenor_media_url("no media here"), None);
    assert!(is_tenor_page("https://tenor.com/view/cat"));
    assert!(!is_tenor_page("https://giphy.com/x"));
}

#[test]
fn attachment_links_use_file_names() {
    let got = build_attachment_media_items(&[s("/data/request_media/1/0_cat.png"), s("/")]);
    assert_eq!(got, vec![s("attachment://0_cat.png")]);
}

#[test]
fn gallery_keeps_ten_in_order() {
    let stored = vec![s("/d/a.png")];
    let content: Vec<String> = (0..12).map(|i| format!("https://c/{i}.png")).collect();
    let got = gallery_urls(&stored, &content, &[s("https://att/1.png")]);
    assert_eq!(got.len(), 10);
    assert_eq!(got[0], "attachment://a.png");
    assert_eq!(got[1], "https://c/0.png");
    assert_eq!(got[9], "https://c/8.png");
    let small = gallery_urls(&[], &[s("u1")], &[s("u2")]);
    assert_eq!(small, vec![s("u1"), s("u2")]);
}

#[test]
fn queue_needs_flag_approval_channel_and_media() {
    let mut flags: KeyedStore<Vec<String>> = KeyedStore::new();
    let mut approvals: KeyedStore<String> = KeyedStore::new();
    approvals.insert(s("100"), s("200"));
    assert_eq!(media_queue_target(&flags, &approvals, "100", "https://x/y.png", 0), None);
    flags_add(&mut flags, s("100"), s("REQUEST"));
    assert_eq!(media_queue_target(&flags, &approvals, "100", "https://x/y.png", 0), Some(200));
    assert_eq!(media_queue_target(&flags, &approvals, "100", "just text", 0), None);
    assert_eq!(media_queue_target(&flags, &approvals, "100", "just text", 1), Some(200));
    approvals.insert(s("100"), s("0"));
    assert_eq!(media_queue_target(&flags, &approvals, "100", "just text", 1), None);
}

#[test]
fn approval_texts_and_buttons() {
    assert_eq!(
        approval_info_text(1, 2, ""),
        "## Media Approval Request\n**From:** <@1>\n**Channel:** <#2>"
    );
    assert_eq!(
        approval_info_text(1, 2, "hi"),
        "## Media Approval Request\n**From:** <@1>\n**Channel:** <#2>\n\nhi"
    );
    let (a, d, b) = approval_button_ids(42);
    assert_eq!((a.as_str(), d.as_str(), b.as_str()), ("media_approve_42", "media_deny_42", "media_block_42"));
    assert_eq!(button_verdict(&a), Some(MediaVerdict::Approve));
    assert_eq!(button_verdict(&d), Some(MediaVerdict::Deny));
    assert_eq!(button_verdict(&b), Some(MediaVerdict::Block));
    assert_eq!(button_verdict("terminal_x"), None);
}

#[test]
fn reaction_verdicts() {
    assert_eq!(reaction_verdict("✅"), Some(MediaVerdict::Approve));
    assert_eq!(reaction_verdict("1475200940964319414"), Some(MediaVerdict::Block));
    assert_eq!(reaction_verdict("❌"), Some(MediaVerdict::Deny));
    assert_eq!(reaction_verdict("🚫"), Some(MediaVerdict::Deny));
    assert_eq!(reaction_verdict("1474811226143068303"), Some(MediaVerdict::Deny));
    assert_eq!(reaction_verdict("👍"), None);
}

fn request() -> MediaRequest {
    new_media_request(s("10"), s("20"), vec![], vec![s("https://c/1.png")], vec![s("https://a/2.png")], "look")
}

#[test]
fn new_request_keeps_attachments_only_without_stored_files() {
    let r = request();
    assert_eq!(r.attachment_urls, vec![s("https://a/2.png")]);
    assert_eq!(r.original_text, Some(s("look")));
    let r2 = new_media_request(s("10"), s("20"), vec![s("/f")], vec![], vec![s("x")], "");
    assert!(r2.attachment_urls.is_empty());
    assert_eq!(r2.original_text, None);
}

#[test]
fn approved_texts() {
    let r = request();
    assert_eq!(approved_post_text(5, &r), "Approved by <@5>\nOriginal sender <@20>\n\nlook");
    assert_eq!(
        approved_by_reaction_text(5, &r),
        "Вложение одобрил <@5>\nОригинальный отправитель <@20>\nlook\nhttps://c/1.png\nhttps://a/2.png"
    );
    assert_eq!(block_target(&r), Some((10, 20)));
    let bad = new_media_request(s("x"), s("20"), vec![], vec![], vec![], "");
    assert_eq!(block_target(&bad), None);
}

#[test]
fn stars_are_counted_and_posted() {
    assert!(is_star_emoji("⭐") && is_star_emoji("star") && !is_star_emoji("🌟"));
    let n = star_count(&[(s("⭐"), 3), (s("👍"), 9), (s("1475196363343003973"), 2)]);
    assert_eq!(n, 5);
    let mut g = GuildSettings::default();
    assert_eq!(starboard_step(&g, 100), StarboardStep::Stop);
    g.starboard_channel_id = Some(7);
    assert_eq!(starboard_step(&g, 9), StarboardStep::Continue);
    assert_eq!(starboard_step(&g, 10), StarboardStep::Post(7));
    let text = starboard_post_text(5, 3, "ann", "hello", &[s("u1"), s("u2")], 1, 9);
    assert_eq!(
        text,
        "⭐ **5** | <#3>\n\n**ann**: hello\n\nAttachments:\nu1\nu2\n\n[Jump to Message](https://discord.com/channels/1/3/9)"
    );
    let mut done: KeyedStore<bool> = KeyedStore::new();
    assert!(!already_starboarded(&done, "9"));
    done.insert(s("9"), true);
    assert!(already_starboarded(&done, "9"));
}

#[test]
fn reaction_roles_round_trip() {
    let c = reaction_role_config(777, "🔥");
    assert_eq!(reaction_role_target(&c, "🔥"), Some(777));
    assert_eq!(reaction_role_target(&c, "💧"), None);
    assert_eq!(reaction_role_prompt(None, "🔥", 777), "React with 🔥 to get the role with ID 777!");
    assert_eq!(reaction_role_prompt(Some(s("custom")), "🔥", 777), "custom");
}

#[test]
fn voice_changes_and_logs() {
    assert_eq!(voice_change(None, Some(3)), VoiceChange::Joined(3));
    assert_eq!(voice_change(Some(3), None), VoiceChange::Left(3));
    assert_eq!(voice_change(Some(3), Some(4)), VoiceChange::Moved(3, 4));
    assert_eq!(voice_change(Some(3), Some(3)), VoiceChange::Unchanged);
    assert_eq!(audit_actor(Some((9, Some(1))), 1), Some(9));
    assert_eq!(audit_actor(Some((9, Some(2))), 1), None);
    let e = voice_log_entry(VoiceChange::Moved(3, 4), 1, None).unwrap();
    assert_eq!(e.description, "**User:** <@1>\n**From:** <#3>\n**To:** <#4>\n**Moved By:** Self/Unknown");
    assert_eq!(e.color, 0xaaaaff);
    let j = voice_log_entry(VoiceChange::Joined(3), 1, None).unwrap();
    assert_eq!(j.description, "**User:** <@1>\n**Channel:** <#3>");
    assert!(voice_log_entry(VoiceChange::Unchanged, 1, None).is_none());
}

#[test]
fn role_changes_and_logs() {
    assert_eq!(role_change_text(&[1, 2], &[2, 1]), None);
    assert_eq!(role_change_text(&[1], &[1, 2, 3]), Some(s("**Added:** <@&2>, <@&3>")));
    assert_eq!(role_change_text(&[1, 4], &[1, 2]), Some(s("**Added:** <@&2>\n**Removed:** <@&4>")));
    let e = role_log_entry(5, Some(6), "x");
    assert_eq!(e.description, "**User:** <@5>\n**Updated By:** <@6>\nx");
    let d = delete_log_entry(1, 2, None);
    assert_eq!(d.description, "**Channel:** <#1>\n**Message ID:** `2`\n**Deleted By:** Unknown/Self");
    let c = command_log_entry("a#1", 5, 6, "!ping");
    assert_eq!(c.description, "**User:** a#1 (<@5>)\n**Channel:** <#6>\n**Command:** `!ping`");
    assert!(is_logged_command("!x", 1, None));
    assert!(is_logged_command("$x", 1, None));
    assert!(is_logged_command("hi", 1, Some(1)));
    assert!(!is_logged_command("hi", 1, Some(2)));
}

#[test]
fn join_role_prefers_configured() {
    assert_eq!(join_role(Some(1), Some("2")), Some(1));
    assert_eq!(join_role(None, Some("2")), Some(2));
    assert_eq!(join_role(None, Some("x")), None);
    assert_eq!(join_role(None, None), None);
}

#[test]
fn mention_decisions() {
    let mut store: KeyedStore<GuildSettings> = KeyedStore::new();
    assert!(matches!(mention_action(&store, Some(1), true, 5, "<@9> hi", 9), MentionAction::Ignore));
    let mut g = GuildSettings::default();
    g.ai_enabled = true;
    store.insert(s("1"), g);
    assert!(matches!(mention_action(&store, None, true, 5, "<@9> hi", 9), MentionAction::Ignore));
    assert!(matches!(mention_action(&store, Some(1), false, 5, "hi", 9), MentionAction::Ignore));
    assert!(matches!(mention_action(&store, Some(1), true, 5, "<@9>", 9), MentionAction::AskQuestion));
    match mention_action(&store, Some(1), true, 5, "<@9> what? ", 9) {
        MentionAction::Generate(q) => assert_eq!(q, "what?"),
        _ => panic!("expected a question"),
    }
    let mut g2 = GuildSettings::default();
    g2.ai_enabled = true;
    g2.ai_channel_id = Some(7);
    store.insert(s("1"), g2);
    assert!(matches!(mention_action(&store, Some(1), true, 5, "<@9> q", 9), MentionAction::Restricted(7)));
    assert_eq!(restricted_reply(7), "AI replies are restricted to <#7> on this server.");
}

#[test]
fn prompt_and_names() {
    assert_eq!(display_name(Some("Ann"), "ann1"), "Ann");
    assert_eq!(display_name(Some(""), "ann1"), "ann1");
    assert_eq!(display_name(None, "ann1"), "ann1");
    let history = vec![
        HistoryEntry { speaker: s("B"), content: s("  newest "), attachments: 0 },
        HistoryEntry { speaker: s("C"), content: s("  "), attachments: 0 },
        HistoryEntry { speaker: s("A"), content: s(""), attachments: 2 },
    ];
    let p = build_ai_prompt(&history, "Me", "question", 1);
    assert_eq!(
        p,
        "Recent channel context, oldest first:\nA: [attachment only]\nB: newest\nMe: question\n[Attached images: 1]\n\nReply to the latest user message."
    );
}

#[test]
fn sticky_setup_and_repost() {
    let mut awaiting: KeyedStore<String> = KeyedStore::new();
    let mut stickies: KeyedStore<StickyMessage> = KeyedStore::new();
    assert_eq!(sticky_setup(&mut awaiting, &mut stickies, "u", "c", "x", None), StickySetup::NotAwaiting);
    awaiting.insert(s("u"), s("c"));
    assert_eq!(sticky_setup(&mut awaiting, &mut stickies, "u", "c", "   ", None), StickySetup::Empty);
    assert!(awaiting.contains_key("u"));
    assert_eq!(sticky_setup(&mut awaiting, &mut stickies, "u", "c", " pinned ", None), StickySetup::Stored);
    assert!(!awaiting.contains_key("u"));
    let (old, content, image) = sticky_repost(stickies.get("c").unwrap());
    assert_eq!((old, content, image), (None, Some(s("pinned")), None));
    record_sticky_post(&mut stickies, "c", 55);
    let (old, content, _) = sticky_repost(stickies.get("c").unwrap());
    assert_eq!((old, content), (Some(55), Some(s("pinned"))));
}
