use neutrobot::terminal::{close_flag_panel, flag_panel_event, PanelResponse, PanelSelection};
use neutrobot::events::{starboard_claim, StarboardStep};
use neutrobot::i18n::{get_dict, translate};
use neutrobot::terminal::terminal_text;
use neutrobot::events::{block_target, new_media_request, role_change_text, sticky_repost, sticky_setup};
use neutrobot::settings::{guild_settings, set_language, GuildSettings};
use neutrobot::state::StickyMessage;
use neutrobot::store::KeyedStore;
use neutrobot::terminal::{flags_add, flags_remove, has_request_flag, list_add_unique, list_contains, list_remove_all};

fn s(x: &str) -> String {
    x.to_string()
}

#[test]
fn ids_written_as_text_read_back() {
    let r = new_media_request(18446744073709551615u64.to_string(), 0u64.to_string(), vec![], vec![], vec![], "");
    assert_eq!(block_target(&r), Some((u64::MAX, 0)));
}

#[test]
fn settings_read_after_write_leaves_other_servers() {
    let mut store: KeyedStore<GuildSettings> = KeyedStore::new();
    set_language(&mut store, 12, s("en"));
    assert_eq!(guild_settings(&store, 12).language, "en");
    assert_eq!(guild_settings(&store, 1).language, "ru");
    assert_eq!(guild_settings(&store, 12).starboard_threshold, 10);
}

#[test]
fn same_roles_log_nothing() {
    assert_eq!(role_change_text(&[3, 1, 2], &[3, 1, 2]), None);
}

#[test]
fn request_flag_turns_queue_on_and_off() {
    let mut flags: KeyedStore<Vec<String>> = KeyedStore::new();
    assert!(!has_request_flag(&flags, "c"));
    flags_add(&mut flags, s("c"), s("request"));
    flags_add(&mut flags, s("c"), s("request"));
    assert_eq!(flags.get("c").unwrap().len(), 1);
    assert!(has_request_flag(&flags, "c"));
    flags_remove(&mut flags, s("c"), "request");
    assert!(!has_request_flag(&flags, "c"));
}

#[test]
fn whitelist_remove_takes_every_copy() {
    let mut list = vec![s("1"), s("2"), s("1")];
    assert!(!list_add_unique(&mut list, s("2")));
    list_remove_all(&mut list, "1");
    assert_eq!(list, vec![s("2")]);
    assert!(!list_contains(&list, "1"));
}

#[test]
fn sticky_set_then_repost_posts_it() {
    let mut awaiting: KeyedStore<String> = KeyedStore::new();
    let mut stickies: KeyedStore<StickyMessage> = KeyedStore::new();
    awaiting.insert(s("u"), s("c"));
    sticky_setup(&mut awaiting, &mut stickies, "u", "c", "", Some(s("https://img")));
    assert_eq!(sticky_repost(stickies.get("c").unwrap()), (None, None, Some(s("https://img"))));
}

#[test]
fn sanitized_text_never_pings() {
    let out = neutrobot::ai::sanitize_discord_mentions("@@everyone <<@9> <@&5> @here! @everyone@here");
    assert!(!out.contains("@everyone"));
    assert!(!out.contains("@here"));
    for (i, _) in out.match_indices("<@") {
        assert_eq!(out[i + 2..].chars().next(), Some('\u{200B}'));
    }
}

#[test]
fn starboard_posts_a_message_once() {
    let mut marks: KeyedStore<bool> = KeyedStore::new();
    let mut g = GuildSettings::default();
    g.starboard_channel_id = Some(4);
    assert_eq!(starboard_claim(&mut marks, s("m"), &g, 9), StarboardStep::Continue);
    assert_eq!(starboard_claim(&mut marks, s("m"), &g, 10), StarboardStep::Post(4));
    assert_eq!(starboard_claim(&mut marks, s("m"), &g, 50), StarboardStep::Continue);
    assert_eq!(marks.get("m"), Some(&true));
    assert_eq!(starboard_claim(&mut marks, s("n"), &GuildSettings::default(), 50), StarboardStep::Stop);
}

#[test]
fn sanitizing_only_adds_zero_width_spaces() {
    let input = "hi @everyone, <@1> and <@&2> @here\u{200B}!";
    let out = neutrobot::ai::sanitize_discord_mentions(input);
    assert_eq!(out.replace('\u{200B}', ""), input.replace('\u{200B}', ""));
}

#[test]
fn language_tables_agree() {
    assert_eq!(get_dict("en").len(), 57);
    for (i, (k, _)) in get_dict("en").iter().enumerate() {
        assert_eq!(get_dict("ru")[i].0, *k);
        assert_ne!(translate("ru", k), *k);
    }
    assert!(!terminal_text("en", "wl_list").is_empty() && !terminal_text("ru", "wl_list").is_empty());
    assert!(terminal_text("en", "nope").is_empty() && terminal_text("ru", "nope").is_empty());
}

fn placeholders(text: &str) -> Vec<String> {
    let mut out: Vec<String> = Vec::new();
    let mut rest = text;
    while let Some(start) = rest.find('{') {
        match rest[start..].find('}') {
            Some(end) => {
                out.push(rest[start..start + end + 1].to_string());
                rest = &rest[start + end + 1..];
            }
            None => break,
        }
    }
    out.sort();
    out
}

#[test]
fn language_tables_hold_the_same_placeholders() {
    for (k, en) in get_dict("en").iter() {
        assert_eq!(placeholders(en), placeholders(&translate("ru", k)), "{k}");
    }
    assert_eq!(placeholders(&translate("en", "MUTE_SUCCESS")), vec!["{duration}", "{reason}", "{user}"]);
    for key in ["wl_list", "echo_error", "flag_added", "massrole_done", "rrole_spawned", "flag_status"] {
        assert_eq!(placeholders(terminal_text("en", key)), placeholders(terminal_text("ru", key)));
    }
}

#[test]
fn closing_a_flag_panel_forgets_its_draft_afterwards() {
    let mut drafts: KeyedStore<neutrobot::state::TerminalFlagDraft> = KeyedStore::new();
    let mut flags: KeyedStore<Vec<String>> = KeyedStore::new();
    let r = flag_panel_event(&mut drafts, &mut flags, "en", "terminal_flag_open", s("m1"), s("u1"), PanelSelection::Other);
    assert!(matches!(r, PanelResponse::UpdateFlagPanel { .. }));
    let r = flag_panel_event(&mut drafts, &mut flags, "en", "terminal_flag_close", s("m1"), s("u1"), PanelSelection::Other);
    assert!(matches!(r, PanelResponse::CloseFlagPanel));
    assert!(drafts.contains_key("m1"));
    close_flag_panel(&mut drafts, "m1");
    assert!(!drafts.contains_key("m1"));
}

#[test]
fn an_unusable_key_signs_nothing() {
    let r = neutrobot::ai::service_assertion("bot@example.iam", "https://oauth2.example/token", b"not a key", 1, 3601);
    assert!(r.is_err());
}
