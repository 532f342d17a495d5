//! Per-server configuration: its values, defaults, how commands change it, and how it is shown.
use vstd::prelude::*;
use crate::ai::{current_model_summary, model_summary_spec};
use crate::store::KeyedStore;
use crate::text::{
    chars_of, concat2, concat3, decimal_spec, decimal_string, lowercase_chars, lowercase_of,
    owned, str_eq, string_of, trim_chars, trim_spec,
};

verus! {

/// The configuration of one server.
pub struct GuildSettings {
    pub language: String,
    pub staff_role_id: Option<u64>,
    pub stream_ping_role_id: Option<u64>,
    pub private_voice_role_id: Option<u64>,
    pub auto_role_id: Option<u64>,
    pub log_channel_id: Option<u64>,
    pub starboard_channel_id: Option<u64>,
    pub starboard_threshold: u64,
    pub terminal_channel_id: Option<u64>,
    pub ai_enabled: bool,
    pub ai_channel_id: Option<u64>,
    pub ai_model: String,
}

/// The value of a [`GuildSettings`], with its strings as character sequences.
pub struct GuildSettingsView {
    pub language: Seq<char>,
    pub staff_role_id: Option<u64>,
    pub stream_ping_role_id: Option<u64>,
    pub private_voice_role_id: Option<u64>,
    pub auto_role_id: Option<u64>,
    pub log_channel_id: Option<u64>,
    pub starboard_channel_id: Option<u64>,
    pub starboard_threshold: u64,
    pub terminal_channel_id: Option<u64>,
    pub ai_enabled: bool,
    pub ai_channel_id: Option<u64>,
    pub ai_model: Seq<char>,
}

impl View for GuildSettings {
    type V = GuildSettingsView;

    open spec fn view(&self) -> GuildSettingsView {
        GuildSettingsView {
            language: self.language@,
            staff_role_id: self.staff_role_id,
            stream_ping_role_id: self.stream_ping_role_id,
            private_voice_role_id: self.private_voice_role_id,
            auto_role_id: self.auto_role_id,
            log_channel_id: self.log_channel_id,
            starboard_channel_id: self.starboard_channel_id,
            starboard_threshold: self.starboard_threshold,
            terminal_channel_id: self.terminal_channel_id,
            ai_enabled: self.ai_enabled,
            ai_channel_id: self.ai_channel_id,
            ai_model: self.ai_model@,
        }
    }
}

/// The language a server has until one is chosen.
pub fn default_language() -> (r: String)
    ensures
        r@ == "ru"@,
{
    owned("ru")
}

/// The star count a message needs before the starboard reposts it, until one is chosen.
pub fn default_starboard_threshold() -> (r: u64)
    ensures
        r == 10,
{
    10
}

/// The model preference a server has until one is chosen.
pub fn default_ai_model() -> (r: String)
    ensures
        r@ == "adaptive"@,
{
    owned("adaptive")
}

/// The settings of a server that has configured nothing.
pub open spec fn default_view() -> GuildSettingsView {
    GuildSettingsView {
        language: "ru"@,
        staff_role_id: None,
        stream_ping_role_id: None,
        private_voice_role_id: None,
        auto_role_id: None,
        log_channel_id: None,
        starboard_channel_id: None,
        starboard_threshold: 10,
        terminal_channel_id: None,
        ai_enabled: false,
        ai_channel_id: None,
        ai_model: "adaptive"@,
    }
}

impl Default for GuildSettings {
    fn default() -> (r: GuildSettings)
        ensures
            r@ == default_view(),
    {
        GuildSettings {
            language: default_language(),
            staff_role_id: None,
            stream_ping_role_id: None,
            private_voice_role_id: None,
            auto_role_id: None,
            log_channel_id: None,
            starboard_channel_id: None,
            starboard_threshold: default_starboard_threshold(),
            terminal_channel_id: None,
            ai_enabled: false,
            ai_channel_id: None,
            ai_model: default_ai_model(),
        }
    }
}

impl GuildSettings {
    /// A copy of these settings.
    pub fn duplicate(&self) -> (r: GuildSettings)
        ensures
            r == *self,
    {
        GuildSettings {
            language: self.language.clone(),
            staff_role_id: self.staff_role_id,
            stream_ping_role_id: self.stream_ping_role_id,
            private_voice_role_id: self.private_voice_role_id,
            auto_role_id: self.auto_role_id,
            log_channel_id: self.log_channel_id,
            starboard_channel_id: self.starboard_channel_id,
            starboard_threshold: self.starboard_threshold,
            terminal_channel_id: self.terminal_channel_id,
            ai_enabled: self.ai_enabled,
            ai_channel_id: self.ai_channel_id,
            ai_model: self.ai_model.clone(),
        }
    }
}

/// The key under which a server's settings are stored: its id in decimal.
pub open spec fn guild_key(guild_id: u64) -> Seq<char> {
    decimal_spec(guild_id as nat)
}

/// The settings that a store gives for `key`: the stored ones, or the defaults.
pub open spec fn settings_at(store: Map<Seq<char>, GuildSettings>, key: Seq<char>) -> GuildSettingsView {
    if store.dom().contains(key) {
        store[key]@
    } else {
        default_view()
    }
}

/// The stored settings of a server, or the defaults.
pub fn guild_settings(store: &KeyedStore<GuildSettings>, guild_id: u64) -> (r: GuildSettings)
    ensures
        r@ == settings_at(store@, guild_key(guild_id)),
{
    let key = decimal_string(guild_id);
    match store.get(key.as_str()) {
        Some(s) => s.duplicate(),
        None => GuildSettings::default(),
    }
}

/// The language of a server: its configured one, else `ru` (also outside servers).
pub open spec fn guild_language(store: Map<Seq<char>, GuildSettings>, guild_id: Option<u64>) -> Seq<char> {
    match guild_id {
        Some(g) => if store.dom().contains(guild_key(g)) {
            store[guild_key(g)].language@
        } else {
            "ru"@
        },
        None => "ru"@,
    }
}

/// The language in which to answer in a server.
pub fn lang_for_guild(store: &KeyedStore<GuildSettings>, guild_id: Option<u64>) -> (r: String)
    ensures
        r@ == guild_language(store@, guild_id),
{
    match guild_id {
        Some(g) => {
            let key = decimal_string(g);
            match store.get(key.as_str()) {
                Some(s) => s.language.clone(),
                None => owned("ru"),
            }
        },
        None => owned("ru"),
    }
}

/// Whether `new` is `old` with `key` now mapped to a value whose view is `v`.
pub open spec fn stored_as(
    old: Map<Seq<char>, GuildSettings>,
    new: Map<Seq<char>, GuildSettings>,
    key: Seq<char>,
    v: GuildSettingsView,
) -> bool {
    new.dom().contains(key) && new == old.insert(key, new[key]) && new[key]@ == v
}

/// Stores `s` as the settings of a server.
fn put(store: &mut KeyedStore<GuildSettings>, guild_id: u64, s: GuildSettings)
    ensures
        stored_as(old(store)@, final(store)@, guild_key(guild_id), s@),
{
    let key = decimal_string(guild_id);
    store.insert(key, s);
}

/// The settings fields that hold a role or channel id.
pub enum IdSetting {
    StaffRole,
    StreamRole,
    PrivateVoiceRole,
    AutoRole,
    LogChannel,
    TerminalChannel,
}

/// `v` with one id field set.
pub open spec fn with_id(v: GuildSettingsView, field: IdSetting, id: Option<u64>) -> GuildSettingsView {
    match field {
        IdSetting::StaffRole => GuildSettingsView { staff_role_id: id, ..v },
        IdSetting::StreamRole => GuildSettingsView { stream_ping_role_id: id, ..v },
        IdSetting::PrivateVoiceRole => GuildSettingsView { private_voice_role_id: id, ..v },
        IdSetting::AutoRole => GuildSettingsView { auto_role_id: id, ..v },
        IdSetting::LogChannel => GuildSettingsView { log_channel_id: id, ..v },
        IdSetting::TerminalChannel => GuildSettingsView { terminal_channel_id: id, ..v },
    }
}

/// Sets one role or channel of a server (`None` clears it); the other settings stay.
pub fn set_id_setting(
    store: &mut KeyedStore<GuildSettings>,
    guild_id: u64,
    field: IdSetting,
    id: Option<u64>,
)
    ensures
        stored_as(
            old(store)@,
            final(store)@,
            guild_key(guild_id),
            with_id(settings_at(old(store)@, guild_key(guild_id)), field, id),
        ),
{
    let mut s = guild_settings(store, guild_id);
    match field {
        IdSetting::StaffRole => s.staff_role_id = id,
        IdSetting::StreamRole => s.stream_ping_role_id = id,
        IdSetting::PrivateVoiceRole => s.private_voice_role_id = id,
        IdSetting::AutoRole => s.auto_role_id = id,
        IdSetting::LogChannel => s.log_channel_id = id,
        IdSetting::TerminalChannel => s.terminal_channel_id = id,
    }
    put(store, guild_id, s);
}

/// The language code a `language` command asks for: its argument trimmed and lower-cased,
/// when that is `ru` or `en`.
pub open spec fn language_choice(arg: Seq<char>) -> Option<Seq<char>> {
    let l = lowercase_of(trim_spec(arg));
    if l == "ru"@ || l == "en"@ {
        Some(l)
    } else {
        None
    }
}

/// Reads the argument of a `language` command.
pub fn normalize_language(arg: &str) -> (r: Option<String>)
    ensures
        r matches Some(l) ==> language_choice(arg@) == Some(l@),
        r is None ==> language_choice(arg@) is None,
{
    let v = chars_of(arg);
    let t = trim_chars(&v);
    let l = lowercase_chars(&t);
    let s = string_of(&l);
    if str_eq(s.as_str(), "ru") || str_eq(s.as_str(), "en") {
        Some(s)
    } else {
        None
    }
}

/// Sets the language of a server; the other settings stay.
pub fn set_language(store: &mut KeyedStore<GuildSettings>, guild_id: u64, language: String)
    ensures
        stored_as(
            old(store)@,
            final(store)@,
            guild_key(guild_id),
            GuildSettingsView { language: language@, ..settings_at(old(store)@, guild_key(guild_id)) },
        ),
{
    let mut s = guild_settings(store, guild_id);
    s.language = language;
    put(store, guild_id, s);
}

/// Why a starboard change was refused.
pub enum StarboardError {
    /// A threshold of zero was asked for.
    ZeroThreshold,
}

/// Sets the starboard channel (`None` clears it) and, when given, the threshold; a zero
/// threshold is refused and changes nothing.
pub fn set_starboard(
    store: &mut KeyedStore<GuildSettings>,
    guild_id: u64,
    channel_id: Option<u64>,
    threshold: Option<u64>,
) -> (r: Result<(), StarboardError>)
    ensures
        threshold == Some(0u64) <==> r is Err,
        r is Err ==> final(store)@ == old(store)@,
        r is Ok ==> stored_as(
            old(store)@,
            final(store)@,
            guild_key(guild_id),
            ({
                let cur = settings_at(old(store)@, guild_key(guild_id));
                GuildSettingsView {
                    starboard_channel_id: channel_id,
                    starboard_threshold: match threshold {
                        Some(t) => t,
                        None => cur.starboard_threshold,
                    },
                    ..cur
                }
            }),
        ),
{
    if threshold == Some(0u64) {
        return Err(StarboardError::ZeroThreshold);
    }
    let mut s = guild_settings(store, guild_id);
    s.starboard_channel_id = channel_id;
    match threshold {
        Some(t) => s.starboard_threshold = t,
        None => {},
    }
    put(store, guild_id, s);
    Ok(())
}

/// The model preference an `ai` command stores: the argument trimmed and lower-cased,
/// unless it is blank.
pub open spec fn model_choice(model: Option<Seq<char>>) -> Option<Seq<char>> {
    match model {
        Some(m) => if trim_spec(m).len() > 0 {
            Some(lowercase_of(trim_spec(m)))
        } else {
            None
        },
        None => None,
    }
}

/// The string argument as a sequence.
pub open spec fn opt_view(s: Option<String>) -> Option<Seq<char>> {
    match s {
        Some(x) => Some(x@),
        None => None,
    }
}

/// Sets whether AI replies are on, their channel restriction, and (when a non-blank one is
/// given) the model preference.
pub fn set_ai(
    store: &mut KeyedStore<GuildSettings>,
    guild_id: u64,
    enabled: bool,
    channel_id: Option<u64>,
    model: Option<String>,
)
    ensures
        stored_as(
            old(store)@,
            final(store)@,
            guild_key(guild_id),
            ({
                let cur = settings_at(old(store)@, guild_key(guild_id));
                GuildSettingsView {
                    ai_enabled: enabled,
                    ai_channel_id: channel_id,
                    ai_model: match model_choice(opt_view(model)) {
                        Some(m) => m,
                        None => cur.ai_model,
                    },
                    ..cur
                }
            }),
        ),
{
    let choice: Option<String> = match &model {
        Some(m) => {
            let v = chars_of(m.as_str());
            let t = trim_chars(&v);
            if t.len() > 0 {
                let l = lowercase_chars(&t);
                Some(string_of(&l))
            } else {
                None
            }
        },
        None => None,
    };
    let mut s = guild_settings(store, guild_id);
    s.ai_enabled = enabled;
    s.ai_channel_id = channel_id;
    match choice {
        Some(m) => s.ai_model = m,
        None => {},
    }
    put(store, guild_id, s);
}

/// Sets the auto role of a server (the `ar` command with a role).
pub fn set_auto_role(store: &mut KeyedStore<GuildSettings>, guild_id: u64, role_id: u64)
    ensures
        stored_as(
            old(store)@,
            final(store)@,
            guild_key(guild_id),
            with_id(settings_at(old(store)@, guild_key(guild_id)), IdSetting::AutoRole, Some(role_id)),
        ),
{
    set_id_setting(store, guild_id, IdSetting::AutoRole, Some(role_id));
}

/// How a role setting is shown: a role mention, or `not set`.
pub open spec fn role_label_spec(role_id: Option<u64>) -> Seq<char> {
    match role_id {
        Some(id) => "<@&"@ + decimal_spec(id as nat) + ">"@,
        None => "`not set`"@,
    }
}

/// How a channel setting is shown: a channel mention, or `not set`.
pub open spec fn channel_label_spec(channel_id: Option<u64>) -> Seq<char> {
    match channel_id {
        Some(id) => "<#"@ + decimal_spec(id as nat) + ">"@,
        None => "`not set`"@,
    }
}

/// Shows a role setting.
pub fn role_label(role_id: Option<u64>) -> (r: String)
    ensures
        r@ == role_label_spec(role_id),
{
    match role_id {
        Some(id) => {
            let d = decimal_string(id);
            concat3("<@&", d.as_str(), ">")
        },
        None => owned("`not set`"),
    }
}

/// Shows a channel setting.
pub fn channel_label(channel_id: Option<u64>) -> (r: String)
    ensures
        r@ == channel_label_spec(channel_id),
{
    match channel_id {
        Some(id) => {
            let d = decimal_string(id);
            concat3("<#", d.as_str(), ">")
        },
        None => owned("`not set`"),
    }
}

/// `bool::to_string`.
pub open spec fn bool_text(b: bool) -> Seq<char> {
    if b {
        "true"@
    } else {
        "false"@
    }
}

fn bool_string(b: bool) -> (r: String)
    ensures
        r@ == bool_text(b),
{
    if b {
        owned("true")
    } else {
        owned("false")
    }
}

/// The text of the `settings show` reply.
pub open spec fn summary_spec(s: GuildSettingsView) -> Seq<char> {
    "## Server Settings\nLanguage: `"@ + s.language + "`\nStaff role: "@ + role_label_spec(
        s.staff_role_id,
    ) + "\nStream ping role: "@ + role_label_spec(s.stream_ping_role_id) + "\nPrivate voice role: "@
        + role_label_spec(s.private_voice_role_id) + "\nAuto role: "@ + role_label_spec(
        s.auto_role_id,
    ) + "\nLog channel: "@ + channel_label_spec(s.log_channel_id) + "\nStarboard channel: "@
        + channel_label_spec(s.starboard_channel_id) + "\nStarboard threshold: `"@ + decimal_spec(
        s.starboard_threshold as nat,
    ) + "`\nTerminal channel: "@ + channel_label_spec(s.terminal_channel_id) + "\nAI enabled: `"@
        + bool_text(s.ai_enabled) + "`\nAI channel: "@ + channel_label_spec(s.ai_channel_id)
        + "\nAI mode: "@ + model_summary_spec(s.ai_model)
}

/// Shows a server's settings.
pub fn settings_summary(s: &GuildSettings) -> (r: String)
    ensures
        r@ == summary_spec(s@),
{
    let mut r = concat3("## Server Settings\nLanguage: `", s.language.as_str(), "`\nStaff role: ");
    r.append(role_label(s.staff_role_id).as_str());
    r.append("\nStream ping role: ");
    r.append(role_label(s.stream_ping_role_id).as_str());
    r.append("\nPrivate voice role: ");
    r.append(role_label(s.private_voice_role_id).as_str());
    r.append("\nAuto role: ");
    r.append(role_label(s.auto_role_id).as_str());
    r.append("\nLog channel: ");
    r.append(channel_label(s.log_channel_id).as_str());
    r.append("\nStarboard channel: ");
    r.append(channel_label(s.starboard_channel_id).as_str());
    r.append("\nStarboard threshold: `");
    r.append(decimal_string(s.starboard_threshold).as_str());
    r.append("`\nTerminal channel: ");
    r.append(channel_label(s.terminal_channel_id).as_str());
    r.append("\nAI enabled: `");
    r.append(bool_string(s.ai_enabled).as_str());
    r.append("`\nAI channel: ");
    r.append(channel_label(s.ai_channel_id).as_str());
    r.append("\nAI mode: ");
    r.append(current_model_summary(s.ai_model.as_str()).as_str());
    r
}

/// The reply to a starboard change.
pub fn starboard_reply(s: &GuildSettings) -> (r: String)
    ensures
        r@ == "Starboard updated.\nChannel: "@ + channel_label_spec(s.starboard_channel_id)
            + "\nThreshold: `"@ + decimal_spec(s.starboard_threshold as nat) + "`"@,
{
    let mut r = concat2("Starboard updated.\nChannel: ", channel_label(s.starboard_channel_id).as_str());
    r.append("\nThreshold: `");
    r.append(decimal_string(s.starboard_threshold).as_str());
    r.append("`");
    r
}

/// The reply to an AI settings change.
pub fn ai_settings_reply(s: &GuildSettings) -> (r: String)
    ensures
        r@ == "AI settings updated.\nEnabled: `"@ + bool_text(s.ai_enabled) + "`\nChannel: "@
            + channel_label_spec(s.ai_channel_id) + "\nMode: "@ + model_summary_spec(s.ai_model@),
{
    let mut r = concat3("AI settings updated.\nEnabled: `", bool_string(s.ai_enabled).as_str(), "`\nChannel: ");
    r.append(channel_label(s.ai_channel_id).as_str());
    r.append("\nMode: ");
    r.append(current_model_summary(s.ai_model.as_str()).as_str());
    r
}

/// The settings after the legacy per-server language file is applied: each server it names
/// gets that language, with its other settings kept (or the defaults).
pub open spec fn merged_with_legacy(
    old: Map<Seq<char>, GuildSettings>,
    legacy: Map<Seq<char>, String>,
    new: Map<Seq<char>, GuildSettings>,
) -> bool {
    &&& new.dom() == old.dom().union(legacy.dom())
    &&& forall|k: Seq<char>| #[trigger] new.dom().contains(k) ==> if legacy.dom().contains(k) {
        new[k]@ == GuildSettingsView { language: legacy[k]@, ..settings_at(old, k) }
    } else {
        new[k] == old[k]
    }
}

/// Whether one of the first `n` entries has key `k`.
pub open spec fn key_in_prefix(es: Seq<(String, String)>, n: int, k: Seq<char>) -> bool {
    exists|j: int| 0 <= j < n && (#[trigger] es[j]).0@ == k
}

proof fn lemma_key_in_prefix_step(es: Seq<(String, String)>, i: int, x: Seq<char>)
    requires
        0 <= i < es.len(),
    ensures
        key_in_prefix(es, i + 1, x) == (key_in_prefix(es, i, x) || x == es[i].0@),
{
    if key_in_prefix(es, i + 1, x) {
        let j = choose|j: int| 0 <= j < i + 1 && (#[trigger] es[j]).0@ == x;
        if j < i {
            assert(key_in_prefix(es, i, x));
        }
    }
    if key_in_prefix(es, i, x) {
        let j = choose|j: int| 0 <= j < i && (#[trigger] es[j]).0@ == x;
        assert(es[j].0@ == x);
    }
    if x == es[i].0@ {
        assert(es[i].0@ == x);
    }
}

/// Applies the legacy per-server language file to the settings.
pub fn merge_legacy_languages(
    store: &mut KeyedStore<GuildSettings>,
    legacy: &KeyedStore<String>,
)
    ensures
        merged_with_legacy(old(store)@, legacy@, final(store)@),
{
    let entries = legacy.entries();
    let ghost es = entries@;
    let ghost start = store@;
    let mut i: usize = 0;
    assert(store@.dom() =~= start.dom().union(Set::new(|k: Seq<char>| key_in_prefix(es, 0, k))));
    while i < entries.len()
        invariant
            i <= es.len(),
            entries@ == es,
            crate::store::keys_unique(es),
            crate::store::entries_map(es) == legacy@,
            store@.dom() == start.dom().union(Set::new(|k: Seq<char>| key_in_prefix(es, i as int, k))),
            forall|k: Seq<char>| #[trigger] store@.dom().contains(k) ==> if key_in_prefix(es, i as int, k) {
                store@[k]@ == GuildSettingsView { language: es[crate::store::index_of(es, k)].1@, ..settings_at(start, k) }
            } else {
                store@[k] == start[k]
            },
        decreases es.len() - i,
    {
        let key = entries[i].0.clone();
        let lang = entries[i].1.clone();
        let ghost k = key@;
        let ghost before = store@;
        proof {
            crate::store::lemma_index_of(es, i as int);
        }
        let mut s = match store.get(key.as_str()) {
            Some(cur) => cur.duplicate(),
            None => GuildSettings::default(),
        };
        s.language = lang;
        store.insert(key, s);
        proof {
            assert(!key_in_prefix(es, i as int, k)) by {
                if key_in_prefix(es, i as int, k) {
                    let j = choose|j: int| 0 <= j < i && (#[trigger] es[j]).0@ == k;
                    assert(j != i);
                }
            }
            assert(settings_at(before, k) == settings_at(start, k));
            assert forall|x: Seq<char>| #[trigger] store@.dom().contains(x) implies (if key_in_prefix(es, i + 1, x) {
                store@[x]@ == GuildSettingsView { language: es[crate::store::index_of(es, x)].1@, ..settings_at(start, x) }
            } else {
                store@[x] == start[x]
            }) by {
                lemma_key_in_prefix_step(es, i as int, x);
            }
            assert forall|x: Seq<char>| #[trigger] store@.dom().contains(x) == start.dom().union(Set::new(|k: Seq<char>| key_in_prefix(es, i + 1, k))).contains(x) by {
                lemma_key_in_prefix_step(es, i as int, x);
            }
            assert(store@.dom() =~= start.dom().union(Set::new(|x: Seq<char>| key_in_prefix(es, i + 1, x))));
        }
        i = i + 1;
    }
    proof {
        assert forall|x: Seq<char>| key_in_prefix(es, es.len() as int, x) == legacy@.dom().contains(x) by {
        }
        assert(store@.dom() =~= start.dom().union(legacy@.dom()));
    }
}

} // verus!
