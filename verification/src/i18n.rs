//! Translated message texts, looked up by key in the server's language.
use vstd::prelude::*;
use crate::text::{owned, str_eq};

verus! {

/// The English messages, by key.
pub const DICT_EN: [(&'static str, &'static str); 57] = [
    ("ERR_NO_STAFF", "You do not have staff permissions for this command."),
    ("ERR_NO_GUILD", "This command can only be used in a server."),
    ("KICK_SUCCESS", "Kicked {user}. Reason: {reason}"),
    ("KICK_FAIL", "Failed to kick {user}: {err}"),
    ("BAN_SUCCESS", "Banned {user}. Reason: {reason}"),
    ("BAN_FAIL", "Failed to ban {user}: {err}"),
    ("MUTE_SUCCESS", "Muted {user} for {duration}. Reason: {reason}"),
    ("MUTE_FAIL", "Failed to mute {user}: {err}"),
    ("UNMUTE_SUCCESS", "Unmuted {user}"),
    ("UNMUTE_FAIL", "Failed to unmute {user}: {err}"),
    ("CLEAR_FAIL", "Failed to clear messages: {err}"),
    ("CLEAR_SUCCESS", "Cleared {amount} messages."),
    ("ROLE_REMOVE_FAIL", "Failed to remove role: {err}"),
    ("ROLE_REMOVE_SUCCESS", "Removed role {role} from {user}"),
    ("ROLE_ADD_FAIL", "Failed to add role: {err}"),
    ("ROLE_ADD_SUCCESS", "Added role {role} to {user}"),
    ("ANNOUNCE_FAIL", "Failed to announce: {err}"),
    ("ANNOUNCE_SUCCESS", "Announcement sent."),
    ("EANNOUNCE_SUCCESS", "Everyone announcement sent."),
    ("STREAM_FAIL", "Failed to send stream announcement: {err}"),
    ("NO_DURATION", "Invalid duration format. Example: 30m / 2h / 1d"),
    ("PING", "Pong! Ping: **{ms} ms**"),
    ("NO_TEXT", "Please provide text."),
    ("SETTINGS_HELP", "Use `/settings language <ru|en>` to configure the bot."),
    ("SETTINGS_INVALID_LANG", "Invalid language. Please use `ru` or `en`."),
    ("SETTINGS_LANG_RU", "Server language successfully changed to Russian."),
    ("SETTINGS_LANG_EN", "Server language successfully changed to English."),
    ("UTILITY_USER_ID", "User ID: `{id}`"),
    ("UTILITY_ROLE_ID", "Role ID: `{id}`"),
    ("UTILITY_AVATAR", "## Avatar for {user}"),
    ("UTILITY_PROFILE_JOINED", "\n**Joined Server:** {joined}"),
    ("UTILITY_PROFILE_ROLES", "\n**Roles:** {roles}"),
    ("UTILITY_PROFILE_ROLES_HIDDEN", "\n**Roles:** {count} roles hidden"),
    ("UTILITY_PROFILE", "## Profile - {user}\n**ID:** {id}\n**Registered:** {registered}{joined}{roles}"),
    ("UTILITY_HELP_TITLE", "## NeutroBot Commands\nAvailable commands:"),
    ("UTILITY_HELP_BASIC", "**Basic**\n`!ping` `!rid` `!id` `!avatar` `!profile` `!aquote` `!help`"),
    ("UTILITY_HELP_MOD", "**Moderation**\n`!kick` `!ban` `!mute` `!tempmute` `!unmute` `!clear` `!role` `!announce` `!eannounce` `!sticky` `!dsticky`\n`!stream` `!ar` `!pvoice`"),
    ("UTILITY_AQUOTE_USAGE", "Provide text. Example: `!aquote #2B2D31 hello`"),
    ("UTILITY_AQUOTE_AFTER_COLOR", "Text is required after the color."),
    ("SERVER_STICKY_SETUP", "**Sticky Message Setup**\nSend the next message with text and/or an image. It will be saved as the sticky message for this channel."),
    ("SERVER_STICKY_REMOVED", "Sticky message removed."),
    ("SERVER_STICKY_NOT_FOUND", "No sticky message is configured for this channel."),
    ("SERVER_AUTOROLE_SET", "Auto-role set to @{role}"),
    ("SERVER_AUTOROLE_CURRENT", "Current auto-role ID: {role_id}"),
    ("SERVER_AUTOROLE_EMPTY", "Auto-role is not configured. Example: `!ar @Role`"),
    ("SERVER_ONLY_GUILD", "This command can only be used in a server."),
    ("SERVER_PVOICE_ASSIGNED", "Assigned Private Voice role to <@{user_id}>"),
    ("SERVER_ADD_ROLE_FAIL", "Failed to add role: {err}"),
    ("MOD_REASON_NONE", "No reason provided"),
    ("MOD_MUST_BE_GUILD", "This command can only be used in a server."),
    ("MOD_CLEAR_FAIL", "Failed to clear messages: {err}"),
    ("MOD_ROLE_REMOVE_FAIL", "Failed to remove role: {err}"),
    ("MOD_ROLE_REMOVE_SUCCESS", "Removed role {role} from {user}"),
    ("MOD_ROLE_ADD_FAIL", "Failed to add role: {err}"),
    ("MOD_ROLE_ADD_SUCCESS", "Added role {role} to {user}"),
    ("MOD_ANNOUNCE_SENT", "Announcement sent."),
    ("MOD_STREAM_TEXT", "<@&{role_id}> {user} started a stream. Watch here: {link}"),
];

/// The Russian messages, by key; the language used for every code but `en`.
pub const DICT_RU: [(&'static str, &'static str); 57] = [
    ("ERR_NO_STAFF", "У тебя нет прав стаффа для этой команды."),
    ("ERR_NO_GUILD", "Команда доступна только на сервере."),
    ("KICK_SUCCESS", "Кикнул {user}. Причина: {reason}"),
    ("KICK_FAIL", "Не удалось кикнуть {user}: {err}"),
    ("BAN_SUCCESS", "Забанил {user}. Причина: {reason}"),
    ("BAN_FAIL", "Не удалось забанить {user}: {err}"),
    ("MUTE_SUCCESS", "Замутил {user} на {duration}. Причина: {reason}"),
    ("MUTE_FAIL", "Не удалось замутить {user}: {err}"),
    ("UNMUTE_SUCCESS", "Размутил {user}"),
    ("UNMUTE_FAIL", "Не удалось размутить {user}: {err}"),
    ("CLEAR_FAIL", "Не удалось удалить сообщения: {err}"),
    ("CLEAR_SUCCESS", "Удалено {amount} сообщений."),
    ("ROLE_REMOVE_FAIL", "ОШИБКА: Не удалось снять роль: {err}"),
    ("ROLE_REMOVE_SUCCESS", "Снял роль {role} с {user}"),
    ("ROLE_ADD_FAIL", "ОШИБКА: Не удалось выдать роль: {err}"),
    ("ROLE_ADD_SUCCESS", "Выдал роль {role} пользователю {user}"),
    ("ANNOUNCE_FAIL", "ОШИБКА отправки анонса: {err}"),
    ("ANNOUNCE_SUCCESS", "Анонс отправлен."),
    ("EANNOUNCE_SUCCESS", "Анонс с пингом отправлен."),
    ("STREAM_FAIL", "Ошибка отправки стрим-уведомления: {err}"),
    ("NO_DURATION", "Неверный формат времени. Пример: `30m` / `2h` / `1d`"),
    ("PING", "Понг! Пинг: **{ms} ms**"),
    ("NO_TEXT", "Укажи текст."),
    ("SETTINGS_HELP", "Используй `/settings language <ru|en>`, чтобы настроить язык бота."),
    ("SETTINGS_INVALID_LANG", "Неверный язык. Используй `ru` или `en`."),
    ("SETTINGS_LANG_RU", "Язык сервера успешно изменен на русский."),
    ("SETTINGS_LANG_EN", "Язык сервера успешно изменен на английский."),
    ("UTILITY_USER_ID", "User ID: `{id}`"),
    ("UTILITY_ROLE_ID", "Role ID: `{id}`"),
    ("UTILITY_AVATAR", "## Аватар пользователя {user}"),
    ("UTILITY_PROFILE_JOINED", "\n**На сервере с:** {joined}"),
    ("UTILITY_PROFILE_ROLES", "\n**Роли:** {roles}"),
    ("UTILITY_PROFILE_ROLES_HIDDEN", "\n**Роли:** скрыто {count}"),
    ("UTILITY_PROFILE", "## Профиль - {user}\n**ID:** {id}\n**Зарегистрирован:** {registered}{joined}{roles}"),
    ("UTILITY_HELP_TITLE", "## Команды NeutroBot\nДоступные команды:"),
    ("UTILITY_HELP_BASIC", "**Основные**\n`!ping` `!rid` `!id` `!avatar` `!profile` `!aquote` `!help`"),
    ("UTILITY_HELP_MOD", "**Модерация**\n`!kick` `!ban` `!mute` `!tempmute` `!unmute` `!clear` `!role` `!announce` `!eannounce` `!sticky` `!dsticky`\n`!stream` `!ar` `!pvoice`"),
    ("UTILITY_AQUOTE_USAGE", "Укажи текст. Пример: `!aquote #2B2D31 hello`"),
    ("UTILITY_AQUOTE_AFTER_COLOR", "После цвета нужен текст."),
    ("SERVER_STICKY_SETUP", "**Настройка Sticky Message**\nОтправь следующим сообщением текст и/или картинку. Это сообщение будет сохранено как sticky для канала."),
    ("SERVER_STICKY_REMOVED", "Sticky-сообщение удалено."),
    ("SERVER_STICKY_NOT_FOUND", "В этом канале sticky-сообщение не найдено."),
    ("SERVER_AUTOROLE_SET", "Auto-role установлен: @{role}"),
    ("SERVER_AUTOROLE_CURRENT", "Текущий auto-role ID: {role_id}"),
    ("SERVER_AUTOROLE_EMPTY", "Auto-role не установлен. Пример: `!ar @Role`"),
    ("SERVER_ONLY_GUILD", "Команда доступна только на сервере."),
    ("SERVER_PVOICE_ASSIGNED", "Выдана роль Private Voice пользователю <@{user_id}>"),
    ("SERVER_ADD_ROLE_FAIL", "Не удалось выдать роль: {err}"),
    ("MOD_REASON_NONE", "Причина не указана"),
    ("MOD_MUST_BE_GUILD", "Команда доступна только на сервере."),
    ("MOD_CLEAR_FAIL", "Не удалось удалить сообщения: {err}"),
    ("MOD_ROLE_REMOVE_FAIL", "Не удалось снять роль: {err}"),
    ("MOD_ROLE_REMOVE_SUCCESS", "Снял роль {role} с {user}"),
    ("MOD_ROLE_ADD_FAIL", "Не удалось выдать роль: {err}"),
    ("MOD_ROLE_ADD_SUCCESS", "Выдал роль {role} пользователю {user}"),
    ("MOD_ANNOUNCE_SENT", "Анонс отправлен."),
    ("MOD_STREAM_TEXT", "<@&{role_id}> {user} запустил(а) стрим. Ссылка: {link}"),
];

/// The value of the first entry of `table` whose key is `key`.
pub open spec fn lookup_spec(table: Seq<(&'static str, &'static str)>, key: Seq<char>) -> Option<Seq<char>>
    decreases table.len(),
{
    if table.len() == 0 {
        None
    } else if table[0].0@ == key {
        Some(table[0].1@)
    } else {
        lookup_spec(table.drop_first(), key)
    }
}

/// Looks `key` up in `table`.
pub fn lookup(table: &[(&'static str, &'static str)], key: &str) -> (r: Option<&'static str>)
    ensures
        r matches Some(x) ==> lookup_spec(table@, key@) == Some(x@),
        r is None ==> lookup_spec(table@, key@) is None,
{
    let mut i: usize = 0;
    assert(table@.skip(0) =~= table@);
    while i < table.len()
        invariant
            i <= table@.len(),
            lookup_spec(table@, key@) == lookup_spec(table@.skip(i as int), key@),
        decreases table@.len() - i,
    {
        assert(table@.skip(i as int).drop_first() =~= table@.skip(i + 1));
        if str_eq(table[i].0, key) {
            return Some(table[i].1);
        }
        i = i + 1;
    }
    None
}

/// The message table of a language: English for `en`, Russian for anything else.
pub open spec fn dict_spec(lang: Seq<char>) -> Seq<(&'static str, &'static str)> {
    if lang == "en"@ {
        DICT_EN@
    } else {
        DICT_RU@
    }
}

/// The message table of a language.
pub fn get_dict(lang: &str) -> (r: &'static [(&'static str, &'static str)])
    ensures
        r@ == dict_spec(lang@),
{
    if str_eq(lang, "en") {
        &DICT_EN
    } else {
        &DICT_RU
    }
}

/// The message for `key` in `lang`; a key without a message stands for itself.
pub open spec fn translate_spec(lang: Seq<char>, key: Seq<char>) -> Seq<char> {
    match lookup_spec(dict_spec(lang), key) {
        Some(v) => v,
        None => key,
    }
}

/// Translates a message key.
pub fn translate(lang: &str, key: &str) -> (r: String)
    ensures
        r@ == translate_spec(lang@, key@),
{
    match lookup(get_dict(lang), key) {
        Some(v) => owned(v),
        None => owned(key),
    }
}

} // verus!
