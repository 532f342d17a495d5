//! The terminal: a channel (and slash commands) where operators manage the server with
//! short text commands, and the interactive flag panel.
use vstd::prelude::*;
use crate::i18n::{lookup, lookup_spec};
use crate::store::KeyedStore;
use crate::state::{copy_opt, opt_chars, DraftView, TerminalFlagDraft};
use crate::text::{
    chars_of, concat2, concat3, digits_only, digits_spec, join_chars, join_spec, owned,
    replace_spec, replace_str, str_eq, string_of, views, ascii_lower_chars, ascii_lower_spec,
    words_spec, split_words, lowercase_of, lowercase_chars, parse_u64_spec, parse_u64_chars,
    decimal_spec, decimal_string, seq_eq,
};

verus! {

/// The English terminal texts, by key.
pub const TERMINAL_EN: [(&'static str, &'static str); 108] = [
    ("unauthorized", "[Terminal] Error: Unauthorized. Permission denied."),
    ("empty", "Empty"),
    ("wl_list", "[Terminal] Whitelisted users:\n{list}"),
    ("wl_exists", "[Terminal] Error: User is already whitelisted."),
    ("wl_added", "[Terminal] User added."),
    ("wl_usage_add", "[Terminal] Usage: wl add <id>"),
    ("wl_removed", "[Terminal] User removed."),
    ("wl_missing", "[Terminal] Error: User is not whitelisted."),
    ("wl_usage_rm", "[Terminal] Usage: wl rm <id>"),
    ("wl_usage", "[Terminal] Usage: wl <add|rm|list>"),
    ("invalid_channel_ids", "[Terminal] Error: Invalid channel IDs."),
    ("approval_mapped", "[Terminal] Approval channel mapped."),
    ("fetch_missing", "[Terminal] Error: noorfetch.txt not found"),
    ("echo_error", "[Terminal] Error formatting channel: {err}"),
    ("echo_ok", "[Terminal] Channel topic updated."),
    ("channel_created", "[Terminal] Channel created."),
    ("category_created", "[Terminal] Category created."),
    ("invalid_id", "[Terminal] Invalid ID"),
    ("delete_message_error", "[Terminal] Error deleting message"),
    ("delete_channel_error", "[Terminal] Error deleting channel or category"),
    ("deleted", "[Terminal] Deleted."),
    ("rm_usage", "[Terminal] Usage: rm <-c|-ch|-m> <id>"),
    ("move_channel_error", "[Terminal] Error moving channel"),
    ("move_channel_ok", "[Terminal] Channel moved."),
    ("assign_role_error", "[Terminal] Error assigning role"),
    ("assign_role_ok", "[Terminal] Role assigned."),
    ("move_member_error", "[Terminal] Error moving member"),
    ("move_member_ok", "[Terminal] Member moved."),
    ("invalid_channel_id", "[Terminal] Error: Invalid channel ID."),
    ("empty_flag", "[Terminal] Error: Flag name is empty."),
    ("flag_added", "[Terminal] Added flag '{flag}' to channel <#{channel}>"),
    ("flag_removed", "[Terminal] Removed flag '{flag}' from channel <#{channel}>"),
    ("invalid_action", "[Terminal] Invalid action."),
    ("massrole_start", "[Terminal] Assigning the role to all members. This may take time."),
    ("massrole_done", "[Terminal] Completed. Assigned: {ok}, Errors: {fail}."),
    ("rrole_react_fail", "[Terminal] Failed to add reaction: {err}"),
    ("rrole_spawned", "[Terminal] Reaction role created in <#{channel}> for role ID {role}"),
    ("rtr_start", "[Terminal] Role transfer may take some time."),
    ("rtr_done", "[Terminal] Completed. Swapped {ok} members. Errors: {fail}."),
    ("docs_overview_label", "Overview"),
    ("docs_ap_label", "Approval Mapping"),
    ("docs_wl_label", "Whitelist"),
    ("docs_fetch_label", "Fetch"),
    ("docs_touch_label", "Touch"),
    ("docs_mkdir_label", "Mkdir"),
    ("docs_rm_label", "Remove"),
    ("docs_mv_label", "Move"),
    ("docs_vm_label", "Voice Move"),
    ("docs_massrole_label", "Mass Role"),
    ("docs_rrole_label", "Reaction Role"),
    ("docs_rtr_label", "Role Transfer"),
    ("docs_help", "Terminal Control Panel\n\nSelect a command from the list below to view its syntax. For `flag`, you can also open an interactive configuration panel."),
    ("docs_flag", "Terminal Command: flag\n\nPurpose: configure a channel flag.\nSyntax: flag add <channel> <flag>\nSyntax: flag rm <channel> <flag>\nInteractive mode: run `flag` in the terminal channel and use the panel."),
    ("docs_ap", "Terminal Command: ap\n\nPurpose: map a request channel to an approval channel.\nSyntax: ap <request_channel> <approval_channel>"),
    ("docs_wl", "Terminal Command: wl\n\nPurpose: manage the terminal whitelist.\nSyntax: wl list\nSyntax: wl add <user>\nSyntax: wl rm <user>"),
    ("docs_fetch", "Terminal Command: fetch\n\nPurpose: show the system information banner.\nSyntax: fetch"),
    ("docs_echo", "Terminal Command: echo\n\nPurpose: update a channel topic.\nSyntax: echo <channel> <description>"),
    ("docs_touch", "Terminal Command: touch\n\nPurpose: create a text channel.\nSyntax: touch <name> [category]"),
    ("docs_mkdir", "Terminal Command: mkdir\n\nPurpose: create a category.\nSyntax: mkdir <name>"),
    ("docs_rm", "Terminal Command: rm\n\nPurpose: remove a message, channel, or category.\nSyntax: rm -m <message_id>\nSyntax: rm -ch <channel_id>\nSyntax: rm -c <category_id>"),
    ("docs_mv", "Terminal Command: mv\n\nPurpose: move a channel into a category.\nSyntax: mv <channel> <category>"),
    ("docs_role", "Terminal Command: role\n\nPurpose: assign a role to a member.\nSyntax: role <role> <user>"),
    ("docs_vm", "Terminal Command: vm\n\nPurpose: move a member into a voice channel.\nSyntax: vm <user> <voice_channel>"),
    ("docs_massrole", "Terminal Command: massrole\n\nPurpose: assign a role to every non-bot member.\nSyntax: massrole <role>"),
    ("docs_rrole", "Terminal Command: rrole\n\nPurpose: create a reaction-role message.\nSyntax: rrole <role> <emoji> <channel> [message]"),
    ("docs_rtr", "Terminal Command: rtr\n\nPurpose: replace one role with another across the guild.\nSyntax: rtr <old_role> <new_role>"),
    ("select_command", "Select a terminal command"),
    ("open_flag_panel", "Open Flag Panel"),
    ("close", "Close"),
    ("flag_title", "Flag Configuration"),
    ("not_selected", "Not selected"),
    ("flag_channel", "Channel"),
    ("flag_action", "Action"),
    ("flag_name", "Flag"),
    ("flag_available", "Available flags in the interactive panel: request"),
    ("flag_status", "Status: {status}"),
    ("select_target_channel", "Select a target channel"),
    ("select_action", "Select an action"),
    ("add", "Add"),
    ("remove", "Remove"),
    ("select_flag", "Select a flag"),
    ("apply", "Apply"),
    ("panel_other_operator", "This panel belongs to another operator."),
    ("select_channel_first", "Select a channel first."),
    ("select_action_first", "Select an action first."),
    ("select_flag_first", "Select a flag first."),
    ("flag_apply_added", "Flag '{flag}' was added to <#{channel}>."),
    ("flag_apply_removed", "Flag '{flag}' was removed from <#{channel}>."),
    ("unknown_command", "[Terminal] Unknown command. Use: help"),
    ("usage_ap_msg", "[Terminal] Usage: ap <request_channel_id> <approval_channel_id>"),
    ("usage_wl_add_msg", "[Terminal] Usage: wl add <@user_or_id>"),
    ("usage_wl_rm_msg", "[Terminal] Usage: wl rm <@user_or_id>"),
    ("usage_wl_msg", "[Terminal] Usage: wl <add|rm|list> [@user_or_id]"),
    ("usage_echo_msg", "[Terminal] Usage: echo <channel_id_or_mention> <description>"),
    ("channel_not_found", "[Terminal] Error: Channel not found."),
    ("usage_touch_msg", "[Terminal] Usage: touch <channel_name> [category_id]"),
    ("usage_mkdir_msg", "[Terminal] Usage: mkdir <category_name>"),
    ("usage_mv_msg", "[Terminal] Usage: mv <channel> <category>"),
    ("invalid_ids", "[Terminal] Error: Invalid IDs"),
    ("usage_role_msg", "[Terminal] Usage: role <role_id_or_mention> <user_id_or_mention>"),
    ("usage_vm_msg", "[Terminal] Usage: vm <user_id> <voice_channel_id>"),
    ("usage_flag_msg", "[Terminal] Usage: flag add|rm <channel> <flag>"),
    ("usage_massrole_msg", "[Terminal] Usage: massrole <role_id_or_mention>"),
    ("invalid_role", "[Terminal] Error: Invalid role"),
    ("usage_rrole_msg", "[Terminal] Usage: rrole @role <emoji> #channel [message]"),
    ("invalid_arguments", "[Terminal] Error: Invalid arguments."),
    ("usage_rtr_msg", "[Terminal] Usage: rtr <@old_role> <@new_role>"),
    ("invalid_role_input", "[Terminal] Error: Invalid role input."),
];

/// The Russian terminal texts, by key; used for every language code but `en`.
pub const TERMINAL_RU: [(&'static str, &'static str); 108] = [
    ("unauthorized", "[Terminal] Ошибка: недостаточно прав."),
    ("empty", "Пусто"),
    ("wl_list", "[Terminal] Пользователи в whitelist:\n{list}"),
    ("wl_exists", "[Terminal] Ошибка: пользователь уже в whitelist."),
    ("wl_added", "[Terminal] Пользователь добавлен."),
    ("wl_usage_add", "[Terminal] Использование: wl add <id>"),
    ("wl_removed", "[Terminal] Пользователь удален."),
    ("wl_missing", "[Terminal] Ошибка: пользователя нет в whitelist."),
    ("wl_usage_rm", "[Terminal] Использование: wl rm <id>"),
    ("wl_usage", "[Terminal] Использование: wl <add|rm|list>"),
    ("invalid_channel_ids", "[Terminal] Ошибка: неверные ID каналов."),
    ("approval_mapped", "[Terminal] Канал подтверждения сохранен."),
    ("fetch_missing", "[Terminal] Ошибка: файл noorfetch.txt не найден"),
    ("echo_error", "[Terminal] Ошибка изменения темы канала: {err}"),
    ("echo_ok", "[Terminal] Тема канала обновлена."),
    ("channel_created", "[Terminal] Канал создан."),
    ("category_created", "[Terminal] Категория создана."),
    ("invalid_id", "[Terminal] Неверный ID"),
    ("delete_message_error", "[Terminal] Ошибка удаления сообщения"),
    ("delete_channel_error", "[Terminal] Ошибка удаления канала или категории"),
    ("deleted", "[Terminal] Удалено."),
    ("rm_usage", "[Terminal] Использование: rm <-c|-ch|-m> <id>"),
    ("move_channel_error", "[Terminal] Ошибка перемещения канала"),
    ("move_channel_ok", "[Terminal] Канал перемещен."),
    ("assign_role_error", "[Terminal] Ошибка выдачи роли"),
    ("assign_role_ok", "[Terminal] Роль выдана."),
    ("move_member_error", "[Terminal] Ошибка перемещения участника"),
    ("move_member_ok", "[Terminal] Участник перемещен."),
    ("invalid_channel_id", "[Terminal] Ошибка: неверный ID канала."),
    ("empty_flag", "[Terminal] Ошибка: имя флага пустое."),
    ("flag_added", "[Terminal] Флаг '{flag}' добавлен каналу <#{channel}>"),
    ("flag_removed", "[Terminal] Флаг '{flag}' удален у канала <#{channel}>"),
    ("invalid_action", "[Terminal] Неверное действие."),
    ("massrole_start", "[Terminal] Выдача роли всем участникам. Это может занять время."),
    ("massrole_done", "[Terminal] Готово. Выдано: {ok}, Ошибок: {fail}."),
    ("rrole_react_fail", "[Terminal] Не удалось добавить реакцию: {err}"),
    ("rrole_spawned", "[Terminal] Сообщение reaction role создано в <#{channel}> для роли ID {role}"),
    ("rtr_start", "[Terminal] Перенос роли может занять некоторое время."),
    ("rtr_done", "[Terminal] Готово. Роль заменена у {ok} участников. Ошибок: {fail}."),
    ("docs_overview_label", "Обзор"),
    ("docs_ap_label", "Канал подтверждения"),
    ("docs_wl_label", "Whitelist"),
    ("docs_fetch_label", "Fetch"),
    ("docs_touch_label", "Создать канал"),
    ("docs_mkdir_label", "Создать категорию"),
    ("docs_rm_label", "Удаление"),
    ("docs_mv_label", "Перемещение"),
    ("docs_vm_label", "Voice Move"),
    ("docs_massrole_label", "Массовая роль"),
    ("docs_rrole_label", "Reaction Role"),
    ("docs_rtr_label", "Перенос роли"),
    ("docs_help", "Панель терминала\n\nВыбери команду из списка ниже, чтобы посмотреть синтаксис. Для `flag` также доступна интерактивная панель настройки."),
    ("docs_flag", "Команда терминала: flag\n\nНазначение: настраивает флаг канала.\nСинтаксис: flag add <channel> <flag>\nСинтаксис: flag rm <channel> <flag>\nИнтерактивный режим: напиши `flag` в канале терминала и используй панель."),
    ("docs_ap", "Команда терминала: ap\n\nНазначение: связывает request-канал с каналом подтверждения.\nСинтаксис: ap <request_channel> <approval_channel>"),
    ("docs_wl", "Команда терминала: wl\n\nНазначение: управляет whitelist терминала.\nСинтаксис: wl list\nСинтаксис: wl add <user>\nСинтаксис: wl rm <user>"),
    ("docs_fetch", "Команда терминала: fetch\n\nНазначение: показывает системный баннер.\nСинтаксис: fetch"),
    ("docs_echo", "Команда терминала: echo\n\nНазначение: меняет тему канала.\nСинтаксис: echo <channel> <description>"),
    ("docs_touch", "Команда терминала: touch\n\nНазначение: создает текстовый канал.\nСинтаксис: touch <name> [category]"),
    ("docs_mkdir", "Команда терминала: mkdir\n\nНазначение: создает категорию.\nСинтаксис: mkdir <name>"),
    ("docs_rm", "Команда терминала: rm\n\nНазначение: удаляет сообщение, канал или категорию.\nСинтаксис: rm -m <message_id>\nСинтаксис: rm -ch <channel_id>\nСинтаксис: rm -c <category_id>"),
    ("docs_mv", "Команда терминала: mv\n\nНазначение: перемещает канал в категорию.\nСинтаксис: mv <channel> <category>"),
    ("docs_role", "Команда терминала: role\n\nНазначение: выдает роль участнику.\nСинтаксис: role <role> <user>"),
    ("docs_vm", "Команда терминала: vm\n\nНазначение: перемещает участника в голосовой канал.\nСинтаксис: vm <user> <voice_channel>"),
    ("docs_massrole", "Команда терминала: massrole\n\nНазначение: выдает роль всем участникам без ботов.\nСинтаксис: massrole <role>"),
    ("docs_rrole", "Команда терминала: rrole\n\nНазначение: создает сообщение reaction-role.\nСинтаксис: rrole <role> <emoji> <channel> [message]"),
    ("docs_rtr", "Команда терминала: rtr\n\nНазначение: заменяет одну роль на другую по всему серверу.\nСинтаксис: rtr <old_role> <new_role>"),
    ("select_command", "Выбери команду терминала"),
    ("open_flag_panel", "Открыть панель flag"),
    ("close", "Закрыть"),
    ("flag_title", "Настройка флага"),
    ("not_selected", "Не выбрано"),
    ("flag_channel", "Канал"),
    ("flag_action", "Действие"),
    ("flag_name", "Флаг"),
    ("flag_available", "Доступные флаги в интерактивной панели: request"),
    ("flag_status", "Статус: {status}"),
    ("select_target_channel", "Выбери целевой канал"),
    ("select_action", "Выбери действие"),
    ("add", "Добавить"),
    ("remove", "Удалить"),
    ("select_flag", "Выбери флаг"),
    ("apply", "Применить"),
    ("panel_other_operator", "Эта панель принадлежит другому оператору."),
    ("select_channel_first", "Сначала выбери канал."),
    ("select_action_first", "Сначала выбери действие."),
    ("select_flag_first", "Сначала выбери флаг."),
    ("flag_apply_added", "Флаг '{flag}' добавлен каналу <#{channel}>."),
    ("flag_apply_removed", "Флаг '{flag}' удален у канала <#{channel}>."),
    ("unknown_command", "[Terminal] Неизвестная команда. Используй: help"),
    ("usage_ap_msg", "[Terminal] Использование: ap <request_channel_id> <approval_channel_id>"),
    ("usage_wl_add_msg", "[Terminal] Использование: wl add <@user_or_id>"),
    ("usage_wl_rm_msg", "[Terminal] Использование: wl rm <@user_or_id>"),
    ("usage_wl_msg", "[Terminal] Использование: wl <add|rm|list> [@user_or_id]"),
    ("usage_echo_msg", "[Terminal] Использование: echo <channel_id_or_mention> <description>"),
    ("channel_not_found", "[Terminal] Ошибка: канал не найден."),
    ("usage_touch_msg", "[Terminal] Использование: touch <channel_name> [category_id]"),
    ("usage_mkdir_msg", "[Terminal] Использование: mkdir <category_name>"),
    ("usage_mv_msg", "[Terminal] Использование: mv <channel> <category>"),
    ("invalid_ids", "[Terminal] Ошибка: неверные ID"),
    ("usage_role_msg", "[Terminal] Использование: role <role_id_or_mention> <user_id_or_mention>"),
    ("usage_vm_msg", "[Terminal] Использование: vm <user_id> <voice_channel_id>"),
    ("usage_flag_msg", "[Terminal] Использование: flag add|rm <channel> <flag>"),
    ("usage_massrole_msg", "[Terminal] Использование: massrole <role_id_or_mention>"),
    ("invalid_role", "[Terminal] Ошибка: неверная роль"),
    ("usage_rrole_msg", "[Terminal] Использование: rrole @role <emoji> #channel [message]"),
    ("invalid_arguments", "[Terminal] Ошибка: неверные аргументы."),
    ("usage_rtr_msg", "[Terminal] Использование: rtr <@old_role> <@new_role>"),
    ("invalid_role_input", "[Terminal] Ошибка: неверный ввод роли."),
];

/// The terminal text for `key` in `lang` (empty for an unknown key).
pub open spec fn terminal_text_spec(lang: Seq<char>, key: Seq<char>) -> Seq<char> {
    let table = if lang == "en"@ {
        TERMINAL_EN@
    } else {
        TERMINAL_RU@
    };
    match lookup_spec(table, key) {
        Some(v) => v,
        None => Seq::empty(),
    }
}

/// Looks up a terminal text.
pub fn terminal_text(lang: &str, key: &str) -> (r: &'static str)
    ensures
        r@ == terminal_text_spec(lang@, key@),
{
    let table: &[(&'static str, &'static str)] = if str_eq(lang, "en") {
        &TERMINAL_EN
    } else {
        &TERMINAL_RU
    };
    match lookup(table, key) {
        Some(v) => v,
        None => {
            proof {
                reveal_strlit("");
                assert(""@ =~= Seq::<char>::empty());
            }
            ""
        },
    }
}

/// The commands that have their own documentation page.
pub open spec fn documented_commands() -> Seq<Seq<char>> {
    seq![
        "flag"@,
        "ap"@,
        "wl"@,
        "fetch"@,
        "echo"@,
        "touch"@,
        "mkdir"@,
        "rm"@,
        "mv"@,
        "role"@,
        "vm"@,
        "massrole"@,
        "rrole"@,
        "rtr"@,
    ]
}

/// The documentation shown for `command`: its own page, or the overview.
pub open spec fn docs_text_spec(lang: Seq<char>, command: Seq<char>) -> Seq<char> {
    if documented_commands().contains(command) {
        terminal_text_spec(lang, "docs_"@ + command)
    } else {
        terminal_text_spec(lang, "docs_help"@)
    }
}

/// The documentation page of a terminal command.
pub fn terminal_docs_text(lang: &str, command: &str) -> (r: String)
    ensures
        r@ == docs_text_spec(lang@, command@),
{
    let names: [&str; 14] = [
        "flag",
        "ap",
        "wl",
        "fetch",
        "echo",
        "touch",
        "mkdir",
        "rm",
        "mv",
        "role",
        "vm",
        "massrole",
        "rrole",
        "rtr",
    ];
    assert(names@.map_values(|k: &str| k@) =~= documented_commands());
    let mut i: usize = 0;
    while i < 14
        invariant
            i <= 14,
            names@.map_values(|k: &str| k@) == documented_commands(),
            forall|j: int| 0 <= j < i ==> documented_commands()[j] != command@,
        decreases 14 - i,
    {
        assert(names@.map_values(|k: &str| k@)[i as int] == names@[i as int]@);
        if str_eq(names[i], command) {
            assert(documented_commands().contains(command@));
            let key = concat2("docs_", command);
            return owned(terminal_text(lang, key.as_str()));
        }
        i = i + 1;
    }
    assert(!documented_commands().contains(command@));
    owned(terminal_text(lang, "docs_help"))
}

/// The entries of the documentation menu: each command with its label.
pub open spec fn doc_options_spec(lang: Seq<char>) -> Seq<(Seq<char>, Seq<char>)> {
    seq![
        ("help"@, terminal_text_spec(lang, "docs_overview_label"@)),
        ("flag"@, "Flag"@),
        ("ap"@, terminal_text_spec(lang, "docs_ap_label"@)),
        ("wl"@, terminal_text_spec(lang, "docs_wl_label"@)),
        ("fetch"@, terminal_text_spec(lang, "docs_fetch_label"@)),
        ("echo"@, "Echo"@),
        ("touch"@, terminal_text_spec(lang, "docs_touch_label"@)),
        ("mkdir"@, terminal_text_spec(lang, "docs_mkdir_label"@)),
        ("rm"@, terminal_text_spec(lang, "docs_rm_label"@)),
        ("mv"@, terminal_text_spec(lang, "docs_mv_label"@)),
        ("role"@, "Role"@),
        ("vm"@, terminal_text_spec(lang, "docs_vm_label"@)),
        ("massrole"@, terminal_text_spec(lang, "docs_massrole_label"@)),
        ("rrole"@, terminal_text_spec(lang, "docs_rrole_label"@)),
        ("rtr"@, terminal_text_spec(lang, "docs_rtr_label"@)),
    ]
}

/// The entries of the documentation menu, as (value, label) pairs.
pub fn terminal_doc_options(lang: &str) -> (r: Vec<(&'static str, &'static str)>)
    ensures
        r@.map_values(|e: (&'static str, &'static str)| (e.0@, e.1@)) == doc_options_spec(lang@),
{
    let r = vec![
        ("help", terminal_text(lang, "docs_overview_label")),
        ("flag", "Flag"),
        ("ap", terminal_text(lang, "docs_ap_label")),
        ("wl", terminal_text(lang, "docs_wl_label")),
        ("fetch", terminal_text(lang, "docs_fetch_label")),
        ("echo", "Echo"),
        ("touch", terminal_text(lang, "docs_touch_label")),
        ("mkdir", terminal_text(lang, "docs_mkdir_label")),
        ("rm", terminal_text(lang, "docs_rm_label")),
        ("mv", terminal_text(lang, "docs_mv_label")),
        ("role", "Role"),
        ("vm", terminal_text(lang, "docs_vm_label")),
        ("massrole", terminal_text(lang, "docs_massrole_label")),
        ("rrole", terminal_text(lang, "docs_rrole_label")),
        ("rtr", terminal_text(lang, "docs_rtr_label")),
    ];
    assert(r@.map_values(|e: (&'static str, &'static str)| (e.0@, e.1@)) =~= doc_options_spec(lang@));
    r
}

/// The ASCII digits of a raw id or mention.
pub fn clean_id(raw: &str) -> (r: String)
    ensures
        r@ == digits_spec(raw@),
{
    let v = chars_of(raw);
    let d = digits_only(&v);
    string_of(&d)
}

/// The characters of each string in a list.
pub open spec fn str_views(v: Seq<String>) -> Seq<Seq<char>> {
    v.map_values(|s: String| s@)
}

/// `s` without any occurrence of `x`.
pub open spec fn remove_all(s: Seq<Seq<char>>, x: Seq<char>) -> Seq<Seq<char>>
    decreases s.len(),
{
    if s.len() == 0 {
        s
    } else if s.last() == x {
        remove_all(s.drop_last(), x)
    } else {
        remove_all(s.drop_last(), x).push(s.last())
    }
}

/// Whether `item` is in `list`.
pub fn list_contains(list: &Vec<String>, item: &str) -> (r: bool)
    ensures
        r == str_views(list@).contains(item@),
{
    let mut i: usize = 0;
    while i < list.len()
        invariant
            i <= list@.len(),
            forall|j: int| 0 <= j < i ==> list@[j]@ != item@,
        decreases list@.len() - i,
    {
        if str_eq(list[i].as_str(), item) {
            assert(str_views(list@)[i as int] == item@);
            return true;
        }
        i = i + 1;
    }
    assert(!str_views(list@).contains(item@)) by {
        if str_views(list@).contains(item@) {
            let j = choose|j: int| 0 <= j < list@.len() && str_views(list@)[j] == item@;
            assert(list@[j]@ == item@);
        }
    }
    false
}

/// Appends `item` unless it is already listed; says whether it was appended.
pub fn list_add_unique(list: &mut Vec<String>, item: String) -> (r: bool)
    ensures
        r == !str_views(old(list)@).contains(item@),
        r ==> str_views(final(list)@) == str_views(old(list)@).push(item@),
        !r ==> final(list)@ == old(list)@,
{
    if list_contains(list, item.as_str()) {
        false
    } else {
        let ghost before = list@;
        list.push(item);
        assert(str_views(list@) =~= str_views(before).push(item@));
        true
    }
}

/// Removes every occurrence of `item`.
pub fn list_remove_all(list: &mut Vec<String>, item: &str)
    ensures
        str_views(final(list)@) == remove_all(str_views(old(list)@), item@),
{
    let mut src: Vec<String> = Vec::new();
    std::mem::swap(&mut src, list);
    let ghost s = str_views(src@);
    let mut i: usize = 0;
    while i < src.len()
        invariant
            i <= src@.len(),
            s == str_views(src@),
            str_views(list@) == remove_all(s.take(i as int), item@),
        decreases src@.len() - i,
    {
        assert(s.take(i + 1).drop_last() =~= s.take(i as int));
        assert(s.take(i + 1).last() == src@[i as int]@);
        if !str_eq(src[i].as_str(), item) {
            let ghost before = list@;
            list.push(src[i].clone());
            assert(str_views(list@) =~= str_views(before).push(src@[i as int]@));
        }
        i = i + 1;
    }
    assert(s.take(s.len() as int) =~= s);
}

/// The reply listing the whitelist: each id as a mention, comma separated, or the
/// `empty` text.
pub open spec fn whitelist_listing_spec(lang: Seq<char>, ids: Seq<Seq<char>>) -> Seq<char> {
    let list = if ids.len() == 0 {
        terminal_text_spec(lang, "empty"@)
    } else {
        join_spec(ids.map_values(|id: Seq<char>| "<@"@ + id + ">"@), ", "@)
    };
    replace_spec(terminal_text_spec(lang, "wl_list"@), "{list}"@, list)
}

/// Shows the whitelist.
pub fn whitelist_listing(lang: &str, ids: &Vec<String>) -> (r: String)
    ensures
        r@ == whitelist_listing_spec(lang@, str_views(ids@)),
{
    let list = if ids.len() == 0 {
        owned(terminal_text(lang, "empty"))
    } else {
        let mut parts: Vec<Vec<char>> = Vec::new();
        let mut i: usize = 0;
        while i < ids.len()
            invariant
                i <= ids@.len(),
                views(parts@) == str_views(ids@).take(i as int).map_values(
                    |id: Seq<char>| "<@"@ + id + ">"@,
                ),
            decreases ids@.len() - i,
        {
            let m = concat3("<@", ids[i].as_str(), ">");
            let ghost before = parts@;
            let mc = chars_of(m.as_str());
            parts.push(mc);
            assert(views(parts@) =~= views(before).push(m@));
            assert(str_views(ids@).take(i + 1) =~= str_views(ids@).take(i as int).push(ids@[i as int]@));
            assert(views(parts@) =~= str_views(ids@).take(i + 1).map_values(
                |id: Seq<char>| "<@"@ + id + ">"@,
            ));
            i = i + 1;
        }
        assert(str_views(ids@).take(ids@.len() as int) =~= str_views(ids@));
        let sep = chars_of(", ");
        let j = join_chars(&parts, &sep);
        string_of(&j)
    };
    replace_str(terminal_text(lang, "wl_list"), "{list}", list.as_str())
}

/// The flags of a channel in the flag store (none when it has no entry).
pub open spec fn flags_of(m: Map<Seq<char>, Vec<String>>, channel: Seq<char>) -> Seq<Seq<char>> {
    if m.dom().contains(channel) {
        str_views(m[channel]@)
    } else {
        Seq::empty()
    }
}

/// Whether `new` is `old` with `key` now holding a list whose characters are `list`.
pub open spec fn flags_stored_as(
    old: Map<Seq<char>, Vec<String>>,
    new: Map<Seq<char>, Vec<String>>,
    key: Seq<char>,
    list: Seq<Seq<char>>,
) -> bool {
    new.dom().contains(key) && new == old.insert(key, new[key]) && str_views(new[key]@) == list
}

/// Takes a channel's flag list out of the store (an empty list when it has none).
fn take_flags(store: &mut KeyedStore<Vec<String>>, channel: &str) -> (r: Vec<String>)
    ensures
        final(store)@ == old(store)@.remove(channel@),
        str_views(r@) == flags_of(old(store)@, channel@),
{
    match store.remove(channel) {
        Some(v) => v,
        None => {
            let v: Vec<String> = Vec::new();
            assert(str_views(v@) =~= Seq::<Seq<char>>::empty());
            v
        },
    }
}

/// Adds a flag to a channel unless it has it already (the entry is created if missing).
pub fn flags_add(store: &mut KeyedStore<Vec<String>>, channel: String, flag: String)
    ensures
        flags_stored_as(
            old(store)@,
            final(store)@,
            channel@,
            if flags_of(old(store)@, channel@).contains(flag@) {
                flags_of(old(store)@, channel@)
            } else {
                flags_of(old(store)@, channel@).push(flag@)
            },
        ),
{
    let mut list = take_flags(store, channel.as_str());
    list_add_unique(&mut list, flag);
    let ghost mid = store@;
    let ghost k = channel@;
    store.insert(channel, list);
    assert(store@ =~= old(store)@.insert(k, store@[k]));
}

/// Removes a flag from a channel (the entry is created, empty, if missing).
pub fn flags_remove(store: &mut KeyedStore<Vec<String>>, channel: String, flag: &str)
    ensures
        flags_stored_as(
            old(store)@,
            final(store)@,
            channel@,
            remove_all(flags_of(old(store)@, channel@), flag@),
        ),
{
    let mut list = take_flags(store, channel.as_str());
    list_remove_all(&mut list, flag);
    let ghost k = channel@;
    store.insert(channel, list);
    assert(store@ =~= old(store)@.insert(k, store@[k]));
}

/// Whether a channel carries the `request` flag, compared ignoring ASCII case.
pub open spec fn has_request_flag_spec(m: Map<Seq<char>, Vec<String>>, channel: Seq<char>) -> bool {
    exists|i: int|
        0 <= i < flags_of(m, channel).len() && ascii_lower_spec(#[trigger] flags_of(m, channel)[i])
            == ascii_lower_spec("request"@)
}

/// Whether the media request queue is on for a channel.
pub fn has_request_flag(store: &KeyedStore<Vec<String>>, channel: &str) -> (r: bool)
    ensures
        r == has_request_flag_spec(store@, channel@),
{
    match store.get(channel) {
        None => false,
        Some(list) => {
            let req = chars_of("request");
            let req_l = ascii_lower_chars(&req);
            let mut i: usize = 0;
            while i < list.len()
                invariant
                    i <= list@.len(),
                    str_views(list@) == flags_of(store@, channel@),
                    req_l@ == ascii_lower_spec("request"@),
                    forall|j: int| 0 <= j < i ==> ascii_lower_spec(#[trigger] flags_of(store@, channel@)[j]) != ascii_lower_spec("request"@),
                decreases list@.len() - i,
            {
                let f = chars_of(list[i].as_str());
                let fl = ascii_lower_chars(&f);
                assert(flags_of(store@, channel@)[i as int] == list@[i as int]@);
                if crate::text::seq_eq(&fl, &req_l) {
                    return true;
                }
                i = i + 1;
            }
            false
        },
    }
}

/// The text of a flag panel: the chosen channel, action and flag (or `not selected`), the
/// available flags, and a status line when there is one.
pub open spec fn flag_status_spec(lang: Seq<char>, d: DraftView, status: Option<Seq<char>>) -> Seq<char> {
    let ns = terminal_text_spec(lang, "not_selected"@);
    let channel = match d.target_channel_id {
        Some(id) => "<#"@ + id + ">"@,
        None => ns,
    };
    let action = match d.action {
        Some(a) => a,
        None => ns,
    };
    let flag = match d.flag {
        Some(f) => f,
        None => ns,
    };
    let text = terminal_text_spec(lang, "flag_title"@) + "\n\n"@ + terminal_text_spec(lang, "flag_channel"@)
        + ": "@ + channel + "\n"@ + terminal_text_spec(lang, "flag_action"@) + ": "@ + action + "\n"@
        + terminal_text_spec(lang, "flag_name"@) + ": "@ + flag + "\n\n"@ + terminal_text_spec(
        lang,
        "flag_available"@,
    );
    match status {
        Some(s) => text + "\n\n"@ + replace_spec(terminal_text_spec(lang, "flag_status"@), "{status}"@, s),
        None => text,
    }
}

/// Writes the text of a flag panel.
pub fn terminal_flag_status_text(lang: &str, draft: &TerminalFlagDraft, status: Option<&str>) -> (r: String)
    ensures
        r@ == flag_status_spec(lang@, draft@, match status {
            Some(s) => Some(s@),
            None => None,
        }),
{
    let ns = terminal_text(lang, "not_selected");
    let channel = match &draft.target_channel_id {
        Some(id) => concat3("<#", id.as_str(), ">"),
        None => owned(ns),
    };
    let action = match &draft.action {
        Some(a) => a.clone(),
        None => owned(ns),
    };
    let flag = match &draft.flag {
        Some(f) => f.clone(),
        None => owned(ns),
    };
    let mut text = concat3(terminal_text(lang, "flag_title"), "\n\n", terminal_text(lang, "flag_channel"));
    text.append(": ");
    text.append(channel.as_str());
    text.append("\n");
    text.append(terminal_text(lang, "flag_action"));
    text.append(": ");
    text.append(action.as_str());
    text.append("\n");
    text.append(terminal_text(lang, "flag_name"));
    text.append(": ");
    text.append(flag.as_str());
    text.append("\n\n");
    text.append(terminal_text(lang, "flag_available"));
    match status {
        Some(s) => {
            text.append("\n\n");
            let line = replace_str(terminal_text(lang, "flag_status"), "{status}", s);
            text.append(line.as_str());
        },
        None => {},
    }
    text
}


/// A terminal argument read as an id: its digits as a number, or 0 when that fails.
pub open spec fn id_or_zero(s: Seq<char>) -> u64 {
    match parse_u64_spec(digits_spec(s)) {
        Some(x) => x,
        None => 0,
    }
}

/// Reads a terminal argument as an id.
pub fn id_arg(part: &[char]) -> (r: u64)
    ensures
        r == id_or_zero(part@),
{
    let d = digits_only(part);
    match parse_u64_chars(&d) {
        Some(x) => x,
        None => 0,
    }
}

/// What a message in the terminal channel asks for.
pub enum TerminalAction {
    /// Nothing more to do.
    Nothing,
    /// Say a plain message in the terminal channel.
    Say(String),
    /// Post a text container in the terminal channel.
    Reply(String),
    /// Post the documentation page of a command, with the menu.
    ShowDocs(String),
    /// Post the whitelist.
    WhitelistList,
    /// Whitelist a user id.
    WhitelistAdd(String),
    /// Take a user id off the whitelist.
    WhitelistRemove(String),
    /// Map a request channel to its approval channel.
    MapApproval { request: String, approval: String },
    /// Post the system banner.
    Fetch,
    /// Set a channel's topic.
    SetTopic { channel_id: u64, description: String },
    /// Create a text channel, in a category when one is given.
    CreateChannel { name: String, category_id: Option<u64> },
    /// Create a category.
    CreateCategory { name: String },
    /// Delete a message of the terminal channel.
    DeleteMessage(u64),
    /// Delete a channel or category.
    DeleteChannel(u64),
    /// Move a channel into a category.
    MoveChannel { channel_id: u64, category: u64 },
    /// Give a member a role.
    AssignRole { role_id: u64, user_id: u64 },
    /// Move a member to a voice channel.
    MoveMember { user_id: u64, channel_id: u64 },
    /// Open an interactive flag panel.
    OpenFlagPanel,
    /// Add a flag to a channel, then post `reply`.
    FlagAdd { channel: String, flag: String, reply: String },
    /// Remove a flag from a channel, then post `reply`.
    FlagRemove { channel: String, flag: String, reply: String },
    /// Give a role to every member without it.
    MassRole(u64),
    /// Post `content` in a channel, react with `emoji`, and remember the pair for the role.
    ReactionRole { role_id: u64, emoji: String, channel_id: u64, content: String },
    /// Swap one role for another on every member who has it.
    RoleTransfer { old_role: u64, new_role: u64 },
}

/// The value of a [`TerminalAction`], with its strings as character sequences.
pub enum TerminalActionView {
    Nothing,
    Say(Seq<char>),
    Reply(Seq<char>),
    ShowDocs(Seq<char>),
    WhitelistList,
    WhitelistAdd(Seq<char>),
    WhitelistRemove(Seq<char>),
    MapApproval { request: Seq<char>, approval: Seq<char> },
    Fetch,
    SetTopic { channel_id: u64, description: Seq<char> },
    CreateChannel { name: Seq<char>, category_id: Option<u64> },
    CreateCategory { name: Seq<char> },
    DeleteMessage(u64),
    DeleteChannel(u64),
    MoveChannel { channel_id: u64, category: u64 },
    AssignRole { role_id: u64, user_id: u64 },
    MoveMember { user_id: u64, channel_id: u64 },
    OpenFlagPanel,
    FlagAdd { channel: Seq<char>, flag: Seq<char>, reply: Seq<char> },
    FlagRemove { channel: Seq<char>, flag: Seq<char>, reply: Seq<char> },
    MassRole(u64),
    ReactionRole { role_id: u64, emoji: Seq<char>, channel_id: u64, content: Seq<char> },
    RoleTransfer { old_role: u64, new_role: u64 },
}

impl View for TerminalAction {
    type V = TerminalActionView;

    open spec fn view(&self) -> TerminalActionView {
        match self {
            TerminalAction::Nothing => TerminalActionView::Nothing,
            TerminalAction::Say(t) => TerminalActionView::Say(t@),
            TerminalAction::Reply(t) => TerminalActionView::Reply(t@),
            TerminalAction::ShowDocs(c) => TerminalActionView::ShowDocs(c@),
            TerminalAction::WhitelistList => TerminalActionView::WhitelistList,
            TerminalAction::WhitelistAdd(t) => TerminalActionView::WhitelistAdd(t@),
            TerminalAction::WhitelistRemove(t) => TerminalActionView::WhitelistRemove(t@),
            TerminalAction::MapApproval { request, approval } => TerminalActionView::MapApproval {
                request: request@,
                approval: approval@,
            },
            TerminalAction::Fetch => TerminalActionView::Fetch,
            TerminalAction::SetTopic { channel_id, description } => TerminalActionView::SetTopic {
                channel_id: *channel_id,
                description: description@,
            },
            TerminalAction::CreateChannel { name, category_id } => TerminalActionView::CreateChannel {
                name: name@,
                category_id: *category_id,
            },
            TerminalAction::CreateCategory { name } => TerminalActionView::CreateCategory { name: name@ },
            TerminalAction::DeleteMessage(id) => TerminalActionView::DeleteMessage(*id),
            TerminalAction::DeleteChannel(id) => TerminalActionView::DeleteChannel(*id),
            TerminalAction::MoveChannel { channel_id, category } => TerminalActionView::MoveChannel {
                channel_id: *channel_id,
                category: *category,
            },
            TerminalAction::AssignRole { role_id, user_id } => TerminalActionView::AssignRole {
                role_id: *role_id,
                user_id: *user_id,
            },
            TerminalAction::MoveMember { user_id, channel_id } => TerminalActionView::MoveMember {
                user_id: *user_id,
                channel_id: *channel_id,
            },
            TerminalAction::OpenFlagPanel => TerminalActionView::OpenFlagPanel,
            TerminalAction::FlagAdd { channel, flag, reply } => TerminalActionView::FlagAdd {
                channel: channel@,
                flag: flag@,
                reply: reply@,
            },
            TerminalAction::FlagRemove { channel, flag, reply } => TerminalActionView::FlagRemove {
                channel: channel@,
                flag: flag@,
                reply: reply@,
            },
            TerminalAction::MassRole(r) => TerminalActionView::MassRole(*r),
            TerminalAction::ReactionRole { role_id, emoji, channel_id, content } =>
                TerminalActionView::ReactionRole {
                role_id: *role_id,
                emoji: emoji@,
                channel_id: *channel_id,
                content: content@,
            },
            TerminalAction::RoleTransfer { old_role, new_role } => TerminalActionView::RoleTransfer {
                old_role: *old_role,
                new_role: *new_role,
            },
        }
    }
}

/// The word at `i`, or nothing past the end.
pub open spec fn word_or_empty(parts: Seq<Seq<char>>, i: int) -> Seq<char> {
    if i < parts.len() {
        parts[i]
    } else {
        Seq::empty()
    }
}

/// The words from `i` on, joined by single spaces.
pub open spec fn rest_joined(parts: Seq<Seq<char>>, i: int) -> Seq<char> {
    join_spec(parts.skip(i), " "@)
}

/// What the `wl` terminal command does.
pub open spec fn wl_plan(lang: Seq<char>, parts: Seq<Seq<char>>) -> TerminalActionView {
    let action = if parts.len() > 1 {
        lowercase_of(parts[1])
    } else {
        Seq::empty()
    };
    let target = digits_spec(word_or_empty(parts, 2));
    if action == "list"@ {
        TerminalActionView::WhitelistList
    } else if action == "add"@ {
        if target.len() == 0 {
            TerminalActionView::Reply(terminal_text_spec(lang, "usage_wl_add_msg"@))
        } else {
            TerminalActionView::WhitelistAdd(target)
        }
    } else if action == "rm"@ {
        if target.len() == 0 {
            TerminalActionView::Reply(terminal_text_spec(lang, "usage_wl_rm_msg"@))
        } else {
            TerminalActionView::WhitelistRemove(target)
        }
    } else {
        TerminalActionView::Reply(terminal_text_spec(lang, "usage_wl_msg"@))
    }
}

/// What the id-taking terminal commands (`echo` to `rtr`) do.
pub open spec fn id_command_plan(lang: Seq<char>, cmd: Seq<char>, parts: Seq<Seq<char>>) -> TerminalActionView {
    let n = parts.len();
    if cmd == "echo"@ {
        if n < 3 {
            TerminalActionView::Reply(terminal_text_spec(lang, "usage_echo_msg"@))
        } else if id_or_zero(parts[1]) == 0 {
            TerminalActionView::Reply(terminal_text_spec(lang, "channel_not_found"@))
        } else {
            TerminalActionView::SetTopic { channel_id: id_or_zero(parts[1]), description: rest_joined(parts, 2) }
        }
    } else if cmd == "touch"@ {
        if n < 2 {
            TerminalActionView::Reply("`[Terminal] Usage: touch <channel_name> [category_id]`"@)
        } else {
            TerminalActionView::CreateChannel {
                name: parts[1],
                category_id: if n > 2 && id_or_zero(parts[2]) != 0 {
                    Some(id_or_zero(parts[2]))
                } else {
                    None
                },
            }
        }
    } else if cmd == "mkdir"@ {
        if n < 2 {
            TerminalActionView::Reply("`[Terminal] Usage: mkdir <category_name>`"@)
        } else {
            TerminalActionView::CreateCategory { name: parts[1] }
        }
    } else if cmd == "rm"@ {
        if n < 3 {
            TerminalActionView::Reply("`[Terminal] Usage: rm -c|-ch|-m <id>`"@)
        } else if id_or_zero(parts[2]) == 0 {
            TerminalActionView::Reply("`[Terminal] Invalid ID`"@)
        } else if parts[1] == "-m"@ {
            TerminalActionView::DeleteMessage(id_or_zero(parts[2]))
        } else if parts[1] == "-c"@ || parts[1] == "-ch"@ {
            TerminalActionView::DeleteChannel(id_or_zero(parts[2]))
        } else {
            TerminalActionView::Reply("`[Terminal] Usage: rm -c|-ch|-m <id>`"@)
        }
    } else if cmd == "mv"@ {
        if n < 3 {
            TerminalActionView::Reply("`[Terminal] Usage: mv <channel> <category>`"@)
        } else if id_or_zero(parts[1]) == 0 || id_or_zero(parts[2]) == 0 {
            TerminalActionView::Reply("`[Terminal] Error: Invalid IDs`"@)
        } else {
            TerminalActionView::MoveChannel { channel_id: id_or_zero(parts[1]), category: id_or_zero(parts[2]) }
        }
    } else if cmd == "role"@ {
        if n < 3 {
            TerminalActionView::Reply("`[Terminal] Usage: role <role_id_or_mention> <user_id_or_mention>`"@)
        } else if id_or_zero(parts[1]) == 0 || id_or_zero(parts[2]) == 0 {
            TerminalActionView::Reply("`[Terminal] Error: Invalid IDs`"@)
        } else {
            TerminalActionView::AssignRole { role_id: id_or_zero(parts[1]), user_id: id_or_zero(parts[2]) }
        }
    } else if cmd == "vm"@ {
        if n < 3 {
            TerminalActionView::Reply("`[Terminal] Usage: vm <user_id> <voice_channel_id>`"@)
        } else if id_or_zero(parts[1]) == 0 || id_or_zero(parts[2]) == 0 {
            TerminalActionView::Reply("`[Terminal] Error: Invalid IDs`"@)
        } else {
            TerminalActionView::MoveMember { user_id: id_or_zero(parts[1]), channel_id: id_or_zero(parts[2]) }
        }
    } else if cmd == "massrole"@ {
        if n < 2 {
            TerminalActionView::Reply("`[Terminal] Usage: massrole <role_id_or_mention>`"@)
        } else if id_or_zero(parts[1]) == 0 {
            TerminalActionView::Reply("`[Terminal] Error: Invalid role`"@)
        } else {
            TerminalActionView::MassRole(id_or_zero(parts[1]))
        }
    } else if cmd == "rrole"@ {
        if n < 4 {
            TerminalActionView::Reply("`[Terminal] Usage: rrole @role <emoji> #channel [message]`"@)
        } else if id_or_zero(parts[1]) == 0 || id_or_zero(parts[3]) == 0 {
            TerminalActionView::Reply("`[Terminal] Error: Invalid arguments.`"@)
        } else {
            TerminalActionView::ReactionRole {
                role_id: id_or_zero(parts[1]),
                emoji: parts[2],
                channel_id: id_or_zero(parts[3]),
                content: if n > 4 {
                    rest_joined(parts, 4)
                } else {
                    "React with "@ + parts[2] + " to get the role with ID "@ + decimal_spec(
                        id_or_zero(parts[1]) as nat,
                    ) + "!"@
                },
            }
        }
    } else {
        if n < 3 {
            TerminalActionView::Reply("`[Terminal] Usage: rtr <@old_role> <@new_role>`"@)
        } else if id_or_zero(parts[1]) == 0 || id_or_zero(parts[2]) == 0 {
            TerminalActionView::Reply("`[Terminal] Error: Invalid role input.`"@)
        } else {
            TerminalActionView::RoleTransfer { old_role: id_or_zero(parts[1]), new_role: id_or_zero(parts[2]) }
        }
    }
}

/// What the `flag` terminal command does.
pub open spec fn flag_plan(parts: Seq<Seq<char>>) -> TerminalActionView {
    if parts.len() < 4 {
        TerminalActionView::OpenFlagPanel
    } else {
        let channel = digits_spec(parts[2]);
        let flag = lowercase_of(parts[3]);
        if parts[1] == "add"@ {
            TerminalActionView::FlagAdd {
                channel,
                flag,
                reply: "`[Terminal]  Added flag '"@ + flag + "' to channel <#"@ + channel + ">`"@,
            }
        } else if parts[1] == "rm"@ {
            TerminalActionView::FlagRemove {
                channel,
                flag,
                reply: "`[Terminal]  Removed flag '"@ + flag + "' from channel <#"@ + channel + ">`"@,
            }
        } else {
            TerminalActionView::Reply("`[Terminal] Invalid action.`"@)
        }
    }
}

/// What a message in the terminal channel asks for: nothing when it is blank, a refusal
/// when its author may not use the terminal, nothing outside a server, else the command
/// named by its first word (compared lower-cased).
pub open spec fn terminal_plan_spec(lang: Seq<char>, content: Seq<char>, authorized: bool, in_guild: bool) -> TerminalActionView {
    let parts = words_spec(content);
    if parts.len() == 0 {
        TerminalActionView::Nothing
    } else if !authorized {
        TerminalActionView::Say(terminal_text_spec(lang, "unauthorized"@))
    } else if !in_guild {
        TerminalActionView::Nothing
    } else {
        let cmd = lowercase_of(parts[0]);
        if cmd == "wl"@ {
            wl_plan(lang, parts)
        } else if cmd == "ap"@ {
            if parts.len() < 3 {
                TerminalActionView::ShowDocs("ap"@)
            } else if digits_spec(parts[1]).len() == 0 || digits_spec(parts[2]).len() == 0 {
                TerminalActionView::Reply(terminal_text_spec(lang, "invalid_channel_ids"@))
            } else {
                TerminalActionView::MapApproval { request: digits_spec(parts[1]), approval: digits_spec(parts[2]) }
            }
        } else if cmd == "fetch"@ {
            TerminalActionView::Fetch
        } else if cmd == "flag"@ {
            flag_plan(parts)
        } else if cmd == "echo"@ || cmd == "touch"@ || cmd == "mkdir"@ || cmd == "rm"@ || cmd == "mv"@
            || cmd == "role"@ || cmd == "vm"@ || cmd == "massrole"@ || cmd == "rrole"@ || cmd == "rtr"@
            || cmd == "rcr"@ {
            id_command_plan(lang, cmd, parts)
        } else if cmd == "help"@ {
            TerminalActionView::ShowDocs("help"@)
        } else {
            TerminalActionView::Say(terminal_text_spec(lang, "unknown_command"@))
        }
    }
}

/// The text of a terminal entry.
fn word_string(parts: &Vec<Vec<char>>, i: usize) -> (r: String)
    requires
        i < parts@.len(),
    ensures
        r@ == views(parts@)[i as int],
{
    string_of(&parts[i])
}

/// The words from `i` on, joined by single spaces.
fn rest_string(parts: &Vec<Vec<char>>, i: usize) -> (r: String)
    requires
        i <= parts@.len(),
    ensures
        r@ == rest_joined(views(parts@), i as int),
{
    let tail: &[Vec<char>] = vstd::slice::slice_subrange(parts.as_slice(), i, parts.len());
    assert(views(tail@) =~= views(parts@).skip(i as int));
    let sp = chars_of(" ");
    let j = join_chars(tail, &sp);
    string_of(&j)
}

fn reply(text: &str) -> (r: TerminalAction)
    ensures
        r@ == TerminalActionView::Reply(text@),
{
    TerminalAction::Reply(owned(text))
}

fn plan_wl(lang: &str, parts: &Vec<Vec<char>>) -> (r: TerminalAction)
    requires
        parts@.len() > 0,
    ensures
        r@ == wl_plan(lang@, views(parts@)),
{
    let ghost ps = views(parts@);
    let action: Vec<char> = if parts.len() > 1 {
        lowercase_chars(&parts[1])
    } else {
        Vec::new()
    };
    let target: Vec<char> = if parts.len() > 2 {
        digits_only(&parts[2])
    } else {
        let e: Vec<char> = Vec::new();
        assert(digits_spec(Seq::<char>::empty()) =~= e@);
        e
    };
    assert(target@ == digits_spec(word_or_empty(ps, 2)));
    let a = string_of(&action);
    if str_eq(a.as_str(), "list") {
        TerminalAction::WhitelistList
    } else if str_eq(a.as_str(), "add") {
        if target.len() == 0 {
            reply(terminal_text(lang, "usage_wl_add_msg"))
        } else {
            TerminalAction::WhitelistAdd(string_of(&target))
        }
    } else if str_eq(a.as_str(), "rm") {
        if target.len() == 0 {
            reply(terminal_text(lang, "usage_wl_rm_msg"))
        } else {
            TerminalAction::WhitelistRemove(string_of(&target))
        }
    } else {
        reply(terminal_text(lang, "usage_wl_msg"))
    }
}

fn plan_flag(parts: &Vec<Vec<char>>) -> (r: TerminalAction)
    ensures
        r@ == flag_plan(views(parts@)),
{
    if parts.len() < 4 {
        return TerminalAction::OpenFlagPanel;
    }
    let channel = string_of(&digits_only(&parts[2]));
    let flag = string_of(&lowercase_chars(&parts[3]));
    let action = word_string(parts, 1);
    if str_eq(action.as_str(), "add") {
        let mut reply = concat3("`[Terminal]  Added flag '", flag.as_str(), "' to channel <#");
        reply.append(channel.as_str());
        reply.append(">`");
        TerminalAction::FlagAdd { channel, flag, reply }
    } else if str_eq(action.as_str(), "rm") {
        let mut reply = concat3("`[Terminal]  Removed flag '", flag.as_str(), "' from channel <#");
        reply.append(channel.as_str());
        reply.append(">`");
        TerminalAction::FlagRemove { channel, flag, reply }
    } else {
        reply("`[Terminal] Invalid action.`")
    }
}

fn plan_id_command(lang: &str, cmd: &str, parts: &Vec<Vec<char>>) -> (r: TerminalAction)
    requires
        parts@.len() > 0,
    ensures
        r@ == id_command_plan(lang@, cmd@, views(parts@)),
{
    let n = parts.len();
    let ghost ps = views(parts@);
    if str_eq(cmd, "echo") {
        if n < 3 {
            return reply(terminal_text(lang, "usage_echo_msg"));
        }
        let id = id_arg(&parts[1]);
        if id == 0 {
            return reply(terminal_text(lang, "channel_not_found"));
        }
        return TerminalAction::SetTopic { channel_id: id, description: rest_string(parts, 2) };
    }
    if str_eq(cmd, "touch") {
        if n < 2 {
            return reply("`[Terminal] Usage: touch <channel_name> [category_id]`");
        }
        let category_id = if n > 2 {
            let c = id_arg(&parts[2]);
            if c != 0 {
                Some(c)
            } else {
                None
            }
        } else {
            None
        };
        return TerminalAction::CreateChannel { name: word_string(parts, 1), category_id };
    }
    if str_eq(cmd, "mkdir") {
        if n < 2 {
            return reply("`[Terminal] Usage: mkdir <category_name>`");
        }
        return TerminalAction::CreateCategory { name: word_string(parts, 1) };
    }
    if str_eq(cmd, "rm") {
        if n < 3 {
            return reply("`[Terminal] Usage: rm -c|-ch|-m <id>`");
        }
        let id = id_arg(&parts[2]);
        if id == 0 {
            return reply("`[Terminal] Invalid ID`");
        }
        let flag = word_string(parts, 1);
        if str_eq(flag.as_str(), "-m") {
            return TerminalAction::DeleteMessage(id);
        } else if str_eq(flag.as_str(), "-c") || str_eq(flag.as_str(), "-ch") {
            return TerminalAction::DeleteChannel(id);
        } else {
            return reply("`[Terminal] Usage: rm -c|-ch|-m <id>`");
        }
    }
    if str_eq(cmd, "mv") {
        if n < 3 {
            return reply("`[Terminal] Usage: mv <channel> <category>`");
        }
        let a = id_arg(&parts[1]);
        let b = id_arg(&parts[2]);
        if a == 0 || b == 0 {
            return reply("`[Terminal] Error: Invalid IDs`");
        }
        return TerminalAction::MoveChannel { channel_id: a, category: b };
    }
    if str_eq(cmd, "role") {
        if n < 3 {
            return reply("`[Terminal] Usage: role <role_id_or_mention> <user_id_or_mention>`");
        }
        let a = id_arg(&parts[1]);
        let b = id_arg(&parts[2]);
        if a == 0 || b == 0 {
            return reply("`[Terminal] Error: Invalid IDs`");
        }
        return TerminalAction::AssignRole { role_id: a, user_id: b };
    }
    if str_eq(cmd, "vm") {
        if n < 3 {
            return reply("`[Terminal] Usage: vm <user_id> <voice_channel_id>`");
        }
        let a = id_arg(&parts[1]);
        let b = id_arg(&parts[2]);
        if a == 0 || b == 0 {
            return reply("`[Terminal] Error: Invalid IDs`");
        }
        return TerminalAction::MoveMember { user_id: a, channel_id: b };
    }
    if str_eq(cmd, "massrole") {
        if n < 2 {
            return reply("`[Terminal] Usage: massrole <role_id_or_mention>`");
        }
        let a = id_arg(&parts[1]);
        if a == 0 {
            return reply("`[Terminal] Error: Invalid role`");
        }
        return TerminalAction::MassRole(a);
    }
    if str_eq(cmd, "rrole") {
        if n < 4 {
            return reply("`[Terminal] Usage: rrole @role <emoji> #channel [message]`");
        }
        let role_id = id_arg(&parts[1]);
        let channel_id = id_arg(&parts[3]);
        if role_id == 0 || channel_id == 0 {
            return reply("`[Terminal] Error: Invalid arguments.`");
        }
        let emoji = word_string(parts, 2);
        let content = if n > 4 {
            rest_string(parts, 4)
        } else {
            let mut c = concat3("React with ", emoji.as_str(), " to get the role with ID ");
            c.append(decimal_string(role_id).as_str());
            c.append("!");
            c
        };
        return TerminalAction::ReactionRole { role_id, emoji, channel_id, content };
    }
    if n < 3 {
        return reply("`[Terminal] Usage: rtr <@old_role> <@new_role>`");
    }
    let a = id_arg(&parts[1]);
    let b = id_arg(&parts[2]);
    if a == 0 || b == 0 {
        return reply("`[Terminal] Error: Invalid role input.`");
    }
    TerminalAction::RoleTransfer { old_role: a, new_role: b }
}

/// Decides what a message in the terminal channel asks for.
pub fn plan_terminal_message(lang: &str, content: &str, authorized: bool, in_guild: bool) -> (r: TerminalAction)
    ensures
        r@ == terminal_plan_spec(lang@, content@, authorized, in_guild),
{
    let v = chars_of(content);
    let parts = split_words(&v);
    let ghost ps = views(parts@);
    if parts.len() == 0 {
        return TerminalAction::Nothing;
    }
    if !authorized {
        return TerminalAction::Say(owned(terminal_text(lang, "unauthorized")));
    }
    if !in_guild {
        return TerminalAction::Nothing;
    }
    let cmd = string_of(&lowercase_chars(&parts[0]));
    let c = cmd.as_str();
    if str_eq(c, "wl") {
        plan_wl(lang, &parts)
    } else if str_eq(c, "ap") {
        if parts.len() < 3 {
            return TerminalAction::ShowDocs(owned("ap"));
        }
        let req = digits_only(&parts[1]);
        let app = digits_only(&parts[2]);
        if req.len() == 0 || app.len() == 0 {
            reply(terminal_text(lang, "invalid_channel_ids"))
        } else {
            TerminalAction::MapApproval { request: string_of(&req), approval: string_of(&app) }
        }
    } else if str_eq(c, "fetch") {
        TerminalAction::Fetch
    } else if str_eq(c, "flag") {
        plan_flag(&parts)
    } else if str_eq(c, "echo") || str_eq(c, "touch") || str_eq(c, "mkdir") || str_eq(c, "rm")
        || str_eq(c, "mv") || str_eq(c, "role") || str_eq(c, "vm") || str_eq(c, "massrole")
        || str_eq(c, "rrole") || str_eq(c, "rtr") || str_eq(c, "rcr") {
        plan_id_command(lang, c, &parts)
    } else if str_eq(c, "help") {
        TerminalAction::ShowDocs(owned("help"))
    } else {
        TerminalAction::Say(owned(terminal_text(lang, "unknown_command")))
    }
}


/// Whether a message author may use the terminal channel: the owner, a whitelisted user, or
/// (in a server) a member holding the configured staff role.
pub open spec fn message_operator_spec(
    owner: Seq<char>,
    whitelist: Seq<Seq<char>>,
    user_id: Seq<char>,
    in_guild: bool,
    staff_role: Option<u64>,
    member_roles: Option<Seq<u64>>,
) -> bool {
    owner == user_id || whitelist.contains(user_id) || (in_guild && match (member_roles, staff_role) {
        (Some(roles), Some(r)) => roles.contains(r),
        _ => false,
    })
}

/// Whether `roles` holds `role`.
pub fn roles_contain(roles: &Vec<u64>, role: u64) -> (r: bool)
    ensures
        r == roles@.contains(role),
{
    let mut i: usize = 0;
    while i < roles.len()
        invariant
            i <= roles@.len(),
            forall|j: int| 0 <= j < i ==> roles@[j] != role,
        decreases roles@.len() - i,
    {
        if roles[i] == role {
            assert(roles@[i as int] == role);
            return true;
        }
        i = i + 1;
    }
    false
}

/// The roles as a sequence.
pub open spec fn roles_view(roles: Option<&Vec<u64>>) -> Option<Seq<u64>> {
    match roles {
        Some(v) => Some(v@),
        None => None,
    }
}

/// Decides whether a message author may use the terminal channel.
pub fn is_message_operator(
    owner: &str,
    whitelist: &Vec<String>,
    user_id: &str,
    in_guild: bool,
    staff_role: Option<u64>,
    member_roles: Option<&Vec<u64>>,
) -> (r: bool)
    ensures
        r == message_operator_spec(owner@, str_views(whitelist@), user_id@, in_guild, staff_role, roles_view(member_roles)),
{
    if str_eq(owner, user_id) {
        return true;
    }
    if list_contains(whitelist, user_id) {
        return true;
    }
    if !in_guild {
        return false;
    }
    match (member_roles, staff_role) {
        (Some(roles), Some(r)) => roles_contain(roles, r),
        _ => false,
    }
}

/// Decides whether a user may run the terminal slash commands: the owner or a whitelisted user.
pub fn is_command_operator(owner: &str, whitelist: &Vec<String>, user_id: &str) -> (r: bool)
    ensures
        r == (owner@ == user_id@ || str_views(whitelist@).contains(user_id@)),
{
    str_eq(owner, user_id) || list_contains(whitelist, user_id)
}

/// What a slash `flag` command does: refuse a channel argument without digits or a blank
/// flag name, else add or remove the (trimmed, lower-cased) flag.
pub open spec fn slash_flag_spec(lang: Seq<char>, action: Seq<char>, channel: Seq<char>, flag_name: Seq<char>) -> TerminalActionView {
    let chan = digits_spec(channel);
    let flag = lowercase_of(crate::text::trim_spec(flag_name));
    if chan.len() == 0 {
        TerminalActionView::Reply(terminal_text_spec(lang, "invalid_channel_id"@))
    } else if flag.len() == 0 {
        TerminalActionView::Reply(terminal_text_spec(lang, "empty_flag"@))
    } else if action == "add"@ {
        TerminalActionView::FlagAdd {
            channel: chan,
            flag,
            reply: replace_spec(replace_spec(terminal_text_spec(lang, "flag_added"@), "{flag}"@, flag), "{channel}"@, chan),
        }
    } else if action == "rm"@ {
        TerminalActionView::FlagRemove {
            channel: chan,
            flag,
            reply: replace_spec(replace_spec(terminal_text_spec(lang, "flag_removed"@), "{flag}"@, flag), "{channel}"@, chan),
        }
    } else {
        TerminalActionView::Reply(terminal_text_spec(lang, "invalid_action"@))
    }
}

/// Decides what a slash `flag` command does.
pub fn plan_slash_flag(lang: &str, action: &str, channel: &str, flag_name: &str) -> (r: TerminalAction)
    ensures
        r@ == slash_flag_spec(lang@, action@, channel@, flag_name@),
{
    let chan = clean_id(channel);
    if chan.as_str().is_empty() {
        return reply(terminal_text(lang, "invalid_channel_id"));
    }
    let fv = chars_of(flag_name);
    let ft = crate::text::trim_chars(&fv);
    let flag = string_of(&lowercase_chars(&ft));
    if flag.as_str().is_empty() {
        return reply(terminal_text(lang, "empty_flag"));
    }
    if str_eq(action, "add") {
        let a = replace_str(terminal_text(lang, "flag_added"), "{flag}", flag.as_str());
        let reply = replace_str(a.as_str(), "{channel}", chan.as_str());
        TerminalAction::FlagAdd { channel: chan, flag, reply }
    } else if str_eq(action, "rm") {
        let a = replace_str(terminal_text(lang, "flag_removed"), "{flag}", flag.as_str());
        let reply = replace_str(a.as_str(), "{channel}", chan.as_str());
        TerminalAction::FlagRemove { channel: chan, flag, reply }
    } else {
        reply(terminal_text(lang, "invalid_action"))
    }
}

/// What a slash `rm` command does: an id without digits (or that reads as 0) is refused;
/// `-m` deletes a message of the channel, `-c` or `-ch` a channel or category; any other
/// flag gets the usage text.
pub open spec fn slash_rm_spec(lang: Seq<char>, flag: Seq<char>, id: Seq<char>) -> TerminalActionView {
    let n = id_or_zero(id);
    if n == 0 {
        TerminalActionView::Reply(terminal_text_spec(lang, "invalid_id"@))
    } else if flag == "-m"@ {
        TerminalActionView::DeleteMessage(n)
    } else if flag == "-c"@ || flag == "-ch"@ {
        TerminalActionView::DeleteChannel(n)
    } else {
        TerminalActionView::Reply(terminal_text_spec(lang, "rm_usage"@))
    }
}

/// Decides what a slash `rm` command does.
pub fn plan_slash_rm(lang: &str, flag: &str, id: &str) -> (r: TerminalAction)
    ensures
        r@ == slash_rm_spec(lang@, flag@, id@),
{
    let v = chars_of(id);
    let n = id_arg(&v);
    if n == 0 {
        reply(terminal_text(lang, "invalid_id"))
    } else if str_eq(flag, "-m") {
        TerminalAction::DeleteMessage(n)
    } else if str_eq(flag, "-c") || str_eq(flag, "-ch") {
        TerminalAction::DeleteChannel(n)
    } else {
        reply(terminal_text(lang, "rm_usage"))
    }
}

/// The progress note posted when a mass role assignment starts from the terminal channel.
pub const MASSROLE_PROGRESS_TEXT: &'static str = "`[Terminal] Выдача роли всем участникам...`";

/// The system banner as posted: the banner file's text in a code block.
pub fn fetch_banner(text: &str) -> (r: String)
    ensures
        r@ == "```\n"@ + text@ + "\n```"@,
{
    concat3("```\n", text, "\n```")
}

/// The tally of a role sweep over the members of a server.
pub struct RoleSweep {
    pub ok: u64,
    pub fail: u64,
}

impl RoleSweep {
    /// A sweep with nothing tallied.
    pub fn new() -> (r: RoleSweep)
        ensures
            r.ok == 0 && r.fail == 0,
    {
        RoleSweep { ok: 0, fail: 0 }
    }

    /// Tallies one member's outcome.
    pub fn record(&mut self, success: bool)
        requires
            old(self).ok < u64::MAX,
            old(self).fail < u64::MAX,
        ensures
            success ==> final(self).ok == old(self).ok + 1 && final(self).fail == old(self).fail,
            !success ==> final(self).fail == old(self).fail + 1 && final(self).ok == old(self).ok,
    {
        if success {
            self.ok = self.ok + 1;
        } else {
            self.fail = self.fail + 1;
        }
    }
}

/// Whether a mass role assignment touches a member: not a bot, and without the role.
pub fn massrole_applies(is_bot: bool, has_role: bool) -> (r: bool)
    ensures
        r == (!is_bot && !has_role),
{
    !is_bot && !has_role
}

/// The closing message of a mass role assignment started from the terminal channel.
pub fn massrole_done_text(ok: u64, fail: u64) -> (r: String)
    ensures
        r@ == "`[Terminal] Выдача завершена. Успешно: "@ + decimal_spec(ok as nat) + ", Ошибок: "@
            + decimal_spec(fail as nat) + ".`"@,
{
    let mut r = concat2("`[Terminal] Выдача завершена. Успешно: ", decimal_string(ok).as_str());
    r.append(", Ошибок: ");
    r.append(decimal_string(fail).as_str());
    r.append(".`");
    r
}

/// The closing message of a role transfer started from the terminal channel.
pub fn rtr_done_text(ok: u64, fail: u64) -> (r: String)
    ensures
        r@ == "`[Terminal] Complete. Successfully swapped "@ + decimal_spec(ok as nat)
            + " members. Errors: "@ + decimal_spec(fail as nat) + ".`"@,
{
    let mut r = concat2("`[Terminal] Complete. Successfully swapped ", decimal_string(ok).as_str());
    r.append(" members. Errors: ");
    r.append(decimal_string(fail).as_str());
    r.append(".`");
    r
}

/// The closing message of a sweep started by a slash command: the text for `key` with its
/// `{ok}` and `{fail}` filled in.
pub fn sweep_summary(lang: &str, key: &str, ok: u64, fail: u64) -> (r: String)
    ensures
        r@ == replace_spec(replace_spec(terminal_text_spec(lang@, key@), "{ok}"@, decimal_spec(ok as nat)), "{fail}"@, decimal_spec(fail as nat)),
{
    let a = replace_str(terminal_text(lang, key), "{ok}", decimal_string(ok).as_str());
    replace_str(a.as_str(), "{fail}", decimal_string(fail).as_str())
}

/// What a flag panel component reported as selected.
pub enum PanelSelection {
    /// A string menu with its chosen values.
    Strings(Vec<String>),
    /// A channel menu with its chosen channels.
    Channels(Vec<u64>),
    /// Any other component.
    Other,
}

/// How to answer a terminal component interaction.
pub enum PanelResponse {
    /// The component is not a terminal one.
    NotHandled,
    /// Show the documentation page of a command in place.
    UpdateDocs(String),
    /// Acknowledge without changes.
    Defer,
    /// Acknowledge and delete the panel message.
    Close,
    /// Acknowledge and delete the flag panel message; once acknowledged, its draft is
    /// forgotten with [`close_flag_panel`].
    CloseFlagPanel,
    /// Redraw the flag panel from `draft`, with a status line when given.
    UpdateFlagPanel { draft: TerminalFlagDraft, status: Option<String>, flags_changed: bool },
    /// Answer only the clicking user.
    Ephemeral(String),
}

/// Forgets the draft of a flag panel that was closed.
pub fn close_flag_panel(drafts: &mut KeyedStore<TerminalFlagDraft>, message_key: &str)
    ensures
        final(drafts)@ == old(drafts)@.remove(message_key@),
{
    let _ = drafts.remove(message_key);
}

/// The draft a panel event works on: the stored one, or a fresh one for the user.
pub open spec fn panel_draft(drafts: Map<Seq<char>, TerminalFlagDraft>, key: Seq<char>, user: Seq<char>) -> DraftView {
    if drafts.dom().contains(key) {
        drafts[key]@
    } else {
        DraftView { owner_user_id: user, target_channel_id: None, action: None, flag: None }
    }
}

/// Whether `new` is `old` with `key` now holding a draft whose view is `v`.
pub open spec fn draft_stored_as(
    old: Map<Seq<char>, TerminalFlagDraft>,
    new: Map<Seq<char>, TerminalFlagDraft>,
    key: Seq<char>,
    v: DraftView,
) -> bool {
    new.dom().contains(key) && new == old.insert(key, new[key]) && new[key]@ == v
}

/// The first string chosen in a string menu.
pub open spec fn first_string(sel: Seq<String>) -> Option<Seq<char>> {
    if sel.len() > 0 {
        Some(sel[0]@)
    } else {
        None
    }
}

/// The first channel chosen in a channel menu, in decimal.
pub open spec fn first_channel(sel: Seq<u64>) -> Option<Seq<char>> {
    if sel.len() > 0 {
        Some(decimal_spec(sel[0] as nat))
    } else {
        None
    }
}

/// Whether a custom id belongs to the flag panel's editing controls.
pub open spec fn is_panel_edit(id: Seq<char>) -> bool {
    id == "terminal_flag_channel"@ || id == "terminal_flag_action"@ || id == "terminal_flag_name"@
        || id == "terminal_flag_apply"@
}

/// The message shown after applying a flag change.
pub open spec fn apply_status_spec(lang: Seq<char>, action: Seq<char>, flag: Seq<char>, channel: Seq<char>) -> Seq<char> {
    let key = if action == "add"@ {
        "flag_apply_added"@
    } else {
        "flag_apply_removed"@
    };
    replace_spec(replace_spec(terminal_text_spec(lang, key), "{flag}"@, flag), "{channel}"@, channel)
}

fn first_string_of(v: &Vec<String>) -> (r: Option<String>)
    ensures
        opt_chars(r) == first_string(v@),
{
    if v.len() > 0 {
        Some(v[0].clone())
    } else {
        None
    }
}

fn first_channel_of(v: &Vec<u64>) -> (r: Option<String>)
    ensures
        opt_chars(r) == first_channel(v@),
{
    if v.len() > 0 {
        Some(decimal_string(v[0]))
    } else {
        None
    }
}

/// Whether `r` redraws the flag panel from a draft with view `v`, with status `status`.
pub open spec fn is_panel_update(r: PanelResponse, v: DraftView, status: Option<Seq<char>>, changed: bool) -> bool {
    match r {
        PanelResponse::UpdateFlagPanel { draft, status: s, flags_changed } => draft@ == v && opt_chars(s)
            == status && flags_changed == changed,
        _ => false,
    }
}

/// Whether `r` answers only the clicking user with `t`.
pub open spec fn is_ephemeral(r: PanelResponse, t: Seq<char>) -> bool {
    match r {
        PanelResponse::Ephemeral(x) => x@ == t,
        _ => false,
    }
}

/// Whether `r` shows the documentation page of `c`.
pub open spec fn is_docs_update(r: PanelResponse, c: Seq<char>) -> bool {
    match r {
        PanelResponse::UpdateDocs(x) => x@ == c,
        _ => false,
    }
}

/// The draft with nothing chosen and no owner, drawn when applying is refused.
pub open spec fn empty_draft() -> DraftView {
    DraftView { owner_user_id: Seq::empty(), target_channel_id: None, action: None, flag: None }
}

/// The status text when applying is refused for a missing choice.
pub open spec fn missing_choice_key(cur: DraftView) -> Seq<char> {
    if cur.target_channel_id is None {
        "select_channel_first"@
    } else if cur.action is None {
        "select_action_first"@
    } else {
        "select_flag_first"@
    }
}

/// The flag list of `ch` after `act` with `fl`: added unless present for `add`, removed
/// otherwise.
pub open spec fn flags_after(old: Map<Seq<char>, Vec<String>>, ch: Seq<char>, act: Seq<char>, fl: Seq<char>) -> Seq<Seq<char>> {
    if act == "add"@ {
        if flags_of(old, ch).contains(fl) {
            flags_of(old, ch)
        } else {
            flags_of(old, ch).push(fl)
        }
    } else {
        remove_all(flags_of(old, ch), fl)
    }
}

/// What an editing control of the flag panel does with the current draft.
pub open spec fn edited_draft(custom_id: Seq<char>, cur: DraftView, selection: PanelSelection) -> DraftView {
    if custom_id == "terminal_flag_channel"@ {
        match selection {
            PanelSelection::Channels(v) => DraftView { target_channel_id: first_channel(v@), ..cur },
            _ => cur,
        }
    } else if custom_id == "terminal_flag_action"@ {
        match selection {
            PanelSelection::Strings(v) => DraftView { action: first_string(v@), ..cur },
            _ => cur,
        }
    } else {
        match selection {
            PanelSelection::Strings(v) => DraftView { flag: first_string(v@), ..cur },
            _ => cur,
        }
    }
}

/// Every custom id of the terminal components carries the `terminal_` prefix.
proof fn lemma_terminal_ids()
    ensures
        crate::text::starts_with_spec("terminal_docs_select"@, "terminal_"@),
        crate::text::starts_with_spec("terminal_docs_close"@, "terminal_"@),
        crate::text::starts_with_spec("terminal_flag_close"@, "terminal_"@),
        crate::text::starts_with_spec("terminal_flag_open"@, "terminal_"@),
        crate::text::starts_with_spec("terminal_flag_channel"@, "terminal_"@),
        crate::text::starts_with_spec("terminal_flag_action"@, "terminal_"@),
        crate::text::starts_with_spec("terminal_flag_name"@, "terminal_"@),
        crate::text::starts_with_spec("terminal_flag_apply"@, "terminal_"@),
{
    reveal_strlit("terminal_");
    reveal_strlit("terminal_docs_select");
    reveal_strlit("terminal_docs_close");
    reveal_strlit("terminal_flag_close");
    reveal_strlit("terminal_flag_open");
    reveal_strlit("terminal_flag_channel");
    reveal_strlit("terminal_flag_action");
    reveal_strlit("terminal_flag_name");
    reveal_strlit("terminal_flag_apply");
    assert("terminal_docs_select"@.take(9) =~= "terminal_"@);
    assert("terminal_docs_close"@.take(9) =~= "terminal_"@);
    assert("terminal_flag_close"@.take(9) =~= "terminal_"@);
    assert("terminal_flag_open"@.take(9) =~= "terminal_"@);
    assert("terminal_flag_channel"@.take(9) =~= "terminal_"@);
    assert("terminal_flag_action"@.take(9) =~= "terminal_"@);
    assert("terminal_flag_name"@.take(9) =~= "terminal_"@);
    assert("terminal_flag_apply"@.take(9) =~= "terminal_"@);
}

/// The custom ids of the terminal components are distinct.
proof fn lemma_terminal_ids_distinct()
    ensures
        "terminal_docs_select"@ != "terminal_docs_close"@,
        "terminal_docs_select"@ != "terminal_flag_close"@,
        "terminal_docs_select"@ != "terminal_flag_open"@,
        "terminal_docs_select"@ != "terminal_flag_channel"@,
        "terminal_docs_select"@ != "terminal_flag_action"@,
        "terminal_docs_select"@ != "terminal_flag_name"@,
        "terminal_docs_select"@ != "terminal_flag_apply"@,
        "terminal_docs_close"@ != "terminal_flag_close"@,
        "terminal_docs_close"@ != "terminal_flag_open"@,
        "terminal_docs_close"@ != "terminal_flag_channel"@,
        "terminal_docs_close"@ != "terminal_flag_action"@,
        "terminal_docs_close"@ != "terminal_flag_name"@,
        "terminal_docs_close"@ != "terminal_flag_apply"@,
        "terminal_flag_close"@ != "terminal_flag_open"@,
        "terminal_flag_close"@ != "terminal_flag_channel"@,
        "terminal_flag_close"@ != "terminal_flag_action"@,
        "terminal_flag_close"@ != "terminal_flag_name"@,
        "terminal_flag_close"@ != "terminal_flag_apply"@,
        "terminal_flag_open"@ != "terminal_flag_channel"@,
        "terminal_flag_open"@ != "terminal_flag_action"@,
        "terminal_flag_open"@ != "terminal_flag_name"@,
        "terminal_flag_open"@ != "terminal_flag_apply"@,
        "terminal_flag_channel"@ != "terminal_flag_action"@,
        "terminal_flag_channel"@ != "terminal_flag_name"@,
        "terminal_flag_channel"@ != "terminal_flag_apply"@,
        "terminal_flag_action"@ != "terminal_flag_name"@,
        "terminal_flag_action"@ != "terminal_flag_apply"@,
        "terminal_flag_name"@ != "terminal_flag_apply"@,
{
    reveal_strlit("terminal_docs_select");
    reveal_strlit("terminal_docs_close");
    reveal_strlit("terminal_flag_close");
    reveal_strlit("terminal_flag_open");
    reveal_strlit("terminal_flag_channel");
    reveal_strlit("terminal_flag_action");
    reveal_strlit("terminal_flag_name");
    reveal_strlit("terminal_flag_apply");
    assert("terminal_docs_select"@.len() != "terminal_docs_close"@.len());
    assert("terminal_docs_select"@.len() != "terminal_flag_close"@.len());
    assert("terminal_docs_select"@.len() != "terminal_flag_open"@.len());
    assert("terminal_docs_select"@.len() != "terminal_flag_channel"@.len());
    assert("terminal_docs_select"@[9] != "terminal_flag_action"@[9]);
    assert("terminal_docs_select"@.len() != "terminal_flag_name"@.len());
    assert("terminal_docs_select"@.len() != "terminal_flag_apply"@.len());
    assert("terminal_docs_close"@[9] != "terminal_flag_close"@[9]);
    assert("terminal_docs_close"@.len() != "terminal_flag_open"@.len());
    assert("terminal_docs_close"@.len() != "terminal_flag_channel"@.len());
    assert("terminal_docs_close"@.len() != "terminal_flag_action"@.len());
    assert("terminal_docs_close"@.len() != "terminal_flag_name"@.len());
    assert("terminal_docs_close"@[9] != "terminal_flag_apply"@[9]);
    assert("terminal_flag_close"@.len() != "terminal_flag_open"@.len());
    assert("terminal_flag_close"@.len() != "terminal_flag_channel"@.len());
    assert("terminal_flag_close"@.len() != "terminal_flag_action"@.len());
    assert("terminal_flag_close"@.len() != "terminal_flag_name"@.len());
    assert("terminal_flag_close"@[14] != "terminal_flag_apply"@[14]);
    assert("terminal_flag_open"@.len() != "terminal_flag_channel"@.len());
    assert("terminal_flag_open"@.len() != "terminal_flag_action"@.len());
    assert("terminal_flag_open"@[14] != "terminal_flag_name"@[14]);
    assert("terminal_flag_open"@.len() != "terminal_flag_apply"@.len());
    assert("terminal_flag_channel"@.len() != "terminal_flag_action"@.len());
    assert("terminal_flag_channel"@.len() != "terminal_flag_name"@.len());
    assert("terminal_flag_channel"@.len() != "terminal_flag_apply"@.len());
    assert("terminal_flag_action"@.len() != "terminal_flag_name"@.len());
    assert("terminal_flag_action"@.len() != "terminal_flag_apply"@.len());
    assert("terminal_flag_name"@.len() != "terminal_flag_apply"@.len());
}

/// Handles a click or selection on a terminal component (the documentation menu or a flag
/// panel), keyed by the panel message.
pub fn flag_panel_event(
    drafts: &mut KeyedStore<TerminalFlagDraft>,
    flags: &mut KeyedStore<Vec<String>>,
    lang: &str,
    custom_id: &str,
    message_key: String,
    user_id: String,
    selection: PanelSelection,
) -> (r: PanelResponse)
    ensures
        !crate::text::starts_with_spec(custom_id@, "terminal_"@) ==> r is NotHandled && final(drafts)@
            == old(drafts)@ && final(flags)@ == old(flags)@,
        custom_id@ == "terminal_docs_select"@ ==> final(drafts)@ == old(drafts)@ && final(flags)@
            == old(flags)@ && match selection {
            PanelSelection::Strings(v) => is_docs_update(r, match first_string(v@) {
                Some(x) => x,
                None => "help"@,
            }),
            _ => r is Defer,
        },
        custom_id@ == "terminal_docs_close"@ ==> r is Close && final(drafts)@ == old(drafts)@
            && final(flags)@ == old(flags)@,
        custom_id@ == "terminal_flag_close"@ ==> r is CloseFlagPanel && final(drafts)@ == old(drafts)@
            && final(flags)@ == old(flags)@,
        custom_id@ == "terminal_flag_open"@ ==> final(flags)@ == old(flags)@ && draft_stored_as(
            old(drafts)@,
            final(drafts)@,
            message_key@,
            DraftView { owner_user_id: user_id@, target_channel_id: None, action: None, flag: None },
        ) && is_panel_update(r, final(drafts)@[message_key@]@, None, false),
        is_panel_edit(custom_id@) && panel_draft(old(drafts)@, message_key@, user_id@).owner_user_id
            != user_id@ ==> is_ephemeral(r, terminal_text_spec(lang@, "panel_other_operator"@))
            && final(drafts)@ == old(drafts)@ && final(flags)@ == old(flags)@,
        ({
            let cur = panel_draft(old(drafts)@, message_key@, user_id@);
            is_panel_edit(custom_id@) && custom_id@ != "terminal_flag_apply"@ && cur.owner_user_id == user_id@
                ==> {
                &&& final(flags)@ == old(flags)@
                &&& draft_stored_as(old(drafts)@, final(drafts)@, message_key@, edited_draft(custom_id@, cur, selection))
                &&& is_panel_update(r, edited_draft(custom_id@, cur, selection), None, false)
            }
        }),
        ({
            let cur = panel_draft(old(drafts)@, message_key@, user_id@);
            custom_id@ == "terminal_flag_apply"@ && cur.owner_user_id == user_id@ ==> match (
                cur.target_channel_id,
                cur.action,
                cur.flag,
            ) {
                (Some(ch), Some(act), Some(fl)) => {
                    &&& flags_stored_as(old(flags)@, final(flags)@, ch, flags_after(old(flags)@, ch, act, fl))
                    &&& draft_stored_as(old(drafts)@, final(drafts)@, message_key@, DraftView {
                        owner_user_id: user_id@,
                        target_channel_id: Some(ch),
                        action: Some(act),
                        flag: Some(fl),
                    })
                    &&& is_panel_update(r, final(drafts)@[message_key@]@, Some(apply_status_spec(lang@, act, fl, ch)), true)
                },
                _ => {
                    &&& final(flags)@ == old(flags)@
                    &&& draft_stored_as(old(drafts)@, final(drafts)@, message_key@, cur)
                    &&& is_panel_update(r, empty_draft(), Some(terminal_text_spec(lang@, missing_choice_key(cur))), false)
                },
            }
        }),
        crate::text::starts_with_spec(custom_id@, "terminal_"@) && custom_id@ != "terminal_docs_select"@
            && custom_id@ != "terminal_docs_close"@ && custom_id@ != "terminal_flag_close"@ && custom_id@
            != "terminal_flag_open"@ && !is_panel_edit(custom_id@) ==> r is NotHandled && final(drafts)@
            == old(drafts)@ && final(flags)@ == old(flags)@,
{
    proof {
        lemma_terminal_ids();
        lemma_terminal_ids_distinct();
    }
    if !crate::text::starts_with_str(custom_id, "terminal_") {
        return PanelResponse::NotHandled;
    }
    if str_eq(custom_id, "terminal_docs_select") {
        return match selection {
            PanelSelection::Strings(v) => match first_string_of(&v) {
                Some(x) => PanelResponse::UpdateDocs(x),
                None => PanelResponse::UpdateDocs(owned("help")),
            },
            _ => PanelResponse::Defer,
        };
    }
    if str_eq(custom_id, "terminal_docs_close") {
        return PanelResponse::Close;
    }
    if str_eq(custom_id, "terminal_flag_close") {
        return PanelResponse::CloseFlagPanel;
    }
    if str_eq(custom_id, "terminal_flag_open") {
        let d = TerminalFlagDraft::for_owner(user_id);
        let shown = d.duplicate();
        drafts.insert(message_key, d);
        return PanelResponse::UpdateFlagPanel { draft: shown, status: None, flags_changed: false };
    }
    let is_channel = str_eq(custom_id, "terminal_flag_channel");
    let is_action = str_eq(custom_id, "terminal_flag_action");
    let is_name = str_eq(custom_id, "terminal_flag_name");
    let is_apply = str_eq(custom_id, "terminal_flag_apply");
    if !(is_channel || is_action || is_name || is_apply) {
        return PanelResponse::NotHandled;
    }
    let cur = match drafts.get(message_key.as_str()) {
        Some(d) => d.duplicate(),
        None => TerminalFlagDraft::for_owner(user_id.clone()),
    };
    if !str_eq(cur.owner_user_id.as_str(), user_id.as_str()) {
        return PanelResponse::Ephemeral(owned(terminal_text(lang, "panel_other_operator")));
    }
    if is_channel || is_action || is_name {
        let mut next = cur;
        if is_channel {
            match &selection {
                PanelSelection::Channels(v) => next.target_channel_id = first_channel_of(v),
                _ => {},
            }
        } else if is_action {
            match &selection {
                PanelSelection::Strings(v) => next.action = first_string_of(v),
                _ => {},
            }
        } else {
            match &selection {
                PanelSelection::Strings(v) => next.flag = first_string_of(v),
                _ => {},
            }
        }
        let shown = next.duplicate();
        drafts.insert(message_key, next);
        return PanelResponse::UpdateFlagPanel { draft: shown, status: None, flags_changed: false };
    }
    let target = copy_opt(&cur.target_channel_id);
    let action = copy_opt(&cur.action);
    let flag = copy_opt(&cur.flag);
    let missing: Option<&str> = if target.is_none() {
        Some("select_channel_first")
    } else if action.is_none() {
        Some("select_action_first")
    } else if flag.is_none() {
        Some("select_flag_first")
    } else {
        None
    };
    match missing {
        Some(key) => {
            drafts.insert(message_key, cur);
            PanelResponse::UpdateFlagPanel {
                draft: TerminalFlagDraft::default(),
                status: Some(owned(terminal_text(lang, key))),
                flags_changed: false,
            }
        },
        None => {
            let ch = target.unwrap();
            let act = action.unwrap();
            let fl = flag.unwrap();
            let is_add = str_eq(act.as_str(), "add");
            if is_add {
                flags_add(flags, ch.clone(), fl.clone());
            } else {
                flags_remove(flags, ch.clone(), fl.as_str());
            }
            let key = if is_add {
                "flag_apply_added"
            } else {
                "flag_apply_removed"
            };
            let a = replace_str(terminal_text(lang, key), "{flag}", fl.as_str());
            let status = replace_str(a.as_str(), "{channel}", ch.as_str());
            let d = TerminalFlagDraft {
                owner_user_id: user_id,
                target_channel_id: Some(ch),
                action: Some(act),
                flag: Some(fl),
            };
            let shown = d.duplicate();
            drafts.insert(message_key, d);
            PanelResponse::UpdateFlagPanel { draft: shown, status: Some(status), flags_changed: true }
        },
    }
}

} // verus!
