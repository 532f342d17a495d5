//! Properties that hold across the library's operations.
use vstd::prelude::*;
use crate::text::{
    all_digits, decimal_spec, decimal_value, digit_char, digit_value, is_digit, parse_u64_spec,
    parse_i64_spec,
};
use crate::settings::{guild_key, settings_at, stored_as, GuildSettings, GuildSettingsView};
use crate::bot::{is_admin_spec, private_voice_spec, staff_spec, MemberAccess};
use crate::events::{
    block_target_spec, button_verdict_spec, gallery_spec, queue_target_spec, reaction_role_spec,
    role_change_lines, roles_not_in, sticky_repost_spec, sticky_stored, MediaVerdict,
    starboard_claim_spec, StarboardStep,
};
use crate::moderation::{byte_len, duration_spec, unit_seconds};
use crate::state::{MediaRequest, ReactionRoleConfig, StickyMessage};
use crate::terminal::{flags_of, flags_stored_as, has_request_flag_spec, remove_all};
use crate::text::{
    ascii_lower_spec, contains_spec, find_from, lemma_find_from_matches, matches_at, replace_spec,
    starts_with_spec,
};
use crate::ai::sanitized_spec;
use crate::i18n::{lookup_spec, translate_spec, DICT_EN, DICT_RU};
use crate::terminal::{terminal_text_spec, TERMINAL_EN, TERMINAL_RU};
use crate::terminal::{id_or_zero, terminal_plan_spec, TerminalActionView};
use crate::events::{mention_plan_spec, starboard_step_spec, voice_log_spec, MentionPlan, VoiceChange};
use crate::ai::stripped_mention_spec;
use crate::settings::{with_id, IdSetting};
use crate::text::{lowercase_of, words_spec};

verus! {

proof fn lemma_digit_char(k: int)
    requires
        0 <= k < 10,
    ensures
        digit_value(digit_char(k)) == k,
        is_digit(digit_char(k)),
{
    assert(digit_char(k) as u32 == (k + 48) as u32);
}

proof fn lemma_decimal_digits(n: nat)
    ensures
        decimal_spec(n).len() > 0,
        all_digits(decimal_spec(n)),
        decimal_value(decimal_spec(n)) == n,
    decreases n,
{
    if n < 10 {
        let s = decimal_spec(n);
        lemma_digit_char(n as int);
        assert(s =~= seq![digit_char(n as int)]);
        assert(s.drop_last() =~= Seq::<char>::empty());
        assert(decimal_value(s) == 10 * decimal_value(s.drop_last()) + digit_value(s.last()));
        assert(is_digit(s[0]));
    } else {
        lemma_decimal_digits(n / 10);
        lemma_digit_char((n % 10) as int);
        let p = decimal_spec(n / 10);
        let s = decimal_spec(n);
        assert(s =~= p.push(digit_char((n % 10) as int)));
        assert(s.drop_last() =~= p);
        assert(s.last() == digit_char((n % 10) as int));
        assert(decimal_value(s) == 10 * decimal_value(p) + digit_value(s.last()));
        assert(n == 10 * (n / 10) + n % 10) by (nonlinear_arith);
        assert forall|i: int| 0 <= i < s.len() implies is_digit(#[trigger] s[i]) by {
            if i < p.len() {
                assert(s[i] == p[i]);
            }
        }
    }
}

/// An id written in decimal reads back as the same id: ids stored as text (request senders
/// and channels, reaction roles, sticky copies, settings keys) are found again by parsing.
pub proof fn law_decimal_round_trip(n: u64)
    ensures
        parse_u64_spec(decimal_spec(n as nat)) == Some(n),
{
    lemma_decimal_digits(n as nat);
    let s = decimal_spec(n as nat);
    assert(is_digit(s[0]));
}

/// Two servers never share a settings key.
pub proof fn law_guild_key_injective(a: u64, b: u64)
    ensures
        guild_key(a) == guild_key(b) ==> a == b,
{
    law_decimal_round_trip(a);
    law_decimal_round_trip(b);
}

/// After a server's settings are stored, reading them gives what was stored, and every other
/// server reads what it read before.
pub proof fn law_settings_read_after_write(
    old: Map<Seq<char>, GuildSettings>,
    new: Map<Seq<char>, GuildSettings>,
    guild: u64,
    v: GuildSettingsView,
    other: u64,
)
    requires
        stored_as(old, new, guild_key(guild), v),
    ensures
        settings_at(new, guild_key(guild)) == v,
        other != guild ==> settings_at(new, guild_key(other)) == settings_at(old, guild_key(other)),
{
    law_guild_key_injective(guild, other);
}

/// A reaction role reads back what `rrole` stored: reacting with the stored emoji on its
/// message gives the stored role.
pub proof fn law_reaction_role_round_trip(config: ReactionRoleConfig, role: u64, emoji: Seq<char>)
    requires
        config.role_id matches Some(x) && x@ == decimal_spec(role as nat),
        config.emoji matches Some(e) && e@ == emoji,
    ensures
        reaction_role_spec(config, emoji) == Some(role),
{
    law_decimal_round_trip(role);
}

/// A held-back request whose ids were written from a channel and a user blocks that user in
/// that channel.
pub proof fn law_block_target_round_trip(req: MediaRequest, channel: u64, user: u64)
    requires
        req.original_channel_id@ == decimal_spec(channel as nat),
        req.original_user_id@ == decimal_spec(user as nat),
    ensures
        block_target_spec(req) == Some((channel, user)),
{
    law_decimal_round_trip(channel);
    law_decimal_round_trip(user);
}

/// The three buttons of an approval request are read back as approve, deny and block.
pub proof fn law_approval_buttons(message_id: u64)
    ensures
        button_verdict_spec("media_approve_"@ + decimal_spec(message_id as nat)) == Some(
            MediaVerdict::Approve,
        ),
        button_verdict_spec("media_deny_"@ + decimal_spec(message_id as nat)) == Some(
            MediaVerdict::Deny,
        ),
        button_verdict_spec("media_block_"@ + decimal_spec(message_id as nat)) == Some(
            MediaVerdict::Block,
        ),
{
    reveal_strlit("media_");
    reveal_strlit("media_approve_");
    reveal_strlit("media_deny_");
    reveal_strlit("media_block_");
    let d = decimal_spec(message_id as nat);
    let a = "media_approve_"@ + d;
    let n = "media_deny_"@ + d;
    let b = "media_block_"@ + d;
    assert(a.take(6) =~= "media_"@);
    assert(a.take(14) =~= "media_approve_"@);
    assert(n.take(6) =~= "media_"@);
    assert(n.len() >= 14 ==> n.take(14)[6] != "media_approve_"@[6]);
    assert(n.len() >= 12 ==> n.take(12)[6] != "media_block_"@[6]);
    assert(b.take(6) =~= "media_"@);
    assert(b.len() >= 14 ==> b.take(14)[6] != "media_approve_"@[6]);
    assert(b.take(12) =~= "media_block_"@);
}

/// A media gallery never holds more than ten items.
pub proof fn law_gallery_at_most_ten(
    stored: Seq<Seq<char>>,
    content: Seq<Seq<char>>,
    attachments: Seq<Seq<char>>,
)
    ensures
        gallery_spec(stored, content, attachments).len() <= 10,
{
}

proof fn lemma_roles_not_in_subset(xs: Seq<u64>, ys: Seq<u64>)
    requires
        forall|i: int| 0 <= i < xs.len() ==> ys.contains(#[trigger] xs[i]),
    ensures
        roles_not_in(xs, ys).len() == 0,
    decreases xs.len(),
{
    if xs.len() > 0 {
        assert(ys.contains(xs[xs.len() - 1]));
        lemma_roles_not_in_subset(xs.drop_last(), ys);
    }
}

/// A member update whose roles are unchanged logs no role change.
pub proof fn law_same_roles_no_change(roles: Seq<u64>)
    ensures
        role_change_lines(roles, roles).len() == 0,
{
    assert forall|i: int| 0 <= i < roles.len() implies roles.contains(#[trigger] roles[i]) by {}
    lemma_roles_not_in_subset(roles, roles);
}

/// A role present before and after an update is neither added nor removed.
pub proof fn law_kept_role_not_logged(old: Seq<u64>, new: Seq<u64>, role: u64)
    requires
        old.contains(role),
        new.contains(role),
    ensures
        !roles_not_in(new, old).contains("<@&"@ + decimal_spec(role as nat) + ">"@),
        !roles_not_in(old, new).contains("<@&"@ + decimal_spec(role as nat) + ">"@),
{
    lemma_roles_not_in_excludes(new, old, role);
    lemma_roles_not_in_excludes(old, new, role);
}

proof fn lemma_roles_not_in_excludes(xs: Seq<u64>, ys: Seq<u64>, role: u64)
    requires
        ys.contains(role),
    ensures
        !roles_not_in(xs, ys).contains("<@&"@ + decimal_spec(role as nat) + ">"@),
    decreases xs.len(),
{
    if xs.len() > 0 {
        lemma_roles_not_in_excludes(xs.drop_last(), ys, role);
        let x = xs.last();
        if !ys.contains(x) {
            assert(x != role);
            let m = "<@&"@ + decimal_spec(x as nat) + ">"@;
            let t = "<@&"@ + decimal_spec(role as nat) + ">"@;
            if m == t {
                reveal_strlit("<@&");
                reveal_strlit(">");
                assert(decimal_spec(x as nat) =~= m.subrange(3, m.len() - 1));
                assert(decimal_spec(role as nat) =~= t.subrange(3, t.len() - 1));
                law_decimal_round_trip(x);
                law_decimal_round_trip(role);
            }
            let before = roles_not_in(xs.drop_last(), ys);
            assert(roles_not_in(xs, ys) == before.push(m));
            if roles_not_in(xs, ys).contains(t) {
                let k = choose|k: int| 0 <= k < before.push(m).len() && before.push(m)[k] == t;
                if k < before.len() {
                    assert(before.contains(t));
                }
            }
        }
    }
}

/// A duration that is read is a positive number of seconds.
pub proof fn law_duration_positive(v: Seq<char>)
    ensures
        duration_spec(v) matches Some(s) ==> s > 0,
{
    if byte_len(v) >= 2 {
        match parse_i64_spec(v.drop_last()) {
            Some(a) => {
                if a > 0 {
                    match unit_seconds(v.last()) {
                        Some(m) => {
                            assert(m >= 1);
                            assert(a * m > 0) by (nonlinear_arith)
                                requires
                                    a > 0,
                                    m >= 1,
                            ;
                        },
                        None => {},
                    }
                }
            },
            None => {},
        }
    }
}

/// Reposting a sticky message right after it is set posts the text and image that were set,
/// with no earlier copy to delete.
pub proof fn law_sticky_set_then_repost(
    old: Map<Seq<char>, StickyMessage>,
    new: Map<Seq<char>, StickyMessage>,
    channel: Seq<char>,
    content: Option<Seq<char>>,
    image: Option<Seq<char>>,
)
    requires
        sticky_stored(old, new, channel, content, image),
        content matches Some(t) ==> t.len() > 0,
    ensures
        sticky_repost_spec(new[channel]) == (None::<u64>, content, image),
{
}

/// Adding the `request` flag to a channel turns its approval queue on.
pub proof fn law_request_flag_after_add(
    old: Map<Seq<char>, Vec<String>>,
    new: Map<Seq<char>, Vec<String>>,
    channel: Seq<char>,
)
    requires
        flags_stored_as(
            old,
            new,
            channel,
            if flags_of(old, channel).contains("request"@) {
                flags_of(old, channel)
            } else {
                flags_of(old, channel).push("request"@)
            },
        ),
    ensures
        has_request_flag_spec(new, channel),
{
    let l = flags_of(new, channel);
    if flags_of(old, channel).contains("request"@) {
        let i = choose|i: int| 0 <= i < l.len() && l[i] == "request"@;
        assert(ascii_lower_spec(l[i]) == ascii_lower_spec("request"@));
    } else {
        let i = l.len() - 1;
        assert(l[i] == "request"@);
        assert(ascii_lower_spec(l[i]) == ascii_lower_spec("request"@));
    }
}

proof fn lemma_remove_all(s: Seq<Seq<char>>, x: Seq<char>, y: Seq<char>)
    ensures
        !remove_all(s, x).contains(x),
        y != x ==> (remove_all(s, x).contains(y) <==> s.contains(y)),
    decreases s.len(),
{
    if s.len() > 0 {
        lemma_remove_all(s.drop_last(), x, y);
        let r = remove_all(s.drop_last(), x);
        if s.last() != x {
            assert(remove_all(s, x) == r.push(s.last()));
            assert(r.push(s.last()).last() == s.last());
            if r.push(s.last()).contains(x) {
                let k = choose|k: int| 0 <= k < r.push(s.last()).len() && r.push(s.last())[k] == x;
                assert(r.contains(x)) by {
                    assert(k < r.len());
                    assert(r[k] == x);
                }
            }
            if y != x {
                if r.push(s.last()).contains(y) {
                    let k = choose|k: int| 0 <= k < r.push(s.last()).len() && r.push(s.last())[k] == y;
                    if k < r.len() {
                        assert(r.contains(y));
                        let j = choose|j: int| 0 <= j < s.drop_last().len() && s.drop_last()[j] == y;
                        assert(s[j] == y);
                    } else {
                        assert(s[s.len() - 1] == y);
                    }
                }
                if s.contains(y) {
                    let j = choose|j: int| 0 <= j < s.len() && s[j] == y;
                    if j < s.len() - 1 {
                        assert(s.drop_last()[j] == y);
                        let k = choose|k: int| 0 <= k < r.len() && r[k] == y;
                        assert(r.push(s.last())[k] == y);
                    } else {
                        assert(r.push(s.last())[r.len() as int] == y);
                    }
                }
            }
        } else {
            if y != x && s.contains(y) {
                let j = choose|j: int| 0 <= j < s.len() && s[j] == y;
                assert(j < s.len() - 1);
                assert(s.drop_last()[j] == y);
            }
            if y != x && s.drop_last().contains(y) {
                let j = choose|j: int| 0 <= j < s.drop_last().len() && s.drop_last()[j] == y;
                assert(s[j] == y);
            }
        }
    }
}

/// Removing a flag or a whitelisted id takes out every copy of it and keeps everything else.
pub proof fn law_remove_all(s: Seq<Seq<char>>, x: Seq<char>, y: Seq<char>)
    ensures
        !remove_all(s, x).contains(x),
        y != x ==> (remove_all(s, x).contains(y) <==> s.contains(y)),
{
    lemma_remove_all(s, x, y);
}

/// Staff may always use private voice channels, and server administrators are staff.
pub proof fn law_staff_access(
    store: Map<Seq<char>, GuildSettings>,
    guild: Option<u64>,
    member: Option<MemberAccess>,
)
    ensures
        staff_spec(store, guild, member) ==> private_voice_spec(store, guild, member),
        (member matches Some(m) && is_admin_spec(m.permissions)) ==> staff_spec(store, guild, member),
{
}

/// A message is held for approval only in a channel with the `request` flag.
pub proof fn law_queue_needs_request_flag(
    flags: Map<Seq<char>, Vec<String>>,
    approvals: Map<Seq<char>, String>,
    channel: Seq<char>,
    content: Seq<char>,
    n_attachments: nat,
)
    ensures
        queue_target_spec(flags, approvals, channel, content, n_attachments) is Some
            ==> has_request_flag_spec(flags, channel) && approvals.contains_key(channel),
{
}

proof fn lemma_replace_prefix(s: Seq<char>, p: Seq<char>, r: Seq<char>, w: Seq<char>)
    requires
        p.len() > 0,
        r.len() > 0,
        r[0] == p[0],
        forall|i: int| 0 <= i < w.len() ==> #[trigger] w[i] != p[0],
        starts_with_spec(replace_spec(s, p, r), w),
    ensures
        starts_with_spec(s, w),
    decreases s.len(),
{
    if w.len() > 0 && s.len() >= p.len() {
        let out = replace_spec(s, p, r);
        if s.take(p.len() as int) == p {
            assert(out == r + replace_spec(s.skip(p.len() as int), p, r));
            assert(out[0] == r[0]);
            assert(out.take(w.len() as int)[0] == w[0]);
            assert(false);
        } else {
            let rest = replace_spec(s.drop_first(), p, r);
            assert(out == seq![s[0]] + rest);
            assert(out.take(w.len() as int)[0] == w[0]);
            assert(rest.take(w.len() - 1) =~= out.take(w.len() as int).drop_first());
            assert(w.drop_first() =~= w.take(w.len() as int).drop_first());
            lemma_replace_prefix(s.drop_first(), p, r, w.drop_first());
            assert(s.take(w.len() as int) =~= seq![s[0]] + s.drop_first().take(w.len() - 1));
            assert(w =~= seq![w[0]] + w.drop_first());
        }
    } else if w.len() > 0 {
        assert(replace_spec(s, p, r) == s);
    } else {
        assert(s.take(0) =~= w);
    }
}

proof fn lemma_replace_no_occurrence(s: Seq<char>, p: Seq<char>, r: Seq<char>, q: Seq<char>, j: int)
    requires
        p.len() > 0,
        r.len() > 0,
        q.len() >= 2,
        r[0] == p[0],
        forall|i: int| 1 <= i < q.len() ==> #[trigger] q[i] != p[0],
        forall|k: int| 0 <= k < r.len() && #[trigger] r[k] == q[0] ==> k + 1 < r.len() && r[k + 1] != q[1],
        forall|i: int| matches_at(s, q, i) ==> matches_at(s, p, i),
    ensures
        !matches_at(replace_spec(s, p, r), q, j),
    decreases s.len(),
{
    let out = replace_spec(s, p, r);
    if s.len() < p.len() {
        if matches_at(s, q, j) {
            assert(matches_at(s, p, j));
        }
    } else if s.take(p.len() as int) == p {
        let rest_in = s.skip(p.len() as int);
        let rest = replace_spec(rest_in, p, r);
        assert(out == r + rest);
        if matches_at(out, q, j) {
            if j < r.len() {
                assert(out.subrange(j, j + q.len())[0] == q[0]);
                assert(r[j] == q[0]);
                assert(out.subrange(j, j + q.len())[1] == q[1]);
                assert(out[j + 1] == r[j + 1]);
                assert(false);
            } else {
                assert forall|i: int| matches_at(rest_in, q, i) implies matches_at(rest_in, p, i) by {
                    assert(s.subrange(i + p.len(), i + p.len() + q.len()) =~= rest_in.subrange(i, i + q.len()));
                    assert(matches_at(s, q, i + p.len()));
                    assert(s.subrange(i + p.len(), i + p.len() + p.len()) =~= rest_in.subrange(i, i + p.len()));
                }
                lemma_replace_no_occurrence(rest_in, p, r, q, j - r.len());
                assert(out.subrange(j, j + q.len()) =~= rest.subrange(j - r.len(), j - r.len() + q.len()));
            }
        }
    } else {
        let s1 = s.drop_first();
        let rest = replace_spec(s1, p, r);
        assert(out == seq![s[0]] + rest);
        if matches_at(out, q, j) {
            if j == 0 {
                let w = q.drop_first();
                assert(out.subrange(0, q.len() as int)[0] == q[0]);
                assert(s[0] == q[0]);
                assert(rest.take(w.len() as int) =~= out.subrange(1, q.len() as int));
                assert(out.subrange(1, q.len() as int) =~= w);
                lemma_replace_prefix(s1, p, r, w);
                assert(s.subrange(0, q.len() as int) =~= seq![s[0]] + s1.take(w.len() as int));
                assert(q =~= seq![q[0]] + w);
                assert(matches_at(s, q, 0));
                assert(matches_at(s, p, 0));
                assert(s.subrange(0, p.len() as int) =~= s.take(p.len() as int));
                assert(false);
            } else {
                assert forall|i: int| matches_at(s1, q, i) implies matches_at(s1, p, i) by {
                    assert(s.subrange(i + 1, i + 1 + q.len()) =~= s1.subrange(i, i + q.len()));
                    assert(matches_at(s, q, i + 1));
                    assert(s.subrange(i + 1, i + 1 + p.len()) =~= s1.subrange(i, i + p.len()));
                }
                lemma_replace_no_occurrence(s1, p, r, q, j - 1);
                assert(out.subrange(j, j + q.len()) =~= rest.subrange(j - 1, j - 1 + q.len()));
            }
        }
    }
}

proof fn lemma_replace_followed(s: Seq<char>, p: Seq<char>, z: char, j: int)
    requires
        p.len() >= 2,
        forall|i: int| 1 <= i < p.len() ==> #[trigger] p[i] != p[0],
        z != p[0],
    ensures
        matches_at(replace_spec(s, p, p.push(z)), p, j) ==> j + p.len() < replace_spec(s, p, p.push(z)).len()
            && replace_spec(s, p, p.push(z))[j + p.len()] == z,
    decreases s.len(),
{
    let r = p.push(z);
    let out = replace_spec(s, p, r);
    if !matches_at(out, p, j) {
    } else if s.len() < p.len() {
        assert(out == s);
    } else if s.take(p.len() as int) == p {
        let rest_in = s.skip(p.len() as int);
        let rest = replace_spec(rest_in, p, r);
        assert(out == r + rest);
        if j < r.len() {
            assert(out.subrange(j, j + p.len())[0] == p[0]);
            assert(r[j] == p[0]);
            if j != 0 {
                if j == p.len() {
                    assert(r[j] == z);
                } else {
                    assert(r[j] == p[j]);
                }
                assert(false);
            }
            assert(out[p.len() as int] == r[p.len() as int]);
        } else {
            lemma_replace_followed(rest_in, p, z, j - r.len());
            assert(out.subrange(j, j + p.len()) =~= rest.subrange(j - r.len(), j - r.len() + p.len()));
            assert(out[j + p.len()] == rest[j - r.len() + p.len()]);
        }
    } else {
        let s1 = s.drop_first();
        let rest = replace_spec(s1, p, r);
        assert(out == seq![s[0]] + rest);
        if j == 0 {
            let w = p.drop_first();
            assert(out.subrange(0, p.len() as int)[0] == p[0]);
            assert(rest.take(w.len() as int) =~= out.subrange(1, p.len() as int));
            assert(out.subrange(1, p.len() as int) =~= w);
            lemma_replace_prefix(s1, p, r, w);
            assert(s.take(p.len() as int) =~= seq![s[0]] + s1.take(w.len() as int));
            assert(p =~= seq![p[0]] + w);
            assert(false);
        } else {
            lemma_replace_followed(s1, p, z, j - 1);
            assert(out.subrange(j, j + p.len()) =~= rest.subrange(j - 1, j - 1 + p.len()));
            assert(out[j + p.len()] == rest[j - 1 + p.len()]);
        }
    }
}

/// Generated text never pings: after defusing, it holds no `@everyone` and no `@here`, and
/// every `<@` (the start of a user or role mention) is followed by a zero-width space.
pub proof fn law_sanitized_never_pings(input: Seq<char>, j: int)
    ensures
        !matches_at(sanitized_spec(input), "@everyone"@, j),
        !matches_at(sanitized_spec(input), "@here"@, j),
        matches_at(sanitized_spec(input), "<@"@, j) ==> j + 2 < sanitized_spec(input).len()
            && sanitized_spec(input)[j + 2] == '\u{200B}',
{
    reveal_strlit("@everyone");
    reveal_strlit("@\u{200B}everyone");
    reveal_strlit("@here");
    reveal_strlit("@\u{200B}here");
    reveal_strlit("<@&");
    reveal_strlit("<@&\u{200B}");
    reveal_strlit("<@");
    reveal_strlit("<@\u{200B}");
    let e = "@everyone"@;
    let h = "@here"@;
    let a = replace_spec(input, e, "@\u{200B}everyone"@);
    let b = replace_spec(a, h, "@\u{200B}here"@);
    let c = replace_spec(b, "<@&"@, "<@&\u{200B}"@);
    let d = replace_spec(c, "<@"@, "<@\u{200B}"@);
    assert(d == sanitized_spec(input));
    assert forall|k: int| !matches_at(a, e, k) by {
        lemma_replace_no_occurrence(input, e, "@\u{200B}everyone"@, e, k);
    }
    assert forall|k: int| !matches_at(b, e, k) by {
        lemma_replace_no_occurrence(a, h, "@\u{200B}here"@, e, k);
    }
    assert forall|k: int| !matches_at(b, h, k) by {
        lemma_replace_no_occurrence(a, h, "@\u{200B}here"@, h, k);
    }
    assert forall|k: int| !matches_at(c, e, k) && !matches_at(c, h, k) by {
        lemma_replace_no_occurrence(b, "<@&"@, "<@&\u{200B}"@, e, k);
        lemma_replace_no_occurrence(b, "<@&"@, "<@&\u{200B}"@, h, k);
    }
    lemma_replace_no_occurrence(c, "<@"@, "<@\u{200B}"@, e, j);
    lemma_replace_no_occurrence(c, "<@"@, "<@\u{200B}"@, h, j);
    assert("<@"@.push('\u{200B}') =~= "<@\u{200B}"@);
    lemma_replace_followed(c, "<@"@, '\u{200B}', j);
}

/// A message goes to the starboard at most once, and its mark never goes away: once a claim
/// posts it, every later claim leaves it alone, whatever the settings and count.
pub proof fn law_starboard_at_most_once(
    marks: Map<Seq<char>, bool>,
    message: Seq<char>,
    s1: GuildSettingsView,
    count1: u64,
    s2: GuildSettingsView,
    count2: u64,
    other: Seq<char>,
)
    ensures
        ({
            let (r1, m1) = starboard_claim_spec(marks, message, s1, count1);
            let (r2, m2) = starboard_claim_spec(m1, message, s2, count2);
            &&& r1 is Post ==> r2 == StarboardStep::Continue && m2 == m1
            &&& (marks.dom().contains(other) && marks[other]) ==> (m1.dom().contains(other) && m1[other])
        }),
{
}

/// `s` without its zero-width spaces.
pub open spec fn without_zero_width(s: Seq<char>) -> Seq<char>
    decreases s.len(),
{
    if s.len() == 0 {
        s
    } else if s.last() == '\u{200B}' {
        without_zero_width(s.drop_last())
    } else {
        without_zero_width(s.drop_last()).push(s.last())
    }
}

proof fn lemma_without_zero_width_add(a: Seq<char>, b: Seq<char>)
    ensures
        without_zero_width(a + b) == without_zero_width(a) + without_zero_width(b),
    decreases b.len(),
{
    if b.len() == 0 {
        assert(a + b =~= a);
        assert(without_zero_width(a) + without_zero_width(b) =~= without_zero_width(a));
    } else {
        lemma_without_zero_width_add(a, b.drop_last());
        assert((a + b).drop_last() =~= a + b.drop_last());
        assert((a + b).last() == b.last());
        if b.last() != '\u{200B}' {
            assert(without_zero_width(a) + without_zero_width(b) =~= (without_zero_width(a)
                + without_zero_width(b.drop_last())).push(b.last()));
        }
    }
}

proof fn lemma_replace_keeps_text(s: Seq<char>, p: Seq<char>, r: Seq<char>)
    requires
        p.len() > 0,
        without_zero_width(r) == without_zero_width(p),
    ensures
        without_zero_width(replace_spec(s, p, r)) == without_zero_width(s),
    decreases s.len(),
{
    if s.len() < p.len() {
    } else if s.take(p.len() as int) == p {
        let rest = s.skip(p.len() as int);
        lemma_replace_keeps_text(rest, p, r);
        lemma_without_zero_width_add(r, replace_spec(rest, p, r));
        assert(s =~= p + rest);
        lemma_without_zero_width_add(p, rest);
    } else {
        let rest = s.drop_first();
        lemma_replace_keeps_text(rest, p, r);
        lemma_without_zero_width_add(seq![s[0]], replace_spec(rest, p, r));
        assert(s =~= seq![s[0]] + rest);
        lemma_without_zero_width_add(seq![s[0]], rest);
    }
}

proof fn lemma_zero_width_after_first(a: char, w: Seq<char>)
    requires
        a != '\u{200B}',
    ensures
        without_zero_width(seq![a, '\u{200B}'] + w) == without_zero_width(seq![a] + w),
{
    lemma_without_zero_width_add(seq![a, '\u{200B}'], w);
    lemma_without_zero_width_add(seq![a], w);
    assert(seq![a, '\u{200B}'].drop_last() =~= seq![a]);
}

/// Defusing mentions only inserts zero-width spaces: with those taken out, the reply reads
/// exactly as the generated text did.
pub proof fn law_sanitized_only_adds_zero_width(input: Seq<char>)
    ensures
        without_zero_width(sanitized_spec(input)) == without_zero_width(input),
{
    reveal_strlit("@everyone");
    reveal_strlit("@\u{200B}everyone");
    reveal_strlit("@here");
    reveal_strlit("@\u{200B}here");
    reveal_strlit("<@&");
    reveal_strlit("<@&\u{200B}");
    reveal_strlit("<@");
    reveal_strlit("<@\u{200B}");
    let z = '\u{200B}';
    let ev = seq!['e', 'v', 'e', 'r', 'y', 'o', 'n', 'e'];
    let he = seq!['h', 'e', 'r', 'e'];
    assert("@\u{200B}everyone"@ =~= seq!['@', z] + ev);
    assert("@everyone"@ =~= seq!['@'] + ev);
    lemma_zero_width_after_first('@', ev);
    assert("@\u{200B}here"@ =~= seq!['@', z] + he);
    assert("@here"@ =~= seq!['@'] + he);
    lemma_zero_width_after_first('@', he);
    assert("<@&\u{200B}"@ =~= "<@&"@ + seq![z]);
    lemma_without_zero_width_add("<@&"@, seq![z]);
    assert(without_zero_width(seq![z]) == without_zero_width(seq![z].drop_last()));
    assert(seq![z].drop_last() =~= Seq::<char>::empty());
    assert("<@&"@ + Seq::<char>::empty() =~= "<@&"@);
    assert("<@\u{200B}"@ =~= "<@"@ + seq![z]);
    lemma_without_zero_width_add("<@"@, seq![z]);
    assert("<@"@ + Seq::<char>::empty() =~= "<@"@);
    let a = replace_spec(input, "@everyone"@, "@\u{200B}everyone"@);
    let b = replace_spec(a, "@here"@, "@\u{200B}here"@);
    let c = replace_spec(b, "<@&"@, "<@&\u{200B}"@);
    lemma_replace_keeps_text(input, "@everyone"@, "@\u{200B}everyone"@);
    lemma_replace_keeps_text(a, "@here"@, "@\u{200B}here"@);
    lemma_replace_keeps_text(b, "<@&"@, "<@&\u{200B}"@);
    lemma_replace_keeps_text(c, "<@"@, "<@\u{200B}"@);
}

proof fn lemma_lookup_same_keys(
    t1: Seq<(&'static str, &'static str)>,
    t2: Seq<(&'static str, &'static str)>,
    key: Seq<char>,
)
    requires
        t1.len() == t2.len(),
        forall|i: int| 0 <= i < t1.len() ==> #[trigger] t1[i].0@ == t2[i].0@,
    ensures
        (lookup_spec(t1, key) is Some) == (lookup_spec(t2, key) is Some),
    decreases t1.len(),
{
    if t1.len() > 0 {
        assert(t1[0].0@ == t2[0].0@);
        assert forall|i: int| 0 <= i < t1.drop_first().len() implies #[trigger] t1.drop_first()[i].0@
            == t2.drop_first()[i].0@ by {
            assert(t1[i + 1].0@ == t2[i + 1].0@);
        }
        lemma_lookup_same_keys(t1.drop_first(), t2.drop_first(), key);
    }
}

proof fn lemma_lookup_nonempty(t: Seq<(&'static str, &'static str)>, key: Seq<char>)
    requires
        forall|i: int| 0 <= i < t.len() ==> (#[trigger] t[i]).1@.len() > 0,
    ensures
        lookup_spec(t, key) matches Some(v) ==> v.len() > 0,
    decreases t.len(),
{
    if t.len() > 0 {
        assert(t[0].1@.len() > 0);
        assert forall|i: int| 0 <= i < t.drop_first().len() implies (#[trigger] t.drop_first()[i]).1@.len() > 0 by {
            assert(t[i + 1].1@.len() > 0);
        }
        lemma_lookup_nonempty(t.drop_first(), key);
    }
}

proof fn lemma_terminal_en_nonempty()
    ensures
        forall|i: int| 0 <= i < TERMINAL_EN@.len() ==> (#[trigger] TERMINAL_EN@[i]).1@.len() > 0,
{
    reveal_strlit("[Terminal] Error: Unauthorized. Permission denied.");
    reveal_strlit("Empty");
    reveal_strlit("[Terminal] Whitelisted users:\n{list}");
    reveal_strlit("[Terminal] Error: User is already whitelisted.");
    reveal_strlit("[Terminal] User added.");
    reveal_strlit("[Terminal] Usage: wl add <id>");
    reveal_strlit("[Terminal] User removed.");
    reveal_strlit("[Terminal] Error: User is not whitelisted.");
    reveal_strlit("[Terminal] Usage: wl rm <id>");
    reveal_strlit("[Terminal] Usage: wl <add|rm|list>");
    reveal_strlit("[Terminal] Error: Invalid channel IDs.");
    reveal_strlit("[Terminal] Approval channel mapped.");
    reveal_strlit("[Terminal] Error: noorfetch.txt not found");
    reveal_strlit("[Terminal] Error formatting channel: {err}");
    reveal_strlit("[Terminal] Channel topic updated.");
    reveal_strlit("[Terminal] Channel created.");
    reveal_strlit("[Terminal] Category created.");
    reveal_strlit("[Terminal] Invalid ID");
    reveal_strlit("[Terminal] Error deleting message");
    reveal_strlit("[Terminal] Error deleting channel or category");
    reveal_strlit("[Terminal] Deleted.");
    reveal_strlit("[Terminal] Usage: rm <-c|-ch|-m> <id>");
    reveal_strlit("[Terminal] Error moving channel");
    reveal_strlit("[Terminal] Channel moved.");
    reveal_strlit("[Terminal] Error assigning role");
    reveal_strlit("[Terminal] Role assigned.");
    reveal_strlit("[Terminal] Error moving member");
    reveal_strlit("[Terminal] Member moved.");
    reveal_strlit("[Terminal] Error: Invalid channel ID.");
    reveal_strlit("[Terminal] Error: Flag name is empty.");
    reveal_strlit("[Terminal] Added flag '{flag}' to channel <#{channel}>");
    reveal_strlit("[Terminal] Removed flag '{flag}' from channel <#{channel}>");
    reveal_strlit("[Terminal] Invalid action.");
    reveal_strlit("[Terminal] Assigning the role to all members. This may take time.");
    reveal_strlit("[Terminal] Completed. Assigned: {ok}, Errors: {fail}.");
    reveal_strlit("[Terminal] Failed to add reaction: {err}");
    reveal_strlit("[Terminal] Reaction role created in <#{channel}> for role ID {role}");
    reveal_strlit("[Terminal] Role transfer may take some time.");
    reveal_strlit("[Terminal] Completed. Swapped {ok} members. Errors: {fail}.");
    reveal_strlit("Overview");
    reveal_strlit("Approval Mapping");
    reveal_strlit("Whitelist");
    reveal_strlit("Fetch");
    reveal_strlit("Touch");
    reveal_strlit("Mkdir");
    reveal_strlit("Remove");
    reveal_strlit("Move");
    reveal_strlit("Voice Move");
    reveal_strlit("Mass Role");
    reveal_strlit("Reaction Role");
    reveal_strlit("Role Transfer");
    reveal_strlit("Terminal Control Panel\n\nSelect a command from the list below to view its syntax. For `flag`, you can also open an interactive configuration panel.");
    reveal_strlit("Terminal Command: flag\n\nPurpose: configure a channel flag.\nSyntax: flag add <channel> <flag>\nSyntax: flag rm <channel> <flag>\nInteractive mode: run `flag` in the terminal channel and use the panel.");
    reveal_strlit("Terminal Command: ap\n\nPurpose: map a request channel to an approval channel.\nSyntax: ap <request_channel> <approval_channel>");
    reveal_strlit("Terminal Command: wl\n\nPurpose: manage the terminal whitelist.\nSyntax: wl list\nSyntax: wl add <user>\nSyntax: wl rm <user>");
    reveal_strlit("Terminal Command: fetch\n\nPurpose: show the system information banner.\nSyntax: fetch");
    reveal_strlit("Terminal Command: echo\n\nPurpose: update a channel topic.\nSyntax: echo <channel> <description>");
    reveal_strlit("Terminal Command: touch\n\nPurpose: create a text channel.\nSyntax: touch <name> [category]");
    reveal_strlit("Terminal Command: mkdir\n\nPurpose: create a category.\nSyntax: mkdir <name>");
    reveal_strlit("Terminal Command: rm\n\nPurpose: remove a message, channel, or category.\nSyntax: rm -m <message_id>\nSyntax: rm -ch <channel_id>\nSyntax: rm -c <category_id>");
    reveal_strlit("Terminal Command: mv\n\nPurpose: move a channel into a category.\nSyntax: mv <channel> <category>");
    reveal_strlit("Terminal Command: role\n\nPurpose: assign a role to a member.\nSyntax: role <role> <user>");
    reveal_strlit("Terminal Command: vm\n\nPurpose: move a member into a voice channel.\nSyntax: vm <user> <voice_channel>");
    reveal_strlit("Terminal Command: massrole\n\nPurpose: assign a role to every non-bot member.\nSyntax: massrole <role>");
    reveal_strlit("Terminal Command: rrole\n\nPurpose: create a reaction-role message.\nSyntax: rrole <role> <emoji> <channel> [message]");
    reveal_strlit("Terminal Command: rtr\n\nPurpose: replace one role with another across the guild.\nSyntax: rtr <old_role> <new_role>");
    reveal_strlit("Select a terminal command");
    reveal_strlit("Open Flag Panel");
    reveal_strlit("Close");
    reveal_strlit("Flag Configuration");
    reveal_strlit("Not selected");
    reveal_strlit("Channel");
    reveal_strlit("Action");
    reveal_strlit("Flag");
    reveal_strlit("Available flags in the interactive panel: request");
    reveal_strlit("Status: {status}");
    reveal_strlit("Select a target channel");
    reveal_strlit("Select an action");
    reveal_strlit("Add");
    reveal_strlit("Remove");
    reveal_strlit("Select a flag");
    reveal_strlit("Apply");
    reveal_strlit("This panel belongs to another operator.");
    reveal_strlit("Select a channel first.");
    reveal_strlit("Select an action first.");
    reveal_strlit("Select a flag first.");
    reveal_strlit("Flag '{flag}' was added to <#{channel}>.");
    reveal_strlit("Flag '{flag}' was removed from <#{channel}>.");
    reveal_strlit("[Terminal] Unknown command. Use: help");
    reveal_strlit("[Terminal] Usage: ap <request_channel_id> <approval_channel_id>");
    reveal_strlit("[Terminal] Usage: wl add <@user_or_id>");
    reveal_strlit("[Terminal] Usage: wl rm <@user_or_id>");
    reveal_strlit("[Terminal] Usage: wl <add|rm|list> [@user_or_id]");
    reveal_strlit("[Terminal] Usage: echo <channel_id_or_mention> <description>");
    reveal_strlit("[Terminal] Error: Channel not found.");
    reveal_strlit("[Terminal] Usage: touch <channel_name> [category_id]");
    reveal_strlit("[Terminal] Usage: mkdir <category_name>");
    reveal_strlit("[Terminal] Usage: mv <channel> <category>");
    reveal_strlit("[Terminal] Error: Invalid IDs");
    reveal_strlit("[Terminal] Usage: role <role_id_or_mention> <user_id_or_mention>");
    reveal_strlit("[Terminal] Usage: vm <user_id> <voice_channel_id>");
    reveal_strlit("[Terminal] Usage: flag add|rm <channel> <flag>");
    reveal_strlit("[Terminal] Usage: massrole <role_id_or_mention>");
    reveal_strlit("[Terminal] Error: Invalid role");
    reveal_strlit("[Terminal] Usage: rrole @role <emoji> #channel [message]");
    reveal_strlit("[Terminal] Error: Invalid arguments.");
    reveal_strlit("[Terminal] Usage: rtr <@old_role> <@new_role>");
    reveal_strlit("[Terminal] Error: Invalid role input.");
}

proof fn lemma_terminal_ru_nonempty()
    ensures
        forall|i: int| 0 <= i < TERMINAL_RU@.len() ==> (#[trigger] TERMINAL_RU@[i]).1@.len() > 0,
{
    reveal_strlit("[Terminal] Ошибка: недостаточно прав.");
    reveal_strlit("Пусто");
    reveal_strlit("[Terminal] Пользователи в whitelist:\n{list}");
    reveal_strlit("[Terminal] Ошибка: пользователь уже в whitelist.");
    reveal_strlit("[Terminal] Пользователь добавлен.");
    reveal_strlit("[Terminal] Использование: wl add <id>");
    reveal_strlit("[Terminal] Пользователь удален.");
    reveal_strlit("[Terminal] Ошибка: пользователя нет в whitelist.");
    reveal_strlit("[Terminal] Использование: wl rm <id>");
    reveal_strlit("[Terminal] Использование: wl <add|rm|list>");
    reveal_strlit("[Terminal] Ошибка: неверные ID каналов.");
    reveal_strlit("[Terminal] Канал подтверждения сохранен.");
    reveal_strlit("[Terminal] Ошибка: файл noorfetch.txt не найден");
    reveal_strlit("[Terminal] Ошибка изменения темы канала: {err}");
    reveal_strlit("[Terminal] Тема канала обновлена.");
    reveal_strlit("[Terminal] Канал создан.");
    reveal_strlit("[Terminal] Категория создана.");
    reveal_strlit("[Terminal] Неверный ID");
    reveal_strlit("[Terminal] Ошибка удаления сообщения");
    reveal_strlit("[Terminal] Ошибка удаления канала или категории");
    reveal_strlit("[Terminal] Удалено.");
    reveal_strlit("[Terminal] Использование: rm <-c|-ch|-m> <id>");
    reveal_strlit("[Terminal] Ошибка перемещения канала");
    reveal_strlit("[Terminal] Канал перемещен.");
    reveal_strlit("[Terminal] Ошибка выдачи роли");
    reveal_strlit("[Terminal] Роль выдана.");
    reveal_strlit("[Terminal] Ошибка перемещения участника");
    reveal_strlit("[Terminal] Участник перемещен.");
    reveal_strlit("[Terminal] Ошибка: неверный ID канала.");
    reveal_strlit("[Terminal] Ошибка: имя флага пустое.");
    reveal_strlit("[Terminal] Флаг '{flag}' добавлен каналу <#{channel}>");
    reveal_strlit("[Terminal] Флаг '{flag}' удален у канала <#{channel}>");
    reveal_strlit("[Terminal] Неверное действие.");
    reveal_strlit("[Terminal] Выдача роли всем участникам. Это может занять время.");
    reveal_strlit("[Terminal] Готово. Выдано: {ok}, Ошибок: {fail}.");
    reveal_strlit("[Terminal] Не удалось добавить реакцию: {err}");
    reveal_strlit("[Terminal] Сообщение reaction role создано в <#{channel}> для роли ID {role}");
    reveal_strlit("[Terminal] Перенос роли может занять некоторое время.");
    reveal_strlit("[Terminal] Готово. Роль заменена у {ok} участников. Ошибок: {fail}.");
    reveal_strlit("Обзор");
    reveal_strlit("Канал подтверждения");
    reveal_strlit("Whitelist");
    reveal_strlit("Fetch");
    reveal_strlit("Создать канал");
    reveal_strlit("Создать категорию");
    reveal_strlit("Удаление");
    reveal_strlit("Перемещение");
    reveal_strlit("Voice Move");
    reveal_strlit("Массовая роль");
    reveal_strlit("Reaction Role");
    reveal_strlit("Перенос роли");
    reveal_strlit("Панель терминала\n\nВыбери команду из списка ниже, чтобы посмотреть синтаксис. Для `flag` также доступна интерактивная панель настройки.");
    reveal_strlit("Команда терминала: flag\n\nНазначение: настраивает флаг канала.\nСинтаксис: flag add <channel> <flag>\nСинтаксис: flag rm <channel> <flag>\nИнтерактивный режим: напиши `flag` в канале терминала и используй панель.");
    reveal_strlit("Команда терминала: ap\n\nНазначение: связывает request-канал с каналом подтверждения.\nСинтаксис: ap <request_channel> <approval_channel>");
    reveal_strlit("Команда терминала: wl\n\nНазначение: управляет whitelist терминала.\nСинтаксис: wl list\nСинтаксис: wl add <user>\nСинтаксис: wl rm <user>");
    reveal_strlit("Команда терминала: fetch\n\nНазначение: показывает системный баннер.\nСинтаксис: fetch");
    reveal_strlit("Команда терминала: echo\n\nНазначение: меняет тему канала.\nСинтаксис: echo <channel> <description>");
    reveal_strlit("Команда терминала: touch\n\nНазначение: создает текстовый канал.\nСинтаксис: touch <name> [category]");
    reveal_strlit("Команда терминала: mkdir\n\nНазначение: создает категорию.\nСинтаксис: mkdir <name>");
    reveal_strlit("Команда терминала: rm\n\nНазначение: удаляет сообщение, канал или категорию.\nСинтаксис: rm -m <message_id>\nСинтаксис: rm -ch <channel_id>\nСинтаксис: rm -c <category_id>");
    reveal_strlit("Команда терминала: mv\n\nНазначение: перемещает канал в категорию.\nСинтаксис: mv <channel> <category>");
    reveal_strlit("Команда терминала: role\n\nНазначение: выдает роль участнику.\nСинтаксис: role <role> <user>");
    reveal_strlit("Команда терминала: vm\n\nНазначение: перемещает участника в голосовой канал.\nСинтаксис: vm <user> <voice_channel>");
    reveal_strlit("Команда терминала: massrole\n\nНазначение: выдает роль всем участникам без ботов.\nСинтаксис: massrole <role>");
    reveal_strlit("Команда терминала: rrole\n\nНазначение: создает сообщение reaction-role.\nСинтаксис: rrole <role> <emoji> <channel> [message]");
    reveal_strlit("Команда терминала: rtr\n\nНазначение: заменяет одну роль на другую по всему серверу.\nСинтаксис: rtr <old_role> <new_role>");
    reveal_strlit("Выбери команду терминала");
    reveal_strlit("Открыть панель flag");
    reveal_strlit("Закрыть");
    reveal_strlit("Настройка флага");
    reveal_strlit("Не выбрано");
    reveal_strlit("Канал");
    reveal_strlit("Действие");
    reveal_strlit("Флаг");
    reveal_strlit("Доступные флаги в интерактивной панели: request");
    reveal_strlit("Статус: {status}");
    reveal_strlit("Выбери целевой канал");
    reveal_strlit("Выбери действие");
    reveal_strlit("Добавить");
    reveal_strlit("Удалить");
    reveal_strlit("Выбери флаг");
    reveal_strlit("Применить");
    reveal_strlit("Эта панель принадлежит другому оператору.");
    reveal_strlit("Сначала выбери канал.");
    reveal_strlit("Сначала выбери действие.");
    reveal_strlit("Сначала выбери флаг.");
    reveal_strlit("Флаг '{flag}' добавлен каналу <#{channel}>.");
    reveal_strlit("Флаг '{flag}' удален у канала <#{channel}>.");
    reveal_strlit("[Terminal] Неизвестная команда. Используй: help");
    reveal_strlit("[Terminal] Использование: ap <request_channel_id> <approval_channel_id>");
    reveal_strlit("[Terminal] Использование: wl add <@user_or_id>");
    reveal_strlit("[Terminal] Использование: wl rm <@user_or_id>");
    reveal_strlit("[Terminal] Использование: wl <add|rm|list> [@user_or_id]");
    reveal_strlit("[Terminal] Использование: echo <channel_id_or_mention> <description>");
    reveal_strlit("[Terminal] Ошибка: канал не найден.");
    reveal_strlit("[Terminal] Использование: touch <channel_name> [category_id]");
    reveal_strlit("[Terminal] Использование: mkdir <category_name>");
    reveal_strlit("[Terminal] Использование: mv <channel> <category>");
    reveal_strlit("[Terminal] Ошибка: неверные ID");
    reveal_strlit("[Terminal] Использование: role <role_id_or_mention> <user_id_or_mention>");
    reveal_strlit("[Terminal] Использование: vm <user_id> <voice_channel_id>");
    reveal_strlit("[Terminal] Использование: flag add|rm <channel> <flag>");
    reveal_strlit("[Terminal] Использование: massrole <role_id_or_mention>");
    reveal_strlit("[Terminal] Ошибка: неверная роль");
    reveal_strlit("[Terminal] Использование: rrole @role <emoji> #channel [message]");
    reveal_strlit("[Terminal] Ошибка: неверные аргументы.");
    reveal_strlit("[Terminal] Использование: rtr <@old_role> <@new_role>");
    reveal_strlit("[Terminal] Ошибка: неверный ввод роли.");
}

/// The English and Russian terminal tables list the same keys in the same order, and no
/// text in them is empty; so a key has a terminal text in English exactly when it has one
/// in every other language code.
pub proof fn law_terminal_texts_agree(lang: Seq<char>, key: Seq<char>)
    ensures
        TERMINAL_EN@.len() == TERMINAL_RU@.len(),
        forall|i: int| 0 <= i < TERMINAL_EN@.len() ==> #[trigger] TERMINAL_EN@[i].0@ == TERMINAL_RU@[i].0@,
        (terminal_text_spec("en"@, key).len() == 0) == (terminal_text_spec(lang, key).len() == 0),
{
    lemma_terminal_en_nonempty();
    lemma_terminal_ru_nonempty();
    assert(TERMINAL_EN@.len() == 108 && TERMINAL_RU@.len() == 108);
    assert forall|i: int| 0 <= i < TERMINAL_EN@.len() implies #[trigger] TERMINAL_EN@[i].0@ == TERMINAL_RU@[i].0@ by {}
    lemma_lookup_same_keys(TERMINAL_EN@, TERMINAL_RU@, key);
    lemma_lookup_nonempty(TERMINAL_EN@, key);
    lemma_lookup_nonempty(TERMINAL_RU@, key);
}

/// The English and Russian message tables hold the same 57 keys in the same order; so a key
/// has a message in one language exactly when it has one in the other.
pub proof fn law_dictionaries_agree(key: Seq<char>)
    ensures
        DICT_EN@.len() == 57 && DICT_RU@.len() == 57,
        forall|i: int| 0 <= i < 57 ==> #[trigger] DICT_EN@[i].0@ == DICT_RU@[i].0@,
        (lookup_spec(DICT_EN@, key) is Some) == (lookup_spec(DICT_RU@, key) is Some),
{
    assert forall|i: int| 0 <= i < 57 implies #[trigger] DICT_EN@[i].0@ == DICT_RU@[i].0@ by {}
    lemma_lookup_same_keys(DICT_EN@, DICT_RU@, key);
}

/// Whether `p` is a placeholder: `{`, then a name without braces, then `}`.
pub open spec fn is_placeholder(p: Seq<char>) -> bool {
    p.len() >= 2 && p[0] == '{' && p.last() == '}' && forall|i: int|
        0 < i < p.len() - 1 ==> #[trigger] p[i] != '{' && p[i] != '}'
}

proof fn lemma_found_at(s: Seq<char>, p: Seq<char>, k: int, i: int)
    requires
        matches_at(s, p, k),
        0 <= i <= k,
    ensures
        find_from(s, p, i) is Some,
    decreases k - i,
{
    if !matches_at(s, p, i) {
        lemma_found_at(s, p, k, i + 1);
    }
}

proof fn lemma_placeholders_meet(s: Seq<char>, a: Seq<char>, b: Seq<char>, k: int)
    requires
        is_placeholder(a),
        is_placeholder(b),
        matches_at(s, a, k),
        matches_at(s, b, k),
    ensures
        a == b,
{
    assert(forall|i: int| 0 <= i < a.len() ==> s[k + i] == #[trigger] a[i]) by {
        assert forall|i: int| 0 <= i < a.len() implies s[k + i] == #[trigger] a[i] by {
            assert(s.subrange(k, k + a.len())[i] == a[i]);
        }
    }
    assert(forall|i: int| 0 <= i < b.len() ==> s[k + i] == #[trigger] b[i]) by {
        assert forall|i: int| 0 <= i < b.len() implies s[k + i] == #[trigger] b[i] by {
            assert(s.subrange(k, k + b.len())[i] == b[i]);
        }
    }
    if a.len() < b.len() {
        assert(a[a.len() - 1] == b[a.len() - 1]);
        assert(false);
    } else if b.len() < a.len() {
        assert(a[b.len() - 1] == b[b.len() - 1]);
        assert(false);
    } else {
        assert(a =~= b);
    }
}

/// In a text whose opening braces are exactly where the placeholders `ts` stand (at `ks`), a
/// placeholder occurs exactly when it is one of `ts`.
proof fn lemma_placeholders_of(s: Seq<char>, ks: Seq<int>, ts: Seq<Seq<char>>)
    requires
        ks.len() == ts.len(),
        forall|j: int| 0 <= j < ts.len() ==> is_placeholder(#[trigger] ts[j]) && matches_at(s, ts[j], ks[j]),
        forall|k: int| 0 <= k < s.len() && #[trigger] s[k] == '{' ==> ks.contains(k),
    ensures
        forall|p: Seq<char>| is_placeholder(p) ==> (#[trigger] contains_spec(s, p) <==> ts.contains(p)),
{
    assert forall|p: Seq<char>| is_placeholder(p) implies (#[trigger] contains_spec(s, p) <==> ts.contains(p)) by {
        if ts.contains(p) {
            let j = choose|j: int| 0 <= j < ts.len() && ts[j] == p;
            lemma_found_at(s, p, ks[j], 0);
        }
        if contains_spec(s, p) {
            lemma_find_from_matches(s, p, 0);
            let k = find_from(s, p, 0)->0;
            assert(s.subrange(k, k + p.len())[0] == p[0]);
            assert(s[k] == '{');
            let j = choose|j: int| 0 <= j < ks.len() && ks[j] == k;
            assert(matches_at(s, ts[j], ks[j]));
            lemma_placeholders_meet(s, p, ts[j], k);
            assert(ts[j] == p);
        }
    }
}

/// Whether two texts hold the same placeholders.
pub open spec fn placeholders_agree(a: Seq<char>, b: Seq<char>) -> bool {
    forall|p: Seq<char>| is_placeholder(p) ==> (contains_spec(a, p) == contains_spec(b, p))
}

proof fn lemma_terminal_placeholders_0()
    ensures
        forall|i: int| 0 <= i < 12 ==> #[trigger] placeholders_agree(TERMINAL_EN@[i].1@, TERMINAL_RU@[i].1@),
{
    reveal_strlit("Empty");
    reveal_strlit("[Terminal] Approval channel mapped.");
    reveal_strlit("[Terminal] Error: Invalid channel IDs.");
    reveal_strlit("[Terminal] Error: Unauthorized. Permission denied.");
    reveal_strlit("[Terminal] Error: User is already whitelisted.");
    reveal_strlit("[Terminal] Error: User is not whitelisted.");
    reveal_strlit("[Terminal] Usage: wl <add|rm|list>");
    reveal_strlit("[Terminal] Usage: wl add <id>");
    reveal_strlit("[Terminal] Usage: wl rm <id>");
    reveal_strlit("[Terminal] User added.");
    reveal_strlit("[Terminal] User removed.");
    reveal_strlit("[Terminal] Whitelisted users:\n{list}");
    reveal_strlit("[Terminal] Использование: wl <add|rm|list>");
    reveal_strlit("[Terminal] Использование: wl add <id>");
    reveal_strlit("[Terminal] Использование: wl rm <id>");
    reveal_strlit("[Terminal] Канал подтверждения сохранен.");
    reveal_strlit("[Terminal] Ошибка: неверные ID каналов.");
    reveal_strlit("[Terminal] Ошибка: недостаточно прав.");
    reveal_strlit("[Terminal] Ошибка: пользователь уже в whitelist.");
    reveal_strlit("[Terminal] Ошибка: пользователя нет в whitelist.");
    reveal_strlit("[Terminal] Пользователи в whitelist:\n{list}");
    reveal_strlit("[Terminal] Пользователь добавлен.");
    reveal_strlit("[Terminal] Пользователь удален.");
    reveal_strlit("{list}");
    reveal_strlit("Пусто");
    assert forall|i: int| 0 <= i < 12 implies #[trigger] placeholders_agree(TERMINAL_EN@[i].1@, TERMINAL_RU@[i].1@) by {
        if i == 0 {
            lemma_placeholders_of(TERMINAL_EN@[0].1@, Seq::<int>::empty(), Seq::<Seq<char>>::empty());
            lemma_placeholders_of(TERMINAL_RU@[0].1@, Seq::<int>::empty(), Seq::<Seq<char>>::empty());
        } else if i == 1 {
            lemma_placeholders_of(TERMINAL_EN@[1].1@, Seq::<int>::empty(), Seq::<Seq<char>>::empty());
            lemma_placeholders_of(TERMINAL_RU@[1].1@, Seq::<int>::empty(), Seq::<Seq<char>>::empty());
        } else if i == 2 {
            assert(TERMINAL_EN@[2].1@.subrange(30, 36) =~= "{list}"@);
            assert(is_placeholder("{list}"@));
            assert(forall|k: int| 0 <= k < TERMINAL_EN@[2].1@.len() && #[trigger] TERMINAL_EN@[2].1@[k] == '{' ==> k == 30);
            assert(seq![30int][0] == 30);
            lemma_placeholders_of(TERMINAL_EN@[2].1@, seq![30int], seq!["{list}"@]);
            assert(TERMINAL_RU@[2].1@.subrange(37, 43) =~= "{list}"@);
            assert(is_placeholder("{list}"@));
            assert(forall|k: int| 0 <= k < TERMINAL_RU@[2].1@.len() && #[trigger] TERMINAL_RU@[2].1@[k] == '{' ==> k == 37);
            assert(seq![37int][0] == 37);
            lemma_placeholders_of(TERMINAL_RU@[2].1@, seq![37int], seq!["{list}"@]);
        } else if i == 3 {
            lemma_placeholders_of(TERMINAL_EN@[3].1@, Seq::<int>::empty(), Seq::<Seq<char>>::empty());
            lemma_placeholders_of(TERMINAL_RU@[3].1@, Seq::<int>::empty(), Seq::<Seq<char>>::empty());
        } else if i == 4 {
            lemma_placeholders_of(TERMINAL_EN@[4].1@, Seq::<int>::empty(), Seq::<Seq<char>>::empty());
            lemma_placeholders_of(TERMINAL_RU@[4].1@, Seq::<int>::empty(), Seq::<Seq<char>>::empty());
        } else if i == 5 {
            lemma_placeholders_of(TERMINAL_EN@[5].1@, Seq::<int>::empty(), Seq::<Seq<char>>::empty());
            lemma_placeholders_of(TERMINAL_RU@[5].1@, Seq::<int>::empty(), Seq::<Seq<char>>::empty());
        } else if i == 6 {
            lemma_placeholders_of(TERMINAL_EN@[6].1@, Seq::<int>::empty(), Seq::<Seq<char>>::empty());
            lemma_placeholders_of(TERMINAL_RU@[6].1@, Seq::<int>::empty(), Seq::<Seq<char>>::empty());
        } else if i == 7 {
            lemma_placeholders_of(TERMINAL_EN@[7].1@, Seq::<int>::empty(), Seq::<Seq<char>>::empty());
            lemma_placeholders_of(TERMINAL_RU@[7].1@, Seq::<int>::empty(), Seq::<Seq<char>>::empty());
        } else if i == 8 {
            lemma_placeholders_of(TERMINAL_EN@[8].1@, Seq::<int>::empty(), Seq::<Seq<char>>::empty());
            lemma_placeholders_of(TERMINAL_RU@[8].1@, Seq::<int>::empty(), Seq::<Seq<char>>::empty());
        } else if i == 9 {
            lemma_placeholders_of(TERMINAL_EN@[9].1@, Seq::<int>::empty(), Seq::<Seq<char>>::empty());
            lemma_placeholders_of(TERMINAL_RU@[9].1@, Seq::<int>::empty(), Seq::<Seq<char>>::empty());
        } else if i == 10 {
            lemma_placeholders_of(TERMINAL_EN@[10].1@, Seq::<int>::empty(), Seq::<Seq<char>>::empty());
            lemma_placeholders_of(TERMINAL_RU@[10].1@, Seq::<int>::empty(), Seq::<Seq<char>>::empty());
        } else {
            lemma_placeholders_of(TERMINAL_EN@[11].1@, Seq::<int>::empty(), Seq::<Seq<char>>::empty());
            lemma_placeholders_of(TERMINAL_RU@[11].1@, Seq::<int>::empty(), Seq::<Seq<char>>::empty());
        }
    }
}

proof fn lemma_terminal_placeholders_1()
    ensures
        forall|i: int| 12 <= i < 24 ==> #[trigger] placeholders_agree(TERMINAL_EN@[i].1@, TERMINAL_RU@[i].1@),
{
    reveal_strlit("[Terminal] Category created.");
    reveal_strlit("[Terminal] Channel created.");
    reveal_strlit("[Terminal] Channel moved.");
    reveal_strlit("[Terminal] Channel topic updated.");
    reveal_strlit("[Terminal] Deleted.");
    reveal_strlit("[Terminal] Error deleting channel or category");
    reveal_strlit("[Terminal] Error deleting message");
    reveal_strlit("[Terminal] Error formatting channel: {err}");
    reveal_strlit("[Terminal] Error moving channel");
    reveal_strlit("[Terminal] Error: noorfetch.txt not found");
    reveal_strlit("[Terminal] Invalid ID");
    reveal_strlit("[Terminal] Usage: rm <-c|-ch|-m> <id>");
    reveal_strlit("[Terminal] Использование: rm <-c|-ch|-m> <id>");
    reveal_strlit("[Terminal] Канал перемещен.");
    reveal_strlit("[Terminal] Канал создан.");
    reveal_strlit("[Terminal] Категория создана.");
    reveal_strlit("[Terminal] Неверный ID");
    reveal_strlit("[Terminal] Ошибка изменения темы канала: {err}");
    reveal_strlit("[Terminal] Ошибка перемещения канала");
    reveal_strlit("[Terminal] Ошибка удаления канала или категории");
    reveal_strlit("[Terminal] Ошибка удаления сообщения");
    reveal_strlit("[Terminal] Ошибка: файл noorfetch.txt не найден");
    reveal_strlit("[Terminal] Тема канала обновлена.");
    reveal_strlit("[Terminal] Удалено.");
    reveal_strlit("{err}");
    assert forall|i: int| 12 <= i < 24 implies #[trigger] placeholders_agree(TERMINAL_EN@[i].1@, TERMINAL_RU@[i].1@) by {
        if i == 12 {
            lemma_placeholders_of(TERMINAL_EN@[12].1@, Seq::<int>::empty(), Seq::<Seq<char>>::empty());
            lemma_placeholders_of(TERMINAL_RU@[12].1@, Seq::<int>::empty(), Seq::<Seq<char>>::empty());
        } else if i == 13 {
            assert(TERMINAL_EN@[13].1@.subrange(37, 42) =~= "{err}"@);
            assert(is_placeholder("{err}"@));
            assert(forall|k: int| 0 <= k < TERMINAL_EN@[13].1@.len() && #[trigger] TERMINAL_EN@[13].1@[k] == '{' ==> k == 37);
            assert(seq![37int][0] == 37);
            lemma_placeholders_of(TERMINAL_EN@[13].1@, seq![37int], seq!["{err}"@]);
            assert(TERMINAL_RU@[13].1@.subrange(41, 46) =~= "{err}"@);
            assert(is_placeholder("{err}"@));
            assert(forall|k: int| 0 <= k < TERMINAL_RU@[13].1@.len() && #[trigger] TERMINAL_RU@[13].1@[k] == '{' ==> k == 41);
            assert(seq![41int][0] == 41);
            lemma_placeholders_of(TERMINAL_RU@[13].1@, seq![41int], seq!["{err}"@]);
        } else if i == 14 {
            lemma_placeholders_of(TERMINAL_EN@[14].1@, Seq::<int>::empty(), Seq::<Seq<char>>::empty());
            lemma_placeholders_of(TERMINAL_RU@[14].1@, Seq::<int>::empty(), Seq::<Seq<char>>::empty());
        } else if i == 15 {
            lemma_placeholders_of(TERMINAL_EN@[15].1@, Seq::<int>::empty(), Seq::<Seq<char>>::empty());
            lemma_placeholders_of(TERMINAL_RU@[15].1@, Seq::<int>::empty(), Seq::<Seq<char>>::empty());
        } else if i == 16 {
            lemma_placeholders_of(TERMINAL_EN@[16].1@, Seq::<int>::empty(), Seq::<Seq<char>>::empty());
            lemma_placeholders_of(TERMINAL_RU@[16].1@, Seq::<int>::empty(), Seq::<Seq<char>>::empty());
        } else if i == 17 {
            lemma_placeholders_of(TERMINAL_EN@[17].1@, Seq::<int>::empty(), Seq::<Seq<char>>::empty());
            lemma_placeholders_of(TERMINAL_RU@[17].1@, Seq::<int>::empty(), Seq::<Seq<char>>::empty());
        } else if i == 18 {
            lemma_placeholders_of(TERMINAL_EN@[18].1@, Seq::<int>::empty(), Seq::<Seq<char>>::empty());
            lemma_placeholders_of(TERMINAL_RU@[18].1@, Seq::<int>::empty(), Seq::<Seq<char>>::empty());
        } else if i == 19 {
            lemma_placeholders_of(TERMINAL_EN@[19].1@, Seq::<int>::empty(), Seq::<Seq<char>>::empty());
            lemma_placeholders_of(TERMINAL_RU@[19].1@, Seq::<int>::empty(), Seq::<Seq<char>>::empty());
        } else if i == 20 {
            lemma_placeholders_of(TERMINAL_EN@[20].1@, Seq::<int>::empty(), Seq::<Seq<char>>::empty());
            lemma_placeholders_of(TERMINAL_RU@[20].1@, Seq::<int>::empty(), Seq::<Seq<char>>::empty());
        } else if i == 21 {
            lemma_placeholders_of(TERMINAL_EN@[21].1@, Seq::<int>::empty(), Seq::<Seq<char>>::empty());
            lemma_placeholders_of(TERMINAL_RU@[21].1@, Seq::<int>::empty(), Seq::<Seq<char>>::empty());
        } else if i == 22 {
            lemma_placeholders_of(TERMINAL_EN@[22].1@, Seq::<int>::empty(), Seq::<Seq<char>>::empty());
            lemma_placeholders_of(TERMINAL_RU@[22].1@, Seq::<int>::empty(), Seq::<Seq<char>>::empty());
        } else {
            lemma_placeholders_of(TERMINAL_EN@[23].1@, Seq::<int>::empty(), Seq::<Seq<char>>::empty());
            lemma_placeholders_of(TERMINAL_RU@[23].1@, Seq::<int>::empty(), Seq::<Seq<char>>::empty());
        }
    }
}

proof fn lemma_terminal_placeholders_2()
    ensures
        forall|i: int| 24 <= i < 36 ==> #[trigger] placeholders_agree(TERMINAL_EN@[i].1@, TERMINAL_RU@[i].1@),
{
    reveal_strlit("[Terminal] Added flag '{flag}' to channel <#{channel}>");
    reveal_strlit("[Terminal] Assigning the role to all members. This may take time.");
    reveal_strlit("[Terminal] Completed. Assigned: {ok}, Errors: {fail}.");
    reveal_strlit("[Terminal] Error assigning role");
    reveal_strlit("[Terminal] Error moving member");
    reveal_strlit("[Terminal] Error: Flag name is empty.");
    reveal_strlit("[Terminal] Error: Invalid channel ID.");
    reveal_strlit("[Terminal] Failed to add reaction: {err}");
    reveal_strlit("[Terminal] Invalid action.");
    reveal_strlit("[Terminal] Member moved.");
    reveal_strlit("[Terminal] Removed flag '{flag}' from channel <#{channel}>");
    reveal_strlit("[Terminal] Role assigned.");
    reveal_strlit("[Terminal] Выдача роли всем участникам. Это может занять время.");
    reveal_strlit("[Terminal] Готово. Выдано: {ok}, Ошибок: {fail}.");
    reveal_strlit("[Terminal] Не удалось добавить реакцию: {err}");
    reveal_strlit("[Terminal] Неверное действие.");
    reveal_strlit("[Terminal] Ошибка выдачи роли");
    reveal_strlit("[Terminal] Ошибка перемещения участника");
    reveal_strlit("[Terminal] Ошибка: имя флага пустое.");
    reveal_strlit("[Terminal] Ошибка: неверный ID канала.");
    reveal_strlit("[Terminal] Роль выдана.");
    reveal_strlit("[Terminal] Участник перемещен.");
    reveal_strlit("[Terminal] Флаг '{flag}' добавлен каналу <#{channel}>");
    reveal_strlit("[Terminal] Флаг '{flag}' удален у канала <#{channel}>");
    reveal_strlit("{channel}");
    reveal_strlit("{err}");
    reveal_strlit("{fail}");
    reveal_strlit("{flag}");
    reveal_strlit("{ok}");
    assert forall|i: int| 24 <= i < 36 implies #[trigger] placeholders_agree(TERMINAL_EN@[i].1@, TERMINAL_RU@[i].1@) by {
        if i == 24 {
            lemma_placeholders_of(TERMINAL_EN@[24].1@, Seq::<int>::empty(), Seq::<Seq<char>>::empty());
            lemma_placeholders_of(TERMINAL_RU@[24].1@, Seq::<int>::empty(), Seq::<Seq<char>>::empty());
        } else if i == 25 {
            lemma_placeholders_of(TERMINAL_EN@[25].1@, Seq::<int>::empty(), Seq::<Seq<char>>::empty());
            lemma_placeholders_of(TERMINAL_RU@[25].1@, Seq::<int>::empty(), Seq::<Seq<char>>::empty());
        } else if i == 26 {
            lemma_placeholders_of(TERMINAL_EN@[26].1@, Seq::<int>::empty(), Seq::<Seq<char>>::empty());
            lemma_placeholders_of(TERMINAL_RU@[26].1@, Seq::<int>::empty(), Seq::<Seq<char>>::empty());
        } else if i == 27 {
            lemma_placeholders_of(TERMINAL_EN@[27].1@, Seq::<int>::empty(), Seq::<Seq<char>>::empty());
            lemma_placeholders_of(TERMINAL_RU@[27].1@, Seq::<int>::empty(), Seq::<Seq<char>>::empty());
        } else if i == 28 {
            lemma_placeholders_of(TERMINAL_EN@[28].1@, Seq::<int>::empty(), Seq::<Seq<char>>::empty());
            lemma_placeholders_of(TERMINAL_RU@[28].1@, Seq::<int>::empty(), Seq::<Seq<char>>::empty());
        } else if i == 29 {
            lemma_placeholders_of(TERMINAL_EN@[29].1@, Seq::<int>::empty(), Seq::<Seq<char>>::empty());
            lemma_placeholders_of(TERMINAL_RU@[29].1@, Seq::<int>::empty(), Seq::<Seq<char>>::empty());
        } else if i == 30 {
            assert(TERMINAL_EN@[30].1@.subrange(23, 29) =~= "{flag}"@);
            assert(is_placeholder("{flag}"@));
            assert(TERMINAL_EN@[30].1@.subrange(44, 53) =~= "{channel}"@);
            assert(is_placeholder("{channel}"@));
            assert(forall|k: int| 0 <= k < TERMINAL_EN@[30].1@.len() && #[trigger] TERMINAL_EN@[30].1@[k] == '{' ==> k == 23 || k == 44);
            assert(seq![23int, 44int][0] == 23 && seq![23int, 44int][1] == 44);
            lemma_placeholders_of(TERMINAL_EN@[30].1@, seq![23int, 44int], seq!["{flag}"@, "{channel}"@]);
            assert(TERMINAL_RU@[30].1@.subrange(17, 23) =~= "{flag}"@);
            assert(is_placeholder("{flag}"@));
            assert(TERMINAL_RU@[30].1@.subrange(43, 52) =~= "{channel}"@);
            assert(is_placeholder("{channel}"@));
            assert(forall|k: int| 0 <= k < TERMINAL_RU@[30].1@.len() && #[trigger] TERMINAL_RU@[30].1@[k] == '{' ==> k == 17 || k == 43);
            assert(seq![17int, 43int][0] == 17 && seq![17int, 43int][1] == 43);
            lemma_placeholders_of(TERMINAL_RU@[30].1@, seq![17int, 43int], seq!["{flag}"@, "{channel}"@]);
        } else if i == 31 {
            assert(TERMINAL_EN@[31].1@.subrange(25, 31) =~= "{flag}"@);
            assert(is_placeholder("{flag}"@));
            assert(TERMINAL_EN@[31].1@.subrange(48, 57) =~= "{channel}"@);
            assert(is_placeholder("{channel}"@));
            assert(forall|k: int| 0 <= k < TERMINAL_EN@[31].1@.len() && #[trigger] TERMINAL_EN@[31].1@[k] == '{' ==> k == 25 || k == 48);
            assert(seq![25int, 48int][0] == 25 && seq![25int, 48int][1] == 48);
            lemma_placeholders_of(TERMINAL_EN@[31].1@, seq![25int, 48int], seq!["{flag}"@, "{channel}"@]);
            assert(TERMINAL_RU@[31].1@.subrange(17, 23) =~= "{flag}"@);
            assert(is_placeholder("{flag}"@));
            assert(TERMINAL_RU@[31].1@.subrange(43, 52) =~= "{channel}"@);
            assert(is_placeholder("{channel}"@));
            assert(forall|k: int| 0 <= k < TERMINAL_RU@[31].1@.len() && #[trigger] TERMINAL_RU@[31].1@[k] == '{' ==> k == 17 || k == 43);
            assert(seq![17int, 43int][0] == 17 && seq![17int, 43int][1] == 43);
            lemma_placeholders_of(TERMINAL_RU@[31].1@, seq![17int, 43int], seq!["{flag}"@, "{channel}"@]);
        } else if i == 32 {
            lemma_placeholders_of(TERMINAL_EN@[32].1@, Seq::<int>::empty(), Seq::<Seq<char>>::empty());
            lemma_placeholders_of(TERMINAL_RU@[32].1@, Seq::<int>::empty(), Seq::<Seq<char>>::empty());
        } else if i == 33 {
            lemma_placeholders_of(TERMINAL_EN@[33].1@, Seq::<int>::empty(), Seq::<Seq<char>>::empty());
            lemma_placeholders_of(TERMINAL_RU@[33].1@, Seq::<int>::empty(), Seq::<Seq<char>>::empty());
        } else if i == 34 {
            assert(TERMINAL_EN@[34].1@.subrange(32, 36) =~= "{ok}"@);
            assert(is_placeholder("{ok}"@));
            assert(TERMINAL_EN@[34].1@.subrange(46, 52) =~= "{fail}"@);
            assert(is_placeholder("{fail}"@));
            assert(forall|k: int| 0 <= k < TERMINAL_EN@[34].1@.len() && #[trigger] TERMINAL_EN@[34].1@[k] == '{' ==> k == 32 || k == 46);
            assert(seq![32int, 46int][0] == 32 && seq![32int, 46int][1] == 46);
            lemma_placeholders_of(TERMINAL_EN@[34].1@, seq![32int, 46int], seq!["{ok}"@, "{fail}"@]);
            assert(TERMINAL_RU@[34].1@.subrange(27, 31) =~= "{ok}"@);
            assert(is_placeholder("{ok}"@));
            assert(TERMINAL_RU@[34].1@.subrange(41, 47) =~= "{fail}"@);
            assert(is_placeholder("{fail}"@));
            assert(forall|k: int| 0 <= k < TERMINAL_RU@[34].1@.len() && #[trigger] TERMINAL_RU@[34].1@[k] == '{' ==> k == 27 || k == 41);
            assert(seq![27int, 41int][0] == 27 && seq![27int, 41int][1] == 41);
            lemma_placeholders_of(TERMINAL_RU@[34].1@, seq![27int, 41int], seq!["{ok}"@, "{fail}"@]);
        } else {
            assert(TERMINAL_EN@[35].1@.subrange(35, 40) =~= "{err}"@);
            assert(is_placeholder("{err}"@));
            assert(forall|k: int| 0 <= k < TERMINAL_EN@[35].1@.len() && #[trigger] TERMINAL_EN@[35].1@[k] == '{' ==> k == 35);
            assert(seq![35int][0] == 35);
            lemma_placeholders_of(TERMINAL_EN@[35].1@, seq![35int], seq!["{err}"@]);
            assert(TERMINAL_RU@[35].1@.subrange(40, 45) =~= "{err}"@);
            assert(is_placeholder("{err}"@));
            assert(forall|k: int| 0 <= k < TERMINAL_RU@[35].1@.len() && #[trigger] TERMINAL_RU@[35].1@[k] == '{' ==> k == 40);
            assert(seq![40int][0] == 40);
            lemma_placeholders_of(TERMINAL_RU@[35].1@, seq![40int], seq!["{err}"@]);
        }
    }
}

proof fn lemma_terminal_placeholders_3()
    ensures
        forall|i: int| 36 <= i < 48 ==> #[trigger] placeholders_agree(TERMINAL_EN@[i].1@, TERMINAL_RU@[i].1@),
{
    reveal_strlit("Approval Mapping");
    reveal_strlit("Fetch");
    reveal_strlit("Mkdir");
    reveal_strlit("Move");
    reveal_strlit("Overview");
    reveal_strlit("Remove");
    reveal_strlit("Touch");
    reveal_strlit("Voice Move");
    reveal_strlit("Whitelist");
    reveal_strlit("[Terminal] Completed. Swapped {ok} members. Errors: {fail}.");
    reveal_strlit("[Terminal] Reaction role created in <#{channel}> for role ID {role}");
    reveal_strlit("[Terminal] Role transfer may take some time.");
    reveal_strlit("[Terminal] Готово. Роль заменена у {ok} участников. Ошибок: {fail}.");
    reveal_strlit("[Terminal] Перенос роли может занять некоторое время.");
    reveal_strlit("[Terminal] Сообщение reaction role создано в <#{channel}> для роли ID {role}");
    reveal_strlit("{channel}");
    reveal_strlit("{fail}");
    reveal_strlit("{ok}");
    reveal_strlit("{role}");
    reveal_strlit("Канал подтверждения");
    reveal_strlit("Обзор");
    reveal_strlit("Перемещение");
    reveal_strlit("Создать канал");
    reveal_strlit("Создать категорию");
    reveal_strlit("Удаление");
    assert forall|i: int| 36 <= i < 48 implies #[trigger] placeholders_agree(TERMINAL_EN@[i].1@, TERMINAL_RU@[i].1@) by {
        if i == 36 {
            assert(TERMINAL_EN@[36].1@.subrange(38, 47) =~= "{channel}"@);
            assert(is_placeholder("{channel}"@));
            assert(TERMINAL_EN@[36].1@.subrange(61, 67) =~= "{role}"@);
            assert(is_placeholder("{role}"@));
            assert(forall|k: int| 0 <= k < TERMINAL_EN@[36].1@.len() && #[trigger] TERMINAL_EN@[36].1@[k] == '{' ==> k == 38 || k == 61);
            assert(seq![38int, 61int][0] == 38 && seq![38int, 61int][1] == 61);
            lemma_placeholders_of(TERMINAL_EN@[36].1@, seq![38int, 61int], seq!["{channel}"@, "{role}"@]);
            assert(TERMINAL_RU@[36].1@.subrange(47, 56) =~= "{channel}"@);
            assert(is_placeholder("{channel}"@));
            assert(TERMINAL_RU@[36].1@.subrange(70, 76) =~= "{role}"@);
            assert(is_placeholder("{role}"@));
            assert(forall|k: int| 0 <= k < TERMINAL_RU@[36].1@.len() && #[trigger] TERMINAL_RU@[36].1@[k] == '{' ==> k == 47 || k == 70);
            assert(seq![47int, 70int][0] == 47 && seq![47int, 70int][1] == 70);
            lemma_placeholders_of(TERMINAL_RU@[36].1@, seq![47int, 70int], seq!["{channel}"@, "{role}"@]);
        } else if i == 37 {
            lemma_placeholders_of(TERMINAL_EN@[37].1@, Seq::<int>::empty(), Seq::<Seq<char>>::empty());
            lemma_placeholders_of(TERMINAL_RU@[37].1@, Seq::<int>::empty(), Seq::<Seq<char>>::empty());
        } else if i == 38 {
            assert(TERMINAL_EN@[38].1@.subrange(30, 34) =~= "{ok}"@);
            assert(is_placeholder("{ok}"@));
            assert(TERMINAL_EN@[38].1@.subrange(52, 58) =~= "{fail}"@);
            assert(is_placeholder("{fail}"@));
            assert(forall|k: int| 0 <= k < TERMINAL_EN@[38].1@.len() && #[trigger] TERMINAL_EN@[38].1@[k] == '{' ==> k == 30 || k == 52);
            assert(seq![30int, 52int][0] == 30 && seq![30int, 52int][1] == 52);
            lemma_placeholders_of(TERMINAL_EN@[38].1@, seq![30int, 52int], seq!["{ok}"@, "{fail}"@]);
            assert(TERMINAL_RU@[38].1@.subrange(35, 39) =~= "{ok}"@);
            assert(is_placeholder("{ok}"@));
            assert(TERMINAL_RU@[38].1@.subrange(60, 66) =~= "{fail}"@);
            assert(is_placeholder("{fail}"@));
            assert(forall|k: int| 0 <= k < TERMINAL_RU@[38].1@.len() && #[trigger] TERMINAL_RU@[38].1@[k] == '{' ==> k == 35 || k == 60);
            assert(seq![35int, 60int][0] == 35 && seq![35int, 60int][1] == 60);
            lemma_placeholders_of(TERMINAL_RU@[38].1@, seq![35int, 60int], seq!["{ok}"@, "{fail}"@]);
        } else if i == 39 {
            lemma_placeholders_of(TERMINAL_EN@[39].1@, Seq::<int>::empty(), Seq::<Seq<char>>::empty());
            lemma_placeholders_of(TERMINAL_RU@[39].1@, Seq::<int>::empty(), Seq::<Seq<char>>::empty());
        } else if i == 40 {
            lemma_placeholders_of(TERMINAL_EN@[40].1@, Seq::<int>::empty(), Seq::<Seq<char>>::empty());
            lemma_placeholders_of(TERMINAL_RU@[40].1@, Seq::<int>::empty(), Seq::<Seq<char>>::empty());
        } else if i == 41 {
            lemma_placeholders_of(TERMINAL_EN@[41].1@, Seq::<int>::empty(), Seq::<Seq<char>>::empty());
            lemma_placeholders_of(TERMINAL_RU@[41].1@, Seq::<int>::empty(), Seq::<Seq<char>>::empty());
        } else if i == 42 {
            lemma_placeholders_of(TERMINAL_EN@[42].1@, Seq::<int>::empty(), Seq::<Seq<char>>::empty());
            lemma_placeholders_of(TERMINAL_RU@[42].1@, Seq::<int>::empty(), Seq::<Seq<char>>::empty());
        } else if i == 43 {
            lemma_placeholders_of(TERMINAL_EN@[43].1@, Seq::<int>::empty(), Seq::<Seq<char>>::empty());
            lemma_placeholders_of(TERMINAL_RU@[43].1@, Seq::<int>::empty(), Seq::<Seq<char>>::empty());
        } else if i == 44 {
            lemma_placeholders_of(TERMINAL_EN@[44].1@, Seq::<int>::empty(), Seq::<Seq<char>>::empty());
            lemma_placeholders_of(TERMINAL_RU@[44].1@, Seq::<int>::empty(), Seq::<Seq<char>>::empty());
        } else if i == 45 {
            lemma_placeholders_of(TERMINAL_EN@[45].1@, Seq::<int>::empty(), Seq::<Seq<char>>::empty());
            lemma_placeholders_of(TERMINAL_RU@[45].1@, Seq::<int>::empty(), Seq::<Seq<char>>::empty());
        } else if i == 46 {
            lemma_placeholders_of(TERMINAL_EN@[46].1@, Seq::<int>::empty(), Seq::<Seq<char>>::empty());
            lemma_placeholders_of(TERMINAL_RU@[46].1@, Seq::<int>::empty(), Seq::<Seq<char>>::empty());
        } else {
            lemma_placeholders_of(TERMINAL_EN@[47].1@, Seq::<int>::empty(), Seq::<Seq<char>>::empty());
            lemma_placeholders_of(TERMINAL_RU@[47].1@, Seq::<int>::empty(), Seq::<Seq<char>>::empty());
        }
    }
}

proof fn lemma_terminal_placeholders_4()
    ensures
        forall|i: int| 48 <= i < 60 ==> #[trigger] placeholders_agree(TERMINAL_EN@[i].1@, TERMINAL_RU@[i].1@),
{
    reveal_strlit("Mass Role");
    reveal_strlit("Reaction Role");
    reveal_strlit("Role Transfer");
    reveal_strlit("Terminal Command: ap\n\nPurpose: map a request channel to an approval channel.\nSyntax: ap <request_channel> <approval_channel>");
    reveal_strlit("Terminal Command: echo\n\nPurpose: update a channel topic.\nSyntax: echo <channel> <description>");
    reveal_strlit("Terminal Command: fetch\n\nPurpose: show the system information banner.\nSyntax: fetch");
    reveal_strlit("Terminal Command: flag\n\nPurpose: configure a channel flag.\nSyntax: flag add <channel> <flag>\nSyntax: flag rm <channel> <flag>\nInteractive mode: run `flag` in the terminal channel and use the panel.");
    reveal_strlit("Terminal Command: mkdir\n\nPurpose: create a category.\nSyntax: mkdir <name>");
    reveal_strlit("Terminal Command: rm\n\nPurpose: remove a message, channel, or category.\nSyntax: rm -m <message_id>\nSyntax: rm -ch <channel_id>\nSyntax: rm -c <category_id>");
    reveal_strlit("Terminal Command: touch\n\nPurpose: create a text channel.\nSyntax: touch <name> [category]");
    reveal_strlit("Terminal Command: wl\n\nPurpose: manage the terminal whitelist.\nSyntax: wl list\nSyntax: wl add <user>\nSyntax: wl rm <user>");
    reveal_strlit("Terminal Control Panel\n\nSelect a command from the list below to view its syntax. For `flag`, you can also open an interactive configuration panel.");
    reveal_strlit("Команда терминала: ap\n\nНазначение: связывает request-канал с каналом подтверждения.\nСинтаксис: ap <request_channel> <approval_channel>");
    reveal_strlit("Команда терминала: echo\n\nНазначение: меняет тему канала.\nСинтаксис: echo <channel> <description>");
    reveal_strlit("Команда терминала: fetch\n\nНазначение: показывает системный баннер.\nСинтаксис: fetch");
    reveal_strlit("Команда терминала: flag\n\nНазначение: настраивает флаг канала.\nСинтаксис: flag add <channel> <flag>\nСинтаксис: flag rm <channel> <flag>\nИнтерактивный режим: напиши `flag` в канале терминала и используй панель.");
    reveal_strlit("Команда терминала: mkdir\n\nНазначение: создает категорию.\nСинтаксис: mkdir <name>");
    reveal_strlit("Команда терминала: rm\n\nНазначение: удаляет сообщение, канал или категорию.\nСинтаксис: rm -m <message_id>\nСинтаксис: rm -ch <channel_id>\nСинтаксис: rm -c <category_id>");
    reveal_strlit("Команда терминала: touch\n\nНазначение: создает текстовый канал.\nСинтаксис: touch <name> [category]");
    reveal_strlit("Команда терминала: wl\n\nНазначение: управляет whitelist терминала.\nСинтаксис: wl list\nСинтаксис: wl add <user>\nСинтаксис: wl rm <user>");
    reveal_strlit("Массовая роль");
    reveal_strlit("Панель терминала\n\nВыбери команду из списка ниже, чтобы посмотреть синтаксис. Для `flag` также доступна интерактивная панель настройки.");
    reveal_strlit("Перенос роли");
    assert forall|i: int| 48 <= i < 60 implies #[trigger] placeholders_agree(TERMINAL_EN@[i].1@, TERMINAL_RU@[i].1@) by {
        if i == 48 {
            lemma_placeholders_of(TERMINAL_EN@[48].1@, Seq::<int>::empty(), Seq::<Seq<char>>::empty());
            lemma_placeholders_of(TERMINAL_RU@[48].1@, Seq::<int>::empty(), Seq::<Seq<char>>::empty());
        } else if i == 49 {
            lemma_placeholders_of(TERMINAL_EN@[49].1@, Seq::<int>::empty(), Seq::<Seq<char>>::empty());
            lemma_placeholders_of(TERMINAL_RU@[49].1@, Seq::<int>::empty(), Seq::<Seq<char>>::empty());
        } else if i == 50 {
            lemma_placeholders_of(TERMINAL_EN@[50].1@, Seq::<int>::empty(), Seq::<Seq<char>>::empty());
            lemma_placeholders_of(TERMINAL_RU@[50].1@, Seq::<int>::empty(), Seq::<Seq<char>>::empty());
        } else if i == 51 {
            lemma_placeholders_of(TERMINAL_EN@[51].1@, Seq::<int>::empty(), Seq::<Seq<char>>::empty());
            lemma_placeholders_of(TERMINAL_RU@[51].1@, Seq::<int>::empty(), Seq::<Seq<char>>::empty());
        } else if i == 52 {
            lemma_placeholders_of(TERMINAL_EN@[52].1@, Seq::<int>::empty(), Seq::<Seq<char>>::empty());
            lemma_placeholders_of(TERMINAL_RU@[52].1@, Seq::<int>::empty(), Seq::<Seq<char>>::empty());
        } else if i == 53 {
            lemma_placeholders_of(TERMINAL_EN@[53].1@, Seq::<int>::empty(), Seq::<Seq<char>>::empty());
            lemma_placeholders_of(TERMINAL_RU@[53].1@, Seq::<int>::empty(), Seq::<Seq<char>>::empty());
        } else if i == 54 {
            lemma_placeholders_of(TERMINAL_EN@[54].1@, Seq::<int>::empty(), Seq::<Seq<char>>::empty());
            lemma_placeholders_of(TERMINAL_RU@[54].1@, Seq::<int>::empty(), Seq::<Seq<char>>::empty());
        } else if i == 55 {
            lemma_placeholders_of(TERMINAL_EN@[55].1@, Seq::<int>::empty(), Seq::<Seq<char>>::empty());
            lemma_placeholders_of(TERMINAL_RU@[55].1@, Seq::<int>::empty(), Seq::<Seq<char>>::empty());
        } else if i == 56 {
            lemma_placeholders_of(TERMINAL_EN@[56].1@, Seq::<int>::empty(), Seq::<Seq<char>>::empty());
            lemma_placeholders_of(TERMINAL_RU@[56].1@, Seq::<int>::empty(), Seq::<Seq<char>>::empty());
        } else if i == 57 {
            lemma_placeholders_of(TERMINAL_EN@[57].1@, Seq::<int>::empty(), Seq::<Seq<char>>::empty());
            lemma_placeholders_of(TERMINAL_RU@[57].1@, Seq::<int>::empty(), Seq::<Seq<char>>::empty());
        } else if i == 58 {
            lemma_placeholders_of(TERMINAL_EN@[58].1@, Seq::<int>::empty(), Seq::<Seq<char>>::empty());
            lemma_placeholders_of(TERMINAL_RU@[58].1@, Seq::<int>::empty(), Seq::<Seq<char>>::empty());
        } else {
            lemma_placeholders_of(TERMINAL_EN@[59].1@, Seq::<int>::empty(), Seq::<Seq<char>>::empty());
            lemma_placeholders_of(TERMINAL_RU@[59].1@, Seq::<int>::empty(), Seq::<Seq<char>>::empty());
        }
    }
}

proof fn lemma_terminal_placeholders_5()
    ensures
        forall|i: int| 60 <= i < 72 ==> #[trigger] placeholders_agree(TERMINAL_EN@[i].1@, TERMINAL_RU@[i].1@),
{
    reveal_strlit("Channel");
    reveal_strlit("Close");
    reveal_strlit("Flag Configuration");
    reveal_strlit("Not selected");
    reveal_strlit("Open Flag Panel");
    reveal_strlit("Select a terminal command");
    reveal_strlit("Terminal Command: massrole\n\nPurpose: assign a role to every non-bot member.\nSyntax: massrole <role>");
    reveal_strlit("Terminal Command: mv\n\nPurpose: move a channel into a category.\nSyntax: mv <channel> <category>");
    reveal_strlit("Terminal Command: role\n\nPurpose: assign a role to a member.\nSyntax: role <role> <user>");
    reveal_strlit("Terminal Command: rrole\n\nPurpose: create a reaction-role message.\nSyntax: rrole <role> <emoji> <channel> [message]");
    reveal_strlit("Terminal Command: rtr\n\nPurpose: replace one role with another across the guild.\nSyntax: rtr <old_role> <new_role>");
    reveal_strlit("Terminal Command: vm\n\nPurpose: move a member into a voice channel.\nSyntax: vm <user> <voice_channel>");
    reveal_strlit("Выбери команду терминала");
    reveal_strlit("Закрыть");
    reveal_strlit("Канал");
    reveal_strlit("Команда терминала: massrole\n\nНазначение: выдает роль всем участникам без ботов.\nСинтаксис: massrole <role>");
    reveal_strlit("Команда терминала: mv\n\nНазначение: перемещает канал в категорию.\nСинтаксис: mv <channel> <category>");
    reveal_strlit("Команда терминала: role\n\nНазначение: выдает роль участнику.\nСинтаксис: role <role> <user>");
    reveal_strlit("Команда терминала: rrole\n\nНазначение: создает сообщение reaction-role.\nСинтаксис: rrole <role> <emoji> <channel> [message]");
    reveal_strlit("Команда терминала: rtr\n\nНазначение: заменяет одну роль на другую по всему серверу.\nСинтаксис: rtr <old_role> <new_role>");
    reveal_strlit("Команда терминала: vm\n\nНазначение: перемещает участника в голосовой канал.\nСинтаксис: vm <user> <voice_channel>");
    reveal_strlit("Настройка флага");
    reveal_strlit("Не выбрано");
    reveal_strlit("Открыть панель flag");
    assert forall|i: int| 60 <= i < 72 implies #[trigger] placeholders_agree(TERMINAL_EN@[i].1@, TERMINAL_RU@[i].1@) by {
        if i == 60 {
            lemma_placeholders_of(TERMINAL_EN@[60].1@, Seq::<int>::empty(), Seq::<Seq<char>>::empty());
            lemma_placeholders_of(TERMINAL_RU@[60].1@, Seq::<int>::empty(), Seq::<Seq<char>>::empty());
        } else if i == 61 {
            lemma_placeholders_of(TERMINAL_EN@[61].1@, Seq::<int>::empty(), Seq::<Seq<char>>::empty());
            lemma_placeholders_of(TERMINAL_RU@[61].1@, Seq::<int>::empty(), Seq::<Seq<char>>::empty());
        } else if i == 62 {
            lemma_placeholders_of(TERMINAL_EN@[62].1@, Seq::<int>::empty(), Seq::<Seq<char>>::empty());
            lemma_placeholders_of(TERMINAL_RU@[62].1@, Seq::<int>::empty(), Seq::<Seq<char>>::empty());
        } else if i == 63 {
            lemma_placeholders_of(TERMINAL_EN@[63].1@, Seq::<int>::empty(), Seq::<Seq<char>>::empty());
            lemma_placeholders_of(TERMINAL_RU@[63].1@, Seq::<int>::empty(), Seq::<Seq<char>>::empty());
        } else if i == 64 {
            lemma_placeholders_of(TERMINAL_EN@[64].1@, Seq::<int>::empty(), Seq::<Seq<char>>::empty());
            lemma_placeholders_of(TERMINAL_RU@[64].1@, Seq::<int>::empty(), Seq::<Seq<char>>::empty());
        } else if i == 65 {
            lemma_placeholders_of(TERMINAL_EN@[65].1@, Seq::<int>::empty(), Seq::<Seq<char>>::empty());
            lemma_placeholders_of(TERMINAL_RU@[65].1@, Seq::<int>::empty(), Seq::<Seq<char>>::empty());
        } else if i == 66 {
            lemma_placeholders_of(TERMINAL_EN@[66].1@, Seq::<int>::empty(), Seq::<Seq<char>>::empty());
            lemma_placeholders_of(TERMINAL_RU@[66].1@, Seq::<int>::empty(), Seq::<Seq<char>>::empty());
        } else if i == 67 {
            lemma_placeholders_of(TERMINAL_EN@[67].1@, Seq::<int>::empty(), Seq::<Seq<char>>::empty());
            lemma_placeholders_of(TERMINAL_RU@[67].1@, Seq::<int>::empty(), Seq::<Seq<char>>::empty());
        } else if i == 68 {
            lemma_placeholders_of(TERMINAL_EN@[68].1@, Seq::<int>::empty(), Seq::<Seq<char>>::empty());
            lemma_placeholders_of(TERMINAL_RU@[68].1@, Seq::<int>::empty(), Seq::<Seq<char>>::empty());
        } else if i == 69 {
            lemma_placeholders_of(TERMINAL_EN@[69].1@, Seq::<int>::empty(), Seq::<Seq<char>>::empty());
            lemma_placeholders_of(TERMINAL_RU@[69].1@, Seq::<int>::empty(), Seq::<Seq<char>>::empty());
        } else if i == 70 {
            lemma_placeholders_of(TERMINAL_EN@[70].1@, Seq::<int>::empty(), Seq::<Seq<char>>::empty());
            lemma_placeholders_of(TERMINAL_RU@[70].1@, Seq::<int>::empty(), Seq::<Seq<char>>::empty());
        } else {
            lemma_placeholders_of(TERMINAL_EN@[71].1@, Seq::<int>::empty(), Seq::<Seq<char>>::empty());
            lemma_placeholders_of(TERMINAL_RU@[71].1@, Seq::<int>::empty(), Seq::<Seq<char>>::empty());
        }
    }
}

proof fn lemma_terminal_placeholders_6()
    ensures
        forall|i: int| 72 <= i < 84 ==> #[trigger] placeholders_agree(TERMINAL_EN@[i].1@, TERMINAL_RU@[i].1@),
{
    reveal_strlit("Action");
    reveal_strlit("Add");
    reveal_strlit("Apply");
    reveal_strlit("Available flags in the interactive panel: request");
    reveal_strlit("Flag");
    reveal_strlit("Remove");
    reveal_strlit("Select a channel first.");
    reveal_strlit("Select a flag");
    reveal_strlit("Select a target channel");
    reveal_strlit("Select an action");
    reveal_strlit("Status: {status}");
    reveal_strlit("This panel belongs to another operator.");
    reveal_strlit("{status}");
    reveal_strlit("Выбери действие");
    reveal_strlit("Выбери флаг");
    reveal_strlit("Выбери целевой канал");
    reveal_strlit("Действие");
    reveal_strlit("Добавить");
    reveal_strlit("Доступные флаги в интерактивной панели: request");
    reveal_strlit("Применить");
    reveal_strlit("Сначала выбери канал.");
    reveal_strlit("Статус: {status}");
    reveal_strlit("Удалить");
    reveal_strlit("Флаг");
    reveal_strlit("Эта панель принадлежит другому оператору.");
    assert forall|i: int| 72 <= i < 84 implies #[trigger] placeholders_agree(TERMINAL_EN@[i].1@, TERMINAL_RU@[i].1@) by {
        if i == 72 {
            lemma_placeholders_of(TERMINAL_EN@[72].1@, Seq::<int>::empty(), Seq::<Seq<char>>::empty());
            lemma_placeholders_of(TERMINAL_RU@[72].1@, Seq::<int>::empty(), Seq::<Seq<char>>::empty());
        } else if i == 73 {
            lemma_placeholders_of(TERMINAL_EN@[73].1@, Seq::<int>::empty(), Seq::<Seq<char>>::empty());
            lemma_placeholders_of(TERMINAL_RU@[73].1@, Seq::<int>::empty(), Seq::<Seq<char>>::empty());
        } else if i == 74 {
            lemma_placeholders_of(TERMINAL_EN@[74].1@, Seq::<int>::empty(), Seq::<Seq<char>>::empty());
            lemma_placeholders_of(TERMINAL_RU@[74].1@, Seq::<int>::empty(), Seq::<Seq<char>>::empty());
        } else if i == 75 {
            assert(TERMINAL_EN@[75].1@.subrange(8, 16) =~= "{status}"@);
            assert(is_placeholder("{status}"@));
            assert(forall|k: int| 0 <= k < TERMINAL_EN@[75].1@.len() && #[trigger] TERMINAL_EN@[75].1@[k] == '{' ==> k == 8);
            assert(seq![8int][0] == 8);
            lemma_placeholders_of(TERMINAL_EN@[75].1@, seq![8int], seq!["{status}"@]);
            assert(TERMINAL_RU@[75].1@.subrange(8, 16) =~= "{status}"@);
            assert(is_placeholder("{status}"@));
            assert(forall|k: int| 0 <= k < TERMINAL_RU@[75].1@.len() && #[trigger] TERMINAL_RU@[75].1@[k] == '{' ==> k == 8);
            assert(seq![8int][0] == 8);
            lemma_placeholders_of(TERMINAL_RU@[75].1@, seq![8int], seq!["{status}"@]);
        } else if i == 76 {
            lemma_placeholders_of(TERMINAL_EN@[76].1@, Seq::<int>::empty(), Seq::<Seq<char>>::empty());
            lemma_placeholders_of(TERMINAL_RU@[76].1@, Seq::<int>::empty(), Seq::<Seq<char>>::empty());
        } else if i == 77 {
            lemma_placeholders_of(TERMINAL_EN@[77].1@, Seq::<int>::empty(), Seq::<Seq<char>>::empty());
            lemma_placeholders_of(TERMINAL_RU@[77].1@, Seq::<int>::empty(), Seq::<Seq<char>>::empty());
        } else if i == 78 {
            lemma_placeholders_of(TERMINAL_EN@[78].1@, Seq::<int>::empty(), Seq::<Seq<char>>::empty());
            lemma_placeholders_of(TERMINAL_RU@[78].1@, Seq::<int>::empty(), Seq::<Seq<char>>::empty());
        } else if i == 79 {
            lemma_placeholders_of(TERMINAL_EN@[79].1@, Seq::<int>::empty(), Seq::<Seq<char>>::empty());
            lemma_placeholders_of(TERMINAL_RU@[79].1@, Seq::<int>::empty(), Seq::<Seq<char>>::empty());
        } else if i == 80 {
            lemma_placeholders_of(TERMINAL_EN@[80].1@, Seq::<int>::empty(), Seq::<Seq<char>>::empty());
            lemma_placeholders_of(TERMINAL_RU@[80].1@, Seq::<int>::empty(), Seq::<Seq<char>>::empty());
        } else if i == 81 {
            lemma_placeholders_of(TERMINAL_EN@[81].1@, Seq::<int>::empty(), Seq::<Seq<char>>::empty());
            lemma_placeholders_of(TERMINAL_RU@[81].1@, Seq::<int>::empty(), Seq::<Seq<char>>::empty());
        } else if i == 82 {
            lemma_placeholders_of(TERMINAL_EN@[82].1@, Seq::<int>::empty(), Seq::<Seq<char>>::empty());
            lemma_placeholders_of(TERMINAL_RU@[82].1@, Seq::<int>::empty(), Seq::<Seq<char>>::empty());
        } else {
            lemma_placeholders_of(TERMINAL_EN@[83].1@, Seq::<int>::empty(), Seq::<Seq<char>>::empty());
            lemma_placeholders_of(TERMINAL_RU@[83].1@, Seq::<int>::empty(), Seq::<Seq<char>>::empty());
        }
    }
}

proof fn lemma_terminal_placeholders_7()
    ensures
        forall|i: int| 84 <= i < 96 ==> #[trigger] placeholders_agree(TERMINAL_EN@[i].1@, TERMINAL_RU@[i].1@),
{
    reveal_strlit("Flag '{flag}' was added to <#{channel}>.");
    reveal_strlit("Flag '{flag}' was removed from <#{channel}>.");
    reveal_strlit("Select a flag first.");
    reveal_strlit("Select an action first.");
    reveal_strlit("[Terminal] Error: Channel not found.");
    reveal_strlit("[Terminal] Unknown command. Use: help");
    reveal_strlit("[Terminal] Usage: ap <request_channel_id> <approval_channel_id>");
    reveal_strlit("[Terminal] Usage: echo <channel_id_or_mention> <description>");
    reveal_strlit("[Terminal] Usage: touch <channel_name> [category_id]");
    reveal_strlit("[Terminal] Usage: wl <add|rm|list> [@user_or_id]");
    reveal_strlit("[Terminal] Usage: wl add <@user_or_id>");
    reveal_strlit("[Terminal] Usage: wl rm <@user_or_id>");
    reveal_strlit("[Terminal] Использование: ap <request_channel_id> <approval_channel_id>");
    reveal_strlit("[Terminal] Использование: echo <channel_id_or_mention> <description>");
    reveal_strlit("[Terminal] Использование: touch <channel_name> [category_id]");
    reveal_strlit("[Terminal] Использование: wl <add|rm|list> [@user_or_id]");
    reveal_strlit("[Terminal] Использование: wl add <@user_or_id>");
    reveal_strlit("[Terminal] Использование: wl rm <@user_or_id>");
    reveal_strlit("[Terminal] Неизвестная команда. Используй: help");
    reveal_strlit("[Terminal] Ошибка: канал не найден.");
    reveal_strlit("{channel}");
    reveal_strlit("{flag}");
    reveal_strlit("Сначала выбери действие.");
    reveal_strlit("Сначала выбери флаг.");
    reveal_strlit("Флаг '{flag}' добавлен каналу <#{channel}>.");
    reveal_strlit("Флаг '{flag}' удален у канала <#{channel}>.");
    assert forall|i: int| 84 <= i < 96 implies #[trigger] placeholders_agree(TERMINAL_EN@[i].1@, TERMINAL_RU@[i].1@) by {
        if i == 84 {
            lemma_placeholders_of(TERMINAL_EN@[84].1@, Seq::<int>::empty(), Seq::<Seq<char>>::empty());
            lemma_placeholders_of(TERMINAL_RU@[84].1@, Seq::<int>::empty(), Seq::<Seq<char>>::empty());
        } else if i == 85 {
            lemma_placeholders_of(TERMINAL_EN@[85].1@, Seq::<int>::empty(), Seq::<Seq<char>>::empty());
            lemma_placeholders_of(TERMINAL_RU@[85].1@, Seq::<int>::empty(), Seq::<Seq<char>>::empty());
        } else if i == 86 {
            assert(TERMINAL_EN@[86].1@.subrange(6, 12) =~= "{flag}"@);
            assert(is_placeholder("{flag}"@));
            assert(TERMINAL_EN@[86].1@.subrange(29, 38) =~= "{channel}"@);
            assert(is_placeholder("{channel}"@));
            assert(forall|k: int| 0 <= k < TERMINAL_EN@[86].1@.len() && #[trigger] TERMINAL_EN@[86].1@[k] == '{' ==> k == 6 || k == 29);
            assert(seq![6int, 29int][0] == 6 && seq![6int, 29int][1] == 29);
            lemma_placeholders_of(TERMINAL_EN@[86].1@, seq![6int, 29int], seq!["{flag}"@, "{channel}"@]);
            assert(TERMINAL_RU@[86].1@.subrange(6, 12) =~= "{flag}"@);
            assert(is_placeholder("{flag}"@));
            assert(TERMINAL_RU@[86].1@.subrange(32, 41) =~= "{channel}"@);
            assert(is_placeholder("{channel}"@));
            assert(forall|k: int| 0 <= k < TERMINAL_RU@[86].1@.len() && #[trigger] TERMINAL_RU@[86].1@[k] == '{' ==> k == 6 || k == 32);
            assert(seq![6int, 32int][0] == 6 && seq![6int, 32int][1] == 32);
            lemma_placeholders_of(TERMINAL_RU@[86].1@, seq![6int, 32int], seq!["{flag}"@, "{channel}"@]);
        } else if i == 87 {
            assert(TERMINAL_EN@[87].1@.subrange(6, 12) =~= "{flag}"@);
            assert(is_placeholder("{flag}"@));
            assert(TERMINAL_EN@[87].1@.subrange(33, 42) =~= "{channel}"@);
            assert(is_placeholder("{channel}"@));
            assert(forall|k: int| 0 <= k < TERMINAL_EN@[87].1@.len() && #[trigger] TERMINAL_EN@[87].1@[k] == '{' ==> k == 6 || k == 33);
            assert(seq![6int, 33int][0] == 6 && seq![6int, 33int][1] == 33);
            lemma_placeholders_of(TERMINAL_EN@[87].1@, seq![6int, 33int], seq!["{flag}"@, "{channel}"@]);
            assert(TERMINAL_RU@[87].1@.subrange(6, 12) =~= "{flag}"@);
            assert(is_placeholder("{flag}"@));
            assert(TERMINAL_RU@[87].1@.subrange(32, 41) =~= "{channel}"@);
            assert(is_placeholder("{channel}"@));
            assert(forall|k: int| 0 <= k < TERMINAL_RU@[87].1@.len() && #[trigger] TERMINAL_RU@[87].1@[k] == '{' ==> k == 6 || k == 32);
            assert(seq![6int, 32int][0] == 6 && seq![6int, 32int][1] == 32);
            lemma_placeholders_of(TERMINAL_RU@[87].1@, seq![6int, 32int], seq!["{flag}"@, "{channel}"@]);
        } else if i == 88 {
            lemma_placeholders_of(TERMINAL_EN@[88].1@, Seq::<int>::empty(), Seq::<Seq<char>>::empty());
            lemma_placeholders_of(TERMINAL_RU@[88].1@, Seq::<int>::empty(), Seq::<Seq<char>>::empty());
        } else if i == 89 {
            lemma_placeholders_of(TERMINAL_EN@[89].1@, Seq::<int>::empty(), Seq::<Seq<char>>::empty());
            lemma_placeholders_of(TERMINAL_RU@[89].1@, Seq::<int>::empty(), Seq::<Seq<char>>::empty());
        } else if i == 90 {
            lemma_placeholders_of(TERMINAL_EN@[90].1@, Seq::<int>::empty(), Seq::<Seq<char>>::empty());
            lemma_placeholders_of(TERMINAL_RU@[90].1@, Seq::<int>::empty(), Seq::<Seq<char>>::empty());
        } else if i == 91 {
            lemma_placeholders_of(TERMINAL_EN@[91].1@, Seq::<int>::empty(), Seq::<Seq<char>>::empty());
            lemma_placeholders_of(TERMINAL_RU@[91].1@, Seq::<int>::empty(), Seq::<Seq<char>>::empty());
        } else if i == 92 {
            lemma_placeholders_of(TERMINAL_EN@[92].1@, Seq::<int>::empty(), Seq::<Seq<char>>::empty());
            lemma_placeholders_of(TERMINAL_RU@[92].1@, Seq::<int>::empty(), Seq::<Seq<char>>::empty());
        } else if i == 93 {
            lemma_placeholders_of(TERMINAL_EN@[93].1@, Seq::<int>::empty(), Seq::<Seq<char>>::empty());
            lemma_placeholders_of(TERMINAL_RU@[93].1@, Seq::<int>::empty(), Seq::<Seq<char>>::empty());
        } else if i == 94 {
            lemma_placeholders_of(TERMINAL_EN@[94].1@, Seq::<int>::empty(), Seq::<Seq<char>>::empty());
            lemma_placeholders_of(TERMINAL_RU@[94].1@, Seq::<int>::empty(), Seq::<Seq<char>>::empty());
        } else {
            lemma_placeholders_of(TERMINAL_EN@[95].1@, Seq::<int>::empty(), Seq::<Seq<char>>::empty());
            lemma_placeholders_of(TERMINAL_RU@[95].1@, Seq::<int>::empty(), Seq::<Seq<char>>::empty());
        }
    }
}

proof fn lemma_terminal_placeholders_8()
    ensures
        forall|i: int| 96 <= i < 108 ==> #[trigger] placeholders_agree(TERMINAL_EN@[i].1@, TERMINAL_RU@[i].1@),
{
    reveal_strlit("[Terminal] Error: Invalid IDs");
    reveal_strlit("[Terminal] Error: Invalid arguments.");
    reveal_strlit("[Terminal] Error: Invalid role");
    reveal_strlit("[Terminal] Error: Invalid role input.");
    reveal_strlit("[Terminal] Usage: flag add|rm <channel> <flag>");
    reveal_strlit("[Terminal] Usage: massrole <role_id_or_mention>");
    reveal_strlit("[Terminal] Usage: mkdir <category_name>");
    reveal_strlit("[Terminal] Usage: mv <channel> <category>");
    reveal_strlit("[Terminal] Usage: role <role_id_or_mention> <user_id_or_mention>");
    reveal_strlit("[Terminal] Usage: rrole @role <emoji> #channel [message]");
    reveal_strlit("[Terminal] Usage: rtr <@old_role> <@new_role>");
    reveal_strlit("[Terminal] Usage: vm <user_id> <voice_channel_id>");
    reveal_strlit("[Terminal] Использование: flag add|rm <channel> <flag>");
    reveal_strlit("[Terminal] Использование: massrole <role_id_or_mention>");
    reveal_strlit("[Terminal] Использование: mkdir <category_name>");
    reveal_strlit("[Terminal] Использование: mv <channel> <category>");
    reveal_strlit("[Terminal] Использование: role <role_id_or_mention> <user_id_or_mention>");
    reveal_strlit("[Terminal] Использование: rrole @role <emoji> #channel [message]");
    reveal_strlit("[Terminal] Использование: rtr <@old_role> <@new_role>");
    reveal_strlit("[Terminal] Использование: vm <user_id> <voice_channel_id>");
    reveal_strlit("[Terminal] Ошибка: неверная роль");
    reveal_strlit("[Terminal] Ошибка: неверные ID");
    reveal_strlit("[Terminal] Ошибка: неверные аргументы.");
    reveal_strlit("[Terminal] Ошибка: неверный ввод роли.");
    assert forall|i: int| 96 <= i < 108 implies #[trigger] placeholders_agree(TERMINAL_EN@[i].1@, TERMINAL_RU@[i].1@) by {
        if i == 96 {
            lemma_placeholders_of(TERMINAL_EN@[96].1@, Seq::<int>::empty(), Seq::<Seq<char>>::empty());
            lemma_placeholders_of(TERMINAL_RU@[96].1@, Seq::<int>::empty(), Seq::<Seq<char>>::empty());
        } else if i == 97 {
            lemma_placeholders_of(TERMINAL_EN@[97].1@, Seq::<int>::empty(), Seq::<Seq<char>>::empty());
            lemma_placeholders_of(TERMINAL_RU@[97].1@, Seq::<int>::empty(), Seq::<Seq<char>>::empty());
        } else if i == 98 {
            lemma_placeholders_of(TERMINAL_EN@[98].1@, Seq::<int>::empty(), Seq::<Seq<char>>::empty());
            lemma_placeholders_of(TERMINAL_RU@[98].1@, Seq::<int>::empty(), Seq::<Seq<char>>::empty());
        } else if i == 99 {
            lemma_placeholders_of(TERMINAL_EN@[99].1@, Seq::<int>::empty(), Seq::<Seq<char>>::empty());
            lemma_placeholders_of(TERMINAL_RU@[99].1@, Seq::<int>::empty(), Seq::<Seq<char>>::empty());
        } else if i == 100 {
            lemma_placeholders_of(TERMINAL_EN@[100].1@, Seq::<int>::empty(), Seq::<Seq<char>>::empty());
            lemma_placeholders_of(TERMINAL_RU@[100].1@, Seq::<int>::empty(), Seq::<Seq<char>>::empty());
        } else if i == 101 {
            lemma_placeholders_of(TERMINAL_EN@[101].1@, Seq::<int>::empty(), Seq::<Seq<char>>::empty());
            lemma_placeholders_of(TERMINAL_RU@[101].1@, Seq::<int>::empty(), Seq::<Seq<char>>::empty());
        } else if i == 102 {
            lemma_placeholders_of(TERMINAL_EN@[102].1@, Seq::<int>::empty(), Seq::<Seq<char>>::empty());
            lemma_placeholders_of(TERMINAL_RU@[102].1@, Seq::<int>::empty(), Seq::<Seq<char>>::empty());
        } else if i == 103 {
            lemma_placeholders_of(TERMINAL_EN@[103].1@, Seq::<int>::empty(), Seq::<Seq<char>>::empty());
            lemma_placeholders_of(TERMINAL_RU@[103].1@, Seq::<int>::empty(), Seq::<Seq<char>>::empty());
        } else if i == 104 {
            lemma_placeholders_of(TERMINAL_EN@[104].1@, Seq::<int>::empty(), Seq::<Seq<char>>::empty());
            lemma_placeholders_of(TERMINAL_RU@[104].1@, Seq::<int>::empty(), Seq::<Seq<char>>::empty());
        } else if i == 105 {
            lemma_placeholders_of(TERMINAL_EN@[105].1@, Seq::<int>::empty(), Seq::<Seq<char>>::empty());
            lemma_placeholders_of(TERMINAL_RU@[105].1@, Seq::<int>::empty(), Seq::<Seq<char>>::empty());
        } else if i == 106 {
            lemma_placeholders_of(TERMINAL_EN@[106].1@, Seq::<int>::empty(), Seq::<Seq<char>>::empty());
            lemma_placeholders_of(TERMINAL_RU@[106].1@, Seq::<int>::empty(), Seq::<Seq<char>>::empty());
        } else {
            lemma_placeholders_of(TERMINAL_EN@[107].1@, Seq::<int>::empty(), Seq::<Seq<char>>::empty());
            lemma_placeholders_of(TERMINAL_RU@[107].1@, Seq::<int>::empty(), Seq::<Seq<char>>::empty());
        }
    }
}

proof fn lemma_dict_placeholders_0()
    ensures
        forall|i: int| 0 <= i < 12 ==> #[trigger] placeholders_agree(DICT_EN@[i].1@, DICT_RU@[i].1@),
{
    reveal_strlit("Banned {user}. Reason: {reason}");
    reveal_strlit("Cleared {amount} messages.");
    reveal_strlit("Failed to ban {user}: {err}");
    reveal_strlit("Failed to clear messages: {err}");
    reveal_strlit("Failed to kick {user}: {err}");
    reveal_strlit("Failed to mute {user}: {err}");
    reveal_strlit("Failed to unmute {user}: {err}");
    reveal_strlit("Kicked {user}. Reason: {reason}");
    reveal_strlit("Muted {user} for {duration}. Reason: {reason}");
    reveal_strlit("This command can only be used in a server.");
    reveal_strlit("Unmuted {user}");
    reveal_strlit("You do not have staff permissions for this command.");
    reveal_strlit("{amount}");
    reveal_strlit("{duration}");
    reveal_strlit("{err}");
    reveal_strlit("{reason}");
    reveal_strlit("{user}");
    reveal_strlit("Забанил {user}. Причина: {reason}");
    reveal_strlit("Замутил {user} на {duration}. Причина: {reason}");
    reveal_strlit("Кикнул {user}. Причина: {reason}");
    reveal_strlit("Команда доступна только на сервере.");
    reveal_strlit("Не удалось забанить {user}: {err}");
    reveal_strlit("Не удалось замутить {user}: {err}");
    reveal_strlit("Не удалось кикнуть {user}: {err}");
    reveal_strlit("Не удалось размутить {user}: {err}");
    reveal_strlit("Не удалось удалить сообщения: {err}");
    reveal_strlit("Размутил {user}");
    reveal_strlit("У тебя нет прав стаффа для этой команды.");
    reveal_strlit("Удалено {amount} сообщений.");
    assert forall|i: int| 0 <= i < 12 implies #[trigger] placeholders_agree(DICT_EN@[i].1@, DICT_RU@[i].1@) by {
        if i == 0 {
            lemma_placeholders_of(DICT_EN@[0].1@, Seq::<int>::empty(), Seq::<Seq<char>>::empty());
            lemma_placeholders_of(DICT_RU@[0].1@, Seq::<int>::empty(), Seq::<Seq<char>>::empty());
        } else if i == 1 {
            lemma_placeholders_of(DICT_EN@[1].1@, Seq::<int>::empty(), Seq::<Seq<char>>::empty());
            lemma_placeholders_of(DICT_RU@[1].1@, Seq::<int>::empty(), Seq::<Seq<char>>::empty());
        } else if i == 2 {
            assert(DICT_EN@[2].1@.subrange(7, 13) =~= "{user}"@);
            assert(is_placeholder("{user}"@));
            assert(DICT_EN@[2].1@.subrange(23, 31) =~= "{reason}"@);
            assert(is_placeholder("{reason}"@));
            assert(forall|k: int| 0 <= k < DICT_EN@[2].1@.len() && #[trigger] DICT_EN@[2].1@[k] == '{' ==> k == 7 || k == 23);
            assert(seq![7int, 23int][0] == 7 && seq![7int, 23int][1] == 23);
            lemma_placeholders_of(DICT_EN@[2].1@, seq![7int, 23int], seq!["{user}"@, "{reason}"@]);
            assert(DICT_RU@[2].1@.subrange(7, 13) =~= "{user}"@);
            assert(is_placeholder("{user}"@));
            assert(DICT_RU@[2].1@.subrange(24, 32) =~= "{reason}"@);
            assert(is_placeholder("{reason}"@));
            assert(forall|k: int| 0 <= k < DICT_RU@[2].1@.len() && #[trigger] DICT_RU@[2].1@[k] == '{' ==> k == 7 || k == 24);
            assert(seq![7int, 24int][0] == 7 && seq![7int, 24int][1] == 24);
            lemma_placeholders_of(DICT_RU@[2].1@, seq![7int, 24int], seq!["{user}"@, "{reason}"@]);
        } else if i == 3 {
            assert(DICT_EN@[3].1@.subrange(15, 21) =~= "{user}"@);
            assert(is_placeholder("{user}"@));
            assert(DICT_EN@[3].1@.subrange(23, 28) =~= "{err}"@);
            assert(is_placeholder("{err}"@));
            assert(forall|k: int| 0 <= k < DICT_EN@[3].1@.len() && #[trigger] DICT_EN@[3].1@[k] == '{' ==> k == 15 || k == 23);
            assert(seq![15int, 23int][0] == 15 && seq![15int, 23int][1] == 23);
            lemma_placeholders_of(DICT_EN@[3].1@, seq![15int, 23int], seq!["{user}"@, "{err}"@]);
            assert(DICT_RU@[3].1@.subrange(19, 25) =~= "{user}"@);
            assert(is_placeholder("{user}"@));
            assert(DICT_RU@[3].1@.subrange(27, 32) =~= "{err}"@);
            assert(is_placeholder("{err}"@));
            assert(forall|k: int| 0 <= k < DICT_RU@[3].1@.len() && #[trigger] DICT_RU@[3].1@[k] == '{' ==> k == 19 || k == 27);
            assert(seq![19int, 27int][0] == 19 && seq![19int, 27int][1] == 27);
            lemma_placeholders_of(DICT_RU@[3].1@, seq![19int, 27int], seq!["{user}"@, "{err}"@]);
        } else if i == 4 {
            assert(DICT_EN@[4].1@.subrange(7, 13) =~= "{user}"@);
            assert(is_placeholder("{user}"@));
            assert(DICT_EN@[4].1@.subrange(23, 31) =~= "{reason}"@);
            assert(is_placeholder("{reason}"@));
            assert(forall|k: int| 0 <= k < DICT_EN@[4].1@.len() && #[trigger] DICT_EN@[4].1@[k] == '{' ==> k == 7 || k == 23);
            assert(seq![7int, 23int][0] == 7 && seq![7int, 23int][1] == 23);
            lemma_placeholders_of(DICT_EN@[4].1@, seq![7int, 23int], seq!["{user}"@, "{reason}"@]);
            assert(DICT_RU@[4].1@.subrange(8, 14) =~= "{user}"@);
            assert(is_placeholder("{user}"@));
            assert(DICT_RU@[4].1@.subrange(25, 33) =~= "{reason}"@);
            assert(is_placeholder("{reason}"@));
            assert(forall|k: int| 0 <= k < DICT_RU@[4].1@.len() && #[trigger] DICT_RU@[4].1@[k] == '{' ==> k == 8 || k == 25);
            assert(seq![8int, 25int][0] == 8 && seq![8int, 25int][1] == 25);
            lemma_placeholders_of(DICT_RU@[4].1@, seq![8int, 25int], seq!["{user}"@, "{reason}"@]);
        } else if i == 5 {
            assert(DICT_EN@[5].1@.subrange(14, 20) =~= "{user}"@);
            assert(is_placeholder("{user}"@));
            assert(DICT_EN@[5].1@.subrange(22, 27) =~= "{err}"@);
            assert(is_placeholder("{err}"@));
            assert(forall|k: int| 0 <= k < DICT_EN@[5].1@.len() && #[trigger] DICT_EN@[5].1@[k] == '{' ==> k == 14 || k == 22);
            assert(seq![14int, 22int][0] == 14 && seq![14int, 22int][1] == 22);
            lemma_placeholders_of(DICT_EN@[5].1@, seq![14int, 22int], seq!["{user}"@, "{err}"@]);
            assert(DICT_RU@[5].1@.subrange(20, 26) =~= "{user}"@);
            assert(is_placeholder("{user}"@));
            assert(DICT_RU@[5].1@.subrange(28, 33) =~= "{err}"@);
            assert(is_placeholder("{err}"@));
            assert(forall|k: int| 0 <= k < DICT_RU@[5].1@.len() && #[trigger] DICT_RU@[5].1@[k] == '{' ==> k == 20 || k == 28);
            assert(seq![20int, 28int][0] == 20 && seq![20int, 28int][1] == 28);
            lemma_placeholders_of(DICT_RU@[5].1@, seq![20int, 28int], seq!["{user}"@, "{err}"@]);
        } else if i == 6 {
            assert(DICT_EN@[6].1@.subrange(6, 12) =~= "{user}"@);
            assert(is_placeholder("{user}"@));
            assert(DICT_EN@[6].1@.subrange(17, 27) =~= "{duration}"@);
            assert(is_placeholder("{duration}"@));
            assert(DICT_EN@[6].1@.subrange(37, 45) =~= "{reason}"@);
            assert(is_placeholder("{reason}"@));
            assert(forall|k: int| 0 <= k < DICT_EN@[6].1@.len() && #[trigger] DICT_EN@[6].1@[k] == '{' ==> k == 6 || k == 17 || k == 37);
            assert(seq![6int, 17int, 37int][0] == 6 && seq![6int, 17int, 37int][1] == 17 && seq![6int, 17int, 37int][2] == 37);
            lemma_placeholders_of(DICT_EN@[6].1@, seq![6int, 17int, 37int], seq!["{user}"@, "{duration}"@, "{reason}"@]);
            assert(DICT_RU@[6].1@.subrange(8, 14) =~= "{user}"@);
            assert(is_placeholder("{user}"@));
            assert(DICT_RU@[6].1@.subrange(18, 28) =~= "{duration}"@);
            assert(is_placeholder("{duration}"@));
            assert(DICT_RU@[6].1@.subrange(39, 47) =~= "{reason}"@);
            assert(is_placeholder("{reason}"@));
            assert(forall|k: int| 0 <= k < DICT_RU@[6].1@.len() && #[trigger] DICT_RU@[6].1@[k] == '{' ==> k == 8 || k == 18 || k == 39);
            assert(seq![8int, 18int, 39int][0] == 8 && seq![8int, 18int, 39int][1] == 18 && seq![8int, 18int, 39int][2] == 39);
            lemma_placeholders_of(DICT_RU@[6].1@, seq![8int, 18int, 39int], seq!["{user}"@, "{duration}"@, "{reason}"@]);
        } else if i == 7 {
            assert(DICT_EN@[7].1@.subrange(15, 21) =~= "{user}"@);
            assert(is_placeholder("{user}"@));
            assert(DICT_EN@[7].1@.subrange(23, 28) =~= "{err}"@);
            assert(is_placeholder("{err}"@));
            assert(forall|k: int| 0 <= k < DICT_EN@[7].1@.len() && #[trigger] DICT_EN@[7].1@[k] == '{' ==> k == 15 || k == 23);
            assert(seq![15int, 23int][0] == 15 && seq![15int, 23int][1] == 23);
            lemma_placeholders_of(DICT_EN@[7].1@, seq![15int, 23int], seq!["{user}"@, "{err}"@]);
            assert(DICT_RU@[7].1@.subrange(20, 26) =~= "{user}"@);
            assert(is_placeholder("{user}"@));
            assert(DICT_RU@[7].1@.subrange(28, 33) =~= "{err}"@);
            assert(is_placeholder("{err}"@));
            assert(forall|k: int| 0 <= k < DICT_RU@[7].1@.len() && #[trigger] DICT_RU@[7].1@[k] == '{' ==> k == 20 || k == 28);
            assert(seq![20int, 28int][0] == 20 && seq![20int, 28int][1] == 28);
            lemma_placeholders_of(DICT_RU@[7].1@, seq![20int, 28int], seq!["{user}"@, "{err}"@]);
        } else if i == 8 {
            assert(DICT_EN@[8].1@.subrange(8, 14) =~= "{user}"@);
            assert(is_placeholder("{user}"@));
            assert(forall|k: int| 0 <= k < DICT_EN@[8].1@.len() && #[trigger] DICT_EN@[8].1@[k] == '{' ==> k == 8);
            assert(seq![8int][0] == 8);
            lemma_placeholders_of(DICT_EN@[8].1@, seq![8int], seq!["{user}"@]);
            assert(DICT_RU@[8].1@.subrange(9, 15) =~= "{user}"@);
            assert(is_placeholder("{user}"@));
            assert(forall|k: int| 0 <= k < DICT_RU@[8].1@.len() && #[trigger] DICT_RU@[8].1@[k] == '{' ==> k == 9);
            assert(seq![9int][0] == 9);
            lemma_placeholders_of(DICT_RU@[8].1@, seq![9int], seq!["{user}"@]);
        } else if i == 9 {
            assert(DICT_EN@[9].1@.subrange(17, 23) =~= "{user}"@);
            assert(is_placeholder("{user}"@));
            assert(DICT_EN@[9].1@.subrange(25, 30) =~= "{err}"@);
            assert(is_placeholder("{err}"@));
            assert(forall|k: int| 0 <= k < DICT_EN@[9].1@.len() && #[trigger] DICT_EN@[9].1@[k] == '{' ==> k == 17 || k == 25);
            assert(seq![17int, 25int][0] == 17 && seq![17int, 25int][1] == 25);
            lemma_placeholders_of(DICT_EN@[9].1@, seq![17int, 25int], seq!["{user}"@, "{err}"@]);
            assert(DICT_RU@[9].1@.subrange(21, 27) =~= "{user}"@);
            assert(is_placeholder("{user}"@));
            assert(DICT_RU@[9].1@.subrange(29, 34) =~= "{err}"@);
            assert(is_placeholder("{err}"@));
            assert(forall|k: int| 0 <= k < DICT_RU@[9].1@.len() && #[trigger] DICT_RU@[9].1@[k] == '{' ==> k == 21 || k == 29);
            assert(seq![21int, 29int][0] == 21 && seq![21int, 29int][1] == 29);
            lemma_placeholders_of(DICT_RU@[9].1@, seq![21int, 29int], seq!["{user}"@, "{err}"@]);
        } else if i == 10 {
            assert(DICT_EN@[10].1@.subrange(26, 31) =~= "{err}"@);
            assert(is_placeholder("{err}"@));
            assert(forall|k: int| 0 <= k < DICT_EN@[10].1@.len() && #[trigger] DICT_EN@[10].1@[k] == '{' ==> k == 26);
            assert(seq![26int][0] == 26);
            lemma_placeholders_of(DICT_EN@[10].1@, seq![26int], seq!["{err}"@]);
            assert(DICT_RU@[10].1@.subrange(30, 35) =~= "{err}"@);
            assert(is_placeholder("{err}"@));
            assert(forall|k: int| 0 <= k < DICT_RU@[10].1@.len() && #[trigger] DICT_RU@[10].1@[k] == '{' ==> k == 30);
            assert(seq![30int][0] == 30);
            lemma_placeholders_of(DICT_RU@[10].1@, seq![30int], seq!["{err}"@]);
        } else {
            assert(DICT_EN@[11].1@.subrange(8, 16) =~= "{amount}"@);
            assert(is_placeholder("{amount}"@));
            assert(forall|k: int| 0 <= k < DICT_EN@[11].1@.len() && #[trigger] DICT_EN@[11].1@[k] == '{' ==> k == 8);
            assert(seq![8int][0] == 8);
            lemma_placeholders_of(DICT_EN@[11].1@, seq![8int], seq!["{amount}"@]);
            assert(DICT_RU@[11].1@.subrange(8, 16) =~= "{amount}"@);
            assert(is_placeholder("{amount}"@));
            assert(forall|k: int| 0 <= k < DICT_RU@[11].1@.len() && #[trigger] DICT_RU@[11].1@[k] == '{' ==> k == 8);
            assert(seq![8int][0] == 8);
            lemma_placeholders_of(DICT_RU@[11].1@, seq![8int], seq!["{amount}"@]);
        }
    }
}

proof fn lemma_dict_placeholders_1()
    ensures
        forall|i: int| 12 <= i < 24 ==> #[trigger] placeholders_agree(DICT_EN@[i].1@, DICT_RU@[i].1@),
{
    reveal_strlit("Added role {role} to {user}");
    reveal_strlit("Announcement sent.");
    reveal_strlit("Everyone announcement sent.");
    reveal_strlit("Failed to add role: {err}");
    reveal_strlit("Failed to announce: {err}");
    reveal_strlit("Failed to remove role: {err}");
    reveal_strlit("Failed to send stream announcement: {err}");
    reveal_strlit("Invalid duration format. Example: 30m / 2h / 1d");
    reveal_strlit("Please provide text.");
    reveal_strlit("Pong! Ping: **{ms} ms**");
    reveal_strlit("Removed role {role} from {user}");
    reveal_strlit("Use `/settings language <ru|en>` to configure the bot.");
    reveal_strlit("{err}");
    reveal_strlit("{ms}");
    reveal_strlit("{role}");
    reveal_strlit("{user}");
    reveal_strlit("Анонс отправлен.");
    reveal_strlit("Анонс с пингом отправлен.");
    reveal_strlit("Выдал роль {role} пользователю {user}");
    reveal_strlit("Используй `/settings language <ru|en>`, чтобы настроить язык бота.");
    reveal_strlit("Неверный формат времени. Пример: `30m` / `2h` / `1d`");
    reveal_strlit("ОШИБКА отправки анонса: {err}");
    reveal_strlit("ОШИБКА: Не удалось выдать роль: {err}");
    reveal_strlit("ОШИБКА: Не удалось снять роль: {err}");
    reveal_strlit("Ошибка отправки стрим-уведомления: {err}");
    reveal_strlit("Понг! Пинг: **{ms} ms**");
    reveal_strlit("Снял роль {role} с {user}");
    reveal_strlit("Укажи текст.");
    assert forall|i: int| 12 <= i < 24 implies #[trigger] placeholders_agree(DICT_EN@[i].1@, DICT_RU@[i].1@) by {
        if i == 12 {
            assert(DICT_EN@[12].1@.subrange(23, 28) =~= "{err}"@);
            assert(is_placeholder("{err}"@));
            assert(forall|k: int| 0 <= k < DICT_EN@[12].1@.len() && #[trigger] DICT_EN@[12].1@[k] == '{' ==> k == 23);
            assert(seq![23int][0] == 23);
            lemma_placeholders_of(DICT_EN@[12].1@, seq![23int], seq!["{err}"@]);
            assert(DICT_RU@[12].1@.subrange(31, 36) =~= "{err}"@);
            assert(is_placeholder("{err}"@));
            assert(forall|k: int| 0 <= k < DICT_RU@[12].1@.len() && #[trigger] DICT_RU@[12].1@[k] == '{' ==> k == 31);
            assert(seq![31int][0] == 31);
            lemma_placeholders_of(DICT_RU@[12].1@, seq![31int], seq!["{err}"@]);
        } else if i == 13 {
            assert(DICT_EN@[13].1@.subrange(13, 19) =~= "{role}"@);
            assert(is_placeholder("{role}"@));
            assert(DICT_EN@[13].1@.subrange(25, 31) =~= "{user}"@);
            assert(is_placeholder("{user}"@));
            assert(forall|k: int| 0 <= k < DICT_EN@[13].1@.len() && #[trigger] DICT_EN@[13].1@[k] == '{' ==> k == 13 || k == 25);
            assert(seq![13int, 25int][0] == 13 && seq![13int, 25int][1] == 25);
            lemma_placeholders_of(DICT_EN@[13].1@, seq![13int, 25int], seq!["{role}"@, "{user}"@]);
            assert(DICT_RU@[13].1@.subrange(10, 16) =~= "{role}"@);
            assert(is_placeholder("{role}"@));
            assert(DICT_RU@[13].1@.subrange(19, 25) =~= "{user}"@);
            assert(is_placeholder("{user}"@));
            assert(forall|k: int| 0 <= k < DICT_RU@[13].1@.len() && #[trigger] DICT_RU@[13].1@[k] == '{' ==> k == 10 || k == 19);
            assert(seq![10int, 19int][0] == 10 && seq![10int, 19int][1] == 19);
            lemma_placeholders_of(DICT_RU@[13].1@, seq![10int, 19int], seq!["{role}"@, "{user}"@]);
        } else if i == 14 {
            assert(DICT_EN@[14].1@.subrange(20, 25) =~= "{err}"@);
            assert(is_placeholder("{err}"@));
            assert(forall|k: int| 0 <= k < DICT_EN@[14].1@.len() && #[trigger] DICT_EN@[14].1@[k] == '{' ==> k == 20);
            assert(seq![20int][0] == 20);
            lemma_placeholders_of(DICT_EN@[14].1@, seq![20int], seq!["{err}"@]);
            assert(DICT_RU@[14].1@.subrange(32, 37) =~= "{err}"@);
            assert(is_placeholder("{err}"@));
            assert(forall|k: int| 0 <= k < DICT_RU@[14].1@.len() && #[trigger] DICT_RU@[14].1@[k] == '{' ==> k == 32);
            assert(seq![32int][0] == 32);
            lemma_placeholders_of(DICT_RU@[14].1@, seq![32int], seq!["{err}"@]);
        } else if i == 15 {
            assert(DICT_EN@[15].1@.subrange(11, 17) =~= "{role}"@);
            assert(is_placeholder("{role}"@));
            assert(DICT_EN@[15].1@.subrange(21, 27) =~= "{user}"@);
            assert(is_placeholder("{user}"@));
            assert(forall|k: int| 0 <= k < DICT_EN@[15].1@.len() && #[trigger] DICT_EN@[15].1@[k] == '{' ==> k == 11 || k == 21);
            assert(seq![11int, 21int][0] == 11 && seq![11int, 21int][1] == 21);
            lemma_placeholders_of(DICT_EN@[15].1@, seq![11int, 21int], seq!["{role}"@, "{user}"@]);
            assert(DICT_RU@[15].1@.subrange(11, 17) =~= "{role}"@);
            assert(is_placeholder("{role}"@));
            assert(DICT_RU@[15].1@.subrange(31, 37) =~= "{user}"@);
            assert(is_placeholder("{user}"@));
            assert(forall|k: int| 0 <= k < DICT_RU@[15].1@.len() && #[trigger] DICT_RU@[15].1@[k] == '{' ==> k == 11 || k == 31);
            assert(seq![11int, 31int][0] == 11 && seq![11int, 31int][1] == 31);
            lemma_placeholders_of(DICT_RU@[15].1@, seq![11int, 31int], seq!["{role}"@, "{user}"@]);
        } else if i == 16 {
            assert(DICT_EN@[16].1@.subrange(20, 25) =~= "{err}"@);
            assert(is_placeholder("{err}"@));
            assert(forall|k: int| 0 <= k < DICT_EN@[16].1@.len() && #[trigger] DICT_EN@[16].1@[k] == '{' ==> k == 20);
            assert(seq![20int][0] == 20);
            lemma_placeholders_of(DICT_EN@[16].1@, seq![20int], seq!["{err}"@]);
            assert(DICT_RU@[16].1@.subrange(24, 29) =~= "{err}"@);
            assert(is_placeholder("{err}"@));
            assert(forall|k: int| 0 <= k < DICT_RU@[16].1@.len() && #[trigger] DICT_RU@[16].1@[k] == '{' ==> k == 24);
            assert(seq![24int][0] == 24);
            lemma_placeholders_of(DICT_RU@[16].1@, seq![24int], seq!["{err}"@]);
        } else if i == 17 {
            lemma_placeholders_of(DICT_EN@[17].1@, Seq::<int>::empty(), Seq::<Seq<char>>::empty());
            lemma_placeholders_of(DICT_RU@[17].1@, Seq::<int>::empty(), Seq::<Seq<char>>::empty());
        } else if i == 18 {
            lemma_placeholders_of(DICT_EN@[18].1@, Seq::<int>::empty(), Seq::<Seq<char>>::empty());
            lemma_placeholders_of(DICT_RU@[18].1@, Seq::<int>::empty(), Seq::<Seq<char>>::empty());
        } else if i == 19 {
            assert(DICT_EN@[19].1@.subrange(36, 41) =~= "{err}"@);
            assert(is_placeholder("{err}"@));
            assert(forall|k: int| 0 <= k < DICT_EN@[19].1@.len() && #[trigger] DICT_EN@[19].1@[k] == '{' ==> k == 36);
            assert(seq![36int][0] == 36);
            lemma_placeholders_of(DICT_EN@[19].1@, seq![36int], seq!["{err}"@]);
            assert(DICT_RU@[19].1@.subrange(35, 40) =~= "{err}"@);
            assert(is_placeholder("{err}"@));
            assert(forall|k: int| 0 <= k < DICT_RU@[19].1@.len() && #[trigger] DICT_RU@[19].1@[k] == '{' ==> k == 35);
            assert(seq![35int][0] == 35);
            lemma_placeholders_of(DICT_RU@[19].1@, seq![35int], seq!["{err}"@]);
        } else if i == 20 {
            lemma_placeholders_of(DICT_EN@[20].1@, Seq::<int>::empty(), Seq::<Seq<char>>::empty());
            lemma_placeholders_of(DICT_RU@[20].1@, Seq::<int>::empty(), Seq::<Seq<char>>::empty());
        } else if i == 21 {
            assert(DICT_EN@[21].1@.subrange(14, 18) =~= "{ms}"@);
            assert(is_placeholder("{ms}"@));
            assert(forall|k: int| 0 <= k < DICT_EN@[21].1@.len() && #[trigger] DICT_EN@[21].1@[k] == '{' ==> k == 14);
            assert(seq![14int][0] == 14);
            lemma_placeholders_of(DICT_EN@[21].1@, seq![14int], seq!["{ms}"@]);
            assert(DICT_RU@[21].1@.subrange(14, 18) =~= "{ms}"@);
            assert(is_placeholder("{ms}"@));
            assert(forall|k: int| 0 <= k < DICT_RU@[21].1@.len() && #[trigger] DICT_RU@[21].1@[k] == '{' ==> k == 14);
            assert(seq![14int][0] == 14);
            lemma_placeholders_of(DICT_RU@[21].1@, seq![14int], seq!["{ms}"@]);
        } else if i == 22 {
            lemma_placeholders_of(DICT_EN@[22].1@, Seq::<int>::empty(), Seq::<Seq<char>>::empty());
            lemma_placeholders_of(DICT_RU@[22].1@, Seq::<int>::empty(), Seq::<Seq<char>>::empty());
        } else {
            lemma_placeholders_of(DICT_EN@[23].1@, Seq::<int>::empty(), Seq::<Seq<char>>::empty());
            lemma_placeholders_of(DICT_RU@[23].1@, Seq::<int>::empty(), Seq::<Seq<char>>::empty());
        }
    }
}

proof fn lemma_dict_placeholders_2()
    ensures
        forall|i: int| 24 <= i < 36 ==> #[trigger] placeholders_agree(DICT_EN@[i].1@, DICT_RU@[i].1@),
{
    reveal_strlit("## Avatar for {user}");
    reveal_strlit("## NeutroBot Commands\nAvailable commands:");
    reveal_strlit("## Profile - {user}\n**ID:** {id}\n**Registered:** {registered}{joined}{roles}");
    reveal_strlit("## Аватар пользователя {user}");
    reveal_strlit("## Команды NeutroBot\nДоступные команды:");
    reveal_strlit("## Профиль - {user}\n**ID:** {id}\n**Зарегистрирован:** {registered}{joined}{roles}");
    reveal_strlit("**Basic**\n`!ping` `!rid` `!id` `!avatar` `!profile` `!aquote` `!help`");
    reveal_strlit("**Основные**\n`!ping` `!rid` `!id` `!avatar` `!profile` `!aquote` `!help`");
    reveal_strlit("Invalid language. Please use `ru` or `en`.");
    reveal_strlit("Role ID: `{id}`");
    reveal_strlit("Server language successfully changed to English.");
    reveal_strlit("Server language successfully changed to Russian.");
    reveal_strlit("User ID: `{id}`");
    reveal_strlit("\n**Joined Server:** {joined}");
    reveal_strlit("\n**Roles:** {count} roles hidden");
    reveal_strlit("\n**Roles:** {roles}");
    reveal_strlit("\n**На сервере с:** {joined}");
    reveal_strlit("\n**Роли:** {roles}");
    reveal_strlit("\n**Роли:** скрыто {count}");
    reveal_strlit("{count}");
    reveal_strlit("{id}");
    reveal_strlit("{joined}");
    reveal_strlit("{registered}");
    reveal_strlit("{roles}");
    reveal_strlit("{user}");
    reveal_strlit("Неверный язык. Используй `ru` или `en`.");
    reveal_strlit("Язык сервера успешно изменен на английский.");
    reveal_strlit("Язык сервера успешно изменен на русский.");
    assert forall|i: int| 24 <= i < 36 implies #[trigger] placeholders_agree(DICT_EN@[i].1@, DICT_RU@[i].1@) by {
        if i == 24 {
            lemma_placeholders_of(DICT_EN@[24].1@, Seq::<int>::empty(), Seq::<Seq<char>>::empty());
            lemma_placeholders_of(DICT_RU@[24].1@, Seq::<int>::empty(), Seq::<Seq<char>>::empty());
        } else if i == 25 {
            lemma_placeholders_of(DICT_EN@[25].1@, Seq::<int>::empty(), Seq::<Seq<char>>::empty());
            lemma_placeholders_of(DICT_RU@[25].1@, Seq::<int>::empty(), Seq::<Seq<char>>::empty());
        } else if i == 26 {
            lemma_placeholders_of(DICT_EN@[26].1@, Seq::<int>::empty(), Seq::<Seq<char>>::empty());
            lemma_placeholders_of(DICT_RU@[26].1@, Seq::<int>::empty(), Seq::<Seq<char>>::empty());
        } else if i == 27 {
            assert(DICT_EN@[27].1@.subrange(10, 14) =~= "{id}"@);
            assert(is_placeholder("{id}"@));
            assert(forall|k: int| 0 <= k < DICT_EN@[27].1@.len() && #[trigger] DICT_EN@[27].1@[k] == '{' ==> k == 10);
            assert(seq![10int][0] == 10);
            lemma_placeholders_of(DICT_EN@[27].1@, seq![10int], seq!["{id}"@]);
            assert(DICT_RU@[27].1@.subrange(10, 14) =~= "{id}"@);
            assert(is_placeholder("{id}"@));
            assert(forall|k: int| 0 <= k < DICT_RU@[27].1@.len() && #[trigger] DICT_RU@[27].1@[k] == '{' ==> k == 10);
            assert(seq![10int][0] == 10);
            lemma_placeholders_of(DICT_RU@[27].1@, seq![10int], seq!["{id}"@]);
        } else if i == 28 {
            assert(DICT_EN@[28].1@.subrange(10, 14) =~= "{id}"@);
            assert(is_placeholder("{id}"@));
            assert(forall|k: int| 0 <= k < DICT_EN@[28].1@.len() && #[trigger] DICT_EN@[28].1@[k] == '{' ==> k == 10);
            assert(seq![10int][0] == 10);
            lemma_placeholders_of(DICT_EN@[28].1@, seq![10int], seq!["{id}"@]);
            assert(DICT_RU@[28].1@.subrange(10, 14) =~= "{id}"@);
            assert(is_placeholder("{id}"@));
            assert(forall|k: int| 0 <= k < DICT_RU@[28].1@.len() && #[trigger] DICT_RU@[28].1@[k] == '{' ==> k == 10);
            assert(seq![10int][0] == 10);
            lemma_placeholders_of(DICT_RU@[28].1@, seq![10int], seq!["{id}"@]);
        } else if i == 29 {
            assert(DICT_EN@[29].1@.subrange(14, 20) =~= "{user}"@);
            assert(is_placeholder("{user}"@));
            assert(forall|k: int| 0 <= k < DICT_EN@[29].1@.len() && #[trigger] DICT_EN@[29].1@[k] == '{' ==> k == 14);
            assert(seq![14int][0] == 14);
            lemma_placeholders_of(DICT_EN@[29].1@, seq![14int], seq!["{user}"@]);
            assert(DICT_RU@[29].1@.subrange(23, 29) =~= "{user}"@);
            assert(is_placeholder("{user}"@));
            assert(forall|k: int| 0 <= k < DICT_RU@[29].1@.len() && #[trigger] DICT_RU@[29].1@[k] == '{' ==> k == 23);
            assert(seq![23int][0] == 23);
            lemma_placeholders_of(DICT_RU@[29].1@, seq![23int], seq!["{user}"@]);
        } else if i == 30 {
            assert(DICT_EN@[30].1@.subrange(20, 28) =~= "{joined}"@);
            assert(is_placeholder("{joined}"@));
            assert(forall|k: int| 0 <= k < DICT_EN@[30].1@.len() && #[trigger] DICT_EN@[30].1@[k] == '{' ==> k == 20);
            assert(seq![20int][0] == 20);
            lemma_placeholders_of(DICT_EN@[30].1@, seq![20int], seq!["{joined}"@]);
            assert(DICT_RU@[30].1@.subrange(19, 27) =~= "{joined}"@);
            assert(is_placeholder("{joined}"@));
            assert(forall|k: int| 0 <= k < DICT_RU@[30].1@.len() && #[trigger] DICT_RU@[30].1@[k] == '{' ==> k == 19);
            assert(seq![19int][0] == 19);
            lemma_placeholders_of(DICT_RU@[30].1@, seq![19int], seq!["{joined}"@]);
        } else if i == 31 {
            assert(DICT_EN@[31].1@.subrange(12, 19) =~= "{roles}"@);
            assert(is_placeholder("{roles}"@));
            assert(forall|k: int| 0 <= k < DICT_EN@[31].1@.len() && #[trigger] DICT_EN@[31].1@[k] == '{' ==> k == 12);
            assert(seq![12int][0] == 12);
            lemma_placeholders_of(DICT_EN@[31].1@, seq![12int], seq!["{roles}"@]);
            assert(DICT_RU@[31].1@.subrange(11, 18) =~= "{roles}"@);
            assert(is_placeholder("{roles}"@));
            assert(forall|k: int| 0 <= k < DICT_RU@[31].1@.len() && #[trigger] DICT_RU@[31].1@[k] == '{' ==> k == 11);
            assert(seq![11int][0] == 11);
            lemma_placeholders_of(DICT_RU@[31].1@, seq![11int], seq!["{roles}"@]);
        } else if i == 32 {
            assert(DICT_EN@[32].1@.subrange(12, 19) =~= "{count}"@);
            assert(is_placeholder("{count}"@));
            assert(forall|k: int| 0 <= k < DICT_EN@[32].1@.len() && #[trigger] DICT_EN@[32].1@[k] == '{' ==> k == 12);
            assert(seq![12int][0] == 12);
            lemma_placeholders_of(DICT_EN@[32].1@, seq![12int], seq!["{count}"@]);
            assert(DICT_RU@[32].1@.subrange(18, 25) =~= "{count}"@);
            assert(is_placeholder("{count}"@));
            assert(forall|k: int| 0 <= k < DICT_RU@[32].1@.len() && #[trigger] DICT_RU@[32].1@[k] == '{' ==> k == 18);
            assert(seq![18int][0] == 18);
            lemma_placeholders_of(DICT_RU@[32].1@, seq![18int], seq!["{count}"@]);
        } else if i == 33 {
            assert(DICT_EN@[33].1@.subrange(13, 19) =~= "{user}"@);
            assert(is_placeholder("{user}"@));
            assert(DICT_EN@[33].1@.subrange(28, 32) =~= "{id}"@);
            assert(is_placeholder("{id}"@));
            assert(DICT_EN@[33].1@.subrange(49, 61) =~= "{registered}"@);
            assert(is_placeholder("{registered}"@));
            assert(DICT_EN@[33].1@.subrange(61, 69) =~= "{joined}"@);
            assert(is_placeholder("{joined}"@));
            assert(DICT_EN@[33].1@.subrange(69, 76) =~= "{roles}"@);
            assert(is_placeholder("{roles}"@));
            assert(forall|k: int| 0 <= k < DICT_EN@[33].1@.len() && #[trigger] DICT_EN@[33].1@[k] == '{' ==> k == 13 || k == 28 || k == 49 || k == 61 || k == 69);
            assert(seq![13int, 28int, 49int, 61int, 69int][0] == 13 && seq![13int, 28int, 49int, 61int, 69int][1] == 28 && seq![13int, 28int, 49int, 61int, 69int][2] == 49 && seq![13int, 28int, 49int, 61int, 69int][3] == 61 && seq![13int, 28int, 49int, 61int, 69int][4] == 69);
            lemma_placeholders_of(DICT_EN@[33].1@, seq![13int, 28int, 49int, 61int, 69int], seq!["{user}"@, "{id}"@, "{registered}"@, "{joined}"@, "{roles}"@]);
            assert(DICT_RU@[33].1@.subrange(13, 19) =~= "{user}"@);
            assert(is_placeholder("{user}"@));
            assert(DICT_RU@[33].1@.subrange(28, 32) =~= "{id}"@);
            assert(is_placeholder("{id}"@));
            assert(DICT_RU@[33].1@.subrange(54, 66) =~= "{registered}"@);
            assert(is_placeholder("{registered}"@));
            assert(DICT_RU@[33].1@.subrange(66, 74) =~= "{joined}"@);
            assert(is_placeholder("{joined}"@));
            assert(DICT_RU@[33].1@.subrange(74, 81) =~= "{roles}"@);
            assert(is_placeholder("{roles}"@));
            assert(forall|k: int| 0 <= k < DICT_RU@[33].1@.len() && #[trigger] DICT_RU@[33].1@[k] == '{' ==> k == 13 || k == 28 || k == 54 || k == 66 || k == 74);
            assert(seq![13int, 28int, 54int, 66int, 74int][0] == 13 && seq![13int, 28int, 54int, 66int, 74int][1] == 28 && seq![13int, 28int, 54int, 66int, 74int][2] == 54 && seq![13int, 28int, 54int, 66int, 74int][3] == 66 && seq![13int, 28int, 54int, 66int, 74int][4] == 74);
            lemma_placeholders_of(DICT_RU@[33].1@, seq![13int, 28int, 54int, 66int, 74int], seq!["{user}"@, "{id}"@, "{registered}"@, "{joined}"@, "{roles}"@]);
        } else if i == 34 {
            lemma_placeholders_of(DICT_EN@[34].1@, Seq::<int>::empty(), Seq::<Seq<char>>::empty());
            lemma_placeholders_of(DICT_RU@[34].1@, Seq::<int>::empty(), Seq::<Seq<char>>::empty());
        } else {
            lemma_placeholders_of(DICT_EN@[35].1@, Seq::<int>::empty(), Seq::<Seq<char>>::empty());
            lemma_placeholders_of(DICT_RU@[35].1@, Seq::<int>::empty(), Seq::<Seq<char>>::empty());
        }
    }
}

proof fn lemma_dict_placeholders_3()
    ensures
        forall|i: int| 36 <= i < 48 ==> #[trigger] placeholders_agree(DICT_EN@[i].1@, DICT_RU@[i].1@),
{
    reveal_strlit("**Moderation**\n`!kick` `!ban` `!mute` `!tempmute` `!unmute` `!clear` `!role` `!announce` `!eannounce` `!sticky` `!dsticky`\n`!stream` `!ar` `!pvoice`");
    reveal_strlit("**Sticky Message Setup**\nSend the next message with text and/or an image. It will be saved as the sticky message for this channel.");
    reveal_strlit("**Модерация**\n`!kick` `!ban` `!mute` `!tempmute` `!unmute` `!clear` `!role` `!announce` `!eannounce` `!sticky` `!dsticky`\n`!stream` `!ar` `!pvoice`");
    reveal_strlit("**Настройка Sticky Message**\nОтправь следующим сообщением текст и/или картинку. Это сообщение будет сохранено как sticky для канала.");
    reveal_strlit("Assigned Private Voice role to <@{user_id}>");
    reveal_strlit("Auto-role is not configured. Example: `!ar @Role`");
    reveal_strlit("Auto-role set to @{role}");
    reveal_strlit("Auto-role не установлен. Пример: `!ar @Role`");
    reveal_strlit("Auto-role установлен: @{role}");
    reveal_strlit("Current auto-role ID: {role_id}");
    reveal_strlit("Failed to add role: {err}");
    reveal_strlit("No sticky message is configured for this channel.");
    reveal_strlit("Provide text. Example: `!aquote #2B2D31 hello`");
    reveal_strlit("Sticky message removed.");
    reveal_strlit("Sticky-сообщение удалено.");
    reveal_strlit("Text is required after the color.");
    reveal_strlit("This command can only be used in a server.");
    reveal_strlit("{err}");
    reveal_strlit("{role_id}");
    reveal_strlit("{role}");
    reveal_strlit("{user_id}");
    reveal_strlit("В этом канале sticky-сообщение не найдено.");
    reveal_strlit("Выдана роль Private Voice пользователю <@{user_id}>");
    reveal_strlit("Команда доступна только на сервере.");
    reveal_strlit("Не удалось выдать роль: {err}");
    reveal_strlit("После цвета нужен текст.");
    reveal_strlit("Текущий auto-role ID: {role_id}");
    reveal_strlit("Укажи текст. Пример: `!aquote #2B2D31 hello`");
    assert forall|i: int| 36 <= i < 48 implies #[trigger] placeholders_agree(DICT_EN@[i].1@, DICT_RU@[i].1@) by {
        if i == 36 {
            lemma_placeholders_of(DICT_EN@[36].1@, Seq::<int>::empty(), Seq::<Seq<char>>::empty());
            lemma_placeholders_of(DICT_RU@[36].1@, Seq::<int>::empty(), Seq::<Seq<char>>::empty());
        } else if i == 37 {
            lemma_placeholders_of(DICT_EN@[37].1@, Seq::<int>::empty(), Seq::<Seq<char>>::empty());
            lemma_placeholders_of(DICT_RU@[37].1@, Seq::<int>::empty(), Seq::<Seq<char>>::empty());
        } else if i == 38 {
            lemma_placeholders_of(DICT_EN@[38].1@, Seq::<int>::empty(), Seq::<Seq<char>>::empty());
            lemma_placeholders_of(DICT_RU@[38].1@, Seq::<int>::empty(), Seq::<Seq<char>>::empty());
        } else if i == 39 {
            lemma_placeholders_of(DICT_EN@[39].1@, Seq::<int>::empty(), Seq::<Seq<char>>::empty());
            lemma_placeholders_of(DICT_RU@[39].1@, Seq::<int>::empty(), Seq::<Seq<char>>::empty());
        } else if i == 40 {
            lemma_placeholders_of(DICT_EN@[40].1@, Seq::<int>::empty(), Seq::<Seq<char>>::empty());
            lemma_placeholders_of(DICT_RU@[40].1@, Seq::<int>::empty(), Seq::<Seq<char>>::empty());
        } else if i == 41 {
            lemma_placeholders_of(DICT_EN@[41].1@, Seq::<int>::empty(), Seq::<Seq<char>>::empty());
            lemma_placeholders_of(DICT_RU@[41].1@, Seq::<int>::empty(), Seq::<Seq<char>>::empty());
        } else if i == 42 {
            assert(DICT_EN@[42].1@.subrange(18, 24) =~= "{role}"@);
            assert(is_placeholder("{role}"@));
            assert(forall|k: int| 0 <= k < DICT_EN@[42].1@.len() && #[trigger] DICT_EN@[42].1@[k] == '{' ==> k == 18);
            assert(seq![18int][0] == 18);
            lemma_placeholders_of(DICT_EN@[42].1@, seq![18int], seq!["{role}"@]);
            assert(DICT_RU@[42].1@.subrange(23, 29) =~= "{role}"@);
            assert(is_placeholder("{role}"@));
            assert(forall|k: int| 0 <= k < DICT_RU@[42].1@.len() && #[trigger] DICT_RU@[42].1@[k] == '{' ==> k == 23);
            assert(seq![23int][0] == 23);
            lemma_placeholders_of(DICT_RU@[42].1@, seq![23int], seq!["{role}"@]);
        } else if i == 43 {
            assert(DICT_EN@[43].1@.subrange(22, 31) =~= "{role_id}"@);
            assert(is_placeholder("{role_id}"@));
            assert(forall|k: int| 0 <= k < DICT_EN@[43].1@.len() && #[trigger] DICT_EN@[43].1@[k] == '{' ==> k == 22);
            assert(seq![22int][0] == 22);
            lemma_placeholders_of(DICT_EN@[43].1@, seq![22int], seq!["{role_id}"@]);
            assert(DICT_RU@[43].1@.subrange(22, 31) =~= "{role_id}"@);
            assert(is_placeholder("{role_id}"@));
            assert(forall|k: int| 0 <= k < DICT_RU@[43].1@.len() && #[trigger] DICT_RU@[43].1@[k] == '{' ==> k == 22);
            assert(seq![22int][0] == 22);
            lemma_placeholders_of(DICT_RU@[43].1@, seq![22int], seq!["{role_id}"@]);
        } else if i == 44 {
            lemma_placeholders_of(DICT_EN@[44].1@, Seq::<int>::empty(), Seq::<Seq<char>>::empty());
            lemma_placeholders_of(DICT_RU@[44].1@, Seq::<int>::empty(), Seq::<Seq<char>>::empty());
        } else if i == 45 {
            lemma_placeholders_of(DICT_EN@[45].1@, Seq::<int>::empty(), Seq::<Seq<char>>::empty());
            lemma_placeholders_of(DICT_RU@[45].1@, Seq::<int>::empty(), Seq::<Seq<char>>::empty());
        } else if i == 46 {
            assert(DICT_EN@[46].1@.subrange(33, 42) =~= "{user_id}"@);
            assert(is_placeholder("{user_id}"@));
            assert(forall|k: int| 0 <= k < DICT_EN@[46].1@.len() && #[trigger] DICT_EN@[46].1@[k] == '{' ==> k == 33);
            assert(seq![33int][0] == 33);
            lemma_placeholders_of(DICT_EN@[46].1@, seq![33int], seq!["{user_id}"@]);
            assert(DICT_RU@[46].1@.subrange(41, 50) =~= "{user_id}"@);
            assert(is_placeholder("{user_id}"@));
            assert(forall|k: int| 0 <= k < DICT_RU@[46].1@.len() && #[trigger] DICT_RU@[46].1@[k] == '{' ==> k == 41);
            assert(seq![41int][0] == 41);
            lemma_placeholders_of(DICT_RU@[46].1@, seq![41int], seq!["{user_id}"@]);
        } else {
            assert(DICT_EN@[47].1@.subrange(20, 25) =~= "{err}"@);
            assert(is_placeholder("{err}"@));
            assert(forall|k: int| 0 <= k < DICT_EN@[47].1@.len() && #[trigger] DICT_EN@[47].1@[k] == '{' ==> k == 20);
            assert(seq![20int][0] == 20);
            lemma_placeholders_of(DICT_EN@[47].1@, seq![20int], seq!["{err}"@]);
            assert(DICT_RU@[47].1@.subrange(24, 29) =~= "{err}"@);
            assert(is_placeholder("{err}"@));
            assert(forall|k: int| 0 <= k < DICT_RU@[47].1@.len() && #[trigger] DICT_RU@[47].1@[k] == '{' ==> k == 24);
            assert(seq![24int][0] == 24);
            lemma_placeholders_of(DICT_RU@[47].1@, seq![24int], seq!["{err}"@]);
        }
    }
}

proof fn lemma_dict_placeholders_4()
    ensures
        forall|i: int| 48 <= i < 57 ==> #[trigger] placeholders_agree(DICT_EN@[i].1@, DICT_RU@[i].1@),
{
    reveal_strlit("<@&{role_id}> {user} started a stream. Watch here: {link}");
    reveal_strlit("<@&{role_id}> {user} запустил(а) стрим. Ссылка: {link}");
    reveal_strlit("Added role {role} to {user}");
    reveal_strlit("Announcement sent.");
    reveal_strlit("Failed to add role: {err}");
    reveal_strlit("Failed to clear messages: {err}");
    reveal_strlit("Failed to remove role: {err}");
    reveal_strlit("No reason provided");
    reveal_strlit("Removed role {role} from {user}");
    reveal_strlit("This command can only be used in a server.");
    reveal_strlit("{err}");
    reveal_strlit("{link}");
    reveal_strlit("{role_id}");
    reveal_strlit("{role}");
    reveal_strlit("{user}");
    reveal_strlit("Анонс отправлен.");
    reveal_strlit("Выдал роль {role} пользователю {user}");
    reveal_strlit("Команда доступна только на сервере.");
    reveal_strlit("Не удалось выдать роль: {err}");
    reveal_strlit("Не удалось снять роль: {err}");
    reveal_strlit("Не удалось удалить сообщения: {err}");
    reveal_strlit("Причина не указана");
    reveal_strlit("Снял роль {role} с {user}");
    assert forall|i: int| 48 <= i < 57 implies #[trigger] placeholders_agree(DICT_EN@[i].1@, DICT_RU@[i].1@) by {
        if i == 48 {
            lemma_placeholders_of(DICT_EN@[48].1@, Seq::<int>::empty(), Seq::<Seq<char>>::empty());
            lemma_placeholders_of(DICT_RU@[48].1@, Seq::<int>::empty(), Seq::<Seq<char>>::empty());
        } else if i == 49 {
            lemma_placeholders_of(DICT_EN@[49].1@, Seq::<int>::empty(), Seq::<Seq<char>>::empty());
            lemma_placeholders_of(DICT_RU@[49].1@, Seq::<int>::empty(), Seq::<Seq<char>>::empty());
        } else if i == 50 {
            assert(DICT_EN@[50].1@.subrange(26, 31) =~= "{err}"@);
            assert(is_placeholder("{err}"@));
            assert(forall|k: int| 0 <= k < DICT_EN@[50].1@.len() && #[trigger] DICT_EN@[50].1@[k] == '{' ==> k == 26);
            assert(seq![26int][0] == 26);
            lemma_placeholders_of(DICT_EN@[50].1@, seq![26int], seq!["{err}"@]);
            assert(DICT_RU@[50].1@.subrange(30, 35) =~= "{err}"@);
            assert(is_placeholder("{err}"@));
            assert(forall|k: int| 0 <= k < DICT_RU@[50].1@.len() && #[trigger] DICT_RU@[50].1@[k] == '{' ==> k == 30);
            assert(seq![30int][0] == 30);
            lemma_placeholders_of(DICT_RU@[50].1@, seq![30int], seq!["{err}"@]);
        } else if i == 51 {
            assert(DICT_EN@[51].1@.subrange(23, 28) =~= "{err}"@);
            assert(is_placeholder("{err}"@));
            assert(forall|k: int| 0 <= k < DICT_EN@[51].1@.len() && #[trigger] DICT_EN@[51].1@[k] == '{' ==> k == 23);
            assert(seq![23int][0] == 23);
            lemma_placeholders_of(DICT_EN@[51].1@, seq![23int], seq!["{err}"@]);
            assert(DICT_RU@[51].1@.subrange(23, 28) =~= "{err}"@);
            assert(is_placeholder("{err}"@));
            assert(forall|k: int| 0 <= k < DICT_RU@[51].1@.len() && #[trigger] DICT_RU@[51].1@[k] == '{' ==> k == 23);
            assert(seq![23int][0] == 23);
            lemma_placeholders_of(DICT_RU@[51].1@, seq![23int], seq!["{err}"@]);
        } else if i == 52 {
            assert(DICT_EN@[52].1@.subrange(13, 19) =~= "{role}"@);
            assert(is_placeholder("{role}"@));
            assert(DICT_EN@[52].1@.subrange(25, 31) =~= "{user}"@);
            assert(is_placeholder("{user}"@));
            assert(forall|k: int| 0 <= k < DICT_EN@[52].1@.len() && #[trigger] DICT_EN@[52].1@[k] == '{' ==> k == 13 || k == 25);
            assert(seq![13int, 25int][0] == 13 && seq![13int, 25int][1] == 25);
            lemma_placeholders_of(DICT_EN@[52].1@, seq![13int, 25int], seq!["{role}"@, "{user}"@]);
            assert(DICT_RU@[52].1@.subrange(10, 16) =~= "{role}"@);
            assert(is_placeholder("{role}"@));
            assert(DICT_RU@[52].1@.subrange(19, 25) =~= "{user}"@);
            assert(is_placeholder("{user}"@));
            assert(forall|k: int| 0 <= k < DICT_RU@[52].1@.len() && #[trigger] DICT_RU@[52].1@[k] == '{' ==> k == 10 || k == 19);
            assert(seq![10int, 19int][0] == 10 && seq![10int, 19int][1] == 19);
            lemma_placeholders_of(DICT_RU@[52].1@, seq![10int, 19int], seq!["{role}"@, "{user}"@]);
        } else if i == 53 {
            assert(DICT_EN@[53].1@.subrange(20, 25) =~= "{err}"@);
            assert(is_placeholder("{err}"@));
            assert(forall|k: int| 0 <= k < DICT_EN@[53].1@.len() && #[trigger] DICT_EN@[53].1@[k] == '{' ==> k == 20);
            assert(seq![20int][0] == 20);
            lemma_placeholders_of(DICT_EN@[53].1@, seq![20int], seq!["{err}"@]);
            assert(DICT_RU@[53].1@.subrange(24, 29) =~= "{err}"@);
            assert(is_placeholder("{err}"@));
            assert(forall|k: int| 0 <= k < DICT_RU@[53].1@.len() && #[trigger] DICT_RU@[53].1@[k] == '{' ==> k == 24);
            assert(seq![24int][0] == 24);
            lemma_placeholders_of(DICT_RU@[53].1@, seq![24int], seq!["{err}"@]);
        } else if i == 54 {
            assert(DICT_EN@[54].1@.subrange(11, 17) =~= "{role}"@);
            assert(is_placeholder("{role}"@));
            assert(DICT_EN@[54].1@.subrange(21, 27) =~= "{user}"@);
            assert(is_placeholder("{user}"@));
            assert(forall|k: int| 0 <= k < DICT_EN@[54].1@.len() && #[trigger] DICT_EN@[54].1@[k] == '{' ==> k == 11 || k == 21);
            assert(seq![11int, 21int][0] == 11 && seq![11int, 21int][1] == 21);
            lemma_placeholders_of(DICT_EN@[54].1@, seq![11int, 21int], seq!["{role}"@, "{user}"@]);
            assert(DICT_RU@[54].1@.subrange(11, 17) =~= "{role}"@);
            assert(is_placeholder("{role}"@));
            assert(DICT_RU@[54].1@.subrange(31, 37) =~= "{user}"@);
            assert(is_placeholder("{user}"@));
            assert(forall|k: int| 0 <= k < DICT_RU@[54].1@.len() && #[trigger] DICT_RU@[54].1@[k] == '{' ==> k == 11 || k == 31);
            assert(seq![11int, 31int][0] == 11 && seq![11int, 31int][1] == 31);
            lemma_placeholders_of(DICT_RU@[54].1@, seq![11int, 31int], seq!["{role}"@, "{user}"@]);
        } else if i == 55 {
            lemma_placeholders_of(DICT_EN@[55].1@, Seq::<int>::empty(), Seq::<Seq<char>>::empty());
            lemma_placeholders_of(DICT_RU@[55].1@, Seq::<int>::empty(), Seq::<Seq<char>>::empty());
        } else {
            assert(DICT_EN@[56].1@.subrange(3, 12) =~= "{role_id}"@);
            assert(is_placeholder("{role_id}"@));
            assert(DICT_EN@[56].1@.subrange(14, 20) =~= "{user}"@);
            assert(is_placeholder("{user}"@));
            assert(DICT_EN@[56].1@.subrange(51, 57) =~= "{link}"@);
            assert(is_placeholder("{link}"@));
            assert(forall|k: int| 0 <= k < DICT_EN@[56].1@.len() && #[trigger] DICT_EN@[56].1@[k] == '{' ==> k == 3 || k == 14 || k == 51);
            assert(seq![3int, 14int, 51int][0] == 3 && seq![3int, 14int, 51int][1] == 14 && seq![3int, 14int, 51int][2] == 51);
            lemma_placeholders_of(DICT_EN@[56].1@, seq![3int, 14int, 51int], seq!["{role_id}"@, "{user}"@, "{link}"@]);
            assert(DICT_RU@[56].1@.subrange(3, 12) =~= "{role_id}"@);
            assert(is_placeholder("{role_id}"@));
            assert(DICT_RU@[56].1@.subrange(14, 20) =~= "{user}"@);
            assert(is_placeholder("{user}"@));
            assert(DICT_RU@[56].1@.subrange(48, 54) =~= "{link}"@);
            assert(is_placeholder("{link}"@));
            assert(forall|k: int| 0 <= k < DICT_RU@[56].1@.len() && #[trigger] DICT_RU@[56].1@[k] == '{' ==> k == 3 || k == 14 || k == 48);
            assert(seq![3int, 14int, 48int][0] == 3 && seq![3int, 14int, 48int][1] == 14 && seq![3int, 14int, 48int][2] == 48);
            lemma_placeholders_of(DICT_RU@[56].1@, seq![3int, 14int, 48int], seq!["{role_id}"@, "{user}"@, "{link}"@]);
        }
    }
}

proof fn lemma_lookup_placeholders(
    t1: Seq<(&'static str, &'static str)>,
    t2: Seq<(&'static str, &'static str)>,
    key: Seq<char>,
)
    requires
        t1.len() == t2.len(),
        forall|i: int| 0 <= i < t1.len() ==> #[trigger] t1[i].0@ == t2[i].0@,
        forall|i: int| 0 <= i < t1.len() ==> #[trigger] placeholders_agree(t1[i].1@, t2[i].1@),
    ensures
        match (lookup_spec(t1, key), lookup_spec(t2, key)) {
            (Some(a), Some(b)) => placeholders_agree(a, b),
            (None, None) => true,
            _ => false,
        },
    decreases t1.len(),
{
    if t1.len() > 0 {
        assert(t1[0].0@ == t2[0].0@);
        assert(placeholders_agree(t1[0].1@, t2[0].1@));
        assert forall|i: int| 0 <= i < t1.drop_first().len() implies #[trigger] t1.drop_first()[i].0@
            == t2.drop_first()[i].0@ by {
            assert(t1[i + 1].0@ == t2[i + 1].0@);
        }
        assert forall|i: int| 0 <= i < t1.drop_first().len() implies #[trigger] placeholders_agree(
            t1.drop_first()[i].1@,
            t2.drop_first()[i].1@,
        ) by {
            assert(placeholders_agree(t1[i + 1].1@, t2[i + 1].1@));
        }
        lemma_lookup_placeholders(t1.drop_first(), t2.drop_first(), key);
    }
}

/// The English and Russian texts of every terminal key hold the same placeholders (`{err}`,
/// `{flag}`, `{channel}`, and every other `{name}`), so filling one fills the other alike.
pub proof fn law_terminal_placeholders_agree(lang: Seq<char>, key: Seq<char>, p: Seq<char>)
    requires
        is_placeholder(p),
    ensures
        contains_spec(terminal_text_spec("en"@, key), p) == contains_spec(terminal_text_spec(lang, key), p),
{
    lemma_terminal_placeholders_0();
    lemma_terminal_placeholders_1();
    lemma_terminal_placeholders_2();
    lemma_terminal_placeholders_3();
    lemma_terminal_placeholders_4();
    lemma_terminal_placeholders_5();
    lemma_terminal_placeholders_6();
    lemma_terminal_placeholders_7();
    lemma_terminal_placeholders_8();
    assert(TERMINAL_EN@.len() == 108 && TERMINAL_RU@.len() == 108);
    assert forall|i: int| 0 <= i < TERMINAL_EN@.len() implies #[trigger] TERMINAL_EN@[i].0@ == TERMINAL_RU@[i].0@ by {}
    assert forall|i: int| 0 <= i < TERMINAL_EN@.len() implies #[trigger] placeholders_agree(
        TERMINAL_EN@[i].1@,
        TERMINAL_RU@[i].1@,
    ) by {}
    lemma_lookup_placeholders(TERMINAL_EN@, TERMINAL_RU@, key);
}

/// The English and Russian messages of every key hold the same placeholders (`{user}`,
/// `{reason}`, and every other `{name}`), in every language a server can choose.
pub proof fn law_dictionary_placeholders_agree(lang: Seq<char>, key: Seq<char>, p: Seq<char>)
    requires
        is_placeholder(p),
    ensures
        contains_spec(translate_spec("en"@, key), p) == contains_spec(translate_spec(lang, key), p),
{
    lemma_dict_placeholders_0();
    lemma_dict_placeholders_1();
    lemma_dict_placeholders_2();
    lemma_dict_placeholders_3();
    lemma_dict_placeholders_4();
    assert forall|i: int| 0 <= i < 57 implies #[trigger] DICT_EN@[i].0@ == DICT_RU@[i].0@ by {}
    assert forall|i: int| 0 <= i < 57 implies #[trigger] placeholders_agree(DICT_EN@[i].1@, DICT_RU@[i].1@) by {}
    lemma_lookup_placeholders(DICT_EN@, DICT_RU@, key);
}

/// The terminal's `role` command gives the member named by its second argument the role
/// named by its first; when either argument reads as no id, it answers with the error.
pub proof fn law_terminal_role_gives_first_to_second(lang: Seq<char>, content: Seq<char>)
    requires
        words_spec(content).len() >= 3,
        lowercase_of(words_spec(content)[0]) == "role"@,
    ensures
        ({
            let parts = words_spec(content);
            let role = id_or_zero(parts[1]);
            let member = id_or_zero(parts[2]);
            &&& role != 0 && member != 0 ==> terminal_plan_spec(lang, content, true, true)
                == TerminalActionView::AssignRole { role_id: role, user_id: member }
            &&& (role == 0 || member == 0) ==> terminal_plan_spec(lang, content, true, true)
                == TerminalActionView::Reply("`[Terminal] Error: Invalid IDs`"@)
        }),
{
    reveal_strlit("role");
    reveal_strlit("wl");
    reveal_strlit("ap");
    reveal_strlit("fetch");
    reveal_strlit("flag");
    reveal_strlit("echo");
    reveal_strlit("touch");
    reveal_strlit("mkdir");
    reveal_strlit("rm");
    reveal_strlit("mv");
    let parts = words_spec(content);
    let cmd = lowercase_of(parts[0]);
    assert(cmd.len() == 4 && cmd[0] == 'r');
    assert("wl"@.len() == 2 && "ap"@.len() == 2 && "rm"@.len() == 2 && "mv"@.len() == 2);
    assert("fetch"@.len() == 5 && "touch"@.len() == 5 && "mkdir"@.len() == 5);
    assert("flag"@[0] == 'f' && "echo"@[0] == 'e');
    assert(cmd != "wl"@ && cmd != "ap"@ && cmd != "fetch"@ && cmd != "flag"@);
    assert(cmd != "echo"@ && cmd != "touch"@ && cmd != "mkdir"@ && cmd != "rm"@ && cmd != "mv"@);
    assert(terminal_plan_spec(lang, content, true, true) == crate::terminal::id_command_plan(lang, cmd, parts));
}

/// The starboard posts a message exactly when its stars reach the server's own threshold:
/// with a starboard channel set, the step is to post there when the count is at least the
/// threshold and to go on otherwise; with none set, it stops.
pub proof fn law_starboard_posts_at_threshold(s: GuildSettingsView, count: u64)
    ensures
        s.starboard_channel_id is None ==> starboard_step_spec(s, count) == StarboardStep::Stop,
        s.starboard_channel_id matches Some(c) ==> (starboard_step_spec(s, count)
            == StarboardStep::Post(c) <==> count >= s.starboard_threshold),
        s.starboard_channel_id is Some && count < s.starboard_threshold ==> starboard_step_spec(s, count)
            == StarboardStep::Continue,
{
}

/// With AI replies on, a tag posted in the server's AI channel (or anywhere, where none is
/// set) is answered, never pointed elsewhere: the plan asks for a question when nothing but
/// the tag is left, else the text without the tag is the question. A tag posted in another
/// channel than the AI channel is pointed to the AI channel.
pub proof fn law_mention_answered_in_ai_channel(
    store: Map<Seq<char>, GuildSettings>,
    guild: u64,
    channel: u64,
    content: Seq<char>,
    bot_id: u64,
)
    requires
        settings_at(store, guild_key(guild)).ai_enabled,
    ensures
        ({
            let s = settings_at(store, guild_key(guild));
            let q = stripped_mention_spec(content, bot_id);
            let plan = mention_plan_spec(store, Some(guild), true, channel, content, bot_id);
            &&& (s.ai_channel_id == Some(channel) || s.ai_channel_id is None) ==> plan == (if q.len()
                == 0 {
                MentionPlan::AskQuestion
            } else {
                MentionPlan::Generate(q)
            })
            &&& s.ai_channel_id matches Some(c) ==> (c != channel ==> plan == MentionPlan::Restricted(c))
        }),
{
}

/// The voice log names who acted: a member disconnected by another is logged with that
/// member's mention under "Action By", a member moved by another with it under "Moved By",
/// and only when no one is known does the entry read "Self/Unknown".
pub proof fn law_voice_log_names_actor(user: u64, c: u64, to: u64, actor: Option<u64>)
    ensures
        ({
            let by = match actor {
                Some(a) => "<@"@ + decimal_spec(a as nat) + ">"@,
                None => "Self/Unknown"@,
            };
            let who = "**User:** "@ + "<@"@ + decimal_spec(user as nat) + ">"@;
            &&& voice_log_spec(VoiceChange::Left(c), user, actor) is Some
            &&& (voice_log_spec(VoiceChange::Left(c), user, actor)->0).1 == who + "\n**Channel:** "@
                + "<#"@ + decimal_spec(c as nat) + ">"@ + "\n**Action By:** "@ + by
            &&& voice_log_spec(VoiceChange::Moved(c, to), user, actor) is Some
            &&& (voice_log_spec(VoiceChange::Moved(c, to), user, actor)->0).1 == who + "\n**From:** "@
                + "<#"@ + decimal_spec(c as nat) + ">"@ + "\n**To:** "@ + "<#"@ + decimal_spec(to as nat)
                + ">"@ + "\n**Moved By:** "@ + by
        }),
{
    let by = match actor {
        Some(a) => "<@"@ + decimal_spec(a as nat) + ">"@,
        None => "Self/Unknown"@,
    };
    let u = decimal_spec(user as nat);
    let cc = decimal_spec(c as nat);
    let tt = decimal_spec(to as nat);
    let who = "**User:** "@ + "<@"@ + u + ">"@;
    assert(who =~= "**User:** "@ + ("<@"@ + u + ">"@));
    assert((voice_log_spec(VoiceChange::Left(c), user, actor)->0).1 =~= who + "\n**Channel:** "@
        + "<#"@ + cc + ">"@ + "\n**Action By:** "@ + by);
    assert((voice_log_spec(VoiceChange::Moved(c, to), user, actor)->0).1 =~= who + "\n**From:** "@
        + "<#"@ + cc + ">"@ + "\n**To:** "@ + "<#"@ + tt + ">"@ + "\n**Moved By:** "@ + by);
}

/// Setting one role or channel of a server writes that field alone: afterwards the server
/// reads the new id in the named field and every other setting (the other ids, language,
/// starboard channel and threshold, AI settings) as it was.
pub proof fn law_set_id_writes_only_its_field(
    old: Map<Seq<char>, GuildSettings>,
    new: Map<Seq<char>, GuildSettings>,
    guild: u64,
    field: IdSetting,
    id: Option<u64>,
)
    requires
        stored_as(old, new, guild_key(guild), with_id(settings_at(old, guild_key(guild)), field, id)),
    ensures
        ({
            let before = settings_at(old, guild_key(guild));
            let after = settings_at(new, guild_key(guild));
            &&& after.staff_role_id == if field is StaffRole { id } else { before.staff_role_id }
            &&& after.stream_ping_role_id == if field is StreamRole { id } else { before.stream_ping_role_id }
            &&& after.private_voice_role_id == if field is PrivateVoiceRole { id } else { before.private_voice_role_id }
            &&& after.auto_role_id == if field is AutoRole { id } else { before.auto_role_id }
            &&& after.log_channel_id == if field is LogChannel { id } else { before.log_channel_id }
            &&& after.terminal_channel_id == if field is TerminalChannel { id } else { before.terminal_channel_id }
            &&& after.language == before.language
            &&& after.starboard_channel_id == before.starboard_channel_id
            &&& after.starboard_threshold == before.starboard_threshold
            &&& after.ai_enabled == before.ai_enabled
            &&& after.ai_channel_id == before.ai_channel_id
            &&& after.ai_model == before.ai_model
        }),
{
}

} // verus!
