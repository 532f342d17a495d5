//! Arguments and replies of the moderation commands: durations, templates and defaults.
use vstd::prelude::*;
use crate::text::{
    char_utf8_len, chars_of, decimal_spec, decimal_string, lowercase_chars, lowercase_of, owned,
    parse_i64_chars, parse_i64_spec, replace_spec, replace_str, trim_spec, trim_str,
    utf8_len_exceeds, concat2, take_prefix,
};

verus! {

/// The seconds in one unit of a duration: `s`, `m`, `h` or `d`.
pub open spec fn unit_seconds(c: char) -> Option<int> {
    if c == 's' {
        Some(1)
    } else if c == 'm' {
        Some(60)
    } else if c == 'h' {
        Some(3600)
    } else if c == 'd' {
        Some(86400)
    } else {
        None
    }
}

/// The number of bytes of the UTF-8 encoding of `v`.
pub open spec fn byte_len(v: Seq<char>) -> nat {
    vstd::utf8::encode_utf8(v).len()
}

/// A lower-cased, trimmed duration such as `30m`, `2h` or `1d`, in seconds: a positive whole
/// number followed by its unit. Anything shorter than two bytes is no duration.
pub open spec fn duration_spec(v: Seq<char>) -> Option<int> {
    if byte_len(v) < 2 {
        None
    } else {
        match parse_i64_spec(v.drop_last()) {
            Some(a) => if a <= 0 {
                None
            } else {
                match unit_seconds(v.last()) {
                    Some(m) => Some(a * m),
                    None => None,
                }
            },
            None => None,
        }
    }
}

/// The durations on which reading stops short: the last character takes more than one byte
/// (the split before it falls inside it), or the seconds do not fit in an `i64`.
pub open spec fn duration_fails(v: Seq<char>) -> bool {
    byte_len(v) >= 2 && (char_utf8_len(v.last()) > 1 || match duration_spec(v) {
        Some(s) => s > i64::MAX,
        None => false,
    })
}

proof fn lemma_byte_len_nonempty(v: Seq<char>)
    requires
        byte_len(v) >= 2,
    ensures
        v.len() > 0,
{
    if v.len() == 0 {
        assert(vstd::utf8::encode_utf8(v) =~= Seq::<u8>::empty());
    }
}

/// Reads a lower-cased, trimmed duration (see [`duration_spec`]).
pub fn duration_of(v: &[char]) -> (r: Option<i64>)
    requires
        !duration_fails(v@),
    ensures
        match r {
            Some(x) => duration_spec(v@) == Some(x as int),
            None => duration_spec(v@) is None,
        },
{
    if !utf8_len_exceeds(v, 1) {
        return None;
    }
    proof {
        lemma_byte_len_nonempty(v@);
    }
    let last = v[v.len() - 1];
    let amount_chars = take_prefix(v, v.len() - 1);
    assert(amount_chars@ =~= v@.drop_last());
    let amount = match parse_i64_chars(&amount_chars) {
        Some(a) => a,
        None => return None,
    };
    if amount <= 0 {
        return None;
    }
    let seconds: i64 = if last == 's' {
        1
    } else if last == 'm' {
        60
    } else if last == 'h' {
        3600
    } else if last == 'd' {
        86400
    } else {
        return None;
    };
    Some(amount * seconds)
}

/// Whether reading a duration typed by a user stops short (see [`duration_fails`]).
pub open spec fn input_fails(input: Seq<char>) -> bool {
    duration_fails(lowercase_of(trim_spec(input)))
}

/// Reads a duration typed by a user: trimmed, lower-cased, then as [`duration_spec`] says.
pub fn parse_duration_to_secs(input: &str) -> (r: Option<i64>)
    requires
        !input_fails(input@),
    ensures
        match r {
            Some(x) => duration_spec(lowercase_of(trim_spec(input@))) == Some(x as int),
            None => duration_spec(lowercase_of(trim_spec(input@))) is None,
        },
{
    let t = trim_str(input);
    let tv = chars_of(t.as_str());
    let v = lowercase_chars(&tv);
    duration_of(&v)
}

/// Reads a duration typed by a user, and gives `None` instead where the reading would stop
/// short; otherwise `Some` of what [`parse_duration_to_secs`] gives.
pub fn checked_duration_secs(input: &str) -> (r: Option<Option<i64>>)
    ensures
        r is None <==> input_fails(input@),
        r matches Some(d) ==> match d {
            Some(x) => duration_spec(lowercase_of(trim_spec(input@))) == Some(x as int),
            None => duration_spec(lowercase_of(trim_spec(input@))) is None,
        },
{
    let t = trim_str(input);
    let tv = chars_of(t.as_str());
    let v = lowercase_chars(&tv);
    if utf8_len_exceeds(&v, 1) {
        proof {
            lemma_byte_len_nonempty(v@);
        }
        let last = v[v.len() - 1];
        if (last as u32) > 0x7f {
            return None;
        }
        let amount_chars = take_prefix(&v, v.len() - 1);
        assert(amount_chars@ =~= v@.drop_last());
        match parse_i64_chars(&amount_chars) {
            Some(a) => {
                if a > 0 {
                    let limit: i64 = if last == 's' {
                        i64::MAX
                    } else if last == 'm' {
                        i64::MAX / 60
                    } else if last == 'h' {
                        i64::MAX / 3600
                    } else if last == 'd' {
                        i64::MAX / 86400
                    } else {
                        i64::MAX
                    };
                    if a > limit {
                        return None;
                    }
                }
            },
            None => {},
        }
    }
    Some(parse_duration_to_secs(input))
}

/// `template` with each `(needle, value)` pair replaced in turn.
pub open spec fn fill_spec(template: Seq<char>, pairs: Seq<(Seq<char>, Seq<char>)>) -> Seq<char>
    decreases pairs.len(),
{
    if pairs.len() == 0 {
        template
    } else {
        replace_spec(fill_spec(template, pairs.drop_last()), pairs.last().0, pairs.last().1)
    }
}

/// The views of `(needle, value)` pairs.
pub open spec fn pair_views(pairs: Seq<(&str, &str)>) -> Seq<(Seq<char>, Seq<char>)> {
    pairs.map_values(|p: (&str, &str)| (p.0@, p.1@))
}

/// Fills the placeholders of a message template.
pub fn fill_text(template: String, replacements: &[(&str, &str)]) -> (r: String)
    ensures
        r@ == fill_spec(template@, pair_views(replacements@)),
{
    let mut text = template;
    let mut i: usize = 0;
    while i < replacements.len()
        invariant
            i <= replacements@.len(),
            text@ == fill_spec(template@, pair_views(replacements@.take(i as int))),
        decreases replacements@.len() - i,
    {
        assert(pair_views(replacements@.take(i + 1)).drop_last() =~= pair_views(
            replacements@.take(i as int),
        ));
        let (needle, value) = replacements[i];
        text = replace_str(text.as_str(), needle, value);
        i = i + 1;
    }
    assert(replacements@.take(replacements@.len() as int) =~= replacements@);
    text
}

/// The reason recorded when a moderator gives none.
pub fn reason_or_default(reason: Option<String>) -> (r: String)
    ensures
        reason matches Some(x) ==> r == x,
        reason is None ==> r@ == "No reason provided"@,
{
    match reason {
        Some(x) => x,
        None => owned("No reason provided"),
    }
}

/// `i64::to_string`.
pub open spec fn signed_decimal_spec(n: int) -> Seq<char> {
    if n < 0 {
        "-"@ + decimal_spec((-n) as nat)
    } else {
        decimal_spec(n as nat)
    }
}

/// Writes a signed number in decimal.
pub fn signed_decimal(n: i64) -> (r: String)
    ensures
        r@ == signed_decimal_spec(n as int),
{
    if n < 0 {
        let m: u64 = if n == i64::MIN {
            9223372036854775808u64
        } else {
            (-n) as u64
        };
        let d = decimal_string(m);
        concat2("-", d.as_str())
    } else {
        decimal_string(n as u64)
    }
}

/// How a mute given in minutes is shown: the number followed by `m`.
pub fn minutes_label(minutes: i64) -> (r: String)
    ensures
        r@ == signed_decimal_spec(minutes as int) + "m"@,
{
    let mut r = signed_decimal(minutes);
    r.append("m");
    r
}

/// How many messages `clear` asks Discord for: the amount cut to its low byte.
pub fn clear_fetch_limit(amount: u64) -> (r: u8)
    ensures
        r == amount % 256,
{
    (amount % 256) as u8
}

/// The text of a stream announcement: the template with the ping role, the streamer and the
/// link filled in, in that order.
pub open spec fn stream_text_spec(template: Seq<char>, role_id: u64, user: Seq<char>, link: Seq<char>) -> Seq<char> {
    replace_spec(
        replace_spec(replace_spec(template, "{role_id}"@, decimal_spec(role_id as nat)), "{user}"@, user),
        "{link}"@,
        link,
    )
}

/// Writes a stream announcement from its template.
pub fn stream_text(template: &str, role_id: u64, user: &str, link: &str) -> (r: String)
    ensures
        r@ == stream_text_spec(template@, role_id, user@, link@),
{
    let role = decimal_string(role_id);
    let a = replace_str(template, "{role_id}", role.as_str());
    let b = replace_str(a.as_str(), "{user}", user);
    replace_str(b.as_str(), "{link}", link)
}

/// The reply when no stream ping role is configured.
pub const NO_STREAM_ROLE: &'static str = "No stream ping role is configured. Set one with `!settings stream_role @Role`.";

} // verus!
