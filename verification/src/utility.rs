//! Arguments and texts of the utility commands: quotes with a colour, and profiles.
use vstd::prelude::*;
use crate::i18n::{translate, translate_spec};
use crate::terminal::str_views;
use crate::events::join_strings;
use crate::text::{
    chars_of, decimal_spec, decimal_string, is_ws, is_whitespace, join_spec, replace_spec,
    replace_str, slice_from, string_of, trim_chars, trim_spec, take_prefix,
};

verus! {

/// The colour of a quote that names none: RGB 43, 45, 49.
pub const DEFAULT_QUOTE_COLOR: u32 = 0x2B2D31;

/// Whether `c` is an ASCII hexadecimal digit.
pub open spec fn is_hex_digit(c: char) -> bool {
    ('0' <= c <= '9') || ('a' <= c <= 'f') || ('A' <= c <= 'F')
}

/// The value of a hexadecimal digit.
pub open spec fn hex_digit_value(c: char) -> int {
    if '0' <= c <= '9' {
        (c as u32) - ('0' as u32)
    } else if 'a' <= c <= 'f' {
        (c as u32) - ('a' as u32) + 10
    } else {
        (c as u32) - ('A' as u32) + 10
    }
}

/// The number that the hexadecimal digits `d` write.
pub open spec fn hex_value(d: Seq<char>) -> int
    decreases d.len(),
{
    if d.len() == 0 {
        0
    } else {
        16 * hex_value(d.drop_last()) + hex_digit_value(d.last())
    }
}

/// The characters of `s` before its first whitespace.
pub open spec fn leading_word(s: Seq<char>) -> Seq<char>
    decreases s.len(),
{
    if s.len() == 0 || is_ws(s[0]) {
        Seq::empty()
    } else {
        seq![s[0]] + leading_word(s.drop_first())
    }
}

/// The colour that a quote's first word names: it is `#RRGGBB`, one `#` followed by exactly
/// six hexadecimal digits.
pub open spec fn quote_color_spec(first: Seq<char>) -> Option<u32> {
    let hex = first.skip(1);
    if first.len() == 7 && first[0] == '#' && forall|i: int| 0 <= i < 6 ==> is_hex_digit(#[trigger] hex[i]) {
        Some(hex_value(hex) as u32)
    } else {
        None
    }
}

/// What `aquote` makes of its text.
pub enum QuoteOutcome {
    /// The text is blank.
    Usage,
    /// Only a colour was given.
    NoText,
    /// A quote in this colour.
    Quote(u32, String),
}

/// The value of a [`QuoteOutcome`].
pub enum QuotePlan {
    Usage,
    NoText,
    Quote(u32, Seq<char>),
}

impl View for QuoteOutcome {
    type V = QuotePlan;

    open spec fn view(&self) -> QuotePlan {
        match self {
            QuoteOutcome::Usage => QuotePlan::Usage,
            QuoteOutcome::NoText => QuotePlan::NoText,
            QuoteOutcome::Quote(c, t) => QuotePlan::Quote(*c, t@),
        }
    }
}

/// The quote of a text, trimmed: when its first word is a colour `#RRGGBB`, that colour and
/// the rest trimmed; otherwise [`DEFAULT_QUOTE_COLOR`] and the whole text.
pub open spec fn quote_spec(text: Seq<char>) -> QuotePlan {
    let raw = trim_spec(text);
    if raw.len() == 0 {
        QuotePlan::Usage
    } else {
        let first = leading_word(raw);
        let (color, content) = match quote_color_spec(first) {
            Some(c) => (c, trim_spec(raw.skip(first.len() as int))),
            None => (DEFAULT_QUOTE_COLOR, raw),
        };
        if content.len() == 0 {
            QuotePlan::NoText
        } else {
            QuotePlan::Quote(color, content)
        }
    }
}

proof fn lemma_leading_word(s: Seq<char>, i: int)
    requires
        0 <= i <= s.len(),
        forall|j: int| 0 <= j < i ==> !is_ws(#[trigger] s[j]),
        i == s.len() || is_ws(s[i]),
    ensures
        leading_word(s) == s.take(i),
    decreases i,
{
    if i == 0 {
        assert(s.take(0) =~= Seq::<char>::empty());
    } else {
        lemma_leading_word(s.drop_first(), i - 1);
        assert(s.take(i) =~= seq![s[0]] + s.drop_first().take(i - 1));
    }
}

fn hex_digit(c: char) -> (r: Option<u32>)
    ensures
        is_hex_digit(c) ==> r == Some(hex_digit_value(c) as u32),
        !is_hex_digit(c) ==> r is None,
{
    if '0' <= c && c <= '9' {
        Some((c as u32) - ('0' as u32))
    } else if 'a' <= c && c <= 'f' {
        Some((c as u32) - ('a' as u32) + 10)
    } else if 'A' <= c && c <= 'F' {
        Some((c as u32) - ('A' as u32) + 10)
    } else {
        None
    }
}

/// Reads the colour that a quote's first word names.
pub fn quote_color(first: &[char]) -> (r: Option<u32>)
    ensures
        r == quote_color_spec(first@),
{
    if first.len() != 7 || first[0] != '#' {
        return None;
    }
    let hex = slice_from(first, 1);
    let mut v: u32 = 0;
    let mut i: usize = 0;
    while i < 6
        invariant
            i <= 6,
            hex@.len() == 6,
            hex@ == first@.skip(1),
            first@.len() == 7 && first@[0] == '#',
            forall|j: int| 0 <= j < i ==> is_hex_digit(#[trigger] hex@[j]),
            v == hex_value(hex@.take(i as int)),
            v < pow16(i as nat),
        decreases 6 - i,
    {
        match hex_digit(hex[i]) {
            Some(d) => {
                assert(hex@.take(i + 1).drop_last() =~= hex@.take(i as int));
                assert(v * 16 + d < pow16((i + 1) as nat)) by (nonlinear_arith)
                    requires
                        v < pow16(i as nat),
                        d < 16,
                        pow16((i + 1) as nat) == 16 * pow16(i as nat),
                ;
                assert(pow16((i + 1) as nat) <= 16777216) by {
                    lemma_pow16_bound((i + 1) as nat);
                }
                v = v * 16 + d;
                i = i + 1;
            },
            None => {
                assert(!is_hex_digit(hex@[i as int]));
                return None;
            },
        }
    }
    assert(hex@.take(6) =~= hex@);
    Some(v)
}

/// Sixteen to the power `n`.
pub open spec fn pow16(n: nat) -> int
    decreases n,
{
    if n == 0 {
        1
    } else {
        16 * pow16((n - 1) as nat)
    }
}

proof fn lemma_pow16_bound(n: nat)
    requires
        n <= 6,
    ensures
        pow16(n) <= 16777216,
        pow16(n) >= 1,
    decreases n,
{
    reveal_with_fuel(pow16, 7);
    if n == 0 {
    } else if n == 1 {
    } else if n == 2 {
    } else if n == 3 {
    } else if n == 4 {
    } else if n == 5 {
    } else {
        assert(n == 6);
    }
}

/// Reads the text of `aquote`.
pub fn parse_quote(text: &str) -> (r: QuoteOutcome)
    ensures
        r@ == quote_spec(text@),
{
    let v = chars_of(text);
    let raw = trim_chars(&v);
    if raw.len() == 0 {
        return QuoteOutcome::Usage;
    }
    let mut n: usize = 0;
    while n < raw.len() && !is_whitespace(raw[n])
        invariant
            n <= raw@.len(),
            forall|j: int| 0 <= j < n ==> !is_ws(#[trigger] raw@[j]),
        decreases raw@.len() - n,
    {
        n = n + 1;
    }
    proof {
        lemma_leading_word(raw@, n as int);
    }
    let first = take_prefix(&raw, n);
    let (color, content) = match quote_color(&first) {
        Some(c) => {
            let rest = slice_from(&raw, n);
            (c, trim_chars(rest))
        },
        None => (DEFAULT_QUOTE_COLOR, raw),
    };
    if content.len() == 0 {
        QuoteOutcome::NoText
    } else {
        QuoteOutcome::Quote(color, string_of(&content))
    }
}

/// The joined-at line of a profile: the template with the join time filled in.
pub open spec fn joined_info_spec(lang: Seq<char>, joined: Seq<char>) -> Seq<char> {
    replace_spec(translate_spec(lang, "UTILITY_PROFILE_JOINED"@), "{joined}"@, joined)
}

/// Writes the joined-at line of a profile.
pub fn joined_info(lang: &str, joined: &str) -> (r: String)
    ensures
        r@ == joined_info_spec(lang@, joined@),
{
    replace_str(translate(lang, "UTILITY_PROFILE_JOINED").as_str(), "{joined}", joined)
}

/// Each name with `@` before it.
pub open spec fn at_names(names: Seq<Seq<char>>) -> Seq<Seq<char>>
    decreases names.len(),
{
    if names.len() == 0 {
        Seq::empty()
    } else {
        at_names(names.drop_last()).push("@"@ + names.last())
    }
}

/// The roles line of a profile for a member with `total` roles, of which the names of
/// `names` could be resolved: nothing without roles, the names as `@name` when some were
/// resolved, else the count.
pub open spec fn roles_info_spec(lang: Seq<char>, total: nat, names: Seq<Seq<char>>) -> Seq<char> {
    if total == 0 {
        Seq::empty()
    } else if names.len() > 0 {
        replace_spec(
            translate_spec(lang, "UTILITY_PROFILE_ROLES"@),
            "{roles}"@,
            join_spec(at_names(names), ", "@),
        )
    } else {
        replace_spec(
            translate_spec(lang, "UTILITY_PROFILE_ROLES_HIDDEN"@),
            "{count}"@,
            decimal_spec(total),
        )
    }
}

/// Writes the roles line of a profile.
pub fn roles_info(lang: &str, total: usize, names: &[String]) -> (r: String)
    ensures
        r@ == roles_info_spec(lang@, total as nat, str_views(names@)),
{
    if total == 0 {
        return String::new();
    }
    if names.len() > 0 {
        let mut tagged: Vec<String> = Vec::new();
        let mut i: usize = 0;
        while i < names.len()
            invariant
                i <= names@.len(),
                str_views(tagged@) == at_names(str_views(names@).take(i as int)),
            decreases names@.len() - i,
        {
            let ghost before = tagged@;
            tagged.push(crate::text::concat2("@", names[i].as_str()));
            assert(str_views(names@).take(i + 1).drop_last() =~= str_views(names@).take(i as int));
            assert(str_views(tagged@) =~= str_views(before).push("@"@ + names@[i as int]@));
            i = i + 1;
        }
        assert(str_views(names@).take(names@.len() as int) =~= str_views(names@));
        let list = join_strings(&tagged, ", ");
        replace_str(translate(lang, "UTILITY_PROFILE_ROLES").as_str(), "{roles}", list.as_str())
    } else {
        replace_str(
            translate(lang, "UTILITY_PROFILE_ROLES_HIDDEN").as_str(),
            "{count}",
            decimal_string(total as u64).as_str(),
        )
    }
}

/// A profile: the template with name, id, registration time, joined line and roles line
/// filled in, in that order.
pub open spec fn profile_spec(
    lang: Seq<char>,
    name: Seq<char>,
    id: u64,
    registered: Seq<char>,
    joined: Seq<char>,
    roles: Seq<char>,
) -> Seq<char> {
    replace_spec(
        replace_spec(
            replace_spec(
                replace_spec(
                    replace_spec(translate_spec(lang, "UTILITY_PROFILE"@), "{user}"@, name),
                    "{id}"@,
                    decimal_spec(id as nat),
                ),
                "{registered}"@,
                registered,
            ),
            "{joined}"@,
            joined,
        ),
        "{roles}"@,
        roles,
    )
}

/// Writes a profile.
pub fn profile_text(lang: &str, name: &str, id: u64, registered: &str, joined: &str, roles: &str) -> (r:
    String)
    ensures
        r@ == profile_spec(lang@, name@, id, registered@, joined@, roles@),
{
    let a = replace_str(translate(lang, "UTILITY_PROFILE").as_str(), "{user}", name);
    let b = replace_str(a.as_str(), "{id}", decimal_string(id).as_str());
    let c = replace_str(b.as_str(), "{registered}", registered);
    let d = replace_str(c.as_str(), "{joined}", joined);
    replace_str(d.as_str(), "{roles}", roles)
}

} // verus!
