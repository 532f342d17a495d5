//! Choosing a Vertex AI model, preparing prompts and cleaning replies.
use vstd::prelude::*;
use base64::Engine;
use crate::text::{
    chars_of, concat3, contains_chars, decimal_spec, decimal_string, lowercase_chars,
    lowercase_of, owned, replace_spec, replace_str, string_of, trim_chars, trim_spec,
    contains_spec, line_count, line_count_spec, trim_str,
};

use crate::bot::{has_staff_access, staff_spec, MemberAccess};
use crate::settings::{guild_key, guild_settings, settings_at, GuildSettings};
use crate::store::KeyedStore;

verus! {

/// The fast chat model.
pub const FLASH_MODEL: &'static str = "gemini-2.5-flash";

/// The stronger chat model.
pub const PRO_MODEL: &'static str = "gemini-2.5-pro";

/// The image model.
pub const IMAGE_MODEL: &'static str = "gemini-2.5-flash-image";

/// The OAuth scope asked for.
pub const GOOGLE_CLOUD_SCOPE: &'static str = "https://www.googleapis.com/auth/cloud-platform";

/// The system prompt used when no prompt file gives one.
pub const DEFAULT_PROMPT: &'static str = "You are Neutro, a Discord bot assistant. Keep answers readable, direct, and useful. Do not claim actions you did not take. Avoid roleplay. Never ask users to expose secrets or tokens.";

/// At most this many images go with one prompt.
pub const MAX_IMAGES_PER_PROMPT: usize = 4;

/// A generated answer.
pub struct AiResponse {
    pub text: String,
}

/// The preference class that a configured model name stands for.
pub open spec fn normalized_preference(value: Seq<char>) -> Seq<char> {
    let v = lowercase_of(trim_spec(value));
    if v == "flash"@ || v == "gemini-2.5-flash"@ {
        "flash"@
    } else if v == "pro"@ || v == "gemini-2.5-pro"@ {
        "pro"@
    } else if v == "image"@ || v == "gemini-2.5-flash-image"@ {
        "image"@
    } else {
        "adaptive"@
    }
}

/// Maps a configured model name (trimmed, lower-cased) to `flash`, `pro`, `image` or `adaptive`.
pub fn normalize_model_preference(value: &str) -> (r: &'static str)
    ensures
        r@ == normalized_preference(value@),
{
    let v = chars_of(value);
    let t = trim_chars(&v);
    let l = lowercase_chars(&t);
    let s = string_of(&l);
    let s = s.as_str();
    if crate::text::str_eq(s, "flash") || crate::text::str_eq(s, "gemini-2.5-flash") {
        "flash"
    } else if crate::text::str_eq(s, "pro") || crate::text::str_eq(s, "gemini-2.5-pro") {
        "pro"
    } else if crate::text::str_eq(s, "image") || crate::text::str_eq(s, "gemini-2.5-flash-image") {
        "image"
    } else {
        "adaptive"
    }
}

/// The summary of a model preference that settings replies show.
pub open spec fn model_summary_spec(pref: Seq<char>) -> Seq<char> {
    let n = normalized_preference(pref);
    if n == "flash"@ {
        FLASH_MODEL@
    } else if n == "pro"@ {
        PRO_MODEL@
    } else if n == "image"@ {
        "vision-ready chat on `"@ + FLASH_MODEL@ + "` with image tool `"@ + IMAGE_MODEL@
            + "` available"@
    } else {
        "adaptive (`"@ + FLASH_MODEL@ + "` or `"@ + PRO_MODEL@ + "`)"@
    }
}

/// Describes the model that a preference selects.
pub fn current_model_summary(model_preference: &str) -> (r: String)
    ensures
        r@ == model_summary_spec(model_preference@),
{
    let n = normalize_model_preference(model_preference);
    if crate::text::str_eq(n, "flash") {
        owned(FLASH_MODEL)
    } else if crate::text::str_eq(n, "pro") {
        owned(PRO_MODEL)
    } else if crate::text::str_eq(n, "image") {
        let mut r = concat3("vision-ready chat on `", FLASH_MODEL, "` with image tool `");
        r.append(IMAGE_MODEL);
        r.append("` available");
        r
    } else {
        let mut r = concat3("adaptive (`", FLASH_MODEL, "` or `");
        r.append(PRO_MODEL);
        r.append("`)");
        r
    }
}

/// The keywords that call for the stronger model.
pub open spec fn complex_keywords() -> Seq<Seq<char>> {
    seq![
        "architecture"@,
        "analyze"@,
        "analysis"@,
        "compare"@,
        "debug"@,
        "design"@,
        "explain in detail"@,
        "refactor"@,
        "strategy"@,
        "tradeoff"@,
        "why"@,
    ]
}

/// Whether a prompt is long or complex enough for the stronger model: over 900 bytes of
/// UTF-8, over twelve lines, a code fence, or one of [`complex_keywords`] in its lower-cased
/// form (all of it after trimming).
pub open spec fn uses_pro_spec(prompt: Seq<char>) -> bool {
    let p = trim_spec(prompt);
    let lower = lowercase_of(p);
    vstd::utf8::encode_utf8(p).len() > 900 || line_count_spec(p) > 12 || contains_spec(p, "```"@)
        || exists|i: int| 0 <= i < complex_keywords().len() && contains_spec(lower, #[trigger] complex_keywords()[i])
}

/// Decides whether a prompt goes to the stronger model.
pub fn should_use_pro(prompt: &str) -> (r: bool)
    ensures
        r == uses_pro_spec(prompt@),
{
    let v = chars_of(prompt);
    let p = trim_chars(&v);
    let lower = lowercase_chars(&p);
    let fence = chars_of("```");
    assert(complex_keywords().len() == 11);
    if crate::text::utf8_len_exceeds(&p, 900) {
        return true;
    }
    if line_count(&p) > 12 {
        return true;
    }
    if contains_chars(&p, &fence) {
        return true;
    }
    let keywords: [&str; 11] = [
        "architecture",
        "analyze",
        "analysis",
        "compare",
        "debug",
        "design",
        "explain in detail",
        "refactor",
        "strategy",
        "tradeoff",
        "why",
    ];
    assert(keywords@.map_values(|k: &str| k@) =~= complex_keywords());
    let mut i: usize = 0;
    while i < 11
        invariant
            i <= 11,
            keywords@.map_values(|k: &str| k@) == complex_keywords(),
            lower@ == lowercase_of(trim_spec(prompt@)),
            complex_keywords().len() == 11,
            !(vstd::utf8::encode_utf8(trim_spec(prompt@)).len() > 900 || line_count_spec(
                trim_spec(prompt@),
            ) > 12 || contains_spec(trim_spec(prompt@), "```"@)),
            forall|j: int| 0 <= j < i ==> !contains_spec(lower@, #[trigger] complex_keywords()[j]),
        decreases 11 - i,
    {
        let kw = chars_of(keywords[i]);
        assert(keywords@.map_values(|k: &str| k@)[i as int] == keywords@[i as int]@);
        if contains_chars(&lower, &kw) {
            assert(contains_spec(lower@, complex_keywords()[i as int]));
            return true;
        }
        i = i + 1;
    }
    assert(complex_keywords().len() == 11);
    false
}

/// The model a prompt is sent to: a fixed choice for `flash` and `pro`, otherwise chosen
/// by [`uses_pro_spec`].
pub open spec fn chat_model_spec(pref: Seq<char>, prompt: Seq<char>) -> Seq<char> {
    let n = normalized_preference(pref);
    if n == "flash"@ {
        FLASH_MODEL@
    } else if n == "pro"@ {
        PRO_MODEL@
    } else if uses_pro_spec(prompt) {
        PRO_MODEL@
    } else {
        FLASH_MODEL@
    }
}

/// Picks the chat model for a prompt.
pub fn pick_chat_model(model_preference: &str, prompt: &str) -> (r: &'static str)
    ensures
        r@ == chat_model_spec(model_preference@, prompt@),
{
    let n = normalize_model_preference(model_preference);
    if crate::text::str_eq(n, "flash") {
        FLASH_MODEL
    } else if crate::text::str_eq(n, "pro") {
        PRO_MODEL
    } else if should_use_pro(prompt) {
        PRO_MODEL
    } else {
        FLASH_MODEL
    }
}

/// `input` with every mass mention and user or role mention broken by a zero-width space.
pub open spec fn sanitized_spec(input: Seq<char>) -> Seq<char> {
    let a = replace_spec(input, "@everyone"@, "@\u{200B}everyone"@);
    let b = replace_spec(a, "@here"@, "@\u{200B}here"@);
    let c = replace_spec(b, "<@&"@, "<@&\u{200B}"@);
    replace_spec(c, "<@"@, "<@\u{200B}"@)
}

/// Defuses Discord mentions in generated text.
pub fn sanitize_discord_mentions(input: &str) -> (r: String)
    ensures
        r@ == sanitized_spec(input@),
{
    let a = replace_str(input, "@everyone", "@\u{200B}everyone");
    let b = replace_str(a.as_str(), "@here", "@\u{200B}here");
    let c = replace_str(b.as_str(), "<@&", "<@&\u{200B}");
    replace_str(c.as_str(), "<@", "<@\u{200B}")
}

/// `content` with both mention forms of the bot removed, then trimmed.
pub open spec fn stripped_mention_spec(content: Seq<char>, bot_user_id: u64) -> Seq<char> {
    let plain = "<@"@ + decimal_spec(bot_user_id as nat) + ">"@;
    let nick = "<@!"@ + decimal_spec(bot_user_id as nat) + ">"@;
    trim_spec(replace_spec(replace_spec(content, plain, Seq::empty()), nick, Seq::empty()))
}

/// Removes the bot's mention from a message.
pub fn strip_bot_mention(content: &str, bot_user_id: u64) -> (r: String)
    ensures
        r@ == stripped_mention_spec(content@, bot_user_id),
{
    let id = decimal_string(bot_user_id);
    let plain = concat3("<@", id.as_str(), ">");
    let nick = concat3("<@!", id.as_str(), ">");
    let a = replace_str(content, plain.as_str(), "");
    proof {
        reveal_strlit("");
        assert(""@ =~= Seq::<char>::empty());
    }
    let b = replace_str(a.as_str(), nick.as_str(), "");
    let v = chars_of(b.as_str());
    let t = trim_chars(&v);
    string_of(&t)
}


/// The uppercase hexadecimal digit for `n` (below 16).
pub open spec fn hex_upper(n: int) -> char {
    if n < 10 {
        ((n + 48) as u32) as char
    } else {
        ((n + 55) as u32) as char
    }
}

/// Whether a byte is left as it is by URL encoding (`A-Z a-z 0-9 - _ . ~`).
pub open spec fn is_unreserved(b: u8) -> bool {
    (0x41 <= b <= 0x5A) || (0x61 <= b <= 0x7A) || (0x30 <= b <= 0x39) || b == 0x2D || b == 0x5F
        || b == 0x2E || b == 0x7E
}

/// The URL encoding of one byte.
pub open spec fn url_encode_byte(b: u8) -> Seq<char> {
    if is_unreserved(b) {
        seq![(b as u32) as char]
    } else {
        seq!['%', hex_upper((b / 16) as int), hex_upper((b % 16) as int)]
    }
}

/// The URL encoding of a byte string: each byte in turn.
pub open spec fn url_encode_spec(bytes: Seq<u8>) -> Seq<char>
    decreases bytes.len(),
{
    if bytes.len() == 0 {
        Seq::empty()
    } else {
        url_encode_spec(bytes.drop_last()) + url_encode_byte(bytes.last())
    }
}

fn hex_digit(n: u8) -> (r: char)
    requires
        n < 16,
    ensures
        r == hex_upper(n as int),
{
    if n < 10 {
        (n + 48) as char
    } else {
        (n + 55) as char
    }
}

/// Percent-encodes the UTF-8 bytes of `value`.
pub fn url_encode(value: &str) -> (r: String)
    ensures
        r@ == url_encode_spec(vstd::utf8::encode_utf8(value@)),
{
    let bytes = value.as_bytes();
    let mut out = String::new();
    let mut i: usize = 0;
    while i < bytes.len()
        invariant
            i <= bytes@.len(),
            bytes@ == vstd::utf8::encode_utf8(value@),
            out@ == url_encode_spec(bytes@.take(i as int)),
        decreases bytes@.len() - i,
    {
        let b = bytes[i];
        let ghost before = out@;
        assert(bytes@.take(i + 1).drop_last() =~= bytes@.take(i as int));
        if (0x41 <= b && b <= 0x5A) || (0x61 <= b && b <= 0x7A) || (0x30 <= b && b <= 0x39) || b
            == 0x2D || b == 0x5F || b == 0x2E || b == 0x7E {
            out.push(b as char);
            assert(out@ =~= before + url_encode_byte(b));
        } else {
            out.push('%');
            out.push(hex_digit(b / 16));
            out.push(hex_digit(b % 16));
            assert(out@ =~= before + url_encode_byte(b));
        }
        i = i + 1;
    }
    assert(bytes@.take(bytes@.len() as int) =~= bytes@);
    out
}

/// The grant type of a JWT bearer token request.
pub const JWT_GRANT_TYPE: &'static str = "urn:ietf:params:oauth:grant-type:jwt-bearer";

/// The form body of an OAuth token request carrying a signed assertion.
pub fn token_request_body(assertion: &str) -> (r: String)
    ensures
        r@ == "grant_type="@ + url_encode_spec(vstd::utf8::encode_utf8(JWT_GRANT_TYPE@))
            + "&assertion="@ + url_encode_spec(vstd::utf8::encode_utf8(assertion@)),
{
    let g = url_encode(JWT_GRANT_TYPE);
    let a = url_encode(assertion);
    let mut r = concat3("grant_type=", g.as_str(), "&assertion=");
    r.append(a.as_str());
    r
}

/// The issue and expiry times of a token claim made at `now`: an hour of validity.
pub fn token_claim_times(now: usize) -> (r: (usize, usize))
    requires
        now + 3600 <= usize::MAX,
    ensures
        r == (now, (now + 3600) as usize),
{
    (now, now + 3600)
}

/// The message of a failed token request: the error description, else the error, else a
/// fixed text.
pub fn token_failure_message(error_description: Option<String>, error: Option<String>) -> (r:
    String)
    ensures
        r@ == match (error_description, error) {
            (Some(d), _) => d@,
            (None, Some(e)) => e@,
            (None, None) => "Failed to fetch a Google access token"@,
        },
{
    match error_description {
        Some(d) => d,
        None => match error {
            Some(e) => e,
            None => owned("Failed to fetch a Google access token"),
        },
    }
}

/// The generateContent endpoint of a model in a project and location.
pub fn vertex_endpoint(location: &str, project_id: &str, model: &str) -> (r: String)
    ensures
        r@ == "https://"@ + location@ + "-aiplatform.googleapis.com/v1/projects/"@ + project_id@
            + "/locations/"@ + location@ + "/publishers/google/models/"@ + model@
            + ":generateContent"@,
{
    let mut r = concat3("https://", location, "-aiplatform.googleapis.com/v1/projects/");
    r.append(project_id);
    r.append("/locations/");
    r.append(location);
    r.append("/publishers/google/models/");
    r.append(model);
    r.append(":generateContent");
    r
}

/// The system prompt: the trimmed prompt file when it has text, else [`DEFAULT_PROMPT`].
pub fn system_prompt_from(file_text: Option<String>) -> (r: String)
    ensures
        r@ == match file_text {
            Some(t) => if trim_spec(t@).len() > 0 {
                trim_spec(t@)
            } else {
                DEFAULT_PROMPT@
            },
            None => DEFAULT_PROMPT@,
        },
{
    match file_text {
        Some(t) => {
            let v = chars_of(t.as_str());
            let tr = trim_chars(&v);
            if tr.len() > 0 {
                string_of(&tr)
            } else {
                owned(DEFAULT_PROMPT)
            }
        },
        None => owned(DEFAULT_PROMPT),
    }
}

/// The texts among the parts of a reply, in order.
pub open spec fn part_texts(parts: Seq<Option<String>>) -> Seq<Seq<char>>
    decreases parts.len(),
{
    if parts.len() == 0 {
        Seq::empty()
    } else {
        match parts.last() {
            Some(t) => part_texts(parts.drop_last()).push(t@),
            None => part_texts(parts.drop_last()),
        }
    }
}

/// The text of a reply: its part texts joined by newlines, unless that is blank.
pub open spec fn reply_text_spec(parts: Option<Seq<Option<String>>>) -> Option<Seq<char>> {
    match parts {
        Some(ps) => {
            let t = crate::text::join_spec(part_texts(ps), "\n"@);
            if trim_spec(t).len() == 0 {
                None
            } else {
                Some(t)
            }
        },
        None => None,
    }
}

/// The parts list as a sequence.
pub open spec fn parts_view(parts: Option<Vec<Option<String>>>) -> Option<Seq<Option<String>>> {
    match parts {
        Some(v) => Some(v@),
        None => None,
    }
}

/// Collects the text of a reply from the `text` fields of the first candidate's parts
/// (`None` where the reply has no such list).
pub fn extract_text(parts: Option<Vec<Option<String>>>) -> (r: Option<String>)
    ensures
        r matches Some(t) ==> reply_text_spec(parts_view(parts)) == Some(t@),
        r is None ==> reply_text_spec(parts_view(parts)) is None,
{
    match parts {
        None => None,
        Some(ps) => {
            let mut texts: Vec<Vec<char>> = Vec::new();
            let mut i: usize = 0;
            while i < ps.len()
                invariant
                    i <= ps@.len(),
                    crate::text::views(texts@) == part_texts(ps@.take(i as int)),
                decreases ps@.len() - i,
            {
                assert(ps@.take(i + 1).drop_last() =~= ps@.take(i as int));
                match &ps[i] {
                    Some(t) => {
                        let ghost before = texts@;
                        texts.push(chars_of(t.as_str()));
                        assert(crate::text::views(texts@) =~= crate::text::views(before).push(
                            t@,
                        ));
                    },
                    None => {},
                }
                i = i + 1;
            }
            assert(ps@.take(ps@.len() as int) =~= ps@);
            let nl = chars_of("\n");
            let joined = crate::text::join_chars(&texts, &nl);
            let tr = trim_chars(&joined);
            if tr.len() == 0 {
                None
            } else {
                Some(string_of(&joined))
            }
        },
    }
}

/// What a finished generation request gives: the error message of a failed request (or a
/// fixed text), an error when the reply holds no text, else the reply text with mentions
/// defused.
pub fn finish_generation(
    status_ok: bool,
    error_message: Option<String>,
    parts: Option<Vec<Option<String>>>,
) -> (r: Result<AiResponse, String>)
    ensures
        !status_ok ==> (r matches Err(e) && e@ == match error_message {
            Some(m) => m@,
            None => "Vertex AI request failed"@,
        }),
        status_ok ==> match reply_text_spec(parts_view(parts)) {
            Some(t) => (r matches Ok(a) && a.text@ == sanitized_spec(t)),
            None => (r matches Err(e) && e@ == "Vertex AI returned no text"@),
        },
{
    if !status_ok {
        return Err(
            match error_message {
                Some(m) => m,
                None => owned("Vertex AI request failed"),
            },
        );
    }
    match extract_text(parts) {
        Some(t) => Ok(AiResponse { text: sanitize_discord_mentions(t.as_str()) }),
        None => Err(owned("Vertex AI returned no text")),
    }
}

/// The character of a six-bit value in the standard base64 alphabet (`A-Z a-z 0-9 + /`).
pub open spec fn base64_char(v: int) -> char {
    if v < 26 {
        ((v + 65) as u32) as char
    } else if v < 52 {
        ((v - 26 + 97) as u32) as char
    } else if v < 62 {
        ((v - 52 + 48) as u32) as char
    } else if v == 62 {
        '+'
    } else {
        '/'
    }
}

/// Standard base64 with padding (RFC 4648): each group of three bytes becomes four
/// characters; a last group of one or two bytes becomes four characters ending in `==` or `=`.
pub open spec fn base64_standard(bytes: Seq<u8>) -> Seq<char>
    decreases bytes.len(),
{
    if bytes.len() == 0 {
        Seq::empty()
    } else if bytes.len() == 1 {
        seq![base64_char((bytes[0] as int) / 4), base64_char(((bytes[0] as int) % 4) * 16), '=', '=']
    } else if bytes.len() == 2 {
        seq![
            base64_char((bytes[0] as int) / 4),
            base64_char(((bytes[0] as int) % 4) * 16 + (bytes[1] as int) / 16),
            base64_char(((bytes[1] as int) % 16) * 4),
            '=',
        ]
    } else {
        seq![
            base64_char((bytes[0] as int) / 4),
            base64_char(((bytes[0] as int) % 4) * 16 + (bytes[1] as int) / 16),
            base64_char(((bytes[1] as int) % 16) * 4 + (bytes[2] as int) / 64),
            base64_char((bytes[2] as int) % 64),
        ] + base64_standard(bytes.skip(3))
    }
}

/// Calls `base64::engine::general_purpose::STANDARD.encode`: standard base64 with padding,
/// as [`base64_standard`] states it. The call panics when the encoded length overflows
/// `usize`, which `requires` leaves out.
#[verifier::external_body]
fn base64_encode(bytes: &[u8]) -> (r: String)
    requires
        4 * ((bytes@.len() + 2) / 3) <= usize::MAX,
    ensures
        r@ == base64_standard(bytes@),
{
    base64::engine::general_purpose::STANDARD.encode(bytes)
}

/// An image attached to a prompt: its MIME type and its bytes in base64.
pub struct PromptImage {
    mime_type: String,
    data_base64: String,
}

impl PromptImage {
    /// The MIME type.
    pub closed spec fn mime_spec(&self) -> Seq<char> {
        self.mime_type@
    }

    /// The base64 data.
    pub closed spec fn data_spec(&self) -> Seq<char> {
        self.data_base64@
    }

    /// An image from its MIME type and downloaded bytes.
    pub fn from_bytes(mime_type: String, bytes: &[u8]) -> (r: PromptImage)
        requires
            4 * ((bytes@.len() + 2) / 3) <= usize::MAX,
        ensures
            r.mime_spec() == mime_type@,
            r.data_spec() == base64_standard(bytes@),
    {
        PromptImage { mime_type, data_base64: base64_encode(bytes) }
    }

    /// The MIME type.
    pub fn mime_type(&self) -> (r: &str)
        ensures
            r@ == self.mime_spec(),
    {
        self.mime_type.as_str()
    }

    /// The base64 data.
    pub fn data_base64(&self) -> (r: &str)
        ensures
            r@ == self.data_spec(),
    {
        self.data_base64.as_str()
    }
}

/// Whether an attachment's content type marks an image.
pub open spec fn is_image_type(mime: Option<String>) -> bool {
    match mime {
        Some(m) => crate::text::starts_with_spec(m@, "image/"@),
        None => false,
    }
}

/// The positions, in order, of the attachments worth downloading for a prompt: among the
/// first [`MAX_IMAGES_PER_PROMPT`], those whose content type starts with `image/`.
pub fn prompt_image_candidates(content_types: &[Option<String>]) -> (r: Vec<usize>)
    ensures
        forall|k: int| 0 <= k < r@.len() ==> (#[trigger] r@[k]) < content_types@.len() && r@[k]
            < MAX_IMAGES_PER_PROMPT && is_image_type(content_types@[r@[k] as int]),
        forall|k: int, l: int| 0 <= k < l < r@.len() ==> r@[k] < r@[l],
        forall|j: int|
            0 <= j < content_types@.len() && j < MAX_IMAGES_PER_PROMPT && is_image_type(
                #[trigger] content_types@[j],
            ) ==> r@.contains(j as usize),
{
    let mut r: Vec<usize> = Vec::new();
    let mut i: usize = 0;
    while i < content_types.len() && i < MAX_IMAGES_PER_PROMPT
        invariant
            i <= content_types@.len(),
            i <= MAX_IMAGES_PER_PROMPT,
            forall|k: int| 0 <= k < r@.len() ==> (#[trigger] r@[k]) < i && is_image_type(
                content_types@[r@[k] as int],
            ),
            forall|k: int, l: int| 0 <= k < l < r@.len() ==> r@[k] < r@[l],
            forall|j: int|
                0 <= j < i && is_image_type(#[trigger] content_types@[j]) ==> r@.contains(
                    j as usize,
                ),
        decreases MAX_IMAGES_PER_PROMPT - i,
    {
        let is_img = match &content_types[i] {
            Some(m) => crate::text::starts_with_str(m.as_str(), "image/"),
            None => false,
        };
        if is_img {
            let ghost before = r@;
            r.push(i);
            assert forall|j: int|
                0 <= j < i + 1 && is_image_type(#[trigger] content_types@[j]) implies r@.contains(
                j as usize,
            ) by {
                if j < i {
                    assert(before.contains(j as usize));
                    let k = choose|k: int| 0 <= k < before.len() && before[k] == j as usize;
                    assert(r@[k] == j as usize);
                } else {
                    assert(r@[before.len() as int] == i);
                }
            }
        }
        i = i + 1;
    }
    r
}

/// The summary of a model preference shown by the settings commands.
pub fn ai_mode_summary(mode: &str) -> (r: String)
    ensures
        r@ == model_summary_spec(mode@),
{
    current_model_summary(mode)
}

/// Seconds since the Unix epoch by the system clock, or 0 when the clock is set before it
/// (`SystemTime::now` and `duration_since`). Nothing is claimed of the value: it is the time.
#[verifier::external_body]
fn unix_timestamp() -> (r: usize) {
    std::time::SystemTime::now().duration_since(std::time::UNIX_EPOCH).unwrap_or_default().as_secs() as usize
}

/// The issue and expiry times of a token claim made at clock reading `now`: an hour apart,
/// or `None` when the expiry does not fit in a `usize`.
pub fn claim_times_at(now: usize) -> (r: Option<(usize, usize)>)
    ensures
        r == (if now <= usize::MAX - 3600 {
            Some((now, (now + 3600) as usize))
        } else {
            None
        }),
{
    if now > usize::MAX - 3600 {
        None
    } else {
        Some(token_claim_times(now))
    }
}

/// The issue and expiry times of a token claim made now, from the system clock (see
/// [`claim_times_at`]): an hour apart, `None` only when the clock is so far ahead that the
/// expiry does not fit.
pub fn token_claim_times_now() -> (r: Option<(usize, usize)>)
    ensures
        r matches Some((iat, exp)) ==> exp == iat + 3600,
{
    claim_times_at(unix_timestamp())
}

/// The signed JSON Web Token of a service account claim: the header that
/// `jsonwebtoken::Header::new(Algorithm::RS256)` makes, and the claims `iss`, `scope`, `aud`,
/// `exp`, `iat` in that order, signed with the RSA private key in `pem`; `None` where `pem`
/// holds no usable RSA private key.
pub uninterp spec fn service_jwt(iss: Seq<char>, scope: Seq<char>, aud: Seq<char>, iat: usize, exp: usize, pem: Seq<u8>) -> Option<Seq<char>>;

/// Calls `jsonwebtoken::EncodingKey::from_rsa_pem` on `pem` and `jsonwebtoken::encode` with
/// an RS256 header on the five claims, in the order `iss`, `scope`, `aud`, `exp`, `iat`. Its
/// result is named by [`service_jwt`]: RS256 pads with PKCS#1 v1.5, which uses no randomness,
/// so the token depends on the arguments alone, and the only failures come from the key.
#[verifier::external_body]
fn sign_service_jwt(iss: &str, scope: &str, aud: &str, iat: usize, exp: usize, pem: &[u8]) -> (r: Result<String, String>)
    ensures
        match r {
            Ok(t) => service_jwt(iss@, scope@, aud@, iat, exp, pem@) == Some(t@),
            Err(_) => service_jwt(iss@, scope@, aud@, iat, exp, pem@) is None,
        },
{
    let mut claims = serde_json::Map::new();
    claims.insert("iss".to_string(), serde_json::Value::from(iss));
    claims.insert("scope".to_string(), serde_json::Value::from(scope));
    claims.insert("aud".to_string(), serde_json::Value::from(aud));
    claims.insert("exp".to_string(), serde_json::Value::from(exp));
    claims.insert("iat".to_string(), serde_json::Value::from(iat));
    let key = jsonwebtoken::EncodingKey::from_rsa_pem(pem).map_err(|e| e.to_string())?;
    let header = jsonwebtoken::Header::new(jsonwebtoken::Algorithm::RS256);
    jsonwebtoken::encode(&header, &claims, &key).map_err(|e| e.to_string())
}

/// The assertion of a token request: the service account's claim for [`GOOGLE_CLOUD_SCOPE`],
/// issued by `client_email` for `token_uri`, valid from `iat` to `exp`, signed with the
/// account's private key: that signed claim when the key can sign, an error when it cannot.
pub fn service_assertion(client_email: &str, token_uri: &str, pem: &[u8], iat: usize, exp: usize) -> (r:
    Result<String, String>)
    ensures
        match r {
            Ok(t) => service_jwt(client_email@, GOOGLE_CLOUD_SCOPE@, token_uri@, iat, exp, pem@) == Some(t@),
            Err(_) => service_jwt(client_email@, GOOGLE_CLOUD_SCOPE@, token_uri@, iat, exp, pem@) is None,
        },
{
    sign_service_jwt(client_email, GOOGLE_CLOUD_SCOPE, token_uri, iat, exp, pem)
}

/// What the `ask` command does.
pub enum AskAction {
    /// It was used outside a server.
    NotInGuild,
    /// AI is off on this server.
    Disabled,
    /// AI commands belong in this channel and the caller is not staff.
    Restricted(u64),
    /// The prompt is blank.
    EmptyPrompt,
    /// Send this prompt.
    Generate(String),
}

/// The value of an [`AskAction`].
pub enum AskPlan {
    NotInGuild,
    Disabled,
    Restricted(u64),
    EmptyPrompt,
    Generate(Seq<char>),
}

impl View for AskAction {
    type V = AskPlan;

    open spec fn view(&self) -> AskPlan {
        match self {
            AskAction::NotInGuild => AskPlan::NotInGuild,
            AskAction::Disabled => AskPlan::Disabled,
            AskAction::Restricted(c) => AskPlan::Restricted(*c),
            AskAction::EmptyPrompt => AskPlan::EmptyPrompt,
            AskAction::Generate(p) => AskPlan::Generate(p@),
        }
    }
}

/// The `ask` command: only in servers with AI on; in the AI channel when one is set, unless
/// the caller is staff; with a prompt that is not blank, sent as `author: prompt` trimmed.
pub open spec fn ask_spec(
    store: Map<Seq<char>, GuildSettings>,
    guild: Option<u64>,
    channel: u64,
    member: Option<MemberAccess>,
    author: Seq<char>,
    prompt: Seq<char>,
) -> AskPlan {
    match guild {
        None => AskPlan::NotInGuild,
        Some(g) => {
            let s = settings_at(store, guild_key(g));
            if !s.ai_enabled {
                AskPlan::Disabled
            } else if s.ai_channel_id is Some && s.ai_channel_id != Some(channel) && !staff_spec(
                store,
                guild,
                member,
            ) {
                AskPlan::Restricted(s.ai_channel_id->0)
            } else if trim_spec(prompt).len() == 0 {
                AskPlan::EmptyPrompt
            } else {
                AskPlan::Generate(author + ": "@ + trim_spec(prompt))
            }
        },
    }
}

/// Decides what the `ask` command does.
pub fn ask_action(
    store: &KeyedStore<GuildSettings>,
    guild: Option<u64>,
    channel: u64,
    member: Option<&MemberAccess>,
    author: &str,
    prompt: &str,
) -> (r: AskAction)
    ensures
        r@ == ask_spec(
            store@,
            guild,
            channel,
            match member {
                Some(m) => Some(*m),
                None => None,
            },
            author@,
            prompt@,
        ),
{
    let g = match guild {
        None => return AskAction::NotInGuild,
        Some(g) => g,
    };
    let s = guild_settings(store, g);
    if !s.ai_enabled {
        return AskAction::Disabled;
    }
    match s.ai_channel_id {
        Some(c) => if c != channel && !has_staff_access(store, guild, member) {
            return AskAction::Restricted(c);
        },
        None => {},
    }
    let p = trim_str(prompt);
    if p.unicode_len() == 0 {
        return AskAction::EmptyPrompt;
    }
    AskAction::Generate(concat3(author, ": ", p.as_str()))
}

/// The reply to an `ask` that is not answered.
pub fn ask_refusal(channel: Option<u64>, disabled: bool, in_guild: bool) -> (r: String)
    ensures
        !in_guild ==> r@ == "This command can only be used in a server."@,
        in_guild && disabled ==> r@
            == "AI is disabled for this server. Configure it with `!settings ai true`."@,
        in_guild && !disabled && channel is Some ==> r@ == "AI commands are restricted to <#"@
            + decimal_spec(channel->0 as nat) + "> on this server."@,
        in_guild && !disabled && channel is None ==> r@ == "Prompt cannot be empty."@,
{
    if !in_guild {
        owned("This command can only be used in a server.")
    } else if disabled {
        owned("AI is disabled for this server. Configure it with `!settings ai true`.")
    } else {
        match channel {
            Some(c) => {
                concat3("AI commands are restricted to <#", decimal_string(c).as_str(), "> on this server.")
            },
            None => owned("Prompt cannot be empty."),
        }
    }
}

} // verus!
