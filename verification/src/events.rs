//! Decisions behind the bot's event handlers: media links, the approval queue, reactions,
//! the starboard, voice and role logs, mention replies and sticky messages.
use vstd::prelude::*;
use crate::ai::{stripped_mention_spec, strip_bot_mention};
use crate::settings::{guild_key, guild_settings, settings_at, GuildSettings, GuildSettingsView};
use crate::state::{copy_opt, opt_chars, MediaRequest, ReactionRoleConfig, StickyMessage};
use crate::store::KeyedStore;
use crate::terminal::{has_request_flag, has_request_flag_spec, str_views};
use crate::text::{
    chars_of, concat2, concat3, ends_with_chars, ends_with_spec, find_chars, find_spec, owned,
    replace_chars, replace_spec, split_words, starts_with_chars, starts_with_spec,
    string_of, views, words_spec, ascii_lower_chars, ascii_lower_spec, slice_from,
    lemma_find_from_matches, matches_at, take_prefix, join_spec, decimal_spec, decimal_string,
    parse_u64_spec, parse_u64_str, starts_with_str, str_eq, trim_spec, trim_str,
};

verus! {

/// Whether a word is a web link.
pub open spec fn is_link(w: Seq<char>) -> bool {
    starts_with_spec(w, "http://"@) || starts_with_spec(w, "https://"@)
}

/// The words of `s` that are web links, in order.
pub open spec fn links_of(words: Seq<Seq<char>>) -> Seq<Seq<char>>
    decreases words.len(),
{
    if words.len() == 0 {
        words
    } else if is_link(words.last()) {
        links_of(words.drop_last()).push(words.last())
    } else {
        links_of(words.drop_last())
    }
}

/// The whitespace-separated words of `input` that start with `http://` or `https://`.
pub fn extract_urls(input: &str) -> (r: Vec<String>)
    ensures
        str_views(r@) == links_of(words_spec(input@)),
{
    let v = chars_of(input);
    let words = split_words(&v);
    let http = chars_of("http://");
    let https = chars_of("https://");
    let mut r: Vec<String> = Vec::new();
    let mut i: usize = 0;
    while i < words.len()
        invariant
            i <= words@.len(),
            http@ == "http://"@,
            https@ == "https://"@,
            str_views(r@) == links_of(views(words@).take(i as int)),
        decreases words@.len() - i,
    {
        assert(views(words@).take(i + 1).drop_last() =~= views(words@).take(i as int));
        assert(views(words@).take(i + 1).last() == words@[i as int]@);
        if starts_with_chars(&words[i], &http) || starts_with_chars(&words[i], &https) {
            let ghost before = r@;
            r.push(string_of(&words[i]));
            assert(str_views(r@) =~= str_views(before).push(
                words@[i as int]@,
            ));
        }
        i = i + 1;
    }
    assert(views(words@).take(words@.len() as int) =~= views(words@));
    r
}

/// The part of `url` before its first `?`.
pub open spec fn before_query(url: Seq<char>) -> Seq<char> {
    match find_spec(url, seq!['?']) {
        Some(k) => url.take(k),
        None => url,
    }
}

/// The file endings of images and videos that Discord shows directly.
pub open spec fn media_extensions() -> Seq<Seq<char>> {
    seq![".png"@, ".jpg"@, ".jpeg"@, ".gif"@, ".webp"@, ".mp4"@, ".webm"@, ".mov"@, ".avif"@]
}

/// Whether a link points straight at an image or video: its path (before any query),
/// ASCII lower-cased, ends with one of [`media_extensions`].
pub open spec fn is_direct_media_spec(url: Seq<char>) -> bool {
    let lower = ascii_lower_spec(before_query(url));
    exists|i: int| 0 <= i < media_extensions().len() && ends_with_spec(lower, #[trigger] media_extensions()[i])
}

/// Decides whether a link points straight at media.
pub fn is_direct_media_url(url: &str) -> (r: bool)
    ensures
        r == is_direct_media_spec(url@),
{
    let v = chars_of(url);
    let q = ['?'];
    let qs: &[char] = &q;
    assert(qs@ =~= seq!['?']);
    proof {
        lemma_find_from_matches(v@, qs@, 0);
    }
    let head = match find_chars(&v, qs) {
        Some(k) => take_prefix(&v, k),
        None => take_prefix(&v, v.len()),
    };
    assert(v@.take(v@.len() as int) =~= v@);
    let lower = ascii_lower_chars(&head);
    let exts: [&str; 9] = [".png", ".jpg", ".jpeg", ".gif", ".webp", ".mp4", ".webm", ".mov", ".avif"];
    assert(exts@.map_values(|k: &str| k@) =~= media_extensions());
    assert(media_extensions().len() == 9);
    let mut i: usize = 0;
    while i < 9
        invariant
            i <= 9,
            exts@.map_values(|k: &str| k@) == media_extensions(),
            media_extensions().len() == 9,
            lower@ == ascii_lower_spec(before_query(url@)),
            forall|j: int| 0 <= j < i ==> !ends_with_spec(lower@, #[trigger] media_extensions()[j]),
        decreases 9 - i,
    {
        let e = chars_of(exts[i]);
        assert(exts@.map_values(|k: &str| k@)[i as int] == exts@[i as int]@);
        if ends_with_chars(&lower, &e) {
            assert(ends_with_spec(lower@, media_extensions()[i as int]));
            return true;
        }
        i = i + 1;
    }
    false
}

/// The text after `marker` in `body` up to the next double quote (or, with none left, the
/// next single quote).
pub open spec fn meta_content_spec(body: Seq<char>, marker: Seq<char>) -> Option<Seq<char>> {
    match find_spec(body, marker) {
        Some(k) => {
            let tail = body.skip(k + marker.len());
            match find_spec(tail, seq!['"']) {
                Some(e) => Some(tail.take(e)),
                None => match find_spec(tail, seq!['\'']) {
                    Some(e) => Some(tail.take(e)),
                    None => None,
                },
            }
        },
        None => None,
    }
}

/// Reads the quoted value that follows `marker` in an HTML page.
pub fn extract_meta_content(body: &[char], marker: &[char]) -> (r: Option<Vec<char>>)
    ensures
        r matches Some(x) ==> meta_content_spec(body@, marker@) == Some(x@),
        r is None ==> meta_content_spec(body@, marker@) is None,
{
    proof {
        lemma_find_from_matches(body@, marker@, 0);
    }
    let k = match find_chars(body, marker) {
        Some(k) => k,
        None => return None,
    };
    assert(matches_at(body@, marker@, k as int));
    assert(body@.len() == body.len());
    let tail = slice_from(body, k + marker.len());
    let dq = ['"'];
    let sq = ['\''];
    let dqs: &[char] = &dq;
    let sqs: &[char] = &sq;
    assert(dqs@ =~= seq!['"']);
    assert(sqs@ =~= seq!['\'']);
    proof {
        lemma_find_from_matches(tail@, dqs@, 0);
        lemma_find_from_matches(tail@, sqs@, 0);
    }
    match find_chars(tail, dqs) {
        Some(e) => Some(take_prefix(tail, e)),
        None => match find_chars(tail, sqs) {
            Some(e) => Some(take_prefix(tail, e)),
            None => None,
        },
    }
}

/// The `og:` meta tags searched, in order, for a Tenor page's media link.
pub open spec fn tenor_markers() -> Seq<Seq<char>> {
    seq![
        "property=\"og:video:secure_url\" content=\""@,
        "property=\"og:video\" content=\""@,
        "property=\"og:image\" content=\""@,
        "property='og:video:secure_url' content='"@,
        "property='og:video' content='"@,
        "property='og:image' content='"@,
    ]
}

/// The first of `markers` from `i` on whose value is a direct media link.
pub open spec fn first_marker_media(body: Seq<char>, markers: Seq<Seq<char>>, i: int) -> Option<Seq<char>>
    decreases markers.len() - i,
{
    if i < 0 || i >= markers.len() {
        None
    } else {
        match meta_content_spec(body, markers[i]) {
            Some(u) => if is_direct_media_spec(u) {
                Some(u)
            } else {
                first_marker_media(body, markers, i + 1)
            },
            None => first_marker_media(body, markers, i + 1),
        }
    }
}

/// The end of a bare media link: the first double quote, else single quote, else `<`, else
/// the end of the text.
pub open spec fn link_end(tail: Seq<char>) -> int {
    match find_spec(tail, seq!['"']) {
        Some(e) => e,
        None => match find_spec(tail, seq!['\'']) {
            Some(e) => e,
            None => match find_spec(tail, seq!['<']) {
                Some(e) => e,
                None => tail.len() as int,
            },
        },
    }
}

/// The direct media link of a Tenor page (with `\/` read as `/`): from its `og:` tags, else
/// the first bare `https://media.tenor.com/` link, when that is direct media.
pub open spec fn tenor_media_spec(body: Seq<char>) -> Option<Seq<char>> {
    let n = replace_spec(body, seq!['\\', '/'], seq!['/']);
    match first_marker_media(n, tenor_markers(), 0) {
        Some(u) => Some(u),
        None => match find_spec(n, "https://media.tenor.com/"@) {
            Some(k) => {
                let tail = n.skip(k);
                let cand = tail.take(link_end(tail));
                if is_direct_media_spec(cand) {
                    Some(cand)
                } else {
                    None
                }
            },
            None => None,
        },
    }
}

/// Finds the media link in a Tenor page.
pub fn extract_tenor_media_url(body: &str) -> (r: Option<String>)
    ensures
        r matches Some(x) ==> tenor_media_spec(body@) == Some(x@),
        r is None ==> tenor_media_spec(body@) is None,
{
    let v = chars_of(body);
    let pat = ['\\', '/'];
    let rep = ['/'];
    let pats: &[char] = &pat;
    let reps: &[char] = &rep;
    assert(pats@ =~= seq!['\\', '/']);
    assert(reps@ =~= seq!['/']);
    let n = replace_chars(&v, pats, reps);
    let markers: [&str; 6] = [
        "property=\"og:video:secure_url\" content=\"",
        "property=\"og:video\" content=\"",
        "property=\"og:image\" content=\"",
        "property='og:video:secure_url' content='",
        "property='og:video' content='",
        "property='og:image' content='",
    ];
    assert(markers@.map_values(|k: &str| k@) =~= tenor_markers());
    let mut i: usize = 0;
    while i < 6
        invariant
            i <= 6,
            n@ == replace_spec(body@, seq!['\\', '/'], seq!['/']),
            tenor_markers().len() == 6,
            markers@.map_values(|k: &str| k@) == tenor_markers(),
            first_marker_media(n@, tenor_markers(), 0) == first_marker_media(n@, tenor_markers(), i as int),
        decreases 6 - i,
    {
        let m = chars_of(markers[i]);
        assert(markers@.map_values(|k: &str| k@)[i as int] == markers@[i as int]@);
        assert(m@ == tenor_markers()[i as int]);
        match extract_meta_content(&n, &m) {
            Some(u) => {
                let us = string_of(&u);
                if is_direct_media_url(us.as_str()) {
                    assert(first_marker_media(n@, tenor_markers(), i as int) == Some(us@));
                    return Some(us);
                }
            },
            None => {},
        }
        assert(first_marker_media(n@, tenor_markers(), i as int) == first_marker_media(
            n@,
            tenor_markers(),
            i + 1,
        ));
        i = i + 1;
    }
    assert(first_marker_media(n@, tenor_markers(), 6) is None);
    let needle = chars_of("https://media.tenor.com/");
    proof {
        lemma_find_from_matches(n@, needle@, 0);
    }
    match find_chars(&n, &needle) {
        Some(k) => {
            let tail = slice_from(&n, k);
            let dq = ['"'];
            let sq = ['\''];
            let lt = ['<'];
            let dqs: &[char] = &dq;
            let sqs: &[char] = &sq;
            let lts: &[char] = &lt;
            assert(dqs@ =~= seq!['"']);
            assert(sqs@ =~= seq!['\'']);
            assert(lts@ =~= seq!['<']);
            proof {
                lemma_find_from_matches(tail@, dqs@, 0);
                lemma_find_from_matches(tail@, sqs@, 0);
                lemma_find_from_matches(tail@, lts@, 0);
            }
            let end = match find_chars(tail, dqs) {
                Some(e) => e,
                None => match find_chars(tail, sqs) {
                    Some(e) => e,
                    None => match find_chars(tail, lts) {
                        Some(e) => e,
                        None => tail.len(),
                    },
                },
            };
            let cand = string_of(&take_prefix(tail, end));
            if is_direct_media_url(cand.as_str()) {
                Some(cand)
            } else {
                None
            }
        },
        None => None,
    }
}

/// Whether a link may be a Tenor page worth fetching.
pub fn is_tenor_page(url: &str) -> (r: bool)
    ensures
        r == (crate::text::contains_spec(url@, "tenor.com/"@) || crate::text::contains_spec(url@, "tenor.com/view/"@)),
{
    crate::text::contains_str(url, "tenor.com/") || crate::text::contains_str(url, "tenor.com/view/")
}

/// The final component of a path as `std::path::Path::file_name` reads it (lossily as
/// UTF-8), or `None` where the path has none (it ends in `..`, or is empty or a root).
pub uninterp spec fn path_file_name(path: Seq<char>) -> Option<Seq<char>>;

/// `std::path::Path::file_name` on a path given as text, the name read lossily as UTF-8.
/// The contract only names the result: how a path splits into components is std's, by the
/// separator rules of the platform the bot is built for.
#[verifier::external_body]
fn file_name_of(path: &str) -> (r: Option<String>)
    ensures
        r matches Some(x) ==> path_file_name(path@) == Some(x@),
        r is None ==> path_file_name(path@) is None,
{
    match std::path::Path::new(path).file_name() {
        Some(name) => Some(name.to_string_lossy().to_string()),
        None => None,
    }
}

/// The `attachment://` links of stored files, one for each path that has a file name.
pub open spec fn attachment_urls_spec(paths: Seq<Seq<char>>) -> Seq<Seq<char>>
    decreases paths.len(),
{
    if paths.len() == 0 {
        Seq::empty()
    } else {
        let before = attachment_urls_spec(paths.drop_last());
        match path_file_name(paths.last()) {
            Some(name) => before.push("attachment://"@ + name),
            None => before,
        }
    }
}

/// The first `n` items of `s`, or all of them when there are fewer.
pub open spec fn first_n<A>(s: Seq<A>, n: int) -> Seq<A> {
    if s.len() <= n {
        s
    } else {
        s.take(n)
    }
}

/// The links shown in a media gallery: the stored files, then at most ten content links,
/// then at most ten attachment links, cut to ten in all.
pub open spec fn gallery_spec(
    stored: Seq<Seq<char>>,
    content: Seq<Seq<char>>,
    attachments: Seq<Seq<char>>,
) -> Seq<Seq<char>> {
    first_n(attachment_urls_spec(stored) + first_n(content, 10) + first_n(attachments, 10), 10)
}

/// The `attachment://` links of stored files.
pub fn build_attachment_media_items(paths: &[String]) -> (r: Vec<String>)
    ensures
        str_views(r@) == attachment_urls_spec(str_views(paths@)),
{
    let mut r: Vec<String> = Vec::new();
    let mut i: usize = 0;
    while i < paths.len()
        invariant
            i <= paths@.len(),
            str_views(r@) == attachment_urls_spec(str_views(paths@.take(i as int))),
        decreases paths@.len() - i,
    {
        assert(str_views(paths@.take(i + 1)).drop_last() =~= str_views(paths@.take(i as int)));
        assert(str_views(paths@.take(i + 1)).last() == paths@[i as int]@);
        match file_name_of(paths[i].as_str()) {
            Some(name) => {
                let ghost before = r@;
                r.push(concat2("attachment://", name.as_str()));
                assert(str_views(r@) =~= str_views(before).push("attachment://"@ + name@));
            },
            None => {},
        }
        i = i + 1;
    }
    assert(paths@.take(paths@.len() as int) =~= paths@);
    r
}

/// Appends copies of at most `limit` items of `from` to `out`.
fn push_first(out: &mut Vec<String>, from: &[String], limit: usize)
    ensures
        str_views(final(out)@) == str_views(old(out)@) + first_n(str_views(from@), limit as int),
{
    let mut i: usize = 0;
    while i < from.len() && i < limit
        invariant
            i <= from@.len(),
            i <= limit,
            str_views(out@) == str_views(old(out)@) + str_views(from@).take(i as int),
        decreases from@.len() - i,
    {
        let ghost before = out@;
        out.push(owned(from[i].as_str()));
        assert(str_views(out@) =~= str_views(before).push(from@[i as int]@));
        i = i + 1;
        assert(str_views(from@).take(i as int) =~= str_views(from@).take(i - 1).push(
            from@[i - 1]@,
        ));
    }
    assert(str_views(from@).take(from@.len() as int) =~= str_views(from@));
}

/// The links of a media gallery (see [`gallery_spec`]).
pub fn gallery_urls(stored: &[String], content: &[String], attachments: &[String]) -> (r: Vec<
    String,
>)
    ensures
        str_views(r@) == gallery_spec(str_views(stored@), str_views(content@), str_views(attachments@)),
{
    let mut all = build_attachment_media_items(stored);
    push_first(&mut all, content, 10);
    push_first(&mut all, attachments, 10);
    let mut r: Vec<String> = Vec::new();
    push_first(&mut r, &all, 10);
    assert(str_views(r@) =~= gallery_spec(
        str_views(stored@),
        str_views(content@),
        str_views(attachments@),
    ));
    r
}

/// `parts` joined with `sep`.
pub fn join_strings(parts: &[String], sep: &str) -> (r: String)
    ensures
        r@ == join_spec(str_views(parts@), sep@),
{
    let mut r = String::new();
    let mut i: usize = 0;
    while i < parts.len()
        invariant
            i <= parts@.len(),
            r@ == join_spec(str_views(parts@.take(i as int)), sep@),
        decreases parts@.len() - i,
    {
        assert(str_views(parts@.take(i + 1)).drop_last() =~= str_views(parts@.take(i as int)));
        assert(str_views(parts@.take(i + 1)).last() == parts@[i as int]@);
        if i > 0 {
            r.append(sep);
        }
        r.append(parts[i].as_str());
        i = i + 1;
    }
    assert(parts@.take(parts@.len() as int) =~= parts@);
    r
}

/// The channel that a message is sent to for approval, if it is held back: its channel has
/// the `request` flag and a registered approval channel whose id parses as a non-zero
/// number, and it carries a web link or an attachment.
pub open spec fn queue_target_spec(
    flags: Map<Seq<char>, Vec<String>>,
    approvals: Map<Seq<char>, String>,
    channel: Seq<char>,
    content: Seq<char>,
    n_attachments: nat,
) -> Option<u64> {
    if !has_request_flag_spec(flags, channel) || !approvals.contains_key(channel) {
        None
    } else if links_of(words_spec(content)).len() == 0 && n_attachments == 0 {
        None
    } else {
        match parse_u64_spec(approvals[channel]@) {
            Some(id) => if id != 0 {
                Some(id)
            } else {
                None
            },
            None => None,
        }
    }
}

/// Decides whether a message goes to the approval queue, and where.
pub fn media_queue_target(
    flags: &KeyedStore<Vec<String>>,
    approvals: &KeyedStore<String>,
    channel: &str,
    content: &str,
    n_attachments: usize,
) -> (r: Option<u64>)
    ensures
        r == queue_target_spec(flags@, approvals@, channel@, content@, n_attachments as nat),
{
    if !has_request_flag(flags, channel) {
        return None;
    }
    let approval = match approvals.get(channel) {
        Some(a) => a,
        None => return None,
    };
    let urls = extract_urls(content);
    if urls.len() == 0 && n_attachments == 0 {
        return None;
    }
    match parse_u64_str(approval.as_str()) {
        Some(id) => if id != 0 {
            Some(id)
        } else {
            None
        },
        None => None,
    }
}

/// A user mention, `<@id>`.
pub open spec fn user_mention(id: Seq<char>) -> Seq<char> {
    "<@"@ + id + ">"@
}

/// A channel mention, `<#id>`.
pub open spec fn channel_mention(id: Seq<char>) -> Seq<char> {
    "<#"@ + id + ">"@
}

/// The text shown to moderators with a held-back message.
pub open spec fn approval_info_spec(author: u64, channel: u64, content: Seq<char>) -> Seq<char> {
    let head = "## Media Approval Request\n**From:** "@ + user_mention(decimal_spec(author as nat))
        + "\n**Channel:** "@ + channel_mention(decimal_spec(channel as nat));
    if content.len() == 0 {
        head
    } else {
        head + "\n\n"@ + content
    }
}

/// `<@id>` for a numeric id.
fn user_mention_of(id: u64) -> (r: String)
    ensures
        r@ == user_mention(decimal_spec(id as nat)),
{
    let d = decimal_string(id);
    concat3("<@", d.as_str(), ">")
}

/// `<#id>` for a numeric id.
fn channel_mention_of(id: u64) -> (r: String)
    ensures
        r@ == channel_mention(decimal_spec(id as nat)),
{
    let d = decimal_string(id);
    concat3("<#", d.as_str(), ">")
}

/// Writes the text shown to moderators with a held-back message.
pub fn approval_info_text(author: u64, channel: u64, content: &str) -> (r: String)
    ensures
        r@ == approval_info_spec(author, channel, content@),
{
    let mut r = owned("## Media Approval Request\n**From:** ");
    r.append(user_mention_of(author).as_str());
    r.append("\n**Channel:** ");
    r.append(channel_mention_of(channel).as_str());
    if content.unicode_len() > 0 {
        r.append("\n\n");
        r.append(content);
    }
    r
}

/// The custom ids of the approve, deny and block buttons of a request.
pub fn approval_button_ids(message_id: u64) -> (r: (String, String, String))
    ensures
        r.0@ == "media_approve_"@ + decimal_spec(message_id as nat),
        r.1@ == "media_deny_"@ + decimal_spec(message_id as nat),
        r.2@ == "media_block_"@ + decimal_spec(message_id as nat),
{
    let d = decimal_string(message_id);
    (concat2("media_approve_", d.as_str()), concat2("media_deny_", d.as_str()), concat2("media_block_", d.as_str()))
}

/// The request recorded for a held-back message. Attachment links are kept only when no
/// attachment could be stored; an empty text is kept as none.
pub fn new_media_request(
    channel_id: String,
    author_id: String,
    stored_files: Vec<String>,
    content_urls: Vec<String>,
    attachment_urls: Vec<String>,
    content: &str,
) -> (r: MediaRequest)
    ensures
        r.original_channel_id == channel_id,
        r.original_user_id == author_id,
        r.stored_files == stored_files,
        r.content_urls == content_urls,
        stored_files@.len() == 0 ==> r.attachment_urls == attachment_urls,
        stored_files@.len() > 0 ==> r.attachment_urls@.len() == 0,
        content@.len() == 0 ==> r.original_text is None,
        content@.len() > 0 ==> (r.original_text matches Some(t) && t@ == content@),
{
    let keep_attachments = stored_files.len() == 0;
    MediaRequest {
        original_channel_id: channel_id,
        original_user_id: author_id,
        stored_files,
        content_urls,
        attachment_urls: if keep_attachments {
            attachment_urls
        } else {
            Vec::new()
        },
        original_text: if content.unicode_len() == 0 {
            None
        } else {
            Some(owned(content))
        },
    }
}

/// What a moderator did with a held-back request.
#[derive(PartialEq, Eq, Structural, Clone, Copy, Debug)]
pub enum MediaVerdict {
    /// Post it in its channel.
    Approve,
    /// Keep its sender from writing in the channel for a day.
    Block,
    /// Drop it.
    Deny,
}

/// The verdict of a button press: none unless the id starts with `media_`; then approve or
/// block by prefix, and any other `media_` button drops the request.
pub open spec fn button_verdict_spec(custom_id: Seq<char>) -> Option<MediaVerdict> {
    if !starts_with_spec(custom_id, "media_"@) {
        None
    } else if starts_with_spec(custom_id, "media_approve_"@) {
        Some(MediaVerdict::Approve)
    } else if starts_with_spec(custom_id, "media_block_"@) {
        Some(MediaVerdict::Block)
    } else {
        Some(MediaVerdict::Deny)
    }
}

/// Reads a button press on a request.
pub fn button_verdict(custom_id: &str) -> (r: Option<MediaVerdict>)
    ensures
        r == button_verdict_spec(custom_id@),
{
    if !starts_with_str(custom_id, "media_") {
        None
    } else if starts_with_str(custom_id, "media_approve_") {
        Some(MediaVerdict::Approve)
    } else if starts_with_str(custom_id, "media_block_") {
        Some(MediaVerdict::Block)
    } else {
        Some(MediaVerdict::Deny)
    }
}

/// The verdict of a reaction on a request: a check mark approves, the block emoji blocks,
/// a cross, a no-entry sign or the deny emoji drop it; any other reaction is none.
pub open spec fn reaction_verdict_spec(emoji: Seq<char>) -> Option<MediaVerdict> {
    if emoji == "\u{2705}"@ {
        Some(MediaVerdict::Approve)
    } else if emoji == "1475200940964319414"@ {
        Some(MediaVerdict::Block)
    } else if emoji == "\u{274c}"@ || emoji == "\u{1f6ab}"@ || emoji == "1474811226143068303"@ {
        Some(MediaVerdict::Deny)
    } else {
        None
    }
}

/// Reads a reaction on a request.
pub fn reaction_verdict(emoji: &str) -> (r: Option<MediaVerdict>)
    ensures
        r == reaction_verdict_spec(emoji@),
{
    if str_eq(emoji, "\u{2705}") {
        Some(MediaVerdict::Approve)
    } else if str_eq(emoji, "1475200940964319414") {
        Some(MediaVerdict::Block)
    } else if str_eq(emoji, "\u{274c}") || str_eq(emoji, "\u{1f6ab}") || str_eq(
        emoji,
        "1474811226143068303",
    ) {
        Some(MediaVerdict::Deny)
    } else {
        None
    }
}

/// The text of an approved request posted from the button panel.
pub open spec fn approved_post_spec(approver: u64, req: MediaRequest) -> Seq<char> {
    let head = "Approved by "@ + user_mention(decimal_spec(approver as nat)) + "\nOriginal sender "@
        + user_mention(req.original_user_id@);
    match req.original_text {
        Some(t) => if t@.len() > 0 {
            head + "\n\n"@ + t@
        } else {
            head
        },
        None => head,
    }
}

/// Writes the text of an approved request posted from the button panel.
pub fn approved_post_text(approver: u64, req: &MediaRequest) -> (r: String)
    ensures
        r@ == approved_post_spec(approver, *req),
{
    let mut r = owned("Approved by ");
    r.append(user_mention_of(approver).as_str());
    r.append("\nOriginal sender ");
    r.append(concat3("<@", req.original_user_id.as_str(), ">").as_str());
    match &req.original_text {
        Some(t) => if t.unicode_len() > 0 {
            r.append("\n\n");
            r.append(t.as_str());
        },
        None => {},
    }
    r
}

/// The text of a request approved by reaction: the approver and sender, the text, then the
/// content links and the attachment links, each group on lines of its own.
pub open spec fn approved_by_reaction_spec(approver: u64, req: MediaRequest) -> Seq<char> {
    let head = "\u{412}\u{43b}\u{43e}\u{436}\u{435}\u{43d}\u{438}\u{435} \u{43e}\u{434}\u{43e}\u{431}\u{440}\u{438}\u{43b} "@
        + user_mention(decimal_spec(approver as nat))
        + "\n\u{41e}\u{440}\u{438}\u{433}\u{438}\u{43d}\u{430}\u{43b}\u{44c}\u{43d}\u{44b}\u{439} \u{43e}\u{442}\u{43f}\u{440}\u{430}\u{432}\u{438}\u{442}\u{435}\u{43b}\u{44c} "@
        + user_mention(req.original_user_id@);
    let with_text = match req.original_text {
        Some(t) => if t@.len() > 0 {
            head + "\n"@ + t@
        } else {
            head
        },
        None => head,
    };
    let with_content = if req.content_urls@.len() > 0 {
        with_text + "\n"@ + join_spec(str_views(req.content_urls@), "\n"@)
    } else {
        with_text
    };
    if req.attachment_urls@.len() > 0 {
        with_content + "\n"@ + join_spec(str_views(req.attachment_urls@), "\n"@)
    } else {
        with_content
    }
}

/// Writes the text of a request approved by reaction.
pub fn approved_by_reaction_text(approver: u64, req: &MediaRequest) -> (r: String)
    ensures
        r@ == approved_by_reaction_spec(approver, *req),
{
    let mut r = owned("\u{412}\u{43b}\u{43e}\u{436}\u{435}\u{43d}\u{438}\u{435} \u{43e}\u{434}\u{43e}\u{431}\u{440}\u{438}\u{43b} ");
    r.append(user_mention_of(approver).as_str());
    r.append("\n\u{41e}\u{440}\u{438}\u{433}\u{438}\u{43d}\u{430}\u{43b}\u{44c}\u{43d}\u{44b}\u{439} \u{43e}\u{442}\u{43f}\u{440}\u{430}\u{432}\u{438}\u{442}\u{435}\u{43b}\u{44c} ");
    r.append(concat3("<@", req.original_user_id.as_str(), ">").as_str());
    match &req.original_text {
        Some(t) => if t.unicode_len() > 0 {
            r.append("\n");
            r.append(t.as_str());
        },
        None => {},
    }
    if req.content_urls.len() > 0 {
        r.append("\n");
        r.append(join_strings(&req.content_urls, "\n").as_str());
    }
    if req.attachment_urls.len() > 0 {
        r.append("\n");
        r.append(join_strings(&req.attachment_urls, "\n").as_str());
    }
    r
}

/// The channel and user of a request to block: both ids must parse as numbers.
pub open spec fn block_target_spec(req: MediaRequest) -> Option<(u64, u64)> {
    match (parse_u64_spec(req.original_channel_id@), parse_u64_spec(req.original_user_id@)) {
        (Some(c), Some(u)) => Some((c, u)),
        _ => None,
    }
}

/// Finds the channel and user of a request to block.
pub fn block_target(req: &MediaRequest) -> (r: Option<(u64, u64)>)
    ensures
        r == block_target_spec(*req),
{
    match parse_u64_str(req.original_channel_id.as_str()) {
        Some(c) => match parse_u64_str(req.original_user_id.as_str()) {
            Some(u) => Some((c, u)),
            None => None,
        },
        None => None,
    }
}

/// Whether a reaction counts as a star for the starboard.
pub open spec fn is_star_spec(emoji: Seq<char>) -> bool {
    emoji == "\u{2b50}"@ || emoji == "star"@ || emoji == "1475196363343003973"@ || emoji
        == "1475196011549818970"@
}

/// Tells whether a reaction counts as a star.
pub fn is_star_emoji(emoji: &str) -> (r: bool)
    ensures
        r == is_star_spec(emoji@),
{
    str_eq(emoji, "\u{2b50}") || str_eq(emoji, "star") || str_eq(emoji, "1475196363343003973")
        || str_eq(emoji, "1475196011549818970")
}

/// The number of star reactions among `(emoji, count)` pairs.
pub open spec fn star_total(reactions: Seq<(String, u64)>) -> int
    decreases reactions.len(),
{
    if reactions.len() == 0 {
        0
    } else {
        star_total(reactions.drop_last()) + if is_star_spec(reactions.last().0@) {
            reactions.last().1 as int
        } else {
            0
        }
    }
}

proof fn lemma_star_total_prefix(reactions: Seq<(String, u64)>, i: int)
    requires
        0 <= i <= reactions.len(),
    ensures
        star_total(reactions.take(i)) <= star_total(reactions),
    decreases reactions.len() - i,
{
    if i < reactions.len() {
        lemma_star_total_prefix(reactions, i + 1);
        assert(reactions.take(i + 1).drop_last() =~= reactions.take(i));
    } else {
        assert(reactions.take(i) =~= reactions);
    }
}

/// Counts the stars on a message from its reactions.
pub fn star_count(reactions: &[(String, u64)]) -> (r: u64)
    requires
        star_total(reactions@) <= u64::MAX,
    ensures
        r == star_total(reactions@),
{
    let mut total: u64 = 0;
    let mut i: usize = 0;
    while i < reactions.len()
        invariant
            i <= reactions@.len(),
            star_total(reactions@) <= u64::MAX,
            total == star_total(reactions@.take(i as int)),
        decreases reactions@.len() - i,
    {
        assert(reactions@.take(i + 1).drop_last() =~= reactions@.take(i as int));
        proof {
            lemma_star_total_prefix(reactions@, i + 1);
        }
        if is_star_emoji(reactions[i].0.as_str()) {
            total = total + reactions[i].1;
        }
        i = i + 1;
    }
    assert(reactions@.take(reactions@.len() as int) =~= reactions@);
    total
}

/// What the starboard does once a starred message is counted.
#[derive(PartialEq, Eq, Structural, Clone, Copy, Debug)]
pub enum StarboardStep {
    /// Nothing to post; go on with the reaction.
    Continue,
    /// Post the message to this channel, then go on.
    Post(u64),
    /// The server has no starboard: stop handling the reaction.
    Stop,
}

/// The starboard's step: stop where no starboard channel is set, post when the count has
/// reached the threshold, otherwise go on.
pub open spec fn starboard_step_spec(s: GuildSettingsView, count: u64) -> StarboardStep {
    match s.starboard_channel_id {
        None => StarboardStep::Stop,
        Some(ch) => if count >= s.starboard_threshold {
            StarboardStep::Post(ch)
        } else {
            StarboardStep::Continue
        },
    }
}

/// Decides the starboard's step for a counted message.
pub fn starboard_step(s: &GuildSettings, count: u64) -> (r: StarboardStep)
    ensures
        r == starboard_step_spec(s@, count),
{
    match s.starboard_channel_id {
        None => StarboardStep::Stop,
        Some(ch) => if count >= s.starboard_threshold {
            StarboardStep::Post(ch)
        } else {
            StarboardStep::Continue
        },
    }
}

/// The starboard's step for a counted message and the marks afterwards: a message already
/// marked as reposted is left alone; otherwise [`starboard_step_spec`] decides, and a post
/// marks the message.
pub open spec fn starboard_claim_spec(
    marks: Map<Seq<char>, bool>,
    message: Seq<char>,
    s: GuildSettingsView,
    count: u64,
) -> (StarboardStep, Map<Seq<char>, bool>) {
    if marks.dom().contains(message) && marks[message] {
        (StarboardStep::Continue, marks)
    } else {
        match starboard_step_spec(s, count) {
            StarboardStep::Post(c) => (StarboardStep::Post(c), marks.insert(message, true)),
            other => (other, marks),
        }
    }
}

/// Decides the starboard's step for a counted message and marks it when it is posted.
pub fn starboard_claim(starboarded: &mut KeyedStore<bool>, message: String, s: &GuildSettings, count: u64) -> (r:
    StarboardStep)
    ensures
        (r, final(starboarded)@) == starboard_claim_spec(old(starboarded)@, message@, s@, count),
{
    if already_starboarded(starboarded, message.as_str()) {
        return StarboardStep::Continue;
    }
    let step = starboard_step(s, count);
    match step {
        StarboardStep::Post(_) => {
            starboarded.insert(message, true);
        },
        _ => {},
    }
    step
}

/// Each attachment link followed by a line break.
pub open spec fn lines_of(urls: Seq<Seq<char>>) -> Seq<char>
    decreases urls.len(),
{
    if urls.len() == 0 {
        Seq::empty()
    } else {
        lines_of(urls.drop_last()) + urls.last() + "\n"@
    }
}

/// The starboard post of a message.
pub open spec fn starboard_post_spec(
    count: u64,
    channel: u64,
    author: Seq<char>,
    content: Seq<char>,
    attachments: Seq<Seq<char>>,
    guild: u64,
    message: u64,
) -> Seq<char> {
    let head = "\u{2b50} **"@ + decimal_spec(count as nat) + "** | "@ + channel_mention(
        decimal_spec(channel as nat),
    ) + "\n\n**"@ + author + "**: "@ + content;
    let with_files = if attachments.len() > 0 {
        head + "\n\nAttachments:\n"@ + lines_of(attachments)
    } else {
        head
    };
    with_files + "\n[Jump to Message](https://discord.com/channels/"@ + decimal_spec(guild as nat)
        + "/"@ + decimal_spec(channel as nat) + "/"@ + decimal_spec(message as nat) + ")"@
}

/// Writes the starboard post of a message.
pub fn starboard_post_text(
    count: u64,
    channel: u64,
    author: &str,
    content: &str,
    attachments: &[String],
    guild: u64,
    message: u64,
) -> (r: String)
    ensures
        r@ == starboard_post_spec(count, channel, author@, content@, str_views(attachments@), guild, message),
{
    let mut r = owned("\u{2b50} **");
    r.append(decimal_string(count).as_str());
    r.append("** | ");
    r.append(channel_mention_of(channel).as_str());
    r.append("\n\n**");
    r.append(author);
    r.append("**: ");
    r.append(content);
    if attachments.len() > 0 {
        r.append("\n\nAttachments:\n");
        let ghost start = r@;
        let mut i: usize = 0;
        while i < attachments.len()
            invariant
                i <= attachments@.len(),
                r@ == start + lines_of(str_views(attachments@.take(i as int))),
            decreases attachments@.len() - i,
        {
            assert(str_views(attachments@.take(i + 1)).drop_last() =~= str_views(
                attachments@.take(i as int),
            ));
            assert(str_views(attachments@.take(i + 1)).last() == attachments@[i as int]@);
            r.append(attachments[i].as_str());
            r.append("\n");
            i = i + 1;
        }
        assert(attachments@.take(attachments@.len() as int) =~= attachments@);
    }
    r.append("\n[Jump to Message](https://discord.com/channels/");
    r.append(decimal_string(guild).as_str());
    r.append("/");
    r.append(decimal_string(channel).as_str());
    r.append("/");
    r.append(decimal_string(message).as_str());
    r.append(")");
    r
}

/// The record kept for a reaction role.
pub fn reaction_role_config(role_id: u64, emoji: &str) -> (r: ReactionRoleConfig)
    ensures
        r.role_id matches Some(x) && x@ == decimal_spec(role_id as nat),
        r.emoji matches Some(e) && e@ == emoji@,
{
    ReactionRoleConfig { role_id: Some(decimal_string(role_id)), emoji: Some(owned(emoji)) }
}

/// The role to give or take for a reaction: the record's emoji is this one and its role id
/// parses as a number.
pub open spec fn reaction_role_spec(config: ReactionRoleConfig, emoji: Seq<char>) -> Option<u64> {
    match (config.role_id, config.emoji) {
        (Some(role), Some(e)) => if e@ == emoji {
            parse_u64_spec(role@)
        } else {
            None
        },
        _ => None,
    }
}

/// Finds the role that a reaction gives or takes.
pub fn reaction_role_target(config: &ReactionRoleConfig, emoji: &str) -> (r: Option<u64>)
    ensures
        r == reaction_role_spec(*config, emoji@),
{
    match (&config.role_id, &config.emoji) {
        (Some(role), Some(e)) => if str_eq(e.as_str(), emoji) {
            parse_u64_str(role.as_str())
        } else {
            None
        },
        _ => None,
    }
}

/// The text posted for a reaction role when none is given.
pub open spec fn reaction_role_prompt_spec(emoji: Seq<char>, role_id: u64) -> Seq<char> {
    "React with "@ + emoji + " to get the role with ID "@ + decimal_spec(role_id as nat) + "!"@
}

/// The text posted for a reaction role: the given one, else the default prompt.
pub fn reaction_role_prompt(content: Option<String>, emoji: &str, role_id: u64) -> (r: String)
    ensures
        content matches Some(c) ==> r@ == c@,
        content is None ==> r@ == reaction_role_prompt_spec(emoji@, role_id),
{
    match content {
        Some(c) => c,
        None => {
            let mut r = concat3("React with ", emoji, " to get the role with ID ");
            r.append(decimal_string(role_id).as_str());
            r.append("!");
            r
        },
    }
}

/// A message for the server's log channel.
pub struct LogEntry {
    pub title: String,
    pub description: String,
    pub color: u32,
}

/// How a member's voice channel changed.
#[derive(PartialEq, Eq, Structural, Clone, Copy, Debug)]
pub enum VoiceChange {
    /// Joined this channel from none.
    Joined(u64),
    /// Left this channel for none.
    Left(u64),
    /// Went from the first channel to the second.
    Moved(u64, u64),
    /// Nothing to log.
    Unchanged,
}

/// The change between the channel before and after a voice state update.
pub open spec fn voice_change_spec(old: Option<u64>, new: Option<u64>) -> VoiceChange {
    match (old, new) {
        (None, Some(n)) => VoiceChange::Joined(n),
        (Some(o), None) => VoiceChange::Left(o),
        (Some(o), Some(n)) => if o != n {
            VoiceChange::Moved(o, n)
        } else {
            VoiceChange::Unchanged
        },
        (None, None) => VoiceChange::Unchanged,
    }
}

/// Reads a voice state update.
pub fn voice_change(old: Option<u64>, new: Option<u64>) -> (r: VoiceChange)
    ensures
        r == voice_change_spec(old, new),
{
    match (old, new) {
        (None, Some(n)) => VoiceChange::Joined(n),
        (Some(o), None) => VoiceChange::Left(o),
        (Some(o), Some(n)) => if o != n {
            VoiceChange::Moved(o, n)
        } else {
            VoiceChange::Unchanged
        },
        (None, None) => VoiceChange::Unchanged,
    }
}

/// Who did an action to `target`, from the latest audit log entry `(executor, target)`:
/// the executor, when the entry's target is this member.
pub open spec fn audit_actor_spec(entry: Option<(u64, Option<u64>)>, target: u64) -> Option<u64> {
    match entry {
        Some((user, Some(t))) => if t == target {
            Some(user)
        } else {
            None
        },
        _ => None,
    }
}

/// Finds who did an action to a member.
pub fn audit_actor(entry: Option<(u64, Option<u64>)>, target: u64) -> (r: Option<u64>)
    ensures
        r == audit_actor_spec(entry, target),
{
    match entry {
        Some((user, Some(t))) => if t == target {
            Some(user)
        } else {
            None
        },
        _ => None,
    }
}

/// A mention of who acted, or `fallback` when unknown.
pub open spec fn actor_label_spec(actor: Option<u64>, fallback: Seq<char>) -> Seq<char> {
    match actor {
        Some(u) => user_mention(decimal_spec(u as nat)),
        None => fallback,
    }
}

fn actor_label(actor: Option<u64>, fallback: &str) -> (r: String)
    ensures
        r@ == actor_label_spec(actor, fallback@),
{
    match actor {
        Some(u) => user_mention_of(u),
        None => owned(fallback),
    }
}

/// The log text of a voice change by `user`, where `actor` is who moved or disconnected them.
pub open spec fn voice_log_spec(change: VoiceChange, user: u64, actor: Option<u64>) -> Option<
    (Seq<char>, Seq<char>, u32),
> {
    let who = "**User:** "@ + user_mention(decimal_spec(user as nat));
    let by = actor_label_spec(actor, "Self/Unknown"@);
    match change {
        VoiceChange::Joined(c) => Some(
            (
                "\u{1f399}\u{fe0f} Voice Joined"@,
                who + "\n**Channel:** "@ + channel_mention(decimal_spec(c as nat)),
                0x44ff44u32,
            ),
        ),
        VoiceChange::Left(c) => Some(
            (
                "\u{1f399}\u{fe0f} Voice Left / Disconnected"@,
                who + "\n**Channel:** "@ + channel_mention(decimal_spec(c as nat))
                    + "\n**Action By:** "@ + by,
                0xffaa44u32,
            ),
        ),
        VoiceChange::Moved(o, n) => Some(
            (
                "\u{1f399}\u{fe0f} Voice Moved"@,
                who + "\n**From:** "@ + channel_mention(decimal_spec(o as nat)) + "\n**To:** "@
                    + channel_mention(decimal_spec(n as nat)) + "\n**Moved By:** "@ + by,
                0xaaaaffu32,
            ),
        ),
        VoiceChange::Unchanged => None,
    }
}

/// The view of a log entry.
pub open spec fn entry_view(e: LogEntry) -> (Seq<char>, Seq<char>, u32) {
    (e.title@, e.description@, e.color)
}

/// Writes the log entry of a voice change.
pub fn voice_log_entry(change: VoiceChange, user: u64, actor: Option<u64>) -> (r: Option<LogEntry>)
    ensures
        r matches Some(e) ==> voice_log_spec(change, user, actor) == Some(entry_view(e)),
        r is None ==> voice_log_spec(change, user, actor) is None,
{
    let mut who = owned("**User:** ");
    who.append(user_mention_of(user).as_str());
    match change {
        VoiceChange::Joined(c) => {
            who.append("\n**Channel:** ");
            who.append(channel_mention_of(c).as_str());
            Some(LogEntry { title: owned("\u{1f399}\u{fe0f} Voice Joined"), description: who, color: 0x44ff44 })
        },
        VoiceChange::Left(c) => {
            who.append("\n**Channel:** ");
            who.append(channel_mention_of(c).as_str());
            who.append("\n**Action By:** ");
            who.append(actor_label(actor, "Self/Unknown").as_str());
            Some(
                LogEntry {
                    title: owned("\u{1f399}\u{fe0f} Voice Left / Disconnected"),
                    description: who,
                    color: 0xffaa44,
                },
            )
        },
        VoiceChange::Moved(o, n) => {
            who.append("\n**From:** ");
            who.append(channel_mention_of(o).as_str());
            who.append("\n**To:** ");
            who.append(channel_mention_of(n).as_str());
            who.append("\n**Moved By:** ");
            who.append(actor_label(actor, "Self/Unknown").as_str());
            Some(LogEntry { title: owned("\u{1f399}\u{fe0f} Voice Moved"), description: who, color: 0xaaaaff })
        },
        VoiceChange::Unchanged => None,
    }
}

/// Role mentions `<@&id>` of the ids of `xs` that are not in `ys`, in order.
pub open spec fn roles_not_in(xs: Seq<u64>, ys: Seq<u64>) -> Seq<Seq<char>>
    decreases xs.len(),
{
    if xs.len() == 0 {
        Seq::empty()
    } else {
        let before = roles_not_in(xs.drop_last(), ys);
        if ys.contains(xs.last()) {
            before
        } else {
            before.push("<@&"@ + decimal_spec(xs.last() as nat) + ">"@)
        }
    }
}

/// The lines that describe a role change: roles added, then roles removed, each line only
/// where there are some.
pub open spec fn role_change_lines(old: Seq<u64>, new: Seq<u64>) -> Seq<Seq<char>> {
    let added = roles_not_in(new, old);
    let removed = roles_not_in(old, new);
    let a = if added.len() > 0 {
        seq!["**Added:** "@ + join_spec(added, ", "@)]
    } else {
        Seq::empty()
    };
    if removed.len() > 0 {
        a.push("**Removed:** "@ + join_spec(removed, ", "@))
    } else {
        a
    }
}

fn u64_in(xs: &[u64], x: u64) -> (r: bool)
    ensures
        r == xs@.contains(x),
{
    let mut i: usize = 0;
    while i < xs.len()
        invariant
            i <= xs@.len(),
            forall|j: int| 0 <= j < i ==> xs@[j] != x,
        decreases xs@.len() - i,
    {
        if xs[i] == x {
            assert(xs@[i as int] == x);
            return true;
        }
        i = i + 1;
    }
    false
}

fn roles_not_in_exec(xs: &[u64], ys: &[u64]) -> (r: Vec<String>)
    ensures
        str_views(r@) == roles_not_in(xs@, ys@),
{
    let mut r: Vec<String> = Vec::new();
    let mut i: usize = 0;
    while i < xs.len()
        invariant
            i <= xs@.len(),
            str_views(r@) == roles_not_in(xs@.take(i as int), ys@),
        decreases xs@.len() - i,
    {
        assert(xs@.take(i + 1).drop_last() =~= xs@.take(i as int));
        assert(xs@.take(i + 1).last() == xs@[i as int]);
        if !u64_in(ys, xs[i]) {
            let ghost before = r@;
            let d = decimal_string(xs[i]);
            r.push(concat3("<@&", d.as_str(), ">"));
            assert(str_views(r@) =~= str_views(before).push("<@&"@ + d@ + ">"@));
        }
        i = i + 1;
    }
    assert(xs@.take(xs@.len() as int) =~= xs@);
    r
}

/// The text of a role change, or none when no role was added or removed.
pub fn role_change_text(old: &[u64], new: &[u64]) -> (r: Option<String>)
    ensures
        role_change_lines(old@, new@).len() == 0 ==> r is None,
        role_change_lines(old@, new@).len() > 0 ==> (r matches Some(t) && t@ == join_spec(
            role_change_lines(old@, new@),
            "\n"@,
        )),
{
    let added = roles_not_in_exec(new, old);
    let removed = roles_not_in_exec(old, new);
    let mut lines: Vec<String> = Vec::new();
    if added.len() > 0 {
        lines.push(concat2("**Added:** ", join_strings(&added, ", ").as_str()));
    }
    if removed.len() > 0 {
        let ghost before = lines@;
        lines.push(concat2("**Removed:** ", join_strings(&removed, ", ").as_str()));
        assert(str_views(lines@) =~= str_views(before).push(
            "**Removed:** "@ + join_spec(str_views(removed@), ", "@),
        ));
    }
    assert(str_views(lines@) =~= role_change_lines(old@, new@));
    if lines.len() == 0 {
        None
    } else {
        Some(join_strings(&lines, "\n"))
    }
}

/// The log entry of a role change: who, who changed it, and the change lines.
pub open spec fn role_log_spec(user: u64, actor: Option<u64>, changes: Seq<char>) -> (
    Seq<char>,
    Seq<char>,
    u32,
) {
    (
        "\u{1f6e1}\u{fe0f} Roles Updated"@,
        "**User:** "@ + user_mention(decimal_spec(user as nat)) + "\n**Updated By:** "@
            + actor_label_spec(actor, "Unknown/Self"@) + "\n"@ + changes,
        0x44aaffu32,
    )
}

/// Writes the log entry of a role change.
pub fn role_log_entry(user: u64, actor: Option<u64>, changes: &str) -> (r: LogEntry)
    ensures
        entry_view(r) == role_log_spec(user, actor, changes@),
{
    let mut d = owned("**User:** ");
    d.append(user_mention_of(user).as_str());
    d.append("\n**Updated By:** ");
    d.append(actor_label(actor, "Unknown/Self").as_str());
    d.append("\n");
    d.append(changes);
    LogEntry { title: owned("\u{1f6e1}\u{fe0f} Roles Updated"), description: d, color: 0x44aaff }
}

/// The log entry of a deleted message; `actor` is the executor of the latest deletion.
pub open spec fn delete_log_spec(channel: u64, message: u64, actor: Option<u64>) -> (
    Seq<char>,
    Seq<char>,
    u32,
) {
    (
        "\u{1f5d1}\u{fe0f} Message Deleted"@,
        "**Channel:** "@ + channel_mention(decimal_spec(channel as nat)) + "\n**Message ID:** `"@
            + decimal_spec(message as nat) + "`\n**Deleted By:** "@ + actor_label_spec(
            actor,
            "Unknown/Self"@,
        ),
        0xff4444u32,
    )
}

/// Writes the log entry of a deleted message.
pub fn delete_log_entry(channel: u64, message: u64, actor: Option<u64>) -> (r: LogEntry)
    ensures
        entry_view(r) == delete_log_spec(channel, message, actor),
{
    let mut d = owned("**Channel:** ");
    d.append(channel_mention_of(channel).as_str());
    d.append("\n**Message ID:** `");
    d.append(decimal_string(message).as_str());
    d.append("`\n**Deleted By:** ");
    d.append(actor_label(actor, "Unknown/Self").as_str());
    LogEntry { title: owned("\u{1f5d1}\u{fe0f} Message Deleted"), description: d, color: 0xff4444 }
}

/// Whether a message is logged as a command: it starts with `!` or `$`, or was sent in the
/// server's terminal channel.
pub open spec fn is_logged_command_spec(content: Seq<char>, channel: u64, terminal: Option<u64>) -> bool {
    starts_with_spec(content, "!"@) || starts_with_spec(content, "$"@) || terminal == Some(channel)
}

/// Decides whether a message is logged as a command.
pub fn is_logged_command(content: &str, channel: u64, terminal: Option<u64>) -> (r: bool)
    ensures
        r == is_logged_command_spec(content@, channel, terminal),
{
    starts_with_str(content, "!") || starts_with_str(content, "$") || match terminal {
        Some(t) => t == channel,
        None => false,
    }
}

/// The log entry of a command message.
pub open spec fn command_log_spec(tag: Seq<char>, user: u64, channel: u64, content: Seq<char>) -> (
    Seq<char>,
    Seq<char>,
    u32,
) {
    (
        "\u{2699}\u{fe0f} Command Executed"@,
        "**User:** "@ + tag + " ("@ + user_mention(decimal_spec(user as nat)) + ")\n**Channel:** "@
            + channel_mention(decimal_spec(channel as nat)) + "\n**Command:** `"@ + content + "`"@,
        0xaa44ffu32,
    )
}

/// Writes the log entry of a command message.
pub fn command_log_entry(tag: &str, user: u64, channel: u64, content: &str) -> (r: LogEntry)
    ensures
        entry_view(r) == command_log_spec(tag@, user, channel, content@),
{
    let mut d = concat3("**User:** ", tag, " (");
    d.append(user_mention_of(user).as_str());
    d.append(")\n**Channel:** ");
    d.append(channel_mention_of(channel).as_str());
    d.append("\n**Command:** `");
    d.append(content);
    d.append("`");
    LogEntry { title: owned("\u{2699}\u{fe0f} Command Executed"), description: d, color: 0xaa44ff }
}

/// The role given to a member who joins: the server's auto role, else the fallback id from
/// the environment when it parses as a number.
pub open spec fn join_role_spec(auto_role: Option<u64>, fallback: Option<Seq<char>>) -> Option<u64> {
    match auto_role {
        Some(r) => Some(r),
        None => match fallback {
            Some(f) => parse_u64_spec(f),
            None => None,
        },
    }
}

/// Decides the role given to a member who joins.
pub fn join_role(auto_role: Option<u64>, fallback: Option<&str>) -> (r: Option<u64>)
    ensures
        r == join_role_spec(
            auto_role,
            match fallback {
                Some(f) => Some(f@),
                None => None,
            },
        ),
{
    match auto_role {
        Some(r) => Some(r),
        None => match fallback {
            Some(f) => parse_u64_str(f),
            None => None,
        },
    }
}

/// What the bot does when a message tags it.
pub enum MentionAction {
    /// Nothing: not in a server, not tagged, or AI replies are off.
    Ignore,
    /// AI replies are only allowed in this other channel.
    Restricted(u64),
    /// The message holds no question besides the tag.
    AskQuestion,
    /// Answer this question.
    Generate(String),
}

/// The value of a [`MentionAction`].
pub enum MentionPlan {
    Ignore,
    Restricted(u64),
    AskQuestion,
    Generate(Seq<char>),
}

impl View for MentionAction {
    type V = MentionPlan;

    open spec fn view(&self) -> MentionPlan {
        match self {
            MentionAction::Ignore => MentionPlan::Ignore,
            MentionAction::Restricted(c) => MentionPlan::Restricted(*c),
            MentionAction::AskQuestion => MentionPlan::AskQuestion,
            MentionAction::Generate(t) => MentionPlan::Generate(t@),
        }
    }
}

/// The answer to a tag: ignored outside servers, without the tag, or with AI off; pointed to
/// the AI channel when one is set and this is another; asked for a question when the message
/// is only the tag; otherwise the message without the tag is the question.
pub open spec fn mention_plan_spec(
    store: Map<Seq<char>, GuildSettings>,
    guild: Option<u64>,
    mentioned: bool,
    channel: u64,
    content: Seq<char>,
    bot_id: u64,
) -> MentionPlan {
    match guild {
        None => MentionPlan::Ignore,
        Some(g) => {
            let s = settings_at(store, guild_key(g));
            let q = stripped_mention_spec(content, bot_id);
            if !mentioned || !s.ai_enabled {
                MentionPlan::Ignore
            } else if s.ai_channel_id is Some && s.ai_channel_id != Some(channel) {
                MentionPlan::Restricted(s.ai_channel_id->0)
            } else if q.len() == 0 {
                MentionPlan::AskQuestion
            } else {
                MentionPlan::Generate(q)
            }
        },
    }
}

/// Decides how to answer a message that may tag the bot.
pub fn mention_action(
    store: &KeyedStore<GuildSettings>,
    guild: Option<u64>,
    mentioned: bool,
    channel: u64,
    content: &str,
    bot_id: u64,
) -> (r: MentionAction)
    ensures
        r@ == mention_plan_spec(store@, guild, mentioned, channel, content@, bot_id),
{
    let g = match guild {
        None => return MentionAction::Ignore,
        Some(g) => g,
    };
    if !mentioned {
        return MentionAction::Ignore;
    }
    let s = guild_settings(store, g);
    if !s.ai_enabled {
        return MentionAction::Ignore;
    }
    match s.ai_channel_id {
        Some(c) => if c != channel {
            return MentionAction::Restricted(c);
        },
        None => {},
    }
    let q = strip_bot_mention(content, bot_id);
    if q.unicode_len() == 0 {
        MentionAction::AskQuestion
    } else {
        MentionAction::Generate(q)
    }
}

/// The reply when AI answers belong in another channel.
pub fn restricted_reply(channel: u64) -> (r: String)
    ensures
        r@ == "AI replies are restricted to "@ + channel_mention(decimal_spec(channel as nat))
            + " on this server."@,
{
    let mut r = owned("AI replies are restricted to ");
    r.append(channel_mention_of(channel).as_str());
    r.append(" on this server.");
    r
}

/// The reply when a generation request fails.
pub fn generation_failed_reply(error: &str) -> (r: String)
    ensures
        r@ == "Vertex AI request failed: "@ + error@,
{
    concat2("Vertex AI request failed: ", error)
}

/// The name shown for a user: their global display name when set and not empty, else their
/// user name.
pub open spec fn display_name_spec(global_name: Option<Seq<char>>, name: Seq<char>) -> Seq<char> {
    match global_name {
        Some(g) => if g.len() > 0 {
            g
        } else {
            name
        },
        None => name,
    }
}

/// Picks the name shown for a user.
pub fn display_name(global_name: Option<&str>, name: &str) -> (r: String)
    ensures
        r@ == display_name_spec(
            match global_name {
                Some(g) => Some(g@),
                None => None,
            },
            name@,
        ),
{
    match global_name {
        Some(g) => if g.unicode_len() > 0 {
            owned(g)
        } else {
            owned(name)
        },
        None => owned(name),
    }
}

/// A message of the channel's recent history.
pub struct HistoryEntry {
    pub speaker: String,
    pub content: String,
    pub attachments: usize,
}

/// The prompt line of a history message: none for a message with neither text nor
/// attachments, a marker for attachments alone, else the speaker and the trimmed text.
pub open spec fn history_line(e: HistoryEntry) -> Option<Seq<char>> {
    let t = trim_spec(e.content@);
    if t.len() == 0 && e.attachments == 0 {
        None
    } else if t.len() == 0 {
        Some(e.speaker@ + ": [attachment only]"@)
    } else {
        Some(e.speaker@ + ": "@ + t)
    }
}

/// The prompt lines of a history given newest first, oldest line first.
pub open spec fn history_lines(newest_first: Seq<HistoryEntry>) -> Seq<Seq<char>>
    decreases newest_first.len(),
{
    if newest_first.len() == 0 {
        Seq::empty()
    } else {
        let older = history_lines(newest_first.drop_first());
        match history_line(newest_first[0]) {
            Some(l) => older.push(l),
            None => older,
        }
    }
}

/// The prompt line of the message being answered.
pub open spec fn current_line(speaker: Seq<char>, text: Seq<char>, attachments: nat) -> Seq<char> {
    if attachments == 0 {
        speaker + ": "@ + text
    } else {
        speaker + ": "@ + text + "\n[Attached images: "@ + decimal_spec(attachments) + "]"@
    }
}

/// The prompt sent for a tag: the recent history, oldest first, then the question.
pub open spec fn ai_prompt_spec(
    newest_first: Seq<HistoryEntry>,
    speaker: Seq<char>,
    text: Seq<char>,
    attachments: nat,
) -> Seq<char> {
    "Recent channel context, oldest first:\n"@ + join_spec(
        history_lines(newest_first).push(current_line(speaker, text, attachments)),
        "\n"@,
    ) + "\n\nReply to the latest user message."@
}

fn history_line_text(e: &HistoryEntry) -> (r: Option<String>)
    ensures
        r matches Some(l) ==> history_line(*e) == Some(l@),
        r is None ==> history_line(*e) is None,
{
    let t = trim_str(e.content.as_str());
    if t.unicode_len() == 0 && e.attachments == 0 {
        None
    } else if t.unicode_len() == 0 {
        Some(concat2(e.speaker.as_str(), ": [attachment only]"))
    } else {
        Some(concat3(e.speaker.as_str(), ": ", t.as_str()))
    }
}

/// Builds the prompt for a tag from the channel's history, given newest first as Discord
/// returns it.
pub fn build_ai_prompt(newest_first: &[HistoryEntry], speaker: &str, text: &str, attachments: usize) -> (r: String)
    ensures
        r@ == ai_prompt_spec(newest_first@, speaker@, text@, attachments as nat),
{
    let mut lines: Vec<String> = Vec::new();
    let mut i: usize = newest_first.len();
    assert(newest_first@.skip(i as int) =~= Seq::<HistoryEntry>::empty());
    while i > 0
        invariant
            i <= newest_first@.len(),
            str_views(lines@) == history_lines(newest_first@.skip(i as int)),
        decreases i,
    {
        i = i - 1;
        assert(newest_first@.skip(i as int).drop_first() =~= newest_first@.skip(i + 1));
        assert(newest_first@.skip(i as int)[0] == newest_first@[i as int]);
        match history_line_text(&newest_first[i]) {
            Some(l) => {
                let ghost before = lines@;
                lines.push(l);
                assert(str_views(lines@) =~= str_views(before).push(lines@.last()@));
            },
            None => {},
        }
    }
    assert(newest_first@.skip(0) =~= newest_first@);
    let cur = if attachments == 0 {
        concat3(speaker, ": ", text)
    } else {
        let mut c = concat3(speaker, ": ", text);
        c.append("\n[Attached images: ");
        c.append(decimal_string(attachments as u64).as_str());
        c.append("]");
        c
    };
    let ghost before = lines@;
    lines.push(cur);
    assert(str_views(lines@) =~= str_views(before).push(current_line(speaker@, text@, attachments as nat)));
    let mut r = owned("Recent channel context, oldest first:\n");
    r.append(join_strings(&lines, "\n").as_str());
    r.append("\n\nReply to the latest user message.");
    r
}

/// What a message did to a pending sticky setup.
#[derive(PartialEq, Eq, Structural, Clone, Copy, Debug)]
pub enum StickySetup {
    /// Its author is not setting up a sticky message in this channel.
    NotAwaiting,
    /// It had neither text nor an image; the setup goes on.
    Empty,
    /// It became the channel's sticky message.
    Stored,
}

/// Whether `new` is `old` with `key` now mapped to a sticky message with this text and
/// image and no posted copy yet.
pub open spec fn sticky_stored(
    old: Map<Seq<char>, StickyMessage>,
    new: Map<Seq<char>, StickyMessage>,
    key: Seq<char>,
    content: Option<Seq<char>>,
    image: Option<Seq<char>>,
) -> bool {
    new.dom().contains(key) && new == old.insert(key, new[key]) && opt_chars(new[key].content)
        == content && opt_chars(new[key].image_url) == image && new[key].last_message_id is None
}

/// Handles a message from someone setting up a sticky message. The message counts where its
/// author is awaited in this channel; its trimmed text and first image, if either is there,
/// become the channel's sticky message and the author is no longer awaited.
pub fn sticky_setup(
    awaiting: &mut KeyedStore<String>,
    stickies: &mut KeyedStore<StickyMessage>,
    user: &str,
    channel: &str,
    content: &str,
    image: Option<String>,
) -> (r: StickySetup)
    ensures
        !(old(awaiting)@.dom().contains(user@) && old(awaiting)@[user@]@ == channel@) ==> (r
            == StickySetup::NotAwaiting && final(awaiting)@ == old(awaiting)@ && final(stickies)@
            == old(stickies)@),
        (old(awaiting)@.dom().contains(user@) && old(awaiting)@[user@]@ == channel@) ==> {
            let t = trim_spec(content@);
            if t.len() == 0 && image is None {
                r == StickySetup::Empty && final(awaiting)@ == old(awaiting)@ && final(stickies)@
                    == old(stickies)@
            } else {
                &&& r == StickySetup::Stored
                &&& final(awaiting)@ == old(awaiting)@.remove(user@)
                &&& sticky_stored(
                    old(stickies)@,
                    final(stickies)@,
                    channel@,
                    if t.len() == 0 {
                        None
                    } else {
                        Some(t)
                    },
                    opt_chars(image),
                )
            }
        },
{
    let expected = match awaiting.get(user) {
        Some(c) => str_eq(c.as_str(), channel),
        None => false,
    };
    if !expected {
        return StickySetup::NotAwaiting;
    }
    let t = trim_str(content);
    if t.unicode_len() == 0 && image.is_none() {
        return StickySetup::Empty;
    }
    let _ = awaiting.remove(user);
    let sticky = StickyMessage {
        content: if t.unicode_len() == 0 {
            None
        } else {
            Some(t)
        },
        image_url: image,
        last_message_id: None,
    };
    stickies.insert(owned(channel), sticky);
    StickySetup::Stored
}

/// Records the id of the newest posted copy of a channel's sticky message, if the channel
/// still has one.
pub fn record_sticky_post(stickies: &mut KeyedStore<StickyMessage>, channel: &str, message_id: u64)
    ensures
        !old(stickies)@.dom().contains(channel@) ==> final(stickies)@ == old(stickies)@,
        old(stickies)@.dom().contains(channel@) ==> {
            let before = old(stickies)@[channel@];
            &&& final(stickies)@.dom().contains(channel@)
            &&& final(stickies)@ == old(stickies)@.insert(channel@, final(stickies)@[channel@])
            &&& final(stickies)@[channel@].content == before.content
            &&& final(stickies)@[channel@].image_url == before.image_url
            &&& opt_chars(final(stickies)@[channel@].last_message_id) == Some(
                decimal_spec(message_id as nat),
            )
        },
{
    let entry = match stickies.get(channel) {
        Some(e) => StickyMessage {
            content: copy_opt(&e.content),
            image_url: copy_opt(&e.image_url),
            last_message_id: Some(decimal_string(message_id)),
        },
        None => return,
    };
    stickies.insert(owned(channel), entry);
}

/// What reposting a sticky message does: the previous copy to delete (its stored id, when it
/// parses), the text (when not empty) and the image.
pub open spec fn sticky_repost_spec(s: StickyMessage) -> (Option<u64>, Option<Seq<char>>, Option<Seq<char>>) {
    (
        match s.last_message_id {
            Some(id) => parse_u64_spec(id@),
            None => None,
        },
        match s.content {
            Some(c) => if c@.len() > 0 {
                Some(c@)
            } else {
                None
            },
            None => None,
        },
        opt_chars(s.image_url),
    )
}

/// Plans the repost of a channel's sticky message.
pub fn sticky_repost(s: &StickyMessage) -> (r: (Option<u64>, Option<String>, Option<String>))
    ensures
        (r.0, opt_chars(r.1), opt_chars(r.2)) == sticky_repost_spec(*s),
{
    let old_id = match &s.last_message_id {
        Some(id) => parse_u64_str(id.as_str()),
        None => None,
    };
    let content = match &s.content {
        Some(c) => if c.unicode_len() > 0 {
            Some(owned(c.as_str()))
        } else {
            None
        },
        None => None,
    };
    (old_id, content, copy_opt(&s.image_url))
}

/// Whether a message has already been reposted to the starboard.
pub fn already_starboarded(starboarded: &KeyedStore<bool>, message: &str) -> (r: bool)
    ensures
        r == (starboarded@.dom().contains(message@) && starboarded@[message@]),
{
    match starboarded.get(message) {
        Some(b) => *b,
        None => false,
    }
}

/// The reply to an empty message sent as a sticky message.
pub const STICKY_EMPTY_REPLY: &'static str = "Пустое сообщение нельзя сделать sticky. Отправь текст и/или картинку.";

/// The reply once a sticky message is set.
pub const STICKY_SET_REPLY: &'static str = "✅ **Sticky Message Set!**\nТеперь после каждого нового сообщения sticky будет появляться внизу.";

/// The reply to a tag without a question.
pub const ASK_QUESTION_REPLY: &'static str = "Ask a question in the same message when you tag me.";

/// The reply to a button press on a request that is no longer known.
pub const REQUEST_NOT_FOUND_REPLY: &'static str = "Request not found in state.";

} // verus!
