//! Records the bot keeps between events: media requests, sticky messages and flag panels.
use vstd::prelude::*;

verus! {

/// A media post held back for approval.
pub struct MediaRequest {
    pub original_channel_id: String,
    pub original_user_id: String,
    pub stored_files: Vec<String>,
    pub content_urls: Vec<String>,
    pub attachment_urls: Vec<String>,
    pub original_text: Option<String>,
}

/// A message that the bot keeps at the bottom of a channel.
pub struct StickyMessage {
    pub content: Option<String>,
    pub image_url: Option<String>,
    pub last_message_id: Option<String>,
}

/// The role given for a reaction on one message: the role's id and the emoji, each kept
/// only where the stored record holds it as text.
pub struct ReactionRoleConfig {
    pub role_id: Option<String>,
    pub emoji: Option<String>,
}

/// The choices made so far on an interactive flag panel.
pub struct TerminalFlagDraft {
    pub owner_user_id: String,
    pub target_channel_id: Option<String>,
    pub action: Option<String>,
    pub flag: Option<String>,
}

/// The value of a [`TerminalFlagDraft`], with its strings as character sequences.
pub struct DraftView {
    pub owner_user_id: Seq<char>,
    pub target_channel_id: Option<Seq<char>>,
    pub action: Option<Seq<char>>,
    pub flag: Option<Seq<char>>,
}

/// The characters of an optional string.
pub open spec fn opt_chars(s: Option<String>) -> Option<Seq<char>> {
    match s {
        Some(x) => Some(x@),
        None => None,
    }
}

impl View for TerminalFlagDraft {
    type V = DraftView;

    open spec fn view(&self) -> DraftView {
        DraftView {
            owner_user_id: self.owner_user_id@,
            target_channel_id: opt_chars(self.target_channel_id),
            action: opt_chars(self.action),
            flag: opt_chars(self.flag),
        }
    }
}

/// A copy of an optional string.
pub fn copy_opt(s: &Option<String>) -> (r: Option<String>)
    ensures
        r == *s,
{
    match s {
        Some(x) => Some(x.clone()),
        None => None,
    }
}

impl TerminalFlagDraft {
    /// A panel owned by `owner_user_id` with nothing chosen yet.
    pub fn for_owner(owner_user_id: String) -> (r: TerminalFlagDraft)
        ensures
            r@ == (DraftView {
                owner_user_id: owner_user_id@,
                target_channel_id: None,
                action: None,
                flag: None,
            }),
    {
        TerminalFlagDraft { owner_user_id, target_channel_id: None, action: None, flag: None }
    }

    /// A copy of this draft.
    pub fn duplicate(&self) -> (r: TerminalFlagDraft)
        ensures
            r == *self,
    {
        TerminalFlagDraft {
            owner_user_id: self.owner_user_id.clone(),
            target_channel_id: copy_opt(&self.target_channel_id),
            action: copy_opt(&self.action),
            flag: copy_opt(&self.flag),
        }
    }

    /// Whether channel, action and flag are all chosen.
    pub fn is_ready(&self) -> (r: bool)
        ensures
            r == (self.target_channel_id is Some && self.action is Some && self.flag is Some),
    {
        self.target_channel_id.is_some() && self.action.is_some() && self.flag.is_some()
    }
}

impl Default for TerminalFlagDraft {
    fn default() -> (r: TerminalFlagDraft)
        ensures
            r@ == (DraftView {
                owner_user_id: Seq::empty(),
                target_channel_id: None,
                action: None,
                flag: None,
            }),
    {
        TerminalFlagDraft::for_owner(String::new())
    }
}

impl Default for StickyMessage {
    fn default() -> (r: StickyMessage)
        ensures
            r.content is None && r.image_url is None && r.last_message_id is None,
    {
        StickyMessage { content: None, image_url: None, last_message_id: None }
    }
}

impl Default for MediaRequest {
    fn default() -> (r: MediaRequest)
        ensures
            r.original_channel_id@ == Seq::<char>::empty(),
            r.original_user_id@ == Seq::<char>::empty(),
            r.stored_files@.len() == 0,
            r.content_urls@.len() == 0,
            r.attachment_urls@.len() == 0,
            r.original_text is None,
    {
        MediaRequest {
            original_channel_id: String::new(),
            original_user_id: String::new(),
            stored_files: Vec::new(),
            content_urls: Vec::new(),
            attachment_urls: Vec::new(),
            original_text: None,
        }
    }
}

} // verus!
