//! The polling cycle for one tracked repository: look up the latest tag,
//! compare it with the cached one, store it when it is new or changed, and
//! announce it when it changed.
//!
//! The caller carries out the work. [`PollStep`] says what to do next, and
//! [`PollStep::advance_at`] takes the result and gives the step that
//! follows, until the step is [`PollStep::Done`]. [`poll_resource`] runs the
//! same steps against an in-memory cache.

use crate::github::{LookupOutcome, LookupOutcomeView};
use crate::text::{chars_of, is_blank, string_of, trim_bounds, trimmed};
use crate::time::{now, Timestamp};
use crate::tracked_repositories::tracked_repositories_releases::{
    upserted, CachedRepositoryRelease, CachedTag, TagCache,
};
use crate::tracked_repositories::{owner_and_repo_of, TrackedRelease, TrackedReleaseView};
use crate::utils::{html_escape_owned, html_escaped};
use vstd::prelude::*;
use vstd::string::StringExecFns;
use vstd::utf8::encode_utf8;

verus! {

/// Whether a byte stands for itself in a percent-encoded text: ASCII letters
/// and digits, `-`, `.`, `_` and `~`.
pub open spec fn is_unreserved(b: u8) -> bool {
    ||| 0x30 <= b <= 0x39
    ||| 0x41 <= b <= 0x5A
    ||| 0x61 <= b <= 0x7A
    ||| b == 0x2D
    ||| b == 0x2E
    ||| b == 0x5F
    ||| b == 0x7E
}

/// The upper-case hexadecimal digit for a value below sixteen.
pub open spec fn hex_digit(d: u8) -> char {
    if d < 10 {
        (0x30 + d) as char
    } else {
        (0x41 + d - 10) as char
    }
}

/// What stands for one byte in a percent-encoded text.
pub open spec fn percent_encoded_byte(b: u8) -> Seq<char> {
    if is_unreserved(b) {
        seq![b as char]
    } else {
        seq!['%', hex_digit(b / 16), hex_digit(b % 16)]
    }
}

/// The percent-encoded form of a sequence of bytes.
pub open spec fn percent_encoded_bytes(bytes: Seq<u8>) -> Seq<char>
    decreases bytes.len(),
{
    if bytes.len() == 0 {
        Seq::empty()
    } else {
        percent_encoded_bytes(bytes.drop_last()) + percent_encoded_byte(bytes.last())
    }
}

/// The percent-encoded form of a text: that of its UTF-8 bytes.
pub open spec fn percent_encoded(s: Seq<char>) -> Seq<char> {
    percent_encoded_bytes(encode_utf8(s))
}

/// Percent-encodes `s` with `urlencoding::encode`, which goes through the
/// UTF-8 bytes of `s`, keeps ASCII letters, digits, `-`, `.`, `_` and `~`,
/// and writes every other byte as `%` and two upper-case hexadecimal digits.
#[verifier::external_body]
fn percent_encode(s: &str) -> (r: String)
    ensures
        r@ == percent_encoded(s@),
{
    urlencoding::encode(s).into_owned()
}

/// Where the notifications of a repository go.
#[derive(Debug, Clone, Copy, PartialEq, Eq, Structural)]
pub enum FanOut {
    /// To the chat that registered the repository.
    Owner,
    /// To every chat that is subscribed to the repository.
    Subscribers,
}

/// The refusal of a setting that names no fan-out.
pub open spec fn unknown_fan_out_message(setting: Seq<char>) -> Seq<char> {
    "FAN_OUT must be 'owner' or 'subscribers': "@ + setting
}

/// Where announcements go, given the setting for it: to the chat of the
/// record where there is no setting or the setting, trimmed of whitespace,
/// reads `owner`; to the subscribers where it reads `subscribers`. Any other
/// setting is refused.
pub open spec fn fan_out_of(setting: Option<Seq<char>>) -> Result<FanOut, Seq<char>> {
    match setting {
        None => Ok(FanOut::Owner),
        Some(text) => if trimmed(text) == "owner"@ {
            Ok(FanOut::Owner)
        } else if trimmed(text) == "subscribers"@ {
            Ok(FanOut::Subscribers)
        } else {
            Err(unknown_fan_out_message(text))
        },
    }
}

impl FanOut {
    /// Where announcements go, given the setting for it.
    pub fn from_setting(setting: Option<&str>) -> (r: Result<FanOut, String>)
        ensures
            match r {
                Ok(fan_out) => fan_out_of(
                    match setting {
                        Some(text) => Some(text@),
                        None => None,
                    },
                ) == Ok::<FanOut, Seq<char>>(fan_out),
                Err(message) => fan_out_of(
                    match setting {
                        Some(text) => Some(text@),
                        None => None,
                    },
                ) == Err::<FanOut, Seq<char>>(message@),
            },
    {
        match setting {
            None => Ok(FanOut::Owner),
            Some(text) => {
                let chars = chars_of(text);
                let (lo, hi) = trim_bounds(&chars, 0, chars.len());
                assert(chars@.subrange(0, chars@.len() as int) =~= chars@);
                let word = string_of(&chars, lo, hi);
                if word == String::from_str("owner") {
                    Ok(FanOut::Owner)
                } else if word == String::from_str("subscribers") {
                    Ok(FanOut::Subscribers)
                } else {
                    let mut message = String::from_str("FAN_OUT must be 'owner' or 'subscribers': ");
                    message.append(text);
                    Err(message)
                }
            },
        }
    }
}

/// What reading the cache row of a repository gave.
#[derive(Debug)]
pub enum CacheRead {
    Found(CachedRepositoryRelease),
    Absent,
    /// The store could not be read; the cycle goes on as if there were no row,
    /// and announces nothing.
    Failed,
}

/// A [`CacheRead`] over sequences of characters.
pub enum CacheReadView {
    Found { id: u128, content: CachedTag },
    Absent,
    Failed,
}

impl View for CacheRead {
    type V = CacheReadView;

    open spec fn view(&self) -> CacheReadView {
        match self {
            CacheRead::Found(row) => CacheReadView::Found {
                id: row.tracked_repository_id,
                content: row.content(),
            },
            CacheRead::Absent => CacheReadView::Absent,
            CacheRead::Failed => CacheReadView::Failed,
        }
    }
}

/// The tag that the cache is known to hold, if any: that of a row that was
/// found. A row that is absent and a read that failed give none.
pub open spec fn previous_tag(read: CacheReadView) -> Option<Seq<char>> {
    match read {
        CacheReadView::Found { content, .. } => Some(content.tag),
        _ => None,
    }
}

/// A message for one chat.
#[derive(Debug)]
pub struct Notification {
    pub chat_id: i64,
    pub text: String,
}

/// The page of the release that carries `tag`.
pub open spec fn release_page_of(owner: Seq<char>, repo: Seq<char>, tag: Seq<char>) -> Seq<char> {
    "https://github.com/"@ + owner + "/"@ + repo + "/releases/tag/"@ + percent_encoded(tag)
}

/// The message that announces `tag`: the repository's name as a link to the
/// repository, and the tag as a link to its release page, all escaped for
/// HTML.
pub open spec fn notification_text_of(
    url: Seq<char>,
    name: Seq<char>,
    owner: Seq<char>,
    repo: Seq<char>,
    tag: Seq<char>,
) -> Seq<char> {
    "New release for <a href=\""@ + html_escaped(url) + "\">"@ + html_escaped(name)
        + "</a>: <a href=\""@ + html_escaped(release_page_of(owner, repo, tag)) + "\"><b>"@
        + html_escaped(tag) + "</b></a>"@
}

/// Whether a tag that was looked up is announced: only when the cache holds
/// another tag. A first tag is stored without a word.
pub open spec fn should_notify(previous: Option<Seq<char>>, latest: Seq<char>) -> bool {
    previous matches Some(p) && p != latest
}

/// Whether a tag that was looked up is written to the cache: unless the
/// cache is known to hold that very tag.
pub open spec fn should_write(previous: Option<Seq<char>>, latest: Seq<char>) -> bool {
    previous != Some(latest)
}

/// What the caller has to do next for the repository.
#[derive(Debug)]
pub enum PollStep {
    /// Look up the latest tag of `owner/repo` and report the outcome.
    Lookup { owner: String, repo: String },
    /// Read the cache row of the repository and report it.
    ReadCache { owner: String, repo: String, tag: String },
    /// Store `entry` in the cache, then report that it was tried. `announce`
    /// is the message to send afterwards, if the tag changed.
    WriteCache { entry: CachedRepositoryRelease, announce: Option<String> },
    /// List the chats subscribed to the repository and report them.
    ListSubscribers { text: String },
    /// Send `text` to `chat_id`, then report that it was tried. `remaining`
    /// are the chats that come after it.
    Send { chat_id: i64, text: String, remaining: Vec<i64> },
    /// Nothing is left to do for this repository in this cycle.
    Done,
}

/// A [`PollStep`] over sequences.
pub enum PollStepView {
    Lookup { owner: Seq<char>, repo: Seq<char> },
    ReadCache { owner: Seq<char>, repo: Seq<char>, tag: Seq<char> },
    WriteCache { id: u128, content: CachedTag, announce: Option<Seq<char>> },
    ListSubscribers { text: Seq<char> },
    Send { chat_id: i64, text: Seq<char>, remaining: Seq<i64> },
    Done,
}

impl View for PollStep {
    type V = PollStepView;

    open spec fn view(&self) -> PollStepView {
        match self {
            PollStep::Lookup { owner, repo } => PollStepView::Lookup { owner: owner@, repo: repo@ },
            PollStep::ReadCache { owner, repo, tag } => PollStepView::ReadCache {
                owner: owner@,
                repo: repo@,
                tag: tag@,
            },
            PollStep::WriteCache { entry, announce } => PollStepView::WriteCache {
                id: entry.tracked_repository_id,
                content: entry.content(),
                announce: match announce {
                    Some(text) => Some(text@),
                    None => None,
                },
            },
            PollStep::ListSubscribers { text } => PollStepView::ListSubscribers { text: text@ },
            PollStep::Send { chat_id, text, remaining } => PollStepView::Send {
                chat_id: *chat_id,
                text: text@,
                remaining: remaining@,
            },
            PollStep::Done => PollStepView::Done,
        }
    }
}

/// What the caller reports back after carrying out a step.
#[derive(Debug)]
pub enum PollReply {
    /// The outcome of the lookup.
    Lookup(LookupOutcome),
    /// What the cache holds for the repository.
    Cache(CacheRead),
    /// The cache write was tried. A failed write is not told apart: the next
    /// cycle sees the old row and tries again.
    Written,
    /// The subscribed chats, or `None` when they could not be listed.
    Subscribers(Option<Vec<i64>>),
    /// The message was handed to the notifier. A failed delivery is not told
    /// apart: it holds up neither the other chats nor the other repositories.
    Sent,
}

/// A [`PollReply`] over sequences.
pub enum PollReplyView {
    Lookup(LookupOutcomeView),
    Cache(CacheReadView),
    Written,
    Subscribers(Option<Seq<i64>>),
    Sent,
}

impl View for PollReply {
    type V = PollReplyView;

    open spec fn view(&self) -> PollReplyView {
        match self {
            PollReply::Lookup(outcome) => PollReplyView::Lookup(outcome@),
            PollReply::Cache(read) => PollReplyView::Cache(read@),
            PollReply::Written => PollReplyView::Written,
            PollReply::Subscribers(chats) => PollReplyView::Subscribers(
                match chats {
                    Some(v) => Some(v@),
                    None => None,
                },
            ),
            PollReply::Sent => PollReplyView::Sent,
        }
    }
}

/// The step that sends `text` to the first of `chats` and keeps the others
/// for later, or `Done` when there is no chat.
pub open spec fn send_to_all(text: Seq<char>, chats: Seq<i64>) -> PollStepView {
    if chats.len() == 0 {
        PollStepView::Done
    } else {
        PollStepView::Send { chat_id: chats[0], text, remaining: chats.skip(1) }
    }
}

/// The first step for `resource`: the lookup of the owner and repository
/// that its locator names, or `Done` when the locator cannot be taken apart.
pub open spec fn poll_start(resource: TrackedReleaseView) -> PollStepView {
    match owner_and_repo_of(resource.repository_url) {
        Some((owner, repo)) => PollStepView::Lookup { owner, repo },
        None => PollStepView::Done,
    }
}

/// The step that follows `step` once `reply` has come in at time `now`.
///
/// - After the lookup: a tag that is not blank leads to reading the cache;
///   no tag, a blank tag or a failure end the cycle for this repository.
/// - After the cache read: a tag that the cache already holds ends the
///   cycle. Otherwise the tag is written with `now` as its time of first
///   sight, and it is announced if the cache held another tag.
/// - After the write: without an announcement the cycle ends. With one, it
///   goes to the chat that owns the repository, or the subscribers are
///   listed.
/// - After the listing: the announcement goes to each chat in turn; a
///   listing that failed or is empty ends the cycle.
/// - After a message: the next chat, or the end.
/// - A reply that does not answer the pending step ends the cycle.
pub open spec fn poll_next(
    step: PollStepView,
    reply: PollReplyView,
    resource: TrackedReleaseView,
    fan_out: FanOut,
    now: Timestamp,
) -> PollStepView {
    match (step, reply) {
        (
            PollStepView::Lookup { owner, repo },
            PollReplyView::Lookup(LookupOutcomeView::Found(tag)),
        ) => {
            if trimmed(tag).len() == 0 {
                PollStepView::Done
            } else {
                PollStepView::ReadCache { owner, repo, tag }
            }
        },
        (PollStepView::ReadCache { owner, repo, tag }, PollReplyView::Cache(read)) => {
            let previous = previous_tag(read);
            if should_write(previous, tag) {
                PollStepView::WriteCache {
                    id: resource.id,
                    content: CachedTag { tag, first_seen_at: now },
                    announce: if should_notify(previous, tag) {
                        Some(
                            notification_text_of(
                                resource.repository_url,
                                resource.repository_name,
                                owner,
                                repo,
                                tag,
                            ),
                        )
                    } else {
                        None
                    },
                }
            } else {
                PollStepView::Done
            }
        },
        (PollStepView::WriteCache { announce: Some(text), .. }, PollReplyView::Written) => {
            match fan_out {
                FanOut::Owner => send_to_all(text, seq![resource.chat_id]),
                FanOut::Subscribers => PollStepView::ListSubscribers { text },
            }
        },
        (
            PollStepView::ListSubscribers { text },
            PollReplyView::Subscribers(Some(chats)),
        ) => send_to_all(text, chats),
        (PollStepView::Send { text, remaining, .. }, PollReplyView::Sent) => send_to_all(
            text,
            remaining,
        ),
        _ => PollStepView::Done,
    }
}

/// Messages follow the cache write: a step that sends a message or lists
/// the subscribers comes only after the write was tried, or after another
/// such step.
pub proof fn lemma_messages_follow_the_write(
    step: PollStepView,
    reply: PollReplyView,
    resource: TrackedReleaseView,
    fan_out: FanOut,
    now: Timestamp,
)
    requires
        poll_next(step, reply, resource, fan_out, now) is Send || poll_next(
            step,
            reply,
            resource,
            fan_out,
            now,
        ) is ListSubscribers,
    ensures
        step is WriteCache || step is ListSubscribers || step is Send,
        step is WriteCache ==> reply is Written,
{
}

/// A tag is announced only where the cache held another tag: without a row,
/// or with a row that could not be read, the write carries no announcement,
/// and the tag that the cache holds already is not written at all.
pub proof fn lemma_only_changes_are_announced(
    owner: Seq<char>,
    repo: Seq<char>,
    tag: Seq<char>,
    read: CacheReadView,
    resource: TrackedReleaseView,
    fan_out: FanOut,
    now: Timestamp,
)
    ensures
        ({
            let previous = previous_tag(read);
            let next = poll_next(
                PollStepView::ReadCache { owner, repo, tag },
                PollReplyView::Cache(read),
                resource,
                fan_out,
                now,
            );
            &&& previous is None ==> next == (PollStepView::WriteCache {
                id: resource.id,
                content: CachedTag { tag, first_seen_at: now },
                announce: None,
            })
            &&& previous == Some(tag) ==> next is Done
            &&& previous is Some && previous != Some(tag) ==> next == (PollStepView::WriteCache {
                id: resource.id,
                content: CachedTag { tag, first_seen_at: now },
                announce: Some(
                    notification_text_of(
                        resource.repository_url,
                        resource.repository_name,
                        owner,
                        repo,
                        tag,
                    ),
                ),
            })
        }),
{
}

/// A lookup that found nothing, or that failed, ends the cycle of the
/// repository at once: no step reads or writes the cache, none sends a
/// message.
pub proof fn lemma_failed_lookup_ends_cycle(
    step: PollStepView,
    outcome: LookupOutcomeView,
    resource: TrackedReleaseView,
    fan_out: FanOut,
    now: Timestamp,
)
    requires
        outcome is NotFound || outcome is TransientError,
    ensures
        poll_next(step, PollReplyView::Lookup(outcome), resource, fan_out, now) is Done,
{
}

/// The message that announces `tag` for the repository `name` at `url`,
/// which `owner/repo` addresses.
pub fn notification_text(url: &str, name: &str, owner: &str, repo: &str, tag: &str) -> (text:
    String)
    ensures
        text@ == notification_text_of(url@, name@, owner@, repo@, tag@),
{
    let mut page = String::from_str("https://github.com/");
    page.append(owner);
    page.append("/");
    page.append(repo);
    page.append("/releases/tag/");
    let encoded = percent_encode(tag);
    page.append(encoded.as_str());
    let url_escaped = html_escape_owned(url);
    let name_escaped = html_escape_owned(name);
    let page_escaped = html_escape_owned(page.as_str());
    let tag_escaped = html_escape_owned(tag);
    let mut text = String::from_str("New release for <a href=\"");
    text.append(url_escaped.as_str());
    text.append("\">");
    text.append(name_escaped.as_str());
    text.append("</a>: <a href=\"");
    text.append(page_escaped.as_str());
    text.append("\"><b>");
    text.append(tag_escaped.as_str());
    text.append("</b></a>");
    text
}

fn send_all(text: String, chats: Vec<i64>) -> (step: PollStep)
    ensures
        step@ == send_to_all(text@, chats@),
{
    let mut remaining = chats;
    if remaining.len() == 0 {
        PollStep::Done
    } else {
        let chat_id = remaining.remove(0);
        assert(remaining@ =~= chats@.skip(1));
        PollStep::Send { chat_id, text, remaining }
    }
}

impl PollStep {
    /// The first step of a cycle for `resource`.
    pub fn start(resource: &TrackedRelease) -> (step: Self)
        ensures
            step@ == poll_start(resource@),
    {
        match resource.repository_url.owner_and_repo() {
            Some((owner, repo)) => PollStep::Lookup { owner, repo },
            None => PollStep::Done,
        }
    }

    /// Whether nothing is left to do.
    pub fn is_done(&self) -> (b: bool)
        ensures
            b == (self@ is Done),
    {
        match self {
            PollStep::Done => true,
            _ => false,
        }
    }

    /// The step that follows this one once `reply` has come in, with `now`
    /// as the time of the observation.
    pub fn advance_at(
        self,
        reply: PollReply,
        resource: &TrackedRelease,
        fan_out: FanOut,
        now: Timestamp,
    ) -> (next: Self)
        ensures
            next@ == poll_next(self@, reply@, resource@, fan_out, now),
    {
        match self {
            PollStep::Lookup { owner, repo } => match reply {
                PollReply::Lookup(LookupOutcome::Found(tag)) => {
                    if is_blank(tag.as_str()) {
                        PollStep::Done
                    } else {
                        PollStep::ReadCache { owner, repo, tag }
                    }
                },
                _ => PollStep::Done,
            },
            PollStep::ReadCache { owner, repo, tag } => match reply {
                PollReply::Cache(read) => {
                    let (known, same) = match &read {
                        CacheRead::Found(row) => (true, row.tag_name == tag),
                        _ => (false, false),
                    };
                    if same {
                        PollStep::Done
                    } else {
                        let announce = if known {
                            let url = resource.repository_url.to_string();
                            Some(
                                notification_text(
                                    url.as_str(),
                                    resource.repository_name.as_str(),
                                    owner.as_str(),
                                    repo.as_str(),
                                    tag.as_str(),
                                ),
                            )
                        } else {
                            None
                        };
                        let entry = CachedRepositoryRelease {
                            tracked_repository_id: resource.id,
                            tag_name: tag,
                            first_seen_at: now,
                        };
                        PollStep::WriteCache { entry, announce }
                    }
                },
                _ => PollStep::Done,
            },
            PollStep::WriteCache { entry, announce } => match reply {
                PollReply::Written => match announce {
                    Some(text) => match fan_out {
                        FanOut::Owner => {
                            let mut chats: Vec<i64> = Vec::new();
                            chats.push(resource.chat_id);
                            assert(chats@ =~= seq![resource.chat_id]);
                            send_all(text, chats)
                        },
                        FanOut::Subscribers => PollStep::ListSubscribers { text },
                    },
                    None => PollStep::Done,
                },
                _ => PollStep::Done,
            },
            PollStep::ListSubscribers { text } => match reply {
                PollReply::Subscribers(Some(chats)) => send_all(text, chats),
                _ => PollStep::Done,
            },
            PollStep::Send { chat_id, text, remaining } => match reply {
                PollReply::Sent => send_all(text, remaining),
                _ => PollStep::Done,
            },
            PollStep::Done => PollStep::Done,
        }
    }

    /// The step that follows this one once `reply` has come in, with the
    /// time read from the clock. Whatever the clock says, the step is the one
    /// that [`poll_next`] gives for that time.
    pub fn advance(self, reply: PollReply, resource: &TrackedRelease, fan_out: FanOut) -> (next:
        Self)
        ensures
            exists|at: Timestamp| next@ == poll_next(self@, reply@, resource@, fan_out, at),
    {
        let at = now();
        let next = self.advance_at(reply, resource, fan_out, at);
        assert(next@ == poll_next(self@, reply@, resource@, fan_out, at));
        next
    }
}

/// The tag that a lookup contributes to the cycle of `resource`: the tag
/// that was found, unless it is blank or the locator of the resource cannot
/// be taken apart.
pub open spec fn observed_tag(resource: TrackedReleaseView, outcome: LookupOutcomeView) -> Option<
    Seq<char>,
> {
    if owner_and_repo_of(resource.repository_url) is None {
        None
    } else {
        match outcome {
            LookupOutcomeView::Found(tag) => if trimmed(tag).len() == 0 {
                None
            } else {
                Some(tag)
            },
            _ => None,
        }
    }
}

/// The cache after the cycle of `resource`.
pub open spec fn cache_after(
    cache: Map<u128, CachedTag>,
    resource: TrackedReleaseView,
    outcome: LookupOutcomeView,
    now: Timestamp,
) -> Map<u128, CachedTag> {
    match observed_tag(resource, outcome) {
        Some(tag) => upserted(cache, resource.id, tag, now),
        None => cache,
    }
}

/// Whether the cycle of `resource` announces a tag: the cache holds a row
/// for it, and the tag that was looked up differs from the stored one.
pub open spec fn announces(
    cache: Map<u128, CachedTag>,
    resource: TrackedReleaseView,
    outcome: LookupOutcomeView,
) -> bool {
    observed_tag(resource, outcome) matches Some(tag) && cache.contains_key(resource.id)
        && cache[resource.id].tag != tag
}

/// The chats that hear of a change of `resource`.
pub open spec fn destinations_of(
    resource: TrackedReleaseView,
    fan_out: FanOut,
    subscribers: Option<Seq<i64>>,
) -> Seq<i64> {
    match fan_out {
        FanOut::Owner => seq![resource.chat_id],
        FanOut::Subscribers => match subscribers {
            Some(chats) => chats,
            None => Seq::empty(),
        },
    }
}

/// The messages that the cycle of `resource` sends, in order: none unless a
/// tag is announced, and then one for each destination.
pub open spec fn notifications_of(
    cache: Map<u128, CachedTag>,
    resource: TrackedReleaseView,
    outcome: LookupOutcomeView,
    fan_out: FanOut,
    subscribers: Option<Seq<i64>>,
) -> Seq<(i64, Seq<char>)> {
    if announces(cache, resource, outcome) {
        let target = owner_and_repo_of(resource.repository_url)->0;
        let text = notification_text_of(
            resource.repository_url,
            resource.repository_name,
            target.0,
            target.1,
            observed_tag(resource, outcome)->0,
        );
        let chats = destinations_of(resource, fan_out, subscribers);
        Seq::new(chats.len(), |i: int| (chats[i], text))
    } else {
        Seq::empty()
    }
}

/// The chats that a listing gave, if it gave any.
pub open spec fn listed_chats(subscribers: Option<Vec<i64>>) -> Option<Seq<i64>> {
    match subscribers {
        Some(chats) => Some(chats@),
        None => None,
    }
}

/// The chat and the text of each message.
pub open spec fn messages(sent: Seq<Notification>) -> Seq<(i64, Seq<char>)> {
    Seq::new(sent.len(), |i: int| (sent[i].chat_id, sent[i].text@))
}

impl PollStep {
    /// The chat and the text of the message that is to be sent now, if the
    /// step is a `Send`.
    fn pending_message(&self) -> (r: Option<Notification>)
        ensures
            match r {
                Some(n) => self@ matches PollStepView::Send { chat_id, text, .. } && n.chat_id
                    == chat_id && n.text@ == text,
                None => !(self@ is Send),
            },
    {
        match self {
            PollStep::Send { chat_id, text, .. } => Some(
                Notification { chat_id: *chat_id, text: text.clone() },
            ),
            _ => None,
        }
    }
}

/// Runs the cycle of one repository against an in-memory cache: `outcome` is
/// what the lookup gave, `subscribers` what the subscription store lists for
/// the repository (`None` when it cannot be read), `now` the time of the
/// observation. The cache is written before any message is produced. The
/// result holds the messages in the order in which they go out.
pub fn poll_resource(
    resource: &TrackedRelease,
    outcome: LookupOutcome,
    cache: &mut TagCache,
    subscribers: Option<Vec<i64>>,
    fan_out: FanOut,
    now: Timestamp,
) -> (sent: Vec<Notification>)
    ensures
        final(cache)@ == cache_after(old(cache)@, resource@, outcome@, now),
        messages(sent@) == notifications_of(
            old(cache)@,
            resource@,
            outcome@,
            fan_out,
            listed_chats(subscribers),
        ),
        sent@.len() == notifications_of(
            old(cache)@,
            resource@,
            outcome@,
            fan_out,
            listed_chats(subscribers),
        ).len(),
{
    let ghost before = cache@;
    let ghost listed = listed_chats(subscribers);
    let ghost expected = notifications_of(before, resource@, outcome@, fan_out, listed);
    let mut sent: Vec<Notification> = Vec::new();
    let mut step = PollStep::start(resource);
    if step.is_done() {
        assert(messages(sent@) =~= expected);
        return sent;
    }
    step = step.advance_at(PollReply::Lookup(outcome), resource, fan_out, now);
    if step.is_done() {
        assert(messages(sent@) =~= expected);
        return sent;
    }
    let read = match cache.find_by_tracked_release_id(resource.id) {
        Some(row) => CacheRead::Found(row),
        None => CacheRead::Absent,
    };
    step = step.advance_at(PollReply::Cache(read), resource, fan_out, now);
    let wrote = match &step {
        PollStep::WriteCache { entry, .. } => {
            cache.save(entry);
            true
        },
        _ => false,
    };
    if !wrote {
        assert(cache@ =~= cache_after(before, resource@, outcome@, now));
        assert(messages(sent@) =~= expected);
        return sent;
    }
    step = step.advance_at(PollReply::Written, resource, fan_out, now);
    if let PollStep::ListSubscribers { .. } = &step {
        step = step.advance_at(PollReply::Subscribers(subscribers), resource, fan_out, now);
    }
    let ghost chats = if announces(before, resource@, outcome@) {
        destinations_of(resource@, fan_out, listed)
    } else {
        Seq::empty()
    };
    let ghost text = expected_text(resource@, outcome@);
    assert(step@ == send_to_all(text, chats));
    assert(chats.skip(0) =~= chats);
    loop
        invariant
            sent@.len() <= chats.len(),
            step@ == send_to_all(text, chats.skip(sent@.len() as int)),
            messages(sent@) == Seq::new(sent@.len(), |i: int| (chats[i], text)),
        ensures
            sent@.len() == chats.len(),
            messages(sent@) == Seq::new(sent@.len(), |i: int| (chats[i], text)),
        decreases chats.len() - sent@.len(),
    {
        let ghost k = sent@.len() as int;
        let message = step.pending_message();
        match message {
            Some(n) => {
                let ghost earlier = sent@;
                sent.push(n);
                step = step.advance_at(PollReply::Sent, resource, fan_out, now);
                assert(chats.skip(k).skip(1) =~= chats.skip(k + 1));
                assert(messages(sent@) =~= Seq::new(sent@.len(), |i: int| (chats[i], text))) by {
                    assert(messages(earlier) == Seq::new(earlier.len(), |i: int| (chats[i], text)));
                    assert forall|i: int| 0 <= i < sent@.len() implies messages(sent@)[i] == (
                        chats[i],
                        text,
                    ) by {
                        if i < k {
                            assert(messages(earlier)[i] == (chats[i], text));
                            assert(sent@[i] == earlier[i]);
                        }
                    }
                }
            },
            None => {
                break ;
            },
        }
    }
    assert(messages(sent@) =~= expected);
    sent
}

/// The text that the cycle of `resource` announces the observed tag with.
pub open spec fn expected_text(resource: TrackedReleaseView, outcome: LookupOutcomeView) -> Seq<
    char,
> {
    let target = owner_and_repo_of(resource.repository_url)->0;
    notification_text_of(
        resource.repository_url,
        resource.repository_name,
        target.0,
        target.1,
        observed_tag(resource, outcome)->0,
    )
}

/// Seeing again the tag that the cache holds changes nothing: the row keeps
/// its time of first sight, and nobody is told.
pub proof fn lemma_unchanged_tag_is_silent(
    cache: Map<u128, CachedTag>,
    resource: TrackedReleaseView,
    outcome: LookupOutcomeView,
    fan_out: FanOut,
    subscribers: Option<Seq<i64>>,
    now: Timestamp,
)
    requires
        cache.contains_key(resource.id),
        observed_tag(resource, outcome) == Some(cache[resource.id].tag),
    ensures
        cache_after(cache, resource, outcome, now) == cache,
        cache_after(cache, resource, outcome, now)[resource.id].first_seen_at
            == cache[resource.id].first_seen_at,
        notifications_of(cache, resource, outcome, fan_out, subscribers).len() == 0,
{
}

/// Seeing a tag that differs from the cached one stores the new tag with the
/// time of the observation and tells every destination exactly once, in
/// order.
pub proof fn lemma_changed_tag_is_stored_and_announced(
    cache: Map<u128, CachedTag>,
    resource: TrackedReleaseView,
    outcome: LookupOutcomeView,
    fan_out: FanOut,
    subscribers: Option<Seq<i64>>,
    now: Timestamp,
    tag: Seq<char>,
)
    requires
        cache.contains_key(resource.id),
        observed_tag(resource, outcome) == Some(tag),
        cache[resource.id].tag != tag,
    ensures
        cache_after(cache, resource, outcome, now)[resource.id] == (CachedTag {
            tag,
            first_seen_at: now,
        }),
        notifications_of(cache, resource, outcome, fan_out, subscribers).len() == destinations_of(
            resource,
            fan_out,
            subscribers,
        ).len(),
        forall|i: int|
            0 <= i < destinations_of(resource, fan_out, subscribers).len() ==> (
            #[trigger] notifications_of(cache, resource, outcome, fan_out, subscribers)[i]) == (
                destinations_of(resource, fan_out, subscribers)[i],
                expected_text(resource, outcome),
            ),
{
}

/// The first tag ever seen for a repository is stored and never announced,
/// whatever the tag is.
pub proof fn lemma_first_observation_is_silent(
    cache: Map<u128, CachedTag>,
    resource: TrackedReleaseView,
    outcome: LookupOutcomeView,
    fan_out: FanOut,
    subscribers: Option<Seq<i64>>,
    now: Timestamp,
)
    requires
        !cache.contains_key(resource.id),
    ensures
        notifications_of(cache, resource, outcome, fan_out, subscribers).len() == 0,
        observed_tag(resource, outcome) matches Some(tag) ==> cache_after(
            cache,
            resource,
            outcome,
            now,
        )[resource.id] == (CachedTag { tag, first_seen_at: now }),
{
}

/// A lookup that found nothing, or that failed, leaves the cache as it was
/// and tells nobody.
pub proof fn lemma_failed_lookup_leaves_cache(
    cache: Map<u128, CachedTag>,
    resource: TrackedReleaseView,
    outcome: LookupOutcomeView,
    fan_out: FanOut,
    subscribers: Option<Seq<i64>>,
    now: Timestamp,
)
    requires
        outcome is NotFound || outcome is TransientError,
    ensures
        cache_after(cache, resource, outcome, now) == cache,
        notifications_of(cache, resource, outcome, fan_out, subscribers).len() == 0,
{
}

/// What one cycle learns of one repository: the record, what the lookup
/// gave, and the chats that the subscription store lists for it (`None`
/// when the store cannot be read).
#[derive(Debug)]
pub struct Observation {
    pub resource: TrackedRelease,
    pub outcome: LookupOutcome,
    pub subscribers: Option<Vec<i64>>,
}

/// An [`Observation`] over sequences.
pub struct ObservationView {
    pub resource: TrackedReleaseView,
    pub outcome: LookupOutcomeView,
    pub subscribers: Option<Seq<i64>>,
}

impl View for Observation {
    type V = ObservationView;

    open spec fn view(&self) -> ObservationView {
        ObservationView {
            resource: self.resource@,
            outcome: self.outcome@,
            subscribers: listed_chats(self.subscribers),
        }
    }
}

/// The observations of a cycle, each by its view.
pub open spec fn observed(observations: Seq<Observation>) -> Seq<ObservationView> {
    Seq::new(observations.len(), |i: int| observations[i]@)
}

/// The cache after a cycle that goes through `observations` in order.
pub open spec fn cycle_cache(
    cache: Map<u128, CachedTag>,
    observations: Seq<ObservationView>,
    now: Timestamp,
) -> Map<u128, CachedTag>
    decreases observations.len(),
{
    if observations.len() == 0 {
        cache
    } else {
        cache_after(
            cycle_cache(cache, observations.drop_last(), now),
            observations.last().resource,
            observations.last().outcome,
            now,
        )
    }
}

/// The messages of a cycle that goes through `observations` in order: those
/// of each repository, given the cache as the repositories before it left
/// it.
pub open spec fn cycle_notifications(
    cache: Map<u128, CachedTag>,
    observations: Seq<ObservationView>,
    fan_out: FanOut,
    now: Timestamp,
) -> Seq<(i64, Seq<char>)>
    decreases observations.len(),
{
    if observations.len() == 0 {
        Seq::empty()
    } else {
        cycle_notifications(cache, observations.drop_last(), fan_out, now) + notifications_of(
            cycle_cache(cache, observations.drop_last(), now),
            observations.last().resource,
            observations.last().outcome,
            fan_out,
            observations.last().subscribers,
        )
    }
}

fn copy_chats(chats: &Option<Vec<i64>>) -> (r: Option<Vec<i64>>)
    ensures
        listed_chats(r) == listed_chats(*chats),
{
    match chats {
        Some(v) => {
            let mut copy: Vec<i64> = Vec::new();
            let mut i: usize = 0;
            while i < v.len()
                invariant
                    i <= v.len(),
                    copy@ == v@.take(i as int),
                decreases v.len() - i,
            {
                copy.push(v[i]);
                assert(v@.take(i + 1) =~= v@.take(i as int).push(v@[i as int]));
                i += 1;
            }
            assert(v@.take(v@.len() as int) =~= v@);
            Some(copy)
        },
        None => None,
    }
}

/// Runs one cycle against an in-memory cache: the repositories are taken in
/// order, each on its own, so that what happens to one (a locator that
/// cannot be taken apart, a lookup that fails) does not keep the others from
/// their turn. The result holds all messages in the order in which they go
/// out.
pub fn poll_once(
    observations: &Vec<Observation>,
    cache: &mut TagCache,
    fan_out: FanOut,
    now: Timestamp,
) -> (sent: Vec<Notification>)
    ensures
        final(cache)@ == cycle_cache(old(cache)@, observed(observations@), now),
        messages(sent@) == cycle_notifications(
            old(cache)@,
            observed(observations@),
            fan_out,
            now,
        ),
        sent@.len() == cycle_notifications(
            old(cache)@,
            observed(observations@),
            fan_out,
            now,
        ).len(),
{
    let ghost before = cache@;
    let ghost all = observed(observations@);
    let mut sent: Vec<Notification> = Vec::new();
    let mut i: usize = 0;
    assert(messages(sent@) =~= cycle_notifications(before, all.take(0), fan_out, now));
    while i < observations.len()
        invariant
            i <= observations.len(),
            all == observed(observations@),
            cache@ == cycle_cache(before, all.take(i as int), now),
            messages(sent@) == cycle_notifications(before, all.take(i as int), fan_out, now),
        decreases observations.len() - i,
    {
        let observation = &observations[i];
        let ghost earlier = sent@;
        let ghost cache_then = cache@;
        let mut batch = poll_resource(
            &observation.resource,
            observation.outcome.clone(),
            cache,
            copy_chats(&observation.subscribers),
            fan_out,
            now,
        );
        let ghost added = batch@;
        sent.append(&mut batch);
        proof {
            assert(all.take(i + 1).drop_last() =~= all.take(i as int));
            assert(all.take(i + 1).last() == observations@[i as int]@);
            assert(messages(sent@) =~= messages(earlier) + messages(added));
        }
        i += 1;
    }
    assert(all.take(observations@.len() as int) =~= all);
    sent
}

/// A repository whose lookup found nothing or failed, or whose locator
/// cannot be taken apart, counts for nothing in a cycle: the cache and the
/// messages are those of the cycle without it.
pub proof fn lemma_failed_resource_is_skipped(
    cache: Map<u128, CachedTag>,
    observations: Seq<ObservationView>,
    i: int,
    fan_out: FanOut,
    now: Timestamp,
)
    requires
        0 <= i < observations.len(),
        observed_tag(observations[i].resource, observations[i].outcome) is None,
    ensures
        cycle_cache(cache, observations, now) == cycle_cache(cache, observations.remove(i), now),
        cycle_notifications(cache, observations, fan_out, now) == cycle_notifications(
            cache,
            observations.remove(i),
            fan_out,
            now,
        ),
    decreases observations.len(),
{
    let rest = observations.drop_last();
    if i == observations.len() - 1 {
        assert(observations.remove(i) =~= rest);
        assert(notifications_of(
            cycle_cache(cache, rest, now),
            observations.last().resource,
            observations.last().outcome,
            fan_out,
            observations.last().subscribers,
        ) =~= Seq::<(i64, Seq<char>)>::empty());
        assert(cycle_notifications(cache, observations, fan_out, now) =~= cycle_notifications(
            cache,
            rest,
            fan_out,
            now,
        ));
    } else {
        lemma_failed_resource_is_skipped(cache, rest, i, fan_out, now);
        let without = observations.remove(i);
        assert(without.drop_last() =~= rest.remove(i));
        assert(without.last() == observations.last());
    }
}

/// Whether `observation` brings a tag for the row of `id`.
pub open spec fn touches(observation: ObservationView, id: u128) -> bool {
    observation.resource.id == id && observed_tag(observation.resource, observation.outcome)
        is Some
}

/// A cycle through two lists, one after the other, is the cycle through the
/// first followed by the cycle through the second on the cache that the
/// first left.
pub proof fn lemma_cycle_in_two_parts(
    cache: Map<u128, CachedTag>,
    first: Seq<ObservationView>,
    second: Seq<ObservationView>,
    fan_out: FanOut,
    now: Timestamp,
)
    ensures
        cycle_cache(cache, first + second, now) == cycle_cache(
            cycle_cache(cache, first, now),
            second,
            now,
        ),
        cycle_notifications(cache, first + second, fan_out, now) == cycle_notifications(
            cache,
            first,
            fan_out,
            now,
        ) + cycle_notifications(cycle_cache(cache, first, now), second, fan_out, now),
    decreases second.len(),
{
    let middle = cycle_cache(cache, first, now);
    if second.len() == 0 {
        assert(first + second =~= first);
        assert(cycle_notifications(cache, first, fan_out, now) + Seq::<
            (i64, Seq<char>),
        >::empty() =~= cycle_notifications(cache, first, fan_out, now));
    } else {
        let whole = first + second;
        lemma_cycle_in_two_parts(cache, first, second.drop_last(), fan_out, now);
        assert(whole.drop_last() =~= first + second.drop_last());
        assert(whole.last() == second.last());
        let last = notifications_of(
            cycle_cache(middle, second.drop_last(), now),
            second.last().resource,
            second.last().outcome,
            fan_out,
            second.last().subscribers,
        );
        assert((cycle_notifications(cache, first, fan_out, now) + cycle_notifications(
            middle,
            second.drop_last(),
            fan_out,
            now,
        )) + last =~= cycle_notifications(cache, first, fan_out, now) + (cycle_notifications(
            middle,
            second.drop_last(),
            fan_out,
            now,
        ) + last));
    }
}

/// A row stays as it was through a cycle in which no observation brings a
/// tag for it, whatever happens to the other rows.
pub proof fn lemma_untouched_row_stays(
    cache: Map<u128, CachedTag>,
    observations: Seq<ObservationView>,
    id: u128,
    now: Timestamp,
)
    requires
        forall|k: int| 0 <= k < observations.len() ==> !touches(#[trigger] observations[k], id),
    ensures
        cycle_cache(cache, observations, now).contains_key(id) == cache.contains_key(id),
        cache.contains_key(id) ==> cycle_cache(cache, observations, now)[id] == cache[id],
    decreases observations.len(),
{
    if observations.len() > 0 {
        let rest = observations.drop_last();
        assert forall|k: int| 0 <= k < rest.len() implies !touches(#[trigger] rest[k], id) by {
            assert(rest[k] == observations[k]);
        }
        lemma_untouched_row_stays(cache, rest, id, now);
        assert(!touches(observations[observations.len() - 1], id));
    }
}

/// Where one observation alone brings a tag for a row, the cycle leaves the
/// row as that observation alone would, wherever it stands in the list, and
/// the messages for it are those that the cache before the cycle calls for.
pub proof fn lemma_only_observation_of_a_row(
    cache: Map<u128, CachedTag>,
    observations: Seq<ObservationView>,
    j: int,
    fan_out: FanOut,
    now: Timestamp,
)
    requires
        0 <= j < observations.len(),
        observed_tag(observations[j].resource, observations[j].outcome) is Some,
        forall|k: int|
            0 <= k < observations.len() && k != j ==> !touches(
                #[trigger] observations[k],
                observations[j].resource.id,
            ),
    ensures
        cycle_cache(cache, observations, now).contains_key(observations[j].resource.id),
        cycle_cache(cache, observations, now)[observations[j].resource.id] == cache_after(
            cache,
            observations[j].resource,
            observations[j].outcome,
            now,
        )[observations[j].resource.id],
        notifications_of(
            cycle_cache(cache, observations.take(j), now),
            observations[j].resource,
            observations[j].outcome,
            fan_out,
            observations[j].subscribers,
        ) == notifications_of(
            cache,
            observations[j].resource,
            observations[j].outcome,
            fan_out,
            observations[j].subscribers,
        ),
{
    let it = observations[j];
    let id = it.resource.id;
    let before = observations.take(j);
    let upto = observations.take(j + 1);
    let after = observations.skip(j + 1);
    assert forall|k: int| 0 <= k < before.len() implies !touches(#[trigger] before[k], id) by {
        assert(before[k] == observations[k]);
    }
    assert forall|k: int| 0 <= k < after.len() implies !touches(#[trigger] after[k], id) by {
        assert(after[k] == observations[j + 1 + k]);
    }
    lemma_untouched_row_stays(cache, before, id, now);
    assert(upto.drop_last() =~= before);
    assert(upto.last() == it);
    let then = cycle_cache(cache, upto, now);
    assert(then == cache_after(cycle_cache(cache, before, now), it.resource, it.outcome, now));
    lemma_untouched_row_stays(then, after, id, now);
    lemma_cycle_in_two_parts(cache, upto, after, fan_out, now);
    assert(upto + after =~= observations);
}

/// A repository whose lookup fails does not hold up another: whichever of
/// the two comes first, the cycle leaves the cache as the other repository
/// alone would, and sends the messages that the other alone would. If the
/// tag of the other changed, its row holds the new tag and each of its
/// destinations gets one message; the row of the failed one, if it has
/// another id, is as it was.
pub proof fn lemma_one_failure_leaves_the_other(
    cache: Map<u128, CachedTag>,
    failed: ObservationView,
    other: ObservationView,
    fan_out: FanOut,
    now: Timestamp,
)
    requires
        failed.outcome is TransientError || failed.outcome is NotFound,
    ensures
        cycle_cache(cache, seq![failed, other], now) == cache_after(
            cache,
            other.resource,
            other.outcome,
            now,
        ),
        cycle_cache(cache, seq![other, failed], now) == cache_after(
            cache,
            other.resource,
            other.outcome,
            now,
        ),
        cycle_notifications(cache, seq![failed, other], fan_out, now) == notifications_of(
            cache,
            other.resource,
            other.outcome,
            fan_out,
            other.subscribers,
        ),
        cycle_notifications(cache, seq![other, failed], fan_out, now) == notifications_of(
            cache,
            other.resource,
            other.outcome,
            fan_out,
            other.subscribers,
        ),
        announces(cache, other.resource, other.outcome) ==> {
            &&& cache_after(cache, other.resource, other.outcome, now)[other.resource.id] == (
            CachedTag {
                tag: observed_tag(other.resource, other.outcome)->0,
                first_seen_at: now,
            })
            &&& notifications_of(
                cache,
                other.resource,
                other.outcome,
                fan_out,
                other.subscribers,
            ).len() == destinations_of(other.resource, fan_out, other.subscribers).len()
        },
        failed.resource.id != other.resource.id ==> {
            &&& cache_after(cache, other.resource, other.outcome, now).contains_key(
                failed.resource.id,
            ) == cache.contains_key(failed.resource.id)
            &&& cache.contains_key(failed.resource.id) ==> cache_after(
                cache,
                other.resource,
                other.outcome,
                now,
            )[failed.resource.id] == cache[failed.resource.id]
        },
{
    let alone = seq![other];
    let empty = Seq::<ObservationView>::empty();
    assert(alone.drop_last() =~= empty);
    assert(alone.last() == other);
    assert(cycle_cache(cache, empty, now) == cache);
    assert(cycle_cache(cache, alone, now) == cache_after(
        cache,
        other.resource,
        other.outcome,
        now,
    ));
    assert(cycle_notifications(cache, empty, fan_out, now) =~= Seq::<(i64, Seq<char>)>::empty());
    assert(cycle_notifications(cache, alone, fan_out, now) =~= notifications_of(
        cache,
        other.resource,
        other.outcome,
        fan_out,
        other.subscribers,
    ));
    let first = seq![failed, other];
    let second = seq![other, failed];
    lemma_failed_resource_is_skipped(cache, first, 0, fan_out, now);
    lemma_failed_resource_is_skipped(cache, second, 1, fan_out, now);
    assert(first.remove(0) =~= alone);
    assert(second.remove(1) =~= alone);
}

/// Whether no two observations are of the same repository.
pub open spec fn distinct_ids(observations: Seq<ObservationView>) -> bool {
    forall|a: int, b: int|
        0 <= a < b < observations.len() ==> (#[trigger] observations[a]).resource.id != (
        #[trigger] observations[b]).resource.id
}

/// In a cycle through any number of repositories, each listed once, a
/// lookup that fails for one does not hold up another whose tag changed,
/// wherever the two stand in the list: the row of the other holds the new
/// tag and the time of the cycle, each of its destinations gets one message
/// with that tag, in order, and the row of the failed one is as it was. The
/// messages of the cycle are those of the repositories before the other,
/// then these, then those of the repositories after it.
pub proof fn lemma_failure_among_many(
    cache: Map<u128, CachedTag>,
    observations: Seq<ObservationView>,
    i: int,
    j: int,
    fan_out: FanOut,
    now: Timestamp,
)
    requires
        distinct_ids(observations),
        0 <= i < observations.len(),
        0 <= j < observations.len(),
        i != j,
        observations[i].outcome is TransientError || observations[i].outcome is NotFound,
        announces(cache, observations[j].resource, observations[j].outcome),
    ensures
        ({
            let failed = observations[i].resource.id;
            let other = observations[j];
            let after = cycle_cache(cache, observations, now);
            let chats = destinations_of(other.resource, fan_out, other.subscribers);
            let sent = notifications_of(
                cycle_cache(cache, observations.take(j), now),
                other.resource,
                other.outcome,
                fan_out,
                other.subscribers,
            );
            &&& after.contains_key(other.resource.id)
            &&& after[other.resource.id] == (CachedTag {
                tag: observed_tag(other.resource, other.outcome)->0,
                first_seen_at: now,
            })
            &&& after.contains_key(failed) == cache.contains_key(failed)
            &&& cache.contains_key(failed) ==> after[failed] == cache[failed]
            &&& sent.len() == chats.len()
            &&& forall|k: int|
                0 <= k < chats.len() ==> #[trigger] sent[k] == (
                    chats[k],
                    expected_text(other.resource, other.outcome),
                )
            &&& cycle_notifications(cache, observations, fan_out, now) == cycle_notifications(
                cache,
                observations.take(j),
                fan_out,
                now,
            ) + sent + cycle_notifications(
                cycle_cache(cache, observations.take(j + 1), now),
                observations.skip(j + 1),
                fan_out,
                now,
            )
        }),
{
    let failed = observations[i].resource.id;
    let other = observations[j];
    assert forall|k: int| 0 <= k < observations.len() && k != j implies !touches(
        #[trigger] observations[k],
        other.resource.id,
    ) by {
        if k < j {
            assert(observations[k].resource.id != observations[j].resource.id);
        } else {
            assert(observations[j].resource.id != observations[k].resource.id);
        }
    }
    lemma_only_observation_of_a_row(cache, observations, j, fan_out, now);
    assert forall|k: int| 0 <= k < observations.len() implies !touches(
        #[trigger] observations[k],
        failed,
    ) by {
        if k < i {
            assert(observations[k].resource.id != observations[i].resource.id);
        } else if k > i {
            assert(observations[i].resource.id != observations[k].resource.id);
        }
    }
    lemma_untouched_row_stays(cache, observations, failed, now);
    let upto = observations.take(j + 1);
    let rest = observations.skip(j + 1);
    lemma_cycle_in_two_parts(cache, upto, rest, fan_out, now);
    assert(upto + rest =~= observations);
    assert(upto.drop_last() =~= observations.take(j));
    assert(upto.last() == other);
}

} // verus!
