//! The decisions behind the chat commands: registering a repository, what
//! follows a registration, the listing of tracked repositories, and the
//! answer to text that is no command.
//!
//! The caller talks to the store, to the API and to the chat. [`TrackStep`]
//! and [`FollowUpStep`] say what to do next and take the result back.
//!
//! A record names the chat that registered it. What follows a registration
//! depends on where announcements go: where they go to the chat of the
//! record, a record taken over from another chat is moved to the asking
//! chat; where they go to subscribers, the asking chat is subscribed.

use crate::github::{LookupOutcome, LookupOutcomeView};
use crate::ids::new_id;
use crate::poller::FanOut;
use crate::text::chars_of;
use crate::time::{now, Timestamp};
use crate::tracked_repositories::tracked_repositories_releases::{
    CachedRepositoryRelease, CachedTag,
};
use crate::tracked_repositories::{
    github_prefix, invalid_url_message, owner_and_repo_of, RepositoryUrl, TrackedRelease,
    TrackedReleaseView,
};
use crate::utils::{html_escape_owned, html_escaped};
use vstd::prelude::*;
use vstd::string::StringExecFns;

verus! {

/// How a registration ended.
#[derive(Debug)]
pub enum HandleTrackResult {
    /// The chat already tracks the repository.
    AlreadyTracking { message: String },
    /// Another chat tracked the repository; its record was renamed.
    Updated { id: u128, message: String },
    /// The repository was not tracked before.
    Created { id: u128, message: String },
}

/// A [`HandleTrackResult`] over sequences of characters.
pub enum HandleTrackResultView {
    AlreadyTracking { message: Seq<char> },
    Updated { id: u128, message: Seq<char> },
    Created { id: u128, message: Seq<char> },
}

impl View for HandleTrackResult {
    type V = HandleTrackResultView;

    open spec fn view(&self) -> HandleTrackResultView {
        match self {
            HandleTrackResult::AlreadyTracking { message } => HandleTrackResultView::AlreadyTracking {
                message: message@,
            },
            HandleTrackResult::Updated { id, message } => HandleTrackResultView::Updated {
                id: *id,
                message: message@,
            },
            HandleTrackResult::Created { id, message } => HandleTrackResultView::Created {
                id: *id,
                message: message@,
            },
        }
    }
}

/// The end of a registration: its result, or the text of the refusal.
pub open spec fn track_outcome(outcome: Result<HandleTrackResult, String>) -> Result<
    HandleTrackResultView,
    Seq<char>,
> {
    match outcome {
        Ok(result) => Ok(result@),
        Err(message) => Err(message@),
    }
}

/// The refusal of a registration without a name.
pub open spec fn missing_name_message() -> Seq<char> {
    "Please provide a name for the repository."@
}

/// `head`, then `name`, then the address in brackets and a full stop.
pub open spec fn named_message(head: Seq<char>, name: Seq<char>, url: Seq<char>) -> Seq<char> {
    head + name + " ("@ + url + ")."@
}

/// What a chat is told that tracks the repository already.
pub open spec fn already_tracking_message(name: Seq<char>, url: Seq<char>) -> Seq<char> {
    named_message("This chat is already tracking "@, name, url)
}

/// What a chat is told when the record of another chat was renamed.
pub open spec fn updated_message(name: Seq<char>, url: Seq<char>) -> Seq<char> {
    named_message("Updated tracking for "@, name, url)
}

/// What a chat is told when a new record was made.
pub open spec fn created_message(name: Seq<char>, url: Seq<char>) -> Seq<char> {
    named_message("Now tracking "@, name, url)
}

/// The refusal when the store could not be asked for the address.
pub open spec fn query_failed_message(detail: Seq<char>) -> Seq<char> {
    "Failed to query repository: "@ + detail
}

/// The refusal when the renamed record could not be saved.
pub open spec fn update_failed_message(detail: Seq<char>) -> Seq<char> {
    "Failed to update tracked repository: "@ + detail
}

/// The refusal when the new record could not be saved.
pub open spec fn track_failed_message(detail: Seq<char>) -> Seq<char> {
    "Failed to track repository: "@ + detail
}

/// The refusal for a reply that does not answer the pending step.
pub open spec fn unexpected_reply_message() -> Seq<char> {
    "unexpected reply for the pending step"@
}

/// What the caller reports back after carrying out a step.
#[derive(Debug)]
pub enum BotReply {
    /// The record that the store holds for the address, if any.
    Found(Option<TrackedRelease>),
    /// The store could not be queried; the text says why.
    QueryFailed(String),
    /// The record was saved.
    Saved,
    /// The record could not be saved; the text says why.
    SaveFailed(String),
    /// The message was delivered.
    Sent,
    /// The message could not be delivered.
    SendFailed,
    /// The outcome of the lookup.
    Lookup(LookupOutcome),
    /// The cache write was tried.
    Written,
    /// The subscription was tried.
    Subscribed,
}

/// A [`BotReply`] over sequences of characters.
pub enum BotReplyView {
    Found(Option<TrackedReleaseView>),
    QueryFailed(Seq<char>),
    Saved,
    SaveFailed(Seq<char>),
    Sent,
    SendFailed,
    Lookup(LookupOutcomeView),
    Written,
    Subscribed,
}

impl View for BotReply {
    type V = BotReplyView;

    open spec fn view(&self) -> BotReplyView {
        match self {
            BotReply::Found(record) => BotReplyView::Found(
                match record {
                    Some(r) => Some(r@),
                    None => None,
                },
            ),
            BotReply::QueryFailed(detail) => BotReplyView::QueryFailed(detail@),
            BotReply::Saved => BotReplyView::Saved,
            BotReply::SaveFailed(detail) => BotReplyView::SaveFailed(detail@),
            BotReply::Sent => BotReplyView::Sent,
            BotReply::SendFailed => BotReplyView::SendFailed,
            BotReply::Lookup(outcome) => BotReplyView::Lookup(outcome@),
            BotReply::Written => BotReplyView::Written,
            BotReply::Subscribed => BotReplyView::Subscribed,
        }
    }
}

/// What the caller has to do next for a registration.
#[derive(Debug)]
pub enum TrackStep {
    /// Find the record with this address and report it.
    FindByUrl { url: String },
    /// Save `record` and report how it went. `created` says whether the
    /// record is new.
    Save { record: TrackedRelease, created: bool },
    /// The registration is over.
    Done(Result<HandleTrackResult, String>),
}

/// A [`TrackStep`] over sequences of characters.
pub enum TrackStepView {
    FindByUrl { url: Seq<char> },
    Save { record: TrackedReleaseView, created: bool },
    Done(Result<HandleTrackResultView, Seq<char>>),
}

impl View for TrackStep {
    type V = TrackStepView;

    open spec fn view(&self) -> TrackStepView {
        match self {
            TrackStep::FindByUrl { url } => TrackStepView::FindByUrl { url: url@ },
            TrackStep::Save { record, created } => TrackStepView::Save {
                record: record@,
                created: *created,
            },
            TrackStep::Done(outcome) => TrackStepView::Done(track_outcome(*outcome)),
        }
    }
}

/// Who asks for the registration of what.
pub struct TrackRequest {
    pub chat_id: i64,
    pub name: Seq<char>,
    pub url: Seq<char>,
}

/// The first step of a registration of `url` under `name`: a missing name
/// and an address that does not begin with `https://github.com/` are
/// refused, in this order; otherwise the store is asked for the address.
pub open spec fn track_start(name: Seq<char>, url: Seq<char>) -> TrackStepView {
    if name.len() == 0 {
        TrackStepView::Done(Err(missing_name_message()))
    } else if !github_prefix().is_prefix_of(url) {
        TrackStepView::Done(Err(invalid_url_message(url)))
    } else {
        TrackStepView::FindByUrl { url }
    }
}

/// The step that follows `step` once `reply` has come in. `now` is the time
/// of the registration and `fresh_id` the id for a new record.
///
/// - A record of the asking chat means that nothing is to be done.
/// - A record of another chat is renamed and stamped with `now`; its chat
///   stays.
/// - Without a record a new one is made for the asking chat.
/// - A record that was saved ends the registration with `Updated` or
///   `Created`; a failure of the store ends it with a refusal that quotes the
///   failure.
pub open spec fn track_next(
    step: TrackStepView,
    reply: BotReplyView,
    request: TrackRequest,
    now: Timestamp,
    fresh_id: u128,
) -> TrackStepView {
    match (step, reply) {
        (TrackStepView::Done(outcome), _) => TrackStepView::Done(outcome),
        (TrackStepView::FindByUrl { .. }, BotReplyView::QueryFailed(detail)) => TrackStepView::Done(
            Err(query_failed_message(detail)),
        ),
        (TrackStepView::FindByUrl { .. }, BotReplyView::Found(Some(existing))) => {
            if existing.chat_id == request.chat_id {
                TrackStepView::Done(
                    Ok(
                        HandleTrackResultView::AlreadyTracking {
                            message: already_tracking_message(request.name, request.url),
                        },
                    ),
                )
            } else {
                TrackStepView::Save {
                    record: TrackedReleaseView {
                        repository_name: request.name,
                        updated_at: now,
                        ..existing
                    },
                    created: false,
                }
            }
        },
        (TrackStepView::FindByUrl { url }, BotReplyView::Found(None)) => TrackStepView::Save {
            record: TrackedReleaseView {
                id: fresh_id,
                repository_name: request.name,
                repository_url: url,
                chat_id: request.chat_id,
                created_at: now,
                updated_at: now,
            },
            created: true,
        },
        (TrackStepView::Save { record, created }, BotReplyView::Saved) => TrackStepView::Done(
            Ok(
                if created {
                    HandleTrackResultView::Created {
                        id: record.id,
                        message: created_message(request.name, request.url),
                    }
                } else {
                    HandleTrackResultView::Updated {
                        id: record.id,
                        message: updated_message(request.name, request.url),
                    }
                },
            ),
        ),
        (TrackStepView::Save { created, .. }, BotReplyView::SaveFailed(detail)) => TrackStepView::Done(
            Err(
                if created {
                    track_failed_message(detail)
                } else {
                    update_failed_message(detail)
                },
            ),
        ),
        _ => TrackStepView::Done(Err(unexpected_reply_message())),
    }
}

fn named(head: &str, name: &str, url: &str) -> (text: String)
    ensures
        text@ == named_message(head@, name@, url@),
{
    let mut text = String::from_str(head);
    text.append(name);
    text.append(" (");
    text.append(url);
    text.append(").");
    text
}

fn with_detail(head: &str, detail: &str) -> (text: String)
    ensures
        text@ == head@ + detail@,
{
    let mut text = String::from_str(head);
    text.append(detail);
    text
}

impl TrackStep {
    /// The first step of the registration of `url` under `name`.
    pub fn start(name: &str, url: &str) -> (step: Self)
        ensures
            step@ == track_start(name@, url@),
    {
        if name.is_empty() {
            return TrackStep::Done(
                Err(String::from_str("Please provide a name for the repository.")),
            );
        }
        match RepositoryUrl::new(String::from_str(url)) {
            Ok(repo_url) => TrackStep::FindByUrl { url: repo_url.url() },
            Err(message) => TrackStep::Done(Err(message)),
        }
    }

    /// The step that follows this one once `reply` has come in, with `now`
    /// as the time of the registration and `fresh_id` as the id of a new
    /// record.
    pub fn advance_with(
        self,
        reply: BotReply,
        chat_id: i64,
        name: &str,
        url: &str,
        now: Timestamp,
        fresh_id: u128,
    ) -> (next: Self)
        ensures
            next@ == track_next(
                self@,
                reply@,
                TrackRequest { chat_id, name: name@, url: url@ },
                now,
                fresh_id,
            ),
    {
        match self {
            TrackStep::Done(outcome) => TrackStep::Done(outcome),
            TrackStep::FindByUrl { url: stored_url } => match reply {
                BotReply::QueryFailed(detail) => TrackStep::Done(
                    Err(with_detail("Failed to query repository: ", detail.as_str())),
                ),
                BotReply::Found(Some(existing)) => {
                    if existing.chat_id == chat_id {
                        TrackStep::Done(
                            Ok(
                                HandleTrackResult::AlreadyTracking {
                                    message: named("This chat is already tracking ", name, url),
                                },
                            ),
                        )
                    } else {
                        let mut record = existing;
                        record.repository_name = String::from_str(name);
                        record.updated_at = now;
                        TrackStep::Save { record, created: false }
                    }
                },
                BotReply::Found(None) => {
                    let record = TrackedRelease {
                        id: fresh_id,
                        repository_name: String::from_str(name),
                        repository_url: RepositoryUrl::from_stored(stored_url),
                        chat_id,
                        created_at: now,
                        updated_at: now,
                    };
                    TrackStep::Save { record, created: true }
                },
                _ => Self::unexpected(),
            },
            TrackStep::Save { record, created } => match reply {
                BotReply::Saved => {
                    if created {
                        TrackStep::Done(
                            Ok(
                                HandleTrackResult::Created {
                                    id: record.id,
                                    message: named("Now tracking ", name, url),
                                },
                            ),
                        )
                    } else {
                        TrackStep::Done(
                            Ok(
                                HandleTrackResult::Updated {
                                    id: record.id,
                                    message: named("Updated tracking for ", name, url),
                                },
                            ),
                        )
                    }
                },
                BotReply::SaveFailed(detail) => {
                    if created {
                        TrackStep::Done(
                            Err(with_detail("Failed to track repository: ", detail.as_str())),
                        )
                    } else {
                        TrackStep::Done(
                            Err(
                                with_detail(
                                    "Failed to update tracked repository: ",
                                    detail.as_str(),
                                ),
                            ),
                        )
                    }
                },
                _ => Self::unexpected(),
            },
        }
    }

    /// The step that follows this one once `reply` has come in, with the
    /// time read from the clock and a newly drawn id. Whatever these are, the
    /// step is the one that [`track_next`] gives for them.
    pub fn advance(self, reply: BotReply, chat_id: i64, name: &str, url: &str) -> (next: Self)
        ensures
            exists|at: Timestamp, id: u128|
                next@ == track_next(
                    self@,
                    reply@,
                    TrackRequest { chat_id, name: name@, url: url@ },
                    at,
                    id,
                ),
    {
        let at = now();
        let id = new_id();
        let next = self.advance_with(reply, chat_id, name, url, at, id);
        assert(next@ == track_next(
            self@,
            reply@,
            TrackRequest { chat_id, name: name@, url: url@ },
            at,
            id,
        ));
        next
    }

    fn unexpected() -> (step: Self)
        ensures
            step@ == TrackStepView::Done(Err(unexpected_reply_message())),
    {
        TrackStep::Done(Err(String::from_str("unexpected reply for the pending step")))
    }
}

/// The text that tells the chat how its registration ended.
pub open spec fn reply_text_of(outcome: Result<HandleTrackResultView, Seq<char>>) -> Seq<char> {
    match outcome {
        Ok(HandleTrackResultView::AlreadyTracking { message }) => message,
        Ok(HandleTrackResultView::Updated { message, .. }) => message,
        Ok(HandleTrackResultView::Created { message, .. }) => message,
        Err(message) => message,
    }
}

/// The id of the record whose cache row is refreshed after a registration:
/// that of a record that was updated or created.
pub open spec fn refreshed_id(outcome: Result<HandleTrackResultView, Seq<char>>) -> Option<u128> {
    match outcome {
        Ok(HandleTrackResultView::Updated { id, .. }) => Some(id),
        Ok(HandleTrackResultView::Created { id, .. }) => Some(id),
        _ => None,
    }
}

/// What the caller has to do next after a registration.
#[derive(Debug)]
pub enum FollowUpStep {
    /// Send `text` to the chat that gave the command and report how it went.
    Reply { text: String },
    /// Look up the latest tag of `owner/repo` and report the outcome.
    Lookup { owner: String, repo: String },
    /// Store `entry` in the cache and report that it was tried.
    SeedCache { entry: CachedRepositoryRelease },
    /// Find the record with this address and report it.
    FindForMove { url: String },
    /// Save `record`, which now belongs to the asking chat, and report how
    /// it went.
    SaveMoved { record: TrackedRelease },
    /// Subscribe `chat_id` to the repository, unless it is subscribed
    /// already, and report that it was tried.
    Subscribe { tracked_repository_id: u128, chat_id: i64 },
    /// Nothing is left to do.
    Done,
}

/// A [`FollowUpStep`] over sequences of characters.
pub enum FollowUpStepView {
    Reply { text: Seq<char> },
    Lookup { owner: Seq<char>, repo: Seq<char> },
    SeedCache { id: u128, content: CachedTag },
    FindForMove { url: Seq<char> },
    SaveMoved { record: TrackedReleaseView },
    Subscribe { tracked_repository_id: u128, chat_id: i64 },
    Done,
}

impl View for FollowUpStep {
    type V = FollowUpStepView;

    open spec fn view(&self) -> FollowUpStepView {
        match self {
            FollowUpStep::Reply { text } => FollowUpStepView::Reply { text: text@ },
            FollowUpStep::Lookup { owner, repo } => FollowUpStepView::Lookup {
                owner: owner@,
                repo: repo@,
            },
            FollowUpStep::SeedCache { entry } => FollowUpStepView::SeedCache {
                id: entry.tracked_repository_id,
                content: entry.content(),
            },
            FollowUpStep::FindForMove { url } => FollowUpStepView::FindForMove { url: url@ },
            FollowUpStep::SaveMoved { record } => FollowUpStepView::SaveMoved { record: record@ },
            FollowUpStep::Subscribe { tracked_repository_id, chat_id } => FollowUpStepView::Subscribe {
                tracked_repository_id: *tracked_repository_id,
                chat_id: *chat_id,
            },
            FollowUpStep::Done => FollowUpStepView::Done,
        }
    }
}

/// The step after the cache was refreshed, or was not. Where announcements
/// go to the chat of the record, a record that was taken over from another
/// chat is looked for, to be moved to the asking chat. Where they go to
/// subscribers, the asking chat is subscribed to the record that was
/// updated or created.
pub open spec fn after_refresh(
    outcome: Result<HandleTrackResultView, Seq<char>>,
    chat_id: i64,
    url: Seq<char>,
    fan_out: FanOut,
) -> FollowUpStepView {
    match fan_out {
        FanOut::Owner => match outcome {
            Ok(HandleTrackResultView::Updated { .. }) => FollowUpStepView::FindForMove { url },
            _ => FollowUpStepView::Done,
        },
        FanOut::Subscribers => match refreshed_id(outcome) {
            Some(id) => FollowUpStepView::Subscribe { tracked_repository_id: id, chat_id },
            None => FollowUpStepView::Done,
        },
    }
}

/// The step that follows `step` once `reply` has come in.
///
/// - The chat is told how the registration ended. If that fails, or if
///   nothing was updated or created, nothing more is done.
/// - The latest tag of the repository is looked up, if its address can be
///   taken apart, and a tag that is found is stored with `now`.
/// - Then, where announcements go to the chat of the record, a record that
///   was taken over from another chat is given to the asking chat and saved;
///   where they go to subscribers, the asking chat is subscribed.
pub open spec fn follow_up_next(
    step: FollowUpStepView,
    reply: BotReplyView,
    outcome: Result<HandleTrackResultView, Seq<char>>,
    chat_id: i64,
    url: Seq<char>,
    fan_out: FanOut,
    now: Timestamp,
) -> FollowUpStepView {
    match (step, reply) {
        (FollowUpStepView::Reply { .. }, BotReplyView::Sent) => {
            if refreshed_id(outcome) is Some {
                match owner_and_repo_of(url) {
                    Some((owner, repo)) => FollowUpStepView::Lookup { owner, repo },
                    None => after_refresh(outcome, chat_id, url, fan_out),
                }
            } else {
                FollowUpStepView::Done
            }
        },
        (
            FollowUpStepView::Lookup { .. },
            BotReplyView::Lookup(LookupOutcomeView::Found(tag)),
        ) => {
            match refreshed_id(outcome) {
                Some(id) => FollowUpStepView::SeedCache {
                    id,
                    content: CachedTag { tag, first_seen_at: now },
                },
                None => FollowUpStepView::Done,
            }
        },
        (FollowUpStepView::Lookup { .. }, BotReplyView::Lookup(_)) => after_refresh(outcome, chat_id, url, fan_out),
        (FollowUpStepView::SeedCache { .. }, BotReplyView::Written) => after_refresh(outcome, chat_id, url, fan_out),
        (FollowUpStepView::FindForMove { .. }, BotReplyView::Found(Some(existing))) => {
            FollowUpStepView::SaveMoved { record: TrackedReleaseView { chat_id, ..existing } }
        },
        _ => FollowUpStepView::Done,
    }
}

fn refresh_done(
    outcome: &Result<HandleTrackResult, String>,
    chat_id: i64,
    url: &str,
    fan_out: FanOut,
) -> (step: FollowUpStep)
    ensures
        step@ == after_refresh(track_outcome(*outcome), chat_id, url@, fan_out),
{
    match fan_out {
        FanOut::Owner => match outcome {
            Ok(HandleTrackResult::Updated { .. }) => FollowUpStep::FindForMove {
                url: String::from_str(url),
            },
            _ => FollowUpStep::Done,
        },
        FanOut::Subscribers => match refreshed(outcome) {
            Some(id) => FollowUpStep::Subscribe { tracked_repository_id: id, chat_id },
            None => FollowUpStep::Done,
        },
    }
}

fn refreshed(outcome: &Result<HandleTrackResult, String>) -> (id: Option<u128>)
    ensures
        id == refreshed_id(track_outcome(*outcome)),
{
    match outcome {
        Ok(HandleTrackResult::Updated { id, .. }) => Some(*id),
        Ok(HandleTrackResult::Created { id, .. }) => Some(*id),
        _ => None,
    }
}

impl FollowUpStep {
    /// The first step after a registration: tell the chat how it ended.
    pub fn start(outcome: &Result<HandleTrackResult, String>) -> (step: Self)
        ensures
            step@ == (FollowUpStepView::Reply { text: reply_text_of(track_outcome(*outcome)) }),
    {
        let text = match outcome {
            Ok(HandleTrackResult::AlreadyTracking { message }) => message.clone(),
            Ok(HandleTrackResult::Updated { message, .. }) => message.clone(),
            Ok(HandleTrackResult::Created { message, .. }) => message.clone(),
            Err(message) => message.clone(),
        };
        FollowUpStep::Reply { text }
    }

    /// The step that follows this one once `reply` has come in, with `now`
    /// as the time of a tag that is stored.
    pub fn advance_at(
        self,
        reply: BotReply,
        outcome: &Result<HandleTrackResult, String>,
        chat_id: i64,
        url: &str,
        fan_out: FanOut,
        now: Timestamp,
    ) -> (next: Self)
        ensures
            next@ == follow_up_next(
                self@,
                reply@,
                track_outcome(*outcome),
                chat_id,
                url@,
                fan_out,
                now,
            ),
    {
        match self {
            FollowUpStep::Reply { .. } => match reply {
                BotReply::Sent => {
                    if refreshed(outcome).is_some() {
                        let locator = RepositoryUrl::from_stored(String::from_str(url));
                        match locator.owner_and_repo() {
                            Some((owner, repo)) => FollowUpStep::Lookup { owner, repo },
                            None => refresh_done(outcome, chat_id, url, fan_out),
                        }
                    } else {
                        FollowUpStep::Done
                    }
                },
                _ => FollowUpStep::Done,
            },
            FollowUpStep::Lookup { .. } => match reply {
                BotReply::Lookup(LookupOutcome::Found(tag)) => match refreshed(outcome) {
                    Some(id) => FollowUpStep::SeedCache {
                        entry: CachedRepositoryRelease {
                            tracked_repository_id: id,
                            tag_name: tag,
                            first_seen_at: now,
                        },
                    },
                    None => FollowUpStep::Done,
                },
                BotReply::Lookup(_) => refresh_done(outcome, chat_id, url, fan_out),
                _ => FollowUpStep::Done,
            },
            FollowUpStep::SeedCache { .. } => match reply {
                BotReply::Written => refresh_done(outcome, chat_id, url, fan_out),
                _ => FollowUpStep::Done,
            },
            FollowUpStep::FindForMove { .. } => match reply {
                BotReply::Found(Some(existing)) => {
                    let mut record = existing;
                    record.chat_id = chat_id;
                    FollowUpStep::SaveMoved { record }
                },
                _ => FollowUpStep::Done,
            },
            FollowUpStep::SaveMoved { .. } => FollowUpStep::Done,
            FollowUpStep::Subscribe { .. } => FollowUpStep::Done,
            FollowUpStep::Done => FollowUpStep::Done,
        }
    }

    /// The step that follows this one once `reply` has come in, with the
    /// time read from the clock. Whatever the clock says, the step is the one
    /// that [`follow_up_next`] gives for that time.
    pub fn advance(
        self,
        reply: BotReply,
        outcome: &Result<HandleTrackResult, String>,
        chat_id: i64,
        url: &str,
        fan_out: FanOut,
    ) -> (next: Self)
        ensures
            exists|at: Timestamp|
                next@ == follow_up_next(
                    self@,
                    reply@,
                    track_outcome(*outcome),
                    chat_id,
                    url@,
                    fan_out,
                    at,
                ),
    {
        let at = now();
        let next = self.advance_at(reply, outcome, chat_id, url, fan_out, at);
        assert(next@ == follow_up_next(
            self@,
            reply@,
            track_outcome(*outcome),
            chat_id,
            url@,
            fan_out,
            at,
        ));
        next
    }
}

/// One repository of a listing: its name, its address, and the tag that the
/// cache holds for it, if any.
#[derive(Debug)]
pub struct ListedRepository {
    pub name: String,
    pub url: String,
    pub latest: Option<String>,
}

/// What the listing says of the latest tag.
pub open spec fn latest_text_of(latest: Option<Seq<char>>) -> Seq<char> {
    match latest {
        Some(tag) => "latest: "@ + tag,
        None => "latest: unknown"@,
    }
}

/// The line of a listing for one repository: its name as a link to its
/// address, both escaped, and its latest tag.
pub open spec fn list_line_of(url: Seq<char>, name: Seq<char>, latest: Option<Seq<char>>) -> Seq<
    char,
> {
    "- <a href=\""@ + html_escaped(url) + "\">"@ + html_escaped(name) + "</a> - "@
        + latest_text_of(latest)
}

/// The line of a listing for `row`.
pub open spec fn line_of(row: ListedRepository) -> Seq<char> {
    list_line_of(
        row.url@,
        row.name@,
        match row.latest {
            Some(tag) => Some(tag@),
            None => None,
        },
    )
}

/// The lines for `rows`, each but the first after a line break.
pub open spec fn joined_lines(rows: Seq<ListedRepository>) -> Seq<char>
    decreases rows.len(),
{
    if rows.len() == 0 {
        Seq::empty()
    } else if rows.len() == 1 {
        line_of(rows[0])
    } else {
        joined_lines(rows.drop_last()) + "\n"@ + line_of(rows.last())
    }
}

/// The answer to the listing command: a heading and one line for each
/// repository, or a sentence that says that there is none.
pub open spec fn list_text_of(rows: Seq<ListedRepository>) -> Seq<char> {
    if rows.len() == 0 {
        "No repositories tracked yet."@
    } else {
        "Tracked repositories:\n"@ + joined_lines(rows)
    }
}

/// The refusal when the repositories could not be listed.
pub open spec fn list_failed_message(detail: Seq<char>) -> Seq<char> {
    "Failed to list repositories: "@ + detail
}

/// The line of a listing for `row`.
pub fn list_line(row: &ListedRepository) -> (line: String)
    ensures
        line@ == line_of(*row),
{
    let url_escaped = html_escape_owned(row.url.as_str());
    let name_escaped = html_escape_owned(row.name.as_str());
    let mut line = String::from_str("- <a href=\"");
    line.append(url_escaped.as_str());
    line.append("\">");
    line.append(name_escaped.as_str());
    line.append("</a> - ");
    let ghost head = line@;
    match &row.latest {
        Some(tag) => {
            line.append("latest: ");
            line.append(tag.as_str());
            assert(line@ =~= head + ("latest: "@ + tag@));
        },
        None => {
            line.append("latest: unknown");
        },
    }
    line
}

/// The answer to the listing command for `rows`.
pub fn list_text(rows: &Vec<ListedRepository>) -> (text: String)
    ensures
        text@ == list_text_of(rows@),
{
    if rows.len() == 0 {
        return String::from_str("No repositories tracked yet.");
    }
    let mut text = String::from_str("Tracked repositories:\n");
    let ghost head = text@;
    let first = list_line(&rows[0]);
    text.append(first.as_str());
    assert(rows@.take(1) =~= seq![rows@[0]]);
    let mut i: usize = 1;
    while i < rows.len()
        invariant
            1 <= i <= rows.len(),
            text@ == head + joined_lines(rows@.take(i as int)),
        decreases rows.len() - i,
    {
        let line = list_line(&rows[i]);
        let ghost before = joined_lines(rows@.take(i as int));
        text.append("\n");
        text.append(line.as_str());
        proof {
            assert(rows@.take(i + 1).drop_last() =~= rows@.take(i as int));
            assert(rows@.take(i + 1).last() == rows@[i as int]);
            assert(text@ =~= head + (before + "\n"@ + line@));
        }
        i += 1;
    }
    assert(rows@.take(rows@.len() as int) =~= rows@);
    text
}

/// The refusal when the repositories could not be listed.
pub fn list_failed(detail: &str) -> (text: String)
    ensures
        text@ == list_failed_message(detail@),
{
    with_detail("Failed to list repositories: ", detail)
}

/// The answer to a message that is no known command: the list of commands
/// for text that begins with `/`, and the same list after an apology for
/// any other text.
pub open spec fn fallback_text_of(text: Seq<char>, descriptions: Seq<char>) -> Seq<char> {
    if text.len() > 0 && text[0] == '/' {
        descriptions
    } else {
        "Sorry, I only work with commands. \n\n"@ + descriptions
    }
}

/// The answer to `text`, which is no known command. `descriptions` is the
/// list of commands.
pub fn fallback_text(text: &str, descriptions: &str) -> (answer: String)
    ensures
        answer@ == fallback_text_of(text@, descriptions@),
{
    let chars = chars_of(text);
    if chars.len() > 0 && chars[0] == '/' {
        String::from_str(descriptions)
    } else {
        with_detail("Sorry, I only work with commands. \n\n", descriptions)
    }
}

} // verus!
