//! The version lookup protocol: which requests to send to the GitHub API,
//! and what each reply means.
//!
//! The caller sends the requests and decodes the bodies. [`LookupStep`] says
//! what to do next, and [`LookupStep::advance`] takes the reply and gives the
//! step that follows, until the step is [`LookupStep::Done`].

use crate::text::{is_blank, trimmed};
use vstd::prelude::*;
use vstd::string::StringExecFns;

verus! {

/// What a lookup found.
#[derive(Debug)]
pub enum LookupOutcome {
    /// The latest version tag.
    Found(String),
    /// The repository has no release and no tag yet.
    NotFound,
    /// The lookup failed this time; the text says how.
    TransientError(String),
}

/// A [`LookupOutcome`] over sequences of characters.
pub enum LookupOutcomeView {
    Found(Seq<char>),
    NotFound,
    TransientError(Seq<char>),
}

impl View for LookupOutcome {
    type V = LookupOutcomeView;

    open spec fn view(&self) -> LookupOutcomeView {
        match self {
            LookupOutcome::Found(tag) => LookupOutcomeView::Found(tag@),
            LookupOutcome::NotFound => LookupOutcomeView::NotFound,
            LookupOutcome::TransientError(detail) => LookupOutcomeView::TransientError(detail@),
        }
    }
}

impl Clone for LookupOutcome {
    fn clone(&self) -> (r: Self)
        ensures
            r == *self,
    {
        match self {
            LookupOutcome::Found(tag) => LookupOutcome::Found(tag.clone()),
            LookupOutcome::NotFound => LookupOutcome::NotFound,
            LookupOutcome::TransientError(detail) => LookupOutcome::TransientError(detail.clone()),
        }
    }
}

/// A GET request to the API.
#[derive(Debug)]
pub struct ApiRequest {
    pub url: String,
    /// Header names and values, in the order in which they are set.
    pub headers: Vec<(String, String)>,
    /// The credential to send as a bearer token, if one is configured.
    pub bearer: Option<String>,
}

/// An [`ApiRequest`] over sequences of characters.
pub struct ApiRequestView {
    pub url: Seq<char>,
    pub headers: Seq<(Seq<char>, Seq<char>)>,
    pub bearer: Option<Seq<char>>,
}

impl View for ApiRequest {
    type V = ApiRequestView;

    open spec fn view(&self) -> ApiRequestView {
        ApiRequestView {
            url: self.url@,
            headers: Seq::new(
                self.headers@.len(),
                |i: int| (self.headers@[i].0@, self.headers@[i].1@),
            ),
            bearer: match self.bearer {
                Some(token) => Some(token@),
                None => None,
            },
        }
    }
}

/// The API root that is used when none is configured.
pub open spec fn default_api_base() -> Seq<char> {
    "https://api.github.com"@
}

/// The address of the latest published release of `owner/repo`.
pub open spec fn release_url_of(base: Seq<char>, owner: Seq<char>, repo: Seq<char>) -> Seq<char> {
    base + "/repos/"@ + owner + "/"@ + repo + "/releases/latest"@
}

/// The address of the most recent tag of `owner/repo`, one entry per page.
pub open spec fn tags_url_of(base: Seq<char>, owner: Seq<char>, repo: Seq<char>) -> Seq<char> {
    base + "/repos/"@ + owner + "/"@ + repo + "/tags?per_page=1"@
}

/// The headers that every request carries: the client's name, the
/// representation asked for, and the version of the API.
pub open spec fn standard_headers() -> Seq<(Seq<char>, Seq<char>)> {
    seq![
        ("User-Agent"@, "github-release-bot/0.1"@),
        ("Accept"@, "application/vnd.github+json"@),
        ("X-GitHub-Api-Version"@, "2022-11-28"@),
    ]
}

/// The request for `url` with the standard headers and the credential.
pub open spec fn request_for(url: Seq<char>, token: Option<Seq<char>>) -> ApiRequestView {
    ApiRequestView { url, headers: standard_headers(), bearer: token }
}

/// Whether `status` is in the 2xx range.
pub open spec fn is_success(status: u16) -> bool {
    200 <= status < 300
}

/// Whether `status` is in the 5xx range: the API failed, and may answer
/// another time.
pub open spec fn is_server_error(status: u16) -> bool {
    500 <= status < 600
}

/// The text of the failure reported for a status that stands for a failure
/// of the API.
pub open spec fn non_success_detail() -> Seq<char> {
    "GitHub API returned non-success status"@
}

/// The text of the failure reported for a reply that does not answer the
/// pending step.
pub open spec fn unexpected_reply_detail() -> Seq<char> {
    "unexpected reply for the pending lookup step"@
}

/// What a tag read from a body amounts to: nothing when it is empty or
/// whitespace only, the tag itself otherwise.
pub open spec fn outcome_of_tag(tag: Seq<char>) -> LookupOutcomeView {
    if trimmed(tag).len() == 0 {
        LookupOutcomeView::NotFound
    } else {
        LookupOutcomeView::Found(tag)
    }
}

/// What the caller reports back after carrying out a step.
#[derive(Debug)]
pub enum LookupReply {
    /// The request was answered with this HTTP status.
    Status(u16),
    /// The request could not be sent, or the body could not be decoded.
    Failed(String),
    /// The `tag_name` field of a decoded release body.
    Release(String),
    /// The `name` fields of a decoded tag list, in order.
    Tags(Vec<String>),
}

/// A [`LookupReply`] over sequences of characters.
pub enum LookupReplyView {
    Status(u16),
    Failed(Seq<char>),
    Release(Seq<char>),
    Tags(Seq<Seq<char>>),
}

impl View for LookupReply {
    type V = LookupReplyView;

    open spec fn view(&self) -> LookupReplyView {
        match self {
            LookupReply::Status(status) => LookupReplyView::Status(*status),
            LookupReply::Failed(detail) => LookupReplyView::Failed(detail@),
            LookupReply::Release(tag) => LookupReplyView::Release(tag@),
            LookupReply::Tags(names) => LookupReplyView::Tags(
                Seq::new(names@.len(), |i: int| names@[i]@),
            ),
        }
    }
}

/// What the caller has to do next.
#[derive(Debug)]
pub enum LookupStep {
    /// Send the request for the latest release and report the status.
    FetchRelease(ApiRequest),
    /// Decode the release body and report its `tag_name`.
    DecodeRelease,
    /// Send the request for the tag list and report the status.
    FetchTags(ApiRequest),
    /// Decode the tag list and report the names.
    DecodeTags,
    /// The lookup is over.
    Done(LookupOutcome),
}

/// A [`LookupStep`] over sequences of characters.
pub enum LookupStepView {
    FetchRelease(ApiRequestView),
    DecodeRelease,
    FetchTags(ApiRequestView),
    DecodeTags,
    Done(LookupOutcomeView),
}

impl View for LookupStep {
    type V = LookupStepView;

    open spec fn view(&self) -> LookupStepView {
        match self {
            LookupStep::FetchRelease(request) => LookupStepView::FetchRelease(request@),
            LookupStep::DecodeRelease => LookupStepView::DecodeRelease,
            LookupStep::FetchTags(request) => LookupStepView::FetchTags(request@),
            LookupStep::DecodeTags => LookupStepView::DecodeTags,
            LookupStep::Done(outcome) => LookupStepView::Done(outcome@),
        }
    }
}

/// The repository that is looked up, and how the API is reached.
pub struct LookupTarget {
    pub base: Seq<char>,
    pub owner: Seq<char>,
    pub repo: Seq<char>,
    pub token: Option<Seq<char>>,
}

/// The first step of a lookup: ask for the latest release.
pub open spec fn lookup_start(target: LookupTarget) -> LookupStepView {
    LookupStepView::FetchRelease(
        request_for(release_url_of(target.base, target.owner, target.repo), target.token),
    )
}

/// The step that follows `step` once `reply` has come in.
///
/// - After the release request: a 2xx status leads to decoding the body, 404
///   to the request for the tag list, any other status to a transient error.
/// - After decoding the release: the tag, unless it is blank.
/// - After the tag request: a 2xx status leads to decoding the list, a 5xx
///   status to a transient error; any other status means that nothing was
///   found.
/// - After decoding the list: its first name, unless the list is empty or the
///   name is blank.
/// - A failure to send or to decode is a transient error wherever it occurs.
/// - A finished lookup stays finished.
pub open spec fn lookup_next(
    step: LookupStepView,
    reply: LookupReplyView,
    target: LookupTarget,
) -> LookupStepView {
    match (step, reply) {
        (LookupStepView::Done(outcome), _) => LookupStepView::Done(outcome),
        (_, LookupReplyView::Failed(detail)) => LookupStepView::Done(
            LookupOutcomeView::TransientError(detail),
        ),
        (LookupStepView::FetchRelease(_), LookupReplyView::Status(status)) => {
            if is_success(status) {
                LookupStepView::DecodeRelease
            } else if status == 404 {
                LookupStepView::FetchTags(
                    request_for(tags_url_of(target.base, target.owner, target.repo), target.token),
                )
            } else {
                LookupStepView::Done(LookupOutcomeView::TransientError(non_success_detail()))
            }
        },
        (LookupStepView::DecodeRelease, LookupReplyView::Release(tag)) => LookupStepView::Done(
            outcome_of_tag(tag),
        ),
        (LookupStepView::FetchTags(_), LookupReplyView::Status(status)) => {
            if is_success(status) {
                LookupStepView::DecodeTags
            } else if is_server_error(status) {
                LookupStepView::Done(LookupOutcomeView::TransientError(non_success_detail()))
            } else {
                LookupStepView::Done(LookupOutcomeView::NotFound)
            }
        },
        (LookupStepView::DecodeTags, LookupReplyView::Tags(names)) => {
            if names.len() == 0 {
                LookupStepView::Done(LookupOutcomeView::NotFound)
            } else {
                LookupStepView::Done(outcome_of_tag(names[0]))
            }
        },
        _ => LookupStepView::Done(LookupOutcomeView::TransientError(unexpected_reply_detail())),
    }
}

/// An upper bound on the number of replies that a lookup still needs.
pub open spec fn steps_left(step: LookupStepView) -> nat {
    match step {
        LookupStepView::FetchRelease(_) => 4,
        LookupStepView::FetchTags(_) => 2,
        LookupStepView::DecodeRelease => 1,
        LookupStepView::DecodeTags => 1,
        LookupStepView::Done(_) => 0,
    }
}

/// Every reply brings an unfinished lookup closer to its end.
pub proof fn lemma_lookup_progress(step: LookupStepView, reply: LookupReplyView, target: LookupTarget)
    requires
        !(step is Done),
    ensures
        steps_left(lookup_next(step, reply, target)) < steps_left(step),
{
}

/// A status other than 2xx and 404 on the release request ends the lookup
/// with a transient error, and so do a 5xx status on the tag request and
/// every failure to send or decode.
pub proof fn lemma_failures_are_transient(
    request: ApiRequestView,
    step: LookupStepView,
    status: u16,
    detail: Seq<char>,
    target: LookupTarget,
)
    requires
        !(step is Done),
    ensures
        !is_success(status) && status != 404 ==> lookup_next(
            LookupStepView::FetchRelease(request),
            LookupReplyView::Status(status),
            target,
        ) == LookupStepView::Done(LookupOutcomeView::TransientError(non_success_detail())),
        is_server_error(status) ==> lookup_next(
            LookupStepView::FetchTags(request),
            LookupReplyView::Status(status),
            target,
        ) == LookupStepView::Done(LookupOutcomeView::TransientError(non_success_detail())),
        lookup_next(step, LookupReplyView::Failed(detail), target) == LookupStepView::Done(
            LookupOutcomeView::TransientError(detail),
        ),
{
}

/// The API root to use: the configured one, or `https://api.github.com`.
pub fn github_api_base(configured: Option<String>) -> (base: String)
    ensures
        base@ == match configured {
            Some(b) => b@,
            None => default_api_base(),
        },
{
    match configured {
        Some(b) => b,
        None => String::from_str("https://api.github.com"),
    }
}

fn text_pair(name: &str, value: &str) -> (pair: (String, String))
    ensures
        pair.0@ == name@,
        pair.1@ == value@,
{
    (String::from_str(name), String::from_str(value))
}

fn build_request(url: String, token: Option<&str>) -> (request: ApiRequest)
    ensures
        request@ == request_for(
            url@,
            match token {
                Some(t) => Some(t@),
                None => None,
            },
        ),
{
    let mut headers: Vec<(String, String)> = Vec::new();
    headers.push(text_pair("User-Agent", "github-release-bot/0.1"));
    headers.push(text_pair("Accept", "application/vnd.github+json"));
    headers.push(text_pair("X-GitHub-Api-Version", "2022-11-28"));
    let bearer = match token {
        Some(t) => Some(String::from_str(t)),
        None => None,
    };
    let request = ApiRequest { url, headers, bearer };
    assert(request@.headers =~= standard_headers());
    request
}

/// The request for the latest published release of `owner/repo`.
pub fn release_request(base: &str, owner: &str, repo: &str, token: Option<&str>) -> (request:
    ApiRequest)
    ensures
        request@ == request_for(
            release_url_of(base@, owner@, repo@),
            match token {
                Some(t) => Some(t@),
                None => None,
            },
        ),
{
    let mut url = String::from_str(base);
    url.append("/repos/");
    url.append(owner);
    url.append("/");
    url.append(repo);
    url.append("/releases/latest");
    build_request(url, token)
}

/// The request for the most recent tag of `owner/repo`.
pub fn tags_request(base: &str, owner: &str, repo: &str, token: Option<&str>) -> (request:
    ApiRequest)
    ensures
        request@ == request_for(
            tags_url_of(base@, owner@, repo@),
            match token {
                Some(t) => Some(t@),
                None => None,
            },
        ),
{
    let mut url = String::from_str(base);
    url.append("/repos/");
    url.append(owner);
    url.append("/");
    url.append(repo);
    url.append("/tags?per_page=1");
    build_request(url, token)
}

/// Whether `status` is in the 2xx range.
pub fn status_is_success(status: u16) -> (b: bool)
    ensures
        b == is_success(status),
{
    200 <= status && status < 300
}

/// What `tag` amounts to: nothing when it is blank, the tag otherwise.
pub fn classify_tag(tag: String) -> (outcome: LookupOutcome)
    ensures
        outcome@ == outcome_of_tag(tag@),
{
    if is_blank(tag.as_str()) {
        LookupOutcome::NotFound
    } else {
        LookupOutcome::Found(tag)
    }
}

/// The target of a lookup as the specifications see it.
pub open spec fn target_of(base: &str, owner: &str, repo: &str, token: Option<&str>) -> LookupTarget {
    LookupTarget {
        base: base@,
        owner: owner@,
        repo: repo@,
        token: match token {
            Some(t) => Some(t@),
            None => None,
        },
    }
}

impl LookupStep {
    /// The first step of a lookup of `owner/repo` at `base`.
    pub fn start(base: &str, owner: &str, repo: &str, token: Option<&str>) -> (step: Self)
        ensures
            step@ == lookup_start(target_of(base, owner, repo, token)),
    {
        LookupStep::FetchRelease(release_request(base, owner, repo, token))
    }

    /// The step that follows this one once `reply` has come in.
    pub fn advance(
        self,
        reply: LookupReply,
        base: &str,
        owner: &str,
        repo: &str,
        token: Option<&str>,
    ) -> (next: Self)
        ensures
            next@ == lookup_next(self@, reply@, target_of(base, owner, repo, token)),
            !(self is Done) ==> steps_left(next@) < steps_left(self@),
    {
        match self {
            LookupStep::Done(outcome) => LookupStep::Done(outcome),
            LookupStep::FetchRelease(_) => match reply {
                LookupReply::Failed(detail) => LookupStep::Done(
                    LookupOutcome::TransientError(detail),
                ),
                LookupReply::Status(status) => {
                    if status_is_success(status) {
                        LookupStep::DecodeRelease
                    } else if status == 404 {
                        LookupStep::FetchTags(tags_request(base, owner, repo, token))
                    } else {
                        Self::non_success()
                    }
                },
                _ => Self::unexpected(),
            },
            LookupStep::DecodeRelease => match reply {
                LookupReply::Failed(detail) => LookupStep::Done(
                    LookupOutcome::TransientError(detail),
                ),
                LookupReply::Release(tag) => LookupStep::Done(classify_tag(tag)),
                _ => Self::unexpected(),
            },
            LookupStep::FetchTags(_) => match reply {
                LookupReply::Failed(detail) => LookupStep::Done(
                    LookupOutcome::TransientError(detail),
                ),
                LookupReply::Status(status) => {
                    if status_is_success(status) {
                        LookupStep::DecodeTags
                    } else if 500 <= status && status < 600 {
                        Self::non_success()
                    } else {
                        LookupStep::Done(LookupOutcome::NotFound)
                    }
                },
                _ => Self::unexpected(),
            },
            LookupStep::DecodeTags => match reply {
                LookupReply::Failed(detail) => LookupStep::Done(
                    LookupOutcome::TransientError(detail),
                ),
                LookupReply::Tags(names) => {
                    if names.len() == 0 {
                        LookupStep::Done(LookupOutcome::NotFound)
                    } else {
                        let first = names[0].clone();
                        LookupStep::Done(classify_tag(first))
                    }
                },
                _ => Self::unexpected(),
            },
        }
    }

    fn non_success() -> (step: Self)
        ensures
            step@ == LookupStepView::Done(LookupOutcomeView::TransientError(non_success_detail())),
    {
        LookupStep::Done(
            LookupOutcome::TransientError(String::from_str("GitHub API returned non-success status")),
        )
    }

    fn unexpected() -> (step: Self)
        ensures
            step@ == LookupStepView::Done(
                LookupOutcomeView::TransientError(unexpected_reply_detail()),
            ),
    {
        LookupStep::Done(
            LookupOutcome::TransientError(
                String::from_str("unexpected reply for the pending lookup step"),
            ),
        )
    }
}

} // verus!
