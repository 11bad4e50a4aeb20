//! Tracked repositories: the locator of a repository and the record kept for
//! each repository that is watched.

pub mod subscriptions;
pub mod tracked_repositories_releases;

use crate::ids::{parse_id, uuid_value, RowError};
use crate::time::Timestamp;
use crate::text::{
    chars_of, find_separator, free_of, lemma_segment_is_free, lemma_strip_stays_free,
    lemma_trim_stays_free, segment_len, starts_with, string_of, strip_trailing,
    strip_trailing_len, trim_bounds, trimmed,
};
use vstd::prelude::*;
use vstd::string::StringExecFns;

verus! {

/// The prefix that every accepted repository URL begins with.
pub open spec fn github_prefix() -> Seq<char> {
    "https://github.com/"@
}

/// The suffix that is dropped from a repository name.
pub open spec fn git_suffix() -> Seq<char> {
    ".git"@
}

/// The message with which `url` is rejected.
pub open spec fn invalid_url_message(url: Seq<char>) -> Seq<char> {
    "Invalid GitHub repository URL: "@ + url
}

/// The name that a piece of a locator gives: the piece trimmed of
/// whitespace, without any trailing `.git`.
pub open spec fn repository_name_of(piece: Seq<char>) -> Seq<char> {
    strip_trailing(trimmed(piece), git_suffix())
}

/// The owner and the repository name that `url` addresses, if it can be
/// taken apart.
///
/// What follows the prefix is cut at `/`. The first piece, trimmed of
/// whitespace, is the owner; the second gives the name, without its `.git`.
/// Both pieces must be there, and neither the owner nor the name may be
/// empty: a locator that leaves nothing to address cannot be taken apart.
pub open spec fn owner_and_repo_of(url: Seq<char>) -> Option<(Seq<char>, Seq<char>)> {
    if !github_prefix().is_prefix_of(url) {
        None
    } else {
        let rest = url.skip(github_prefix().len() as int);
        let n1 = segment_len(rest, '/');
        if n1 == rest.len() {
            None
        } else {
            let owner = trimmed(rest.take(n1 as int));
            let tail = rest.skip(n1 as int + 1);
            let n2 = segment_len(tail, '/');
            let repo = repository_name_of(tail.take(n2 as int));
            if owner.len() == 0 || repo.len() == 0 {
                None
            } else {
                Some((owner, repo))
            }
        }
    }
}

/// A locator that can be taken apart names an owner and a repository:
/// neither is empty.
pub proof fn lemma_parts_are_not_empty(url: Seq<char>)
    ensures
        owner_and_repo_of(url) matches Some((owner, repo)) ==> owner.len() > 0 && repo.len() > 0,
{
}

/// Neither the owner nor the name of a locator holds a `/`.
pub proof fn lemma_parts_hold_no_slash(url: Seq<char>)
    ensures
        owner_and_repo_of(url) matches Some((owner, repo)) ==> free_of(owner, '/') && free_of(
            repo,
            '/',
        ),
{
    if github_prefix().is_prefix_of(url) {
        let rest = url.skip(github_prefix().len() as int);
        let n1 = segment_len(rest, '/');
        lemma_segment_is_free(rest, '/');
        if n1 != rest.len() {
            let tail = rest.skip(n1 as int + 1);
            let n2 = segment_len(tail, '/');
            lemma_segment_is_free(tail, '/');
            lemma_trim_stays_free(rest.take(n1 as int), '/');
            lemma_trim_stays_free(tail.take(n2 as int), '/');
            lemma_strip_stays_free(trimmed(tail.take(n2 as int)), git_suffix(), '/');
        }
    }
}

/// The canonical locator of a tracked repository.
#[derive(Debug)]
pub struct RepositoryUrl {
    url: String,
}

impl View for RepositoryUrl {
    type V = Seq<char>;

    closed spec fn view(&self) -> Seq<char> {
        self.url@
    }
}

impl RepositoryUrl {
    /// Accepts `url` if it begins with `https://github.com/`, and rejects it
    /// with a message that quotes it otherwise.
    pub fn new(url: String) -> (r: Result<Self, String>)
        ensures
            match r {
                Ok(u) => github_prefix().is_prefix_of(url@) && u@ == url@,
                Err(msg) => !github_prefix().is_prefix_of(url@) && msg@ == invalid_url_message(
                    url@,
                ),
            },
    {
        let chars = chars_of(url.as_str());
        let prefix = chars_of("https://github.com/");
        if !starts_with(&chars, &prefix) {
            let mut msg = String::from_str("Invalid GitHub repository URL: ");
            msg.append(url.as_str());
            return Err(msg);
        }
        Ok(Self { url })
    }

    /// Takes a locator as it was stored, without validating it.
    pub fn from_stored(url: String) -> (u: Self)
        ensures
            u@ == url@,
    {
        Self { url }
    }

    /// The locator as text.
    pub fn url(&self) -> (s: String)
        ensures
            s@ == self@,
    {
        self.url.clone()
    }

    /// The locator as text, as it is shown to users.
    pub fn to_string(&self) -> (s: String)
        ensures
            s@ == self@,
    {
        self.url.clone()
    }

    /// The owner and the repository name that the locator addresses, or
    /// `None` when it cannot be taken apart.
    pub fn owner_and_repo(&self) -> (r: Option<(String, String)>)
        ensures
            match r {
                Some((owner, repo)) => owner_and_repo_of(self@) == Some((owner@, repo@))
                    && owner@.len() > 0 && repo@.len() > 0,
                None => owner_and_repo_of(self@) is None,
            },
    {
        let chars = chars_of(self.url.as_str());
        let prefix = chars_of("https://github.com/");
        if !starts_with(&chars, &prefix) {
            return None;
        }
        let n: usize = chars.len();
        let start: usize = prefix.len();
        let ghost rest = chars@.skip(start as int);
        assert(rest =~= chars@.subrange(start as int, n as int));
        let slash1 = find_separator(&chars, start, n, '/');
        if slash1 == n {
            return None;
        }
        let (o_lo, o_hi) = trim_bounds(&chars, start, slash1);
        assert(chars@.subrange(start as int, slash1 as int) =~= rest.take(slash1 - start));
        let ghost tail = rest.skip(slash1 - start + 1);
        assert(tail =~= chars@.subrange(slash1 + 1, n as int));
        let slash2 = find_separator(&chars, slash1 + 1, n, '/');
        let (r_lo, r_hi) = trim_bounds(&chars, slash1 + 1, slash2);
        assert(chars@.subrange(slash1 + 1, slash2 as int) =~= tail.take(slash2 - (slash1 + 1)));
        let raw = Self::subvec(&chars, r_lo, r_hi);
        let suffix = chars_of(".git");
        proof {
            reveal_strlit(".git");
        }
        let keep = strip_trailing_len(&raw, raw.len(), &suffix);
        assert(raw@.take(raw@.len() as int) =~= raw@);
        assert(raw@.subrange(0, keep as int) =~= raw@.take(keep as int));
        if o_lo == o_hi || keep == 0 {
            return None;
        }
        let owner = string_of(&chars, o_lo, o_hi);
        let repo = string_of(&raw, 0, keep);
        Some((owner, repo))
    }

    fn subvec(v: &Vec<char>, lo: usize, hi: usize) -> (r: Vec<char>)
        requires
            lo <= hi <= v.len(),
        ensures
            r@ == v@.subrange(lo as int, hi as int),
    {
        let mut r: Vec<char> = Vec::new();
        let mut i: usize = lo;
        while i < hi
            invariant
                lo <= i <= hi <= v.len(),
                r@ == v@.subrange(lo as int, i as int),
            decreases hi - i,
        {
            r.push(v[i]);
            i += 1;
        }
        r
    }
}

/// A repository that is watched, and the chat that registered it.
#[derive(Debug)]
pub struct TrackedRelease {
    pub id: u128,
    pub repository_name: String,
    pub repository_url: RepositoryUrl,
    pub chat_id: i64,
    pub created_at: Timestamp,
    pub updated_at: Timestamp,
}

/// A [`TrackedRelease`] over sequences of characters.
pub struct TrackedReleaseView {
    pub id: u128,
    pub repository_name: Seq<char>,
    pub repository_url: Seq<char>,
    pub chat_id: i64,
    pub created_at: Timestamp,
    pub updated_at: Timestamp,
}

impl View for TrackedRelease {
    type V = TrackedReleaseView;

    open spec fn view(&self) -> TrackedReleaseView {
        TrackedReleaseView {
            id: self.id,
            repository_name: self.repository_name@,
            repository_url: self.repository_url@,
            chat_id: self.chat_id,
            created_at: self.created_at,
            updated_at: self.updated_at,
        }
    }
}

impl Clone for RepositoryUrl {
    fn clone(&self) -> (r: Self)
        ensures
            r@ == self@,
    {
        RepositoryUrl { url: self.url.clone() }
    }
}

impl Clone for TrackedRelease {
    fn clone(&self) -> (r: Self)
        ensures
            r@ == self@,
    {
        TrackedRelease {
            id: self.id,
            repository_name: self.repository_name.clone(),
            repository_url: self.repository_url.clone(),
            chat_id: self.chat_id,
            created_at: self.created_at,
            updated_at: self.updated_at,
        }
    }
}

impl TrackedRelease {
    /// The record that a stored row holds. The id column must hold a UUID;
    /// the locator is taken as it was stored.
    pub fn from_columns(
        id: &str,
        repository_name: String,
        repository_url: String,
        chat_id: i64,
        created_at: Timestamp,
        updated_at: Timestamp,
    ) -> (r: Result<Self, RowError>)
        ensures
            match r {
                Ok(record) => uuid_value(id@) == Some(record.id) && record@ == (TrackedReleaseView {
                    id: record.id,
                    repository_name: repository_name@,
                    repository_url: repository_url@,
                    chat_id,
                    created_at,
                    updated_at,
                }),
                Err(e) => uuid_value(id@) is None && e == RowError::InvalidId,
            },
    {
        match parse_id(id) {
            Ok(id) => Ok(
                TrackedRelease {
                    id,
                    repository_name,
                    repository_url: RepositoryUrl::from_stored(repository_url),
                    chat_id,
                    created_at,
                    updated_at,
                },
            ),
            Err(e) => Err(e),
        }
    }
}

} // verus!
