//! Commit history: reading the source-control host's answers about commits
//! and the change requests that introduced them.
use vstd::prelude::*;
use crate::errors::{DeployError, GitHubBaseUrlUndefined, GitHubTokenUndefined};
use crate::json::{json_array_len_at, json_parses, json_str_at, JsonDocument};
use crate::timestamp::{parse_utc, utc_instant_of, Timestamp};

verus! {

/// A commit with the title and body of the change request that introduced it
/// (both empty when none was asked for or none was found).
#[derive(Debug)]
pub struct GetCommitResult {
    pub date_time: Timestamp,
    pub author_email: String,
    pub sha: String,
    pub full_message: String,
    pub pr_title: String,
    pub pr_body: String,
}

/// `a` and `b` hold the same commit: the same instant and the same texts.
pub open spec fn same_commit(a: GetCommitResult, b: GetCommitResult) -> bool {
    &&& a.date_time == b.date_time
    &&& a.author_email@ == b.author_email@
    &&& a.sha@ == b.sha@
    &&& a.full_message@ == b.full_message@
    &&& a.pr_title@ == b.pr_title@
    &&& a.pr_body@ == b.pr_body@
}

/// `a` and `b` hold the same commits in the same order.
pub open spec fn same_commits(a: Seq<GetCommitResult>, b: Seq<GetCommitResult>) -> bool {
    &&& a.len() == b.len()
    &&& forall|i: int| 0 <= i < a.len() ==> same_commit(#[trigger] a[i], b[i])
}

/// The title and body of the earliest change request that contains a commit.
#[derive(Debug)]
pub struct FindFirstPrOfCommitResult {
    pub pr_title: String,
    pub pr_body: String,
}

/// The address and token of the source-control host.
#[derive(Debug)]
pub struct GithubSettings {
    pub base_url: String,
    pub token: String,
}

/// Which setting of the source-control host is missing.
#[derive(Debug, Clone, Copy, PartialEq, Eq, Structural)]
pub enum GithubSettingsError {
    BaseUrl(GitHubBaseUrlUndefined),
    Token(GitHubTokenUndefined),
}

impl GithubSettings {
    /// The settings, when both the base URL and the token are given.
    pub fn new(base_url: Option<&str>, token: Option<&str>) -> (r: Result<Self, GithubSettingsError>)
        ensures
            base_url is None ==> r == Err::<Self, _>(GithubSettingsError::BaseUrl(GitHubBaseUrlUndefined)),
            base_url is Some && token is None ==> r == Err::<Self, _>(
                GithubSettingsError::Token(GitHubTokenUndefined),
            ),
            base_url is Some && token is Some ==> (r matches Ok(s) && s.base_url@ == base_url.unwrap()@
                && s.token@ == token.unwrap()@),
    {
        match (base_url, token) {
            (None, _) => Err(GithubSettingsError::BaseUrl(GitHubBaseUrlUndefined)),
            (_, None) => Err(GithubSettingsError::Token(GitHubTokenUndefined)),
            (Some(base_url), Some(token)) => Ok(
                GithubSettings { base_url: String::from_str(base_url), token: String::from_str(token) },
            ),
        }
    }
}

pub open spec fn commit_url_spec(base: Seq<char>, owner: Seq<char>, repo: Seq<char>, sha: Seq<char>) -> Seq<char> {
    base + "/repos/"@ + owner + "/"@ + repo + "/commits/"@ + sha
}

pub open spec fn first_request_url_spec(base: Seq<char>, owner: Seq<char>, repo: Seq<char>, sha: Seq<char>) -> Seq<char> {
    base + "/search/issues?q=SHA:"@ + sha + "+repo:"@ + owner + "/"@ + repo
        + "+type:pr&sort=created&order=asc"@
}

/// The address of a commit's metadata.
pub fn commit_url(base: &str, owner: &str, repo: &str, sha: &str) -> (r: String)
    ensures
        r@ == commit_url_spec(base@, owner@, repo@, sha@),
{
    let mut r = String::from_str(base);
    r.append("/repos/");
    r.append(owner);
    r.append("/");
    r.append(repo);
    r.append("/commits/");
    r.append(sha);
    r
}

/// The address of the search for the change requests that contain a commit,
/// earliest created first.
pub fn first_request_url(base: &str, owner: &str, repo: &str, sha: &str) -> (r: String)
    ensures
        r@ == first_request_url_spec(base@, owner@, repo@, sha@),
{
    let mut r = String::from_str(base);
    r.append("/search/issues?q=SHA:");
    r.append(sha);
    r.append("+repo:");
    r.append(owner);
    r.append("/");
    r.append(repo);
    r.append("+type:pr&sort=created&order=asc");
    r
}

/// `c` is commit `sha` as its metadata `body` describes it, without change request.
pub open spec fn commit_read_from(sha: Seq<char>, body: Seq<char>, c: GetCommitResult) -> bool {
    &&& json_str_at(body, "/commit/committer/date"@) matches Some(date)
        && utc_instant_of(date) == Some((c.date_time.seconds, c.date_time.nanos))
    &&& json_str_at(body, "/commit/author/email"@) == Some(c.author_email@)
    &&& json_str_at(body, "/commit/message"@) == Some(c.full_message@)
    &&& c.sha@ == sha
    &&& c.pr_title@.len() == 0
    &&& c.pr_body@.len() == 0
}

/// The host's answer `body` about a commit can be read: it is JSON with a
/// date, an author e-mail and a message, and the date is a valid timestamp.
pub open spec fn commit_readable(body: Seq<char>) -> bool {
    &&& json_parses(body)
    &&& json_str_at(body, "/commit/committer/date"@) matches Some(date) && utc_instant_of(date) is Some
    &&& json_str_at(body, "/commit/author/email"@) is Some
    &&& json_str_at(body, "/commit/message"@) is Some
}

/// Commit `sha` read from the host's answer `body` about it.
pub fn parse_commit(sha: &str, body: &str) -> (r: Result<GetCommitResult, DeployError>)
    ensures
        !json_parses(body@) ==> r matches Err(DeployError::Upstream(_)),
        json_parses(body@) ==> {
            let date = json_str_at(body@, "/commit/committer/date"@);
            let email = json_str_at(body@, "/commit/author/email"@);
            let message = json_str_at(body@, "/commit/message"@);
            if date is None || email is None || message is None {
                r matches Err(DeployError::Upstream(_))
            } else if utc_instant_of(date.unwrap()) is None {
                r matches Err(DeployError::TimestampParse(d)) && d@ == date.unwrap()
            } else {
                r matches Ok(c) && commit_read_from(sha@, body@, c)
            }
        },
        r is Ok <==> commit_readable(body@),
        r matches Ok(c) ==> commit_read_from(sha@, body@, c),
{
    let doc = match JsonDocument::parse(body) {
        Err(_) => {
            return Err(DeployError::Upstream(String::from_str("commit metadata is not valid JSON")));
        },
        Ok(d) => d,
    };
    let date = doc.str_at("/commit/committer/date");
    let email = doc.str_at("/commit/author/email");
    let message = doc.str_at("/commit/message");
    match (date, email, message) {
        (Some(date), Some(author_email), Some(full_message)) => match parse_utc(date.as_str()) {
            None => Err(DeployError::TimestampParse(date)),
            Some(date_time) => Ok(
                GetCommitResult {
                    date_time,
                    author_email,
                    sha: String::from_str(sha),
                    full_message,
                    pr_title: String::new(),
                    pr_body: String::new(),
                },
            ),
        },
        _ => Err(DeployError::Upstream(String::from_str("commit metadata lacks a field"))),
    }
}

pub open spec fn or_empty(o: Option<Seq<char>>) -> Seq<char> {
    match o {
        Some(s) => s,
        None => Seq::empty(),
    }
}

/// The search answer `body` lists at least one change request.
pub open spec fn lists_request(body: Seq<char>) -> bool {
    json_array_len_at(body, "/items"@) matches Some(n) && n > 0
}

/// The title of the earliest change request in the search answer `body`; empty when it lists none.
pub open spec fn first_request_title(body: Seq<char>) -> Seq<char> {
    if lists_request(body) {
        or_empty(json_str_at(body, "/items/0/title"@))
    } else {
        Seq::empty()
    }
}

/// The body of the earliest change request in the search answer `body`; empty when it lists none.
pub open spec fn first_request_body(body: Seq<char>) -> Seq<char> {
    if lists_request(body) {
        or_empty(json_str_at(body, "/items/0/body"@))
    } else {
        Seq::empty()
    }
}

/// The earliest change request of a search answer `body`, or empty title and
/// body when the answer lists none.
pub fn parse_first_request(body: &str) -> (r: Result<FindFirstPrOfCommitResult, DeployError>)
    ensures
        !json_parses(body@) ==> r matches Err(DeployError::Upstream(_)),
        json_parses(body@) ==> (r matches Ok(p) && p.pr_title@ == first_request_title(body@)
            && p.pr_body@ == first_request_body(body@)),
{
    let doc = match JsonDocument::parse(body) {
        Err(_) => {
            return Err(DeployError::Upstream(String::from_str("change-request search answer is not valid JSON")));
        },
        Ok(d) => d,
    };
    match doc.array_len_at("/items") {
        Some(n) if n > 0 => {
            let pr_title = match doc.str_at("/items/0/title") {
                Some(t) => t,
                None => String::new(),
            };
            let pr_body = match doc.str_at("/items/0/body") {
                Some(b) => b,
                None => String::new(),
            };
            Ok(FindFirstPrOfCommitResult { pr_title, pr_body })
        },
        _ => Ok(FindFirstPrOfCommitResult { pr_title: String::new(), pr_body: String::new() }),
    }
}

impl GetCommitResult {
    /// This commit with the title and body of the change request that introduced it.
    pub fn with_request(self, request: FindFirstPrOfCommitResult) -> (r: GetCommitResult)
        ensures
            r.date_time == self.date_time,
            r.author_email == self.author_email,
            r.sha == self.sha,
            r.full_message == self.full_message,
            r.pr_title == request.pr_title,
            r.pr_body == request.pr_body,
    {
        GetCommitResult {
            date_time: self.date_time,
            author_email: self.author_email,
            sha: self.sha,
            full_message: self.full_message,
            pr_title: request.pr_title,
            pr_body: request.pr_body,
        }
    }
}

pub open spec fn later_than(since: Timestamp) -> spec_fn(GetCommitResult) -> bool {
    |c: GetCommitResult| c.date_time.is_after(since)
}

/// The commits strictly later than `since`, in the order given.
pub fn commits_after(since: Timestamp, commits: Vec<GetCommitResult>) -> (r: Vec<GetCommitResult>)
    ensures
        r@ == commits@.filter(later_than(since)),
        forall|i: int| 0 <= i < r.len() ==> (#[trigger] r[i]).date_time.is_after(since),
{
    let ghost all = commits@;
    let mut r: Vec<GetCommitResult> = Vec::new();
    for c in it: commits.into_iter()
        invariant
            it.seq() == all,
            r@ == all.take(it.index() as int).filter(later_than(since)),
    {
        proof {
            reveal(Seq::filter);
            assert(all.take(it.index() + 1).drop_last() =~= all.take(it.index() as int));
        }
        if c.date_time.after(&since) {
            r.push(c);
        }
    }
    proof {
        assert(all.take(all.len() as int) =~= all);
        assert forall|i: int| 0 <= i < r.len() implies (#[trigger] r[i]).date_time.is_after(since) by {
            all.lemma_filter_pred(later_than(since), i);
        }
    }
    r
}

} // verus!
