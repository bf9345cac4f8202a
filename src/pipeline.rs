//! The report pipeline: the decisions between the calls to the configuration
//! store, the source-control host and the ticket tracker. The caller performs
//! each `Request` and hands back its outcome as an `Event`.
use vstd::prelude::*;
use crate::config_revision::{
    config_document_path, config_document_path_spec, config_owner, config_repo, extract_commit_sha,
    image_tag_path_spec, ImageTagScheme,
};
use crate::correlation::{
    after_answer, assemble_report, field_text, next_field, report_of, start_scan,
    PrintMessageFromExtractTicketsResultPayload, ScanStep, FIELD_COUNT,
};
use crate::errors::DeployError;
use crate::json::{json_array_len_at, json_parses, json_str_at};
use crate::source_control::{
    commit_read_from, commit_readable, commit_url, commit_url_spec, commits_after, first_request_body,
    first_request_title, first_request_url, first_request_url_spec, later_than, parse_commit,
    parse_first_request, GetCommitResult, GithubSettings,
};
use crate::text::after_last;
use crate::tickets::{views, TicketExtractionService};
use crate::timestamp::Timestamp;
use crate::tracker::{
    all_keyed, parse_search_response, search_jql_spec, ticket_read_from, JiraServiceImpl, JiraTicketInfo, TicketSearchRequest,
    SEARCH_PAGE_SIZE,
};

verus! {

/// What a report is built for, and where its collaborators are.
#[derive(Debug)]
pub struct PipelineSettings {
    /// Owner of the service's repository.
    pub owner: String,
    /// The service, which is also the name of its repository.
    pub service: String,
    pub env: String,
    pub scheme: ImageTagScheme,
    pub tickets: TicketExtractionService,
    pub github: GithubSettings,
    pub jira: JiraServiceImpl,
    /// The release target; `master` when none is given.
    pub target: Option<String>,
}

/// The two fetches for one listed commit: its metadata and the search for
/// the change requests that contain it.
#[derive(Debug)]
pub struct CommitFetch {
    pub sha: String,
    pub commit_url: String,
    pub request_url: String,
}

/// The answers to one `CommitFetch`.
#[derive(Debug)]
pub struct CommitPayloads {
    pub commit_body: String,
    pub request_body: String,
}

/// What the pipeline asks its caller to do next.
#[derive(Debug)]
pub enum Request {
    /// Read the file `path` of repository `owner/repo`.
    FetchConfigDocument { owner: String, repo: String, path: String },
    /// Fetch the metadata of commit `sha` from `url`.
    FetchCommit { sha: String, url: String },
    /// List the commits of `owner/repo` since `since`, as the host orders them.
    ListCommitsSince { owner: String, repo: String, since: Timestamp },
    /// Perform every fetch, all of them or none: one failure fails the batch.
    FetchCommitsWithRequests(Vec<CommitFetch>),
    /// Send this search to the ticket tracker.
    QueryTickets(TicketSearchRequest),
    /// The report is complete.
    Present(PrintMessageFromExtractTicketsResultPayload),
    /// The pipeline failed and produces no report.
    Abort(DeployError),
}

/// The outcome of a `Request`.
#[derive(Debug)]
pub enum Event {
    ConfigDocument(Result<String, DeployError>),
    Commit(Result<String, DeployError>),
    CommitsListed(Result<Vec<String>, DeployError>),
    /// The answers, one per fetch and in the order of the request.
    CommitsWithRequests(Result<Vec<CommitPayloads>, DeployError>),
    /// The body of the tracker's answer.
    TicketAnswer(Result<String, DeployError>),
}

/// Where the pipeline stands.
#[derive(Debug)]
pub enum Stage {
    Start,
    AwaitingConfig,
    AwaitingBaseline { baseline: String },
    AwaitingListing { baseline: String, since: Timestamp },
    AwaitingCommits { baseline: String, since: Timestamp, shas: Vec<String> },
    /// Commit `found.len()` awaits the tracker's answer for its field `field`;
    /// the commits before it have their tickets in `found`.
    Correlating {
        baseline: String,
        commits: Vec<GetCommitResult>,
        found: Vec<Vec<JiraTicketInfo>>,
        field: usize,
    },
    Finished,
}

/// The tracker search for `keys` under the tracker settings `jira`.
pub open spec fn is_search_for(jira: JiraServiceImpl, keys: Seq<Seq<char>>, q: TicketSearchRequest) -> bool {
    &&& q.url@ == jira.base_url@ + "/rest/api/2/search"@
    &&& q.authorization@ == "Bearer "@ + jira.token@
    &&& q.jql@ == search_jql_spec(keys)
    &&& q.max_results == SEARCH_PAGE_SIZE
}

/// `commits[i]` with `i` in `from..to` yield no ticket keys in any field.
pub open spec fn keyless_between(ext: TicketExtractionService, commits: Seq<GetCommitResult>, from: int, to: int) -> bool {
    forall|j: int| from <= j < to ==> (#[trigger] next_field(ext, commits[j], 0)) is None
}

/// `found` is `prior` followed by an empty ticket list for each of `commits[prior.len()..found.len()]`.
pub open spec fn extends_with_none(prior: Seq<Vec<JiraTicketInfo>>, found: Seq<Vec<JiraTicketInfo>>) -> bool {
    &&& prior.len() <= found.len()
    &&& forall|j: int| 0 <= j < prior.len() ==> #[trigger] found[j] == prior[j]
    &&& forall|j: int| prior.len() <= j < found.len() ==> (#[trigger] found[j])@.len() == 0
}

/// From commit `prior.len()` on, commits whose fields yield no keys get no
/// ticket; at the first commit with a field that yields keys the tracker is
/// queried for them; after the last commit the report is presented.
pub open spec fn advanced(
    s: PipelineSettings,
    baseline: Seq<char>,
    commits: Seq<GetCommitResult>,
    prior: Seq<Vec<JiraTicketInfo>>,
    stage: Stage,
    r: Request,
) -> bool {
    exists|m: int|
        #![trigger keyless_between(s.tickets, commits, prior.len() as int, m)]
        prior.len() <= m <= commits.len() && keyless_between(s.tickets, commits, prior.len() as int, m) && if m
            == commits.len() {
            &&& stage is Finished
            &&& r matches Request::Present(p) && exists|found: Seq<Vec<JiraTicketInfo>>|
                extends_with_none(prior, found) && found.len() == m && report_of(
                    s.owner@,
                    s.service@,
                    baseline,
                    s.target,
                    commits,
                    found,
                    p,
                )
        } else {
            &&& next_field(s.tickets, commits[m], 0) matches Some(k)
            &&& stage matches Stage::Correlating { baseline: b, commits: cs, found, field } && b@ == baseline
                && cs@ == commits && found.len() == m && extends_with_none(prior, found@) && field == k
            &&& r matches Request::QueryTickets(q) && is_search_for(
                s.jira,
                s.tickets.tickets_in(field_text(commits[m], k)),
                q,
            )
        }
}

/// The fetches for `shas`, one per listed commit, in listing order.
pub open spec fn fetches_for(s: PipelineSettings, shas: Seq<String>, f: Seq<CommitFetch>) -> bool {
    &&& f.len() == shas.len()
    &&& forall|i: int|
        0 <= i < shas.len() ==> {
            &&& (#[trigger] f[i]).sha@ == shas[i]@
            &&& f[i].commit_url@ == commit_url_spec(s.github.base_url@, s.owner@, s.service@, shas[i]@)
            &&& f[i].request_url@ == first_request_url_spec(s.github.base_url@, s.owner@, s.service@, shas[i]@)
        }
}

/// `c` is the commit `sha` read from its metadata `p.commit_body`, enriched with
/// the earliest change request of the search answer `p.request_body`.
pub open spec fn enriched_from(sha: Seq<char>, p: CommitPayloads, c: GetCommitResult) -> bool {
    &&& json_str_at(p.commit_body@, "/commit/committer/date"@) is Some
    &&& json_str_at(p.commit_body@, "/commit/author/email"@) == Some(c.author_email@)
    &&& json_str_at(p.commit_body@, "/commit/message"@) == Some(c.full_message@)
    &&& c.sha@ == sha
    &&& c.pr_title@ == first_request_title(p.request_body@)
    &&& c.pr_body@ == first_request_body(p.request_body@)
    &&& exists|t: GetCommitResult| #[trigger] commit_read_from(sha, p.commit_body@, t) && t.date_time == c.date_time
}

/// Every payload can be read.
pub open spec fn all_readable(p: Seq<CommitPayloads>) -> bool {
    forall|i: int| 0 <= i < p.len() ==> commit_readable((#[trigger] p[i]).commit_body@) && json_parses(
        p[i].request_body@,
    )
}

/// The tracker's answer `body` can be read: JSON with a list of issues that all have a key.
pub open spec fn tracker_answer_readable(body: Seq<char>) -> bool {
    &&& json_parses(body)
    &&& json_array_len_at(body, "/issues"@) matches Some(n) && all_keyed(body, n)
}

/// `v` are the tickets that the tracker's answer `body` lists, in its order.
pub open spec fn tickets_read_from(body: Seq<char>, v: Seq<JiraTicketInfo>) -> bool {
    &&& json_array_len_at(body, "/issues"@) == Some(v.len())
    &&& forall|i: int| 0 <= i < v.len() ==> ticket_read_from(body, i as nat, #[trigger] v[i])
}

impl PipelineSettings {
    /// What happens on `event` at `stage`: the next stage and the next request.
    pub open spec fn transition(self, stage: Stage, event: Option<Event>, next: Stage, r: Request) -> bool {
        match (stage, event) {
            (Stage::Start, None) => {
                &&& next is AwaitingConfig
                &&& r matches Request::FetchConfigDocument { owner, repo, path } && owner@ == "jrumjantsev"@
                    && repo@ == "config"@ && path@ == config_document_path_spec(self.service@)
            },
            (Stage::AwaitingConfig, Some(Event::ConfigDocument(Err(e)))) => next is Finished && r
                == Request::Abort(e),
            (Stage::AwaitingConfig, Some(Event::ConfigDocument(Ok(doc)))) => {
                let path = image_tag_path_spec(self.service@, self.env@, self.scheme);
                if !json_parses(doc@) {
                    next is Finished && r matches Request::Abort(DeployError::Upstream(_))
                } else {
                    match json_str_at(doc@, path) {
                        None => next is Finished && (r matches Request::Abort(DeployError::PathNotFound(p))
                            && p@ == path),
                        Some(tag) => match after_last(tag, '-') {
                            None => next is Finished && (r matches Request::Abort(
                                DeployError::TagWithoutRevision(t),
                            ) && t@ == tag),
                            Some(rev) => {
                                &&& next matches Stage::AwaitingBaseline { baseline } && baseline@ == rev
                                &&& r matches Request::FetchCommit { sha, url } && sha@ == rev && url@
                                    == commit_url_spec(self.github.base_url@, self.owner@, self.service@, rev)
                            },
                        },
                    }
                }
            },
            (Stage::AwaitingBaseline { baseline }, Some(Event::Commit(Err(e)))) => next is Finished && r
                == Request::Abort(e),
            (Stage::AwaitingBaseline { baseline }, Some(Event::Commit(Ok(body)))) => if commit_readable(
                body@,
            ) {
                &&& next matches Stage::AwaitingListing { baseline: b, since } && b == baseline && exists|
                    c: GetCommitResult,
                | #[trigger] commit_read_from(baseline@, body@, c) && c.date_time == since
                &&& r matches Request::ListCommitsSince { owner, repo, since } && owner@ == self.owner@
                    && repo@ == self.service@ && next->AwaitingListing_since == since
            } else {
                next is Finished && r is Abort
            },
            (Stage::AwaitingListing { baseline, since }, Some(Event::CommitsListed(Err(e)))) => next
                is Finished && r == Request::Abort(e),
            (Stage::AwaitingListing { baseline, since }, Some(Event::CommitsListed(Ok(shas)))) => {
                &&& next matches Stage::AwaitingCommits { baseline: b, since: t, shas: l } && b == baseline
                    && t == since && l == shas
                &&& r matches Request::FetchCommitsWithRequests(f) && fetches_for(self, shas@, f@)
            },
            (Stage::AwaitingCommits { baseline, since, shas }, Some(Event::CommitsWithRequests(Err(e)))) =>
                next is Finished && r == Request::Abort(e),
            (Stage::AwaitingCommits { baseline, since, shas }, Some(Event::CommitsWithRequests(Ok(p)))) =>
                if p.len() == shas.len() && all_readable(p@) {
                exists|g: Seq<GetCommitResult>|
                    g.len() == p.len() && (forall|i: int|
                        0 <= i < g.len() ==> enriched_from(shas[i]@, p[i], #[trigger] g[i])) && advanced(
                        self,
                        baseline@,
                        g.filter(later_than(since)),
                        Seq::empty(),
                        next,
                        r,
                    )
            } else {
                next is Finished && r is Abort
            },
            (
                Stage::Correlating { baseline, commits, found, field },
                Some(Event::TicketAnswer(answer)),
            ) => {
                let c = commits[found.len() as int];
                if answer matches Ok(body) && tracker_answer_readable(body@) {
                    exists|v: Vec<JiraTicketInfo>|
                        #[trigger] tickets_read_from(answer->Ok_0@, v@) && advanced(
                            self,
                            baseline@,
                            commits@,
                            found@.push(v),
                            next,
                            r,
                        )
                } else {
                    match next_field(self.tickets, c, field + 1) {
                        Some(k) => {
                            &&& next matches Stage::Correlating { baseline: b, commits: cs, found: fs, field: f }
                                && b == baseline && cs == commits && fs == found && f == k
                            &&& r matches Request::QueryTickets(q) && is_search_for(
                                self.jira,
                                self.tickets.tickets_in(field_text(c, k)),
                                q,
                            )
                        },
                        None => exists|e: Vec<JiraTicketInfo>|
                            #[trigger] e@.len() == 0 && advanced(self, baseline@, commits@, found@.push(e), next, r),
                    }
                }
            },
            _ => next is Finished && r matches Request::Abort(DeployError::Upstream(_)),
        }
    }
}

/// The stage is consistent: while correlating, the commit awaiting an answer
/// exists and its field is one of the scanned fields.
pub open spec fn wf_stage(stage: Stage) -> bool {
    match stage {
        Stage::Correlating { commits, found, field, .. } => found.len() < commits.len() && field
            < FIELD_COUNT,
        _ => true,
    }
}

fn search_for(jira: &JiraServiceImpl, keys: &Vec<String>) -> (r: Request)
    requires
        keys.len() > 0,
    ensures
        r matches Request::QueryTickets(q) && is_search_for(*jira, views(keys@), q),
{
    match jira.search_request(keys) {
        Ok(q) => Request::QueryTickets(q),
        Err(e) => Request::Abort(e),
    }
}

fn copy_target(t: &Option<String>) -> (r: Option<String>)
    ensures
        r == *t,
{
    match t {
        Some(s) => Some(s.clone()),
        None => None,
    }
}

/// Scans the commits from `found.len()` on: keyless commits get no ticket,
/// the first commit with keys is looked up, and after the last the report is built.
#[verifier::loop_isolation(false)]
fn advance(
    s: &PipelineSettings,
    baseline: String,
    commits: Vec<GetCommitResult>,
    found: Vec<Vec<JiraTicketInfo>>,
) -> (r: (Stage, Request))
    requires
        found.len() <= commits.len(),
    ensures
        advanced(*s, baseline@, commits@, found@, r.0, r.1),
        wf_stage(r.0),
{
    let ghost prior = found@;
    let mut found = found;
    while found.len() < commits.len()
        invariant
            prior.len() <= found.len() <= commits.len(),
            extends_with_none(prior, found@),
            keyless_between(s.tickets, commits@, prior.len() as int, found.len() as int),
        decreases commits.len() - found.len(),
    {
        let i = found.len();
        let step = start_scan(&s.tickets, &commits[i]);
        proof {
            crate::correlation::lemma_next_field_is_first(s.tickets, commits@[i as int], 0);
        }
        match step {
            ScanStep::Lookup(l) => {
                assert(views(l.keys@).len() == l.keys@.len());
                let field = l.field;
                let r = search_for(&s.jira, &l.keys);
                assert(keyless_between(s.tickets, commits@, prior.len() as int, i as int));
                return (Stage::Correlating { baseline, commits, found, field }, r);
            },
            _ => {
                found.push(Vec::new());
                assert(keyless_between(s.tickets, commits@, prior.len() as int, found.len() as int));
            },
        }
    }
    let report = assemble_report(
        s.owner.as_str(),
        s.service.as_str(),
        baseline.as_str(),
        copy_target(&s.target),
        &commits,
        &found,
    );
    assert(keyless_between(s.tickets, commits@, prior.len() as int, commits.len() as int));
    (Stage::Finished, Request::Present(report))
}

/// The fetches for every listed commit.
fn fetches(s: &PipelineSettings, shas: &Vec<String>) -> (r: Vec<CommitFetch>)
    ensures
        fetches_for(*s, shas@, r@),
{
    let mut r: Vec<CommitFetch> = Vec::new();
    let mut i: usize = 0;
    while i < shas.len()
        invariant
            i <= shas.len(),
            r.len() == i,
            forall|j: int|
                0 <= j < i ==> {
                    &&& (#[trigger] r[j]).sha@ == shas[j]@
                    &&& r[j].commit_url@ == commit_url_spec(s.github.base_url@, s.owner@, s.service@, shas[j]@)
                    &&& r[j].request_url@ == first_request_url_spec(
                        s.github.base_url@,
                        s.owner@,
                        s.service@,
                        shas[j]@,
                    )
                },
        decreases shas.len() - i,
    {
        let sha = shas[i].as_str();
        let commit_url = commit_url(s.github.base_url.as_str(), s.owner.as_str(), s.service.as_str(), sha);
        let request_url = first_request_url(s.github.base_url.as_str(), s.owner.as_str(), s.service.as_str(), sha);
        r.push(CommitFetch { sha: String::from_str(sha), commit_url, request_url });
        i = i + 1;
    }
    r
}

/// The listed commits read from their payloads and enriched with their change requests.
fn gather(shas: &Vec<String>, payloads: &Vec<CommitPayloads>) -> (r: Result<Vec<GetCommitResult>, DeployError>)
    requires
        shas.len() == payloads.len(),
    ensures
        r is Ok <==> all_readable(payloads@),
        r matches Ok(g) ==> g.len() == payloads.len() && forall|i: int|
            0 <= i < g.len() ==> enriched_from(shas[i]@, payloads[i], #[trigger] g[i]),
{
    let mut g: Vec<GetCommitResult> = Vec::new();
    let mut i: usize = 0;
    while i < payloads.len()
        invariant
            i <= payloads.len(),
            shas.len() == payloads.len(),
            g.len() == i,
            forall|j: int|
                0 <= j < i ==> commit_readable((#[trigger] payloads[j]).commit_body@) && json_parses(
                    payloads[j].request_body@,
                ),
            forall|j: int| 0 <= j < i ==> enriched_from(shas[j]@, payloads[j], #[trigger] g[j]),
        decreases payloads.len() - i,
    {
        let c = match parse_commit(shas[i].as_str(), payloads[i].commit_body.as_str()) {
            Ok(c) => c,
            Err(e) => {
                return Err(e);
            },
        };
        let request = match parse_first_request(payloads[i].request_body.as_str()) {
            Ok(p) => p,
            Err(e) => {
                return Err(e);
            },
        };
        let ghost plain = c;
        let enriched = c.with_request(request);
        assert(commit_read_from(shas[i as int]@, payloads[i as int].commit_body@, plain));
        assert(enriched_from(shas[i as int]@, payloads[i as int], enriched));
        g.push(enriched);
        i = i + 1;
    }
    Ok(g)
}

impl PipelineSettings {
    fn on_config(&self, doc: Result<String, DeployError>) -> (r: (Stage, Request))
        ensures
            self.transition(Stage::AwaitingConfig, Some(Event::ConfigDocument(doc)), r.0, r.1),
            wf_stage(r.0),
    {
        match doc {
            Err(e) => (Stage::Finished, Request::Abort(e)),
            Ok(doc) => match extract_commit_sha(doc.as_str(), self.service.as_str(), self.env.as_str(), &self.scheme) {
                Err(e) => (Stage::Finished, Request::Abort(e)),
                Ok(x) => {
                    let url = commit_url(
                        self.github.base_url.as_str(),
                        self.owner.as_str(),
                        self.service.as_str(),
                        x.commit_sha.as_str(),
                    );
                    let sha = x.commit_sha.clone();
                    (Stage::AwaitingBaseline { baseline: x.commit_sha }, Request::FetchCommit { sha, url })
                },
            },
        }
    }

    fn on_baseline(&self, baseline: String, body: Result<String, DeployError>) -> (r: (Stage, Request))
        ensures
            self.transition(Stage::AwaitingBaseline { baseline }, Some(Event::Commit(body)), r.0, r.1),
            wf_stage(r.0),
    {
        match body {
            Err(e) => (Stage::Finished, Request::Abort(e)),
            Ok(body) => match parse_commit(baseline.as_str(), body.as_str()) {
                Err(e) => (Stage::Finished, Request::Abort(e)),
                Ok(c) => {
                    let since = c.date_time;
                    let owner = self.owner.clone();
                    let repo = self.service.clone();
                    (Stage::AwaitingListing { baseline, since }, Request::ListCommitsSince { owner, repo, since })
                },
            },
        }
    }

    fn on_listing(&self, baseline: String, since: Timestamp, shas: Result<Vec<String>, DeployError>) -> (r: (
        Stage,
        Request,
    ))
        ensures
            self.transition(Stage::AwaitingListing { baseline, since }, Some(Event::CommitsListed(shas)), r.0, r.1),
            wf_stage(r.0),
    {
        match shas {
            Err(e) => (Stage::Finished, Request::Abort(e)),
            Ok(shas) => {
                let f = fetches(self, &shas);
                (Stage::AwaitingCommits { baseline, since, shas }, Request::FetchCommitsWithRequests(f))
            },
        }
    }

    fn on_commits(
        &self,
        baseline: String,
        since: Timestamp,
        shas: Vec<String>,
        payloads: Result<Vec<CommitPayloads>, DeployError>,
    ) -> (r: (Stage, Request))
        ensures
            self.transition(
                Stage::AwaitingCommits { baseline, since, shas },
                Some(Event::CommitsWithRequests(payloads)),
                r.0,
                r.1,
            ),
            wf_stage(r.0),
    {
        match payloads {
            Err(e) => (Stage::Finished, Request::Abort(e)),
            Ok(p) => {
                if p.len() != shas.len() {
                    return (
                        Stage::Finished,
                        Request::Abort(DeployError::Upstream(String::from_str("commit answers do not match the listing"))),
                    );
                }
                match gather(&shas, &p) {
                    Err(e) => (Stage::Finished, Request::Abort(e)),
                    Ok(g) => {
                        let ghost all = g@;
                        let later = commits_after(since, g);
                        assert(later@.len() <= all.len()) by {
                            all.lemma_filter_len(later_than(since));
                        }
                        advance(self, baseline, later, Vec::new())
                    },
                }
            },
        }
    }

    fn on_answer(
        &self,
        baseline: String,
        commits: Vec<GetCommitResult>,
        found: Vec<Vec<JiraTicketInfo>>,
        field: usize,
        answer: Result<String, DeployError>,
    ) -> (r: (Stage, Request))
        requires
            found.len() < commits.len(),
            field < FIELD_COUNT,
        ensures
            self.transition(
                Stage::Correlating { baseline, commits, found, field },
                Some(Event::TicketAnswer(answer)),
                r.0,
                r.1,
            ),
            wf_stage(r.0),
    {
        let ghost given = answer;
        let parsed = match answer {
            Ok(body) => parse_search_response(body.as_str()),
            Err(e) => Err(e),
        };
        let step = after_answer(&self.tickets, &commits[found.len()], field, parsed);
        proof {
            crate::correlation::lemma_next_field_is_first(self.tickets, commits@[found.len() as int], field + 1);
        }
        let ghost prior = found@;
        let mut found = found;
        match step {
            ScanStep::Found(v) => {
                proof {
                    if given matches Ok(body) && tracker_answer_readable(body@) {
                        assert(tickets_read_from(given->Ok_0@, v@));
                    }
                }
                found.push(v);
                advance(self, baseline, commits, found)
            },
            ScanStep::Lookup(l) => {
                assert(views(l.keys@).len() == l.keys@.len());
                let r = search_for(&self.jira, &l.keys);
                (Stage::Correlating { baseline, commits, found, field: l.field }, r)
            },
            ScanStep::Exhausted => {
                let none: Vec<JiraTicketInfo> = Vec::new();
                assert(none@.len() == 0);
                found.push(none);
                assert(found@ == prior.push(none));
                advance(self, baseline, commits, found)
            },
        }
    }

    fn on_event(&self, stage: Stage, event: Option<Event>) -> (r: (Stage, Request))
        requires
            wf_stage(stage),
        ensures
            self.transition(stage, event, r.0, r.1),
            wf_stage(r.0),
    {
        match (stage, event) {
            (Stage::Start, None) => {
                let path = config_document_path(self.service.as_str());
                (
                    Stage::AwaitingConfig,
                    Request::FetchConfigDocument {
                        owner: String::from_str(config_owner()),
                        repo: String::from_str(config_repo()),
                        path,
                    },
                )
            },
            (Stage::AwaitingConfig, Some(Event::ConfigDocument(doc))) => self.on_config(doc),
            (Stage::AwaitingBaseline { baseline }, Some(Event::Commit(body))) => self.on_baseline(baseline, body),
            (Stage::AwaitingListing { baseline, since }, Some(Event::CommitsListed(shas))) => self.on_listing(
                baseline,
                since,
                shas,
            ),
            (Stage::AwaitingCommits { baseline, since, shas }, Some(Event::CommitsWithRequests(p))) => self.on_commits(
                baseline,
                since,
                shas,
                p,
            ),
            (Stage::Correlating { baseline, commits, found, field }, Some(Event::TicketAnswer(answer))) => self.on_answer(
                baseline,
                commits,
                found,
                field,
                answer,
            ),
            _ => (
                Stage::Finished,
                Request::Abort(DeployError::Upstream(String::from_str("the event does not answer the pending request"))),
            ),
        }
    }
}

/// The report pipeline for one service and environment: it asks for one
/// outside call at a time and decides from each outcome what comes next.
#[derive(Debug)]
pub struct InfoGatheringService {
    settings: PipelineSettings,
    stage: Stage,
}

impl InfoGatheringService {
    /// What the pipeline is run for.
    pub closed spec fn settings_of(&self) -> PipelineSettings {
        self.settings
    }

    /// What the pipeline is run for.
    pub fn settings(&self) -> (r: &PipelineSettings)
        ensures
            *r == self.settings_of(),
    {
        &self.settings
    }

    /// Where the pipeline stands.
    pub closed spec fn stage(&self) -> Stage {
        self.stage
    }

    /// The pipeline's state is consistent.
    pub closed spec fn wf(&self) -> bool {
        wf_stage(self.stage)
    }

    /// A pipeline that has not started.
    pub fn new(settings: PipelineSettings) -> (r: Self)
        ensures
            r.settings_of() == settings,
            r.stage() is Start,
            r.wf(),
    {
        InfoGatheringService { settings, stage: Stage::Start }
    }

    /// The next request, given the outcome of the previous one (`None` to start).
    pub fn step(&mut self, event: Option<Event>) -> (r: Request)
        requires
            old(self).wf(),
        ensures
            final(self).wf(),
            final(self).settings_of() == old(self).settings_of(),
            old(self).settings_of().transition(old(self).stage(), event, final(self).stage(), r),
    {
        let mut stage = Stage::Finished;
        std::mem::swap(&mut stage, &mut self.stage);
        let (next, r) = self.settings.on_event(stage, event);
        self.stage = next;
        r
    }

    /// Whether the pipeline has presented its report or failed.
    pub fn is_finished(&self) -> (r: bool)
        ensures
            r == (self.stage() is Finished),
    {
        match self.stage {
            Stage::Finished => true,
            _ => false,
        }
    }
}

} // verus!
