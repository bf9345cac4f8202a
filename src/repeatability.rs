//! Running the pipeline again against the same upstream answers repeats it:
//! every decision depends on the content of what it is given, never on which
//! values hold that content.
use vstd::prelude::*;
use crate::correlation::{field_text, next_field, yields_keys};
use crate::errors::DeployError;
use crate::pipeline::{
    advanced, enriched_from, extends_with_none, is_search_for, keyless_between, tickets_read_from,
    wf_stage, CommitPayloads, Event, PipelineSettings, Request, Stage,
};
use crate::printer::{lemma_report_text_is_determined, report_text};
use crate::source_control::{commit_read_from, later_than, same_commit, same_commits, GetCommitResult};
use crate::tickets::{views, TicketExtractionService};
use crate::timestamp::Timestamp;
use crate::tracker::{same_tickets, JiraTicketInfo};

verus! {

/// `a` and `b` hold the same ticket lists, commit by commit.
pub open spec fn same_found(a: Seq<Vec<JiraTicketInfo>>, b: Seq<Vec<JiraTicketInfo>>) -> bool {
    &&& a.len() == b.len()
    &&& forall|i: int| 0 <= i < a.len() ==> same_tickets((#[trigger] a[i])@, b[i]@)
}

/// `a` and `b` are the same stage with the same content.
pub open spec fn same_stage(a: Stage, b: Stage) -> bool {
    match (a, b) {
        (Stage::Start, Stage::Start) => true,
        (Stage::AwaitingConfig, Stage::AwaitingConfig) => true,
        (Stage::AwaitingBaseline { baseline: x }, Stage::AwaitingBaseline { baseline: y }) => x@ == y@,
        (
            Stage::AwaitingListing { baseline: x, since: s },
            Stage::AwaitingListing { baseline: y, since: t },
        ) => x@ == y@ && s == t,
        (
            Stage::AwaitingCommits { baseline: x, since: s, shas: l },
            Stage::AwaitingCommits { baseline: y, since: t, shas: m },
        ) => x@ == y@ && s == t && views(l@) == views(m@),
        (
            Stage::Correlating { baseline: x, commits: c, found: f, field: i },
            Stage::Correlating { baseline: y, commits: d, found: g, field: j },
        ) => x@ == y@ && same_commits(c@, d@) && same_found(f@, g@) && i == j,
        (Stage::Finished, Stage::Finished) => true,
        _ => false,
    }
}

/// `a` and `b` ask the same of the same collaborator, or present reports whose
/// text on host `server` is the same, or both abort.
pub open spec fn same_request(server: Seq<char>, a: Request, b: Request) -> bool {
    match (a, b) {
        (
            Request::FetchConfigDocument { owner: o1, repo: r1, path: p1 },
            Request::FetchConfigDocument { owner: o2, repo: r2, path: p2 },
        ) => o1@ == o2@ && r1@ == r2@ && p1@ == p2@,
        (Request::FetchCommit { sha: s1, url: u1 }, Request::FetchCommit { sha: s2, url: u2 }) => s1@ == s2@
            && u1@ == u2@,
        (
            Request::ListCommitsSince { owner: o1, repo: r1, since: t1 },
            Request::ListCommitsSince { owner: o2, repo: r2, since: t2 },
        ) => o1@ == o2@ && r1@ == r2@ && t1 == t2,
        (Request::FetchCommitsWithRequests(f1), Request::FetchCommitsWithRequests(f2)) => {
            &&& f1.len() == f2.len()
            &&& forall|i: int|
                0 <= i < f1.len() ==> (#[trigger] f1[i]).sha@ == f2[i].sha@ && f1[i].commit_url@
                    == f2[i].commit_url@ && f1[i].request_url@ == f2[i].request_url@
        },
        (Request::QueryTickets(q1), Request::QueryTickets(q2)) => {
            &&& q1.url@ == q2.url@
            &&& q1.authorization@ == q2.authorization@
            &&& q1.jql@ == q2.jql@
            &&& q1.max_results == q2.max_results
        },
        (Request::Present(p1), Request::Present(p2)) => report_text(server, p1) == report_text(server, p2),
        (Request::Abort(_), Request::Abort(_)) => true,
        _ => false,
    }
}

/// `a` and `b` are both successes with the same text, or both failures.
pub open spec fn same_text_outcome(a: Result<String, DeployError>, b: Result<String, DeployError>) -> bool {
    match (a, b) {
        (Ok(x), Ok(y)) => x@ == y@,
        (Err(_), Err(_)) => true,
        _ => false,
    }
}

/// `a` and `b` are the same outcome of the same request.
pub open spec fn same_event(a: Option<Event>, b: Option<Event>) -> bool {
    match (a, b) {
        (None, None) => true,
        (Some(Event::ConfigDocument(x)), Some(Event::ConfigDocument(y))) => same_text_outcome(x, y),
        (Some(Event::Commit(x)), Some(Event::Commit(y))) => same_text_outcome(x, y),
        (Some(Event::CommitsListed(x)), Some(Event::CommitsListed(y))) => match (x, y) {
            (Ok(l), Ok(m)) => views(l@) == views(m@),
            (Err(_), Err(_)) => true,
            _ => false,
        },
        (Some(Event::CommitsWithRequests(x)), Some(Event::CommitsWithRequests(y))) => match (x, y) {
            (Ok(p), Ok(q)) => p.len() == q.len() && forall|i: int|
                0 <= i < p.len() ==> (#[trigger] p[i]).commit_body@ == q[i].commit_body@
                    && p[i].request_body@ == q[i].request_body@,
            (Err(_), Err(_)) => true,
            _ => false,
        },
        (Some(Event::TicketAnswer(x)), Some(Event::TicketAnswer(y))) => same_text_outcome(x, y),
        _ => false,
    }
}

/// Which field of a commit the scan picks depends only on the commit's texts.
pub proof fn lemma_next_field_same(ext: TicketExtractionService, a: GetCommitResult, b: GetCommitResult, from: int)
    requires
        same_commit(a, b),
    ensures
        next_field(ext, a, from) == next_field(ext, b, from),
    decreases 3 - from,
{
    if from < 3 {
        assert(field_text(a, from) == field_text(b, from));
        lemma_next_field_same(ext, a, b, from + 1);
    }
}

/// Keeping the commits later than an instant keeps commits of the same content.
pub proof fn lemma_later_commits_same(a: Seq<GetCommitResult>, b: Seq<GetCommitResult>, since: Timestamp)
    requires
        same_commits(a, b),
    ensures
        same_commits(a.filter(later_than(since)), b.filter(later_than(since))),
    decreases a.len(),
{
    reveal(Seq::filter);
    if a.len() > 0 {
        assert(same_commit(a[a.len() - 1], b[a.len() - 1]));
        assert(same_commits(a.drop_last(), b.drop_last())) by {
            assert forall|i: int| 0 <= i < a.len() - 1 implies same_commit(
                #[trigger] a.drop_last()[i],
                b.drop_last()[i],
            ) by {
                assert(same_commit(a[i], b[i]));
            }
        }
        lemma_later_commits_same(a.drop_last(), b.drop_last(), since);
    }
}

/// The scan over commits of the same content, with the same tickets found so
/// far, makes the same next query or presents a report with the same text.
pub proof fn lemma_correlation_is_repeatable(
    s: PipelineSettings,
    server: Seq<char>,
    baseline: Seq<char>,
    commits1: Seq<GetCommitResult>,
    prior1: Seq<Vec<JiraTicketInfo>>,
    stage1: Stage,
    r1: Request,
    commits2: Seq<GetCommitResult>,
    prior2: Seq<Vec<JiraTicketInfo>>,
    stage2: Stage,
    r2: Request,
)
    requires
        advanced(s, baseline, commits1, prior1, stage1, r1),
        advanced(s, baseline, commits2, prior2, stage2, r2),
        same_commits(commits1, commits2),
        same_found(prior1, prior2),
    ensures
        same_stage(stage1, stage2),
        same_request(server, r1, r2),
{
    let ext = s.tickets;
    let lo = prior1.len() as int;
    let m1 = choose|m: int|
        #![trigger keyless_between(ext, commits1, lo, m)]
        lo <= m <= commits1.len() && keyless_between(ext, commits1, lo, m) && if m == commits1.len() {
            &&& stage1 is Finished
            &&& r1 matches Request::Present(p) && exists|found: Seq<Vec<JiraTicketInfo>>|
                extends_with_none(prior1, found) && found.len() == m && crate::correlation::report_of(
                    s.owner@,
                    s.service@,
                    baseline,
                    s.target,
                    commits1,
                    found,
                    p,
                )
        } else {
            &&& next_field(ext, commits1[m], 0) matches Some(k)
            &&& stage1 matches Stage::Correlating { baseline: b, commits: cs, found, field } && b@ == baseline
                && cs@ == commits1 && found.len() == m && extends_with_none(prior1, found@) && field == k
            &&& r1 matches Request::QueryTickets(q) && is_search_for(
                s.jira,
                ext.tickets_in(field_text(commits1[m], k)),
                q,
            )
        };
    let m2 = choose|m: int|
        #![trigger keyless_between(ext, commits2, lo, m)]
        lo <= m <= commits2.len() && keyless_between(ext, commits2, lo, m) && if m == commits2.len() {
            &&& stage2 is Finished
            &&& r2 matches Request::Present(p) && exists|found: Seq<Vec<JiraTicketInfo>>|
                extends_with_none(prior2, found) && found.len() == m && crate::correlation::report_of(
                    s.owner@,
                    s.service@,
                    baseline,
                    s.target,
                    commits2,
                    found,
                    p,
                )
        } else {
            &&& next_field(ext, commits2[m], 0) matches Some(k)
            &&& stage2 matches Stage::Correlating { baseline: b, commits: cs, found, field } && b@ == baseline
                && cs@ == commits2 && found.len() == m && extends_with_none(prior2, found@) && field == k
            &&& r2 matches Request::QueryTickets(q) && is_search_for(
                s.jira,
                ext.tickets_in(field_text(commits2[m], k)),
                q,
            )
        };
    if m1 < m2 {
        assert(same_commit(commits1[m1], commits2[m1]));
        lemma_next_field_same(ext, commits1[m1], commits2[m1], 0);
        assert(next_field(ext, commits2[m1], 0) is None);
    }
    if m2 < m1 {
        assert(same_commit(commits1[m2], commits2[m2]));
        lemma_next_field_same(ext, commits1[m2], commits2[m2], 0);
        assert(next_field(ext, commits1[m2], 0) is None);
    }
    assert(m1 == m2);
    if m1 == commits1.len() {
        let p1 = r1->Present_0;
        let p2 = r2->Present_0;
        let found1 = choose|found: Seq<Vec<JiraTicketInfo>>|
            extends_with_none(prior1, found) && found.len() == m1 && crate::correlation::report_of(
                s.owner@,
                s.service@,
                baseline,
                s.target,
                commits1,
                found,
                p1,
            );
        let found2 = choose|found: Seq<Vec<JiraTicketInfo>>|
            extends_with_none(prior2, found) && found.len() == m1 && crate::correlation::report_of(
                s.owner@,
                s.service@,
                baseline,
                s.target,
                commits2,
                found,
                p2,
            );
        assert forall|i: int| 0 <= i < commits1.len() implies same_tickets((#[trigger] found1[i])@, found2[i]@) by {
            if i < lo {
                assert(found1[i] == prior1[i]);
                assert(found2[i] == prior2[i]);
                assert(same_tickets(prior1[i]@, prior2[i]@));
            } else {
                assert(found1[i]@.len() == 0 && found2[i]@.len() == 0);
            }
        }
        lemma_report_text_is_determined(
            server,
            s.owner@,
            s.service@,
            baseline,
            s.target,
            commits1,
            found1,
            p1,
            commits2,
            found2,
            p2,
        );
    } else {
        assert(same_commit(commits1[m1], commits2[m1]));
        lemma_next_field_same(ext, commits1[m1], commits2[m1], 0);
        let k = next_field(ext, commits1[m1], 0)->Some_0;
        assert(field_text(commits1[m1], k) == field_text(commits2[m1], k));
        let f1 = stage1->Correlating_found;
        let f2 = stage2->Correlating_found;
        assert forall|i: int| 0 <= i < f1.len() implies same_tickets((#[trigger] f1@[i])@, f2@[i]@) by {
            if i < lo {
                assert(f1@[i] == prior1[i]);
                assert(f2@[i] == prior2[i]);
                assert(same_tickets(prior1[i]@, prior2[i]@));
            } else {
                assert(f1@[i]@.len() == 0 && f2@[i]@.len() == 0);
            }
        }
    }
}

/// The commits gathered from answers of the same content are the same commits.
proof fn lemma_gathered_same(
    shas1: Seq<String>,
    p1: Seq<CommitPayloads>,
    g1: Seq<GetCommitResult>,
    shas2: Seq<String>,
    p2: Seq<CommitPayloads>,
    g2: Seq<GetCommitResult>,
)
    requires
        views(shas1) == views(shas2),
        shas1.len() == p1.len() && p1.len() == p2.len(),
        forall|i: int|
            0 <= i < p1.len() ==> (#[trigger] p1[i]).commit_body@ == p2[i].commit_body@ && p1[i].request_body@
                == p2[i].request_body@,
        g1.len() == p1.len() && g2.len() == p2.len(),
        forall|i: int| 0 <= i < g1.len() ==> enriched_from(shas1[i]@, p1[i], #[trigger] g1[i]),
        forall|i: int| 0 <= i < g2.len() ==> enriched_from(shas2[i]@, p2[i], #[trigger] g2[i]),
    ensures
        same_commits(g1, g2),
{
    assert(shas2.len() == shas1.len()) by {
        assert(views(shas1).len() == shas1.len());
        assert(views(shas2).len() == shas2.len());
    }
    assert forall|i: int| 0 <= i < g1.len() implies same_commit(#[trigger] g1[i], g2[i]) by {
        assert(views(shas1)[i] == shas1[i]@);
        assert(views(shas2)[i] == shas2[i]@);
        assert(views(shas1)[i] == views(shas2)[i]);
        assert(enriched_from(shas1[i]@, p1[i], g1[i]));
        assert(enriched_from(shas2[i]@, p2[i], g2[i]));
        let t1 = choose|t: GetCommitResult|
            #[trigger] commit_read_from(shas1[i]@, p1[i].commit_body@, t) && t.date_time == g1[i].date_time;
        let t2 = choose|t: GetCommitResult|
            #[trigger] commit_read_from(shas2[i]@, p2[i].commit_body@, t) && t.date_time == g2[i].date_time;
        assert(t1.date_time.seconds == t2.date_time.seconds && t1.date_time.nanos == t2.date_time.nanos);
    }
}

/// Running the pipeline again against the same upstream answers repeats it:
/// from stages of the same content, answers of the same content lead to
/// stages of the same content and to requests of the same content; a
/// presented report has the same text, character for character.
pub proof fn lemma_step_is_repeatable(
    s: PipelineSettings,
    server: Seq<char>,
    stage1: Stage,
    event1: Option<Event>,
    next1: Stage,
    r1: Request,
    stage2: Stage,
    event2: Option<Event>,
    next2: Stage,
    r2: Request,
)
    requires
        wf_stage(stage1),
        wf_stage(stage2),
        same_stage(stage1, stage2),
        same_event(event1, event2),
        s.transition(stage1, event1, next1, r1),
        s.transition(stage2, event2, next2, r2),
    ensures
        same_stage(next1, next2),
        same_request(server, r1, r2),
{
    match (stage1, event1, stage2, event2) {
        (
            Stage::AwaitingBaseline { baseline: b1 },
            Some(Event::Commit(Ok(body1))),
            Stage::AwaitingBaseline { baseline: b2 },
            Some(Event::Commit(Ok(body2))),
        ) => {
            if crate::source_control::commit_readable(body1@) {
                let c1 = choose|c: GetCommitResult|
                    #[trigger] commit_read_from(b1@, body1@, c) && c.date_time == next1->AwaitingListing_since;
                let c2 = choose|c: GetCommitResult|
                    #[trigger] commit_read_from(b2@, body2@, c) && c.date_time == next2->AwaitingListing_since;
                assert(c1.date_time.seconds == c2.date_time.seconds && c1.date_time.nanos == c2.date_time.nanos);
            }
        },
        (
            Stage::AwaitingListing { baseline: b1, since: t1 },
            Some(Event::CommitsListed(Ok(l1))),
            Stage::AwaitingListing { baseline: b2, since: t2 },
            Some(Event::CommitsListed(Ok(l2))),
        ) => {
            let f1 = r1->FetchCommitsWithRequests_0;
            let f2 = r2->FetchCommitsWithRequests_0;
            assert(l1@.len() == l2@.len()) by {
                assert(views(l1@).len() == l1@.len());
                assert(views(l2@).len() == l2@.len());
            }
            assert forall|i: int| 0 <= i < f1.len() implies (#[trigger] f1[i]).sha@ == f2[i].sha@
                && f1[i].commit_url@ == f2[i].commit_url@ && f1[i].request_url@ == f2[i].request_url@ by {
                assert(views(l1@).len() == views(l2@).len());
                assert(views(l1@)[i] == l1@[i]@);
                assert(views(l2@)[i] == l2@[i]@);
                assert(crate::pipeline::fetches_for(s, l1@, f1@));
                assert(crate::pipeline::fetches_for(s, l2@, f2@));
                assert(f1@[i].sha@ == l1@[i]@);
            }
        },
        (
            Stage::AwaitingCommits { baseline: b1, since: t1, shas: l1 },
            Some(Event::CommitsWithRequests(Ok(p1))),
            Stage::AwaitingCommits { baseline: b2, since: t2, shas: l2 },
            Some(Event::CommitsWithRequests(Ok(p2))),
        ) => {
            assert(l1.len() == l2.len()) by {
                assert(views(l1@).len() == views(l2@).len());
            }
            if p1.len() == l1.len() && crate::pipeline::all_readable(p1@) {
                assert(crate::pipeline::all_readable(p2@)) by {
                    assert forall|i: int| 0 <= i < p2@.len() implies crate::source_control::commit_readable(
                        (#[trigger] p2@[i]).commit_body@,
                    ) && crate::json::json_parses(p2@[i].request_body@) by {
                        assert(p1@[i] == p1[i]);
                        assert(p2@[i] == p2[i]);
                        assert(crate::source_control::commit_readable(p1@[i].commit_body@));
                    }
                }
                let g1 = choose|g: Seq<GetCommitResult>|
                    g.len() == p1.len() && (forall|i: int|
                        0 <= i < g.len() ==> enriched_from(l1[i]@, p1[i], #[trigger] g[i])) && advanced(
                        s,
                        b1@,
                        g.filter(later_than(t1)),
                        Seq::empty(),
                        next1,
                        r1,
                    );
                let g2 = choose|g: Seq<GetCommitResult>|
                    g.len() == p2.len() && (forall|i: int|
                        0 <= i < g.len() ==> enriched_from(l2[i]@, p2[i], #[trigger] g[i])) && advanced(
                        s,
                        b2@,
                        g.filter(later_than(t2)),
                        Seq::empty(),
                        next2,
                        r2,
                    );
                lemma_gathered_same(l1@, p1@, g1, l2@, p2@, g2);
                lemma_later_commits_same(g1, g2, t1);
                lemma_correlation_is_repeatable(
                    s,
                    server,
                    b1@,
                    g1.filter(later_than(t1)),
                    Seq::empty(),
                    next1,
                    r1,
                    g2.filter(later_than(t2)),
                    Seq::empty(),
                    next2,
                    r2,
                );
            }
        },
        (
            Stage::Correlating { baseline: b1, commits: c1, found: f1, field: k1 },
            Some(Event::TicketAnswer(a1)),
            Stage::Correlating { baseline: b2, commits: c2, found: f2, field: k2 },
            Some(Event::TicketAnswer(a2)),
        ) => {
            let n = f1.len() as int;
            assert(same_commit(c1@[n], c2@[n]));
            if a1 matches Ok(body) && crate::pipeline::tracker_answer_readable(body@) {
                let body1 = a1->Ok_0;
                let body2 = a2->Ok_0;
                let v1 = choose|v: Vec<JiraTicketInfo>|
                    #[trigger] tickets_read_from(body1@, v@) && advanced(s, b1@, c1@, f1@.push(v), next1, r1);
                let v2 = choose|v: Vec<JiraTicketInfo>|
                    #[trigger] tickets_read_from(body2@, v@) && advanced(s, b2@, c2@, f2@.push(v), next2, r2);
                assert(same_tickets(v1@, v2@)) by {
                    assert forall|i: int| 0 <= i < v1@.len() implies (#[trigger] v1@[i]).key@ == v2@[i].key@
                        && v1@[i].status@ == v2@[i].status@ && v1@[i].ready == v2@[i].ready by {
                        assert(crate::tracker::ticket_read_from(body1@, i as nat, v1@[i]));
                        assert(crate::tracker::ticket_read_from(body2@, i as nat, v2@[i]));
                    }
                }
                assert(same_found(f1@.push(v1), f2@.push(v2))) by {
                    assert forall|i: int| 0 <= i < f1@.len() + 1 implies same_tickets(
                        (#[trigger] f1@.push(v1)[i])@,
                        f2@.push(v2)[i]@,
                    ) by {
                        if i < f1@.len() {
                            assert(same_tickets(f1@[i]@, f2@[i]@));
                        }
                    }
                }
                lemma_correlation_is_repeatable(s, server, b1@, c1@, f1@.push(v1), next1, r1, c2@, f2@.push(v2), next2, r2);
            } else {
                lemma_next_field_same(s.tickets, c1@[n], c2@[n], k1 + 1);
                match next_field(s.tickets, c1@[n], k1 + 1) {
                    Some(k) => {
                        assert(field_text(c1@[n], k) == field_text(c2@[n], k));
                    },
                    None => {
                        let e1 = choose|e: Vec<JiraTicketInfo>|
                            #[trigger] e@.len() == 0 && advanced(s, b1@, c1@, f1@.push(e), next1, r1);
                        let e2 = choose|e: Vec<JiraTicketInfo>|
                            #[trigger] e@.len() == 0 && advanced(s, b2@, c2@, f2@.push(e), next2, r2);
                        assert(same_found(f1@.push(e1), f2@.push(e2))) by {
                            assert forall|i: int| 0 <= i < f1@.len() + 1 implies same_tickets(
                                (#[trigger] f1@.push(e1)[i])@,
                                f2@.push(e2)[i]@,
                            ) by {
                                if i < f1@.len() {
                                    assert(same_tickets(f1@[i]@, f2@[i]@));
                                }
                            }
                        }
                        lemma_correlation_is_repeatable(s, server, b1@, c1@, f1@.push(e1), next1, r1, c2@, f2@.push(e2), next2, r2);
                    },
                }
            }
        },
        _ => {},
    }
}

/// `stages` and `requests` are a run of the pipeline on `events`: step `i`
/// turns `stages[i]` and `events[i]` into `stages[i + 1]` and `requests[i]`.
pub open spec fn is_run(
    s: PipelineSettings,
    events: Seq<Option<Event>>,
    stages: Seq<Stage>,
    requests: Seq<Request>,
) -> bool {
    &&& stages.len() == events.len() + 1
    &&& requests.len() == events.len()
    &&& forall|i: int| 0 <= i < stages.len() ==> wf_stage(#[trigger] stages[i])
    &&& forall|i: int|
        0 <= i < events.len() ==> s.transition(stages[i], events[i], stages[i + 1], #[trigger] requests[i])
}

proof fn lemma_run_stages_same(
    s: PipelineSettings,
    server: Seq<char>,
    events1: Seq<Option<Event>>,
    stages1: Seq<Stage>,
    requests1: Seq<Request>,
    events2: Seq<Option<Event>>,
    stages2: Seq<Stage>,
    requests2: Seq<Request>,
    i: int,
)
    requires
        is_run(s, events1, stages1, requests1),
        is_run(s, events2, stages2, requests2),
        events1.len() == events2.len(),
        forall|j: int| 0 <= j < events1.len() ==> same_event(#[trigger] events1[j], events2[j]),
        same_stage(stages1[0], stages2[0]),
        0 <= i <= events1.len(),
    ensures
        same_stage(stages1[i], stages2[i]),
        i < events1.len() ==> same_request(server, requests1[i], requests2[i]),
    decreases i,
{
    if i > 0 {
        lemma_run_stages_same(s, server, events1, stages1, requests1, events2, stages2, requests2, i - 1);
        let j = i - 1;
        assert(s.transition(stages1[j], events1[j], stages1[j + 1], requests1[j]));
        assert(s.transition(stages2[j], events2[j], stages2[j + 1], requests2[j]));
        assert(wf_stage(stages1[j]) && wf_stage(stages2[j]));
        lemma_step_is_repeatable(
            s,
            server,
            stages1[j],
            events1[j],
            stages1[j + 1],
            requests1[j],
            stages2[j],
            events2[j],
            stages2[j + 1],
            requests2[j],
        );
    }
    if i < events1.len() {
        assert(s.transition(stages1[i], events1[i], stages1[i + 1], requests1[i]));
        assert(s.transition(stages2[i], events2[i], stages2[i + 1], requests2[i]));
        assert(wf_stage(stages1[i]) && wf_stage(stages2[i]));
        lemma_step_is_repeatable(
            s,
            server,
            stages1[i],
            events1[i],
            stages1[i + 1],
            requests1[i],
            stages2[i],
            events2[i],
            stages2[i + 1],
            requests2[i],
        );
    }
}

/// Running the pipeline twice against the same upstream answers gives the
/// same requests, step by step, and a report with the same text, character
/// for character.
pub proof fn lemma_run_is_repeatable(
    s: PipelineSettings,
    server: Seq<char>,
    events1: Seq<Option<Event>>,
    stages1: Seq<Stage>,
    requests1: Seq<Request>,
    events2: Seq<Option<Event>>,
    stages2: Seq<Stage>,
    requests2: Seq<Request>,
)
    requires
        is_run(s, events1, stages1, requests1),
        is_run(s, events2, stages2, requests2),
        events1.len() == events2.len(),
        forall|j: int| 0 <= j < events1.len() ==> same_event(#[trigger] events1[j], events2[j]),
        same_stage(stages1[0], stages2[0]),
    ensures
        forall|i: int| 0 <= i < requests1.len() ==> same_request(server, #[trigger] requests1[i], requests2[i]),
{
    assert forall|i: int| 0 <= i < requests1.len() implies same_request(
        server,
        #[trigger] requests1[i],
        requests2[i],
    ) by {
        lemma_run_stages_same(s, server, events1, stages1, requests1, events2, stages2, requests2, i);
    }
}

} // verus!
