//! The text of the report: a compare line, then one line per commit.
use vstd::prelude::*;
use crate::correlation::{report_of, PrintMessageFromExtractTicketsResultPayload, TicketInfo};
use crate::source_control::{same_commit, same_commits, GetCommitResult};
use crate::tracker::{same_tickets, JiraTicketInfo};
use crate::settings::Config;
use crate::text::{before_first, prefix_of, text_before_first, text_prefix};

verus! {

/// Renders reports against the source-control host of `config`.
#[derive(Debug)]
pub struct ResultPrinterServiceImpl {
    pub config: Config,
}

/// The release target when none is given.
pub open spec fn default_target() -> Seq<char> {
    "master"@
}

/// The release target of a report.
pub open spec fn target_of(p: PrintMessageFromExtractTicketsResultPayload) -> Seq<char> {
    match p.commit_sha_to_release {
        Some(t) => t@,
        None => default_target(),
    }
}

/// The marker of a ticket that is cleared for release, and of one that is not.
pub open spec fn icon(ready: bool) -> Seq<char> {
    if ready { "\u{1F34F}"@ } else { "\u{1F34E}"@ }
}

/// How many characters of a revision its short form keeps.
pub const SHORT_SHA_LEN: usize = 7;

pub open spec fn header_line(server: Seq<char>, p: PrintMessageFromExtractTicketsResultPayload) -> Seq<char> {
    server + "/"@ + p.owner@ + "/"@ + p.repo@ + "/compare/"@ + p.last_commit_in_production@ + "..."@
        + target_of(p) + "\n"@
}

pub open spec fn commit_line(server: Seq<char>, owner: Seq<char>, repo: Seq<char>, t: TicketInfo) -> Seq<char> {
    icon(t.ticket_ready) + " @"@ + before_first(t.author_email@, '@') + " "@ + server + "/"@ + owner
        + "/"@ + repo + "/commit/"@ + t.commit_sha@ + " ("@ + prefix_of(t.commit_sha@, SHORT_SHA_LEN as nat)
        + ") - ["@ + t.ticket_key@ + "] "@ + t.commit_message@
}

impl ResultPrinterServiceImpl {
    pub fn new(config: Config) -> (r: Self)
        ensures
            r.config == config,
    {
        ResultPrinterServiceImpl { config }
    }

    fn header(&self, p: &PrintMessageFromExtractTicketsResultPayload) -> (r: String)
        ensures
            r@ == header_line(self.config.github_server@, *p),
    {
        let mut r = self.config.github_server.clone();
        r.append("/");
        r.append(p.owner.as_str());
        r.append("/");
        r.append(p.repo.as_str());
        r.append("/compare/");
        r.append(p.last_commit_in_production.as_str());
        r.append("...");
        match &p.commit_sha_to_release {
            Some(t) => r.append(t.as_str()),
            None => r.append("master"),
        }
        r.append("\n");
        r
    }

    fn line(&self, owner: &str, repo: &str, t: &TicketInfo) -> (r: String)
        ensures
            r@ == commit_line(self.config.github_server@, owner@, repo@, *t),
    {
        let mut r = if t.ticket_ready {
            String::from_str("\u{1F34F}")
        } else {
            String::from_str("\u{1F34E}")
        };
        r.append(" @");
        let author = text_before_first(t.author_email.as_str(), '@');
        r.append(author.as_str());
        r.append(" ");
        r.append(self.config.github_server.as_str());
        r.append("/");
        r.append(owner);
        r.append("/");
        r.append(repo);
        r.append("/commit/");
        r.append(t.commit_sha.as_str());
        r.append(" (");
        let short = text_prefix(t.commit_sha.as_str(), SHORT_SHA_LEN);
        r.append(short.as_str());
        r.append(") - [");
        r.append(t.ticket_key.as_str());
        r.append("] ");
        r.append(t.commit_message.as_str());
        r
    }

    /// The lines of the report: the compare line, then one line per commit in report order.
    pub fn render(&self, payload: &PrintMessageFromExtractTicketsResultPayload) -> (r: Vec<String>)
        ensures
            r@.map_values(|l: String| l@) == report_text(self.config.github_server@, *payload),
            r.len() == payload.ticket_infos.len() + 1,
            r[0]@ == header_line(self.config.github_server@, *payload),
            forall|i: int|
                0 <= i < payload.ticket_infos.len() ==> (#[trigger] r[i + 1])@ == commit_line(
                    self.config.github_server@,
                    payload.owner@,
                    payload.repo@,
                    payload.ticket_infos[i],
                ),
    {
        let mut r: Vec<String> = Vec::new();
        r.push(self.header(payload));
        let mut i: usize = 0;
        while i < payload.ticket_infos.len()
            invariant
                i <= payload.ticket_infos.len(),
                r.len() == i + 1,
                r[0]@ == header_line(self.config.github_server@, *payload),
                forall|j: int|
                    0 <= j < i ==> (#[trigger] r[j + 1])@ == commit_line(
                        self.config.github_server@,
                        payload.owner@,
                        payload.repo@,
                        payload.ticket_infos[j],
                    ),
            decreases payload.ticket_infos.len() - i,
        {
            let line = self.line(payload.owner.as_str(), payload.repo.as_str(), &payload.ticket_infos[i]);
            r.push(line);
            i = i + 1;
        }
        let ghost text = report_text(self.config.github_server@, *payload);
        let ghost lines = r@.map_values(|l: String| l@);
        assert forall|k: int| 0 <= k < lines.len() implies lines[k] == text[k] by {
            if k > 0 {
                assert(r[(k - 1) + 1]@ == commit_line(
                    self.config.github_server@,
                    payload.owner@,
                    payload.repo@,
                    payload.ticket_infos[k - 1],
                ));
            }
        }
        assert(lines =~= text);
        r
    }
}

/// The lines of the report `p`: the compare line, then one line per commit.
pub open spec fn report_text(server: Seq<char>, p: PrintMessageFromExtractTicketsResultPayload) -> Seq<Seq<char>> {
    seq![header_line(server, p)] + Seq::new(
        p.ticket_infos@.len(),
        |i: int| commit_line(server, p.owner@, p.repo@, p.ticket_infos[i]),
    )
}

/// The text of a report depends on nothing but what it is built from: two
/// reports built from commits and ticket lists of the same content, with the
/// same revisions, render to the same lines, character for character.
pub proof fn lemma_report_text_is_determined(
    server: Seq<char>,
    owner: Seq<char>,
    repo: Seq<char>,
    baseline: Seq<char>,
    target: Option<String>,
    commits1: Seq<GetCommitResult>,
    found1: Seq<Vec<JiraTicketInfo>>,
    p1: PrintMessageFromExtractTicketsResultPayload,
    commits2: Seq<GetCommitResult>,
    found2: Seq<Vec<JiraTicketInfo>>,
    p2: PrintMessageFromExtractTicketsResultPayload,
)
    requires
        report_of(owner, repo, baseline, target, commits1, found1, p1),
        report_of(owner, repo, baseline, target, commits2, found2, p2),
        same_commits(commits1, commits2),
        forall|i: int| 0 <= i < commits1.len() ==> same_tickets((#[trigger] found1[i])@, found2[i]@),
    ensures
        report_text(server, p1) == report_text(server, p2),
{
    assert forall|i: int| 0 <= i < p1.ticket_infos.len() implies commit_line(
        server,
        p1.owner@,
        p1.repo@,
        #[trigger] p1.ticket_infos[i],
    ) == commit_line(server, p2.owner@, p2.repo@, p2.ticket_infos[i]) by {
        let a = p1.ticket_infos[i];
        let b = p2.ticket_infos[i];
        assert(same_commit(commits1[i], commits2[i]));
        assert(same_tickets(found1[i]@, found2[i]@));
        assert(crate::correlation::line_of(commits1[i], found1[i]@, a));
        assert(crate::correlation::line_of(commits2[i], found2[i]@, b));
        let n = found1[i]@.len();
        if n > 0 {
            assert(found1[i]@.last().key@ == found2[i]@.last().key@);
        }
        assert(a.ticket_key@ =~= b.ticket_key@);
    }
    assert(report_text(server, p1) =~= report_text(server, p2));
}

} // verus!
