//! Correlation of commits with tickets: which text field of a commit is
//! looked up in the tracker, what happens when a lookup fails, and how the
//! per-commit results become the report.
use vstd::prelude::*;
use crate::errors::DeployError;
use crate::source_control::GetCommitResult;
use crate::tickets::{views, TicketExtractionService};
use crate::tracker::JiraTicketInfo;

verus! {

/// How many text fields of a commit are scanned: message, request title, request body.
pub const FIELD_COUNT: usize = 3;

/// The text of field `i` of commit `c`, in scanning order.
pub open spec fn field_text(c: GetCommitResult, i: int) -> Seq<char> {
    if i == 0 {
        c.full_message@
    } else if i == 1 {
        c.pr_title@
    } else {
        c.pr_body@
    }
}

/// Field `i` of `c` yields at least one ticket key.
pub open spec fn yields_keys(ext: TicketExtractionService, c: GetCommitResult, i: int) -> bool {
    ext.tickets_in(field_text(c, i)).len() > 0
}

/// The first field at or after `from` that yields ticket keys.
pub open spec fn next_field(ext: TicketExtractionService, c: GetCommitResult, from: int) -> Option<int>
    decreases 3 - from,
{
    if from >= 3 {
        None
    } else if yields_keys(ext, c, from) {
        Some(from)
    } else {
        next_field(ext, c, from + 1)
    }
}

/// A tracker query to make for one field of a commit.
#[derive(Debug)]
pub struct TicketLookup {
    pub field: usize,
    pub keys: Vec<String>,
}

/// Where the scan of one commit stands.
#[derive(Debug)]
pub enum ScanStep {
    /// Query the tracker for these keys, then report the answer with `after_answer`.
    Lookup(TicketLookup),
    /// The tracker answered this lookup: these tickets are the commit's.
    Found(Vec<JiraTicketInfo>),
    /// No field yielded keys with a successful lookup: the commit has no ticket.
    Exhausted,
}

/// The step that `next_field` prescribes: the lookup of that field's keys, or the end.
pub open spec fn is_lookup_from(ext: TicketExtractionService, c: GetCommitResult, from: int, r: ScanStep) -> bool {
    match next_field(ext, c, from) {
        None => r is Exhausted,
        Some(j) => r matches ScanStep::Lookup(l) && l.field == j && views(l.keys@) == ext.tickets_in(
            field_text(c, j),
        ),
    }
}

fn field_of(c: &GetCommitResult, i: usize) -> (r: &str)
    ensures
        r@ == field_text(*c, i as int),
{
    if i == 0 {
        c.full_message.as_str()
    } else if i == 1 {
        c.pr_title.as_str()
    } else {
        c.pr_body.as_str()
    }
}

/// The lookup for the first field at or after `from` that yields keys.
pub fn next_lookup(ext: &TicketExtractionService, commit: &GetCommitResult, from: usize) -> (r: ScanStep)
    ensures
        is_lookup_from(*ext, *commit, from as int, r),
    decreases FIELD_COUNT - from,
{
    if from >= FIELD_COUNT {
        return ScanStep::Exhausted;
    }
    let keys = ext.extract_tickets(field_of(commit, from));
    if keys.len() > 0 {
        ScanStep::Lookup(TicketLookup { field: from, keys })
    } else {
        next_lookup(ext, commit, from + 1)
    }
}

/// The first step of scanning `commit`: the lookup for its first field that yields keys.
pub fn start_scan(ext: &TicketExtractionService, commit: &GetCommitResult) -> (r: ScanStep)
    ensures
        is_lookup_from(*ext, *commit, 0, r),
{
    next_lookup(ext, commit, 0)
}

/// The step after the tracker answered the lookup of field `field`: its tickets
/// when it succeeded, else the lookup of the next later field that yields keys.
pub fn after_answer(
    ext: &TicketExtractionService,
    commit: &GetCommitResult,
    field: usize,
    answer: Result<Vec<JiraTicketInfo>, DeployError>,
) -> (r: ScanStep)
    ensures
        answer matches Ok(v) ==> r == ScanStep::Found(v),
        answer is Err ==> is_lookup_from(*ext, *commit, field + 1, r),
{
    match answer {
        Ok(v) => ScanStep::Found(v),
        Err(_) => {
            if field >= FIELD_COUNT {
                ScanStep::Exhausted
            } else {
                next_lookup(ext, commit, field + 1)
            }
        },
    }
}

/// `next_field` finds the first field at or after `from` that yields keys,
/// and finds none exactly when no field from there on yields keys.
pub proof fn lemma_next_field_is_first(ext: TicketExtractionService, c: GetCommitResult, from: int)
    requires
        0 <= from,
    ensures
        match next_field(ext, c, from) {
            Some(k) => from <= k < 3 && yields_keys(ext, c, k) && forall|j: int|
                from <= j < k ==> !#[trigger] yields_keys(ext, c, j),
            None => forall|j: int| from <= j < 3 ==> !#[trigger] yields_keys(ext, c, j),
        },
    decreases 3 - from,
{
    if from < 3 && !yields_keys(ext, c, from) {
        lemma_next_field_is_first(ext, c, from + 1);
    }
}

/// When the tracker lookup for the keys of field `field` fails, the scan goes on
/// with the next later field that yields keys: never the same field again, and
/// no later field with keys is passed over. Without such a field the commit
/// gets no ticket.
pub proof fn lemma_failed_lookup_falls_through(
    ext: TicketExtractionService,
    c: GetCommitResult,
    field: int,
    r: ScanStep,
)
    requires
        0 <= field < 3,
        yields_keys(ext, c, field),
        is_lookup_from(ext, c, field + 1, r),
    ensures
        r matches ScanStep::Lookup(l) ==> field < l.field < 3 && yields_keys(ext, c, l.field as int)
            && forall|j: int| field < j < l.field ==> !#[trigger] yields_keys(ext, c, j),
        r is Exhausted ==> forall|j: int| field < j < 3 ==> !#[trigger] yields_keys(ext, c, j),
        r is Lookup || r is Exhausted,
{
    lemma_next_field_is_first(ext, c, field + 1);
}

/// One line of the report: a commit and the ticket it is correlated with.
#[derive(Debug)]
pub struct TicketInfo {
    pub commit_sha: String,
    pub commit_message: String,
    pub author_email: String,
    pub ticket_key: String,
    pub ticket_ready: bool,
}

/// Report lines grouped together.
#[derive(Debug)]
pub struct TicketInfoGroup {
    pub info_items: Vec<TicketInfo>,
}

/// The report: the undeployed commits of `owner/repo` in listing order, each
/// with its ticket, between the deployed revision and the release target.
#[derive(Debug)]
pub struct PrintMessageFromExtractTicketsResultPayload {
    pub owner: String,
    pub repo: String,
    pub ticket_infos: Vec<TicketInfo>,
    pub last_commit_in_production: String,
    pub commit_sha_to_release: Option<String>,
}

/// `t` is the report line of commit `c` whose scan found `tickets`: one
/// ticket per commit, the last one its lookup returned; none (empty key, not
/// ready) when it found none. The line's text is the title of the commit's
/// change request.
pub open spec fn line_of(c: GetCommitResult, tickets: Seq<JiraTicketInfo>, t: TicketInfo) -> bool {
    &&& t.commit_sha@ == c.sha@
    &&& t.commit_message@ == c.pr_title@
    &&& t.author_email@ == c.author_email@
    &&& if tickets.len() == 0 {
        t.ticket_key@.len() == 0 && !t.ticket_ready
    } else {
        t.ticket_key@ == tickets.last().key@ && t.ticket_ready == tickets.last().ready
    }
}

/// The report line of commit `c` whose scan found `tickets`.
pub fn ticket_info(c: &GetCommitResult, tickets: &Vec<JiraTicketInfo>) -> (r: TicketInfo)
    ensures
        line_of(*c, tickets@, r),
{
    let n = tickets.len();
    let (ticket_key, ticket_ready) = if n == 0 {
        (String::new(), false)
    } else {
        (tickets[n - 1].key.clone(), tickets[n - 1].ready)
    };
    TicketInfo {
        commit_sha: c.sha.clone(),
        commit_message: c.pr_title.clone(),
        author_email: c.author_email.clone(),
        ticket_key,
        ticket_ready,
    }
}

/// `p` is the report for `owner/repo` from `baseline` towards `target`, with
/// one line per commit, the `i`-th for `commits[i]` and what its scan found, `found[i]`.
pub open spec fn report_of(
    owner: Seq<char>,
    repo: Seq<char>,
    baseline: Seq<char>,
    target: Option<String>,
    commits: Seq<GetCommitResult>,
    found: Seq<Vec<JiraTicketInfo>>,
    p: PrintMessageFromExtractTicketsResultPayload,
) -> bool {
    &&& p.owner@ == owner
    &&& p.repo@ == repo
    &&& p.last_commit_in_production@ == baseline
    &&& p.commit_sha_to_release == target
    &&& p.ticket_infos.len() == commits.len()
    &&& found.len() == commits.len()
    &&& forall|i: int| 0 <= i < commits.len() ==> line_of(commits[i], found[i]@, #[trigger] p.ticket_infos[i])
}

/// The report for `owner/repo`: one line per commit, in the order given.
pub fn assemble_report(
    owner: &str,
    repo: &str,
    baseline: &str,
    target: Option<String>,
    commits: &Vec<GetCommitResult>,
    found: &Vec<Vec<JiraTicketInfo>>,
) -> (r: PrintMessageFromExtractTicketsResultPayload)
    requires
        found.len() == commits.len(),
    ensures
        report_of(owner@, repo@, baseline@, target, commits@, found@, r),
{
    let mut ticket_infos: Vec<TicketInfo> = Vec::new();
    let mut i: usize = 0;
    while i < commits.len()
        invariant
            i <= commits.len(),
            found.len() == commits.len(),
            ticket_infos.len() == i,
            forall|j: int| 0 <= j < i ==> line_of(commits[j], found[j]@, #[trigger] ticket_infos[j]),
        decreases commits.len() - i,
    {
        ticket_infos.push(ticket_info(&commits[i], &found[i]));
        i = i + 1;
    }
    PrintMessageFromExtractTicketsResultPayload {
        owner: String::from_str(owner),
        repo: String::from_str(repo),
        ticket_infos,
        last_commit_in_production: String::from_str(baseline),
        commit_sha_to_release: target,
    }
}

} // verus!
