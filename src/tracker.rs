//! Ticket status resolution: the query sent to the ticket tracker and the
//! reading of its answer.
use vstd::prelude::*;
use crate::errors::DeployError;
use crate::json::{json_array_len_at, json_parses, json_str_at, JsonDocument};
use crate::text::{decimal, decimal_string, join, joined};
use crate::tickets::views;

verus! {

/// A ticket's status label and readiness, as the tracker reports them.
#[derive(Debug)]
pub struct JiraTicketInfo {
    pub key: String,
    pub status: String,
    pub ready: bool,
}

/// `a` and `b` hold the same tickets in the same order.
pub open spec fn same_tickets(a: Seq<JiraTicketInfo>, b: Seq<JiraTicketInfo>) -> bool {
    &&& a.len() == b.len()
    &&& forall|i: int|
        0 <= i < a.len() ==> (#[trigger] a[i]).key@ == b[i].key@ && a[i].status@ == b[i].status@ && a[i].ready
            == b[i].ready
}

/// The ticket tracker's address and credentials.
#[derive(Debug)]
pub struct JiraServiceImpl {
    pub token: String,
    pub base_url: String,
}

/// One batched search of the tracker, ready to send.
#[derive(Debug)]
pub struct TicketSearchRequest {
    pub url: String,
    pub authorization: String,
    pub jql: String,
    pub max_results: u32,
}

/// The most tickets one search returns; larger batches must be split by the caller.
pub const SEARCH_PAGE_SIZE: u32 = 100;

pub open spec fn search_jql_spec(keys: Seq<Seq<char>>) -> Seq<char> {
    "key in ("@ + joined(keys, ","@) + ")"@
}

pub open spec fn issue_pointer(i: nat, field: Seq<char>) -> Seq<char> {
    "/issues/"@ + decimal(i) + field
}

pub open spec fn key_field() -> Seq<char> {
    "/key"@
}

pub open spec fn status_field() -> Seq<char> {
    "/fields/status/name"@
}

pub open spec fn readiness_field() -> Seq<char> {
    "/fields/customfield_19899/value"@
}

/// The value of the readiness field that marks a ticket as cleared for release.
pub open spec fn go_marker() -> Seq<char> {
    "Go"@
}

/// `t` is what the `i`-th issue of the search answer `body` reports.
pub open spec fn ticket_read_from(body: Seq<char>, i: nat, t: JiraTicketInfo) -> bool {
    &&& json_str_at(body, issue_pointer(i, key_field())) == Some(t.key@)
    &&& t.status@ == match json_str_at(body, issue_pointer(i, status_field())) {
        Some(s) => s,
        None => Seq::<char>::empty(),
    }
    &&& t.ready == (json_str_at(body, issue_pointer(i, readiness_field())) == Some(go_marker()))
}

/// Every one of the first `n` issues of `body` has a key.
pub open spec fn all_keyed(body: Seq<char>, n: nat) -> bool {
    forall|i: nat| i < n ==> (#[trigger] json_str_at(body, issue_pointer(i, key_field()))) is Some
}

fn issue_field_pointer(i: usize, field: &str) -> (r: String)
    ensures
        r@ == issue_pointer(i as nat, field@),
{
    let mut r = String::from_str("/issues/");
    let d = decimal_string(i);
    r.append(d.as_str());
    r.append(field);
    r
}

/// The tickets that a tracker search answer reports, in the order it lists them.
pub fn parse_search_response(body: &str) -> (r: Result<Vec<JiraTicketInfo>, DeployError>)
    ensures
        !json_parses(body@) ==> r matches Err(DeployError::Upstream(_)),
        json_parses(body@) ==> match json_array_len_at(body@, "/issues"@) {
            None => r matches Err(DeployError::Upstream(_)),
            Some(n) => if all_keyed(body@, n) {
                r matches Ok(v) && v.len() == n && forall|i: int|
                    0 <= i < n ==> ticket_read_from(body@, i as nat, #[trigger] v[i])
            } else {
                r matches Err(DeployError::Upstream(_))
            },
        },
{
    let doc = match JsonDocument::parse(body) {
        Err(_) => {
            return Err(DeployError::Upstream(String::from_str("tracker answer is not valid JSON")));
        },
        Ok(d) => d,
    };
    let n = match doc.array_len_at("/issues") {
        None => {
            return Err(DeployError::Upstream(String::from_str("tracker answer has no issue list")));
        },
        Some(n) => n,
    };
    let mut v: Vec<JiraTicketInfo> = Vec::new();
    let mut i: usize = 0;
    while i < n
        invariant
            i <= n,
            doc.source() == body@,
            json_array_len_at(body@, "/issues"@) == Some(n as nat),
            v.len() == i,
            forall|j: int| 0 <= j < i ==> ticket_read_from(body@, j as nat, #[trigger] v[j]),
            forall|j: nat| j < i ==> (#[trigger] json_str_at(body@, issue_pointer(j, key_field()))) is Some,
        decreases n - i,
    {
        let key_ptr = issue_field_pointer(i, "/key");
        let key = match doc.str_at(key_ptr.as_str()) {
            None => {
                assert(!all_keyed(body@, n as nat)) by {
                    assert(json_str_at(body@, issue_pointer(i as nat, key_field())) is None);
                }
                return Err(DeployError::Upstream(String::from_str("tracker answer lists an issue without a key")));
            },
            Some(k) => k,
        };
        let status_ptr = issue_field_pointer(i, "/fields/status/name");
        let status = match doc.str_at(status_ptr.as_str()) {
            None => String::new(),
            Some(s) => s,
        };
        let ready_ptr = issue_field_pointer(i, "/fields/customfield_19899/value");
        let ready = match doc.str_at(ready_ptr.as_str()) {
            None => false,
            Some(m) => m == String::from_str("Go"),
        };
        let t = JiraTicketInfo { key, status, ready };
        assert(ticket_read_from(body@, i as nat, t));
        v.push(t);
        i = i + 1;
    }
    Ok(v)
}

impl JiraServiceImpl {
    pub fn new(base_url: String, token: String) -> (r: Self)
        ensures
            r.base_url == base_url,
            r.token == token,
    {
        JiraServiceImpl { base_url, token }
    }

    /// The single batched search for `issue_keys`; none for an empty batch.
    pub fn search_request(&self, issue_keys: &Vec<String>) -> (r: Result<TicketSearchRequest, DeployError>)
        ensures
            issue_keys.len() == 0 <==> r matches Err(DeployError::EmptyInput),
            issue_keys.len() > 0 ==> (r matches Ok(q) && {
                &&& q.url@ == self.base_url@ + "/rest/api/2/search"@
                &&& q.authorization@ == "Bearer "@ + self.token@
                &&& q.jql@ == search_jql_spec(views(issue_keys@))
                &&& q.max_results == SEARCH_PAGE_SIZE
            }),
    {
        if issue_keys.len() == 0 {
            return Err(DeployError::EmptyInput);
        }
        let mut url = self.base_url.clone();
        url.append("/rest/api/2/search");
        let mut authorization = String::from_str("Bearer ");
        authorization.append(self.token.as_str());
        let mut jql = String::from_str("key in (");
        let keys = join(issue_keys, ",");
        jql.append(keys.as_str());
        jql.append(")");
        Ok(TicketSearchRequest { url, authorization, jql, max_results: SEARCH_PAGE_SIZE })
    }
}

} // verus!
