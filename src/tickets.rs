//! Pattern extraction: ticket keys found in free text.
use vstd::prelude::*;

verus! {

/// The texts of the matches that `regex::Regex::find_iter` yields, in order,
/// for `pattern` compiled by `regex::Regex::new`; empty when `pattern` does not compile.
pub uninterp spec fn regex_find_all(pattern: Seq<char>, haystack: Seq<char>) -> Seq<Seq<char>>;

/// The character sequences of a sequence of strings.
pub open spec fn views(v: Seq<String>) -> Seq<Seq<char>> {
    v.map_values(|s: String| s@)
}

/// Relies on `regex::Regex::new` and `regex::Regex::find_iter`: the
/// non-overlapping matches, leftmost first, each taken as a string.
#[verifier::external_body]
fn find_all(pattern: &str, haystack: &str) -> (r: Vec<String>)
    ensures
        views(r@) == regex_find_all(pattern@, haystack@),
{
    match regex::Regex::new(pattern) {
        Ok(re) => re.find_iter(haystack).map(|m| m.as_str().to_string()).collect(),
        Err(_) => Vec::new(),
    }
}

/// The project whose tickets follow the `FOO` convention.
pub const PROJECT_FOO_WEB: &'static str = "foo-web";

/// The project whose tickets follow the `BAR` convention.
pub const PROJECT_BAR_WEB: &'static str = "bar-web";

/// The ticket-key convention of a project family.
#[derive(Clone, Copy, Debug, PartialEq, Eq, Structural)]
pub enum TicketExtractionService {
    /// Keys such as `FOO-123`, prefix letters in either case.
    Foo,
    /// Keys such as `BAR-42`, prefix letters in either case.
    Bar,
}

impl TicketExtractionService {
    pub open spec fn pattern_spec(self) -> Seq<char> {
        match self {
            TicketExtractionService::Foo => "[fF][oO][oO]-\\d{1,6}"@,
            TicketExtractionService::Bar => "[bB][aA][rR]-\\d{1,6}"@,
        }
    }

    /// The ticket keys in `text`, in order of first occurrence.
    pub open spec fn tickets_in(self, text: Seq<char>) -> Seq<Seq<char>> {
        regex_find_all(self.pattern_spec(), text)
    }

    /// The ticket-key family of a project, for the projects this tool knows.
    pub open spec fn family_of(project: Seq<char>) -> Option<TicketExtractionService> {
        if project == PROJECT_FOO_WEB@ {
            Some(TicketExtractionService::Foo)
        } else if project == PROJECT_BAR_WEB@ {
            Some(TicketExtractionService::Bar)
        } else {
            None
        }
    }

    /// The ticket-key family of `project`; `None` for a project this tool does not know.
    pub fn for_project(project: &str) -> (r: Option<TicketExtractionService>)
        ensures
            r == Self::family_of(project@),
    {
        let name = String::from_str(project);
        if name == String::from_str(PROJECT_FOO_WEB) {
            Some(TicketExtractionService::Foo)
        } else if name == String::from_str(PROJECT_BAR_WEB) {
            Some(TicketExtractionService::Bar)
        } else {
            None
        }
    }

    /// The regular expression that a ticket key of this family matches.
    pub fn pattern(&self) -> (r: &'static str)
        ensures
            r@ == self.pattern_spec(),
    {
        match self {
            TicketExtractionService::Foo => "[fF][oO][oO]-\\d{1,6}",
            TicketExtractionService::Bar => "[bB][aA][rR]-\\d{1,6}",
        }
    }

    /// Every ticket key in `text`, in order of appearance; repeated keys are kept.
    pub fn extract_tickets(&self, text: &str) -> (r: Vec<String>)
        ensures
            views(r@) == self.tickets_in(text@),
            self.tickets_in(text@).len() == 0 ==> r.len() == 0,
    {
        find_all(self.pattern(), text)
    }
}

} // verus!
