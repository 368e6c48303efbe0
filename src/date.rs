use crate::issue::{Issue, IssueError};
use vstd::prelude::*;

verus! {

/// Length of the calendar-day prefix `YYYY-MM-DD` of a timestamp.
pub const DATE_LEN: usize = 10;

/// The calendar-day prefix of a full timestamp.
pub open spec fn date_prefix(d: Seq<char>) -> Seq<char> {
    d.subrange(0, DATE_LEN as int)
}

/// Whether a timestamp is long enough to hold a calendar day.
pub open spec fn has_date(d: Seq<char>) -> bool {
    d.len() >= DATE_LEN
}

/// Whether an optional timestamp is absent or long enough to hold a calendar day.
pub open spec fn has_optional_date(d: Option<String>) -> bool {
    match d {
        Some(s) => has_date(s@),
        None => true,
    }
}

/// The calendar day of an optional timestamp.
pub open spec fn optional_date(d: Option<String>) -> Option<Seq<char>> {
    match d {
        Some(s) => Some(date_prefix(s@)),
        None => None,
    }
}

/// Keeps only the calendar day `YYYY-MM-DD` of a timestamp.
pub fn strip_date(d: &str) -> (r: Result<&str, IssueError>)
    ensures
        has_date(d@) ==> (r matches Ok(s) && s@ == date_prefix(d@)),
        !has_date(d@) ==> r == Err::<&str, IssueError>(IssueError::MalformedTimestamp),
{
    if d.unicode_len() < DATE_LEN {
        Err(IssueError::MalformedTimestamp)
    } else {
        Ok(d.substring_char(0, DATE_LEN))
    }
}

impl Issue {
    /// The calendar day on which the issue was created.
    pub fn get_created_at(&self) -> (r: Result<&str, IssueError>)
        ensures
            has_date(self.created_at@) ==> (r matches Ok(s) && s@ == date_prefix(self.created_at@)),
            !has_date(self.created_at@) ==> r == Err::<&str, IssueError>(IssueError::MalformedTimestamp),
    {
        strip_date(self.created_at.as_str())
    }

    /// The calendar day on which the issue was closed, if it was.
    pub fn get_closed_at(&self) -> (r: Result<Option<&str>, IssueError>)
        ensures
            has_optional_date(self.closed_at) ==> (r matches Ok(o) && opt_view(o) == optional_date(self.closed_at)),
            !has_optional_date(self.closed_at) ==> r == Err::<Option<&str>, IssueError>(IssueError::MalformedTimestamp),
    {
        match self.closed_at {
            None => Ok(None),
            Some(ref d) => match strip_date(d.as_str()) {
                Ok(s) => Ok(Some(s)),
                Err(e) => Err(e),
            },
        }
    }
}

/// The characters of an optional string slice.
pub open spec fn opt_view(o: Option<&str>) -> Option<Seq<char>> {
    match o {
        Some(s) => Some(s@),
        None => None,
    }
}

} // verus!
