use crate::issue::{Issue, IssueError};
use vstd::prelude::*;

verus! {

/// The last path segment of the URL that `s` parses to, or `None` when `s`
/// is no URL or its URL has no path segments.
pub uninterp spec fn url_last_segment(s: Seq<char>) -> Option<Seq<char>>;

/// Relies on `url::Url::parse` and `Url::path_segments`: the result is the
/// last segment of the parsed URL's path, and depends on the text alone.
#[verifier::external_body]
fn last_path_segment(s: &str) -> (r: Option<String>)
    ensures
        r is Some == url_last_segment(s@) is Some,
        r matches Some(c) ==> url_last_segment(s@) == Some(c@),
{
    match url::Url::parse(s) {
        Ok(u) => u.path_segments().and_then(|p| p.last()).map(|c| c.to_string()),
        Err(_) => None,
    }
}

/// The component name of an issue: the last path segment of its repository URL.
pub open spec fn component_of(i: Issue) -> Option<Seq<char>> {
    url_last_segment(i.repository_url@)
}

/// Resolves a repository identifier URL to its component name.
pub fn component_name(repository_url: &str) -> (r: Result<String, IssueError>)
    ensures
        url_last_segment(repository_url@) matches Some(c) ==> (r matches Ok(s) && s@ == c),
        url_last_segment(repository_url@) is None ==> r == Err::<String, IssueError>(
            IssueError::MalformedRepositoryURL,
        ),
{
    match last_path_segment(repository_url) {
        Some(c) => Ok(c),
        None => Err(IssueError::MalformedRepositoryURL),
    }
}

impl Issue {
    /// The component name: the last path segment of the repository URL.
    pub fn get_component(&self) -> (r: Result<String, IssueError>)
        ensures
            component_of(*self) matches Some(c) ==> (r matches Ok(s) && s@ == c),
            component_of(*self) is None ==> r == Err::<String, IssueError>(
                IssueError::MalformedRepositoryURL,
            ),
    {
        component_name(self.repository_url.as_str())
    }
}

} // verus!
