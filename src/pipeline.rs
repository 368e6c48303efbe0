use crate::component::component_of;
use crate::date::{has_date, has_optional_date};
use crate::issue::{Issue, IssueError};
use crate::rank::{rank_order, rankable, ranks_before_or_with};
use itertools::Itertools;
use vstd::prelude::*;

verus! {

broadcast use vstd::seq_lib::group_to_multiset_ensures;

/// Whether a sequence of issues is in ranking order.
pub open spec fn is_ranked(s: Seq<Issue>) -> bool {
    forall|i: int, j: int| 0 <= i < j < s.len() ==> ranks_before_or_with(#[trigger] s[i], #[trigger] s[j])
}

/// The records of a sequence that are issues rather than pull requests, in order.
pub open spec fn issues_only(s: Seq<Issue>) -> Seq<Issue>
    decreases s.len(),
{
    if s.len() == 0 {
        Seq::empty()
    } else if s[0].pull_request is None {
        seq![s[0]] + issues_only(s.drop_first())
    } else {
        issues_only(s.drop_first())
    }
}

/// Why an issue cannot be ranked and projected, if it cannot.
pub open spec fn fault_of(i: Issue) -> Option<IssueError> {
    if component_of(i) is None {
        Some(IssueError::MalformedRepositoryURL)
    } else if !has_date(i.created_at@) || !has_optional_date(i.closed_at) {
        Some(IssueError::MalformedTimestamp)
    } else {
        None
    }
}

/// The fault of the first issue, in order, that has one.
pub open spec fn first_fault(s: Seq<Issue>) -> Option<IssueError>
    decreases s.len(),
{
    if s.len() == 0 {
        None
    } else if fault_of(s[0]) is Some {
        fault_of(s[0])
    } else {
        first_fault(s.drop_first())
    }
}

/// Whether every repository's fetch succeeded.
pub open spec fn all_fetched(b: Seq<Option<Vec<Issue>>>) -> bool {
    forall|k: int| 0 <= k < b.len() ==> (#[trigger] b[k]) is Some
}

/// The records of all repositories, concatenated in the order given.
pub open spec fn merged(b: Seq<Option<Vec<Issue>>>) -> Seq<Issue>
    decreases b.len(),
{
    if b.len() == 0 {
        Seq::empty()
    } else {
        match b[0] {
            Some(v) => v@ + merged(b.drop_first()),
            None => merged(b.drop_first()),
        }
    }
}

/// Relies on `itertools::Itertools::sorted_by`, a stable sort by the given
/// comparator that returns the same items: with `rank_order`, a total
/// preorder on rankable issues, the items come out in ranking order.
#[verifier::external_body]
fn sort_by_rank(issues: Vec<Issue>) -> (r: Vec<Issue>)
    requires
        forall|k: int| 0 <= k < issues@.len() ==> rankable(#[trigger] issues@[k]),
    ensures
        r@.to_multiset() == issues@.to_multiset(),
        is_ranked(r@),
{
    issues.into_iter().sorted_by(|a, b| rank_order(a, b)).collect()
}

fn check_issue(i: &Issue) -> (r: Result<(), IssueError>)
    ensures
        r is Ok <==> fault_of(*i) is None,
        r matches Err(e) ==> fault_of(*i) == Some(e),
{
    if i.get_component().is_err() {
        return Err(IssueError::MalformedRepositoryURL);
    }
    if i.get_created_at().is_err() || i.get_closed_at().is_err() {
        return Err(IssueError::MalformedTimestamp);
    }
    Ok(())
}

/// Drops the pull requests, keeping the issues in order.
pub fn drop_pull_requests(records: Vec<Issue>) -> (r: Vec<Issue>)
    ensures
        r@ == issues_only(records@),
{
    let ghost orig = records@;
    let mut rest = records;
    let mut kept: Vec<Issue> = Vec::new();
    assert(kept@ + issues_only(rest@) =~= issues_only(orig));
    while rest.len() > 0
        invariant
            kept@ + issues_only(rest@) == issues_only(orig),
        decreases rest@.len(),
    {
        let ghost before = rest@;
        let record = rest.remove(0);
        assert(rest@ =~= before.drop_first());
        if !record.is_pull_request() {
            assert(kept@.push(record) + issues_only(rest@) =~= kept@ + issues_only(before));
            kept.push(record);
        }
    }
    assert(kept@ + issues_only(rest@) =~= kept@);
    kept
}

/// The first fault among the issues, or `Ok` when every issue can be ranked
/// and projected.
pub fn find_fault(issues: &Vec<Issue>) -> (r: Result<(), IssueError>)
    ensures
        first_fault(issues@) is None ==> r is Ok,
        first_fault(issues@) matches Some(e) ==> r == Err::<(), IssueError>(e),
{
    let mut i: usize = 0;
    assert(issues@.skip(0) =~= issues@);
    while i < issues.len()
        invariant
            i <= issues@.len(),
            first_fault(issues@) == first_fault(issues@.skip(i as int)),
        decreases issues@.len() - i,
    {
        assert(issues@.skip(i as int)[0] == issues@[i as int]);
        assert(issues@.skip(i as int).drop_first() =~= issues@.skip(i + 1));
        match check_issue(&issues[i]) {
            Err(e) => {
                return Err(e);
            },
            Ok(()) => {},
        }
        i = i + 1;
    }
    assert(issues@.skip(i as int) =~= Seq::<Issue>::empty());
    Ok(())
}

proof fn lemma_no_fault_rankable(s: Seq<Issue>, k: int)
    requires
        first_fault(s) is None,
        0 <= k < s.len(),
    ensures
        rankable(s[k]),
        has_date(s[k].created_at@),
    decreases s.len(),
{
    if k > 0 {
        lemma_no_fault_rankable(s.drop_first(), k - 1);
    }
}

/// Drops the pull requests and puts the remaining issues in ranking order.
pub fn rank_issues(records: Vec<Issue>) -> (r: Result<Vec<Issue>, IssueError>)
    ensures
        first_fault(issues_only(records@)) matches Some(e) ==> r == Err::<Vec<Issue>, IssueError>(e),
        first_fault(issues_only(records@)) is None ==> (r matches Ok(v) && v@.to_multiset()
            == issues_only(records@).to_multiset() && is_ranked(v@)),
{
    let issues = drop_pull_requests(records);
    match find_fault(&issues) {
        Err(e) => Err(e),
        Ok(()) => {
            proof {
                assert forall|k: int| 0 <= k < issues@.len() implies rankable(
                    #[trigger] issues@[k],
                ) by {
                    lemma_no_fault_rankable(issues@, k);
                }
            }
            Ok(sort_by_rank(issues))
        },
    }
}

/// Concatenates the records of all repositories, or fails when any fetch failed.
pub fn merge_fetched(fetched: Vec<Option<Vec<Issue>>>) -> (r: Result<Vec<Issue>, IssueError>)
    ensures
        all_fetched(fetched@) ==> r == Ok::<Vec<Issue>, IssueError>(r->Ok_0) && r->Ok_0@ == merged(
            fetched@,
        ),
        !all_fetched(fetched@) ==> r == Err::<Vec<Issue>, IssueError>(IssueError::SourceFetchFailed),
{
    let ghost orig = fetched@;
    let mut rest = fetched;
    let mut all: Vec<Issue> = Vec::new();
    let ghost mut done: int = 0;
    assert(orig.skip(0) =~= orig);
    while rest.len() > 0
        invariant
            0 <= done <= orig.len(),
            orig == fetched@,
            rest@ == orig.skip(done),
            all@ + merged(rest@) == merged(orig),
            forall|k: int| 0 <= k < done ==> (#[trigger] orig[k]) is Some,
        decreases rest@.len(),
    {
        let ghost before = rest@;
        let batch = rest.remove(0);
        assert(rest@ =~= before.drop_first());
        assert(before.drop_first() =~= orig.skip(done + 1));
        assert(before[0] == orig[done]);
        match batch {
            None => {
                assert(orig[done] is None);
                assert(!all_fetched(fetched@));
                return Err(IssueError::SourceFetchFailed);
            },
            Some(mut v) => {
                assert(all@ + v@ + merged(rest@) =~= all@ + merged(before));
                all.append(&mut v);
            },
        }
        proof {
            done = done + 1;
        }
    }
    assert(all@ + merged(rest@) =~= all@);
    Ok(all)
}

/// Merges the records of all repositories, drops the pull requests and puts
/// the issues in ranking order. Any failed fetch aborts the run.
pub fn get_all_issues(fetched: Vec<Option<Vec<Issue>>>) -> (r: Result<Vec<Issue>, IssueError>)
    ensures
        !all_fetched(fetched@) ==> r == Err::<Vec<Issue>, IssueError>(IssueError::SourceFetchFailed),
        all_fetched(fetched@) ==> (first_fault(issues_only(merged(fetched@))) matches Some(e)
            ==> r == Err::<Vec<Issue>, IssueError>(e)),
        all_fetched(fetched@) && first_fault(issues_only(merged(fetched@))) is None ==> (r matches Ok(
            v,
        ) && v@.to_multiset() == issues_only(merged(fetched@)).to_multiset() && is_ranked(v@)),
{
    match merge_fetched(fetched) {
        Err(e) => Err(e),
        Ok(all) => rank_issues(all),
    }
}

} // verus!
