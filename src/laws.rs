use crate::issue::{label_names, state_of, Issue, IssueState, IssueStateJson};
use crate::pipeline::is_ranked;
use crate::rank::{issue_cmp, key_of, lemma_rank_antisymmetric, lemma_rank_transitive};
use core::cmp::Ordering;
use vstd::prelude::*;

verus! {

broadcast use vstd::seq_lib::group_to_multiset_ensures;

/// The derived state is one of the four triage states, and depends on the
/// raw state and the labels alone.
pub proof fn lemma_state_depends_on_state_and_labels(a: Issue, b: Issue)
    requires
        a.state == b.state,
        label_names(a.labels) == label_names(b.labels),
    ensures
        state_of(a) == state_of(b),
        state_of(a) is Blocked || state_of(a) is UnderReview || state_of(a) is Open || state_of(
            a,
        ) is Closed,
{
}

/// A closed issue is `Closed`, whatever its labels.
pub proof fn lemma_closed_wins(i: Issue)
    requires
        i.state == IssueStateJson::Closed,
    ensures
        state_of(i) == IssueState::Closed,
{
}

/// The ranking of issues is a strict weak ordering: antisymmetric, and
/// transitive both in its order and in its ties.
pub proof fn lemma_ranking_strict_weak(a: Issue, b: Issue, c: Issue)
    ensures
        issue_cmp(a, b) == Ordering::Less <==> issue_cmp(b, a) == Ordering::Greater,
        issue_cmp(a, b) == Ordering::Equal <==> issue_cmp(b, a) == Ordering::Equal,
        issue_cmp(a, b) == Ordering::Less && issue_cmp(b, c) == Ordering::Less ==> issue_cmp(a, c)
            == Ordering::Less,
        issue_cmp(a, b) != Ordering::Greater && issue_cmp(b, c) != Ordering::Greater ==> issue_cmp(
            a,
            c,
        ) != Ordering::Greater,
        issue_cmp(a, b) == Ordering::Equal && issue_cmp(b, c) == Ordering::Equal ==> issue_cmp(a, c)
            == Ordering::Equal,
{
    lemma_rank_antisymmetric(key_of(a), key_of(b));
    lemma_rank_antisymmetric(key_of(a), key_of(c));
    lemma_rank_antisymmetric(key_of(b), key_of(c));
    if issue_cmp(a, b) != Ordering::Greater && issue_cmp(b, c) != Ordering::Greater {
        lemma_rank_transitive(key_of(a), key_of(b), key_of(c));
    }
    if issue_cmp(a, b) == Ordering::Equal && issue_cmp(b, c) == Ordering::Equal {
        lemma_rank_transitive(key_of(c), key_of(b), key_of(a));
    }
}

/// Whether no two distinct issues of a sequence tie in the ranking.
pub open spec fn no_ties(s: Seq<Issue>) -> bool {
    forall|i: int, j: int|
        0 <= i < s.len() && 0 <= j < s.len() && issue_cmp(#[trigger] s[i], #[trigger] s[j])
            == Ordering::Equal ==> s[i] == s[j]
}

/// Ranking a set of issues, no two of which tie, gives one sequence only,
/// whatever order the issues came in.
pub proof fn lemma_ranking_unique(s1: Seq<Issue>, s2: Seq<Issue>)
    requires
        s1.to_multiset() == s2.to_multiset(),
        is_ranked(s1),
        is_ranked(s2),
        no_ties(s1),
    ensures
        s1 == s2,
    decreases s1.len(),
{
    assert(s1.len() == s1.to_multiset().len());
    assert(s2.len() == s2.to_multiset().len());
    if s1.len() == 0 {
        assert(s1 =~= s2);
    } else {
        let x = s1[0];
        let y = s2[0];
        assert(s2.to_multiset().count(y) > 0);
        assert(s1.contains(y));
        let k1 = choose|k: int| 0 <= k < s1.len() && s1[k] == y;
        assert(s1.to_multiset().count(x) > 0);
        assert(s2.contains(x));
        let k2 = choose|k: int| 0 <= k < s2.len() && s2[k] == x;
        if k1 > 0 {
            assert(issue_cmp(s1[0], s1[k1]) != Ordering::Greater);
        }
        if k2 > 0 {
            assert(issue_cmp(s2[0], s2[k2]) != Ordering::Greater);
        }
        lemma_ranking_strict_weak(x, y, y);
        if x != y {
            assert(issue_cmp(x, y) == Ordering::Equal);
            assert(s1[0] == s1[k1]);
        }
        assert(x == y);
        let t1 = s1.drop_first();
        let t2 = s2.drop_first();
        assert(s1.remove(0) =~= t1);
        assert(s2.remove(0) =~= t2);
        assert(t1.to_multiset() =~= t2.to_multiset());
        assert forall|i: int, j: int| 0 <= i < j < t1.len() implies issue_cmp(
            #[trigger] t1[i],
            #[trigger] t1[j],
        ) != Ordering::Greater by {
            assert(t1[i] == s1[i + 1] && t1[j] == s1[j + 1]);
        }
        assert forall|i: int, j: int| 0 <= i < j < t2.len() implies issue_cmp(
            #[trigger] t2[i],
            #[trigger] t2[j],
        ) != Ordering::Greater by {
            assert(t2[i] == s2[i + 1] && t2[j] == s2[j + 1]);
        }
        assert forall|i: int, j: int|
            0 <= i < t1.len() && 0 <= j < t1.len() && issue_cmp(#[trigger] t1[i], #[trigger] t1[j])
                == Ordering::Equal implies t1[i] == t1[j] by {
            assert(t1[i] == s1[i + 1] && t1[j] == s1[j + 1]);
        }
        lemma_ranking_unique(t1, t2);
        assert(s1 =~= seq![x] + t1);
        assert(s2 =~= seq![y] + t2);
    }
}

} // verus!
