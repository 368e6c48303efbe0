use crate::component::component_of;
use crate::date::{has_optional_date, opt_view, optional_date};
use crate::issue::{priority_of, state_of, Issue, IssueError, IssueState};
use core::cmp::Ordering;
use vstd::prelude::*;

verus! {

/// What the ranking reads of an issue.
pub struct RankKey {
    pub state: IssueState,
    pub priority: Option<u32>,
    pub closed_on: Option<Seq<char>>,
    pub component: Seq<char>,
    pub number: u32,
}

/// The ranking key of an issue; a missing component reads as empty.
pub open spec fn key_of(i: Issue) -> RankKey {
    RankKey {
        state: state_of(i),
        priority: priority_of(i),
        closed_on: optional_date(i.closed_at),
        component: match component_of(i) {
            Some(c) => c,
            None => Seq::empty(),
        },
        number: i.number,
    }
}

/// Whether every key that the ranking reads can be computed for an issue.
pub open spec fn rankable(i: Issue) -> bool {
    component_of(i) is Some && has_optional_date(i.closed_at)
}

pub open spec fn flip(o: Ordering) -> Ordering {
    match o {
        Ordering::Less => Ordering::Greater,
        Ordering::Equal => Ordering::Equal,
        Ordering::Greater => Ordering::Less,
    }
}

pub open spec fn cmp_int(a: int, b: int) -> Ordering {
    if a < b {
        Ordering::Less
    } else if a > b {
        Ordering::Greater
    } else {
        Ordering::Equal
    }
}

/// Lexical order of texts, character by character.
pub open spec fn lex_cmp(a: Seq<char>, b: Seq<char>) -> Ordering
    decreases a.len(),
{
    if a.len() == 0 {
        if b.len() == 0 {
            Ordering::Equal
        } else {
            Ordering::Less
        }
    } else if b.len() == 0 {
        Ordering::Greater
    } else if a[0] != b[0] {
        cmp_int(a[0] as int, b[0] as int)
    } else {
        lex_cmp(a.drop_first(), b.drop_first())
    }
}

/// A declared priority comes first, and a lower one before a higher one.
pub open spec fn priority_cmp(a: Option<u32>, b: Option<u32>) -> Ordering {
    match (a, b) {
        (Some(x), Some(y)) => cmp_int(x as int, y as int),
        (Some(_), None) => Ordering::Less,
        (None, Some(_)) => Ordering::Greater,
        (None, None) => Ordering::Equal,
    }
}

pub open spec fn state_rank(s: IssueState) -> int {
    match s {
        IssueState::Blocked => 0,
        IssueState::UnderReview => 1,
        IssueState::Open => 2,
        IssueState::Closed => 3,
    }
}

/// Ascending order of optional days; an absent day is the least.
pub open spec fn date_cmp(a: Option<Seq<char>>, b: Option<Seq<char>>) -> Ordering {
    match (a, b) {
        (Some(x), Some(y)) => lex_cmp(x, y),
        (Some(_), None) => Ordering::Greater,
        (None, Some(_)) => Ordering::Less,
        (None, None) => Ordering::Equal,
    }
}

/// The ranking of two keys: closed last, then priority, then state, then
/// the most recently closed first, then component, then number.
pub open spec fn rank_cmp(a: RankKey, b: RankKey) -> Ordering {
    let a_closed = a.state == IssueState::Closed;
    let b_closed = b.state == IssueState::Closed;
    if a_closed != b_closed {
        if a_closed {
            Ordering::Greater
        } else {
            Ordering::Less
        }
    } else if priority_cmp(a.priority, b.priority) != Ordering::Equal {
        priority_cmp(a.priority, b.priority)
    } else if a.state != b.state {
        cmp_int(state_rank(a.state), state_rank(b.state))
    } else if a_closed && date_cmp(b.closed_on, a.closed_on) != Ordering::Equal {
        date_cmp(b.closed_on, a.closed_on)
    } else if lex_cmp(a.component, b.component) != Ordering::Equal {
        lex_cmp(a.component, b.component)
    } else {
        cmp_int(a.number as int, b.number as int)
    }
}

/// The ranking of two issues.
pub open spec fn issue_cmp(a: Issue, b: Issue) -> Ordering {
    rank_cmp(key_of(a), key_of(b))
}

/// Whether `a` ranks no later than `b`.
pub open spec fn ranks_before_or_with(a: Issue, b: Issue) -> bool {
    issue_cmp(a, b) != Ordering::Greater
}

/// Lexical order is antisymmetric and tells equal texts apart.
pub proof fn lemma_lex_antisymmetric(a: Seq<char>, b: Seq<char>)
    ensures
        lex_cmp(a, b) == flip(lex_cmp(b, a)),
        lex_cmp(a, b) == Ordering::Equal <==> a == b,
    decreases a.len(),
{
    if a.len() > 0 && b.len() > 0 {
        if a[0] == b[0] {
            lemma_lex_antisymmetric(a.drop_first(), b.drop_first());
            if a.drop_first() == b.drop_first() {
                assert(a =~= seq![a[0]] + a.drop_first());
                assert(b =~= seq![b[0]] + b.drop_first());
            }
        } else {
            assert((a[0] as int) != (b[0] as int));
        }
    } else if a.len() == 0 && b.len() == 0 {
        assert(a =~= b);
    }
}

/// Lexical order is transitive.
pub proof fn lemma_lex_transitive(a: Seq<char>, b: Seq<char>, c: Seq<char>)
    requires
        lex_cmp(a, b) == Ordering::Less,
        lex_cmp(b, c) == Ordering::Less,
    ensures
        lex_cmp(a, c) == Ordering::Less,
    decreases a.len(),
{
    if a.len() > 0 && b.len() > 0 && c.len() > 0 && a[0] == b[0] && b[0] == c[0] {
        lemma_lex_transitive(a.drop_first(), b.drop_first(), c.drop_first());
    } else if a.len() > 0 && b.len() > 0 && c.len() > 0 {
        assert((a[0] as int) != (b[0] as int) || (b[0] as int) != (c[0] as int));
        if a[0] == c[0] {
            assert((a[0] as int) == (c[0] as int));
        }
    }
}

proof fn lemma_lex_order(a: Seq<char>, b: Seq<char>, c: Seq<char>)
    ensures
        lex_cmp(a, b) == flip(lex_cmp(b, a)),
        lex_cmp(a, b) == Ordering::Equal <==> a == b,
        lex_cmp(a, b) == Ordering::Less && lex_cmp(b, c) == Ordering::Less ==> lex_cmp(a, c)
            == Ordering::Less,
{
    lemma_lex_antisymmetric(a, b);
    if lex_cmp(a, b) == Ordering::Less && lex_cmp(b, c) == Ordering::Less {
        lemma_lex_transitive(a, b, c);
    }
}

proof fn lemma_date_order(a: Option<Seq<char>>, b: Option<Seq<char>>, c: Option<Seq<char>>)
    ensures
        date_cmp(a, b) == flip(date_cmp(b, a)),
        date_cmp(a, b) == Ordering::Equal <==> a == b,
        date_cmp(a, b) == Ordering::Less && date_cmp(b, c) == Ordering::Less ==> date_cmp(a, c)
            == Ordering::Less,
{
    if a is Some && b is Some {
        lemma_lex_antisymmetric(a->0, b->0);
    }
    if a is Some && b is Some && c is Some {
        lemma_lex_order(a->0, b->0, c->0);
    }
}

/// The ranking is antisymmetric: swapping the keys flips the result.
pub proof fn lemma_rank_antisymmetric(a: RankKey, b: RankKey)
    ensures
        rank_cmp(a, b) == flip(rank_cmp(b, a)),
{
    lemma_lex_order(a.component, b.component, b.component);
    lemma_date_order(a.closed_on, b.closed_on, b.closed_on);
    lemma_date_order(b.closed_on, a.closed_on, a.closed_on);
}

/// The ranking is transitive, both as an order and as a tie.
pub proof fn lemma_rank_transitive(a: RankKey, b: RankKey, c: RankKey)
    requires
        rank_cmp(a, b) != Ordering::Greater,
        rank_cmp(b, c) != Ordering::Greater,
    ensures
        rank_cmp(a, c) != Ordering::Greater,
        rank_cmp(a, b) == Ordering::Less || rank_cmp(b, c) == Ordering::Less ==> rank_cmp(a, c)
            == Ordering::Less,
{
    lemma_lex_order(a.component, b.component, c.component);
    lemma_lex_order(b.component, c.component, a.component);
    lemma_lex_order(a.component, c.component, b.component);
    lemma_date_order(c.closed_on, b.closed_on, a.closed_on);
    lemma_date_order(b.closed_on, a.closed_on, c.closed_on);
    lemma_date_order(a.closed_on, c.closed_on, b.closed_on);
}

fn compare_u32(a: u32, b: u32) -> (r: Ordering)
    ensures
        r == cmp_int(a as int, b as int),
{
    if a < b {
        Ordering::Less
    } else if a > b {
        Ordering::Greater
    } else {
        Ordering::Equal
    }
}

/// Compares two texts in lexical order.
pub fn compare_text(a: &str, b: &str) -> (r: Ordering)
    ensures
        r == lex_cmp(a@, b@),
{
    let n = a.unicode_len();
    let m = b.unicode_len();
    let mut i: usize = 0;
    assert(a@.skip(0) =~= a@);
    assert(b@.skip(0) =~= b@);
    while i < n && i < m
        invariant
            n == a@.len(),
            m == b@.len(),
            i <= n,
            i <= m,
            lex_cmp(a@, b@) == lex_cmp(a@.skip(i as int), b@.skip(i as int)),
        decreases n - i,
    {
        let x = a.get_char(i);
        let y = b.get_char(i);
        assert(a@.skip(i as int)[0] == x);
        assert(b@.skip(i as int)[0] == y);
        if x != y {
            return compare_u32(x as u32, y as u32);
        }
        assert(a@.skip(i as int).drop_first() =~= a@.skip(i + 1));
        assert(b@.skip(i as int).drop_first() =~= b@.skip(i + 1));
        i = i + 1;
    }
    if i < n {
        Ordering::Greater
    } else if i < m {
        Ordering::Less
    } else {
        Ordering::Equal
    }
}

} // verus!

verus! {

fn is_tie(o: Ordering) -> (r: bool)
    ensures
        r == (o == Ordering::Equal),
{
    match o {
        Ordering::Equal => true,
        _ => false,
    }
}

fn state_order(s: IssueState) -> (r: u32)
    ensures
        r as int == state_rank(s),
{
    match s {
        IssueState::Blocked => 0,
        IssueState::UnderReview => 1,
        IssueState::Open => 2,
        IssueState::Closed => 3,
    }
}

fn compare_priority(a: Option<u32>, b: Option<u32>) -> (r: Ordering)
    ensures
        r == priority_cmp(a, b),
{
    match (a, b) {
        (Some(x), Some(y)) => compare_u32(x, y),
        (Some(_), None) => Ordering::Less,
        (None, Some(_)) => Ordering::Greater,
        (None, None) => Ordering::Equal,
    }
}

fn compare_dates(a: Option<&str>, b: Option<&str>) -> (r: Ordering)
    ensures
        r == date_cmp(opt_view(a), opt_view(b)),
{
    match (a, b) {
        (Some(x), Some(y)) => compare_text(x, y),
        (Some(_), None) => Ordering::Greater,
        (None, Some(_)) => Ordering::Less,
        (None, None) => Ordering::Equal,
    }
}

fn closed_day(i: &Issue) -> (r: Option<&str>)
    requires
        has_optional_date(i.closed_at),
    ensures
        opt_view(r) == optional_date(i.closed_at),
{
    match i.get_closed_at() {
        Ok(d) => d,
        Err(_) => None,
    }
}

/// Ranks two issues whose ranking keys can all be computed.
pub fn rank_order(a: &Issue, b: &Issue) -> (r: Ordering)
    requires
        rankable(*a),
        rankable(*b),
    ensures
        r == issue_cmp(*a, *b),
{
    let state_a = a.get_state();
    let state_b = b.get_state();
    let a_closed = state_a == IssueState::Closed;
    let b_closed = state_b == IssueState::Closed;
    if a_closed != b_closed {
        return if a_closed {
            Ordering::Greater
        } else {
            Ordering::Less
        };
    }
    let by_priority = compare_priority(a.get_priority(), b.get_priority());
    if !is_tie(by_priority) {
        return by_priority;
    }
    if state_a != state_b {
        return compare_u32(state_order(state_a), state_order(state_b));
    }
    if a_closed {
        let by_date = compare_dates(closed_day(b), closed_day(a));
        if !is_tie(by_date) {
            return by_date;
        }
    }
    let by_component = match (a.get_component(), b.get_component()) {
        (Ok(x), Ok(y)) => compare_text(x.as_str(), y.as_str()),
        _ => Ordering::Equal,
    };
    if !is_tie(by_component) {
        return by_component;
    }
    compare_u32(a.number, b.number)
}

/// Ranks two issues, or reports the first key that cannot be computed.
pub fn compare_issues(a: &Issue, b: &Issue) -> (r: Result<Ordering, IssueError>)
    ensures
        rankable(*a) && rankable(*b) ==> r == Ok::<Ordering, IssueError>(issue_cmp(*a, *b)),
        component_of(*a) is None || component_of(*b) is None ==> r == Err::<Ordering, IssueError>(
            IssueError::MalformedRepositoryURL,
        ),
        component_of(*a) is Some && component_of(*b) is Some && !(has_optional_date(a.closed_at)
            && has_optional_date(b.closed_at)) ==> r == Err::<Ordering, IssueError>(
            IssueError::MalformedTimestamp,
        ),
{
    if a.get_component().is_err() || b.get_component().is_err() {
        return Err(IssueError::MalformedRepositoryURL);
    }
    if a.get_closed_at().is_err() || b.get_closed_at().is_err() {
        return Err(IssueError::MalformedTimestamp);
    }
    Ok(rank_order(a, b))
}

} // verus!
