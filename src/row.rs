use crate::component::component_of;
use crate::date::{date_prefix, optional_date};
use crate::issue::{priority_of, state_of, state_text, Assignee, Issue, IssueError, Milestone};
use crate::pipeline::fault_of;
use vstd::prelude::*;

verus! {

/// The output row projected from one issue.
#[derive(Debug, Clone)]
pub struct IssueCSV {
    pub component: String,
    pub id: String,
    pub title: String,
    pub state: String,
    pub assignee: Option<String>,
    pub milestone: Option<String>,
    pub priority: Option<u32>,
    pub created_at: String,
    pub closed_at: Option<String>,
    pub url: String,
}

pub open spec fn digit_char(d: nat) -> char {
    if d == 0 {
        '0'
    } else if d == 1 {
        '1'
    } else if d == 2 {
        '2'
    } else if d == 3 {
        '3'
    } else if d == 4 {
        '4'
    } else if d == 5 {
        '5'
    } else if d == 6 {
        '6'
    } else if d == 7 {
        '7'
    } else if d == 8 {
        '8'
    } else {
        '9'
    }
}

/// The decimal digits of a number, most significant first.
pub open spec fn decimal(n: nat) -> Seq<char>
    decreases n,
{
    if n < 10 {
        seq![digit_char(n)]
    } else {
        decimal(n / 10) + seq![digit_char(n % 10)]
    }
}

pub open spec fn opt_string(o: Option<String>) -> Option<Seq<char>> {
    match o {
        Some(s) => Some(s@),
        None => None,
    }
}

pub open spec fn login_of(a: Option<Assignee>) -> Option<Seq<char>> {
    match a {
        Some(x) => Some(x.login@),
        None => None,
    }
}

pub open spec fn milestone_title(m: Option<Milestone>) -> Option<Seq<char>> {
    match m {
        Some(x) => Some(x.title@),
        None => None,
    }
}

fn digit_text(d: u32) -> (r: &'static str)
    requires
        d < 10,
    ensures
        r@ == seq![digit_char(d as nat)],
{
    let r = if d == 0 {
        proof { reveal_strlit("0"); }
        "0"
    } else if d == 1 {
        proof { reveal_strlit("1"); }
        "1"
    } else if d == 2 {
        proof { reveal_strlit("2"); }
        "2"
    } else if d == 3 {
        proof { reveal_strlit("3"); }
        "3"
    } else if d == 4 {
        proof { reveal_strlit("4"); }
        "4"
    } else if d == 5 {
        proof { reveal_strlit("5"); }
        "5"
    } else if d == 6 {
        proof { reveal_strlit("6"); }
        "6"
    } else if d == 7 {
        proof { reveal_strlit("7"); }
        "7"
    } else if d == 8 {
        proof { reveal_strlit("8"); }
        "8"
    } else {
        proof { reveal_strlit("9"); }
        "9"
    };
    assert(r@ =~= seq![digit_char(d as nat)]);
    r
}

/// The decimal text of a number.
pub fn decimal_text(number: u32) -> (r: String)
    ensures
        r@ == decimal(number as nat),
{
    let mut s = String::from_str(digit_text(number % 10));
    let mut n: u32 = number / 10;
    while n > 0
        invariant
            n > 0 ==> decimal(number as nat) == decimal(n as nat) + s@,
            n == 0 ==> decimal(number as nat) == s@,
        decreases n,
    {
        let ghost old_s = s@;
        s = String::from_str(digit_text(n % 10)).concat(s.as_str());
        proof {
            if n >= 10 {
                assert(decimal((n / 10) as nat) + seq![digit_char((n % 10) as nat)] + old_s
                    =~= decimal((n / 10) as nat) + s@);
            } else {
                assert(seq![digit_char(n as nat)] + old_s =~= s@);
            }
        }
        n = n / 10;
    }
    s
}

/// The display identifier `#<number>` of an issue number.
pub fn display_id(number: u32) -> (r: String)
    ensures
        r@ == seq!['#'] + decimal(number as nat),
{
    let digits = decimal_text(number);
    proof { reveal_strlit("#"); }
    let r = String::from_str("#").concat(digits.as_str());
    assert(r@ =~= seq!['#'] + decimal(number as nat));
    r
}

impl Issue {
    /// Projects the issue to its output row.
    pub fn csv(&self) -> (r: Result<IssueCSV, IssueError>)
        ensures
            fault_of(*self) matches Some(e) ==> r == Err::<IssueCSV, IssueError>(e),
            fault_of(*self) is None ==> (r matches Ok(row) && Some(row.component@) == component_of(
                *self,
            ) && row.id@ == seq!['#'] + decimal(self.number as nat) && row.title@ == self.title@
                && row.state@ == state_text(state_of(*self)) && opt_string(row.assignee) == login_of(
                self.assignee,
            ) && opt_string(row.milestone) == milestone_title(self.milestone) && row.priority
                == priority_of(*self) && row.created_at@ == date_prefix(self.created_at@)
                && opt_string(row.closed_at) == optional_date(self.closed_at) && row.url@
                == self.html_url@),
    {
        let component = match self.get_component() {
            Ok(c) => c,
            Err(e) => {
                return Err(e);
            },
        };
        let created_at = match self.get_created_at() {
            Ok(d) => String::from_str(d),
            Err(e) => {
                return Err(e);
            },
        };
        let closed_at = match self.get_closed_at() {
            Ok(Some(d)) => Some(String::from_str(d)),
            Ok(None) => None,
            Err(e) => {
                return Err(e);
            },
        };
        let assignee = match self.assignee {
            Some(ref a) => Some(a.login.clone()),
            None => None,
        };
        let milestone = match self.milestone {
            Some(ref m) => Some(m.title.clone()),
            None => None,
        };
        Ok(
            IssueCSV {
                component,
                id: display_id(self.number),
                title: self.title.clone(),
                state: self.get_state_str(),
                assignee,
                milestone,
                priority: self.get_priority(),
                created_at,
                closed_at,
                url: self.html_url.clone(),
            },
        )
    }
}

} // verus!
