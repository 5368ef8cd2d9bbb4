//! Small verified helpers for building the strings the engine hands to the
//! object store and to its callers.

use vstd::prelude::*;

verus! {

pub open spec fn digit_char(d: nat) -> char {
    if d == 0 {
        '0'
    } else if d == 1 {
        '1'
    } else if d == 2 {
        '2'
    } else if d == 3 {
        '3'
    } else if d == 4 {
        '4'
    } else if d == 5 {
        '5'
    } else if d == 6 {
        '6'
    } else if d == 7 {
        '7'
    } else if d == 8 {
        '8'
    } else {
        '9'
    }
}

/// The usual decimal rendering of a number, most significant digit first.
pub open spec fn dec_rep(n: nat) -> Seq<char>
    decreases n,
{
    if n < 10 {
        seq![digit_char(n)]
    } else {
        dec_rep(n / 10).push(digit_char(n % 10))
    }
}

fn digit_str(d: u64) -> (r: &'static str)
    requires
        d < 10,
    ensures
        r@ =~= seq![digit_char(d as nat)],
{
    proof {
        reveal_strlit("0");
        reveal_strlit("1");
        reveal_strlit("2");
        reveal_strlit("3");
        reveal_strlit("4");
        reveal_strlit("5");
        reveal_strlit("6");
        reveal_strlit("7");
        reveal_strlit("8");
        reveal_strlit("9");
    }
    match d {
        0 => "0",
        1 => "1",
        2 => "2",
        3 => "3",
        4 => "4",
        5 => "5",
        6 => "6",
        7 => "7",
        8 => "8",
        _ => "9",
    }
}

/// Render a number in decimal.
pub fn u64_to_string(n: u64) -> (r: String)
    ensures
        r@ =~= dec_rep(n as nat),
    decreases n,
{
    if n < 10 {
        String::from_str(digit_str(n))
    } else {
        let prefix = u64_to_string(n / 10);
        let r = prefix.concat(digit_str(n % 10));
        proof {
            assert(r@ =~= dec_rep((n / 10) as nat).push(digit_char((n % 10) as nat)));
        }
        r
    }
}

/// The remote-tracking ref short name for a branch: `{remote}/{branch}`.
pub open spec fn remote_branch_view(remote: Seq<char>, branch: Seq<char>) -> Seq<char> {
    remote + "/"@ + branch
}

/// Build the remote-tracking ref short name for a branch of a remote.
pub fn remote_branch_name(remote: &str, branch: &str) -> (r: String)
    ensures
        r@ =~= remote_branch_view(remote@, branch@),
{
    String::from_str(remote).concat("/").concat(branch)
}

/// The refspec that fetches one branch into its remote-tracking ref:
/// `+refs/heads/{branch}:refs/remotes/{remote}/{branch}`.
pub open spec fn refspec_view(remote: Seq<char>, branch: Seq<char>) -> Seq<char> {
    "+refs/heads/"@ + branch + ":refs/remotes/"@ + remote + "/"@ + branch
}

/// Build the fetch refspec for one tracked branch.
pub fn refspec_for(remote: &str, branch: &str) -> (r: String)
    ensures
        r@ =~= refspec_view(remote@, branch@),
{
    String::from_str("+refs/heads/")
        .concat(branch)
        .concat(":refs/remotes/")
        .concat(remote)
        .concat("/")
        .concat(branch)
}

/// The refspecs for a whole ordered list of tracked branches.
pub fn refspecs_for(remote: &str, branches: &Vec<String>) -> (r: Vec<String>)
    ensures
        r@.len() == branches@.len(),
        forall|i: int|
            0 <= i < r@.len() ==> #[trigger] r@[i]@ =~= refspec_view(remote@, branches@[i]@),
{
    let mut out: Vec<String> = Vec::new();
    let mut i: usize = 0;
    while i < branches.len()
        invariant
            0 <= i <= branches@.len(),
            out@.len() == i,
            forall|j: int|
                0 <= j < i ==> #[trigger] out@[j]@ =~= refspec_view(remote@, branches@[j]@),
        decreases branches@.len() - i,
    {
        out.push(refspec_for(remote, branches[i].as_str()));
        i = i + 1;
    }
    out
}

} // verus!
