//! Engine configuration: the mirror descriptor and the tracked branch list.

use vstd::prelude::*;

use crate::tracked_repository::TrackedRepository;

verus! {

/// Split a comma-separated list into its segments.
///
/// Every comma separates two segments, so an empty input holds one empty
/// segment and adjacent commas produce empty segments, mirroring how the
/// branch list is read from a single configuration value.
pub open spec fn split_commas(s: Seq<char>) -> Seq<Seq<char>>
    decreases s.len(),
{
    if s.len() == 0 {
        seq![Seq::<char>::empty()]
    } else {
        let prefix = split_commas(s.drop_last());
        if s.last() == ',' {
            prefix.push(Seq::<char>::empty())
        } else {
            prefix.update(prefix.len() - 1, prefix.last().push(s.last()))
        }
    }
}

pub proof fn lemma_split_commas_len(s: Seq<char>)
    ensures
        split_commas(s).len() >= 1,
    decreases s.len(),
{
    if s.len() != 0 {
        lemma_split_commas_len(s.drop_last());
    }
}

/// Parse the comma-separated tracked-branch configuration value.
pub fn parse_branch_list(s: &str) -> (r: Vec<String>)
    ensures
        r.deep_view() =~~= split_commas(s@),
{
    let n = s.unicode_len();
    let mut out: Vec<String> = Vec::new();
    let mut start: usize = 0;
    let mut i: usize = 0;
    while i < n
        invariant
            0 <= start <= i <= n,
            n == s@.len(),
            split_commas(s@.subrange(0, i as int)) =~~= out.deep_view().push(
                s@.subrange(start as int, i as int),
            ),
        decreases n - i,
    {
        let ghost prev = s@.subrange(0, i as int);
        let c = s.get_char(i);
        if c == ',' {
            out.push(s.substring_char(start, i).to_owned());
            start = i + 1;
        }
        i = i + 1;
        proof {
            let cur = s@.subrange(0, i as int);
            assert(cur.drop_last() =~= prev);
            assert(cur.last() == s@[i - 1]);
            lemma_split_commas_len(prev);
            if s@[i - 1] == ',' {
                assert(split_commas(cur) =~~= out.deep_view().push(
                    s@.subrange(start as int, i as int),
                ));
            } else {
                assert(s@.subrange(start as int, i as int) =~= s@.subrange(
                    start as int,
                    i - 1,
                ).push(s@[i - 1]));
                assert(split_commas(cur) =~~= out.deep_view().push(
                    s@.subrange(start as int, i as int),
                ));
            }
        }
    }
    proof {
        assert(s@.subrange(0, n as int) =~= s@);
    }
    out.push(s.substring_char(start, n).to_owned());
    out
}

/// The engine's configuration, built once at startup and immutable afterwards.
#[derive(Clone, Debug)]
pub struct Config {
    /// Nixpkgs branches to track commits for, in reporting order.
    nixpkgs_branches: Vec<String>,
    /// Repository tracker.
    repository: TrackedRepository,
}

impl Config {
    pub closed spec fn spec_branches(&self) -> Seq<Seq<char>> {
        self.nixpkgs_branches.deep_view()
    }

    pub closed spec fn spec_repository(&self) -> TrackedRepository {
        self.repository
    }

    /// Assemble a configuration from the values read at startup.  The
    /// upstream URL and remote name are optional and fall back to the
    /// built-in nixpkgs defaults.
    pub fn new(
        nixpkgs_path: String,
        nixpkgs_branches: Vec<String>,
        nixpkgs_url: Option<String>,
        nixpkgs_remote: Option<String>,
    ) -> (r: Config)
        ensures
            r.spec_branches() == nixpkgs_branches.deep_view(),
            r.spec_repository().spec_path() == nixpkgs_path@,
            r.spec_repository().spec_remote_url() == (match nixpkgs_url {
                Some(url) => url@,
                None => "https://github.com/NixOS/nixpkgs"@,
            }),
            r.spec_repository().spec_remote_name() == (match nixpkgs_remote {
                Some(name) => name@,
                None => "origin"@,
            }),
    {
        let url = match nixpkgs_url {
            Some(url) => url,
            None => String::from_str(crate::consts::nixpkgs_url()),
        };
        let remote = match nixpkgs_remote {
            Some(name) => name,
            None => String::from_str(crate::consts::nixpkgs_remote()),
        };
        let repository = TrackedRepository::new(nixpkgs_path, url, remote);
        Config { nixpkgs_branches, repository }
    }

    pub fn repository(&self) -> (r: &TrackedRepository)
        ensures
            *r == self.spec_repository(),
    {
        &self.repository
    }

    pub fn nixpkgs_branches(&self) -> (r: &Vec<String>)
        ensures
            r.deep_view() == self.spec_branches(),
    {
        &self.nixpkgs_branches
    }
}

} // verus!
