//! Built-in defaults for the nixpkgs upstream.

use vstd::prelude::*;

verus! {

/// URL to the nixpkgs repository.
pub fn nixpkgs_url() -> (r: &'static str)
    ensures
        r@ == "https://github.com/NixOS/nixpkgs"@,
{
    "https://github.com/NixOS/nixpkgs"
}

/// The Git remote for upstream nixpkgs in our local copy.
pub fn nixpkgs_remote() -> (r: &'static str)
    ensures
        r@ == "origin"@,
{
    "origin"
}

} // verus!
