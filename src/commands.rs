//! The texts handed to the build system's tools, and what is read back from
//! their output.
use vstd::prelude::*;
use crate::introspect::{trimmed, trim_text};

verus! {

/// The expression that fetches revision `revision` of the repository at
/// `git_url`.
pub open spec fn fetch_expression_of(git_url: Seq<char>, revision: Seq<char>) -> Seq<char> {
    "builtins.fetchGit { url = \""@ + git_url + "\"; ref = \""@ + revision + "\"; }"@
}

/// The shell command that evaluates every package of the tree at `nixpkgs`
/// with its metadata and stores the manifest under `outdir`.
pub open spec fn manifest_command_of(nixpkgs: Seq<char>, outdir: Seq<char>) -> Seq<char> {
    "nix-env -f "@ + nixpkgs + " -qa --meta --json --show-trace --arg config 'import "@ + nixpkgs
        + "/pkgs/top-level/packages-config.nix' | jq -c '{\"version\":2,\"packages\":.}' > "@ + outdir
        + "/packages.json"@
}

/// The shell command that describes the derivation of package `name` of the
/// tree at `nixpkgs`, giving up after 30 seconds; a query that fails prints
/// `{}`.
pub open spec fn query_command_of(nixpkgs: Seq<char>, name: Seq<char>) -> Seq<char> {
    "timeout 30s nix derivation show "@ + nixpkgs + "#"@ + name + " 2>/dev/null || echo '{}'"@
}

/// Where the manifest is stored under `outdir`.
pub open spec fn manifest_path_of(outdir: Seq<char>) -> Seq<char> {
    outdir + "/packages.json"@
}

/// `s` without leading double quotes.
pub open spec fn unquote_front(s: Seq<char>) -> Seq<char>
    decreases s.len(),
{
    if s.len() > 0 && s[0] == '"' {
        unquote_front(s.drop_first())
    } else {
        s
    }
}

/// `s` without trailing double quotes.
pub open spec fn unquote_back(s: Seq<char>) -> Seq<char>
    decreases s.len(),
{
    if s.len() > 0 && s.last() == '"' {
        unquote_back(s.drop_last())
    } else {
        s
    }
}

/// The store path that the fetch expression evaluates to, from the
/// evaluator's JSON output: white space, then double quotes, taken off both
/// ends.
pub open spec fn fetched_path_of(output: Seq<char>) -> Seq<char> {
    unquote_back(unquote_front(trimmed(output)))
}

/// The expression that fetches revision `revision` of the repository at
/// `git_url`.
pub fn fetch_expression(git_url: &str, revision: &str) -> (r: String)
    ensures
        r@ == fetch_expression_of(git_url@, revision@),
{
    let mut r = String::from_str("builtins.fetchGit { url = \"");
    r.append(git_url);
    r.append("\"; ref = \"");
    r.append(revision);
    r.append("\"; }");
    r
}

/// The shell command that writes the manifest of the tree at `nixpkgs`
/// under `outdir`.
pub fn manifest_command(nixpkgs: &str, outdir: &str) -> (r: String)
    ensures
        r@ == manifest_command_of(nixpkgs@, outdir@),
{
    let mut r = String::from_str("nix-env -f ");
    r.append(nixpkgs);
    r.append(" -qa --meta --json --show-trace --arg config 'import ");
    r.append(nixpkgs);
    r.append("/pkgs/top-level/packages-config.nix' | jq -c '{\"version\":2,\"packages\":.}' > ");
    r.append(outdir);
    r.append("/packages.json");
    r
}

/// The shell command that describes the derivation of package `name`.
pub fn query_command(nixpkgs: &str, name: &str) -> (r: String)
    ensures
        r@ == query_command_of(nixpkgs@, name@),
{
    let mut r = String::from_str("timeout 30s nix derivation show ");
    r.append(nixpkgs);
    r.append("#");
    r.append(name);
    r.append(" 2>/dev/null || echo '{}'");
    r
}

/// Where the manifest is stored under `outdir`.
pub fn manifest_path(outdir: &str) -> (r: String)
    ensures
        r@ == manifest_path_of(outdir@),
{
    let mut r = String::from_str(outdir);
    r.append("/packages.json");
    r
}

/// The store path in the evaluator's output.
pub fn fetched_path(output: &str) -> (r: String)
    ensures
        r@ == fetched_path_of(output@),
{
    let s = trim_text(output);
    let n = s.unicode_len();
    let mut i: usize = 0;
    assert(s@.subrange(0, n as int) =~= s@);
    while i < n && s.get_char(i) == '"'
        invariant
            n == s@.len(),
            i <= n,
            unquote_front(s@) == unquote_front(s@.subrange(i as int, n as int)),
        decreases n - i,
    {
        assert(s@.subrange(i as int, n as int).drop_first() =~= s@.subrange(i + 1, n as int));
        i = i + 1;
    }
    let ghost front = s@.subrange(i as int, n as int);
    assert(unquote_front(s@) == front) by {
        if i < n {
            assert(front[0] == s@[i as int]);
        }
    }
    let mut j: usize = n;
    while j > i && s.get_char(j - 1) == '"'
        invariant
            n == s@.len(),
            i <= j <= n,
            unquote_back(front) == unquote_back(s@.subrange(i as int, j as int)),
        decreases j,
    {
        assert(s@.subrange(i as int, j as int).drop_last() =~= s@.subrange(i as int, j - 1));
        j = j - 1;
    }
    let r = s.substring_char(i, j);
    assert(unquote_back(front) == r@) by {
        if j > i {
            assert(r@.last() == s@[j - 1]);
        }
    }
    String::from_str(r)
}

} // verus!
