//! Resolving the release version from the project's manifests: a Node
//! `package.json` first, a Cargo manifest after it.

use vstd::prelude::*;

use crate::error::GenerateError;
use crate::json::{json_parses, json_string_at, lookup_json_string};
use crate::text::{
    find_char, find_char_exec, lemma_find_char_bounds, occurs_at, occurs_at_exec, opt_str_view, opt_view,
    skip_back, skip_back_exec, skip_front, skip_front_exec, Strip,
};

verus! {

/// The version that the line `s[lo..hi]` declares: the line, past its leading
/// white space, starts with `version`, and what follows its first `=` after that word, trimmed of white
/// space and then of double quotes, is not empty.
pub open spec fn version_in_line(s: Seq<char>, lo: int, hi: int) -> Option<Seq<char>> {
    let kw = "version"@;
    let start = skip_front(s, Strip::Space, lo, hi);
    if start + kw.len() <= hi && occurs_at(s, kw, start) {
        let e = find_char(s, '=', start + kw.len(), hi);
        if e < hi {
            let a1 = skip_front(s, Strip::Space, e + 1, hi);
            let b1 = skip_back(s, Strip::Space, a1, hi);
            let a2 = skip_front(s, Strip::Quote, a1, b1);
            let b2 = skip_back(s, Strip::Quote, a2, b1);
            if a2 < b2 {
                Some(s.subrange(a2, b2))
            } else {
                None
            }
        } else {
            None
        }
    } else {
        None
    }
}

/// The first version declared by a line at or after the line that starts at `i`.
pub open spec fn cargo_version_from(s: Seq<char>, i: int) -> Option<Seq<char>>
    decreases s.len() - i,
    via cargo_version_from_decreases
{
    if i < 0 || i > s.len() {
        None
    } else {
        let e = find_char(s, '\n', i, s.len() as int);
        match version_in_line(s, i, e) {
            Some(v) => Some(v),
            None => if e < s.len() {
                cargo_version_from(s, e + 1)
            } else {
                None
            },
        }
    }
}

#[via_fn]
proof fn cargo_version_from_decreases(s: Seq<char>, i: int) {
    if 0 <= i <= s.len() {
        lemma_find_char_bounds(s, '\n', i, s.len() as int);
    }
}

/// The version of a Cargo manifest: the first line, in file order, that
/// declares one.
pub open spec fn cargo_version(s: Seq<char>) -> Option<Seq<char>> {
    cargo_version_from(s, 0)
}

/// The version that the first source present gives: the Node manifest's
/// version field where there is one, else the Cargo manifest's first version line.
pub open spec fn version_outcome(node: Option<Seq<char>>, cargo: Option<Seq<char>>) -> Option<
    Seq<char>,
> {
    match node {
        Some(v) => Some(v),
        None => match cargo {
            Some(t) => cargo_version(t),
            None => None,
        },
    }
}

fn version_in_line_exec(s: &str, lo: usize, hi: usize) -> (r: Option<String>)
    requires
        lo <= hi <= s@.len(),
    ensures
        opt_view(r) == version_in_line(s@, lo as int, hi as int),
{
    let kw = "version";
    let m = kw.unicode_len();
    let start = skip_front_exec(s, Strip::Space, lo, hi);
    if m > hi - start || !occurs_at_exec(s, kw, start) {
        return None;
    }
    let e = find_char_exec(s, '=', start + m, hi);
    if e >= hi {
        return None;
    }
    let a1 = skip_front_exec(s, Strip::Space, e + 1, hi);
    let b1 = skip_back_exec(s, Strip::Space, a1, hi);
    let a2 = skip_front_exec(s, Strip::Quote, a1, b1);
    let b2 = skip_back_exec(s, Strip::Quote, a2, b1);
    if a2 < b2 {
        Some(String::from_str(s.substring_char(a2, b2)))
    } else {
        None
    }
}

/// The version a Cargo manifest declares on its first `version` line.
pub fn version_from_cargo_toml(text: &str) -> (r: Option<String>)
    ensures
        opt_view(r) == cargo_version(text@),
{
    let n = text.unicode_len();
    let mut i: usize = 0;
    loop
        invariant
            i <= n == text@.len(),
            cargo_version(text@) == cargo_version_from(text@, i as int),
        decreases n - i,
    {
        let e = find_char_exec(text, '\n', i, n);
        let v = version_in_line_exec(text, i, e);
        if v.is_some() {
            return v;
        }
        if e < n {
            i = e + 1;
        } else {
            return None;
        }
    }
}

/// Picks the release version: the Node manifest's version where it has one,
/// else the first version line of the Cargo manifest.
pub fn pick_version(node_version: Option<String>, cargo_toml: Option<&str>) -> (r: Result<
    String,
    GenerateError,
>)
    ensures
        r is Ok == version_outcome(opt_view(node_version), opt_str_view(cargo_toml)) is Some,
        r matches Ok(v) ==> Some(v@) == version_outcome(
            opt_view(node_version),
            opt_str_view(cargo_toml),
        ),
        r matches Err(e) ==> e == GenerateError::VersionNotFound,
{
    match node_version {
        Some(v) => Ok(v),
        None => {
            let found = match cargo_toml {
                Some(t) => version_from_cargo_toml(t),
                None => None,
            };
            match found {
                Some(v) => Ok(v),
                None => Err(GenerateError::VersionNotFound),
            }
        },
    }
}

/// The string `version` field of a Node manifest's text, if it has one. Text
/// that is not JSON is an error.
pub fn node_version(package_json: &str) -> (r: Result<Option<String>, GenerateError>)
    ensures
        !json_parses(package_json@) ==> r matches Err(GenerateError::MalformedConfig),
        json_parses(package_json@) ==> (r matches Ok(v) && opt_view(v) == json_string_at(
            package_json@,
            "/version"@,
        )),
{
    match lookup_json_string(package_json, "/version") {
        Ok(v) => Ok(v),
        Err(_) => Err(GenerateError::MalformedConfig),
    }
}

/// Resolves the release version from the text of `package.json` and of
/// `Cargo.toml`, each `None` where the file is absent. A `package.json` that is
/// not JSON is an error; one without a string `version` passes the question on.
pub fn resolve_version(package_json: Option<&str>, cargo_toml: Option<&str>) -> (r: Result<
    String,
    GenerateError,
>)
    ensures
        package_json matches Some(t) && !json_parses(t@) ==> r matches Err(
            GenerateError::MalformedConfig,
        ),
        (package_json matches Some(t) ==> json_parses(t@)) ==> {
            let node = match package_json {
                Some(t) => json_string_at(t@, "/version"@),
                None => None,
            };
            &&& r is Ok == version_outcome(node, opt_str_view(cargo_toml)) is Some
            &&& r matches Ok(v) ==> Some(v@) == version_outcome(node, opt_str_view(cargo_toml))
            &&& r matches Err(e) ==> e == GenerateError::VersionNotFound
        },
{
    let node_version = match package_json {
        Some(t) => match node_version(t) {
            Ok(v) => v,
            Err(e) => return Err(e),
        },
        None => None,
    };
    pick_version(node_version, cargo_toml)
}

} // verus!
