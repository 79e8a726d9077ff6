//! Finding the updater's public key in the application configuration.

use vstd::prelude::*;

use crate::error::GenerateError;
use crate::json::{json_parses, json_string_at, lookup_json_string};

verus! {

/// The places, in the order they are tried, where a configuration may hold
/// the updater's public key: one for each configuration schema.
pub open spec fn public_key_paths() -> Seq<Seq<char>> {
    seq!["/plugins/updater/pubkey"@, "/tauri/bundle/updater/pubkey"@]
}

/// The first string that one of `paths[i..]` designates in the document.
pub open spec fn first_string_from(text: Seq<char>, paths: Seq<Seq<char>>, i: int) -> Option<
    Seq<char>,
>
    decreases paths.len() - i,
{
    if i < 0 || i >= paths.len() {
        None
    } else {
        match json_string_at(text, paths[i]) {
            Some(k) => Some(k),
            None => first_string_from(text, paths, i + 1),
        }
    }
}

/// Reads the updater's public key from the text of the configuration file,
/// trying the places of `public_key_paths` in order.
pub fn public_key_from_config(text: &str) -> (r: Result<String, GenerateError>)
    ensures
        !json_parses(text@) ==> r matches Err(GenerateError::MalformedConfig),
        json_parses(text@) ==> match first_string_from(text@, public_key_paths(), 0) {
            Some(k) => r matches Ok(v) && v@ == k,
            None => r matches Err(GenerateError::PublicKeyNotFound),
        },
{
    let paths: Vec<&str> = vec!["/plugins/updater/pubkey", "/tauri/bundle/updater/pubkey"];
    let ghost want = public_key_paths();
    assert(paths@.len() == want.len());
    assert(paths@[0]@ == want[0] && paths@[1]@ == want[1]);
    let mut i: usize = 0;
    while i < paths.len()
        invariant
            paths@.len() == want.len() == 2,
            want == public_key_paths(),
            forall|j: int| 0 <= j < 2 ==> (#[trigger] paths@[j])@ == want[j],
            i <= 2,
            i > 0 ==> json_parses(text@),
            first_string_from(text@, want, 0) == first_string_from(text@, want, i as int),
        decreases 2 - i,
    {
        match lookup_json_string(text, paths[i]) {
            Err(_) => {
                return Err(GenerateError::MalformedConfig);
            },
            Ok(Some(k)) => {
                return Ok(k);
            },
            Ok(None) => {},
        }
        i += 1;
    }
    Err(GenerateError::PublicKeyNotFound)
}

} // verus!
