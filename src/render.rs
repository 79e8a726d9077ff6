//! Writing a manifest as pretty-printed JSON: keys in byte order, two spaces
//! of indentation per level, strings quoted and escaped by serde_json.

use vstd::prelude::*;

use crate::manifest::{Manifest, PlatformEntry};
use crate::platform::Platform;

verus! {

/// A lower-case hexadecimal digit.
pub open spec fn hex_digit(d: int) -> char {
    seq!['0', '1', '2', '3', '4', '5', '6', '7', '8', '9', 'a', 'b', 'c', 'd', 'e', 'f'][d]
}

/// How serde_json writes one character inside a string literal: quote and
/// backslash are escaped, five control characters take their short escape, the
/// other characters below 0x20 a `\u00xx` escape, and the rest stand as they are.
pub open spec fn escape_char(c: char) -> Seq<char> {
    let u = c as u32;
    if c == '"' {
        seq!['\\', '"']
    } else if c == '\\' {
        seq!['\\', '\\']
    } else if u == 0x08 {
        seq!['\\', 'b']
    } else if u == 0x09 {
        seq!['\\', 't']
    } else if u == 0x0A {
        seq!['\\', 'n']
    } else if u == 0x0C {
        seq!['\\', 'f']
    } else if u == 0x0D {
        seq!['\\', 'r']
    } else if u < 0x20 {
        seq!['\\', 'u', '0', '0', hex_digit(u as int / 16), hex_digit(u as int % 16)]
    } else {
        seq![c]
    }
}

/// The characters of `s`, each escaped.
pub open spec fn escaped(s: Seq<char>) -> Seq<char>
    decreases s.len(),
{
    if s.len() == 0 {
        Seq::empty()
    } else {
        escaped(s.drop_last()) + escape_char(s.last())
    }
}

/// The JSON string literal, quotes included, that serde_json writes for `s`.
pub open spec fn json_quoted(s: Seq<char>) -> Seq<char> {
    seq!['"'] + escaped(s) + seq!['"']
}

/// Relies on `serde_json::to_string` on a `str`: it writes the string between
/// double quotes, escaping each character as `escape_char` states. Writing into its in-memory buffer cannot fail,
/// so the error case is never taken.
#[verifier::external_body]
fn quote_json(s: &str) -> (r: String)
    ensures
        r@ == json_quoted(s@),
{
    serde_json::to_string(s).unwrap_or_default()
}

/// The member of the `platforms` object that holds platform `p`'s entry.
pub open spec fn entry_text(p: Platform, e: PlatformEntry) -> Seq<char> {
    "    "@ + json_quoted(p.key()) + ": {\n      \"signature\": "@ + json_quoted(e.signature@)
        + ",\n      \"url\": "@ + json_quoted(e.url@) + "\n    }"@
}

/// The members for the slots before `k`, separated by `,` and a line break.
pub open spec fn entries_text(slots: Seq<Option<PlatformEntry>>, k: int) -> Seq<char>
    decreases k,
{
    if k <= 0 {
        Seq::empty()
    } else {
        let prev = entries_text(slots, k - 1);
        match slots[k - 1] {
            None => prev,
            Some(e) => if prev.len() == 0 {
                entry_text(Platform::of_rank(k - 1), e)
            } else {
                prev + ",\n"@ + entry_text(Platform::of_rank(k - 1), e)
            },
        }
    }
}

/// The `platforms` object; `{}` where it has no member.
pub open spec fn platforms_text(slots: Seq<Option<PlatformEntry>>) -> Seq<char> {
    let b = entries_text(slots, 5);
    if b.len() == 0 {
        "{}"@
    } else {
        "{\n"@ + b + "\n  }"@
    }
}

/// The whole document.
pub open spec fn manifest_text(m: Manifest) -> Seq<char> {
    "{\n  \"notes\": "@ + json_quoted(m.notes@) + ",\n  \"platforms\": "@ + platforms_text(
        m.platforms@,
    ) + ",\n  \"pub_date\": "@ + json_quoted(m.pub_date@) + ",\n  \"version\": "@ + json_quoted(
        m.version@,
    ) + "\n}"@
}

fn entry_json(p: Platform, e: &PlatformEntry) -> (r: String)
    ensures
        r@ == entry_text(p, *e),
{
    let mut s = String::from_str("    ");
    s.append(quote_json(p.as_str()).as_str());
    s.append(": {\n      \"signature\": ");
    s.append(quote_json(e.signature.as_str()).as_str());
    s.append(",\n      \"url\": ");
    s.append(quote_json(e.url.as_str()).as_str());
    s.append("\n    }");
    s
}

fn platforms_json(slots: &Vec<Option<PlatformEntry>>) -> (r: String)
    requires
        slots@.len() == 5,
    ensures
        r@ == platforms_text(slots@),
{
    let mut body = String::new();
    let mut k: usize = 0;
    while k < 5
        invariant
            k <= 5 == slots@.len(),
            body@ == entries_text(slots@, k as int),
        decreases 5 - k,
    {
        match &slots[k] {
            None => {},
            Some(e) => {
                let t = entry_json(Platform::from_index(k), e);
                if body.unicode_len() == 0 {
                    body = t;
                } else {
                    body.append(",\n");
                    body.append(t.as_str());
                }
            },
        }
        k += 1;
    }
    if body.unicode_len() == 0 {
        String::from_str("{}")
    } else {
        let mut s = String::from_str("{\n");
        s.append(body.as_str());
        s.append("\n  }");
        s
    }
}

impl Manifest {
    /// The manifest as pretty-printed JSON text, ready to be written to disk.
    pub fn to_json_pretty(&self) -> (r: String)
        requires
            self.wf(),
        ensures
            r@ == manifest_text(*self),
    {
        let mut s = String::from_str("{\n  \"notes\": ");
        s.append(quote_json(self.notes.as_str()).as_str());
        s.append(",\n  \"platforms\": ");
        s.append(platforms_json(&self.platforms).as_str());
        s.append(",\n  \"pub_date\": ");
        s.append(quote_json(self.pub_date.as_str()).as_str());
        s.append(",\n  \"version\": ");
        s.append(quote_json(self.version.as_str()).as_str());
        s.append("\n}");
        s
    }
}

} // verus!
