//! Reading what the external signer reports. The signer itself runs outside
//! the library; these functions decide what its exit status and output mean.

use vstd::prelude::*;

use crate::error::GenerateError;
use crate::text::{
    find_char, find_char_exec, lemma_find_char_bounds, opt_view, skip_back, skip_back_exec,
    skip_front, skip_front_exec, Strip,
};

verus! {

/// The line `s[lo..hi]` without white space at either end.
pub open spec fn trimmed_line(s: Seq<char>, lo: int, hi: int) -> Seq<char> {
    let a = skip_front(s, Strip::Space, lo, hi);
    let b = skip_back(s, Strip::Space, a, hi);
    s.subrange(a, b)
}

/// The last line at or after the line that starts at `i` that is not blank,
/// trimmed; `acc` where there is none.
pub open spec fn last_line_from(s: Seq<char>, i: int, acc: Option<Seq<char>>) -> Option<Seq<char>>
    decreases s.len() - i,
    via last_line_from_decreases
{
    if i < 0 || i > s.len() {
        acc
    } else {
        let e = find_char(s, '\n', i, s.len() as int);
        let t = trimmed_line(s, i, e);
        let acc2 = if t.len() > 0 {
            Some(t)
        } else {
            acc
        };
        if e < s.len() {
            last_line_from(s, e + 1, acc2)
        } else {
            acc2
        }
    }
}

#[via_fn]
proof fn last_line_from_decreases(s: Seq<char>, i: int, acc: Option<Seq<char>>) {
    if 0 <= i <= s.len() {
        lemma_find_char_bounds(s, '\n', i, s.len() as int);
    }
}

/// The last line of `s` that is not blank, trimmed.
pub open spec fn last_nonblank_line(s: Seq<char>) -> Option<Seq<char>> {
    last_line_from(s, 0, None)
}

fn trimmed_line_exec(s: &str, lo: usize, hi: usize) -> (r: String)
    requires
        lo <= hi <= s@.len(),
    ensures
        r@ == trimmed_line(s@, lo as int, hi as int),
{
    let a = skip_front_exec(s, Strip::Space, lo, hi);
    let b = skip_back_exec(s, Strip::Space, a, hi);
    String::from_str(s.substring_char(a, b))
}

/// The last line of `s` that is not blank, trimmed.
pub fn last_nonblank_line_exec(s: &str) -> (r: Option<String>)
    ensures
        opt_view(r) == last_nonblank_line(s@),
{
    let n = s.unicode_len();
    let mut acc: Option<String> = None;
    let mut i: usize = 0;
    loop
        invariant
            i <= n == s@.len(),
            last_nonblank_line(s@) == last_line_from(s@, i as int, opt_view(acc)),
        decreases n - i,
    {
        let e = find_char_exec(s, '\n', i, n);
        let t = trimmed_line_exec(s, i, e);
        if t.unicode_len() > 0 {
            acc = Some(t);
        }
        if e < n {
            i = e + 1;
        } else {
            return acc;
        }
    }
}

/// The signature that a run of the signer produced: the last line of its
/// standard output that is not blank, trimmed.
///
/// A failed run gives `SigningFailed` with the installer's name and the
/// signer's diagnostic output; a run that printed no such line gives
/// `EmptySignature`.
pub fn signature_from_output(success: bool, installer: &str, stdout: &str, stderr: &str) -> (r:
    Result<String, GenerateError>)
    ensures
        !success ==> (r matches Err(GenerateError::SigningFailed(i, m)) && i@ == installer@ && m@
            == stderr@),
        success ==> match last_nonblank_line(stdout@) {
            Some(sig) => r matches Ok(v) && v@ == sig,
            None => r matches Err(GenerateError::EmptySignature),
        },
{
    if !success {
        return Err(
            GenerateError::SigningFailed(String::from_str(installer), String::from_str(stderr)),
        );
    }
    match last_nonblank_line_exec(stdout) {
        Some(sig) => Ok(sig),
        None => Err(GenerateError::EmptySignature),
    }
}

/// What a run of the signer's verification of `installer` means: success
/// accepts the signature; failure gives `VerificationFailed` with the
/// installer's name and the diagnostic output.
pub fn verification_result(success: bool, installer: &str, stderr: &str) -> (r: Result<
    (),
    GenerateError,
>)
    ensures
        success ==> r is Ok,
        !success ==> (r matches Err(GenerateError::VerificationFailed(i, m)) && i@ == installer@
            && m@ == stderr@),
{
    if success {
        Ok(())
    } else {
        Err(
            GenerateError::VerificationFailed(String::from_str(installer), String::from_str(stderr)),
        )
    }
}

} // verus!
