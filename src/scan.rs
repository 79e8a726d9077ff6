//! Choosing, among the files of a bundle directory, the installers and the
//! signature file that belongs to each of them.

use vstd::prelude::*;

use crate::error::GenerateError;
use crate::platform::{classify, Platform};
use crate::text::{ends_with, has_suffix, opt_view};

verus! {

/// A regular file found under the bundle directory.
pub struct BundleFile {
    /// The file's own name, without its directory.
    pub name: String,
    /// Where the file lies.
    pub path: String,
}

/// An installer together with its platform and the signature file that goes with it.
pub struct PlannedInstaller {
    pub platform: Platform,
    /// The installer's file name.
    pub name: String,
    /// Where the installer lies.
    pub path: String,
    pub signature_path: String,
}

pub open spec fn is_installer_name(name: Seq<char>) -> bool {
    ends_with(name, ".msi"@) || ends_with(name, ".exe"@) || ends_with(name, ".dmg"@) || ends_with(
        name,
        ".AppImage"@,
    )
}

/// The installers among `files`, in their order.
pub open spec fn installers_of(files: Seq<BundleFile>) -> Seq<BundleFile>
    decreases files.len(),
{
    if files.len() == 0 {
        Seq::empty()
    } else {
        let rest = installers_of(files.drop_last());
        if is_installer_name(files.last().name@) {
            rest.push(files.last())
        } else {
            rest
        }
    }
}

/// The platform a signature file signs for: that of its name without the
/// `.sig` suffix. Files without that suffix are no signatures.
pub open spec fn signature_platform(name: Seq<char>) -> Option<Platform> {
    if ends_with(name, ".sig"@) {
        Some(classify(name.subrange(0, name.len() - ".sig"@.len())))
    } else {
        None
    }
}

/// The signature file for platform `p`: the last one among `files`, as a later
/// file of the same platform replaces an earlier one.
pub open spec fn signature_for(files: Seq<BundleFile>, p: Platform) -> Option<Seq<char>>
    decreases files.len(),
{
    if files.len() == 0 {
        None
    } else if signature_platform(files.last().name@) == Some(p) {
        Some(files.last().path@)
    } else {
        signature_for(files.drop_last(), p)
    }
}

/// Whether a file name is that of an installer: `.msi`, `.exe`, `.dmg` or `.AppImage`.
pub fn is_installer(name: &str) -> (r: bool)
    ensures
        r == is_installer_name(name@),
{
    has_suffix(name, ".msi") || has_suffix(name, ".exe") || has_suffix(name, ".dmg")
        || has_suffix(name, ".AppImage")
}

fn copy_file(f: &BundleFile) -> (r: BundleFile)
    ensures
        r == *f,
{
    BundleFile { name: f.name.clone(), path: f.path.clone() }
}

/// The installers among the files of a bundle directory, in the order given.
pub fn select_installers(files: &Vec<BundleFile>) -> (r: Vec<BundleFile>)
    ensures
        r@ == installers_of(files@),
{
    let mut out: Vec<BundleFile> = Vec::new();
    let mut k: usize = 0;
    while k < files.len()
        invariant
            k <= files@.len(),
            out@ == installers_of(files@.subrange(0, k as int)),
        decreases files@.len() - k,
    {
        let f = &files[k];
        if is_installer(f.name.as_str()) {
            out.push(copy_file(f));
        }
        proof {
            assert(files@.subrange(0, k + 1).drop_last() =~= files@.subrange(0, k as int));
        }
        k += 1;
    }
    assert(files@.subrange(0, files@.len() as int) =~= files@);
    out
}

/// For each platform, by rank, the path of the signature file that belongs to it.
pub fn signature_paths(files: &Vec<BundleFile>) -> (r: Vec<Option<String>>)
    ensures
        r@.len() == 5,
        forall|i: int|
            0 <= i < 5 ==> #[trigger] opt_view(r@[i]) == signature_for(files@, Platform::of_rank(i)),
{
    let mut slots: Vec<Option<String>> = vec![None, None, None, None, None];
    let mut k: usize = 0;
    while k < files.len()
        invariant
            k <= files@.len(),
            slots@.len() == 5,
            forall|i: int|
                0 <= i < 5 ==> #[trigger] opt_view(slots@[i]) == signature_for(
                    files@.subrange(0, k as int),
                    Platform::of_rank(i),
                ),
        decreases files@.len() - k,
    {
        let f = &files[k];
        let name = f.name.as_str();
        let ghost prev = slots@;
        proof {
            assert(files@.subrange(0, k + 1).drop_last() =~= files@.subrange(0, k as int));
            assert(files@.subrange(0, k + 1).last() == files@[k as int]);
        }
        if has_suffix(name, ".sig") {
            let stem = name.substring_char(0, name.unicode_len() - ".sig".unicode_len());
            let p = Platform::classify(stem);
            let at = p.index();
            slots.set(at, Some(f.path.clone()));
            assert forall|i: int| 0 <= i < 5 implies #[trigger] opt_view(slots@[i]) == signature_for(
                files@.subrange(0, k + 1),
                Platform::of_rank(i),
            ) by {
                if i != at {
                    assert(Platform::of_rank(i) != p);
                }
            }
        }
        k += 1;
    }
    assert(files@.subrange(0, files@.len() as int) =~= files@);
    slots
}

/// Whether every one of `installers` has a signature file among `files`.
pub open spec fn all_signed(files: Seq<BundleFile>, installers: Seq<BundleFile>) -> bool {
    forall|i: int|
        0 <= i < installers.len() ==> (#[trigger] signature_for(
            files,
            classify(installers[i].name@),
        )) is Some
}

/// Pairs each installer among `files` with its platform and its signature file.
///
/// Fails with `NoInstallersFound` when there is no installer, and with
/// `SignatureNotFound`, naming the first installer concerned, when an installer's
/// platform has no signature file.
pub fn plan_installers(files: &Vec<BundleFile>) -> (r: Result<Vec<PlannedInstaller>, GenerateError>)
    ensures
        (installers_of(files@).len() == 0) == (r matches Err(GenerateError::NoInstallersFound)),
        r is Ok == (installers_of(files@).len() > 0 && all_signed(files@, installers_of(files@))),
        r matches Err(GenerateError::SignatureNotFound(n)) ==> exists|i: int|
            0 <= i < installers_of(files@).len() && #[trigger] installers_of(files@)[i].name@ == n@
                && signature_for(files@, classify(installers_of(files@)[i].name@)) is None,
        r matches Err(e) ==> e is NoInstallersFound || e is SignatureNotFound,
        r matches Ok(v) ==> {
            let inst = installers_of(files@);
            &&& v@.len() == inst.len()
            &&& forall|i: int|
                0 <= i < inst.len() ==> {
                    &&& (#[trigger] v@[i]).platform == classify(inst[i].name@)
                    &&& v@[i].name@ == inst[i].name@
                    &&& v@[i].path@ == inst[i].path@
                    &&& signature_for(files@, v@[i].platform) == Some(v@[i].signature_path@)
                }
        },
{
    let installers = select_installers(files);
    if installers.len() == 0 {
        return Err(GenerateError::NoInstallersFound);
    }
    let sigs = signature_paths(files);
    let ghost inst = installers@;
    let mut out: Vec<PlannedInstaller> = Vec::new();
    let mut k: usize = 0;
    while k < installers.len()
        invariant
            inst == installers@,
            inst == installers_of(files@),
            sigs@.len() == 5,
            forall|i: int|
                0 <= i < 5 ==> #[trigger] opt_view(sigs@[i]) == signature_for(
                    files@,
                    Platform::of_rank(i),
                ),
            k <= inst.len(),
            out@.len() == k,
            forall|i: int|
                0 <= i < k ==> {
                    &&& (#[trigger] out@[i]).platform == classify(inst[i].name@)
                    &&& out@[i].name@ == inst[i].name@
                    &&& out@[i].path@ == inst[i].path@
                    &&& signature_for(files@, out@[i].platform) == Some(out@[i].signature_path@)
                },
        decreases inst.len() - k,
    {
        let f = &installers[k];
        let p = Platform::classify(f.name.as_str());
        let at = p.index();
        assert(opt_view(sigs@[at as int]) == signature_for(files@, Platform::of_rank(at as int)));
        match &sigs[at] {
            Some(path) => {
                out.push(
                    PlannedInstaller {
                        platform: p,
                        name: f.name.clone(),
                        path: f.path.clone(),
                        signature_path: path.clone(),
                    },
                );
            },
            None => {
                assert(signature_for(files@, p) is None);
                return Err(GenerateError::SignatureNotFound(f.name.clone()));
            },
        }
        k += 1;
    }
    assert forall|i: int| 0 <= i < inst.len() implies (#[trigger] signature_for(
        files@,
        classify(inst[i].name@),
    )) is Some by {
        assert(out@[i].platform == classify(inst[i].name@));
    }
    Ok(out)
}

/// Pairs each installer among `files` with its platform and with the path of
/// the signature file that signing it leaves beside it, `<installer>.sig`.
///
/// Fails with `NoInstallersFound`, and only so, when there is no installer.
pub fn plan_signing(files: &Vec<BundleFile>) -> (r: Result<Vec<PlannedInstaller>, GenerateError>)
    ensures
        (installers_of(files@).len() == 0) == r is Err,
        r matches Err(e) ==> e == GenerateError::NoInstallersFound,
        r matches Ok(v) ==> {
            let inst = installers_of(files@);
            &&& v@.len() == inst.len()
            &&& forall|i: int|
                0 <= i < inst.len() ==> {
                    &&& (#[trigger] v@[i]).platform == classify(inst[i].name@)
                    &&& v@[i].name@ == inst[i].name@
                    &&& v@[i].path@ == inst[i].path@
                    &&& v@[i].signature_path@ == inst[i].path@ + ".sig"@
                }
        },
{
    let installers = select_installers(files);
    if installers.len() == 0 {
        return Err(GenerateError::NoInstallersFound);
    }
    let ghost inst = installers@;
    let mut out: Vec<PlannedInstaller> = Vec::new();
    let mut k: usize = 0;
    while k < installers.len()
        invariant
            inst == installers@,
            inst == installers_of(files@),
            k <= inst.len(),
            out@.len() == k,
            forall|i: int|
                0 <= i < k ==> {
                    &&& (#[trigger] out@[i]).platform == classify(inst[i].name@)
                    &&& out@[i].name@ == inst[i].name@
                    &&& out@[i].path@ == inst[i].path@
                    &&& out@[i].signature_path@ == inst[i].path@ + ".sig"@
                },
        decreases inst.len() - k,
    {
        let f = &installers[k];
        let mut sig = f.path.clone();
        sig.append(".sig");
        out.push(
            PlannedInstaller {
                platform: Platform::classify(f.name.as_str()),
                name: f.name.clone(),
                path: f.path.clone(),
                signature_path: sig,
            },
        );
        k += 1;
    }
    Ok(out)
}

} // verus!
