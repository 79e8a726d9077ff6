//! The update manifest: the release's version, notes and publication date, and
//! for each platform the signature and download address of its installer.

use vstd::prelude::*;

use crate::platform::Platform;
use crate::scan::PlannedInstaller;
use crate::text::ends_with;

verus! {

/// What the manifest says of one platform.
pub struct PlatformEntry {
    pub signature: String,
    pub url: String,
}

/// An update manifest. `platforms` holds one slot for each platform, by rank.
pub struct Manifest {
    pub version: String,
    pub notes: String,
    pub pub_date: String,
    pub platforms: Vec<Option<PlatformEntry>>,
}

impl Manifest {
    pub open spec fn wf(&self) -> bool {
        self.platforms@.len() == 5
    }

    /// The entry of platform `p`, if the manifest has one.
    pub open spec fn entry(&self, p: Platform) -> Option<PlatformEntry> {
        self.platforms@[p.rank() as int]
    }

    /// The entry of platform `p`, if the manifest has one.
    pub fn platform(&self, p: Platform) -> (r: Option<&PlatformEntry>)
        requires
            self.wf(),
        ensures
            match self.entry(p) {
                Some(e) => r == Some(&e),
                None => r is None,
            },
    {
        match &self.platforms[p.index()] {
            Some(e) => Some(e),
            None => None,
        }
    }
}

/// Where an installer is downloaded from: its name under the base address,
/// with one `/` between them.
pub open spec fn url_of(base: Seq<char>, name: Seq<char>) -> Seq<char> {
    if ends_with(base, "/"@) {
        base + name
    } else {
        base + "/"@ + name
    }
}

/// The download address of the installer `name` under `base`.
pub fn download_url(base: &str, name: &str) -> (r: String)
    ensures
        r@ == url_of(base@, name@),
{
    let mut u = String::from_str(base);
    if !crate::text::has_suffix(base, "/") {
        u.append("/");
    }
    u.append(name);
    u
}

/// The position in `plan[0..k]` of the last installer for platform `p`, or -1.
pub open spec fn last_for(plan: Seq<PlannedInstaller>, p: Platform, k: int) -> int
    decreases k,
{
    if k <= 0 {
        -1
    } else if plan[k - 1].platform == p {
        k - 1
    } else {
        last_for(plan, p, k - 1)
    }
}

/// The entry for platform `p` that the installers of `plan` give: that of the
/// last one of the platform, as a later installer replaces an earlier one.
pub open spec fn planned_entry(
    plan: Seq<PlannedInstaller>,
    signatures: Seq<String>,
    base: Seq<char>,
    p: Platform,
) -> Option<(Seq<char>, Seq<char>)> {
    let j = last_for(plan, p, plan.len() as int);
    if j < 0 {
        None
    } else {
        Some((signatures[j]@, url_of(base, plan[j].name@)))
    }
}

/// The view of a slot: the signature and the address it holds.
pub open spec fn entry_view(e: Option<PlatformEntry>) -> Option<(Seq<char>, Seq<char>)> {
    match e {
        Some(e) => Some((e.signature@, e.url@)),
        None => None,
    }
}

pub proof fn lemma_last_for_bounds(plan: Seq<PlannedInstaller>, p: Platform, k: int)
    ensures
        -1 <= last_for(plan, p, k) < k || (k <= 0 && last_for(plan, p, k) == -1),
        last_for(plan, p, k) >= 0 ==> plan[last_for(plan, p, k)].platform == p,
    decreases k,
{
    if k > 0 && plan[k - 1].platform != p {
        lemma_last_for_bounds(plan, p, k - 1);
    }
}

/// Builds the manifest of a release: `signatures[i]` is the signature of the
/// installer `plan[i]`, and each installer's entry goes to its platform, a
/// later installer of a platform replacing an earlier one.
pub fn build_manifest(
    version: String,
    notes: String,
    pub_date: String,
    plan: &Vec<PlannedInstaller>,
    signatures: &Vec<String>,
    download_url_base: &str,
) -> (r: Manifest)
    requires
        signatures@.len() == plan@.len(),
    ensures
        r.wf(),
        r.version == version,
        r.notes == notes,
        r.pub_date == pub_date,
        forall|p: Platform|
            #[trigger] entry_view(r.entry(p)) == planned_entry(
                plan@,
                signatures@,
                download_url_base@,
                p,
            ),
{
    let mut slots: Vec<Option<PlatformEntry>> = vec![None, None, None, None, None];
    let mut k: usize = 0;
    while k < plan.len()
        invariant
            k <= plan@.len() == signatures@.len(),
            slots@.len() == 5,
            forall|i: int|
                0 <= i < 5 ==> #[trigger] entry_view(slots@[i]) == planned_entry(
                    plan@.subrange(0, k as int),
                    signatures@,
                    download_url_base@,
                    Platform::of_rank(i),
                ),
        decreases plan@.len() - k,
    {
        let it = &plan[k];
        let entry = PlatformEntry {
            signature: signatures[k].clone(),
            url: download_url(download_url_base, it.name.as_str()),
        };
        let at = it.platform.index();
        slots.set(at, Some(entry));
        proof {
            let before = plan@.subrange(0, k as int);
            let after = plan@.subrange(0, k + 1);
            assert forall|i: int| 0 <= i < 5 implies #[trigger] entry_view(slots@[i]) == planned_entry(
                after,
                signatures@,
                download_url_base@,
                Platform::of_rank(i),
            ) by {
                let q = Platform::of_rank(i);
                assert(after[k as int] == plan@[k as int]);
                if i != at {
                    assert(q != plan@[k as int].platform);
                    let j = last_for(before, q, k as int);
                    lemma_last_for_bounds(before, q, k as int);
                    assert(last_for(after, q, k + 1) == last_for(after, q, k as int));
                    lemma_last_for_agree(before, after, q, k as int);
                    if j >= 0 {
                        assert(after[j] == before[j]);
                    }
                }
            }
        }
        k += 1;
    }
    assert(plan@.subrange(0, plan@.len() as int) =~= plan@);
    let r = Manifest { version, notes, pub_date, platforms: slots };
    assert forall|p: Platform|
        #[trigger] entry_view(r.entry(p)) == planned_entry(
            plan@,
            signatures@,
            download_url_base@,
            p,
        ) by {
        assert(Platform::of_rank(p.rank() as int) == p);
    }
    r
}

/// The last installer of a platform is found at or after any installer of it.
pub proof fn lemma_last_for_at_least(plan: Seq<PlannedInstaller>, p: Platform, k: int, i: int)
    requires
        0 <= i < k <= plan.len(),
        plan[i].platform == p,
    ensures
        i <= last_for(plan, p, k) < k,
    decreases k,
{
    if plan[k - 1].platform != p {
        lemma_last_for_at_least(plan, p, k - 1, i);
    }
}

/// Every installer of a plan leaves an entry for its platform in the manifest
/// built from it: no installer goes without a platform entry.
pub proof fn lemma_every_installer_has_entry(
    plan: Seq<PlannedInstaller>,
    signatures: Seq<String>,
    base: Seq<char>,
    i: int,
)
    requires
        0 <= i < plan.len(),
        signatures.len() == plan.len(),
    ensures
        planned_entry(plan, signatures, base, plan[i].platform) is Some,
{
    lemma_last_for_at_least(plan, plan[i].platform, plan.len() as int, i);
}

/// `last_for` looks only at the installers before `k`.
pub proof fn lemma_last_for_agree(
    a: Seq<PlannedInstaller>,
    b: Seq<PlannedInstaller>,
    p: Platform,
    k: int,
)
    requires
        k <= a.len(),
        k <= b.len(),
        forall|i: int| 0 <= i < k ==> a[i] == b[i],
    ensures
        last_for(a, p, k) == last_for(b, p, k),
    decreases k,
{
    if k > 0 {
        lemma_last_for_agree(a, b, p, k - 1);
    }
}

} // verus!
