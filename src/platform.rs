//! Mapping an installer's file name to the platform it targets.

use vstd::prelude::*;

use crate::text::{contains, ends_with, has_substring, has_suffix, lemma_suffix_char};

verus! {

/// The closed set of platform identifiers of an update manifest.
///
/// Variants are listed in the byte order of their identifiers.
#[derive(Clone, Copy, Debug, PartialEq, Eq, Structural)]
pub enum Platform {
    DarwinAarch64,
    DarwinX86_64,
    LinuxX86_64,
    Unknown,
    WindowsX86_64,
}

/// Which platform a file name targets, decided by its suffix.
pub open spec fn classify(name: Seq<char>) -> Platform {
    if ends_with(name, ".msi"@) || ends_with(name, ".exe"@) {
        Platform::WindowsX86_64
    } else if ends_with(name, ".dmg"@) {
        if contains(name, "aarch64"@) || contains(name, "arm64"@) {
            Platform::DarwinAarch64
        } else {
            Platform::DarwinX86_64
        }
    } else if ends_with(name, ".AppImage"@) {
        Platform::LinuxX86_64
    } else {
        Platform::Unknown
    }
}

impl Platform {
    /// Position of the platform in the order of its identifier.
    pub open spec fn rank(self) -> nat {
        match self {
            Platform::DarwinAarch64 => 0,
            Platform::DarwinX86_64 => 1,
            Platform::LinuxX86_64 => 2,
            Platform::Unknown => 3,
            Platform::WindowsX86_64 => 4,
        }
    }

    pub open spec fn key(self) -> Seq<char> {
        match self {
            Platform::DarwinAarch64 => "darwin-aarch64"@,
            Platform::DarwinX86_64 => "darwin-x86_64"@,
            Platform::LinuxX86_64 => "linux-x86_64"@,
            Platform::Unknown => "unknown"@,
            Platform::WindowsX86_64 => "windows-x86_64"@,
        }
    }

    /// The platform at a given rank.
    pub open spec fn of_rank(i: int) -> Platform {
        if i == 0 {
            Platform::DarwinAarch64
        } else if i == 1 {
            Platform::DarwinX86_64
        } else if i == 2 {
            Platform::LinuxX86_64
        } else if i == 3 {
            Platform::Unknown
        } else {
            Platform::WindowsX86_64
        }
    }

    /// The identifier of the platform, as it stands in a manifest.
    pub fn as_str(&self) -> (r: &'static str)
        ensures
            r@ == self.key(),
    {
        match self {
            Platform::DarwinAarch64 => "darwin-aarch64",
            Platform::DarwinX86_64 => "darwin-x86_64",
            Platform::LinuxX86_64 => "linux-x86_64",
            Platform::Unknown => "unknown",
            Platform::WindowsX86_64 => "windows-x86_64",
        }
    }

    pub fn index(&self) -> (r: usize)
        ensures
            r == self.rank(),
            Platform::of_rank(r as int) == *self,
    {
        match self {
            Platform::DarwinAarch64 => 0,
            Platform::DarwinX86_64 => 1,
            Platform::LinuxX86_64 => 2,
            Platform::Unknown => 3,
            Platform::WindowsX86_64 => 4,
        }
    }

    pub fn from_index(i: usize) -> (r: Platform)
        requires
            i < 5,
        ensures
            r == Platform::of_rank(i as int),
            r.rank() == i,
    {
        if i == 0 {
            Platform::DarwinAarch64
        } else if i == 1 {
            Platform::DarwinX86_64
        } else if i == 2 {
            Platform::LinuxX86_64
        } else if i == 3 {
            Platform::Unknown
        } else {
            Platform::WindowsX86_64
        }
    }

    /// Classifies a file name by its suffix: `.msi` and `.exe` target
    /// Windows, `.dmg` targets macOS (on ARM when the name mentions `aarch64`
    /// or `arm64`), `.AppImage` targets Linux, and anything else is unknown.
    pub fn classify(filename: &str) -> (r: Platform)
        ensures
            r == classify(filename@),
            ends_with(filename@, ".msi"@) ==> r == Platform::WindowsX86_64,
            ends_with(filename@, ".exe"@) ==> r == Platform::WindowsX86_64,
            ends_with(filename@, ".dmg"@) && (contains(filename@, "aarch64"@) || contains(
                filename@,
                "arm64"@,
            )) ==> r == Platform::DarwinAarch64,
            ends_with(filename@, ".dmg"@) && !contains(filename@, "aarch64"@) && !contains(
                filename@,
                "arm64"@,
            ) ==> r == Platform::DarwinX86_64,
            ends_with(filename@, ".AppImage"@) ==> r == Platform::LinuxX86_64,
            !ends_with(filename@, ".msi"@) && !ends_with(filename@, ".exe"@) && !ends_with(
                filename@,
                ".dmg"@,
            ) && !ends_with(filename@, ".AppImage"@) ==> r == Platform::Unknown,
    {
        proof {
            reveal_strlit(".msi");
            reveal_strlit(".exe");
            reveal_strlit(".dmg");
            reveal_strlit(".AppImage");
            if ends_with(filename@, ".msi"@) {
                lemma_suffix_char(filename@, ".msi"@, 1);
            }
            if ends_with(filename@, ".exe"@) {
                lemma_suffix_char(filename@, ".exe"@, 1);
                lemma_suffix_char(filename@, ".exe"@, 2);
            }
            if ends_with(filename@, ".dmg"@) {
                lemma_suffix_char(filename@, ".dmg"@, 1);
            }
            if ends_with(filename@, ".AppImage"@) {
                lemma_suffix_char(filename@, ".AppImage"@, 1);
                lemma_suffix_char(filename@, ".AppImage"@, 2);
            }
        }
        if has_suffix(filename, ".msi") || has_suffix(filename, ".exe") {
            Platform::WindowsX86_64
        } else if has_suffix(filename, ".dmg") {
            if has_substring(filename, "aarch64") || has_substring(filename, "arm64") {
                Platform::DarwinAarch64
            } else {
                Platform::DarwinX86_64
            }
        } else if has_suffix(filename, ".AppImage") {
            Platform::LinuxX86_64
        } else {
            Platform::Unknown
        }
    }
}

/// The platform identifier of an installer's file name.
pub fn detect_platform_key(filename: &str) -> (r: &'static str)
    ensures
        r@ == classify(filename@).key(),
{
    Platform::classify(filename).as_str()
}

} // verus!
