//! Building blocks of an update-manifest generator: classifying installers by
//! platform, resolving the release version, pairing installers with their
//! detached signatures and assembling the manifest document.

pub mod clock;
pub mod config;
pub mod error;
pub mod json;
pub mod manifest;
pub mod platform;
pub mod render;
pub mod scan;
pub mod signer;
pub mod text;
pub mod version;

pub use platform::{detect_platform_key, Platform};
pub use error::GenerateError;
pub use version::{node_version, pick_version, resolve_version, version_from_cargo_toml};
pub use config::public_key_from_config;
pub use scan::{plan_installers, plan_signing, select_installers, signature_paths, BundleFile, PlannedInstaller};
pub use clock::publication_date;
pub use manifest::{build_manifest, download_url, Manifest, PlatformEntry};
pub use signer::{signature_from_output, verification_result};
