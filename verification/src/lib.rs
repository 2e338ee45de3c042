//! Release gating for a versioned project.
//!
//! The library extracts a release version from manifest content (a Cargo-style
//! manifest, a package.json-style object, or a plain version file), normalizes
//! a raw release-tag string, and decides whether the extracted version is newer
//! than the tag.

pub mod chars;
pub mod extract;
pub mod semver;
pub mod tag;
pub mod trim;
