//! Version extraction from manifest content, with ordered format fallback.
//!
//! Three formats are tried in priority order: a Cargo-style manifest (a
//! `[workspace.package]` version when a `[workspace]` section exists, else the
//! `[package]` version), a JSON object with a `version` string field, and
//! finally the whole content taken verbatim as the version candidate. The
//! chosen candidate is then validated by the semantic-version parser: on
//! success the trimmed candidate and the format label are returned, otherwise
//! extraction fails with the candidate itself.

use vstd::prelude::*;

use crate::semver::{is_semver, semver_accepts};
use crate::trim::{trim, trim_spec};

verus! {

/// Which parsing branch produced the version.
#[derive(Clone, Copy, Debug, PartialEq, Eq, Structural)]
pub enum SourceFormat {
    CargoManifest,
    PackageManifest,
    PlainText,
}

impl SourceFormat {
    /// The file name conventionally carrying content of this format.
    pub open spec fn file_name_spec(self) -> Seq<char> {
        match self {
            SourceFormat::CargoManifest => "Cargo.toml"@,
            SourceFormat::PackageManifest => "package.json"@,
            SourceFormat::PlainText => "version.txt"@,
        }
    }

    /// Returns [`Self::file_name_spec`].
    pub fn file_name(&self) -> (r: String)
        ensures
            r@ == self.file_name_spec(),
    {
        match self {
            SourceFormat::CargoManifest => "Cargo.toml".to_owned(),
            SourceFormat::PackageManifest => "package.json".to_owned(),
            SourceFormat::PlainText => "version.txt".to_owned(),
        }
    }
}

/// A successfully extracted version: the trimmed, parser-accepted version
/// string and the format that produced it.
#[derive(Clone, Debug)]
pub struct ExtractedVersion {
    pub value: String,
    pub format: SourceFormat,
}

/// The one fatal failure of extraction: no format's candidate is accepted by
/// the semantic-version parser. Carries the rejected candidate.
#[derive(Clone, Debug)]
pub enum ExtractError {
    UnparseableVersion(String),
}

/// What the Cargo-style reading of the content yields: whether the document
/// parses as TOML and holds a `workspace` key, and the
/// `workspace.package.version` and `package.version` string fields when they
/// exist.
pub uninterp spec fn toml_manifest_fields(s: Seq<char>) -> (bool, Option<Seq<char>>, Option<
    Seq<char>,
>);

/// What the JSON reading of the content yields: the `version` string field,
/// when the content parses as a JSON document holding one.
pub uninterp spec fn json_version_field(s: Seq<char>) -> Option<Seq<char>>;

/// The Cargo-style candidate: when the document holds a `[workspace]`
/// section, its `package.version` is the only candidate, read as-is;
/// otherwise the `[package]` version.
pub open spec fn cargo_candidate(s: Seq<char>) -> Option<Seq<char>> {
    let fields = toml_manifest_fields(s);
    if fields.0 {
        fields.1
    } else {
        fields.2
    }
}

/// The candidate string handed to the semantic-version parser, and the format
/// label of the branch that produced it: the first format to yield one wins,
/// and the whole content stands verbatim when no structured format does.
pub open spec fn chosen_candidate(s: Seq<char>) -> (Seq<char>, SourceFormat) {
    match cargo_candidate(s) {
        Some(v) => (v, SourceFormat::CargoManifest),
        None => match json_version_field(s) {
            Some(v) => (v, SourceFormat::PackageManifest),
            None => (s, SourceFormat::PlainText),
        },
    }
}

/// Relies on `toml::from_str` and `toml::Value::{get, as_str}`: the parsed
/// document's `workspace` key presence and its `workspace.package.version`
/// and `package.version` string fields.
#[verifier::external_body]
fn toml_manifest_lookup(content: &str) -> (r: (bool, Option<String>, Option<String>))
    ensures
        r.0 == toml_manifest_fields(content@).0,
        r.1.deep_view() == toml_manifest_fields(content@).1,
        r.2.deep_view() == toml_manifest_fields(content@).2,
{
    let doc: toml::Value = match toml::from_str(content) {
        Ok(v) => v,
        Err(_) => return (false, None, None),
    };
    let workspace = doc.get("workspace");
    let workspace_version = workspace
        .and_then(|w| w.get("package")).and_then(|p| p.get("version"))
        .and_then(|v| v.as_str()).map(|s| s.to_owned());
    let package_version = doc.get("package")
        .and_then(|p| p.get("version"))
        .and_then(|v| v.as_str()).map(|s| s.to_owned());
    (workspace.is_some(), workspace_version, package_version)
}

/// Relies on `serde_json::from_str` and `serde_json::Value::{get, as_str}`:
/// the parsed document's `version` string field.
#[verifier::external_body]
fn json_version_lookup(content: &str) -> (r: Option<String>)
    ensures
        r.deep_view() == json_version_field(content@),
{
    let doc: serde_json::Value = match serde_json::from_str(content) {
        Ok(v) => v,
        Err(_) => return None,
    };
    doc.get("version").and_then(|v| v.as_str()).map(|s| s.to_owned())
}

/// Extracts the release version from manifest content. The candidate chosen
/// by the format fallback is validated once: when the semantic-version parser
/// accepts it, the trimmed candidate and the format label are returned;
/// otherwise extraction fails with the candidate, the only fatal condition.
pub fn extract(content: &str) -> (r: Result<ExtractedVersion, ExtractError>)
    ensures
        match r {
            Ok(ev) => is_semver(chosen_candidate(content@).0) && ev.value@ == trim_spec(
                chosen_candidate(content@).0,
            ) && ev.format == chosen_candidate(content@).1,
            Err(ExtractError::UnparseableVersion(c)) => !is_semver(chosen_candidate(content@).0)
                && c@ == chosen_candidate(content@).0,
        },
{
    let (has_workspace, workspace_version, package_version) = toml_manifest_lookup(content);
    let from_cargo: Option<String> = if has_workspace {
        workspace_version
    } else {
        package_version
    };
    let (candidate, format): (String, SourceFormat) = match from_cargo {
        Some(v) => (v, SourceFormat::CargoManifest),
        None => match json_version_lookup(content) {
            Some(v) => (v, SourceFormat::PackageManifest),
            None => (content.to_owned(), SourceFormat::PlainText),
        },
    };
    if semver_accepts(candidate.as_str()) {
        let value = trim(candidate.as_str());
        Ok(ExtractedVersion { value, format })
    } else {
        Err(ExtractError::UnparseableVersion(candidate))
    }
}

/// Extracts the release version as the original tool reports it: the version
/// paired with the conventional file name of the detected format.
pub fn parse_version(content: String) -> (r: Result<(String, String), ExtractError>)
    ensures
        match r {
            Ok(p) => is_semver(chosen_candidate(content@).0) && p.0@ == trim_spec(
                chosen_candidate(content@).0,
            ) && p.1@ == chosen_candidate(content@).1.file_name_spec(),
            Err(ExtractError::UnparseableVersion(c)) => !is_semver(chosen_candidate(content@).0)
                && c@ == chosen_candidate(content@).0,
        },
{
    match extract(content.as_str()) {
        Ok(ev) => Ok((ev.value, ev.format.file_name())),
        Err(e) => Err(e),
    }
}

} // verus!
