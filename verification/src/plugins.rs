//! Pure decision logic of the CLI plugin commands.
//!
//! The plugin workflow itself — fetching manifests, comparing versions,
//! copying files — is ordinary I/O that lives outside the verified library.
//! What is decided from the command's options alone is decided here: from
//! which source a plugin manifest is to be taken.

use vstd::prelude::*;

verus! {

/// Where a plugin manifest is to be taken from: a local file path, a remote
/// manifest address, or the central plugins repository by plugin name with an
/// optional version.
#[derive(Debug, PartialEq, Eq)]
pub enum ManifestSource {
    Local(String),
    Remote(String),
    PluginsRepository(String, Option<String>),
}

/// The options of an install name exactly one source, or the command is
/// rejected.
#[derive(Debug, PartialEq, Eq)]
pub enum SourceError {
    AmbiguousSource,
}

/// Uninstalls the named plugin.
#[derive(Debug, PartialEq, Eq)]
pub struct Uninstall {
    pub name: String,
}

/// Picks the manifest source for an install: exactly one of a local path, a
/// remote address, or a plugin name must be given; the version only
/// accompanies a name.
pub fn manifest_source(
    local: Option<String>,
    remote: Option<String>,
    name: Option<String>,
    version: Option<String>,
) -> (r: Result<ManifestSource, SourceError>)
    ensures
        local matches Some(path) ==> remote is None && name is None ==> r == Ok::<
            ManifestSource,
            SourceError,
        >(ManifestSource::Local(path)),
        remote matches Some(address) ==> local is None && name is None ==> r == Ok::<
            ManifestSource,
            SourceError,
        >(ManifestSource::Remote(address)),
        name matches Some(n) ==> local is None && remote is None ==> r == Ok::<
            ManifestSource,
            SourceError,
        >(ManifestSource::PluginsRepository(n, version)),
        r is Err <==> {
            ||| local is Some && (remote is Some || name is Some)
            ||| remote is Some && name is Some
            ||| local is None && remote is None && name is None
        },
        r is Err ==> r == Err::<ManifestSource, SourceError>(SourceError::AmbiguousSource),
{
    match (local, remote, name) {
        (Some(path), None, None) => Ok(ManifestSource::Local(path)),
        (None, Some(address), None) => Ok(ManifestSource::Remote(address)),
        (None, None, Some(n)) => Ok(ManifestSource::PluginsRepository(n, version)),
        _ => Err(SourceError::AmbiguousSource),
    }
}

/// Picks the manifest source for an upgrade of one named plugin: a local
/// path alone names a local source, a remote address alone a remote one;
/// with neither or both given, the plugin is taken from the central
/// repository under its name and optional version.
pub fn upgrade_manifest_source(
    local: Option<String>,
    remote: Option<String>,
    name: String,
    version: Option<String>,
) -> (r: ManifestSource)
    ensures
        local matches Some(path) ==> remote is None ==> r == ManifestSource::Local(path),
        remote matches Some(address) ==> local is None ==> r == ManifestSource::Remote(address),
        local is Some == remote is Some ==> r == ManifestSource::PluginsRepository(name, version),
{
    match (local, remote) {
        (Some(path), None) => ManifestSource::Local(path),
        (None, Some(address)) => ManifestSource::Remote(address),
        _ => ManifestSource::PluginsRepository(name, version),
    }
}

} // verus!
