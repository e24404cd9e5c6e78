use outbound_redis::plugins::{
    manifest_source, upgrade_manifest_source, ManifestSource, SourceError, Uninstall,
};

#[test]
fn install_source_local_path() {
    let r = manifest_source(Some("plugin.json".to_string()), None, None, None);
    assert_eq!(r, Ok(ManifestSource::Local("plugin.json".to_string())));
}

#[test]
fn install_source_remote_address() {
    let r = manifest_source(None, Some("https://example.invalid/m.json".to_string()), None, None);
    assert_eq!(r, Ok(ManifestSource::Remote("https://example.invalid/m.json".to_string())));
}

#[test]
fn install_source_repository_with_version() {
    let r = manifest_source(None, None, Some("demo".to_string()), Some("1.2.3".to_string()));
    assert_eq!(
        r,
        Ok(ManifestSource::PluginsRepository("demo".to_string(), Some("1.2.3".to_string())))
    );
}

#[test]
fn install_source_rejects_none_and_several() {
    assert_eq!(manifest_source(None, None, None, None), Err(SourceError::AmbiguousSource));
    assert_eq!(
        manifest_source(Some("p".to_string()), Some("u".to_string()), None, None),
        Err(SourceError::AmbiguousSource)
    );
    assert_eq!(
        manifest_source(Some("p".to_string()), None, Some("n".to_string()), None),
        Err(SourceError::AmbiguousSource)
    );
}

#[test]
fn upgrade_source_prefers_local_then_remote_then_repository() {
    assert_eq!(
        upgrade_manifest_source(Some("p".to_string()), None, "demo".to_string(), None),
        ManifestSource::Local("p".to_string())
    );
    assert_eq!(
        upgrade_manifest_source(None, Some("u".to_string()), "demo".to_string(), None),
        ManifestSource::Remote("u".to_string())
    );
    assert_eq!(
        upgrade_manifest_source(None, None, "demo".to_string(), Some("2.0.0".to_string())),
        ManifestSource::PluginsRepository("demo".to_string(), Some("2.0.0".to_string()))
    );
}

#[test]
fn uninstall_names_its_plugin() {
    let u = Uninstall { name: "demo".to_string() };
    assert_eq!(u.name, "demo");
}
