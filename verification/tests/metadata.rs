use serde_json::Value;

use tappad::metadata::{
    array_field, asar_header_layout, bundle_source_from, bundle_source_text, bundle_range, extract_app_default_binding,
    find_command_bundle, object_field, quoted_field, ArchiveFingerprint, AsarEntry, BindingCache,
    MetadataError, ModifiedTime,
};

fn command_source(record: &str) -> String {
    format!("let commands=[{{id:`before`}},{record},{{id:`after`}}];")
}

fn asar_bytes(source: &str, bundle_name: &str) -> Vec<u8> {
    let header = format!(
        r#"{{"files":{{"webview":{{"files":{{"assets":{{"files":{{"{bundle_name}":{{"size":{},"offset":"0"}}}}}}}}}}}}}}"#,
        source.len()
    );
    let padding = (4 - ((4 + header.len()) % 4)) % 4;
    let header_pickle_payload = 4 + header.len() + padding;
    let header_size = 4 + header_pickle_payload;
    let mut bytes = Vec::new();
    bytes.extend_from_slice(&4_u32.to_le_bytes());
    bytes.extend_from_slice(&(header_size as u32).to_le_bytes());
    bytes.extend_from_slice(&(header_pickle_payload as u32).to_le_bytes());
    bytes.extend_from_slice(&(header.len() as u32).to_le_bytes());
    bytes.extend_from_slice(header.as_bytes());
    bytes.extend(std::iter::repeat(0).take(padding));
    bytes.extend_from_slice(source.as_bytes());
    bytes
}

fn entry_of(value: &Value) -> AsarEntry {
    let files = value
        .get("files")
        .and_then(Value::as_object)
        .map(|files| {
            files
                .iter()
                .map(|(name, entry)| (name.clone(), entry_of(entry)))
                .collect()
        })
        .unwrap_or_default();
    AsarEntry {
        files,
        size: value.get("size").and_then(Value::as_u64),
        offset: value.get("offset").and_then(Value::as_str).map(str::to_string),
        unpacked: value.get("unpacked").and_then(Value::as_bool).unwrap_or(false),
    }
}

fn read_binding(archive: &[u8], command: &str) -> Result<String, MetadataError> {
    let prefix: [u8; 16] = archive
        .get(..16)
        .ok_or_else(|| MetadataError::Unreadable("short archive".to_string()))?
        .try_into()
        .expect("sixteen bytes");
    let (json_size, data_start) = asar_header_layout(&prefix, archive.len() as u64)?;
    let json = &archive[16..16 + json_size as usize];
    let header: Value = serde_json::from_slice(json)
        .map_err(|error| MetadataError::Invalid(format!("the Codex ASAR header is invalid JSON: {error}")))?;
    let root = entry_of(&header);
    let bundle = find_command_bundle(&root.files)?;
    let (start, len) = bundle_range(
        data_start,
        bundle.size,
        bundle.offset.as_deref(),
        archive.len() as u64,
    )?;
    let source = std::str::from_utf8(&archive[start as usize..(start + len) as usize])
        .map_err(|error| MetadataError::Invalid(error.to_string()))?;
    extract_app_default_binding(source, command)
}

#[test]
fn reads_unique_app_scoped_linux_default_from_asar() {
    let archive = asar_bytes(
        &command_source(
            "{id:`composer.startVoiceMode`,shortcutScope:`app`,electron:{defaultKeybindings:[{key:`Ctrl+Shift+V`}]}}",
        ),
        "app-initial-fixture.js",
    );
    assert_eq!(
        read_binding(&archive, "composer.startVoiceMode"),
        Ok("Ctrl+Shift+V".to_string())
    );
}

#[test]
fn linux_platform_default_takes_precedence_over_generic_default() {
    let source = command_source(
        "{id:`composer.startVoiceMode`,shortcutScope:`app`,electron:{platformDefaultKeybindings:{macOS:[{key:`Command+V`}],default:[{key:`Ctrl+V`}]},defaultKeybindings:[{key:`Alt+V`}]}}",
    );
    assert_eq!(
        extract_app_default_binding(&source, "composer.startVoiceMode"),
        Ok("Ctrl+V".to_string())
    );
}

#[test]
fn rejects_wrong_scope_missing_command_and_multiple_defaults() {
    assert_eq!(
        extract_app_default_binding(
            &command_source(
                "{id:`composer.startVoiceMode`,shortcutScope:`os-global`,electron:{defaultKeybindings:[{key:`Ctrl+V`}]}}",
            ),
            "composer.startVoiceMode",
        ),
        Err(MetadataError::ScopeMismatch)
    );
    assert_eq!(
        extract_app_default_binding(&command_source("{id:`other`}"), "composer.startVoiceMode"),
        Err(MetadataError::CommandMissing)
    );
    assert_eq!(
        extract_app_default_binding(
            &command_source(
                "{id:`composer.startVoiceMode`,shortcutScope:`app`,electron:{defaultKeybindings:[{key:`Ctrl+V`},{key:`Alt+V`}]}}",
            ),
            "composer.startVoiceMode",
        ),
        Err(MetadataError::DefaultBindingAmbiguous)
    );
}

#[test]
fn commands_named_twice_are_ambiguous() {
    let source = "[{id:'composer.startVoiceMode'},{id:\"composer.startVoiceMode\"}]";
    assert_eq!(
        extract_app_default_binding(source, "composer.startVoiceMode"),
        Err(MetadataError::CommandAmbiguous)
    );
}

#[test]
fn rejects_malformed_or_out_of_bounds_archives() {
    assert!(matches!(
        read_binding(&[0_u8; 16], "composer.startVoiceMode"),
        Err(MetadataError::Invalid(_))
    ));
    let mut truncated = asar_bytes(&command_source("{id:`x`}"), "app-initial-fixture.js");
    truncated.truncate(truncated.len() - 3);
    assert_eq!(
        read_binding(&truncated, "x"),
        Err(MetadataError::Invalid(
            "the Codex command bundle extends beyond the archive".to_string()
        ))
    );
}

#[test]
fn header_prefix_shapes_are_checked() {
    let mut prefix = [0_u8; 16];
    prefix[0] = 4;
    prefix[4] = 12;
    prefix[8] = 8;
    prefix[12] = 4;
    assert_eq!(asar_header_layout(&prefix, 100), Ok((4, 20)));
    assert_eq!(
        asar_header_layout(&prefix, 19),
        Err(MetadataError::Invalid(
            "the Codex ASAR header extends beyond the archive".to_string()
        ))
    );
    prefix[12] = 5;
    assert_eq!(
        asar_header_layout(&prefix, 100),
        Err(MetadataError::Invalid(
            "the Codex ASAR header has an unsupported shape".to_string()
        ))
    );
}

#[test]
fn bundle_ranges_are_checked() {
    assert_eq!(bundle_range(100, Some(10), Some("5"), 200), Ok((105, 10)));
    assert_eq!(
        bundle_range(100, None, Some("5"), 200),
        Err(MetadataError::Invalid("the Codex command bundle has no size".to_string()))
    );
    assert_eq!(
        bundle_range(100, Some(10), Some("x"), 200),
        Err(MetadataError::Invalid(
            "the Codex command bundle offset is invalid: invalid digit found in string".to_string()
        ))
    );
    assert_eq!(
        bundle_range(100, Some(10), None, 200),
        Err(MetadataError::Invalid("the Codex command bundle has no offset".to_string()))
    );
    assert_eq!(
        bundle_range(u64::MAX, Some(10), Some("1"), 200),
        Err(MetadataError::Invalid("the Codex bundle offset overflowed".to_string()))
    );
}

#[test]
fn exactly_one_packed_bundle_is_accepted() {
    let file = |name: &str, unpacked: bool| {
        (
            name.to_string(),
            AsarEntry {
                files: Vec::new(),
                size: Some(1),
                offset: Some("0".to_string()),
                unpacked,
            },
        )
    };
    let tree = |assets: Vec<(String, AsarEntry)>| {
        vec![(
            "webview".to_string(),
            AsarEntry {
                files: vec![(
                    "assets".to_string(),
                    AsarEntry {
                        files: assets,
                        size: None,
                        offset: None,
                        unpacked: false,
                    },
                )],
                size: None,
                offset: None,
                unpacked: false,
            },
        )]
    };
    let one = tree(vec![
        file("app-initial-a.js", false),
        file("app-initial-b.js", true),
        file("other.js", false),
    ]);
    assert_eq!(find_command_bundle(&one).expect("one bundle").size, Some(1));
    let two = tree(vec![file("app-initial-a.js", false), file("app-initial-b.js", false)]);
    assert_eq!(
        find_command_bundle(&two).expect_err("two bundles"),
        MetadataError::Invalid("more than one Codex command bundle was found".to_string())
    );
    let none = tree(vec![file("app-initial-a.css", false)]);
    assert_eq!(
        find_command_bundle(&none).expect_err("no bundle"),
        MetadataError::Invalid("the Codex command bundle is missing".to_string())
    );
    assert_eq!(
        find_command_bundle(&Vec::new()).expect_err("no assets"),
        MetadataError::Invalid("the Codex webview assets directory is missing".to_string())
    );
}

#[test]
fn fields_are_read_from_records() {
    let source: Vec<char> = "{a:`x`,b:{c:[1,2]},d:[{e:'y'}]}".chars().collect();
    let marker = |text: &str| text.chars().collect::<Vec<char>>();
    assert_eq!(quoted_field(&source, &marker("a:")), Some(vec!['x']));
    assert_eq!(
        object_field(&source, &marker("b:")).map(|v| v.into_iter().collect::<String>()),
        Some("{c:[1,2]}".to_string())
    );
    assert_eq!(
        array_field(&source, &marker("d:")).map(|v| v.into_iter().collect::<String>()),
        Some("[{e:'y'}]".to_string())
    );
    assert_eq!(quoted_field(&source, &marker("z:")), None);
}

#[test]
fn cache_invalidates_when_the_installed_archive_changes() {
    let archive_path = "/opt/codex/resources/app.asar";
    let command = "composer.startVoiceMode";
    let first = asar_bytes(
        &command_source(
            "{id:`composer.startVoiceMode`,shortcutScope:`app`,electron:{defaultKeybindings:[{key:`Ctrl+V`}]}}",
        ),
        "app-initial-fixture.js",
    );
    let second = asar_bytes(
        &command_source(
            "{id:`composer.startVoiceMode`,shortcutScope:`app`,electron:{defaultKeybindings:[{key:`Alt+Shift+V`}]}}",
        ),
        "app-initial-fixture.js",
    );
    let fingerprint = |bytes: &[u8], secs: u64| ArchiveFingerprint {
        len: bytes.len() as u64,
        modified: Some(ModifiedTime {
            before_epoch: false,
            secs,
            nanos: 0,
        }),
    };

    let mut cache = BindingCache::new();
    let mut read = |bytes: &[u8], fp: ArchiveFingerprint| {
        if let Some(cached) = cache.lookup(archive_path, command, fp) {
            return cached;
        }
        let result = read_binding(bytes, command);
        cache.store(archive_path, command, fp, result.clone());
        result
    };

    assert_eq!(read(&first, fingerprint(&first, 10)), Ok("Ctrl+V".to_string()));
    assert_eq!(read(&second, fingerprint(&first, 10)), Ok("Ctrl+V".to_string()));
    assert_eq!(
        read(&second, fingerprint(&second, 11)),
        Ok("Alt+Shift+V".to_string())
    );
}

#[test]
fn cache_remembers_errors_per_command() {
    let mut cache = BindingCache::new();
    let fp = ArchiveFingerprint {
        len: 5,
        modified: None,
    };
    cache.store("a.asar", "x", fp, Err(MetadataError::CommandMissing));
    cache.store("a.asar", "y", fp, Ok("F3".to_string()));
    assert_eq!(cache.lookup("a.asar", "x", fp), Some(Err(MetadataError::CommandMissing)));
    assert_eq!(cache.lookup("a.asar", "y", fp), Some(Ok("F3".to_string())));
    assert_eq!(cache.lookup("b.asar", "y", fp), None);
    let later = ArchiveFingerprint {
        len: 5,
        modified: Some(ModifiedTime {
            before_epoch: false,
            secs: 1,
            nanos: 0,
        }),
    };
    assert_eq!(cache.lookup("a.asar", "y", later), None);
}

#[test]
fn bundle_bytes_decode_as_utf8_text() {
    assert_eq!(bundle_source_text("id:`é`".as_bytes().to_vec()), Ok("id:`é`".to_string()));
    assert_eq!(bundle_source_text(Vec::new()), Ok(String::new()));
}

#[test]
fn bundle_bytes_that_are_not_utf8_are_an_invalid_archive() {
    let bytes = vec![b'a', 0xff, b'b'];
    let expected = String::from_utf8(bytes.clone()).unwrap_err().to_string();
    assert_eq!(
        bundle_source_text(bytes),
        Err(MetadataError::Invalid(format!("the Codex command bundle is not UTF-8: {expected}")))
    );
    assert_eq!(
        bundle_source_text(vec![0xed, 0xa0, 0x80]),
        Err(MetadataError::Invalid(format!(
            "the Codex command bundle is not UTF-8: {}",
            String::from_utf8(vec![0xed, 0xa0, 0x80]).unwrap_err()
        )))
    );
    assert_eq!(
        bundle_source_from(Err("bad".to_string())),
        Err(MetadataError::Invalid("the Codex command bundle is not UTF-8: bad".to_string()))
    );
}
