use notch_overlay::calendar::Cache;
use notch_overlay::encoding::base64_encode;
use notch_overlay::files::FileTrayItem;
use notch_overlay::haptics::{haptic_pulses, HapticPattern, HapticPulse};
use notch_overlay::media::{init_audio_state, TrackCache};
use notch_overlay::plugins::{
    check_removal, scan_plugins, validate_plugin_folder, ManifestStatus, PluginCandidate, PluginError,
    PluginManifest,
};
use notch_overlay::widgets::WidgetState;

#[test]
fn base64_known_values() {
    assert_eq!(base64_encode(b""), "");
    assert_eq!(base64_encode(b"f"), "Zg==");
    assert_eq!(base64_encode(b"fo"), "Zm8=");
    assert_eq!(base64_encode(b"foo"), "Zm9v");
    assert_eq!(base64_encode(b"foob"), "Zm9vYg==");
    assert_eq!(base64_encode(b"fooba"), "Zm9vYmE=");
    assert_eq!(base64_encode(b"foobar"), "Zm9vYmFy");
    assert_eq!(base64_encode(&[0xfb, 0xff, 0xbf]), "+/+/");
    assert_eq!(base64_encode(&[0, 0, 0]), "AAAA");
}

#[test]
fn track_cache_detects_changes() {
    let mut cache = init_audio_state();
    assert_eq!(cache.get_cached_track(), (None, None, None));
    assert!(cache.is_track_changed(&Some("Song".to_string()), &None));
    assert!(!cache.is_track_changed(&None, &None));
    cache.set_cached_track(Some("Song".to_string()), Some("Band".to_string()), Some("art".to_string()));
    assert!(!cache.is_track_changed(&Some("Song".to_string()), &Some("Band".to_string())));
    assert!(cache.is_track_changed(&Some("Song".to_string()), &Some("Other".to_string())));
    assert!(cache.is_track_changed(&Some("Next".to_string()), &Some("Band".to_string())));
    assert_eq!(
        cache.get_cached_track(),
        (Some("Song".to_string()), Some("Band".to_string()), Some("art".to_string()))
    );
    let fresh = TrackCache::new();
    assert!(fresh.title.is_none() && fresh.artwork.is_none());
}

#[test]
fn cache_validity_window() {
    let c = Cache::new(vec![1, 2, 3], 10_000);
    assert_eq!(c.data, vec![1, 2, 3]);
    assert!(c.is_valid(10_000, 1));
    assert!(c.is_valid(10_999, 1_000));
    assert!(!c.is_valid(11_000, 1_000));
    assert!(!c.is_valid(9_999, 1_000));
    assert!(!c.is_valid(10_000, 0));
}

#[test]
fn haptic_patterns_map_to_pulses() {
    let p = |feedback, performance_time, pause_after_ms| HapticPulse { feedback, performance_time, pause_after_ms };
    assert_eq!(haptic_pulses(HapticPattern::Generic), vec![p(0, 1, 0)]);
    assert_eq!(haptic_pulses(HapticPattern::Alignment), vec![p(1, 1, 0)]);
    assert_eq!(haptic_pulses(HapticPattern::LevelChange), vec![p(2, 1, 0)]);
    assert_eq!(haptic_pulses(HapticPattern::Light), vec![p(1, 1, 0)]);
    assert_eq!(haptic_pulses(HapticPattern::Medium), vec![p(0, 1, 0)]);
    assert_eq!(haptic_pulses(HapticPattern::Heavy), vec![p(2, 1, 0)]);
    assert_eq!(haptic_pulses(HapticPattern::Selection), vec![p(1, 0, 0)]);
    assert_eq!(haptic_pulses(HapticPattern::Success), vec![p(1, 1, 50), p(0, 1, 0)]);
    assert_eq!(haptic_pulses(HapticPattern::Error), vec![p(2, 1, 40), p(2, 1, 40), p(2, 1, 0)]);
}

fn manifest(id: &str) -> PluginManifest {
    PluginManifest {
        id: id.to_string(),
        name: format!("Plugin {id}"),
        version: "1.0.0".to_string(),
        description: String::new(),
        author: None,
        main: "index.js".to_string(),
        category: "tools".to_string(),
        min_width: Some(200),
        has_compact_mode: false,
        compact_priority: None,
        permissions: vec!["network".to_string()],
    }
}

fn candidate(dir: &str, is_dir: bool, manifest: ManifestStatus, bundle_exists: bool) -> PluginCandidate {
    PluginCandidate {
        plugin_dir: dir.to_string(),
        is_dir,
        manifest,
        bundle_path: format!("{dir}/index.js"),
        bundle_exists,
    }
}

#[test]
fn plugin_validation_errors() {
    let e = |m, b| validate_plugin_folder(candidate("/p/a", true, m, b)).unwrap_err();
    assert_eq!(e(ManifestStatus::Missing, true), PluginError::ManifestMissing);
    assert_eq!(e(ManifestStatus::Unreadable, true), PluginError::ManifestUnreadable);
    assert_eq!(e(ManifestStatus::Invalid, true), PluginError::ManifestInvalid);
    assert_eq!(e(ManifestStatus::Parsed(manifest("a")), false), PluginError::BundleMissing);
    let ok = validate_plugin_folder(candidate("/p/a", true, ManifestStatus::Parsed(manifest("a")), true)).unwrap();
    assert_eq!(ok.manifest.id, "a");
    assert_eq!(ok.bundle_path, "/p/a/index.js");
    assert_eq!(ok.plugin_dir, "/p/a");
}

#[test]
fn plugin_scan_keeps_usable_folders_in_order() {
    let entries = vec![
        candidate("/p/one", true, ManifestStatus::Parsed(manifest("one")), true),
        candidate("/p/file", false, ManifestStatus::Parsed(manifest("file")), true),
        candidate("/p/nobundle", true, ManifestStatus::Parsed(manifest("nobundle")), false),
        candidate("/p/broken", true, ManifestStatus::Invalid, true),
        candidate("/p/two", true, ManifestStatus::Parsed(manifest("two")), true),
    ];
    let found = scan_plugins(entries);
    let ids: Vec<&str> = found.iter().map(|p| p.manifest.id.as_str()).collect();
    assert_eq!(ids, vec!["one", "two"]);
    assert!(scan_plugins(Vec::new()).is_empty());
}

#[test]
fn plugin_removal_checks() {
    assert_eq!(check_removal(false, false, false), Err(PluginError::NotFound));
    assert_eq!(check_removal(true, false, true), Err(PluginError::NotADirectory));
    assert_eq!(check_removal(true, true, false), Err(PluginError::OutsidePluginsDir));
    assert_eq!(check_removal(true, true, true), Ok(()));
}

#[test]
fn plain_records() {
    let item = FileTrayItem {
        name: "a.txt".to_string(),
        size: 3,
        path: "/tmp/a.txt".to_string(),
        mime_type: "text/plain".to_string(),
        last_modified: 1,
    };
    assert_eq!(item.clone().size, 3);
    let w = WidgetState::default();
    assert!(w.enabled.is_empty());
    assert!(WidgetState::new().enabled.is_empty());
}
