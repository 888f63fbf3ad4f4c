use tdu2_runtime_patch::config::{
    config_key_name, default_config_file, parse_bool, parse_patch_config, render_config_file,
    ConfigKey, ConfigNoticeKind, PatchConfig, DEFAULT_STARTUP_DELAY_SECONDS,
};

fn defaults() -> PatchConfig {
    PatchConfig::default()
}

#[test]
fn default_config_values() {
    let c = defaults();
    assert!(c.anti_tamper_enabled);
    assert!(c.camera_fix_enabled);
    assert!(c.camera_shake_fix_enabled);
    assert!(c.dlc_car_dealer_fix_enabled);
    assert_eq!(c.startup_delay_seconds, 3);
    assert_eq!(DEFAULT_STARTUP_DELAY_SECONDS, 3);
    assert!(c.fov_enabled);
    assert!(!c.d3d9_overlay_enabled);
}

#[test]
fn parse_bool_accepts_documented_words() {
    for word in ["1", "true", "yes", "on"] {
        assert_eq!(parse_bool(word), Some(true), "{word}");
    }
    for word in ["0", "false", "no", "off"] {
        assert_eq!(parse_bool(word), Some(false), "{word}");
    }
}

#[test]
fn parse_bool_ignores_case_and_surrounding_space() {
    assert_eq!(parse_bool("  TRUE "), Some(true));
    assert_eq!(parse_bool("\tYes\r"), Some(true));
    assert_eq!(parse_bool("Off"), Some(false));
    assert_eq!(parse_bool("\u{3000}no\u{a0}"), Some(false));
}

#[test]
fn parse_bool_rejects_other_words() {
    assert_eq!(parse_bool(""), None);
    assert_eq!(parse_bool("2"), None);
    assert_eq!(parse_bool("enabled"), None);
    assert_eq!(parse_bool("t rue"), None);
    assert_eq!(parse_bool("truee"), None);
}

#[test]
fn readme_example_config() {
    let text = "[Patch]\nAntiTamperEnabled = 1\nDlcCarDealerFixEnabled = 1\nCameraFixEnabled = 1\nCameraShakeFixEnabled = 1\nStartupDelaySeconds = 5\n\n[FOV]\nEnabled = 1\nMultiplier = 1.2\n\n[Overlay]\nD3D9OverlayEnabled = 0\n";
    let parsed = parse_patch_config(text);
    assert!(parsed.config.anti_tamper_enabled);
    assert!(parsed.config.dlc_car_dealer_fix_enabled);
    assert!(parsed.config.camera_fix_enabled);
    assert!(parsed.config.camera_shake_fix_enabled);
    assert_eq!(parsed.config.startup_delay_seconds, 5);
    assert!(parsed.config.fov_enabled);
    assert!(!parsed.config.d3d9_overlay_enabled);
    assert_eq!(parsed.notices.len(), 1);
    let n = &parsed.notices[0];
    assert_eq!(n.line, 10);
    assert_eq!(n.key, ConfigKey::FovMultiplier);
    assert_eq!(n.kind, ConfigNoticeKind::FovMultiplierValue);
    assert_eq!(n.value, "1.2");
}

#[test]
fn empty_config_gives_defaults() {
    let parsed = parse_patch_config("");
    assert_eq!(parsed.config, defaults());
    assert!(parsed.notices.is_empty());
}

#[test]
fn anti_tamper_cannot_be_disabled() {
    let parsed = parse_patch_config("[Patch]\nAntiTamperEnabled = 0\n");
    assert!(parsed.config.anti_tamper_enabled);
    assert_eq!(parsed.notices.len(), 1);
    assert_eq!(parsed.notices[0].kind, ConfigNoticeKind::AntiTamperForced);
    assert_eq!(parsed.notices[0].key, ConfigKey::AntiTamperEnabled);
    assert_eq!(parsed.notices[0].line, 2);
    assert_eq!(parsed.notices[0].value, "0");
}

#[test]
fn invalid_values_are_reported_and_ignored() {
    let parsed = parse_patch_config(
        "[Patch]\nCameraFixEnabled = maybe\nStartupDelaySeconds = -1\nStartupDelaySeconds = 99999999999999999999999\n[FOV]\nEnabled = 2\n",
    );
    assert_eq!(parsed.config, defaults());
    let kinds: Vec<(usize, ConfigKey, ConfigNoticeKind, String)> = parsed
        .notices
        .iter()
        .map(|n| (n.line, n.key, n.kind, n.value.clone()))
        .collect();
    assert_eq!(
        kinds,
        vec![
            (2, ConfigKey::CameraFixEnabled, ConfigNoticeKind::InvalidBool, "maybe".to_string()),
            (3, ConfigKey::StartupDelaySeconds, ConfigNoticeKind::InvalidInteger, "-1".to_string()),
            (
                4,
                ConfigKey::StartupDelaySeconds,
                ConfigNoticeKind::InvalidInteger,
                "99999999999999999999999".to_string()
            ),
            (6, ConfigKey::FovEnabled, ConfigNoticeKind::InvalidBool, "2".to_string()),
        ]
    );
}

#[test]
fn comments_and_case_and_aliases() {
    let parsed = parse_patch_config(
        "; leading comment\n# another\n  [ pAtCh ]  ; section comment\ncamerafixENABLED = off # trailing\nstartupdelayseconds=+7;x\n[fov]\nmult = 0.9\n",
    );
    assert!(!parsed.config.camera_fix_enabled);
    assert_eq!(parsed.config.startup_delay_seconds, 7);
    assert_eq!(parsed.notices.len(), 1);
    assert_eq!(parsed.notices[0].line, 7);
    assert_eq!(parsed.notices[0].value, "0.9");
}

#[test]
fn unsectioned_keys_and_unknown_sections() {
    let parsed = parse_patch_config(
        "fovenabled = no\nFovMultiplier = 1.5\n[Other]\nCameraFixEnabled = 0\n",
    );
    assert!(!parsed.config.fov_enabled);
    assert!(parsed.config.camera_fix_enabled);
    assert_eq!(parsed.notices.len(), 1);
    assert_eq!(parsed.notices[0].key, ConfigKey::FovMultiplier);
    assert_eq!(parsed.notices[0].value, "1.5");
}

#[test]
fn later_assignment_wins() {
    let parsed = parse_patch_config(
        "[Patch]\nStartupDelaySeconds = 10\nStartupDelaySeconds = 20\nCameraShakeFixEnabled = 0\nCameraShakeFixEnabled = 1\n",
    );
    assert_eq!(parsed.config.startup_delay_seconds, 20);
    assert!(parsed.config.camera_shake_fix_enabled);
}

#[test]
fn lines_without_equals_and_crlf() {
    let parsed = parse_patch_config("[Patch]\r\nnonsense line\r\nCameraFixEnabled = no\r\n[Overlay]\r\nD3D9OverlayEnabled = yes");
    assert!(!parsed.config.camera_fix_enabled);
    assert!(parsed.config.d3d9_overlay_enabled);
    assert!(parsed.notices.is_empty());
}

#[test]
fn value_after_first_equals() {
    let parsed = parse_patch_config("[FOV]\nMultiplier = a=b\n");
    assert_eq!(parsed.notices[0].value, "a=b");
}

#[test]
fn rendered_default_settings_text() {
    let text = render_config_file(&defaults(), "1.2");
    assert_eq!(
        text,
        "[Patch]\nAntiTamperEnabled = 1\nDlcCarDealerFixEnabled = 1\nCameraFixEnabled = 1\nCameraShakeFixEnabled = 1\nStartupDelaySeconds = 3\n\n[FOV]\nEnabled = 1\nMultiplier = 1.2\n\n[Overlay]\nD3D9OverlayEnabled = 0\n"
    );
}

#[test]
fn rendered_default_settings_read_back() {
    let text = render_config_file(&defaults(), "1.2");
    let parsed = parse_patch_config(&text);
    assert_eq!(parsed.config, defaults());
    assert_eq!(parsed.notices.len(), 1);
    assert_eq!(parsed.notices[0].kind, ConfigNoticeKind::FovMultiplierValue);
    assert_eq!(parsed.notices[0].value, "1.2");
}

#[test]
fn rendered_config_reads_back() {
    let c = PatchConfig {
        anti_tamper_enabled: true,
        camera_fix_enabled: false,
        camera_shake_fix_enabled: false,
        dlc_car_dealer_fix_enabled: false,
        startup_delay_seconds: u64::MAX,
        fov_enabled: false,
        d3d9_overlay_enabled: true,
    };
    let parsed = parse_patch_config(&render_config_file(&c, "0.75"));
    assert_eq!(parsed.config, c);
    assert_eq!(parsed.notices[0].value, "0.75");
}

#[test]
fn setting_names_in_messages() {
    assert_eq!(config_key_name(ConfigKey::AntiTamperEnabled), "AntiTamperEnabled");
    assert_eq!(config_key_name(ConfigKey::StartupDelaySeconds), "StartupDelaySeconds");
    assert_eq!(config_key_name(ConfigKey::FovEnabled), "FOV enabled");
    assert_eq!(config_key_name(ConfigKey::FovMultiplier), "FOV multiplier");
    assert_eq!(config_key_name(ConfigKey::D3d9OverlayEnabled), "D3D9OverlayEnabled");
}

#[test]
fn commented_setting_changes_nothing() {
    let base = "[Patch]\nCameraFixEnabled = 1\n";
    let with_comment = "[Patch]\nCameraFixEnabled = 1\n; CameraFixEnabled = 0\n# StartupDelaySeconds = 9\n";
    let a = parse_patch_config(base);
    let b = parse_patch_config(with_comment);
    assert_eq!(a.config, b.config);
    assert_eq!(a.notices.len(), b.notices.len());
}

#[test]
fn default_config_file_text() {
    assert_eq!(
        default_config_file(),
        "[Patch]\nAntiTamperEnabled = 1\nCameraFixEnabled = 1\nStartupDelaySeconds = 3\n\n[FOV]\nEnabled = 1\nMultiplier = 1.2\n"
    );
}

#[test]
fn default_config_file_reads_back() {
    let parsed = parse_patch_config(&default_config_file());
    assert_eq!(parsed.config, defaults());
    assert_eq!(parsed.notices.len(), 1);
    assert_eq!(parsed.notices[0].line, 8);
    assert_eq!(parsed.notices[0].key, ConfigKey::FovMultiplier);
    assert_eq!(parsed.notices[0].kind, ConfigNoticeKind::FovMultiplierValue);
    assert_eq!(parsed.notices[0].value, "1.2");
}

#[test]
fn appended_setting_wins_after_any_text() {
    for c in ["", "[FOV]\nEnabled = 0", "[Patch]\nCameraFixEnabled = 1\nStartupDelaySeconds = 9\n", "x = 1 ; trailing"] {
        let before = parse_patch_config(c);
        let after = parse_patch_config(&format!("{c}\n[Patch]\nCameraFixEnabled = 0\n"));
        assert_eq!(after.config, PatchConfig { camera_fix_enabled: false, ..before.config });
        assert_eq!(after.notices.len(), before.notices.len());
    }
}
