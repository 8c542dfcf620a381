use bar_minimal_tools::headset::{
    check_icue_sdk, get_headset_data, get_sdk_path, BatteryTracker, EqualizerPreset,
    HeadsetData, HeadsetFeatures, HeadsetReadings, HeadsetStatus, IcueSdkStatus, SdkCandidate,
    SdkLocation, SdkProbe, CHARGING_GRACE_MS,
};

fn readings(level: Option<i32>) -> HeadsetReadings {
    HeadsetReadings {
        model: "CORSAIR VOID RGB ELITE".to_string(),
        device_id: "{a1}".to_string(),
        led_count: 2,
        has_battery: true,
        has_mic: true,
        battery_level: level,
        mic_enabled: Some(true),
    }
}

fn id() -> String {
    "{a1}".to_string()
}

#[test]
fn equalizer_presets_are_numbered_one_to_five() {
    assert_eq!(EqualizerPreset::from(1), EqualizerPreset::Pure);
    assert_eq!(EqualizerPreset::from(2), EqualizerPreset::Bass);
    assert_eq!(EqualizerPreset::from(3), EqualizerPreset::Movie);
    assert_eq!(EqualizerPreset::from(4), EqualizerPreset::FPS);
    assert_eq!(EqualizerPreset::from(5), EqualizerPreset::Custom);
    assert_eq!(EqualizerPreset::from(0), EqualizerPreset::Pure);
    assert_eq!(EqualizerPreset::from(6), EqualizerPreset::Pure);
    assert_eq!(EqualizerPreset::from(-3), EqualizerPreset::Pure);
    for n in 1..=5 {
        assert_eq!(EqualizerPreset::from(n).number(), n);
    }
}

#[test]
fn default_headset_is_disconnected_and_empty() {
    let d = HeadsetData::default();
    assert_eq!(
        d,
        HeadsetData {
            name: String::new(),
            device_id: String::new(),
            battery_percent: 0,
            status: HeadsetStatus::Disconnected,
            is_charging: false,
            sdk_available: false,
            mic_enabled: false,
            surround_sound_enabled: false,
            sidetone_enabled: false,
            equalizer_preset: 1,
            led_count: 0,
            supported_features: HeadsetFeatures::default(),
        }
    );
    assert!(!HeadsetFeatures::default().has_battery);
    assert!(!HeadsetFeatures::default().has_lighting);
}

#[test]
fn without_a_device_the_record_is_empty() {
    let mut tracker = BatteryTracker::new();
    assert_eq!(get_headset_data(&SdkProbe::Unavailable, &mut tracker, 5), HeadsetData::default());
    for probe in [SdkProbe::FunctionsMissing, SdkProbe::DevicesFailed, SdkProbe::NoDevice] {
        let d = get_headset_data(&probe, &mut tracker, 5);
        assert_eq!(d, HeadsetData { sdk_available: true, ..HeadsetData::default() });
    }
}

#[test]
fn connected_headset_is_shown_with_its_readings() {
    let mut tracker = BatteryTracker::new();
    let d = get_headset_data(&SdkProbe::Device(readings(Some(64))), &mut tracker, 1_000);
    assert_eq!(
        d,
        HeadsetData {
            name: "CORSAIR VOID RGB ELITE".to_string(),
            device_id: "{a1}".to_string(),
            battery_percent: 64,
            status: HeadsetStatus::Connected,
            is_charging: false,
            sdk_available: true,
            mic_enabled: true,
            surround_sound_enabled: false,
            sidetone_enabled: false,
            equalizer_preset: 1,
            led_count: 2,
            supported_features: HeadsetFeatures {
                has_battery: true,
                has_mic_toggle: true,
                has_surround_sound: false,
                has_sidetone: false,
                has_equalizer: false,
                has_lighting: true,
            },
        }
    );
}

#[test]
fn battery_level_is_held_to_percent_and_missing_readings_are_off() {
    let mut tracker = BatteryTracker::new();
    let mut r = readings(Some(250));
    r.model = String::new();
    r.mic_enabled = None;
    r.led_count = 0;
    let d = get_headset_data(&SdkProbe::Device(r), &mut tracker, 0);
    assert_eq!(d.battery_percent, 100);
    assert_eq!(d.name, "Corsair Headset");
    assert!(!d.mic_enabled);
    assert!(!d.supported_features.has_lighting);
    let d = get_headset_data(&SdkProbe::Device(readings(Some(-4))), &mut tracker, 0);
    assert_eq!(d.battery_percent, 0);
    assert_eq!(d.status, HeadsetStatus::Disconnected);
    let d = get_headset_data(&SdkProbe::Device(readings(None)), &mut tracker, 0);
    assert_eq!(d.battery_percent, 0);
    assert_eq!(d.status, HeadsetStatus::Disconnected);
}

#[test]
fn rising_battery_level_means_charging_for_a_grace_period() {
    let mut tracker = BatteryTracker::new();
    assert!(!tracker.infer_is_charging(&id(), 50, 0));
    assert!(tracker.infer_is_charging(&id(), 51, 10_000));
    // Level unchanged, still within 90 s of the rise.
    assert!(tracker.infer_is_charging(&id(), 51, 99_999));
    // Each poll that finds the headset charging renews the grace period.
    assert!(tracker.infer_is_charging(&id(), 51, 99_999 + CHARGING_GRACE_MS - 1));
    assert!(!tracker.infer_is_charging(&id(), 51, 99_999 + 2 * CHARGING_GRACE_MS));
    assert!(!tracker.infer_is_charging(&id(), 51, 99_999 + 2 * CHARGING_GRACE_MS + 1));
    assert_eq!(CHARGING_GRACE_MS, 90_000);
}

#[test]
fn grace_period_ends_exactly_after_ninety_seconds() {
    let mut tracker = BatteryTracker::new();
    tracker.infer_is_charging(&id(), 50, 0);
    assert!(tracker.infer_is_charging(&id(), 60, 1_000));
    let mut at_the_end = BatteryTracker::new();
    at_the_end.infer_is_charging(&id(), 50, 0);
    at_the_end.infer_is_charging(&id(), 60, 1_000);
    assert!(!at_the_end.infer_is_charging(&id(), 60, 91_000));
    assert!(tracker.infer_is_charging(&id(), 60, 90_999));
}

#[test]
fn full_or_silent_battery_is_not_charging() {
    let mut tracker = BatteryTracker::new();
    tracker.infer_is_charging(&id(), 98, 0);
    assert!(tracker.infer_is_charging(&id(), 99, 1));
    assert!(!tracker.infer_is_charging(&id(), 100, 2));
    // The rise to 100 ended the grace period.
    assert!(!tracker.infer_is_charging(&id(), 99, 3));
    tracker.infer_is_charging(&id(), 50, 4);
    assert!(!tracker.infer_is_charging(&id(), 0, 5));
    assert!(tracker.infer_is_charging(&id(), 1, 6));
}

#[test]
fn devices_are_tracked_apart() {
    let mut tracker = BatteryTracker::new();
    let other = "{b2}".to_string();
    tracker.infer_is_charging(&id(), 50, 0);
    tracker.infer_is_charging(&other, 80, 0);
    assert!(tracker.infer_is_charging(&id(), 55, 1));
    assert!(!tracker.infer_is_charging(&other, 80, 2));
    assert!(!tracker.infer_is_charging(&other, 70, 3));
    assert!(tracker.infer_is_charging(&other, 71, 4));
    assert!(tracker.infer_is_charging(&id(), 55, 5));
}

#[test]
fn charging_headset_is_shown_as_charging() {
    let mut tracker = BatteryTracker::new();
    get_headset_data(&SdkProbe::Device(readings(Some(40))), &mut tracker, 0);
    let d = get_headset_data(&SdkProbe::Device(readings(Some(42))), &mut tracker, 5_000);
    assert!(d.is_charging);
    assert_eq!(d.status, HeadsetStatus::Charging);
    assert_eq!(d.battery_percent, 42);
}

#[test]
fn battery_is_not_followed_without_identifier_or_battery() {
    let mut tracker = BatteryTracker::new();
    let mut nameless = readings(Some(40));
    nameless.device_id = String::new();
    get_headset_data(&SdkProbe::Device(nameless.clone()), &mut tracker, 0);
    nameless.battery_level = Some(50);
    let d = get_headset_data(&SdkProbe::Device(nameless), &mut tracker, 1);
    assert!(!d.is_charging);
    assert_eq!(d.status, HeadsetStatus::Connected);
    let mut wired = readings(Some(40));
    wired.has_battery = false;
    get_headset_data(&SdkProbe::Device(wired.clone()), &mut tracker, 2);
    wired.battery_level = Some(50);
    let d = get_headset_data(&SdkProbe::Device(wired), &mut tracker, 3);
    assert!(!d.is_charging);
    // Nothing was remembered for the device, so a first tracked poll is not charging.
    let d = get_headset_data(&SdkProbe::Device(readings(Some(60))), &mut tracker, 4);
    assert!(!d.is_charging);
}

#[test]
fn sdk_path_is_that_of_the_first_candidate_found() {
    let candidates = vec![
        SdkCandidate { path: "a.dll".to_string(), canonical: None, exists: false },
        SdkCandidate { path: "b.dll".to_string(), canonical: None, exists: true },
        SdkCandidate { path: "c.dll".to_string(), canonical: Some("C:\\c.dll".to_string()), exists: true },
    ];
    assert_eq!(get_sdk_path(&candidates), Some("b.dll".to_string()));
    let candidates = vec![
        SdkCandidate { path: "c.dll".to_string(), canonical: Some("C:\\c.dll".to_string()), exists: false },
        SdkCandidate { path: "b.dll".to_string(), canonical: None, exists: true },
    ];
    assert_eq!(get_sdk_path(&candidates), Some("C:\\c.dll".to_string()));
    let none = vec![SdkCandidate { path: "a.dll".to_string(), canonical: None, exists: false }];
    assert_eq!(get_sdk_path(&none), None);
    assert_eq!(get_sdk_path(&vec![]), None);
}

#[test]
fn sdk_status_tells_place_and_version() {
    let running = "Image Name  PID\niCUE.exe  4312 Console";
    let bundled = check_icue_sdk(running, &SdkLocation::Bundled("libs\\iCUESDK\\iCUESDK.x64_2019.dll".to_string()));
    assert_eq!(
        bundled,
        IcueSdkStatus {
            installed: true,
            sdk_path: Some("libs\\iCUESDK\\iCUESDK.x64_2019.dll".to_string()),
            icue_running: true,
            error: None,
            version: Some("4.x (bundled)".to_string()),
        }
    );
    let service = check_icue_sdk("INFO: No tasks", &SdkLocation::Service("C:\\x.dll".to_string()));
    assert!(!service.icue_running);
    assert_eq!(service.version, Some("4.x".to_string()));
    assert_eq!(service.sdk_path, Some("C:\\x.dll".to_string()));
    for (directory, version) in [
        ("C:\\Program Files\\Corsair\\CORSAIR iCUE 5 Software", Some("5.x")),
        ("C:\\Program Files (x86)\\Corsair\\CORSAIR iCUE 4 Software", Some("4.x")),
        ("C:\\Program Files\\Corsair\\Corsair Utility Engine", None),
    ] {
        let file = format!("{directory}\\iCUESDK.x64_2019.dll");
        let status = check_icue_sdk(
            running,
            &SdkLocation::Installed { directory: directory.to_string(), file: file.clone() },
        );
        assert!(status.installed);
        assert_eq!(status.sdk_path, Some(file));
        assert_eq!(status.version, version.map(|v| v.to_string()));
        assert_eq!(status.error, None);
    }
}

#[test]
fn missing_sdk_is_reported_with_a_message() {
    let status = check_icue_sdk("", &SdkLocation::Missing);
    assert_eq!(
        status,
        IcueSdkStatus {
            installed: false,
            sdk_path: None,
            icue_running: false,
            error: Some("iCUE SDK not found. Please install iCUE from corsair.com".to_string()),
            version: None,
        }
    );
}
