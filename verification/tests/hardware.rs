use bar_minimal_tools::hardware::{
    gpu_vendor, query_nvidia_gpu, query_storage, storage_totals, used_bytes,
    vendor_from_lowercase, CachedDriveInfo, DiskRow, NvidiaGpuData, NvidiaReadings, QueryValue,
};

fn text(s: &str) -> QueryValue {
    QueryValue::Text(s.to_string())
}

fn drive(letter: &str, total: u64, free: u64) -> CachedDriveInfo {
    CachedDriveInfo {
        letter: letter.to_string(),
        label: String::new(),
        file_system: "NTFS".to_string(),
        total_bytes: total,
        free_bytes: free,
    }
}

#[test]
fn graphics_card_record_is_empty_by_default() {
    assert_eq!(
        NvidiaGpuData::default(),
        NvidiaGpuData {
            name: String::new(),
            temperature_c: 0,
            usage_percent: 0,
            memory_used_mb: 0,
            memory_total_mb: 0,
            power_draw_w: 0,
            fan_speed_percent: 0,
            available: false,
        }
    );
}

#[test]
fn driver_readings_are_put_in_megabytes_and_watts() {
    let readings = NvidiaReadings {
        name: Some("NVIDIA GeForce RTX 4070".to_string()),
        temperature_c: Some(61),
        gpu_utilization: Some(37),
        memory: Some((3 * 1024 * 1024 * 1024 + 1024 * 1024 - 1, 12 * 1024 * 1024 * 1024)),
        power_milliwatts: Some(145_999),
        fan_speed_percent: Some(40),
    };
    assert_eq!(
        query_nvidia_gpu(&readings),
        NvidiaGpuData {
            name: "NVIDIA GeForce RTX 4070".to_string(),
            temperature_c: 61,
            usage_percent: 37,
            memory_used_mb: 3072,
            memory_total_mb: 12288,
            power_draw_w: 145,
            fan_speed_percent: 40,
            available: true,
        }
    );
}

#[test]
fn failed_readings_are_zero_but_the_card_is_available() {
    let readings = NvidiaReadings {
        name: None,
        temperature_c: None,
        gpu_utilization: None,
        memory: None,
        power_milliwatts: None,
        fan_speed_percent: None,
    };
    assert_eq!(query_nvidia_gpu(&readings), NvidiaGpuData { available: true, ..NvidiaGpuData::default() });
}

#[test]
fn vendor_is_told_from_the_name() {
    assert_eq!(gpu_vendor("NVIDIA GeForce RTX 4070"), "NVIDIA");
    assert_eq!(gpu_vendor("nvidia quadro"), "NVIDIA");
    assert_eq!(gpu_vendor("AMD Radeon RX 7800"), "AMD");
    assert_eq!(gpu_vendor("Radeon Pro"), "AMD");
    assert_eq!(gpu_vendor("Intel(R) UHD Graphics 770"), "Intel");
    assert_eq!(gpu_vendor("Microsoft Basic Display Adapter"), "Unknown");
    assert_eq!(gpu_vendor(""), "Unknown");
    assert_eq!(gpu_vendor("Intel with NVIDIA Optimus"), "NVIDIA");
}

#[test]
fn drives_are_read_from_the_rows_of_the_query() {
    let rows = vec![
        DiskRow {
            device_id: text("C:"),
            volume_name: text("System"),
            file_system: text("NTFS"),
            size: text("512000000000"),
            free_space: QueryValue::UI8(128_000_000_000),
        },
        DiskRow {
            device_id: QueryValue::Other,
            volume_name: text("Ghost"),
            file_system: text("NTFS"),
            size: QueryValue::UI8(1),
            free_space: QueryValue::UI8(1),
        },
        DiskRow {
            device_id: text("D:"),
            volume_name: QueryValue::Other,
            file_system: QueryValue::Other,
            size: QueryValue::UI4(4_000_000_000),
            free_space: text("oops"),
        },
    ];
    assert_eq!(
        query_storage(&rows),
        vec![
            CachedDriveInfo {
                letter: "C:".to_string(),
                label: "System".to_string(),
                file_system: "NTFS".to_string(),
                total_bytes: 512_000_000_000,
                free_bytes: 128_000_000_000,
            },
            CachedDriveInfo {
                letter: "D:".to_string(),
                label: String::new(),
                file_system: "Unknown".to_string(),
                total_bytes: 4_000_000_000,
                free_bytes: 0,
            },
        ]
    );
    assert!(query_storage(&vec![]).is_empty());
}

#[test]
fn sizes_are_read_from_every_kind_of_number() {
    let sizes = [
        (QueryValue::UI8(u64::MAX), u64::MAX),
        (QueryValue::I8(7), 7),
        (QueryValue::I8(-1), u64::MAX),
        (QueryValue::UI4(u32::MAX), 4_294_967_295),
        (QueryValue::I4(-2), u64::MAX - 1),
        (QueryValue::I4(9), 9),
        (QueryValue::UI2(65_535), 65_535),
        (QueryValue::I2(-3), u64::MAX - 2),
        (QueryValue::I2(11), 11),
        (text("18446744073709551615"), u64::MAX),
        (text("18446744073709551616"), 0),
        (text("+15"), 15),
        (text("-15"), 0),
        (text(""), 0),
        (text("1 000"), 0),
        (QueryValue::Other, 0),
    ];
    for (value, expected) in sizes {
        let rows = vec![DiskRow {
            device_id: text("C:"),
            volume_name: QueryValue::Other,
            file_system: QueryValue::Other,
            size: value.clone(),
            free_space: QueryValue::Other,
        }];
        assert_eq!(query_storage(&rows)[0].total_bytes, expected, "{value:?}");
    }
}

#[test]
fn used_space_is_size_less_free_and_never_negative() {
    assert_eq!(used_bytes(&drive("C:", 500, 120)), 380);
    assert_eq!(used_bytes(&drive("C:", 500, 500)), 0);
    assert_eq!(used_bytes(&drive("C:", 500, 501)), 0);
    assert_eq!(used_bytes(&drive("C:", 0, 0)), 0);
}

#[test]
fn totals_add_up_over_all_drives() {
    let drives = vec![drive("C:", 500, 120), drive("D:", 2000, 1500), drive("E:", 1, 0)];
    assert_eq!(storage_totals(&drives), (2501, 1620));
    assert_eq!(storage_totals(&vec![]), (0, 0));
    let huge = vec![drive("C:", u64::MAX - 1, 5), drive("D:", 7, u64::MAX)];
    assert_eq!(storage_totals(&huge), (u64::MAX, u64::MAX));
}

#[test]
fn vendor_in_lowercase_is_searched_as_it_is() {
    assert_eq!(vendor_from_lowercase("nvidia geforce"), "NVIDIA");
    assert_eq!(vendor_from_lowercase("amd radeon"), "AMD");
    assert_eq!(vendor_from_lowercase("radeon"), "AMD");
    assert_eq!(vendor_from_lowercase("intel arc"), "Intel");
    assert_eq!(vendor_from_lowercase("NVIDIA GeForce"), "Unknown");
}
