use rs_sysctl_typed_cpu::{CPUInfo, Registry};

fn set_text(reg: &mut Registry, key: &str, value: &str) {
    reg.set(key.to_string(), Some(value.to_string()));
}

/// A registry exposing every catalog key with plausible hardware values,
/// including one full performance level.
fn populated_registry() -> Registry {
    let mut reg = Registry::new();
    set_text(&mut reg, "machdep.cpu.brand_string", "Example CPU");
    set_text(&mut reg, "machdep.cpu.vendor", "ExampleVendor");
    set_text(&mut reg, "machdep.cpu.feature_bits", "12345");
    set_text(&mut reg, "hw.physicalcpu", "8");
    set_text(&mut reg, "hw.logicalcpu", "16");
    set_text(&mut reg, "hw.physicalcpu_max", "8");
    set_text(&mut reg, "hw.logicalcpu_max", "16");
    set_text(&mut reg, "hw.cpufrequency", "2400000000");
    set_text(&mut reg, "hw.perflevel0.l1icachesize", "131072");
    set_text(&mut reg, "hw.perflevel0.l1dcachesize", "65536");
    set_text(&mut reg, "hw.perflevel0.l2cachesize", "4194304");
    set_text(&mut reg, "hw.perflevel0.l3cachesize", "0");
    set_text(&mut reg, "hw.perflevel0.cpusperl2", "4");
    set_text(&mut reg, "hw.perflevel0.cpusperl3", "0");
    reg
}

#[test]
fn test_cpu_info_creation() {
    // This test ensures that the CPUInfo::new() function can be called without panicking.
    // It's a basic smoke test to ensure that the sysctl calls are not failing in a way
    // that causes a crash.
    let _cpu_info = CPUInfo::new();
}

#[test]
fn test_cpu_info_population() {
    // This test checks that the CPUInfo struct is populated with some data,
    // resolved against a registry that exposes the full key catalog.
    let cpu_info = CPUInfo::from_registry(&populated_registry());

    // Check CPUCoreCounts
    assert!(
        cpu_info.core_counts.physical > 0,
        "Physical cores should be greater than 0"
    );
    assert!(
        cpu_info.core_counts.logical > 0,
        "Logical cores should be greater than 0"
    );
    assert!(
        cpu_info.core_counts.max_physical > 0,
        "Max physical cores should be greater than 0"
    );
    assert!(
        cpu_info.core_counts.max_logical > 0,
        "Max logical cores should be greater than 0"
    );

    // Check CPUFrequency - this might be 0 on some systems, so we don't assert > 0
    // We just ensure it's there.
    assert!(
        cpu_info.frequency.hz >= 0,
        "Frequency should be a non-negative number"
    );

    // If there are performance levels, check their contents
    for level in &cpu_info.performance_levels {
        assert!(level.id >= 0, "Performance level ID should be non-negative");

        // Check CacheInfo
        assert!(
            level.cache.l1_instruction_bytes > 0,
            "L1i cache size should be greater than 0"
        );
        assert!(
            level.cache.l1_data_bytes > 0,
            "L1d cache size should be greater than 0"
        );
        assert!(
            level.cache.l2_bytes > 0,
            "L2 cache size should be greater than 0"
        );
        // L3 cache can be 0, so we don't check for > 0

        // Check CacheSharing
        assert!(
            level.cache_sharing.cores_per_l2 > 0,
            "Cores per L2 should be greater than 0"
        );
        // Cores per L3 can be 0
    }
}

#[test]
fn test_population_exact_values() {
    let cpu_info = CPUInfo::from_registry(&populated_registry());
    assert_eq!(cpu_info.identification.brand_string, "Example CPU");
    assert_eq!(cpu_info.identification.vendor, "ExampleVendor");
    assert_eq!(cpu_info.identification.feature_bits, "12345");
    assert_eq!(cpu_info.core_counts.physical, 8);
    assert_eq!(cpu_info.core_counts.logical, 16);
    assert_eq!(cpu_info.core_counts.max_physical, 8);
    assert_eq!(cpu_info.core_counts.max_logical, 16);
    assert_eq!(cpu_info.frequency.hz, 2_400_000_000);
    assert_eq!(cpu_info.performance_levels.len(), 1);
    let level = &cpu_info.performance_levels[0];
    assert_eq!(level.id, 0);
    assert_eq!(level.cache.l1_instruction_bytes, 131072);
    assert_eq!(level.cache.l1_data_bytes, 65536);
    assert_eq!(level.cache.l2_bytes, 4194304);
    assert_eq!(level.cache.l3_bytes, 0);
    assert_eq!(level.cache_sharing.cores_per_l2, 4);
    assert_eq!(level.cache_sharing.cores_per_l3, 0);
}

#[test]
fn test_snapshot_idempotent() {
    // Two constructions against an unchanged registry are structurally equal.
    let reg = populated_registry();
    let first = CPUInfo::from_registry(&reg);
    let second = CPUInfo::from_registry(&reg);
    assert_eq!(first, second);
}

#[test]
fn test_missing_keys_default_to_zero() {
    // With an empty registry every field resolves to its type's zero value.
    let reg = Registry::new();
    let cpu_info = CPUInfo::from_registry(&reg);
    assert_eq!(cpu_info.identification.brand_string, "");
    assert_eq!(cpu_info.identification.vendor, "");
    assert_eq!(cpu_info.identification.feature_bits, "");
    assert_eq!(cpu_info.core_counts.physical, 0);
    assert_eq!(cpu_info.core_counts.logical, 0);
    assert_eq!(cpu_info.core_counts.max_physical, 0);
    assert_eq!(cpu_info.core_counts.max_logical, 0);
    assert_eq!(cpu_info.frequency.hz, 0);
    assert_eq!(cpu_info.performance_levels.len(), 0);
}

#[test]
fn test_unreadable_keys_default_to_zero() {
    // A key that exists but cannot be read resolves like an absent one.
    let mut reg = Registry::new();
    reg.set("hw.physicalcpu".to_string(), None);
    reg.set("machdep.cpu.brand_string".to_string(), None);
    let cpu_info = CPUInfo::from_registry(&reg);
    assert_eq!(cpu_info.core_counts.physical, 0);
    assert_eq!(cpu_info.identification.brand_string, "");
}

#[test]
fn test_malformed_value_defaults_to_zero() {
    // hw.physicalcpu exists but its text is non-numeric: the field is 0,
    // not an error.
    let mut reg = populated_registry();
    set_text(&mut reg, "hw.physicalcpu", "not-a-number");
    let cpu_info = CPUInfo::from_registry(&reg);
    assert_eq!(cpu_info.core_counts.physical, 0);
    // the other fields are untouched
    assert_eq!(cpu_info.core_counts.logical, 16);
}
