use rs_sysctl_typed_cpu::{perf_key, PerformanceLevel, Registry};

fn set_text(reg: &mut Registry, key: &str, value: &str) {
    reg.set(key.to_string(), Some(value.to_string()));
}

fn set_level(reg: &mut Registry, id: i32, l1i: &str, l1d: &str, l2: &str, l3: &str, cpl2: &str, cpl3: &str) {
    set_text(reg, &format!("hw.perflevel{id}.l1icachesize"), l1i);
    set_text(reg, &format!("hw.perflevel{id}.l1dcachesize"), l1d);
    set_text(reg, &format!("hw.perflevel{id}.l2cachesize"), l2);
    set_text(reg, &format!("hw.perflevel{id}.l3cachesize"), l3);
    set_text(reg, &format!("hw.perflevel{id}.cpusperl2"), cpl2);
    set_text(reg, &format!("hw.perflevel{id}.cpusperl3"), cpl3);
}

#[test]
fn test_homogeneous_hardware_has_no_levels() {
    // No hw.perflevel0.l1icachesize key: the sequence is empty, regardless
    // of what else the registry exposes.
    let mut reg = Registry::new();
    set_text(&mut reg, "hw.physicalcpu", "4");
    // other perflevel0 fields exist, but not the probe key
    set_text(&mut reg, "hw.perflevel0.l2cachesize", "4194304");
    set_text(&mut reg, "hw.perflevel0.cpusperl2", "4");
    let levels = PerformanceLevel::all_from_registry(&reg);
    assert_eq!(levels.len(), 0);
}

#[test]
fn test_two_tier_discovery() {
    // perflevel0.* and perflevel1.* are fully exposed and perflevel2's probe
    // key is absent: exactly two records, ids 0 and 1, in that order.
    let mut reg = Registry::new();
    set_level(&mut reg, 0, "196608", "131072", "16777216", "0", "4", "0");
    set_level(&mut reg, 1, "131072", "65536", "4194304", "0", "4", "0");
    let levels = PerformanceLevel::all_from_registry(&reg);
    assert_eq!(levels.len(), 2);
    assert_eq!(levels[0].id, 0);
    assert_eq!(levels[1].id, 1);
    assert_eq!(levels[0].cache.l1_instruction_bytes, 196608);
    assert_eq!(levels[0].cache.l1_data_bytes, 131072);
    assert_eq!(levels[0].cache.l2_bytes, 16777216);
    assert_eq!(levels[0].cache.l3_bytes, 0);
    assert_eq!(levels[0].cache_sharing.cores_per_l2, 4);
    assert_eq!(levels[0].cache_sharing.cores_per_l3, 0);
    assert_eq!(levels[1].cache.l1_instruction_bytes, 131072);
    assert_eq!(levels[1].cache.l2_bytes, 4194304);
}

#[test]
fn test_gap_stops_discovery() {
    // perflevel0 and perflevel2 exist but perflevel1's probe key is absent:
    // discovery stops at the gap and level 2 is never reported.
    let mut reg = Registry::new();
    set_level(&mut reg, 0, "131072", "65536", "4194304", "0", "4", "0");
    set_level(&mut reg, 2, "131072", "65536", "4194304", "0", "4", "0");
    let levels = PerformanceLevel::all_from_registry(&reg);
    assert_eq!(levels.len(), 1);
    assert_eq!(levels[0].id, 0);
}

#[test]
fn test_partial_level_is_still_built() {
    // The probe key exists but hw.perflevel0.cpusperl3 does not: the record
    // is still included and the missing field is zero.
    let mut reg = Registry::new();
    set_text(&mut reg, "hw.perflevel0.l1icachesize", "131072");
    set_text(&mut reg, "hw.perflevel0.l1dcachesize", "65536");
    set_text(&mut reg, "hw.perflevel0.l2cachesize", "4194304");
    // no l3cachesize, no cpusperl2, no cpusperl3
    let levels = PerformanceLevel::all_from_registry(&reg);
    assert_eq!(levels.len(), 1);
    let level = &levels[0];
    assert_eq!(level.id, 0);
    assert_eq!(level.cache.l1_instruction_bytes, 131072);
    assert_eq!(level.cache.l3_bytes, 0);
    assert_eq!(level.cache_sharing.cores_per_l2, 0);
    assert_eq!(level.cache_sharing.cores_per_l3, 0);
}

#[test]
fn test_probe_key_alone_builds_all_zero_level() {
    // Existence is decided by the probe key alone, even when its own value
    // is unreadable.
    let mut reg = Registry::new();
    reg.set("hw.perflevel0.l1icachesize".to_string(), None);
    let levels = PerformanceLevel::all_from_registry(&reg);
    assert_eq!(levels.len(), 1);
    assert_eq!(levels[0].cache.l1_instruction_bytes, 0);
}

#[test]
fn test_perf_key_rendering() {
    assert_eq!(perf_key(0, ".l1icachesize"), "hw.perflevel0.l1icachesize");
    assert_eq!(perf_key(1, ".cpusperl3"), "hw.perflevel1.cpusperl3");
    assert_eq!(perf_key(10, ".l2cachesize"), "hw.perflevel10.l2cachesize");
    assert_eq!(perf_key(123456, ".l3cachesize"), "hw.perflevel123456.l3cachesize");
    assert_eq!(perf_key(2147483647, ".cpusperl2"), "hw.perflevel2147483647.cpusperl2");
}

#[test]
fn test_discovery_order_is_ascending() {
    let mut reg = Registry::new();
    for id in 0..5 {
        set_level(&mut reg, id, "1", "2", "3", "4", "5", "6");
    }
    let levels = PerformanceLevel::all_from_registry(&reg);
    assert_eq!(levels.len(), 5);
    for (i, level) in levels.iter().enumerate() {
        assert_eq!(level.id, i as i32);
    }
}
