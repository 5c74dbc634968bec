use systemd_swap::autoconfig::{RecommendedConfig, SwapMode, SystemCapabilities};
use systemd_swap::decimal::{i32_to_decimal, u64_to_decimal};
use systemd_swap::defaults;

const GB: u64 = 1024 * 1024 * 1024;

fn owned(pairs: Vec<(&str, String)>) -> Vec<(String, String)> {
    pairs.into_iter().map(|(k, v)| (k.to_string(), v)).collect()
}

fn expected(items: &[(&str, &str)]) -> Vec<(String, String)> {
    items.iter().map(|(k, v)| (k.to_string(), v.to_string())).collect()
}

#[test]
fn zram_only_pairs_are_exact() {
    let pairs = owned(RecommendedConfig::zram_only().config_pairs());
    assert_eq!(
        pairs,
        expected(&[
            ("zram_alg", "zstd"),
            ("zram_size", "150%"),
            ("zram_prio", "32767"),
            ("mglru_min_ttl_ms", "1000"),
        ])
    );
}

#[test]
fn zram_swapfc_pairs_are_exact() {
    let pairs = owned(RecommendedConfig::zram_swapfc().config_pairs());
    assert_eq!(
        pairs,
        expected(&[
            ("zram_alg", "zstd"),
            ("zram_size", "150%"),
            ("zram_prio", "32767"),
            ("swapfile_chunk_size", "512M"),
            ("swapfile_max_count", "28"),
            ("swapfile_free_ram_perc", "20"),
            ("swapfile_free_swap_perc", "40"),
            ("swapfile_remove_free_swap_perc", "70"),
            ("mglru_min_ttl_ms", "1000"),
        ])
    );
}

#[test]
fn pairs_follow_the_fields() {
    let mut c = RecommendedConfig::zram_swapfc();
    c.zram_size_percent = 0;
    c.zram_algorithm = "lz4".to_string();
    c.swapfc_max_count = u32::MAX;
    c.swapfc_free_ram_perc = 255;
    c.mglru_min_ttl_ms = 7;
    let pairs = owned(c.config_pairs());
    assert_eq!(pairs[0].1, "lz4");
    assert_eq!(pairs[1].1, "0%");
    assert_eq!(pairs[4].1, "4294967295");
    assert_eq!(pairs[5].1, "255");
    assert_eq!(pairs[8].1, "7");
}

#[test]
fn pairs_keys_are_distinct() {
    for c in [RecommendedConfig::zram_only(), RecommendedConfig::zram_swapfc()] {
        let pairs = c.config_pairs();
        for i in 0..pairs.len() {
            for j in 0..pairs.len() {
                if i != j {
                    assert_ne!(pairs[i].0, pairs[j].0);
                }
            }
        }
        assert_eq!(pairs.last().unwrap().0, "mglru_min_ttl_ms");
    }
}

#[test]
fn presets_carry_defaults() {
    let only = RecommendedConfig::zram_only();
    let fc = RecommendedConfig::zram_swapfc();
    for c in [&only, &fc] {
        assert_eq!(c.zram_size_percent, 150);
        assert_eq!(c.zram_algorithm, defaults::ZRAM_ALG);
        assert_eq!(c.swapfc_chunk_size, defaults::SWAPFILE_CHUNK_SIZE);
        assert_eq!(c.swapfc_free_ram_perc, defaults::SWAPFILE_FREE_RAM_PERC);
        assert_eq!(c.swapfc_free_swap_perc, defaults::SWAPFILE_FREE_SWAP_PERC);
        assert_eq!(c.swapfc_remove_free_swap_perc, defaults::SWAPFILE_REMOVE_FREE_SWAP_PERC);
        assert_eq!(c.mglru_min_ttl_ms, defaults::MGLRU_MIN_TTL_MS);
    }
    assert_eq!(only.swapfc_max_count, 0);
    assert_eq!(fc.swapfc_max_count, 28);
    assert_eq!(fc.swap_mode, SwapMode::ZramSwapfc);
}

#[test]
fn more_free_disk_keeps_swapfiles() {
    let base = SystemCapabilities::from_probes(Some("ext4".to_string()), None, Some(4 * GB), Some(4 * GB), Some(2));
    assert_eq!(RecommendedConfig::from_capabilities(&base).swap_mode, SwapMode::ZramSwapfc);
    let mut more = base.clone();
    more.free_disk_space_bytes = u64::MAX;
    assert_eq!(RecommendedConfig::from_capabilities(&more).swap_mode, SwapMode::ZramSwapfc);
}

#[test]
fn more_ram_never_adds_swapfiles() {
    let base = SystemCapabilities::from_probes(Some("xfs".to_string()), None, Some(8 * GB), Some(4 * GB), None);
    assert_eq!(RecommendedConfig::from_capabilities(&base).swap_mode, SwapMode::ZramOnly);
    let mut more = base.clone();
    more.total_ram_bytes = 64 * GB;
    assert_eq!(RecommendedConfig::from_capabilities(&more).swap_mode, SwapMode::ZramOnly);
}

// ── probes ──────────────────────────────────────────────────────────────────

#[test]
fn probes_fall_back_to_root_fstype() {
    let c = SystemCapabilities::from_probes(None, Some("btrfs".to_string()), Some(GB), Some(2 * GB), Some(8));
    assert_eq!(c.swap_path_fstype.as_deref(), Some("btrfs"));
    assert!(!c.is_live_system);
    assert_eq!(c.total_ram_bytes, GB);
    assert_eq!(c.free_disk_space_bytes, 2 * GB);
    assert_eq!(c.cpu_count, 8);
    assert_eq!(RecommendedConfig::from_capabilities(&c).swap_mode, SwapMode::ZramSwapfc);
}

#[test]
fn probes_prefer_swap_path_fstype() {
    let c = SystemCapabilities::from_probes(Some("ext4".to_string()), Some("tmpfs".to_string()), None, None, None);
    assert_eq!(c.swap_path_fstype.as_deref(), Some("ext4"));
    assert!(!c.is_live_system);
}

#[test]
fn probes_unknown_values_default() {
    let c = SystemCapabilities::from_probes(None, None, None, None, None);
    assert_eq!(c.swap_path_fstype, None);
    assert!(!c.is_live_system);
    assert_eq!(c.total_ram_bytes, 0);
    assert_eq!(c.free_disk_space_bytes, 0);
    assert_eq!(c.cpu_count, 1);
    assert_eq!(RecommendedConfig::from_capabilities(&c).swap_mode, SwapMode::ZramOnly);
}

#[test]
fn probes_detect_live_filesystems() {
    for fs in ["tmpfs", "squashfs", "overlay"] {
        let c = SystemCapabilities::from_probes(Some(fs.to_string()), None, Some(GB), Some(100 * GB), Some(4));
        assert!(c.is_live_system, "{}", fs);
        assert_eq!(RecommendedConfig::from_capabilities(&c).swap_mode, SwapMode::ZramOnly);
    }
    for fs in ["btrfs", "ext4", "xfs", "overlayfs", "tmp", ""] {
        let c = SystemCapabilities::from_probes(Some(fs.to_string()), None, None, None, None);
        assert!(!c.is_live_system, "{}", fs);
    }
}

#[test]
fn fstype_match_is_exact() {
    for fs in ["Btrfs", "ext3", "xfs ", "btrfs2"] {
        let c = SystemCapabilities::from_probes(Some(fs.to_string()), None, Some(GB), Some(100 * GB), None);
        assert_eq!(RecommendedConfig::from_capabilities(&c).swap_mode, SwapMode::ZramOnly, "{}", fs);
    }
}

#[test]
fn free_space_probe_path_falls_back_to_root() {
    assert_eq!(SystemCapabilities::free_space_probe_path("/swapfile", true), "/swapfile");
    assert_eq!(SystemCapabilities::free_space_probe_path("/swapfile", false), "/");
}

#[test]
fn available_bytes_multiplies() {
    assert_eq!(SystemCapabilities::available_bytes(1000, 4096), 4_096_000);
    assert_eq!(SystemCapabilities::available_bytes(0, 4096), 0);
    assert_eq!(SystemCapabilities::available_bytes(u64::MAX, 1), u64::MAX);
}

// ── decimal rendering ───────────────────────────────────────────────────────

#[test]
fn decimal_matches_display() {
    for n in [0u64, 1, 9, 10, 99, 100, 150, 32767, 1_000_000, u64::MAX] {
        assert_eq!(u64_to_decimal(n), n.to_string());
    }
    for i in [0i32, 7, -1, -42, 32767, i32::MAX, i32::MIN] {
        assert_eq!(i32_to_decimal(i), i.to_string());
    }
    assert_eq!(u64_to_decimal(150), "150");
    assert_eq!(i32_to_decimal(-2147483648), "-2147483648");
}
