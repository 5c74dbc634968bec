//! Default values of every configuration key.
//!
//! Each subsystem reads its keys as `config.get(key)` falling back to one of
//! these values, so keeping them in one place keeps the automatic
//! configuration, the subsystems and the shipped configuration file in step.
use vstd::prelude::*;

verus! {

// ── Zram ────────────────────────────────────────────────────────────────────

pub const ZRAM_SIZE: &'static str = "125%";

/// Main compression algorithm: where pages spend most of their life, so it is
/// chosen for ratio, since most of what sits in zram is cold.
pub const ZRAM_ALG: &'static str = "zstd";

pub const ZRAM_ALG_LEVEL: &'static str = "3";

/// Initial algorithm: a faster, weaker stage that pages enter first, so a page
/// faulted straight back is cheap to reach. Pages that stay idle are later
/// recompressed into the main algorithm. Empty disables the stage.
pub const ZRAM_INITIAL_ALG: &'static str = "lz4";

/// For lz4 the level is an acceleration factor and 1 is its default; it is
/// spelled out so that switching the stage to zstd inherits a fast level.
pub const ZRAM_INITIAL_LEVEL: &'static str = "1";

pub const ZRAM_PRIO: i32 = 32767;

pub const ZRAM_MAX_DEVICES: u8 = 8;

pub const ZRAM_EXPAND_THRESHOLD: u8 = 85;

pub const ZRAM_CONTRACT_THRESHOLD: u8 = 20;

pub const ZRAM_EXPAND_COOLDOWN: u64 = 10;

pub const ZRAM_CONTRACT_STABILITY: u64 = 120;

pub const ZRAM_MIN_FREE_RAM: u8 = 15;

pub const ZRAM_CHECK_INTERVAL: u64 = 5;

/// Idle age (seconds) after which a page is promoted from the initial stage
/// into the main algorithm; promotion lands between the age and the age plus
/// the sweep interval.
pub const ZRAM_RECOMP_IDLE_AGE: u64 = 600;

/// Sweep interval (seconds) of that promotion, kept well below the age.
pub const ZRAM_RECOMP_INTERVAL: u64 = 60;

// ── Zswap ───────────────────────────────────────────────────────────────────

pub const ZSWAP_COMPRESSOR: &'static str = "zstd";

pub const ZSWAP_ZPOOL: &'static str = "zsmalloc";

pub const ZSWAP_MAX_POOL_PERCENT: u32 = 45;

pub const ZSWAP_SHRINKER_ENABLED: &'static str = "1";

pub const ZSWAP_ACCEPT_THRESHOLD: &'static str = "80";

// ── Swap files ──────────────────────────────────────────────────────────────

pub const SWAPFILE_PATH: &'static str = "/swapfile";

pub const SWAPFILE_CHUNK_SIZE: &'static str = "512M";

pub const SWAPFILE_MAX_COUNT: u32 = 28;

pub const SWAPFILE_MIN_COUNT: u32 = 1;

pub const SWAPFILE_FREE_RAM_PERC: u8 = 20;

pub const SWAPFILE_FREE_SWAP_PERC: u8 = 40;

pub const SWAPFILE_REMOVE_FREE_SWAP_PERC: u8 = 70;

pub const SWAPFILE_FREQUENCY: u32 = 1;

pub const SWAPFILE_SHRINK_THRESHOLD: u8 = 30;

pub const SWAPFILE_SAFE_HEADROOM: u8 = 40;

pub const SWAPFILE_NOCOW: &'static str = "1";

/// Free space left on the filesystem after a swap file is created, as a
/// percentage of the filesystem, clamped into the band below: a bare
/// percentage is too small on small filesystems and wasteful on large ones.
pub const SWAPFILE_MIN_FREE_PERCENT: u64 = 5;

/// Lower end of that band: what btrfs needs to keep allocating metadata.
pub const SWAPFILE_MIN_FREE_FLOOR: u64 = 1024 * 1024 * 1024;

/// Upper end of that band: past a few GiB a reserve protects nothing more.
pub const SWAPFILE_MIN_FREE_CAP: u64 = 8 * 1024 * 1024 * 1024;

/// Unallocated space btrfs must keep so it can still allocate a metadata chunk.
pub const SWAPFILE_BTRFS_MIN_UNALLOCATED: u64 = 1024 * 1024 * 1024;

// ── Multi-generational LRU ──────────────────────────────────────────────────

pub const MGLRU_MIN_TTL_MS: u32 = 1000;

} // verus!
