//! Automatic system detection and swap configuration.
//!
//! What is probed from the machine arrives here as plain values
//! ([`SystemCapabilities`]); the decision of which swap layout to use and the
//! configuration keys that layout injects are computed from them.
use vstd::prelude::*;

use crate::decimal::{decimal, i32_to_decimal, signed_decimal, u64_to_decimal};
use crate::defaults;

verus! {

// ── Capabilities ────────────────────────────────────────────────────────────

/// Full system capabilities, as probed from the running machine.
#[derive(Debug, Clone)]
pub struct SystemCapabilities {
    pub swap_path_fstype: Option<String>,
    pub free_disk_space_bytes: u64,
    pub total_ram_bytes: u64,
    pub is_live_system: bool,
    pub cpu_count: usize,
}

/// The capabilities as mathematical values.
pub struct SystemCapabilitiesView {
    pub swap_path_fstype: Option<Seq<char>>,
    pub free_disk_space_bytes: u64,
    pub total_ram_bytes: u64,
    pub is_live_system: bool,
    pub cpu_count: usize,
}

/// The view of an optional string.
pub open spec fn opt_string_view(s: Option<String>) -> Option<Seq<char>> {
    match s {
        Some(s) => Some(s@),
        None => None,
    }
}

impl View for SystemCapabilities {
    type V = SystemCapabilitiesView;

    open spec fn view(&self) -> SystemCapabilitiesView {
        SystemCapabilitiesView {
            swap_path_fstype: opt_string_view(self.swap_path_fstype),
            free_disk_space_bytes: self.free_disk_space_bytes,
            total_ram_bytes: self.total_ram_bytes,
            is_live_system: self.is_live_system,
            cpu_count: self.cpu_count,
        }
    }
}

/// Filesystem types that only a live system (booted from a read-only medium)
/// has at its swap location.
pub open spec fn is_live_fstype(fs: Seq<char>) -> bool {
    fs == "tmpfs"@ || fs == "squashfs"@ || fs == "overlay"@
}

/// Filesystem types on which swap files can be created.
pub open spec fn supports_swapfiles(fs: Seq<char>) -> bool {
    fs == "btrfs"@ || fs == "ext4"@ || fs == "xfs"@
}

/// The filesystem type of the swap location: that of the swap file path when
/// it could be determined, else that of the root filesystem.
pub open spec fn resolved_fstype(swap_path_fstype: Option<Seq<char>>, root_fstype: Option<Seq<char>>) -> Option<Seq<char>> {
    match swap_path_fstype {
        Some(fs) => Some(fs),
        None => root_fstype,
    }
}

/// Whether a (possibly unknown) filesystem type marks a live system.
pub open spec fn marks_live_system(fstype: Option<Seq<char>>) -> bool {
    match fstype {
        Some(fs) => is_live_fstype(fs),
        None => false,
    }
}

/// What detection records, given what the probes returned: an unknown RAM
/// size or free space counts as zero, an unknown parallelism as one CPU.
pub open spec fn probed_capabilities(
    swap_path_fstype: Option<Seq<char>>,
    root_fstype: Option<Seq<char>>,
    total_ram: Option<u64>,
    free_space: Option<u64>,
    parallelism: Option<usize>,
) -> SystemCapabilitiesView {
    let fstype = resolved_fstype(swap_path_fstype, root_fstype);
    SystemCapabilitiesView {
        swap_path_fstype: fstype,
        free_disk_space_bytes: match free_space {
            Some(b) => b,
            None => 0,
        },
        total_ram_bytes: match total_ram {
            Some(b) => b,
            None => 0,
        },
        is_live_system: marks_live_system(fstype),
        cpu_count: match parallelism {
            Some(n) => n,
            None => 1,
        },
    }
}

/// Whether `fs` is one of `a`, `b`, `c`.
fn string_is_one_of(fs: &String, a: &str, b: &str, c: &str) -> (r: bool)
    ensures
        r == (fs@ == a@ || fs@ == b@ || fs@ == c@),
{
    let a = a.to_owned();
    let b = b.to_owned();
    let c = c.to_owned();
    *fs == a || *fs == b || *fs == c
}

impl SystemCapabilities {
    /// Assembles the capabilities from what the system probes returned:
    /// the filesystem type of the swap file path (falling back to that of
    /// `/`), the RAM size, the free disk space at the swap location and the
    /// available parallelism. A live system is recognised by its filesystem
    /// type (tmpfs, squashfs or overlay).
    pub fn from_probes(
        swap_path_fstype: Option<String>,
        root_fstype: Option<String>,
        total_ram: Option<u64>,
        free_space: Option<u64>,
        parallelism: Option<usize>,
    ) -> (caps: Self)
        ensures
            caps@ == probed_capabilities(
                opt_string_view(swap_path_fstype),
                opt_string_view(root_fstype),
                total_ram,
                free_space,
                parallelism,
            ),
            caps@.swap_path_fstype == (if swap_path_fstype is Some {
                opt_string_view(swap_path_fstype)
            } else {
                opt_string_view(root_fstype)
            }),
            caps.is_live_system == (caps@.swap_path_fstype == Some("tmpfs"@)
                || caps@.swap_path_fstype == Some("squashfs"@)
                || caps@.swap_path_fstype == Some("overlay"@)),
            total_ram is Some ==> caps.total_ram_bytes == total_ram->0,
            total_ram is None ==> caps.total_ram_bytes == 0,
            free_space is Some ==> caps.free_disk_space_bytes == free_space->0,
            free_space is None ==> caps.free_disk_space_bytes == 0,
            parallelism is Some ==> caps.cpu_count == parallelism->0,
            parallelism is None ==> caps.cpu_count == 1,
    {
        let fstype = match swap_path_fstype {
            Some(fs) => Some(fs),
            None => root_fstype,
        };
        let is_live = match &fstype {
            Some(fs) => string_is_one_of(fs, "tmpfs", "squashfs", "overlay"),
            None => false,
        };
        let free = match free_space {
            Some(b) => b,
            None => 0,
        };
        let ram = match total_ram {
            Some(b) => b,
            None => 0,
        };
        let cpus = match parallelism {
            Some(n) => n,
            None => 1,
        };
        SystemCapabilities {
            swap_path_fstype: fstype,
            free_disk_space_bytes: free,
            total_ram_bytes: ram,
            is_live_system: is_live,
            cpu_count: cpus,
        }
    }

    /// The path whose filesystem is measured for free space: the swap path
    /// itself when it exists, else the root directory.
    pub fn free_space_probe_path(path: &str, path_exists: bool) -> (p: String)
        ensures
            p@ == (if path_exists { path@ } else { "/"@ }),
    {
        if path_exists {
            path.to_owned()
        } else {
            "/".to_owned()
        }
    }

    /// Free disk space in bytes, from the block count available to
    /// unprivileged users and the filesystem block size.
    pub fn available_bytes(blocks_available: u64, block_size: u64) -> (bytes: u64)
        requires
            blocks_available * block_size <= u64::MAX,
        ensures
            bytes == blocks_available * block_size,
    {
        blocks_available * block_size
    }
}


// ── Recommendation ──────────────────────────────────────────────────────────

/// Swap mode recommendation.
#[derive(Debug, Clone, Copy, PartialEq, Eq, Structural)]
pub enum SwapMode {
    /// zram without disk backing
    ZramOnly,
    /// zram plus pre-allocated swap files for overflow
    ZramSwapfc,
}

/// Recommended swap configuration for auto mode.
///
/// All automatically chosen values are gathered here; [`Self::config_pairs`]
/// is the one place that says which configuration keys are injected.
#[derive(Debug, Clone)]
pub struct RecommendedConfig {
    pub swap_mode: SwapMode,
    /// zram disk size as a percentage of RAM
    pub zram_size_percent: u32,
    pub zram_algorithm: String,
    /// size of one swap file
    pub swapfc_chunk_size: String,
    pub swapfc_max_count: u32,
    pub swapfc_free_ram_perc: u8,
    pub swapfc_free_swap_perc: u8,
    pub swapfc_remove_free_swap_perc: u8,
    /// multi-generational LRU minimum time-to-live
    pub mglru_min_ttl_ms: u32,
}

/// The recommended configuration as mathematical values.
pub struct RecommendedConfigView {
    pub swap_mode: SwapMode,
    pub zram_size_percent: u32,
    pub zram_algorithm: Seq<char>,
    pub swapfc_chunk_size: Seq<char>,
    pub swapfc_max_count: u32,
    pub swapfc_free_ram_perc: u8,
    pub swapfc_free_swap_perc: u8,
    pub swapfc_remove_free_swap_perc: u8,
    pub mglru_min_ttl_ms: u32,
}

impl View for RecommendedConfig {
    type V = RecommendedConfigView;

    open spec fn view(&self) -> RecommendedConfigView {
        RecommendedConfigView {
            swap_mode: self.swap_mode,
            zram_size_percent: self.zram_size_percent,
            zram_algorithm: self.zram_algorithm@,
            swapfc_chunk_size: self.swapfc_chunk_size@,
            swapfc_max_count: self.swapfc_max_count,
            swapfc_free_ram_perc: self.swapfc_free_ram_perc,
            swapfc_free_swap_perc: self.swapfc_free_swap_perc,
            swapfc_remove_free_swap_perc: self.swapfc_remove_free_swap_perc,
            mglru_min_ttl_ms: self.mglru_min_ttl_ms,
        }
    }
}

/// The preset of a given mode: zram at 150% of RAM with the default
/// algorithm, the swap file settings from the defaults, and no swap files
/// at all (a maximum count of zero) unless the mode uses them.
pub open spec fn preset(mode: SwapMode) -> RecommendedConfigView {
    RecommendedConfigView {
        swap_mode: mode,
        zram_size_percent: 150,
        zram_algorithm: defaults::ZRAM_ALG@,
        swapfc_chunk_size: defaults::SWAPFILE_CHUNK_SIZE@,
        swapfc_max_count: match mode {
            SwapMode::ZramOnly => 0,
            SwapMode::ZramSwapfc => defaults::SWAPFILE_MAX_COUNT,
        },
        swapfc_free_ram_perc: defaults::SWAPFILE_FREE_RAM_PERC,
        swapfc_free_swap_perc: defaults::SWAPFILE_FREE_SWAP_PERC,
        swapfc_remove_free_swap_perc: defaults::SWAPFILE_REMOVE_FREE_SWAP_PERC,
        mglru_min_ttl_ms: defaults::MGLRU_MIN_TTL_MS,
    }
}

/// Whether the capabilities allow swap files next to zram: not a live
/// system, a filesystem that supports swap files, and at least as much free
/// disk space as there is RAM.
pub open spec fn allows_swapfiles(caps: SystemCapabilitiesView) -> bool {
    &&& !caps.is_live_system
    &&& caps.swap_path_fstype matches Some(fs) && supports_swapfiles(fs)
    &&& caps.free_disk_space_bytes >= caps.total_ram_bytes
}

/// The mode chosen for given capabilities.
pub open spec fn chosen_mode(caps: SystemCapabilitiesView) -> SwapMode {
    if allows_swapfiles(caps) {
        SwapMode::ZramSwapfc
    } else {
        SwapMode::ZramOnly
    }
}

/// The configuration recommended for given capabilities.
pub open spec fn recommendation(caps: SystemCapabilitiesView) -> RecommendedConfigView {
    preset(chosen_mode(caps))
}

impl RecommendedConfig {
    /// Zram-only config (no disk swap).
    pub fn zram_only() -> (cfg: Self)
        ensures
            cfg@ == preset(SwapMode::ZramOnly),
            cfg.swap_mode == SwapMode::ZramOnly,
            cfg.swapfc_max_count == 0,
            preset_values(cfg@),
    {
        proof {
            lemma_preset_values(SwapMode::ZramOnly);
        }
        RecommendedConfig {
            swap_mode: SwapMode::ZramOnly,
            zram_size_percent: 150,
            zram_algorithm: defaults::ZRAM_ALG.to_owned(),
            swapfc_chunk_size: defaults::SWAPFILE_CHUNK_SIZE.to_owned(),
            swapfc_max_count: 0,
            swapfc_free_ram_perc: defaults::SWAPFILE_FREE_RAM_PERC,
            swapfc_free_swap_perc: defaults::SWAPFILE_FREE_SWAP_PERC,
            swapfc_remove_free_swap_perc: defaults::SWAPFILE_REMOVE_FREE_SWAP_PERC,
            mglru_min_ttl_ms: defaults::MGLRU_MIN_TTL_MS,
        }
    }

    /// Zram as primary plus pre-allocated swap files for overflow.
    ///
    /// Zram compresses in RAM (150% disk size is about 37% of RAM at a
    /// ratio near 4); the swap files take what overflows when zram fills.
    pub fn zram_swapfc() -> (cfg: Self)
        ensures
            cfg@ == preset(SwapMode::ZramSwapfc),
            cfg.swap_mode == SwapMode::ZramSwapfc,
            cfg.swapfc_max_count == 28,
            preset_values(cfg@),
    {
        proof {
            lemma_preset_values(SwapMode::ZramSwapfc);
        }
        RecommendedConfig {
            swap_mode: SwapMode::ZramSwapfc,
            zram_size_percent: 150,
            zram_algorithm: defaults::ZRAM_ALG.to_owned(),
            swapfc_chunk_size: defaults::SWAPFILE_CHUNK_SIZE.to_owned(),
            swapfc_max_count: defaults::SWAPFILE_MAX_COUNT,
            swapfc_free_ram_perc: defaults::SWAPFILE_FREE_RAM_PERC,
            swapfc_free_swap_perc: defaults::SWAPFILE_FREE_SWAP_PERC,
            swapfc_remove_free_swap_perc: defaults::SWAPFILE_REMOVE_FREE_SWAP_PERC,
            mglru_min_ttl_ms: defaults::MGLRU_MIN_TTL_MS,
        }
    }

    /// Generates the recommended configuration for the given capabilities.
    pub fn from_capabilities(caps: &SystemCapabilities) -> (cfg: Self)
        ensures
            cfg@ == recommendation(caps@),
            cfg.swap_mode == SwapMode::ZramSwapfc <==> (!caps.is_live_system
                && (caps@.swap_path_fstype == Some("btrfs"@)
                    || caps@.swap_path_fstype == Some("ext4"@)
                    || caps@.swap_path_fstype == Some("xfs"@))
                && caps.free_disk_space_bytes >= caps.total_ram_bytes),
            cfg.swap_mode == SwapMode::ZramSwapfc ==> cfg.swapfc_max_count == 28,
            cfg.swap_mode == SwapMode::ZramOnly ==> cfg.swapfc_max_count == 0,
            preset_values(cfg@),
    {
        proof {
            lemma_swapfiles_exactly_on_capable_systems(caps@);
            lemma_preset_values(SwapMode::ZramOnly);
            lemma_preset_values(SwapMode::ZramSwapfc);
        }
        Self::build_config(caps)
    }

    /// Selects the swap mode: zram plus swap files when the disk allows,
    /// zram only otherwise.
    ///
    /// 1. Live system (tmpfs, squashfs, overlay): zram only.
    /// 2. Filesystem that does not support swap files (not btrfs, ext4 or
    ///    xfs), or unknown: zram only.
    /// 3. Free disk space below total RAM: zram only.
    /// 4. Otherwise: zram plus pre-allocated swap files.
    fn build_config(caps: &SystemCapabilities) -> (cfg: Self)
        ensures
            cfg@ == recommendation(caps@),
    {
        if caps.is_live_system {
            return Self::zram_only();
        }
        let supports = match &caps.swap_path_fstype {
            Some(fs) => string_is_one_of(fs, "btrfs", "ext4", "xfs"),
            None => false,
        };
        if !supports {
            return Self::zram_only();
        }
        if caps.free_disk_space_bytes < caps.total_ram_bytes {
            return Self::zram_only();
        }
        Self::zram_swapfc()
    }
}

/// The view of one injected key-value pair.
pub open spec fn pair_view(p: (&str, String)) -> (Seq<char>, Seq<char>) {
    (p.0@, p.1@)
}

/// The key-value pairs that auto mode injects for a configuration, in order:
/// the zram algorithm, size (a percentage of RAM, spelled with a trailing
/// `%`) and priority; in the zram-plus-swap-files mode the five swap file
/// settings; and always, last, the multi-generational LRU time-to-live.
/// Numbers are spelled in base ten.
pub open spec fn config_pairs_view(cfg: RecommendedConfigView) -> Seq<(Seq<char>, Seq<char>)> {
    let zram = seq![
        ("zram_alg"@, cfg.zram_algorithm),
        ("zram_size"@, decimal(cfg.zram_size_percent as nat) + "%"@),
        ("zram_prio"@, signed_decimal(defaults::ZRAM_PRIO as int)),
    ];
    let swapfiles = match cfg.swap_mode {
        SwapMode::ZramSwapfc => seq![
            ("swapfile_chunk_size"@, cfg.swapfc_chunk_size),
            ("swapfile_max_count"@, decimal(cfg.swapfc_max_count as nat)),
            ("swapfile_free_ram_perc"@, decimal(cfg.swapfc_free_ram_perc as nat)),
            ("swapfile_free_swap_perc"@, decimal(cfg.swapfc_free_swap_perc as nat)),
            ("swapfile_remove_free_swap_perc"@, decimal(cfg.swapfc_remove_free_swap_perc as nat)),
        ],
        SwapMode::ZramOnly => Seq::empty(),
    };
    zram + swapfiles + seq![("mglru_min_ttl_ms"@, decimal(cfg.mglru_min_ttl_ms as nat))]
}

impl RecommendedConfig {
    /// All configuration key-value pairs that auto mode injects.
    ///
    /// This is the one source of the values auto mode uses: each subsystem
    /// has its own fallback defaults, and auto mode overrides them with the
    /// pairs returned here.
    pub fn config_pairs(&self) -> (pairs: Vec<(&str, String)>)
        ensures
            pairs@.map_values(|p: (&str, String)| pair_view(p)) == config_pairs_view(self@),
            carries_fields(pairs@.map_values(|p: (&str, String)| pair_view(p)), self@),
    {
        let mut pairs: Vec<(&str, String)> = Vec::new();
        pairs.push(("zram_alg", self.zram_algorithm.clone()));
        let mut zram_size = u64_to_decimal(self.zram_size_percent as u64);
        zram_size.append("%");
        pairs.push(("zram_size", zram_size));
        pairs.push(("zram_prio", i32_to_decimal(defaults::ZRAM_PRIO)));
        match self.swap_mode {
            SwapMode::ZramSwapfc => {
                pairs.push(("swapfile_chunk_size", self.swapfc_chunk_size.clone()));
                pairs.push(("swapfile_max_count", u64_to_decimal(self.swapfc_max_count as u64)));
                pairs.push(("swapfile_free_ram_perc", u64_to_decimal(self.swapfc_free_ram_perc as u64)));
                pairs.push(("swapfile_free_swap_perc", u64_to_decimal(self.swapfc_free_swap_perc as u64)));
                pairs.push((
                    "swapfile_remove_free_swap_perc",
                    u64_to_decimal(self.swapfc_remove_free_swap_perc as u64),
                ));
            },
            SwapMode::ZramOnly => {},
        }
        // the multi-generational LRU setting is injected in every mode
        pairs.push(("mglru_min_ttl_ms", u64_to_decimal(self.mglru_min_ttl_ms as u64)));
        proof {
            assert(pairs@.map_values(|p: (&str, String)| pair_view(p)) =~= config_pairs_view(self@));
            lemma_config_pairs_carry_fields(self@);
        }
        pairs
    }
}

impl Default for RecommendedConfig {
    /// The default recommendation is the zram-only preset.
    fn default() -> (cfg: Self)
        ensures
            cfg@ == preset(SwapMode::ZramOnly),
            cfg.swap_mode == SwapMode::ZramOnly,
            cfg.swapfc_max_count == 0,
            preset_values(cfg@),
    {
        Self::zram_only()
    }
}


// ── Laws ────────────────────────────────────────────────────────────────────

/// The keys of a sequence of key-value pairs, in order.
pub open spec fn keys_of(pairs: Seq<(Seq<char>, Seq<char>)>) -> Seq<Seq<char>> {
    pairs.map_values(|p: (Seq<char>, Seq<char>)| p.0)
}

/// The swap file keys injected in the zram-plus-swap-files mode.
pub open spec fn swapfile_keys() -> Seq<Seq<char>> {
    seq![
        "swapfile_chunk_size"@,
        "swapfile_max_count"@,
        "swapfile_free_ram_perc"@,
        "swapfile_free_swap_perc"@,
        "swapfile_remove_free_swap_perc"@,
    ]
}

proof fn reveal_key_literals()
    ensures
        "zram_alg"@ == seq!['z', 'r', 'a', 'm', '_', 'a', 'l', 'g'],
        "zram_size"@ == seq!['z', 'r', 'a', 'm', '_', 's', 'i', 'z', 'e'],
        "zram_prio"@ == seq!['z', 'r', 'a', 'm', '_', 'p', 'r', 'i', 'o'],
        "swapfile_chunk_size"@.len() == 19,
        "swapfile_max_count"@.len() == 18,
        "swapfile_free_ram_perc"@.len() == 22,
        "swapfile_free_swap_perc"@.len() == 23,
        "swapfile_remove_free_swap_perc"@.len() == 30,
        "mglru_min_ttl_ms"@.len() == 16,
{
    reveal_strlit("zram_alg");
    reveal_strlit("zram_size");
    reveal_strlit("zram_prio");
    reveal_strlit("swapfile_chunk_size");
    reveal_strlit("swapfile_max_count");
    reveal_strlit("swapfile_free_ram_perc");
    reveal_strlit("swapfile_free_swap_perc");
    reveal_strlit("swapfile_remove_free_swap_perc");
    reveal_strlit("mglru_min_ttl_ms");
}

/// Whatever the capabilities, the recommendation is one of the two presets,
/// and zram is always sized at 150% of RAM.
pub proof fn lemma_recommendation_is_a_preset(caps: SystemCapabilitiesView)
    ensures
        recommendation(caps) == preset(SwapMode::ZramOnly) || recommendation(caps) == preset(SwapMode::ZramSwapfc),
        recommendation(caps).zram_size_percent == 150,
{
}

/// A live system never gets swap files, whatever its disk and RAM.
pub proof fn lemma_live_system_is_zram_only(caps: SystemCapabilitiesView)
    requires
        caps.is_live_system,
    ensures
        recommendation(caps).swap_mode == SwapMode::ZramOnly,
        recommendation(caps).swapfc_max_count == 0,
{
}

/// Swap files are only ever recommended on btrfs, ext4 or xfs, and only when
/// the free disk space is at least the RAM size.
pub proof fn lemma_swapfiles_need_capable_fs_and_room(caps: SystemCapabilitiesView)
    requires
        recommendation(caps).swap_mode == SwapMode::ZramSwapfc,
    ensures
        caps.swap_path_fstype matches Some(fs) && supports_swapfiles(fs),
        caps.free_disk_space_bytes >= caps.total_ram_bytes,
        !caps.is_live_system,
{
}

/// More free disk space never takes swap files away: once the recommendation
/// uses them, it still does with any larger free space.
pub proof fn lemma_more_free_disk_keeps_swapfiles(caps: SystemCapabilitiesView, more_free: u64)
    requires
        caps.free_disk_space_bytes <= more_free,
        recommendation(caps).swap_mode == SwapMode::ZramSwapfc,
    ensures
        recommendation(SystemCapabilitiesView { free_disk_space_bytes: more_free, ..caps }).swap_mode
            == SwapMode::ZramSwapfc,
{
}

/// More RAM never adds swap files: if the recommendation is zram only, it
/// stays so with any larger RAM size.
pub proof fn lemma_more_ram_never_adds_swapfiles(caps: SystemCapabilitiesView, more_ram: u64)
    requires
        caps.total_ram_bytes <= more_ram,
        recommendation(caps).swap_mode == SwapMode::ZramOnly,
    ensures
        recommendation(SystemCapabilitiesView { total_ram_bytes: more_ram, ..caps }).swap_mode
            == SwapMode::ZramOnly,
{
}

/// The filesystem types that mark a live system are not ones that support
/// swap files, so detection and recommendation agree: a system whose probed
/// filesystem is that of a live medium gets zram only.
pub proof fn lemma_live_fstype_is_zram_only(
    swap_path_fstype: Option<Seq<char>>,
    root_fstype: Option<Seq<char>>,
    total_ram: Option<u64>,
    free_space: Option<u64>,
    parallelism: Option<usize>,
)
    requires
        marks_live_system(resolved_fstype(swap_path_fstype, root_fstype)),
    ensures
        probed_capabilities(swap_path_fstype, root_fstype, total_ram, free_space, parallelism).is_live_system,
        recommendation(probed_capabilities(swap_path_fstype, root_fstype, total_ram, free_space, parallelism)).swap_mode
            == SwapMode::ZramOnly,
        forall|fs: Seq<char>| is_live_fstype(fs) ==> !supports_swapfiles(fs),
{
    reveal_strlit("tmpfs");
    reveal_strlit("squashfs");
    reveal_strlit("overlay");
    reveal_strlit("btrfs");
    reveal_strlit("ext4");
    reveal_strlit("xfs");
    assert forall|fs: Seq<char>| is_live_fstype(fs) implies !supports_swapfiles(fs) by {
        assert("tmpfs"@[0] != "btrfs"@[0]);
        assert("squashfs"@.len() != "btrfs"@.len());
        assert("overlay"@.len() != "btrfs"@.len());
        assert("tmpfs"@.len() != "ext4"@.len() && "tmpfs"@.len() != "xfs"@.len());
        assert("squashfs"@.len() != "ext4"@.len() && "squashfs"@.len() != "xfs"@.len());
        assert("overlay"@.len() != "ext4"@.len() && "overlay"@.len() != "xfs"@.len());
    }
}

/// The injected keys, in every mode: the three zram keys come first and the
/// multi-generational LRU key last; the swap file keys are present exactly
/// in the zram-plus-swap-files mode; no key occurs twice.
pub proof fn lemma_config_pairs_keys(cfg: RecommendedConfigView)
    ensures
        keys_of(config_pairs_view(cfg))[0] == "zram_alg"@,
        keys_of(config_pairs_view(cfg))[1] == "zram_size"@,
        keys_of(config_pairs_view(cfg))[2] == "zram_prio"@,
        keys_of(config_pairs_view(cfg)).last() == "mglru_min_ttl_ms"@,
        cfg.swap_mode == SwapMode::ZramSwapfc ==> keys_of(config_pairs_view(cfg)).len() == 9
            && keys_of(config_pairs_view(cfg)).subrange(3, 8) == swapfile_keys(),
        cfg.swap_mode == SwapMode::ZramOnly ==> keys_of(config_pairs_view(cfg)).len() == 4,
        forall|i: int| 0 <= i < 5 ==>
            (keys_of(config_pairs_view(cfg)).contains(#[trigger] swapfile_keys()[i])
                <==> cfg.swap_mode == SwapMode::ZramSwapfc),
        keys_of(config_pairs_view(cfg)).no_duplicates(),
{
    reveal_key_literals();
    let k = keys_of(config_pairs_view(cfg));
    assert("zram_size"@[5] != "zram_prio"@[5]);
    match cfg.swap_mode {
        SwapMode::ZramSwapfc => {
            assert(k =~= seq!["zram_alg"@, "zram_size"@, "zram_prio"@] + swapfile_keys() + seq!["mglru_min_ttl_ms"@]);
            assert(k.subrange(3, 8) =~= swapfile_keys());
            assert forall|i: int| 0 <= i < 5 implies k.contains(#[trigger] swapfile_keys()[i]) by {
                assert(k[i + 3] == swapfile_keys()[i]);
            }
        },
        SwapMode::ZramOnly => {
            assert(k =~= seq!["zram_alg"@, "zram_size"@, "zram_prio"@, "mglru_min_ttl_ms"@]);
            assert forall|i: int| 0 <= i < 5 implies !k.contains(#[trigger] swapfile_keys()[i]) by {
                if k.contains(swapfile_keys()[i]) {
                    let j = choose|j: int| 0 <= j < k.len() && k[j] == swapfile_keys()[i];
                    assert(k[j].len() != swapfile_keys()[i].len());
                }
            }
        },
    }
}

/// The zram size is always written as a base-ten percentage with a trailing
/// `%`, and it is the only value under the `zram_size` key.
pub proof fn lemma_zram_size_is_percent(cfg: RecommendedConfigView)
    ensures
        forall|i: int| 0 <= i < config_pairs_view(cfg).len() && #[trigger] config_pairs_view(cfg)[i].0 == "zram_size"@
            ==> i == 1 && config_pairs_view(cfg)[i].1 == decimal(cfg.zram_size_percent as nat) + "%"@
                && config_pairs_view(cfg)[i].1.last() == '%',
{
    lemma_config_pairs_keys(cfg);
    reveal_strlit("%");
    let pairs = config_pairs_view(cfg);
    assert forall|i: int| 0 <= i < pairs.len() && #[trigger] pairs[i].0 == "zram_size"@
        implies i == 1 && pairs[i].1 == decimal(cfg.zram_size_percent as nat) + "%"@ && pairs[i].1.last() == '%' by {
        assert(keys_of(pairs)[i] == pairs[i].0);
        assert(keys_of(pairs)[1] == pairs[1].0);
    }
}


/// `pairs` holds the entry `(key, value)`, and every entry under `key` has
/// that value.
pub open spec fn has_entry(pairs: Seq<(Seq<char>, Seq<char>)>, key: Seq<char>, value: Seq<char>) -> bool {
    &&& exists|i: int| 0 <= i < pairs.len() && #[trigger] pairs[i] == (key, value)
    &&& forall|i: int| 0 <= i < pairs.len() && (#[trigger] pairs[i]).0 == key ==> pairs[i].1 == value
}

/// No entry of `pairs` is under `key`.
pub open spec fn lacks_key(pairs: Seq<(Seq<char>, Seq<char>)>, key: Seq<char>) -> bool {
    forall|i: int| 0 <= i < pairs.len() ==> (#[trigger] pairs[i]).0 != key
}

/// Each injected key carries the value of its field of `cfg`, spelled in
/// base ten for numbers; the swap file keys are there exactly in the
/// zram-plus-swap-files mode.
pub open spec fn carries_fields(pairs: Seq<(Seq<char>, Seq<char>)>, cfg: RecommendedConfigView) -> bool {
    &&& has_entry(pairs, "zram_alg"@, cfg.zram_algorithm)
    &&& has_entry(pairs, "zram_size"@, decimal(cfg.zram_size_percent as nat) + "%"@)
    &&& has_entry(pairs, "zram_prio"@, signed_decimal(defaults::ZRAM_PRIO as int))
    &&& has_entry(pairs, "mglru_min_ttl_ms"@, decimal(cfg.mglru_min_ttl_ms as nat))
    &&& cfg.swap_mode == SwapMode::ZramSwapfc ==> {
        &&& has_entry(pairs, "swapfile_chunk_size"@, cfg.swapfc_chunk_size)
        &&& has_entry(pairs, "swapfile_max_count"@, decimal(cfg.swapfc_max_count as nat))
        &&& has_entry(pairs, "swapfile_free_ram_perc"@, decimal(cfg.swapfc_free_ram_perc as nat))
        &&& has_entry(pairs, "swapfile_free_swap_perc"@, decimal(cfg.swapfc_free_swap_perc as nat))
        &&& has_entry(pairs, "swapfile_remove_free_swap_perc"@, decimal(cfg.swapfc_remove_free_swap_perc as nat))
    }
    &&& cfg.swap_mode == SwapMode::ZramOnly ==> {
        &&& lacks_key(pairs, "swapfile_chunk_size"@)
        &&& lacks_key(pairs, "swapfile_max_count"@)
        &&& lacks_key(pairs, "swapfile_free_ram_perc"@)
        &&& lacks_key(pairs, "swapfile_free_swap_perc"@)
        &&& lacks_key(pairs, "swapfile_remove_free_swap_perc"@)
    }
}

proof fn lemma_entry_at(pairs: Seq<(Seq<char>, Seq<char>)>, k: int)
    requires
        0 <= k < pairs.len(),
        keys_of(pairs).no_duplicates(),
    ensures
        has_entry(pairs, pairs[k].0, pairs[k].1),
{
    assert forall|i: int| 0 <= i < pairs.len() && (#[trigger] pairs[i]).0 == pairs[k].0 implies pairs[i].1 == pairs[k].1 by {
        assert(keys_of(pairs)[i] == keys_of(pairs)[k]);
    }
}

/// The injected pairs carry the configuration's own field values: every key
/// holds the value of its field (numbers in base ten, the zram size with a
/// trailing `%`), and the swap file keys appear exactly in the
/// zram-plus-swap-files mode.
pub proof fn lemma_config_pairs_carry_fields(cfg: RecommendedConfigView)
    ensures
        carries_fields(config_pairs_view(cfg), cfg),
{
    lemma_config_pairs_keys(cfg);
    reveal_key_literals();
    let pairs = config_pairs_view(cfg);
    let n = pairs.len() as int;
    assert(keys_of(pairs)[n - 1] == pairs[n - 1].0);
    lemma_entry_at(pairs, 0);
    lemma_entry_at(pairs, 1);
    lemma_entry_at(pairs, 2);
    lemma_entry_at(pairs, n - 1);
    if cfg.swap_mode == SwapMode::ZramSwapfc {
        lemma_entry_at(pairs, 3);
        lemma_entry_at(pairs, 4);
        lemma_entry_at(pairs, 5);
        lemma_entry_at(pairs, 6);
        lemma_entry_at(pairs, 7);
    } else {
        assert(n == 4);
        assert forall|i: int| 0 <= i < n implies (#[trigger] pairs[i]).0.len() < 17 by {
            assert(i == 0 || i == 1 || i == 2 || i == 3);
        }
    }
}

/// Swap files are recommended exactly on systems that are not live, whose
/// swap location is on btrfs, ext4 or xfs, and whose free disk space is at
/// least their RAM size; with swap files the maximum count is 28, without
/// them it is 0.
pub proof fn lemma_swapfiles_exactly_on_capable_systems(caps: SystemCapabilitiesView)
    ensures
        recommendation(caps).swap_mode == SwapMode::ZramSwapfc <==> (!caps.is_live_system
            && (caps.swap_path_fstype == Some("btrfs"@)
                || caps.swap_path_fstype == Some("ext4"@)
                || caps.swap_path_fstype == Some("xfs"@))
            && caps.free_disk_space_bytes >= caps.total_ram_bytes),
        recommendation(caps).swap_mode == SwapMode::ZramSwapfc ==> recommendation(caps).swapfc_max_count == 28,
        recommendation(caps).swap_mode == SwapMode::ZramOnly ==> recommendation(caps).swapfc_max_count == 0,
{
}

/// Detection marks a system live exactly when the filesystem type it
/// resolved (that of the swap path, else that of `/`) is tmpfs, squashfs or
/// overlay.
pub proof fn lemma_live_exactly_on_live_media(
    swap_path_fstype: Option<Seq<char>>,
    root_fstype: Option<Seq<char>>,
    total_ram: Option<u64>,
    free_space: Option<u64>,
    parallelism: Option<usize>,
)
    ensures
        ({
            let caps = probed_capabilities(swap_path_fstype, root_fstype, total_ram, free_space, parallelism);
            let fstype = if swap_path_fstype is Some { swap_path_fstype } else { root_fstype };
            &&& caps.swap_path_fstype == fstype
            &&& caps.is_live_system == (fstype == Some("tmpfs"@) || fstype == Some("squashfs"@)
                || fstype == Some("overlay"@))
        }),
{
}


/// The settings both presets share: zram at 150% of RAM compressed with
/// zstd, 512M swap files, swap files added below 20% free RAM and 40% free
/// swap and removed above 70% free swap, and a 1000 ms LRU time-to-live.
pub open spec fn preset_values(cfg: RecommendedConfigView) -> bool {
    &&& cfg.zram_size_percent == 150
    &&& cfg.zram_algorithm == "zstd"@
    &&& cfg.swapfc_chunk_size == "512M"@
    &&& cfg.swapfc_free_ram_perc == 20
    &&& cfg.swapfc_free_swap_perc == 40
    &&& cfg.swapfc_remove_free_swap_perc == 70
    &&& cfg.mglru_min_ttl_ms == 1000
}

/// Both presets hold the shared settings; the zram-only preset allows no
/// swap files and the other up to 28.
pub proof fn lemma_preset_values(mode: SwapMode)
    ensures
        preset_values(preset(mode)),
        preset(mode).swap_mode == mode,
        preset(mode).swapfc_max_count == (if mode == SwapMode::ZramOnly { 0u32 } else { 28u32 }),
{
}

} // verus!
