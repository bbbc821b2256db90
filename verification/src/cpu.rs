//! The snapshot records and their assembly.
//!
//! Each record can be built in two ways: `from_registry*` resolves it
//! against an explicit [`Registry`] value and is specified exactly, field by
//! field; `from_sysctl*` resolves it against the host machine, whose keys
//! and values are outside this crate's control, so only structural facts are
//! promised there.

use vstd::prelude::*;
use crate::keys;
use crate::keys::{spec_perf_key, spec_probe_key};
use crate::machine;
use crate::registry::{read_of, Registry};
use crate::resolve::{resolve_i32, resolve_i64, resolve_text, spec_resolve_int, spec_resolve_text};

verus! {

/// What key `key` of registry `m` resolves to as an `i32`.
pub open spec fn resolve_i32_of(m: Map<Seq<char>, Option<Seq<char>>>, key: Seq<char>) -> int {
    spec_resolve_int(read_of(m, key), i32::MIN as int, i32::MAX as int)
}

/// What key `key` of registry `m` resolves to as an `i64`.
pub open spec fn resolve_i64_of(m: Map<Seq<char>, Option<Seq<char>>>, key: Seq<char>) -> int {
    spec_resolve_int(read_of(m, key), i64::MIN as int, i64::MAX as int)
}

/// What key `key` of registry `m` resolves to as text.
pub open spec fn resolve_text_of(m: Map<Seq<char>, Option<Seq<char>>>, key: Seq<char>) -> Seq<
    char,
> {
    spec_resolve_text(read_of(m, key))
}

/// Detailed identification and branding of the CPU.
#[derive(Debug, PartialEq)]
pub struct CPUIdentification {
    /// sysctl: machdep.cpu.brand_string
    pub brand_string: String,
    /// sysctl: machdep.cpu.vendor
    pub vendor: String,
    /// sysctl: machdep.cpu.feature_bits
    pub feature_bits: String,
}

/// The mathematical content of a [`CPUIdentification`].
pub struct CPUIdentificationView {
    pub brand_string: Seq<char>,
    pub vendor: Seq<char>,
    pub feature_bits: Seq<char>,
}

impl View for CPUIdentification {
    type V = CPUIdentificationView;

    open spec fn view(&self) -> CPUIdentificationView {
        CPUIdentificationView {
            brand_string: self.brand_string@,
            vendor: self.vendor@,
            feature_bits: self.feature_bits@,
        }
    }
}

/// The identification record that registry `m` resolves to.
pub open spec fn ident_of(m: Map<Seq<char>, Option<Seq<char>>>) -> CPUIdentificationView {
    CPUIdentificationView {
        brand_string: resolve_text_of(m, "machdep.cpu.brand_string"@),
        vendor: resolve_text_of(m, "machdep.cpu.vendor"@),
        feature_bits: resolve_text_of(m, "machdep.cpu.feature_bits"@),
    }
}

impl CPUIdentification {
    /// Resolves the identification record against `reg`.
    pub fn from_registry(reg: &Registry) -> (r: Self)
        ensures
            r@ == ident_of(reg@),
    {
        CPUIdentification {
            brand_string: reg.resolve_text(&"machdep.cpu.brand_string".to_owned()),
            vendor: reg.resolve_text(&"machdep.cpu.vendor".to_owned()),
            feature_bits: reg.resolve_text(&"machdep.cpu.feature_bits".to_owned()),
        }
    }

    /// Resolves the identification record against the host machine.
    pub fn from_sysctl() -> Self {
        CPUIdentification {
            brand_string: resolve_text(
                machine::read_key_text(&"machdep.cpu.brand_string".to_owned()),
            ),
            vendor: resolve_text(machine::read_key_text(&"machdep.cpu.vendor".to_owned())),
            feature_bits: resolve_text(
                machine::read_key_text(&"machdep.cpu.feature_bits".to_owned()),
            ),
        }
    }
}

/// Information about the number of physical and logical cores.
#[derive(Debug, PartialEq)]
pub struct CPUCoreCounts {
    /// sysctl: hw.physicalcpu
    pub physical: i32,
    /// sysctl: hw.logicalcpu
    pub logical: i32,
    /// sysctl: hw.physicalcpu_max
    pub max_physical: i32,
    /// sysctl: hw.logicalcpu_max
    pub max_logical: i32,
}

/// The mathematical content of a [`CPUCoreCounts`].
pub struct CPUCoreCountsView {
    pub physical: int,
    pub logical: int,
    pub max_physical: int,
    pub max_logical: int,
}

impl View for CPUCoreCounts {
    type V = CPUCoreCountsView;

    open spec fn view(&self) -> CPUCoreCountsView {
        CPUCoreCountsView {
            physical: self.physical as int,
            logical: self.logical as int,
            max_physical: self.max_physical as int,
            max_logical: self.max_logical as int,
        }
    }
}

/// The core-count record that registry `m` resolves to.
pub open spec fn core_counts_of(m: Map<Seq<char>, Option<Seq<char>>>) -> CPUCoreCountsView {
    CPUCoreCountsView {
        physical: resolve_i32_of(m, "hw.physicalcpu"@),
        logical: resolve_i32_of(m, "hw.logicalcpu"@),
        max_physical: resolve_i32_of(m, "hw.physicalcpu_max"@),
        max_logical: resolve_i32_of(m, "hw.logicalcpu_max"@),
    }
}

impl CPUCoreCounts {
    /// Resolves the core-count record against `reg`.
    pub fn from_registry(reg: &Registry) -> (r: Self)
        ensures
            r@ == core_counts_of(reg@),
    {
        CPUCoreCounts {
            physical: reg.resolve_i32(&"hw.physicalcpu".to_owned()),
            logical: reg.resolve_i32(&"hw.logicalcpu".to_owned()),
            max_physical: reg.resolve_i32(&"hw.physicalcpu_max".to_owned()),
            max_logical: reg.resolve_i32(&"hw.logicalcpu_max".to_owned()),
        }
    }

    /// Resolves the core-count record against the host machine.
    pub fn from_sysctl() -> Self {
        CPUCoreCounts {
            physical: resolve_i32(machine::read_key_text(&"hw.physicalcpu".to_owned())),
            logical: resolve_i32(machine::read_key_text(&"hw.logicalcpu".to_owned())),
            max_physical: resolve_i32(machine::read_key_text(&"hw.physicalcpu_max".to_owned())),
            max_logical: resolve_i32(machine::read_key_text(&"hw.logicalcpu_max".to_owned())),
        }
    }
}

/// CPU frequency information.
#[derive(Debug, PartialEq)]
pub struct CPUFrequency {
    /// sysctl: hw.cpufrequency (may legitimately be zero where the platform
    /// does not expose it)
    pub hz: i64,
}

/// The mathematical content of a [`CPUFrequency`].
pub struct CPUFrequencyView {
    pub hz: int,
}

impl View for CPUFrequency {
    type V = CPUFrequencyView;

    open spec fn view(&self) -> CPUFrequencyView {
        CPUFrequencyView { hz: self.hz as int }
    }
}

/// The frequency record that registry `m` resolves to.
pub open spec fn frequency_of(m: Map<Seq<char>, Option<Seq<char>>>) -> CPUFrequencyView {
    CPUFrequencyView { hz: resolve_i64_of(m, "hw.cpufrequency"@) }
}

impl CPUFrequency {
    /// Resolves the frequency record against `reg`.
    pub fn from_registry(reg: &Registry) -> (r: Self)
        ensures
            r@ == frequency_of(reg@),
    {
        CPUFrequency { hz: reg.resolve_i64(&"hw.cpufrequency".to_owned()) }
    }

    /// Resolves the frequency record against the host machine.
    pub fn from_sysctl() -> Self {
        CPUFrequency { hz: resolve_i64(machine::read_key_text(&"hw.cpufrequency".to_owned())) }
    }
}

/// Detailed cache information for a specific performance level.
#[derive(Debug, PartialEq)]
pub struct CacheInfo {
    /// sysctl: hw.perflevelX.l1icachesize
    pub l1_instruction_bytes: i64,
    /// sysctl: hw.perflevelX.l1dcachesize
    pub l1_data_bytes: i64,
    /// sysctl: hw.perflevelX.l2cachesize
    pub l2_bytes: i64,
    /// sysctl: hw.perflevelX.l3cachesize
    pub l3_bytes: i64,
}

/// The mathematical content of a [`CacheInfo`].
pub struct CacheInfoView {
    pub l1_instruction_bytes: int,
    pub l1_data_bytes: int,
    pub l2_bytes: int,
    pub l3_bytes: int,
}

impl View for CacheInfo {
    type V = CacheInfoView;

    open spec fn view(&self) -> CacheInfoView {
        CacheInfoView {
            l1_instruction_bytes: self.l1_instruction_bytes as int,
            l1_data_bytes: self.l1_data_bytes as int,
            l2_bytes: self.l2_bytes as int,
            l3_bytes: self.l3_bytes as int,
        }
    }
}

/// The cache record of performance level `id` that registry `m` resolves to.
pub open spec fn cache_of(m: Map<Seq<char>, Option<Seq<char>>>, id: int) -> CacheInfoView {
    CacheInfoView {
        l1_instruction_bytes: resolve_i64_of(m, spec_perf_key(id, ".l1icachesize"@)),
        l1_data_bytes: resolve_i64_of(m, spec_perf_key(id, ".l1dcachesize"@)),
        l2_bytes: resolve_i64_of(m, spec_perf_key(id, ".l2cachesize"@)),
        l3_bytes: resolve_i64_of(m, spec_perf_key(id, ".l3cachesize"@)),
    }
}

impl CacheInfo {
    /// Resolves the cache record of performance level `id` against `reg`.
    pub fn from_registry_id(reg: &Registry, id: i32) -> (r: Self)
        requires
            0 <= id,
        ensures
            r@ == cache_of(reg@, id as int),
    {
        CacheInfo {
            l1_instruction_bytes: reg.resolve_i64(&keys::perf_key(id, ".l1icachesize")),
            l1_data_bytes: reg.resolve_i64(&keys::perf_key(id, ".l1dcachesize")),
            l2_bytes: reg.resolve_i64(&keys::perf_key(id, ".l2cachesize")),
            l3_bytes: reg.resolve_i64(&keys::perf_key(id, ".l3cachesize")),
        }
    }

    /// Resolves the cache record of performance level `id` against the host
    /// machine.
    pub fn from_sysctl_id(id: i32) -> Self
        requires
            0 <= id,
    {
        CacheInfo {
            l1_instruction_bytes: resolve_i64(
                machine::read_key_text(&keys::perf_key(id, ".l1icachesize")),
            ),
            l1_data_bytes: resolve_i64(
                machine::read_key_text(&keys::perf_key(id, ".l1dcachesize")),
            ),
            l2_bytes: resolve_i64(machine::read_key_text(&keys::perf_key(id, ".l2cachesize"))),
            l3_bytes: resolve_i64(machine::read_key_text(&keys::perf_key(id, ".l3cachesize"))),
        }
    }
}

/// Information about how cores share caches.
#[derive(Debug, PartialEq)]
pub struct CacheSharing {
    /// sysctl: hw.perflevelX.cpusperl2
    pub cores_per_l2: i32,
    /// sysctl: hw.perflevelX.cpusperl3 (may be zero when the tier is absent)
    pub cores_per_l3: i32,
}

/// The mathematical content of a [`CacheSharing`].
pub struct CacheSharingView {
    pub cores_per_l2: int,
    pub cores_per_l3: int,
}

impl View for CacheSharing {
    type V = CacheSharingView;

    open spec fn view(&self) -> CacheSharingView {
        CacheSharingView {
            cores_per_l2: self.cores_per_l2 as int,
            cores_per_l3: self.cores_per_l3 as int,
        }
    }
}

/// The cache-sharing record of performance level `id` that registry `m`
/// resolves to.
pub open spec fn sharing_of(m: Map<Seq<char>, Option<Seq<char>>>, id: int) -> CacheSharingView {
    CacheSharingView {
        cores_per_l2: resolve_i32_of(m, spec_perf_key(id, ".cpusperl2"@)),
        cores_per_l3: resolve_i32_of(m, spec_perf_key(id, ".cpusperl3"@)),
    }
}

impl CacheSharing {
    /// Resolves the cache-sharing record of performance level `id` against
    /// `reg`.
    pub fn from_registry_id(reg: &Registry, id: i32) -> (r: Self)
        requires
            0 <= id,
        ensures
            r@ == sharing_of(reg@, id as int),
    {
        CacheSharing {
            cores_per_l2: reg.resolve_i32(&keys::perf_key(id, ".cpusperl2")),
            cores_per_l3: reg.resolve_i32(&keys::perf_key(id, ".cpusperl3")),
        }
    }

    /// Resolves the cache-sharing record of performance level `id` against
    /// the host machine.
    pub fn from_sysctl_id(id: i32) -> Self
        requires
            0 <= id,
    {
        CacheSharing {
            cores_per_l2: resolve_i32(machine::read_key_text(&keys::perf_key(id, ".cpusperl2"))),
            cores_per_l3: resolve_i32(machine::read_key_text(&keys::perf_key(id, ".cpusperl3"))),
        }
    }
}

/// Represents a performance level of the CPU (e.g. performance cores vs.
/// efficiency cores).
#[derive(Debug, PartialEq)]
pub struct PerformanceLevel {
    /// Internal identifier, derived from hw.perflevel0, hw.perflevel1, ...
    pub id: i32,
    pub cache: CacheInfo,
    pub cache_sharing: CacheSharing,
}

/// The mathematical content of a [`PerformanceLevel`].
pub struct PerformanceLevelView {
    pub id: int,
    pub cache: CacheInfoView,
    pub cache_sharing: CacheSharingView,
}

impl View for PerformanceLevel {
    type V = PerformanceLevelView;

    open spec fn view(&self) -> PerformanceLevelView {
        PerformanceLevelView {
            id: self.id as int,
            cache: self.cache@,
            cache_sharing: self.cache_sharing@,
        }
    }
}

/// The performance-level record of id `id` that registry `m` resolves to.
pub open spec fn level_of(m: Map<Seq<char>, Option<Seq<char>>>, id: int) -> PerformanceLevelView {
    PerformanceLevelView { id: id, cache: cache_of(m, id), cache_sharing: sharing_of(m, id) }
}

/// The views of a sequence of performance-level records.
pub open spec fn levels_view(s: Seq<PerformanceLevel>) -> Seq<PerformanceLevelView> {
    s.map_values(|p: PerformanceLevel| p@)
}

/// What discovery against registry `m` must yield: a contiguous run of
/// levels, each probed to exist and resolved from `m`, stopped at the first
/// id whose probe key is absent (discovery never runs past `i32::MAX` ids).
pub open spec fn is_levels_of(
    ls: Seq<PerformanceLevelView>,
    m: Map<Seq<char>, Option<Seq<char>>>,
) -> bool {
    &&& ls.len() <= i32::MAX as int
    &&& forall|i: int| 0 <= i < ls.len() ==> m.contains_key(#[trigger] spec_probe_key(i))
    &&& forall|i: int| #![trigger ls[i]] 0 <= i < ls.len() ==> ls[i] == level_of(m, i)
    &&& (ls.len() == i32::MAX as int || !m.contains_key(spec_probe_key(ls.len() as int)))
}

impl PerformanceLevel {
    /// Resolves the performance-level record of id `id` against `reg`.
    pub fn from_registry_id(reg: &Registry, id: i32) -> (r: Self)
        requires
            0 <= id,
        ensures
            r@ == level_of(reg@, id as int),
    {
        PerformanceLevel {
            id,
            cache: CacheInfo::from_registry_id(reg, id),
            cache_sharing: CacheSharing::from_registry_id(reg, id),
        }
    }

    /// Resolves the performance-level record of id `id` against the host
    /// machine.
    pub fn from_sysctl_id(id: i32) -> (r: Self)
        requires
            0 <= id,
        ensures
            r.id == id,
    {
        PerformanceLevel {
            id,
            cache: CacheInfo::from_sysctl_id(id),
            cache_sharing: CacheSharing::from_sysctl_id(id),
        }
    }

    /// Discovers every performance level of `reg`: probes ids 0, 1, 2, ...
    /// and stops at the first id whose probe key is absent.
    pub fn all_from_registry(reg: &Registry) -> (r: Vec<PerformanceLevel>)
        ensures
            is_levels_of(levels_view(r@), reg@),
    {
        let mut levels: Vec<PerformanceLevel> = Vec::new();
        let mut id: i32 = 0;
        loop
            invariant
                0 <= id <= i32::MAX,
                levels@.len() == id as int,
                forall|i: int|
                    0 <= i < id as int ==> reg@.contains_key(#[trigger] spec_probe_key(i)),
                forall|i: int| #![trigger levels@[i]] 0 <= i < id as int ==> levels@[i]@
                    == level_of(reg@, i),
            ensures
                0 <= id <= i32::MAX,
                levels@.len() == id as int,
                forall|i: int|
                    0 <= i < id as int ==> reg@.contains_key(#[trigger] spec_probe_key(i)),
                forall|i: int| #![trigger levels@[i]] 0 <= i < id as int ==> levels@[i]@
                    == level_of(reg@, i),
                id == i32::MAX || !reg@.contains_key(spec_probe_key(id as int)),
            decreases i32::MAX - id,
        {
            if id == i32::MAX {
                break ;
            }
            let key = keys::perf_key(id, ".l1icachesize");
            if !reg.contains_key(&key) {
                break ;
            }
            levels.push(PerformanceLevel::from_registry_id(reg, id));
            id += 1;
        }
        proof {
            let lv = levels_view(levels@);
            assert(forall|i: int| 0 <= i < lv.len() ==> #[trigger] lv[i] == levels@[i]@);
            assert(is_levels_of(lv, reg@));
        }
        levels
    }

    /// Discovers every performance level of the host machine: probes ids
    /// 0, 1, 2, ... and stops at the first id whose probe key is absent.
    /// Which ids the host answers is machine-dependent; the records carry
    /// their discovery ids in order.
    pub fn all_from_sysctl() -> (r: Vec<PerformanceLevel>)
        ensures
            forall|i: int|
                #![trigger r@[i]]
                0 <= i < r@.len() ==> r@[i].id as int == i,
    {
        let mut levels: Vec<PerformanceLevel> = Vec::new();
        let mut id: i32 = 0;
        loop
            invariant
                0 <= id <= i32::MAX,
                levels@.len() == id as int,
                forall|i: int| #![trigger levels@[i]] 0 <= i < id as int ==> levels@[i].id as int
                    == i,
            ensures
                levels@.len() == id as int,
                forall|i: int| #![trigger levels@[i]] 0 <= i < id as int ==> levels@[i].id as int
                    == i,
            decreases i32::MAX - id,
        {
            if id == i32::MAX {
                break ;
            }
            let key = keys::perf_key(id, ".l1icachesize");
            if !machine::probe_key(&key) {
                break ;
            }
            levels.push(PerformanceLevel::from_sysctl_id(id));
            id += 1;
        }
        levels
    }
}

/// Represents the overall CPU information, acting as a container.
#[derive(Debug, PartialEq)]
pub struct CPUInfo {
    pub identification: CPUIdentification,
    pub core_counts: CPUCoreCounts,
    pub frequency: CPUFrequency,
    pub performance_levels: Vec<PerformanceLevel>,
}

/// The mathematical content of a [`CPUInfo`].
pub struct CPUInfoView {
    pub identification: CPUIdentificationView,
    pub core_counts: CPUCoreCountsView,
    pub frequency: CPUFrequencyView,
    pub performance_levels: Seq<PerformanceLevelView>,
}

impl View for CPUInfo {
    type V = CPUInfoView;

    open spec fn view(&self) -> CPUInfoView {
        CPUInfoView {
            identification: self.identification@,
            core_counts: self.core_counts@,
            frequency: self.frequency@,
            performance_levels: levels_view(self.performance_levels@),
        }
    }
}

/// Whether `v` is the snapshot that registry `m` resolves to: every fixed
/// record is the resolution of its catalog keys, and the performance levels
/// are the discovery result.
pub open spec fn is_snapshot_of(v: CPUInfoView, m: Map<Seq<char>, Option<Seq<char>>>) -> bool {
    &&& v.identification == ident_of(m)
    &&& v.core_counts == core_counts_of(m)
    &&& v.frequency == frequency_of(m)
    &&& is_levels_of(v.performance_levels, m)
}

impl CPUInfo {
    /// Builds the whole snapshot against `reg`.
    pub fn from_registry(reg: &Registry) -> (r: Self)
        ensures
            is_snapshot_of(r@, reg@),
    {
        CPUInfo {
            identification: CPUIdentification::from_registry(reg),
            core_counts: CPUCoreCounts::from_registry(reg),
            frequency: CPUFrequency::from_registry(reg),
            performance_levels: PerformanceLevel::all_from_registry(reg),
        }
    }

    /// Builds the whole snapshot against the host machine. The values depend
    /// on the machine; the performance levels carry their discovery ids in
    /// order.
    pub fn new() -> (r: Self)
        ensures
            forall|i: int|
                #![trigger r.performance_levels@[i]]
                0 <= i < r.performance_levels@.len() ==> r.performance_levels@[i].id as int == i,
    {
        CPUInfo {
            identification: CPUIdentification::from_sysctl(),
            core_counts: CPUCoreCounts::from_sysctl(),
            frequency: CPUFrequency::from_sysctl(),
            performance_levels: PerformanceLevel::all_from_sysctl(),
        }
    }
}

impl Default for CPUInfo {
    fn default() -> (r: Self)
        ensures
            forall|i: int|
                #![trigger r.performance_levels@[i]]
                0 <= i < r.performance_levels@.len() ==> r.performance_levels@[i].id as int == i,
    {
        Self::new()
    }
}

/// Any catalog field whose key yields no readable text resolves to the zero
/// value of its declared type: the empty string for text, zero for integers.
pub proof fn lemma_missing_value_defaults(m: Map<Seq<char>, Option<Seq<char>>>, id: int)
    ensures
        read_of(m, "machdep.cpu.brand_string"@) is None ==> ident_of(m).brand_string == Seq::<
            char,
        >::empty(),
        read_of(m, "machdep.cpu.vendor"@) is None ==> ident_of(m).vendor == Seq::<char>::empty(),
        read_of(m, "machdep.cpu.feature_bits"@) is None ==> ident_of(m).feature_bits == Seq::<
            char,
        >::empty(),
        read_of(m, "hw.physicalcpu"@) is None ==> core_counts_of(m).physical == 0,
        read_of(m, "hw.logicalcpu"@) is None ==> core_counts_of(m).logical == 0,
        read_of(m, "hw.physicalcpu_max"@) is None ==> core_counts_of(m).max_physical == 0,
        read_of(m, "hw.logicalcpu_max"@) is None ==> core_counts_of(m).max_logical == 0,
        read_of(m, "hw.cpufrequency"@) is None ==> frequency_of(m).hz == 0,
        read_of(m, spec_perf_key(id, ".l1icachesize"@)) is None ==> cache_of(
            m,
            id,
        ).l1_instruction_bytes == 0,
        read_of(m, spec_perf_key(id, ".l1dcachesize"@)) is None ==> cache_of(m, id).l1_data_bytes
            == 0,
        read_of(m, spec_perf_key(id, ".l2cachesize"@)) is None ==> cache_of(m, id).l2_bytes == 0,
        read_of(m, spec_perf_key(id, ".l3cachesize"@)) is None ==> cache_of(m, id).l3_bytes == 0,
        read_of(m, spec_perf_key(id, ".cpusperl2"@)) is None ==> sharing_of(m, id).cores_per_l2
            == 0,
        read_of(m, spec_perf_key(id, ".cpusperl3"@)) is None ==> sharing_of(m, id).cores_per_l3
            == 0,
{
}

/// Discovery is deterministic: two level sequences that both satisfy the
/// discovery contract for the same registry are equal.
pub proof fn lemma_levels_deterministic(
    m: Map<Seq<char>, Option<Seq<char>>>,
    x: Seq<PerformanceLevelView>,
    y: Seq<PerformanceLevelView>,
)
    requires
        is_levels_of(x, m),
        is_levels_of(y, m),
    ensures
        x == y,
{
    if x.len() < y.len() {
        assert(y[x.len() as int] == level_of(m, x.len() as int));
        assert(m.contains_key(spec_probe_key(x.len() as int)));
        assert(false);
    }
    if y.len() < x.len() {
        assert(x[y.len() as int] == level_of(m, y.len() as int));
        assert(m.contains_key(spec_probe_key(y.len() as int)));
        assert(false);
    }
    assert forall|i: int| 0 <= i < x.len() implies x[i] == y[i] by {
        assert(x[i] == level_of(m, i));
        assert(y[i] == level_of(m, i));
    }
    assert(x =~= y);
}

/// Snapshot construction is idempotent: against one registry, any two
/// snapshots that satisfy the construction contract are structurally
/// identical, field for field.
pub proof fn lemma_snapshot_deterministic(
    m: Map<Seq<char>, Option<Seq<char>>>,
    a: CPUInfoView,
    b: CPUInfoView,
)
    requires
        is_snapshot_of(a, m),
        is_snapshot_of(b, m),
    ensures
        a == b,
{
    lemma_levels_deterministic(m, a.performance_levels, b.performance_levels);
}

} // verus!
