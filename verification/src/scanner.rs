//! The hardware readings that the evaluation works on, and how raw readings
//! (bytes, core counts, disk lists) become them.
//!
//! Sizes are kept in tenths of a gigabyte (1 GB = 2^30 bytes) and
//! percentages in tenths of a percent, rounded to the nearest tenth with
//! halves rounded away from zero.
use vstd::prelude::*;
use crate::rules::{Component, component_from_name};

verus! {

/// Bytes in a gigabyte.
pub const GIB: u64 = 1073741824;

/// `num / den` rounded to the nearest integer, halves rounded up.
pub open spec fn rounded_ratio(num: nat, den: nat) -> nat
    recommends
        den > 0,
{
    ((2 * num + den) / (2 * den)) as nat
}

/// `num / den` rounded to the nearest integer, halves rounded away from zero.
pub open spec fn rounded_ratio_signed(num: int, den: nat) -> int
    recommends
        den > 0,
{
    if num >= 0 {
        rounded_ratio(num as nat, den) as int
    } else {
        -(rounded_ratio((-num) as nat, den) as int)
    }
}

/// A size in bytes, as tenths of a gigabyte.
pub open spec fn gb_tenths(bytes: nat) -> nat {
    rounded_ratio(10 * bytes, GIB as nat)
}

/// `part` as a percentage of `whole`, in tenths of a percent; zero when
/// `whole` is zero.
pub open spec fn percent_tenths(part: int, whole: nat) -> int {
    if whole > 0 {
        rounded_ratio_signed(1000 * part, whole)
    } else {
        0
    }
}

/// Processor information.
#[derive(Debug)]
pub struct CpuInfo {
    pub brand: String,
    pub physical_cores: usize,
    pub logical_cores: usize,
    pub frequency_mhz: u64,
    pub arch: String,
}

/// Memory information, in tenths of a gigabyte and of a percent.
#[derive(Debug)]
pub struct RamInfo {
    pub total_gb_tenths: u64,
    pub available_gb_tenths: u64,
    pub percent_used_tenths: u128,
}

/// Graphics card information, in tenths of a gigabyte.
#[derive(Debug)]
pub struct GpuInfo {
    pub name: String,
    pub vram_total_gb_tenths: u64,
    pub vram_used_gb_tenths: u64,
    pub vram_free_gb_tenths: u64,
    pub driver_version: String,
}

/// Information on the main disk, in tenths of a gigabyte and of a percent.
/// The used space is the total less the available space, so it is negative
/// when a disk reports more available than total space.
#[derive(Debug)]
pub struct StorageInfo {
    pub total_gb_tenths: u64,
    pub used_gb_tenths: i128,
    pub free_gb_tenths: u64,
    pub percent_used_tenths: i128,
}

/// All the detected hardware.
#[derive(Debug)]
pub struct HardwareInfo {
    pub cpu: CpuInfo,
    pub ram: RamInfo,
    pub gpu: Option<GpuInfo>,
    pub storage: StorageInfo,
}

/// One mounted disk as the system reports it.
#[derive(Debug)]
pub struct DiskSample {
    pub mount_point: String,
    pub total_space: u64,
    pub available_space: u64,
}

fn bytes_to_gb_tenths(bytes: u64) -> (r: u64)
    ensures
        r == gb_tenths(bytes as nat),
{
    let num: u128 = 20 * (bytes as u128) + (GIB as u128);
    let r: u128 = num / (2 * (GIB as u128));
    assert(r <= 0xffff_ffff_ffff_ffffu128);
    r as u64
}

fn signed_bytes_to_gb_tenths(bytes: i128) -> (r: i128)
    requires
        -0x1_0000_0000_0000_0000 < bytes < 0x1_0000_0000_0000_0000,
    ensures
        r == rounded_ratio_signed(10 * bytes, GIB as nat),
{
    let den: i128 = 2 * (GIB as i128);
    if bytes >= 0 {
        (20 * bytes + (GIB as i128)) / den
    } else {
        -((20 * (-bytes) + (GIB as i128)) / den)
    }
}

fn percent_of(part: i128, whole: u64) -> (r: i128)
    requires
        -0x1_0000_0000_0000_0000 < part < 0x1_0000_0000_0000_0000,
    ensures
        r == percent_tenths(part as int, whole as nat),
{
    if whole == 0 {
        return 0;
    }
    let w: i128 = whole as i128;
    if part >= 0 {
        (2000 * part + w) / (2 * w)
    } else {
        -((2000 * (-part) + w) / (2 * w))
    }
}

impl CpuInfo {
    /// Processor information from raw readings: the brand and frequency of
    /// the first processor, the physical core count and the number of
    /// logical processors. A missing brand reads "Desconocido", a missing
    /// frequency 0, a missing physical core count 1, and the logical count
    /// is at least 1.
    pub fn from_readings(
        brand: Option<String>,
        frequency_mhz: Option<u64>,
        physical_cores: Option<usize>,
        logical_cores: usize,
        arch: String,
    ) -> (r: CpuInfo)
        ensures
            r.brand@ == (match brand {
                Some(b) => b@,
                None => "Desconocido"@,
            }),
            r.frequency_mhz == (match frequency_mhz {
                Some(f) => f,
                None => 0,
            }),
            r.physical_cores == (match physical_cores {
                Some(p) => p,
                None => 1,
            }),
            r.logical_cores == (if logical_cores >= 1 {
                logical_cores
            } else {
                1
            }),
            r.arch@ == arch@,
    {
        let brand = match brand {
            Some(b) => b,
            None => String::from_str("Desconocido"),
        };
        let frequency_mhz = match frequency_mhz {
            Some(f) => f,
            None => 0,
        };
        let physical_cores = match physical_cores {
            Some(p) => p,
            None => 1,
        };
        let logical_cores = if logical_cores >= 1 {
            logical_cores
        } else {
            1
        };
        CpuInfo { brand, physical_cores, logical_cores, frequency_mhz, arch }
    }
}

impl RamInfo {
    /// Memory information from the total, available and used bytes.
    pub fn from_memory(total: u64, available: u64, used: u64) -> (r: RamInfo)
        ensures
            r.total_gb_tenths == gb_tenths(total as nat),
            r.available_gb_tenths == gb_tenths(available as nat),
            r.percent_used_tenths == percent_tenths(used as int, total as nat),
    {
        let p = percent_of(used as i128, total);
        RamInfo {
            total_gb_tenths: bytes_to_gb_tenths(total),
            available_gb_tenths: bytes_to_gb_tenths(available),
            percent_used_tenths: p as u128,
        }
    }
}

impl GpuInfo {
    /// Graphics card information from raw readings: the memory sizes in
    /// bytes, with "NVIDIA GPU" for a missing name and "N/A" for a missing
    /// driver version.
    pub fn from_readings(
        name: Option<String>,
        total: u64,
        used: u64,
        free: u64,
        driver_version: Option<String>,
    ) -> (r: GpuInfo)
        ensures
            r.name@ == (match name {
                Some(n) => n@,
                None => "NVIDIA GPU"@,
            }),
            r.vram_total_gb_tenths == gb_tenths(total as nat),
            r.vram_used_gb_tenths == gb_tenths(used as nat),
            r.vram_free_gb_tenths == gb_tenths(free as nat),
            r.driver_version@ == (match driver_version {
                Some(d) => d@,
                None => "N/A"@,
            }),
    {
        let name = match name {
            Some(n) => n,
            None => String::from_str("NVIDIA GPU"),
        };
        let driver_version = match driver_version {
            Some(d) => d,
            None => String::from_str("N/A"),
        };
        GpuInfo {
            name,
            vram_total_gb_tenths: bytes_to_gb_tenths(total),
            vram_used_gb_tenths: bytes_to_gb_tenths(used),
            vram_free_gb_tenths: bytes_to_gb_tenths(free),
            driver_version,
        }
    }
}

/// Whether a disk is mounted at the root of the file system.
pub open spec fn is_root_disk(d: DiskSample) -> bool {
    is_root_path(d.mount_point@)
}

/// Whether a Unix path names the root directory, as paths compare by their
/// components: it starts with "/", and between its separators there is
/// nothing but "." (so "/", "//", "/." and "/./" all name the root).
pub open spec fn is_root_path(p: Seq<char>) -> bool {
    &&& p.len() > 0
    &&& p[0] == '/'
    &&& forall|i: int|
        0 <= i < p.len() ==> (#[trigger] p[i] == '/' || (p[i] == '.' && p[i - 1] == '/' && (i + 1
            == p.len() || p[i + 1] == '/')))
}

/// Whether the path `p` names the root directory (see [`is_root_path`]).
pub fn path_is_root(p: &str) -> (r: bool)
    ensures
        r == is_root_path(p@),
{
    let n = p.unicode_len();
    if n == 0 || p.get_char(0) != '/' {
        return false;
    }
    let mut i: usize = 1;
    while i < n
        invariant
            n == p@.len(),
            1 <= i <= n,
            p@[0] == '/',
            forall|k: int|
                0 <= k < i ==> (#[trigger] p@[k] == '/' || (p@[k] == '.' && p@[k - 1] == '/' && (k
                    + 1 == p@.len() || p@[k + 1] == '/'))),
        decreases n - i,
    {
        let c = p.get_char(i);
        if c != '/' {
            if c != '.' || p.get_char(i - 1) != '/' || (i + 1 < n && p.get_char(i + 1) != '/') {
                return false;
            }
        }
        i = i + 1;
    }
    true
}

/// Whether `i` is the disk that describes the storage: the first disk
/// mounted at the root directory if there is one, else the largest disk (the last of the
/// largest when several have the same total space).
pub open spec fn is_main_disk(disks: Seq<DiskSample>, i: int) -> bool {
    &&& 0 <= i < disks.len()
    &&& if exists|j: int| 0 <= j < disks.len() && #[trigger] is_root_disk(disks[j]) {
        &&& is_root_disk(disks[i])
        &&& forall|j: int| 0 <= j < i ==> !#[trigger] is_root_disk(disks[j])
    } else {
        &&& forall|j: int| 0 <= j < disks.len() ==> #[trigger] disks[j].total_space <= disks[i].total_space
        &&& forall|j: int| i < j < disks.len() ==> #[trigger] disks[j].total_space < disks[i].total_space
    }
}

/// Picks the disk that describes the storage; `None` when there is no disk.
pub fn select_disk(disks: &Vec<DiskSample>) -> (r: Option<usize>)
    ensures
        r is None <==> disks.len() == 0,
        r matches Some(i) ==> is_main_disk(disks@, i as int),
{
    let n = disks.len();
    let mut i: usize = 0;
    while i < n
        invariant
            n == disks.len(),
            i <= n,
            forall|j: int| 0 <= j < i ==> !#[trigger] is_root_disk(disks@[j]),
        decreases n - i,
    {
        if path_is_root(disks[i].mount_point.as_str()) {
            assert(is_root_disk(disks@[i as int]));
            return Some(i);
        }
        i = i + 1;
    }
    if n == 0 {
        return None;
    }
    let mut best: usize = 0;
    let mut k: usize = 1;
    while k < n
        invariant
            n == disks.len(),
            1 <= k <= n,
            best < k,
            forall|j: int| 0 <= j < k ==> #[trigger] disks@[j].total_space <= disks@[best as int].total_space,
            forall|j: int| best < j < k ==> #[trigger] disks@[j].total_space < disks@[best as int].total_space,
        decreases n - k,
    {
        if disks[k].total_space >= disks[best].total_space {
            best = k;
        }
        k = k + 1;
    }
    Some(best)
}

impl StorageInfo {
    /// Storage information for a disk of `total` bytes with `available`
    /// bytes free.
    pub fn from_disk(total: u64, available: u64) -> (r: StorageInfo)
        ensures
            r.total_gb_tenths == gb_tenths(total as nat),
            r.free_gb_tenths == gb_tenths(available as nat),
            r.used_gb_tenths == rounded_ratio_signed(10 * (total - available), GIB as nat),
            r.percent_used_tenths == percent_tenths(total - available, total as nat),
    {
        let used: i128 = (total as i128) - (available as i128);
        StorageInfo {
            total_gb_tenths: bytes_to_gb_tenths(total),
            used_gb_tenths: signed_bytes_to_gb_tenths(used),
            free_gb_tenths: bytes_to_gb_tenths(available),
            percent_used_tenths: percent_of(used, total),
        }
    }

    /// Storage information for the main disk among `disks` (see
    /// [`is_main_disk`]); all zero when there is no disk.
    pub fn from_disks(disks: &Vec<DiskSample>) -> (r: StorageInfo)
        ensures
            disks.len() == 0 ==> r.total_gb_tenths == 0 && r.used_gb_tenths == 0
                && r.free_gb_tenths == 0 && r.percent_used_tenths == 0,
            disks.len() > 0 ==> exists|i: int|
                #[trigger] is_main_disk(disks@, i) && r.total_gb_tenths == gb_tenths(
                    disks@[i].total_space as nat,
                ) && r.free_gb_tenths == gb_tenths(disks@[i].available_space as nat)
                    && r.used_gb_tenths == rounded_ratio_signed(
                    10 * (disks@[i].total_space - disks@[i].available_space),
                    GIB as nat,
                ) && r.percent_used_tenths == percent_tenths(
                    disks@[i].total_space - disks@[i].available_space,
                    disks@[i].total_space as nat,
                ),
    {
        match select_disk(disks) {
            Some(i) => {
                let r = StorageInfo::from_disk(disks[i].total_space, disks[i].available_space);
                assert(is_main_disk(disks@, i as int));
                r
            },
            None => StorageInfo {
                total_gb_tenths: 0,
                used_gb_tenths: 0,
                free_gb_tenths: 0,
                percent_used_tenths: 0,
            },
        }
    }
}

/// The value that the thresholds of component `c` are compared with, in
/// tenths: total RAM, total VRAM (zero without a graphics card), physical
/// cores, free storage.
pub open spec fn actual_spec(hw: HardwareInfo, c: Component) -> int {
    match c {
        Component::Ram => hw.ram.total_gb_tenths as int,
        Component::Vram => match hw.gpu {
            Some(g) => g.vram_total_gb_tenths as int,
            None => 0,
        },
        Component::Cores => 10 * hw.cpu.physical_cores,
        Component::Storage => hw.storage.free_gb_tenths as int,
    }
}

impl HardwareInfo {
    /// The value that the thresholds of component `c` are compared with, in
    /// tenths of its unit.
    pub fn actual(&self, c: Component) -> (r: u128)
        ensures
            r == actual_spec(*self, c),
    {
        match c {
            Component::Ram => self.ram.total_gb_tenths as u128,
            Component::Vram => match &self.gpu {
                Some(g) => g.vram_total_gb_tenths as u128,
                None => 0,
            },
            Component::Cores => 10 * (self.cpu.physical_cores as u128),
            Component::Storage => self.storage.free_gb_tenths as u128,
        }
    }

    /// The current value of the component whose identifier is `component`,
    /// in tenths of its unit; zero for an identifier of no component.
    pub fn actual_value(&self, component: &str) -> (r: u128)
        ensures
            r == (match component_from_name(component@) {
                Some(c) => actual_spec(*self, c),
                None => 0,
            }),
    {
        match Component::from_name(component) {
            Some(c) => self.actual(c),
            None => 0,
        }
    }
}

} // verus!
