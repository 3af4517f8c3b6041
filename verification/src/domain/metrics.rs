//! Settings of the system-metrics module and the values it reports.
use vstd::prelude::*;

verus! {

/// How CPU load is reported.
#[derive(Debug, Clone, Copy, PartialEq, Eq, Structural)]
pub enum CpuMode {
    /// 0 to 100 over all cores together.
    Percentage0to100,
    /// 0 to 100 per core, so up to 100 times the number of cores.
    PercentageNproc,
    Disabled,
}

impl Default for CpuMode {
    fn default() -> (res: Self)
        ensures
            res == CpuMode::Percentage0to100,
    {
        CpuMode::Percentage0to100
    }
}

/// How memory and swap use are reported.
#[derive(Debug, Clone, Copy, PartialEq, Eq, Structural)]
pub enum MemoryMode {
    Absolute,
    Percentual,
    Disabled,
}

impl Default for MemoryMode {
    fn default() -> (res: Self)
        ensures
            res == MemoryMode::Percentual,
    {
        MemoryMode::Percentual
    }
}

/// How network throughput is reported.
#[derive(Debug, Clone, Copy, PartialEq, Eq, Structural)]
pub enum NetworkMode {
    TxRx,
    Disabled,
}

/// How temperatures are reported.
#[derive(Debug, Clone, Copy, PartialEq, Eq, Structural)]
pub enum TemperatureMode {
    Celsius,
    Fahrenheit,
    Disabled,
}

/// How disk use is reported.
#[derive(Debug, Clone, Copy, PartialEq, Eq, Structural)]
pub enum DiskMode {
    Absolute,
    Percentual,
    Disabled,
}

impl Default for DiskMode {
    fn default() -> (res: Self)
        ensures
            res == DiskMode::Percentual,
    {
        DiskMode::Percentual
    }
}

/// Period between two samples, in milliseconds.
#[derive(Debug, Clone, Copy, PartialEq, Eq, Structural)]
pub struct UpdateInterval(u64);

impl View for UpdateInterval {
    type V = u64;

    closed spec fn view(&self) -> u64 {
        self.0
    }
}

impl UpdateInterval {
    pub fn new(ms: u64) -> (res: Self)
        ensures
            res@ == ms,
    {
        UpdateInterval(ms)
    }

    pub fn value(&self) -> (res: u64)
        ensures
            res == self@,
    {
        self.0
    }
}

/// Abstract value of a [`MetricsConfig`].
pub struct MetricsView {
    pub cpu: CpuMode,
    pub memory: MemoryMode,
    pub swap: MemoryMode,
    pub network: Option<NetworkMode>,
    pub temperature: Option<TemperatureMode>,
    pub disk: Option<DiskMode>,
    pub update_interval_ms: u64,
}

/// Which metrics are sampled, how they are shown, and how often.
#[derive(Debug, Clone, PartialEq, Eq)]
pub struct MetricsConfig {
    cpu: CpuMode,
    memory: MemoryMode,
    swap: MemoryMode,
    network: Option<NetworkMode>,
    temperature: Option<TemperatureMode>,
    disk: Option<DiskMode>,
    update_interval_ms: UpdateInterval,
}

impl View for MetricsConfig {
    type V = MetricsView;

    closed spec fn view(&self) -> MetricsView {
        MetricsView {
            cpu: self.cpu,
            memory: self.memory,
            swap: self.swap,
            network: self.network,
            temperature: self.temperature,
            disk: self.disk,
            update_interval_ms: self.update_interval_ms@,
        }
    }
}

impl MetricsConfig {
    pub fn new(
        cpu: CpuMode,
        memory: MemoryMode,
        swap: MemoryMode,
        network: Option<NetworkMode>,
        temperature: Option<TemperatureMode>,
        disk: Option<DiskMode>,
        update_interval_ms: UpdateInterval,
    ) -> (res: Self)
        ensures
            res@ == (MetricsView {
                cpu,
                memory,
                swap,
                network,
                temperature,
                disk,
                update_interval_ms: update_interval_ms@,
            }),
    {
        MetricsConfig { cpu, memory, swap, network, temperature, disk, update_interval_ms }
    }

    pub fn cpu(&self) -> (res: &CpuMode)
        ensures
            *res == self@.cpu,
    {
        &self.cpu
    }

    pub fn memory(&self) -> (res: &MemoryMode)
        ensures
            *res == self@.memory,
    {
        &self.memory
    }

    pub fn swap(&self) -> (res: &MemoryMode)
        ensures
            *res == self@.swap,
    {
        &self.swap
    }

    pub fn network(&self) -> (res: Option<&NetworkMode>)
        ensures
            match res {
                Some(n) => self@.network == Some(*n),
                None => self@.network is None,
            },
    {
        match &self.network {
            Some(n) => Some(n),
            None => None,
        }
    }

    pub fn temperature(&self) -> (res: Option<&TemperatureMode>)
        ensures
            match res {
                Some(t) => self@.temperature == Some(*t),
                None => self@.temperature is None,
            },
    {
        match &self.temperature {
            Some(t) => Some(t),
            None => None,
        }
    }

    pub fn disk(&self) -> (res: Option<&DiskMode>)
        ensures
            match res {
                Some(d) => self@.disk == Some(*d),
                None => self@.disk is None,
            },
    {
        match &self.disk {
            Some(d) => Some(d),
            None => None,
        }
    }

    pub fn update_interval_ms(&self) -> (res: &UpdateInterval)
        ensures
            res@ == self@.update_interval_ms,
    {
        &self.update_interval_ms
    }

    pub fn duplicate(&self) -> (res: Self)
        ensures
            res@ == self@,
    {
        MetricsConfig {
            cpu: self.cpu,
            memory: self.memory,
            swap: self.swap,
            network: self.network,
            temperature: self.temperature,
            disk: self.disk,
            update_interval_ms: self.update_interval_ms,
        }
    }
}

/// The settings of [`MetricsConfig::default`]: CPU over all cores, memory
/// and swap as percentages, no network, temperature or disk, sampled every
/// second.
pub open spec fn default_metrics() -> MetricsView {
    MetricsView {
        cpu: CpuMode::Percentage0to100,
        memory: MemoryMode::Percentual,
        swap: MemoryMode::Percentual,
        network: None,
        temperature: None,
        disk: None,
        update_interval_ms: 1000,
    }
}

impl Default for MetricsConfig {
    fn default() -> (res: Self)
        ensures
            res@ == default_metrics(),
    {
        MetricsConfig {
            cpu: CpuMode::Percentage0to100,
            memory: MemoryMode::Percentual,
            swap: MemoryMode::Percentual,
            network: None,
            temperature: None,
            disk: None,
            update_interval_ms: UpdateInterval(1000),
        }
    }
}

/// An amount of memory or storage, in bytes.
#[derive(Debug, Clone, Copy, PartialEq, Eq, Structural)]
pub struct MemoryBytes(u64);

impl View for MemoryBytes {
    type V = u64;

    closed spec fn view(&self) -> u64 {
        self.0
    }
}

impl MemoryBytes {
    pub fn new(val: u64) -> (res: Self)
        ensures
            res@ == val,
    {
        MemoryBytes(val)
    }

    pub fn value(&self) -> (res: u64)
        ensures
            res == self@,
    {
        self.0
    }
}

/// Network throughput, in bytes per sampling period.
#[derive(Debug, Clone, Copy, PartialEq, Eq, Structural)]
pub struct NetworkSpeed(u64);

impl View for NetworkSpeed {
    type V = u64;

    closed spec fn view(&self) -> u64 {
        self.0
    }
}

impl NetworkSpeed {
    pub fn new(val: u64) -> (res: Self)
        ensures
            res@ == val,
    {
        NetworkSpeed(val)
    }

    pub fn value(&self) -> (res: u64)
        ensures
            res == self@,
    {
        self.0
    }
}

/// Name of a block device.
#[derive(Debug, Clone, PartialEq, Eq)]
pub struct DiskName(String);

impl View for DiskName {
    type V = Seq<char>;

    closed spec fn view(&self) -> Seq<char> {
        self.0@
    }
}

impl DiskName {
    pub fn new(name: &str) -> (res: Self)
        ensures
            res@ == name@,
    {
        DiskName(name.to_owned())
    }

    pub fn as_str(&self) -> (res: &str)
        ensures
            res@ == self@,
    {
        self.0.as_str()
    }
}

/// Where a file system is mounted.
#[derive(Debug, Clone, PartialEq, Eq)]
pub struct MountPoint(String);

impl View for MountPoint {
    type V = Seq<char>;

    closed spec fn view(&self) -> Seq<char> {
        self.0@
    }
}

impl MountPoint {
    pub fn new(mp: &str) -> (res: Self)
        ensures
            res@ == mp@,
    {
        MountPoint(mp.to_owned())
    }

    pub fn as_str(&self) -> (res: &str)
        ensures
            res@ == self@,
    {
        self.0.as_str()
    }
}

/// Abstract value of a [`DiskMetric`].
pub struct DiskView {
    pub name: Seq<char>,
    pub mount_point: Seq<char>,
    pub total_bytes: u64,
    pub available_bytes: u64,
    pub used_bytes: u64,
}

/// Capacity and use of one mounted disk.
#[derive(Debug, Clone, PartialEq)]
pub struct DiskMetric {
    name: DiskName,
    mount_point: MountPoint,
    total_bytes: MemoryBytes,
    available_bytes: MemoryBytes,
    used_bytes: MemoryBytes,
}

impl View for DiskMetric {
    type V = DiskView;

    closed spec fn view(&self) -> DiskView {
        DiskView {
            name: self.name@,
            mount_point: self.mount_point@,
            total_bytes: self.total_bytes@,
            available_bytes: self.available_bytes@,
            used_bytes: self.used_bytes@,
        }
    }
}

impl DiskMetric {
    pub fn new(
        name: DiskName,
        mount_point: MountPoint,
        total_bytes: MemoryBytes,
        available_bytes: MemoryBytes,
        used_bytes: MemoryBytes,
    ) -> (res: Self)
        ensures
            res@ == (DiskView {
                name: name@,
                mount_point: mount_point@,
                total_bytes: total_bytes@,
                available_bytes: available_bytes@,
                used_bytes: used_bytes@,
            }),
    {
        DiskMetric { name, mount_point, total_bytes, available_bytes, used_bytes }
    }

    pub fn name(&self) -> (res: &DiskName)
        ensures
            res@ == self@.name,
    {
        &self.name
    }

    pub fn mount_point(&self) -> (res: &MountPoint)
        ensures
            res@ == self@.mount_point,
    {
        &self.mount_point
    }

    pub fn total_bytes(&self) -> (res: MemoryBytes)
        ensures
            res@ == self@.total_bytes,
    {
        self.total_bytes
    }

    pub fn available_bytes(&self) -> (res: MemoryBytes)
        ensures
            res@ == self@.available_bytes,
    {
        self.available_bytes
    }

    pub fn used_bytes(&self) -> (res: MemoryBytes)
        ensures
            res@ == self@.used_bytes,
    {
        self.used_bytes
    }
}

/// The sum of a sequence of byte counts.
pub open spec fn total(s: Seq<u64>) -> int
    decreases s.len(),
{
    if s.len() == 0 {
        0
    } else {
        total(s.drop_last()) + s.last()
    }
}

proof fn lemma_total_prefix_le(s: Seq<u64>, i: int)
    requires
        0 <= i <= s.len(),
    ensures
        0 <= total(s.subrange(0, i)) <= total(s),
    decreases s.len() - i,
{
    if i < s.len() {
        lemma_total_prefix_le(s, i + 1);
        assert(s.subrange(0, i + 1).drop_last() =~= s.subrange(0, i));
    } else {
        assert(s.subrange(0, i) =~= s);
    }
    lemma_total_nonneg(s.subrange(0, i));
}

proof fn lemma_total_nonneg(s: Seq<u64>)
    ensures
        total(s) >= 0,
    decreases s.len(),
{
    if s.len() > 0 {
        lemma_total_nonneg(s.drop_last());
    }
}

/// Bytes sent and received over all interfaces, when network sampling is
/// on; zero when it is off.
pub fn network_totals(config: &MetricsConfig, transmitted: &Vec<u64>, received: &Vec<u64>) -> (res: (NetworkSpeed, NetworkSpeed))
    requires
        config@.network is Some ==> total(transmitted@) <= u64::MAX && total(received@) <= u64::MAX,
    ensures
        config@.network is Some ==> res.0@ == total(transmitted@) && res.1@ == total(received@),
        config@.network is None ==> res.0@ == 0 && res.1@ == 0,
{
    if config.network.is_none() {
        return (NetworkSpeed::new(0), NetworkSpeed::new(0));
    }
    (NetworkSpeed::new(sum_bytes(transmitted)), NetworkSpeed::new(sum_bytes(received)))
}

fn sum_bytes(v: &Vec<u64>) -> (res: u64)
    requires
        total(v@) <= u64::MAX,
    ensures
        res == total(v@),
{
    let mut acc: u64 = 0;
    let mut i: usize = 0;
    while i < v.len()
        invariant
            i <= v@.len(),
            total(v@) <= u64::MAX,
            acc == total(v@.subrange(0, i as int)),
        decreases v@.len() - i,
    {
        proof {
            assert(v@.subrange(0, i + 1).drop_last() =~= v@.subrange(0, i as int));
            lemma_total_prefix_le(v@, i + 1);
        }
        acc = acc + v[i];
        i = i + 1;
    }
    assert(v@.subrange(0, v@.len() as int) =~= v@);
    acc
}

/// A disk as the sampler sees it: its used space is what is not available,
/// and never less than zero.
pub fn disk_metric_of(name: &str, mount_point: &str, total_bytes: u64, available_bytes: u64) -> (res: DiskMetric)
    ensures
        res@ == (DiskView {
            name: name@,
            mount_point: mount_point@,
            total_bytes,
            available_bytes,
            used_bytes: if total_bytes >= available_bytes {
                (total_bytes - available_bytes) as u64
            } else {
                0
            },
        }),
{
    let used = if total_bytes >= available_bytes {
        total_bytes - available_bytes
    } else {
        0
    };
    DiskMetric::new(
        DiskName::new(name),
        MountPoint::new(mount_point),
        MemoryBytes::new(total_bytes),
        MemoryBytes::new(available_bytes),
        MemoryBytes::new(used),
    )
}

} // verus!
