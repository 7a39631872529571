use sys_stats::metric::{find_metric, CpuMetric, GpuMetric, MemoryMetric, MetricKind, MetricSet};

#[test]
fn empty_set_has_nothing() {
    let set: MetricSet<u32> = MetricSet::new();
    assert_eq!(set.get(MetricKind::Cpu(CpuMetric::Usage)), None);
}

#[test]
fn register_then_get_gives_metric_back() {
    let mut set = MetricSet::new();
    set.register(MetricKind::Cpu(CpuMetric::Usage), "usage");
    set.register(MetricKind::Cpu(CpuMetric::Frequency), "frequency");
    assert_eq!(set.get(MetricKind::Cpu(CpuMetric::Usage)), Some(&"usage"));
    assert_eq!(set.get(MetricKind::Cpu(CpuMetric::Frequency)), Some(&"frequency"));
    assert_eq!(set.get(MetricKind::Gpu(GpuMetric::Usage)), None);
}

#[test]
fn registering_again_replaces() {
    let mut set = MetricSet::new();
    set.register(MetricKind::Vram(MemoryMetric::Used), 1);
    set.register(MetricKind::Vram(MemoryMetric::Free), 2);
    set.register(MetricKind::Vram(MemoryMetric::Used), 3);
    assert_eq!(set.get(MetricKind::Vram(MemoryMetric::Used)), Some(&3));
    assert_eq!(set.get(MetricKind::Vram(MemoryMetric::Free)), Some(&2));
}

#[test]
fn same_reading_of_different_devices_is_distinct() {
    let mut set = MetricSet::new();
    set.register(MetricKind::Ram(MemoryMetric::Usage), 10);
    assert_eq!(set.get(MetricKind::Vram(MemoryMetric::Usage)), None);
    assert_eq!(set.get(MetricKind::Ram(MemoryMetric::Usage)), Some(&10));
}

#[test]
fn get_mut_changes_in_place() {
    let mut set = MetricSet::new();
    set.register(MetricKind::Gpu(GpuMetric::Temperature), 40);
    set.register(MetricKind::Gpu(GpuMetric::Frequency), 1500);
    *set.get_mut(MetricKind::Gpu(GpuMetric::Temperature)) = 65;
    assert_eq!(set.get(MetricKind::Gpu(GpuMetric::Temperature)), Some(&65));
    assert_eq!(set.get(MetricKind::Gpu(GpuMetric::Frequency)), Some(&1500));
}

#[test]
fn find_metric_takes_first_set_that_has_it() {
    let mut cpu = MetricSet::new();
    cpu.register(MetricKind::Cpu(CpuMetric::Usage), 1);
    let mut ram = MetricSet::new();
    ram.register(MetricKind::Ram(MemoryMetric::Used), 2);
    ram.register(MetricKind::Cpu(CpuMetric::Usage), 3);
    let sets = vec![&cpu, &ram];
    assert_eq!(find_metric(&sets, MetricKind::Cpu(CpuMetric::Usage)), Some(&1));
    assert_eq!(find_metric(&sets, MetricKind::Ram(MemoryMetric::Used)), Some(&2));
    assert_eq!(find_metric(&sets, MetricKind::Gpu(GpuMetric::Usage)), None);
}

#[test]
fn find_metric_in_no_sets_is_none() {
    let sets: Vec<&MetricSet<u8>> = vec![];
    assert_eq!(find_metric(&sets, MetricKind::Cpu(CpuMetric::Frequency)), None);
}

#[test]
fn default_set_is_empty() {
    let set: MetricSet<u32> = MetricSet::default();
    assert_eq!(set.get(MetricKind::Vram(MemoryMetric::Usage)), None);
}
