use sys_monitor::battery::{battery_info, state_code, BatteryData, BatteryState};
use sys_monitor::cpu::{chip_name, CpuCoreData, CpuData};
use sys_monitor::memory::{Gibibytes, MemoryData, GIB};
use sys_monitor::process::{sort_by_memory, ProcessData};

#[test]
fn format_memory_exact_values() {
    assert_eq!(MemoryData::format_memory(0), Gibibytes { whole: 0, rem_bytes: 0 });
    assert_eq!(MemoryData::format_memory(GIB), Gibibytes { whole: 1, rem_bytes: 0 });
    assert_eq!(
        MemoryData::format_memory(2684354560),
        Gibibytes { whole: 2, rem_bytes: 536870912 }
    );
    assert_eq!(
        MemoryData::format_memory(u64::MAX),
        Gibibytes { whole: 17179869183, rem_bytes: 1073741823 }
    );
}

#[test]
fn format_memory_round_trips_and_is_monotonic() {
    let values: Vec<u64> = vec![0, 1, GIB - 1, GIB, GIB + 1, 5 * GIB + 7, u64::MAX];
    for &a in &values {
        assert_eq!(MemoryData::format_memory(a).to_bytes(), a);
        for &b in &values {
            if a <= b {
                assert!(MemoryData::format_memory(b).at_least(&MemoryData::format_memory(a)));
            }
        }
    }
    let half = MemoryData::format_memory(GIB / 2).to_bytes() as f64 / GIB as f64;
    assert_eq!(half, 0.5);
}

#[test]
fn memory_data_converts_each_field() {
    let m = MemoryData::new(16 * GIB, 2 * GIB, 3 * GIB + 1, 0);
    assert_eq!(m.total_memory, Gibibytes { whole: 16, rem_bytes: 0 });
    assert_eq!(m.total_swap, Gibibytes { whole: 2, rem_bytes: 0 });
    assert_eq!(m.used_memory, Gibibytes { whole: 3, rem_bytes: 1 });
    assert_eq!(m.used_swap, Gibibytes { whole: 0, rem_bytes: 0 });
}

fn process(name: &str, bytes: u64) -> ProcessData {
    ProcessData::new(Some(name.to_string()), bytes, name.len().to_string())
}

#[test]
fn process_without_name_is_unknown() {
    let p = ProcessData::new(None, GIB, "42".to_string());
    assert_eq!(p.name, "Unknown");
    assert_eq!(p.pid, "42");
    assert_eq!(p.memory, Gibibytes { whole: 1, rem_bytes: 0 });
}

#[test]
fn sort_ties_keep_input_order() {
    let two_and_half = 5 * GIB / 2;
    let v = vec![process("a", two_and_half), process("b", GIB), process("c", two_and_half)];
    let r = sort_by_memory(&v);
    let names: Vec<&str> = r.iter().map(|p| p.name.as_str()).collect();
    assert_eq!(names, vec!["a", "c", "b"]);
    assert_eq!(r[0].memory.to_bytes(), two_and_half);
    assert_eq!(r[2].memory.to_bytes(), GIB);
}

#[test]
fn sort_is_descending() {
    let v = vec![
        process("init", 10),
        process("browser", 3 * GIB),
        process("idle", 0),
        process("editor", GIB + 5),
        process("shell", GIB + 5),
        process("database", 7 * GIB),
    ];
    let r = sort_by_memory(&v);
    assert_eq!(r.len(), v.len());
    for w in r.windows(2) {
        assert!(w[0].memory.to_bytes() >= w[1].memory.to_bytes());
    }
    let names: Vec<&str> = r.iter().map(|p| p.name.as_str()).collect();
    assert_eq!(names, vec!["database", "browser", "editor", "shell", "init", "idle"]);
}

#[test]
fn sort_of_nothing_is_empty() {
    assert!(sort_by_memory(&Vec::new()).is_empty());
}

#[test]
fn battery_state_codes() {
    assert_eq!(state_code(BatteryState::Full), 1);
    assert_eq!(state_code(BatteryState::Charging), 2);
    assert_eq!(state_code(BatteryState::Discharging), 3);
    assert_eq!(state_code(BatteryState::Empty), 0);
    assert_eq!(state_code(BatteryState::Unknown), -1);
}

#[test]
fn battery_data_fills_defaults() {
    let b = BatteryData::new(
        "31.25℃".to_string(),
        None,
        BatteryState::Discharging,
        87.5f32,
        "95.00%".to_string(),
    );
    assert_eq!(b.temperature, "31.25℃");
    assert_eq!(b.cycle_count, 0);
    assert_eq!(b.state, 3);
    assert_eq!(b.percentage, 87.5);
    assert_eq!(b.state_of_health, "95.00%");
    let c = BatteryData::new(String::new(), Some(412), BatteryState::Full, 100.0f32, String::new());
    assert_eq!(c.cycle_count, 412);
    assert_eq!(c.state, 1);
}

#[test]
fn no_battery_gives_empty_sample() {
    let b: BatteryData<f32> = battery_info(Vec::new(), 0.0);
    assert_eq!(b.temperature, "");
    assert_eq!(b.cycle_count, 0);
    assert_eq!(b.state, 0);
    assert_eq!(b.percentage, 0.0);
    assert_eq!(b.state_of_health, "");
    let unreadable: BatteryData<f32> = battery_info(vec![None, None], 0.0);
    assert_eq!(unreadable.cycle_count, 0);
    assert_eq!(unreadable.temperature, "");
}

#[test]
fn first_readable_battery_is_reported() {
    let first = BatteryData::new("20.00℃".to_string(), Some(5), BatteryState::Charging, 40.0f32, "90.00%".to_string());
    let second = BatteryData::new("30.00℃".to_string(), Some(9), BatteryState::Full, 100.0f32, "80.00%".to_string());
    let b = battery_info(vec![None, Some(first), Some(second)], 0.0);
    assert_eq!(b.temperature, "20.00℃");
    assert_eq!(b.cycle_count, 5);
    assert_eq!(b.state, 2);
}

#[test]
fn chip_name_is_first_brand_or_unknown() {
    assert_eq!(chip_name(&Vec::new()), "Unknown");
    let brands = vec!["Ryzen 7".to_string(), "Other".to_string()];
    assert_eq!(chip_name(&brands), "Ryzen 7");
}

#[test]
fn cpu_data_aggregates() {
    let cores = vec![CpuCoreData::new(12.5f32, 3200), CpuCoreData::new(50.0f32, 2800)];
    let c = CpuData::new(&vec!["M2".to_string(), "M2".to_string()], None, 31.25f32, cores);
    assert_eq!(c.chip_name, "M2");
    assert_eq!(c.physical_core_count, 0);
    assert_eq!(c.global_usage, 31.25);
    assert_eq!(c.cores.len(), 2);
    assert_eq!(c.cores[1].frequency, 2800);
    assert_eq!(c.cores[0].usage, 12.5);
    let none: CpuData<f32> = CpuData::new(&Vec::new(), Some(8), 0.0, Vec::new());
    assert_eq!(none.chip_name, "Unknown");
    assert_eq!(none.physical_core_count, 8);
}
