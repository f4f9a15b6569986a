use sys_monitor::network::{
    network_info, sampler_step, InterfaceDelta, NetworkInfo, SamplerAction, SamplerEvent, SamplerPhase,
};
use sys_monitor::system::{system_info, DiskData, SensorData};

#[test]
fn one_interface_window_gives_its_deltas() {
    let d = vec![InterfaceDelta { received: 1_000_000, transmitted: 500_000 }];
    let r = network_info(&d, Some(1_700_000_000));
    assert_eq!(r, NetworkInfo { received_rate: 1_000_000, transmitted_rate: 500_000, timestamp: 1_700_000_000 });
}

#[test]
fn deltas_are_summed_over_interfaces() {
    let d = vec![
        InterfaceDelta { received: 10, transmitted: 1 },
        InterfaceDelta { received: 20, transmitted: 2 },
        InterfaceDelta { received: 30, transmitted: 3 },
    ];
    let r = network_info(&d, None);
    assert_eq!(r, NetworkInfo { received_rate: 60, transmitted_rate: 6, timestamp: 0 });
}

#[test]
fn unchanged_counters_give_zero_rates() {
    let d = vec![InterfaceDelta { received: 0, transmitted: 0 }, InterfaceDelta { received: 0, transmitted: 0 }];
    let r = network_info(&d, Some(5));
    assert_eq!((r.received_rate, r.transmitted_rate), (0, 0));
    let none = network_info(&Vec::new(), Some(5));
    assert_eq!((none.received_rate, none.transmitted_rate), (0, 0));
}

#[test]
fn rate_sum_saturates() {
    let d = vec![InterfaceDelta { received: u64::MAX, transmitted: 1 }, InterfaceDelta { received: 2, transmitted: 1 }];
    let r = network_info(&d, Some(1));
    assert_eq!(r.received_rate, u64::MAX);
    assert_eq!(r.transmitted_rate, 2);
}

#[test]
fn sampler_runs_a_window() {
    let (phase, action) = sampler_step(SamplerPhase::Idle, SamplerEvent::BaselineRead);
    assert_eq!(phase, SamplerPhase::Sampling);
    assert_eq!(action, SamplerAction::Wait { seconds: 1 });
    let closed = SamplerEvent::WindowClosed {
        deltas: vec![InterfaceDelta { received: 1_000_000, transmitted: 500_000 }],
        now: Some(99),
    };
    let (phase, action) = sampler_step(phase, closed);
    assert_eq!(phase, SamplerPhase::Idle);
    assert_eq!(
        action,
        SamplerAction::Emit { info: NetworkInfo { received_rate: 1_000_000, transmitted_rate: 500_000, timestamp: 99 } }
    );
    let stray = SamplerEvent::WindowClosed { deltas: Vec::new(), now: None };
    assert_eq!(sampler_step(SamplerPhase::Idle, stray), (SamplerPhase::Idle, SamplerAction::ReadBaseline));
    assert_eq!(
        sampler_step(SamplerPhase::Sampling, SamplerEvent::BaselineRead),
        (SamplerPhase::Sampling, SamplerAction::Wait { seconds: 1 })
    );
}

#[test]
fn sensors_keep_last_reading_per_label() {
    let readings = vec![
        SensorData::new("cpu".to_string(), Some(40.0f32)),
        SensorData::new("gpu".to_string(), None),
        SensorData::new("cpu".to_string(), Some(55.5f32)),
        SensorData::new("nvme".to_string(), Some(31.0f32)),
    ];
    let s = system_info(&readings, 0.0);
    assert!(s.disks.is_empty());
    assert_eq!(s.sensors.len(), 3);
    let get = |l: &str| s.sensors.iter().find(|(k, _)| k == l).map(|(_, v)| *v);
    assert_eq!(get("cpu"), Some(55.5));
    assert_eq!(get("gpu"), Some(0.0));
    assert_eq!(get("nvme"), Some(31.0));
    assert_eq!(get("fan"), None);
}

#[test]
fn no_sensors_give_empty_table() {
    let s = system_info::<f32>(&Vec::new(), 0.0);
    assert!(s.sensors.is_empty());
    assert_eq!(DiskData::new("sda".to_string()).name, "sda");
}
