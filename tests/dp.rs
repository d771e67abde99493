use perf_event_open::dp::{parse_pmu_type, parse_retprobe_bit, probe};

#[test]
fn pmu_type() {
    assert_eq!(parse_pmu_type(b"8\n"), Some(8));
    assert_eq!(parse_pmu_type(b"+7"), Some(7));
    assert_eq!(parse_pmu_type(b"x\n"), None);
    assert_eq!(parse_pmu_type(b"\n"), None);
    assert_eq!(parse_pmu_type(b"4294967296\n"), None);
    assert_eq!(parse_pmu_type(b"4294967295\n"), Some(u32::MAX));
}

#[test]
fn retprobe_bit() {
    assert_eq!(parse_retprobe_bit(b"config:9\n"), Some(9));
    assert_eq!(parse_retprobe_bit(b"config:64\n"), None);
    assert_eq!(parse_retprobe_bit(b"conf"), None);
}

#[test]
fn probes() {
    let d = probe(8, Some(9), 0x10, 0x20).unwrap();
    assert_eq!((d.ty, d.config, d.config1, d.config2), (8, 512, 0x10, 0x20));
    let d = probe(8, None, 0, 0x20).unwrap();
    assert_eq!(d.config, 0);
    assert!(probe(8, Some(64), 0, 0).is_none());
}
