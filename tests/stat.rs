use perf_event_open::count::{arena_len, check_sole_owner, grown_read_buf_len, query_bpf_result};
use perf_event_open::error::Error;
use perf_event_open::stat::Stat;

fn words(ws: &[u64]) -> Vec<u8> {
    ws.iter().flat_map(|w| w.to_le_bytes()).collect()
}

#[test]
fn group_read_buf_size_with_ids() {
    // group | id | time_enabled | time_running, two siblings
    let rf = 0x8 | 0x4 | 0x1 | 0x2;
    assert_eq!(Stat::read_buf_size(3, rf), 8 + 2 * 8 + 3 * 16);
}

#[test]
fn lone_read_buf_size() {
    assert_eq!(Stat::read_buf_size(1, 0), 16);
    assert_eq!(Stat::read_buf_size(1, 0x4), 24);
}

#[test]
fn decode_group() {
    let buf = words(&[2, 100, 7, 200, 8]);
    let (stat, end) = Stat::from_bytes(&buf, 0, 0x8 | 0x4).unwrap();
    assert_eq!(end, 40);
    assert_eq!(stat.count, 100);
    assert_eq!(stat.id, Some(7));
    assert_eq!(stat.siblings.len(), 1);
    assert_eq!(stat.siblings[0].count, 200);
    assert_eq!(stat.siblings[0].id, Some(8));
    assert_eq!(stat.siblings[0].lost_records, None);
}

#[test]
fn decode_lone_with_times() {
    let buf = words(&[5, 10, 9]);
    let (stat, end) = Stat::from_bytes(&buf, 0, 0x1 | 0x2).unwrap();
    assert_eq!(end, 24);
    assert_eq!(stat.count, 5);
    assert_eq!(stat.time_enabled, Some(10));
    assert_eq!(stat.time_running, Some(9));
    assert_eq!(stat.id, None);
    assert!(stat.siblings.is_empty());
}

#[test]
fn decode_cut_short() {
    let buf = words(&[3, 100, 200]);
    assert!(Stat::from_bytes(&buf, 0, 0x8).is_none());
    let buf = words(&[0]);
    assert!(Stat::from_bytes(&buf, 0, 0x8).is_none());
    assert!(Stat::from_bytes(&buf[..4], 0, 0).is_none());
}

#[test]
fn group_buffer_grows_never_shrinks() {
    assert_eq!(grown_read_buf_len(0, 3, 0xf), 72);
    assert_eq!(grown_read_buf_len(100, 3, 0xf), 100);
}

#[test]
fn arena_length() {
    assert_eq!(arena_len(10, 4096), Ok(1025 * 4096));
    assert_eq!(arena_len(0, 4096), Ok(2 * 4096));
    assert_eq!(arena_len(200, 4096), Err(Error::SizeOverflow));
}

#[test]
fn one_sampler_per_counter() {
    assert_eq!(check_sole_owner(1), Ok(()));
    assert_eq!(check_sole_owner(2), Err(Error::AlreadyExists));
}

#[test]
fn bpf_query() {
    let (ids, more) = query_bpf_result(&[4, 2, 11, 12, 0, 0], 4, false).unwrap();
    assert_eq!(ids, vec![11, 12]);
    assert_eq!(more, None);
    let (ids, more) = query_bpf_result(&[2, 5, 11, 12], 2, true).unwrap();
    assert_eq!(ids, vec![11, 12]);
    assert_eq!(more, Some(3));
    assert!(query_bpf_result(&[2, 5], 2, false).is_none());
}
