use perf_event_open::aux_rb;
use perf_event_open::rb::Rb;

fn header(ty: u32, misc: u16, size: u16) -> [u8; 8] {
    let mut h = [0u8; 8];
    h[0..4].copy_from_slice(&ty.to_le_bytes());
    h[4..6].copy_from_slice(&misc.to_le_bytes());
    h[6..8].copy_from_slice(&size.to_le_bytes());
    h
}

/// Writes `rec` into `ring` from `at`, wrapping.
fn put(ring: &mut [u8], at: usize, rec: &[u8]) {
    let n = ring.len();
    for (i, b) in rec.iter().enumerate() {
        ring[(at + i) % n] = *b;
    }
}

fn record(size: u16, fill: u8) -> Vec<u8> {
    let mut r = header(2, 0, size).to_vec();
    r.resize(size as usize, fill);
    r
}

#[test]
fn borrowed_chunk_publishes_on_release() {
    let mut ring = vec![0u8; 64];
    let rec = record(24, 0xaa);
    put(&mut ring, 0, &rec);
    let rb = Rb::new(&ring);
    let c = rb.lending_pop(0, 24).unwrap();
    assert!(c.is_borrowed());
    assert_eq!(c.as_bytes(), &rec[..]);
    assert_eq!(c.new_tail, 24);
    assert_eq!(c.release(), Some(24));
}

#[test]
fn empty_ring() {
    let ring = vec![0u8; 64];
    let rb = Rb::new(&ring);
    assert!(rb.lending_pop(24, 24).is_none());
    // the head is taken modulo the ring size
    assert!(rb.lending_pop(24, 64 + 24).is_none());
}

#[test]
fn wrap_straddling_chunk_is_copied() {
    let mut ring = vec![0u8; 64];
    let rec: Vec<u8> = (0..16u8).map(|i| if i < 8 { header(2, 0, 16)[i as usize] } else { i }).collect();
    put(&mut ring, 56, &rec);
    let rb = Rb::new(&ring);
    let c = rb.lending_pop(56, 8).unwrap();
    assert!(!c.is_borrowed());
    assert_eq!(c.new_tail, 8);
    assert_eq!(c.release(), None);
    assert_eq!(c.into_owned(), rec);
}

#[test]
fn wrap_straddling_header() {
    let mut ring = vec![0u8; 64];
    let rec = record(16, 0x55);
    put(&mut ring, 60, &rec);
    let rb = Rb::new(&ring);
    let c = rb.lending_pop(60, 12).unwrap();
    assert_eq!(c.as_bytes(), &rec[..]);
    assert_eq!(c.new_tail, 12);
}

#[test]
fn records_come_out_in_order() {
    let mut ring = vec![0u8; 64];
    let recs = [record(24, 1), record(16, 2), record(16, 3)];
    let mut at = 40;
    for r in &recs {
        put(&mut ring, at, r);
        at = (at + r.len()) % 64;
    }
    let head = at as u64;
    let rb = Rb::new(&ring);
    let mut tail = 40u64;
    for r in &recs {
        let c = rb.lending_pop(tail, head).unwrap();
        assert_eq!(c.as_bytes(), &r[..]);
        tail = c.new_tail;
    }
    assert!(rb.lending_pop(tail, head).is_none());
}

#[test]
fn aux_chunks() {
    let ring: Vec<u8> = (0..16u8).collect();
    let rb = aux_rb::Rb::new(&ring);
    let c = rb.lending_pop(10, 4, Some(3)).unwrap();
    assert_eq!(c.as_bytes(), &[10, 11, 12]);
    assert_eq!(c.new_tail, 13);
    let c = rb.lending_pop(10, 4, None).unwrap();
    assert_eq!(c.into_owned(), vec![10, 11, 12, 13, 14, 15, 0, 1, 2, 3]);
    assert!(rb.lending_pop(4, 4, None).is_none());
}
