use jk_bms::sync::Synchronizer;

fn start(len: usize) -> Vec<u8> {
    let mut f = vec![0x55u8, 0xAA, 0xEB, 0x90];
    while f.len() < len {
        f.push(f.len() as u8);
    }
    f
}

fn plain(len: usize, fill: u8) -> Vec<u8> {
    vec![fill; len]
}

#[test]
fn fragments_reaching_frame_length_emit_one_frame() {
    let mut s = Synchronizer::new();
    let frags = vec![start(20), plain(100, 1), plain(100, 2), plain(80, 3)];
    let mut expected: Vec<u8> = Vec::new();
    for f in &frags {
        expected.extend_from_slice(f);
    }
    let mut emitted: Vec<Vec<u8>> = Vec::new();
    for f in &frags {
        if let Some(frame) = s.feed(f) {
            emitted.push(frame);
        }
    }
    assert_eq!(emitted.len(), 1);
    assert_eq!(emitted[0], expected);
    assert_eq!(emitted[0].len(), 300);
    assert!(s.is_idle());
}

#[test]
fn feed_all_emits_one_frame() {
    let mut s = Synchronizer::new();
    let frags = vec![start(20), plain(140, 7), plain(140, 8)];
    let out = s.feed_all(&frags);
    assert_eq!(out.len(), 1);
    assert_eq!(out[0][..20], start(20)[..]);
    assert_eq!(out[0][20..160], plain(140, 7)[..]);
    assert!(s.is_idle());
}

#[test]
fn short_stream_emits_nothing() {
    let mut s = Synchronizer::new();
    let frags = vec![start(20), plain(100, 1), plain(100, 2), plain(79, 3)];
    let out = s.feed_all(&frags);
    assert!(out.is_empty());
    assert!(!s.is_idle());
    assert_eq!(s.buffered_len(), 299);
}

#[test]
fn empty_stream_emits_nothing() {
    let mut s = Synchronizer::new();
    let out = s.feed_all(&Vec::new());
    assert!(out.is_empty());
    assert!(s.is_idle());
}

#[test]
fn ack_fragments_are_ignored() {
    let mut s = Synchronizer::new();
    let ack = vec![0xAAu8, 0x55, 0x90, 0xEB, 0x96];
    assert_eq!(s.feed(&ack), None);
    assert!(s.is_idle());
    assert_eq!(s.feed(&start(100)), None);
    assert_eq!(s.feed(&ack), None);
    assert_eq!(s.buffered_len(), 100);
    let mut ack200 = vec![0xAAu8, 0x55];
    ack200.extend_from_slice(&plain(198, 9));
    assert_eq!(s.feed(&ack200), None);
    assert_eq!(s.buffered_len(), 100);
    let frame = s.feed(&plain(200, 4)).unwrap();
    assert_eq!(frame.len(), 300);
    assert!(s.is_idle());
}

#[test]
fn noise_while_idle_is_dropped() {
    let mut s = Synchronizer::new();
    assert_eq!(s.feed(&plain(300, 1)), None);
    assert_eq!(s.feed(&vec![0x55u8]), None);
    assert_eq!(s.feed(&vec![0xAAu8]), None);
    assert_eq!(s.feed(&Vec::new()), None);
    assert!(s.is_idle());
}

#[test]
fn frame_start_restarts_accumulation() {
    let mut s = Synchronizer::new();
    assert_eq!(s.feed(&start(50)), None);
    assert_eq!(s.feed(&plain(100, 1)), None);
    assert_eq!(s.buffered_len(), 150);
    let mut second = start(30);
    second[10] = 0xEE;
    assert_eq!(s.feed(&second), None);
    assert_eq!(s.buffered_len(), 30);
    let frame = s.feed(&plain(270, 2)).unwrap();
    assert_eq!(frame[..30], second[..]);
    assert_eq!(frame[30..], plain(270, 2)[..]);
}

#[test]
fn whole_frame_in_one_fragment() {
    let mut s = Synchronizer::new();
    let f = start(300);
    assert_eq!(s.feed(&f), Some(f.clone()));
    assert!(s.is_idle());
}

#[test]
fn overflowing_frame_is_abandoned() {
    let mut s = Synchronizer::new();
    assert_eq!(s.feed(&start(200)), None);
    assert_eq!(s.feed(&plain(101, 1)), None);
    assert!(s.is_idle());
    assert_eq!(s.feed(&start(301)), None);
    assert!(s.is_idle());
}

#[test]
fn short_fragments_extend_a_frame() {
    let mut s = Synchronizer::new();
    assert_eq!(s.feed(&start(297)), None);
    assert_eq!(s.feed(&vec![0x55u8]), None);
    assert_eq!(s.feed(&Vec::new()), None);
    assert_eq!(s.feed(&vec![0xAAu8]), None);
    assert_eq!(s.buffered_len(), 299);
    let frame = s.feed(&vec![0x01u8]).unwrap();
    assert_eq!(frame[297..], [0x55u8, 0xAA, 0x01][..]);
}
