use zlib::{compress, uncompress};

#[test]
fn test() {
    let d = vec![0xdeu8, 0xadu8, 0xd0u8, 0x0du8];
    let c = compress(&d, Some(9)).unwrap();
    let r = uncompress(&c, d.len()).unwrap();
    assert!(r == d);
}

#[test]
fn concrete_scenario() {
    let d = vec![0xdeu8, 0xadu8, 0xd0u8, 0x0du8];
    let c = compress(&d, Some(9)).unwrap();
    assert!(c.len() >= 1);
    assert!(c.len() >= 6);
    let r = uncompress(&c, 4).unwrap();
    assert_eq!(r, vec![0xdeu8, 0xadu8, 0xd0u8, 0x0du8]);
}

#[test]
fn empty_input() {
    let c = compress(&[], Some(6)).unwrap();
    assert!(c.len() >= 1);
    let r = uncompress(&c, 0).unwrap();
    assert!(r.is_empty());
}

#[test]
fn default_level_roundtrip() {
    let d: Vec<u8> = (0u16..600).map(|i| (i % 251) as u8).collect();
    let c = compress(&d, None).unwrap();
    let r = uncompress(&c, d.len()).unwrap();
    assert_eq!(r, d);
}

#[test]
fn every_level_roundtrips() {
    let d: Vec<u8> = (0u16..400).map(|i| (i / 3) as u8).collect();
    for level in 0..=9 {
        let c = compress(&d, Some(level)).unwrap();
        let r = uncompress(&c, d.len()).unwrap();
        assert_eq!(r, d);
    }
}

#[test]
fn compressible_data_shrinks() {
    let d = vec![0x55u8; 1000];
    let c = compress(&d, Some(9)).unwrap();
    assert!(c.len() < d.len());
    let r = uncompress(&c, d.len()).unwrap();
    assert_eq!(r, d);
}

#[test]
fn deterministic() {
    let d: Vec<u8> = (0u16..300).map(|i| (i * 7 % 256) as u8).collect();
    let a = compress(&d, Some(6)).unwrap();
    let b = compress(&d, Some(6)).unwrap();
    assert_eq!(a, b);
    let x = compress(&d, None).unwrap();
    let y = compress(&d, None).unwrap();
    assert_eq!(x, y);
}
