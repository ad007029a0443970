use i2c_scanner::seven_bit::SevenBitScanner;
use i2c_scanner::sim::SimTransport;
use i2c_scanner::sweep::Sweep;
use i2c_scanner::ten_bit::TenBitScanner;
use i2c_scanner::transport::flags_to_bytes;
use i2c_scanner::I2cScanner;

fn acks_at(len: usize, hits: &[usize]) -> Vec<bool> {
    let mut acks = vec![false; len];
    for &h in hits {
        acks[h] = true;
    }
    acks
}

#[test]
fn lib_check_hit() {
    let addr = 3u8;
    let i2c = SimTransport::new(acks_at(128, &[addr as usize]));
    let mut scanner = I2cScanner::new(i2c);
    let res = scanner.check(addr);
    assert!(res);
    let i2c = scanner.destroy();
    assert_eq!(i2c.transaction_count(), 1);
    assert_eq!(i2c.issued_address(0), addr as u16);
}

#[test]
fn lib_check_miss() {
    let addr = 3u8;
    let i2c = SimTransport::new(vec![false; 128]);
    let mut scanner = I2cScanner::new(i2c);
    let res = scanner.check(addr);
    assert!(!res);
    let i2c = scanner.destroy();
    assert_eq!(i2c.transaction_count(), 1);
    assert_eq!(i2c.issued_address(0), addr as u16);
}

#[test]
fn seven_bit_check_hit() {
    let addr = 3u8;
    let i2c = SimTransport::new(acks_at(128, &[addr as usize]));
    let mut scanner = SevenBitScanner::new(i2c);
    let res = scanner.check(addr);

    assert!(res);

    let i2c = scanner.destroy();
    assert_eq!(i2c.transaction_count(), 1);
    assert_eq!(i2c.issued_address(0), addr as u16);
}

#[test]
fn seven_bit_check_miss() {
    let addr = 3u8;
    let i2c = SimTransport::new(vec![false; 128]);
    let mut scanner = SevenBitScanner::new(i2c);
    let res = scanner.check(addr);

    assert!(!res);

    let i2c = scanner.destroy();
    assert_eq!(i2c.transaction_count(), 1);
    assert_eq!(i2c.issued_address(0), addr as u16);
}

#[test]
fn seven_bit_scan_miss() {
    let i2c = SimTransport::new(vec![false; 128]);
    let mut scanner = SevenBitScanner::new(i2c);
    let res = scanner.scan();

    assert_eq!(res, vec![0u8; 128]);

    let i2c = scanner.destroy();
    assert_eq!(i2c.transaction_count(), 128);
    for i in 0..128 {
        assert_eq!(i2c.issued_address(i), i as u16);
    }
}

#[test]
fn seven_bit_scan_one_hit() {
    let i2c = SimTransport::new(acks_at(128, &[8]));
    let mut scanner = SevenBitScanner::new(i2c);
    let res = scanner.scan();

    assert_eq!(1u8, res.iter().sum());
    assert_eq!(res[8], 1u8);

    let i2c = scanner.destroy();
    assert_eq!(i2c.transaction_count(), 128);
}

#[test]
fn seven_bit_scan_multiple_hits() {
    let i2c = SimTransport::new(acks_at(128, &[2, 4, 8, 16]));
    let mut scanner = SevenBitScanner::new(i2c);
    let res = scanner.scan();

    assert_eq!(4u8, res.iter().sum());
    for i in [2, 4, 8, 16] {
        assert_eq!(res[i], 1u8);
    }

    let i2c = scanner.destroy();
    assert_eq!(i2c.transaction_count(), 128);
}

#[test]
fn lib_scan_hit_at_three() {
    let i2c = SimTransport::new(acks_at(128, &[3]));
    let mut scanner = I2cScanner::new(i2c);

    assert!(scanner.check(3));

    let res = scanner.scan();
    assert_eq!(res.len(), 128);
    for i in 0..128 {
        assert_eq!(res[i], if i == 3 { 1u8 } else { 0u8 });
    }

    let i2c = scanner.destroy();
    assert_eq!(i2c.transaction_count(), 129);
}

#[test]
fn lib_scan_all_respond() {
    let i2c = SimTransport::new(vec![true; 128]);
    let mut scanner = I2cScanner::new(i2c);
    let res = scanner.scan();

    assert_eq!(res, vec![1u8; 128]);
}

#[test]
fn lib_scan_empty_table() {
    let i2c = SimTransport::new(Vec::new());
    let mut scanner = I2cScanner::new(i2c);
    let res = scanner.scan();

    assert_eq!(res, vec![0u8; 128]);
}

#[test]
fn ownership_round_trip() {
    let t = SimTransport::new(acks_at(128, &[3]));
    let scanner = I2cScanner::new(t);
    let t = scanner.destroy();

    let mut scanner = SevenBitScanner::new(t);
    assert!(scanner.check(3));
    assert!(!scanner.check(4));

    let t = scanner.destroy();
    assert_eq!(t.transaction_count(), 2);
    assert_eq!(t.issued_address(0), 3);
    assert_eq!(t.issued_address(1), 4);
}

#[test]
fn single_transaction_per_check() {
    let i2c = SimTransport::new(vec![false; 128]);
    let mut scanner = SevenBitScanner::new(i2c);
    let _ = scanner.check(42);
    let i2c = scanner.destroy();
    assert_eq!(i2c.transaction_count(), 1);
    assert_eq!(i2c.issued_address(0), 42);
}

#[test]
fn sweep_driven_step_by_step() {
    let responding = [2usize, 4, 8, 16];
    let mut sweep = Sweep::new(128);
    let mut expected_addr = 0u16;
    while let Some(addr) = sweep.pending() {
        assert_eq!(addr, expected_addr);
        expected_addr += 1;
        sweep.record(responding.contains(&(addr as usize)));
    }
    assert_eq!(expected_addr, 128);
    assert_eq!(sweep.pending(), None);

    let map = flags_to_bytes(&sweep.into_flags());
    assert_eq!(map.len(), 128);
    let sum: u32 = map.iter().map(|&b| b as u32).sum();
    assert_eq!(sum, 4);
    for i in responding {
        assert_eq!(map[i], 1u8);
    }
}

#[test]
fn ten_bit_check_hit() {
    let addr = 512u16;
    let i2c = SimTransport::new(acks_at(1024, &[addr as usize]));
    let mut scanner = TenBitScanner::new(i2c);
    let res = scanner.check(addr);

    assert!(res);

    let i2c = scanner.destroy();
    assert_eq!(i2c.transaction_count(), 1);
    assert_eq!(i2c.issued_address(0), addr);
}

#[test]
fn ten_bit_check_miss() {
    let i2c = SimTransport::new(vec![false; 1024]);
    let mut scanner = TenBitScanner::new(i2c);
    let res = scanner.check(512);

    assert!(!res);

    let i2c = scanner.destroy();
    assert_eq!(i2c.transaction_count(), 1);
}

#[test]
fn ten_bit_scan_one_hit() {
    let i2c = SimTransport::new(acks_at(1024, &[8]));
    let mut scanner = TenBitScanner::new(i2c);
    let res = scanner.scan();

    assert_eq!(res.len(), 1024);
    assert_eq!(1u16, res.iter().sum());
    assert_eq!(res[8], 1u16);
}

#[test]
fn ten_bit_scan_multiple_hits() {
    let i2c = SimTransport::new(acks_at(1024, &[2, 4, 8, 16, 600]));
    let mut scanner = TenBitScanner::new(i2c);
    let res = scanner.scan();

    assert_eq!(res.len(), 1024);
    assert_eq!(5u16, res.iter().sum());
    for i in [2, 4, 8, 16, 600] {
        assert_eq!(res[i], 1u16);
    }

    let i2c = scanner.destroy();
    assert_eq!(i2c.transaction_count(), 1024);
}

#[test]
fn ten_bit_scan_probes_all_ascending() {
    let i2c = SimTransport::new(vec![false; 1024]);
    let mut scanner = TenBitScanner::new(i2c);
    let res = scanner.scan();

    assert_eq!(res, vec![0u16; 1024]);

    let i2c = scanner.destroy();
    assert_eq!(i2c.transaction_count(), 1024);
    for i in 0..1024 {
        assert_eq!(i2c.issued_address(i), i as u16);
    }
}
