use riscv_regs::register::csr::CsrWrite;
use riscv_regs::register::pmpaddrx::{
    write_na4_indexed, write_napot_indexed, write_tor_indexed, PmpAddr,
};
use riscv_regs::register::pmpcfgx::{
    entry_csr, set_cfg_csr, set_cfg_entry, Mode, Permission, PmpCfg, PmpCfgCsr,
};

fn wide() -> bool {
    core::mem::size_of::<usize>() == 8
}

#[test]
fn pmpcfg_new_packs_the_fields() {
    assert_eq!(PmpCfg::new(Mode::OFF, Permission::NONE, false).byte, 0);
    assert_eq!(PmpCfg::new(Mode::NAPOT, Permission::RWX, true).byte, 0x9f);
    assert_eq!(PmpCfg::new(Mode::TOR, Permission::R, false).byte, 0b0000_1001);
    assert_eq!(PmpCfg::new(Mode::NA4, Permission::RX, true).byte, 0b1001_0101);
}

#[test]
fn pmpcfg_fields_come_back() {
    let modes = [Mode::OFF, Mode::TOR, Mode::NA4, Mode::NAPOT];
    let permissions = [
        Permission::NONE,
        Permission::R,
        Permission::W,
        Permission::RW,
        Permission::X,
        Permission::RX,
        Permission::WX,
        Permission::RWX,
    ];
    for mode in modes {
        for permission in permissions {
            for locked in [false, true] {
                let cfg = PmpCfg::new(mode, permission, locked);
                assert_eq!(cfg.get_mode(), mode);
                assert_eq!(cfg.get_permission(), permission);
                assert_eq!(cfg.check_locked(), locked);
            }
        }
    }
}

#[test]
fn pmpcfg_setters() {
    let mut cfg = PmpCfg::new(Mode::NAPOT, Permission::R, false);
    cfg.set_permission(Permission::WX);
    assert_eq!(cfg.byte, 0b0001_1110);
    assert_eq!(cfg.get_permission(), Permission::WX);
    assert_eq!(cfg.get_mode(), Mode::NAPOT);
    cfg.set_locked();
    assert_eq!(cfg.byte, 0b1001_1110);
    assert!(cfg.check_locked());
    cfg.set_mode(Mode::OFF);
    assert_eq!(cfg.byte, 0b1000_0110);
    assert_eq!(cfg.get_mode(), Mode::OFF);
    cfg.set_permission(Permission::NONE);
    assert_eq!(cfg.byte, 0b1000_0000);
}

#[test]
fn pmpcfg_csr_entries() {
    if wide() {
        let csr = PmpCfgCsr::from_bits(0x0102_0304_0506_0708u64 as usize);
        assert_eq!(csr.into_bits(), 0x0102_0304_0506_0708u64 as usize);
        assert_eq!(csr.get_cfg(0).byte, 0x01);
        assert_eq!(csr.get_cfg(1).byte, 0x02);
        assert_eq!(csr.get_cfg(6).byte, 0x07);
        assert_eq!(csr.get_cfg(7).byte, 0x08);
    } else {
        let csr = PmpCfgCsr::from_bits(0x0102_0304);
        assert_eq!(csr.get_cfg(0).byte, 0x01);
        assert_eq!(csr.get_cfg(3).byte, 0x04);
    }
}

#[test]
fn pmpcfg_entry_writes() {
    let cfg = PmpCfg::new(Mode::NAPOT, Permission::RWX, true);
    if wide() {
        assert_eq!(entry_csr(0), 0x3A0);
        assert_eq!(entry_csr(7), 0x3A0);
        assert_eq!(entry_csr(8), 0x3A2);
        assert_eq!(entry_csr(63), 0x3AE);
        assert_eq!(
            set_cfg_entry(0, cfg, 0),
            CsrWrite { csr: 0x3A0, value: 0x9f }
        );
        assert_eq!(
            set_cfg_entry(9, cfg, 0x1111_1111),
            CsrWrite { csr: 0x3A2, value: 0x1111_9f11 }
        );
        assert_eq!(
            set_cfg_entry(63, PmpCfg { byte: 0 }, usize::MAX),
            CsrWrite { csr: 0x3AE, value: usize::MAX >> 8 }
        );
        assert_eq!(
            set_cfg_csr(14, PmpCfgCsr::from_bits(77)),
            CsrWrite { csr: 0x3AE, value: 77 }
        );
    }
    assert_eq!(
        set_cfg_csr(0, PmpCfgCsr::from_bits(5)),
        CsrWrite { csr: 0x3A0, value: 5 }
    );
}

#[test]
fn pmpaddr_decode_by_mode() {
    let p = PmpAddr::from_bits(0x2000_0000);
    assert_eq!(p.bits(), 0x2000_0000);
    assert_eq!(p.decode(Mode::OFF), (None, None));
    assert_eq!(p.decode(Mode::TOR), (Some(0x8000_0000), None));
    assert_eq!(p.decode(Mode::NA4), (Some(0x8000_0000), Some(4)));
    assert_eq!(p.decode(Mode::NAPOT), (Some(0x8000_0000), Some(8)));
}

#[test]
fn pmpaddr_decode_napot_sizes() {
    assert_eq!(PmpAddr::decode_napot(0), (0, 8));
    assert_eq!(PmpAddr::decode_napot(0b1), (0, 16));
    assert_eq!(PmpAddr::decode_napot(0b0111), (0, 64));
    assert_eq!(PmpAddr::decode_napot(0x2000_01ff), (0x8000_0000, 4096));
    assert_eq!(PmpAddr::decode_napot(0b1011), (0b1000 << 2, 32));
    assert_eq!(PmpAddr::decode_napot(0b10), (0b10 << 2, 8));
    if wide() {
        // Every bit one: the size is beyond 64 bits.
        assert_eq!(PmpAddr::decode_napot(usize::MAX), (0, 0));
        let p = PmpAddr::from_bits(0x2000_01ff);
        assert_eq!(p.decode(Mode::NAPOT), (Some(0x8000_0000), Some(4096)));
    }
}

#[test]
fn pmpaddr_encode_by_mode() {
    let mut p = PmpAddr::from_bits(77);
    assert_eq!(p.encode(Mode::OFF, 0x1234, None), Ok(()));
    assert_eq!(p.bits(), 0);
    assert_eq!(p.encode(Mode::TOR, 0x8000_0000, None), Ok(()));
    assert_eq!(p.bits(), 0x2000_0000);
    assert_eq!(p.encode(Mode::NA4, 0x1000, Some(4)), Ok(()));
    assert_eq!(p.bits(), 0x400);
    // An address that is not a multiple of 4 is refused and nothing
    // changes.
    assert_eq!(p.encode(Mode::TOR, 0x1001, None), Err(()));
    assert_eq!(p.bits(), 0x400);
    assert_eq!(p.encode(Mode::NA4, 0x1002, Some(4)), Err(()));
    assert_eq!(p.bits(), 0x400);
}

#[test]
fn pmpaddr_encode_napot() {
    // The size field is (size - 1) / 8; a size with exactly one bit set
    // is refused, and so is an address with a bit of the size field set.
    assert_eq!(PmpAddr::encode_napot(0x8000_0000, 4096), Err(()));
    assert_eq!(PmpAddr::encode_napot(0x8000_0000, 8), Err(()));
    assert_eq!(PmpAddr::encode_napot(0x8000_0000, 1), Err(()));
    assert_eq!(PmpAddr::encode_napot(0x8000_0000, 4097), Ok(0x2000_0200));
    assert_eq!(PmpAddr::encode_napot(0x8000_0000, 4095), Ok(0x2000_01ff));
    assert_eq!(PmpAddr::encode_napot(0x8000_0000, 9), Ok(0x2000_0001));
    assert_eq!(PmpAddr::encode_napot(0x8000_0002, 17), Err(()));
    assert_eq!(PmpAddr::encode_napot(0x8000_0001, 17), Ok(0x2000_0002));
    assert_eq!(PmpAddr::encode_napot(0x8000_0004, 17), Ok(0x2000_0003));
    let mut p = PmpAddr::from_bits(5);
    assert_eq!(p.encode(Mode::NAPOT, 0x8000_0000, Some(4096)), Err(()));
    assert_eq!(p.bits(), 5);
    assert_eq!(p.encode(Mode::NAPOT, 0x8000_0000, Some(4095)), Ok(()));
    assert_eq!(p.bits(), 0x2000_01ff);
}

#[test]
fn pmpaddr_indexed_writes() {
    assert_eq!(
        write_tor_indexed(0, 0x8000_0000),
        CsrWrite { csr: 0x3B0, value: 0x2000_0000 }
    );
    assert_eq!(
        write_tor_indexed(63, 0x1003),
        CsrWrite { csr: 0x3EF, value: 0x400 }
    );
    assert_eq!(
        write_napot_indexed(15, 0x8000_0000, 4095),
        CsrWrite { csr: 0x3BF, value: 0x2000_01ff }
    );
    assert_eq!(
        write_na4_indexed(16, 0x8000_0000, 9),
        CsrWrite { csr: 0x3C0, value: 0x2000_0001 }
    );
}

#[test]
fn register_values_from_raw_bits() {
    let p: PmpAddr = PmpAddr::from(0x2000_0000);
    assert_eq!(p.bits(), 0x2000_0000);
    assert_eq!(p, PmpAddr::from_bits(0x2000_0000));
    let c: PmpCfgCsr = PmpCfgCsr::from(0x1f);
    assert_eq!(c.into_bits(), 0x1f);
    let raw: usize = PmpCfgCsr::from_bits(0x9f).into();
    assert_eq!(raw, 0x9f);
}
