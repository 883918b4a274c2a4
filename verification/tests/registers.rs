use riscv_regs::register::csr::CsrOp;
use riscv_regs::register::hstatus::{self, Hstatus, SPVP};
use riscv_regs::register::mcause::{Exception, Interrupt, Mcause, Trap};
use riscv_regs::register::menvcfg::{self, Menvcfg, CBIE};
use riscv_regs::register::menvcfgh::Menvcfgh;
use riscv_regs::register::mireg;
use riscv_regs::register::misa::MXL;
use riscv_regs::register::mseccfg::Mseccfg;
use riscv_regs::register::mstateen0::Mstateen0;
use riscv_regs::register::mtopei::Mtopei;
use riscv_regs::register::mtvec;
use riscv_regs::register::sireg;
use riscv_regs::register::stopei::Stopei;

fn wide() -> bool {
    core::mem::size_of::<usize>() == 8
}

#[test]
fn hstatus_flags() {
    let h = Hstatus::from_bits((1 << 5) | (1 << 8) | (1 << 21));
    assert!(h.vsbe());
    assert!(!h.gva());
    assert!(!h.spv());
    assert!(!h.hu());
    assert_eq!(h.spvp(), SPVP::Supervisor);
    assert!(!h.vtvm());
    assert!(h.vtw());
    assert!(!h.vtsr());
    let h = Hstatus::from_bits((1 << 6) | (1 << 7) | (1 << 20) | (1 << 22));
    assert!(!h.vsbe());
    assert!(h.gva());
    assert!(h.spv());
    assert!(h.hu());
    assert_eq!(h.spvp(), SPVP::User);
    assert!(h.vtvm());
    assert!(!h.vtw());
    assert!(h.vtsr());
}

#[test]
fn hstatus_vgein() {
    assert_eq!(Hstatus::from_bits(0x1f << 12).vgein(), 0x1f);
    assert_eq!(Hstatus::from_bits(0x15 << 12).vgein(), 0x15);
    assert_eq!(Hstatus::from_bits(!(0x1f << 12)).vgein(), 0);
    assert_eq!(Hstatus::from_bits((1 << 17) | (1 << 11)).vgein(), 0);
    assert_eq!(hstatus::set_vgein(0, 0x1f), 0x1f000);
    assert_eq!(hstatus::set_vgein(0xffff_ffff, 0), 0xfffe_0fff);
    assert_eq!(hstatus::set_vgein(0x1f000, 0b00101), 0x05000);
}

#[test]
fn hstatus_vsxl() {
    if wide() {
        let bits = (1u64 << 32) as usize;
        assert_eq!(Hstatus::from_bits(bits).vsxl(), MXL::XLEN32);
        assert_eq!(hstatus::set_vsxl(0, MXL::XLEN32), bits);
        assert_eq!(hstatus::set_vsxl(bits | 5, MXL::XLEN32), bits | 5);
    }
}

#[test]
fn hstatus_set_spvp() {
    assert_eq!(hstatus::set_spvp(SPVP::Supervisor), CsrOp::SetBits(1 << 8));
    assert_eq!(hstatus::set_spvp(SPVP::User), CsrOp::ClearBits(1 << 8));
}

#[test]
fn mcause_interrupts_and_exceptions() {
    let top = 1usize << (usize::BITS - 1);
    let m = Mcause::from_bits(top | 7);
    assert_eq!(m.bits(), top | 7);
    assert!(m.is_interrupt());
    assert!(!m.is_exception());
    assert_eq!(m.code(), 7);
    assert_eq!(m.cause(), Trap::Interrupt(Interrupt::MachineTimer));
    let m = Mcause::from_bits(13);
    assert!(!m.is_interrupt());
    assert!(m.is_exception());
    assert_eq!(m.code(), 13);
    assert_eq!(m.cause(), Trap::Exception(Exception::LoadPageFault));
    assert_eq!(
        Mcause::from_bits(top | 2).cause(),
        Trap::Interrupt(Interrupt::Unknown)
    );
    assert_eq!(
        Mcause::from_bits(10).cause(),
        Trap::Exception(Exception::Unknown)
    );
}

#[test]
fn interrupt_from_number() {
    assert_eq!(Interrupt::from(1), Interrupt::SupervisorSoft);
    assert_eq!(Interrupt::from(3), Interrupt::MachineSoft);
    assert_eq!(Interrupt::from(5), Interrupt::SupervisorTimer);
    assert_eq!(Interrupt::from(7), Interrupt::MachineTimer);
    assert_eq!(Interrupt::from(9), Interrupt::SupervisorExternal);
    assert_eq!(Interrupt::from(11), Interrupt::MachineExternal);
    assert_eq!(Interrupt::from(0), Interrupt::Unknown);
    assert_eq!(Interrupt::from(35), Interrupt::Unknown);
    assert_eq!(Interrupt::from(43), Interrupt::Unknown);
    assert_eq!(Interrupt::from(usize::MAX), Interrupt::Unknown);
}

#[test]
fn exception_from_number() {
    let known = [
        (0, Exception::InstructionMisaligned),
        (1, Exception::InstructionFault),
        (2, Exception::IllegalInstruction),
        (3, Exception::Breakpoint),
        (4, Exception::LoadMisaligned),
        (5, Exception::LoadFault),
        (6, Exception::StoreMisaligned),
        (7, Exception::StoreFault),
        (8, Exception::UserEnvCall),
        (9, Exception::SupervisorEnvCall),
        (11, Exception::MachineEnvCall),
        (12, Exception::InstructionPageFault),
        (13, Exception::LoadPageFault),
        (15, Exception::StorePageFault),
        (18, Exception::SoftwareCheck),
        (19, Exception::HardwareError),
    ];
    for (nr, e) in known {
        assert_eq!(Exception::from(nr), e);
    }
    for nr in [10usize, 14, 16, 17, 20, 1000] {
        assert_eq!(Exception::from(nr), Exception::Unknown);
    }
}

#[test]
fn menvcfg_flags() {
    let m = Menvcfg::from_bits(0b1100_1101);
    assert_eq!(m.bits(), 0b1100_1101);
    assert!(m.fiom());
    assert!(m.lpe());
    assert!(m.sse());
    assert!(m.cbcfe());
    assert!(m.cbze());
    assert_eq!(m.cbie(), CBIE::IllegalInstruction);
    let m = Menvcfg::from_bits(0b0011_0010);
    assert!(!m.fiom());
    assert!(!m.lpe());
    assert!(!m.sse());
    assert!(!m.cbcfe());
    assert!(!m.cbze());
    assert_eq!(m.cbie(), CBIE::ExecutedFlush);
    if wide() {
        let m = Menvcfg::from_bits(((1u64 << 59) | (1u64 << 62)) as usize);
        assert!(m.dte());
        assert!(!m.adue());
        assert!(m.pbmte());
        assert!(!m.stce());
        let m = Menvcfg::from_bits(((1u64 << 61) | (1u64 << 63)) as usize);
        assert!(!m.dte());
        assert!(m.adue());
        assert!(!m.pbmte());
        assert!(m.stce());
    }
}

#[test]
fn menvcfg_set_cbie() {
    assert_eq!(menvcfg::set_cbie(0, CBIE::ExecutedFlush), 0x10);
    assert_eq!(menvcfg::set_cbie(0xff, CBIE::IllegalInstruction), 0xef);
    assert_eq!(menvcfg::set_cbie(0xff, CBIE::ExecutedFlush), 0xff);
    assert_eq!(CBIE::Reserved.code(), 2);
    assert_eq!(CBIE::ExecutedInvalidate.code(), 3);
}

#[test]
fn menvcfgh_flags() {
    let m = Menvcfgh::from_bits(1 << 30);
    assert_eq!(m.bits(), 1 << 30);
    assert!(m.pbmte());
    assert!(!m.stce());
    let m = Menvcfgh::from_bits(1 << 31);
    assert!(!m.pbmte());
    assert!(m.stce());
}

#[test]
fn mseccfg_flags() {
    let m = Mseccfg::from_bits(0b100);
    assert_eq!(m.bits(), 0b100);
    assert!(m.rlb());
    assert!(!m.mmwp());
    assert!(!m.mml());
    let m = Mseccfg::from_bits(0b011);
    assert!(!m.rlb());
    assert!(m.mmwp());
    assert!(m.mml());
}

#[test]
fn mstateen0_flags() {
    let m = Mstateen0::from_bits(0b101);
    assert_eq!(m.bits(), 0b101);
    assert!(m.jvt());
    assert!(!m.fcsr());
    assert!(m.c());
    if wide() {
        let m = Mstateen0::from_bits(
            ((1u64 << 63) | (1u64 << 60) | (1u64 << 58) | (1u64 << 56)) as usize,
        );
        assert!(m.se0());
        assert!(!m.envcfg());
        assert!(m.csrind());
        assert!(!m.aia());
        assert!(m.imsic());
        assert!(!m.context());
        assert!(m.p1p13());
        let m = Mstateen0::from_bits(((1u64 << 62) | (1u64 << 59) | (1u64 << 57)) as usize);
        assert!(!m.se0());
        assert!(m.envcfg());
        assert!(!m.csrind());
        assert!(m.aia());
        assert!(!m.imsic());
        assert!(m.context());
        assert!(!m.p1p13());
    }
}

#[test]
fn topei_fields() {
    let bits = (0x155 << 16) | 0x2aa;
    let m = Mtopei::from_bits(bits);
    assert_eq!(m.bits(), bits);
    assert_eq!(m.identity(), 0x155);
    assert_eq!(m.priority(), 0x2aa);
    let s = Stopei::from_bits(bits | (1 << 26) | (1 << 10));
    assert_eq!(s.bits(), bits | (1 << 26) | (1 << 10));
    assert_eq!(s.identity(), 0x155);
    assert_eq!(s.priority(), 0x2aa);
    assert_eq!(Mtopei::from_bits(0x3ff << 16).priority(), 0);
    assert_eq!(Stopei::from_bits(0x3ff).identity(), 0);
}

#[test]
fn mtvec_mode_and_base() {
    assert!(mtvec::is_direct(0x8000_0000));
    assert!(!mtvec::is_vectored(0x8000_0000));
    assert!(mtvec::is_vectored(0x8000_0001));
    assert!(!mtvec::is_direct(0x8000_0001));
    assert!(!mtvec::is_direct(0x2));
    assert!(!mtvec::is_vectored(0x3));
    assert_eq!(mtvec::set_direct(0x8000_0001), 0);
    assert_eq!(mtvec::set_vectored(0x8000_0000), 1);
    assert_eq!(mtvec::set_base(0x3, 0x2000_0000), 0x8000_0000);
    assert_eq!(mtvec::set_base(0, 1), 4);
    assert_eq!(mtvec::set_base(0, usize::MAX), usize::MAX << 2);
}

#[test]
fn indirect_register_positions() {
    if wide() {
        assert_eq!(mireg::int_register_bit(0), (0, 0));
        assert_eq!(mireg::int_register_bit(63), (0, 63));
        assert_eq!(mireg::int_register_bit(64), (2, 0));
        assert_eq!(mireg::int_register_bit(200), (6, 8));
        assert_eq!(sireg::int_register_bit(129), (4, 1));
        assert_eq!(mireg::eip_select(64), 0x82);
        assert_eq!(mireg::eie_select(64), 0xC2);
        assert_eq!(sireg::eip_select(5), 0x80);
        assert_eq!(sireg::eie_select(200), 0xC6);
    } else {
        assert_eq!(mireg::int_register_bit(33), (1, 1));
        assert_eq!(sireg::int_register_bit(33), (1, 1));
    }
}

#[test]
fn indirect_register_accesses() {
    assert_eq!(
        mireg::write_eidelivery(1),
        mireg::IndirectOp { select: 0x70, op: CsrOp::Write(1) }
    );
    assert_eq!(
        sireg::write_eithreshold(9),
        sireg::IndirectOp { select: 0x72, op: CsrOp::Write(9) }
    );
    let d = mireg::read_eidelivery((1 << 30) | 1);
    assert_eq!(d.bits(), (1 << 30) | 1);
    assert!(d.enabled());
    assert!(d.plic_enabled());
    let d = sireg::read_eidelivery(2);
    assert!(!d.enabled());
    assert!(!d.plic_enabled());
    assert!(mireg::read_eip(0b100, 2));
    assert!(!mireg::read_eip(0b100, 3));
    assert!(sireg::read_eie(0b1000, 3));
    assert!(!sireg::read_eie(0b1000, 2));
    if wide() {
        assert!(mireg::read_eie(0b10, 65));
        assert_eq!(
            mireg::set_eip(65),
            mireg::IndirectOp { select: 0x82, op: CsrOp::SetBits(0b10) }
        );
        assert_eq!(
            mireg::clear_eip(3),
            mireg::IndirectOp { select: 0x80, op: CsrOp::ClearBits(0b1000) }
        );
        assert_eq!(
            sireg::set_eie(128),
            sireg::IndirectOp { select: 0xC4, op: CsrOp::SetBits(1) }
        );
        assert_eq!(
            sireg::clear_eie(130),
            sireg::IndirectOp { select: 0xC4, op: CsrOp::ClearBits(0b100) }
        );
        assert_eq!(
            sireg::set_eip(1),
            sireg::IndirectOp { select: 0x80, op: CsrOp::SetBits(0b10) }
        );
        assert_eq!(
            sireg::clear_eip(64),
            sireg::IndirectOp { select: 0x82, op: CsrOp::ClearBits(1) }
        );
        assert_eq!(
            mireg::set_eie(2),
            mireg::IndirectOp { select: 0xC0, op: CsrOp::SetBits(0b100) }
        );
        assert_eq!(
            mireg::clear_eie(66),
            mireg::IndirectOp { select: 0xC2, op: CsrOp::ClearBits(0b100) }
        );
    }
}
