use riscv_regs::error::Error;
use riscv_regs::peripheral::aplic;
use riscv_regs::plic;
use riscv_regs::surface::RegisterBlock;

#[test]
fn plic_sizeof_register_block() {
    assert_eq!(plic::SIZE, 0x400_0000);
    assert_eq!(
        plic::CONTEXT_BASE + plic::MAX_CONTEXTS * plic::CONTEXT_STRIDE,
        0x400_0000
    );
}

#[test]
fn sizeof_enables() {
    assert_eq!(plic::ENABLE_STRIDE, 32 * 4);
    assert_eq!(plic::SOURCES / 32 * 4, 32 * 4);
}

#[test]
fn sizeof_contexts() {
    assert_eq!(plic::CONTEXT_STRIDE, 1024 * 4);
}

#[test]
fn aplic_sizeof_register_block() {
    assert_eq!(aplic::SIZE, 0x4000);
}

#[test]
fn offset_of() {
    assert_eq!(0x0000, aplic::DOMAINCFG);
    assert_eq!(0x0004, aplic::SOURCECFG_BASE + 4);
    assert_eq!(0x1BC0, aplic::MMSIADDRCFG);
    assert_eq!(0x1BC4, aplic::MMSIADDRCFGH);
    assert_eq!(0x1BC8, aplic::SMSIADDRCFG);
    assert_eq!(0x1BCC, aplic::SMSIADDRCFGH);
    assert_eq!(0x1C00, aplic::SETIP);
    assert_eq!(0x1CDC, aplic::SETIPNUM);
    assert_eq!(0x1D00, aplic::IN_CLRIP);
    assert_eq!(0x1DDC, aplic::CLRIPNUM);
    assert_eq!(0x1E00, aplic::SETIE);
    assert_eq!(0x1EDC, aplic::SETIENUM);
    assert_eq!(0x1F00, aplic::CLRIE);
    assert_eq!(0x1FDC, aplic::CLRIENUM);
    assert_eq!(0x2000, aplic::SETIPNUM_LE);
    assert_eq!(0x2004, aplic::SETIPNUM_BE);
    assert_eq!(0x3000, aplic::GENMSI);
    assert_eq!(0x3004, aplic::TARGET_BASE + 4);
}

#[test]
fn plic_offsets_of_named_fields() {
    assert_eq!(plic::PRIORITY_BASE, 0x000000);
    assert_eq!(plic::PENDING_BASE, 0x001000);
    assert_eq!(plic::ENABLE_BASE, 0x002000);
    assert_eq!(plic::CONTEXT_BASE, 0x200000);
    assert_eq!(plic::priority_offset(1), Ok(0x000004));
    assert_eq!(plic::priority_offset(1023), Ok(0x000FFC));
    assert_eq!(plic::pending_offset(31), Ok(0x001000));
    assert_eq!(plic::pending_offset(1023), Ok(0x00107C));
    assert_eq!(plic::enable_offset(0, 1), Ok(0x002000));
    assert_eq!(plic::enable_offset(1, 32), Ok(0x002084));
    assert_eq!(plic::enable_offset(15871, 1023), Ok(0x1F1FFC));
    assert_eq!(plic::threshold_offset(0), Ok(0x200000));
    assert_eq!(plic::threshold_offset(1), Ok(0x201000));
    assert_eq!(plic::claim_offset(1), Ok(0x201004));
    assert_eq!(plic::threshold_offset(15871), Ok(0x3FFF000));
    assert_eq!(plic::claim_offset(15871), Ok(0x3FFF004));
}

#[test]
fn plic_offsets_out_of_range() {
    assert_eq!(plic::priority_offset(0), Err(Error::OutOfRange));
    assert_eq!(plic::priority_offset(1024), Err(Error::OutOfRange));
    assert_eq!(plic::pending_offset(0), Err(Error::OutOfRange));
    assert_eq!(plic::enable_offset(15872, 1), Err(Error::OutOfRange));
    assert_eq!(plic::enable_offset(0, 1024), Err(Error::OutOfRange));
    assert_eq!(plic::threshold_offset(15872), Err(Error::OutOfRange));
    assert_eq!(plic::claim_offset(15872), Err(Error::OutOfRange));
}

#[test]
fn source_mask_and_bit() {
    assert_eq!(plic::source_mask(1), 0b10);
    assert_eq!(plic::source_mask(32), 1);
    assert_eq!(plic::source_mask(63), 0x8000_0000);
    assert!(plic::source_bit(0b100, 2));
    assert!(!plic::source_bit(0b100, 3));
    assert!(plic::source_bit(1, 32));
    // The bit of a source is the one at its position, not its number taken
    // as a mask: source 3 has bit 3, and bits 0 and 1 say nothing of it.
    assert!(!plic::source_bit(0b011, 3));
}

#[test]
fn claim_word_names_a_source_or_none() {
    assert_eq!(plic::claimed_source(0), None);
    assert_eq!(plic::claimed_source(7), Some(7));
    assert_eq!(plic::claimed_source(0x1_0000), None);
    assert_eq!(plic::claimed_source(0x1_0003), Some(3));
}

#[test]
fn register_block_reads_what_was_written() {
    let mut block = RegisterBlock::new(16);
    assert_eq!(block.size(), 16);
    assert_eq!(block.read32(8), 0);
    block.write32(8, 0xdead_beef);
    assert_eq!(block.read32(8), 0xdead_beef);
    assert_eq!(block.read32(4), 0);
    block.modify32(8, |v| v & 0xffff);
    assert_eq!(block.read32(8), 0xbeef);
    block.modify32(0, |v| v | 1);
    assert_eq!(block.read32(0), 1);
    assert_eq!(block.read32(12), 0);
}
