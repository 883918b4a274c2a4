use riscv_regs::error::Error;
use riscv_regs::peripheral::aplic::{
    delegate_word, domaincfg_word, msiaddrcfg_words, source_config, target_fields, target_word,
    Aplic, DeliveryMode, Endian, InterruptEnable, SourceConfig, SourceModes,
};

#[test]
fn domaincfg_bits() {
    assert_eq!(InterruptEnable::Disabled.bits(), 0);
    assert_eq!(InterruptEnable::Enabled.bits(), 1 << 8);
    assert_eq!(DeliveryMode::DirectDeliveryMode.bits(), 0);
    assert_eq!(DeliveryMode::MSIDeliveryMode.bits(), 1 << 2);
    assert_eq!(Endian::LittleEndian.bits(), 0);
    assert_eq!(Endian::BigEndian.bits(), 1);
    assert_eq!(
        domaincfg_word(
            InterruptEnable::Enabled,
            DeliveryMode::MSIDeliveryMode,
            Endian::BigEndian
        ),
        0x105
    );
    assert_eq!(
        domaincfg_word(
            InterruptEnable::Enabled,
            DeliveryMode::DirectDeliveryMode,
            Endian::LittleEndian
        ),
        0x100
    );
}

#[test]
fn set_domaincfg_writes_one_word() {
    let mut aplic = Aplic::new();
    assert_eq!(aplic.domaincfg(), 0);
    aplic.set_domaincfg(
        InterruptEnable::Enabled,
        DeliveryMode::MSIDeliveryMode,
        Endian::LittleEndian,
    );
    assert_eq!(aplic.domaincfg(), 0x104);
    aplic.set_domaincfg(
        InterruptEnable::Disabled,
        DeliveryMode::DirectDeliveryMode,
        Endian::BigEndian,
    );
    assert_eq!(aplic.domaincfg(), 0x1);
}

#[test]
fn source_mode_codes() {
    assert_eq!(SourceModes::Inactive.bits(), 0);
    assert_eq!(SourceModes::Detached.bits(), 1);
    assert_eq!(SourceModes::EdgeRising.bits(), 4);
    assert_eq!(SourceModes::EdgeFalling.bits(), 5);
    assert_eq!(SourceModes::LevelHigh.bits(), 6);
    assert_eq!(SourceModes::LevelLow.bits(), 7);
}

#[test]
fn sourcecfg_words() {
    assert_eq!(delegate_word(0), Ok(0x400));
    assert_eq!(delegate_word(5), Ok(0x405));
    assert_eq!(delegate_word(1023), Ok(0x7ff));
    assert_eq!(delegate_word(1024), Err(Error::OutOfRange));
    assert_eq!(source_config(0x405), SourceConfig::DelegatedTo(5));
    assert_eq!(source_config(4), SourceConfig::Mode(SourceModes::EdgeRising));
    assert_eq!(source_config(0), SourceConfig::Mode(SourceModes::Inactive));
    assert_eq!(source_config(7), SourceConfig::Mode(SourceModes::LevelLow));
}

#[test]
fn new_domain_owns_every_source_inactive() {
    let aplic = Aplic::new();
    for id in [1u32, 2, 500, 1023] {
        assert_eq!(
            aplic.sourcecfg(id),
            Ok(SourceConfig::Mode(SourceModes::Inactive))
        );
        assert_eq!(aplic.is_enabled(id), Ok(false));
        assert_eq!(aplic.is_pending(id), Ok(false));
        assert_eq!(aplic.target_msi(id), Ok((0, 0, 0)));
    }
}

#[test]
fn delegate_then_set_mode_leaves_no_delegation() {
    let mut aplic = Aplic::new();
    assert_eq!(aplic.sourcecfg_delegate(17, 1023), Ok(()));
    assert_eq!(aplic.sourcecfg(17), Ok(SourceConfig::DelegatedTo(1023)));
    assert_eq!(aplic.set_sourcecfg(17, SourceModes::EdgeRising), Ok(()));
    assert_eq!(
        aplic.sourcecfg(17),
        Ok(SourceConfig::Mode(SourceModes::EdgeRising))
    );
    // And the other way round: the last write wins.
    assert_eq!(aplic.sourcecfg_delegate(17, 2), Ok(()));
    assert_eq!(aplic.sourcecfg(17), Ok(SourceConfig::DelegatedTo(2)));
    // The neighbours are untouched.
    assert_eq!(
        aplic.sourcecfg(16),
        Ok(SourceConfig::Mode(SourceModes::Inactive))
    );
    assert_eq!(
        aplic.sourcecfg(18),
        Ok(SourceConfig::Mode(SourceModes::Inactive))
    );
}

#[test]
fn sourcecfg_out_of_range() {
    let mut aplic = Aplic::new();
    assert_eq!(aplic.sourcecfg_delegate(0, 1), Err(Error::OutOfRange));
    assert_eq!(aplic.sourcecfg_delegate(1024, 1), Err(Error::OutOfRange));
    assert_eq!(aplic.sourcecfg_delegate(1, 1024), Err(Error::OutOfRange));
    assert_eq!(
        aplic.set_sourcecfg(0, SourceModes::Detached),
        Err(Error::OutOfRange)
    );
    assert_eq!(
        aplic.set_sourcecfg(1024, SourceModes::Detached),
        Err(Error::OutOfRange)
    );
    assert_eq!(aplic.sourcecfg(0), Err(Error::OutOfRange));
    assert_eq!(aplic.sourcecfg(1024), Err(Error::OutOfRange));
    assert_eq!(
        aplic.sourcecfg(1),
        Ok(SourceConfig::Mode(SourceModes::Inactive))
    );
}

#[test]
fn target_word_packs_the_fields() {
    assert_eq!(target_word(1, 0, 0), Ok(1 << 18));
    assert_eq!(target_word(0, 1, 0), Ok(1 << 12));
    assert_eq!(target_word(0, 0, 1), Ok(1));
    assert_eq!(target_word(3, 2, 9), Ok((3 << 18) | (2 << 12) | 9));
    assert_eq!(target_word(16383, 31, 1023), Ok(0xFFFD_F3FF));
    assert_eq!(target_fields(0xFFFD_F3FF), (16383, 31, 1023));
    assert_eq!(target_fields((3 << 18) | (2 << 12) | 9), (3, 2, 9));
}

#[test]
fn set_target_msi_bounds() {
    let mut aplic = Aplic::new();
    assert_eq!(aplic.set_target_msi(7, 16384, 0, 7), Err(Error::OutOfRange));
    assert_eq!(aplic.set_target_msi(7, 0, 32, 7), Err(Error::OutOfRange));
    assert_eq!(aplic.set_target_msi(7, 0, 0, 1024), Err(Error::OutOfRange));
    assert_eq!(aplic.set_target_msi(0, 0, 0, 7), Err(Error::OutOfRange));
    assert_eq!(aplic.set_target_msi(1024, 0, 0, 7), Err(Error::OutOfRange));
    assert_eq!(aplic.target_msi(7), Ok((0, 0, 0)));
    assert_eq!(aplic.set_target_msi(7, 16383, 31, 1023), Ok(()));
    assert_eq!(aplic.target_msi(7), Ok((16383, 31, 1023)));
    assert_eq!(aplic.target_msi(6), Ok((0, 0, 0)));
    assert_eq!(aplic.target_msi(0), Err(Error::OutOfRange));
}

#[test]
fn mask_and_unmask_one_source() {
    let mut aplic = Aplic::new();
    assert_eq!(aplic.unmask(33), Ok(()));
    assert_eq!(aplic.is_enabled(33), Ok(true));
    assert_eq!(aplic.is_enabled(32), Ok(false));
    assert_eq!(aplic.is_enabled(1), Ok(false));
    assert_eq!(aplic.mask(33), Ok(()));
    assert_eq!(aplic.is_enabled(33), Ok(false));
    assert_eq!(aplic.mask(0), Err(Error::OutOfRange));
    assert_eq!(aplic.unmask(1024), Err(Error::OutOfRange));
    assert_eq!(aplic.is_enabled(0), Err(Error::OutOfRange));
    assert_eq!(aplic.is_pending(1024), Err(Error::OutOfRange));
}

#[test]
fn number_and_bitmap_reach_the_same_state() {
    let mut by_number = Aplic::new();
    let mut by_bitmap = Aplic::new();
    for id in [1u32, 31, 32, 100, 1023] {
        by_number.setienum(id).unwrap();
        by_number.setipnum(id).unwrap();
        by_bitmap.setie((id / 32) as usize, 1 << (id % 32)).unwrap();
        by_bitmap.setip((id / 32) as usize, 1 << (id % 32)).unwrap();
    }
    by_number.clrienum(100).unwrap();
    by_number.clripnum(31).unwrap();
    by_bitmap.clrie(3, 1 << 4).unwrap();
    by_bitmap.in_clrip(0, 1 << 31).unwrap();
    for id in 1..1024u32 {
        assert_eq!(by_number.is_enabled(id), by_bitmap.is_enabled(id));
        assert_eq!(by_number.is_pending(id), by_bitmap.is_pending(id));
    }
    assert_eq!(by_number.is_enabled(100), Ok(false));
    assert_eq!(by_number.is_enabled(32), Ok(true));
    assert_eq!(by_number.is_pending(31), Ok(false));
    assert_eq!(by_number.is_pending(32), Ok(true));
}

#[test]
fn bitmap_writes_a_whole_lane() {
    let mut aplic = Aplic::new();
    // Bit 0 of lane 0 stands for id 0, which names no source.
    assert_eq!(aplic.setie(0, 0xffff_ffff), Ok(()));
    for id in 1..32u32 {
        assert_eq!(aplic.is_enabled(id), Ok(true));
    }
    assert_eq!(aplic.is_enabled(32), Ok(false));
    assert_eq!(aplic.clrie(0, 0b1010), Ok(()));
    assert_eq!(aplic.is_enabled(1), Ok(false));
    assert_eq!(aplic.is_enabled(2), Ok(true));
    assert_eq!(aplic.is_enabled(3), Ok(false));
    // Enabling says nothing of pending.
    assert_eq!(aplic.is_pending(2), Ok(false));
    assert_eq!(aplic.setie(32, 1), Err(Error::OutOfRange));
    assert_eq!(aplic.clrie(32, 1), Err(Error::OutOfRange));
    assert_eq!(aplic.setip(32, 1), Err(Error::OutOfRange));
    assert_eq!(aplic.in_clrip(32, 1), Err(Error::OutOfRange));
}

#[test]
fn msi_address_words() {
    assert_eq!(msiaddrcfg_words(0x2800_0000, 0), (0x28000, 0));
    assert_eq!(
        msiaddrcfg_words(0x2800_0000, 0x8012_3fff),
        (0x28000, 0x8012_3000)
    );
    assert_eq!(msiaddrcfg_words(0xfff, 0xfff), (0, 0));
    if core::mem::size_of::<usize>() == 8 {
        let addr = 0x0123_4567_89ab_c000u64 as usize;
        assert_eq!(msiaddrcfg_words(addr, 0), (0x5678_9abc, 0x1234));
        assert_eq!(
            msiaddrcfg_words(addr, 0xffff_ffff),
            (0x5678_9abc, 0xffff_f234)
        );
    }
}

#[test]
fn msi_address_configuration_leaves_the_sources() {
    let mut aplic = Aplic::new();
    aplic.set_sourcecfg(3, SourceModes::LevelHigh).unwrap();
    aplic.unmask(3).unwrap();
    aplic.set_mmsiaddrcfg(0x2800_0000, 0x8000_0000);
    aplic.set_smsiaddrcfg(0x2900_0000, 0x0030_0000);
    assert_eq!(
        aplic.sourcecfg(3),
        Ok(SourceConfig::Mode(SourceModes::LevelHigh))
    );
    assert_eq!(aplic.is_enabled(3), Ok(true));
    assert_eq!(aplic.domaincfg(), 0);
}

#[test]
fn genmsi_bounds() {
    let mut aplic = Aplic::new();
    assert_eq!(aplic.genmsi(16383, 1023), Ok(()));
    assert_eq!(aplic.genmsi(16384, 1), Err(Error::OutOfRange));
    assert_eq!(aplic.genmsi(0, 1024), Err(Error::OutOfRange));
}
