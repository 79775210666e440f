use gbcore::registers::Registers;

#[test]
fn test_af() {
    let mut testreg = Registers::load_defaults();
    testreg.a = 0x45;
    testreg.f = 0x67;
    assert_eq!(testreg.get_af(), 0x4567);
    testreg.set_af(0xF1A4);
    // Only Z, N, H, C are writable in F: its low nibble reads back as zero.
    assert_eq!(testreg.get_af(), 0xF1A0);
    assert_eq!(testreg.a, 0xF1);
    assert_eq!(testreg.f, 0xA0);
}

#[test]
fn test_bc() {
    let mut testreg = Registers::load_defaults();
    testreg.b = 0xCE;
    testreg.c = 0x12;
    assert_eq!(testreg.get_bc(), 0xCE12);
    testreg.set_bc(0xBEEF);
    assert_eq!(testreg.get_bc(), 0xBEEF);
    assert_eq!(testreg.b, 0xBE);
    assert_eq!(testreg.c, 0xEF);
}

#[test]
fn test_de() {
    let mut testreg = Registers::load_defaults();
    testreg.d = 0x4F;
    testreg.e = 0xA3;
    assert_eq!(testreg.get_de(), 0x4FA3);
    testreg.set_de(0xF00F);
    assert_eq!(testreg.get_de(), 0xF00F);
    assert_eq!(testreg.d, 0xF0);
    assert_eq!(testreg.e, 0x0F);
}

#[test]
fn test_hl() {
    let mut testreg = Registers::load_defaults();
    testreg.h = 0x8A;
    testreg.l = 0xFE;
    assert_eq!(testreg.get_hl(), 0x8AFE);
    testreg.set_hl(0xDEAD);
    assert_eq!(testreg.get_hl(), 0xDEAD);
    assert_eq!(testreg.h, 0xDE);
    assert_eq!(testreg.l, 0xAD);
}

#[test]
fn test_z() {
    let mut testreg = Registers::load_defaults();
    testreg.set_z(true);
    assert_eq!(testreg.get_z(), true);
    testreg.set_z(false);
    assert_eq!(testreg.get_z(), false);
}

#[test]
fn test_n() {
    let mut testreg = Registers::load_defaults();
    testreg.set_n(true);
    assert_eq!(testreg.get_n(), true);
    testreg.set_n(false);
    assert_eq!(testreg.get_n(), false);
}

#[test]
fn test_h() {
    let mut testreg = Registers::load_defaults();
    testreg.set_h(true);
    assert_eq!(testreg.get_h(), true);
    testreg.set_h(false);
    assert_eq!(testreg.get_h(), false);
}

#[test]
fn test_c() {
    let mut testreg = Registers::load_defaults();
    testreg.set_c(true);
    assert_eq!(testreg.get_c(), true);
    testreg.set_c(false);
    assert_eq!(testreg.get_c(), false);
}

#[test]
fn test_set_flags() {
    let mut testreg = Registers::load_defaults();
    testreg.set_flags(true, false, false, true);
    assert_eq!(testreg.get_z(), true);
    assert_eq!(testreg.get_n(), false);
    assert_eq!(testreg.get_h(), false);
    assert_eq!(testreg.get_c(), true);

    testreg.set_flags(true, true, true, true);
    assert_eq!(testreg.get_z(), true);
    assert_eq!(testreg.get_n(), true);
    assert_eq!(testreg.get_h(), true);
    assert_eq!(testreg.get_c(), true);

    testreg.set_flags(false, false, false, false);
    assert_eq!(testreg.get_z(), false);
    assert_eq!(testreg.get_n(), false);
    assert_eq!(testreg.get_h(), false);
    assert_eq!(testreg.get_c(), false);
}

#[test]
fn test_flag_pack_unpack_all() {
    // Pack/unpack is lossless over all sixteen flag combinations, and the
    // low nibble of F is always left clear.
    let mut testreg = Registers::load_defaults();
    for k in 0u8..16u8 {
        let z = k & 1 != 0;
        let n = k & 2 != 0;
        let h = k & 4 != 0;
        let c = k & 8 != 0;
        testreg.set_flags(z, n, h, c);
        assert_eq!(testreg.get_z(), z);
        assert_eq!(testreg.get_n(), n);
        assert_eq!(testreg.get_h(), h);
        assert_eq!(testreg.get_c(), c);
        assert_eq!(testreg.f % 16, 0);
    }
}

#[test]
fn test_af_mask_roundtrip() {
    // set_AF then get_AF returns the value with the low nibble masked.
    let mut testreg = Registers::load_defaults();
    testreg.set_af(0x12FF);
    assert_eq!(testreg.get_af(), 0x12F0);
    testreg.set_af(0xABCD);
    assert_eq!(testreg.get_af(), 0xABC0);
    testreg.set_bc(0xABCD);
    assert_eq!(testreg.get_bc(), 0xABCD);
}
