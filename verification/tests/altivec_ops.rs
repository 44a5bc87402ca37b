use newton_emu::altivec::arithmetic::{vaddubm, vaddubs, vavgub, vmaxub, vminub, vmuleub, vmuloub};
use newton_emu::altivec::compare::{vcmpequb, vcmpequw, vcmpgtsb, vcmpgtub};
use newton_emu::altivec::logical::{vand, vor, vxor};
use newton_emu::altivec::memory::{compute_aligned_ea, lvsl, lvsr};
use newton_emu::altivec::pack::{vpkpx, vpkshss, vpkuhus, vupkhpx, vupkhsb, vupkhsh, vupklsb};
use newton_emu::altivec::permute::{vmrghb, vmrghw, vmrglb, vperm, vsel, vspltb, vspltisb, vspltisw, vspltw};
use newton_emu::altivec::shift::{vrlb, vsl, vslb, vslw, vsrab, vsrb};
use newton_emu::altivec::types::{saturate_i8, saturate_u8, Vector128};

#[test]
fn test_vaddubm() {
    let va = Vector128::from_bytes([1, 2, 3, 4, 5, 6, 7, 8, 9, 10, 11, 12, 13, 14, 15, 16]);
    let vb = Vector128::from_bytes([16, 15, 14, 13, 12, 11, 10, 9, 8, 7, 6, 5, 4, 3, 2, 1]);
    let result = vaddubm(va, vb);
    let expected = [17, 17, 17, 17, 17, 17, 17, 17, 17, 17, 17, 17, 17, 17, 17, 17];
    assert_eq!(result.as_bytes(), expected);
}

#[test]
fn test_vaddubs_saturate() {
    let va = Vector128::from_bytes([255, 200, 100, 0, 0, 0, 0, 0, 0, 0, 0, 0, 0, 0, 0, 0]);
    let vb = Vector128::from_bytes([1, 100, 50, 0, 0, 0, 0, 0, 0, 0, 0, 0, 0, 0, 0, 0]);
    let (result, saturated) = vaddubs(va, vb);
    let bytes = result.as_bytes();
    assert_eq!(bytes[0], 255);
    assert_eq!(bytes[1], 255);
    assert_eq!(bytes[2], 150);
    assert!(saturated);
}

#[test]
fn test_vmuleub() {
    let va = Vector128::from_bytes([2, 3, 4, 5, 6, 7, 8, 9, 10, 11, 12, 13, 14, 15, 16, 17]);
    let vb = Vector128::from_bytes([10, 20, 30, 40, 50, 60, 70, 80, 90, 100, 110, 120, 130, 140, 150, 160]);
    let result = vmuleub(va, vb);
    let hwords = result.as_halfwords();
    assert_eq!(hwords[0], 2 * 10);
    assert_eq!(hwords[1], 4 * 30);
    assert_eq!(hwords[2], 6 * 50);
    assert_eq!(hwords[3], 8 * 70);
}

#[test]
fn test_vmuloub() {
    let va = Vector128::from_bytes([2, 3, 4, 5, 6, 7, 8, 9, 10, 11, 12, 13, 14, 15, 16, 17]);
    let vb = Vector128::from_bytes([10, 20, 30, 40, 50, 60, 70, 80, 90, 100, 110, 120, 130, 140, 150, 160]);
    let result = vmuloub(va, vb);
    let hwords = result.as_halfwords();
    assert_eq!(hwords[0], 3 * 20);
    assert_eq!(hwords[1], 5 * 40);
    assert_eq!(hwords[2], 7 * 60);
    assert_eq!(hwords[3], 9 * 80);
}

#[test]
fn test_vmaxub() {
    let va = Vector128::from_bytes([10, 20, 30, 5, 0, 0, 0, 0, 0, 0, 0, 0, 0, 0, 0, 0]);
    let vb = Vector128::from_bytes([5, 25, 20, 35, 0, 0, 0, 0, 0, 0, 0, 0, 0, 0, 0, 0]);
    let result = vmaxub(va, vb);
    let bytes = result.as_bytes();
    assert_eq!(bytes[0], 10);
    assert_eq!(bytes[1], 25);
    assert_eq!(bytes[2], 30);
    assert_eq!(bytes[3], 35);
}

#[test]
fn test_vminub() {
    let va = Vector128::from_bytes([10, 20, 30, 5, 0, 0, 0, 0, 0, 0, 0, 0, 0, 0, 0, 0]);
    let vb = Vector128::from_bytes([5, 25, 20, 35, 0, 0, 0, 0, 0, 0, 0, 0, 0, 0, 0, 0]);
    let result = vminub(va, vb);
    let bytes = result.as_bytes();
    assert_eq!(bytes[0], 5);
    assert_eq!(bytes[1], 20);
    assert_eq!(bytes[2], 20);
    assert_eq!(bytes[3], 5);
}

#[test]
fn test_vavgub() {
    let va = Vector128::from_bytes([10, 20, 30, 40, 0, 0, 0, 0, 0, 0, 0, 0, 0, 0, 0, 0]);
    let vb = Vector128::from_bytes([20, 30, 40, 50, 0, 0, 0, 0, 0, 0, 0, 0, 0, 0, 0, 0]);
    let result = vavgub(va, vb);
    let bytes = result.as_bytes();
    assert_eq!(bytes[0], 15);
    assert_eq!(bytes[1], 25);
    assert_eq!(bytes[2], 35);
    assert_eq!(bytes[3], 45);
}

#[test]
fn test_vcmpequb() {
    let va = Vector128::from_bytes([1, 2, 3, 4, 5, 6, 7, 8, 9, 10, 11, 12, 13, 14, 15, 16]);
    let vb = Vector128::from_bytes([1, 0, 3, 0, 5, 0, 7, 0, 9, 0, 11, 0, 13, 0, 15, 0]);
    let result = vcmpequb(va, vb);
    let bytes = result.as_bytes();
    assert_eq!(bytes[0], 0xFF);
    assert_eq!(bytes[1], 0x00);
    assert_eq!(bytes[2], 0xFF);
    assert_eq!(bytes[3], 0x00);
}

#[test]
fn test_vcmpgtub() {
    let va = Vector128::from_bytes([10, 5, 20, 15, 0, 0, 0, 0, 0, 0, 0, 0, 0, 0, 0, 0]);
    let vb = Vector128::from_bytes([5, 10, 15, 20, 0, 0, 0, 0, 0, 0, 0, 0, 0, 0, 0, 0]);
    let result = vcmpgtub(va, vb);
    let bytes = result.as_bytes();
    assert_eq!(bytes[0], 0xFF);
    assert_eq!(bytes[1], 0x00);
    assert_eq!(bytes[2], 0xFF);
    assert_eq!(bytes[3], 0x00);
}

#[test]
fn test_vcmpgtsb() {
    let va = Vector128::from_bytes([250, 10, 200, 50, 0, 0, 0, 0, 0, 0, 0, 0, 0, 0, 0, 0]);
    let vb = Vector128::from_bytes([10, 250, 50, 200, 0, 0, 0, 0, 0, 0, 0, 0, 0, 0, 0, 0]);
    let result = vcmpgtsb(va, vb);
    let bytes = result.as_bytes();
    assert_eq!(bytes[0], 0x00);
    assert_eq!(bytes[1], 0xFF);
    assert_eq!(bytes[2], 0x00);
    assert_eq!(bytes[3], 0xFF);
}

#[test]
fn test_vcmpequw() {
    let va = Vector128::from_words([0x1111_1111, 0x2222_2222, 0x3333_3333, 0x4444_4444]);
    let vb = Vector128::from_words([0x1111_1111, 0x0000_0000, 0x3333_3333, 0x0000_0000]);
    let result = vcmpequw(va, vb);
    let words = result.as_words();
    assert_eq!(words[0], 0xFFFF_FFFF);
    assert_eq!(words[1], 0x0000_0000);
    assert_eq!(words[2], 0xFFFF_FFFF);
    assert_eq!(words[3], 0x0000_0000);
}

#[test]
fn test_vand() {
    let va = Vector128::from_words([0xFFFF_FFFF, 0xFFFF_0000, 0x0000_FFFF, 0x0000_0000]);
    let vb = Vector128::from_words([0xFFFF_0000, 0xFFFF_FFFF, 0x0000_0000, 0x0000_FFFF]);
    let result = vand(va, vb);
    assert_eq!(result.as_words(), [0xFFFF_0000, 0xFFFF_0000, 0x0000_0000, 0x0000_0000]);
}

#[test]
fn test_vor() {
    let va = Vector128::from_words([0xFFFF_0000, 0x0000_0000, 0x0000_FFFF, 0x0000_0000]);
    let vb = Vector128::from_words([0x0000_FFFF, 0x0000_0000, 0x0000_0000, 0xFFFF_FFFF]);
    let result = vor(va, vb);
    assert_eq!(result.as_words(), [0xFFFF_FFFF, 0x0000_0000, 0x0000_FFFF, 0xFFFF_FFFF]);
}

#[test]
fn test_vxor() {
    let va = Vector128::from_words([0xFFFF_FFFF, 0xAAAA_AAAA, 0x0000_0000, 0x1234_5678]);
    let vb = Vector128::from_words([0x0000_0000, 0x5555_5555, 0xFFFF_FFFF, 0x1234_5678]);
    let result = vxor(va, vb);
    assert_eq!(result.as_words(), [0xFFFF_FFFF, 0xFFFF_FFFF, 0xFFFF_FFFF, 0x0000_0000]);
}

#[test]
fn test_compute_aligned_ea() {
    assert_eq!(compute_aligned_ea(0x1000, 0x08), 0x1000);
    assert_eq!(compute_aligned_ea(0x1001, 0x07), 0x1000);
    assert_eq!(compute_aligned_ea(0x100F, 0x01), 0x1010);
    assert_eq!(compute_aligned_ea(0x1010, 0x00), 0x1010);
    assert_eq!(compute_aligned_ea(0x1000, 0x0F), 0x1000);
}

#[test]
fn test_lvsl_lvsr() {
    let lvsl_result = lvsl(0x1000, 0x05);
    let bytes = lvsl_result.as_bytes();
    assert_eq!(bytes[0], 5);
    assert_eq!(bytes[1], 6);
    assert_eq!(bytes[10], 15);
    assert_eq!(bytes[11], 16);

    let lvsr_result = lvsr(0x1000, 0x05);
    let bytes = lvsr_result.as_bytes();
    assert_eq!(bytes[0], 11);
    assert_eq!(bytes[1], 12);
}

#[test]
fn test_vpkuhus() {
    let va = Vector128::from_halfwords([10, 20, 300, 40, 50, 60, 70, 80]);
    let vb = Vector128::from_halfwords([90, 100, 110, 120, 130, 140, 150, 400]);
    let result = vpkuhus(va, vb);
    let bytes = result.as_bytes();
    assert_eq!(bytes[0], 10);
    assert_eq!(bytes[1], 20);
    assert_eq!(bytes[2], 255);
    assert_eq!(bytes[3], 40);
    assert_eq!(bytes[15], 255);
}

#[test]
fn test_vpkshss() {
    let va = Vector128::from_halfwords([10u16, (-20i16) as u16, 300u16, (-300i16) as u16, 0, 0, 0, 0]);
    let vb = Vector128::from_halfwords([0, 0, 0, 0, 0, 0, 0, 0]);
    let result = vpkshss(va, vb);
    let bytes = result.as_signed_bytes();
    assert_eq!(bytes[0], 10);
    assert_eq!(bytes[1], -20);
    assert_eq!(bytes[2], 127);
    assert_eq!(bytes[3], -128);
}

#[test]
fn test_vupkhsb() {
    let vb = Vector128::from_bytes([10, (-20i8) as u8, 127, (-128i8) as u8, 0, 0, 0, 0, 0, 0, 0, 0, 0, 0, 0, 0]);
    let result = vupkhsb(vb);
    let hwords = result.as_signed_halfwords();
    assert_eq!(hwords[0], 10);
    assert_eq!(hwords[1], -20);
    assert_eq!(hwords[2], 127);
    assert_eq!(hwords[3], -128);
}

#[test]
fn test_vupklsb() {
    let vb = Vector128::from_bytes([0, 0, 0, 0, 0, 0, 0, 0, 10, (-20i8) as u8, 127, (-128i8) as u8, 0, 0, 0, 0]);
    let result = vupklsb(vb);
    let hwords = result.as_signed_halfwords();
    assert_eq!(hwords[0], 10);
    assert_eq!(hwords[1], -20);
    assert_eq!(hwords[2], 127);
    assert_eq!(hwords[3], -128);
}

#[test]
fn test_vupkhsh() {
    let vb = Vector128::from_halfwords([100, (-200i16) as u16, 30000, (-30000i16) as u16, 0, 0, 0, 0]);
    let result = vupkhsh(vb);
    let words = result.as_signed_words();
    assert_eq!(words[0], 100);
    assert_eq!(words[1], -200);
    assert_eq!(words[2], 30000);
    assert_eq!(words[3], -30000);
}

#[test]
fn test_vpkpx_vupkhpx_roundtrip() {
    let va = Vector128::from_words([0xFF_F8_F8_F8, 0x00_00_00_00, 0xFF_F8_00_00, 0x00_00_F8_00]);
    let vb = Vector128::from_words([0, 0, 0, 0]);
    let packed = vpkpx(va, vb);
    let unpacked = vupkhpx(packed);
    let words = unpacked.as_words();
    assert_eq!(words[0], 0xFF_F8_F8_F8);
    assert_eq!(words[1], 0x00_00_00_00);
    assert_eq!(words[2], 0xFF_F8_00_00);
    assert_eq!(words[3], 0x00_00_F8_00);
}

#[test]
fn test_vperm() {
    let va = Vector128::from_bytes([0, 1, 2, 3, 4, 5, 6, 7, 8, 9, 10, 11, 12, 13, 14, 15]);
    let vb = Vector128::from_bytes([16, 17, 18, 19, 20, 21, 22, 23, 24, 25, 26, 27, 28, 29, 30, 31]);
    let vc = Vector128::from_bytes([0, 1, 2, 3, 4, 5, 6, 7, 8, 9, 10, 11, 12, 13, 14, 15]);
    let result = vperm(va, vb, vc);
    assert_eq!(result.as_bytes(), [0, 1, 2, 3, 4, 5, 6, 7, 8, 9, 10, 11, 12, 13, 14, 15]);
    let vc = Vector128::from_bytes([16, 17, 18, 19, 20, 21, 22, 23, 24, 25, 26, 27, 28, 29, 30, 31]);
    let result = vperm(va, vb, vc);
    assert_eq!(result.as_bytes(), [16, 17, 18, 19, 20, 21, 22, 23, 24, 25, 26, 27, 28, 29, 30, 31]);
}

#[test]
fn test_vspltb() {
    let vb = Vector128::from_bytes([10, 20, 30, 40, 50, 60, 70, 80, 90, 100, 110, 120, 130, 140, 150, 160]);
    let result = vspltb(vb, 2);
    assert_eq!(result.as_bytes(), [30; 16]);
}

#[test]
fn test_vspltw() {
    let vb = Vector128::from_words([0x11111111, 0x22222222, 0x33333333, 0x44444444]);
    let result = vspltw(vb, 2);
    assert_eq!(result.as_words(), [0x33333333; 4]);
}

#[test]
fn test_vmrghb() {
    let va = Vector128::from_bytes([0, 1, 2, 3, 4, 5, 6, 7, 8, 9, 10, 11, 12, 13, 14, 15]);
    let vb = Vector128::from_bytes([100, 101, 102, 103, 104, 105, 106, 107, 108, 109, 110, 111, 112, 113, 114, 115]);
    let result = vmrghb(va, vb);
    let bytes = result.as_bytes();
    assert_eq!(bytes[0], 0);
    assert_eq!(bytes[1], 100);
    assert_eq!(bytes[2], 1);
    assert_eq!(bytes[3], 101);
    assert_eq!(bytes[4], 2);
    assert_eq!(bytes[5], 102);
}

#[test]
fn test_vmrglb() {
    let va = Vector128::from_bytes([0, 1, 2, 3, 4, 5, 6, 7, 8, 9, 10, 11, 12, 13, 14, 15]);
    let vb = Vector128::from_bytes([100, 101, 102, 103, 104, 105, 106, 107, 108, 109, 110, 111, 112, 113, 114, 115]);
    let result = vmrglb(va, vb);
    let bytes = result.as_bytes();
    assert_eq!(bytes[0], 8);
    assert_eq!(bytes[1], 108);
    assert_eq!(bytes[2], 9);
    assert_eq!(bytes[3], 109);
}

#[test]
fn test_vmrghw() {
    let va = Vector128::from_words([0x11111111, 0x22222222, 0x33333333, 0x44444444]);
    let vb = Vector128::from_words([0xAAAAAAAA, 0xBBBBBBBB, 0xCCCCCCCC, 0xDDDDDDDD]);
    let result = vmrghw(va, vb);
    let words = result.as_words();
    assert_eq!(words[0], 0x11111111);
    assert_eq!(words[1], 0xAAAAAAAA);
    assert_eq!(words[2], 0x22222222);
    assert_eq!(words[3], 0xBBBBBBBB);
}

#[test]
fn test_vspltisb() {
    let result = vspltisb(-5);
    let bytes = result.as_signed_bytes();
    assert_eq!(bytes, [-5; 16]);
}

#[test]
fn test_vspltisw() {
    let result = vspltisw(-1);
    let words = result.as_signed_words();
    assert_eq!(words, [-1; 4]);
}

#[test]
fn test_vsel() {
    let va = Vector128::from_words([0xFFFF_FFFF, 0xFFFF_FFFF, 0xFFFF_FFFF, 0xFFFF_FFFF]);
    let vb = Vector128::from_words([0x0000_0000, 0x0000_0000, 0x0000_0000, 0x0000_0000]);
    let vc = Vector128::from_words([0xFFFF_0000, 0x0000_FFFF, 0xF0F0_F0F0, 0x0F0F_0F0F]);
    let result = vsel(va, vb, vc);
    let words = result.as_words();
    assert_eq!(words[0], 0x0000_FFFF);
    assert_eq!(words[1], 0xFFFF_0000);
    assert_eq!(words[2], 0x0F0F_0F0F);
    assert_eq!(words[3], 0xF0F0_F0F0);
}

#[test]
fn test_vslb() {
    let va = Vector128::from_bytes([0x01, 0x02, 0x04, 0x08, 0, 0, 0, 0, 0, 0, 0, 0, 0, 0, 0, 0]);
    let vb = Vector128::from_bytes([1, 1, 1, 1, 0, 0, 0, 0, 0, 0, 0, 0, 0, 0, 0, 0]);
    let result = vslb(va, vb);
    let bytes = result.as_bytes();
    assert_eq!(bytes[0], 0x02);
    assert_eq!(bytes[1], 0x04);
    assert_eq!(bytes[2], 0x08);
    assert_eq!(bytes[3], 0x10);
}

#[test]
fn test_vsrb() {
    let va = Vector128::from_bytes([0x80, 0x40, 0x20, 0x10, 0, 0, 0, 0, 0, 0, 0, 0, 0, 0, 0, 0]);
    let vb = Vector128::from_bytes([1, 1, 1, 1, 0, 0, 0, 0, 0, 0, 0, 0, 0, 0, 0, 0]);
    let result = vsrb(va, vb);
    let bytes = result.as_bytes();
    assert_eq!(bytes[0], 0x40);
    assert_eq!(bytes[1], 0x20);
    assert_eq!(bytes[2], 0x10);
    assert_eq!(bytes[3], 0x08);
}

#[test]
fn test_vsrab() {
    let va = Vector128::from_bytes([0x80, 0x40, 0, 0, 0, 0, 0, 0, 0, 0, 0, 0, 0, 0, 0, 0]);
    let vb = Vector128::from_bytes([1, 1, 0, 0, 0, 0, 0, 0, 0, 0, 0, 0, 0, 0, 0, 0]);
    let result = vsrab(va, vb);
    let bytes = result.as_bytes();
    assert_eq!(bytes[0], 0xC0);
    assert_eq!(bytes[1], 0x20);
}

#[test]
fn test_vrlb() {
    let va = Vector128::from_bytes([0b1010_0101, 0b1100_0011, 0, 0, 0, 0, 0, 0, 0, 0, 0, 0, 0, 0, 0, 0]);
    let vb = Vector128::from_bytes([2, 4, 0, 0, 0, 0, 0, 0, 0, 0, 0, 0, 0, 0, 0, 0]);
    let result = vrlb(va, vb);
    let bytes = result.as_bytes();
    assert_eq!(bytes[0], 0b1001_0110);
    assert_eq!(bytes[1], 0b0011_1100);
}

#[test]
fn test_vslw() {
    let va = Vector128::from_words([0x0000_0001, 0x0000_0002, 0x0000_0004, 0x0000_0008]);
    let vb = Vector128::from_words([4, 4, 4, 4]);
    let result = vslw(va, vb);
    let words = result.as_words();
    assert_eq!(words[0], 0x0000_0010);
    assert_eq!(words[1], 0x0000_0020);
    assert_eq!(words[2], 0x0000_0040);
    assert_eq!(words[3], 0x0000_0080);
}

#[test]
fn test_vsl() {
    let va = Vector128::from_bytes([0x01, 0x23, 0x45, 0x67, 0x89, 0xAB, 0xCD, 0xEF, 0, 0, 0, 0, 0, 0, 0, 0]);
    let vb = Vector128::from_bytes([0, 0, 0, 0, 0, 0, 0, 0, 0, 0, 0, 0, 0, 0, 0, 4]);
    let result = vsl(va, vb);
    let bytes = result.as_bytes();
    assert_eq!(bytes[0], 0x12);
    assert_eq!(bytes[1], 0x34);
}

#[test]
fn test_vector128_bytes() {
    let bytes = [0, 1, 2, 3, 4, 5, 6, 7, 8, 9, 10, 11, 12, 13, 14, 15];
    let vec = Vector128::from_bytes(bytes);
    assert_eq!(vec.as_bytes(), bytes);
}

#[test]
fn test_vector128_words() {
    let words = [0x01020304, 0x05060708, 0x090A0B0C, 0x0D0E0F10];
    let vec = Vector128::from_words(words);
    assert_eq!(vec.as_words(), words);
}

#[test]
fn test_saturate_i8() {
    assert_eq!(saturate_i8(127), 127);
    assert_eq!(saturate_i8(128), 127);
    assert_eq!(saturate_i8(-128), -128);
    assert_eq!(saturate_i8(-129), -128);
}

#[test]
fn test_saturate_u8() {
    assert_eq!(saturate_u8(255), 255);
    assert_eq!(saturate_u8(256), 255);
    assert_eq!(saturate_u8(-1), 0);
    assert_eq!(saturate_u8(0), 0);
}

#[test]
fn unsigned_packs_saturate_unsigned_values() {
    let va = Vector128::from_halfwords([0xFFFF, 0x8000, 255, 256, 0, 1, 2, 3]);
    let vb = Vector128::from_halfwords([0; 8]);
    let bytes = vpkuhus(va, vb).as_bytes();
    assert_eq!(&bytes[0..4], &[255, 255, 255, 255]);
    assert_eq!(bytes[4], 0);
    let wa = Vector128::from_words([0x8000_0000, 70000, 5, 0]);
    let wb = Vector128::from_words([0, 0, 0, 0]);
    let halves = newton_emu::altivec::pack::vpkuwus(wa, wb).as_halfwords();
    assert_eq!(halves, [0xFFFF, 0xFFFF, 5, 0, 0, 0, 0, 0]);
}

#[test]
fn signed_averages_round_down() {
    let mut a = [0u8; 16];
    let mut b = [0u8; 16];
    a[0] = 0xFD;
    b[0] = 0xFF;
    a[1] = 0x02;
    b[1] = 0x03;
    let r = newton_emu::altivec::arithmetic::vavgsb(Vector128::from_bytes(a), Vector128::from_bytes(b)).as_bytes();
    assert_eq!(r[0], 0xFE);
    assert_eq!(r[1], 0x03);
    let h = newton_emu::altivec::arithmetic::vavgsh(
        Vector128::from_halfwords([0xFFFD, 0, 0, 0, 0, 0, 0, 0]),
        Vector128::from_halfwords([0xFFFF, 0, 0, 0, 0, 0, 0, 0]),
    )
    .as_halfwords();
    assert_eq!(h[0], 0xFFFE);
    let w = newton_emu::altivec::arithmetic::vavgsw(
        Vector128::from_words([0xFFFF_FFFD, 1, 0, 0]),
        Vector128::from_words([0xFFFF_FFFF, 2, 0, 0]),
    )
    .as_words();
    assert_eq!(w[0], 0xFFFF_FFFE);
    assert_eq!(w[1], 2);
}
