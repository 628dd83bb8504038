use khiin_windows::pcwstr::ToPcwstr;
use khiin_windows::win::encode_utf16;
use khiin_windows::win::get_x_param;
use khiin_windows::win::get_y_param;
use khiin_windows::win::hi_byte;
use khiin_windows::win::hi_word;
use khiin_windows::win::lo_byte;
use khiin_windows::win::lo_word;
use khiin_windows::win::units_to_le_bytes;
use khiin_windows::win::WinString;

#[test]
fn words_and_bytes() {
    assert_eq!(lo_word(0x1234_5678), 0x5678);
    assert_eq!(hi_word(0x1234_5678), 0x1234);
    assert_eq!(lo_byte(0xABCD), 0xCD);
    assert_eq!(hi_byte(0xABCD), 0xAB);
    assert_eq!(lo_word(0), 0);
    assert_eq!(hi_word(u32::MAX), 0xFFFF);
}

#[test]
fn words_recombine() {
    for v in [0u32, 1, 0xFFFF, 0x10000, 0xDEAD_BEEF, u32::MAX] {
        assert_eq!(((hi_word(v) as u32) << 16) | lo_word(v) as u32, v);
    }
}

#[test]
fn mouse_coordinates_are_sign_extended() {
    assert_eq!(get_x_param(0x0001_FFFF), -1);
    assert_eq!(get_y_param(0x0001_FFFF), 1);
    assert_eq!(get_x_param(0x0064_0032), 50);
    assert_eq!(get_y_param(0x0064_0032), 100);
    assert_eq!(get_x_param(0x8000), -32768);
    assert_eq!(get_y_param(0x7FFF_0000), 32767);
}

#[test]
fn utf16_matches_std() {
    for s in ["", "abc", "Khíín", "連續打字", "o͘ ⁿ", "😀 Tâi-gí 𠀀"] {
        let ours = encode_utf16(s);
        let std_units: Vec<u16> = s.encode_utf16().collect();
        assert_eq!(ours, std_units);
    }
}

#[test]
fn utf16_surrogate_pair() {
    assert_eq!(encode_utf16("😀"), vec![0xD83D, 0xDE00]);
}

#[test]
fn utf16_nul_terminated() {
    let s: &str = "Tester 123";
    let v = s.to_utf16_nul();
    assert_eq!(v.len(), 11);
    assert_eq!(*v.last().unwrap(), 0);
    let owned = String::from("台");
    assert_eq!(owned.to_utf16_nul(), vec![0x53F0, 0]);
}

#[test]
fn wide_bytes_are_little_endian() {
    let s: &str = "A台";
    assert_eq!(s.to_wide_bytes_nul(), vec![0x41, 0x00, 0xF0, 0x53, 0x00, 0x00]);
    let owned = String::new();
    assert_eq!(owned.to_wide_bytes_nul(), vec![0, 0]);
    assert_eq!(units_to_le_bytes(&vec![0x1234, 0xFF00]), vec![0x34, 0x12, 0x00, 0xFF]);
}

#[test]
fn pcwstr_null_for_empty() {
    let empty: &str = "";
    assert!(empty.to_pcwstr().is_null());
    let s: &str = "ab";
    let p = s.to_pcwstr();
    assert!(!p.is_null());
    assert_eq!(p.as_wide(), &[0x61, 0x62, 0][..]);
    assert_eq!(String::from("x").to_pcwstr().as_wide(), &[0x78, 0][..]);
}
