use lcmods::text::u32_to_decimal;
use lcmods::volumes::{decode_drives, GetLogicalDrivesError, INVALID_DRIVE_LETTER_BITMASK};

#[test]
fn decode_zero_mask_reports_api_error() {
    match decode_drives(0, 5) {
        Err(GetLogicalDrivesError::ApiError(code)) => {
            assert_eq!(code, 5);
            assert_eq!(GetLogicalDrivesError::ApiError(code).describe(), "ApiError(5)");
        }
        _ => panic!("expected ApiError"),
    }
}

#[test]
fn decode_high_bits_reports_too_many_drives() {
    match decode_drives(0x0400_0001, 0) {
        Err(e) => {
            assert!(matches!(e, GetLogicalDrivesError::TooManyDrivesError));
            assert_eq!(e.describe(), "TooManyDrives");
        }
        Ok(_) => panic!("expected TooManyDrivesError"),
    }
}

#[test]
fn decode_basic_mask() {
    assert_eq!(decode_drives(0b101, 0).ok().unwrap(), vec!['A', 'C']);
}

#[test]
fn decode_all_letters() {
    let v = decode_drives(!INVALID_DRIVE_LETTER_BITMASK, 0).ok().unwrap();
    assert_eq!(v.len(), 26);
    assert_eq!(v[0], 'A');
    assert_eq!(v[25], 'Z');
}

#[test]
fn decimal_rendering_is_exact() {
    assert_eq!(u32_to_decimal(0), "0");
    assert_eq!(u32_to_decimal(7), "7");
    assert_eq!(u32_to_decimal(1234567890), "1234567890");
    assert_eq!(u32_to_decimal(u32::MAX), "4294967295");
}
