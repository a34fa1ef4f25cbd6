use vss_writers::guid::{guid_to_string, Guid};
use vss_writers::status::hresult_to_hex;

#[test]
fn formats_small_positive_status() {
    assert_eq!(hresult_to_hex(2), "0x00000002");
}

#[test]
fn formats_failure_bit_pattern() {
    // The bit pattern of E_INVALIDARG, 0x80070057, as a signed value.
    assert_eq!(hresult_to_hex(-2147024809), "0x80070057");
}

#[test]
fn formats_extreme_statuses() {
    assert_eq!(hresult_to_hex(0), "0x00000000");
    assert_eq!(hresult_to_hex(-1), "0xFFFFFFFF");
    assert_eq!(hresult_to_hex(i32::MIN), "0x80000000");
    assert_eq!(hresult_to_hex(i32::MAX), "0x7FFFFFFF");
}

#[test]
fn status_text_is_ten_uppercase_hex_chars() {
    let cases: [i32; 8] = [i32::MIN, -2147024809, -2, -1, 0, 1, 2, i32::MAX];
    for hr in cases {
        let s = hresult_to_hex(hr);
        assert_eq!(s.len(), 10);
        assert!(s.starts_with("0x"));
        assert!(s[2..].chars().all(|c| c.is_ascii_hexdigit() && !c.is_ascii_lowercase()));
    }
}

#[test]
fn formats_guid_canonically() {
    let g = Guid {
        data1: 0x12345678,
        data2: 0x9ABC,
        data3: 0xDEF0,
        data4: [0x12, 0x34, 0x56, 0x78, 0x9A, 0xBC, 0xDE, 0xF0],
    };
    assert_eq!(guid_to_string(&g), "{12345678-9ABC-DEF0-1234-56789ABCDEF0}");
}

#[test]
fn formats_zero_guid() {
    let g = Guid { data1: 0, data2: 0, data3: 0, data4: [0; 8] };
    assert_eq!(guid_to_string(&g), "{00000000-0000-0000-0000-000000000000}");
}

#[test]
fn formats_system_writer_guid() {
    // The well-known identifier of the platform's system writer.
    let g = Guid {
        data1: 0xE8132975,
        data2: 0x6F93,
        data3: 0x4464,
        data4: [0xA5, 0x3E, 0x10, 0x50, 0x25, 0x3A, 0xE2, 0x20],
    };
    assert_eq!(guid_to_string(&g), "{E8132975-6F93-4464-A53E-1050253AE220}");
}

#[test]
fn guid_text_is_always_well_formed() {
    let samples: [Guid; 3] = [
        Guid { data1: 0, data2: 0, data3: 0, data4: [0; 8] },
        Guid { data1: u32::MAX, data2: u16::MAX, data3: u16::MAX, data4: [0xFF; 8] },
        Guid { data1: 0xDEADBEEF, data2: 0x0102, data3: 0x0304, data4: [1, 2, 3, 4, 5, 6, 7, 8] },
    ];
    for g in samples {
        let s = guid_to_string(&g);
        assert_eq!(s.len(), 38);
        let bytes = s.as_bytes();
        assert_eq!(bytes[0], b'{');
        assert_eq!(bytes[37], b'}');
        for pos in [9usize, 14, 19, 24] {
            assert_eq!(bytes[pos], b'-');
        }
        for (pos, c) in s.chars().enumerate() {
            if pos != 0 && pos != 37 && pos != 9 && pos != 14 && pos != 19 && pos != 24 {
                assert!(c.is_ascii_hexdigit() && !c.is_ascii_lowercase());
            }
        }
    }
}
