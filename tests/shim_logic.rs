use d3dloader::report::{component_type_name, mask_to_string, parse_define, shader_input_type_name};
use d3dloader::printf::{fill_destination, parse_format, render_directive, Directive};
use d3dloader::imports::{ascii_lower, ascii_upper};
use d3dloader::shims::{
    converted_len, file_attributes, file_time, map_string, narrow_chars, open_mode, page_access,
    processor_feature_present, seek_distance, seek_origin, stack_bounds, uuid_create, wide_compare,
    widen_chars,
    Access, SeekOrigin, CONTEXT,
};

fn format(fmt: &str, args: &[u64], count: usize) -> Option<Vec<u8>> {
    let (ds, _) = parse_format(fmt.as_bytes());
    let pieces: Vec<Vec<u8>> = ds
        .iter()
        .map(|d| render_directive(*d, args).unwrap_or_default())
        .collect();
    fill_destination(count, &pieces)
}

#[test]
fn integer_conversions() {
    let out = format("v=%d u=%u x=%x X=%X c=%c %%", &[(-42i64) as u64, 7, 255, 255, 0x41], 64).unwrap();
    assert_eq!(out, b"v=-42 u=7 x=ff X=FF c=A %");
    let p = format("%p", &[0xdead], 64).unwrap();
    assert_eq!(p, b"000000000000DEAD");
    let min = format("%lld", &[i64::MIN as u64], 64).unwrap();
    assert_eq!(min, b"-9223372036854775808");
}

#[test]
fn flags_widths_and_unknown_conversions() {
    let (ds, used) = parse_format(b"%-08.3ld|%*d|%.*s|%I64u|%q|%");
    assert_eq!(used, 5);
    assert_eq!(
        ds,
        vec![
            Directive::Signed(0),
            Directive::Literal(b'|'),
            Directive::Signed(2),
            Directive::Literal(b'|'),
            Directive::Str(4),
            Directive::Literal(b'|'),
            Directive::Literal(b'u'),
            Directive::Literal(b'|'),
            Directive::Literal(b'|'),
        ]
    );
    let (i32s, _) = parse_format(b"%I32x");
    assert_eq!(i32s, vec![Directive::Literal(b'x')]);
    let (l, _) = parse_format(b"%llx%hhu");
    assert_eq!(l, vec![Directive::HexLower(0), Directive::Unsigned(1)]);
    let (f, used_f) = parse_format(b"%f %G");
    assert_eq!(f, vec![Directive::Float(0), Directive::Literal(b' '), Directive::Float(1)]);
    assert_eq!(used_f, 2);
}

#[test]
fn output_is_cut_to_capacity() {
    assert_eq!(format("hello %d", &[12345], 9).unwrap(), b"hello 12");
    assert_eq!(format("abc", &[], 1).unwrap(), b"");
    assert_eq!(format("abc", &[], 0), None);
    assert_eq!(format("%d", &[], 8).unwrap(), b"0");
}

#[test]
fn open_requests() {
    let m = open_mode(0x8000_0000 | 0x4000_0000, 2);
    assert_eq!(m.access, Access::ReadWrite);
    assert!(m.create && m.truncate && !m.exclusive);
    let n = open_mode(0x4000_0000, 1);
    assert_eq!(n.access, Access::WriteOnly);
    assert!(n.create && n.exclusive);
    let r = open_mode(0x8000_0000, 3);
    assert_eq!(r.access, Access::ReadOnly);
    assert!(!r.create && !r.truncate);
    assert!(open_mode(0, 5).truncate);
}

#[test]
fn seeks_and_sizes() {
    assert_eq!(seek_origin(0), SeekOrigin::Start);
    assert_eq!(seek_origin(1), SeekOrigin::Current);
    assert_eq!(seek_origin(2), SeekOrigin::End);
    assert_eq!(seek_origin(9), SeekOrigin::Start);
    assert_eq!(seek_distance(-1, None), -1);
    assert_eq!(seek_distance(-1, Some(0)), 0xFFFF_FFFF);
    assert_eq!(seek_distance(5, Some(-1)), -(1i64 << 32) + 5);
    assert_eq!(converted_len(10, 0), 10);
    assert_eq!(converted_len(10, 4), 4);
    assert_eq!(converted_len(3, 4), 3);
}

#[test]
fn protections_and_features() {
    let ro = page_access(0x02);
    assert!(ro.read && !ro.write && !ro.execute);
    let rwx = page_access(0x40);
    assert!(rwx.read && rwx.write && rwx.execute);
    let dflt = page_access(0x99);
    assert!(dflt.read && dflt.write && !dflt.execute);
    assert_eq!(processor_feature_present(10), 1);
    assert_eq!(processor_feature_present(23), 1);
    assert_eq!(processor_feature_present(17), 0);
    assert_eq!(file_attributes(true), 0x10);
    assert_eq!(file_attributes(false), 0x80);
}

#[test]
fn character_conversions() {
    assert_eq!(narrow_chars(&[0x41, 0x7f, 0x80, 0x263a]), vec![0x41, 0x7f, b'?', b'?']);
    assert_eq!(widen_chars(b"Az\xff"), vec![0x41, 0x7a, 0xff]);
    let src: Vec<u16> = "MiXeD-1".encode_utf16().collect();
    let lower: Vec<u16> = "mixed-1".encode_utf16().collect();
    let upper: Vec<u16> = "MIXED-1".encode_utf16().collect();
    assert_eq!(map_string(&src, 0x100), lower);
    assert_eq!(map_string(&src, 0x200), upper);
    assert_eq!(map_string(&src, 0), src);
    assert_eq!(ascii_lower('Q' as u32), 'q' as u32);
    assert_eq!(ascii_upper('q' as u32), 'Q' as u32);
    assert_eq!(ascii_lower('1' as u32), '1' as u32);
}

#[test]
fn times_and_stack_bounds() {
    assert_eq!(file_time(0, 0), 116444736000000000);
    assert_eq!(file_time(1, 1), 116444736000000000 + 10_000_000 + 10);
    let (base, limit) = stack_bounds(0x7ffc_1234_5678);
    assert_eq!(base, 0x7ffc_12b4_5000);
    assert_eq!(limit, 0x7ffc_11b4_5000);
}

#[test]
fn identifiers_are_version_four() {
    let (a, status) = uuid_create();
    let (b, _) = uuid_create();
    assert_eq!(status, 0);
    assert_eq!(a[6] >> 4, 4);
    assert_eq!(a[8] >> 6, 2);
    assert_ne!(a, b);
    let ctx = CONTEXT::captured();
    assert_eq!(ctx.data.len(), 1232);
    assert!(ctx.data.iter().all(|b| *b == 0));
}

#[test]
fn report_names() {
    assert_eq!(shader_input_type_name(2), "texture");
    assert_eq!(shader_input_type_name(11), "uav_rwstructured_with_counter");
    assert_eq!(shader_input_type_name(12), "unknown");
    assert_eq!(component_type_name(3), "float");
    assert_eq!(component_type_name(0), "unknown");
    assert_eq!(mask_to_string(0b0101), "xz");
    assert_eq!(mask_to_string(0b1111), "xyzw");
    assert_eq!(mask_to_string(0), "none");
    assert_eq!(mask_to_string(0xF0), "none");
    assert_eq!(parse_define("A=B=C"), ("A".to_string(), "B=C".to_string()));
    assert_eq!(parse_define("FLAG"), ("FLAG".to_string(), "1".to_string()));
    assert_eq!(parse_define("X="), ("X".to_string(), String::new()));
    assert_eq!(parse_define("é=ü"), ("é".to_string(), "ü".to_string()));
}

#[test]
fn wide_comparisons() {
    let w = |s: &str| -> Vec<u16> { s.encode_utf16().chain(std::iter::once(0)).collect() };
    assert_eq!(wide_compare(&w("Shader"), &w("shader"), usize::MAX, true), 0);
    assert_eq!(wide_compare(&w("Shader"), &w("shader"), usize::MAX, false), 'S' as i32 - 's' as i32);
    assert_eq!(wide_compare(&w("abcX"), &w("abcY"), 3, false), 0);
    assert_eq!(wide_compare(&w("abcX"), &w("abcY"), 4, false), -1);
    assert_eq!(wide_compare(&w("ab"), &w("abc"), usize::MAX, true), -('c' as i32));
    assert_eq!(wide_compare(&[], &[], 5, true), 0);
}
