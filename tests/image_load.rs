use d3dloader::bytes::read_u64_at;
use d3dloader::image::{image_headers, load_image};
use d3dloader::imports::{ModuleFamily, ShimCatalog, UNRESOLVED_IMPORT};

const BASE: u64 = 0x1_8000_0000;

fn put16(b: &mut [u8], at: usize, v: u16) {
    b[at..at + 2].copy_from_slice(&v.to_le_bytes());
}
fn put32(b: &mut [u8], at: usize, v: u32) {
    b[at..at + 4].copy_from_slice(&v.to_le_bytes());
}
fn put64(b: &mut [u8], at: usize, v: u64) {
    b[at..at + 8].copy_from_slice(&v.to_le_bytes());
}
fn put_str(b: &mut [u8], at: usize, s: &str) {
    b[at..at + s.len()].copy_from_slice(s.as_bytes());
}

/// A one-section 64-bit image: one absolute relocation, two imports from
/// KERNEL32.dll and one export.
fn synthetic_image() -> Vec<u8> {
    let mut f = vec![0u8; 0x400];
    put_str(&mut f, 0, "MZ");
    put32(&mut f, 0x3c, 0x40);
    put_str(&mut f, 0x40, "PE");
    put16(&mut f, 0x44, 0x8664);
    put16(&mut f, 0x46, 1);
    put16(&mut f, 0x54, 0xF0);
    put16(&mut f, 0x56, 0x2022);
    put16(&mut f, 0x58, 0x20b);
    put64(&mut f, 0x70, BASE);
    put32(&mut f, 0x78, 0x1000);
    put32(&mut f, 0x7c, 0x200);
    put16(&mut f, 0x88, 6);
    put32(&mut f, 0x90, 0x2000);
    put32(&mut f, 0x94, 0x200);
    put16(&mut f, 0x9c, 3);
    put32(&mut f, 0xc4, 16);
    // data directories: export, import, base relocations
    put32(&mut f, 0xc8, 0x1100);
    put32(&mut f, 0xcc, 0x80);
    put32(&mut f, 0xd0, 0x1040);
    put32(&mut f, 0xd4, 40);
    put32(&mut f, 0xc8 + 5 * 8, 0x1180);
    put32(&mut f, 0xc8 + 5 * 8 + 4, 12);
    // section table
    put_str(&mut f, 0x148, ".data");
    put32(&mut f, 0x150, 0x200);
    put32(&mut f, 0x154, 0x1000);
    put32(&mut f, 0x158, 0x200);
    put32(&mut f, 0x15c, 0x200);
    put32(&mut f, 0x16c, 0xC000_0040);
    // section contents: file offset = rva - 0x1000 + 0x200
    let s = |rva: usize| rva - 0x1000 + 0x200;
    put64(&mut f, s(0x1000), BASE + 0x1010);
    put32(&mut f, s(0x1040), 0x1080);
    put32(&mut f, s(0x1040) + 12, 0x10C0);
    put32(&mut f, s(0x1040) + 16, 0x10A0);
    put64(&mut f, s(0x1080), 0x10D0);
    put64(&mut f, s(0x1088), 0x10E0);
    put64(&mut f, s(0x10A0), 0x10D0);
    put64(&mut f, s(0x10A8), 0x10E0);
    put_str(&mut f, s(0x10C0), "KERNEL32.dll");
    put_str(&mut f, s(0x10D2), "GetLastError");
    put_str(&mut f, s(0x10E2), "CreateThread");
    put32(&mut f, s(0x1100) + 12, 0x1140);
    put32(&mut f, s(0x1100) + 16, 1);
    put32(&mut f, s(0x1100) + 20, 1);
    put32(&mut f, s(0x1100) + 24, 1);
    put32(&mut f, s(0x1100) + 28, 0x1150);
    put32(&mut f, s(0x1100) + 32, 0x1154);
    put32(&mut f, s(0x1100) + 36, 0x1158);
    put_str(&mut f, s(0x1140), "test.dll");
    put32(&mut f, s(0x1150), 0x1000);
    put32(&mut f, s(0x1154), 0x1160);
    put_str(&mut f, s(0x1160), "D3DCompile");
    put32(&mut f, s(0x1180), 0x1000);
    put32(&mut f, s(0x1180) + 4, 12);
    put16(&mut f, s(0x1180) + 8, 0xA000);
    f
}

#[test]
fn synthetic_image_headers() {
    let f = synthetic_image();
    let (size, headers, base, entry) = image_headers(&f).unwrap();
    assert_eq!((size, headers, base, entry), (0x2000, 0x200, BASE, 0));
}

#[test]
fn synthetic_image_is_laid_out_relocated_and_bound() {
    let f = synthetic_image();
    let mut cat = ShimCatalog::new();
    assert!(cat.add(ModuleFamily::Kernel, b"GetLastError", 0x5555_0000_1000));
    let map_base = 0x7f12_3450_0000u64;
    let li = load_image(&f, map_base, &cat).unwrap();
    assert_eq!(li.image.len(), 0x2000);
    assert_eq!(&li.image[0..2], b"MZ");
    assert_eq!(&li.image[0x10C0..0x10CC], b"KERNEL32.dll");
    assert_eq!(read_u64_at(&li.image, 0x1000), map_base + 0x1010);
    assert_eq!(read_u64_at(&li.image, 0x10A0), 0x5555_0000_1000);
    assert_eq!(read_u64_at(&li.image, 0x10A8), UNRESOLVED_IMPORT);
    assert_eq!(read_u64_at(&li.image, 0x1080), 0x10D0);
    assert_eq!(li.exports, vec![(b"D3DCompile".to_vec(), map_base + 0x1000)]);
    assert_eq!(li.protections.len(), 1);
    let (off, len, p) = li.protections[0];
    assert_eq!((off, len), (0x1000, 0x200));
    assert!(p.read && p.write && !p.execute);
    assert_eq!(li.entry_address(), None);
    assert_eq!(li.size_of_image, 0x2000);
}

#[test]
fn two_map_bases_give_two_patched_values() {
    let f = synthetic_image();
    let cat = ShimCatalog::new();
    let a = load_image(&f, 0x1000_0000, &cat).unwrap();
    let b = load_image(&f, 0x2000_0000, &cat).unwrap();
    assert_eq!(read_u64_at(&a.image, 0x1000), 0x1000_1010);
    assert_eq!(read_u64_at(&b.image, 0x1000), 0x2000_1010);
}
