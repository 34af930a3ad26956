use d3dloader::bridge::{interface_methods, AdapterTable, Handler, Interface};
use d3dloader::bytes::{read_u64_at, write_u64_at};
use d3dloader::crypto::{HashContexts, HP_HASHSIZE, HP_HASHVAL};
use d3dloader::handles::{HandleTable, FILE_HANDLE_BASE};
use d3dloader::image::{
    apply_relocations, find_export, image_headers, required_entry_points, to_original_va,
    D3DCompilerError, Relocation, IMAGE_REL_BASED_DIR64,
};
use d3dloader::imports::{module_family, resolve_import, ModuleFamily, ShimCatalog, UNRESOLVED_IMPORT};
use d3dloader::module::{gate_status, InitCell, E_FAIL};

fn image_with_base_at(offset: usize, preferred: u64) -> Vec<u8> {
    let mut img = vec![0u8; 64];
    write_u64_at(&mut img, offset, preferred);
    img
}

#[test]
fn relocation_follows_map_base() {
    let preferred = 0x1_8000_0000u64;
    let relocs = vec![Relocation { virtual_address: 16, typ: IMAGE_REL_BASED_DIR64 }];
    let mut a = image_with_base_at(16, preferred);
    let mut b = image_with_base_at(16, preferred);
    apply_relocations(&mut a, &relocs, preferred, 0x7f00_1234_0000);
    apply_relocations(&mut b, &relocs, preferred, 0x5555_0000_0000);
    let va = read_u64_at(&a, 16);
    let vb = read_u64_at(&b, 16);
    assert_eq!(va, 0x7f00_1234_0000);
    assert_eq!(vb, 0x5555_0000_0000);
    assert_ne!(va, vb);
}

#[test]
fn relocation_moves_by_distance_and_skips_other_kinds() {
    let preferred = 0x1_8000_0000u64;
    let mut img = image_with_base_at(8, preferred + 0x2345);
    write_u64_at(&mut img, 24, preferred + 0x10);
    let relocs = vec![
        Relocation { virtual_address: 8, typ: IMAGE_REL_BASED_DIR64 },
        Relocation { virtual_address: 24, typ: 3 },
        Relocation { virtual_address: 60, typ: IMAGE_REL_BASED_DIR64 },
    ];
    apply_relocations(&mut img, &relocs, preferred, 0x1000_0000);
    assert_eq!(read_u64_at(&img, 8), 0x1000_2345);
    assert_eq!(read_u64_at(&img, 24), preferred + 0x10);
    assert_eq!(img.len(), 64);
}

#[test]
fn module_names_collapse_to_families() {
    assert_eq!(module_family(b"KERNEL32.dll"), Some(ModuleFamily::Kernel));
    assert_eq!(module_family(b"api-ms-win-crt-runtime-l1-1-0.dll"), Some(ModuleFamily::Crt));
    assert_eq!(module_family(b"api-ms-win-core-synch-l1-2-0.DLL"), Some(ModuleFamily::Kernel));
    assert_eq!(module_family(b"advapi32.dll.dll"), Some(ModuleFamily::Advapi));
    assert_eq!(module_family(b"ntdll.dll"), Some(ModuleFamily::Ntdll));
    assert_eq!(module_family(b"rpcrt4"), Some(ModuleFamily::Rpc));
    assert_eq!(module_family(b"user32.dll"), None);
}

#[test]
fn unresolved_symbols_get_the_sentinel() {
    let mut cat = ShimCatalog::new();
    assert!(cat.add(ModuleFamily::Crt, b"malloc", 0x5000_1000));
    assert!(cat.add(ModuleFamily::Kernel, b"GetLastError", 0x5000_2000));
    assert!(!cat.add(ModuleFamily::Kernel, b"Sleep", 0));
    assert!(!cat.add(ModuleFamily::Kernel, b"Sleep", UNRESOLVED_IMPORT));
    assert_eq!(cat.len(), 2);
    assert_eq!(resolve_import(&cat, b"msvcrt.dll", b"malloc"), 0x5000_1000);
    assert_eq!(resolve_import(&cat, b"ucrtbase.dll", b"malloc"), 0x5000_1000);
    assert_eq!(resolve_import(&cat, b"kernel32.dll", b"GetLastError"), 0x5000_2000);
    let missing = resolve_import(&cat, b"kernel32.dll", b"CreateThread");
    assert_eq!(missing, UNRESOLVED_IMPORT);
    assert_eq!(missing, 0xDEADBEEF);
    assert_ne!(missing, 0);
    assert_eq!(resolve_import(&cat, b"kernel32.dll", b"malloc"), UNRESOLVED_IMPORT);
    assert_eq!(resolve_import(&cat, b"d3d11.dll", b"malloc"), UNRESOLVED_IMPORT);
}

#[test]
fn handles_freed_twice_report_not_found() {
    let mut t: HandleTable<i32> = HandleTable::new(FILE_HANDLE_BASE);
    let mut hs = Vec::new();
    for fd in 3..13 {
        hs.push(t.allocate(fd).unwrap());
    }
    assert_eq!(hs[0], 0x1000);
    assert_eq!(hs[9], 0x1009);
    assert_eq!(t.len(), 10);
    for (i, h) in hs.iter().enumerate() {
        assert_eq!(t.free(*h), Some(3 + i as i32));
    }
    assert_eq!(t.len(), 0);
    assert_eq!(t.free(hs[0]), None);
    let keep = t.allocate(42).unwrap();
    assert_eq!(keep, 0x100a);
    assert_eq!(t.free(hs[3]), None);
    assert_eq!(t.get(keep), Some(&42));
}

#[test]
fn adapter_released_once_at_zero() {
    let mut t = AdapterTable::new();
    let a = t.wrap(Interface::Blob, 0xAB00);
    assert_ne!(a, 0);
    assert_eq!(t.inner_of(a), Some((Interface::Blob, 0xAB00)));
    let counts_from_inner = [2u32, 3, 2, 1, 0];
    let mut teardowns = 0;
    for (step, c) in counts_from_inner.iter().enumerate() {
        if step < 2 {
            assert_eq!(t.inner_of(a).map(|p| p.1), Some(0xAB00));
            continue;
        }
        let (forwarded, dropped) = t.release(a, *c);
        assert_eq!(forwarded, *c);
        if dropped {
            teardowns += 1;
            assert_eq!(*c, 0);
        }
    }
    assert_eq!(teardowns, 1);
    assert_eq!(t.inner_of(a), None);
    assert_eq!(t.len(), 0);
}

#[test]
fn adapters_wrap_and_unwrap() {
    let mut t = AdapterTable::new();
    assert_eq!(t.wrap(Interface::Type, 0), 0);
    let ty = t.wrap(Interface::Type, 0x7000);
    let cb = t.wrap(Interface::ConstantBuffer, 0x8000);
    assert_ne!(ty, cb);
    assert_eq!(t.unwrap_arg(Interface::Type, ty), Some(0x7000));
    assert_eq!(t.unwrap_arg(Interface::Type, 0), Some(0));
    assert_eq!(t.unwrap_arg(Interface::Type, cb), None);
    let blob = interface_methods(Interface::Blob);
    assert_eq!(blob.len(), 5);
    assert_eq!(blob[2], ("Release", Handler::Release));
    let types = interface_methods(Interface::Type);
    assert_eq!(types[4], ("IsEqual", Handler::Unwrap(0)));
    let refl = interface_methods(Interface::Reflection);
    assert_eq!(refl[4], ("GetConstantBufferByIndex", Handler::Wrap(Interface::ConstantBuffer)));
}

#[test]
fn first_init_outcome_is_kept() {
    let mut cell: InitCell<Result<u32, String>> = InitCell::new();
    assert!(cell.get().is_none());
    assert!(cell.offer(Err("PE parse error".to_string())));
    assert!(!cell.offer(Ok(7)));
    assert!(!cell.offer(Ok(8)));
    assert_eq!(cell.get(), Some(&Err("PE parse error".to_string())));
}

#[test]
fn failed_bring_up_reports_e_fail() {
    let failed = Err(D3DCompilerError::ParseError("bad".to_string()));
    assert_eq!(gate_status(&failed), Some(E_FAIL));
    assert_eq!(E_FAIL, 0x80004005u32 as i32);
}

#[test]
fn exports_later_name_wins_and_missing_entry_is_named() {
    let exports = vec![
        (b"D3DCompile".to_vec(), 0x1000u64),
        (b"D3DCompile".to_vec(), 0x2000u64),
    ];
    assert_eq!(find_export(&exports, b"D3DCompile"), Some(0x2000));
    assert_eq!(find_export(&exports, b"D3DReflect"), None);
    match required_entry_points(&exports) {
        Err(D3DCompilerError::FunctionNotFound(n)) => assert_eq!(n, "D3DCompile2"),
        _ => panic!("expected a missing entry point"),
    }
}

#[test]
fn all_entry_points_found() {
    let names = [
        "D3DCompile", "D3DCompile2", "D3DCompileFromFile", "D3DPreprocess", "D3DDisassemble",
        "D3DCreateBlob", "D3DReflect", "D3DStripShader", "D3DGetBlobPart", "D3DSetBlobPart",
    ];
    let exports: Vec<(Vec<u8>, u64)> =
        names.iter().enumerate().map(|(i, n)| (n.as_bytes().to_vec(), 0x100 * (i as u64 + 1))).collect();
    let e = required_entry_points(&exports).unwrap();
    assert_eq!(e.compile, 0x100);
    assert_eq!(e.reflect, 0x700);
    assert_eq!(e.set_blob_part, 0xa00);
}

#[test]
fn garbage_is_not_an_image() {
    assert!(matches!(image_headers(b"not a portable executable"), Err(D3DCompilerError::ParseError(_))));
}

#[test]
fn addresses_map_back_to_preferred_base() {
    assert_eq!(to_original_va(0x7000_1234, 0x7000_0000, 0x10000, 0x1_8000_0000), 0x1_8000_1234);
    assert_eq!(to_original_va(0x7001_0000, 0x7000_0000, 0x10000, 0x1_8000_0000), 0x7001_0000);
    assert_eq!(to_original_va(0x1234, 0, 0x10000, 0x1_8000_0000), 0x1234);
}

#[test]
fn hash_contexts_digest_their_data() {
    let mut h = HashContexts::new();
    let a = h.create(0x8004).unwrap();
    assert_eq!(a, 0x2000);
    assert!(h.update(a, b"ab"));
    assert!(h.update(a, b"c"));
    assert!(!h.update(0x9999, b"x"));
    let p = h.get_param(a, HP_HASHVAL, 20);
    assert_eq!(p.status, 1);
    assert_eq!(p.len_out, Some(20));
    let expected: [u8; 20] = [
        0xa9, 0x99, 0x3e, 0x36, 0x47, 0x06, 0x81, 0x6a, 0xba, 0x3e, 0x25, 0x71, 0x78, 0x50, 0xc2,
        0x6c, 0x9c, 0xd0, 0xd8, 0x9d,
    ];
    assert_eq!(p.bytes.unwrap(), expected.to_vec());
    let short = h.get_param(a, HP_HASHVAL, 19);
    assert_eq!((short.status, short.len_out), (0, Some(20)));
    let size = h.get_param(a, HP_HASHSIZE, 4);
    assert_eq!(size.bytes.unwrap(), vec![20, 0, 0, 0]);
    assert_eq!(h.get_param(a, 7, 64).status, 0);
    assert_eq!(h.destroy(a), 1);
    assert_eq!(h.get_param(a, HP_HASHVAL, 20).status, 0);
    assert_eq!(h.destroy(a), 1);
}
