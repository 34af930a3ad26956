//! The image loader: reads the container through the `object` crate and lays
//! the image out, relocated and with its import slots bound, in an owned byte
//! arena that the host then maps and protects.

use vstd::prelude::*;
use vstd::slice::slice_subrange;
use vstd::string::StringSliceAdditionalSpecFns;
use crate::bytes::{prefix_of, lemma_write_then_read, copy_into, read_u64_at, read_u64_le, splice, write_u64_at, write_u64_le, bytes_eq};
use crate::imports::{resolve_import, resolved_address, ShimCatalog, ModuleFamily};
use object::read::pe::{ImageOptionalHeader, ImageThunkData, PeFile64};
use object::{LittleEndian as LE, Object, ObjectSection};

verus! {

/// Base relocation kind that patches a full 64-bit absolute address; the only
/// kind applied.
pub const IMAGE_REL_BASED_DIR64: u16 = 10;

/// Section characteristic: readable.
pub const IMAGE_SCN_MEM_READ: u32 = 0x4000_0000;

/// Section characteristic: writable.
pub const IMAGE_SCN_MEM_WRITE: u32 = 0x8000_0000;

/// Section characteristic: executable.
pub const IMAGE_SCN_MEM_EXECUTE: u32 = 0x2000_0000;

/// Errors that end module bring-up for the rest of the process.
#[derive(Debug)]
pub enum D3DCompilerError {
    LoadError(String),
    FunctionNotFound(String),
    Io(String),
    ParseError(String),
}

/// One base relocation entry: the address it patches and its kind.
#[derive(Clone, Copy, Debug, PartialEq, Eq, Structural)]
pub struct Relocation {
    pub virtual_address: u32,
    pub typ: u16,
}

/// Header fields of the container: (image size, header size, preferred base,
/// entry-point offset).
pub uninterp spec fn pe_headers(dll: Seq<u8>) -> Option<(u32, u32, u64, u32)>;

/// Sections of the container: (address, characteristics, raw data).
pub uninterp spec fn pe_sections(dll: Seq<u8>) -> Seq<(u64, Option<u32>, Option<Seq<u8>>)>;

/// Base relocation entries of the container, block by block.
pub uninterp spec fn pe_relocations(dll: Seq<u8>) -> Seq<Relocation>;

/// Import descriptors: (module name, name-table offset, slot-table offset).
pub uninterp spec fn pe_import_descriptors(dll: Seq<u8>) -> Seq<(Seq<u8>, u32, u32)>;

/// The symbol names of one import name table; `None` for an entry without one.
pub uninterp spec fn pe_import_thunks(dll: Seq<u8>, table: u32) -> Option<Seq<Option<Seq<u8>>>>;

/// Exported (name, address at the preferred base) pairs.
pub uninterp spec fn pe_exports(dll: Seq<u8>) -> Seq<(Seq<u8>, u64)>;

/// Relies on object's `PeFile64::parse` and its optional header: the header
/// fields of an image that parses, or the parser's message.
#[verifier::external_body]
fn read_headers(dll: &[u8]) -> (r: Result<(u32, u32, u64, u32), String>)
    ensures
        match r {
            Ok(h) => pe_headers(dll@) == Some(h),
            Err(_) => pe_headers(dll@) is None,
        },
{
    match PeFile64::parse(dll) {
        Ok(f) => {
            let oh = &f.nt_headers().optional_header;
            Ok((oh.size_of_image(), oh.size_of_headers(), f.relative_address_base(), oh.address_of_entry_point()))
        },
        Err(e) => Err(e.to_string()),
    }
}

/// Relies on object's section iterator: address, characteristics and raw data
/// of each section, in table order.
#[verifier::external_body]
fn read_sections(dll: &[u8]) -> (r: Vec<(u64, Option<u32>, Option<Vec<u8>>)>)
    ensures
        r.deep_view() == pe_sections(dll@),
{
    let mut r = Vec::new();
    if let Ok(f) = PeFile64::parse(dll) {
        for s in f.sections() {
            let c = match s.flags() {
                object::SectionFlags::Coff { characteristics } => Some(characteristics),
                _ => None,
            };
            r.push((s.address(), c, s.data().ok().map(|d| d.to_vec())));
        }
    }
    r
}

/// Relies on object's base-relocation block iterator: every entry of every
/// block, in file order.
#[verifier::external_body]
fn read_relocations(dll: &[u8]) -> (r: Vec<Relocation>)
    ensures
        r@ == pe_relocations(dll@),
{
    let mut r = Vec::new();
    if let Ok(f) = PeFile64::parse(dll) {
        if let Ok(Some(mut blocks)) = f.data_directories().relocation_blocks(dll, &f.section_table()) {
            while let Ok(Some(block)) = blocks.next() {
                for e in block {
                    r.push(Relocation { virtual_address: e.virtual_address, typ: e.typ });
                }
            }
        }
    }
    r
}

/// Relies on object's import table: each descriptor's module name (empty when
/// unreadable), name-table offset and slot-table offset, in file order.
#[verifier::external_body]
fn read_import_descriptors(dll: &[u8]) -> (r: Vec<(Vec<u8>, u32, u32)>)
    ensures
        r.deep_view() == pe_import_descriptors(dll@),
{
    let mut r = Vec::new();
    if let Ok(f) = PeFile64::parse(dll) {
        if let Ok(Some(t)) = f.import_table() {
            if let Ok(mut ds) = t.descriptors() {
                while let Ok(Some(d)) = ds.next() {
                    let m = t.name(d.name.get(LE)).map(|n| n.to_vec()).unwrap_or_default();
                    r.push((m, d.original_first_thunk.get(LE), d.first_thunk.get(LE)));
                }
            }
        }
    }
    r
}

/// Relies on object's import thunk list and hint/name lookup: the name of each
/// entry of the table at `table`, or `None` when the table cannot be read.
#[verifier::external_body]
fn read_import_thunks(dll: &[u8], table: u32) -> (r: Option<Vec<Option<Vec<u8>>>>)
    ensures
        r.deep_view() == pe_import_thunks(dll@, table),
{
    let f = PeFile64::parse(dll).ok()?;
    let t = f.import_table().ok()??;
    let mut thunks = t.thunks(table).ok()?;
    let mut r = Vec::new();
    while let Ok(Some(th)) = thunks.next::<object::pe::ImageNtHeaders64>() {
        r.push(t.hint_name(th.address()).ok().map(|(_, n)| n.to_vec()));
    }
    Some(r)
}

/// Relies on object's export list: each exported name with its address at
/// the preferred base.
#[verifier::external_body]
fn read_exports(dll: &[u8]) -> (r: Vec<(Vec<u8>, u64)>)
    ensures
        r.deep_view() == pe_exports(dll@),
{
    let mut r = Vec::new();
    if let Ok(f) = PeFile64::parse(dll) {
        if let Ok(list) = f.exports() {
            for e in list {
                r.push((e.name().to_vec(), e.address()));
            }
        }
    }
    r
}

/// `v` moved from the preferred base to the actual base, modulo 2^64.
pub open spec fn rebase(v: u64, preferred: u64, actual: u64) -> u64 {
    ((v as int - preferred as int + actual as int) % 0x1_0000_0000_0000_0000int) as u64
}

fn rebase_value(v: u64, preferred: u64, actual: u64) -> (r: u64)
    ensures
        r == rebase(v, preferred, actual),
{
    v.wrapping_sub(preferred).wrapping_add(actual)
}

/// The image after one relocation entry: a 64-bit absolute entry whose eight
/// bytes lie inside the image is moved to the actual base; any other entry
/// changes nothing.
pub open spec fn apply_relocation(img: Seq<u8>, r: Relocation, preferred: u64, actual: u64) -> Seq<
    u8,
> {
    let t = r.virtual_address as int;
    if r.typ == IMAGE_REL_BASED_DIR64 && t + 8 <= img.len() {
        write_u64_le(img, t, rebase(read_u64_le(img, t), preferred, actual))
    } else {
        img
    }
}

/// The image after the relocation entries, applied in order.
pub open spec fn relocated(img: Seq<u8>, relocs: Seq<Relocation>, preferred: u64, actual: u64) -> Seq<
    u8,
>
    decreases relocs.len(),
{
    if relocs.len() == 0 {
        img
    } else {
        apply_relocation(
            relocated(img, relocs.drop_last(), preferred, actual),
            relocs.last(),
            preferred,
            actual,
        )
    }
}

/// Applies the relocation entries, in order, to an image mapped at
/// `map_base` whose preferred base is `preferred_base`.
pub fn apply_relocations(
    image: &mut Vec<u8>,
    relocs: &Vec<Relocation>,
    preferred_base: u64,
    map_base: u64,
)
    ensures
        final(image)@ == relocated(old(image)@, relocs@, preferred_base, map_base),
{
    let mut i: usize = 0;
    assert(relocs@.take(0) =~= Seq::<Relocation>::empty());
    while i < relocs.len()
        invariant
            i <= relocs@.len(),
            image@ == relocated(old(image)@, relocs@.take(i as int), preferred_base, map_base),
        decreases relocs@.len() - i,
    {
        let r = relocs[i];
        let n = image.len();
        if r.typ == IMAGE_REL_BASED_DIR64 && (r.virtual_address as usize) <= n && n - (
        r.virtual_address as usize) >= 8 {
            let t = r.virtual_address as usize;
            let v = read_u64_at(image, t);
            let nv = rebase_value(v, preferred_base, map_base);
            write_u64_at(image, t, nv);
        }
        assert(relocs@.take(i + 1).drop_last() =~= relocs@.take(i as int));
        i = i + 1;
    }
    assert(relocs@.take(relocs@.len() as int) =~= relocs@);
}

/// The single relocation of a 64-bit value equal to the preferred base, at
/// two different map bases, yields two different values, each the map base
/// plus the stored value's distance from the preferred base.
pub proof fn lemma_relocation_tracks_map_base(
    img: Seq<u8>,
    target: u32,
    preferred: u64,
    base_a: u64,
    base_b: u64,
)
    requires
        target + 8 <= img.len(),
        read_u64_le(img, target as int) == preferred,
        base_a != base_b,
    ensures
        ({
            let r = seq![Relocation { virtual_address: target, typ: IMAGE_REL_BASED_DIR64 }];
            let va = read_u64_le(relocated(img, r, preferred, base_a), target as int);
            let vb = read_u64_le(relocated(img, r, preferred, base_b), target as int);
            &&& va == base_a + (read_u64_le(img, target as int) - preferred)
            &&& vb == base_b + (read_u64_le(img, target as int) - preferred)
            &&& va != vb
        }),
{
    let r = seq![Relocation { virtual_address: target, typ: IMAGE_REL_BASED_DIR64 }];
    assert(r.drop_last() =~= Seq::<Relocation>::empty());
    assert(r.last() == Relocation { virtual_address: target, typ: IMAGE_REL_BASED_DIR64 });
    assert(relocated(img, r.drop_last(), preferred, base_a) == img);
    assert(relocated(img, r.drop_last(), preferred, base_b) == img);
    assert(rebase(preferred, preferred, base_a) == base_a);
    assert(rebase(preferred, preferred, base_b) == base_b);
    lemma_write_then_read(img, target as int, rebase(preferred, preferred, base_a));
    lemma_write_then_read(img, target as int, rebase(preferred, preferred, base_b));
}

/// The image after placing one section: its raw data copied to its offset
/// from the preferred base when it lies wholly inside the image.
pub open spec fn place_section(
    img: Seq<u8>,
    s: (u64, Option<u32>, Option<Seq<u8>>),
    preferred: u64,
) -> Seq<u8> {
    match s.2 {
        Some(d) => if s.0 >= preferred && (s.0 - preferred) + d.len() <= img.len() {
            splice(img, s.0 - preferred, d)
        } else {
            img
        },
        None => img,
    }
}

/// The image after placing the sections, in order.
pub open spec fn place_sections(
    img: Seq<u8>,
    secs: Seq<(u64, Option<u32>, Option<Seq<u8>>)>,
    preferred: u64,
) -> Seq<u8>
    decreases secs.len(),
{
    if secs.len() == 0 {
        img
    } else {
        place_section(place_sections(img, secs.drop_last(), preferred), secs.last(), preferred)
    }
}

/// Copies each section's raw data to its offset from the preferred base.
pub fn copy_sections(
    image: &mut Vec<u8>,
    secs: &Vec<(u64, Option<u32>, Option<Vec<u8>>)>,
    preferred_base: u64,
)
    ensures
        final(image)@ == place_sections(old(image)@, secs.deep_view(), preferred_base),
{
    let mut i: usize = 0;
    assert(secs.deep_view().take(0) =~= Seq::<(u64, Option<u32>, Option<Seq<u8>>)>::empty());
    while i < secs.len()
        invariant
            i <= secs@.len(),
            image@ == place_sections(old(image)@, secs.deep_view().take(i as int), preferred_base),
        decreases secs@.len() - i,
    {
        let s = &secs[i];
        assert(secs.deep_view()[i as int] == s.deep_view());
        match &s.2 {
            Some(d) => {
                let n = image.len();
                if s.0 >= preferred_base && s.0 - preferred_base <= n as u64 && d.len() as u64
                    <= n as u64 - (s.0 - preferred_base) {
                    let off = (s.0 - preferred_base) as usize;
                    copy_into(image, off, d.as_slice());
                }
            },
            None => {},
        }
        assert(secs.deep_view().take(i + 1).drop_last() =~= secs.deep_view().take(i as int));
        i = i + 1;
    }
    assert(secs.deep_view().take(secs@.len() as int) =~= secs.deep_view());
}

/// The image after binding the first `thunks.len()` slots of one descriptor:
/// slot `i` lies at `first_thunk + 8 * i` and, when its entry has a name and
/// its eight bytes lie inside the image, receives the resolved address.
pub open spec fn bind_thunks(
    img: Seq<u8>,
    catalog: Seq<(ModuleFamily, Seq<u8>, u64)>,
    module: Seq<u8>,
    first_thunk: int,
    thunks: Seq<Option<Seq<u8>>>,
) -> Seq<u8>
    decreases thunks.len(),
{
    if thunks.len() == 0 {
        img
    } else {
        let prev = bind_thunks(img, catalog, module, first_thunk, thunks.drop_last());
        let slot = first_thunk + 8 * (thunks.len() - 1);
        match thunks.last() {
            Some(name) => if slot + 8 <= prev.len() {
                write_u64_le(prev, slot, resolved_address(catalog, module, name))
            } else {
                prev
            },
            None => prev,
        }
    }
}

/// The image after binding the slots of the descriptors, in order.
pub open spec fn bind_imports(
    img: Seq<u8>,
    catalog: Seq<(ModuleFamily, Seq<u8>, u64)>,
    dll: Seq<u8>,
    descs: Seq<(Seq<u8>, u32, u32)>,
) -> Seq<u8>
    decreases descs.len(),
{
    if descs.len() == 0 {
        img
    } else {
        let prev = bind_imports(img, catalog, dll, descs.drop_last());
        let d = descs.last();
        match pe_import_thunks(dll, d.1) {
            Some(t) => bind_thunks(prev, catalog, d.0, d.2 as int, t),
            None => prev,
        }
    }
}

fn bind_descriptor_slots(
    image: &mut Vec<u8>,
    catalog: &ShimCatalog,
    module: &Vec<u8>,
    first_thunk: u32,
    thunks: &Vec<Option<Vec<u8>>>,
)
    ensures
        final(image)@ == bind_thunks(
            old(image)@,
            catalog@,
            module@,
            first_thunk as int,
            thunks.deep_view(),
        ),
{
    let mut i: usize = 0;
    let ghost tv = thunks.deep_view();
    let ghost cat = catalog@;
    let ghost m = module@;
    assert(tv.take(0) =~= Seq::<Option<Seq<u8>>>::empty());
    while i < thunks.len()
        invariant
            i <= thunks@.len(),
            tv == thunks.deep_view(),
            cat == catalog@,
            m == module@,
            image@ == bind_thunks(old(image)@, cat, m, first_thunk as int, tv.take(i as int)),
        decreases thunks@.len() - i,
    {
        let slot: u128 = first_thunk as u128 + 8 * (i as u128);
        assert(tv[i as int] == thunks@[i as int].deep_view());
        assert(tv.take(i + 1).drop_last() =~= tv.take(i as int));
        match &thunks[i] {
            Some(name) => {
                assert(name.deep_view() =~= name@);
                assert(tv.take(i + 1).last() == Some(name@));
                let n = image.len();
                if slot + 8 <= n as u128 {
                    let addr = resolve_import(catalog, module.as_slice(), name.as_slice());
                    write_u64_at(image, slot as usize, addr);
                }
            },
            None => {
                assert(tv.take(i + 1).last() is None);
            },
        }
        i = i + 1;
    }
    assert(tv.take(thunks@.len() as int) =~= tv);
}

/// Writes the resolved address of every named import into its slot.
fn bind_import_slots(
    image: &mut Vec<u8>,
    catalog: &ShimCatalog,
    dll: &[u8],
    descs: &Vec<(Vec<u8>, u32, u32)>,
)
    ensures
        final(image)@ == bind_imports(old(image)@, catalog@, dll@, descs.deep_view()),
{
    let mut i: usize = 0;
    let ghost dv = descs.deep_view();
    let ghost cat = catalog@;
    assert(dv.take(0) =~= Seq::<(Seq<u8>, u32, u32)>::empty());
    while i < descs.len()
        invariant
            i <= descs@.len(),
            dv == descs.deep_view(),
            cat == catalog@,
            image@ == bind_imports(old(image)@, cat, dll@, dv.take(i as int)),
        decreases descs@.len() - i,
    {
        let d = &descs[i];
        assert(dv[i as int] == d.deep_view());
        assert(dv.take(i + 1).drop_last() =~= dv.take(i as int));
        assert(d.0.deep_view() =~= d.0@);
        assert(dv.take(i + 1).last() == dv[i as int]);
        match read_import_thunks(dll, d.1) {
            Some(t) => bind_descriptor_slots(image, catalog, &d.0, d.2, &t),
            None => {},
        }
        i = i + 1;
    }
    assert(dv.take(descs@.len() as int) =~= dv);
}

/// The address exported under `name`; a later entry of the same name
/// replaces an earlier one.
pub open spec fn export_address(exports: Seq<(Seq<u8>, u64)>, name: Seq<u8>) -> Option<u64>
    decreases exports.len(),
{
    if exports.len() == 0 {
        None
    } else if exports.last().0 == name {
        Some(exports.last().1)
    } else {
        export_address(exports.drop_last(), name)
    }
}

/// The address exported under `name`, if any.
pub fn find_export(exports: &Vec<(Vec<u8>, u64)>, name: &[u8]) -> (r: Option<u64>)
    ensures
        r == export_address(exports.deep_view(), name@),
{
    let ghost xv = exports.deep_view();
    let mut i: usize = exports.len();
    assert(xv.take(i as int) =~= xv);
    while i > 0
        invariant
            i <= exports@.len(),
            xv == exports.deep_view(),
            export_address(xv.take(i as int), name@) == export_address(xv, name@),
        decreases i,
    {
        let e = &exports[i - 1];
        assert(xv[i - 1] == e.deep_view());
        assert(e.0.deep_view() =~= e.0@);
        assert(xv.take(i as int).last() == xv[i - 1]);
        if bytes_eq(e.0.as_slice(), name) {
            return Some(e.1);
        }
        assert(xv.take(i as int).drop_last() =~= xv.take(i - 1));
        i = i - 1;
    }
    None
}

fn require_export(exports: &Vec<(Vec<u8>, u64)>, name: &str) -> (r: Result<u64, D3DCompilerError>)
    ensures
        match r {
            Ok(a) => export_address(exports.deep_view(), name.spec_bytes()) == Some(a),
            Err(D3DCompilerError::FunctionNotFound(n)) => export_address(
                exports.deep_view(),
                name.spec_bytes(),
            ) is None && n@ == name@,
            Err(_) => false,
        },
{
    match find_export(exports, name.as_bytes()) {
        Some(a) => Ok(a),
        None => Err(D3DCompilerError::FunctionNotFound(name.to_owned())),
    }
}

/// Addresses of the compiler entry points the host API forwards to.
#[derive(Clone, Copy, Debug, PartialEq, Eq, Structural)]
pub struct EntryPoints {
    pub compile: u64,
    pub compile2: u64,
    pub compile_from_file: u64,
    pub preprocess: u64,
    pub disassemble: u64,
    pub create_blob: u64,
    pub reflect: u64,
    pub strip_shader: u64,
    pub get_blob_part: u64,
    pub set_blob_part: u64,
}

/// The entry points found among the exports, or the name of the first
/// required one that is missing.
pub open spec fn entry_points_of(exports: Seq<(Seq<u8>, u64)>) -> Result<EntryPoints, Seq<char>> {
    let compile = export_address(exports, "D3DCompile".spec_bytes());
    let compile2 = export_address(exports, "D3DCompile2".spec_bytes());
    let compile_from_file = export_address(exports, "D3DCompileFromFile".spec_bytes());
    let preprocess = export_address(exports, "D3DPreprocess".spec_bytes());
    let disassemble = export_address(exports, "D3DDisassemble".spec_bytes());
    let create_blob = export_address(exports, "D3DCreateBlob".spec_bytes());
    let reflect = export_address(exports, "D3DReflect".spec_bytes());
    let strip_shader = export_address(exports, "D3DStripShader".spec_bytes());
    let get_blob_part = export_address(exports, "D3DGetBlobPart".spec_bytes());
    let set_blob_part = export_address(exports, "D3DSetBlobPart".spec_bytes());
    if compile is None {
        Err("D3DCompile"@)
    } else if compile2 is None {
        Err("D3DCompile2"@)
    } else if compile_from_file is None {
        Err("D3DCompileFromFile"@)
    } else if preprocess is None {
        Err("D3DPreprocess"@)
    } else if disassemble is None {
        Err("D3DDisassemble"@)
    } else if create_blob is None {
        Err("D3DCreateBlob"@)
    } else if reflect is None {
        Err("D3DReflect"@)
    } else if strip_shader is None {
        Err("D3DStripShader"@)
    } else if get_blob_part is None {
        Err("D3DGetBlobPart"@)
    } else if set_blob_part is None {
        Err("D3DSetBlobPart"@)
    } else {
        Ok(EntryPoints {
            compile: compile->0,
            compile2: compile2->0,
            compile_from_file: compile_from_file->0,
            preprocess: preprocess->0,
            disassemble: disassemble->0,
            create_blob: create_blob->0,
            reflect: reflect->0,
            strip_shader: strip_shader->0,
            get_blob_part: get_blob_part->0,
            set_blob_part: set_blob_part->0,
        })
    }
}

/// Looks up every entry point the host API needs; the first one missing, in
/// a fixed order, names the error.
pub fn required_entry_points(exports: &Vec<(Vec<u8>, u64)>) -> (r: Result<
    EntryPoints,
    D3DCompilerError,
>)
    ensures
        match r {
            Ok(e) => entry_points_of(exports.deep_view()) == Ok::<EntryPoints, Seq<char>>(e),
            Err(D3DCompilerError::FunctionNotFound(n)) => entry_points_of(exports.deep_view())
                == Err::<EntryPoints, Seq<char>>(n@),
            Err(_) => false,
        },
{
    let compile = match require_export(exports, "D3DCompile") {
        Ok(a) => a,
        Err(e) => return Err(e),
    };
    let compile2 = match require_export(exports, "D3DCompile2") {
        Ok(a) => a,
        Err(e) => return Err(e),
    };
    let compile_from_file = match require_export(exports, "D3DCompileFromFile") {
        Ok(a) => a,
        Err(e) => return Err(e),
    };
    let preprocess = match require_export(exports, "D3DPreprocess") {
        Ok(a) => a,
        Err(e) => return Err(e),
    };
    let disassemble = match require_export(exports, "D3DDisassemble") {
        Ok(a) => a,
        Err(e) => return Err(e),
    };
    let create_blob = match require_export(exports, "D3DCreateBlob") {
        Ok(a) => a,
        Err(e) => return Err(e),
    };
    let reflect = match require_export(exports, "D3DReflect") {
        Ok(a) => a,
        Err(e) => return Err(e),
    };
    let strip_shader = match require_export(exports, "D3DStripShader") {
        Ok(a) => a,
        Err(e) => return Err(e),
    };
    let get_blob_part = match require_export(exports, "D3DGetBlobPart") {
        Ok(a) => a,
        Err(e) => return Err(e),
    };
    let set_blob_part = match require_export(exports, "D3DSetBlobPart") {
        Ok(a) => a,
        Err(e) => return Err(e),
    };
    Ok(EntryPoints {
        compile,
        compile2,
        compile_from_file,
        preprocess,
        disassemble,
        create_blob,
        reflect,
        strip_shader,
        get_blob_part,
        set_blob_part,
    })
}

/// The exports moved from the preferred base to the map base.
pub open spec fn rebased_exports(exports: Seq<(Seq<u8>, u64)>, preferred: u64, actual: u64) -> Seq<
    (Seq<u8>, u64),
> {
    Seq::new(exports.len(), |i: int| (exports[i].0, rebase(exports[i].1, preferred, actual)))
}

proof fn lemma_bytes_deep_view(v: Vec<u8>)
    ensures
        v.deep_view() == v@,
{
    assert(v.deep_view() =~= v@);
}

fn rebase_exports(exports: Vec<(Vec<u8>, u64)>, preferred_base: u64, map_base: u64) -> (r: Vec<
    (Vec<u8>, u64),
>)
    ensures
        r.deep_view() == rebased_exports(exports.deep_view(), preferred_base, map_base),
{
    let ghost xv = exports.deep_view();
    let mut r: Vec<(Vec<u8>, u64)> = Vec::new();
    let mut rest = exports;
    let mut i: usize = 0;
    let n = rest.len();
    while i < n
        invariant
            i <= n,
            n == xv.len(),
            rest.deep_view() == xv,
            r.deep_view() =~= rebased_exports(xv, preferred_base, map_base).take(i as int),
        decreases n - i,
    {
        let name = prefix_of(rest[i].0.as_slice(), rest[i].0.len());
        assert(xv[i as int] == rest@[i as int].deep_view());
        assert(rest@[i as int].0.deep_view() =~= rest@[i as int].0@);
        assert(name@ =~= rest@[i as int].0@);
        let a = rebase_value(rest[i].1, preferred_base, map_base);
        let ghost before = r.deep_view();
        let ghost rv = r@;
        let pair = (name, a);
        let ghost pv = pair;
        r.push(pair);
        assert(r@ == rv.push(pv));
        proof {
            lemma_bytes_deep_view(pv.0);
        }
        assert(r.deep_view() =~= before.push((pv.0@, a)));
        i = i + 1;
    }
    r
}

/// Host page protection derived from a section's characteristics.
#[derive(Clone, Copy, Debug, PartialEq, Eq, Structural)]
pub struct Protection {
    pub read: bool,
    pub write: bool,
    pub execute: bool,
}

/// The protection a section with characteristics `c` receives.
pub open spec fn protection_of(c: u32) -> Protection {
    Protection {
        read: c & IMAGE_SCN_MEM_READ != 0,
        write: c & IMAGE_SCN_MEM_WRITE != 0,
        execute: c & IMAGE_SCN_MEM_EXECUTE != 0,
    }
}

/// Computes the protection a section with characteristics `c` receives.
pub fn section_protection(c: u32) -> (r: Protection)
    ensures
        r == protection_of(c),
{
    Protection {
        read: c & IMAGE_SCN_MEM_READ != 0,
        write: c & IMAGE_SCN_MEM_WRITE != 0,
        execute: c & IMAGE_SCN_MEM_EXECUTE != 0,
    }
}

/// The protections to apply once the image is bound: for each section with
/// raw data, characteristics and an address at or above the preferred base,
/// its offset, raw length and protection, in table order.
pub open spec fn protection_plan(secs: Seq<(u64, Option<u32>, Option<Seq<u8>>)>, preferred: u64) -> Seq<
    (u64, usize, Protection),
>
    decreases secs.len(),
{
    if secs.len() == 0 {
        Seq::empty()
    } else {
        let prev = protection_plan(secs.drop_last(), preferred);
        let s = secs.last();
        if s.1 is Some && s.2 is Some && s.0 >= preferred {
            prev.push(((s.0 - preferred) as u64, s.2->0.len() as usize, protection_of(s.1->0)))
        } else {
            prev
        }
    }
}

fn plan_protections(secs: &Vec<(u64, Option<u32>, Option<Vec<u8>>)>, preferred_base: u64) -> (r: Vec<
    (u64, usize, Protection),
>)
    ensures
        r@ == protection_plan(secs.deep_view(), preferred_base),
{
    let ghost sv = secs.deep_view();
    let mut r: Vec<(u64, usize, Protection)> = Vec::new();
    let mut i: usize = 0;
    assert(sv.take(0) =~= Seq::<(u64, Option<u32>, Option<Seq<u8>>)>::empty());
    while i < secs.len()
        invariant
            i <= secs@.len(),
            sv == secs.deep_view(),
            r@ == protection_plan(sv.take(i as int), preferred_base),
        decreases secs@.len() - i,
    {
        let s = &secs[i];
        assert(sv[i as int] == s.deep_view());
        assert(sv.take(i + 1).drop_last() =~= sv.take(i as int));
        assert(sv.take(i + 1).last() == sv[i as int]);
        match (&s.1, &s.2) {
            (Some(c), Some(d)) => {
                if s.0 >= preferred_base {
                    let ghost before = r@;
                    r.push((s.0 - preferred_base, d.len(), section_protection(*c)));
                    assert(r@ =~= before.push(
                        ((s.0 - preferred_base) as u64, d@.len() as usize, protection_of(*c)),
                    ));
                }
            },
            _ => {},
        }
        i = i + 1;
    }
    assert(sv.take(secs@.len() as int) =~= sv);
    r
}

/// The image bytes after headers, sections, relocations and import slots,
/// or `None` when the container does not parse or its header region does not
/// fit.
pub open spec fn laid_out_image(
    dll: Seq<u8>,
    catalog: Seq<(ModuleFamily, Seq<u8>, u64)>,
    map_base: u64,
) -> Option<Seq<u8>> {
    match pe_headers(dll) {
        Some(h) => if h.1 <= h.0 && h.1 <= dll.len() {
            let blank = Seq::new(h.0 as nat, |i: int| 0u8);
            let with_headers = splice(blank, 0, dll.take(h.1 as int));
            let placed = place_sections(with_headers, pe_sections(dll), h.2);
            let moved = relocated(placed, pe_relocations(dll), h.2, map_base);
            Some(bind_imports(moved, catalog, dll, pe_import_descriptors(dll)))
        } else {
            None
        },
        None => None,
    }
}

/// An image laid out for a given map base, with what the host needs to map,
/// protect and enter it.
pub struct LoadedImage {
    /// The bytes to copy to the map base.
    pub image: Vec<u8>,
    /// Size of the image in memory.
    pub size_of_image: u32,
    /// The base address the image was linked for.
    pub preferred_base: u64,
    /// The address the image is mapped at.
    pub map_base: u64,
    /// Length of the header region, made read-only after the copy.
    pub header_size: u32,
    /// Offset of the entry point from the map base; 0 when there is none.
    pub entry_rva: u32,
    /// Exported names with their addresses at the map base.
    pub exports: Vec<(Vec<u8>, u64)>,
    /// (offset, length, protection) of each section.
    pub protections: Vec<(u64, usize, Protection)>,
}

impl LoadedImage {
    /// The attach entry point's address, when the image has one.
    pub fn entry_address(&self) -> (r: Option<u64>)
        ensures
            r == if self.entry_rva == 0 {
                None::<u64>
            } else {
                Some(rebase(self.entry_rva as u64, 0, self.map_base))
            },
    {
        if self.entry_rva == 0 {
            None
        } else {
            Some(rebase_value(self.entry_rva as u64, 0, self.map_base))
        }
    }
}

/// Reads the container header: (image size, header size, preferred base,
/// entry-point offset).
pub fn image_headers(dll: &[u8]) -> (r: Result<(u32, u32, u64, u32), D3DCompilerError>)
    ensures
        match r {
            Ok(h) => pe_headers(dll@) == Some(h),
            Err(e) => pe_headers(dll@) is None && e is ParseError,
        },
{
    match read_headers(dll) {
        Ok(h) => Ok(h),
        Err(m) => Err(D3DCompilerError::ParseError(m)),
    }
}

fn zeroed(n: usize) -> (r: Vec<u8>)
    ensures
        r@ == Seq::new(n as nat, |i: int| 0u8),
{
    let mut r: Vec<u8> = Vec::new();
    let mut i: usize = 0;
    while i < n
        invariant
            i <= n,
            r@ =~= Seq::new(i as nat, |k: int| 0u8),
        decreases n - i,
    {
        r.push(0);
        i = i + 1;
    }
    r
}

/// Lays the container out for mapping at `map_base`: header bytes, section
/// data at their offsets from the preferred base, 64-bit relocations moved to
/// the map base, and every named import slot bound through the catalog.
pub fn load_image(dll: &[u8], map_base: u64, catalog: &ShimCatalog) -> (r: Result<
    LoadedImage,
    D3DCompilerError,
>)
    ensures
        match r {
            Ok(li) => {
                &&& laid_out_image(dll@, catalog@, map_base) == Some(li.image@)
                &&& pe_headers(dll@) == Some(
                    (li.size_of_image, li.header_size, li.preferred_base, li.entry_rva),
                )
                &&& li.map_base == map_base
                &&& li.exports.deep_view() == rebased_exports(
                    pe_exports(dll@),
                    li.preferred_base,
                    map_base,
                )
                &&& li.protections@ == protection_plan(
                    pe_sections(dll@),
                    li.preferred_base,
                )
            },
            Err(e) => laid_out_image(dll@, catalog@, map_base) is None && e is ParseError,
        },
{
    let (size, header_size, preferred_base, entry_rva) = match image_headers(dll) {
        Ok(h) => h,
        Err(e) => return Err(e),
    };
    if header_size > size || header_size as usize > dll.len() {
        return Err(D3DCompilerError::ParseError("header region exceeds the image".to_owned()));
    }
    let mut image = zeroed(size as usize);
    let head = slice_subrange(dll, 0, header_size as usize);
    assert(head@ =~= dll@.take(header_size as int));
    copy_into(&mut image, 0, head);
    let secs = read_sections(dll);
    copy_sections(&mut image, &secs, preferred_base);
    let relocs = read_relocations(dll);
    apply_relocations(&mut image, &relocs, preferred_base, map_base);
    let descs = read_import_descriptors(dll);
    bind_import_slots(&mut image, catalog, dll, &descs);
    let exports = rebase_exports(read_exports(dll), preferred_base, map_base);
    let protections = plan_protections(&secs, preferred_base);
    Ok(
        LoadedImage {
            image,
            size_of_image: size,
            preferred_base,
            map_base,
            header_size,
            entry_rva,
            exports,
            protections,
        },
    )
}

/// An address inside the mapped image carried back to the address it
/// has at the preferred base; any other address returned unchanged.
pub fn to_original_va(addr: u64, map_base: u64, map_size: u64, image_base: u64) -> (r: u64)
    ensures
        r == if map_base != 0 && addr >= map_base && addr - map_base < map_size {
            rebase(addr, map_base, image_base)
        } else {
            addr
        },
{
    if map_base != 0 && addr >= map_base && addr - map_base < map_size {
        rebase_value(addr, map_base, image_base)
    } else {
        addr
    }
}

} // verus!
