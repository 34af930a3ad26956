//! Import resolution: module-family normalisation, the shim catalog and the
//! sentinel bound to every symbol the catalog does not implement.

use vstd::prelude::*;
use crate::bytes::{bytes_eq, prefix_of};
use vstd::string::StringSliceAdditionalSpecFns;

verus! {

/// Address bound to an import slot whose symbol has no implementation: not a
/// valid code address, so the first call through the slot faults at once.
pub const UNRESOLVED_IMPORT: u64 = 0xDEADBEEF;

/// The canonical module a family of import-module aliases collapses to.
#[derive(Clone, Copy, Debug, PartialEq, Eq, Structural)]
pub enum ModuleFamily {
    /// C runtime: string, memory, math, stdio, startup.
    Crt,
    /// File, heap, synchronisation and process primitives.
    Kernel,
    /// Registry and crypto.
    Advapi,
    /// Low-level runtime unwind primitives.
    Ntdll,
    /// UUID generation.
    Rpc,
}

/// ASCII upper-case letters mapped to lower case; every other byte kept.
pub open spec fn lower_byte(c: u8) -> u8 {
    if 65 <= c <= 90 {
        (c + 32) as u8
    } else {
        c
    }
}

/// A byte string lowered letter by letter.
pub open spec fn lower_bytes(s: Seq<u8>) -> Seq<u8> {
    Seq::new(s.len(), |i: int| lower_byte(s[i]))
}

/// True when `s` ends with ".dll".
pub open spec fn ends_with_dll(s: Seq<u8>) -> bool {
    s.len() >= 4 && s[s.len() - 4] == 46 && s[s.len() - 3] == 100 && s[s.len() - 2] == 108
        && s[s.len() - 1] == 108
}

/// `s` with every trailing ".dll" removed.
pub open spec fn strip_dll(s: Seq<u8>) -> Seq<u8>
    decreases s.len(),
{
    if ends_with_dll(s) {
        strip_dll(s.take(s.len() - 4))
    } else {
        s
    }
}

/// The family of a lowered module name without its ".dll" suffix.
#[verifier::opaque]
pub open spec fn family_of_base(b: Seq<u8>) -> Option<ModuleFamily> {
    if b == "msvcrt".spec_bytes()
        || b == "msvcr100".spec_bytes()
        || b == "msvcr110".spec_bytes()
        || b == "msvcr120".spec_bytes()
        || b == "vcruntime140".spec_bytes()
        || b == "ucrtbase".spec_bytes()
        || b == "api-ms-win-crt-runtime-l1-1-0".spec_bytes()
        || b == "api-ms-win-crt-heap-l1-1-0".spec_bytes()
        || b == "api-ms-win-crt-string-l1-1-0".spec_bytes()
        || b == "api-ms-win-crt-stdio-l1-1-0".spec_bytes()
        || b == "api-ms-win-crt-math-l1-1-0".spec_bytes()
        || b == "api-ms-win-crt-convert-l1-1-0".spec_bytes()
        || b == "api-ms-win-crt-utility-l1-1-0".spec_bytes()
        || b == "api-ms-win-crt-time-l1-1-0".spec_bytes()
        || b == "api-ms-win-crt-locale-l1-1-0".spec_bytes()
        || b == "api-ms-win-crt-environment-l1-1-0".spec_bytes()
        || b == "api-ms-win-crt-filesystem-l1-1-0".spec_bytes()
        || b == "api-ms-win-crt-private-l1-1-0".spec_bytes() {
        Some(ModuleFamily::Crt)
    } else if b == "kernel32".spec_bytes()
        || b == "api-ms-win-core-heap-l1-1-0".spec_bytes()
        || b == "api-ms-win-core-synch-l1-1-0".spec_bytes()
        || b == "api-ms-win-core-synch-l1-2-0".spec_bytes()
        || b == "api-ms-win-core-file-l1-1-0".spec_bytes()
        || b == "api-ms-win-core-file-l1-2-0".spec_bytes()
        || b == "api-ms-win-core-file-l2-1-0".spec_bytes()
        || b == "api-ms-win-core-processthreads-l1-1-0".spec_bytes()
        || b == "api-ms-win-core-processthreads-l1-1-1".spec_bytes()
        || b == "api-ms-win-core-libraryloader-l1-1-0".spec_bytes()
        || b == "api-ms-win-core-libraryloader-l1-2-0".spec_bytes()
        || b == "api-ms-win-core-memory-l1-1-0".spec_bytes()
        || b == "api-ms-win-core-localization-l1-2-0".spec_bytes()
        || b == "api-ms-win-core-sysinfo-l1-1-0".spec_bytes()
        || b == "api-ms-win-core-errorhandling-l1-1-0".spec_bytes()
        || b == "api-ms-win-core-profile-l1-1-0".spec_bytes()
        || b == "api-ms-win-core-string-l1-1-0".spec_bytes()
        || b == "api-ms-win-core-debug-l1-1-0".spec_bytes()
        || b == "api-ms-win-core-handle-l1-1-0".spec_bytes()
        || b == "api-ms-win-core-fibers-l1-1-0".spec_bytes()
        || b == "api-ms-win-core-fibers-l1-1-1".spec_bytes() {
        Some(ModuleFamily::Kernel)
    } else if b == "advapi32".spec_bytes()
        || b == "api-ms-win-core-registry-l1-1-0".spec_bytes()
        || b == "api-ms-win-security-base-l1-1-0".spec_bytes() {
        Some(ModuleFamily::Advapi)
    } else if b == "ntdll".spec_bytes() {
        Some(ModuleFamily::Ntdll)
    } else if b == "rpcrt4".spec_bytes() {
        Some(ModuleFamily::Rpc)
    } else {
        None
    }
}

/// The family an import-module name belongs to, ignoring ASCII case.
pub open spec fn family_of(module: Seq<u8>) -> Option<ModuleFamily> {
    family_of_base(strip_dll(lower_bytes(module)))
}

fn family_of_stripped(b: &[u8]) -> (r: Option<ModuleFamily>)
    ensures
        r == family_of_base(b@),
{
    reveal(family_of_base);
    if bytes_eq(b, "msvcrt".as_bytes())
        || bytes_eq(b, "msvcr100".as_bytes())
        || bytes_eq(b, "msvcr110".as_bytes())
        || bytes_eq(b, "msvcr120".as_bytes())
        || bytes_eq(b, "vcruntime140".as_bytes())
        || bytes_eq(b, "ucrtbase".as_bytes())
        || bytes_eq(b, "api-ms-win-crt-runtime-l1-1-0".as_bytes())
        || bytes_eq(b, "api-ms-win-crt-heap-l1-1-0".as_bytes())
        || bytes_eq(b, "api-ms-win-crt-string-l1-1-0".as_bytes())
        || bytes_eq(b, "api-ms-win-crt-stdio-l1-1-0".as_bytes())
        || bytes_eq(b, "api-ms-win-crt-math-l1-1-0".as_bytes())
        || bytes_eq(b, "api-ms-win-crt-convert-l1-1-0".as_bytes())
        || bytes_eq(b, "api-ms-win-crt-utility-l1-1-0".as_bytes())
        || bytes_eq(b, "api-ms-win-crt-time-l1-1-0".as_bytes())
        || bytes_eq(b, "api-ms-win-crt-locale-l1-1-0".as_bytes())
        || bytes_eq(b, "api-ms-win-crt-environment-l1-1-0".as_bytes())
        || bytes_eq(b, "api-ms-win-crt-filesystem-l1-1-0".as_bytes())
        || bytes_eq(b, "api-ms-win-crt-private-l1-1-0".as_bytes()) {
        Some(ModuleFamily::Crt)
    } else if bytes_eq(b, "kernel32".as_bytes())
        || bytes_eq(b, "api-ms-win-core-heap-l1-1-0".as_bytes())
        || bytes_eq(b, "api-ms-win-core-synch-l1-1-0".as_bytes())
        || bytes_eq(b, "api-ms-win-core-synch-l1-2-0".as_bytes())
        || bytes_eq(b, "api-ms-win-core-file-l1-1-0".as_bytes())
        || bytes_eq(b, "api-ms-win-core-file-l1-2-0".as_bytes())
        || bytes_eq(b, "api-ms-win-core-file-l2-1-0".as_bytes())
        || bytes_eq(b, "api-ms-win-core-processthreads-l1-1-0".as_bytes())
        || bytes_eq(b, "api-ms-win-core-processthreads-l1-1-1".as_bytes())
        || bytes_eq(b, "api-ms-win-core-libraryloader-l1-1-0".as_bytes())
        || bytes_eq(b, "api-ms-win-core-libraryloader-l1-2-0".as_bytes())
        || bytes_eq(b, "api-ms-win-core-memory-l1-1-0".as_bytes())
        || bytes_eq(b, "api-ms-win-core-localization-l1-2-0".as_bytes())
        || bytes_eq(b, "api-ms-win-core-sysinfo-l1-1-0".as_bytes())
        || bytes_eq(b, "api-ms-win-core-errorhandling-l1-1-0".as_bytes())
        || bytes_eq(b, "api-ms-win-core-profile-l1-1-0".as_bytes())
        || bytes_eq(b, "api-ms-win-core-string-l1-1-0".as_bytes())
        || bytes_eq(b, "api-ms-win-core-debug-l1-1-0".as_bytes())
        || bytes_eq(b, "api-ms-win-core-handle-l1-1-0".as_bytes())
        || bytes_eq(b, "api-ms-win-core-fibers-l1-1-0".as_bytes())
        || bytes_eq(b, "api-ms-win-core-fibers-l1-1-1".as_bytes()) {
        Some(ModuleFamily::Kernel)
    } else if bytes_eq(b, "advapi32".as_bytes())
        || bytes_eq(b, "api-ms-win-core-registry-l1-1-0".as_bytes())
        || bytes_eq(b, "api-ms-win-security-base-l1-1-0".as_bytes()) {
        Some(ModuleFamily::Advapi)
    } else if bytes_eq(b, "ntdll".as_bytes()) {
        Some(ModuleFamily::Ntdll)
    } else if bytes_eq(b, "rpcrt4".as_bytes()) {
        Some(ModuleFamily::Rpc)
    } else {
        None
    }
}

/// Lowers the ASCII letters of a byte string.
pub fn lower_ascii_bytes(s: &[u8]) -> (r: Vec<u8>)
    ensures
        r@ == lower_bytes(s@),
{
    let mut r: Vec<u8> = Vec::new();
    let mut i: usize = 0;
    while i < s.len()
        invariant
            i <= s@.len(),
            r@ =~= lower_bytes(s@).take(i as int),
        decreases s@.len() - i,
    {
        let c = s[i];
        let l: u8 = if 65 <= c && c <= 90 {
            c + 32
        } else {
            c
        };
        r.push(l);
        i = i + 1;
    }
    assert(r@ =~= lower_bytes(s@));
    r
}

/// The length of `s` once every trailing ".dll" is removed.
fn stripped_len(s: &[u8]) -> (n: usize)
    ensures
        n <= s@.len(),
        s@.take(n as int) == strip_dll(s@),
{
    let mut n: usize = s.len();
    assert(s@.take(n as int) =~= s@);
    while n >= 4 && s[n - 4] == 46 && s[n - 3] == 100 && s[n - 2] == 108 && s[n - 1] == 108
        invariant
            n <= s@.len(),
            strip_dll(s@.take(n as int)) == strip_dll(s@),
        decreases n,
    {
        assert(s@.take(n as int).take(n - 4) =~= s@.take(n - 4));
        n = n - 4;
    }
    n
}

/// The family an import-module name belongs to, ignoring ASCII case and any
/// trailing ".dll".
pub fn module_family(module: &[u8]) -> (r: Option<ModuleFamily>)
    ensures
        r == family_of(module@),
{
    let lowered = lower_ascii_bytes(module);
    let n = stripped_len(lowered.as_slice());
    let base = prefix_of(lowered.as_slice(), n);
    family_of_stripped(base.as_slice())
}

/// ASCII upper-case letter code points mapped to lower case.
pub fn ascii_lower(c: u32) -> (r: u32)
    ensures
        r == if 'A' as u32 <= c <= 'Z' as u32 {
            c + 32
        } else {
            c as int
        },
{
    if c >= 'A' as u32 && c <= 'Z' as u32 {
        c + 32
    } else {
        c
    }
}

/// ASCII lower-case letter code points mapped to upper case.
pub fn ascii_upper(c: u32) -> (r: u32)
    ensures
        r == if 'a' as u32 <= c <= 'z' as u32 {
            c - 32
        } else {
            c as int
        },
{
    if c >= 'a' as u32 && c <= 'z' as u32 {
        c - 32
    } else {
        c
    }
}

/// One implemented symbol: its family, its name and the address of the
/// local function standing in for it.
#[derive(Debug)]
pub struct CatalogEntry {
    pub family: ModuleFamily,
    pub name: Vec<u8>,
    pub address: u64,
}

/// The table of locally implemented symbols.
pub struct ShimCatalog {
    entries: Vec<CatalogEntry>,
}

/// The address the first entry of `entries` for (`family`, `name`) carries.
pub open spec fn lookup_entries(
    entries: Seq<(ModuleFamily, Seq<u8>, u64)>,
    family: ModuleFamily,
    name: Seq<u8>,
) -> Option<u64>
    decreases entries.len(),
{
    if entries.len() == 0 {
        None
    } else if entries[0].0 == family && entries[0].1 == name {
        Some(entries[0].2)
    } else {
        lookup_entries(entries.skip(1), family, name)
    }
}

/// The address an import slot for `name` from module `module` is bound to.
pub open spec fn resolved_address(
    catalog: Seq<(ModuleFamily, Seq<u8>, u64)>,
    module: Seq<u8>,
    name: Seq<u8>,
) -> u64 {
    match family_of(module) {
        Some(f) => match lookup_entries(catalog, f, name) {
            Some(a) => a,
            None => UNRESOLVED_IMPORT,
        },
        None => UNRESOLVED_IMPORT,
    }
}

impl ShimCatalog {
    /// The entries as (family, name, address) triples, in insertion order.
    pub closed spec fn view(&self) -> Seq<(ModuleFamily, Seq<u8>, u64)> {
        Seq::new(
            self.entries@.len(),
            |i: int| (self.entries@[i].family, self.entries@[i].name@, self.entries@[i].address),
        )
    }

    /// No entry carries the null address or the unresolved sentinel.
    pub open spec fn wf(&self) -> bool {
        forall|i: int|
            0 <= i < self@.len() ==> #[trigger] self@[i].2 != 0 && self@[i].2 != UNRESOLVED_IMPORT
    }

    /// An empty catalog.
    pub fn new() -> (r: ShimCatalog)
        ensures
            r@ == Seq::<(ModuleFamily, Seq<u8>, u64)>::empty(),
            r.wf(),
    {
        let r = ShimCatalog { entries: Vec::new() };
        assert(r@ =~= Seq::<(ModuleFamily, Seq<u8>, u64)>::empty());
        r
    }

    /// Adds an implementation; an address that is null or equal to the
    /// sentinel is refused and leaves the catalog unchanged.
    pub fn add(&mut self, family: ModuleFamily, name: &[u8], address: u64) -> (r: bool)
        requires
            old(self).wf(),
        ensures
            final(self).wf(),
            r == (address != 0 && address != UNRESOLVED_IMPORT),
            r ==> final(self)@ == old(self)@.push((family, name@, address)),
            !r ==> final(self)@ == old(self)@,
    {
        if address == 0 || address == UNRESOLVED_IMPORT {
            return false;
        }
        let copy = prefix_of(name, name.len());
        assert(copy@ =~= name@);
        self.entries.push(CatalogEntry { family, name: copy, address });
        assert(self@ =~= old(self)@.push((family, name@, address)));
        true
    }

    /// The number of entries.
    pub fn len(&self) -> (r: usize)
        ensures
            r == self@.len(),
    {
        self.entries.len()
    }

    /// The address implementing (`family`, `name`), if the catalog has one.
    pub fn lookup(&self, family: ModuleFamily, name: &[u8]) -> (r: Option<u64>)
        ensures
            r == lookup_entries(self@, family, name@),
    {
        let mut i: usize = 0;
        assert(self@.skip(0) =~= self@);
        while i < self.entries.len()
            invariant
                i <= self@.len(),
                self@.len() == self.entries@.len(),
                lookup_entries(self@.skip(i as int), family, name@) == lookup_entries(
                    self@,
                    family,
                    name@,
                ),
            decreases self@.len() - i,
        {
            let e = &self.entries[i];
            assert(self@.skip(i as int)[0] == self@[i as int]);
            if e.family == family && bytes_eq(e.name.as_slice(), name) {
                return Some(e.address);
            }
            assert(self@.skip(i as int).skip(1) =~= self@.skip(i + 1));
            i = i + 1;
        }
        None
    }
}

/// The address to write into the import slot for `name` imported from
/// `module`: the catalog's implementation, or the unresolved sentinel.
pub fn resolve_import(catalog: &ShimCatalog, module: &[u8], name: &[u8]) -> (r: u64)
    ensures
        r == resolved_address(catalog@, module@, name@),
{
    match module_family(module) {
        Some(f) => match catalog.lookup(f, name) {
            Some(a) => a,
            None => UNRESOLVED_IMPORT,
        },
        None => UNRESOLVED_IMPORT,
    }
}

proof fn lemma_lookup_found_in(
    entries: Seq<(ModuleFamily, Seq<u8>, u64)>,
    family: ModuleFamily,
    name: Seq<u8>,
)
    requires
        lookup_entries(entries, family, name) is Some,
    ensures
        exists|i: int|
            0 <= i < entries.len() && entries[i].2 == lookup_entries(entries, family, name)->0,
    decreases entries.len(),
{
    if entries[0].0 == family && entries[0].1 == name {
        assert(entries[0].2 == lookup_entries(entries, family, name)->0);
    } else {
        lemma_lookup_found_in(entries.skip(1), family, name);
        let i = choose|i: int|
            0 <= i < entries.skip(1).len() && entries.skip(1)[i].2 == lookup_entries(
                entries.skip(1),
                family,
                name,
            )->0;
        assert(entries[i + 1] == entries.skip(1)[i]);
    }
}

/// A symbol the catalog does not implement is bound to the sentinel, which is
/// never null; one it implements is bound to an address that is neither null
/// nor the sentinel.
pub proof fn lemma_unresolved_binds_sentinel(catalog: &ShimCatalog, module: Seq<u8>, name: Seq<u8>)
    requires
        catalog.wf(),
    ensures
        UNRESOLVED_IMPORT != 0,
        (family_of(module) is None || lookup_entries(catalog@, family_of(module)->0, name) is None)
            ==> resolved_address(catalog@, module, name) == UNRESOLVED_IMPORT,
        (family_of(module) is Some && lookup_entries(catalog@, family_of(module)->0, name) is Some)
            ==> resolved_address(catalog@, module, name) != UNRESOLVED_IMPORT && resolved_address(
            catalog@,
            module,
            name,
        ) != 0,
{
    if family_of(module) is Some && lookup_entries(catalog@, family_of(module)->0, name) is Some {
        lemma_lookup_found_in(catalog@, family_of(module)->0, name);
    }
}

} // verus!
