//! The decisions inside the compatibility shims: how the image's arguments
//! map onto host requests and how host results map back onto the return
//! conventions the image expects. The shims themselves only move values
//! between these functions and the host.

use vstd::prelude::*;
use crate::imports::{ascii_lower, ascii_upper};
use uuid::Uuid;

verus! {

/// How a file is opened.
#[derive(Debug, Clone, Copy, PartialEq, Eq, Structural)]
pub enum Access {
    ReadOnly,
    WriteOnly,
    ReadWrite,
}

/// A host open request.
#[derive(Debug, Clone, Copy, PartialEq, Eq, Structural)]
pub struct OpenMode {
    pub access: Access,
    pub create: bool,
    pub exclusive: bool,
    pub truncate: bool,
}

/// Access right: read.
pub const GENERIC_READ: u32 = 0x8000_0000;

/// Access right: write.
pub const GENERIC_WRITE: u32 = 0x4000_0000;

/// The open request for a desired access and creation disposition.
pub open spec fn open_mode_of(access: u32, disposition: u32) -> OpenMode {
    let read = access & GENERIC_READ != 0;
    let write = access & GENERIC_WRITE != 0;
    OpenMode {
        access: if read && write {
            Access::ReadWrite
        } else if write {
            Access::WriteOnly
        } else {
            Access::ReadOnly
        },
        create: disposition == 1 || disposition == 2 || disposition == 4,
        exclusive: disposition == 1,
        truncate: disposition == 2 || disposition == 5,
    }
}

/// Maps a desired access and creation disposition (1 create new, 2 create
/// always, 3 open existing, 4 open always, 5 truncate existing) onto a host
/// open request.
pub fn open_mode(access: u32, disposition: u32) -> (r: OpenMode)
    ensures
        r == open_mode_of(access, disposition),
{
    let read = access & GENERIC_READ != 0;
    let write = access & GENERIC_WRITE != 0;
    let a = if read && write {
        Access::ReadWrite
    } else if write {
        Access::WriteOnly
    } else {
        Access::ReadOnly
    };
    OpenMode {
        access: a,
        create: disposition == 1 || disposition == 2 || disposition == 4,
        exclusive: disposition == 1,
        truncate: disposition == 2 || disposition == 5,
    }
}

/// Where a seek counts from.
#[derive(Debug, Clone, Copy, PartialEq, Eq, Structural)]
pub enum SeekOrigin {
    Start,
    Current,
    End,
}

/// The origin a move method names; unknown methods count from the start.
pub fn seek_origin(method: u32) -> (r: SeekOrigin)
    ensures
        r == if method == 1 {
            SeekOrigin::Current
        } else if method == 2 {
            SeekOrigin::End
        } else {
            SeekOrigin::Start
        },
{
    if method == 1 {
        SeekOrigin::Current
    } else if method == 2 {
        SeekOrigin::End
    } else {
        SeekOrigin::Start
    }
}

/// A 64-bit seek distance from its low half and, when given, its high half.
pub fn seek_distance(low: i32, high: Option<i32>) -> (r: i64)
    ensures
        r == match high {
            None => low as int,
            Some(h) => h as int * 0x1_0000_0000 + (low as u32) as int,
        },
{
    match high {
        None => low as i64,
        Some(h) => {
            let r = (h as i64) * 0x1_0000_0000 + (low as u32) as i64;
            r
        },
    }
}

/// Host protection for a requested page protection.
#[derive(Debug, Clone, Copy, PartialEq, Eq, Structural)]
pub struct PageAccess {
    pub read: bool,
    pub write: bool,
    pub execute: bool,
}

/// Maps a page-protection code (0x02 read, 0x04 read/write, 0x10 and 0x20
/// execute/read, 0x40 execute/read/write) onto host protection; any other
/// code means read/write.
pub fn page_access(protect: u32) -> (r: PageAccess)
    ensures
        r == if protect == 0x02 {
            PageAccess { read: true, write: false, execute: false }
        } else if protect == 0x10 || protect == 0x20 {
            PageAccess { read: true, write: false, execute: true }
        } else if protect == 0x40 {
            PageAccess { read: true, write: true, execute: true }
        } else {
            PageAccess { read: true, write: true, execute: false }
        },
{
    if protect == 0x02 {
        PageAccess { read: true, write: false, execute: false }
    } else if protect == 0x10 || protect == 0x20 {
        PageAccess { read: true, write: false, execute: true }
    } else if protect == 0x40 {
        PageAccess { read: true, write: true, execute: true }
    } else {
        PageAccess { read: true, write: true, execute: false }
    }
}

/// Whether a processor feature is reported present: SSE2 (10) and fast
/// fail (23) are.
pub fn processor_feature_present(feature: u32) -> (r: i32)
    ensures
        r == if feature == 10 || feature == 23 {
            1i32
        } else {
            0i32
        },
{
    if feature == 10 || feature == 23 {
        1
    } else {
        0
    }
}

/// Attribute bits for an existing path: directory (0x10) or normal (0x80).
pub fn file_attributes(is_directory: bool) -> (r: u32)
    ensures
        r == if is_directory {
            0x10u32
        } else {
            0x80u32
        },
{
    if is_directory {
        0x10
    } else {
        0x80
    }
}

/// A wide character narrowed: ASCII kept, anything else becomes '?'.
pub open spec fn narrow(c: u16) -> u8 {
    if c < 128 {
        c as u8
    } else {
        63
    }
}

/// Narrows wide characters one by one, keeping ASCII and writing '?' for the
/// rest.
pub fn narrow_chars(src: &[u16]) -> (r: Vec<u8>)
    ensures
        r@ == Seq::new(src@.len(), |i: int| narrow(src@[i])),
{
    let mut r: Vec<u8> = Vec::new();
    let mut i: usize = 0;
    while i < src.len()
        invariant
            i <= src@.len(),
            r@ =~= Seq::new(i as nat, |k: int| narrow(src@[k])),
        decreases src@.len() - i,
    {
        let c = src[i];
        r.push(if c < 128 {
            c as u8
        } else {
            63
        });
        i = i + 1;
    }
    r
}

/// Widens bytes one by one.
pub fn widen_chars(src: &[u8]) -> (r: Vec<u16>)
    ensures
        r@ == Seq::new(src@.len(), |i: int| src@[i] as u16),
{
    let mut r: Vec<u16> = Vec::new();
    let mut i: usize = 0;
    while i < src.len()
        invariant
            i <= src@.len(),
            r@ =~= Seq::new(i as nat, |k: int| src@[k] as u16),
        decreases src@.len() - i,
    {
        r.push(src[i] as u16);
        i = i + 1;
    }
    r
}

/// The number of characters a conversion reports: the source length when
/// the destination size is 0 (a size query), else the smaller of the two.
pub fn converted_len(src_len: i32, dest_len: i32) -> (r: i32)
    ensures
        r == if dest_len == 0 {
            src_len
        } else if src_len <= dest_len {
            src_len
        } else {
            dest_len
        },
{
    if dest_len == 0 {
        src_len
    } else if src_len <= dest_len {
        src_len
    } else {
        dest_len
    }
}

/// Map flag: to lower case.
pub const LCMAP_LOWERCASE: u32 = 0x100;

/// Map flag: to upper case.
pub const LCMAP_UPPERCASE: u32 = 0x200;

/// A wide character mapped by the case flags (ASCII only); lower case wins
/// when both are given.
pub open spec fn map_case(c: u16, flags: u32) -> u16 {
    if flags & LCMAP_LOWERCASE != 0 && 65 <= c <= 90 {
        (c + 32) as u16
    } else if flags & LCMAP_LOWERCASE == 0 && flags & LCMAP_UPPERCASE != 0 && 97 <= c <= 122 {
        (c - 32) as u16
    } else {
        c
    }
}

/// Maps wide characters through the case flags.
pub fn map_string(src: &[u16], flags: u32) -> (r: Vec<u16>)
    ensures
        r@ == Seq::new(src@.len(), |i: int| map_case(src@[i], flags)),
{
    let mut r: Vec<u16> = Vec::new();
    let mut i: usize = 0;
    while i < src.len()
        invariant
            i <= src@.len(),
            r@ =~= Seq::new(i as nat, |k: int| map_case(src@[k], flags)),
        decreases src@.len() - i,
    {
        let c = src[i];
        let m: u16 = if flags & LCMAP_LOWERCASE != 0 {
            ascii_lower(c as u32) as u16
        } else if flags & LCMAP_UPPERCASE != 0 {
            ascii_upper(c as u32) as u16
        } else {
            c
        };
        r.push(m);
        i = i + 1;
    }
    r
}

/// The unit at `i`, or the terminator past the end.
pub open spec fn unit_at(s: Seq<u16>, i: int) -> u16 {
    if 0 <= i < s.len() {
        s[i]
    } else {
        0
    }
}

/// A unit as compared: ASCII upper case folded to lower case when asked.
pub open spec fn folded(c: u16, fold: bool) -> int {
    if fold && 65 <= c <= 90 {
        c + 32
    } else {
        c as int
    }
}

/// The comparison of two terminated wide strings over positions `i` to
/// `n`: the difference at the first position where they differ, 0 when a
/// terminator or position `n` is reached first.
pub open spec fn compare_from(a: Seq<u16>, b: Seq<u16>, i: int, n: int, fold: bool) -> int
    decreases n - i,
{
    if i >= n {
        0
    } else {
        let c1 = folded(unit_at(a, i), fold);
        let c2 = folded(unit_at(b, i), fold);
        if c1 != c2 {
            c1 - c2
        } else if c1 == 0 {
            0
        } else {
            compare_from(a, b, i + 1, n, fold)
        }
    }
}

/// Compares two wide strings over at most `n` positions, ASCII case folded
/// when `fold` is set; a string ends at its first 0 or at the end of its
/// slice.
pub fn wide_compare(a: &[u16], b: &[u16], n: usize, fold: bool) -> (r: i32)
    ensures
        r == compare_from(a@, b@, 0, n as int, fold),
{
    let mut i: usize = 0;
    while i < n
        invariant
            i <= n,
            compare_from(a@, b@, i as int, n as int, fold) == compare_from(a@, b@, 0, n as int, fold),
        decreases n - i,
    {
        let u1: u16 = if i < a.len() {
            a[i]
        } else {
            0
        };
        let u2: u16 = if i < b.len() {
            b[i]
        } else {
            0
        };
        let c1: i32 = if fold && 65 <= u1 && u1 <= 90 {
            u1 as i32 + 32
        } else {
            u1 as i32
        };
        let c2: i32 = if fold && 65 <= u2 && u2 <= 90 {
            u2 as i32 + 32
        } else {
            u2 as i32
        };
        if c1 != c2 {
            return c1 - c2;
        }
        if c1 == 0 {
            return 0;
        }
        i = i + 1;
    }
    0
}

/// Seconds between 1601-01-01 and 1970-01-01, in 100 ns units.
pub const FILETIME_EPOCH_OFFSET: u64 = 116444736000000000;

/// A host time (seconds and microseconds since 1970) in 100 ns units since
/// 1601, modulo 2^64.
pub fn file_time(sec: u64, usec: u64) -> (r: u64)
    ensures
        r == (sec * 10_000_000 + usec * 10 + FILETIME_EPOCH_OFFSET) % 0x1_0000_0000_0000_0000,
{
    let a = sec.wrapping_mul(10_000_000);
    let b = usec.wrapping_mul(10);
    let r = a.wrapping_add(b).wrapping_add(FILETIME_EPOCH_OFFSET);
    assert(r == (sec * 10_000_000 + usec * 10 + FILETIME_EPOCH_OFFSET) % 0x1_0000_0000_0000_0000)
        by (nonlinear_arith)
        requires
            a == (sec * 10_000_000) % 0x1_0000_0000_0000_0000,
            b == (usec * 10) % 0x1_0000_0000_0000_0000,
            r == ((a + b) % 0x1_0000_0000_0000_0000 + FILETIME_EPOCH_OFFSET)
                % 0x1_0000_0000_0000_0000,
    ;
    r
}

/// Stack bounds guessed from an address on the current stack: 8 MiB either
/// side, rounded down to a page, modulo 2^64.
pub fn stack_bounds(sp: u64) -> (r: (u64, u64))
    ensures
        r.0 == (((sp + 0x80_0000) % 0x1_0000_0000_0000_0000) as u64) & !0xFFFu64,
        r.1 == (((sp - 0x80_0000) % 0x1_0000_0000_0000_0000) as u64) & !0xFFFu64,
{
    (sp.wrapping_add(0x80_0000) & !0xFFF, sp.wrapping_sub(0x80_0000) & !0xFFF)
}

/// The status of a registry open or query: always "not found" (2), since
/// the image only probes optional configuration.
pub fn registry_status() -> (r: i32)
    ensures
        r == 2,
{
    2
}

/// Relies on uuid's `Uuid::new_v4`: random bytes except that the version
/// nibble is 4 and the variant bits are those of RFC 4122.
#[verifier::external_body]
fn random_uuid() -> (r: [u8; 16])
    ensures
        r@.len() == 16,
        r@[6] >> 4u8 == 4,
        r@[8] >> 6u8 == 2,
{
    *Uuid::new_v4().as_bytes()
}

/// A fresh random identifier and the success status (0).
pub fn uuid_create() -> (r: ([u8; 16], i32))
    ensures
        r.1 == 0,
        r.0@[6] >> 4u8 == 4,
        r.0@[8] >> 6u8 == 2,
{
    (random_uuid(), 0)
}

/// Size of a captured processor context.
pub const CONTEXT_SIZE: usize = 1232;

/// A captured processor context, as the unwind imports see it.
#[derive(Debug)]
pub struct CONTEXT {
    pub data: Vec<u8>,
}

impl CONTEXT {
    /// The context a capture reports: all zero, since nothing is unwound.
    pub fn captured() -> (r: CONTEXT)
        ensures
            r.data@ == Seq::new(CONTEXT_SIZE as nat, |i: int| 0u8),
    {
        let mut data: Vec<u8> = Vec::new();
        let mut i: usize = 0;
        while i < CONTEXT_SIZE
            invariant
                i <= CONTEXT_SIZE,
                data@ =~= Seq::new(i as nat, |k: int| 0u8),
            decreases CONTEXT_SIZE - i,
        {
            data.push(0);
            i = i + 1;
        }
        CONTEXT { data }
    }
}

/// One entry of an image's function table, as the unwind imports see it.
#[derive(Debug, Clone, Copy, PartialEq, Eq, Structural)]
pub struct RUNTIME_FUNCTION {
    pub BeginAddress: u32,
    pub EndAddress: u32,
    pub UnwindData: u32,
}

} // verus!
