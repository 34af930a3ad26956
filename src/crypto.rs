//! The hash-context table behind the image's crypto imports
//! (create / update / read / destroy), with SHA-1 as the digest.

use vstd::prelude::*;
use crate::handles::{HandleTable, CRYPTO_HANDLE_BASE};
use crate::bytes::prefix_of;
use sha1::{Digest, Sha1};

verus! {

/// The SHA-1 digest of a byte string.
pub uninterp spec fn sha1_of(data: Seq<u8>) -> Seq<u8>;

/// Relies on the `sha1` crate: `Sha1::digest` of the bytes, twenty bytes long.
#[verifier::external_body]
fn sha1_digest(data: &[u8]) -> (r: Vec<u8>)
    ensures
        r@ == sha1_of(data@),
        r@.len() == 20,
{
    Sha1::digest(data).to_vec()
}

/// Parameter code: the digest value.
pub const HP_HASHVAL: u32 = 2;

/// Parameter code: the digest size.
pub const HP_HASHSIZE: u32 = 4;

/// Length of a SHA-1 digest.
pub const DIGEST_LEN: u32 = 20;

/// The data fed to one hash context so far, and the algorithm asked for.
pub struct HashContext {
    pub data: Vec<u8>,
    pub alg: u32,
}

/// What a parameter read returns: the status (1 success, 0 failure), the
/// bytes to copy out, and the length to report back, if one is reported.
pub struct HashParam {
    pub status: i32,
    pub bytes: Option<Vec<u8>>,
    pub len_out: Option<u32>,
}

/// Live hash contexts by handle.
pub struct HashContexts {
    table: HandleTable<HashContext>,
}

impl HashContexts {
    /// Live handles with (data so far, algorithm).
    pub closed spec fn view(&self) -> Map<usize, (Seq<u8>, u32)> {
        Map::new(
            |h: usize| self.table@.contains_key(h),
            |h: usize| (self.table@[h].data@, self.table@[h].alg),
        )
    }

    /// The handle the next context receives.
    pub closed spec fn next_handle(&self) -> u32 {
        self.table.next_handle()
    }

    /// The table's own invariant holds.
    pub closed spec fn wf(&self) -> bool {
        self.table.wf()
    }

    /// No live context; handles start at the crypto base.
    pub fn new() -> (r: HashContexts)
        ensures
            r.wf(),
            r.next_handle() == CRYPTO_HANDLE_BASE,
            r@ == Map::<usize, (Seq<u8>, u32)>::empty(),
    {
        let r = HashContexts { table: HandleTable::new(CRYPTO_HANDLE_BASE) };
        assert(r@ =~= Map::<usize, (Seq<u8>, u32)>::empty());
        r
    }

    /// Opens a context for `alg` with no data; none once handles run out.
    pub fn create(&mut self, alg: u32) -> (r: Option<usize>)
        requires
            old(self).wf(),
        ensures
            final(self).wf(),
            match r {
                Some(h) => !old(self)@.contains_key(h) && final(self)@ == old(self)@.insert(
                    h,
                    (Seq::<u8>::empty(), alg),
                ),
                None => final(self)@ == old(self)@,
            },
            r is None <==> old(self).next_handle() == u32::MAX,
            r is Some ==> r->0 == old(self).next_handle(),
    {
        let r = self.table.allocate(HashContext { data: Vec::new(), alg });
        proof {
            match r {
                Some(h) => {
                    assert(self@ =~= old(self)@.insert(h, (Seq::<u8>::empty(), alg)));
                },
                None => {
                    assert(self@ =~= old(self)@);
                },
            }
        }
        r
    }

    /// Appends `bytes` to a live context's data; false for an unknown
    /// handle, which changes nothing.
    pub fn update(&mut self, handle: usize, bytes: &[u8]) -> (r: bool)
        requires
            old(self).wf(),
        ensures
            final(self).wf(),
            r == old(self)@.contains_key(handle),
            r ==> final(self)@ == old(self)@.insert(
                handle,
                (old(self)@[handle].0 + bytes@, old(self)@[handle].1),
            ),
            !r ==> final(self)@ == old(self)@,
    {
        match self.table.free(handle) {
            Some(ctx) => {
                let mut data = ctx.data;
                let ghost d0 = data@;
                let mut i: usize = 0;
                while i < bytes.len()
                    invariant
                        i <= bytes@.len(),
                        data@ == d0 + bytes@.take(i as int),
                    decreases bytes@.len() - i,
                {
                    data.push(bytes[i]);
                    assert(d0 + bytes@.take(i + 1) =~= (d0 + bytes@.take(i as int)).push(bytes@[i as int]));
                    i = i + 1;
                }
                assert(bytes@.take(bytes@.len() as int) =~= bytes@);
                self.table.put_back(handle, HashContext { data, alg: ctx.alg });
                assert(self@ =~= old(self)@.insert(handle, (d0 + bytes@, ctx.alg)));
                true
            },
            None => false,
        }
    }

    /// Reads a parameter of a live context into a destination of
    /// `available` bytes: the digest of the data so far, or its size.
    pub fn get_param(&self, handle: usize, param: u32, available: u32) -> (r: HashParam)
        ensures
            !self@.contains_key(handle) ==> r.status == 0 && r.bytes is None && r.len_out is None,
            self@.contains_key(handle) && param == HP_HASHVAL ==> if available >= DIGEST_LEN {
                r.status == 1 && r.bytes is Some && r.bytes->0@ == sha1_of(self@[handle].0)
                    && r.len_out == Some(DIGEST_LEN)
            } else {
                r.status == 0 && r.bytes is None && r.len_out == Some(DIGEST_LEN)
            },
            self@.contains_key(handle) && param == HP_HASHSIZE ==> if available >= 4 {
                r.status == 1 && r.bytes is Some && r.bytes->0@ == seq![20u8, 0, 0, 0]
                    && r.len_out == Some(4u32)
            } else {
                r.status == 0 && r.bytes is None && r.len_out is None
            },
            self@.contains_key(handle) && param != HP_HASHVAL && param != HP_HASHSIZE ==> r.status
                == 0 && r.bytes is None && r.len_out is None,
    {
        match self.table.get(handle) {
            Some(ctx) => {
                if param == HP_HASHVAL {
                    if available >= DIGEST_LEN {
                        let d = sha1_digest(ctx.data.as_slice());
                        HashParam { status: 1, bytes: Some(d), len_out: Some(DIGEST_LEN) }
                    } else {
                        HashParam { status: 0, bytes: None, len_out: Some(DIGEST_LEN) }
                    }
                } else if param == HP_HASHSIZE {
                    if available >= 4 {
                        let mut b: Vec<u8> = Vec::new();
                        b.push(20);
                        b.push(0);
                        b.push(0);
                        b.push(0);
                        assert(b@ =~= seq![20u8, 0, 0, 0]);
                        HashParam { status: 1, bytes: Some(b), len_out: Some(4) }
                    } else {
                        HashParam { status: 0, bytes: None, len_out: None }
                    }
                } else {
                    HashParam { status: 0, bytes: None, len_out: None }
                }
            },
            None => HashParam { status: 0, bytes: None, len_out: None },
        }
    }

    /// Closes a context; an unknown handle changes nothing. The status is
    /// success either way.
    pub fn destroy(&mut self, handle: usize) -> (r: i32)
        requires
            old(self).wf(),
        ensures
            final(self).wf(),
            r == 1,
            final(self)@ == old(self)@.remove(handle),
    {
        let _ = self.table.free(handle);
        assert(self@ =~= old(self)@.remove(handle));
        1
    }
}

} // verus!
