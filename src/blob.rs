//! Byte buffers returned by the compiler entry points.

use vstd::prelude::*;
use vstd::utf8::{decode_utf8, valid_utf8};
use vstd::string::StringSliceAdditionalSpecFns;
use vstd::slice::slice_subrange;
use crate::error::Error;

verus! {

/// The text `String::from_utf8_lossy` makes of a byte string.
pub uninterp spec fn lossy_text(b: Seq<u8>) -> Seq<char>;

/// Relies on `std::str::from_utf8`: it succeeds exactly on valid UTF-8 and
/// then views the same bytes.
#[verifier::external_body]
fn utf8_text(b: &[u8]) -> (r: Result<&str, String>)
    ensures
        match r {
            Ok(s) => valid_utf8(b@) && s.spec_bytes() == b@,
            Err(_) => !valid_utf8(b@),
        },
{
    std::str::from_utf8(b).map_err(|e| e.to_string())
}

/// Relies on `String::from_utf8_lossy`: valid UTF-8 is decoded unchanged.
#[verifier::external_body]
fn lossy_string(b: &[u8]) -> (r: String)
    ensures
        r@ == lossy_text(b@),
        valid_utf8(b@) ==> r@ == decode_utf8(b@),
{
    String::from_utf8_lossy(b).into_owned()
}

/// `b` without its trailing NUL bytes.
pub open spec fn trim_nuls(b: Seq<u8>) -> Seq<u8>
    decreases b.len(),
{
    if b.len() > 0 && b.last() == 0 {
        trim_nuls(b.drop_last())
    } else {
        b
    }
}

/// The bytes a compiler call handed back.
#[derive(Debug)]
pub struct Blob {
    data: Vec<u8>,
}

impl Blob {
    /// The contents.
    pub closed spec fn view(&self) -> Seq<u8> {
        self.data@
    }

    /// A blob holding `data`.
    pub fn from_bytes(data: Vec<u8>) -> (r: Blob)
        ensures
            r@ == data@,
    {
        Blob { data }
    }

    /// The contents.
    pub fn as_bytes(&self) -> (r: &[u8])
        ensures
            r@ == self@,
    {
        self.data.as_slice()
    }

    /// The number of bytes.
    pub fn len(&self) -> (r: usize)
        ensures
            r == self@.len(),
    {
        self.data.len()
    }

    /// True when the blob holds no byte.
    pub fn is_empty(&self) -> (r: bool)
        ensures
            r == (self@.len() == 0),
    {
        self.len() == 0
    }

    fn trimmed(&self) -> (r: &[u8])
        ensures
            r@ == trim_nuls(self@),
    {
        let mut n: usize = self.data.len();
        assert(self.data@.take(n as int) =~= self.data@);
        while n > 0 && self.data[n - 1] == 0
            invariant
                n <= self.data@.len(),
                trim_nuls(self.data@.take(n as int)) == trim_nuls(self.data@),
            decreases n,
        {
            assert(self.data@.take(n as int).drop_last() =~= self.data@.take(n - 1));
            n = n - 1;
        }
        let r = slice_subrange(self.data.as_slice(), 0, n);
        assert(r@ =~= self.data@.take(n as int));
        r
    }

    /// The contents up to the last non-NUL byte, as UTF-8 text.
    pub fn as_str(&self) -> (r: Result<&str, Error>)
        ensures
            match r {
                Ok(s) => valid_utf8(trim_nuls(self@)) && s@ == decode_utf8(trim_nuls(self@)),
                Err(e) => !valid_utf8(trim_nuls(self@)) && e is Utf8,
            },
    {
        let t = self.trimmed();
        match utf8_text(t) {
            Ok(s) => {
                proof {
                    vstd::utf8::encode_utf8_decode_utf8(s@);
                }
                Ok(s)
            },
            Err(m) => Err(Error::Utf8(m)),
        }
    }

    /// The contents up to the last non-NUL byte, with invalid UTF-8 replaced.
    pub fn to_string_lossy(&self) -> (r: String)
        ensures
            r@ == lossy_text(trim_nuls(self@)),
            valid_utf8(trim_nuls(self@)) ==> r@ == decode_utf8(trim_nuls(self@)),
    {
        let t = self.trimmed();
        lossy_string(t)
    }
}

} // verus!
