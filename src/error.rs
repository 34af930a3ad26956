//! Status codes and the error type of the compiler API.

use vstd::prelude::*;

verus! {

/// A status code in the foreign image's convention: negative means failure.
#[derive(Clone, Copy, Debug, PartialEq, Eq, Hash, Structural)]
pub struct HResult(pub i32);

impl HResult {
    #[allow(non_snake_case)]
    pub fn S_OK() -> (r: HResult)
        ensures
            r == (HResult(0)),
    {
        HResult(0)
    }

    #[allow(non_snake_case)]
    pub fn E_FAIL() -> (r: HResult)
        ensures
            r.0 == -2147467259,
    {
        HResult(-2147467259i32)
    }

    #[allow(non_snake_case)]
    pub fn E_INVALIDARG() -> (r: HResult)
        ensures
            r.0 == -2147024809,
    {
        HResult(-2147024809i32)
    }

    /// The code reports success.
    pub fn is_success(&self) -> (r: bool)
        ensures
            r == (self.0 >= 0),
    {
        self.0 >= 0
    }

    /// The code reports an error.
    pub fn is_error(&self) -> (r: bool)
        ensures
            r == (self.0 < 0),
    {
        self.0 < 0
    }

    /// The raw code.
    pub fn code(&self) -> (r: i32)
        ensures
            r == self.0,
    {
        self.0
    }
}

/// Failures of the compiler API.
#[derive(Debug)]
pub enum Error {
    Compilation { hresult: HResult, message: String },
    Preprocessing { hresult: HResult, message: String },
    Disassembly { hresult: HResult },
    Reflection { hresult: HResult },
    StripShader { hresult: HResult },
    GetBlobPart { hresult: HResult },
    SetBlobPart { hresult: HResult },
    CreateBlob { hresult: HResult },
    InvalidParameter(String),
    Utf8(String),
    IncludeNotFound(String),
    Io(String),
}

} // verus!
