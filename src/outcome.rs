//! How the API layer turns what a compiler entry point handed back (a status
//! code and up to two byte buffers) into a result.

use vstd::prelude::*;
use vstd::string::StringExecFns;
use crate::blob::{lossy_text, trim_nuls, Blob};
use crate::error::{Error, HResult};

verus! {

/// Parts of compiled bytecode that can be read or replaced.
#[derive(Debug, Clone, Copy, PartialEq, Eq, Hash, Structural)]
pub enum BlobPart {
    InputSignature,
    OutputSignature,
    InputAndOutputSignature,
    PatchConstantSignature,
    AllSignatures,
    DebugInfo,
    LegacyShader,
    XnaPrepassShader,
    XnaShader,
    Pdb,
    PrivateData,
    RootSignature,
    DebugName,
}

impl BlobPart {
    /// The part's code in the compiler's numbering.
    pub fn code(&self) -> (r: u32)
        ensures
            r == match *self {
                BlobPart::InputSignature => 0u32,
                BlobPart::OutputSignature => 1,
                BlobPart::InputAndOutputSignature => 2,
                BlobPart::PatchConstantSignature => 3,
                BlobPart::AllSignatures => 4,
                BlobPart::DebugInfo => 5,
                BlobPart::LegacyShader => 6,
                BlobPart::XnaPrepassShader => 7,
                BlobPart::XnaShader => 8,
                BlobPart::Pdb => 9,
                BlobPart::PrivateData => 10,
                BlobPart::RootSignature => 11,
                BlobPart::DebugName => 12,
            },
    {
        match self {
            BlobPart::InputSignature => 0,
            BlobPart::OutputSignature => 1,
            BlobPart::InputAndOutputSignature => 2,
            BlobPart::PatchConstantSignature => 3,
            BlobPart::AllSignatures => 4,
            BlobPart::DebugInfo => 5,
            BlobPart::LegacyShader => 6,
            BlobPart::XnaPrepassShader => 7,
            BlobPart::XnaShader => 8,
            BlobPart::Pdb => 9,
            BlobPart::PrivateData => 10,
            BlobPart::RootSignature => 11,
            BlobPart::DebugName => 12,
        }
    }
}

/// One preprocessor definition handed to the compiler: the addresses of its
/// NUL-terminated name and value; a pair of zeros ends the list.
#[derive(Debug, Clone, Copy, PartialEq, Eq, Structural)]
pub struct D3D_SHADER_MACRO {
    pub Name: u64,
    pub Definition: u64,
}

/// Result of a successful compilation.
#[derive(Debug)]
pub struct CompileResult {
    pub bytecode: Blob,
    pub warnings: Option<String>,
}

/// Result of a successful preprocessing run.
#[derive(Debug)]
pub struct PreprocessResult {
    pub source: Blob,
    pub warnings: Option<String>,
}

/// The lowercase hexadecimal digit for `d` below 16.
pub open spec fn hex_char(d: u32) -> char {
    if d < 10 {
        ('0' as u32 + d) as char
    } else {
        ('a' as u32 + d - 10) as char
    }
}

/// `v` as eight lowercase hexadecimal digits, most significant first.
pub open spec fn hex8(v: u32) -> Seq<char> {
    Seq::new(8, |i: int| hex_char(((v >> (4 * (7 - i)) as u32) & 0xf) as u32))
}

/// The message that stands in for an empty diagnostic buffer.
pub open spec fn unknown_error_text(status: i32) -> Seq<char> {
    "Unknown error (HRESULT: 0x"@ + hex8(status as u32) + ")"@
}

fn hex_digit(d: u32) -> (r: &'static str)
    requires
        d < 16,
    ensures
        r@ == seq![hex_char(d)],
{
    proof {
            reveal_strlit("0");
            reveal_strlit("1");
            reveal_strlit("2");
            reveal_strlit("3");
            reveal_strlit("4");
            reveal_strlit("5");
            reveal_strlit("6");
            reveal_strlit("7");
            reveal_strlit("8");
            reveal_strlit("9");
            reveal_strlit("a");
            reveal_strlit("b");
            reveal_strlit("c");
            reveal_strlit("d");
            reveal_strlit("e");
            reveal_strlit("f");
    }
    match d {
            0 => "0",
            1 => "1",
            2 => "2",
            3 => "3",
            4 => "4",
            5 => "5",
            6 => "6",
            7 => "7",
            8 => "8",
            9 => "9",
            10 => "a",
            11 => "b",
            12 => "c",
            13 => "d",
            14 => "e",
            15 => "f",
            _ => "f",
    }
}

/// Text of the form "Unknown error (HRESULT: 0x8000ffff)".
pub fn unknown_error_message(status: i32) -> (r: String)
    ensures
        r@ == unknown_error_text(status),
{
    let v = status as u32;
    let mut s = String::from_str("Unknown error (HRESULT: 0x");
    let ghost start = s@;
    let mut i: u32 = 0;
    while i < 8
        invariant
            i <= 8,
            s@ == start + hex8(v).take(i as int),
        decreases 8 - i,
    {
        let sh: u32 = 4 * (7 - i);
        let d = (v >> sh) & 0xf;
        assert(d < 16) by (bit_vector)
            requires
                d == (v >> sh) & 0xf,
        ;
        let ghost before = s@;
        s = s.concat(hex_digit(d));
        assert(hex8(v).take(i + 1) =~= hex8(v).take(i as int).push(hex_char(d)));
        assert(s@ =~= before.push(hex_char(d)));
        i = i + 1;
    }
    assert(hex8(v).take(8) =~= hex8(v));
    s.concat(")")
}

/// The diagnostic text of a buffer, when it has any.
pub open spec fn diagnostic_text(errors: Option<Seq<u8>>) -> Option<Seq<char>> {
    match errors {
        Some(b) => if lossy_text(trim_nuls(b)).len() > 0 {
            Some(lossy_text(trim_nuls(b)))
        } else {
            None
        },
        None => None,
    }
}

fn diagnostic(errors: &Option<Blob>) -> (r: Option<String>)
    ensures
        match r {
            Some(s) => diagnostic_text(match *errors {
                Some(b) => Some(b@),
                None => None,
            }) == Some(s@),
            None => diagnostic_text(match *errors {
                Some(b) => Some(b@),
                None => None,
            }) is None,
        },
{
    match errors {
        Some(b) => {
            let s = b.to_string_lossy();
            if !s.as_str().is_empty() {
                Some(s)
            } else {
                None
            }
        },
        None => None,
    }
}

/// The status a call through the bridge reports and the message it carries.
pub open spec fn call_outcome(status: i32, out_present: bool, errors: Option<Seq<u8>>) -> (
    i32,
    Option<Seq<char>>,
) {
    if status != 0 {
        (
            status,
            Some(
                match diagnostic_text(errors) {
                    Some(t) => t,
                    None => unknown_error_text(status),
                },
            ),
        )
    } else if !out_present {
        (status, None)
    } else {
        (status, diagnostic_text(errors))
    }
}

/// The contents of an optional buffer.
pub open spec fn blob_view(b: Option<Blob>) -> Option<Seq<u8>> {
    match b {
        Some(x) => Some(x@),
        None => None,
    }
}

/// `r` is what the compile entry point's status, bytecode buffer and
/// diagnostic buffer turn into.
pub open spec fn compile_result_matches(
    status: i32,
    code: Option<Seq<u8>>,
    errors: Option<Seq<u8>>,
    r: Result<CompileResult, Error>,
) -> bool {
    match r {
        Ok(c) => status == 0 && code == Some(c.bytecode@) && match c.warnings {
            Some(w) => diagnostic_text(errors) == Some(w@),
            None => diagnostic_text(errors) is None,
        },
        Err(Error::Compilation { hresult, message }) => hresult.0 == status && (status != 0
            && Some(message@) == call_outcome(status, code is Some, errors).1 || status == 0
            && code is None && message@ == "No bytecode returned from compiler"@),
        Err(_) => false,
    }
}

/// Two compile calls that got the same status and buffers back report the
/// same status and the same text, and succeed or fail together.
pub proof fn lemma_compile_outcome_deterministic(
    status: i32,
    code: Option<Seq<u8>>,
    errors: Option<Seq<u8>>,
    r1: Result<CompileResult, Error>,
    r2: Result<CompileResult, Error>,
)
    requires
        compile_result_matches(status, code, errors, r1),
        compile_result_matches(status, code, errors, r2),
    ensures
        r1 is Ok <==> r2 is Ok,
        r1 is Ok ==> r1->Ok_0.bytecode@ == r2->Ok_0.bytecode@ && match (
            r1->Ok_0.warnings,
            r2->Ok_0.warnings,
        ) {
            (Some(a), Some(b)) => a@ == b@,
            (None, None) => true,
            _ => false,
        },
        r1 is Err ==> match (r1->Err_0, r2->Err_0) {
            (
                Error::Compilation { hresult: h1, message: m1 },
                Error::Compilation { hresult: h2, message: m2 },
            ) => h1 == h2 && m1@ == m2@,
            _ => false,
        },
{
}

/// Turns what the compile entry point handed back into a result: a non-zero
/// status fails with the diagnostic text (or a stand-in naming the status);
/// success without bytecode fails too; otherwise the bytecode comes with any
/// warning text.
pub fn compile_outcome(status: i32, code: Option<Blob>, errors: Option<Blob>) -> (r: Result<
    CompileResult,
    Error,
>)
    ensures
        compile_result_matches(status, blob_view(code), blob_view(errors), r),
{
    let text = diagnostic(&errors);
    if status != 0 {
        let message = match text {
            Some(t) => t,
            None => unknown_error_message(status),
        };
        return Err(Error::Compilation { hresult: HResult(status), message });
    }
    match code {
        Some(bytecode) => Ok(CompileResult { bytecode, warnings: text }),
        None => Err(
            Error::Compilation {
                hresult: HResult(status),
                message: String::from_str("No bytecode returned from compiler"),
            },
        ),
    }
}

/// Turns what the preprocess entry point handed back into a result, as
/// `compile_outcome` does for compilation.
pub fn preprocess_outcome(status: i32, code: Option<Blob>, errors: Option<Blob>) -> (r: Result<
    PreprocessResult,
    Error,
>)
    ensures
        ({
            let ev = match errors {
                Some(b) => Some(b@),
                None => None,
            };
            match r {
                Ok(c) => status == 0 && code is Some && c.source@ == code->0@ && match c.warnings {
                    Some(w) => diagnostic_text(ev) == Some(w@),
                    None => diagnostic_text(ev) is None,
                },
                Err(Error::Preprocessing { hresult, message }) => hresult.0 == status && (status
                    != 0 && Some(message@) == call_outcome(status, code is Some, ev).1 || status
                    == 0 && code is None && message@ == "No output from preprocessor"@),
                Err(_) => false,
            }
        }),
{
    let text = diagnostic(&errors);
    if status != 0 {
        let message = match text {
            Some(t) => t,
            None => unknown_error_message(status),
        };
        return Err(Error::Preprocessing { hresult: HResult(status), message });
    }
    match code {
        Some(source) => Ok(PreprocessResult { source, warnings: text }),
        None => Err(
            Error::Preprocessing {
                hresult: HResult(status),
                message: String::from_str("No output from preprocessor"),
            },
        ),
    }
}

/// The entry points that hand back a single buffer.
#[derive(Debug, Clone, Copy, PartialEq, Eq, Structural)]
pub enum BlobOperation {
    Disassemble,
    StripShader,
    GetBlobPart,
    SetBlobPart,
    CreateBlob,
}

/// The error a failed single-buffer call reports.
pub open spec fn operation_error(op: BlobOperation, status: i32) -> Error {
    match op {
        BlobOperation::Disassemble => Error::Disassembly { hresult: HResult(status) },
        BlobOperation::StripShader => Error::StripShader { hresult: HResult(status) },
        BlobOperation::GetBlobPart => Error::GetBlobPart { hresult: HResult(status) },
        BlobOperation::SetBlobPart => Error::SetBlobPart { hresult: HResult(status) },
        BlobOperation::CreateBlob => Error::CreateBlob { hresult: HResult(status) },
    }
}

/// Turns a single-buffer call's status and buffer into a result: the buffer
/// when the status is zero and a buffer came back, else the operation's error
/// carrying the status.
pub fn blob_outcome(op: BlobOperation, status: i32, out: Option<Blob>) -> (r: Result<Blob, Error>)
    ensures
        match r {
            Ok(b) => status == 0 && out is Some && b@ == out->0@,
            Err(e) => (status != 0 || out is None) && e == operation_error(op, status),
        },
{
    let err = match op {
        BlobOperation::Disassemble => Error::Disassembly { hresult: HResult(status) },
        BlobOperation::StripShader => Error::StripShader { hresult: HResult(status) },
        BlobOperation::GetBlobPart => Error::GetBlobPart { hresult: HResult(status) },
        BlobOperation::SetBlobPart => Error::SetBlobPart { hresult: HResult(status) },
        BlobOperation::CreateBlob => Error::CreateBlob { hresult: HResult(status) },
    };
    if status != 0 {
        return Err(err);
    }
    match out {
        Some(b) => Ok(b),
        None => Err(err),
    }
}

} // verus!
