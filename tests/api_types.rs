use d3dloader::blob::Blob;
use d3dloader::error::HResult;
use d3dloader::flags::CompileFlags;
use d3dloader::headers::{FileSystemInclude, IncludeHandler, IncludeType, MemoryInclude};
use d3dloader::outcome::{blob_outcome, compile_outcome, preprocess_outcome, BlobOperation, BlobPart};
use d3dloader::error::Error;
use d3dloader::target::{ShaderModel, ShaderTarget, ShaderType};

#[test]
fn test_target_strings() {
    assert_eq!(ShaderTarget::VS_5_0().as_str(), "vs_5_0");
    assert_eq!(ShaderTarget::PS_5_1().as_str(), "ps_5_1");
    assert_eq!(ShaderTarget::CS_5_0().as_str(), "cs_5_0");
    assert_eq!(ShaderTarget::GS_4_0().as_str(), "gs_4_0");
}

#[test]
fn test_shader_model_versions() {
    assert_eq!(ShaderModel::SM5_0.major(), 5);
    assert_eq!(ShaderModel::SM5_0.minor(), 0);
    assert_eq!(ShaderModel::SM5_1.major(), 5);
    assert_eq!(ShaderModel::SM5_1.minor(), 1);
}

#[test]
fn target_built_from_parts() {
    let t = ShaderTarget::new(ShaderType::Hull, ShaderModel::SM6_7);
    assert_eq!(t.as_str(), "hs_6_7");
    assert_eq!(ShaderType::Domain.prefix(), "ds");
    assert_eq!(ShaderModel::SM6_3.suffix(), "6_3");
    assert_eq!(ShaderModel::SM6_3.major(), 6);
    assert_eq!(ShaderModel::SM4_1.minor(), 1);
}

#[test]
fn test_compile_flags_combine() {
    let flags = CompileFlags::DEBUG() | CompileFlags::WARNINGS_ARE_ERRORS();
    assert!(flags.contains(CompileFlags::DEBUG()));
    assert!(flags.contains(CompileFlags::WARNINGS_ARE_ERRORS()));
    assert!(!flags.contains(CompileFlags::SKIP_OPTIMIZATION()));
}

#[test]
fn test_optimization_level() {
    let flags = CompileFlags::DEBUG().with_optimization_level(3);
    assert!(flags.contains(CompileFlags::DEBUG()));
    assert!(flags.contains(CompileFlags::OPTIMIZATION_LEVEL3()));
}

#[test]
fn optimization_level_replaces_previous_level() {
    let flags = CompileFlags::OPTIMIZATION_LEVEL2().with_optimization_level(0);
    assert_eq!(flags.bits(), 0x4000);
    assert_eq!(CompileFlags::optimization_level(1).bits(), 0);
    assert_eq!(CompileFlags::optimization_level(9).bits(), 0x8000);
    assert_eq!(CompileFlags::DEBUG().union(CompileFlags::IEEE_STRICTNESS()).bits(), 0x2001);
}

#[test]
fn test_memory_include() {
    let mut handler = MemoryInclude::new().with_file("test.hlsl", b"float x = 1.0;");

    let result = handler.open(IncludeType::Local, "test.hlsl");
    assert!(result.is_ok());
    assert_eq!(result.unwrap(), b"float x = 1.0;");

    let missing = handler.open(IncludeType::Local, "missing.hlsl");
    assert!(missing.is_err());
}

#[test]
fn memory_include_later_file_wins() {
    let mut handler = MemoryInclude::new();
    handler.add("a.hlsl", b"one");
    handler.add("a.hlsl", b"two");
    assert_eq!(handler.open(IncludeType::System, "a.hlsl").unwrap(), b"two");
    match handler.open(IncludeType::Local, "b.hlsl") {
        Err(Error::IncludeNotFound(name)) => assert_eq!(name, "b.hlsl"),
        _ => panic!("expected a not-found error"),
    }
}

#[test]
fn test_include_type() {
    assert_eq!(IncludeType::from(0), IncludeType::Local);
    assert_eq!(IncludeType::from(1), IncludeType::System);
    assert_eq!(IncludeType::from(99), IncludeType::System);
}

#[test]
fn file_system_include_keeps_search_order() {
    let mut inc = FileSystemInclude::new().with_path("shaders/include");
    inc.add_path("/usr/share/hlsl");
    let paths = inc.search_paths();
    assert_eq!(paths.len(), 2);
    assert_eq!(paths[0], "shaders/include");
    assert_eq!(paths[1], "/usr/share/hlsl");
}

#[test]
fn hresult_sign_decides_success() {
    assert!(HResult::S_OK().is_success());
    assert!(HResult::E_FAIL().is_error());
    assert_eq!(HResult::E_FAIL().code(), 0x80004005u32 as i32);
    assert_eq!(HResult::E_INVALIDARG().code(), 0x80070057u32 as i32);
    assert!(HResult(1).is_success());
}

#[test]
fn blob_text_trims_trailing_nuls() {
    let b = Blob::from_bytes(b"ps_5_0 shader\0\0".to_vec());
    assert_eq!(b.len(), 15);
    assert!(!b.is_empty());
    assert_eq!(b.as_str().unwrap(), "ps_5_0 shader");
    assert_eq!(b.to_string_lossy(), "ps_5_0 shader");
    let empty = Blob::from_bytes(vec![0, 0]);
    assert_eq!(empty.as_str().unwrap(), "");
    assert!(Blob::from_bytes(Vec::new()).is_empty());
}

#[test]
fn blob_invalid_utf8_is_an_error() {
    let b = Blob::from_bytes(vec![0x66, 0xff, 0x6f, 0]);
    assert!(matches!(b.as_str(), Err(Error::Utf8(_))));
    assert_eq!(b.to_string_lossy(), "f\u{fffd}o");
}

#[test]
fn blob_part_codes() {
    assert_eq!(BlobPart::InputSignature.code(), 0);
    assert_eq!(BlobPart::PrivateData.code(), 10);
    assert_eq!(BlobPart::DebugName.code(), 12);
}

#[test]
fn compile_failure_carries_diagnostics() {
    let errors = Blob::from_bytes(b"error X3004: undeclared identifier 'undefined_variable'\0".to_vec());
    match compile_outcome(-2147467259, None, Some(errors)) {
        Err(Error::Compilation { hresult, message }) => {
            assert_eq!(hresult.code(), -2147467259);
            assert!(message.contains("undeclared"));
        }
        _ => panic!("expected a compilation error"),
    }
}

#[test]
fn compile_failure_without_text_names_status() {
    match compile_outcome(-2147467259, None, Some(Blob::from_bytes(vec![0]))) {
        Err(Error::Compilation { message, .. }) => {
            assert_eq!(message, "Unknown error (HRESULT: 0x80004005)")
        }
        _ => panic!("expected a compilation error"),
    }
    match compile_outcome(0, None, None) {
        Err(Error::Compilation { message, .. }) => {
            assert_eq!(message, "No bytecode returned from compiler")
        }
        _ => panic!("expected a compilation error"),
    }
}

#[test]
fn compile_success_keeps_bytecode_and_warnings() {
    let code = Blob::from_bytes(b"DXBC1234".to_vec());
    let warn = Blob::from_bytes(b"warning X3206\0".to_vec());
    let r = compile_outcome(0, Some(code), Some(warn)).unwrap();
    assert_eq!(&r.bytecode.as_bytes()[0..4], b"DXBC");
    assert_eq!(r.warnings.as_deref(), Some("warning X3206"));
    let r2 = compile_outcome(0, Some(Blob::from_bytes(b"DXBC".to_vec())), None).unwrap();
    assert!(r2.warnings.is_none());
}

#[test]
fn same_outcome_for_same_call() {
    let a = compile_outcome(-1, None, Some(Blob::from_bytes(b"bad\0".to_vec())));
    let b = compile_outcome(-1, None, Some(Blob::from_bytes(b"bad\0".to_vec())));
    match (a, b) {
        (
            Err(Error::Compilation { hresult: h1, message: m1 }),
            Err(Error::Compilation { hresult: h2, message: m2 }),
        ) => {
            assert_eq!(h1, h2);
            assert_eq!(m1, m2);
        }
        _ => panic!("expected two compilation errors"),
    }
}

#[test]
fn preprocess_outcomes() {
    let r = preprocess_outcome(0, Some(Blob::from_bytes(b"float4 x = 3.14159;".to_vec())), None).unwrap();
    assert_eq!(r.source.to_string_lossy(), "float4 x = 3.14159;");
    match preprocess_outcome(0, None, None) {
        Err(Error::Preprocessing { message, .. }) => assert_eq!(message, "No output from preprocessor"),
        _ => panic!("expected a preprocessing error"),
    }
}

#[test]
fn single_buffer_outcomes() {
    assert!(matches!(
        blob_outcome(BlobOperation::GetBlobPart, 5, Some(Blob::from_bytes(vec![1]))),
        Err(Error::GetBlobPart { hresult: HResult(5) })
    ));
    assert!(matches!(
        blob_outcome(BlobOperation::StripShader, 0, None),
        Err(Error::StripShader { hresult: HResult(0) })
    ));
    let ok = blob_outcome(BlobOperation::Disassemble, 0, Some(Blob::from_bytes(b"ps_5_0".to_vec()))).unwrap();
    assert_eq!(ok.as_bytes(), b"ps_5_0");
}
