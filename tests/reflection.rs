use d3dloader::reflect::{
    Member,
    ComponentType, ConstantBuffer, ConstantBufferDesc, ConstantBufferType, ResourceBinding,
    ResourceDimension, ResourceReturnType, ResourceType, ShaderReflection, ShaderTypeClass,
    ShaderVariableType, SignatureParameter, SystemValueType, TypeDesc, TypeInfo, Variable,
    VariableDesc, D3D11_SHADER_BUFFER_DESC, D3D11_SHADER_INPUT_BIND_DESC,
    D3D11_SHADER_TYPE_DESC, D3D11_SHADER_VARIABLE_DESC, D3D11_SIGNATURE_PARAMETER_DESC,
};

fn param(name: &str, mask: u8, sv: u32) -> SignatureParameter {
    let raw = D3D11_SIGNATURE_PARAMETER_DESC {
        SemanticIndex: 0,
        Register: 1,
        SystemValueType: sv,
        ComponentType: 3,
        Mask: mask,
        ..Default::default()
    };
    SignatureParameter::from_raw(&raw, name.to_string())
}

fn binding(name: &str, ty: u32) -> ResourceBinding {
    let raw = D3D11_SHADER_INPUT_BIND_DESC { Type: ty, BindPoint: 2, BindCount: 1, ReturnType: 5, Dimension: 4, ..Default::default() };
    ResourceBinding::from_raw(&raw, name.to_string())
}

#[test]
fn raw_codes_decode() {
    assert_eq!(ResourceType::from_u32(2), ResourceType::Texture);
    assert_eq!(ResourceType::from_u32(77), ResourceType::CBuffer);
    assert_eq!(ResourceReturnType::from_u32(0), ResourceReturnType::Float);
    assert_eq!(ResourceDimension::from_u32(9), ResourceDimension::TextureCube);
    assert_eq!(SystemValueType::from_u32(64), SystemValueType::Target);
    assert_eq!(SystemValueType::from_u32(17), SystemValueType::Undefined);
    assert_eq!(ComponentType::from_u32(3), ComponentType::Float32);
    assert_eq!(ShaderTypeClass::from_u32(5), ShaderTypeClass::Struct);
    assert_eq!(ShaderVariableType::from_u32(57), ShaderVariableType::Min16Uint);
    assert_eq!(ShaderVariableType::from_u32(58), ShaderVariableType::Void);
    assert_eq!(ConstantBufferType::from_u32(1), ConstantBufferType::TextureBuffer);
}

#[test]
fn signature_elements() {
    let p = param("SV_POSITION", 0b1111, 1);
    assert_eq!(p.component_count(), 4);
    assert!(p.is_system_value());
    assert_eq!(p.component_type, ComponentType::Float32);
    let t = param("TEXCOORD", 0b0011, 0);
    assert_eq!(t.component_count(), 2);
    assert!(!t.is_system_value());
}

#[test]
fn binding_kinds() {
    assert!(binding("cb", 0).is_constant_buffer());
    assert!(binding("tex", 2).is_texture());
    assert!(binding("samp", 3).is_sampler());
    assert!(binding("uav", 4).is_uav());
    assert!(binding("rw", 11).is_uav());
    assert!(!binding("sb", 5).is_uav());
    assert_eq!(binding("tex", 2).dimension, ResourceDimension::Texture2D);
}

#[test]
fn type_and_variable_accessors() {
    let raw = D3D11_SHADER_TYPE_DESC { Class: 3, Type: 3, Rows: 4, Columns: 4, Elements: 0, Members: 0, Offset: 0, Name: 0 };
    let t = TypeInfo::new(Some(TypeDesc::from_raw(&raw, "float4x4".to_string())), Vec::new());
    assert_eq!(t.class(), ShaderTypeClass::MatrixColumns);
    assert_eq!(t.var_type(), ShaderVariableType::Float);
    assert_eq!((t.rows(), t.columns(), t.elements(), t.member_count()), (4, 4, 0, 0));
    let unknown = TypeInfo::new(None, Vec::new());
    assert_eq!(unknown.class(), ShaderTypeClass::Scalar);
    assert_eq!(unknown.var_type(), ShaderVariableType::Void);
    let vraw = D3D11_SHADER_VARIABLE_DESC { StartOffset: 16, Size: 64, DefaultValue: 0x1000, ..Default::default() };
    let v = Variable::new(Some(VariableDesc::from_raw(&vraw, "worldViewProj".to_string())));
    assert_eq!(v.name(), "worldViewProj");
    assert_eq!((v.offset(), v.size()), (16, 64));
    assert!(v.desc.as_ref().unwrap().has_default_value);
    assert_eq!(Variable::new(None).name(), "");
}

#[test]
fn struct_members_iterate_to_reported_count() {
    let sraw = D3D11_SHADER_TYPE_DESC { Class: 5, Type: 0, Rows: 1, Columns: 2, Elements: 0, Members: 3, Offset: 0, Name: 0 };
    let fraw = D3D11_SHADER_TYPE_DESC { Class: 1, Type: 3, Rows: 1, Columns: 4, Elements: 0, Members: 0, Offset: 0, Name: 0 };
    let member = |n: &str| Member {
        name: n.to_string(),
        type_info: TypeInfo::new(Some(TypeDesc::from_raw(&fraw, "float4".to_string())), Vec::new()),
    };
    let s = TypeInfo::new(Some(TypeDesc::from_raw(&sraw, "Light".to_string())), vec![member("color"), member("dir")]);
    assert_eq!(s.class(), ShaderTypeClass::Struct);
    let mut it = s.members();
    assert_eq!(it.next().unwrap().name, "color");
    let d = it.next().unwrap();
    assert_eq!(d.name, "dir");
    assert_eq!(d.type_info.columns(), 4);
    assert!(it.next().is_none());
    assert!(it.next().is_none());
    assert_eq!(it.index, 3);
}

#[test]
fn constant_buffers_and_reflection() {
    let craw = D3D11_SHADER_BUFFER_DESC { Type: 0, Variables: 1, Size: 64, ..Default::default() };
    let vraw = D3D11_SHADER_VARIABLE_DESC { Size: 64, ..Default::default() };
    let cb = ConstantBuffer::new(
        Some(ConstantBufferDesc::from_raw(&craw, "Constants".to_string())),
        vec![Variable::new(Some(VariableDesc::from_raw(&vraw, "m".to_string())))],
    );
    assert_eq!(cb.name(), "Constants");
    assert_eq!((cb.size(), cb.variable_count()), (64, 1));
    assert_eq!(cb.buffer_type(), ConstantBufferType::ConstantBuffer);
    let mut vars = cb.variables();
    assert_eq!(vars.next().unwrap().name(), "m");
    assert!(vars.next().is_none());

    let refl = ShaderReflection {
        desc: None,
        constant_buffers: vec![cb],
        inputs: vec![param("POSITION", 7, 0), param("TEXCOORD", 3, 0)],
        outputs: vec![param("SV_POSITION", 15, 1)],
        bindings: vec![binding("tex", 2), binding("samp", 3), binding("tex", 3)],
    };
    assert!(refl.constant_buffers().next().is_none());
    assert_eq!(refl.input_parameter(1).unwrap().semantic_name, "TEXCOORD");
    assert!(refl.input_parameter(2).is_none());
    assert_eq!(refl.output_parameter(0).unwrap().component_count(), 4);
    assert_eq!(refl.resource_binding(1).unwrap().name, "samp");
    assert!(refl.resource_binding_by_name("tex").unwrap().is_texture());
    assert!(refl.resource_binding_by_name("none").is_none());
    assert!(refl.input_parameters().next().is_none());
    assert!(refl.output_parameters().next().is_none());
    assert!(refl.resource_bindings().next().is_none());
}
