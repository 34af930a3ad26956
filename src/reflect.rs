//! Shader reflection records: the descriptors the compiler reports about a
//! compiled shader, decoded into typed values.

use vstd::prelude::*;
use crate::bytes::str_eq;

verus! {

/// Kind of a bound resource.
#[derive(Debug, Clone, Copy, PartialEq, Eq, Structural)]
pub enum ResourceType {
    CBuffer,
    TBuffer,
    Texture,
    Sampler,
    UavRwTyped,
    Structured,
    UavRwStructured,
    ByteAddress,
    UavRwByteAddress,
    UavAppendStructured,
    UavConsumeStructured,
    UavRwStructuredWithCounter,
}

/// The resource kind a raw code names; unknown codes read as a constant
/// buffer.
pub open spec fn resource_type_of(v: u32) -> ResourceType {
    if v == 1 {
        ResourceType::TBuffer
    } else if v == 2 {
        ResourceType::Texture
    } else if v == 3 {
        ResourceType::Sampler
    } else if v == 4 {
        ResourceType::UavRwTyped
    } else if v == 5 {
        ResourceType::Structured
    } else if v == 6 {
        ResourceType::UavRwStructured
    } else if v == 7 {
        ResourceType::ByteAddress
    } else if v == 8 {
        ResourceType::UavRwByteAddress
    } else if v == 9 {
        ResourceType::UavAppendStructured
    } else if v == 10 {
        ResourceType::UavConsumeStructured
    } else if v == 11 {
        ResourceType::UavRwStructuredWithCounter
    } else {
        ResourceType::CBuffer
    }
}

impl ResourceType {
    /// Decodes a raw resource kind.
    pub fn from_u32(v: u32) -> (r: ResourceType)
        ensures
            r == resource_type_of(v),
    {
        match v {
            1 => ResourceType::TBuffer,
            2 => ResourceType::Texture,
            3 => ResourceType::Sampler,
            4 => ResourceType::UavRwTyped,
            5 => ResourceType::Structured,
            6 => ResourceType::UavRwStructured,
            7 => ResourceType::ByteAddress,
            8 => ResourceType::UavRwByteAddress,
            9 => ResourceType::UavAppendStructured,
            10 => ResourceType::UavConsumeStructured,
            11 => ResourceType::UavRwStructuredWithCounter,
            _ => ResourceType::CBuffer,
        }
    }
}

/// Element type a resource returns.
#[derive(Debug, Clone, Copy, PartialEq, Eq, Structural)]
pub enum ResourceReturnType {
    Unorm,
    Snorm,
    Sint,
    Uint,
    Float,
    Mixed,
    Double,
    Continued,
}

/// The return type a raw code names; unknown codes read as float.
pub open spec fn return_type_of(v: u32) -> ResourceReturnType {
    if v == 1 {
        ResourceReturnType::Unorm
    } else if v == 2 {
        ResourceReturnType::Snorm
    } else if v == 3 {
        ResourceReturnType::Sint
    } else if v == 4 {
        ResourceReturnType::Uint
    } else if v == 6 {
        ResourceReturnType::Mixed
    } else if v == 7 {
        ResourceReturnType::Double
    } else if v == 8 {
        ResourceReturnType::Continued
    } else {
        ResourceReturnType::Float
    }
}

impl ResourceReturnType {
    /// Decodes a raw return type.
    pub fn from_u32(v: u32) -> (r: ResourceReturnType)
        ensures
            r == return_type_of(v),
    {
        match v {
            1 => ResourceReturnType::Unorm,
            2 => ResourceReturnType::Snorm,
            3 => ResourceReturnType::Sint,
            4 => ResourceReturnType::Uint,
            6 => ResourceReturnType::Mixed,
            7 => ResourceReturnType::Double,
            8 => ResourceReturnType::Continued,
            _ => ResourceReturnType::Float,
        }
    }
}

/// Dimensionality of a resource.
#[derive(Debug, Clone, Copy, PartialEq, Eq, Structural)]
pub enum ResourceDimension {
    Unknown,
    Buffer,
    Texture1D,
    Texture1DArray,
    Texture2D,
    Texture2DArray,
    Texture2DMs,
    Texture2DMsArray,
    Texture3D,
    TextureCube,
    TextureCubeArray,
    BufferEx,
}

/// The dimension a raw code names; unknown codes read as unknown.
pub open spec fn dimension_of(v: u32) -> ResourceDimension {
    if v == 1 {
        ResourceDimension::Buffer
    } else if v == 2 {
        ResourceDimension::Texture1D
    } else if v == 3 {
        ResourceDimension::Texture1DArray
    } else if v == 4 {
        ResourceDimension::Texture2D
    } else if v == 5 {
        ResourceDimension::Texture2DArray
    } else if v == 6 {
        ResourceDimension::Texture2DMs
    } else if v == 7 {
        ResourceDimension::Texture2DMsArray
    } else if v == 8 {
        ResourceDimension::Texture3D
    } else if v == 9 {
        ResourceDimension::TextureCube
    } else if v == 10 {
        ResourceDimension::TextureCubeArray
    } else if v == 11 {
        ResourceDimension::BufferEx
    } else {
        ResourceDimension::Unknown
    }
}

impl ResourceDimension {
    /// Decodes a raw dimension.
    pub fn from_u32(v: u32) -> (r: ResourceDimension)
        ensures
            r == dimension_of(v),
    {
        match v {
            1 => ResourceDimension::Buffer,
            2 => ResourceDimension::Texture1D,
            3 => ResourceDimension::Texture1DArray,
            4 => ResourceDimension::Texture2D,
            5 => ResourceDimension::Texture2DArray,
            6 => ResourceDimension::Texture2DMs,
            7 => ResourceDimension::Texture2DMsArray,
            8 => ResourceDimension::Texture3D,
            9 => ResourceDimension::TextureCube,
            10 => ResourceDimension::TextureCubeArray,
            11 => ResourceDimension::BufferEx,
            _ => ResourceDimension::Unknown,
        }
    }
}

/// Raw resource-binding descriptor as the compiler fills it; `name` is the
/// address of its NUL-terminated name.
#[derive(Debug, Clone, Copy, Default)]
pub struct D3D11_SHADER_INPUT_BIND_DESC {
    pub Name: u64,
    pub Type: u32,
    pub BindPoint: u32,
    pub BindCount: u32,
    pub uFlags: u32,
    pub ReturnType: u32,
    pub Dimension: u32,
    pub NumSamples: u32,
}

/// A resource bound to a shader.
#[derive(Debug)]
pub struct ResourceBinding {
    pub name: String,
    pub resource_type: ResourceType,
    pub bind_point: u32,
    pub bind_count: u32,
    pub flags: u32,
    pub return_type: ResourceReturnType,
    pub dimension: ResourceDimension,
    pub num_samples: u32,
}

impl ResourceBinding {
    /// Decodes a raw descriptor whose name has been read as `name`.
    pub fn from_raw(raw: &D3D11_SHADER_INPUT_BIND_DESC, name: String) -> (r: ResourceBinding)
        ensures
            r.name == name,
            r.resource_type == resource_type_of(raw.Type),
            r.bind_point == raw.BindPoint,
            r.bind_count == raw.BindCount,
            r.flags == raw.uFlags,
            r.return_type == return_type_of(raw.ReturnType),
            r.dimension == dimension_of(raw.Dimension),
            r.num_samples == raw.NumSamples,
    {
        ResourceBinding {
            name,
            resource_type: ResourceType::from_u32(raw.Type),
            bind_point: raw.BindPoint,
            bind_count: raw.BindCount,
            flags: raw.uFlags,
            return_type: ResourceReturnType::from_u32(raw.ReturnType),
            dimension: ResourceDimension::from_u32(raw.Dimension),
            num_samples: raw.NumSamples,
        }
    }

    /// A field-for-field copy.
    pub fn copy(&self) -> (r: ResourceBinding)
        ensures
            r == *self,
    {
        ResourceBinding {
            name: self.name.clone(),
            resource_type: self.resource_type,
            bind_point: self.bind_point,
            bind_count: self.bind_count,
            flags: self.flags,
            return_type: self.return_type,
            dimension: self.dimension,
            num_samples: self.num_samples,
        }
    }

    /// The resource is a constant buffer.
    pub fn is_constant_buffer(&self) -> (r: bool)
        ensures
            r == (self.resource_type == ResourceType::CBuffer),
    {
        self.resource_type == ResourceType::CBuffer
    }

    /// The resource is a texture.
    pub fn is_texture(&self) -> (r: bool)
        ensures
            r == (self.resource_type == ResourceType::Texture),
    {
        self.resource_type == ResourceType::Texture
    }

    /// The resource is a sampler.
    pub fn is_sampler(&self) -> (r: bool)
        ensures
            r == (self.resource_type == ResourceType::Sampler),
    {
        self.resource_type == ResourceType::Sampler
    }

    /// The resource is an unordered-access view.
    pub fn is_uav(&self) -> (r: bool)
        ensures
            r == (self.resource_type == ResourceType::UavRwTyped || self.resource_type
                == ResourceType::UavRwStructured || self.resource_type
                == ResourceType::UavRwByteAddress || self.resource_type
                == ResourceType::UavAppendStructured || self.resource_type
                == ResourceType::UavConsumeStructured || self.resource_type
                == ResourceType::UavRwStructuredWithCounter),
    {
        match self.resource_type {
            ResourceType::UavRwTyped | ResourceType::UavRwStructured
            | ResourceType::UavRwByteAddress | ResourceType::UavAppendStructured
            | ResourceType::UavConsumeStructured | ResourceType::UavRwStructuredWithCounter => true,
            _ => false,
        }
    }
}

/// System value a signature element carries.
#[derive(Debug, Clone, Copy, PartialEq, Eq, Structural)]
pub enum SystemValueType {
    Undefined,
    Position,
    ClipDistance,
    CullDistance,
    RenderTargetArrayIndex,
    ViewportArrayIndex,
    VertexId,
    PrimitiveId,
    InstanceId,
    IsFrontFace,
    SampleIndex,
    FinalQuadEdgeTessFactor,
    FinalQuadInsideTessFactor,
    FinalTriEdgeTessFactor,
    FinalTriInsideTessFactor,
    FinalLineDetailTessFactor,
    FinalLineDensityTessFactor,
    Target,
    Depth,
    Coverage,
    DepthGreaterEqual,
    DepthLessEqual,
}

/// The system value a raw code names; unknown codes read as undefined.
pub open spec fn system_value_of(v: u32) -> SystemValueType {
    if v == 1 {
        SystemValueType::Position
    } else if v == 2 {
        SystemValueType::ClipDistance
    } else if v == 3 {
        SystemValueType::CullDistance
    } else if v == 4 {
        SystemValueType::RenderTargetArrayIndex
    } else if v == 5 {
        SystemValueType::ViewportArrayIndex
    } else if v == 6 {
        SystemValueType::VertexId
    } else if v == 7 {
        SystemValueType::PrimitiveId
    } else if v == 8 {
        SystemValueType::InstanceId
    } else if v == 9 {
        SystemValueType::IsFrontFace
    } else if v == 10 {
        SystemValueType::SampleIndex
    } else if v == 11 {
        SystemValueType::FinalQuadEdgeTessFactor
    } else if v == 12 {
        SystemValueType::FinalQuadInsideTessFactor
    } else if v == 13 {
        SystemValueType::FinalTriEdgeTessFactor
    } else if v == 14 {
        SystemValueType::FinalTriInsideTessFactor
    } else if v == 15 {
        SystemValueType::FinalLineDetailTessFactor
    } else if v == 16 {
        SystemValueType::FinalLineDensityTessFactor
    } else if v == 64 {
        SystemValueType::Target
    } else if v == 65 {
        SystemValueType::Depth
    } else if v == 66 {
        SystemValueType::Coverage
    } else if v == 67 {
        SystemValueType::DepthGreaterEqual
    } else if v == 68 {
        SystemValueType::DepthLessEqual
    } else {
        SystemValueType::Undefined
    }
}

impl SystemValueType {
    /// Decodes a raw code.
    pub fn from_u32(v: u32) -> (r: SystemValueType)
        ensures
            r == system_value_of(v),
    {
        match v {
            1 => SystemValueType::Position,
            2 => SystemValueType::ClipDistance,
            3 => SystemValueType::CullDistance,
            4 => SystemValueType::RenderTargetArrayIndex,
            5 => SystemValueType::ViewportArrayIndex,
            6 => SystemValueType::VertexId,
            7 => SystemValueType::PrimitiveId,
            8 => SystemValueType::InstanceId,
            9 => SystemValueType::IsFrontFace,
            10 => SystemValueType::SampleIndex,
            11 => SystemValueType::FinalQuadEdgeTessFactor,
            12 => SystemValueType::FinalQuadInsideTessFactor,
            13 => SystemValueType::FinalTriEdgeTessFactor,
            14 => SystemValueType::FinalTriInsideTessFactor,
            15 => SystemValueType::FinalLineDetailTessFactor,
            16 => SystemValueType::FinalLineDensityTessFactor,
            64 => SystemValueType::Target,
            65 => SystemValueType::Depth,
            66 => SystemValueType::Coverage,
            67 => SystemValueType::DepthGreaterEqual,
            68 => SystemValueType::DepthLessEqual,
            _ => SystemValueType::Undefined,
        }
    }
}

/// Scalar type of a signature element.
#[derive(Debug, Clone, Copy, PartialEq, Eq, Structural)]
pub enum ComponentType {
    Unknown,
    Uint32,
    Sint32,
    Float32,
}

/// The component type a raw code names; unknown codes read as unknown.
pub open spec fn component_type_of(v: u32) -> ComponentType {
    if v == 1 {
        ComponentType::Uint32
    } else if v == 2 {
        ComponentType::Sint32
    } else if v == 3 {
        ComponentType::Float32
    } else {
        ComponentType::Unknown
    }
}

impl ComponentType {
    /// Decodes a raw code.
    pub fn from_u32(v: u32) -> (r: ComponentType)
        ensures
            r == component_type_of(v),
    {
        match v {
            1 => ComponentType::Uint32,
            2 => ComponentType::Sint32,
            3 => ComponentType::Float32,
            _ => ComponentType::Unknown,
        }
    }
}

/// Class of a shader type.
#[derive(Debug, Clone, Copy, PartialEq, Eq, Structural)]
pub enum ShaderTypeClass {
    Scalar,
    Vector,
    MatrixRows,
    MatrixColumns,
    Object,
    Struct,
    InterfaceClass,
    InterfacePointer,
}

/// The class a raw code names; unknown codes read as scalar.
pub open spec fn type_class_of(v: u32) -> ShaderTypeClass {
    if v == 1 {
        ShaderTypeClass::Vector
    } else if v == 2 {
        ShaderTypeClass::MatrixRows
    } else if v == 3 {
        ShaderTypeClass::MatrixColumns
    } else if v == 4 {
        ShaderTypeClass::Object
    } else if v == 5 {
        ShaderTypeClass::Struct
    } else if v == 6 {
        ShaderTypeClass::InterfaceClass
    } else if v == 7 {
        ShaderTypeClass::InterfacePointer
    } else {
        ShaderTypeClass::Scalar
    }
}

impl ShaderTypeClass {
    /// Decodes a raw code.
    pub fn from_u32(v: u32) -> (r: ShaderTypeClass)
        ensures
            r == type_class_of(v),
    {
        match v {
            1 => ShaderTypeClass::Vector,
            2 => ShaderTypeClass::MatrixRows,
            3 => ShaderTypeClass::MatrixColumns,
            4 => ShaderTypeClass::Object,
            5 => ShaderTypeClass::Struct,
            6 => ShaderTypeClass::InterfaceClass,
            7 => ShaderTypeClass::InterfacePointer,
            _ => ShaderTypeClass::Scalar,
        }
    }
}

/// Type of a shader variable.
#[derive(Debug, Clone, Copy, PartialEq, Eq, Structural)]
pub enum ShaderVariableType {
    Void,
    Bool,
    Int,
    Float,
    String,
    Texture,
    Texture1D,
    Texture2D,
    Texture3D,
    TextureCube,
    Sampler,
    Sampler1D,
    Sampler2D,
    Sampler3D,
    SamplerCube,
    PixelShader,
    VertexShader,
    PixelFragment,
    VertexFragment,
    Uint,
    Uint8,
    GeometryShader,
    Rasterizer,
    DepthStencil,
    Blend,
    Buffer,
    CBuffer,
    TBuffer,
    Texture1DArray,
    Texture2DArray,
    RenderTargetView,
    DepthStencilView,
    Texture2DMs,
    Texture2DMsArray,
    TextureCubeArray,
    HullShader,
    DomainShader,
    InterfacePointer,
    ComputeShader,
    Double,
    RwTexture1D,
    RwTexture1DArray,
    RwTexture2D,
    RwTexture2DArray,
    RwTexture3D,
    RwBuffer,
    ByteAddressBuffer,
    RwByteAddressBuffer,
    StructuredBuffer,
    RwStructuredBuffer,
    AppendStructuredBuffer,
    ConsumeStructuredBuffer,
    Min8Float,
    Min10Float,
    Min16Float,
    Min12Int,
    Min16Int,
    Min16Uint,
}

/// The variable type a raw code names; codes above 57 read as void.
pub open spec fn variable_type_of(v: u32) -> ShaderVariableType {
    if v == 1 {
        ShaderVariableType::Bool
    } else if v == 2 {
        ShaderVariableType::Int
    } else if v == 3 {
        ShaderVariableType::Float
    } else if v == 4 {
        ShaderVariableType::String
    } else if v == 5 {
        ShaderVariableType::Texture
    } else if v == 6 {
        ShaderVariableType::Texture1D
    } else if v == 7 {
        ShaderVariableType::Texture2D
    } else if v == 8 {
        ShaderVariableType::Texture3D
    } else if v == 9 {
        ShaderVariableType::TextureCube
    } else if v == 10 {
        ShaderVariableType::Sampler
    } else if v == 11 {
        ShaderVariableType::Sampler1D
    } else if v == 12 {
        ShaderVariableType::Sampler2D
    } else if v == 13 {
        ShaderVariableType::Sampler3D
    } else if v == 14 {
        ShaderVariableType::SamplerCube
    } else if v == 15 {
        ShaderVariableType::PixelShader
    } else if v == 16 {
        ShaderVariableType::VertexShader
    } else if v == 17 {
        ShaderVariableType::PixelFragment
    } else if v == 18 {
        ShaderVariableType::VertexFragment
    } else if v == 19 {
        ShaderVariableType::Uint
    } else if v == 20 {
        ShaderVariableType::Uint8
    } else if v == 21 {
        ShaderVariableType::GeometryShader
    } else if v == 22 {
        ShaderVariableType::Rasterizer
    } else if v == 23 {
        ShaderVariableType::DepthStencil
    } else if v == 24 {
        ShaderVariableType::Blend
    } else if v == 25 {
        ShaderVariableType::Buffer
    } else if v == 26 {
        ShaderVariableType::CBuffer
    } else if v == 27 {
        ShaderVariableType::TBuffer
    } else if v == 28 {
        ShaderVariableType::Texture1DArray
    } else if v == 29 {
        ShaderVariableType::Texture2DArray
    } else if v == 30 {
        ShaderVariableType::RenderTargetView
    } else if v == 31 {
        ShaderVariableType::DepthStencilView
    } else if v == 32 {
        ShaderVariableType::Texture2DMs
    } else if v == 33 {
        ShaderVariableType::Texture2DMsArray
    } else if v == 34 {
        ShaderVariableType::TextureCubeArray
    } else if v == 35 {
        ShaderVariableType::HullShader
    } else if v == 36 {
        ShaderVariableType::DomainShader
    } else if v == 37 {
        ShaderVariableType::InterfacePointer
    } else if v == 38 {
        ShaderVariableType::ComputeShader
    } else if v == 39 {
        ShaderVariableType::Double
    } else if v == 40 {
        ShaderVariableType::RwTexture1D
    } else if v == 41 {
        ShaderVariableType::RwTexture1DArray
    } else if v == 42 {
        ShaderVariableType::RwTexture2D
    } else if v == 43 {
        ShaderVariableType::RwTexture2DArray
    } else if v == 44 {
        ShaderVariableType::RwTexture3D
    } else if v == 45 {
        ShaderVariableType::RwBuffer
    } else if v == 46 {
        ShaderVariableType::ByteAddressBuffer
    } else if v == 47 {
        ShaderVariableType::RwByteAddressBuffer
    } else if v == 48 {
        ShaderVariableType::StructuredBuffer
    } else if v == 49 {
        ShaderVariableType::RwStructuredBuffer
    } else if v == 50 {
        ShaderVariableType::AppendStructuredBuffer
    } else if v == 51 {
        ShaderVariableType::ConsumeStructuredBuffer
    } else if v == 52 {
        ShaderVariableType::Min8Float
    } else if v == 53 {
        ShaderVariableType::Min10Float
    } else if v == 54 {
        ShaderVariableType::Min16Float
    } else if v == 55 {
        ShaderVariableType::Min12Int
    } else if v == 56 {
        ShaderVariableType::Min16Int
    } else if v == 57 {
        ShaderVariableType::Min16Uint
    } else {
        ShaderVariableType::Void
    }
}

impl ShaderVariableType {
    /// Decodes a raw code.
    pub fn from_u32(v: u32) -> (r: ShaderVariableType)
        ensures
            r == variable_type_of(v),
    {
        match v {
            1 => ShaderVariableType::Bool,
            2 => ShaderVariableType::Int,
            3 => ShaderVariableType::Float,
            4 => ShaderVariableType::String,
            5 => ShaderVariableType::Texture,
            6 => ShaderVariableType::Texture1D,
            7 => ShaderVariableType::Texture2D,
            8 => ShaderVariableType::Texture3D,
            9 => ShaderVariableType::TextureCube,
            10 => ShaderVariableType::Sampler,
            11 => ShaderVariableType::Sampler1D,
            12 => ShaderVariableType::Sampler2D,
            13 => ShaderVariableType::Sampler3D,
            14 => ShaderVariableType::SamplerCube,
            15 => ShaderVariableType::PixelShader,
            16 => ShaderVariableType::VertexShader,
            17 => ShaderVariableType::PixelFragment,
            18 => ShaderVariableType::VertexFragment,
            19 => ShaderVariableType::Uint,
            20 => ShaderVariableType::Uint8,
            21 => ShaderVariableType::GeometryShader,
            22 => ShaderVariableType::Rasterizer,
            23 => ShaderVariableType::DepthStencil,
            24 => ShaderVariableType::Blend,
            25 => ShaderVariableType::Buffer,
            26 => ShaderVariableType::CBuffer,
            27 => ShaderVariableType::TBuffer,
            28 => ShaderVariableType::Texture1DArray,
            29 => ShaderVariableType::Texture2DArray,
            30 => ShaderVariableType::RenderTargetView,
            31 => ShaderVariableType::DepthStencilView,
            32 => ShaderVariableType::Texture2DMs,
            33 => ShaderVariableType::Texture2DMsArray,
            34 => ShaderVariableType::TextureCubeArray,
            35 => ShaderVariableType::HullShader,
            36 => ShaderVariableType::DomainShader,
            37 => ShaderVariableType::InterfacePointer,
            38 => ShaderVariableType::ComputeShader,
            39 => ShaderVariableType::Double,
            40 => ShaderVariableType::RwTexture1D,
            41 => ShaderVariableType::RwTexture1DArray,
            42 => ShaderVariableType::RwTexture2D,
            43 => ShaderVariableType::RwTexture2DArray,
            44 => ShaderVariableType::RwTexture3D,
            45 => ShaderVariableType::RwBuffer,
            46 => ShaderVariableType::ByteAddressBuffer,
            47 => ShaderVariableType::RwByteAddressBuffer,
            48 => ShaderVariableType::StructuredBuffer,
            49 => ShaderVariableType::RwStructuredBuffer,
            50 => ShaderVariableType::AppendStructuredBuffer,
            51 => ShaderVariableType::ConsumeStructuredBuffer,
            52 => ShaderVariableType::Min8Float,
            53 => ShaderVariableType::Min10Float,
            54 => ShaderVariableType::Min16Float,
            55 => ShaderVariableType::Min12Int,
            56 => ShaderVariableType::Min16Int,
            57 => ShaderVariableType::Min16Uint,
            _ => ShaderVariableType::Void,
        }
    }
}

/// Kind of a constant buffer.
#[derive(Debug, Clone, Copy, PartialEq, Eq, Structural)]
pub enum ConstantBufferType {
    ConstantBuffer,
    TextureBuffer,
    InterfacePointers,
    ResourceBindInfo,
}

/// The buffer kind a raw code names; unknown codes read as a constant buffer.
pub open spec fn buffer_type_of(v: u32) -> ConstantBufferType {
    if v == 1 {
        ConstantBufferType::TextureBuffer
    } else if v == 2 {
        ConstantBufferType::InterfacePointers
    } else if v == 3 {
        ConstantBufferType::ResourceBindInfo
    } else {
        ConstantBufferType::ConstantBuffer
    }
}

impl ConstantBufferType {
    /// Decodes a raw code.
    pub fn from_u32(v: u32) -> (r: ConstantBufferType)
        ensures
            r == buffer_type_of(v),
    {
        match v {
            1 => ConstantBufferType::TextureBuffer,
            2 => ConstantBufferType::InterfacePointers,
            3 => ConstantBufferType::ResourceBindInfo,
            _ => ConstantBufferType::ConstantBuffer,
        }
    }
}


/// Raw signature-element descriptor as the compiler fills it.
#[derive(Debug, Clone, Copy, Default)]
pub struct D3D11_SIGNATURE_PARAMETER_DESC {
    pub SemanticName: u64,
    pub SemanticIndex: u32,
    pub Register: u32,
    pub SystemValueType: u32,
    pub ComponentType: u32,
    pub Mask: u8,
    pub ReadWriteMask: u8,
    pub Stream: u32,
}

/// The number of set bits of `m`.
pub open spec fn ones(m: u8) -> nat
    decreases m,
{
    if m == 0 {
        0
    } else {
        (m % 2) as nat + ones(m / 2)
    }
}

/// One element of an input or output signature.
#[derive(Debug)]
pub struct SignatureParameter {
    pub semantic_name: String,
    pub semantic_index: u32,
    pub register: u32,
    pub system_value_type: SystemValueType,
    pub component_type: ComponentType,
    pub mask: u8,
    pub read_write_mask: u8,
    pub stream: u32,
}

impl SignatureParameter {
    /// Decodes a raw descriptor whose semantic name has been read as `name`.
    pub fn from_raw(raw: &D3D11_SIGNATURE_PARAMETER_DESC, name: String) -> (r: SignatureParameter)
        ensures
            r.semantic_name == name,
            r.semantic_index == raw.SemanticIndex,
            r.register == raw.Register,
            r.system_value_type == system_value_of(raw.SystemValueType),
            r.component_type == component_type_of(raw.ComponentType),
            r.mask == raw.Mask,
            r.read_write_mask == raw.ReadWriteMask,
            r.stream == raw.Stream,
    {
        SignatureParameter {
            semantic_name: name,
            semantic_index: raw.SemanticIndex,
            register: raw.Register,
            system_value_type: SystemValueType::from_u32(raw.SystemValueType),
            component_type: ComponentType::from_u32(raw.ComponentType),
            mask: raw.Mask,
            read_write_mask: raw.ReadWriteMask,
            stream: raw.Stream,
        }
    }

    /// The number of components the element uses: the set bits of its mask.
    pub fn component_count(&self) -> (r: u32)
        ensures
            r == ones(self.mask),
    {
        let mut m: u8 = self.mask;
        let mut n: u32 = 0;
        proof {
            lemma_ones_bound(m);
        }
        while m != 0
            invariant
                n + ones(m) == ones(self.mask),
                n <= 8 - ones(m),
                ones(m) <= 8,
            decreases m,
        {
            n = n + (m % 2) as u32;
            m = m / 2;
        }
        n
    }

    /// The element carries a system value.
    pub fn is_system_value(&self) -> (r: bool)
        ensures
            r == (self.system_value_type != SystemValueType::Undefined),
    {
        self.system_value_type != SystemValueType::Undefined
    }

    /// A field-for-field copy.
    pub fn copy(&self) -> (r: SignatureParameter)
        ensures
            r == *self,
    {
        SignatureParameter {
            semantic_name: self.semantic_name.clone(),
            semantic_index: self.semantic_index,
            register: self.register,
            system_value_type: self.system_value_type,
            component_type: self.component_type,
            mask: self.mask,
            read_write_mask: self.read_write_mask,
            stream: self.stream,
        }
    }
}

/// At most eight bits of a byte are set.
pub proof fn lemma_ones_bound(m: u8)
    ensures
        ones(m) <= 8,
    decreases m,
{
    assert(pow2_nat(8) == 256) by {
        reveal_with_fuel(pow2_nat, 9);
    }
    lemma_ones_bound_below(m, 8);
}

proof fn lemma_ones_bound_below(m: u8, k: nat)
    requires
        m < pow2_nat(k),
    ensures
        ones(m) <= k,
    decreases m,
{
    if m != 0 {
        assert(pow2_nat(0) == 1);
        assert(pow2_nat(k) == 2 * pow2_nat((k - 1) as nat));
        lemma_ones_bound_below(m / 2, (k - 1) as nat);
    }
}

/// 2 to the power `k`.
pub open spec fn pow2_nat(k: nat) -> nat
    decreases k,
{
    if k == 0 {
        1
    } else {
        2 * pow2_nat((k - 1) as nat)
    }
}

/// Raw type descriptor as the compiler fills it.
#[derive(Debug, Clone, Copy, Default)]
pub struct D3D11_SHADER_TYPE_DESC {
    pub Class: u32,
    pub Type: u32,
    pub Rows: u32,
    pub Columns: u32,
    pub Elements: u32,
    pub Members: u32,
    pub Offset: u32,
    pub Name: u64,
}

/// A decoded type descriptor.
#[derive(Debug)]
pub struct TypeDesc {
    pub class: ShaderTypeClass,
    pub var_type: ShaderVariableType,
    pub rows: u32,
    pub columns: u32,
    pub elements: u32,
    pub members: u32,
    pub offset: u32,
    pub name: String,
}

impl TypeDesc {
    /// Decodes a raw descriptor whose name has been read as `name`.
    pub fn from_raw(raw: &D3D11_SHADER_TYPE_DESC, name: String) -> (r: TypeDesc)
        ensures
            r.class == type_class_of(raw.Class),
            r.var_type == variable_type_of(raw.Type),
            r.rows == raw.Rows,
            r.columns == raw.Columns,
            r.elements == raw.Elements,
            r.members == raw.Members,
            r.offset == raw.Offset,
            r.name == name,
    {
        TypeDesc {
            class: ShaderTypeClass::from_u32(raw.Class),
            var_type: ShaderVariableType::from_u32(raw.Type),
            rows: raw.Rows,
            columns: raw.Columns,
            elements: raw.Elements,
            members: raw.Members,
            offset: raw.Offset,
            name,
        }
    }
}

/// A type as the reflection interface reported it: its descriptor (none
/// when it could not be read) and, by index, the member types it could be
/// asked for.
#[derive(Debug)]
pub struct TypeInfo {
    pub desc: Option<TypeDesc>,
    pub members: Vec<Member>,
}

/// A member of a struct type: its name and type.
#[derive(Debug)]
pub struct Member {
    pub name: String,
    pub type_info: TypeInfo,
}

/// The members of a struct type, in index order.
pub struct MemberIter<'a> {
    pub items: &'a Vec<Member>,
    pub index: u32,
    pub count: u32,
}

impl<'a> MemberIter<'a> {
    /// The next member: none once the reported count is reached; a member
    /// the type cannot give is skipped over as none.
    pub fn next(&mut self) -> (r: Option<&'a Member>)
        ensures
            final(self).items == old(self).items,
            final(self).count == old(self).count,
            old(self).index >= old(self).count ==> r is None && final(self).index == old(self).index,
            old(self).index < old(self).count ==> final(self).index == old(self).index + 1 && r == if (
            old(self).index as int) < old(self).items@.len() {
                Some(&old(self).items@[old(self).index as int])
            } else {
                None::<&Member>
            },
    {
        if self.index >= self.count {
            return None;
        }
        let i = self.index as usize;
        self.index = self.index + 1;
        if i < self.items.len() {
            Some(&self.items[i])
        } else {
            None
        }
    }
}

impl TypeInfo {
    /// A type whose descriptor read gave `desc` and whose member types, from
    /// index 0, are `members`.
    pub fn new(desc: Option<TypeDesc>, members: Vec<Member>) -> (r: TypeInfo)
        ensures
            r.desc == desc,
            r.members == members,
    {
        TypeInfo { desc, members }
    }

    /// The members, up to the reported member count.
    pub fn members(&self) -> (r: MemberIter<'_>)
        ensures
            r.items == &self.members,
            r.index == 0,
            r.count == match self.desc {
                Some(d) => d.members,
                None => 0,
            },
    {
        MemberIter { items: &self.members, index: 0, count: self.member_count() }
    }

    /// The type's class; scalar when unknown.
    pub fn class(&self) -> (r: ShaderTypeClass)
        ensures
            r == match self.desc {
                Some(d) => d.class,
                None => ShaderTypeClass::Scalar,
            },
    {
        match &self.desc {
            Some(d) => d.class,
            None => ShaderTypeClass::Scalar,
        }
    }

    /// The variable type; void when unknown.
    pub fn var_type(&self) -> (r: ShaderVariableType)
        ensures
            r == match self.desc {
                Some(d) => d.var_type,
                None => ShaderVariableType::Void,
            },
    {
        match &self.desc {
            Some(d) => d.var_type,
            None => ShaderVariableType::Void,
        }
    }

    /// Rows; 0 when unknown.
    pub fn rows(&self) -> (r: u32)
        ensures
            r == match self.desc {
                Some(d) => d.rows,
                None => 0,
            },
    {
        match &self.desc {
            Some(d) => d.rows,
            None => 0,
        }
    }

    /// Columns; 0 when unknown.
    pub fn columns(&self) -> (r: u32)
        ensures
            r == match self.desc {
                Some(d) => d.columns,
                None => 0,
            },
    {
        match &self.desc {
            Some(d) => d.columns,
            None => 0,
        }
    }

    /// Array elements; 0 when unknown.
    pub fn elements(&self) -> (r: u32)
        ensures
            r == match self.desc {
                Some(d) => d.elements,
                None => 0,
            },
    {
        match &self.desc {
            Some(d) => d.elements,
            None => 0,
        }
    }

    /// Struct members; 0 when unknown.
    pub fn member_count(&self) -> (r: u32)
        ensures
            r == match self.desc {
                Some(d) => d.members,
                None => 0,
            },
    {
        match &self.desc {
            Some(d) => d.members,
            None => 0,
        }
    }
}

/// Raw variable descriptor as the compiler fills it.
#[derive(Debug, Clone, Copy, Default)]
pub struct D3D11_SHADER_VARIABLE_DESC {
    pub Name: u64,
    pub StartOffset: u32,
    pub Size: u32,
    pub uFlags: u32,
    pub DefaultValue: u64,
    pub StartTexture: u32,
    pub TextureSize: u32,
    pub StartSampler: u32,
    pub SamplerSize: u32,
}

/// A decoded variable descriptor.
#[derive(Debug)]
pub struct VariableDesc {
    pub name: String,
    pub start_offset: u32,
    pub size: u32,
    pub flags: u32,
    pub has_default_value: bool,
    pub start_texture: u32,
    pub texture_size: u32,
    pub start_sampler: u32,
    pub sampler_size: u32,
}

impl VariableDesc {
    /// Decodes a raw descriptor whose name has been read as `name`.
    pub fn from_raw(raw: &D3D11_SHADER_VARIABLE_DESC, name: String) -> (r: VariableDesc)
        ensures
            r.name == name,
            r.start_offset == raw.StartOffset,
            r.size == raw.Size,
            r.flags == raw.uFlags,
            r.has_default_value == (raw.DefaultValue != 0),
            r.start_texture == raw.StartTexture,
            r.texture_size == raw.TextureSize,
            r.start_sampler == raw.StartSampler,
            r.sampler_size == raw.SamplerSize,
    {
        VariableDesc {
            name,
            start_offset: raw.StartOffset,
            size: raw.Size,
            flags: raw.uFlags,
            has_default_value: raw.DefaultValue != 0,
            start_texture: raw.StartTexture,
            texture_size: raw.TextureSize,
            start_sampler: raw.StartSampler,
            sampler_size: raw.SamplerSize,
        }
    }
}

/// A variable of a constant buffer as the reflection interface reported it.
#[derive(Debug)]
pub struct Variable {
    pub desc: Option<VariableDesc>,
}

impl Variable {
    /// A variable whose descriptor read gave `desc`.
    pub fn new(desc: Option<VariableDesc>) -> (r: Variable)
        ensures
            r.desc == desc,
    {
        Variable { desc }
    }

    /// The name; empty when unknown.
    pub fn name(&self) -> (r: String)
        ensures
            r@ == match self.desc {
                Some(d) => d.name@,
                None => Seq::<char>::empty(),
            },
    {
        match &self.desc {
            Some(d) => d.name.clone(),
            None => String::new(),
        }
    }

    /// The byte offset in its buffer; 0 when unknown.
    pub fn offset(&self) -> (r: u32)
        ensures
            r == match self.desc {
                Some(d) => d.start_offset,
                None => 0,
            },
    {
        match &self.desc {
            Some(d) => d.start_offset,
            None => 0,
        }
    }

    /// The size in bytes; 0 when unknown.
    pub fn size(&self) -> (r: u32)
        ensures
            r == match self.desc {
                Some(d) => d.size,
                None => 0,
            },
    {
        match &self.desc {
            Some(d) => d.size,
            None => 0,
        }
    }
}

/// Raw constant-buffer descriptor as the compiler fills it.
#[derive(Debug, Clone, Copy, Default)]
pub struct D3D11_SHADER_BUFFER_DESC {
    pub Name: u64,
    pub Type: u32,
    pub Variables: u32,
    pub Size: u32,
    pub uFlags: u32,
}

/// A decoded constant-buffer descriptor.
#[derive(Debug)]
pub struct ConstantBufferDesc {
    pub name: String,
    pub buffer_type: ConstantBufferType,
    pub variables: u32,
    pub size: u32,
    pub flags: u32,
}

impl ConstantBufferDesc {
    /// Decodes a raw descriptor whose name has been read as `name`.
    pub fn from_raw(raw: &D3D11_SHADER_BUFFER_DESC, name: String) -> (r: ConstantBufferDesc)
        ensures
            r.name == name,
            r.buffer_type == buffer_type_of(raw.Type),
            r.variables == raw.Variables,
            r.size == raw.Size,
            r.flags == raw.uFlags,
    {
        ConstantBufferDesc {
            name,
            buffer_type: ConstantBufferType::from_u32(raw.Type),
            variables: raw.Variables,
            size: raw.Size,
            flags: raw.uFlags,
        }
    }
}

/// A constant buffer as the reflection interface reported it: its
/// descriptor and the variables it could be asked for, by index.
#[derive(Debug)]
pub struct ConstantBuffer {
    pub desc: Option<ConstantBufferDesc>,
    pub variables: Vec<Variable>,
}

impl ConstantBuffer {
    /// A buffer whose descriptor read gave `desc` and whose variables, from
    /// index 0, are `variables`.
    pub fn new(desc: Option<ConstantBufferDesc>, variables: Vec<Variable>) -> (r: ConstantBuffer)
        ensures
            r.desc == desc,
            r.variables == variables,
    {
        ConstantBuffer { desc, variables }
    }

    /// The name; empty when unknown.
    pub fn name(&self) -> (r: String)
        ensures
            r@ == match self.desc {
                Some(d) => d.name@,
                None => Seq::<char>::empty(),
            },
    {
        match &self.desc {
            Some(d) => d.name.clone(),
            None => String::new(),
        }
    }

    /// The size in bytes; 0 when unknown.
    pub fn size(&self) -> (r: u32)
        ensures
            r == match self.desc {
                Some(d) => d.size,
                None => 0,
            },
    {
        match &self.desc {
            Some(d) => d.size,
            None => 0,
        }
    }

    /// The number of variables the descriptor reports; 0 when unknown.
    pub fn variable_count(&self) -> (r: u32)
        ensures
            r == match self.desc {
                Some(d) => d.variables,
                None => 0,
            },
    {
        match &self.desc {
            Some(d) => d.variables,
            None => 0,
        }
    }

    /// The buffer kind; a constant buffer when unknown.
    pub fn buffer_type(&self) -> (r: ConstantBufferType)
        ensures
            r == match self.desc {
                Some(d) => d.buffer_type,
                None => ConstantBufferType::ConstantBuffer,
            },
    {
        match &self.desc {
            Some(d) => d.buffer_type,
            None => ConstantBufferType::ConstantBuffer,
        }
    }

    /// The variables, from index 0 up to the reported count.
    pub fn variables(&self) -> (r: VariableIter<'_>)
        ensures
            r.index == 0,
            r.count == self.variable_count_spec(),
            r.items == &self.variables,
    {
        VariableIter { items: &self.variables, index: 0, count: self.variable_count() }
    }

    /// The number of variables the descriptor reports; 0 when unknown.
    pub open spec fn variable_count_spec(&self) -> u32 {
        match self.desc {
            Some(d) => d.variables,
            None => 0,
        }
    }
}

/// The variables of a constant buffer, in index order.
pub struct VariableIter<'a> {
    pub items: &'a Vec<Variable>,
    pub index: u32,
    pub count: u32,
}

impl<'a> VariableIter<'a> {
    /// The next variable: none once the reported count is reached or when
    /// the buffer cannot give the one at the current index.
    pub fn next(&mut self) -> (r: Option<&'a Variable>)
        ensures
            final(self).items == old(self).items,
            final(self).count == old(self).count,
            old(self).index >= old(self).count ==> r is None && final(self).index == old(self).index,
            old(self).index < old(self).count && old(self).index >= old(self).items@.len() ==> r is None
                && final(self).index == old(self).index,
            old(self).index < old(self).count && old(self).index < old(self).items@.len() ==> r
                == Some(&old(self).items@[old(self).index as int]) && final(self).index == old(self).index
                + 1,
    {
        if self.index >= self.count {
            return None;
        }
        if self.index as usize >= self.items.len() {
            return None;
        }
        let v = &self.items[self.index as usize];
        self.index = self.index + 1;
        Some(v)
    }
}

/// Raw shader descriptor as the compiler fills it; `Creator` is the address
/// of a NUL-terminated string.
#[derive(Debug, Clone, Copy, Default)]
pub struct D3D11_SHADER_DESC {
    pub Version: u32,
    pub Creator: u64,
    pub Flags: u32,
    pub ConstantBuffers: u32,
    pub BoundResources: u32,
    pub InputParameters: u32,
    pub OutputParameters: u32,
    pub InstructionCount: u32,
    pub TempRegisterCount: u32,
    pub TempArrayCount: u32,
    pub DefCount: u32,
    pub DclCount: u32,
    pub TextureNormalInstructions: u32,
    pub TextureLoadInstructions: u32,
    pub TextureCompInstructions: u32,
    pub TextureBiasInstructions: u32,
    pub TextureGradientInstructions: u32,
    pub FloatInstructionCount: u32,
    pub IntInstructionCount: u32,
    pub UintInstructionCount: u32,
    pub StaticFlowControlCount: u32,
    pub DynamicFlowControlCount: u32,
    pub MacroInstructionCount: u32,
    pub ArrayInstructionCount: u32,
    pub CutInstructionCount: u32,
    pub EmitInstructionCount: u32,
    pub GSOutputTopology: u32,
    pub GSMaxOutputVertexCount: u32,
    pub InputPrimitive: u32,
    pub PatchConstantParameters: u32,
    pub cGSInstanceCount: u32,
    pub cControlPoints: u32,
    pub HSOutputPrimitive: u32,
    pub HSPartitioning: u32,
    pub TessellatorDomain: u32,
    pub cBarrierInstructions: u32,
    pub cInterlockedInstructions: u32,
    pub cTextureStoreInstructions: u32,
}

/// Summary of a compiled shader.
#[derive(Debug)]
pub struct ShaderDesc {
    pub version: u32,
    pub creator: String,
    pub flags: u32,
    pub constant_buffers: u32,
    pub bound_resources: u32,
    pub input_parameters: u32,
    pub output_parameters: u32,
    pub instruction_count: u32,
    pub temp_register_count: u32,
    pub temp_array_count: u32,
    pub def_count: u32,
    pub dcl_count: u32,
    pub texture_normal_instructions: u32,
    pub texture_load_instructions: u32,
    pub texture_comp_instructions: u32,
    pub texture_bias_instructions: u32,
    pub texture_gradient_instructions: u32,
    pub float_instruction_count: u32,
    pub int_instruction_count: u32,
    pub uint_instruction_count: u32,
    pub static_flow_control_count: u32,
    pub dynamic_flow_control_count: u32,
    pub macro_instruction_count: u32,
    pub array_instruction_count: u32,
    pub gs_output_topology: u32,
    pub gs_max_output_vertex_count: u32,
    pub input_primitive: u32,
    pub patch_constant_parameters: u32,
    pub gs_instance_count: u32,
    pub control_points: u32,
    pub hs_output_primitive: u32,
    pub hs_partitioning: u32,
    pub tessellator_domain: u32,
    pub barrier_instructions: u32,
    pub interlocked_instructions: u32,
    pub texture_store_instructions: u32,
}

impl ShaderDesc {
    /// Decodes a raw descriptor whose creator string has been read as `creator`.
    pub fn from_raw(raw: &D3D11_SHADER_DESC, creator: String) -> (r: ShaderDesc)
        ensures
            r.creator == creator,
            r.version == raw.Version,
            r.flags == raw.Flags,
            r.constant_buffers == raw.ConstantBuffers,
            r.bound_resources == raw.BoundResources,
            r.input_parameters == raw.InputParameters,
            r.output_parameters == raw.OutputParameters,
            r.instruction_count == raw.InstructionCount,
            r.temp_register_count == raw.TempRegisterCount,
            r.temp_array_count == raw.TempArrayCount,
            r.def_count == raw.DefCount,
            r.dcl_count == raw.DclCount,
            r.texture_normal_instructions == raw.TextureNormalInstructions,
            r.texture_load_instructions == raw.TextureLoadInstructions,
            r.texture_comp_instructions == raw.TextureCompInstructions,
            r.texture_bias_instructions == raw.TextureBiasInstructions,
            r.texture_gradient_instructions == raw.TextureGradientInstructions,
            r.float_instruction_count == raw.FloatInstructionCount,
            r.int_instruction_count == raw.IntInstructionCount,
            r.uint_instruction_count == raw.UintInstructionCount,
            r.static_flow_control_count == raw.StaticFlowControlCount,
            r.dynamic_flow_control_count == raw.DynamicFlowControlCount,
            r.macro_instruction_count == raw.MacroInstructionCount,
            r.array_instruction_count == raw.ArrayInstructionCount,
            r.gs_output_topology == raw.GSOutputTopology,
            r.gs_max_output_vertex_count == raw.GSMaxOutputVertexCount,
            r.input_primitive == raw.InputPrimitive,
            r.patch_constant_parameters == raw.PatchConstantParameters,
            r.gs_instance_count == raw.cGSInstanceCount,
            r.control_points == raw.cControlPoints,
            r.hs_output_primitive == raw.HSOutputPrimitive,
            r.hs_partitioning == raw.HSPartitioning,
            r.tessellator_domain == raw.TessellatorDomain,
            r.barrier_instructions == raw.cBarrierInstructions,
            r.interlocked_instructions == raw.cInterlockedInstructions,
            r.texture_store_instructions == raw.cTextureStoreInstructions,
    {
        ShaderDesc {
            version: raw.Version,
            creator,
            flags: raw.Flags,
            constant_buffers: raw.ConstantBuffers,
            bound_resources: raw.BoundResources,
            input_parameters: raw.InputParameters,
            output_parameters: raw.OutputParameters,
            instruction_count: raw.InstructionCount,
            temp_register_count: raw.TempRegisterCount,
            temp_array_count: raw.TempArrayCount,
            def_count: raw.DefCount,
            dcl_count: raw.DclCount,
            texture_normal_instructions: raw.TextureNormalInstructions,
            texture_load_instructions: raw.TextureLoadInstructions,
            texture_comp_instructions: raw.TextureCompInstructions,
            texture_bias_instructions: raw.TextureBiasInstructions,
            texture_gradient_instructions: raw.TextureGradientInstructions,
            float_instruction_count: raw.FloatInstructionCount,
            int_instruction_count: raw.IntInstructionCount,
            uint_instruction_count: raw.UintInstructionCount,
            static_flow_control_count: raw.StaticFlowControlCount,
            dynamic_flow_control_count: raw.DynamicFlowControlCount,
            macro_instruction_count: raw.MacroInstructionCount,
            array_instruction_count: raw.ArrayInstructionCount,
            gs_output_topology: raw.GSOutputTopology,
            gs_max_output_vertex_count: raw.GSMaxOutputVertexCount,
            input_primitive: raw.InputPrimitive,
            patch_constant_parameters: raw.PatchConstantParameters,
            gs_instance_count: raw.cGSInstanceCount,
            control_points: raw.cControlPoints,
            hs_output_primitive: raw.HSOutputPrimitive,
            hs_partitioning: raw.HSPartitioning,
            tessellator_domain: raw.TessellatorDomain,
            barrier_instructions: raw.cBarrierInstructions,
            interlocked_instructions: raw.cInterlockedInstructions,
            texture_store_instructions: raw.cTextureStoreInstructions,
        }
    }

    /// A field-for-field copy.
    pub fn copy(&self) -> (r: ShaderDesc)
        ensures
            r == *self,
    {
        ShaderDesc {
            version: self.version,
            creator: self.creator.clone(),
            flags: self.flags,
            constant_buffers: self.constant_buffers,
            bound_resources: self.bound_resources,
            input_parameters: self.input_parameters,
            output_parameters: self.output_parameters,
            instruction_count: self.instruction_count,
            temp_register_count: self.temp_register_count,
            temp_array_count: self.temp_array_count,
            def_count: self.def_count,
            dcl_count: self.dcl_count,
            texture_normal_instructions: self.texture_normal_instructions,
            texture_load_instructions: self.texture_load_instructions,
            texture_comp_instructions: self.texture_comp_instructions,
            texture_bias_instructions: self.texture_bias_instructions,
            texture_gradient_instructions: self.texture_gradient_instructions,
            float_instruction_count: self.float_instruction_count,
            int_instruction_count: self.int_instruction_count,
            uint_instruction_count: self.uint_instruction_count,
            static_flow_control_count: self.static_flow_control_count,
            dynamic_flow_control_count: self.dynamic_flow_control_count,
            macro_instruction_count: self.macro_instruction_count,
            array_instruction_count: self.array_instruction_count,
            gs_output_topology: self.gs_output_topology,
            gs_max_output_vertex_count: self.gs_max_output_vertex_count,
            input_primitive: self.input_primitive,
            patch_constant_parameters: self.patch_constant_parameters,
            gs_instance_count: self.gs_instance_count,
            control_points: self.control_points,
            hs_output_primitive: self.hs_output_primitive,
            hs_partitioning: self.hs_partitioning,
            tessellator_domain: self.tessellator_domain,
            barrier_instructions: self.barrier_instructions,
            interlocked_instructions: self.interlocked_instructions,
            texture_store_instructions: self.texture_store_instructions,
        }
    }
}

/// The constant buffers of a shader, in index order.
pub struct ConstantBufferIter<'a> {
    pub items: &'a Vec<ConstantBuffer>,
    pub index: u32,
    pub count: u32,
}

impl<'a> ConstantBufferIter<'a> {
    /// The next item: none once the reported count is reached or when the
    /// interface cannot give the one at the current index.
    pub fn next(&mut self) -> (r: Option<&'a ConstantBuffer>)
        ensures
            final(self).items == old(self).items,
            final(self).count == old(self).count,
            old(self).index >= old(self).count || old(self).index >= old(self).items@.len() ==> r
                is None && final(self).index == old(self).index,
            old(self).index < old(self).count && old(self).index < old(self).items@.len() ==> r == Some(&old(self).items@[old(self).index as int])
                && final(self).index == old(self).index + 1,
    {
        if self.index >= self.count || self.index as usize >= self.items.len() {
            return None;
        }
        let v = &self.items[self.index as usize];
        self.index = self.index + 1;
        Some(v)
    }
}

/// The input signature of a shader, in index order.
pub struct InputParameterIter<'a> {
    pub items: &'a Vec<SignatureParameter>,
    pub index: u32,
    pub count: u32,
}

impl<'a> InputParameterIter<'a> {
    /// The next item: none once the reported count is reached or when the
    /// interface cannot give the one at the current index.
    pub fn next(&mut self) -> (r: Option<SignatureParameter>)
        ensures
            final(self).items == old(self).items,
            final(self).count == old(self).count,
            old(self).index >= old(self).count || old(self).index >= old(self).items@.len() ==> r
                is None && final(self).index == old(self).index,
            old(self).index < old(self).count && old(self).index < old(self).items@.len() ==> r == Some(old(self).items@[old(self).index as int])
                && final(self).index == old(self).index + 1,
    {
        if self.index >= self.count || self.index as usize >= self.items.len() {
            return None;
        }
        let v = self.items[self.index as usize].copy();
        self.index = self.index + 1;
        Some(v)
    }
}

/// The output signature of a shader, in index order.
pub struct OutputParameterIter<'a> {
    pub items: &'a Vec<SignatureParameter>,
    pub index: u32,
    pub count: u32,
}

impl<'a> OutputParameterIter<'a> {
    /// The next item: none once the reported count is reached or when the
    /// interface cannot give the one at the current index.
    pub fn next(&mut self) -> (r: Option<SignatureParameter>)
        ensures
            final(self).items == old(self).items,
            final(self).count == old(self).count,
            old(self).index >= old(self).count || old(self).index >= old(self).items@.len() ==> r
                is None && final(self).index == old(self).index,
            old(self).index < old(self).count && old(self).index < old(self).items@.len() ==> r == Some(old(self).items@[old(self).index as int])
                && final(self).index == old(self).index + 1,
    {
        if self.index >= self.count || self.index as usize >= self.items.len() {
            return None;
        }
        let v = self.items[self.index as usize].copy();
        self.index = self.index + 1;
        Some(v)
    }
}

/// The bound resources of a shader, in index order.
pub struct ResourceBindingIter<'a> {
    pub items: &'a Vec<ResourceBinding>,
    pub index: u32,
    pub count: u32,
}

impl<'a> ResourceBindingIter<'a> {
    /// The next item: none once the reported count is reached or when the
    /// interface cannot give the one at the current index.
    pub fn next(&mut self) -> (r: Option<ResourceBinding>)
        ensures
            final(self).items == old(self).items,
            final(self).count == old(self).count,
            old(self).index >= old(self).count || old(self).index >= old(self).items@.len() ==> r
                is None && final(self).index == old(self).index,
            old(self).index < old(self).count && old(self).index < old(self).items@.len() ==> r == Some(old(self).items@[old(self).index as int])
                && final(self).index == old(self).index + 1,
    {
        if self.index >= self.count || self.index as usize >= self.items.len() {
            return None;
        }
        let v = self.items[self.index as usize].copy();
        self.index = self.index + 1;
        Some(v)
    }
}

/// What the reflection interface reported about a compiled shader: its
/// descriptor (none when it could not be read) and, by index, the constant
/// buffers, signature elements and bound resources it could be asked for.
#[derive(Debug)]
pub struct ShaderReflection {
    pub desc: Option<ShaderDesc>,
    pub constant_buffers: Vec<ConstantBuffer>,
    pub inputs: Vec<SignatureParameter>,
    pub outputs: Vec<SignatureParameter>,
    pub bindings: Vec<ResourceBinding>,
}

impl ShaderReflection {

    /// The constant buffers, up to the reported count.
    pub fn constant_buffers(&self) -> (r: ConstantBufferIter<'_>)
        ensures
            r.items == &self.constant_buffers,
            r.index == 0,
            r.count == match self.desc {
                Some(d) => d.constant_buffers,
                None => 0,
            },
    {
        let count = match &self.desc {
            Some(d) => d.constant_buffers,
            None => 0,
        };
        ConstantBufferIter { items: &self.constant_buffers, index: 0, count }
    }

    /// The input signature, up to the reported count.
    pub fn input_parameters(&self) -> (r: InputParameterIter<'_>)
        ensures
            r.items == &self.inputs,
            r.index == 0,
            r.count == match self.desc {
                Some(d) => d.input_parameters,
                None => 0,
            },
    {
        let count = match &self.desc {
            Some(d) => d.input_parameters,
            None => 0,
        };
        InputParameterIter { items: &self.inputs, index: 0, count }
    }

    /// The input element at `index`.
    pub fn input_parameter(&self, index: u32) -> (r: Option<SignatureParameter>)
        ensures
            r == if (index as int) < self.inputs@.len() {
                Some(self.inputs@[index as int])
            } else {
                None::<SignatureParameter>
            },
    {
        if (index as usize) < self.inputs.len() {
            Some(self.inputs[index as usize].copy())
        } else {
            None
        }
    }

    /// The output signature, up to the reported count.
    pub fn output_parameters(&self) -> (r: OutputParameterIter<'_>)
        ensures
            r.items == &self.outputs,
            r.index == 0,
            r.count == match self.desc {
                Some(d) => d.output_parameters,
                None => 0,
            },
    {
        let count = match &self.desc {
            Some(d) => d.output_parameters,
            None => 0,
        };
        OutputParameterIter { items: &self.outputs, index: 0, count }
    }

    /// The output element at `index`.
    pub fn output_parameter(&self, index: u32) -> (r: Option<SignatureParameter>)
        ensures
            r == if (index as int) < self.outputs@.len() {
                Some(self.outputs@[index as int])
            } else {
                None::<SignatureParameter>
            },
    {
        if (index as usize) < self.outputs.len() {
            Some(self.outputs[index as usize].copy())
        } else {
            None
        }
    }

    /// The bound resources, up to the reported count.
    pub fn resource_bindings(&self) -> (r: ResourceBindingIter<'_>)
        ensures
            r.items == &self.bindings,
            r.index == 0,
            r.count == match self.desc {
                Some(d) => d.bound_resources,
                None => 0,
            },
    {
        let count = match &self.desc {
            Some(d) => d.bound_resources,
            None => 0,
        };
        ResourceBindingIter { items: &self.bindings, index: 0, count }
    }

    /// The bound resource at `index`.
    pub fn resource_binding(&self, index: u32) -> (r: Option<ResourceBinding>)
        ensures
            r == if (index as int) < self.bindings@.len() {
                Some(self.bindings@[index as int])
            } else {
                None::<ResourceBinding>
            },
    {
        if (index as usize) < self.bindings.len() {
            Some(self.bindings[index as usize].copy())
        } else {
            None
        }
    }

    /// The first bound resource named `name`.
    pub fn resource_binding_by_name(&self, name: &str) -> (r: Option<ResourceBinding>)
        ensures
            match r {
                Some(b) => exists|i: int|
                    0 <= i < self.bindings@.len() && self.bindings@[i] == b && b.name@ == name@
                        && forall|j: int| 0 <= j < i ==> self.bindings@[j].name@ != name@,
                None => forall|j: int| 0 <= j < self.bindings@.len() ==> self.bindings@[j].name@ != name@,
            },
    {
        let mut i: usize = 0;
        while i < self.bindings.len()
            invariant
                i <= self.bindings@.len(),
                forall|j: int| 0 <= j < i ==> self.bindings@[j].name@ != name@,
            decreases self.bindings@.len() - i,
        {
            if str_eq(self.bindings[i].name.as_str(), name) {
                return Some(self.bindings[i].copy());
            }
            i = i + 1;
        }
        None
    }
}

} // verus!
