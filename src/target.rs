//! Shader targets: a shader stage paired with a shader model.

use vstd::prelude::*;
use vstd::string::StringExecFns;

verus! {

/// Shader stage.
#[derive(Debug, Clone, Copy, PartialEq, Eq, Hash, Structural)]
pub enum ShaderType {
    Vertex,
    Pixel,
    Geometry,
    Hull,
    Domain,
    Compute,
}

/// The two-letter prefix of a stage in a target string.
pub open spec fn prefix_of(t: ShaderType) -> Seq<char> {
    match t {
        ShaderType::Vertex => seq!['v', 's'],
        ShaderType::Pixel => seq!['p', 's'],
        ShaderType::Geometry => seq!['g', 's'],
        ShaderType::Hull => seq!['h', 's'],
        ShaderType::Domain => seq!['d', 's'],
        ShaderType::Compute => seq!['c', 's'],
    }
}

impl ShaderType {
    /// The stage prefix (vs, ps, gs, hs, ds, cs).
    pub fn prefix(&self) -> (r: &'static str)
        ensures
            r@ == prefix_of(*self),
    {
        let r = match self {
            ShaderType::Vertex => "vs",
            ShaderType::Pixel => "ps",
            ShaderType::Geometry => "gs",
            ShaderType::Hull => "hs",
            ShaderType::Domain => "ds",
            ShaderType::Compute => "cs",
        };
        proof {
            reveal_strlit("vs");
            reveal_strlit("ps");
            reveal_strlit("gs");
            reveal_strlit("hs");
            reveal_strlit("ds");
            reveal_strlit("cs");
        }
        r
    }
}

/// Shader model version.
#[derive(Debug, Clone, Copy, PartialEq, Eq, Hash, Structural)]
pub enum ShaderModel {
    SM4_0,
    SM4_1,
    SM5_0,
    SM5_1,
    SM6_0,
    SM6_1,
    SM6_2,
    SM6_3,
    SM6_4,
    SM6_5,
    SM6_6,
    SM6_7,
}

/// Major version of a shader model.
pub open spec fn major_of(m: ShaderModel) -> u32 {
    match m {
        ShaderModel::SM4_0 | ShaderModel::SM4_1 => 4,
        ShaderModel::SM5_0 | ShaderModel::SM5_1 => 5,
        _ => 6,
    }
}

/// Minor version of a shader model.
pub open spec fn minor_of(m: ShaderModel) -> u32 {
    match m {
        ShaderModel::SM4_0 | ShaderModel::SM5_0 | ShaderModel::SM6_0 => 0,
        ShaderModel::SM4_1 | ShaderModel::SM5_1 | ShaderModel::SM6_1 => 1,
        ShaderModel::SM6_2 => 2,
        ShaderModel::SM6_3 => 3,
        ShaderModel::SM6_4 => 4,
        ShaderModel::SM6_5 => 5,
        ShaderModel::SM6_6 => 6,
        ShaderModel::SM6_7 => 7,
    }
}

/// The digit of a version number below ten.
pub open spec fn digit(n: u32) -> char {
    ('0' as u32 + n) as char
}

/// "major_minor", as in a target string.
pub open spec fn suffix_of(m: ShaderModel) -> Seq<char> {
    seq![digit(major_of(m)), '_', digit(minor_of(m))]
}

impl ShaderModel {
    /// The model suffix (4_0, 4_1, 5_0, ...).
    pub fn suffix(&self) -> (r: &'static str)
        ensures
            r@ == suffix_of(*self),
    {
        proof {
            reveal_strlit("4_0");
            reveal_strlit("4_1");
            reveal_strlit("5_0");
            reveal_strlit("5_1");
            reveal_strlit("6_0");
            reveal_strlit("6_1");
            reveal_strlit("6_2");
            reveal_strlit("6_3");
            reveal_strlit("6_4");
            reveal_strlit("6_5");
            reveal_strlit("6_6");
            reveal_strlit("6_7");
        }
        match self {
            ShaderModel::SM4_0 => "4_0",
            ShaderModel::SM4_1 => "4_1",
            ShaderModel::SM5_0 => "5_0",
            ShaderModel::SM5_1 => "5_1",
            ShaderModel::SM6_0 => "6_0",
            ShaderModel::SM6_1 => "6_1",
            ShaderModel::SM6_2 => "6_2",
            ShaderModel::SM6_3 => "6_3",
            ShaderModel::SM6_4 => "6_4",
            ShaderModel::SM6_5 => "6_5",
            ShaderModel::SM6_6 => "6_6",
            ShaderModel::SM6_7 => "6_7",
        }
    }

    /// The major version number.
    pub fn major(&self) -> (r: u32)
        ensures
            r == major_of(*self),
    {
        match self {
            ShaderModel::SM4_0 | ShaderModel::SM4_1 => 4,
            ShaderModel::SM5_0 | ShaderModel::SM5_1 => 5,
            _ => 6,
        }
    }

    /// The minor version number.
    pub fn minor(&self) -> (r: u32)
        ensures
            r == minor_of(*self),
    {
        match self {
            ShaderModel::SM4_0 | ShaderModel::SM5_0 | ShaderModel::SM6_0 => 0,
            ShaderModel::SM4_1 | ShaderModel::SM5_1 | ShaderModel::SM6_1 => 1,
            ShaderModel::SM6_2 => 2,
            ShaderModel::SM6_3 => 3,
            ShaderModel::SM6_4 => 4,
            ShaderModel::SM6_5 => 5,
            ShaderModel::SM6_6 => 6,
            ShaderModel::SM6_7 => 7,
        }
    }
}

/// A complete compile target: stage and model.
#[derive(Debug, Clone, Copy, PartialEq, Eq, Hash, Structural)]
pub struct ShaderTarget {
    pub shader_type: ShaderType,
    pub model: ShaderModel,
}

/// The target string, such as "vs_5_0".
pub open spec fn target_string(t: ShaderTarget) -> Seq<char> {
    prefix_of(t.shader_type) + seq!['_'] + suffix_of(t.model)
}

impl ShaderTarget {
    #[allow(non_snake_case)]
    pub fn VS_4_0() -> (r: ShaderTarget)
        ensures
            r == (ShaderTarget { shader_type: ShaderType::Vertex, model: ShaderModel::SM4_0 }),
    {
        ShaderTarget { shader_type: ShaderType::Vertex, model: ShaderModel::SM4_0 }
    }

    #[allow(non_snake_case)]
    pub fn VS_4_1() -> (r: ShaderTarget)
        ensures
            r == (ShaderTarget { shader_type: ShaderType::Vertex, model: ShaderModel::SM4_1 }),
    {
        ShaderTarget { shader_type: ShaderType::Vertex, model: ShaderModel::SM4_1 }
    }

    #[allow(non_snake_case)]
    pub fn VS_5_0() -> (r: ShaderTarget)
        ensures
            r == (ShaderTarget { shader_type: ShaderType::Vertex, model: ShaderModel::SM5_0 }),
    {
        ShaderTarget { shader_type: ShaderType::Vertex, model: ShaderModel::SM5_0 }
    }

    #[allow(non_snake_case)]
    pub fn VS_5_1() -> (r: ShaderTarget)
        ensures
            r == (ShaderTarget { shader_type: ShaderType::Vertex, model: ShaderModel::SM5_1 }),
    {
        ShaderTarget { shader_type: ShaderType::Vertex, model: ShaderModel::SM5_1 }
    }

    #[allow(non_snake_case)]
    pub fn PS_4_0() -> (r: ShaderTarget)
        ensures
            r == (ShaderTarget { shader_type: ShaderType::Pixel, model: ShaderModel::SM4_0 }),
    {
        ShaderTarget { shader_type: ShaderType::Pixel, model: ShaderModel::SM4_0 }
    }

    #[allow(non_snake_case)]
    pub fn PS_4_1() -> (r: ShaderTarget)
        ensures
            r == (ShaderTarget { shader_type: ShaderType::Pixel, model: ShaderModel::SM4_1 }),
    {
        ShaderTarget { shader_type: ShaderType::Pixel, model: ShaderModel::SM4_1 }
    }

    #[allow(non_snake_case)]
    pub fn PS_5_0() -> (r: ShaderTarget)
        ensures
            r == (ShaderTarget { shader_type: ShaderType::Pixel, model: ShaderModel::SM5_0 }),
    {
        ShaderTarget { shader_type: ShaderType::Pixel, model: ShaderModel::SM5_0 }
    }

    #[allow(non_snake_case)]
    pub fn PS_5_1() -> (r: ShaderTarget)
        ensures
            r == (ShaderTarget { shader_type: ShaderType::Pixel, model: ShaderModel::SM5_1 }),
    {
        ShaderTarget { shader_type: ShaderType::Pixel, model: ShaderModel::SM5_1 }
    }

    #[allow(non_snake_case)]
    pub fn GS_4_0() -> (r: ShaderTarget)
        ensures
            r == (ShaderTarget { shader_type: ShaderType::Geometry, model: ShaderModel::SM4_0 }),
    {
        ShaderTarget { shader_type: ShaderType::Geometry, model: ShaderModel::SM4_0 }
    }

    #[allow(non_snake_case)]
    pub fn GS_4_1() -> (r: ShaderTarget)
        ensures
            r == (ShaderTarget { shader_type: ShaderType::Geometry, model: ShaderModel::SM4_1 }),
    {
        ShaderTarget { shader_type: ShaderType::Geometry, model: ShaderModel::SM4_1 }
    }

    #[allow(non_snake_case)]
    pub fn GS_5_0() -> (r: ShaderTarget)
        ensures
            r == (ShaderTarget { shader_type: ShaderType::Geometry, model: ShaderModel::SM5_0 }),
    {
        ShaderTarget { shader_type: ShaderType::Geometry, model: ShaderModel::SM5_0 }
    }

    #[allow(non_snake_case)]
    pub fn GS_5_1() -> (r: ShaderTarget)
        ensures
            r == (ShaderTarget { shader_type: ShaderType::Geometry, model: ShaderModel::SM5_1 }),
    {
        ShaderTarget { shader_type: ShaderType::Geometry, model: ShaderModel::SM5_1 }
    }

    #[allow(non_snake_case)]
    pub fn HS_5_0() -> (r: ShaderTarget)
        ensures
            r == (ShaderTarget { shader_type: ShaderType::Hull, model: ShaderModel::SM5_0 }),
    {
        ShaderTarget { shader_type: ShaderType::Hull, model: ShaderModel::SM5_0 }
    }

    #[allow(non_snake_case)]
    pub fn HS_5_1() -> (r: ShaderTarget)
        ensures
            r == (ShaderTarget { shader_type: ShaderType::Hull, model: ShaderModel::SM5_1 }),
    {
        ShaderTarget { shader_type: ShaderType::Hull, model: ShaderModel::SM5_1 }
    }

    #[allow(non_snake_case)]
    pub fn DS_5_0() -> (r: ShaderTarget)
        ensures
            r == (ShaderTarget { shader_type: ShaderType::Domain, model: ShaderModel::SM5_0 }),
    {
        ShaderTarget { shader_type: ShaderType::Domain, model: ShaderModel::SM5_0 }
    }

    #[allow(non_snake_case)]
    pub fn DS_5_1() -> (r: ShaderTarget)
        ensures
            r == (ShaderTarget { shader_type: ShaderType::Domain, model: ShaderModel::SM5_1 }),
    {
        ShaderTarget { shader_type: ShaderType::Domain, model: ShaderModel::SM5_1 }
    }

    #[allow(non_snake_case)]
    pub fn CS_4_0() -> (r: ShaderTarget)
        ensures
            r == (ShaderTarget { shader_type: ShaderType::Compute, model: ShaderModel::SM4_0 }),
    {
        ShaderTarget { shader_type: ShaderType::Compute, model: ShaderModel::SM4_0 }
    }

    #[allow(non_snake_case)]
    pub fn CS_4_1() -> (r: ShaderTarget)
        ensures
            r == (ShaderTarget { shader_type: ShaderType::Compute, model: ShaderModel::SM4_1 }),
    {
        ShaderTarget { shader_type: ShaderType::Compute, model: ShaderModel::SM4_1 }
    }

    #[allow(non_snake_case)]
    pub fn CS_5_0() -> (r: ShaderTarget)
        ensures
            r == (ShaderTarget { shader_type: ShaderType::Compute, model: ShaderModel::SM5_0 }),
    {
        ShaderTarget { shader_type: ShaderType::Compute, model: ShaderModel::SM5_0 }
    }

    #[allow(non_snake_case)]
    pub fn CS_5_1() -> (r: ShaderTarget)
        ensures
            r == (ShaderTarget { shader_type: ShaderType::Compute, model: ShaderModel::SM5_1 }),
    {
        ShaderTarget { shader_type: ShaderType::Compute, model: ShaderModel::SM5_1 }
    }

    /// A target of the given stage and model.
    pub fn new(shader_type: ShaderType, model: ShaderModel) -> (r: ShaderTarget)
        ensures
            r.shader_type == shader_type,
            r.model == model,
    {
        ShaderTarget { shader_type, model }
    }

    /// The target string, such as "vs_5_0".
    pub fn as_str(&self) -> (r: String)
        ensures
            r@ == target_string(*self),
    {
        proof {
            reveal_strlit("_");
        }
        let s = String::from_str(self.shader_type.prefix());
        let s = s.concat("_");
        s.concat(self.model.suffix())
    }
}

} // verus!
