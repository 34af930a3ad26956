//! Compile, strip and disassemble flag sets.

use vstd::prelude::*;

verus! {

/// Flags that steer compilation.
#[derive(Debug, Clone, Copy, PartialEq, Eq, Hash, Structural)]
pub struct CompileFlags {
    pub bits: u32,
}

/// The optimisation bits.
pub const OPTIMIZATION_MASK: u32 = 0xC000;

/// The bits that select optimisation level `level`; levels above 3 mean 3.
pub open spec fn optimization_bits(level: u32) -> u32 {
    if level == 0 {
        0x4000
    } else if level == 1 {
        0
    } else if level == 2 {
        0xC000
    } else {
        0x8000
    }
}

impl CompileFlags {
    #[allow(non_snake_case)]
    pub fn DEBUG() -> (r: CompileFlags)
        ensures
            r == (CompileFlags { bits: 1 }),
    {
        CompileFlags { bits: 1 }
    }

    #[allow(non_snake_case)]
    pub fn SKIP_VALIDATION() -> (r: CompileFlags)
        ensures
            r == (CompileFlags { bits: 2 }),
    {
        CompileFlags { bits: 2 }
    }

    #[allow(non_snake_case)]
    pub fn SKIP_OPTIMIZATION() -> (r: CompileFlags)
        ensures
            r == (CompileFlags { bits: 4 }),
    {
        CompileFlags { bits: 4 }
    }

    #[allow(non_snake_case)]
    pub fn PACK_MATRIX_ROW_MAJOR() -> (r: CompileFlags)
        ensures
            r == (CompileFlags { bits: 8 }),
    {
        CompileFlags { bits: 8 }
    }

    #[allow(non_snake_case)]
    pub fn PACK_MATRIX_COLUMN_MAJOR() -> (r: CompileFlags)
        ensures
            r == (CompileFlags { bits: 0x10 }),
    {
        CompileFlags { bits: 0x10 }
    }

    #[allow(non_snake_case)]
    pub fn PARTIAL_PRECISION() -> (r: CompileFlags)
        ensures
            r == (CompileFlags { bits: 0x20 }),
    {
        CompileFlags { bits: 0x20 }
    }

    #[allow(non_snake_case)]
    pub fn FORCE_VS_SOFTWARE_NO_OPT() -> (r: CompileFlags)
        ensures
            r == (CompileFlags { bits: 0x40 }),
    {
        CompileFlags { bits: 0x40 }
    }

    #[allow(non_snake_case)]
    pub fn FORCE_PS_SOFTWARE_NO_OPT() -> (r: CompileFlags)
        ensures
            r == (CompileFlags { bits: 0x80 }),
    {
        CompileFlags { bits: 0x80 }
    }

    #[allow(non_snake_case)]
    pub fn NO_PRESHADER() -> (r: CompileFlags)
        ensures
            r == (CompileFlags { bits: 0x100 }),
    {
        CompileFlags { bits: 0x100 }
    }

    #[allow(non_snake_case)]
    pub fn AVOID_FLOW_CONTROL() -> (r: CompileFlags)
        ensures
            r == (CompileFlags { bits: 0x200 }),
    {
        CompileFlags { bits: 0x200 }
    }

    #[allow(non_snake_case)]
    pub fn PREFER_FLOW_CONTROL() -> (r: CompileFlags)
        ensures
            r == (CompileFlags { bits: 0x400 }),
    {
        CompileFlags { bits: 0x400 }
    }

    #[allow(non_snake_case)]
    pub fn ENABLE_STRICTNESS() -> (r: CompileFlags)
        ensures
            r == (CompileFlags { bits: 0x800 }),
    {
        CompileFlags { bits: 0x800 }
    }

    #[allow(non_snake_case)]
    pub fn ENABLE_BACKWARDS_COMPATIBILITY() -> (r: CompileFlags)
        ensures
            r == (CompileFlags { bits: 0x1000 }),
    {
        CompileFlags { bits: 0x1000 }
    }

    #[allow(non_snake_case)]
    pub fn IEEE_STRICTNESS() -> (r: CompileFlags)
        ensures
            r == (CompileFlags { bits: 0x2000 }),
    {
        CompileFlags { bits: 0x2000 }
    }

    #[allow(non_snake_case)]
    pub fn OPTIMIZATION_LEVEL0() -> (r: CompileFlags)
        ensures
            r == (CompileFlags { bits: 0x4000 }),
    {
        CompileFlags { bits: 0x4000 }
    }

    #[allow(non_snake_case)]
    pub fn OPTIMIZATION_LEVEL1() -> (r: CompileFlags)
        ensures
            r == (CompileFlags { bits: 0 }),
    {
        CompileFlags { bits: 0 }
    }

    #[allow(non_snake_case)]
    pub fn OPTIMIZATION_LEVEL2() -> (r: CompileFlags)
        ensures
            r == (CompileFlags { bits: 0xC000 }),
    {
        CompileFlags { bits: 0xC000 }
    }

    #[allow(non_snake_case)]
    pub fn OPTIMIZATION_LEVEL3() -> (r: CompileFlags)
        ensures
            r == (CompileFlags { bits: 0x8000 }),
    {
        CompileFlags { bits: 0x8000 }
    }

    #[allow(non_snake_case)]
    pub fn WARNINGS_ARE_ERRORS() -> (r: CompileFlags)
        ensures
            r == (CompileFlags { bits: 0x4_0000 }),
    {
        CompileFlags { bits: 0x4_0000 }
    }

    #[allow(non_snake_case)]
    pub fn RESOURCES_MAY_ALIAS() -> (r: CompileFlags)
        ensures
            r == (CompileFlags { bits: 0x8_0000 }),
    {
        CompileFlags { bits: 0x8_0000 }
    }

    #[allow(non_snake_case)]
    pub fn ENABLE_UNBOUNDED_DESCRIPTOR_TABLES() -> (r: CompileFlags)
        ensures
            r == (CompileFlags { bits: 0x10_0000 }),
    {
        CompileFlags { bits: 0x10_0000 }
    }

    #[allow(non_snake_case)]
    pub fn ALL_RESOURCES_BOUND() -> (r: CompileFlags)
        ensures
            r == (CompileFlags { bits: 0x20_0000 }),
    {
        CompileFlags { bits: 0x20_0000 }
    }

    #[allow(non_snake_case)]
    pub fn DEBUG_NAME_FOR_SOURCE() -> (r: CompileFlags)
        ensures
            r == (CompileFlags { bits: 0x40_0000 }),
    {
        CompileFlags { bits: 0x40_0000 }
    }

    #[allow(non_snake_case)]
    pub fn DEBUG_NAME_FOR_BINARY() -> (r: CompileFlags)
        ensures
            r == (CompileFlags { bits: 0x80_0000 }),
    {
        CompileFlags { bits: 0x80_0000 }
    }

    /// No flag set.
    pub fn empty() -> (r: CompileFlags)
        ensures
            r.bits == 0,
    {
        CompileFlags { bits: 0 }
    }

    /// The raw bits.
    pub fn bits(&self) -> (r: u32)
        ensures
            r == self.bits,
    {
        self.bits
    }

    /// Every flag of `other` is set in `self`.
    pub fn contains(&self, other: CompileFlags) -> (r: bool)
        ensures
            r == (self.bits & other.bits == other.bits),
    {
        self.bits & other.bits == other.bits
    }

    /// The flags of both sets.
    pub fn union(self, other: CompileFlags) -> (r: CompileFlags)
        ensures
            r.bits == self.bits | other.bits,
    {
        CompileFlags { bits: self.bits | other.bits }
    }

    /// The flags selecting optimisation level `level` (0 to 3; above 3
    /// means 3).
    pub fn optimization_level(level: u32) -> (r: CompileFlags)
        ensures
            r.bits == optimization_bits(level),
    {
        if level == 0 {
            CompileFlags::OPTIMIZATION_LEVEL0()
        } else if level == 1 {
            CompileFlags::OPTIMIZATION_LEVEL1()
        } else if level == 2 {
            CompileFlags::OPTIMIZATION_LEVEL2()
        } else {
            CompileFlags::OPTIMIZATION_LEVEL3()
        }
    }

    /// These flags with the optimisation bits replaced by those of `level`.
    pub fn with_optimization_level(self, level: u32) -> (r: CompileFlags)
        ensures
            r.bits == (self.bits & !OPTIMIZATION_MASK) | optimization_bits(level),
    {
        let cleared = self.bits & !OPTIMIZATION_MASK;
        CompileFlags { bits: cleared | CompileFlags::optimization_level(level).bits }
    }
}

impl std::ops::BitOr for CompileFlags {
    type Output = CompileFlags;

    fn bitor(self, other: CompileFlags) -> (r: CompileFlags) {
        CompileFlags { bits: self.bits | other.bits }
    }
}

impl vstd::std_specs::ops::BitOrSpecImpl for CompileFlags {
    open spec fn obeys_bitor_spec() -> bool {
        true
    }

    open spec fn bitor_req(self, other: CompileFlags) -> bool {
        true
    }

    open spec fn bitor_spec(self, other: CompileFlags) -> CompileFlags {
        CompileFlags { bits: self.bits | other.bits }
    }
}

/// Flags that select what a strip removes.
#[derive(Debug, Clone, Copy, PartialEq, Eq, Hash, Structural)]
pub struct StripFlags {
    pub bits: u32,
}

impl StripFlags {
    #[allow(non_snake_case)]
    pub fn DEBUG_INFO() -> (r: StripFlags)
        ensures
            r == (StripFlags { bits: 1 }),
    {
        StripFlags { bits: 1 }
    }

    #[allow(non_snake_case)]
    pub fn REFLECTION_DATA() -> (r: StripFlags)
        ensures
            r == (StripFlags { bits: 2 }),
    {
        StripFlags { bits: 2 }
    }

    #[allow(non_snake_case)]
    pub fn TEST_BLOBS() -> (r: StripFlags)
        ensures
            r == (StripFlags { bits: 4 }),
    {
        StripFlags { bits: 4 }
    }

    #[allow(non_snake_case)]
    pub fn PRIVATE_DATA() -> (r: StripFlags)
        ensures
            r == (StripFlags { bits: 8 }),
    {
        StripFlags { bits: 8 }
    }

    #[allow(non_snake_case)]
    pub fn ROOT_SIGNATURE() -> (r: StripFlags)
        ensures
            r == (StripFlags { bits: 0x10 }),
    {
        StripFlags { bits: 0x10 }
    }
}

/// Flags that shape disassembly output.
#[derive(Debug, Clone, Copy, PartialEq, Eq, Hash, Structural)]
pub struct DisassembleFlags {
    pub bits: u32,
}

impl DisassembleFlags {
    #[allow(non_snake_case)]
    pub fn ENABLE_COLOR_CODE() -> (r: DisassembleFlags)
        ensures
            r == (DisassembleFlags { bits: 1 }),
    {
        DisassembleFlags { bits: 1 }
    }

    #[allow(non_snake_case)]
    pub fn ENABLE_DEFAULT_VALUE_PRINTS() -> (r: DisassembleFlags)
        ensures
            r == (DisassembleFlags { bits: 2 }),
    {
        DisassembleFlags { bits: 2 }
    }

    #[allow(non_snake_case)]
    pub fn ENABLE_INSTRUCTION_NUMBERING() -> (r: DisassembleFlags)
        ensures
            r == (DisassembleFlags { bits: 4 }),
    {
        DisassembleFlags { bits: 4 }
    }

    #[allow(non_snake_case)]
    pub fn ENABLE_INSTRUCTION_CYCLE() -> (r: DisassembleFlags)
        ensures
            r == (DisassembleFlags { bits: 8 }),
    {
        DisassembleFlags { bits: 8 }
    }

    #[allow(non_snake_case)]
    pub fn DISABLE_DEBUG_INFO() -> (r: DisassembleFlags)
        ensures
            r == (DisassembleFlags { bits: 0x10 }),
    {
        DisassembleFlags { bits: 0x10 }
    }

    #[allow(non_snake_case)]
    pub fn ENABLE_INSTRUCTION_OFFSET() -> (r: DisassembleFlags)
        ensures
            r == (DisassembleFlags { bits: 0x20 }),
    {
        DisassembleFlags { bits: 0x20 }
    }

    #[allow(non_snake_case)]
    pub fn INSTRUCTION_ONLY() -> (r: DisassembleFlags)
        ensures
            r == (DisassembleFlags { bits: 0x40 }),
    {
        DisassembleFlags { bits: 0x40 }
    }

    #[allow(non_snake_case)]
    pub fn PRINT_HEX_LITERALS() -> (r: DisassembleFlags)
        ensures
            r == (DisassembleFlags { bits: 0x80 }),
    {
        DisassembleFlags { bits: 0x80 }
    }
}

} // verus!
