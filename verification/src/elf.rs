//! The ELF program-header entry and its segment type codes.

use vstd::prelude::*;

verus! {

pub const PT_NULL: u32 = 0;

pub const PT_LOAD: u32 = 1;

pub const PT_DYNAMIC: u32 = 2;

pub const PT_INTERP: u32 = 3;

pub const PT_NOTE: u32 = 4;

pub const PT_SHLIB: u32 = 5;

pub const PT_PHDR: u32 = 6;

pub const PT_TLS: u32 = 7;

pub const PT_NUM: u32 = 8;

pub const PT_LOOS: u32 = 0x6000_0000;

pub const PT_GNU_EH_FRAME: u32 = 0x6474_e550;

pub const PT_GNU_STACK: u32 = 0x6474_e551;

pub const PT_GNU_RELRO: u32 = 0x6474_e552;

/// Execute permission in a segment's flag mask.
pub const PF_X: u32 = 1;

/// One entry of an object's program-header table.
///
/// The 32-bit and the 64-bit layouts hold the same fields; the
/// address-sized ones are kept at the platform's pointer width.
#[derive(Clone, Copy, Debug, PartialEq, Eq, Structural)]
pub struct ProgramHeader {
    pub p_type: u32,
    pub p_flags: u32,
    pub p_offset: usize,
    pub p_vaddr: usize,
    pub p_paddr: usize,
    pub p_filesz: usize,
    pub p_memsz: usize,
    pub p_align: usize,
}

/// What a segment type code stands for; every code without a label of its
/// own is `Unknown`.
#[derive(Clone, Copy, Debug, PartialEq, Eq, Structural)]
pub enum SegmentKind {
    Null,
    Load,
    Dynamic,
    Interp,
    Note,
    Shlib,
    Phdr,
    Tls,
    Num,
    Loos,
    GnuEhFrame,
    GnuStack,
    GnuRelro,
    Unknown,
}

impl SegmentKind {
    /// The kind that a raw type code denotes.
    pub open spec fn of(code: u32) -> SegmentKind {
        if code == PT_NULL {
            SegmentKind::Null
        } else if code == PT_LOAD {
            SegmentKind::Load
        } else if code == PT_DYNAMIC {
            SegmentKind::Dynamic
        } else if code == PT_INTERP {
            SegmentKind::Interp
        } else if code == PT_NOTE {
            SegmentKind::Note
        } else if code == PT_SHLIB {
            SegmentKind::Shlib
        } else if code == PT_PHDR {
            SegmentKind::Phdr
        } else if code == PT_TLS {
            SegmentKind::Tls
        } else if code == PT_NUM {
            SegmentKind::Num
        } else if code == PT_LOOS {
            SegmentKind::Loos
        } else if code == PT_GNU_EH_FRAME {
            SegmentKind::GnuEhFrame
        } else if code == PT_GNU_STACK {
            SegmentKind::GnuStack
        } else if code == PT_GNU_RELRO {
            SegmentKind::GnuRelro
        } else {
            SegmentKind::Unknown
        }
    }

    /// The short label of a kind.
    pub open spec fn label(self) -> Seq<char> {
        match self {
            SegmentKind::Null => "NULL"@,
            SegmentKind::Load => "LOAD"@,
            SegmentKind::Dynamic => "DYNAMIC"@,
            SegmentKind::Interp => "INTERP"@,
            SegmentKind::Note => "NOTE"@,
            SegmentKind::Shlib => "SHLIB"@,
            SegmentKind::Phdr => "PHDR"@,
            SegmentKind::Tls => "TLS"@,
            SegmentKind::Num => "NUM"@,
            SegmentKind::Loos => "LOOS"@,
            SegmentKind::GnuEhFrame => "GNU_EH_FRAME"@,
            SegmentKind::GnuStack => "GNU_STACK"@,
            SegmentKind::GnuRelro => "GNU_RELRO"@,
            SegmentKind::Unknown => "(unknown segment type)"@,
        }
    }

    /// Classifies a raw type code.
    pub fn from_code(code: u32) -> (kind: SegmentKind)
        ensures
            kind == SegmentKind::of(code),
    {
        match code {
            PT_NULL => SegmentKind::Null,
            PT_LOAD => SegmentKind::Load,
            PT_DYNAMIC => SegmentKind::Dynamic,
            PT_INTERP => SegmentKind::Interp,
            PT_NOTE => SegmentKind::Note,
            PT_SHLIB => SegmentKind::Shlib,
            PT_PHDR => SegmentKind::Phdr,
            PT_TLS => SegmentKind::Tls,
            PT_NUM => SegmentKind::Num,
            PT_LOOS => SegmentKind::Loos,
            PT_GNU_EH_FRAME => SegmentKind::GnuEhFrame,
            PT_GNU_STACK => SegmentKind::GnuStack,
            PT_GNU_RELRO => SegmentKind::GnuRelro,
            _ => SegmentKind::Unknown,
        }
    }

    /// The label under which a kind is shown.
    pub fn name(self) -> (label: &'static str)
        ensures
            label@ == self.label(),
    {
        match self {
            SegmentKind::Null => "NULL",
            SegmentKind::Load => "LOAD",
            SegmentKind::Dynamic => "DYNAMIC",
            SegmentKind::Interp => "INTERP",
            SegmentKind::Note => "NOTE",
            SegmentKind::Shlib => "SHLIB",
            SegmentKind::Phdr => "PHDR",
            SegmentKind::Tls => "TLS",
            SegmentKind::Num => "NUM",
            SegmentKind::Loos => "LOOS",
            SegmentKind::GnuEhFrame => "GNU_EH_FRAME",
            SegmentKind::GnuStack => "GNU_STACK",
            SegmentKind::GnuRelro => "GNU_RELRO",
            SegmentKind::Unknown => "(unknown segment type)",
        }
    }
}

/// No two kinds share a label: the label tells the kind.
pub proof fn label_tells_kind(a: SegmentKind, b: SegmentKind)
    ensures
        a.label() == b.label() <==> a == b,
{
    reveal_strlit("NULL");
    reveal_strlit("LOAD");
    reveal_strlit("DYNAMIC");
    reveal_strlit("INTERP");
    reveal_strlit("NOTE");
    reveal_strlit("SHLIB");
    reveal_strlit("PHDR");
    reveal_strlit("TLS");
    reveal_strlit("NUM");
    reveal_strlit("LOOS");
    reveal_strlit("GNU_EH_FRAME");
    reveal_strlit("GNU_STACK");
    reveal_strlit("GNU_RELRO");
    reveal_strlit("(unknown segment type)");
    if a.label() == b.label() {
        assert(a.label().len() == b.label().len());
        assert(a.label()[0] == b.label()[0]);
        assert(a.label()[1] == b.label()[1]);
        assert(a.label()[2] == b.label()[2]);
        if a.label().len() > 4 {
            assert(a.label()[4] == b.label()[4]);
        }
    }
}

/// Whether a flag mask grants execute permission.
pub open spec fn grants_execute(flags: u32) -> bool {
    flags & PF_X != 0
}

/// The execute permission is the lowest bit of the mask: a mask grants it
/// exactly when it is odd.
pub proof fn execute_is_lowest_bit(flags: u32)
    ensures
        grants_execute(flags) <==> flags % 2 == 1,
{
    assert((flags & 1 != 0) <==> flags % 2 == 1) by (bit_vector);
}

} // verus!
