//! A segment of a mapped object, and the walk over an object's segments.

use crate::elf::{grants_execute, ProgramHeader, SegmentKind, PF_X, PT_LOAD};
use vstd::prelude::*;

verus! {

/// A segment's link-time virtual address, before the load bias is applied.
#[derive(Clone, Copy, Debug, PartialEq, Eq, Structural)]
pub struct Svma(pub usize);

/// A read-only look at one program-header entry of a mapped object.
#[derive(Debug)]
pub struct Segment<'a> {
    phdr: &'a ProgramHeader,
}

impl<'a> View for Segment<'a> {
    type V = ProgramHeader;

    /// The program-header entry that the segment shows.
    closed spec fn view(&self) -> ProgramHeader {
        *self.phdr
    }
}

impl<'a> Segment<'a> {
    /// What the segment's type code stands for.
    pub fn kind(&self) -> (kind: SegmentKind)
        ensures
            kind == SegmentKind::of(self@.p_type),
    {
        SegmentKind::from_code(self.phdr.p_type)
    }

    /// The short label of the segment's type.
    pub fn name(&self) -> (label: &'static str)
        ensures
            label@ == SegmentKind::of(self@.p_type).label(),
    {
        self.kind().name()
    }

    /// Whether the segment holds code: a LOAD segment with execute
    /// permission.
    pub fn is_code(&self) -> (code: bool)
        ensures
            code <==> self@.p_type == PT_LOAD && grants_execute(self@.p_flags),
            self@.p_type == PT_LOAD ==> (code <==> grants_execute(self@.p_flags)),
    {
        self.phdr.p_type == PT_LOAD && (self.phdr.p_flags & PF_X) != 0
    }

    /// The virtual address that the object states for the segment.
    pub fn stated_virtual_memory_address(&self) -> (svma: Svma)
        ensures
            svma.0 == self@.p_vaddr,
    {
        Svma(self.phdr.p_vaddr)
    }

    /// The segment's size in memory.
    pub fn len(&self) -> (len: usize)
        ensures
            len == self@.p_memsz,
    {
        self.phdr.p_memsz
    }
}

/// A walk over the segments of one object, in table order.
#[derive(Debug)]
pub struct SegmentIter<'a> {
    headers: &'a [ProgramHeader],
    at: usize,
}

impl<'a> View for SegmentIter<'a> {
    type V = Seq<ProgramHeader>;

    /// The entries that the walk has still to hand out, first to last.
    closed spec fn view(&self) -> Seq<ProgramHeader> {
        if self.at <= self.headers@.len() {
            self.headers@.skip(self.at as int)
        } else {
            Seq::empty()
        }
    }
}

impl<'a> SegmentIter<'a> {
    /// A walk over a whole header table.
    pub fn new(headers: &'a [ProgramHeader]) -> (iter: SegmentIter<'a>)
        ensures
            iter@ == headers@,
    {
        SegmentIter { headers, at: 0 }
    }

    /// Hands out the next segment, or `None` once the table is used up.
    pub fn next(&mut self) -> (segment: Option<Segment<'a>>)
        ensures
            old(self)@.len() == 0 ==> segment is None && final(self)@ == old(self)@,
            old(self)@.len() > 0 ==> segment is Some && segment->0@ == old(self)@[0],
            old(self)@.len() > 0 ==> final(self)@ == old(self)@.drop_first(),
    {
        if self.at < self.headers.len() {
            let phdr = &self.headers[self.at];
            self.at = self.at + 1;
            proof {
                assert(self@ =~= old(self)@.drop_first());
            }
            Some(Segment { phdr })
        } else {
            None
        }
    }
}

} // verus!
