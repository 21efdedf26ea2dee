//! One object mapped into the process.

use crate::elf::ProgramHeader;
use crate::note::{build_id, find_build_id, ByteOrder};
use crate::segment::SegmentIter;
use vstd::prelude::*;

verus! {

/// The offset between the addresses that an object states and those at
/// which it runs: a runtime address is the bias plus the stated address.
#[derive(Clone, Copy, Debug, PartialEq, Eq, Structural)]
pub struct Bias(pub isize);

/// What tells one build of an object from another.
#[derive(Clone, Debug, PartialEq, Eq, Hash)]
pub enum SharedLibraryId {
    /// The descriptor of the object's GNU build-id note.
    GnuBuildId(Vec<u8>),
}

impl View for SharedLibraryId {
    type V = Seq<u8>;

    /// The bytes of the id.
    open spec fn view(&self) -> Seq<u8> {
        match self {
            SharedLibraryId::GnuBuildId(bytes) => bytes@,
        }
    }
}

/// What a library handle stands for.
pub struct LibraryModel {
    /// The size of the loader's record of the object.
    pub size: usize,
    /// The address at which the object is mapped.
    pub addr: usize,
    /// The object's path; empty where none is known.
    pub name: Seq<u8>,
    /// The object's program-header table, in the loader's order.
    pub headers: Seq<ProgramHeader>,
    /// The object's bytes in memory, from its base address on.
    pub image: Seq<u8>,
    /// The order of the bytes in the image's words.
    pub order: ByteOrder,
}

/// The name under which an object goes: the one the loader gives, or, where
/// that one is empty, the path of the process's executable if it is known.
pub open spec fn resolved_name(os_name: Seq<u8>, executable: Option<Seq<u8>>) -> Seq<u8> {
    if os_name.len() == 0 && executable is Some {
        executable->0
    } else {
        os_name
    }
}

/// The bytes of a path that may be missing.
pub open spec fn path_bytes(path: Option<Vec<u8>>) -> Option<Seq<u8>> {
    match path {
        Some(bytes) => Some(bytes@),
        None => None,
    }
}

/// Whether the loader gave an object no name, so that the path of the
/// process's executable is wanted in its place. A name that is not empty
/// stands whatever that path is.
pub fn name_is_missing(os_name: &[u8]) -> (missing: bool)
    ensures
        missing <==> os_name@.len() == 0,
        !missing ==> forall|executable: Option<Seq<u8>>|
            #[trigger] resolved_name(os_name@, executable) == os_name@,
{
    os_name.len() == 0
}

/// One mapped object: its name, where it lies, and its header table.
///
/// The header table and the image are borrowed from whoever enumerates the
/// objects, and are good for one visit only.
#[derive(Debug)]
pub struct SharedLibrary<'a> {
    size: usize,
    addr: usize,
    name: Vec<u8>,
    headers: &'a [ProgramHeader],
    image: &'a [u8],
    order: ByteOrder,
}

impl<'a> View for SharedLibrary<'a> {
    type V = LibraryModel;

    closed spec fn view(&self) -> LibraryModel {
        LibraryModel {
            size: self.size,
            addr: self.addr,
            name: self.name@,
            headers: self.headers@,
            image: self.image@,
            order: self.order,
        }
    }
}

impl<'a> SharedLibrary<'a> {
    /// The handle of the object that the loader reports as `os_name` at
    /// `addr`. An empty `os_name` gives way to `executable`, the path of
    /// the process's own executable, where that is known.
    pub fn new(
        size: usize,
        addr: usize,
        os_name: Vec<u8>,
        executable: Option<Vec<u8>>,
        headers: &'a [ProgramHeader],
        image: &'a [u8],
        order: ByteOrder,
    ) -> (lib: SharedLibrary<'a>)
        ensures
            lib@ == (LibraryModel {
                size,
                addr,
                name: resolved_name(os_name@, path_bytes(executable)),
                headers: headers@,
                image: image@,
                order,
            }),
            os_name@.len() == 0 && executable is Some ==> lib@.name == executable->0@,
            os_name@.len() > 0 ==> lib@.name == os_name@,
    {
        let name = if os_name.len() == 0 {
            match executable {
                Some(path) => path,
                None => os_name,
            }
        } else {
            os_name
        };
        SharedLibrary { size, addr, name, headers, image, order }
    }

    /// The object's name; it may be empty.
    pub fn name(&self) -> (name: &[u8])
        ensures
            name@ == self@.name,
    {
        self.name.as_slice()
    }

    /// The address at which the object is mapped.
    pub fn address(&self) -> (addr: usize)
        ensures
            addr == self@.addr,
    {
        self.addr
    }

    /// The object's build id: that of the first of its NOTE segments, in
    /// table order, in which one is found.
    pub fn id(&self) -> (id: Option<SharedLibraryId>)
        ensures
            match id {
                Some(found) => build_id(self@.headers, self@.image, self@.order) == Some(found@),
                None => build_id(self@.headers, self@.image, self@.order) is None,
            },
    {
        match find_build_id(self.headers, self.image, self.order) {
            Some(bytes) => Some(SharedLibraryId::GnuBuildId(bytes)),
            None => None,
        }
    }

    /// A walk over the object's segments, in table order. Every call starts
    /// at the first entry again.
    pub fn segments(&self) -> (iter: SegmentIter<'a>)
        ensures
            iter@ == self@.headers,
    {
        SegmentIter::new(self.headers)
    }

    /// The object's load bias. The base address must not exceed the signed
    /// pointer range.
    pub fn virtual_memory_bias(&self) -> (bias: Bias)
        requires
            self@.addr <= isize::MAX,
        ensures
            bias.0 == self@.addr,
    {
        Bias(self.addr as isize)
    }
}

} // verus!
