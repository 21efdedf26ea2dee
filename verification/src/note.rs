//! Note records inside a NOTE segment, and the search for the GNU build id.
//!
//! A record is three words (the length of its name, the length of its
//! descriptor, its type), then the name and then the descriptor, each padded
//! to the segment's alignment. The words are 32 bits wide whatever the
//! platform's pointer width.

use crate::elf::{ProgramHeader, PT_NOTE};
use vstd::arithmetic::div_mod::{
    lemma_fundamental_div_mod,
    lemma_mod_bound,
    lemma_mod_multiples_basic,
};
use vstd::prelude::*;
use vstd::slice::{slice_subrange, slice_to_vec};

verus! {

/// The type of the record that carries the GNU build id.
pub const NT_GNU_BUILD_ID: u32 = 3;

/// The bytes that a record's three words take.
pub const NOTE_HEADER_LEN: usize = 12;

/// The order in which the bytes of a word lie in the image.
#[derive(Clone, Copy, Debug, PartialEq, Eq, Structural)]
pub enum ByteOrder {
    LittleEndian,
    BigEndian,
}

/// The 32-bit word that starts at `at`.
pub open spec fn word_at(image: Seq<u8>, at: int, order: ByteOrder) -> int
    recommends
        0 <= at,
        at + 4 <= image.len(),
{
    match order {
        ByteOrder::LittleEndian => image[at] + 0x100 * image[at + 1] + 0x1_0000 * image[at + 2]
            + 0x100_0000 * image[at + 3],
        ByteOrder::BigEndian => image[at + 3] + 0x100 * image[at + 2] + 0x1_0000 * image[at + 1]
            + 0x100_0000 * image[at],
    }
}

/// `offset`, moved up to the next multiple of `alignment` unless it is one.
#[verifier::opaque]
pub open spec fn align_up(offset: int, alignment: int) -> int {
    if offset % alignment == 0 {
        offset
    } else {
        offset + alignment - offset % alignment
    }
}

/// The alignment by which a NOTE segment is read: anything under 4 counts
/// as 4, and a segment that states neither 4 nor 8 is not read at all.
pub open spec fn note_alignment(stated: int) -> Option<int> {
    if stated < 4 {
        Some(4)
    } else if stated == 4 || stated == 8 {
        Some(stated)
    } else {
        None
    }
}

/// The type of the record at `at`.
pub open spec fn note_type(image: Seq<u8>, at: int, order: ByteOrder) -> int {
    word_at(image, at + 8, order)
}

/// Where the descriptor of the record at `at` starts.
pub open spec fn desc_start(image: Seq<u8>, at: int, alignment: int, order: ByteOrder) -> int {
    align_up(at + NOTE_HEADER_LEN + word_at(image, at, order), alignment)
}

/// Where the descriptor of the record at `at` ends.
pub open spec fn desc_end(image: Seq<u8>, at: int, alignment: int, order: ByteOrder) -> int {
    desc_start(image, at, alignment, order) + word_at(image, at + 4, order)
}

/// Where the record after the one at `at` starts.
pub open spec fn next_note(image: Seq<u8>, at: int, alignment: int, order: ByteOrder) -> int {
    align_up(desc_end(image, at, alignment, order), alignment)
}

/// The descriptor of the first build-id record among the records that start
/// at `at` and lie before `end`.
///
/// The walk ends without a result where it reaches `end`, where a record's
/// words would lie outside the image, or where the build-id record's
/// descriptor would.
pub open spec fn scan_notes(
    image: Seq<u8>,
    at: int,
    end: int,
    alignment: int,
    order: ByteOrder,
) -> Option<Seq<u8>>
    decreases
            (if at < end {
                end - at
            } else {
                0
            }),
    when alignment > 0 && at >= 0
    via scan_notes_ends
{
    if at >= end || at + NOTE_HEADER_LEN > image.len() {
        None
    } else if note_type(image, at, order) == NT_GNU_BUILD_ID {
        if desc_end(image, at, alignment, order) <= image.len() {
            Some(
                image.subrange(
                    desc_start(image, at, alignment, order),
                    desc_end(image, at, alignment, order),
                ),
            )
        } else {
            None
        }
    } else {
        scan_notes(image, next_note(image, at, alignment, order), end, alignment, order)
    }
}

#[via_fn]
proof fn scan_notes_ends(image: Seq<u8>, at: int, end: int, alignment: int, order: ByteOrder) {
    if !(at >= end || at + NOTE_HEADER_LEN > image.len()) {
        record_advances(image, at, alignment, order);
        assert(next_note(image, at, alignment, order) > at);
    }
}

/// The build id that one NOTE segment yields.
pub open spec fn segment_build_id(image: Seq<u8>, phdr: ProgramHeader, order: ByteOrder) -> Option<
    Seq<u8>,
> {
    match note_alignment(phdr.p_align as int) {
        Some(alignment) => scan_notes(
            image,
            phdr.p_offset as int,
            phdr.p_offset + phdr.p_filesz,
            alignment,
            order,
        ),
        None => None,
    }
}

/// Whether an entry is a NOTE segment in which a build id is found.
pub open spec fn yields_build_id(image: Seq<u8>, phdr: ProgramHeader, order: ByteOrder) -> bool {
    phdr.p_type == PT_NOTE && segment_build_id(image, phdr, order) is Some
}

/// The build id that the entries from index `from` on yield: that of the
/// first NOTE segment among them in which one is found.
pub open spec fn build_id_from(
    headers: Seq<ProgramHeader>,
    from: int,
    image: Seq<u8>,
    order: ByteOrder,
) -> Option<Seq<u8>>
    decreases headers.len() - from,
{
    if from < 0 || from >= headers.len() {
        None
    } else if yields_build_id(image, headers[from], order) {
        segment_build_id(image, headers[from], order)
    } else {
        build_id_from(headers, from + 1, image, order)
    }
}

/// The build id of an object with the given header table and bytes.
pub open spec fn build_id(headers: Seq<ProgramHeader>, image: Seq<u8>, order: ByteOrder) -> Option<
    Seq<u8>,
> {
    build_id_from(headers, 0, image, order)
}

/// Aligning up gives the least multiple of the alignment that is not below
/// the offset.
pub proof fn align_up_is_least_multiple(offset: int, alignment: int)
    requires
        alignment > 0,
    ensures
        align_up(offset, alignment) % alignment == 0,
        offset <= align_up(offset, alignment) < offset + alignment,
{
    reveal(align_up);
    lemma_mod_bound(offset, alignment);
    if offset % alignment != 0 {
        lemma_fundamental_div_mod(offset, alignment);
        let q = offset / alignment;
        assert(offset + alignment - offset % alignment == (q + 1) * alignment) by (nonlinear_arith)
            requires
                offset == alignment * q + offset % alignment,
        ;
        lemma_mod_multiples_basic(q + 1, alignment);
    }
}

/// A word is a 32-bit value.
pub proof fn word_fits(image: Seq<u8>, at: int, order: ByteOrder)
    requires
        0 <= at,
        at + 4 <= image.len(),
    ensures
        0 <= word_at(image, at, order) <= u32::MAX,
{
}

/// Every record ends behind its own three words, so a walk over records
/// moves forward.
pub proof fn record_advances(image: Seq<u8>, at: int, alignment: int, order: ByteOrder)
    requires
        alignment > 0,
        0 <= at,
        at + NOTE_HEADER_LEN <= image.len(),
    ensures
        at + NOTE_HEADER_LEN <= desc_start(image, at, alignment, order),
        desc_start(image, at, alignment, order) <= desc_end(image, at, alignment, order),
        desc_end(image, at, alignment, order) <= next_note(image, at, alignment, order),
{
    word_fits(image, at, order);
    word_fits(image, at + 4, order);
    align_up_is_least_multiple(at + NOTE_HEADER_LEN + word_at(image, at, order), alignment);
    align_up_is_least_multiple(desc_end(image, at, alignment, order), alignment);
}

/// No record is read where its three words would not lie in the image.
pub proof fn scan_outside_image(
    image: Seq<u8>,
    at: int,
    end: int,
    alignment: int,
    order: ByteOrder,
)
    requires
        alignment > 0,
        at >= 0,
        at >= end || at + NOTE_HEADER_LEN > image.len(),
    ensures
        scan_notes(image, at, end, alignment, order) is None,
{
}

/// Reads the 32-bit word that starts at `at`.
pub fn read_word(image: &[u8], at: usize, order: ByteOrder) -> (word: u32)
    requires
        at + 4 <= image@.len(),
    ensures
        word == word_at(image@, at as int, order),
{
    let b0: u32 = image[at] as u32;
    let b1: u32 = image[at + 1] as u32;
    let b2: u32 = image[at + 2] as u32;
    let b3: u32 = image[at + 3] as u32;
    match order {
        ByteOrder::LittleEndian => b0 + 0x100 * b1 + 0x1_0000 * b2 + 0x100_0000 * b3,
        ByteOrder::BigEndian => b3 + 0x100 * b2 + 0x1_0000 * b1 + 0x100_0000 * b0,
    }
}

/// The alignment by which a NOTE segment that states `stated` is read, or
/// `None` where the segment is passed over.
pub fn normalize_alignment(stated: usize) -> (alignment: Option<usize>)
    ensures
        match alignment {
            Some(a) => note_alignment(stated as int) == Some(a as int),
            None => note_alignment(stated as int) is None,
        },
{
    if stated < 4 {
        Some(4)
    } else if stated == 4 || stated == 8 {
        Some(stated)
    } else {
        None
    }
}

/// One note record, as the words at its start lay it out.
#[derive(Clone, Copy, Debug, PartialEq, Eq, Structural)]
pub struct Note {
    /// The record's type.
    pub kind: u32,
    /// Where its descriptor starts.
    pub desc_start: u128,
    /// Where its descriptor ends.
    pub desc_end: u128,
    /// Where the record after it starts.
    pub next: u128,
}

fn pad(offset: u128, alignment: u128) -> (padded: u128)
    requires
        alignment == 4 || alignment == 8,
        offset <= 0x1_0000_0000_0000_0000_0000,
    ensures
        padded == align_up(offset as int, alignment as int),
        offset <= padded < offset + alignment,
{
    proof {
        reveal(align_up);
        align_up_is_least_multiple(offset as int, alignment as int);
    }
    let over: u128 = offset % alignment;
    if over == 0 {
        offset
    } else {
        offset + (alignment - over)
    }
}

/// Reads the record whose three words start at `at`.
pub fn read_note(image: &[u8], at: usize, alignment: usize, order: ByteOrder) -> (note: Note)
    requires
        alignment == 4 || alignment == 8,
        at + NOTE_HEADER_LEN <= image@.len(),
    ensures
        note.kind == note_type(image@, at as int, order),
        note.desc_start == desc_start(image@, at as int, alignment as int, order),
        note.desc_end == desc_end(image@, at as int, alignment as int, order),
        note.next == next_note(image@, at as int, alignment as int, order),
        at + NOTE_HEADER_LEN <= note.desc_start <= note.desc_end <= note.next,
{
    proof {
        assert(image.len() == image@.len());
    }
    let name_len: u32 = read_word(image, at, order);
    let desc_len: u32 = read_word(image, at + 4, order);
    let kind: u32 = read_word(image, at + 8, order);
    let start: u128 = pad(at as u128 + 12 + name_len as u128, alignment as u128);
    let stop: u128 = start + desc_len as u128;
    let next: u128 = pad(stop, alignment as u128);
    Note { kind, desc_start: start, desc_end: stop, next }
}

/// Searches one NOTE segment for the GNU build id.
///
/// `image` holds the object's bytes from its base address on. The segment's
/// records lie from its file offset to that offset plus its file size; the
/// descriptor of the first record of the build-id type is copied out.
pub fn build_id_in_segment(image: &[u8], phdr: &ProgramHeader, order: ByteOrder) -> (id: Option<
    Vec<u8>,
>)
    ensures
        match id {
            Some(bytes) => segment_build_id(image@, *phdr, order) == Some(bytes@),
            None => segment_build_id(image@, *phdr, order) is None,
        },
        phdr.p_align > 4 && phdr.p_align != 8 ==> id is None,
{
    let alignment: usize = match normalize_alignment(phdr.p_align) {
        Some(a) => a,
        None => {
            return None;
        },
    };
    let len: usize = image.len();
    let end: u128 = phdr.p_offset as u128 + phdr.p_filesz as u128;
    let mut at: usize = phdr.p_offset;
    while (at as u128) < end && len >= NOTE_HEADER_LEN && at <= len - NOTE_HEADER_LEN
        invariant
            len == image@.len(),
            alignment == 4 || alignment == 8,
            note_alignment(phdr.p_align as int) == Some(alignment as int),
            end == phdr.p_offset + phdr.p_filesz,
            scan_notes(image@, at as int, end as int, alignment as int, order) == scan_notes(
                image@,
                phdr.p_offset as int,
                end as int,
                alignment as int,
                order,
            ),
        decreases len - at,
    {
        let note = read_note(image, at, alignment, order);
        if note.kind == NT_GNU_BUILD_ID {
            if note.desc_end <= len as u128 {
                let desc = slice_subrange(image, note.desc_start as usize, note.desc_end as usize);
                return Some(slice_to_vec(desc));
            } else {
                return None;
            }
        }
        if note.next > len as u128 {
            proof {
                scan_outside_image(image@, note.next as int, end as int, alignment as int, order);
            }
            return None;
        }
        at = note.next as usize;
    }
    None
}

/// Where a segment's records end, counted from the object's base address.
pub open spec fn records_end(phdr: ProgramHeader) -> int {
    phdr.p_offset + phdr.p_filesz
}

/// Whether an image can and has to hold a segment's records: those of a
/// NOTE segment that end within the signed pointer range.
pub open spec fn holds_records(phdr: ProgramHeader) -> bool {
    phdr.p_type == PT_NOTE && records_end(phdr) <= isize::MAX
}

/// The length of the shortest image, from the object's base address on,
/// that holds the records of every NOTE segment that an image can hold: the
/// greatest end of such a segment's records, or 0 where there is none.
pub fn image_extent(headers: &[ProgramHeader]) -> (extent: usize)
    ensures
        extent <= isize::MAX,
        forall|i: int|
            0 <= i < headers@.len() && holds_records(#[trigger] headers@[i]) ==> records_end(
                headers@[i],
            ) <= extent,
        extent == 0 || exists|i: int|
            0 <= i < headers@.len() && holds_records(#[trigger] headers@[i]) && records_end(
                headers@[i],
            ) == extent,
{
    let mut extent: usize = 0;
    let mut i: usize = 0;
    while i < headers.len()
        invariant
            i <= headers@.len(),
            extent <= isize::MAX,
            forall|j: int|
                0 <= j < i && holds_records(#[trigger] headers@[j]) ==> records_end(headers@[j])
                    <= extent,
            extent == 0 || exists|j: int|
                0 <= j < i && holds_records(#[trigger] headers@[j]) && records_end(headers@[j])
                    == extent,
        decreases headers@.len() - i,
    {
        let phdr = &headers[i];
        if phdr.p_type == PT_NOTE {
            match phdr.p_offset.checked_add(phdr.p_filesz) {
                Some(end) => {
                    if end <= isize::MAX as usize && end > extent {
                        extent = end;
                    }
                },
                None => {},
            }
        }
        i = i + 1;
    }
    extent
}

/// Searches an object's NOTE segments, in table order, for the GNU build
/// id. A segment that is no NOTE segment, or in which none is found, is
/// passed over.
pub fn find_build_id(headers: &[ProgramHeader], image: &[u8], order: ByteOrder) -> (id: Option<
    Vec<u8>,
>)
    ensures
        match id {
            Some(bytes) => build_id(headers@, image@, order) == Some(bytes@),
            None => build_id(headers@, image@, order) is None,
        },
{
    let mut i: usize = 0;
    while i < headers.len()
        invariant
            i <= headers@.len(),
            build_id_from(headers@, i as int, image@, order) == build_id(headers@, image@, order),
        decreases headers@.len() - i,
    {
        let phdr = &headers[i];
        if phdr.p_type == PT_NOTE {
            if let Some(bytes) = build_id_in_segment(image, phdr, order) {
                return Some(bytes);
            }
        }
        i = i + 1;
    }
    None
}

/// Whether entry `i` is the first from index `from` on in which a build id
/// is found.
pub open spec fn first_yielding(
    headers: Seq<ProgramHeader>,
    from: int,
    i: int,
    image: Seq<u8>,
    order: ByteOrder,
) -> bool {
    &&& from <= i < headers.len()
    &&& yields_build_id(image, headers[i], order)
    &&& forall|j: int| from <= j < i ==> !yields_build_id(image, #[trigger] headers[j], order)
}

/// The build id is the one found in the first NOTE segment that holds one,
/// and there is none exactly when no NOTE segment holds one.
pub proof fn build_id_is_first_found(
    headers: Seq<ProgramHeader>,
    image: Seq<u8>,
    order: ByteOrder,
)
    ensures
        build_id(headers, image, order) is None <==> forall|i: int|
            0 <= i < headers.len() ==> !yields_build_id(image, #[trigger] headers[i], order),
        build_id(headers, image, order) is Some ==> exists|i: int|
            #[trigger] first_yielding(headers, 0, i, image, order) && build_id(
                headers,
                image,
                order,
            ) == segment_build_id(image, headers[i], order),
{
    build_id_from_is_first_found(headers, 0, image, order);
}

proof fn build_id_from_is_first_found(
    headers: Seq<ProgramHeader>,
    from: int,
    image: Seq<u8>,
    order: ByteOrder,
)
    requires
        0 <= from,
    ensures
        build_id_from(headers, from, image, order) is None <==> forall|i: int|
            from <= i < headers.len() ==> !yields_build_id(image, #[trigger] headers[i], order),
        build_id_from(headers, from, image, order) is Some ==> exists|i: int|
            #[trigger] first_yielding(headers, from, i, image, order) && build_id_from(
                headers,
                from,
                image,
                order,
            ) == segment_build_id(image, headers[i], order),
    decreases headers.len() - from,
{
    if from < headers.len() {
        if yields_build_id(image, headers[from], order) {
            assert(first_yielding(headers, from, from, image, order));
        } else {
            build_id_from_is_first_found(headers, from + 1, image, order);
            if build_id_from(headers, from + 1, image, order) is Some {
                let i = choose|i: int|
                    #[trigger] first_yielding(headers, from + 1, i, image, order) && build_id_from(
                        headers,
                        from + 1,
                        image,
                        order,
                    ) == segment_build_id(image, headers[i], order);
                assert(first_yielding(headers, from, i, image, order));
            }
        }
    }
}

} // verus!
