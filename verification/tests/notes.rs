use findshlibs::elf::{ProgramHeader, PT_LOAD, PT_NOTE};
use findshlibs::note::{
    build_id_in_segment, find_build_id, image_extent, normalize_alignment, read_note, read_word,
    Note, NOTE_HEADER_LEN, NT_GNU_BUILD_ID,
};
use findshlibs::ByteOrder;

fn segment(p_type: u32, p_offset: usize, p_filesz: usize, p_align: usize) -> ProgramHeader {
    ProgramHeader {
        p_type,
        p_flags: 4,
        p_offset,
        p_vaddr: p_offset,
        p_paddr: p_offset,
        p_filesz,
        p_memsz: p_filesz,
        p_align,
    }
}

fn word(value: u32, order: ByteOrder) -> [u8; 4] {
    match order {
        ByteOrder::LittleEndian => value.to_le_bytes(),
        ByteOrder::BigEndian => value.to_be_bytes(),
    }
}

fn pad_to(image: &mut Vec<u8>, alignment: usize) {
    while image.len() % alignment != 0 {
        image.push(0);
    }
}

fn push_note(
    image: &mut Vec<u8>,
    name: &[u8],
    kind: u32,
    desc: &[u8],
    alignment: usize,
    order: ByteOrder,
) {
    image.extend_from_slice(&word(name.len() as u32, order));
    image.extend_from_slice(&word(desc.len() as u32, order));
    image.extend_from_slice(&word(kind, order));
    image.extend_from_slice(name);
    pad_to(image, alignment);
    image.extend_from_slice(desc);
    pad_to(image, alignment);
}

const ID: [u8; 20] = [
    0x5f, 0x0c, 0x8b, 0x11, 0x27, 0x9e, 0xa4, 0x30, 0x66, 0xd1, 0x02, 0xfe, 0x73, 0x48, 0xbc, 0x19,
    0xe0, 0x5a, 0x97, 0x2d,
];

const LE: ByteOrder = ByteOrder::LittleEndian;

const BE: ByteOrder = ByteOrder::BigEndian;

#[test]
fn constants_of_the_note_layout() {
    assert_eq!(NT_GNU_BUILD_ID, 3);
    assert_eq!(NOTE_HEADER_LEN, 12);
}

#[test]
fn word_in_either_byte_order() {
    let image = [0xff, 0x78, 0x56, 0x34, 0x12, 0x00];
    assert_eq!(read_word(&image, 1, LE), 0x1234_5678);
    assert_eq!(read_word(&image, 1, BE), 0x7856_3412);
    assert_eq!(read_word(&image, 0, LE), 0x3456_78ff);
    assert_eq!(read_word(&image, 2, BE), 0x5634_1200);
    assert_eq!(read_word(&[0xff, 0xff, 0xff, 0xff], 0, LE), u32::MAX);
    assert_eq!(read_word(&[0xff, 0xff, 0xff, 0xff], 0, BE), u32::MAX);
    assert_eq!(read_word(&[1, 0, 0, 0], 0, LE), 1);
    assert_eq!(read_word(&[1, 0, 0, 0], 0, BE), 0x0100_0000);
}

#[test]
fn small_alignments_count_as_four() {
    assert_eq!(normalize_alignment(0), Some(4));
    assert_eq!(normalize_alignment(1), Some(4));
    assert_eq!(normalize_alignment(2), Some(4));
    assert_eq!(normalize_alignment(3), Some(4));
    assert_eq!(normalize_alignment(4), Some(4));
    assert_eq!(normalize_alignment(8), Some(8));
}

#[test]
fn other_alignments_are_passed_over() {
    assert_eq!(normalize_alignment(5), None);
    assert_eq!(normalize_alignment(6), None);
    assert_eq!(normalize_alignment(7), None);
    assert_eq!(normalize_alignment(9), None);
    assert_eq!(normalize_alignment(16), None);
    assert_eq!(normalize_alignment(0x1000), None);
    assert_eq!(normalize_alignment(usize::MAX), None);
}

#[test]
fn record_layout_with_alignment_four() {
    let mut image = vec![0u8; 8];
    push_note(&mut image, b"GNU\0\0", 3, &[1, 2, 3], 4, LE);
    let note = read_note(&image, 8, 4, LE);
    assert_eq!(note, Note { kind: 3, desc_start: 28, desc_end: 31, next: 32 });
}

#[test]
fn record_layout_with_alignment_eight() {
    let mut image = Vec::new();
    push_note(&mut image, b"GNU\0", 5, &[9; 10], 8, LE);
    assert_eq!(image.len(), 32);
    let note = read_note(&image, 0, 8, LE);
    assert_eq!(note, Note { kind: 5, desc_start: 16, desc_end: 26, next: 32 });
    let narrow = read_note(&image, 0, 4, LE);
    assert_eq!(narrow, Note { kind: 5, desc_start: 16, desc_end: 26, next: 28 });
}

#[test]
fn record_with_lengths_beyond_the_image() {
    let mut image = Vec::new();
    image.extend_from_slice(&[0xff; 4]);
    image.extend_from_slice(&[0xff; 4]);
    image.extend_from_slice(&[7, 0, 0, 0]);
    let note = read_note(&image, 0, 8, LE);
    assert_eq!(note.kind, 7);
    assert_eq!(note.desc_start, 0x1_0000_0010);
    assert_eq!(note.desc_end, 0x2_0000_000f);
    assert_eq!(note.next, 0x2_0000_0010);
}

#[test]
fn build_id_is_found_behind_other_records() {
    let mut image = vec![0u8; 0x20];
    push_note(&mut image, b"GNU\0", 1, &[0; 16], 4, LE);
    push_note(&mut image, b"GNU\0", 3, &ID, 4, LE);
    let phdr = segment(PT_NOTE, 0x20, image.len() - 0x20, 4);
    assert_eq!(build_id_in_segment(&image, &phdr, LE), Some(ID.to_vec()));
}

#[test]
fn build_id_with_alignment_eight() {
    let mut image = vec![0u8; 0x40];
    push_note(&mut image, b"GNU\0", 5, &[0xc0, 0, 0, 2, 4, 0, 0, 0, 3, 0, 0, 0], 8, LE);
    push_note(&mut image, b"GNU\0", 3, &ID, 8, LE);
    let phdr = segment(PT_NOTE, 0x40, image.len() - 0x40, 8);
    assert_eq!(build_id_in_segment(&image, &phdr, LE), Some(ID.to_vec()));
}

#[test]
fn name_and_descriptor_are_padded() {
    let mut image = Vec::new();
    push_note(&mut image, b"a\0", 7, &[1, 2, 3, 4, 5], 4, LE);
    push_note(&mut image, b"longer-name\0\0", 3, &[0xaa, 0xbb, 0xcc], 4, LE);
    let phdr = segment(PT_NOTE, 0, image.len(), 4);
    assert_eq!(build_id_in_segment(&image, &phdr, LE), Some(vec![0xaa, 0xbb, 0xcc]));
}

#[test]
fn first_build_id_record_wins() {
    let mut image = Vec::new();
    push_note(&mut image, b"GNU\0", 3, &[1, 1, 1, 1], 4, LE);
    push_note(&mut image, b"GNU\0", 3, &[2, 2, 2, 2], 4, LE);
    let phdr = segment(PT_NOTE, 0, image.len(), 4);
    assert_eq!(build_id_in_segment(&image, &phdr, LE), Some(vec![1, 1, 1, 1]));
}

#[test]
fn empty_descriptor_is_an_empty_id() {
    let mut image = Vec::new();
    push_note(&mut image, b"GNU\0", 3, &[], 4, LE);
    let phdr = segment(PT_NOTE, 0, image.len(), 4);
    assert_eq!(build_id_in_segment(&image, &phdr, LE), Some(Vec::new()));
}

#[test]
fn segment_without_build_id_record() {
    let mut image = Vec::new();
    push_note(&mut image, b"GNU\0", 1, &[0; 16], 4, LE);
    push_note(&mut image, b"GNU\0", 5, &[0; 8], 4, LE);
    let phdr = segment(PT_NOTE, 0, image.len(), 4);
    assert_eq!(build_id_in_segment(&image, &phdr, LE), None);
}

#[test]
fn empty_segment_has_no_build_id() {
    let mut image = Vec::new();
    push_note(&mut image, b"GNU\0", 3, &ID, 4, LE);
    let phdr = segment(PT_NOTE, 0, 0, 4);
    assert_eq!(build_id_in_segment(&image, &phdr, LE), None);
    assert_eq!(build_id_in_segment(&[], &phdr, LE), None);
}

#[test]
fn records_behind_the_segment_are_not_read() {
    let mut image = Vec::new();
    push_note(&mut image, b"GNU\0", 1, &[0; 4], 4, LE);
    let end = image.len();
    push_note(&mut image, b"GNU\0", 3, &ID, 4, LE);
    let phdr = segment(PT_NOTE, 0, end, 4);
    assert_eq!(build_id_in_segment(&image, &phdr, LE), None);
    let whole = segment(PT_NOTE, 0, image.len(), 4);
    assert_eq!(build_id_in_segment(&image, &whole, LE), Some(ID.to_vec()));
}

#[test]
fn unusual_alignment_yields_none() {
    let mut image = Vec::new();
    push_note(&mut image, b"GNU\0", 3, &ID, 4, LE);
    for alignment in [5usize, 6, 7, 9, 12, 16, 32, 0x1000, usize::MAX] {
        let phdr = segment(PT_NOTE, 0, image.len(), alignment);
        assert_eq!(build_id_in_segment(&image, &phdr, LE), None);
    }
}

#[test]
fn small_alignment_is_read_as_four() {
    let mut image = Vec::new();
    push_note(&mut image, b"GNU\0\0", 3, &ID, 4, LE);
    for alignment in [0usize, 1, 2, 3, 4] {
        let phdr = segment(PT_NOTE, 0, image.len(), alignment);
        assert_eq!(build_id_in_segment(&image, &phdr, LE), Some(ID.to_vec()));
    }
}

#[test]
fn padding_counts_from_the_base_address() {
    let mut image = vec![0u8; 2];
    image.extend_from_slice(&word(3, LE));
    image.extend_from_slice(&word(2, LE));
    image.extend_from_slice(&word(3, LE));
    image.extend_from_slice(b"abc");
    image.extend_from_slice(&[0; 3]);
    image.extend_from_slice(&[0x11, 0x22]);
    let phdr = segment(PT_NOTE, 2, image.len() - 2, 4);
    assert_eq!(build_id_in_segment(&image, &phdr, LE), Some(vec![0x11, 0x22]));
}

#[test]
fn big_endian_image() {
    let mut image = vec![0u8; 0x10];
    push_note(&mut image, b"GNU\0", 1, &[0; 16], 4, BE);
    push_note(&mut image, b"GNU\0", 3, &ID, 4, BE);
    let phdr = segment(PT_NOTE, 0x10, image.len() - 0x10, 4);
    assert_eq!(build_id_in_segment(&image, &phdr, BE), Some(ID.to_vec()));
    assert_eq!(build_id_in_segment(&image, &phdr, LE), None);
}

#[test]
fn record_cut_short_by_the_image() {
    let mut image = Vec::new();
    push_note(&mut image, b"GNU\0", 3, &ID, 4, LE);
    let phdr = segment(PT_NOTE, 0, image.len(), 4);
    for len in 0..image.len() {
        assert_eq!(build_id_in_segment(&image[..len], &phdr, LE), None);
    }
    assert_eq!(build_id_in_segment(&image, &phdr, LE), Some(ID.to_vec()));
}

#[test]
fn segment_outside_the_image() {
    let mut image = Vec::new();
    push_note(&mut image, b"GNU\0", 3, &ID, 4, LE);
    let far = segment(PT_NOTE, 0x1000, 0x40, 4);
    assert_eq!(build_id_in_segment(&image, &far, LE), None);
    let wrapping = segment(PT_NOTE, usize::MAX, 0x40, 4);
    assert_eq!(build_id_in_segment(&image, &wrapping, LE), None);
    let huge = segment(PT_NOTE, usize::MAX - 3, usize::MAX, 8);
    assert_eq!(build_id_in_segment(&image, &huge, LE), None);
}

#[test]
fn lengths_that_lead_out_of_the_image() {
    let mut image = Vec::new();
    image.extend_from_slice(&word(u32::MAX, LE));
    image.extend_from_slice(&word(u32::MAX, LE));
    image.extend_from_slice(&word(1, LE));
    image.extend_from_slice(&[0; 64]);
    let phdr = segment(PT_NOTE, 0, usize::MAX, 4);
    assert_eq!(build_id_in_segment(&image, &phdr, LE), None);
    let mut with_id = Vec::new();
    with_id.extend_from_slice(&word(4, LE));
    with_id.extend_from_slice(&word(u32::MAX, LE));
    with_id.extend_from_slice(&word(3, LE));
    with_id.extend_from_slice(&[0; 64]);
    assert_eq!(build_id_in_segment(&with_id, &phdr, LE), None);
}

#[test]
fn only_note_segments_are_searched() {
    let mut image = Vec::new();
    push_note(&mut image, b"GNU\0", 3, &[7, 7, 7, 7], 4, LE);
    let first_len = image.len();
    push_note(&mut image, b"GNU\0", 3, &ID, 4, LE);
    let headers = [
        segment(PT_LOAD, 0, first_len, 4),
        segment(PT_NOTE, first_len, image.len() - first_len, 4),
    ];
    assert_eq!(find_build_id(&headers, &image, LE), Some(ID.to_vec()));
}

#[test]
fn first_note_segment_with_an_id_wins() {
    let mut image = Vec::new();
    push_note(&mut image, b"GNU\0", 1, &[0; 16], 4, LE);
    let abi = image.len();
    push_note(&mut image, b"GNU\0", 3, &[1, 2, 3, 4], 4, LE);
    let first = image.len();
    push_note(&mut image, b"GNU\0", 3, &[5, 6, 7, 8], 4, LE);
    let headers = [
        segment(PT_NOTE, 0, abi, 4),
        segment(PT_NOTE, abi, first - abi, 16),
        segment(PT_NOTE, first, image.len() - first, 4),
        segment(PT_NOTE, abi, first - abi, 4),
    ];
    assert_eq!(find_build_id(&headers, &image, LE), Some(vec![5, 6, 7, 8]));
    let in_order = [headers[0], headers[3], headers[2]];
    assert_eq!(find_build_id(&in_order, &image, LE), Some(vec![1, 2, 3, 4]));
}

#[test]
fn no_note_segment_no_build_id() {
    let mut image = Vec::new();
    push_note(&mut image, b"GNU\0", 3, &ID, 4, LE);
    let headers = [segment(PT_LOAD, 0, image.len(), 4)];
    assert_eq!(find_build_id(&headers, &image, LE), None);
    assert_eq!(find_build_id(&[], &image, LE), None);
}

#[test]
fn extent_is_the_greatest_end_of_note_records() {
    let headers = [
        segment(PT_LOAD, 0, 0x9000, 0x1000),
        segment(PT_NOTE, 0x2a8, 0x20, 8),
        segment(PT_NOTE, 0x2c8, 0x44, 4),
        segment(PT_NOTE, 0x100, 0x10, 16),
    ];
    assert_eq!(image_extent(&headers), 0x30c);
    assert_eq!(image_extent(&headers[..2]), 0x2c8);
    assert_eq!(image_extent(&headers[..1]), 0);
    assert_eq!(image_extent(&[]), 0);
}

#[test]
fn extent_leaves_out_what_no_image_can_hold() {
    let max = isize::MAX as usize;
    let headers = [
        segment(PT_NOTE, 0x10, 0x20, 4),
        segment(PT_NOTE, usize::MAX, 1, 4),
        segment(PT_NOTE, max, 1, 4),
    ];
    assert_eq!(image_extent(&headers), 0x30);
    assert_eq!(image_extent(&[segment(PT_NOTE, max - 1, 1, 4)]), max);
}
