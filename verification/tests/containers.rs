use ftd_breadboard::float32::{Float32, Float64};
use ftd_breadboard::ftd_data::{
    BlockData, BlockIndex, BlueprintData, DataEntry, SectionData, SectionId, Vector2,
};
use ftd_breadboard::guid::Guid;
use ftd_breadboard::serializer::Serializer;

fn entry_bytes(id: u16, entry: DataEntry) -> Vec<u8> {
    let mut s = Serializer::new();
    entry.serialize_to(id, &mut s);
    s.into_inner()
}

fn section_bytes(section: &SectionData) -> Vec<u8> {
    let mut s = Serializer::new();
    section.serialize_to(&mut s);
    s.into_inner()
}

fn example_blueprint() -> BlueprintData {
    let first = SectionData::new()
        .with_entry(1, DataEntry::U32(7))
        .with_entry(2, DataEntry::String(String::from("hi")));
    let second = SectionData::new().with_entry(0, DataEntry::Bool(true));
    let mut block = BlockData::new();
    block.add_section_data(SectionId::new(5), first);
    block.add_section_data(SectionId::new(6), second);
    let mut blueprint = BlueprintData::new();
    blueprint.add_block_data(BlockIndex::new(0), block);
    blueprint
}

const EXAMPLE_BYTES: [u8; 39] = [
    0, 0, 0, 14, 0, 0, 0, 16, 0, 5, 0, 0, 0, 0, 0, 0, 6, 0, 0, 0, 0, 12, 0, 1, 0, 4, 7, 0, 0, 0, 2,
    0, 2, 104, 105, 0, 0, 1, 1,
];

#[test]
fn bool_entry() {
    assert_eq!(entry_bytes(3, DataEntry::Bool(true)), vec![3, 0, 1, 1]);
    assert_eq!(entry_bytes(3, DataEntry::Bool(false)), vec![3, 0, 1, 0]);
}

#[test]
fn integer_entries() {
    assert_eq!(entry_bytes(0x0201, DataEntry::U32(0x0a0b0c0d)), vec![1, 2, 4, 0x0d, 0x0c, 0x0b, 0x0a]);
    assert_eq!(entry_bytes(1, DataEntry::I32(-1)), vec![1, 0, 4, 0xff, 0xff, 0xff, 0xff]);
    assert_eq!(
        entry_bytes(1, DataEntry::I32(i32::MIN)),
        vec![1, 0, 4, 0, 0, 0, 0x80]
    );
    assert_eq!(
        entry_bytes(1, DataEntry::I64(-2)),
        vec![1, 0, 8, 0xfe, 0xff, 0xff, 0xff, 0xff, 0xff, 0xff, 0xff]
    );
    assert_eq!(
        entry_bytes(1, DataEntry::I64(i64::MIN)),
        vec![1, 0, 8, 0, 0, 0, 0, 0, 0, 0, 0x80]
    );
}

#[test]
fn float_entries() {
    let mut expected = vec![9, 0, 4];
    expected.extend_from_slice(&5.0f32.to_le_bytes());
    assert_eq!(entry_bytes(9, DataEntry::F32(Float32::from_bits(5.0f32.to_bits()))), expected);
    let mut expected = vec![9, 0, 8];
    expected.extend_from_slice(&(-2.5f64).to_le_bytes());
    assert_eq!(entry_bytes(9, DataEntry::F64(Float64::from_bits((-2.5f64).to_bits()))), expected);
}

#[test]
fn vector2_entry() {
    let v = Vector2::new(Float32::from_bits(1.0f32.to_bits()), Float32::from_bits((-3.0f32).to_bits()));
    let mut expected = vec![0, 0, 8];
    expected.extend_from_slice(&1.0f32.to_le_bytes());
    expected.extend_from_slice(&(-3.0f32).to_le_bytes());
    assert_eq!(entry_bytes(0, DataEntry::Vector2(v)), expected);
}

#[test]
fn uuid_entry() {
    let raw = [1, 2, 3, 4, 5, 6, 7, 8, 9, 10, 11, 12, 13, 14, 15, 16];
    let mut expected = vec![4, 0, 16];
    expected.extend_from_slice(&raw);
    assert_eq!(entry_bytes(4, DataEntry::Uuid(Guid::from_bytes(raw))), expected);
}

#[test]
fn bytes_and_text_entries_are_chunked() {
    assert_eq!(entry_bytes(2, DataEntry::Bytes(vec![1, 2])), vec![2, 0, 2, 1, 2]);
    assert_eq!(entry_bytes(2, DataEntry::Bytes(vec![])), vec![2, 0, 0]);
    assert_eq!(
        entry_bytes(2, DataEntry::String(String::from("-(a)"))),
        vec![2, 0, 4, b'-', b'(', b'a', b')']
    );
    let long = DataEntry::Bytes(vec![1u8; 300]);
    let bytes = entry_bytes(0x0102, long);
    assert_eq!(bytes.len(), 3 + 255 + 3 + 45);
    assert_eq!(&bytes[..3], &[2, 1, 255]);
    assert_eq!(&bytes[258..261], &[2, 1, 45]);
}

#[test]
fn text_entry_holds_utf8() {
    assert_eq!(
        entry_bytes(1, DataEntry::String(String::from("é"))),
        vec![1, 0, 2, 0xc3, 0xa9]
    );
}

#[test]
fn section_emits_entries_in_insertion_order() {
    let section = SectionData::new()
        .with_entry(9, DataEntry::Bool(true))
        .with_entry(1, DataEntry::U32(1));
    assert_eq!(section.len(), 2);
    assert_eq!(section_bytes(&section), vec![9, 0, 1, 1, 1, 0, 4, 1, 0, 0, 0]);
}

#[test]
fn section_replaces_an_entry_in_place() {
    let mut section = SectionData::new()
        .with_entry(9, DataEntry::Bool(true))
        .with_entry(1, DataEntry::U32(1));
    section.add_entry(9, DataEntry::Bool(false));
    assert_eq!(section.len(), 2);
    assert_eq!(section_bytes(&section), vec![9, 0, 1, 0, 1, 0, 4, 1, 0, 0, 0]);
    assert!(matches!(section.entry(9), Some(DataEntry::Bool(false))));
    assert!(matches!(section.entry(1), Some(DataEntry::U32(1))));
    assert!(section.entry(2).is_none());
}

#[test]
fn empty_section_has_no_bytes() {
    assert_eq!(section_bytes(&SectionData::default()), Vec::<u8>::new());
}

#[test]
fn block_writes_headers_then_bodies() {
    let first = SectionData::new().with_entry(1, DataEntry::U32(7));
    let second = SectionData::new().with_entry(0, DataEntry::Bool(true));
    let mut block = BlockData::default();
    block.add_section_data(SectionId::new(0x010203), first);
    block.add_section_data(SectionId::new(6), second);
    assert_eq!(block.len(), 2);
    let mut s = Serializer::new();
    let info = block.serialize_to(&mut s).unwrap();
    assert_eq!(info.header_len, 14);
    assert_eq!(info.data_length, 11);
    assert_eq!(
        s.into_inner(),
        vec![3, 2, 1, 0, 0, 0, 0, 6, 0, 0, 0, 0, 7, 0, 1, 0, 4, 7, 0, 0, 0, 0, 0, 1, 1]
    );
    assert!(block.section(SectionId::new(6)).is_some());
    assert!(block.section(SectionId::new(7)).is_none());
}

#[test]
fn blueprint_serializes_to_the_expected_bytes() {
    let blueprint = example_blueprint();
    assert_eq!(blueprint.serialize(), EXAMPLE_BYTES.to_vec());
    assert_eq!(blueprint.try_serialize(), Some(EXAMPLE_BYTES.to_vec()));
    assert!(blueprint.block(BlockIndex::new(0)).is_some());
    assert!(blueprint.block(BlockIndex::new(1)).is_none());
}

#[test]
fn blueprint_serializes_to_base64() {
    let blueprint = example_blueprint();
    assert_eq!(
        blueprint.serialize_to_bp_data_string(),
        "AAAADgAAABAABQAAAAAAAAYAAAAADAABAAQHAAAAAgACaGkAAAEB"
    );
    assert_eq!(
        blueprint.try_serialize_to_bp_data_string().unwrap(),
        "AAAADgAAABAABQAAAAAAAAYAAAAADAABAAQHAAAAAgACaGkAAAEB"
    );
}

#[test]
fn base64_pads_to_groups_of_four() {
    let mut block = BlockData::new();
    block.add_section_data(SectionId::new(1), SectionData::new());
    let mut blueprint = BlueprintData::default();
    blueprint.add_block_data(BlockIndex::new(2), block);
    // 02 00 00 | 07 00 | 00 00 | 00 00 | 01 00 00 00 00 00 00
    assert_eq!(blueprint.serialize().len(), 16);
    assert_eq!(blueprint.serialize_to_bp_data_string(), "AgAABwAAAAAAAQAAAAAAAA==");
}

#[test]
fn empty_blueprint_has_no_bytes() {
    let blueprint = BlueprintData::new();
    assert_eq!(blueprint.serialize(), Vec::<u8>::new());
    assert_eq!(blueprint.serialize_to_bp_data_string(), "");
}

#[test]
fn blueprint_with_a_long_body_uses_several_length_words() {
    let mut block = BlockData::new();
    block.add_section_data(
        SectionId::new(1),
        SectionData::new().with_entry(0, DataEntry::Bytes(vec![0u8; 70000])),
    );
    let mut blueprint = BlueprintData::new();
    blueprint.add_block_data(BlockIndex::new(0), block);
    let bytes = blueprint.serialize();
    // 70000 bytes in 275 chunks of at most 255, each with a header of 3
    let body = 70000 + 275 * 3;
    assert_eq!(&bytes[..7], &[0, 0, 0, 7, 0, 0, 0]);
    assert_eq!(&bytes[7..9], &[0xff, 0xff]);
    assert_eq!(&bytes[9..11], &(((body - 65535) as u16).to_le_bytes()));
    assert_eq!(bytes.len(), 11 + 7 + body);
}

#[test]
fn identifiers_are_limited_to_24_bits() {
    assert_eq!(BlockIndex::new(0xff_ffff).get(), 0xff_ffff);
    assert_eq!(SectionId::new(0xff_ffff).get(), 0xff_ffff);
    assert!(BlockIndex::try_new(0xff_ffff).is_some());
    assert!(BlockIndex::try_new(0x100_0000).is_none());
    assert!(SectionId::try_new(0).is_some());
    assert!(SectionId::try_new(0x100_0000).is_none());
    assert!(SectionId::try_new(u32::MAX).is_none());
}

#[test]
fn block_has_no_limit_on_its_sections() {
    let mut block = BlockData::new();
    for i in 0..9363u32 {
        block.add_section_data(SectionId::new(i), SectionData::new());
    }
    let mut s = Serializer::new();
    s.push_u8(0xaa);
    let info = block.serialize_to(&mut s).unwrap();
    assert_eq!(info.header_len, 7 * 9363);
    assert_eq!(info.data_length, 0);
    let bytes = s.into_inner();
    assert_eq!(bytes.len(), 1 + 7 * 9363);
    assert_eq!(&bytes[..8], &[0xaa, 0, 0, 0, 0, 0, 0, 0]);
    // the last header: section 9362, at offset 0
    assert_eq!(&bytes[bytes.len() - 7..], &[0x92, 0x24, 0, 0, 0, 0, 0]);
}

#[test]
fn blueprint_refuses_a_block_whose_headers_exceed_16_bits() {
    let mut block = BlockData::new();
    for i in 0..9363u32 {
        block.add_section_data(SectionId::new(i), SectionData::new());
    }
    let mut blueprint = BlueprintData::new();
    blueprint.add_block_data(BlockIndex::new(0), block);
    assert!(blueprint.try_serialize().is_none());
    assert!(blueprint.try_serialize_to_bp_data_string().is_none());
}

#[test]
fn blueprint_writes_a_block_with_the_longest_headers() {
    let mut block = BlockData::new();
    for i in 0..9362u32 {
        block.add_section_data(SectionId::new(i), SectionData::new());
    }
    let mut blueprint = BlueprintData::new();
    blueprint.add_block_data(BlockIndex::new(0), block);
    let bytes = blueprint.try_serialize().unwrap();
    // header length 65534 as a 16-bit word, body length 0
    assert_eq!(&bytes[..9], &[0, 0, 0, 0xfe, 0xff, 0, 0, 0, 0]);
    assert_eq!(bytes.len(), 9 + 65534);
}

#[test]
fn block_with_the_most_sections_is_written() {
    let mut block = BlockData::new();
    for i in 0..9362u32 {
        block.add_section_data(SectionId::new(i), SectionData::new());
    }
    let mut s = Serializer::new();
    let info = block.serialize_to(&mut s).unwrap();
    assert_eq!(info.header_len, 65534);
    assert_eq!(info.data_length, 0);
}
