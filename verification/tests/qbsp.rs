use bsp::qbsp::lighting::{read_lit, to_triples, BspLighting};
use bsp::qbsp::texture::read_mip_texture_lump;
use bsp::qbsp::lumps::{parse_lump_directory, LumpDirectory};
use bsp::qbsp::nodes::{Bsp29LeafContents, BspLeafContentFlags, BspNodeRef, BspPlaneType};
use bsp::qbsp::reader::BspByteReader;
use bsp::qbsp::util::{calculate_visdata_indices, quake_string_to_utf8, quake_string_to_utf8_lossy};
use bsp::qbsp::values::FixedStr;
use bsp::qbsp::{BspFormat, BspParseContext, BspParseError, LumpEntry};

const TEST_VISDATA: &[u8] = &[0b1010_0111, 0, 5, 0b0000_0001, 0b0001_0000, 0, 12, 0b1000_0000];

#[test]
fn from_str() {
    assert!(FixedStr::<8>::from_str("12345678").is_ok());
    assert!(FixedStr::<8>::from_str("123456789").is_err());
}

#[test]
fn from_null_garbage() {
    assert!(FixedStr::<8>::new([b'+', b's', b'k', b'y', 0, b'+', b'v', 189]).is_ok());
}

#[test]
fn calculate_len() {
    assert_eq!(FixedStr::<8>::from_str("").unwrap().len(), 0);
    assert_eq!(FixedStr::<8>::from_str("foo").unwrap().len(), 3);
    assert_eq!(FixedStr::<8>::from_str("12345678").unwrap().len(), 8);
}

#[test]
fn extend() {
    assert_eq!(
        FixedStr::<3>::from_str("foo").unwrap().extend::<32>(),
        FixedStr::<32>::from_str("foo").unwrap()
    );
    assert_eq!(
        FixedStr::<4>::from_str("foo").unwrap().extend::<8>(),
        FixedStr::<8>::from_str("foo").unwrap()
    );
}

#[test]
fn truncate() {
    assert_eq!(
        FixedStr::<8>::from_str("foo").unwrap().truncate::<4>(),
        Some(FixedStr::<4>::from_str("foo").unwrap())
    );
    assert_eq!(
        FixedStr::<8>::from_str("foo").unwrap().truncate::<3>(),
        Some(FixedStr::<3>::from_str("foo").unwrap())
    );
    assert!(FixedStr::<8>::from_str("foo").unwrap().truncate::<2>().is_none());
}

#[test]
fn fixed_str_keeps_only_the_bytes_before_the_first_zero() {
    let s = FixedStr::<8>::new([b'+', b's', b'k', b'y', 0, b'+', b'v', 189]).unwrap();
    assert_eq!(s.len(), 4);
    assert_eq!(s.as_bytes(), &[b'+', b's', b'k', b'y', 0, 0, 0, 0]);
    assert!(FixedStr::<4>::new([0xC3, 0x28, 0, 0]).is_err());
}

#[test]
fn test_pvs_calculation() {
    assert_eq!(
        calculate_visdata_indices(TEST_VISDATA, 256).collect_all(),
        &[1, 2, 3, 6, 8, 49, 61, 168]
    );
}

#[test]
fn pvs_stops_at_the_leaf_count() {
    assert_eq!(calculate_visdata_indices(TEST_VISDATA, 8).collect_all(), &[1, 2, 3, 6]);
    assert_eq!(calculate_visdata_indices(&[], 64).collect_all(), Vec::<usize>::new());
}

// Sanity check, as quake_string_to_utf8 functions assume this.
#[test]
fn char_number_range() {
    for i in 0..=127u8 {
        assert!(char::from_u32(i as u32).is_some());
    }
}

#[test]
fn quake_string_alt_text_surrounding() {
    let quake_string = [b'h', b'i', b' ', b't' + 128, b'h' + 128, b'e', b'r' + 128, b'e' + 128];

    let out = quake_string_to_utf8(&quake_string, "<b>", "</b>");

    assert_eq!(out, "hi <b>th</b>e<b>re</b>");
}

#[test]
fn quake_string_stops_at_the_first_zero() {
    assert_eq!(quake_string_to_utf8(&[b'a', b'b', 0, b'c'], "[", "]"), "ab");
    assert_eq!(quake_string_to_utf8(&[b'a' + 128, 128, b'c'], "[", "]"), "[a");
}

fn read_format(bytes: &[u8]) -> Result<BspFormat, BspParseError> {
    let ctx = BspParseContext::default();
    let mut reader = BspByteReader::new(bytes, &ctx);
    BspFormat::parse(&mut reader)
}

#[test]
fn the_magic_number_picks_the_format() {
    assert_eq!(read_format(b"BSP2").unwrap(), BspFormat::BSP2);
    assert_eq!(read_format(&[0x1D, 0, 0, 0]).unwrap(), BspFormat::BSP29);
    assert_eq!(read_format(&[0x1E, 0, 0, 0]).unwrap(), BspFormat::BSP30);
    assert_eq!(read_format(b"IBSP\x26\0\0\0").unwrap(), BspFormat::BSP38);
    assert_eq!(read_format(b"QBSP\x26\0\0\0").unwrap(), BspFormat::BSP38Qbism);
}

#[test]
fn a_bad_magic_number_or_version_is_refused() {
    assert!(matches!(read_format(b"WAD3"), Err(BspParseError::WrongMagicNumber { found, .. }) if &found == b"WAD3"));
    assert!(matches!(
        read_format(b"IBSP\x25\0\0\0"),
        Err(BspParseError::UnsupportedBspVersion { found: 37, .. })
    ));
    assert!(matches!(
        read_format(b"IB"),
        Err(BspParseError::BufferOutOfBounds { from: 0, to: 4, size: 2 })
    ));
    assert!(matches!(
        read_format(b"IBSP\x26"),
        Err(BspParseError::BufferOutOfBounds { from: 4, to: 8, size: 5 })
    ));
}

#[test]
fn format_families() {
    assert!(BspFormat::BSP29.is_quake1() && BspFormat::BSP2.is_quake1());
    assert!(BspFormat::BSP30.is_goldsrc());
    assert!(BspFormat::BSP38.is_quake2() && BspFormat::BSP38Qbism.is_quake2());
    assert_eq!(BspFormat::BSP30.liquid_prefix(), Some('!'));
    assert_eq!(BspFormat::BSP29.liquid_prefix(), Some('*'));
    assert_eq!(BspFormat::BSP38.liquid_prefix(), None);
    assert_eq!(BspFormat::default_format(), BspFormat::BSP2);
}

#[test]
fn a_lump_entry_reads_its_slice() {
    let data = [0u8, 1, 2, 3, 4, 5];
    assert_eq!(LumpEntry { offset: 2, len: 3 }.get(&data).unwrap(), &[2, 3, 4]);
    assert!(matches!(
        LumpEntry { offset: 4, len: 3 }.get(&data),
        Err(BspParseError::LumpOutOfBounds(LumpEntry { offset: 4, len: 3 }))
    ));
}

#[test]
fn the_bsp29_directory_is_fifteen_entries() {
    let ctx = BspParseContext { format: BspFormat::BSP29 };
    let mut bytes = Vec::new();
    for i in 0..15u32 {
        bytes.extend_from_slice(&(100 + i * 8).to_le_bytes());
        bytes.extend_from_slice(&8u32.to_le_bytes());
    }
    let mut reader = BspByteReader::new(&bytes, &ctx);
    let dir: LumpDirectory = parse_lump_directory(&mut reader).unwrap();
    assert_eq!(dir.entities, LumpEntry { offset: 100, len: 8 });
    assert_eq!(dir.end_of_lumps(), 100 + 14 * 8 + 8);
    assert_eq!(dir.bsp_entries().len(), 15);
}

#[test]
fn lit_files_are_rgb_triples_after_the_header() {
    let ctx = BspParseContext::default();
    let lit = b"QLIT\x01\0\0\0\x01\x02\x03\x04\x05\x06";
    assert_eq!(read_lit(lit, &ctx, false).unwrap(), vec![[1, 2, 3], [4, 5, 6]]);
    assert_eq!(read_lit(&[9, 8, 7], &ctx, true).unwrap(), vec![[9, 8, 7]]);
    assert!(matches!(
        read_lit(b"QLIT\x01\0\0\0\x01", &ctx, false),
        Err(BspParseError::ColorDataSizeNotDevisableBy3(1))
    ));
    assert!(matches!(read_lit(b"NOPE\x01\0\0\0", &ctx, false), Err(BspParseError::WrongMagicNumber { .. })));
    assert_eq!(to_triples(&[1, 2, 3, 4]), vec![[1, 2, 3]]);
}

#[test]
fn white_lighting_is_grey_triples() {
    let light = BspLighting::Grayscale(vec![10, 20]);
    assert_eq!(light.len(), 2);
    assert_eq!(light.get(1), Some([20, 20, 20]));
    assert_eq!(light.get(2), None);
    let colored = BspLighting::Colored(vec![[1, 2, 3]]);
    assert_eq!(colored.get(0), Some([1, 2, 3]));
    assert_eq!(colored.bytes(), 3);
}

#[test]
fn node_refs_split_on_sign() {
    assert_eq!(BspNodeRef::<u32>::from_i32(5), BspNodeRef::Node(5));
    assert_eq!(BspNodeRef::<u32>::from_i32(-1), BspNodeRef::Leaf(0));
    assert_eq!(BspNodeRef::<u32>::from_i32(-3), BspNodeRef::Leaf(2));
    assert_eq!(BspNodeRef::<u16>::from_i16(-2), BspNodeRef::Leaf(1));
    assert_eq!(BspNodeRef::<u32>::from_u16_ref(BspNodeRef::Leaf(7)), BspNodeRef::Leaf(7));
    assert_eq!(BspNodeRef::Node(4u32).node(), Some(4));
    assert_eq!(BspNodeRef::Node(4u32).leaf(), None);
}

#[test]
fn leaf_contents_values() {
    assert!(matches!(Bsp29LeafContents::from_value(-2), Ok(Bsp29LeafContents::Solid)));
    assert!(matches!(Bsp29LeafContents::from_value(-3), Ok(Bsp29LeafContents::Water)));
    assert!(matches!(
        Bsp29LeafContents::from_value(5),
        Err(BspParseError::InvalidVariant { value: 5, .. })
    ));
    assert_eq!(BspLeafContentFlags::from_bits_truncate(u32::MAX).0, BspLeafContentFlags::ALL);
}

#[test]
fn plane_types_and_axes() {
    assert!(matches!(BspPlaneType::from_value(2), Ok(BspPlaneType::AxialZ)));
    assert_eq!(BspPlaneType::from_value(1).unwrap().axis(), 1);
    assert!(BspPlaneType::from_value(6).is_err());
}

#[test]
fn a_texture_lump_reads_each_offset() {
    let mut lump = Vec::new();
    lump.extend_from_slice(&2u32.to_le_bytes());
    lump.extend_from_slice(&(-1i32).to_le_bytes());
    lump.extend_from_slice(&12i32.to_le_bytes());
    let mut name = [0u8; 16];
    name[..3].copy_from_slice(b"sky");
    lump.extend_from_slice(&name);
    for v in [2u32, 2, 40, 44, 0, 0] {
        lump.extend_from_slice(&v.to_le_bytes());
    }
    lump.extend_from_slice(&[1, 2, 3, 4, 9]);

    let ctx = BspParseContext { format: BspFormat::BSP29 };
    let mut reader = BspByteReader::new(&lump, &ctx);
    let textures = read_mip_texture_lump(&mut reader).unwrap();
    assert_eq!(textures.len(), 2);
    assert!(textures[0].is_none());
    let tex = textures[1].as_ref().unwrap();
    assert_eq!(tex.header.name.as_bytes()[..4], *b"sky\0");
    assert_eq!((tex.header.width, tex.header.height), (2, 2));
    assert_eq!(tex.data.full, Some(vec![1, 2, 3, 4]));
    assert_eq!(tex.data.half, Some(vec![9]));
    assert!(tex.data.quarter.is_none() && tex.data.palette.0.is_none());

    // A level past the end of the data fails the whole lump.
    let mut short = lump.clone();
    short.truncate(lump.len() - 1);
    let mut reader = BspByteReader::new(&short, &ctx);
    assert!(read_mip_texture_lump(&mut reader).is_err());
}

#[test]
fn fixed_str_text_drops_the_padding() {
    assert_eq!(FixedStr::<8>::from_str("foo").unwrap().as_str(), "foo");
    assert_eq!(FixedStr::<4>::new([b'a', 0, 0, 0]).unwrap().as_str(), "a");
    assert_eq!(FixedStr::<3>::from_str("").unwrap().as_str(), "");
}

#[test]
fn lossy_quake_strings_fold_the_alternate_set_in_place() {
    let mut s = vec![b'h', b'i' + 128, b'!', 0];
    assert_eq!(quake_string_to_utf8_lossy(&mut s), "hi!");
    assert_eq!(s, vec![b'h', b'i', b'!']);
    let mut t = vec![b'a', 0, b'b'];
    assert_eq!(quake_string_to_utf8_lossy(&mut t), "a\0b");
}

#[test]
fn extending_then_truncating_gives_the_string_back() {
    let s = FixedStr::<4>::from_str("abcd").unwrap();
    assert_eq!(s.extend::<9>().truncate::<4>(), Some(s.clone()));
    let t = FixedStr::<5>::from_str("ab").unwrap();
    assert_eq!(t.extend::<16>().truncate::<5>(), Some(t.clone()));
}

#[test]
fn fixed_str_emptiness_agrees_with_its_length() {
    let empty = FixedStr::<8>::new([0, 0, b'x', 0, 0, 0, 0, 0]).unwrap();
    assert!(empty.is_empty());
    assert_eq!(empty.len(), 0);
    let word = FixedStr::<8>::new([b'a', b'b', 0, b'z', 0, 0, 0, 0]).unwrap();
    assert!(!word.is_empty());
    assert_eq!(word.len(), 2);
}

#[test]
fn fixed_str_rebuilt_from_its_bytes_is_itself() {
    let s = FixedStr::<8>::new([b's', b'k', b'y', 0, b'?', 1, 2, 3]).unwrap();
    let bytes: [u8; 8] = s.clone().to_bytes().try_into().unwrap();
    assert_eq!(bytes, [b's', b'k', b'y', 0, 0, 0, 0, 0]);
    assert_eq!(FixedStr::<8>::new(bytes).unwrap(), s);
}

#[test]
fn fixed_str_widened_then_cut_back_is_itself() {
    let s = FixedStr::<4>::from_str("ab").unwrap();
    assert_eq!(s.extend::<16>().truncate::<4>(), Some(s));
}
