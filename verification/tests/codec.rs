//! Attribute codec behaviour: round trips for every value kind, exact
//! padding and alignment, and decode-time validation.

use rustables::ProtocolFamily;
use rustables::attribute::{
    AttrKind, Attribute, NfNetlinkAttributeReader, NfNetlinkAttributes, SerializeNfNetlink,
    decode_typed_attribute, write_attribute,
};
use rustables::error::DecodeError;
use rustables::table::Table;
use rustables::nlmsg::NfNetlinkObject;

fn attr_bytes(ty: u16, a: &Attribute) -> Vec<u8> {
    let mut out = Vec::new();
    write_attribute(ty, a, &mut out);
    out
}

#[test]
fn padding_formula_holds_for_all_small_payload_sizes() {
    for len in 0usize..64 {
        let payload = vec![0xABu8; len];
        let bytes = attr_bytes(7, &Attribute::Bytes(payload));
        let expected = 4 * ((4 + len).div_ceil(4));
        assert_eq!(bytes.len(), expected);
        // length field holds the unpadded size
        let nla_len = u16::from_le_bytes([bytes[0], bytes[1]]) as usize;
        assert_eq!(nla_len, 4 + len);
    }
}

#[test]
fn second_attribute_starts_at_padded_offset() {
    let mut attrs = NfNetlinkAttributes::new();
    attrs.set_attr(1, Attribute::Bytes(vec![0xAB]));
    attrs.set_attr(2, Attribute::U32(0xDDCCBBAA));
    let mut out = Vec::new();
    attrs.serialize(&mut out);
    // first attribute: 4-byte header, 1 payload byte, 3 padding bytes
    assert_eq!(&out[..8], &[5, 0, 1, 0, 0xAB, 0, 0, 0]);
    // the second attribute begins exactly at the padded offset
    assert_eq!(&out[8..16], &[8, 0, 2, 0, 0xAA, 0xBB, 0xCC, 0xDD]);
}

#[test]
fn fixed_width_payloads_round_trip() {
    let b = attr_bytes(1, &Attribute::U8(0x5A));
    assert_eq!(
        decode_typed_attribute(AttrKind::U8, 1, &b[4..5]).unwrap(),
        Attribute::U8(0x5A)
    );
    let b = attr_bytes(1, &Attribute::U16(0xBEEF));
    assert_eq!(
        decode_typed_attribute(AttrKind::U16, 1, &b[4..6]).unwrap(),
        Attribute::U16(0xBEEF)
    );
    let b = attr_bytes(1, &Attribute::U32(0xDEADBEEF));
    assert_eq!(
        decode_typed_attribute(AttrKind::U32, 1, &b[4..8]).unwrap(),
        Attribute::U32(0xDEADBEEF)
    );
    let b = attr_bytes(1, &Attribute::U64(0x0123456789ABCDEF));
    assert_eq!(
        decode_typed_attribute(AttrKind::U64, 1, &b[4..12]).unwrap(),
        Attribute::U64(0x0123456789ABCDEF)
    );
}

#[test]
fn string_bytes_and_family_payloads_round_trip() {
    let b = attr_bytes(1, &Attribute::Str(String::from("filter")));
    assert_eq!(
        decode_typed_attribute(AttrKind::Str, 1, &b[4..10]).unwrap(),
        Attribute::Str(String::from("filter"))
    );
    let b = attr_bytes(1, &Attribute::Bytes(vec![1, 2, 3]));
    assert_eq!(
        decode_typed_attribute(AttrKind::Bytes, 1, &b[4..7]).unwrap(),
        Attribute::Bytes(vec![1, 2, 3])
    );
    let b = attr_bytes(1, &Attribute::ProtoFamily(ProtocolFamily::Inet));
    assert_eq!(
        decode_typed_attribute(AttrKind::ProtoFamily, 1, &b[4..8]).unwrap(),
        Attribute::ProtoFamily(ProtocolFamily::Inet)
    );
}

#[test]
fn whole_attribute_set_round_trips_through_its_wire_form() {
    let mut attrs = NfNetlinkAttributes::new();
    attrs.set_attr(1, Attribute::Str(String::from("filter")));
    let mut out = Vec::new();
    attrs.serialize(&mut out);
    let reader = NfNetlinkAttributeReader::new(&out, out.len()).unwrap();
    let decoded = reader.decode::<Table>().unwrap();
    assert_eq!(
        decoded.get_attr(1),
        Some(&Attribute::Str(String::from("filter")))
    );
}

#[test]
fn unknown_attribute_type_is_rejected() {
    // tag 9 is outside the table schema
    let mut attrs = NfNetlinkAttributes::new();
    attrs.set_attr(9, Attribute::U32(1));
    let mut out = Vec::new();
    attrs.serialize(&mut out);
    let reader = NfNetlinkAttributeReader::new(&out, out.len()).unwrap();
    assert!(matches!(
        reader.decode::<Table>(),
        Err(DecodeError::UnsupportedAttributeType(9))
    ));
}

#[test]
fn invalid_utf8_text_fails_string_decode() {
    // a name attribute carrying invalid UTF-8
    let raw = [8u8, 0, 1, 0, 0xFF, 0xFE, 0xFD, 0xFC];
    let reader = NfNetlinkAttributeReader::new(&raw, raw.len()).unwrap();
    assert!(matches!(reader.decode::<Table>(), Err(DecodeError::StringDecodeFailure)));
}

#[test]
fn truncated_attribute_fails_with_buf_too_small() {
    // declared length 12, only 8 bytes in the window
    let raw = [12u8, 0, 1, 0, b'a', b'b', b'c', b'd'];
    let reader = NfNetlinkAttributeReader::new(&raw, raw.len()).unwrap();
    assert!(matches!(reader.decode::<Table>(), Err(DecodeError::BufTooSmall)));
}

#[test]
fn replacing_an_attribute_keeps_keys_unique() {
    let mut attrs = NfNetlinkAttributes::new();
    attrs.set_attr(1, Attribute::U32(1));
    attrs.set_attr(1, Attribute::U32(2));
    assert_eq!(attrs.len(), 1);
    assert_eq!(attrs.get_attr(1), Some(&Attribute::U32(2)));
}

#[test]
fn serialization_orders_attributes_by_ascending_key() {
    let mut attrs = NfNetlinkAttributes::new();
    attrs.set_attr(3, Attribute::U8(3));
    attrs.set_attr(1, Attribute::U8(1));
    attrs.set_attr(2, Attribute::U8(2));
    let mut out = Vec::new();
    attrs.serialize(&mut out);
    // three attributes of 8 bytes each, keys 1, 2, 3 in order
    assert_eq!(out.len(), 24);
    assert_eq!(u16::from_le_bytes([out[2], out[3]]), 1);
    assert_eq!(u16::from_le_bytes([out[10], out[11]]), 2);
    assert_eq!(u16::from_le_bytes([out[18], out[19]]), 3);
}

#[test]
fn table_attrs_hold_only_the_name() {
    let table = Table::new("filter", ProtocolFamily::Inet);
    let attrs = table.to_attrs();
    assert_eq!(attrs.len(), 1);
    assert_eq!(
        attrs.get_attr(1),
        Some(&Attribute::Str(String::from("filter")))
    );
}
