use partition_types::guid::PartitionTypeGuid;
use partition_types::parse::{parse_guid, parse_hex_bytes, from_hex, ParseError};
use partition_types::table::{DescriptionTable, PartitionDescription};

const LINUX_FS: &str = "0FC63DAF-8483-4772-8E79-3D69D8477DE4";
const EFI_SYSTEM: &str = "C12A7328-F81F-11D2-BA4B-00A0C93EC93B";

fn sample_table() -> DescriptionTable {
    let records: Vec<(&'static str, &'static str, &'static str)> = vec![
        ("Linux", "Linux filesystem data", LINUX_FS),
        ("(none)", "EFI System partition", EFI_SYSTEM),
    ];
    DescriptionTable::build(&records).unwrap()
}

#[test]
fn parse_hex() {
    assert_eq!(0x123, parse_hex_bytes::<16>(b"0123", 0).unwrap());
    assert_eq!(0x23, parse_hex_bytes::<8>(b"0123", 2).unwrap());
    assert_eq!(
        PartitionTypeGuid {
            time_low: 264650159,
            time_mid: 33923,
            time_hi_and_version: 18290,
            clock_seq: 36473,
            node: 67524809424356
        },
        parse_guid(LINUX_FS).unwrap()
    );
    assert_eq!(
        parse_guid(LINUX_FS).unwrap(),
        PartitionTypeGuid::from_bytes(parse_guid(LINUX_FS).unwrap().into_bytes())
    );
    assert_eq!(
        parse_guid(LINUX_FS).unwrap().description(&sample_table()).unwrap(),
        PartitionDescription {
            os: "Linux",
            type_description: "Linux filesystem data"
        }
    );
}

#[test]
fn from_hex_digits() {
    assert_eq!(from_hex(b'0').unwrap(), 0);
    assert_eq!(from_hex(b'9').unwrap(), 9);
    assert_eq!(from_hex(b'a').unwrap(), 10);
    assert_eq!(from_hex(b'f').unwrap(), 15);
    assert_eq!(from_hex(b'A').unwrap(), 10);
    assert_eq!(from_hex(b'F').unwrap(), 15);
    assert_eq!(from_hex(b'g'), Err(ParseError::InvalidHexDigit));
    assert_eq!(from_hex(b'-'), Err(ParseError::InvalidHexDigit));
}

#[test]
fn parse_hex_bytes_errors() {
    // A digit range past the end of the buffer is malformed.
    assert_eq!(
        parse_hex_bytes::<16>(b"0123", 1),
        Err(ParseError::MalformedFormat)
    );
    // A non-hex byte inside the range is an invalid digit.
    assert_eq!(
        parse_hex_bytes::<16>(b"01x3", 0),
        Err(ParseError::InvalidHexDigit)
    );
}

#[test]
fn bytes_round_trip_from_buffer() {
    let buffer: [u8; 16] = [
        0xAF, 0x3D, 0xC6, 0x0F, 0x83, 0x84, 0x72, 0x47, 0x8E, 0x79, 0x3D, 0x69, 0xD8, 0x47,
        0x7D, 0xE4,
    ];
    assert_eq!(PartitionTypeGuid::from_bytes(buffer).into_bytes(), buffer);
}

#[test]
fn mixed_endian_byte_layout() {
    // The first three fields are stored little-endian, the last two
    // big-endian.
    let v = parse_guid(LINUX_FS).unwrap();
    assert_eq!(
        v.into_bytes(),
        [
            0xAF, 0x3D, 0xC6, 0x0F, 0x83, 0x84, 0x72, 0x47, 0x8E, 0x79, 0x3D, 0x69, 0xD8,
            0x47, 0x7D, 0xE4,
        ]
    );
}

#[test]
fn value_round_trip_through_bytes() {
    let v = PartitionTypeGuid {
        time_low: 0x0FC63DAF,
        time_mid: 0x8483,
        time_hi_and_version: 0x4772,
        clock_seq: 0x8E79,
        node: 0x3D69D8477DE4,
    };
    assert_eq!(PartitionTypeGuid::from_bytes(v.into_bytes()), v);
}

#[test]
fn flip_reverses_first_three_fields() {
    let v = parse_guid(LINUX_FS).unwrap();
    let f = v.flip_endian();
    assert_eq!(f.time_low, 0xAF3DC60F);
    assert_eq!(f.time_mid, 0x8384);
    assert_eq!(f.time_hi_and_version, 0x7247);
    assert_eq!(f.clock_seq, v.clock_seq);
    assert_eq!(f.node, v.node);
}

#[test]
fn flip_twice_is_identity() {
    let v = parse_guid(EFI_SYSTEM).unwrap();
    assert_eq!(v.flip_endian().flip_endian(), v);
}

#[test]
fn describe_flipped_orientation() {
    // An identifier present in the table only in its flipped orientation is
    // still resolved, to that entry's description.
    let table = sample_table();
    let flipped = parse_guid(EFI_SYSTEM).unwrap().flip_endian();
    assert_eq!(
        table.describe(flipped),
        Some(PartitionDescription {
            os: "(none)",
            type_description: "EFI System partition"
        })
    );
    assert_eq!(
        flipped.description(&table).unwrap(),
        PartitionDescription {
            os: "(none)",
            type_description: "EFI System partition"
        }
    );
}

#[test]
fn describe_absent_identifier() {
    let table = sample_table();
    let absent = PartitionTypeGuid {
        time_low: 0x12345678,
        time_mid: 0x9ABC,
        time_hi_and_version: 0xDEF0,
        clock_seq: 0x1122,
        node: 0x334455667788,
    };
    assert_eq!(table.describe(absent), None);
    assert_eq!(absent.description(&table), None);
}

#[test]
fn describe_first_entry_wins() {
    let records: Vec<(&'static str, &'static str, &'static str)> = vec![
        ("first", "first description", LINUX_FS),
        ("second", "second description", LINUX_FS),
    ];
    let table = DescriptionTable::build(&records).unwrap();
    assert_eq!(table.len(), 2);
    assert_eq!(
        table.describe(parse_guid(LINUX_FS).unwrap()).unwrap(),
        PartitionDescription {
            os: "first",
            type_description: "first description"
        }
    );
}

#[test]
fn describe_exact_pass_beats_flipped_pass() {
    // The exact pass scans the whole table before the flipped pass starts:
    // a later exact match beats an earlier flipped one.
    let canonical = parse_guid(LINUX_FS).unwrap();
    let flipped_text = "AF3DC60F-8384-7247-8E79-3D69D8477DE4";
    assert_eq!(parse_guid(flipped_text).unwrap(), canonical.flip_endian());
    let records: Vec<(&'static str, &'static str, &'static str)> = vec![
        ("flipped", "entry in flipped orientation", flipped_text),
        ("canonical", "entry in canonical orientation", LINUX_FS),
    ];
    let table = DescriptionTable::build(&records).unwrap();
    assert_eq!(
        table.describe(canonical).unwrap(),
        PartitionDescription {
            os: "canonical",
            type_description: "entry in canonical orientation"
        }
    );
}

#[test]
fn parse_rejects_invalid_hex_digit() {
    assert_eq!(
        parse_guid("ZFC63DAF-8483-4772-8E79-3D69D8477DE4"),
        Err(ParseError::InvalidHexDigit)
    );
    assert_eq!(
        parse_guid("0FC63DAF-8483-4772-8E79-3D69D8477DEZ"),
        Err(ParseError::InvalidHexDigit)
    );
}

#[test]
fn parse_rejects_malformed_format() {
    // Wrong length.
    assert_eq!(parse_guid("0FC63DAF"), Err(ParseError::MalformedFormat));
    assert_eq!(parse_guid(""), Err(ParseError::MalformedFormat));
    assert_eq!(
        parse_guid("0FC63DAF-8483-4772-8E79-3D69D8477DE42"),
        Err(ParseError::MalformedFormat)
    );
    // Misplaced hyphen.
    assert_eq!(
        parse_guid("0FC63DAF8-483-4772-8E79-3D69D8477DE4"),
        Err(ParseError::MalformedFormat)
    );
    // Length and hyphen placement are checked before digits.
    assert_eq!(parse_guid("ZZZ"), Err(ParseError::MalformedFormat));
}

#[test]
fn build_surfaces_first_parse_error() {
    let records: Vec<(&'static str, &'static str, &'static str)> = vec![
        ("ok", "fine", LINUX_FS),
        ("short", "wrong length", "1234"),
        ("bad digit", "non-hex digit", "ZFC63DAF-8483-4772-8E79-3D69D8477DE4"),
    ];
    match DescriptionTable::build(&records) {
        Err(e) => assert_eq!(e, ParseError::MalformedFormat),
        Ok(_) => panic!("a malformed record must fail the build"),
    }
}

#[test]
fn build_empty_table() {
    let records: Vec<(&'static str, &'static str, &'static str)> = Vec::new();
    let table = DescriptionTable::build(&records).unwrap();
    assert_eq!(table.len(), 0);
    assert_eq!(table.describe(parse_guid(LINUX_FS).unwrap()), None);
}
