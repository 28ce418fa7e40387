use sma_update_parser::parse::{parse_header, Up2Parser};
use sma_update_parser::types::{Module, ModuleContent, Up2Error, Up2File};
use sma_update_parser::UP2_MAGIC;

fn valid_header_bytes() -> Vec<u8> {
    vec![0x53, 0x4D, 0x41, 0x3A, 0x01, 0x02, 0x03, 0x04]
}

fn record(adler: u32, type_tag: u32, susyid: u32, body: &[u8]) -> Vec<u8> {
    let mut v = Vec::new();
    v.extend_from_slice(&adler.to_le_bytes());
    v.extend_from_slice(&type_tag.to_le_bytes());
    v.extend_from_slice(&susyid.to_le_bytes());
    v.extend_from_slice(&(body.len() as u32).to_le_bytes());
    v.extend_from_slice(body);
    v
}

#[test]
fn header_scenario_decodes_all_fields() {
    let header = parse_header(&valid_header_bytes());
    assert_eq!(header.header_id, 0x3A414D53);
    assert_eq!(header.header_id, UP2_MAGIC);
    assert_eq!(header.major_version, 1);
    assert_eq!(header.minor_version, 2);
    assert_eq!(header.build_number, 3);
    assert_eq!(header.rev, 4);
}

#[test]
fn new_keeps_header_queryable() {
    let parser = Up2Parser::new(valid_header_bytes()).unwrap();
    assert_eq!(parser.header.header_id, UP2_MAGIC);
    assert_eq!(parser.header.major_version, 1);
    assert_eq!(parser.header.minor_version, 2);
    assert_eq!(parser.header.build_number, 3);
    assert_eq!(parser.header.rev, 4);
    assert_eq!(parser.offset(), 8);
}

#[test]
fn wrong_magic_fails_construction() {
    let bytes = vec![0x00, 0x01, 0x02, 0x03, 0x01, 0x02, 0x03, 0x04];
    assert_eq!(Up2Parser::new(bytes).err(), Some(Up2Error::InvalidMagic));
}

#[test]
fn wrong_magic_fails_regardless_of_version_bytes() {
    // only the first 4 bytes decide InvalidMagic
    let bytes = vec![0x53, 0x4D, 0x41, 0x3B, 0xFF, 0xFF, 0xFF, 0xFF];
    assert_eq!(Up2Parser::new(bytes).err(), Some(Up2Error::InvalidMagic));
    let bytes = vec![0x4D, 0x53, 0x41, 0x3A, 0x00, 0x00, 0x00, 0x00];
    assert_eq!(Up2Parser::new(bytes).err(), Some(Up2Error::InvalidMagic));
}

#[test]
fn short_prologue_is_truncated_stream() {
    assert_eq!(Up2Parser::new(vec![]).err(), Some(Up2Error::TruncatedStream));
    assert_eq!(
        Up2Parser::new(vec![0x53, 0x4D, 0x41, 0x3A, 0x01]).err(),
        Some(Up2Error::TruncatedStream)
    );
}

#[test]
fn empty_container_yields_no_record() {
    let mut parser = Up2Parser::new(valid_header_bytes()).unwrap();
    assert_eq!(parser.next(), None);
    assert_eq!(parser.next(), None);
    assert_eq!(parser.offset(), 8);
}

#[test]
fn pause_record_scenario() {
    let mut bytes = valid_header_bytes();
    bytes.extend_from_slice(&record(7, 2, 5, &[0x10, 0x00, 0x00, 0x00]));
    let mut parser = Up2Parser::new(bytes).unwrap();
    let module = parser.next().unwrap().unwrap();
    assert_eq!(module.header.adler, 7);
    assert_eq!(module.header.module_type, 2);
    assert_eq!(module.header.susyid, 5);
    assert_eq!(module.header.len, 4);
    match module.content {
        ModuleContent::Pause(m) => assert_eq!(m.delay, 16),
        other => panic!("expected Pause, got {:?}", other),
    }
    assert_eq!(parser.next(), None);
}

#[test]
fn iteration_consumes_exactly_the_framed_bytes() {
    let mut bytes = valid_header_bytes();
    bytes.extend_from_slice(&record(1, 0, 0, &[9, 0, 0, 0]));
    bytes.extend_from_slice(&record(2, 0x1001, 0, b"hello"));
    bytes.extend_from_slice(&record(3, 1, 0, &[9, 0, 0, 0]));
    let total = bytes.len();
    let mut parser = Up2Parser::new(bytes).unwrap();
    assert_eq!(parser.offset(), 8);
    assert!(parser.next().unwrap().is_ok());
    assert_eq!(parser.offset(), 8 + 16 + 4);
    assert!(parser.next().unwrap().is_ok());
    assert_eq!(parser.offset(), 8 + 16 + 4 + 16 + 5);
    assert!(parser.next().unwrap().is_ok());
    assert_eq!(parser.offset(), total);
    assert_eq!(parser.next(), None);
    assert_eq!(parser.offset(), total);
}

#[test]
fn unknown_tag_decodes_verbatim() {
    let mut bytes = valid_header_bytes();
    bytes.extend_from_slice(&record(0, 0x9999, 0, &[1, 2, 3]));
    let mut parser = Up2Parser::new(bytes).unwrap();
    let module = parser.next().unwrap().unwrap();
    match module.content {
        ModuleContent::Unknown(m) => assert_eq!(m.data, vec![1, 2, 3]),
        other => panic!("expected Unknown, got {:?}", other),
    }
    assert_eq!(parser.next(), None);
}

#[test]
fn partial_record_header_is_truncated_stream() {
    let mut bytes = valid_header_bytes();
    bytes.extend_from_slice(&[0u8; 7]);
    let mut parser = Up2Parser::new(bytes).unwrap();
    assert_eq!(parser.next(), Some(Err(Up2Error::TruncatedStream)));
    assert_eq!(parser.next(), None);
}

#[test]
fn short_body_is_truncated_stream() {
    let mut bytes = valid_header_bytes();
    let mut rec = record(0, 2, 0, &[0x10, 0x00, 0x00, 0x00]);
    rec.truncate(rec.len() - 2);
    bytes.extend_from_slice(&rec);
    let mut parser = Up2Parser::new(bytes).unwrap();
    assert_eq!(parser.next(), Some(Err(Up2Error::TruncatedStream)));
    assert_eq!(parser.next(), None);
}

#[test]
fn body_error_does_not_stop_iteration() {
    let mut bytes = valid_header_bytes();
    bytes.extend_from_slice(&record(0, 2, 0, &[1, 2])); // Pause body of 2 bytes: BadLength
    bytes.extend_from_slice(&record(0, 3, 0, &[8, 0, 0, 0]));
    let mut parser = Up2Parser::new(bytes).unwrap();
    assert_eq!(
        parser.next(),
        Some(Err(Up2Error::BadLength { expected: 4, actual: 2 }))
    );
    let module = parser.next().unwrap().unwrap();
    match module.content {
        ModuleContent::LoopStart(m) => assert_eq!(m.label, 8),
        other => panic!("expected LoopStart, got {:?}", other),
    }
    assert_eq!(parser.next(), None);
}

#[test]
fn parse_collects_all_records_in_order() {
    let mut bytes = valid_header_bytes();
    bytes.extend_from_slice(&record(1, 0, 0, &[5, 0, 0, 0]));
    bytes.extend_from_slice(&record(2, 2, 0, &[60, 0, 0, 0]));
    bytes.extend_from_slice(&record(3, 1, 0, &[5, 0, 0, 0]));
    let file: Up2File = Up2File::parse(bytes).unwrap();
    assert_eq!(file.header.header_id, UP2_MAGIC);
    assert_eq!(file.modules.len(), 3);
    let kinds: Vec<u32> = file
        .modules
        .iter()
        .map(|m: &Module| m.header.module_type)
        .collect();
    assert_eq!(kinds, vec![0, 2, 1]);
    match &file.modules[1].content {
        ModuleContent::Pause(m) => assert_eq!(m.delay, 60),
        other => panic!("expected Pause, got {:?}", other),
    }
}

#[test]
fn parse_stops_at_first_error() {
    let mut bytes = valid_header_bytes();
    bytes.extend_from_slice(&record(1, 0, 0, &[5, 0, 0, 0]));
    bytes.extend_from_slice(&record(2, 2, 0, &[1])); // bad Pause body
    bytes.extend_from_slice(&record(3, 1, 0, &[5, 0, 0, 0]));
    assert_eq!(
        Up2File::parse(bytes),
        Err(Up2Error::BadLength { expected: 4, actual: 1 })
    );
}

#[test]
fn firmware_record_payload_reassembles_end_to_end() {
    // a Firmware record whose payload is two 132-byte blocks
    let mut payload = 0u32.to_le_bytes().to_vec();
    payload.extend_from_slice(&[0x5A; 128]);
    payload.extend_from_slice(&1u32.to_le_bytes());
    payload.extend_from_slice(&[0xA5; 128]);
    let mut body = vec![0u8; 28]; // command envelope
    body.extend_from_slice(&0u32.to_le_bytes()); // delay
    body.extend_from_slice(&payload);
    let mut bytes = valid_header_bytes();
    bytes.extend_from_slice(&record(0, 0x2003, 0, &body));
    let mut parser = Up2Parser::new(bytes).unwrap();
    let module = parser.next().unwrap().unwrap();
    let firmware = match module.content {
        ModuleContent::Firmware(m) => m,
        other => panic!("expected Firmware, got {:?}", other),
    };
    assert_eq!(firmware.data.len(), 264);
    let image = sma_update_parser::blocks::reassemble_blocks(&firmware.data).unwrap();
    assert_eq!(image.len(), 256);
    assert!(image[..128].iter().all(|&b| b == 0x5A));
    assert!(image[128..].iter().all(|&b| b == 0xA5));
    assert_eq!(parser.next(), None);
}

#[test]
fn parse_propagates_header_errors() {
    assert_eq!(Up2File::parse(vec![1, 2, 3]), Err(Up2Error::TruncatedStream));
    assert_eq!(
        Up2File::parse(vec![0, 0, 0, 0, 0, 0, 0, 0]),
        Err(Up2Error::InvalidMagic)
    );
}
