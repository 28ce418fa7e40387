//! The container decoder: header validation and the streaming record framing.

use vstd::prelude::*;
use vstd::slice::{slice_subrange, slice_to_vec};
use vstd::utf8::{decode_utf8, encode_utf8, valid_utf8};
use crate::types::{module_type_of, CmdEnvelope, CondChkModule, FirmwareModule,
    FirmwareverModule, FwChkModule, LevelEndModule, LevelStartModule, LoginModule, LogoutModule,
    LoopEndModule, LoopStartModule, Module, ModuleContent, ModuleHeader, ModuleType, PauseModule,
    TextModule, UnknownModule, UpFmt10Module, Up2Error, Up2File, Up2Header};
use crate::wire::{read_u16, read_u32, read_u8, spec_le16, spec_le32};
use crate::UP2_MAGIC;

verus! {

/// The container prologue that the first 8 bytes of `b` hold.
pub open spec fn spec_parse_header(b: Seq<u8>) -> Up2Header
    recommends
        b.len() >= 8,
{
    Up2Header {
        header_id: spec_le32(b, 0),
        major_version: b[4],
        minor_version: b[5],
        build_number: b[6],
        rev: b[7],
    }
}

/// The record framing header that the 16 bytes of `b` at offset `off` hold.
pub open spec fn spec_record_header(b: Seq<u8>, off: int) -> ModuleHeader
    recommends
        0 <= off,
        off + 16 <= b.len(),
{
    ModuleHeader {
        adler: spec_le32(b, off),
        module_type: spec_le32(b, off + 4),
        susyid: spec_le32(b, off + 8),
        len: spec_le32(b, off + 12),
    }
}

/// Takes the raw bytes of a container prologue and reads its four scalar
/// fields. No validation happens here; `Up2Parser::new` checks the magic.
pub fn parse_header(buf: &[u8]) -> (header: Up2Header)
    requires
        buf@.len() >= 8,
    ensures
        header == spec_parse_header(buf@),
{
    Up2Header {
        header_id: read_u32(buf, 0),
        major_version: read_u8(buf, 4),
        minor_version: read_u8(buf, 5),
        build_number: read_u8(buf, 6),
        rev: read_u8(buf, 7),
    }
}

/// The shared 28-byte command envelope held at the start of `b`.
pub open spec fn spec_envelope(b: Seq<u8>) -> CmdEnvelope
    recommends
        b.len() >= 28,
{
    CmdEnvelope {
        ctrl: spec_le16(b, 0),
        dst_susy: spec_le16(b, 2),
        dst_ser: spec_le32(b, 4),
        dst_dev: b[8],
        dst_fkt: b[9],
        src_susy: spec_le16(b, 10),
        src_ser: spec_le32(b, 12),
        src_dev: b[16],
        src_fkt: b[17],
        cmd: b[18],
        pcnt: b[19],
        obj_num: spec_le16(b, 20),
        dat_len: spec_le16(b, 22),
        p0: spec_le32(b, 24),
    }
}

/// `None` when `b` has exactly the length a fixed-size body demands, and the
/// exact `BadLength` error otherwise.
pub open spec fn fixed_len_error(b: Seq<u8>, expected: usize) -> Option<Up2Error> {
    if b.len() == expected {
        None
    } else {
        Some(Up2Error::BadLength { expected, actual: b.len() as usize })
    }
}

/// The error, if any, that decoding a body of type `t` from bytes `b` must
/// yield; `None` exactly when decoding must succeed.
pub open spec fn body_error(t: ModuleType, b: Seq<u8>) -> Option<Up2Error> {
    match t {
        ModuleType::LevelStartMt => fixed_len_error(b, 4),
        ModuleType::LevelEndMt => fixed_len_error(b, 4),
        ModuleType::PauseMt => fixed_len_error(b, 4),
        ModuleType::LoopStartMt => fixed_len_error(b, 4),
        ModuleType::LoopEndMt => fixed_len_error(b, 8),
        ModuleType::FirmwareverMt => fixed_len_error(b, 4),
        ModuleType::TextMt => if valid_utf8(b) {
            None
        } else {
            Some(Up2Error::InvalidEncoding)
        },
        ModuleType::LoginMt => if b.len() != 56 {
            Some(Up2Error::BadLength { expected: 56, actual: b.len() as usize })
        } else if !valid_utf8(b.subrange(40, 52)) {
            Some(Up2Error::InvalidEncoding)
        } else {
            None
        },
        ModuleType::FwChkMt => fixed_len_error(b, 60),
        ModuleType::CondChkMt => fixed_len_error(b, 52),
        ModuleType::FirmwareMt => if b.len() >= 32 {
            None
        } else {
            Some(Up2Error::BadLength { expected: 32, actual: b.len() as usize })
        },
        ModuleType::LogoutMt => fixed_len_error(b, 28),
        ModuleType::UpFmt10Mt => None,
        ModuleType::UnknownMt => None,
    }
}

/// True when `m` holds the envelope fields that the first 28 bytes of `b`
/// give, followed by the `Login` trailing fields: three parameters, a
/// 12-byte password string and a mode word.
pub open spec fn login_matches(b: Seq<u8>, m: LoginModule) -> bool {
    let e = spec_envelope(b);
    &&& m.ctrl == e.ctrl
    &&& m.dst_susy == e.dst_susy
    &&& m.dst_ser == e.dst_ser
    &&& m.dst_dev == e.dst_dev
    &&& m.dst_fkt == e.dst_fkt
    &&& m.src_susy == e.src_susy
    &&& m.src_ser == e.src_ser
    &&& m.src_dev == e.src_dev
    &&& m.src_fkt == e.src_fkt
    &&& m.cmd == e.cmd
    &&& m.pcnt == e.pcnt
    &&& m.obj_num == e.obj_num
    &&& m.dat_len == e.dat_len
    &&& m.p0 == e.p0
    &&& m.p1 == spec_le32(b, 28)
    &&& m.p2 == spec_le32(b, 32)
    &&& m.p3 == spec_le32(b, 36)
    &&& m.password@ == decode_utf8(b.subrange(40, 52))
    &&& m.mode == spec_le32(b, 52)
}

/// True when `m` holds the envelope fields of `b` followed by the `FwChk`
/// trailing fields: block range, condition count and three digests.
pub open spec fn fw_chk_matches(b: Seq<u8>, m: FwChkModule) -> bool {
    let e = spec_envelope(b);
    &&& m.ctrl == e.ctrl
    &&& m.dst_susy == e.dst_susy
    &&& m.dst_ser == e.dst_ser
    &&& m.dst_dev == e.dst_dev
    &&& m.dst_fkt == e.dst_fkt
    &&& m.src_susy == e.src_susy
    &&& m.src_ser == e.src_ser
    &&& m.src_dev == e.src_dev
    &&& m.src_fkt == e.src_fkt
    &&& m.cmd == e.cmd
    &&& m.pcnt == e.pcnt
    &&& m.obj_num == e.obj_num
    &&& m.dat_len == e.dat_len
    &&& m.p0 == e.p0
    &&& m.blk_first == spec_le32(b, 28)
    &&& m.blk_last == spec_le32(b, 32)
    &&& m.cond_cnt == spec_le16(b, 36)
    &&& m.crc == spec_le16(b, 38)
    &&& m.adler32 == spec_le32(b, 40)
    &&& m.md4@ == b.subrange(44, 60)
}

/// True when `m` holds the envelope fields of `b` followed by the `CondChk`
/// trailing fields: object selector, condition mask and bounds.
pub open spec fn cond_chk_matches(b: Seq<u8>, m: CondChkModule) -> bool {
    let e = spec_envelope(b);
    &&& m.ctrl == e.ctrl
    &&& m.dst_susy == e.dst_susy
    &&& m.dst_ser == e.dst_ser
    &&& m.dst_dev == e.dst_dev
    &&& m.dst_fkt == e.dst_fkt
    &&& m.src_susy == e.src_susy
    &&& m.src_ser == e.src_ser
    &&& m.src_dev == e.src_dev
    &&& m.src_kkt == e.src_fkt
    &&& m.cmd == e.cmd
    &&& m.pcnt == e.pcnt
    &&& m.obj_num == e.obj_num
    &&& m.dat_len == e.dat_len
    &&& m.p0 == e.p0
    &&& m.obj_nr == spec_le16(b, 28)
    &&& m.rec_dw_first == spec_le16(b, 30)
    &&& m.idx_first == spec_le32(b, 32)
    &&& m.bitmask == spec_le32(b, 36)
    &&& m.lo_bound == spec_le32(b, 40)
    &&& m.hi_bound == spec_le32(b, 44)
    &&& m.no_obj == b[48]
    &&& m.dat_valid == b[49]
    &&& m.res_1 == b[50]
    &&& m.res_2 == b[51]
}

/// True when `m` holds the envelope fields of `b`, the delay word, and the
/// whole remainder of the body as its opaque payload.
pub open spec fn firmware_matches(b: Seq<u8>, m: FirmwareModule) -> bool {
    let e = spec_envelope(b);
    &&& m.ctrl == e.ctrl
    &&& m.dst_susy == e.dst_susy
    &&& m.dst_ser == e.dst_ser
    &&& m.dst_dev == e.dst_dev
    &&& m.dst_fkt == e.dst_fkt
    &&& m.src_susy == e.src_susy
    &&& m.src_ser == e.src_ser
    &&& m.src_dev == e.src_dev
    &&& m.src_fkt == e.src_fkt
    &&& m.cmd == e.cmd
    &&& m.pcnt == e.pcnt
    &&& m.obj_num == e.obj_num
    &&& m.dat_len == e.dat_len
    &&& m.p0 == e.p0
    &&& m.delay == spec_le32(b, 28)
    &&& m.data@ == b.subrange(32, b.len() as int)
}

/// True when `m` holds exactly the envelope fields of `b`.
pub open spec fn logout_matches(b: Seq<u8>, m: LogoutModule) -> bool {
    let e = spec_envelope(b);
    &&& m.ctrl == e.ctrl
    &&& m.dst_susy == e.dst_susy
    &&& m.dst_ser == e.dst_ser
    &&& m.dst_dev == e.dst_dev
    &&& m.dst_fkt == e.dst_fkt
    &&& m.src_susy == e.src_susy
    &&& m.src_ser == e.src_ser
    &&& m.src_dev == e.src_dev
    &&& m.src_fkt == e.src_fkt
    &&& m.cmd == e.cmd
    &&& m.pcnt == e.pcnt
    &&& m.obj_num == e.obj_num
    &&& m.dat_len == e.dat_len
    &&& m.p0 == e.p0
}

/// True when `c` is the decoded body of type `t` for body bytes `b`, field
/// for field as the layout gives them. Meaningful when `body_error(t, b)`
/// is `None`.
pub open spec fn content_matches(t: ModuleType, b: Seq<u8>, c: ModuleContent) -> bool {
    match t {
        ModuleType::LevelStartMt => c matches ModuleContent::LevelStart(m) && m.label
            == spec_le32(b, 0),
        ModuleType::LevelEndMt => c matches ModuleContent::LevelEnd(m) && m.label == spec_le32(
            b,
            0,
        ),
        ModuleType::PauseMt => c matches ModuleContent::Pause(m) && m.delay == spec_le32(b, 0),
        ModuleType::LoopStartMt => c matches ModuleContent::LoopStart(m) && m.label == spec_le32(
            b,
            0,
        ),
        ModuleType::LoopEndMt => c matches ModuleContent::LoopEnd(m) && m.label == spec_le32(b, 0)
            && m.loops == spec_le32(b, 4),
        ModuleType::FirmwareverMt => c matches ModuleContent::Firmwarever(m) && m.major_version
            == b[0] && m.minor_version == b[1] && m.build_number == b[2] && m.rev == b[3],
        ModuleType::TextMt => c matches ModuleContent::Text(m) && m.data@ == decode_utf8(b),
        ModuleType::LoginMt => c matches ModuleContent::Login(m) && login_matches(b, m),
        ModuleType::FwChkMt => c matches ModuleContent::FwChk(m) && fw_chk_matches(b, m),
        ModuleType::CondChkMt => c matches ModuleContent::CondChk(m) && cond_chk_matches(b, m),
        ModuleType::FirmwareMt => c matches ModuleContent::Firmware(m) && firmware_matches(b, m),
        ModuleType::LogoutMt => c matches ModuleContent::Logout(m) && logout_matches(b, m),
        ModuleType::UpFmt10Mt => c matches ModuleContent::UpFmt10(m) && m.data@ == b,
        ModuleType::UnknownMt => c matches ModuleContent::Unknown(m) && m.data@ == b,
    }
}

/// Law: `Text` bodies round-trip. Encoding any string as UTF-8 gives a body
/// that decodes without error, and whatever content is decoded from that
/// body holds exactly the original string.
pub proof fn lemma_text_round_trip(s: Seq<char>)
    ensures
        body_error(ModuleType::TextMt, encode_utf8(s)) is None,
        forall|c: ModuleContent|
            content_matches(ModuleType::TextMt, encode_utf8(s), c) ==> (c matches
            ModuleContent::Text(m) && m.data@ == s),
{
    vstd::utf8::encode_utf8_valid_utf8(s);
    vstd::utf8::encode_utf8_decode_utf8(s);
}

/// Law: a record whose type tag maps to no known variant always decodes,
/// to the raw body carried verbatim, never to an error — whatever its
/// declared body length.
pub proof fn lemma_unknown_tag_always_decodes(tag: u32, b: Seq<u8>)
    requires
        module_type_of(tag) == ModuleType::UnknownMt,
    ensures
        body_error(module_type_of(tag), b) is None,
        forall|c: ModuleContent|
            content_matches(module_type_of(tag), b, c) ==> (c matches ModuleContent::Unknown(m)
                && m.data@ == b),
{
}

/// Relies on String::from_utf8: it succeeds exactly on valid UTF-8 input,
/// and then returns the string those bytes encode.
#[verifier::external_body]
fn bytes_to_string(bytes: Vec<u8>) -> (r: Option<String>)
    ensures
        r is Some <==> valid_utf8(bytes@),
        r matches Some(s) ==> s@ == decode_utf8(bytes@),
{
    match String::from_utf8(bytes) {
        Ok(s) => Some(s),
        Err(_) => None,
    }
}

/// Reads the shared 28-byte command envelope from the start of `raw`.
fn decode_envelope(raw: &[u8]) -> (e: CmdEnvelope)
    requires
        raw@.len() >= 28,
    ensures
        e == spec_envelope(raw@),
{
    CmdEnvelope {
        ctrl: read_u16(raw, 0),
        dst_susy: read_u16(raw, 2),
        dst_ser: read_u32(raw, 4),
        dst_dev: read_u8(raw, 8),
        dst_fkt: read_u8(raw, 9),
        src_susy: read_u16(raw, 10),
        src_ser: read_u32(raw, 12),
        src_dev: read_u8(raw, 16),
        src_fkt: read_u8(raw, 17),
        cmd: read_u8(raw, 18),
        pcnt: read_u8(raw, 19),
        obj_num: read_u16(raw, 20),
        dat_len: read_u16(raw, 22),
        p0: read_u32(raw, 24),
    }
}

/// The streaming decoder: it owns the container bytes, consumes the 8-byte
/// prologue on construction, and then yields one record per `next` call
/// until the bytes are exhausted.
pub struct Up2Parser {
    buf: Vec<u8>,
    offset: usize,
    pub header: Up2Header,
}

impl Up2Parser {
    /// The full byte stream that this decoder was constructed over.
    pub closed spec fn stream(&self) -> Seq<u8> {
        self.buf@
    }

    /// The current read position: every byte before it has been consumed,
    /// none after it.
    pub closed spec fn pos(&self) -> int {
        self.offset as int
    }

    /// The header that the `header` field holds.
    pub closed spec fn spec_header(&self) -> Up2Header {
        self.header
    }

    /// Holds of every decoder that `new` returns and is preserved by `next`:
    /// the prologue has been consumed and validated, and the position stays
    /// inside the stream.
    pub open spec fn wf(&self) -> bool {
        &&& 8 <= self.pos() <= self.stream().len()
        &&& spec_le32(self.stream(), 0) == UP2_MAGIC
        &&& self.spec_header() == spec_parse_header(self.stream())
    }

    /// The number of bytes consumed so far, for diagnostics: the prologue
    /// plus every record framed up to this point.
    pub fn offset(&self) -> (r: usize)
        ensures
            r == self.pos(),
    {
        self.offset
    }

    /// Validates the container prologue: fails on fewer than 8 bytes or on a
    /// wrong magic value, and otherwise consumes the 8 bytes and returns the
    /// decoded header.
    pub fn load_header(&mut self) -> (r: Result<Up2Header, Up2Error>)
        requires
            old(self).pos() == 0,
        ensures
            final(self).stream() == old(self).stream(),
            final(self).spec_header() == old(self).spec_header(),
            ({
                let s = old(self).stream();
                if s.len() < 8 {
                    r == Err::<Up2Header, Up2Error>(Up2Error::TruncatedStream)
                } else if spec_le32(s, 0) != UP2_MAGIC {
                    r == Err::<Up2Header, Up2Error>(Up2Error::InvalidMagic)
                } else {
                    r == Ok::<Up2Header, Up2Error>(spec_parse_header(s)) && final(self).pos()
                        == 8
                }
            }),
    {
        if self.buf.len() < 8 {
            return Err(Up2Error::TruncatedStream);
        }
        let header = parse_header(self.buf.as_slice());
        if header.header_id != UP2_MAGIC {
            return Err(Up2Error::InvalidMagic);
        }
        self.offset = 8;
        Ok(header)
    }

    /// Builds a decoder over the given container bytes, eagerly consuming and
    /// validating the 8-byte prologue. Fails with `TruncatedStream` when
    /// fewer than 8 bytes are given, and with `InvalidMagic` when the first
    /// four bytes are not the little-endian magic value.
    pub fn new(buf: Vec<u8>) -> (r: Result<Up2Parser, Up2Error>)
        ensures
            ({
                let s = buf@;
                &&& s.len() < 8 ==> r == Err::<Up2Parser, Up2Error>(Up2Error::TruncatedStream)
                &&& s.len() >= 8 && spec_le32(s, 0) != UP2_MAGIC ==> r == Err::<
                    Up2Parser,
                    Up2Error,
                >(Up2Error::InvalidMagic)
                &&& s.len() >= 8 && spec_le32(s, 0) == UP2_MAGIC ==> (r matches Ok(p) && p.wf()
                    && p.stream() == s && p.pos() == 8 && p.spec_header() == spec_parse_header(
                    s,
                ))
            }),
    {
        let mut parser = Up2Parser {
            buf,
            offset: 0,
            header: Up2Header {
                header_id: 0,
                major_version: 0,
                minor_version: 0,
                build_number: 0,
                rev: 0,
            },
        };
        match parser.load_header() {
            Ok(h) => {
                parser.header = h;
                Ok(parser)
            },
            Err(e) => Err(e),
        }
    }

    /// Decodes one record body of the given type from its raw bytes.
    /// Fixed-size variants fail with `BadLength` unless the body has exactly
    /// the documented size; `Text` and the `Login` password fail with
    /// `InvalidEncoding` on bytes that are not valid UTF-8; `Firmware`
    /// demands at least its 32-byte envelope; `UpFmt10` and `Unknown` accept
    /// any body verbatim.
    pub fn parse_module_body(&self, raw_data: &[u8], module_type: &ModuleType) -> (r: Result<
        ModuleContent,
        Up2Error,
    >)
        ensures
            match body_error(*module_type, raw_data@) {
                Some(e) => r == Err::<ModuleContent, Up2Error>(e),
                None => r matches Ok(c) && content_matches(*module_type, raw_data@, c),
            },
    {
        let len: usize = raw_data.len();
        match module_type {
            ModuleType::LevelStartMt => {
                if len != 4 {
                    return Err(Up2Error::BadLength { expected: 4, actual: len });
                }
                Ok(ModuleContent::LevelStart(LevelStartModule { label: read_u32(raw_data, 0) }))
            },
            ModuleType::LevelEndMt => {
                if len != 4 {
                    return Err(Up2Error::BadLength { expected: 4, actual: len });
                }
                Ok(ModuleContent::LevelEnd(LevelEndModule { label: read_u32(raw_data, 0) }))
            },
            ModuleType::PauseMt => {
                if len != 4 {
                    return Err(Up2Error::BadLength { expected: 4, actual: len });
                }
                Ok(ModuleContent::Pause(PauseModule { delay: read_u32(raw_data, 0) }))
            },
            ModuleType::LoopStartMt => {
                if len != 4 {
                    return Err(Up2Error::BadLength { expected: 4, actual: len });
                }
                Ok(ModuleContent::LoopStart(LoopStartModule { label: read_u32(raw_data, 0) }))
            },
            ModuleType::LoopEndMt => {
                if len != 8 {
                    return Err(Up2Error::BadLength { expected: 8, actual: len });
                }
                Ok(ModuleContent::LoopEnd(LoopEndModule {
                    label: read_u32(raw_data, 0),
                    loops: read_u32(raw_data, 4),
                }))
            },
            ModuleType::FirmwareverMt => {
                if len != 4 {
                    return Err(Up2Error::BadLength { expected: 4, actual: len });
                }
                Ok(ModuleContent::Firmwarever(FirmwareverModule {
                    major_version: read_u8(raw_data, 0),
                    minor_version: read_u8(raw_data, 1),
                    build_number: read_u8(raw_data, 2),
                    rev: read_u8(raw_data, 3),
                }))
            },
            ModuleType::TextMt => {
                match bytes_to_string(slice_to_vec(raw_data)) {
                    Some(s) => Ok(ModuleContent::Text(TextModule { data: s })),
                    None => Err(Up2Error::InvalidEncoding),
                }
            },
            ModuleType::LoginMt => {
                if len != 56 {
                    return Err(Up2Error::BadLength { expected: 56, actual: len });
                }
                let e = decode_envelope(raw_data);
                match bytes_to_string(slice_to_vec(slice_subrange(raw_data, 40, 52))) {
                    None => Err(Up2Error::InvalidEncoding),
                    Some(password) => Ok(ModuleContent::Login(LoginModule {
                        ctrl: e.ctrl,
                        dst_susy: e.dst_susy,
                        dst_ser: e.dst_ser,
                        dst_dev: e.dst_dev,
                        dst_fkt: e.dst_fkt,
                        src_susy: e.src_susy,
                        src_ser: e.src_ser,
                        src_dev: e.src_dev,
                        src_fkt: e.src_fkt,
                        cmd: e.cmd,
                        pcnt: e.pcnt,
                        obj_num: e.obj_num,
                        dat_len: e.dat_len,
                        p0: e.p0,
                        p1: read_u32(raw_data, 28),
                        p2: read_u32(raw_data, 32),
                        p3: read_u32(raw_data, 36),
                        password,
                        mode: read_u32(raw_data, 52),
                    })),
                }
            },
            ModuleType::FwChkMt => {
                if len != 60 {
                    return Err(Up2Error::BadLength { expected: 60, actual: len });
                }
                let e = decode_envelope(raw_data);
                let md4: [u8; 16] = [
                    read_u8(raw_data, 44),
                    read_u8(raw_data, 45),
                    read_u8(raw_data, 46),
                    read_u8(raw_data, 47),
                    read_u8(raw_data, 48),
                    read_u8(raw_data, 49),
                    read_u8(raw_data, 50),
                    read_u8(raw_data, 51),
                    read_u8(raw_data, 52),
                    read_u8(raw_data, 53),
                    read_u8(raw_data, 54),
                    read_u8(raw_data, 55),
                    read_u8(raw_data, 56),
                    read_u8(raw_data, 57),
                    read_u8(raw_data, 58),
                    read_u8(raw_data, 59),
                ];
                proof {
                    assert(md4@ =~= raw_data@.subrange(44, 60));
                }
                Ok(ModuleContent::FwChk(FwChkModule {
                    ctrl: e.ctrl,
                    dst_susy: e.dst_susy,
                    dst_ser: e.dst_ser,
                    dst_dev: e.dst_dev,
                    dst_fkt: e.dst_fkt,
                    src_susy: e.src_susy,
                    src_ser: e.src_ser,
                    src_dev: e.src_dev,
                    src_fkt: e.src_fkt,
                    cmd: e.cmd,
                    pcnt: e.pcnt,
                    obj_num: e.obj_num,
                    dat_len: e.dat_len,
                    p0: e.p0,
                    blk_first: read_u32(raw_data, 28),
                    blk_last: read_u32(raw_data, 32),
                    cond_cnt: read_u16(raw_data, 36),
                    crc: read_u16(raw_data, 38),
                    adler32: read_u32(raw_data, 40),
                    md4,
                }))
            },
            ModuleType::CondChkMt => {
                if len != 52 {
                    return Err(Up2Error::BadLength { expected: 52, actual: len });
                }
                let e = decode_envelope(raw_data);
                Ok(ModuleContent::CondChk(CondChkModule {
                    ctrl: e.ctrl,
                    dst_susy: e.dst_susy,
                    dst_ser: e.dst_ser,
                    dst_dev: e.dst_dev,
                    dst_fkt: e.dst_fkt,
                    src_susy: e.src_susy,
                    src_ser: e.src_ser,
                    src_dev: e.src_dev,
                    src_kkt: e.src_fkt,
                    cmd: e.cmd,
                    pcnt: e.pcnt,
                    obj_num: e.obj_num,
                    dat_len: e.dat_len,
                    p0: e.p0,
                    obj_nr: read_u16(raw_data, 28),
                    rec_dw_first: read_u16(raw_data, 30),
                    idx_first: read_u32(raw_data, 32),
                    bitmask: read_u32(raw_data, 36),
                    lo_bound: read_u32(raw_data, 40),
                    hi_bound: read_u32(raw_data, 44),
                    no_obj: read_u8(raw_data, 48),
                    dat_valid: read_u8(raw_data, 49),
                    res_1: read_u8(raw_data, 50),
                    res_2: read_u8(raw_data, 51),
                }))
            },
            ModuleType::FirmwareMt => {
                if len < 32 {
                    return Err(Up2Error::BadLength { expected: 32, actual: len });
                }
                let e = decode_envelope(raw_data);
                Ok(ModuleContent::Firmware(FirmwareModule {
                    ctrl: e.ctrl,
                    dst_susy: e.dst_susy,
                    dst_ser: e.dst_ser,
                    dst_dev: e.dst_dev,
                    dst_fkt: e.dst_fkt,
                    src_susy: e.src_susy,
                    src_ser: e.src_ser,
                    src_dev: e.src_dev,
                    src_fkt: e.src_fkt,
                    cmd: e.cmd,
                    pcnt: e.pcnt,
                    obj_num: e.obj_num,
                    dat_len: e.dat_len,
                    p0: e.p0,
                    delay: read_u32(raw_data, 28),
                    data: slice_to_vec(slice_subrange(raw_data, 32, len)),
                }))
            },
            ModuleType::LogoutMt => {
                if len != 28 {
                    return Err(Up2Error::BadLength { expected: 28, actual: len });
                }
                let e = decode_envelope(raw_data);
                Ok(ModuleContent::Logout(LogoutModule {
                    ctrl: e.ctrl,
                    dst_susy: e.dst_susy,
                    dst_ser: e.dst_ser,
                    dst_dev: e.dst_dev,
                    dst_fkt: e.dst_fkt,
                    src_susy: e.src_susy,
                    src_ser: e.src_ser,
                    src_dev: e.src_dev,
                    src_fkt: e.src_fkt,
                    cmd: e.cmd,
                    pcnt: e.pcnt,
                    obj_num: e.obj_num,
                    dat_len: e.dat_len,
                    p0: e.p0,
                }))
            },
            ModuleType::UpFmt10Mt => Ok(ModuleContent::UpFmt10(UpFmt10Module {
                data: slice_to_vec(raw_data),
            })),
            ModuleType::UnknownMt => Ok(ModuleContent::Unknown(UnknownModule {
                data: slice_to_vec(raw_data),
            })),
        }
    }

    /// Frames and decodes the next record. `None` is the clean end of the
    /// stream, reached exactly when no byte is left; a partial header or a
    /// body shorter than its declared length is `TruncatedStream` and stops
    /// the stream; a body-decode error is yielded for this record only, with
    /// the framing already advanced past it so that iteration can go on.
    pub fn next(&mut self) -> (r: Option<Result<Module, Up2Error>>)
        requires
            old(self).wf(),
        ensures
            final(self).wf(),
            final(self).stream() == old(self).stream(),
            final(self).spec_header() == old(self).spec_header(),
            ({
                let s = old(self).stream();
                let p = old(self).pos();
                if p == s.len() {
                    r is None && final(self).pos() == p
                } else if s.len() - p < 16 {
                    r == Some(Err::<Module, Up2Error>(Up2Error::TruncatedStream))
                        && final(self).pos() == s.len()
                } else {
                    let h = spec_record_header(s, p);
                    if p + 16 + h.len > s.len() {
                        r == Some(Err::<Module, Up2Error>(Up2Error::TruncatedStream))
                            && final(self).pos() == s.len()
                    } else {
                        let body = s.subrange(p + 16, p + 16 + h.len);
                        let t = module_type_of(h.module_type);
                        &&& final(self).pos() == p + 16 + h.len
                        &&& match body_error(t, body) {
                            Some(e) => r == Some(Err::<Module, Up2Error>(e)),
                            None => r matches Some(Ok(m)) && m.header == h && content_matches(
                                t,
                                body,
                                m.content,
                            ),
                        }
                    }
                }
            }),
    {
        let n: usize = self.buf.len();
        if self.offset == n {
            return None;
        }
        if n - self.offset < 16 {
            self.offset = n;
            return Some(Err(Up2Error::TruncatedStream));
        }
        let header = ModuleHeader {
            adler: read_u32(self.buf.as_slice(), self.offset),
            module_type: read_u32(self.buf.as_slice(), self.offset + 4),
            susyid: read_u32(self.buf.as_slice(), self.offset + 8),
            len: read_u32(self.buf.as_slice(), self.offset + 12),
        };
        let body_len: usize = header.len as usize;
        if n - self.offset - 16 < body_len {
            self.offset = n;
            return Some(Err(Up2Error::TruncatedStream));
        }
        let body_start: usize = self.offset + 16;
        let body: Vec<u8> = slice_to_vec(
            slice_subrange(self.buf.as_slice(), body_start, body_start + body_len),
        );
        let module_type = ModuleType::from(header.module_type);
        self.offset = body_start + body_len;
        match self.parse_module_body(body.as_slice(), &module_type) {
            Ok(content) => Some(Ok(Module { header, content })),
            Err(e) => Some(Err(e)),
        }
    }
}

/// The end position of the record framed at `p` in `s`: its 16-byte header
/// plus its declared body length.
pub open spec fn record_end(s: Seq<u8>, p: int) -> int
    recommends
        0 <= p,
        p + 16 <= s.len(),
{
    p + 16 + spec_record_header(s, p).len
}

/// True when a whole record is framed at position `p` of `s` and `m` is its
/// decoded form: the header fields as framed, and the body decoded without
/// error.
pub open spec fn record_at(s: Seq<u8>, p: int, m: Module) -> bool {
    let h = spec_record_header(s, p);
    let t = module_type_of(h.module_type);
    &&& 0 <= p
    &&& p + 16 + h.len <= s.len()
    &&& m.header == h
    &&& body_error(t, s.subrange(p + 16, p + 16 + h.len)) is None
    &&& content_matches(t, s.subrange(p + 16, p + 16 + h.len), m.content)
}

/// True when the records of `ms`, in order, exactly tile the byte range
/// `[p, q)` of `s`, each one decoding without error.
pub open spec fn modules_match_range(s: Seq<u8>, p: int, q: int, ms: Seq<Module>) -> bool
    decreases ms.len(),
{
    if ms.len() == 0 {
        p == q
    } else {
        record_at(s, p, ms[0]) && modules_match_range(s, record_end(s, p), q, ms.drop_first())
    }
}

/// A range tiled by `ms` grows by one record framed right at its end.
proof fn lemma_modules_match_range_push(s: Seq<u8>, p: int, q: int, ms: Seq<Module>, m: Module)
    requires
        modules_match_range(s, p, q, ms),
        record_at(s, q, m),
    ensures
        modules_match_range(s, p, record_end(s, q), ms.push(m)),
    decreases ms.len(),
{
    if ms.len() == 0 {
        assert(ms.push(m)[0] == m);
        assert(ms.push(m).drop_first() =~= Seq::<Module>::empty());
        assert(modules_match_range(s, record_end(s, q), record_end(s, q), Seq::<Module>::empty()));
    } else {
        lemma_modules_match_range_push(s, record_end(s, p), q, ms.drop_first(), m);
        assert(ms.push(m)[0] == ms[0]);
        assert(ms.push(m).drop_first() =~= ms.drop_first().push(m));
    }
}

/// The outcome that iterating every record from position `p` of `s` must
/// reach: `Ok` when the rest of the stream tiles exactly into records that
/// all decode, and otherwise the first error met.
pub open spec fn spec_parse_outcome(s: Seq<u8>, p: int) -> Result<(), Up2Error>
    decreases s.len() - p,
    when 0 <= p <= s.len()
{
    if p == s.len() {
        Ok(())
    } else if s.len() - p < 16 {
        Err(Up2Error::TruncatedStream)
    } else {
        let h = spec_record_header(s, p);
        if p + 16 + h.len > s.len() {
            Err(Up2Error::TruncatedStream)
        } else {
            match body_error(module_type_of(h.module_type), s.subrange(p + 16, p + 16 + h.len)) {
                Some(e) => Err(e),
                None => spec_parse_outcome(s, record_end(s, p)),
            }
        }
    }
}

impl Up2File {
    /// Decodes a whole container eagerly: the header first, then every
    /// record in order until the bytes are exhausted, stopping at the first
    /// error. On success the records tile the stream exactly — full
    /// iteration consumes all bytes after the prologue, 16 bytes of header
    /// plus the declared body length for each record, none skipped and none
    /// read twice.
    #[verifier::loop_isolation(false)]
    pub fn parse(buf: Vec<u8>) -> (r: Result<Up2File, Up2Error>)
        ensures
            ({
                let s = buf@;
                if s.len() < 8 {
                    r == Err::<Up2File, Up2Error>(Up2Error::TruncatedStream)
                } else if spec_le32(s, 0) != UP2_MAGIC {
                    r == Err::<Up2File, Up2Error>(Up2Error::InvalidMagic)
                } else {
                    match spec_parse_outcome(s, 8) {
                        Err(e) => r == Err::<Up2File, Up2Error>(e),
                        Ok(_) => r matches Ok(f) && f.header == spec_parse_header(s)
                            && modules_match_range(s, 8, s.len() as int, f.modules@),
                    }
                }
            }),
    {
        let ghost s = buf@;
        let mut parser = match Up2Parser::new(buf) {
            Ok(p) => p,
            Err(e) => {
                return Err(e);
            },
        };
        let header = parser.header;
        let mut modules: Vec<Module> = Vec::new();
        while parser.offset < parser.buf.len()
            invariant
                parser.wf(),
                parser.stream() == s,
                header == parser.spec_header(),
                modules_match_range(s, 8, parser.pos(), modules@),
                spec_parse_outcome(s, parser.pos()) == spec_parse_outcome(s, 8),
            decreases s.len() - parser.pos(),
        {
            let ghost p = parser.pos();
            match parser.next() {
                None => {
                    proof {
                        assert(false);
                    }
                },
                Some(Ok(m)) => {
                    proof {
                        lemma_modules_match_range_push(s, 8, p, modules@, m);
                    }
                    modules.push(m);
                },
                Some(Err(e)) => {
                    proof {
                        assert(spec_parse_outcome(s, p) == Err::<(), Up2Error>(e));
                    }
                    return Err(e);
                },
            }
        }
        proof {
            assert(parser.pos() == s.len());
            assert(spec_parse_outcome(s, parser.pos()) == Ok::<(), Up2Error>(()));
        }
        Ok(Up2File { header, modules })
    }
}

} // verus!
