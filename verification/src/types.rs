//! Data model of the container format: the container header, the record
//! framing header, the fourteen record-body variants and the error kinds.

use vstd::prelude::*;

verus! {

/// The fourteen known record type tags, plus a catch-all for any unmapped
/// 32-bit tag value.
#[derive(Debug, Clone, Copy, PartialEq, Eq, Structural)]
pub enum ModuleType {
    LevelStartMt,
    LevelEndMt,
    PauseMt,
    LoopStartMt,
    LoopEndMt,
    FirmwareverMt,
    TextMt,
    LoginMt,
    FwChkMt,
    CondChkMt,
    FirmwareMt,
    LogoutMt,
    UpFmt10Mt,
    UnknownMt,
}

/// The record type that a raw 32-bit tag stands for. Tag values are format
/// constants, matched exactly; anything unmapped is `UnknownMt`.
pub open spec fn module_type_of(v: u32) -> ModuleType {
    if v == 0x0000 {
        ModuleType::LevelStartMt
    } else if v == 0x0001 {
        ModuleType::LevelEndMt
    } else if v == 0x0002 {
        ModuleType::PauseMt
    } else if v == 0x0003 {
        ModuleType::LoopStartMt
    } else if v == 0x0004 {
        ModuleType::LoopEndMt
    } else if v == 0x1000 {
        ModuleType::FirmwareverMt
    } else if v == 0x1001 {
        ModuleType::TextMt
    } else if v == 0x2000 {
        ModuleType::LoginMt
    } else if v == 0x2001 {
        ModuleType::FwChkMt
    } else if v == 0x2002 {
        ModuleType::CondChkMt
    } else if v == 0x2003 {
        ModuleType::FirmwareMt
    } else if v == 0x2004 {
        ModuleType::LogoutMt
    } else if v == 0x3000 {
        ModuleType::UpFmt10Mt
    } else {
        ModuleType::UnknownMt
    }
}

impl From<u32> for ModuleType {
    fn from(v: u32) -> (r: ModuleType) {
        match v {
            0x0000 => ModuleType::LevelStartMt,
            0x0001 => ModuleType::LevelEndMt,
            0x0002 => ModuleType::PauseMt,
            0x0003 => ModuleType::LoopStartMt,
            0x0004 => ModuleType::LoopEndMt,
            0x1000 => ModuleType::FirmwareverMt,
            0x1001 => ModuleType::TextMt,
            0x2000 => ModuleType::LoginMt,
            0x2001 => ModuleType::FwChkMt,
            0x2002 => ModuleType::CondChkMt,
            0x2003 => ModuleType::FirmwareMt,
            0x2004 => ModuleType::LogoutMt,
            0x3000 => ModuleType::UpFmt10Mt,
            _ => ModuleType::UnknownMt,
        }
    }
}

impl vstd::std_specs::convert::FromSpecImpl<u32> for ModuleType {
    open spec fn obeys_from_spec() -> bool {
        true
    }

    open spec fn from_spec(v: u32) -> ModuleType {
        module_type_of(v)
    }
}

/// Everything that can go wrong while decoding a container, a record or a
/// firmware block.
#[derive(Debug, Clone, Copy, PartialEq, Eq, Structural)]
pub enum Up2Error {
    /// The container header's magic value is not `UP2_MAGIC`.
    InvalidMagic,
    /// Fewer bytes were available than a header or a declared body length
    /// requires; fatal to the whole stream.
    TruncatedStream,
    /// A fixed-size body's length does not match its layout, or a block
    /// payload is not a whole number of blocks.
    BadLength { expected: usize, actual: usize },
    /// A text field is not valid UTF-8.
    InvalidEncoding,
    /// A firmware block's embedded counter disagrees with its position.
    SequenceMismatch { expected: usize, actual: u32 },
}

/// The fixed 8-byte container prologue.
#[derive(Debug, Clone, Copy, PartialEq, Eq, Structural)]
pub struct Up2Header {
    /// Should be 977358163 (0x3a414d53) for a valid header
    pub header_id: u32,
    pub major_version: u8,
    pub minor_version: u8,
    pub build_number: u8,
    pub rev: u8,
}

/// One decoded record: its 16-byte framing header and its decoded body.
#[derive(Debug, Clone, PartialEq, Eq)]
pub struct Module {
    pub header: ModuleHeader,
    pub content: ModuleContent,
}

/// The fixed 16-byte frame prefix preceding every record body.
#[derive(Debug, Clone, Copy, PartialEq, Eq, Structural)]
pub struct ModuleHeader {
    pub adler: u32,
    pub module_type: u32,
    pub susyid: u32,
    pub len: u32,
}

/// The decoded body of a record, one variant per `ModuleType`.
#[derive(Debug, Clone, PartialEq, Eq)]
pub enum ModuleContent {
    LevelStart(LevelStartModule),
    LevelEnd(LevelEndModule),
    Pause(PauseModule),
    LoopStart(LoopStartModule),
    LoopEnd(LoopEndModule),
    Firmwarever(FirmwareverModule),
    Text(TextModule),
    Login(LoginModule),
    FwChk(FwChkModule),
    CondChk(CondChkModule),
    Firmware(FirmwareModule),
    Logout(LogoutModule),
    UpFmt10(UpFmt10Module),
    Unknown(UnknownModule),
}

#[derive(Debug, Clone, Copy, PartialEq, Eq, Structural)]
pub struct LevelStartModule {
    pub label: u32,
}

#[derive(Debug, Clone, Copy, PartialEq, Eq, Structural)]
pub struct LevelEndModule {
    pub label: u32,
}

#[derive(Debug, Clone, Copy, PartialEq, Eq, Structural)]
pub struct PauseModule {
    pub delay: u32,
}

#[derive(Debug, Clone, Copy, PartialEq, Eq, Structural)]
pub struct LoopStartModule {
    pub label: u32,
}

#[derive(Debug, Clone, Copy, PartialEq, Eq, Structural)]
pub struct LoopEndModule {
    pub label: u32,
    pub loops: u32,
}

#[derive(Debug, Clone, Copy, PartialEq, Eq, Structural)]
pub struct FirmwareverModule {
    pub major_version: u8,
    pub minor_version: u8,
    pub build_number: u8,
    pub rev: u8,
}

#[derive(Debug, Clone, PartialEq, Eq)]
pub struct TextModule {
    pub data: String,
}

/// The shared 28-byte command-envelope sub-layout that prefixes the bodies of
/// `Login`, `FwChk`, `CondChk`, `Firmware` and `Logout` records.
#[derive(Debug, Clone, Copy, PartialEq, Eq, Structural)]
pub struct CmdEnvelope {
    pub ctrl: u16,
    pub dst_susy: u16,
    pub dst_ser: u32,
    pub dst_dev: u8,
    pub dst_fkt: u8,
    pub src_susy: u16,
    pub src_ser: u32,
    pub src_dev: u8,
    pub src_fkt: u8,
    pub cmd: u8,
    pub pcnt: u8,
    pub obj_num: u16,
    pub dat_len: u16,
    pub p0: u32,
}

#[derive(Debug, Clone, PartialEq, Eq)]
pub struct LoginModule {
    pub ctrl: u16,
    pub dst_susy: u16,
    pub dst_ser: u32,
    pub dst_dev: u8,
    pub dst_fkt: u8,
    pub src_susy: u16,
    pub src_ser: u32,
    pub src_dev: u8,
    pub src_fkt: u8,
    pub cmd: u8,
    pub pcnt: u8,
    pub obj_num: u16,
    pub dat_len: u16,
    pub p0: u32,
    pub p1: u32,
    pub p2: u32,
    pub p3: u32,
    pub password: String,
    pub mode: u32,
}

#[derive(Debug, Clone, PartialEq, Eq)]
pub struct FwChkModule {
    pub ctrl: u16,
    pub dst_susy: u16,
    pub dst_ser: u32,
    pub dst_dev: u8,
    pub dst_fkt: u8,
    pub src_susy: u16,
    pub src_ser: u32,
    pub src_dev: u8,
    pub src_fkt: u8,
    pub cmd: u8,
    pub pcnt: u8,
    pub obj_num: u16,
    pub dat_len: u16,
    pub p0: u32,
    pub blk_first: u32,
    pub blk_last: u32,
    pub cond_cnt: u16,
    pub crc: u16,
    pub adler32: u32,
    pub md4: [u8; 16],
}

#[derive(Debug, Clone, PartialEq, Eq)]
pub struct CondChkModule {
    pub ctrl: u16,
    pub dst_susy: u16,
    pub dst_ser: u32,
    pub dst_dev: u8,
    pub dst_fkt: u8,
    pub src_susy: u16,
    pub src_ser: u32,
    pub src_dev: u8,
    /// Field name kept as found in the device firmware; it may stand for
    /// `src_fkt`.
    pub src_kkt: u8,
    pub cmd: u8,
    pub pcnt: u8,
    pub obj_num: u16,
    pub dat_len: u16,
    pub p0: u32,
    pub obj_nr: u16,
    pub rec_dw_first: u16,
    pub idx_first: u32,
    pub bitmask: u32,
    pub lo_bound: u32,
    pub hi_bound: u32,
    pub no_obj: u8,
    pub dat_valid: u8,
    pub res_1: u8,
    pub res_2: u8,
}

#[derive(Debug, Clone, PartialEq, Eq)]
pub struct FirmwareModule {
    pub ctrl: u16,
    pub dst_susy: u16,
    pub dst_ser: u32,
    pub dst_dev: u8,
    pub dst_fkt: u8,
    pub src_susy: u16,
    pub src_ser: u32,
    pub src_dev: u8,
    pub src_fkt: u8,
    pub cmd: u8,
    pub pcnt: u8,
    pub obj_num: u16,
    pub dat_len: u16,
    pub p0: u32,
    pub delay: u32,
    pub data: Vec<u8>,
}

#[derive(Debug, Clone, PartialEq, Eq)]
pub struct LogoutModule {
    pub ctrl: u16,
    pub dst_susy: u16,
    pub dst_ser: u32,
    pub dst_dev: u8,
    pub dst_fkt: u8,
    pub src_susy: u16,
    pub src_ser: u32,
    pub src_dev: u8,
    pub src_fkt: u8,
    pub cmd: u8,
    pub pcnt: u8,
    pub obj_num: u16,
    pub dat_len: u16,
    pub p0: u32,
}

#[derive(Debug, Clone, PartialEq, Eq)]
pub struct UpFmt10Module {
    pub data: Vec<u8>,
}

/// A whole container decoded eagerly: its header and every record, in order.
#[derive(Debug, Clone, PartialEq, Eq)]
pub struct Up2File {
    pub header: Up2Header,
    pub modules: Vec<Module>,
}

#[derive(Debug, Clone, PartialEq, Eq)]
pub struct UnknownModule {
    pub data: Vec<u8>,
}

} // verus!
