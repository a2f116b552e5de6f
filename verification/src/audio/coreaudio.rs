//! The codes that the CoreAudio interface exchanges: four-character property selectors,
//! scopes and format ids, the flag words of render actions and formats, and status codes.

use vstd::prelude::*;

verus! {

/// The big-endian unsigned integer of four bytes, as four-character codes are written.
pub open spec fn be_u32(b0: u8, b1: u8, b2: u8, b3: u8) -> u32 {
    (b0 as int * 0x1000000 + b1 as int * 0x10000 + b2 as int * 0x100 + b3 as int) as u32
}

fn four_char_code(b: [u8; 4]) -> (r: u32)
    ensures
        r == be_u32(b[0], b[1], b[2], b[3]),
{
    (b[0] as u32) * 0x1000000 + (b[1] as u32) * 0x10000 + (b[2] as u32) * 0x100 + (b[3] as u32)
}

/// The audio object properties that this library asks for.
pub enum PropertySelector {
    Devices,
    InputDefault,
    OutputDefault,
    NominalSampleRate,
    BufferFrameSize,
    BufferFrameSizeRange,
}

impl PropertySelector {
    /// The four characters of the selector: "dev#", "dIn ", "dOut", "nsrt", "fsiz", "fsz#".
    pub open spec fn code(&self) -> Seq<u8> {
        match self {
            PropertySelector::Devices => seq![100u8, 101, 118, 35],
            PropertySelector::InputDefault => seq![100u8, 73, 110, 32],
            PropertySelector::OutputDefault => seq![100u8, 79, 117, 116],
            PropertySelector::NominalSampleRate => seq![110u8, 115, 114, 116],
            PropertySelector::BufferFrameSize => seq![102u8, 115, 105, 122],
            PropertySelector::BufferFrameSizeRange => seq![102u8, 115, 122, 35],
        }
    }

    /// The selector's code as a big-endian word.
    pub fn get_u32(&self) -> (r: u32)
        ensures
            r == be_u32(self.code()[0], self.code()[1], self.code()[2], self.code()[3]),
    {
        let bytes: [u8; 4] = match self {
            PropertySelector::Devices => [100u8, 101, 118, 35],
            PropertySelector::InputDefault => [100u8, 73, 110, 32],
            PropertySelector::OutputDefault => [100u8, 79, 117, 116],
            PropertySelector::NominalSampleRate => [110u8, 115, 114, 116],
            PropertySelector::BufferFrameSize => [102u8, 115, 105, 122],
            PropertySelector::BufferFrameSizeRange => [102u8, 115, 122, 35],
        };
        four_char_code(bytes)
    }
}

/// The scope of a property.
pub enum PropertyScope {
    Global,
    Input,
    Output,
}

impl PropertyScope {
    /// The four characters of the scope: "glob", "inpt", "outp".
    pub open spec fn code(&self) -> Seq<u8> {
        match self {
            PropertyScope::Global => seq![103u8, 108, 111, 98],
            PropertyScope::Input => seq![105u8, 110, 112, 116],
            PropertyScope::Output => seq![111u8, 117, 116, 112],
        }
    }

    /// The scope's code as a big-endian word.
    pub fn get_u32(&self) -> (r: u32)
        ensures
            r == be_u32(self.code()[0], self.code()[1], self.code()[2], self.code()[3]),
    {
        let bytes: [u8; 4] = match self {
            PropertyScope::Global => [103u8, 108, 111, 98],
            PropertyScope::Input => [105u8, 110, 112, 116],
            PropertyScope::Output => [111u8, 117, 116, 112],
        };
        four_char_code(bytes)
    }
}

/// The address of a property: selector, scope and element, as the interface takes it.
pub struct PropertyAddress {
    pub selector: u32,
    pub scope: u32,
    pub element: u32,
}

impl PropertyAddress {
    /// The address of a property of the main element.
    pub fn new(selector: PropertySelector, scope: &PropertyScope) -> (r: Self)
        ensures
            r.selector == be_u32(
                selector.code()[0],
                selector.code()[1],
                selector.code()[2],
                selector.code()[3],
            ),
            r.scope == be_u32(scope.code()[0], scope.code()[1], scope.code()[2], scope.code()[3]),
            r.element == 0,
    {
        PropertyAddress { selector: selector.get_u32(), scope: scope.get_u32(), element: 0 }
    }
}

/// The flags of a render action.
pub enum AudioUnitActionFlags {
    PreRender,
    PostRender,
    OutputIsSilence,
    Preflight,
    Render,
    Complete,
    PostRenderError,
    DoNotCheckRenderArgs,
}

impl AudioUnitActionFlags {
    /// The flag's bit: from 0x4 for `PreRender` up to 0x200 for `DoNotCheckRenderArgs`.
    pub open spec fn bit(&self) -> u32 {
        match self {
            AudioUnitActionFlags::PreRender => 0x4,
            AudioUnitActionFlags::PostRender => 0x8,
            AudioUnitActionFlags::OutputIsSilence => 0x10,
            AudioUnitActionFlags::Preflight => 0x20,
            AudioUnitActionFlags::Render => 0x40,
            AudioUnitActionFlags::Complete => 0x80,
            AudioUnitActionFlags::PostRenderError => 0x100,
            AudioUnitActionFlags::DoNotCheckRenderArgs => 0x200,
        }
    }

    pub fn get_u32(&self) -> (r: u32)
        ensures
            r == self.bit(),
    {
        match self {
            AudioUnitActionFlags::PreRender => 0x4,
            AudioUnitActionFlags::PostRender => 0x8,
            AudioUnitActionFlags::OutputIsSilence => 0x10,
            AudioUnitActionFlags::Preflight => 0x20,
            AudioUnitActionFlags::Render => 0x40,
            AudioUnitActionFlags::Complete => 0x80,
            AudioUnitActionFlags::PostRenderError => 0x100,
            AudioUnitActionFlags::DoNotCheckRenderArgs => 0x200,
        }
    }
}

/// Whether the flag is set in the action flags.
pub fn check_action_flag(action_flags: u32, flag: AudioUnitActionFlags) -> (r: bool)
    ensures
        r == (flag.bit() & action_flags != 0),
{
    (flag.get_u32() & action_flags) > 0
}

/// The formats of a stream.
pub enum AudioFormatId {
    LinearPcm,
    Opus,
}

impl AudioFormatId {
    /// The four characters of the format: "lpcm", "opus".
    pub open spec fn code(&self) -> Seq<u8> {
        match self {
            AudioFormatId::LinearPcm => seq![108u8, 112, 99, 109],
            AudioFormatId::Opus => seq![111u8, 112, 117, 115],
        }
    }

    /// The format's code as a big-endian word.
    pub fn get_u32(&self) -> (r: u32)
        ensures
            r == be_u32(self.code()[0], self.code()[1], self.code()[2], self.code()[3]),
    {
        let bytes: [u8; 4] = match self {
            AudioFormatId::LinearPcm => [108u8, 112, 99, 109],
            AudioFormatId::Opus => [111u8, 112, 117, 115],
        };
        four_char_code(bytes)
    }
}

/// The flags of a stream format.
pub enum AudioFormatFlags {
    IsFloat,
    IsBigEndian,
    IsSignedInteger,
    IsPacked,
    IsAlignedHigh,
    IsNonInterleaved,
    IsNonMixable,
    AreAllClear,
}

impl AudioFormatFlags {
    /// The flag's bit: from 0x1 for `IsFloat` up to 0x80 for `AreAllClear`.
    pub open spec fn bit(&self) -> u32 {
        match self {
            AudioFormatFlags::IsFloat => 0x1,
            AudioFormatFlags::IsBigEndian => 0x2,
            AudioFormatFlags::IsSignedInteger => 0x4,
            AudioFormatFlags::IsPacked => 0x8,
            AudioFormatFlags::IsAlignedHigh => 0x10,
            AudioFormatFlags::IsNonInterleaved => 0x20,
            AudioFormatFlags::IsNonMixable => 0x40,
            AudioFormatFlags::AreAllClear => 0x80,
        }
    }

    pub fn get_u32(&self) -> (r: u32)
        ensures
            r == self.bit(),
    {
        match self {
            AudioFormatFlags::IsFloat => 0x1,
            AudioFormatFlags::IsBigEndian => 0x2,
            AudioFormatFlags::IsSignedInteger => 0x4,
            AudioFormatFlags::IsPacked => 0x8,
            AudioFormatFlags::IsAlignedHigh => 0x10,
            AudioFormatFlags::IsNonInterleaved => 0x20,
            AudioFormatFlags::IsNonMixable => 0x40,
            AudioFormatFlags::AreAllClear => 0x80,
        }
    }
}

/// Whether the flag is set in the format flags.
pub fn check_format_flag(format_flags: u32, flag: AudioFormatFlags) -> (r: bool)
    ensures
        r == (flag.bit() & format_flags != 0),
{
    (flag.get_u32() & format_flags) > 0
}

/// A CoreAudio status.
#[derive(Debug, Clone, Copy, PartialEq, Eq, Structural)]
pub enum Error {
    Test,
    SliceTooLong,
    NoError,
    Unimplemented,
    FileNotFound,
    FilePermission,
    TooManyFilesOpen,
    BadFilePath,
    Param,
    MemFull,
}

impl Error {
    /// The status code that the error stands for ("!pth" for `BadFilePath`).
    pub open spec fn code(&self) -> i32 {
        match self {
            Error::Test => 2i32,
            Error::SliceTooLong => 1,
            Error::NoError => 0,
            Error::Unimplemented => -4i32,
            Error::FileNotFound => -43i32,
            Error::FilePermission => -54i32,
            Error::TooManyFilesOpen => -42i32,
            Error::BadFilePath => 0x21707468,
            Error::Param => -50i32,
            Error::MemFull => -108i32,
        }
    }

    pub fn get_i32(&self) -> (r: i32)
        ensures
            r == self.code(),
    {
        match self {
            Error::Test => 2,
            Error::SliceTooLong => 1,
            Error::NoError => 0,
            Error::Unimplemented => -4,
            Error::FileNotFound => -43,
            Error::FilePermission => -54,
            Error::TooManyFilesOpen => -42,
            Error::BadFilePath => 0x21707468,
            Error::Param => -50,
            Error::MemFull => -108,
        }
    }

    /// The error of a status code that the interface returns: the one whose code it is,
    /// among `NoError`, `FileNotFound`, `FilePermission`, `TooManyFilesOpen`, `BadFilePath`,
    /// `Param` and `MemFull`; `Unimplemented` for any other code.
    pub fn from_i32(v: i32) -> (r: Self)
        ensures
            r == returned_error(v),
    {
        proof {
            lemma_returned_error(v);
        }
        if v == 0 {
            Error::NoError
        } else if v == -43 {
            Error::FileNotFound
        } else if v == -54 {
            Error::FilePermission
        } else if v == -42 {
            Error::TooManyFilesOpen
        } else if v == 0x21707468 {
            Error::BadFilePath
        } else if v == -50 {
            Error::Param
        } else if v == -108 {
            Error::MemFull
        } else {
            Error::Unimplemented
        }
    }
}

/// Whether the interface returns an error as a status code.
pub open spec fn is_returned(e: Error) -> bool {
    match e {
        Error::NoError | Error::FileNotFound | Error::FilePermission | Error::TooManyFilesOpen
        | Error::BadFilePath | Error::Param | Error::MemFull => true,
        _ => false,
    }
}

/// The error of a status code: the returned error whose code it is, else `Unimplemented`.
pub open spec fn returned_error(v: i32) -> Error {
    if exists|e: Error| is_returned(e) && #[trigger] e.code() == v {
        choose|e: Error| is_returned(e) && #[trigger] e.code() == v
    } else {
        Error::Unimplemented
    }
}

proof fn lemma_returned_error(v: i32)
    ensures
        returned_error(v) == (if v == 0 {
            Error::NoError
        } else if v == -43 {
            Error::FileNotFound
        } else if v == -54 {
            Error::FilePermission
        } else if v == -42 {
            Error::TooManyFilesOpen
        } else if v == 0x21707468 {
            Error::BadFilePath
        } else if v == -50 {
            Error::Param
        } else if v == -108 {
            Error::MemFull
        } else {
            Error::Unimplemented
        }),
{
    assert(Error::NoError.code() == 0);
    assert(Error::FileNotFound.code() == -43);
    assert(Error::FilePermission.code() == -54);
    assert(Error::TooManyFilesOpen.code() == -42);
    assert(Error::BadFilePath.code() == 0x21707468);
    assert(Error::Param.code() == -50);
    assert(Error::MemFull.code() == -108);
    if exists|e: Error| is_returned(e) && #[trigger] e.code() == v {
        let c = choose|e: Error| is_returned(e) && #[trigger] e.code() == v;
        assert(is_returned(c) && c.code() == v);
    }
}

/// A status code of a returned error gives that error back.
pub proof fn law_error_code_round_trip(e: Error)
    requires
        is_returned(e),
    ensures
        returned_error(e.code()) == e,
{
    let c = choose|x: Error| is_returned(x) && #[trigger] x.code() == e.code();
    assert(is_returned(e) && e.code() == e.code());
    assert(c.code() == e.code());
}

/// The four-character codes of the selectors, scopes and formats are CoreAudio's, read as
/// big-endian words: "dev#" is 0x64657623, "glob" 0x676C6F62, "lpcm" 0x6C70636D, and so on.
pub proof fn law_four_character_codes(s: PropertySelector, c: PropertyScope, f: AudioFormatId)
    ensures
        s == PropertySelector::Devices ==> be_u32(s.code()[0], s.code()[1], s.code()[2], s.code()[3]) == 0x64657623,
        s == PropertySelector::InputDefault ==> be_u32(s.code()[0], s.code()[1], s.code()[2], s.code()[3]) == 0x64496E20,
        s == PropertySelector::OutputDefault ==> be_u32(s.code()[0], s.code()[1], s.code()[2], s.code()[3]) == 0x644F7574,
        s == PropertySelector::NominalSampleRate ==> be_u32(s.code()[0], s.code()[1], s.code()[2], s.code()[3]) == 0x6E737274,
        s == PropertySelector::BufferFrameSize ==> be_u32(s.code()[0], s.code()[1], s.code()[2], s.code()[3]) == 0x6673697A,
        s == PropertySelector::BufferFrameSizeRange ==> be_u32(s.code()[0], s.code()[1], s.code()[2], s.code()[3]) == 0x66737A23,
        c == PropertyScope::Global ==> be_u32(c.code()[0], c.code()[1], c.code()[2], c.code()[3]) == 0x676C6F62,
        c == PropertyScope::Input ==> be_u32(c.code()[0], c.code()[1], c.code()[2], c.code()[3]) == 0x696E7074,
        c == PropertyScope::Output ==> be_u32(c.code()[0], c.code()[1], c.code()[2], c.code()[3]) == 0x6F757470,
        f == AudioFormatId::LinearPcm ==> be_u32(f.code()[0], f.code()[1], f.code()[2], f.code()[3]) == 0x6C70636D,
        f == AudioFormatId::Opus ==> be_u32(f.code()[0], f.code()[1], f.code()[2], f.code()[3]) == 0x6F707573,
{
}

/// The render action flags and the format flags are the bits that CoreAudio gives them.
pub proof fn law_flag_bits(a: AudioUnitActionFlags, f: AudioFormatFlags)
    ensures
        a == AudioUnitActionFlags::PreRender ==> a.bit() == 0x4,
        a == AudioUnitActionFlags::PostRender ==> a.bit() == 0x8,
        a == AudioUnitActionFlags::OutputIsSilence ==> a.bit() == 0x10,
        a == AudioUnitActionFlags::Preflight ==> a.bit() == 0x20,
        a == AudioUnitActionFlags::Render ==> a.bit() == 0x40,
        a == AudioUnitActionFlags::Complete ==> a.bit() == 0x80,
        a == AudioUnitActionFlags::PostRenderError ==> a.bit() == 0x100,
        a == AudioUnitActionFlags::DoNotCheckRenderArgs ==> a.bit() == 0x200,
        f == AudioFormatFlags::IsFloat ==> f.bit() == 0x1,
        f == AudioFormatFlags::IsBigEndian ==> f.bit() == 0x2,
        f == AudioFormatFlags::IsSignedInteger ==> f.bit() == 0x4,
        f == AudioFormatFlags::IsPacked ==> f.bit() == 0x8,
        f == AudioFormatFlags::IsAlignedHigh ==> f.bit() == 0x10,
        f == AudioFormatFlags::IsNonInterleaved ==> f.bit() == 0x20,
        f == AudioFormatFlags::IsNonMixable ==> f.bit() == 0x40,
        f == AudioFormatFlags::AreAllClear ==> f.bit() == 0x80,
{
}

/// The status codes are CoreAudio's (noErr 0, unimpErr -4, fnfErr -43, permErr -54,
/// tmfoErr -42, "!pth" 0x21707468, paramErr -50, memFullErr -108), and reading a returned
/// code gives its error; a code that no returned error has reads as `Unimplemented`.
pub proof fn law_status_codes(e: Error, v: i32)
    ensures
        e == Error::NoError ==> e.code() == 0,
        e == Error::Unimplemented ==> e.code() == -4,
        e == Error::FileNotFound ==> e.code() == -43,
        e == Error::FilePermission ==> e.code() == -54,
        e == Error::TooManyFilesOpen ==> e.code() == -42,
        e == Error::BadFilePath ==> e.code() == 0x21707468,
        e == Error::Param ==> e.code() == -50,
        e == Error::MemFull ==> e.code() == -108,
        v == 0 ==> returned_error(v) == Error::NoError,
        v == -43 ==> returned_error(v) == Error::FileNotFound,
        v == -54 ==> returned_error(v) == Error::FilePermission,
        v == -42 ==> returned_error(v) == Error::TooManyFilesOpen,
        v == 0x21707468 ==> returned_error(v) == Error::BadFilePath,
        v == -50 ==> returned_error(v) == Error::Param,
        v == -108 ==> returned_error(v) == Error::MemFull,
        v != 0 && v != -43 && v != -54 && v != -42 && v != 0x21707468 && v != -50 && v != -108
            ==> returned_error(v) == Error::Unimplemented,
{
    law_error_code_round_trip(Error::NoError);
    law_error_code_round_trip(Error::FileNotFound);
    law_error_code_round_trip(Error::FilePermission);
    law_error_code_round_trip(Error::TooManyFilesOpen);
    law_error_code_round_trip(Error::BadFilePath);
    law_error_code_round_trip(Error::Param);
    law_error_code_round_trip(Error::MemFull);
    if v != 0 && v != -43 && v != -54 && v != -42 && v != 0x21707468 && v != -50 && v != -108 {
        if exists|x: Error| is_returned(x) && #[trigger] x.code() == v {
            let x = choose|x: Error| is_returned(x) && #[trigger] x.code() == v;
            assert(x.code() == v);
        }
    }
}

} // verus!
