//! SPIR-V definitions: the words that stand for the enumerants of the specification,
//! the capabilities that each of them needs, and the packing of strings into words.

use vstd::prelude::*;
use vstd::string::StringSliceAdditionalSpecFns;

mod globals;
mod modes;
mod opcodes;

pub use self::globals::{
    all_lower, dfs, dfs_seq, elem_global, elem_height, height, lemma_children_lower, lemma_dfs_leaf, lemma_dfs_seq_single, pointee_global,
    scalar_global, constant_type, initializer_global, parameter_globals,
    lemma_dfs_seq_append, lemma_dfs_seq_bound, sub_globals, law_declaration_word_count,
    lemma_operands_are_children, ConstantDetails, Element, Float32Constant,
    Float64Constant, Global, GlobalInstruction, InitializerType, Member, ParameterType,
    PointerType, ReturnType, ScalarType, TypeArrayDetails, TypeFloatDetails,
    TypeFunctionDetails, TypeIntDetails, TypeMatrixDetails, TypePointerDetails,
    TypeRuntimeArrayDetails, TypeVectorDetails, VariableDetails, LocalVariableType,
};
pub use self::modes::{
    law_built_in_and_decoration_words, law_execution_mode_words, law_execution_model_words,
    law_execution_model_capabilities, BuiltIn, Decoration, ExecutionMode, ExecutionModel, FragmentBuiltIn, FragmentExecutionMode,
    GLComputeExecutionMode, GeometryBuiltIn, GeometryExecutionMode, KernelExecutionMode,
    TessellationBuiltIn, TessellationExecutionMode, VertexBuiltIn,
};
pub use self::opcodes::{encode_word0, law_emitted_opcodes, OpcodeName};

verus! {

pub type Word = u32;

pub const MAGIC_NUMBER: Word = 0x07230203;

pub const COMPATABLE_VERSION_NUMBER: Word = 0x00010300;

pub const LATEST_VERSION_NUMBER: Word = 0x00010600;

/// The five words that open a SPIR-V module.
pub open spec fn word_stream_header(use_latest_version: bool, id_bound: Word) -> Seq<Word> {
    seq![
        MAGIC_NUMBER,
        if use_latest_version { LATEST_VERSION_NUMBER } else { COMPATABLE_VERSION_NUMBER },
        0,
        id_bound,
        0,
    ]
}

/// The header of a module: magic number, version, generator, id bound and schema.
pub fn create_word_stream_header(use_latest_version: bool, id_bound: Word) -> (r: Vec<Word>)
    ensures
        r@ == word_stream_header(use_latest_version, id_bound),
{
    let version_number: Word = if use_latest_version {
        LATEST_VERSION_NUMBER
    } else {
        COMPATABLE_VERSION_NUMBER
    };
    let r = vec![MAGIC_NUMBER, version_number, 0, id_bound, 0];
    assert(r@ =~= word_stream_header(use_latest_version, id_bound));
    r
}

/// An item of SPIR-V that a module may only use when it declares certain capabilities.
pub trait EnablingCapabilities {
    /// The capabilities that the item needs, in the order in which they are written out.
    spec fn required_capabilities(&self) -> Seq<Capability>;

    /// Writes the required capabilities at the front of `capabilities` and returns how many.
    fn get_required_capabilities(&self, capabilities: &mut [Capability]) -> (n: usize)
        requires
            old(capabilities)@.len() >= self.required_capabilities().len(),
        ensures
            n == self.required_capabilities().len(),
            final(capabilities)@.len() == old(capabilities)@.len(),
            final(capabilities)@.take(n as int) == self.required_capabilities(),
            final(capabilities)@.skip(n as int) == old(capabilities)@.skip(n as int),
    ;
}

/// The capabilities that this library knows, each standing for the word that `word` gives.
#[derive(Clone, Copy, Debug, PartialEq, Eq, Structural)]
pub enum Capability {
    Matrix,
    Shader,
    Geometry,
    Tessellation,
    Addresses,
    Linkage,
    Kernel,
    Vector16,
    Float16Buffer,
    Float16,
    Float64,
    Int64,
    Int64Atomics,
    ImageBasic,
    ImageReadWrite,
    ImageMipmap,
    Pipes,
    Groups,
    DeviceEnqueue,
    LiteralSampler,
    AtomicStorage,
    Int16,
    TessellationPointSize,
    GeometryPointSize,
    ImageGatherExtended,
    StorageImageMultisample,
    UniformBufferArrayDynamicIndexing,
    SampledImageArrayDynamicIndexing,
    StorageBufferArrayDynamicIndexing,
    StorageImageArrayDynamicIndexing,
    ClipDistance,
    CullDistance,
    ImageCubeArray,
    SampleRateShading,
    ImageRect,
    SampledRect,
    GenericPointer,
    Int8,
    InputAttachment,
    SparseResidency,
    MinLod,
    Sampled1D,
    Image1D,
    SampledCubeArray,
    SampledBuffer,
    ImageBuffer,
    ImageMSArray,
    StorageImageExtendedFormats,
    ImageQuery,
    DerivativeControl,
    InterpolationFunction,
    TransformFeedback,
    GeometryStreams,
    StorageImageReadWithoutFormat,
    StorageImageWriteWithoutFormat,
    MultiViewport,
    SubgroupDispatch,
    NamedBarrier,
    PipeStorage,
}

impl Capability {
    /// The word that SPIR-V gives this capability.
    pub open spec fn word(self) -> Word {
        match self {
            Self::Matrix => 0,
            Self::Shader => 1,
            Self::Geometry => 2,
            Self::Tessellation => 3,
            Self::Addresses => 4,
            Self::Linkage => 5,
            Self::Kernel => 6,
            Self::Vector16 => 7,
            Self::Float16Buffer => 8,
            Self::Float16 => 9,
            Self::Float64 => 10,
            Self::Int64 => 11,
            Self::Int64Atomics => 12,
            Self::ImageBasic => 13,
            Self::ImageReadWrite => 14,
            Self::ImageMipmap => 15,
            Self::Pipes => 17,
            Self::Groups => 18,
            Self::DeviceEnqueue => 19,
            Self::LiteralSampler => 20,
            Self::AtomicStorage => 21,
            Self::Int16 => 22,
            Self::TessellationPointSize => 23,
            Self::GeometryPointSize => 24,
            Self::ImageGatherExtended => 25,
            Self::StorageImageMultisample => 27,
            Self::UniformBufferArrayDynamicIndexing => 28,
            Self::SampledImageArrayDynamicIndexing => 29,
            Self::StorageBufferArrayDynamicIndexing => 30,
            Self::StorageImageArrayDynamicIndexing => 31,
            Self::ClipDistance => 32,
            Self::CullDistance => 33,
            Self::ImageCubeArray => 34,
            Self::SampleRateShading => 35,
            Self::ImageRect => 36,
            Self::SampledRect => 37,
            Self::GenericPointer => 38,
            Self::Int8 => 39,
            Self::InputAttachment => 40,
            Self::SparseResidency => 41,
            Self::MinLod => 42,
            Self::Sampled1D => 43,
            Self::Image1D => 44,
            Self::SampledCubeArray => 45,
            Self::SampledBuffer => 46,
            Self::ImageBuffer => 47,
            Self::ImageMSArray => 48,
            Self::StorageImageExtendedFormats => 49,
            Self::ImageQuery => 50,
            Self::DerivativeControl => 51,
            Self::InterpolationFunction => 52,
            Self::TransformFeedback => 53,
            Self::GeometryStreams => 54,
            Self::StorageImageReadWithoutFormat => 55,
            Self::StorageImageWriteWithoutFormat => 56,
            Self::MultiViewport => 57,
            Self::SubgroupDispatch => 58,
            Self::NamedBarrier => 59,
            Self::PipeStorage => 60,
        }
    }

    /// The word that SPIR-V gives this capability.
    pub fn get_word(&self) -> (r: Word)
        ensures
            r == self.word(),
    {
        match self {
            Self::Matrix => 0,
            Self::Shader => 1,
            Self::Geometry => 2,
            Self::Tessellation => 3,
            Self::Addresses => 4,
            Self::Linkage => 5,
            Self::Kernel => 6,
            Self::Vector16 => 7,
            Self::Float16Buffer => 8,
            Self::Float16 => 9,
            Self::Float64 => 10,
            Self::Int64 => 11,
            Self::Int64Atomics => 12,
            Self::ImageBasic => 13,
            Self::ImageReadWrite => 14,
            Self::ImageMipmap => 15,
            Self::Pipes => 17,
            Self::Groups => 18,
            Self::DeviceEnqueue => 19,
            Self::LiteralSampler => 20,
            Self::AtomicStorage => 21,
            Self::Int16 => 22,
            Self::TessellationPointSize => 23,
            Self::GeometryPointSize => 24,
            Self::ImageGatherExtended => 25,
            Self::StorageImageMultisample => 27,
            Self::UniformBufferArrayDynamicIndexing => 28,
            Self::SampledImageArrayDynamicIndexing => 29,
            Self::StorageBufferArrayDynamicIndexing => 30,
            Self::StorageImageArrayDynamicIndexing => 31,
            Self::ClipDistance => 32,
            Self::CullDistance => 33,
            Self::ImageCubeArray => 34,
            Self::SampleRateShading => 35,
            Self::ImageRect => 36,
            Self::SampledRect => 37,
            Self::GenericPointer => 38,
            Self::Int8 => 39,
            Self::InputAttachment => 40,
            Self::SparseResidency => 41,
            Self::MinLod => 42,
            Self::Sampled1D => 43,
            Self::Image1D => 44,
            Self::SampledCubeArray => 45,
            Self::SampledBuffer => 46,
            Self::ImageBuffer => 47,
            Self::ImageMSArray => 48,
            Self::StorageImageExtendedFormats => 49,
            Self::ImageQuery => 50,
            Self::DerivativeControl => 51,
            Self::InterpolationFunction => 52,
            Self::TransformFeedback => 53,
            Self::GeometryStreams => 54,
            Self::StorageImageReadWithoutFormat => 55,
            Self::StorageImageWriteWithoutFormat => 56,
            Self::MultiViewport => 57,
            Self::SubgroupDispatch => 58,
            Self::NamedBarrier => 59,
            Self::PipeStorage => 60,
        }
    }

    /// The capability that declaring this one declares implicitly, if any.
    pub open spec fn implicit(self) -> Option<Capability> {
        match self {
            Self::Shader => Some(Self::Matrix),
            Self::Geometry => Some(Self::Shader),
            Self::Tessellation => Some(Self::Shader),
            Self::Vector16 => Some(Self::Kernel),
            Self::Float16Buffer => Some(Self::Kernel),
            Self::Int64Atomics => Some(Self::Int64),
            Self::ImageBasic => Some(Self::Kernel),
            Self::ImageReadWrite => Some(Self::ImageBasic),
            Self::ImageMipmap => Some(Self::ImageBasic),
            Self::Pipes => Some(Self::Kernel),
            Self::DeviceEnqueue => Some(Self::Kernel),
            Self::LiteralSampler => Some(Self::Kernel),
            Self::AtomicStorage => Some(Self::Shader),
            Self::TessellationPointSize => Some(Self::Tessellation),
            Self::GeometryPointSize => Some(Self::Geometry),
            Self::ImageGatherExtended => Some(Self::Shader),
            Self::StorageImageMultisample => Some(Self::Shader),
            Self::UniformBufferArrayDynamicIndexing => Some(Self::Shader),
            Self::SampledImageArrayDynamicIndexing => Some(Self::Shader),
            Self::StorageBufferArrayDynamicIndexing => Some(Self::Shader),
            Self::StorageImageArrayDynamicIndexing => Some(Self::Shader),
            Self::ClipDistance => Some(Self::Shader),
            Self::CullDistance => Some(Self::Shader),
            Self::ImageCubeArray => Some(Self::SampledCubeArray),
            Self::SampleRateShading => Some(Self::Shader),
            Self::ImageRect => Some(Self::SampledRect),
            Self::SampledRect => Some(Self::Shader),
            Self::GenericPointer => Some(Self::Addresses),
            Self::InputAttachment => Some(Self::Shader),
            Self::SparseResidency => Some(Self::Shader),
            Self::MinLod => Some(Self::Shader),
            Self::Image1D => Some(Self::Sampled1D),
            Self::SampledCubeArray => Some(Self::Shader),
            Self::ImageBuffer => Some(Self::SampledBuffer),
            Self::ImageMSArray => Some(Self::Shader),
            Self::StorageImageExtendedFormats => Some(Self::Shader),
            Self::ImageQuery => Some(Self::Shader),
            Self::DerivativeControl => Some(Self::Shader),
            Self::InterpolationFunction => Some(Self::Shader),
            Self::TransformFeedback => Some(Self::Shader),
            Self::GeometryStreams => Some(Self::Geometry),
            Self::StorageImageReadWithoutFormat => Some(Self::Shader),
            Self::StorageImageWriteWithoutFormat => Some(Self::Shader),
            Self::MultiViewport => Some(Self::Geometry),
            Self::SubgroupDispatch => Some(Self::DeviceEnqueue),
            Self::NamedBarrier => Some(Self::Kernel),
            Self::PipeStorage => Some(Self::Pipes),
            _ => None,
        }
    }

    /// The number of implicit declarations that follow from this capability.
    pub open spec fn implicit_depth(self) -> nat {
        match self {
            Self::Shader => 1,
            Self::Geometry => 2,
            Self::Tessellation => 2,
            Self::Vector16 => 1,
            Self::Float16Buffer => 1,
            Self::Int64Atomics => 1,
            Self::ImageBasic => 1,
            Self::ImageReadWrite => 2,
            Self::ImageMipmap => 2,
            Self::Pipes => 1,
            Self::DeviceEnqueue => 1,
            Self::LiteralSampler => 1,
            Self::AtomicStorage => 2,
            Self::TessellationPointSize => 3,
            Self::GeometryPointSize => 3,
            Self::ImageGatherExtended => 2,
            Self::StorageImageMultisample => 2,
            Self::UniformBufferArrayDynamicIndexing => 2,
            Self::SampledImageArrayDynamicIndexing => 2,
            Self::StorageBufferArrayDynamicIndexing => 2,
            Self::StorageImageArrayDynamicIndexing => 2,
            Self::ClipDistance => 2,
            Self::CullDistance => 2,
            Self::ImageCubeArray => 3,
            Self::SampleRateShading => 2,
            Self::ImageRect => 3,
            Self::SampledRect => 2,
            Self::GenericPointer => 1,
            Self::InputAttachment => 2,
            Self::SparseResidency => 2,
            Self::MinLod => 2,
            Self::Image1D => 1,
            Self::SampledCubeArray => 2,
            Self::ImageBuffer => 1,
            Self::ImageMSArray => 2,
            Self::StorageImageExtendedFormats => 2,
            Self::ImageQuery => 2,
            Self::DerivativeControl => 2,
            Self::InterpolationFunction => 2,
            Self::TransformFeedback => 2,
            Self::GeometryStreams => 3,
            Self::StorageImageReadWithoutFormat => 2,
            Self::StorageImageWriteWithoutFormat => 2,
            Self::MultiViewport => 3,
            Self::SubgroupDispatch => 2,
            Self::NamedBarrier => 1,
            Self::PipeStorage => 2,
            _ => 0,
        }
    }

    /// Declaring `self` declares `other`: `other` is `self` or follows from it implicitly.
    pub open spec fn enables(self, other: Capability) -> bool
        decreases self.implicit_depth(),
    {
        if self == other {
            true
        } else {
            match self.implicit() {
                Some(next) => next.enables(other),
                None => false,
            }
        }
    }

    /// The capability that declaring this one declares implicitly, if any.
    pub fn get_implicit(&self) -> (r: Option<Self>)
        ensures
            r == self.implicit(),
            r matches Some(next) ==> next.implicit_depth() < self.implicit_depth(),
    {
        match self {
            Self::Shader => Some(Self::Matrix),
            Self::Geometry => Some(Self::Shader),
            Self::Tessellation => Some(Self::Shader),
            Self::Vector16 => Some(Self::Kernel),
            Self::Float16Buffer => Some(Self::Kernel),
            Self::Int64Atomics => Some(Self::Int64),
            Self::ImageBasic => Some(Self::Kernel),
            Self::ImageReadWrite => Some(Self::ImageBasic),
            Self::ImageMipmap => Some(Self::ImageBasic),
            Self::Pipes => Some(Self::Kernel),
            Self::DeviceEnqueue => Some(Self::Kernel),
            Self::LiteralSampler => Some(Self::Kernel),
            Self::AtomicStorage => Some(Self::Shader),
            Self::TessellationPointSize => Some(Self::Tessellation),
            Self::GeometryPointSize => Some(Self::Geometry),
            Self::ImageGatherExtended => Some(Self::Shader),
            Self::StorageImageMultisample => Some(Self::Shader),
            Self::UniformBufferArrayDynamicIndexing => Some(Self::Shader),
            Self::SampledImageArrayDynamicIndexing => Some(Self::Shader),
            Self::StorageBufferArrayDynamicIndexing => Some(Self::Shader),
            Self::StorageImageArrayDynamicIndexing => Some(Self::Shader),
            Self::ClipDistance => Some(Self::Shader),
            Self::CullDistance => Some(Self::Shader),
            Self::ImageCubeArray => Some(Self::SampledCubeArray),
            Self::SampleRateShading => Some(Self::Shader),
            Self::ImageRect => Some(Self::SampledRect),
            Self::SampledRect => Some(Self::Shader),
            Self::GenericPointer => Some(Self::Addresses),
            Self::InputAttachment => Some(Self::Shader),
            Self::SparseResidency => Some(Self::Shader),
            Self::MinLod => Some(Self::Shader),
            Self::Image1D => Some(Self::Sampled1D),
            Self::SampledCubeArray => Some(Self::Shader),
            Self::ImageBuffer => Some(Self::SampledBuffer),
            Self::ImageMSArray => Some(Self::Shader),
            Self::StorageImageExtendedFormats => Some(Self::Shader),
            Self::ImageQuery => Some(Self::Shader),
            Self::DerivativeControl => Some(Self::Shader),
            Self::InterpolationFunction => Some(Self::Shader),
            Self::TransformFeedback => Some(Self::Shader),
            Self::GeometryStreams => Some(Self::Geometry),
            Self::StorageImageReadWithoutFormat => Some(Self::Shader),
            Self::StorageImageWriteWithoutFormat => Some(Self::Shader),
            Self::MultiViewport => Some(Self::Geometry),
            Self::SubgroupDispatch => Some(Self::DeviceEnqueue),
            Self::NamedBarrier => Some(Self::Kernel),
            Self::PipeStorage => Some(Self::Pipes),
            _ => None,
        }
    }
}

/// The little-endian word made of four bytes.
pub open spec fn le_word(b0: u8, b1: u8, b2: u8, b3: u8) -> Word {
    (b0 as int + b1 as int * 0x100 + b2 as int * 0x10000 + b3 as int * 0x1000000) as Word
}

/// The words of a literal string whose length is a multiple of four: its bytes four at a
/// time in little-endian order, then the terminating word of zeros.
pub open spec fn str_words(bytes: Seq<u8>) -> Seq<Word> {
    Seq::new(
        bytes.len() / 4,
        |i: int| le_word(bytes[4 * i], bytes[4 * i + 1], bytes[4 * i + 2], bytes[4 * i + 3]),
    ).push(0)
}

/// The number of words that a literal string takes, its terminating zero byte included.
pub open spec fn str_word_count(byte_len: nat) -> u16 {
    ((byte_len + 4) / 4) as u16
}

/// The number of words that `name` takes as a literal string.
pub fn get_str_word_count(name: &str) -> (r: u16)
    requires
        name.spec_bytes().len() + 4 <= usize::MAX,
    ensures
        r == str_word_count(name.spec_bytes().len()),
{
    let num_bytes: usize = name.len() + 1;
    let word_count: usize = (num_bytes + 3) / 4;
    word_count as u16
}

/// Appends the words of a literal string, four bytes to a word, then a zero word; the bytes
/// are read four at a time, so their number must be a multiple of four.
pub fn add_str_bytes(str_bytes: &[u8], data: &mut Vec<Word>)
    requires
        str_bytes@.len() % 4 == 0,
    ensures
        final(data)@ == old(data)@ + str_words(str_bytes@),
{
    let str_len: usize = str_bytes.len();
    let ghost start = old(data)@;
    let mut ind: usize = 0;
    while ind < str_len
        invariant
            str_len == str_bytes@.len(),
            str_len % 4 == 0,
            ind % 4 == 0,
            ind <= str_len,
            data@ == start + Seq::new(
                ind as nat / 4,
                |i: int|
                    le_word(
                        str_bytes@[4 * i],
                        str_bytes@[4 * i + 1],
                        str_bytes@[4 * i + 2],
                        str_bytes@[4 * i + 3],
                    ),
            ),
        decreases str_len - ind,
    {
        let word: u32 = (str_bytes[ind] as u32) + (str_bytes[ind + 1] as u32) * 0x100
            + (str_bytes[ind + 2] as u32) * 0x10000 + (str_bytes[ind + 3] as u32) * 0x1000000;
        data.push(word);
        ind = ind + 4;
        assert(data@ =~= start + Seq::new(
            ind as nat / 4,
            |i: int|
                le_word(
                    str_bytes@[4 * i],
                    str_bytes@[4 * i + 1],
                    str_bytes@[4 * i + 2],
                    str_bytes@[4 * i + 3],
                ),
        ));
    }
    data.push(0);
    assert(data@ =~= start + str_words(str_bytes@));
}

/// Appends the words of `name` as a literal string.
pub fn add_str_data(name: &str, data: &mut Vec<Word>)
    requires
        name.spec_bytes().len() % 4 == 0,
    ensures
        final(data)@ == old(data)@ + str_words(name.spec_bytes()),
{
    add_str_bytes(name.as_bytes(), data);
}

/// Addressing models.
#[derive(Clone, Copy, Debug, PartialEq, Eq, Structural)]
pub enum AddressingModel {
    Logical,
    Physical32,
    Physical64,
}

impl AddressingModel {
    pub open spec fn word(self) -> Word {
        match self {
            Self::Logical => 0,
            Self::Physical32 => 1,
            Self::Physical64 => 2,
        }
    }

    pub fn get_word(&self) -> (r: Word)
        ensures
            r == self.word(),
    {
        match self {
            Self::Logical => 0,
            Self::Physical32 => 1,
            Self::Physical64 => 2,
        }
    }
}

impl EnablingCapabilities for AddressingModel {
    open spec fn required_capabilities(&self) -> Seq<Capability> {
        match self {
            Self::Physical32 => seq![Capability::Addresses],
            Self::Physical64 => seq![Capability::Addresses],
            Self::Logical => seq![],
        }
    }

    fn get_required_capabilities(&self, capabilities: &mut [Capability]) -> (n: usize) {
        match self {
            Self::Physical32 => {
                capabilities[0] = Capability::Addresses;
                assert(capabilities@.take(1) =~= self.required_capabilities());
                assert(capabilities@.skip(1) =~= old(capabilities)@.skip(1));
                1
            },
            Self::Physical64 => {
                capabilities[0] = Capability::Addresses;
                assert(capabilities@.take(1) =~= self.required_capabilities());
                assert(capabilities@.skip(1) =~= old(capabilities)@.skip(1));
                1
            },
            Self::Logical => {
                assert(capabilities@.take(0) =~= self.required_capabilities());
                assert(capabilities@.skip(0) =~= old(capabilities)@.skip(0));
                0
            },
        }
    }
}

/// Memory models.
#[derive(Clone, Copy, Debug, PartialEq, Eq, Structural)]
pub enum MemoryModel {
    GLSL450,
    OpenCL,
}

impl MemoryModel {
    pub open spec fn word(self) -> Word {
        match self {
            Self::GLSL450 => 1,
            Self::OpenCL => 2,
        }
    }

    pub fn get_word(&self) -> (r: Word)
        ensures
            r == self.word(),
    {
        match self {
            Self::GLSL450 => 1,
            Self::OpenCL => 2,
        }
    }
}

impl EnablingCapabilities for MemoryModel {
    open spec fn required_capabilities(&self) -> Seq<Capability> {
        match self {
            Self::GLSL450 => seq![Capability::Shader],
            Self::OpenCL => seq![Capability::Kernel],
        }
    }

    fn get_required_capabilities(&self, capabilities: &mut [Capability]) -> (n: usize) {
        match self {
            Self::GLSL450 => {
                capabilities[0] = Capability::Shader;
            },
            Self::OpenCL => {
                capabilities[0] = Capability::Kernel;
            },
        }
        assert(capabilities@.take(1) =~= self.required_capabilities());
        assert(capabilities@.skip(1) =~= old(capabilities)@.skip(1));
        1
    }
}

/// Function controls.
#[derive(Clone, Copy, Debug, PartialEq, Eq, Structural)]
pub enum FunctionControl {
    NoControl,
    Inline,
    DontInline,
    Pure,
    Const,
    InlinePure,
    DontInlinePure,
    InlineConst,
    DontInlineConst,
}

impl FunctionControl {
    pub open spec fn word(self) -> Word {
        match self {
            Self::NoControl => 0x0,
            Self::Inline => 0x1,
            Self::DontInline => 0x2,
            Self::Pure => 0x4,
            Self::Const => 0x8,
            Self::InlinePure => 0x5,
            Self::DontInlinePure => 0x6,
            Self::InlineConst => 0x9,
            Self::DontInlineConst => 0xA,
        }
    }

    pub fn get_word(&self) -> (r: Word)
        ensures
            r == self.word(),
    {
        match self {
            Self::NoControl => 0x0,
            Self::Inline => 0x1,
            Self::DontInline => 0x2,
            Self::Pure => 0x4,
            Self::Const => 0x8,
            Self::InlinePure => 0x5,
            Self::DontInlinePure => 0x6,
            Self::InlineConst => 0x9,
            Self::DontInlineConst => 0xA,
        }
    }
}

/// Storage classes.
#[derive(Clone, Copy, Debug, PartialEq, Eq, Structural)]
pub enum StorageClass {
    UniformConstant,
    Input,
    Uniform,
    Output,
    Workgroup,
    CrossWorkgroup,
    Function,
    Generic,
    PushConstant,
    AtomicCounter,
    Image,
    StorageBuffer,
}

impl StorageClass {
    pub open spec fn word(self) -> Word {
        match self {
            Self::UniformConstant => 0,
            Self::Input => 1,
            Self::Uniform => 2,
            Self::Output => 3,
            Self::Workgroup => 4,
            Self::CrossWorkgroup => 5,
            Self::Function => 7,
            Self::Generic => 8,
            Self::PushConstant => 9,
            Self::AtomicCounter => 10,
            Self::Image => 11,
            Self::StorageBuffer => 12,
        }
    }

    pub fn get_word(&self) -> (r: Word)
        ensures
            r == self.word(),
    {
        match self {
            Self::UniformConstant => 0,
            Self::Input => 1,
            Self::Uniform => 2,
            Self::Output => 3,
            Self::Workgroup => 4,
            Self::CrossWorkgroup => 5,
            Self::Function => 7,
            Self::Generic => 8,
            Self::PushConstant => 9,
            Self::AtomicCounter => 10,
            Self::Image => 11,
            Self::StorageBuffer => 12,
        }
    }
}

impl EnablingCapabilities for StorageClass {
    open spec fn required_capabilities(&self) -> Seq<Capability> {
        match self {
            Self::Uniform => seq![Capability::Shader],
            Self::Output => seq![Capability::Shader],
            Self::Generic => seq![Capability::GenericPointer],
            Self::PushConstant => seq![Capability::Shader],
            Self::AtomicCounter => seq![Capability::AtomicStorage],
            Self::StorageBuffer => seq![Capability::Shader],
            _ => seq![],
        }
    }

    fn get_required_capabilities(&self, capabilities: &mut [Capability]) -> (n: usize) {
        let c: Option<Capability> = match self {
            Self::Uniform => Some(Capability::Shader),
            Self::Output => Some(Capability::Shader),
            Self::Generic => Some(Capability::GenericPointer),
            Self::PushConstant => Some(Capability::Shader),
            Self::AtomicCounter => Some(Capability::AtomicStorage),
            Self::StorageBuffer => Some(Capability::Shader),
            _ => None,
        };
        match c {
            Some(c) => {
                capabilities[0] = c;
                assert(capabilities@.take(1) =~= self.required_capabilities());
                assert(capabilities@.skip(1) =~= old(capabilities)@.skip(1));
                1
            },
            None => {
                assert(capabilities@.take(0) =~= self.required_capabilities());
                assert(capabilities@.skip(0) =~= old(capabilities)@.skip(0));
                0
            },
        }
    }
}

/// The capability words are those of the SPIR-V specification, each capability its own.
pub proof fn law_capability_words(x: Capability)
    ensures
        x == Capability::Matrix ==> x.word() == 0,
        x == Capability::Shader ==> x.word() == 1,
        x == Capability::Geometry ==> x.word() == 2,
        x == Capability::Tessellation ==> x.word() == 3,
        x == Capability::Addresses ==> x.word() == 4,
        x == Capability::Linkage ==> x.word() == 5,
        x == Capability::Kernel ==> x.word() == 6,
        x == Capability::Vector16 ==> x.word() == 7,
        x == Capability::Float16Buffer ==> x.word() == 8,
        x == Capability::Float16 ==> x.word() == 9,
        x == Capability::Float64 ==> x.word() == 10,
        x == Capability::Int64 ==> x.word() == 11,
        x == Capability::Int64Atomics ==> x.word() == 12,
        x == Capability::ImageBasic ==> x.word() == 13,
        x == Capability::ImageReadWrite ==> x.word() == 14,
        x == Capability::ImageMipmap ==> x.word() == 15,
        x == Capability::Pipes ==> x.word() == 17,
        x == Capability::Groups ==> x.word() == 18,
        x == Capability::DeviceEnqueue ==> x.word() == 19,
        x == Capability::LiteralSampler ==> x.word() == 20,
        x == Capability::AtomicStorage ==> x.word() == 21,
        x == Capability::Int16 ==> x.word() == 22,
        x == Capability::TessellationPointSize ==> x.word() == 23,
        x == Capability::GeometryPointSize ==> x.word() == 24,
        x == Capability::ImageGatherExtended ==> x.word() == 25,
        x == Capability::StorageImageMultisample ==> x.word() == 27,
        x == Capability::UniformBufferArrayDynamicIndexing ==> x.word() == 28,
        x == Capability::SampledImageArrayDynamicIndexing ==> x.word() == 29,
        x == Capability::StorageBufferArrayDynamicIndexing ==> x.word() == 30,
        x == Capability::StorageImageArrayDynamicIndexing ==> x.word() == 31,
        x == Capability::ClipDistance ==> x.word() == 32,
        x == Capability::CullDistance ==> x.word() == 33,
        x == Capability::ImageCubeArray ==> x.word() == 34,
        x == Capability::SampleRateShading ==> x.word() == 35,
        x == Capability::ImageRect ==> x.word() == 36,
        x == Capability::SampledRect ==> x.word() == 37,
        x == Capability::GenericPointer ==> x.word() == 38,
        x == Capability::Int8 ==> x.word() == 39,
        x == Capability::InputAttachment ==> x.word() == 40,
        x == Capability::SparseResidency ==> x.word() == 41,
        x == Capability::MinLod ==> x.word() == 42,
        x == Capability::Sampled1D ==> x.word() == 43,
        x == Capability::Image1D ==> x.word() == 44,
        x == Capability::SampledCubeArray ==> x.word() == 45,
        x == Capability::SampledBuffer ==> x.word() == 46,
        x == Capability::ImageBuffer ==> x.word() == 47,
        x == Capability::ImageMSArray ==> x.word() == 48,
        x == Capability::StorageImageExtendedFormats ==> x.word() == 49,
        x == Capability::ImageQuery ==> x.word() == 50,
        x == Capability::DerivativeControl ==> x.word() == 51,
        x == Capability::InterpolationFunction ==> x.word() == 52,
        x == Capability::TransformFeedback ==> x.word() == 53,
        x == Capability::GeometryStreams ==> x.word() == 54,
        x == Capability::StorageImageReadWithoutFormat ==> x.word() == 55,
        x == Capability::StorageImageWriteWithoutFormat ==> x.word() == 56,
        x == Capability::MultiViewport ==> x.word() == 57,
        x == Capability::SubgroupDispatch ==> x.word() == 58,
        x == Capability::NamedBarrier ==> x.word() == 59,
        x == Capability::PipeStorage ==> x.word() == 60,
{
}

/// The addressing model words are those of the SPIR-V specification.
pub proof fn law_addressing_model_words(x: AddressingModel)
    ensures
        x == AddressingModel::Logical ==> x.word() == 0,
        x == AddressingModel::Physical32 ==> x.word() == 1,
        x == AddressingModel::Physical64 ==> x.word() == 2,
{
}

/// The memory model words are those of the SPIR-V specification.
pub proof fn law_memory_model_words(x: MemoryModel)
    ensures
        x == MemoryModel::GLSL450 ==> x.word() == 1,
        x == MemoryModel::OpenCL ==> x.word() == 2,
{
}

/// The storage class words are those of the SPIR-V specification.
pub proof fn law_storage_class_words(x: StorageClass)
    ensures
        x == StorageClass::UniformConstant ==> x.word() == 0,
        x == StorageClass::Input ==> x.word() == 1,
        x == StorageClass::Uniform ==> x.word() == 2,
        x == StorageClass::Output ==> x.word() == 3,
        x == StorageClass::Workgroup ==> x.word() == 4,
        x == StorageClass::CrossWorkgroup ==> x.word() == 5,
        x == StorageClass::Function ==> x.word() == 7,
        x == StorageClass::Generic ==> x.word() == 8,
        x == StorageClass::PushConstant ==> x.word() == 9,
        x == StorageClass::AtomicCounter ==> x.word() == 10,
        x == StorageClass::Image ==> x.word() == 11,
        x == StorageClass::StorageBuffer ==> x.word() == 12,
{
}

/// The function control words are the SPIR-V specification's bits (Inline 0x1,
/// DontInline 0x2, Pure 0x4, Const 0x8), a combined control the bits of its parts.
pub proof fn law_function_control_words(x: FunctionControl)
    ensures
        x == FunctionControl::NoControl ==> x.word() == 0,
        x == FunctionControl::Inline ==> x.word() == 0x1,
        x == FunctionControl::DontInline ==> x.word() == 0x2,
        x == FunctionControl::Pure ==> x.word() == 0x4,
        x == FunctionControl::Const ==> x.word() == 0x8,
        x == FunctionControl::InlinePure ==> x.word() == FunctionControl::Inline.word()
            | FunctionControl::Pure.word(),
        x == FunctionControl::DontInlinePure ==> x.word() == FunctionControl::DontInline.word()
            | FunctionControl::Pure.word(),
        x == FunctionControl::InlineConst ==> x.word() == FunctionControl::Inline.word()
            | FunctionControl::Const.word(),
        x == FunctionControl::DontInlineConst ==> x.word() == FunctionControl::DontInline.word()
            | FunctionControl::Const.word(),
{
    assert(1u32 | 4u32 == 5u32) by (bit_vector);
    assert(2u32 | 4u32 == 6u32) by (bit_vector);
    assert(1u32 | 8u32 == 9u32) by (bit_vector);
    assert(2u32 | 8u32 == 10u32) by (bit_vector);
}

/// Declaring a capability declares implicitly the capability that the SPIR-V
/// specification says it depends on (Shader declares Matrix, Geometry and Tessellation
/// declare Shader, ...); the capabilities that depend on none declare nothing more.
pub proof fn law_implicit_capabilities(c: Capability)
    ensures
        c == Capability::Shader ==> c.implicit() == Some(Capability::Matrix),
        c == Capability::Geometry ==> c.implicit() == Some(Capability::Shader),
        c == Capability::Tessellation ==> c.implicit() == Some(Capability::Shader),
        c == Capability::Vector16 ==> c.implicit() == Some(Capability::Kernel),
        c == Capability::Float16Buffer ==> c.implicit() == Some(Capability::Kernel),
        c == Capability::Int64Atomics ==> c.implicit() == Some(Capability::Int64),
        c == Capability::ImageBasic ==> c.implicit() == Some(Capability::Kernel),
        c == Capability::ImageReadWrite ==> c.implicit() == Some(Capability::ImageBasic),
        c == Capability::ImageMipmap ==> c.implicit() == Some(Capability::ImageBasic),
        c == Capability::Pipes ==> c.implicit() == Some(Capability::Kernel),
        c == Capability::DeviceEnqueue ==> c.implicit() == Some(Capability::Kernel),
        c == Capability::LiteralSampler ==> c.implicit() == Some(Capability::Kernel),
        c == Capability::AtomicStorage ==> c.implicit() == Some(Capability::Shader),
        c == Capability::TessellationPointSize ==> c.implicit() == Some(Capability::Tessellation),
        c == Capability::GeometryPointSize ==> c.implicit() == Some(Capability::Geometry),
        c == Capability::ImageGatherExtended ==> c.implicit() == Some(Capability::Shader),
        c == Capability::StorageImageMultisample ==> c.implicit() == Some(Capability::Shader),
        c == Capability::UniformBufferArrayDynamicIndexing ==> c.implicit() == Some(Capability::Shader),
        c == Capability::SampledImageArrayDynamicIndexing ==> c.implicit() == Some(Capability::Shader),
        c == Capability::StorageBufferArrayDynamicIndexing ==> c.implicit() == Some(Capability::Shader),
        c == Capability::StorageImageArrayDynamicIndexing ==> c.implicit() == Some(Capability::Shader),
        c == Capability::ClipDistance ==> c.implicit() == Some(Capability::Shader),
        c == Capability::CullDistance ==> c.implicit() == Some(Capability::Shader),
        c == Capability::ImageCubeArray ==> c.implicit() == Some(Capability::SampledCubeArray),
        c == Capability::SampleRateShading ==> c.implicit() == Some(Capability::Shader),
        c == Capability::ImageRect ==> c.implicit() == Some(Capability::SampledRect),
        c == Capability::SampledRect ==> c.implicit() == Some(Capability::Shader),
        c == Capability::GenericPointer ==> c.implicit() == Some(Capability::Addresses),
        c == Capability::InputAttachment ==> c.implicit() == Some(Capability::Shader),
        c == Capability::SparseResidency ==> c.implicit() == Some(Capability::Shader),
        c == Capability::MinLod ==> c.implicit() == Some(Capability::Shader),
        c == Capability::Image1D ==> c.implicit() == Some(Capability::Sampled1D),
        c == Capability::SampledCubeArray ==> c.implicit() == Some(Capability::Shader),
        c == Capability::ImageBuffer ==> c.implicit() == Some(Capability::SampledBuffer),
        c == Capability::ImageMSArray ==> c.implicit() == Some(Capability::Shader),
        c == Capability::StorageImageExtendedFormats ==> c.implicit() == Some(Capability::Shader),
        c == Capability::ImageQuery ==> c.implicit() == Some(Capability::Shader),
        c == Capability::DerivativeControl ==> c.implicit() == Some(Capability::Shader),
        c == Capability::InterpolationFunction ==> c.implicit() == Some(Capability::Shader),
        c == Capability::TransformFeedback ==> c.implicit() == Some(Capability::Shader),
        c == Capability::GeometryStreams ==> c.implicit() == Some(Capability::Geometry),
        c == Capability::StorageImageReadWithoutFormat ==> c.implicit() == Some(Capability::Shader),
        c == Capability::StorageImageWriteWithoutFormat ==> c.implicit() == Some(Capability::Shader),
        c == Capability::MultiViewport ==> c.implicit() == Some(Capability::Geometry),
        c == Capability::SubgroupDispatch ==> c.implicit() == Some(Capability::DeviceEnqueue),
        c == Capability::NamedBarrier ==> c.implicit() == Some(Capability::Kernel),
        c == Capability::PipeStorage ==> c.implicit() == Some(Capability::Pipes),
        c == Capability::Matrix ==> c.implicit() is None,
        c == Capability::Addresses ==> c.implicit() is None,
        c == Capability::Linkage ==> c.implicit() is None,
        c == Capability::Kernel ==> c.implicit() is None,
        c == Capability::Float16 ==> c.implicit() is None,
        c == Capability::Float64 ==> c.implicit() is None,
        c == Capability::Int64 ==> c.implicit() is None,
        c == Capability::Groups ==> c.implicit() is None,
        c == Capability::Int16 ==> c.implicit() is None,
        c == Capability::Int8 ==> c.implicit() is None,
        c == Capability::Sampled1D ==> c.implicit() is None,
        c == Capability::SampledBuffer ==> c.implicit() is None,
{
}

} // verus!
