//! Execution models, execution modes, built-in variables and decorations.

use vstd::prelude::*;

use super::globals::{
    Global, PointerType, ScalarType, TypeFloatDetails, TypeIntDetails, TypePointerDetails,
    TypeVectorDetails, VariableDetails,
};
use super::{Capability, EnablingCapabilities, StorageClass, Word};

verus! {

/// Execution models.
#[derive(Clone, Copy, Debug, PartialEq, Eq, Structural)]
pub enum ExecutionModel {
    Vertex,
    TessellationControl,
    TessellationEvaluation,
    Geometry,
    Fragment,
    GLCompute,
    Kernel,
}

impl ExecutionModel {
    pub open spec fn word(self) -> Word {
        match self {
            Self::Vertex => 0,
            Self::TessellationControl => 1,
            Self::TessellationEvaluation => 2,
            Self::Geometry => 3,
            Self::Fragment => 4,
            Self::GLCompute => 5,
            Self::Kernel => 6,
        }
    }

    pub fn get_word(&self) -> (r: Word)
        ensures
            r == self.word(),
    {
        match self {
            Self::Vertex => 0,
            Self::TessellationControl => 1,
            Self::TessellationEvaluation => 2,
            Self::Geometry => 3,
            Self::Fragment => 4,
            Self::GLCompute => 5,
            Self::Kernel => 6,
        }
    }

    /// The single capability that this execution model needs.
    pub open spec fn capability(self) -> Capability {
        match self {
            Self::Vertex => Capability::Shader,
            Self::TessellationControl => Capability::Tessellation,
            Self::TessellationEvaluation => Capability::Tessellation,
            Self::Geometry => Capability::Geometry,
            Self::Fragment => Capability::Shader,
            Self::GLCompute => Capability::Shader,
            Self::Kernel => Capability::Kernel,
        }
    }
}

impl EnablingCapabilities for ExecutionModel {
    open spec fn required_capabilities(&self) -> Seq<Capability> {
        seq![self.capability()]
    }

    fn get_required_capabilities(&self, capabilities: &mut [Capability]) -> (n: usize) {
        capabilities[0] = match self {
            Self::Vertex => Capability::Shader,
            Self::TessellationControl => Capability::Tessellation,
            Self::TessellationEvaluation => Capability::Tessellation,
            Self::Geometry => Capability::Geometry,
            Self::Fragment => Capability::Shader,
            Self::GLCompute => Capability::Shader,
            Self::Kernel => Capability::Kernel,
        };
        assert(capabilities@.take(1) =~= self.required_capabilities());
        assert(capabilities@.skip(1) =~= old(capabilities)@.skip(1));
        1
    }
}

#[derive(Clone, Copy, Debug, PartialEq, Eq, Structural)]
pub enum GeometryExecutionMode {
    Invocations(Word),
    InputPoints,
    InputLines,
    InputLinesAdjacency,
    Triangles,
    InputTrianglesAdjacency,
    OutputLineStrip,
    OutputTriangleStrip,
}

#[derive(Clone, Copy, Debug, PartialEq, Eq, Structural)]
pub enum TessellationExecutionMode {
    SpacingEqual,
    SpacingFractionalEven,
    SpacingFractionalOdd,
    VertexOrderCw,
    VertexOrderCcw,
    PointMode,
    Triangles,
    Quads,
    Isolines,
}

#[derive(Clone, Copy, Debug, PartialEq, Eq, Structural)]
pub enum FragmentExecutionMode {
    PixelCenterInteger,
    OriginUpperLeft,
    OriginLowerLeft,
    EarlyFragmentTests,
    DepthReplacing,
    DepthGreater,
    DepthLess,
    DepthUnchanged,
}

#[derive(Clone, Copy, Debug, PartialEq)]
pub enum GLComputeExecutionMode {
    LocalSize((Word, Word, Word)),
}

#[derive(Clone, Copy, Debug, PartialEq)]
pub enum KernelExecutionMode {
    LocalSize((Word, Word, Word)),
    LocalSizeHint((Word, Word, Word)),
    VecTypeHint(Word),
    ContractionOff,
}

/// Execution modes, by the execution model they belong to.
#[derive(Clone, Copy, Debug, PartialEq)]
pub enum ExecutionMode {
    Geometry(GeometryExecutionMode),
    Tessellation(TessellationExecutionMode),
    Fragment(FragmentExecutionMode),
    GLCompute(GLComputeExecutionMode),
    Kernel(KernelExecutionMode),
}

impl ExecutionMode {
    /// The word of this execution mode and the literal operands that follow it.
    pub open spec fn word_and_literals(self) -> (Word, Seq<Word>) {
        match self {
            Self::Geometry(g) => match g {
                GeometryExecutionMode::Invocations(a) => (0, seq![a]),
                GeometryExecutionMode::InputPoints => (19, seq![]),
                GeometryExecutionMode::InputLines => (20, seq![]),
                GeometryExecutionMode::InputLinesAdjacency => (21, seq![]),
                GeometryExecutionMode::Triangles => (22, seq![]),
                GeometryExecutionMode::InputTrianglesAdjacency => (23, seq![]),
                GeometryExecutionMode::OutputLineStrip => (28, seq![]),
                GeometryExecutionMode::OutputTriangleStrip => (29, seq![]),
            },
            Self::Tessellation(t) => match t {
                TessellationExecutionMode::SpacingEqual => (1, seq![]),
                TessellationExecutionMode::SpacingFractionalEven => (2, seq![]),
                TessellationExecutionMode::SpacingFractionalOdd => (3, seq![]),
                TessellationExecutionMode::VertexOrderCw => (4, seq![]),
                TessellationExecutionMode::VertexOrderCcw => (5, seq![]),
                TessellationExecutionMode::PointMode => (10, seq![]),
                TessellationExecutionMode::Triangles => (22, seq![]),
                TessellationExecutionMode::Quads => (24, seq![]),
                TessellationExecutionMode::Isolines => (25, seq![]),
            },
            Self::Fragment(f) => match f {
                FragmentExecutionMode::PixelCenterInteger => (6, seq![]),
                FragmentExecutionMode::OriginUpperLeft => (7, seq![]),
                FragmentExecutionMode::OriginLowerLeft => (8, seq![]),
                FragmentExecutionMode::EarlyFragmentTests => (9, seq![]),
                FragmentExecutionMode::DepthReplacing => (12, seq![]),
                FragmentExecutionMode::DepthGreater => (14, seq![]),
                FragmentExecutionMode::DepthLess => (15, seq![]),
                FragmentExecutionMode::DepthUnchanged => (16, seq![]),
            },
            Self::GLCompute(gl) => match gl {
                GLComputeExecutionMode::LocalSize((a, b, c)) => (17, seq![a, b, c]),
            },
            Self::Kernel(k) => match k {
                KernelExecutionMode::LocalSize((a, b, c)) => (17, seq![a, b, c]),
                KernelExecutionMode::LocalSizeHint((a, b, c)) => (18, seq![a, b, c]),
                KernelExecutionMode::VecTypeHint(a) => (30, seq![a]),
                KernelExecutionMode::ContractionOff => (31, seq![]),
            },
        }
    }

    /// Writes the literal operands at the front of `literals`; returns the mode's word and
    /// the number of literals.
    pub fn get_word_and_literals(&self, literals: &mut [Word]) -> (r: (Word, u16))
        requires
            old(literals)@.len() >= 3,
        ensures
            r.0 == self.word_and_literals().0,
            r.1 as int == self.word_and_literals().1.len(),
            final(literals)@.len() == old(literals)@.len(),
            final(literals)@.take(r.1 as int) == self.word_and_literals().1,
            final(literals)@.skip(r.1 as int) == old(literals)@.skip(r.1 as int),
    {
        let word: Word = match self {
            Self::Geometry(g) => match g {
                GeometryExecutionMode::Invocations(a) => {
                    literals[0] = *a;
                    assert(literals@.take(1) =~= self.word_and_literals().1);
                    assert(literals@.skip(1) =~= old(literals)@.skip(1));
                    return (0, 1);
                },
                GeometryExecutionMode::InputPoints => 19,
                GeometryExecutionMode::InputLines => 20,
                GeometryExecutionMode::InputLinesAdjacency => 21,
                GeometryExecutionMode::Triangles => 22,
                GeometryExecutionMode::InputTrianglesAdjacency => 23,
                GeometryExecutionMode::OutputLineStrip => 28,
                GeometryExecutionMode::OutputTriangleStrip => 29,
            },
            Self::Tessellation(t) => match t {
                TessellationExecutionMode::SpacingEqual => 1,
                TessellationExecutionMode::SpacingFractionalEven => 2,
                TessellationExecutionMode::SpacingFractionalOdd => 3,
                TessellationExecutionMode::VertexOrderCw => 4,
                TessellationExecutionMode::VertexOrderCcw => 5,
                TessellationExecutionMode::PointMode => 10,
                TessellationExecutionMode::Triangles => 22,
                TessellationExecutionMode::Quads => 24,
                TessellationExecutionMode::Isolines => 25,
            },
            Self::Fragment(f) => match f {
                FragmentExecutionMode::PixelCenterInteger => 6,
                FragmentExecutionMode::OriginUpperLeft => 7,
                FragmentExecutionMode::OriginLowerLeft => 8,
                FragmentExecutionMode::EarlyFragmentTests => 9,
                FragmentExecutionMode::DepthReplacing => 12,
                FragmentExecutionMode::DepthGreater => 14,
                FragmentExecutionMode::DepthLess => 15,
                FragmentExecutionMode::DepthUnchanged => 16,
            },
            Self::GLCompute(gl) => match gl {
                GLComputeExecutionMode::LocalSize((a, b, c)) => {
                    literals[0] = *a;
                    literals[1] = *b;
                    literals[2] = *c;
                    assert(literals@.take(3) =~= self.word_and_literals().1);
                    assert(literals@.skip(3) =~= old(literals)@.skip(3));
                    return (17, 3);
                },
            },
            Self::Kernel(k) => match k {
                KernelExecutionMode::LocalSize((a, b, c)) => {
                    literals[0] = *a;
                    literals[1] = *b;
                    literals[2] = *c;
                    assert(literals@.take(3) =~= self.word_and_literals().1);
                    assert(literals@.skip(3) =~= old(literals)@.skip(3));
                    return (17, 3);
                },
                KernelExecutionMode::LocalSizeHint((a, b, c)) => {
                    literals[0] = *a;
                    literals[1] = *b;
                    literals[2] = *c;
                    assert(literals@.take(3) =~= self.word_and_literals().1);
                    assert(literals@.skip(3) =~= old(literals)@.skip(3));
                    return (18, 3);
                },
                KernelExecutionMode::VecTypeHint(a) => {
                    literals[0] = *a;
                    assert(literals@.take(1) =~= self.word_and_literals().1);
                    assert(literals@.skip(1) =~= old(literals)@.skip(1));
                    return (30, 1);
                },
                KernelExecutionMode::ContractionOff => 31,
            },
        };
        assert(literals@.take(0) =~= self.word_and_literals().1);
        assert(literals@.skip(0) =~= old(literals)@.skip(0));
        (word, 0)
    }
}

impl EnablingCapabilities for ExecutionMode {
    open spec fn required_capabilities(&self) -> Seq<Capability> {
        match self {
            Self::Geometry(g) => match g {
                GeometryExecutionMode::Triangles => seq![
                    Capability::Geometry,
                    Capability::Tessellation,
                ],
                _ => seq![Capability::Geometry],
            },
            Self::Tessellation(t) => match t {
                TessellationExecutionMode::Triangles => seq![
                    Capability::Tessellation,
                    Capability::Geometry,
                ],
                _ => seq![Capability::Tessellation],
            },
            Self::Fragment(_) => seq![Capability::Shader],
            Self::GLCompute(_) => seq![Capability::Shader, Capability::Kernel],
            Self::Kernel(k) => match k {
                KernelExecutionMode::LocalSize(_) => seq![Capability::Kernel, Capability::Shader],
                _ => seq![Capability::Kernel],
            },
        }
    }

    fn get_required_capabilities(&self, capabilities: &mut [Capability]) -> (n: usize) {
        let pair: (Capability, Option<Capability>) = match self {
            Self::Geometry(g) => match g {
                GeometryExecutionMode::Triangles => (
                    Capability::Geometry,
                    Some(Capability::Tessellation),
                ),
                _ => (Capability::Geometry, None),
            },
            Self::Tessellation(t) => match t {
                TessellationExecutionMode::Triangles => (
                    Capability::Tessellation,
                    Some(Capability::Geometry),
                ),
                _ => (Capability::Tessellation, None),
            },
            Self::Fragment(_f) => (Capability::Shader, None),
            Self::GLCompute(_gl) => (Capability::Shader, Some(Capability::Kernel)),
            Self::Kernel(k) => match k {
                KernelExecutionMode::LocalSize(_) => (Capability::Kernel, Some(Capability::Shader)),
                _ => (Capability::Kernel, None),
            },
        };
        capabilities[0] = pair.0;
        match pair.1 {
            Some(second) => {
                capabilities[1] = second;
                assert(capabilities@.take(2) =~= self.required_capabilities());
                assert(capabilities@.skip(2) =~= old(capabilities)@.skip(2));
                2
            },
            None => {
                assert(capabilities@.take(1) =~= self.required_capabilities());
                assert(capabilities@.skip(1) =~= old(capabilities)@.skip(1));
                1
            },
        }
    }
}

#[derive(Clone, Copy, Debug, PartialEq, Eq, Structural)]
pub enum VertexBuiltIn {
    Position,
}

#[derive(Clone, Copy, Debug, PartialEq, Eq, Structural)]
pub enum GeometryBuiltIn {
    Position(bool),
}

#[derive(Clone, Copy, Debug, PartialEq, Eq, Structural)]
pub enum TessellationBuiltIn {
    Position(bool),
}

#[derive(Clone, Copy, Debug, PartialEq, Eq, Structural)]
pub enum FragmentBuiltIn {
    FragCoord,
    PointCoord,
    VertexIndex,
    InstanceIndex,
}

/// Built-in variables, by the execution model they belong to.
#[derive(Clone, Copy, Debug, PartialEq, Eq, Structural)]
pub enum BuiltIn {
    Vertex(VertexBuiltIn),
    Geometry(GeometryBuiltIn),
    Tessellation(TessellationBuiltIn),
    Fragment(FragmentBuiltIn),
}

/// A vector of four 32-bit floats.
pub open spec fn vec4_f32() -> PointerType {
    PointerType::Vector(
        TypeVectorDetails {
            scalar_type: ScalarType::Float(TypeFloatDetails { bit_width: 32 }),
            count: 4,
        },
    )
}

impl BuiltIn {
    /// The type of the built-in variable.
    pub open spec fn pointer_type(self) -> PointerType {
        match self {
            Self::Vertex(_) => vec4_f32(),
            Self::Geometry(_) => vec4_f32(),
            Self::Tessellation(_) => vec4_f32(),
            Self::Fragment(f) => match f {
                FragmentBuiltIn::FragCoord => vec4_f32(),
                FragmentBuiltIn::PointCoord => PointerType::Vector(
                    TypeVectorDetails {
                        scalar_type: ScalarType::Float(TypeFloatDetails { bit_width: 32 }),
                        count: 2,
                    },
                ),
                FragmentBuiltIn::VertexIndex => PointerType::Int(
                    TypeIntDetails { bit_width: 32, is_signed: false },
                ),
                FragmentBuiltIn::InstanceIndex => PointerType::Int(
                    TypeIntDetails { bit_width: 32, is_signed: false },
                ),
            },
        }
    }

    /// Whether the built-in variable is an output of its stage (else an input).
    pub open spec fn is_output(self) -> bool {
        match self {
            Self::Vertex(_) => true,
            Self::Geometry(GeometryBuiltIn::Position(is_input)) => !is_input,
            Self::Tessellation(TessellationBuiltIn::Position(is_input)) => !is_input,
            Self::Fragment(_) => false,
        }
    }

    /// The storage class of the built-in variable.
    pub open spec fn storage_class(self) -> StorageClass {
        if self.is_output() {
            StorageClass::Output
        } else {
            StorageClass::Input
        }
    }

    /// The variable that stands for the built-in.
    pub open spec fn global<'a>(self) -> Global<'a> {
        Global::Variable(
            VariableDetails {
                pointer: TypePointerDetails {
                    storage_class: self.storage_class(),
                    pointer_type: self.pointer_type(),
                },
                initializer: None,
            },
        )
    }

    /// The word that SPIR-V gives the built-in.
    pub open spec fn word(self) -> Word {
        match self {
            Self::Fragment(f) => match f {
                FragmentBuiltIn::FragCoord => 15,
                FragmentBuiltIn::PointCoord => 16,
                FragmentBuiltIn::VertexIndex => 42,
                FragmentBuiltIn::InstanceIndex => 43,
            },
            _ => 0,
        }
    }

    pub fn get_pointer_type(&self) -> (r: PointerType)
        ensures
            r == self.pointer_type(),
    {
        let vec4 = PointerType::Vector(
            TypeVectorDetails {
                scalar_type: ScalarType::Float(TypeFloatDetails { bit_width: 32 }),
                count: 4,
            },
        );
        match self {
            Self::Vertex(_) => vec4,
            Self::Geometry(_) => vec4,
            Self::Tessellation(_) => vec4,
            Self::Fragment(f) => match f {
                FragmentBuiltIn::FragCoord => vec4,
                FragmentBuiltIn::PointCoord => PointerType::Vector(
                    TypeVectorDetails {
                        scalar_type: ScalarType::Float(TypeFloatDetails { bit_width: 32 }),
                        count: 2,
                    },
                ),
                FragmentBuiltIn::VertexIndex => PointerType::Int(
                    TypeIntDetails { bit_width: 32, is_signed: false },
                ),
                FragmentBuiltIn::InstanceIndex => PointerType::Int(
                    TypeIntDetails { bit_width: 32, is_signed: false },
                ),
            },
        }
    }

    pub fn get_storage_class(&self) -> (r: StorageClass)
        ensures
            r == self.storage_class(),
    {
        match self {
            Self::Vertex(_) => StorageClass::Output,
            Self::Geometry(g) => match *g {
                GeometryBuiltIn::Position(is_input) => {
                    if is_input {
                        StorageClass::Input
                    } else {
                        StorageClass::Output
                    }
                },
            },
            Self::Tessellation(t) => match *t {
                TessellationBuiltIn::Position(is_input) => {
                    if is_input {
                        StorageClass::Input
                    } else {
                        StorageClass::Output
                    }
                },
            },
            Self::Fragment(_) => StorageClass::Input,
        }
    }

    /// The variable that stands for the built-in, and whether it is an output.
    pub fn get_global_and_is_output<'a>(&self) -> (r: (Global<'a>, bool))
        ensures
            r == (self.global::<'a>(), self.is_output()),
    {
        let pointer_type = self.get_pointer_type();
        let storage_class = self.get_storage_class();
        let is_output: bool = match storage_class {
            StorageClass::Output => true,
            _ => false,
        };
        (
            Global::Variable(
                VariableDetails {
                    pointer: TypePointerDetails { storage_class, pointer_type },
                    initializer: None,
                },
            ),
            is_output,
        )
    }

    pub fn get_word(&self) -> (r: Word)
        ensures
            r == self.word(),
    {
        match self {
            Self::Fragment(f) => match f {
                FragmentBuiltIn::FragCoord => 15,
                FragmentBuiltIn::PointCoord => 16,
                FragmentBuiltIn::VertexIndex => 42,
                FragmentBuiltIn::InstanceIndex => 43,
            },
            _ => 0,
        }
    }
}

/// Decorations.
#[derive(Clone, Copy, Debug, PartialEq, Eq, Structural)]
pub enum Decoration {
    RelaxedPrecision,
    SpecId(Word),
    Block,
    BufferBlock,
    RowMajor,
    ColMajor,
    ArrayStride(Word),
    MatrixStride(Word),
    GLSLShared,
    GLSLPacked,
    CPacked,
    BuiltIn(BuiltIn),
    NoPerspective,
    Flat,
    Patch,
    Centroid,
    Sample,
    Invariant,
    Restrict,
    Aliased,
    Volatile,
    Constant,
    Coherent,
    NonWritable,
    NonReadable,
    Uniform,
    UniformId(Word),
    SaturatedConversion,
    Stream(Word),
    Location(Word),
    Component(Word),
    Index(Word),
    Binding(Word),
    DescriptorSet(Word),
    Offset(Word),
    XfbBuffer(Word),
    XfbStride(Word),
    NoContraction,
    InputAttachmentIndex(Word),
    Alignment(Word),
    MaxByteOffset(Word),
}

impl Decoration {
    /// The decorations that this library can write out.
    pub open spec fn has_word(self) -> bool {
        match self {
            Self::BuiltIn(_) => true,
            Self::Location(_) => true,
            Self::DescriptorSet(_) => true,
            Self::Binding(_) => true,
            Self::Flat => true,
            _ => false,
        }
    }

    pub open spec fn word(self) -> Word {
        match self {
            Self::BuiltIn(_) => 11,
            Self::Location(_) => 30,
            Self::DescriptorSet(_) => 34,
            Self::Binding(_) => 33,
            Self::Flat => 14,
            _ => 0,
        }
    }

    /// The word that SPIR-V gives the decoration; only those of `has_word` are written out.
    pub fn get_word(&self) -> (r: Word)
        requires
            self.has_word(),
        ensures
            r == self.word(),
    {
        match self {
            Self::BuiltIn(_b) => 11,
            Self::Location(_) => 30,
            Self::DescriptorSet(_) => 34,
            Self::Binding(_) => 33,
            _ => 14,
        }
    }
}

/// The execution model words are those of the SPIR-V specification.
pub proof fn law_execution_model_words(x: ExecutionModel)
    ensures
        x == ExecutionModel::Vertex ==> x.word() == 0,
        x == ExecutionModel::TessellationControl ==> x.word() == 1,
        x == ExecutionModel::TessellationEvaluation ==> x.word() == 2,
        x == ExecutionModel::Geometry ==> x.word() == 3,
        x == ExecutionModel::Fragment ==> x.word() == 4,
        x == ExecutionModel::GLCompute ==> x.word() == 5,
        x == ExecutionModel::Kernel ==> x.word() == 6,
{
}

/// The execution mode words and literals are those of the SPIR-V specification: each mode
/// its own word (Invocations 0, SpacingEqual 1, ... DepthGreater 14, DepthLess 15, ...
/// ContractionOff 31), followed by the mode's literal operands in order.
pub proof fn law_execution_mode_words(m: ExecutionMode)
    ensures
        m.word_and_literals() == (match m {
            ExecutionMode::Geometry(GeometryExecutionMode::Invocations(a)) => (0u32, seq![a]),
            ExecutionMode::Geometry(GeometryExecutionMode::InputPoints) => (19u32, seq![]),
            ExecutionMode::Geometry(GeometryExecutionMode::InputLines) => (20u32, seq![]),
            ExecutionMode::Geometry(GeometryExecutionMode::InputLinesAdjacency) => (21u32, seq![]),
            ExecutionMode::Geometry(GeometryExecutionMode::Triangles) => (22u32, seq![]),
            ExecutionMode::Geometry(GeometryExecutionMode::InputTrianglesAdjacency) => (23u32, seq![]),
            ExecutionMode::Geometry(GeometryExecutionMode::OutputLineStrip) => (28u32, seq![]),
            ExecutionMode::Geometry(GeometryExecutionMode::OutputTriangleStrip) => (29u32, seq![]),
            ExecutionMode::Tessellation(TessellationExecutionMode::SpacingEqual) => (1u32, seq![]),
            ExecutionMode::Tessellation(TessellationExecutionMode::SpacingFractionalEven) => (2u32, seq![]),
            ExecutionMode::Tessellation(TessellationExecutionMode::SpacingFractionalOdd) => (3u32, seq![]),
            ExecutionMode::Tessellation(TessellationExecutionMode::VertexOrderCw) => (4u32, seq![]),
            ExecutionMode::Tessellation(TessellationExecutionMode::VertexOrderCcw) => (5u32, seq![]),
            ExecutionMode::Tessellation(TessellationExecutionMode::PointMode) => (10u32, seq![]),
            ExecutionMode::Tessellation(TessellationExecutionMode::Triangles) => (22u32, seq![]),
            ExecutionMode::Tessellation(TessellationExecutionMode::Quads) => (24u32, seq![]),
            ExecutionMode::Tessellation(TessellationExecutionMode::Isolines) => (25u32, seq![]),
            ExecutionMode::Fragment(FragmentExecutionMode::PixelCenterInteger) => (6u32, seq![]),
            ExecutionMode::Fragment(FragmentExecutionMode::OriginUpperLeft) => (7u32, seq![]),
            ExecutionMode::Fragment(FragmentExecutionMode::OriginLowerLeft) => (8u32, seq![]),
            ExecutionMode::Fragment(FragmentExecutionMode::EarlyFragmentTests) => (9u32, seq![]),
            ExecutionMode::Fragment(FragmentExecutionMode::DepthReplacing) => (12u32, seq![]),
            ExecutionMode::Fragment(FragmentExecutionMode::DepthGreater) => (14u32, seq![]),
            ExecutionMode::Fragment(FragmentExecutionMode::DepthLess) => (15u32, seq![]),
            ExecutionMode::Fragment(FragmentExecutionMode::DepthUnchanged) => (16u32, seq![]),
            ExecutionMode::GLCompute(GLComputeExecutionMode::LocalSize((a, b, c))) => (17u32, seq![a, b, c]),
            ExecutionMode::Kernel(KernelExecutionMode::LocalSize((a, b, c))) => (17u32, seq![a, b, c]),
            ExecutionMode::Kernel(KernelExecutionMode::LocalSizeHint((a, b, c))) => (18u32, seq![a, b, c]),
            ExecutionMode::Kernel(KernelExecutionMode::VecTypeHint(a)) => (30u32, seq![a]),
            ExecutionMode::Kernel(KernelExecutionMode::ContractionOff) => (31u32, seq![]),
        }),
{
}

/// The built-in words of the fragment built-ins and the decoration words that this
/// library writes are those of the SPIR-V specification (FragCoord 15, PointCoord 16,
/// VertexIndex 42, InstanceIndex 43; BuiltIn 11, Flat 14, Location 30, Binding 33,
/// DescriptorSet 34).
pub proof fn law_built_in_and_decoration_words(b: BuiltIn, d: Decoration)
    ensures
        b == BuiltIn::Fragment(FragmentBuiltIn::FragCoord) ==> b.word() == 15,
        b == BuiltIn::Fragment(FragmentBuiltIn::PointCoord) ==> b.word() == 16,
        b == BuiltIn::Fragment(FragmentBuiltIn::VertexIndex) ==> b.word() == 42,
        b == BuiltIn::Fragment(FragmentBuiltIn::InstanceIndex) ==> b.word() == 43,
        d is BuiltIn ==> d.word() == 11,
        d is Flat ==> d.word() == 14,
        d is Location ==> d.word() == 30,
        d is Binding ==> d.word() == 33,
        d is DescriptorSet ==> d.word() == 34,
{
}

/// The capability that each execution model needs is the one the SPIR-V specification
/// names: Shader for vertex, fragment and GL compute shaders, Tessellation for both
/// tessellation stages, Geometry for geometry shaders, Kernel for kernels.
pub proof fn law_execution_model_capabilities(m: ExecutionModel)
    ensures
        m == ExecutionModel::Vertex ==> m.capability() == Capability::Shader,
        m == ExecutionModel::TessellationControl ==> m.capability() == Capability::Tessellation,
        m == ExecutionModel::TessellationEvaluation ==> m.capability() == Capability::Tessellation,
        m == ExecutionModel::Geometry ==> m.capability() == Capability::Geometry,
        m == ExecutionModel::Fragment ==> m.capability() == Capability::Shader,
        m == ExecutionModel::GLCompute ==> m.capability() == Capability::Shader,
        m == ExecutionModel::Kernel ==> m.capability() == Capability::Kernel,
{
}

} // verus!
