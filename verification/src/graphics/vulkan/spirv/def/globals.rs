//! The global declarations of a module (types, constants and variables), the globals that
//! each of them refers to, and the instructions that declare them.

use vstd::prelude::*;

use super::{encode_word0, Capability, EnablingCapabilities, OpcodeName, StorageClass, Word};

verus! {

#[derive(Clone, Copy, Debug, PartialEq, Eq, Structural)]
pub struct TypeIntDetails {
    pub bit_width: Word,
    pub is_signed: bool,
}

#[derive(Clone, Copy, Debug, PartialEq, Eq, Structural)]
pub struct TypeFloatDetails {
    pub bit_width: Word,
}

#[derive(Clone, Copy, Debug, PartialEq, Eq, Structural)]
pub enum ScalarType {
    Bool,
    Int(TypeIntDetails),
    Float(TypeFloatDetails),
}

#[derive(Clone, Copy, Debug, PartialEq, Eq, Structural)]
pub struct TypeVectorDetails {
    pub scalar_type: ScalarType,
    pub count: Word,
}

#[derive(Clone, Copy, Debug, PartialEq, Eq, Structural)]
pub struct TypeMatrixDetails {
    pub vector: TypeVectorDetails,
    pub count: Word,
}

/// The element type of an array.
#[derive(Clone, Copy, Debug, PartialEq)]
pub enum Element<'a> {
    Bool,
    Int(TypeIntDetails),
    Float(TypeFloatDetails),
    Vector(TypeVectorDetails),
    Matrix(TypeMatrixDetails),
    Array(TypeArrayDetails<'a>),
}

#[derive(Clone, Copy, Debug, PartialEq)]
pub struct TypeArrayDetails<'a> {
    pub element: &'a Element<'a>,
    pub length: u32,
}

#[derive(Clone, Copy, Debug, PartialEq)]
pub struct TypeRuntimeArrayDetails<'a> {
    pub element: &'a Element<'a>,
}

/// The member type of a structure.
#[derive(Clone, Copy, Debug, PartialEq)]
pub enum Member<'a> {
    Bool,
    Int(TypeIntDetails),
    Float(TypeFloatDetails),
    Vector(TypeVectorDetails),
    Matrix(TypeMatrixDetails),
    Array(TypeArrayDetails<'a>),
}

/// The type that a pointer points to.
#[derive(Clone, Copy, Debug, PartialEq, Eq, Structural)]
pub enum PointerType {
    Bool,
    Int(TypeIntDetails),
    Float(TypeFloatDetails),
    Vector(TypeVectorDetails),
}

#[derive(Clone, Copy, Debug, PartialEq, Eq, Structural)]
pub struct TypePointerDetails {
    pub storage_class: StorageClass,
    pub pointer_type: PointerType,
}

/// The return type of a function.
#[derive(Clone, Copy, Debug, PartialEq, Eq, Structural)]
pub enum ReturnType {
    Void,
    Bool,
    Int(TypeIntDetails),
    Float(TypeFloatDetails),
    Vector(TypeVectorDetails),
}

/// The type of a function parameter.
#[derive(Clone, Copy, Debug, PartialEq, Eq, Structural)]
pub enum ParameterType {
    Bool,
    Int(TypeIntDetails),
    Float(TypeFloatDetails),
    Vector(TypeVectorDetails),
}

#[derive(Clone, Copy, Debug, PartialEq)]
pub struct TypeFunctionDetails<'a> {
    pub return_type: ReturnType,
    pub parameter_types: &'a [ParameterType],
}

/// A 32-bit floating-point constant: `bits` is the value's bit pattern, by which two
/// constants are told apart, and `literal` the word that the declaration carries (the
/// value converted to an unsigned integer).
#[derive(Clone, Copy, Debug, PartialEq, Eq, Structural)]
pub struct Float32Constant {
    pub bits: u32,
    pub literal: u32,
}

/// A 64-bit floating-point constant: `bits` is the value's bit pattern, by which two
/// constants are told apart, and `literal` the value converted to an unsigned integer,
/// whose two halves the declaration carries.
#[derive(Clone, Copy, Debug, PartialEq, Eq, Structural)]
pub struct Float64Constant {
    pub bits: u64,
    pub literal: u64,
}

#[derive(Clone, Copy, Debug, PartialEq, Eq, Structural)]
pub enum ConstantDetails {
    Int32(i32),
    Int64(i64),
    Unsigned32(u32),
    Unsigned64(u64),
    Float32(Float32Constant),
    Float64(Float64Constant),
}

#[derive(Clone, Copy, Debug, PartialEq, Eq, Structural)]
pub enum InitializerType {
    True,
    False,
    Constant(ConstantDetails),
}

#[derive(Clone, Copy, Debug, PartialEq, Eq, Structural)]
pub struct VariableDetails {
    pub pointer: TypePointerDetails,
    pub initializer: Option<InitializerType>,
}

/// A global declaration: a type, a constant or a variable.
#[derive(Clone, Copy, Debug, PartialEq)]
pub enum Global<'a> {
    TypeVoid,
    TypeBool,
    TypeInt(TypeIntDetails),
    TypeFloat(TypeFloatDetails),
    TypeVector(TypeVectorDetails),
    TypeMatrix(TypeMatrixDetails),
    TypeSampler,
    TypeArray(TypeArrayDetails<'a>),
    TypeRuntimeArray(TypeRuntimeArrayDetails<'a>),
    TypePointer(TypePointerDetails),
    TypeFunction(TypeFunctionDetails<'a>),
    ConstantTrue,
    ConstantFalse,
    Constant(ConstantDetails),
    Variable(VariableDetails),
}

/// One word of a global's declaration: a literal word, the global's own id, or the id of
/// another global that it refers to.
#[derive(Clone, Copy, Debug, PartialEq)]
pub enum GlobalInstruction<'a> {
    Word(Word),
    Result,
    SubGlobal(Global<'a>),
}

/// The type of a local variable.
#[derive(Clone, Copy, Debug, PartialEq, Eq, Structural)]
pub enum LocalVariableType {
    Bool,
    Int(TypeIntDetails),
    Float(TypeFloatDetails),
    Vector(TypeVectorDetails),
}

/// The type declaration of a scalar type.
pub open spec fn scalar_global<'a>(s: ScalarType) -> Global<'a> {
    match s {
        ScalarType::Bool => Global::TypeBool,
        ScalarType::Int(a) => Global::TypeInt(a),
        ScalarType::Float(a) => Global::TypeFloat(a),
    }
}

/// The type declaration of an array element type.
pub open spec fn elem_global<'a>(e: Element<'a>) -> Global<'a> {
    match e {
        Element::Bool => Global::TypeBool,
        Element::Int(a) => Global::TypeInt(a),
        Element::Float(a) => Global::TypeFloat(a),
        Element::Vector(a) => Global::TypeVector(a),
        Element::Matrix(a) => Global::TypeMatrix(a),
        Element::Array(a) => Global::TypeArray(a),
    }
}

/// The type declaration of the type that a pointer points to.
pub open spec fn pointee_global<'a>(p: PointerType) -> Global<'a> {
    match p {
        PointerType::Bool => Global::TypeBool,
        PointerType::Int(a) => Global::TypeInt(a),
        PointerType::Float(a) => Global::TypeFloat(a),
        PointerType::Vector(a) => Global::TypeVector(a),
    }
}

/// The type declaration of a constant's type.
pub open spec fn constant_type<'a>(c: ConstantDetails) -> Global<'a> {
    match c {
        ConstantDetails::Int32(_) => Global::TypeInt(TypeIntDetails { bit_width: 32, is_signed: true }),
        ConstantDetails::Int64(_) => Global::TypeInt(TypeIntDetails { bit_width: 64, is_signed: true }),
        ConstantDetails::Unsigned32(_) => Global::TypeInt(
            TypeIntDetails { bit_width: 32, is_signed: false },
        ),
        ConstantDetails::Unsigned64(_) => Global::TypeInt(
            TypeIntDetails { bit_width: 64, is_signed: false },
        ),
        ConstantDetails::Float32(_) => Global::TypeFloat(TypeFloatDetails { bit_width: 32 }),
        ConstantDetails::Float64(_) => Global::TypeFloat(TypeFloatDetails { bit_width: 64 }),
    }
}

/// The constant that initializes a variable.
pub open spec fn initializer_global<'a>(i: InitializerType) -> Global<'a> {
    match i {
        InitializerType::True => Global::ConstantTrue,
        InitializerType::False => Global::ConstantFalse,
        InitializerType::Constant(a) => Global::Constant(a),
    }
}

/// How deep the declarations that an array element type refers to go.
pub open spec fn elem_height(e: Element) -> nat
    decreases e,
{
    match e {
        Element::Bool => 0,
        Element::Int(_) => 0,
        Element::Float(_) => 0,
        Element::Vector(_) => 1,
        Element::Matrix(_) => 2,
        Element::Array(d) => {
            let h: nat = elem_height(*d.element);
            1 + if h > 1 { h } else { 1 }
        },
    }
}

/// How deep the declarations that a global refers to go: every global that it refers to
/// has a smaller height.
pub open spec fn height(g: Global) -> nat {
    match g {
        Global::TypeVector(_) => 1,
        Global::TypeMatrix(_) => 2,
        Global::TypeArray(d) => {
            let h: nat = elem_height(*d.element);
            1 + if h > 1 { h } else { 1 }
        },
        Global::TypeRuntimeArray(d) => 1 + elem_height(*d.element),
        Global::TypePointer(_) => 2,
        Global::TypeFunction(_) => 2,
        Global::ConstantTrue => 1,
        Global::ConstantFalse => 1,
        Global::Constant(_) => 1,
        Global::Variable(_) => 3,
        _ => 0,
    }
}

impl ReturnType {
    pub open spec fn global<'a>(self) -> Global<'a> {
        match self {
            ReturnType::Void => Global::TypeVoid,
            ReturnType::Bool => Global::TypeBool,
            ReturnType::Int(a) => Global::TypeInt(a),
            ReturnType::Float(a) => Global::TypeFloat(a),
            ReturnType::Vector(a) => Global::TypeVector(a),
        }
    }

    /// The type declaration of this return type.
    pub fn get_global<'a>(&self) -> (r: Global<'a>)
        ensures
            r == self.global(),
    {
        match *self {
            ReturnType::Void => Global::TypeVoid,
            ReturnType::Bool => Global::TypeBool,
            ReturnType::Int(a) => Global::TypeInt(a),
            ReturnType::Float(a) => Global::TypeFloat(a),
            ReturnType::Vector(a) => Global::TypeVector(a),
        }
    }
}

impl ParameterType {
    pub open spec fn global<'a>(self) -> Global<'a> {
        match self {
            Self::Bool => Global::TypeBool,
            Self::Int(a) => Global::TypeInt(a),
            Self::Float(a) => Global::TypeFloat(a),
            Self::Vector(a) => Global::TypeVector(a),
        }
    }

    /// The type declaration of this parameter type.
    pub fn get_global<'a>(&self) -> (r: Global<'a>)
        ensures
            r == self.global(),
    {
        match *self {
            Self::Bool => Global::TypeBool,
            Self::Int(a) => Global::TypeInt(a),
            Self::Float(a) => Global::TypeFloat(a),
            Self::Vector(a) => Global::TypeVector(a),
        }
    }
}

impl LocalVariableType {
    pub open spec fn global<'a>(self) -> Global<'a> {
        match self {
            Self::Bool => Global::TypeBool,
            Self::Int(a) => Global::TypeInt(a),
            Self::Float(a) => Global::TypeFloat(a),
            Self::Vector(a) => Global::TypeVector(a),
        }
    }

    /// The type declaration of this local variable type.
    pub fn get_global<'a>(&self) -> (r: Global<'a>)
        ensures
            r == self.global(),
    {
        match *self {
            Self::Bool => Global::TypeBool,
            Self::Int(a) => Global::TypeInt(a),
            Self::Float(a) => Global::TypeFloat(a),
            Self::Vector(a) => Global::TypeVector(a),
        }
    }
}

/// The type declarations of a function's parameter types, in order.
pub open spec fn parameter_globals<'a>(params: Seq<ParameterType>) -> Seq<Global<'a>> {
    params.map_values(|p: ParameterType| p.global())
}

/// The globals that a pre-order walk from `g` visits: `g`, then the walk from each global
/// that it refers to, in the order of `children`.
pub open spec fn dfs<'a>(g: Global<'a>) -> Seq<Global<'a>>
    decreases height(g), 1nat, 0nat,
{
    seq![g] + dfs_seq(g.children(), height(g))
}

/// The walks from each global of `s` in turn, for globals lower than `h`.
pub open spec fn dfs_seq<'a>(s: Seq<Global<'a>>, h: nat) -> Seq<Global<'a>>
    decreases h, 0nat, s.len(),
{
    if s.len() == 0 {
        seq![]
    } else if height(s[0]) < h {
        dfs(s[0]) + dfs_seq(s.drop_first(), h)
    } else {
        seq![]
    }
}

/// Every global in `s` is lower than `h`.
pub open spec fn all_lower(s: Seq<Global>, h: nat) -> bool {
    forall|i: int| 0 <= i < s.len() ==> height(#[trigger] s[i]) < h
}

/// The globals that `g` refers to, directly or not, in the order of a pre-order walk.
pub open spec fn sub_globals<'a>(g: Global<'a>) -> Seq<Global<'a>> {
    dfs_seq(g.children(), height(g))
}

/// The globals that a global refers to are lower than it.
pub proof fn lemma_children_lower(g: Global)
    ensures
        all_lower(g.children(), height(g)),
{
    match g {
        Global::TypeFunction(d) => {
            assert forall|i: int| 0 <= i < g.children().len() implies height(
                #[trigger] g.children()[i],
            ) < height(g) by {
                if i > 0 {
                    let p = d.parameter_types@[i - 1];
                    assert(g.children()[i] == p.global());
                }
            }
        },
        Global::Variable(d) => {
            match d.initializer {
                Some(init) => {
                    assert(g.children() =~= seq![
                        Global::TypePointer(d.pointer),
                        initializer_global(init),
                    ]);
                },
                None => {
                    assert(g.children() =~= seq![Global::TypePointer(d.pointer)]);
                },
            }
        },
        Global::TypeArray(d) => {
            lemma_elem_global_height(*d.element);
        },
        Global::TypeRuntimeArray(d) => {
            lemma_elem_global_height(*d.element);
        },
        _ => {},
    }
}

/// The type declaration of an array element has the element's height.
pub proof fn lemma_elem_global_height(e: Element)
    ensures
        height(elem_global(e)) == elem_height(e),
{
}

/// The walk from a global that refers to nothing visits only that global.
pub proof fn lemma_dfs_leaf<'a>(g: Global<'a>)
    requires
        g.children().len() == 0,
    ensures
        dfs(g) == seq![g],
{
    assert(dfs_seq(g.children(), height(g)) =~= Seq::<Global<'a>>::empty());
    assert(seq![g] + Seq::<Global<'a>>::empty() =~= seq![g]);
}

/// The walks from a single global are the walk from it.
pub proof fn lemma_dfs_seq_single<'a>(g: Global<'a>, h: nat)
    requires
        height(g) < h,
    ensures
        dfs_seq(seq![g], h) == dfs(g),
{
    assert(seq![g].drop_first() =~= Seq::<Global<'a>>::empty());
    assert(seq![g][0] == g);
    assert(dfs_seq(Seq::<Global<'a>>::empty(), h) =~= Seq::<Global<'a>>::empty());
    assert(dfs(g) + Seq::<Global<'a>>::empty() =~= dfs(g));
}

/// The walks from a concatenation are the concatenated walks.
pub proof fn lemma_dfs_seq_append<'a>(a: Seq<Global<'a>>, b: Seq<Global<'a>>, h: nat)
    requires
        all_lower(a, h),
    ensures
        dfs_seq(a + b, h) == dfs_seq(a, h) + dfs_seq(b, h),
    decreases a.len(),
{
    if a.len() == 0 {
        assert(a + b =~= b);
    } else {
        assert((a + b).drop_first() =~= a.drop_first() + b);
        assert(height(a[0]) < h);
        lemma_dfs_seq_append(a.drop_first(), b, h);
    }
}

/// The bound on the heights does not change the walks, as long as it holds.
pub proof fn lemma_dfs_seq_bound<'a>(s: Seq<Global<'a>>, h1: nat, h2: nat)
    requires
        all_lower(s, h1),
        all_lower(s, h2),
    ensures
        dfs_seq(s, h1) == dfs_seq(s, h2),
    decreases s.len(),
{
    if s.len() > 0 {
        assert(height(s[0]) < h1 && height(s[0]) < h2);
        lemma_dfs_seq_bound(s.drop_first(), h1, h2);
    }
}

fn same_element(a: &Element, b: &Element) -> (r: bool)
    ensures
        r == (*a == *b),
    decreases *a,
{
    match (a, b) {
        (Element::Bool, Element::Bool) => true,
        (Element::Int(x), Element::Int(y)) => *x == *y,
        (Element::Float(x), Element::Float(y)) => *x == *y,
        (Element::Vector(x), Element::Vector(y)) => *x == *y,
        (Element::Matrix(x), Element::Matrix(y)) => *x == *y,
        (Element::Array(x), Element::Array(y)) => x.length == y.length && same_element(
            x.element,
            y.element,
        ),
        _ => false,
    }
}

fn same_parameters(a: &[ParameterType], b: &[ParameterType]) -> (r: bool)
    ensures
        r == (a@ == b@),
{
    if a.len() != b.len() {
        return false;
    }
    let mut i: usize = 0;
    while i < a.len()
        invariant
            i <= a@.len(),
            a@.len() == b@.len(),
            forall|j: int| 0 <= j < i ==> a@[j] == b@[j],
        decreases a@.len() - i,
    {
        if a[i] != b[i] {
            return false;
        }
        i += 1;
    }
    assert(a@ =~= b@);
    true
}

impl<'a> Global<'a> {
    /// The globals that this one refers to, in the order in which they are visited.
    pub open spec fn children(self) -> Seq<Global<'a>> {
        match self {
            Self::TypeVector(d) => seq![scalar_global(d.scalar_type)],
            Self::TypeMatrix(d) => seq![Self::TypeVector(d.vector)],
            Self::TypeArray(d) => seq![
                Self::Constant(ConstantDetails::Unsigned32(d.length)),
                elem_global(*d.element),
            ],
            Self::TypeRuntimeArray(d) => seq![elem_global(*d.element)],
            Self::TypePointer(d) => seq![pointee_global(d.pointer_type)],
            Self::TypeFunction(d) => seq![d.return_type.global()] + parameter_globals(
                d.parameter_types@,
            ),
            Self::ConstantTrue => seq![Self::TypeBool],
            Self::ConstantFalse => seq![Self::TypeBool],
            Self::Constant(c) => seq![constant_type(c)],
            Self::Variable(d) => seq![Self::TypePointer(d.pointer)] + match d.initializer {
                Some(i) => seq![initializer_global(i)],
                None => seq![],
            },
            _ => seq![],
        }
    }

    /// Whether the declarations of `self` can be written out: the library has no encoding
    /// for samplers, and a function type's operand count must fit the first word.
    pub open spec fn is_encodable(self) -> bool {
        match self {
            Self::TypeSampler => false,
            Self::TypeFunction(d) => (d.parameter_types@.len() as u16) + 3 <= u16::MAX,
            _ => true,
        }
    }

    /// The words that declare `self`.
    pub open spec fn instructions(self) -> Seq<GlobalInstruction<'a>> {
        match self {
            Self::TypeVoid => seq![
                GlobalInstruction::Word(OpcodeName::TypeVoid.word0(0)),
                GlobalInstruction::Result,
            ],
            Self::TypeBool => seq![
                GlobalInstruction::Word(OpcodeName::TypeBool.word0(0)),
                GlobalInstruction::Result,
            ],
            Self::TypeInt(d) => seq![
                GlobalInstruction::Word(OpcodeName::TypeInt.word0(0)),
                GlobalInstruction::Result,
                GlobalInstruction::Word(d.bit_width),
                GlobalInstruction::Word(if d.is_signed { 1 } else { 0 }),
            ],
            Self::TypeFloat(d) => seq![
                GlobalInstruction::Word(OpcodeName::TypeFloat.word0(0)),
                GlobalInstruction::Result,
                GlobalInstruction::Word(d.bit_width),
            ],
            Self::TypeVector(d) => seq![
                GlobalInstruction::Word(OpcodeName::TypeVector.word0(0)),
                GlobalInstruction::Result,
                GlobalInstruction::SubGlobal(scalar_global(d.scalar_type)),
                GlobalInstruction::Word(d.count),
            ],
            Self::TypeMatrix(d) => seq![
                GlobalInstruction::Word(OpcodeName::TypeMatrix.word0(0)),
                GlobalInstruction::Result,
                GlobalInstruction::SubGlobal(Self::TypeVector(d.vector)),
                GlobalInstruction::Word(d.count),
            ],
            Self::TypeSampler => seq![
                GlobalInstruction::Word(OpcodeName::TypeSampler.word0(0)),
                GlobalInstruction::Result,
            ],
            Self::TypeArray(d) => seq![
                GlobalInstruction::Word(OpcodeName::TypeArray.word0(0)),
                GlobalInstruction::Result,
                GlobalInstruction::SubGlobal(elem_global(*d.element)),
                GlobalInstruction::SubGlobal(
                    Self::Constant(ConstantDetails::Unsigned32(d.length)),
                ),
            ],
            Self::TypeRuntimeArray(d) => seq![
                GlobalInstruction::Word(OpcodeName::TypeRuntimeArray.word0(0)),
                GlobalInstruction::Result,
                GlobalInstruction::SubGlobal(elem_global(*d.element)),
            ],
            Self::TypePointer(d) => seq![
                GlobalInstruction::Word(OpcodeName::TypePointer.word0(0)),
                GlobalInstruction::Result,
                GlobalInstruction::Word(d.storage_class.word()),
                GlobalInstruction::SubGlobal(pointee_global(d.pointer_type)),
            ],
            Self::TypeFunction(d) => seq![
                GlobalInstruction::Word(
                    OpcodeName::TypeFunction.word0(d.parameter_types@.len() as u16),
                ),
                GlobalInstruction::Result,
                GlobalInstruction::SubGlobal(d.return_type.global()),
            ] + parameter_globals(d.parameter_types@).map_values(
                |g: Global<'a>| GlobalInstruction::SubGlobal(g),
            ),
            Self::ConstantTrue => seq![
                GlobalInstruction::Word(OpcodeName::ConstantTrue.word0(0)),
                GlobalInstruction::Result,
                GlobalInstruction::SubGlobal(Self::TypeBool),
            ],
            Self::ConstantFalse => seq![
                GlobalInstruction::Word(OpcodeName::ConstantFalse.word0(0)),
                GlobalInstruction::Result,
                GlobalInstruction::SubGlobal(Self::TypeBool),
            ],
            Self::Constant(c) => match c {
                ConstantDetails::Int32(v) => seq![
                    GlobalInstruction::Word(OpcodeName::Constant.word0(0)),
                    GlobalInstruction::Result,
                    GlobalInstruction::SubGlobal(constant_type(c)),
                    GlobalInstruction::Word(v as Word),
                ],
                ConstantDetails::Int64(v) => seq![
                    GlobalInstruction::Word(OpcodeName::Constant.word0(1)),
                    GlobalInstruction::Result,
                    GlobalInstruction::SubGlobal(constant_type(c)),
                    GlobalInstruction::Word(((v as u64) & 0xFFFFFFFF) as Word),
                    GlobalInstruction::Word(((v as u64) >> 32) as Word),
                ],
                ConstantDetails::Unsigned32(v) => seq![
                    GlobalInstruction::Word(OpcodeName::Constant.word0(0)),
                    GlobalInstruction::Result,
                    GlobalInstruction::SubGlobal(constant_type(c)),
                    GlobalInstruction::Word(v),
                ],
                ConstantDetails::Unsigned64(v) => seq![
                    GlobalInstruction::Word(OpcodeName::Constant.word0(1)),
                    GlobalInstruction::Result,
                    GlobalInstruction::SubGlobal(constant_type(c)),
                    GlobalInstruction::Word((v & 0xFFFFFFFF) as Word),
                    GlobalInstruction::Word((v >> 32) as Word),
                ],
                ConstantDetails::Float32(f) => seq![
                    GlobalInstruction::Word(OpcodeName::Constant.word0(0)),
                    GlobalInstruction::Result,
                    GlobalInstruction::SubGlobal(constant_type(c)),
                    GlobalInstruction::Word(f.literal),
                ],
                ConstantDetails::Float64(f) => seq![
                    GlobalInstruction::Word(OpcodeName::Constant.word0(1)),
                    GlobalInstruction::Result,
                    GlobalInstruction::SubGlobal(constant_type(c)),
                    GlobalInstruction::Word((f.literal & 0xFFFFFFFF) as Word),
                    GlobalInstruction::Word((f.literal >> 32) as Word),
                ],
            },
            Self::Variable(d) => seq![
                GlobalInstruction::Word(
                    OpcodeName::Variable.word0(if d.initializer is Some { 1 } else { 0 }),
                ),
                GlobalInstruction::SubGlobal(Self::TypePointer(d.pointer)),
                GlobalInstruction::Result,
                GlobalInstruction::Word(d.pointer.storage_class.word()),
            ] + match d.initializer {
                Some(i) => seq![GlobalInstruction::SubGlobal(initializer_global(i))],
                None => seq![],
            },
        }
    }

    /// The globals still to visit: the current one, then those on the stack from the top.
    pub open spec fn pending(current: Option<Global<'a>>, stack: Seq<Global<'a>>) -> Seq<Global<'a>> {
        match current {
            Some(c) => seq![c] + stack.reverse(),
            None => stack.reverse(),
        }
    }

    /// Returns the first global that `self` refers to and pushes the others, so that the
    /// next to visit is on top.
    fn get_sub_global(&self, multi_stack: &mut Vec<Self>) -> (r: Option<Self>)
        ensures
            Self::pending(r, final(multi_stack)@) == self.children() + old(multi_stack)@.reverse(),
    {
        let ghost old_stack = multi_stack@;
        let r = match self {
            Self::TypeVector(details) => match details.scalar_type {
                ScalarType::Bool => Some(Self::TypeBool),
                ScalarType::Int(a) => Some(Self::TypeInt(a)),
                ScalarType::Float(a) => Some(Self::TypeFloat(a)),
            },
            Self::TypeMatrix(details) => Some(Self::TypeVector(details.vector)),
            Self::TypeArray(details) => {
                multi_stack.push(
                    match *details.element {
                        Element::Bool => Self::TypeBool,
                        Element::Int(a) => Self::TypeInt(a),
                        Element::Float(a) => Self::TypeFloat(a),
                        Element::Vector(a) => Self::TypeVector(a),
                        Element::Matrix(a) => Self::TypeMatrix(a),
                        Element::Array(a) => Self::TypeArray(a),
                    },
                );
                Some(Self::Constant(ConstantDetails::Unsigned32(details.length)))
            },
            Self::TypeRuntimeArray(details) => match *details.element {
                Element::Bool => Some(Self::TypeBool),
                Element::Int(a) => Some(Self::TypeInt(a)),
                Element::Float(a) => Some(Self::TypeFloat(a)),
                Element::Vector(a) => Some(Self::TypeVector(a)),
                Element::Matrix(a) => Some(Self::TypeMatrix(a)),
                Element::Array(a) => Some(Self::TypeArray(a)),
            },
            Self::TypePointer(details) => match details.pointer_type {
                PointerType::Bool => Some(Self::TypeBool),
                PointerType::Int(a) => Some(Self::TypeInt(a)),
                PointerType::Float(a) => Some(Self::TypeFloat(a)),
                PointerType::Vector(a) => Some(Self::TypeVector(a)),
            },
            Self::TypeFunction(details) => {
                let params = details.parameter_types;
                let mut i: usize = params.len();
                while i > 0
                    invariant
                        i <= params@.len(),
                        multi_stack@ == old_stack + parameter_globals(params@).subrange(
                            i as int,
                            params@.len() as int,
                        ).reverse(),
                    decreases i,
                {
                    i = i - 1;
                    multi_stack.push(params[i].get_global());
                    assert(multi_stack@ =~= old_stack + parameter_globals(params@).subrange(
                        i as int,
                        params@.len() as int,
                    ).reverse());
                }
                assert(parameter_globals(params@).subrange(0, params@.len() as int)
                    =~= parameter_globals(params@));
                Some(details.return_type.get_global())
            },
            Self::ConstantTrue => Some(Self::TypeBool),
            Self::ConstantFalse => Some(Self::TypeBool),
            Self::Constant(details) => match details {
                ConstantDetails::Int32(_) => Some(
                    Self::TypeInt(TypeIntDetails { bit_width: 32, is_signed: true }),
                ),
                ConstantDetails::Int64(_) => Some(
                    Self::TypeInt(TypeIntDetails { bit_width: 64, is_signed: true }),
                ),
                ConstantDetails::Unsigned32(_) => Some(
                    Self::TypeInt(TypeIntDetails { bit_width: 32, is_signed: false }),
                ),
                ConstantDetails::Unsigned64(_) => Some(
                    Self::TypeInt(TypeIntDetails { bit_width: 64, is_signed: false }),
                ),
                ConstantDetails::Float32(_) => Some(
                    Self::TypeFloat(TypeFloatDetails { bit_width: 32 }),
                ),
                ConstantDetails::Float64(_) => Some(
                    Self::TypeFloat(TypeFloatDetails { bit_width: 64 }),
                ),
            },
            Self::Variable(details) => {
                if let Some(init) = details.initializer {
                    multi_stack.push(
                        match init {
                            InitializerType::True => Self::ConstantTrue,
                            InitializerType::False => Self::ConstantFalse,
                            InitializerType::Constant(a) => Self::Constant(a),
                        },
                    );
                }
                Some(Self::TypePointer(details.pointer))
            },
            _ => None,
        };
        assert(Self::pending(r, multi_stack@) =~= self.children() + old_stack.reverse());
        r
    }

    /// Pushes every global that `self` refers to, directly or not, in the order of a
    /// pre-order walk.
    pub fn push_sub_globals(&self, global_stack: &mut Vec<Self>)
        ensures
            final(global_stack)@ == old(global_stack)@ + sub_globals(*self),
    {
        let ghost h = height(*self);
        let ghost start = global_stack@;
        let mut multi_stack: Vec<Self> = Vec::new();
        let mut sub_global = self.get_sub_global(&mut multi_stack);
        proof {
            lemma_children_lower(*self);
            assert(Seq::<Self>::empty().reverse() =~= Seq::<Self>::empty());
            assert(self.children() + Seq::<Self>::empty() =~= self.children());
            assert(sub_globals(*self) == dfs_seq(self.children(), h));
        }
        loop
            invariant
                all_lower(Self::pending(sub_global, multi_stack@), h),
                global_stack@ + dfs_seq(Self::pending(sub_global, multi_stack@), h) == start
                    + sub_globals(*self),
            ensures
                global_stack@ == start + sub_globals(*self),
            decreases dfs_seq(Self::pending(sub_global, multi_stack@), h).len(),
                if sub_global is None { 1int } else { 0int },
        {
            let ghost pend = Self::pending(sub_global, multi_stack@);
            match sub_global {
                Some(sg) => {
                    let ghost rest = multi_stack@.reverse();
                    global_stack.push(sg);
                    sub_global = sg.get_sub_global(&mut multi_stack);
                    proof {
                        assert(pend[0] == sg);
                        assert(pend.drop_first() =~= rest);
                        lemma_children_lower(sg);
                        let c = sg.children();
                        assert(all_lower(c, h));
                        lemma_dfs_seq_append(c, rest, h);
                        lemma_dfs_seq_bound(c, height(sg), h);
                        assert(dfs(sg) =~= seq![sg] + dfs_seq(c, height(sg)));
                    }
                },
                None => {
                    match multi_stack.pop() {
                        Some(ms) => {
                            sub_global = Some(ms);
                            assert(Self::pending(sub_global, multi_stack@) =~= pend);
                        },
                        None => {
                            assert(pend =~= Seq::<Self>::empty());
                            assert(global_stack@ + Seq::<Self>::empty() =~= global_stack@);
                            break ;
                        },
                    }
                },
            }
        }
    }

    /// Appends the words that declare `self`.
    pub fn get_instructions(&self, global_instructions: &mut Vec<GlobalInstruction<'a>>)
        requires
            self.is_encodable(),
        ensures
            final(global_instructions)@ == old(global_instructions)@ + self.instructions(),
    {
        let ghost start = global_instructions@;
        match self {
            Self::TypeVoid => {
                global_instructions.push(
                    GlobalInstruction::Word(OpcodeName::TypeVoid.get_fixed_word0()),
                );
                global_instructions.push(GlobalInstruction::Result);
            },
            Self::TypeBool => {
                global_instructions.push(
                    GlobalInstruction::Word(OpcodeName::TypeBool.get_fixed_word0()),
                );
                global_instructions.push(GlobalInstruction::Result);
            },
            Self::TypeInt(details) => {
                global_instructions.push(
                    GlobalInstruction::Word(OpcodeName::TypeInt.get_fixed_word0()),
                );
                global_instructions.push(GlobalInstruction::Result);
                global_instructions.push(GlobalInstruction::Word(details.bit_width));
                global_instructions.push(
                    GlobalInstruction::Word(
                        if details.is_signed {
                            1
                        } else {
                            0
                        },
                    ),
                );
            },
            Self::TypeFloat(details) => {
                global_instructions.push(
                    GlobalInstruction::Word(OpcodeName::TypeFloat.get_fixed_word0()),
                );
                global_instructions.push(GlobalInstruction::Result);
                global_instructions.push(GlobalInstruction::Word(details.bit_width));
            },
            Self::TypeVector(details) => {
                global_instructions.push(
                    GlobalInstruction::Word(OpcodeName::TypeVector.get_fixed_word0()),
                );
                global_instructions.push(GlobalInstruction::Result);
                let scalar = match details.scalar_type {
                    ScalarType::Bool => Self::TypeBool,
                    ScalarType::Int(a) => Self::TypeInt(a),
                    ScalarType::Float(a) => Self::TypeFloat(a),
                };
                global_instructions.push(GlobalInstruction::SubGlobal(scalar));
                global_instructions.push(GlobalInstruction::Word(details.count));
            },
            Self::TypeMatrix(details) => {
                global_instructions.push(
                    GlobalInstruction::Word(OpcodeName::TypeMatrix.get_fixed_word0()),
                );
                global_instructions.push(GlobalInstruction::Result);
                let vector = Self::TypeVector(details.vector);
                global_instructions.push(GlobalInstruction::SubGlobal(vector));
                global_instructions.push(GlobalInstruction::Word(details.count));
            },
            Self::TypeSampler => {},
            Self::TypeArray(details) => {
                global_instructions.push(
                    GlobalInstruction::Word(OpcodeName::TypeArray.get_fixed_word0()),
                );
                global_instructions.push(GlobalInstruction::Result);
                let element = match *details.element {
                    Element::Bool => Self::TypeBool,
                    Element::Int(a) => Self::TypeInt(a),
                    Element::Float(a) => Self::TypeFloat(a),
                    Element::Vector(a) => Self::TypeVector(a),
                    Element::Matrix(a) => Self::TypeMatrix(a),
                    Element::Array(a) => Self::TypeArray(a),
                };
                global_instructions.push(GlobalInstruction::SubGlobal(element));
                let length = Self::Constant(ConstantDetails::Unsigned32(details.length));
                global_instructions.push(GlobalInstruction::SubGlobal(length));
            },
            Self::TypeRuntimeArray(details) => {
                global_instructions.push(
                    GlobalInstruction::Word(OpcodeName::TypeRuntimeArray.get_fixed_word0()),
                );
                global_instructions.push(GlobalInstruction::Result);
                let element = match *details.element {
                    Element::Bool => Self::TypeBool,
                    Element::Int(a) => Self::TypeInt(a),
                    Element::Float(a) => Self::TypeFloat(a),
                    Element::Vector(a) => Self::TypeVector(a),
                    Element::Matrix(a) => Self::TypeMatrix(a),
                    Element::Array(a) => Self::TypeArray(a),
                };
                global_instructions.push(GlobalInstruction::SubGlobal(element));
            },
            Self::TypePointer(details) => {
                global_instructions.push(
                    GlobalInstruction::Word(OpcodeName::TypePointer.get_fixed_word0()),
                );
                global_instructions.push(GlobalInstruction::Result);
                global_instructions.push(
                    GlobalInstruction::Word(details.storage_class.get_word()),
                );
                let pointer_type = match details.pointer_type {
                    PointerType::Bool => Self::TypeBool,
                    PointerType::Int(a) => Self::TypeInt(a),
                    PointerType::Float(a) => Self::TypeFloat(a),
                    PointerType::Vector(a) => Self::TypeVector(a),
                };
                global_instructions.push(GlobalInstruction::SubGlobal(pointer_type));
            },
            Self::TypeFunction(details) => {
                let params = details.parameter_types;
                global_instructions.push(
                    GlobalInstruction::Word(
                        OpcodeName::TypeFunction.get_word0(params.len() as u16),
                    ),
                );
                global_instructions.push(GlobalInstruction::Result);
                let return_type = details.return_type.get_global();
                global_instructions.push(GlobalInstruction::SubGlobal(return_type));
                let ghost head = global_instructions@;
                let mut i: usize = 0;
                while i < params.len()
                    invariant
                        i <= params@.len(),
                        global_instructions@ == head + parameter_globals(params@).take(
                            i as int,
                        ).map_values(|g: Global<'a>| GlobalInstruction::SubGlobal(g)),
                    decreases params@.len() - i,
                {
                    global_instructions.push(GlobalInstruction::SubGlobal(params[i].get_global()));
                    i = i + 1;
                    assert(global_instructions@ =~= head + parameter_globals(params@).take(
                        i as int,
                    ).map_values(|g: Global<'a>| GlobalInstruction::SubGlobal(g)));
                }
                assert(parameter_globals(params@).take(params@.len() as int)
                    =~= parameter_globals(params@));
            },
            Self::ConstantTrue => {
                global_instructions.push(
                    GlobalInstruction::Word(OpcodeName::ConstantTrue.get_fixed_word0()),
                );
                global_instructions.push(GlobalInstruction::Result);
                global_instructions.push(GlobalInstruction::SubGlobal(Self::TypeBool));
            },
            Self::ConstantFalse => {
                global_instructions.push(
                    GlobalInstruction::Word(OpcodeName::ConstantFalse.get_fixed_word0()),
                );
                global_instructions.push(GlobalInstruction::Result);
                global_instructions.push(GlobalInstruction::SubGlobal(Self::TypeBool));
            },
            Self::Constant(details) => match *details {
                ConstantDetails::Int32(v) => {
                    global_instructions.push(
                        GlobalInstruction::Word(OpcodeName::Constant.get_word0(0)),
                    );
                    global_instructions.push(GlobalInstruction::Result);
                    global_instructions.push(
                        GlobalInstruction::SubGlobal(
                            Self::TypeInt(TypeIntDetails { bit_width: 32, is_signed: true }),
                        ),
                    );
                    global_instructions.push(GlobalInstruction::Word(v as Word));
                },
                ConstantDetails::Int64(v) => {
                    global_instructions.push(
                        GlobalInstruction::Word(OpcodeName::Constant.get_word0(1)),
                    );
                    global_instructions.push(GlobalInstruction::Result);
                    global_instructions.push(
                        GlobalInstruction::SubGlobal(
                            Self::TypeInt(TypeIntDetails { bit_width: 64, is_signed: true }),
                        ),
                    );
                    let literal0: Word = ((v as u64) & 0xFFFFFFFF) as Word;
                    let literal1: Word = ((v as u64) >> 32) as Word;
                    global_instructions.push(GlobalInstruction::Word(literal0));
                    global_instructions.push(GlobalInstruction::Word(literal1));
                },
                ConstantDetails::Unsigned32(v) => {
                    global_instructions.push(
                        GlobalInstruction::Word(OpcodeName::Constant.get_word0(0)),
                    );
                    global_instructions.push(GlobalInstruction::Result);
                    global_instructions.push(
                        GlobalInstruction::SubGlobal(
                            Self::TypeInt(TypeIntDetails { bit_width: 32, is_signed: false }),
                        ),
                    );
                    global_instructions.push(GlobalInstruction::Word(v));
                },
                ConstantDetails::Unsigned64(v) => {
                    global_instructions.push(
                        GlobalInstruction::Word(OpcodeName::Constant.get_word0(1)),
                    );
                    global_instructions.push(GlobalInstruction::Result);
                    global_instructions.push(
                        GlobalInstruction::SubGlobal(
                            Self::TypeInt(TypeIntDetails { bit_width: 64, is_signed: false }),
                        ),
                    );
                    let literal0: Word = (v & 0xFFFFFFFF) as Word;
                    let literal1: Word = (v >> 32) as Word;
                    global_instructions.push(GlobalInstruction::Word(literal0));
                    global_instructions.push(GlobalInstruction::Word(literal1));
                },
                ConstantDetails::Float32(f) => {
                    global_instructions.push(
                        GlobalInstruction::Word(OpcodeName::Constant.get_word0(0)),
                    );
                    global_instructions.push(GlobalInstruction::Result);
                    global_instructions.push(
                        GlobalInstruction::SubGlobal(
                            Self::TypeFloat(TypeFloatDetails { bit_width: 32 }),
                        ),
                    );
                    global_instructions.push(GlobalInstruction::Word(f.literal));
                },
                ConstantDetails::Float64(f) => {
                    global_instructions.push(
                        GlobalInstruction::Word(OpcodeName::Constant.get_word0(1)),
                    );
                    global_instructions.push(GlobalInstruction::Result);
                    global_instructions.push(
                        GlobalInstruction::SubGlobal(
                            Self::TypeFloat(TypeFloatDetails { bit_width: 64 }),
                        ),
                    );
                    let literal0: Word = (f.literal & 0xFFFFFFFF) as Word;
                    let literal1: Word = (f.literal >> 32) as Word;
                    global_instructions.push(GlobalInstruction::Word(literal0));
                    global_instructions.push(GlobalInstruction::Word(literal1));
                },
            },
            Self::Variable(details) => {
                global_instructions.push(
                    GlobalInstruction::Word(
                        OpcodeName::Variable.get_word0(
                            if details.initializer.is_some() {
                                1
                            } else {
                                0
                            },
                        ),
                    ),
                );
                let pointer = Self::TypePointer(details.pointer);
                global_instructions.push(GlobalInstruction::SubGlobal(pointer));
                global_instructions.push(GlobalInstruction::Result);
                global_instructions.push(
                    GlobalInstruction::Word(details.pointer.storage_class.get_word()),
                );
                if let Some(init) = details.initializer {
                    global_instructions.push(
                        GlobalInstruction::SubGlobal(
                            match init {
                                InitializerType::True => Self::ConstantTrue,
                                InitializerType::False => Self::ConstantFalse,
                                InitializerType::Constant(a) => Self::Constant(a),
                            },
                        ),
                    );
                }
            },
        }
        assert(global_instructions@ =~= start + self.instructions());
    }

    /// Whether `self` and `other` are the same global.
    pub fn same(&self, other: &Self) -> (r: bool)
        ensures
            r == (*self == *other),
    {
        match (self, other) {
            (Self::TypeVoid, Self::TypeVoid) => true,
            (Self::TypeBool, Self::TypeBool) => true,
            (Self::TypeInt(a), Self::TypeInt(b)) => *a == *b,
            (Self::TypeFloat(a), Self::TypeFloat(b)) => *a == *b,
            (Self::TypeVector(a), Self::TypeVector(b)) => *a == *b,
            (Self::TypeMatrix(a), Self::TypeMatrix(b)) => *a == *b,
            (Self::TypeSampler, Self::TypeSampler) => true,
            (Self::TypeArray(a), Self::TypeArray(b)) => a.length == b.length && same_element(
                a.element,
                b.element,
            ),
            (Self::TypeRuntimeArray(a), Self::TypeRuntimeArray(b)) => same_element(
                a.element,
                b.element,
            ),
            (Self::TypePointer(a), Self::TypePointer(b)) => *a == *b,
            (Self::TypeFunction(a), Self::TypeFunction(b)) => {
                let same_params = same_parameters(a.parameter_types, b.parameter_types);
                proof {
                    if same_params {
                        assert(a.parameter_types =~= b.parameter_types);
                    }
                }
                a.return_type == b.return_type && same_params
            },
            (Self::ConstantTrue, Self::ConstantTrue) => true,
            (Self::ConstantFalse, Self::ConstantFalse) => true,
            (Self::Constant(a), Self::Constant(b)) => *a == *b,
            (Self::Variable(a), Self::Variable(b)) => *a == *b,
            _ => false,
        }
    }
}

impl<'a> Global<'a> {
    /// The opcode of the instruction that declares `self`.
    pub open spec fn opcode_name(self) -> OpcodeName {
        match self {
            Self::TypeVoid => OpcodeName::TypeVoid,
            Self::TypeBool => OpcodeName::TypeBool,
            Self::TypeInt(_) => OpcodeName::TypeInt,
            Self::TypeFloat(_) => OpcodeName::TypeFloat,
            Self::TypeVector(_) => OpcodeName::TypeVector,
            Self::TypeMatrix(_) => OpcodeName::TypeMatrix,
            Self::TypeSampler => OpcodeName::TypeSampler,
            Self::TypeArray(_) => OpcodeName::TypeArray,
            Self::TypeRuntimeArray(_) => OpcodeName::TypeRuntimeArray,
            Self::TypePointer(_) => OpcodeName::TypePointer,
            Self::TypeFunction(_) => OpcodeName::TypeFunction,
            Self::ConstantTrue => OpcodeName::ConstantTrue,
            Self::ConstantFalse => OpcodeName::ConstantFalse,
            Self::Constant(_) => OpcodeName::Constant,
            Self::Variable(_) => OpcodeName::Variable,
        }
    }
}

proof fn lemma_word0_halves(opcode: u16, word_count: u16)
    ensures
        encode_word0(opcode, word_count) as int / 0x10000 == word_count,
        encode_word0(opcode, word_count) as int % 0x10000 == opcode,
{
    let v: int = word_count as int * 0x10000 + opcode as int;
    assert(0 <= v <= u32::MAX) by (nonlinear_arith)
        requires
            v == word_count as int * 0x10000 + opcode as int,
            word_count <= 0xFFFF,
            opcode <= 0xFFFF,
    ;
    assert(encode_word0(opcode, word_count) == v);
    assert(v / 0x10000 == word_count && v % 0x10000 == opcode) by (nonlinear_arith)
        requires
            v == word_count as int * 0x10000 + opcode as int,
            0 <= opcode < 0x10000,
    ;
}

/// The declaration of a global opens with a word whose high half is the number of words of
/// the declaration and whose low half is the opcode of the global's instruction, and holds
/// exactly one place for the global's own id.
pub proof fn law_declaration_word_count(g: Global)
    requires
        g.is_encodable(),
        g.instructions().len() <= u16::MAX,
    ensures
        g.instructions().len() >= 2,
        g.instructions()[0] matches GlobalInstruction::Word(w) && w as int / 0x10000
            == g.instructions().len() && w as int % 0x10000 == g.opcode_name().opcode(),
        exists|k: int|
            0 <= k < g.instructions().len() && g.instructions()[k] is Result && forall|m: int|
                0 <= m < g.instructions().len() && m != k ==> !(#[trigger] g.instructions()[m] is Result),
{
    let ins = g.instructions();
    let k: int = if g is Variable { 2 } else { 1 };
    let op = g.opcode_name();
    let extra: u16 = (ins.len() - op.word_count().unwrap().0) as u16;
    assert(ins[0] == GlobalInstruction::Word(op.word0(extra)));
    lemma_word0_halves(op.opcode(), ins.len() as u16);
    match g {
        Global::TypeFunction(d) => {
            let n = d.parameter_types@.len();
            assert(ins.len() == 3 + n);
            assert forall|m: int| 0 <= m < ins.len() && m != k implies !(#[trigger] ins[m] is Result) by {
                if m >= 3 {
                    assert(ins[m] == GlobalInstruction::SubGlobal(
                        parameter_globals(d.parameter_types@)[m - 3],
                    ));
                }
            }
        },
        Global::Variable(d) => {
            match d.initializer {
                Some(i) => {
                    assert(ins[4] == GlobalInstruction::SubGlobal(initializer_global(i)));
                },
                None => {},
            }
        },
        _ => {},
    }
    assert(ins[k] is Result);
}

/// The globals that the declaration of `g` names as operands are those that `g` refers to.
pub proof fn lemma_operands_are_children<'a>(g: Global<'a>, i: int)
    requires
        0 <= i < g.instructions().len(),
        g.instructions()[i] is SubGlobal,
    ensures
        exists|k: int| 0 <= k < g.children().len() && GlobalInstruction::SubGlobal(g.children()[k]) == g.instructions()[i],
{
    match g {
        Global::TypeFunction(d) => {
            if i >= 3 {
                assert(g.instructions()[i] == GlobalInstruction::SubGlobal(
                    parameter_globals(d.parameter_types@)[i - 3],
                ));
                assert(g.children()[i - 2] == parameter_globals(d.parameter_types@)[i - 3]);
            } else {
                assert(g.children()[0] == d.return_type.global());
            }
        },
        Global::Variable(d) => {
            assert(g.children()[0] == Global::TypePointer(d.pointer));
            match d.initializer {
                Some(init) => {
                    if i == 4 {
                        assert(g.children()[1] == initializer_global(init));
                    }
                },
                None => {},
            }
        },
        Global::TypeArray(d) => {
            assert(g.children()[0] == Global::Constant(ConstantDetails::Unsigned32(d.length)));
            assert(g.children()[1] == elem_global(*d.element));
        },
        _ => {},
    }
}

impl<'a> EnablingCapabilities for Global<'a> {
    open spec fn required_capabilities(&self) -> Seq<Capability> {
        match self {
            Self::TypeMatrix(_) => seq![Capability::Matrix],
            Self::TypeRuntimeArray(_) => seq![Capability::Shader],
            _ => seq![],
        }
    }

    fn get_required_capabilities(&self, capabilities: &mut [Capability]) -> (n: usize) {
        match self {
            Self::TypeMatrix(_) => {
                capabilities[0] = Capability::Matrix;
                assert(capabilities@.take(1) =~= self.required_capabilities());
                assert(capabilities@.skip(1) =~= old(capabilities)@.skip(1));
                1
            },
            Self::TypeRuntimeArray(_) => {
                capabilities[0] = Capability::Shader;
                assert(capabilities@.take(1) =~= self.required_capabilities());
                assert(capabilities@.skip(1) =~= old(capabilities)@.skip(1));
                1
            },
            _ => {
                assert(capabilities@.take(0) =~= self.required_capabilities());
                assert(capabilities@.skip(0) =~= old(capabilities)@.skip(0));
                0
            },
        }
    }
}

} // verus!
