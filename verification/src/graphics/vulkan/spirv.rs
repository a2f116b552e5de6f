//! Building SPIR-V modules: capabilities, ids, global declarations, entry points and
//! functions, and the word stream that encodes a module.

use vstd::prelude::*;

pub mod def;
mod declarations;

use self::declarations::GlobalDeclarations;
pub use self::declarations::{
    all_encodable, declaration_words, declarations_words, declare, declare_seq, declare_stack,
    declarations_wf, declared_id, law_declare, law_declare_idempotent,
    law_declare_keeps_declarations_consistent, law_declaring_a_global, law_sub_globals_follow_dependencies, operands_follow, lemma_lookup_append, lemma_lookup_some, lookup,
};
use self::def::{
    str_words, BuiltIn, Capability, Decoration, EnablingCapabilities, ExecutionMode,
    ExecutionModel, FragmentBuiltIn, FragmentExecutionMode, Global, LocalVariableType,
    OpcodeName, ParameterType, PointerType, ReturnType, StorageClass, TypeFunctionDetails,
    TypePointerDetails, VariableDetails, Word,
};
use vstd::string::StringSliceAdditionalSpecFns;
use vstd::string::is_ascii;
use vstd::utf8::is_char_boundary;

verus! {

#[derive(Debug)]
pub enum Error {
    InvalidGlobal,
    UnsupportedExecutionModel,
    InvalidName,
    InvalidCapability,
}

/// Some capability in `declared` declares `capability`, itself or implicitly.
pub open spec fn declares(declared: Seq<Capability>, capability: Capability) -> bool {
    exists|i: int| 0 <= i < declared.len() && (#[trigger] declared[i]).enables(capability)
}

/// The capabilities after adding `capability`: unchanged when it is already declared.
pub open spec fn with_capability(declared: Seq<Capability>, capability: Capability) -> Seq<
    Capability,
> {
    if declares(declared, capability) {
        declared
    } else {
        declared.push(capability)
    }
}

/// The capabilities after adding each of `added` in turn.
pub open spec fn with_capabilities(declared: Seq<Capability>, added: Seq<Capability>) -> Seq<
    Capability,
>
    decreases added.len(),
{
    if added.len() == 0 {
        declared
    } else {
        with_capability(with_capabilities(declared, added.drop_last()), added.last())
    }
}

/// The `OpCapability` instructions that declare `capabilities`.
pub open spec fn capability_words(capabilities: Seq<Capability>) -> Seq<Word>
    decreases capabilities.len(),
{
    if capabilities.len() == 0 {
        seq![]
    } else {
        capability_words(capabilities.drop_last()) + seq![
            OpcodeName::Capability.word0(0),
            capabilities.last().word(),
        ]
    }
}

/// Adding a capability declares it, and every capability declared before stays declared.
pub proof fn law_add_capability(declared: Seq<Capability>, capability: Capability)
    ensures
        declares(with_capability(declared, capability), capability),
        forall|other: Capability| declares(declared, other) ==> declares(
            with_capability(declared, capability),
            other,
        ),
{
    let after = with_capability(declared, capability);
    if !declares(declared, capability) {
        assert(after[after.len() - 1].enables(capability));
        assert forall|other: Capability| declares(declared, other) implies declares(after, other) by {
            let i = choose|i: int| 0 <= i < declared.len() && (#[trigger] declared[i]).enables(other);
            assert(after[i] == declared[i]);
        }
    }
}

/// Declaring a capability declares everything that it declares implicitly, through any
/// number of steps.
pub proof fn law_implicit_capabilities_declared(declared: Seq<Capability>, c: Capability, implied: Capability)
    requires
        declares(declared, c),
        c.enables(implied),
    ensures
        declares(declared, implied),
{
    let i = choose|i: int| 0 <= i < declared.len() && (#[trigger] declared[i]).enables(c);
    lemma_enables_transitive(declared[i], c, implied);
}

/// `enables` is transitive.
proof fn lemma_enables_transitive(a: Capability, b: Capability, c: Capability)
    requires
        a.enables(b),
        b.enables(c),
    ensures
        a.enables(c),
    decreases a.implicit_depth(),
{
    if a != b {
        let next = a.implicit().unwrap();
        lemma_enables_transitive(next, b, c);
    }
}

struct Capabilities {
    capabilities: Vec<Capability>,
}

impl Capabilities {
    fn new(initial_capability: Capability) -> (r: Self)
        ensures
            r.capabilities@ == seq![initial_capability],
    {
        Self { capabilities: vec![initial_capability] }
    }

    fn check_capability(&self, capability: &Capability) -> (r: bool)
        ensures
            r == declares(self.capabilities@, *capability),
    {
        let mut i: usize = 0;
        while i < self.capabilities.len()
            invariant
                i <= self.capabilities@.len(),
                forall|j: int| 0 <= j < i ==> !(#[trigger] self.capabilities@[j]).enables(*capability),
            decreases self.capabilities@.len() - i,
        {
            let c = self.capabilities[i];
            if c != *capability {
                let mut implicit_c = c.get_implicit();
                loop
                    invariant
                        c != *capability,
                        i < self.capabilities@.len(),
                        c == self.capabilities@[i as int],
                        c.enables(*capability) == (match implicit_c {
                            Some(ci) => ci.enables(*capability),
                            None => false,
                        }),
                    ensures
                        implicit_c is None,
                        !c.enables(*capability),
                    decreases match implicit_c {
                        Some(ci) => ci.implicit_depth() + 1,
                        None => 0,
                    },
                {
                    match implicit_c {
                        Some(ci) => {
                            if ci != *capability {
                                implicit_c = ci.get_implicit();
                            } else {
                                assert(ci.enables(*capability));
                                assert(self.capabilities@[i as int].enables(*capability));
                                return true;
                            }
                        },
                        None => break,
                    }
                }
            } else {
                assert(self.capabilities@[i as int].enables(*capability));
                return true;
            }
            i += 1;
        }
        false
    }

    fn add_capability(&mut self, capability: Capability)
        ensures
            final(self).capabilities@ == with_capability(old(self).capabilities@, capability),
    {
        if !self.check_capability(&capability) {
            self.capabilities.push(capability);
        }
    }

    fn add_words(&self, word_stream: &mut Vec<Word>)
        ensures
            final(word_stream)@ == old(word_stream)@ + capability_words(self.capabilities@),
    {
        let ghost start = word_stream@;
        let word0: Word = OpcodeName::Capability.get_fixed_word0();
        let mut i: usize = 0;
        while i < self.capabilities.len()
            invariant
                i <= self.capabilities@.len(),
                word0 == OpcodeName::Capability.word0(0),
                word_stream@ == start + capability_words(self.capabilities@.take(i as int)),
            decreases self.capabilities@.len() - i,
        {
            word_stream.push(word0);
            word_stream.push(self.capabilities[i].get_word());
            proof {
                let t = self.capabilities@.take(i + 1);
                assert(t.drop_last() =~= self.capabilities@.take(i as int));
            }
            i += 1;
        }
        assert(self.capabilities@.take(i as int) =~= self.capabilities@);
    }
}

/// The allocator of result ids: ids are handed out in increasing order from 1.
struct Ids {
    next_id: Word,
}

impl Ids {
    fn new() -> (r: Self)
        ensures
            r.next_id == 1,
    {
        Self { next_id: 1 }
    }

    fn get_next_id(&mut self) -> (r: Word)
        requires
            old(self).next_id < u32::MAX,
        ensures
            r == old(self).next_id,
            final(self).next_id == old(self).next_id + 1,
    {
        let id: Word = self.next_id;
        self.next_id += 1;
        id
    }

    fn get_id_bound(&self) -> (r: Word)
        ensures
            r == self.next_id,
    {
        self.next_id
    }
}

/// The words of the `OpMemoryModel` instruction.
pub open spec fn memory_model_words(
    addressing_model: def::AddressingModel,
    memory_model: def::MemoryModel,
) -> Seq<Word> {
    seq![OpcodeName::MemoryModel.word0(0), addressing_model.word(), memory_model.word()]
}

struct MemoryModel {
    addressing_model: def::AddressingModel,
    memory_model: def::MemoryModel,
}

impl MemoryModel {
    fn add_words(&self, word_stream: &mut Vec<Word>)
        ensures
            final(word_stream)@ == old(word_stream)@ + memory_model_words(
                self.addressing_model,
                self.memory_model,
            ),
    {
        let ghost start = word_stream@;
        word_stream.push(OpcodeName::MemoryModel.get_fixed_word0());
        word_stream.push(self.addressing_model.get_word());
        word_stream.push(self.memory_model.get_word());
        assert(word_stream@ =~= start + memory_model_words(
            self.addressing_model,
            self.memory_model,
        ));
    }
}


/// The longest entry point name, in bytes.
pub const MAX_UTF8_NAME_BYTE_LENGTH: usize = 31;

/// The largest char boundary of `bytes` that is at most `k`.
pub open spec fn boundary_at_most(bytes: Seq<u8>, k: int) -> int
    decreases k,
{
    if k <= 0 {
        0
    } else if is_char_boundary(bytes, k) {
        k
    } else {
        boundary_at_most(bytes, k - 1)
    }
}

/// The length of the longest prefix of whole characters of a name (in its UTF-8 bytes)
/// that fits an entry point name.
pub open spec fn entry_name_len(bytes: Seq<u8>) -> int {
    boundary_at_most(
        bytes,
        if bytes.len() < MAX_UTF8_NAME_BYTE_LENGTH {
            bytes.len() as int
        } else {
            MAX_UTF8_NAME_BYTE_LENGTH as int
        },
    )
}

/// What an entry point holds.
pub struct EntryPointView<'a> {
    pub execution_model: ExecutionModel,
    pub function_id: Word,
    pub name: Seq<u8>,
    pub interface: Seq<Global<'a>>,
    pub execution_modes: Seq<ExecutionMode>,
}

/// The number of words in the operands of `OpEntryPoint` beyond the fixed ones.
pub open spec fn entry_point_additional(ep: EntryPointView) -> u16 {
    ((ep.name.len() + 4) / 4 + ep.interface.len() - 1) as u16
}

/// The words of the `OpEntryPoint` instruction.
pub open spec fn entry_point_words<'a>(
    ep: EntryPointView<'a>,
    decls: Seq<(Global<'a>, Word)>,
) -> Seq<Word> {
    seq![
        OpcodeName::EntryPoint.word0(entry_point_additional(ep)),
        ep.execution_model.word(),
        ep.function_id,
    ] + str_words(ep.name) + ep.interface.map_values(|g: Global<'a>| lookup(decls, g).unwrap())
}

/// The words of the `OpExecutionMode` instructions of one entry point.
pub open spec fn execution_mode_words(function_id: Word, modes: Seq<ExecutionMode>) -> Seq<Word>
    decreases modes.len(),
{
    if modes.len() == 0 {
        seq![]
    } else {
        let (word, literals) = modes.last().word_and_literals();
        execution_mode_words(function_id, modes.drop_last()) + seq![
            OpcodeName::ExecutionMode.word0(literals.len() as u16),
            function_id,
            word,
        ] + literals
    }
}

/// An entry point can be written out: its name fills whole words, and its operand count
/// fits the first word, and every interface variable is declared.
pub open spec fn entry_point_writable<'a>(
    ep: EntryPointView<'a>,
    decls: Seq<(Global<'a>, Word)>,
) -> bool {
    &&& 1 <= ep.name.len() <= MAX_UTF8_NAME_BYTE_LENGTH
    &&& ep.name.len() % 4 == 0
    &&& ep.interface.len() + 8 <= usize::MAX
    &&& entry_point_additional(ep) + 4 <= u16::MAX
    &&& forall|i: int| 0 <= i < ep.interface.len() ==> lookup(decls, #[trigger] ep.interface[i]) is Some
}

struct EntryPoint<'a> {
    execution_model: ExecutionModel,
    function_id: Word,
    name: [u8; MAX_UTF8_NAME_BYTE_LENGTH],
    name_len: usize,
    interface: Vec<Global<'a>>,
    execution_modes: Vec<ExecutionMode>,
}

impl<'a> EntryPoint<'a> {
    spec fn view(&self) -> EntryPointView<'a> {
        EntryPointView {
            execution_model: self.execution_model,
            function_id: self.function_id,
            name: self.name@.take(self.name_len as int),
            interface: self.interface@,
            execution_modes: self.execution_modes@,
        }
    }

    spec fn inv(&self) -> bool {
        self.name_len <= MAX_UTF8_NAME_BYTE_LENGTH
    }

    /// The entry point, named by the longest prefix of whole characters of `name_str` that
    /// fits in 31 bytes, the rest of the name's bytes zero; an error when that prefix is
    /// empty.
    fn new(
        execution_model: ExecutionModel,
        function_id: Word,
        name_str: &str,
        interface: Vec<Global<'a>>,
        execution_modes: Vec<ExecutionMode>,
    ) -> (r: Result<Self, Error>)
        ensures
            entry_name_len(name_str.spec_bytes()) == 0 ==> r matches Err(Error::InvalidName),
            entry_name_len(name_str.spec_bytes()) > 0 ==> (r matches Ok(ep) && ep.inv() && ep.view()
                == (EntryPointView {
                execution_model,
                function_id,
                name: name_str.spec_bytes().take(entry_name_len(name_str.spec_bytes())),
                interface: interface@,
                execution_modes: execution_modes@,
            })),
            r matches Ok(ep) ==> forall|j: int|
                ep.name_len <= j < MAX_UTF8_NAME_BYTE_LENGTH ==> #[trigger] ep.name@[j] == 0,
    {
        let bytes = name_str.as_bytes();
        let mut name_len: usize = if bytes.len() < MAX_UTF8_NAME_BYTE_LENGTH {
            bytes.len()
        } else {
            MAX_UTF8_NAME_BYTE_LENGTH
        };
        let ghost full = name_len as int;
        while name_len > 0 && !name_str.is_char_boundary(name_len)
            invariant
                name_len <= full,
                full <= bytes@.len(),
                full <= MAX_UTF8_NAME_BYTE_LENGTH,
                bytes@ == name_str.spec_bytes(),
                boundary_at_most(bytes@, name_len as int) == entry_name_len(bytes@),
            decreases name_len,
        {
            name_len = name_len - 1;
        }
        if name_len == 0 {
            return Err(Error::InvalidName);
        }
        let mut name: [u8; MAX_UTF8_NAME_BYTE_LENGTH] = [0u8; MAX_UTF8_NAME_BYTE_LENGTH];
        let mut i: usize = 0;
        while i < name_len
            invariant
                i <= name_len,
                name_len <= bytes@.len(),
                name_len <= MAX_UTF8_NAME_BYTE_LENGTH,
                name@.len() == MAX_UTF8_NAME_BYTE_LENGTH,
                forall|j: int| 0 <= j < i ==> name@[j] == bytes@[j],
                forall|j: int| i <= j < MAX_UTF8_NAME_BYTE_LENGTH ==> #[trigger] name@[j] == 0,
            decreases name_len - i,
        {
            name[i] = bytes[i];
            i += 1;
        }
        assert(name@.take(name_len as int) =~= bytes@.take(name_len as int));
        Ok(Self { execution_model, function_id, name, name_len, interface, execution_modes })
    }

    fn add_words(&self, word_stream: &mut Vec<Word>, globals: &GlobalDeclarations)
        requires
            self.inv(),
            entry_point_writable(self.view(), globals.globals@),
        ensures
            final(word_stream)@ == old(word_stream)@ + entry_point_words(
                self.view(),
                globals.globals@,
            ),
    {
        let ghost start = word_stream@;
        let name_word_count: usize = (self.name_len + 4) / 4;
        let additional_arguments: u16 = (name_word_count + self.interface.len() - 1) as u16;
        let word0: Word = OpcodeName::EntryPoint.get_word0(additional_arguments);
        word_stream.push(word0);
        word_stream.push(self.execution_model.get_word());
        word_stream.push(self.function_id);
        let name_slice: &[u8] = &self.name[0..self.name_len];
        assert(name_slice@ =~= self.name@.take(self.name_len as int));
        def::add_str_bytes(name_slice, word_stream);
        let ghost head = word_stream@;
        let mut i: usize = 0;
        while i < self.interface.len()
            invariant
                i <= self.interface@.len(),
                entry_point_writable(self.view(), globals.globals@),
                word_stream@ == head + self.interface@.take(i as int).map_values(
                    |g: Global<'a>| lookup(globals.globals@, g).unwrap(),
                ),
            decreases self.interface@.len() - i,
        {
            let id: Word = globals.check_global_id(&self.interface[i]).unwrap();
            word_stream.push(id);
            i += 1;
            assert(word_stream@ =~= head + self.interface@.take(i as int).map_values(
                |g: Global<'a>| lookup(globals.globals@, g).unwrap(),
            ));
        }
        assert(self.interface@.take(i as int) =~= self.interface@);
        assert(word_stream@ =~= start + entry_point_words(self.view(), globals.globals@));
    }

    fn add_execution_mode_words(&self, word_stream: &mut Vec<Word>)
        ensures
            final(word_stream)@ == old(word_stream)@ + execution_mode_words(
                self.function_id,
                self.execution_modes@,
            ),
    {
        let ghost start = word_stream@;
        let mut literals: [Word; 8] = [0; 8];
        let mut i: usize = 0;
        while i < self.execution_modes.len()
            invariant
                i <= self.execution_modes@.len(),
                literals@.len() == 8,
                word_stream@ == start + execution_mode_words(
                    self.function_id,
                    self.execution_modes@.take(i as int),
                ),
            decreases self.execution_modes@.len() - i,
        {
            let em = &self.execution_modes[i];
            let word_and_count: (Word, u16) = em.get_word_and_literals(&mut literals);
            let mode_word: Word = word_and_count.0;
            let additional_arguments: u16 = word_and_count.1;
            let word0: Word = OpcodeName::ExecutionMode.get_word0(additional_arguments);
            let ghost before = word_stream@;
            word_stream.push(word0);
            word_stream.push(self.function_id);
            word_stream.push(mode_word);
            let mut k: usize = 0;
            while k < additional_arguments as usize
                invariant
                    k <= additional_arguments,
                    additional_arguments <= 3,
                    literals@.len() == 8,
                    literals@.take(additional_arguments as int) == em.word_and_literals().1,
                    word_stream@ == before + seq![word0, self.function_id, mode_word]
                        + literals@.take(k as int),
                decreases additional_arguments - k,
            {
                word_stream.push(literals[k]);
                k += 1;
                assert(word_stream@ =~= before + seq![word0, self.function_id, mode_word]
                    + literals@.take(k as int));
            }
            proof {
                assert(literals@.take(k as int) =~= em.word_and_literals().1);
                let t = self.execution_modes@.take(i + 1);
                assert(t.drop_last() =~= self.execution_modes@.take(i as int));
            }
            i += 1;
        }
        assert(self.execution_modes@.take(i as int) =~= self.execution_modes@);
    }
}


/// Instructions of a function body.
pub enum Instruction {
    Label(Word),
    Return,
    ReturnValue(Word),
    Branch(Word),
    Store,
    Load,
}

impl Instruction {
    /// Writes nothing: instructions of function bodies are not encoded yet.
    pub fn add_words(&self, _word_stream: &mut [Word])
        ensures
            final(_word_stream)@ == old(_word_stream)@,
    {
    }
}

/// What a function holds.
pub struct FunctionView<'a> {
    pub function_type: Global<'a>,
    pub id: Word,
    pub control: def::FunctionControl,
    pub parameters: Seq<(Global<'a>, Word)>,
    pub label0_id: Word,
}

struct Function<'a> {
    function_type: Global<'a>,
    id: Word,
    control: def::FunctionControl,
    parameters: Vec<(Global<'a>, Word)>,
    label0_id: Word,
    local_vars: Vec<(LocalVariableType, Word)>,
    instructions: Vec<Instruction>,
}

impl<'a> Function<'a> {
    spec fn view(&self) -> FunctionView<'a> {
        FunctionView {
            function_type: self.function_type,
            id: self.id,
            control: self.control,
            parameters: self.parameters@,
            label0_id: self.label0_id,
        }
    }

    /// Writing a function out always fails in this library: the label that opens the body
    /// has no first word in the opcode table, and the local-variable opcode is asked for a
    /// fixed first word that it does not have.
    fn add_words(&self, word_stream: &mut Vec<Word>, globals: &GlobalDeclarations)
        requires
            OpcodeName::Label.is_fixed(),
            OpcodeName::Variable.is_fixed(),
            self.function_type is TypeFunction,
            lookup(globals.globals@, self.function_type) is Some,
            lookup(globals.globals@, self.function_type->TypeFunction_0.return_type.global())
                is Some,
            forall|i: int| 0 <= i < self.parameters@.len() ==> lookup(
                globals.globals@,
                (#[trigger] self.parameters@[i]).0,
            ) is Some,
    {
        let word0: Word = OpcodeName::Function.get_fixed_word0();
        word_stream.push(word0);
        match self.function_type {
            Global::TypeFunction(details) => {
                let type_id: Word = globals.check_global_id(
                    &details.return_type.get_global(),
                ).unwrap();
                word_stream.push(type_id);
            },
            _ => {},
        }
        word_stream.push(self.id);
        word_stream.push(self.control.get_word());
        let type_id: Word = globals.check_global_id(&self.function_type).unwrap();
        word_stream.push(type_id);
        let word0: Word = OpcodeName::FunctionParameter.get_fixed_word0();
        let mut i: usize = 0;
        while i < self.parameters.len()
            invariant
                i <= self.parameters@.len(),
                forall|j: int| 0 <= j < self.parameters@.len() ==> lookup(
                    globals.globals@,
                    (#[trigger] self.parameters@[j]).0,
                ) is Some,
            decreases self.parameters@.len() - i,
        {
            word_stream.push(word0);
            let type_id: Word = globals.check_global_id(&self.parameters[i].0).unwrap();
            word_stream.push(type_id);
            word_stream.push(self.parameters[i].1);
            i += 1;
        }
        let word0: Word = OpcodeName::Label.get_fixed_word0();
        word_stream.push(word0);
        word_stream.push(self.label0_id);
        let _word0: Word = OpcodeName::Variable.get_fixed_word0();
        let word0: Word = OpcodeName::FunctionEnd.get_fixed_word0();
        word_stream.push(word0);
    }
}

/// What an id stands for.
#[derive(Clone, Copy, Debug, PartialEq, Eq, Structural)]
pub enum IdType {
    Function,
    GlobalInput,
    GlobalOutput,
    Generic,
}

/// An id of a module, with what it stands for.
pub struct Id {
    value: Word,
    id_type: IdType,
}

impl View for Id {
    type V = (Word, IdType);

    closed spec fn view(&self) -> (Word, IdType) {
        (self.value, self.id_type)
    }
}

impl Id {
    fn new(value: Word, id_type: IdType) -> (r: Self)
        ensures
            r@ == (value, id_type),
    {
        Self { value, id_type }
    }

    /// The id's value.
    pub fn value(&self) -> (r: Word)
        ensures
            r == self@.0,
    {
        self.value
    }

    /// What the id stands for.
    pub fn id_type(&self) -> (r: IdType)
        ensures
            r == self@.1,
    {
        self.id_type
    }
}

/// An interface variable of a fragment shader.
#[derive(Clone, Copy, Debug, PartialEq, Eq, Structural)]
pub enum FragmentInterfaceVariable {
    Input(PointerType),
    Output(PointerType),
    BuiltIn(FragmentBuiltIn),
}

/// The variable that stands for an interface variable.
pub open spec fn interface_global<'a>(iv: FragmentInterfaceVariable) -> Global<'a> {
    match iv {
        FragmentInterfaceVariable::Input(pointer_type) => Global::Variable(
            VariableDetails {
                pointer: TypePointerDetails { storage_class: StorageClass::Input, pointer_type },
                initializer: None,
            },
        ),
        FragmentInterfaceVariable::Output(pointer_type) => Global::Variable(
            VariableDetails {
                pointer: TypePointerDetails { storage_class: StorageClass::Output, pointer_type },
                initializer: None,
            },
        ),
        FragmentInterfaceVariable::BuiltIn(b) => BuiltIn::Fragment(b).global(),
    }
}

/// What the id of an interface variable stands for.
pub open spec fn interface_id_type(iv: FragmentInterfaceVariable) -> IdType {
    match iv {
        FragmentInterfaceVariable::Input(_) => IdType::GlobalInput,
        FragmentInterfaceVariable::Output(_) => IdType::GlobalOutput,
        FragmentInterfaceVariable::BuiltIn(b) => if BuiltIn::Fragment(b).is_output() {
            IdType::GlobalOutput
        } else {
            IdType::GlobalInput
        },
    }
}

/// The decorations of the interface variables: one for each built-in, in order.
pub open spec fn interface_decorations<'a>(vars: Seq<FragmentInterfaceVariable>) -> Seq<
    (Decoration, Global<'a>),
>
    decreases vars.len(),
{
    if vars.len() == 0 {
        seq![]
    } else {
        interface_decorations(vars.drop_last()) + match vars.last() {
            FragmentInterfaceVariable::BuiltIn(b) => seq![
                (Decoration::BuiltIn(BuiltIn::Fragment(b)), BuiltIn::Fragment(b).global()),
            ],
            _ => seq![],
        }
    }
}

/// What a module holds.
pub struct ModuleView<'a> {
    pub capabilities: Seq<Capability>,
    pub id_bound: Word,
    pub glsl_builtin_functions: Option<Word>,
    pub addressing_model: def::AddressingModel,
    pub memory_model: def::MemoryModel,
    pub entry_points: Seq<EntryPointView<'a>>,
    pub decorations: Seq<(Decoration, Global<'a>)>,
    pub globals: Seq<(Global<'a>, Word)>,
    pub functions: Seq<FunctionView<'a>>,
}

/// The bytes of the name of the GLSL extended instruction set.
pub open spec fn glsl_std_450() -> Seq<u8> {
    seq![71u8, 76, 83, 76, 46, 115, 116, 100, 46, 52, 53, 48]
}

/// The words of the `OpExtInstImport` of the GLSL extended instruction set.
pub open spec fn glsl_import_words(id: Word) -> Seq<Word> {
    seq![OpcodeName::ExtInstImport.word0(3), id] + str_words(glsl_std_450())
}

/// The words of every entry point, in order.
pub open spec fn entry_points_words<'a>(
    eps: Seq<EntryPointView<'a>>,
    decls: Seq<(Global<'a>, Word)>,
) -> Seq<Word>
    decreases eps.len(),
{
    if eps.len() == 0 {
        seq![]
    } else {
        entry_points_words(eps.drop_last(), decls) + entry_point_words(eps.last(), decls)
    }
}

/// The execution mode words of every entry point, in order.
pub open spec fn all_execution_mode_words(eps: Seq<EntryPointView>) -> Seq<Word>
    decreases eps.len(),
{
    if eps.len() == 0 {
        seq![]
    } else {
        all_execution_mode_words(eps.drop_last()) + execution_mode_words(
            eps.last().function_id,
            eps.last().execution_modes,
        )
    }
}

/// The word stream of a module without decorations and functions.
pub open spec fn module_words(m: ModuleView) -> Seq<Word> {
    def::word_stream_header(true, m.id_bound) + capability_words(m.capabilities) + match m.glsl_builtin_functions {
        Some(id) => glsl_import_words(id),
        None => seq![],
    } + memory_model_words(m.addressing_model, m.memory_model) + entry_points_words(
        m.entry_points,
        m.globals,
    ) + all_execution_mode_words(m.entry_points) + declarations::declarations_words(
        m.globals,
        m.globals,
    )
}

/// A module can be written out. Decorations and functions cannot be (their opcodes have no
/// first word in the opcode table), so only modules without them can.
pub open spec fn module_writable(m: ModuleView) -> bool {
    &&& m.decorations.len() == 0
    &&& m.functions.len() == 0
    &&& declarations::all_encodable(m.globals)
    &&& forall|i: int| 0 <= i < m.entry_points.len() ==> entry_point_writable(
        #[trigger] m.entry_points[i],
        m.globals,
    )
}

/// A SPIR-V module under construction.
pub struct Module<'a> {
    capabilities: Capabilities,
    ids: Ids,
    glsl_builtin_functions: Option<Word>,
    memory_model: MemoryModel,
    entry_points: Vec<EntryPoint<'a>>,
    decorations: Vec<(Decoration, Global<'a>)>,
    global_declarations: GlobalDeclarations<'a>,
    functions: Vec<Function<'a>>,
}

impl<'a> View for Module<'a> {
    type V = ModuleView<'a>;

    closed spec fn view(&self) -> ModuleView<'a> {
        ModuleView {
            capabilities: self.capabilities.capabilities@,
            id_bound: self.ids.next_id,
            glsl_builtin_functions: self.glsl_builtin_functions,
            addressing_model: self.memory_model.addressing_model,
            memory_model: self.memory_model.memory_model,
            entry_points: self.entry_points@.map_values(|ep: EntryPoint<'a>| ep.view()),
            decorations: self.decorations@,
            globals: self.global_declarations.globals@,
            functions: self.functions@.map_values(|f: Function<'a>| f.view()),
        }
    }
}


/// The capabilities after adding the first `n` of `required` in turn.
fn add_required_capabilities(capabilities: &mut Capabilities, required: &[Capability], n: usize)
    requires
        n <= required@.len(),
    ensures
        final(capabilities).capabilities@ == with_capabilities(
            old(capabilities).capabilities@,
            required@.take(n as int),
        ),
{
    let ghost start = capabilities.capabilities@;
    let mut k: usize = 0;
    while k < n
        invariant
            k <= n,
            n <= required@.len(),
            capabilities.capabilities@ == with_capabilities(start, required@.take(k as int)),
        decreases n - k,
    {
        capabilities.add_capability(required[k]);
        proof {
            assert(required@.take(k + 1).drop_last() =~= required@.take(k as int));
        }
        k += 1;
    }
}

/// Adding capabilities that are all declared already changes nothing.
proof fn lemma_with_declared_capabilities(declared: Seq<Capability>, added: Seq<Capability>)
    requires
        forall|i: int| 0 <= i < added.len() ==> declares(declared, #[trigger] added[i]),
    ensures
        with_capabilities(declared, added) == declared,
    decreases added.len(),
{
    if added.len() > 0 {
        lemma_with_declared_capabilities(declared, added.drop_last());
        assert(declares(declared, added[added.len() - 1]));
    }
}

/// The type of the main function: no parameters and no result.
pub open spec fn is_main_function_type(g: Global) -> bool {
    g matches Global::TypeFunction(d) && d.return_type == ReturnType::Void
        && d.parameter_types@.len() == 0
}

/// The bytes of the name of the main entry point.
pub open spec fn main_name() -> Seq<u8> {
    seq![109u8, 97, 105, 110]
}

/// The parameters of a function and their ids, handed out in order from `first`.
pub open spec fn parameters_with_ids<'a>(params: Seq<ParameterType>, first: int) -> Seq<
    (Global<'a>, Word),
> {
    Seq::new(params.len(), |i: int| (params[i].global(), (first + i) as Word))
}

/// The globals that an interface variable refers to are at most three.
proof fn lemma_interface_sub_globals(iv: FragmentInterfaceVariable)
    ensures
        def::sub_globals(interface_global(iv)).len() <= 3,
{
    let g = interface_global(iv);
    let d = g->Variable_0;
    let p = Global::TypePointer(d.pointer);
    let q = def::pointee_global(d.pointer.pointer_type);
    assert(g.children() =~= seq![p]);
    assert(p.children() =~= seq![q]);
    let c = q.children();
    def::lemma_children_lower(q);
    if c.len() == 1 {
        def::lemma_dfs_leaf(c[0]);
        def::lemma_dfs_seq_single(c[0], def::height(q));
    } else {
        assert(c.len() == 0);
        def::lemma_dfs_leaf(q);
    }
    def::lemma_dfs_seq_single(q, def::height(p));
    def::lemma_dfs_seq_single(p, def::height(g));
}

impl<'a> Module<'a> {
    /// The module's consistency: its declarations are consistent (see `declarations_wf`)
    /// and every entry point name fits its array.
    pub closed spec fn well_formed(&self) -> bool {
        &&& declarations_wf(self.global_declarations.globals@, self.ids.next_id as int)
        &&& self.ids.next_id >= 1
        &&& forall|i: int| 0 <= i < self.entry_points@.len() ==> (#[trigger] self.entry_points@[i]).inv()
    }

    /// A fragment shader module with a main function and one entry point named "main" for
    /// it, whose interface holds the given variables; also the main function's id and the
    /// ids of the interface variables. It needs the Shader capability only.
    pub fn new_fragment_shader(
        allow_glsl_builtin_functions: bool,
        fragment_execution_modes: &[FragmentExecutionMode],
        interface_vars: &[FragmentInterfaceVariable],
    ) -> (r: Result<(Self, Id, Vec<Id>), Error>)
        requires
            interface_vars@.len() <= 0x3FFF_FFF0,
        ensures
            r is Ok,
            r matches Ok((m, main, ids)) ==> ({
                let g0: int = if allow_glsl_builtin_functions { 2 } else { 1 };
                let ft = m@.functions[0].function_type;
                let (d1, n1) = declare(Seq::empty(), g0, ft);
                let globals = interface_vars@.map_values(
                    |iv: FragmentInterfaceVariable| interface_global(iv),
                );
                let (d2, n2) = declare_seq(d1, n1 + 2, globals);
                &&& m.well_formed()
                &&& is_main_function_type(ft)
                &&& m@.capabilities == seq![Capability::Shader]
                &&& m@.glsl_builtin_functions == if allow_glsl_builtin_functions {
                    Some(1u32)
                } else {
                    None
                }
                &&& m@.addressing_model == def::AddressingModel::Logical
                &&& m@.memory_model == def::MemoryModel::GLSL450
                &&& m@.globals == d2
                &&& m@.id_bound == n2
                &&& m@.functions.len() == 1
                &&& m@.functions[0].id == n1
                &&& m@.functions[0].control == def::FunctionControl::NoControl
                &&& m@.functions[0].parameters == Seq::<(Global, Word)>::empty()
                &&& m@.functions[0].label0_id == n1 + 1
                &&& m@.entry_points.len() == 1
                &&& m@.entry_points[0].execution_model == ExecutionModel::Fragment
                &&& m@.entry_points[0].function_id == n1
                &&& m@.entry_points[0].name == main_name()
                &&& m@.entry_points[0].interface == globals
                &&& m@.entry_points[0].execution_modes == fragment_execution_modes@.map_values(
                    |f: FragmentExecutionMode| ExecutionMode::Fragment(f),
                )
                &&& m@.decorations == interface_decorations(interface_vars@)
                &&& main@ == (n1 as Word, IdType::Function)
                &&& ids@.len() == interface_vars@.len()
                &&& forall|i: int| 0 <= i < ids@.len() ==> (#[trigger] ids@[i])@ == (
                    lookup(d2, globals[i]).unwrap(),
                    interface_id_type(interface_vars@[i]),
                )
            }),
    {
        let mut capabilities = Capabilities::new(Capability::Shader);
        let mut ids = Ids::new();
        let glsl_builtin_functions = if allow_glsl_builtin_functions {
            Some(ids.get_next_id())
        } else {
            None
        };
        let memory_model = MemoryModel {
            addressing_model: def::AddressingModel::Logical,
            memory_model: def::MemoryModel::GLSL450,
        };
        let ghost shader_only = seq![Capability::Shader];
        assert(declares(shader_only, Capability::Shader)) by {
            assert(shader_only[0].enables(Capability::Shader));
        }
        let mut requried_capabilities: [Capability; 5] = [Capability::Matrix; 5];
        let num_capabilities: usize = memory_model.addressing_model.get_required_capabilities(
            &mut requried_capabilities,
        );
        add_required_capabilities(&mut capabilities, &requried_capabilities, num_capabilities);
        proof {
            lemma_with_declared_capabilities(
                shader_only,
                requried_capabilities@.take(num_capabilities as int),
            );
        }
        let num_capabilities: usize = memory_model.memory_model.get_required_capabilities(
            &mut requried_capabilities,
        );
        add_required_capabilities(&mut capabilities, &requried_capabilities, num_capabilities);
        proof {
            lemma_with_declared_capabilities(
                shader_only,
                requried_capabilities@.take(num_capabilities as int),
            );
        }
        let mut global_declarations = GlobalDeclarations::new();
        let main_parameter_types: &[ParameterType] = &[];
        let main_function_type = Global::TypeFunction(
            TypeFunctionDetails {
                return_type: ReturnType::Void,
                parameter_types: main_parameter_types,
            },
        );
        let ghost g0 = ids.next_id as int;
        let ghost empty = Seq::<(Global<'a>, Word)>::empty();
        proof {
            declarations::lemma_empty_declarations_wf(empty, g0);
            law_declare(empty, g0, main_function_type);
            assert(def::sub_globals(main_function_type).len() <= 1) by {
                assert(main_function_type.children() =~= seq![Global::TypeVoid]);
                def::lemma_dfs_leaf(Global::TypeVoid);
                def::lemma_dfs_seq_single(Global::TypeVoid, def::height(main_function_type));
            }
            law_declare_keeps_declarations_consistent(empty, g0, main_function_type);
        }
        global_declarations.get_global_id(&mut ids, main_function_type);
        let ghost n1 = ids.next_id as int;
        let ghost d1 = global_declarations.globals@;
        let main_function_id: Word = ids.get_next_id();
        let mut main_function_parameters: Vec<(Global<'a>, Word)> = Vec::new();
        let mut p: usize = 0;
        while p < main_parameter_types.len()
            invariant
                main_parameter_types@.len() == 0,
                p == 0,
                ids.next_id == n1 + 1,
                n1 <= 4,
                main_function_parameters@ == Seq::<(Global<'a>, Word)>::empty(),
            decreases main_parameter_types@.len() - p,
        {
            main_function_parameters.push(
                (main_parameter_types[p].get_global(), ids.get_next_id()),
            );
            p += 1;
        }
        let label0_id: Word = ids.get_next_id();
        proof {
            declarations::lemma_declarations_wf_next(d1, n1, ids.next_id as int);
        }
        let functions = vec![
            Function {
                function_type: main_function_type,
                control: def::FunctionControl::NoControl,
                id: main_function_id,
                parameters: main_function_parameters,
                label0_id,
                local_vars: Vec::new(),
                instructions: Vec::new(),
            },
        ];
        let execution_model = ExecutionModel::Fragment;
        let num_capabilities: usize = execution_model.get_required_capabilities(
            &mut requried_capabilities,
        );
        add_required_capabilities(&mut capabilities, &requried_capabilities, num_capabilities);
        proof {
            lemma_with_declared_capabilities(
                shader_only,
                requried_capabilities@.take(num_capabilities as int),
            );
        }
        let mut execution_modes: Vec<ExecutionMode> = Vec::new();
        let mut f: usize = 0;
        while f < fragment_execution_modes.len()
            invariant
                f <= fragment_execution_modes@.len(),
                requried_capabilities@.len() == 5,
                capabilities.capabilities@ == shader_only,
                declares(shader_only, Capability::Shader),
                execution_modes@ == fragment_execution_modes@.take(f as int).map_values(
                    |m: FragmentExecutionMode| ExecutionMode::Fragment(m),
                ),
            decreases fragment_execution_modes@.len() - f,
        {
            let em = ExecutionMode::Fragment(fragment_execution_modes[f]);
            let num_capabilities: usize = em.get_required_capabilities(&mut requried_capabilities);
            add_required_capabilities(&mut capabilities, &requried_capabilities, num_capabilities);
            proof {
                lemma_with_declared_capabilities(
                    shader_only,
                    requried_capabilities@.take(num_capabilities as int),
                );
            }
            execution_modes.push(em);
            f += 1;
            assert(execution_modes@ =~= fragment_execution_modes@.take(f as int).map_values(
                |m: FragmentExecutionMode| ExecutionMode::Fragment(m),
            ));
        }
        assert(fragment_execution_modes@.take(f as int) =~= fragment_execution_modes@);
        let ghost globals = interface_vars@.map_values(
            |iv: FragmentInterfaceVariable| interface_global(iv),
        );
        let mut interface: Vec<Global<'a>> = Vec::new();
        let mut interface_ids: Vec<Id> = Vec::new();
        let mut decorations: Vec<(Decoration, Global<'a>)> = Vec::new();
        let mut i: usize = 0;
        while i < interface_vars.len()
            invariant
                i <= interface_vars@.len(),
                interface_vars@.len() <= 0x3FFF_FFF0,
                globals == interface_vars@.map_values(
                    |iv: FragmentInterfaceVariable| interface_global(iv),
                ),
                ids.next_id <= n1 + 2 + 4 * i,
                n1 <= 5,
                ids.next_id >= 1,
                declarations_wf(global_declarations.globals@, ids.next_id as int),
                (global_declarations.globals@, ids.next_id as int) == declare_seq(
                    d1,
                    n1 + 2,
                    globals.take(i as int),
                ),
                interface@ == globals.take(i as int),
                decorations@ == interface_decorations(interface_vars@.take(i as int)),
                interface_ids@.len() == i,
                forall|j: int| 0 <= j < i ==> (#[trigger] interface_ids@[j])@ == (
                    lookup(global_declarations.globals@, globals[j]).unwrap(),
                    interface_id_type(interface_vars@[j]),
                ),
                forall|j: int| 0 <= j < i ==> lookup(global_declarations.globals@, #[trigger] globals[j]) is Some,
            decreases interface_vars@.len() - i,
        {
            let iv = interface_vars[i];
            let ghost before = global_declarations.globals@;
            let ghost g = interface_global(iv);
            proof {
                law_declare(before, ids.next_id as int, g);
                lemma_interface_sub_globals(iv);
                law_declare_keeps_declarations_consistent(before, ids.next_id as int, g);
                assert(globals.take(i + 1).drop_last() =~= globals.take(i as int));
                assert(interface_vars@.take(i + 1).drop_last() =~= interface_vars@.take(i as int));
                assert(globals[i as int] == g);
            }
            match iv {
                FragmentInterfaceVariable::Input(pointer_type) => {
                    let global = Global::Variable(
                        VariableDetails {
                            pointer: TypePointerDetails {
                                storage_class: StorageClass::Input,
                                pointer_type,
                            },
                            initializer: None,
                        },
                    );
                    assert(global == g);
                    let id: Word = global_declarations.get_global_id(&mut ids, global);
                    interface_ids.push(Id::new(id, IdType::GlobalInput));
                    interface.push(global);
                },
                FragmentInterfaceVariable::Output(pointer_type) => {
                    let global = Global::Variable(
                        VariableDetails {
                            pointer: TypePointerDetails {
                                storage_class: StorageClass::Output,
                                pointer_type,
                            },
                            initializer: None,
                        },
                    );
                    assert(global == g);
                    let id: Word = global_declarations.get_global_id(&mut ids, global);
                    interface_ids.push(Id::new(id, IdType::GlobalOutput));
                    interface.push(global);
                },
                FragmentInterfaceVariable::BuiltIn(frag_builtin) => {
                    let builtin = BuiltIn::Fragment(frag_builtin);
                    let global_and_is_output: (Global<'a>, bool) = builtin.get_global_and_is_output();
                    let global = global_and_is_output.0;
                    let global_id: Word = global_declarations.get_global_id(&mut ids, global);
                    interface.push(global);
                    if global_and_is_output.1 {
                        interface_ids.push(Id::new(global_id, IdType::GlobalOutput));
                    } else {
                        interface_ids.push(Id::new(global_id, IdType::GlobalInput));
                    }
                    decorations.push((Decoration::BuiltIn(builtin), global));
                },
            }
            i += 1;
            proof {
                assert(interface@ =~= globals.take(i as int));
                assert(decorations@ =~= interface_decorations(interface_vars@.take(i as int)));
                assert forall|j: int| 0 <= j < i implies lookup(global_declarations.globals@, #[trigger] globals[j]) is Some by {
                    if j < i - 1 {
                        assert(lookup(before, globals[j]) is Some);
                    }
                }
            }
        }
        proof {
            assert(globals.take(i as int) =~= globals);
            assert(interface_vars@.take(i as int) =~= interface_vars@);
            reveal_strlit("main");
            broadcast use vstd::string::is_ascii_spec_bytes;
            broadcast use vstd::utf8::encode_utf8_valid_utf8;
            broadcast use vstd::utf8::is_char_boundary_start_end_of_seq;
            assert(is_ascii("main"));
            assert("main".spec_bytes() =~= main_name());
            assert(is_char_boundary(main_name(), 4));
        }
        let entry_point = match EntryPoint::new(
            execution_model,
            main_function_id,
            "main",
            interface,
            execution_modes,
        ) {
            Ok(ep) => ep,
            Err(e) => {
                return Err(e);
            },
        };
        let entry_points = vec![entry_point];
        let module = Self {
            capabilities,
            ids,
            glsl_builtin_functions,
            memory_model,
            entry_points,
            decorations,
            global_declarations,
            functions,
        };
        proof {
            assert(module@.entry_points[0] == entry_point.view());
            assert(main_name().take(4) =~= main_name());
        }
        Ok((module, Id::new(main_function_id, IdType::Function), interface_ids))
    }

    /// Declares `global` (after the globals it refers to) unless it is declared, and gives
    /// back its id.
    pub fn add_global(&mut self, global: Global<'a>) -> (r: Result<Id, Error>)
        requires
            old(self).well_formed(),
            declare(old(self)@.globals, old(self)@.id_bound as int, global).1 <= u32::MAX,
        ensures
            final(self).well_formed(),
            r matches Ok(id) && id@ == (
                declared_id(old(self)@.globals, old(self)@.id_bound as int, global),
                IdType::Generic,
            ),
            final(self)@ == (ModuleView {
                globals: declare(old(self)@.globals, old(self)@.id_bound as int, global).0,
                id_bound: declare(old(self)@.globals, old(self)@.id_bound as int, global).1 as Word,
                ..old(self)@
            }),
    {
        proof {
            law_declare_keeps_declarations_consistent(
                self.global_declarations.globals@,
                self.ids.next_id as int,
                global,
            );
            law_declare(self.global_declarations.globals@, self.ids.next_id as int, global);
        }
        let id: Word = self.global_declarations.get_global_id(&mut self.ids, global);
        Ok(Id::new(id, IdType::Generic))
    }

    /// Declares a function of the given function type, with ids for the function, its
    /// parameters and its first label; an error for a global that is no function type.
    pub fn new_function(&mut self, function_type: Global<'a>) -> (r: Result<Id, Error>)
        requires
            old(self).well_formed(),
            function_type is TypeFunction ==> declare(
                old(self)@.globals,
                old(self)@.id_bound as int,
                function_type,
            ).1 + function_type->TypeFunction_0.parameter_types@.len() + 2 <= u32::MAX,
        ensures
            final(self).well_formed(),
            !(function_type is TypeFunction) ==> (r matches Err(Error::InvalidGlobal) && final(self)@
                == old(self)@),
            function_type is TypeFunction ==> ({
                let (d, n) = declare(old(self)@.globals, old(self)@.id_bound as int, function_type);
                let params = function_type->TypeFunction_0.parameter_types@;
                &&& r matches Ok(id) && id@ == (n as Word, IdType::Function)
                &&& final(self)@ == (ModuleView {
                    globals: d,
                    id_bound: (n + params.len() + 2) as Word,
                    functions: old(self)@.functions.push(
                        FunctionView {
                            function_type,
                            id: n as Word,
                            control: def::FunctionControl::NoControl,
                            parameters: parameters_with_ids(params, n + 1),
                            label0_id: (n + 1 + params.len()) as Word,
                        },
                    ),
                    ..old(self)@
                })
            }),
    {
        match function_type {
            Global::TypeFunction(details) => {
                proof {
                    law_declare_keeps_declarations_consistent(
                        self.global_declarations.globals@,
                        self.ids.next_id as int,
                        function_type,
                    );
                    law_declare(self.global_declarations.globals@, self.ids.next_id as int, function_type);
                }
                self.global_declarations.get_global_id(&mut self.ids, function_type);
                let ghost n = self.ids.next_id as int;
                let function_id: Word = self.ids.get_next_id();
                let ghost s0 = *self;
                let params = details.parameter_types;
                let mut function_parameters: Vec<(Global<'a>, Word)> = Vec::new();
                let mut i: usize = 0;
                while i < params.len()
                    invariant
                        i <= params@.len(),
                        n + params@.len() + 2 <= u32::MAX,
                        self.ids.next_id == n + 1 + i,
                        self.global_declarations == s0.global_declarations,
                        self.entry_points == s0.entry_points,
                        self.functions == s0.functions,
                        self.capabilities == s0.capabilities,
                        self.decorations == s0.decorations,
                        self.memory_model == s0.memory_model,
                        self.glsl_builtin_functions == s0.glsl_builtin_functions,
                        function_parameters@ == parameters_with_ids(params@, n + 1).take(
                            i as int,
                        ),
                    decreases params@.len() - i,
                {
                    function_parameters.push((params[i].get_global(), self.ids.get_next_id()));
                    i += 1;
                    assert(function_parameters@ =~= parameters_with_ids(params@, n + 1).take(
                        i as int,
                    ));
                }
                assert(parameters_with_ids(params@, n + 1).take(i as int) =~= parameters_with_ids(
                    params@,
                    n + 1,
                ));
                let label0_id: Word = self.ids.get_next_id();
                proof {
                    declarations::lemma_declarations_wf_next(
                        self.global_declarations.globals@,
                        n,
                        self.ids.next_id as int,
                    );
                }
                let ghost old_functions = self.functions@;
                self.functions.push(
                    Function {
                        function_type,
                        control: def::FunctionControl::NoControl,
                        id: function_id,
                        parameters: function_parameters,
                        label0_id,
                        local_vars: Vec::new(),
                        instructions: Vec::new(),
                    },
                );
                assert(self.functions@.map_values(|f: Function<'a>| f.view()) =~= old_functions.map_values(
                    |f: Function<'a>| f.view(),
                ).push(self.functions@.last().view()));
                Ok(Id::new(function_id, IdType::Function))
            },
            _ => Err(Error::InvalidGlobal),
        }
    }

    /// Leaves the module as it is: local variables are not recorded yet.
    pub fn add_local_var(&mut self, _function_id: &Id) -> (r: Result<(), Error>)
        ensures
            r is Ok,
            final(self)@ == old(self)@,
            final(self).well_formed() == old(self).well_formed(),
    {
        Ok(())
    }

    /// The SPIR-V word stream of the module.
    pub fn get_word_stream(&self) -> (r: Vec<u32>)
        requires
            self.well_formed(),
            module_writable(self@),
        ensures
            r@ == module_words(self@),
    {
        let mut word_stream = def::create_word_stream_header(true, self.ids.get_id_bound());
        self.capabilities.add_words(&mut word_stream);
        let ghost after_caps = word_stream@;
        if let Some(id) = self.glsl_builtin_functions {
            let instruction_extension_name = "GLSL.std.450";
            proof {
                reveal_strlit("GLSL.std.450");
                broadcast use vstd::string::is_ascii_spec_bytes;
                assert(is_ascii("GLSL.std.450"));
                assert("GLSL.std.450".spec_bytes() =~= glsl_std_450());
            }
            let additional_arguments: u16 = def::get_str_word_count(instruction_extension_name) - 1;
            word_stream.push(OpcodeName::ExtInstImport.get_word0(additional_arguments));
            word_stream.push(id);
            def::add_str_data(instruction_extension_name, &mut word_stream);
            assert(word_stream@ =~= after_caps + glsl_import_words(id));
        }
        let ghost glsl_words = match self.glsl_builtin_functions {
            Some(id) => glsl_import_words(id),
            None => Seq::<Word>::empty(),
        };
        assert(word_stream@ =~= after_caps + glsl_words);
        self.memory_model.add_words(&mut word_stream);
        let ghost before_eps = word_stream@;
        let mut i: usize = 0;
        while i < self.entry_points.len()
            invariant
                i <= self.entry_points@.len(),
                self.well_formed(),
                module_writable(self@),
                word_stream@ == before_eps + entry_points_words(
                    self@.entry_points.take(i as int),
                    self@.globals,
                ),
            decreases self.entry_points@.len() - i,
        {
            assert(self@.entry_points[i as int] == self.entry_points@[i as int].view());
            assert(self.entry_points@[i as int].inv());
            self.entry_points[i].add_words(&mut word_stream, &self.global_declarations);
            proof {
                assert(self@.entry_points.take(i + 1).drop_last() =~= self@.entry_points.take(
                    i as int,
                ));
            }
            i += 1;
        }
        assert(self@.entry_points.take(i as int) =~= self@.entry_points);
        let ghost before_modes = word_stream@;
        let mut i: usize = 0;
        while i < self.entry_points.len()
            invariant
                i <= self.entry_points@.len(),
                word_stream@ == before_modes + all_execution_mode_words(
                    self@.entry_points.take(i as int),
                ),
            decreases self.entry_points@.len() - i,
        {
            self.entry_points[i].add_execution_mode_words(&mut word_stream);
            proof {
                assert(self@.entry_points.take(i + 1).drop_last() =~= self@.entry_points.take(
                    i as int,
                ));
            }
            i += 1;
        }
        assert(self@.entry_points.take(i as int) =~= self@.entry_points);
        let ghost before_decorations = word_stream@;
        let mut i: usize = 0;
        while i < self.decorations.len()
            invariant
                self.decorations@.len() == 0,
                word_stream@ == before_decorations,
            decreases self.decorations@.len() - i,
        {
            let d = self.decorations[i].0;
            let global_id: Word = self.global_declarations.check_global_id(
                &self.decorations[i].1,
            ).unwrap();
            match d {
                Decoration::BuiltIn(b) => {
                    word_stream.push(OpcodeName::Decorate.get_word0(1));
                    word_stream.push(global_id);
                    word_stream.push(d.get_word());
                    word_stream.push(b.get_word());
                },
                Decoration::Location(l) => {
                    word_stream.push(OpcodeName::Decorate.get_word0(1));
                    word_stream.push(global_id);
                    word_stream.push(d.get_word());
                    word_stream.push(l);
                },
                Decoration::DescriptorSet(s) => {
                    word_stream.push(OpcodeName::Decorate.get_word0(1));
                    word_stream.push(global_id);
                    word_stream.push(d.get_word());
                    word_stream.push(s);
                },
                Decoration::Binding(b) => {
                    word_stream.push(OpcodeName::Decorate.get_word0(1));
                    word_stream.push(global_id);
                    word_stream.push(d.get_word());
                    word_stream.push(b);
                },
                _ => {},
            }
            i += 1;
        }
        self.global_declarations.add_words(&mut word_stream);
        let ghost after_globals = word_stream@;
        let mut i: usize = 0;
        while i < self.functions.len()
            invariant
                self.functions@.len() == 0,
                word_stream@ == after_globals,
            decreases self.functions@.len() - i,
        {
            self.functions[i].add_words(&mut word_stream, &self.global_declarations);
            i += 1;
        }
        assert(word_stream@ =~= module_words(self@));
        word_stream
    }
}

} // verus!
