use swiftlet::graphics::vulkan::spirv::def::{
    add_str_bytes, add_str_data, create_word_stream_header, get_str_word_count,
    AddressingModel, BuiltIn, Capability, ConstantDetails, Decoration, EnablingCapabilities, ExecutionMode,
    ExecutionModel, FragmentBuiltIn, FragmentExecutionMode, FunctionControl, GeometryBuiltIn,
    GeometryExecutionMode, Global, GlobalInstruction, GLComputeExecutionMode, InitializerType, KernelExecutionMode, MemoryModel,
    OpcodeName, ParameterType, PointerType, ReturnType, ScalarType, StorageClass,
    TessellationBuiltIn, TypeFloatDetails, TypeFunctionDetails, TypeIntDetails,
    TypePointerDetails, TypeVectorDetails, VariableDetails, VertexBuiltIn,
};
use swiftlet::graphics::vulkan::spirv::{Error, FragmentInterfaceVariable, IdType, Module};

fn vec4_f32() -> PointerType {
    PointerType::Vector(TypeVectorDetails {
        scalar_type: ScalarType::Float(TypeFloatDetails { bit_width: 32 }),
        count: 4,
    })
}

#[test]
fn word_stream_header_latest_and_compatible() {
    assert_eq!(
        create_word_stream_header(true, 10),
        vec![0x07230203, 0x00010600, 0, 10, 0]
    );
    assert_eq!(
        create_word_stream_header(false, 7),
        vec![0x07230203, 0x00010300, 0, 7, 0]
    );
}

#[test]
fn str_word_count_includes_terminator() {
    assert_eq!(get_str_word_count(""), 1);
    assert_eq!(get_str_word_count("abc"), 1);
    assert_eq!(get_str_word_count("main"), 2);
    assert_eq!(get_str_word_count("GLSL.std.450"), 4);
}

#[test]
fn str_data_packs_little_endian_words() {
    let mut data = vec![99u32];
    add_str_data("main", &mut data);
    assert_eq!(data, vec![99, 0x6E69616D, 0]);
    let mut words = Vec::new();
    add_str_bytes(b"GLSL.std.450", &mut words);
    assert_eq!(words, vec![0x4C534C47, 0x6474732E, 0x3035342E, 0]);
}

#[test]
fn enumerant_words() {
    assert_eq!(AddressingModel::Logical.get_word(), 0);
    assert_eq!(AddressingModel::Physical64.get_word(), 2);
    assert_eq!(MemoryModel::GLSL450.get_word(), 1);
    assert_eq!(MemoryModel::OpenCL.get_word(), 2);
    assert_eq!(FunctionControl::NoControl.get_word(), 0);
    assert_eq!(FunctionControl::DontInlineConst.get_word(), 0xA);
    assert_eq!(StorageClass::Function.get_word(), 7);
    assert_eq!(StorageClass::StorageBuffer.get_word(), 12);
    assert_eq!(ExecutionModel::Fragment.get_word(), 4);
    assert_eq!(ExecutionModel::Kernel.get_word(), 6);
    assert_eq!(Capability::Shader.get_word(), 1);
    assert_eq!(Capability::Pipes.get_word(), 17);
    assert_eq!(Capability::PipeStorage.get_word(), 60);
}

#[test]
fn implicit_capabilities() {
    assert_eq!(Capability::Shader.get_implicit(), Some(Capability::Matrix));
    assert_eq!(Capability::Geometry.get_implicit(), Some(Capability::Shader));
    assert_eq!(Capability::ImageReadWrite.get_implicit(), Some(Capability::ImageBasic));
    assert_eq!(Capability::Matrix.get_implicit(), None);
    assert_eq!(Capability::Kernel.get_implicit(), None);
}

#[test]
fn required_capabilities_of_models() {
    let mut caps = [Capability::Matrix; 5];
    assert_eq!(AddressingModel::Physical32.get_required_capabilities(&mut caps), 1);
    assert_eq!(caps[0], Capability::Addresses);
    assert_eq!(AddressingModel::Logical.get_required_capabilities(&mut caps), 0);
    assert_eq!(MemoryModel::OpenCL.get_required_capabilities(&mut caps), 1);
    assert_eq!(caps[0], Capability::Kernel);
    assert_eq!(StorageClass::Function.get_required_capabilities(&mut caps), 0);
    assert_eq!(StorageClass::Generic.get_required_capabilities(&mut caps), 1);
    assert_eq!(caps[0], Capability::GenericPointer);
}

#[test]
fn opcode_first_words() {
    assert_eq!(OpcodeName::Capability.get_fixed_word0(), (2 << 16) | 17);
    assert_eq!(OpcodeName::FunctionEnd.get_fixed_word0(), (1 << 16) | 56);
    assert_eq!(OpcodeName::TypeFunction.get_word0(2), (5 << 16) | 33);
    assert_eq!(OpcodeName::TypeVoid.get_word0(0), (2 << 16) | 19);
}

#[test]
fn execution_mode_words_and_literals() {
    let mut literals = [7u32; 3];
    let r = ExecutionMode::Fragment(FragmentExecutionMode::OriginUpperLeft)
        .get_word_and_literals(&mut literals);
    assert_eq!(r, (7, 0));
    assert_eq!(literals, [7, 7, 7]);
    let r = ExecutionMode::GLCompute(GLComputeExecutionMode::LocalSize((8, 4, 2)))
        .get_word_and_literals(&mut literals);
    assert_eq!(r, (17, 3));
    assert_eq!(literals, [8, 4, 2]);
    let r = ExecutionMode::Geometry(GeometryExecutionMode::Invocations(5))
        .get_word_and_literals(&mut literals);
    assert_eq!(r, (0, 1));
    assert_eq!(literals, [5, 4, 2]);
    let r = ExecutionMode::Kernel(KernelExecutionMode::VecTypeHint(9))
        .get_word_and_literals(&mut literals);
    assert_eq!(r, (30, 1));
}

#[test]
fn built_in_variables() {
    let frag_coord = BuiltIn::Fragment(FragmentBuiltIn::FragCoord);
    assert_eq!(frag_coord.get_word(), 15);
    assert_eq!(frag_coord.get_pointer_type(), vec4_f32());
    assert_eq!(frag_coord.get_storage_class(), StorageClass::Input);
    let vertex_index = BuiltIn::Fragment(FragmentBuiltIn::VertexIndex);
    assert_eq!(vertex_index.get_word(), 42);
    assert_eq!(
        vertex_index.get_pointer_type(),
        PointerType::Int(TypeIntDetails { bit_width: 32, is_signed: false })
    );
    assert_eq!(BuiltIn::Vertex(VertexBuiltIn::Position).get_storage_class(), StorageClass::Output);
    assert_eq!(
        BuiltIn::Geometry(GeometryBuiltIn::Position(true)).get_storage_class(),
        StorageClass::Input
    );
    assert_eq!(
        BuiltIn::Tessellation(TessellationBuiltIn::Position(false)).get_storage_class(),
        StorageClass::Output
    );
    let (global, is_output) = frag_coord.get_global_and_is_output();
    assert!(!is_output);
    assert!(matches!(global, Global::Variable(_)));
}

#[test]
fn decoration_words() {
    assert_eq!(Decoration::BuiltIn(BuiltIn::Fragment(FragmentBuiltIn::FragCoord)).get_word(), 11);
    assert_eq!(Decoration::Location(3).get_word(), 30);
    assert_eq!(Decoration::Binding(0).get_word(), 33);
    assert_eq!(Decoration::DescriptorSet(1).get_word(), 34);
    assert_eq!(Decoration::Flat.get_word(), 14);
}

#[test]
fn parameter_and_return_types_give_globals() {
    assert_eq!(ReturnType::Void.get_global(), Global::TypeVoid);
    assert_eq!(ParameterType::Bool.get_global(), Global::TypeBool);
    assert_eq!(
        ParameterType::Int(TypeIntDetails { bit_width: 32, is_signed: true }).get_global(),
        Global::TypeInt(TypeIntDetails { bit_width: 32, is_signed: true })
    );
}

#[test]
fn fragment_shader_ids() {
    let (module, main, ids) = Module::new_fragment_shader(
        false,
        &[FragmentExecutionMode::OriginUpperLeft],
        &[FragmentInterfaceVariable::Output(vec4_f32())],
    )
    .unwrap();
    let _ = module;
    // void 1, function type 2, main 3, its label 4, then float 5, vector 6, pointer 7.
    assert_eq!(main.value(), 3);
    assert_eq!(main.id_type(), IdType::Function);
    assert_eq!(ids.len(), 1);
    assert_eq!(ids[0].value(), 8);
    assert_eq!(ids[0].id_type(), IdType::GlobalOutput);
}

#[test]
fn fragment_shader_with_glsl_functions_and_builtins() {
    let (_module, main, ids) = Module::new_fragment_shader(
        true,
        &[],
        &[
            FragmentInterfaceVariable::BuiltIn(FragmentBuiltIn::FragCoord),
            FragmentInterfaceVariable::Input(vec4_f32()),
        ],
    )
    .unwrap();
    assert_eq!(main.value(), 4);
    assert_eq!(ids.len(), 2);
    assert_eq!(ids[0].id_type(), IdType::GlobalInput);
    assert_eq!(ids[1].id_type(), IdType::GlobalInput);
    assert_eq!(ids[0].value(), 9);
    assert_eq!(ids[1].value(), 9);
}

#[test]
fn add_global_reuses_declared_ids() {
    let (mut module, _main, _ids) = Module::new_fragment_shader(
        false,
        &[],
        &[FragmentInterfaceVariable::Output(vec4_f32())],
    )
    .unwrap();
    let float = module
        .add_global(Global::TypeFloat(TypeFloatDetails { bit_width: 32 }))
        .unwrap();
    assert_eq!(float.value(), 5);
    assert_eq!(float.id_type(), IdType::Generic);
    let boolean = module.add_global(Global::TypeBool).unwrap();
    assert_eq!(boolean.value(), 9);
    let again = module.add_global(Global::TypeBool).unwrap();
    assert_eq!(again.value(), 9);
    let pointer = module
        .add_global(Global::TypePointer(TypePointerDetails {
            storage_class: StorageClass::Output,
            pointer_type: vec4_f32(),
        }))
        .unwrap();
    assert_eq!(pointer.value(), 7);
}

#[test]
fn new_function_refuses_other_globals() {
    let (mut module, _main, _ids) = Module::new_fragment_shader(false, &[], &[]).unwrap();
    assert!(matches!(module.new_function(Global::TypeBool), Err(Error::InvalidGlobal)));
    let params = [ParameterType::Bool];
    let id = module
        .new_function(Global::TypeFunction(TypeFunctionDetails {
            return_type: ReturnType::Bool,
            parameter_types: &params,
        }))
        .unwrap();
    // void 1, main type 2, main 3, label 4; bool 5, the new type 6, the function 7.
    assert_eq!(id.value(), 7);
    assert_eq!(id.id_type(), IdType::Function);
}

fn int32() -> TypeIntDetails {
    TypeIntDetails { bit_width: 32, is_signed: true }
}

fn initialized_variable() -> Global<'static> {
    Global::Variable(VariableDetails {
        pointer: TypePointerDetails {
            storage_class: StorageClass::Output,
            pointer_type: PointerType::Int(int32()),
        },
        initializer: Some(InitializerType::Constant(ConstantDetails::Int32(7))),
    })
}

fn declaration(g: &Global<'static>) -> Vec<GlobalInstruction<'static>> {
    let mut v = Vec::new();
    g.get_instructions(&mut v);
    v
}

#[test]
fn declarations_count_their_words() {
    let params = [ParameterType::Bool, ParameterType::Int(int32())];
    let function = Global::TypeFunction(TypeFunctionDetails {
        return_type: ReturnType::Void,
        parameter_types: &params,
    });
    let cases: [(Global, u32); 4] = [
        (initialized_variable(), 59),
        (function, 33),
        (Global::Constant(ConstantDetails::Unsigned64(1 << 40)), 43),
        (Global::TypeBool, 20),
    ];
    for (g, opcode) in cases {
        let mut v = vec![GlobalInstruction::Result];
        g.get_instructions(&mut v);
        let emitted = &v[1..];
        match emitted[0] {
            GlobalInstruction::Word(w) => {
                assert_eq!((w >> 16) as usize, emitted.len());
                assert_eq!(w & 0xFFFF, opcode);
            }
            _ => panic!("a declaration opens with its first word"),
        }
        let results = emitted.iter().filter(|x| matches!(x, GlobalInstruction::Result)).count();
        assert_eq!(results, 1);
    }
    assert_eq!(declaration(&Global::TypeBool).len(), 2);
}

#[test]
fn sub_globals_come_before_what_they_depend_on() {
    let g = initialized_variable();
    let mut stack = vec![Global::TypeVoid];
    g.push_sub_globals(&mut stack);
    let pointer = Global::TypePointer(TypePointerDetails {
        storage_class: StorageClass::Output,
        pointer_type: PointerType::Int(int32()),
    });
    assert_eq!(
        stack,
        vec![
            Global::TypeVoid,
            pointer,
            Global::TypeInt(int32()),
            Global::Constant(ConstantDetails::Int32(7)),
            Global::TypeInt(int32()),
        ]
    );
    for i in declaration(&g) {
        if let GlobalInstruction::SubGlobal(x) = i {
            assert!(stack[1..].contains(&x));
        }
    }
    for p in 1..stack.len() {
        for i in declaration(&stack[p]) {
            if let GlobalInstruction::SubGlobal(x) = i {
                assert!(stack[p + 1..].contains(&x));
            }
        }
    }
}
