//! The SPIR-V opcode table and the encoding of an instruction's first word.

use vstd::prelude::*;

verus! {

/// The SPIR-V opcodes, each standing for the number that `opcode` gives.
#[derive(Clone, Copy, Debug, PartialEq, Eq, Structural)]
pub enum OpcodeName {
    Nop,
    Undef,
    SourceContinued,
    Source,
    SourceExtension,
    Name,
    MemberName,
    String,
    Line,
    Extension,
    ExtInstImport,
    ExtInst,
    MemoryModel,
    EntryPoint,
    ExecutionMode,
    Capability,
    TypeVoid,
    TypeBool,
    TypeInt,
    TypeFloat,
    TypeVector,
    TypeMatrix,
    TypeImage,
    TypeSampler,
    TypeSampledImage,
    TypeArray,
    TypeRuntimeArray,
    TypeStruct,
    TypeOpaque,
    TypePointer,
    TypeFunction,
    TypeEvent,
    TypeDeviceEvent,
    TypeReserveId,
    TypeQueue,
    TypePipe,
    TypeForwardPointer,
    ConstantTrue,
    ConstantFalse,
    Constant,
    ConstantComposite,
    ConstantSampler,
    ConstantNull,
    SpecConstantTrue,
    SpecConstantFalse,
    SpecConstant,
    SpecConstantComposite,
    SpecConstantOp,
    Function,
    FunctionParameter,
    FunctionEnd,
    FunctionCall,
    Variable,
    ImageTexelPointer,
    Load,
    Store,
    CopyMemory,
    CopyMemorySized,
    AccessChain,
    InBoundsAccessChain,
    PtrAccessChain,
    ArrayLength,
    GenericPtrMemSemantics,
    InBoundsPtrAccessChain,
    Decorate,
    MemberDecorate,
    DecorationGroup,
    GroupDecorate,
    GroupMemberDecorate,
    VectorExtractDynamic,
    VectorInsertDynamic,
    VectorShuffle,
    CompositeConstruct,
    CompositeExtract,
    CompositeInsert,
    CopyObject,
    Transpose,
    SampledImage,
    ImageSampleImplicitLod,
    ImageSampleExplicitLod,
    ImageSampleDrefImplicitLod,
    ImageSampleDrefExplicitLod,
    ImageSampleProjImplicitLod,
    ImageSampleProjExplicitLod,
    ImageSampleProjDrefImplicitLod,
    ImageSampleProjDrefExplicitLod,
    ImageFetch,
    ImageGather,
    ImageDrefGather,
    ImageRead,
    ImageWrite,
    Image,
    ImageQueryFormat,
    ImageQueryOrder,
    ImageQuerySizeLod,
    ImageQuerySize,
    ImageQueryLod,
    ImageQueryLevels,
    ImageQuerySamples,
    ConvertFToU,
    ConvertFToS,
    ConvertSToF,
    ConvertUToF,
    UConvert,
    SConvert,
    FConvert,
    QuantizeToF16,
    ConvertPtrToU,
    SatConvertSToU,
    SatConvertUToS,
    ConvertUToPtr,
    PtrCastToGeneric,
    GenericCastToPtr,
    GenericCastToPtrExplicit,
    Bitcast,
    SNegate,
    FNegate,
    IAdd,
    FAdd,
    ISub,
    FSub,
    IMul,
    FMul,
    UDiv,
    SDiv,
    FDiv,
    UMod,
    SRem,
    SMod,
    FRem,
    FMod,
    VectorTimesScalar,
    MatrixTimesScalar,
    VectorTimesMatrix,
    MatrixTimesVector,
    MatrixTimesMatrix,
    OuterProduct,
    Dot,
    IAddCarry,
    ISubBorrow,
    UMulExtended,
    SMulExtended,
    Any,
    All,
    IsNan,
    IsInf,
    IsFinite,
    IsNormal,
    SignBitSet,
    LessOrGreater,
    Ordered,
    Unordered,
    LogicalEqual,
    LogicalNotEqual,
    LogicalOr,
    LogicalAnd,
    LogicalNot,
    Select,
    IEqual,
    INotEqual,
    UGreaterThan,
    SGreaterThan,
    UGreaterThanEqual,
    SGreaterThanEqual,
    ULessThan,
    SLessThan,
    ULessThanEqual,
    SLessThanEqual,
    FOrdEqual,
    FUnordEqual,
    FOrdNotEqual,
    FUnordNotEqual,
    FOrdLessThan,
    FUnordLessThan,
    FOrdGreaterThan,
    FUnordGreaterThan,
    FOrdLessThanEqual,
    FUnordLessThanEqual,
    FOrdGreaterThanEqual,
    FUnordGreaterThanEqual,
    ShiftRightLogical,
    ShiftRightArithmetic,
    ShiftLeftLogical,
    BitwiseOr,
    BitwiseXor,
    BitwiseAnd,
    Not,
    BitFieldInsert,
    BitFieldSExtract,
    BitFieldUExtract,
    BitReverse,
    BitCount,
    DPdx,
    DPdy,
    Fwidth,
    DPdxFine,
    DPdyFine,
    FwidthFine,
    DPdxCoarse,
    DPdyCoarse,
    FwidthCoarse,
    EmitVertex,
    EndPrimitive,
    EmitStreamVertex,
    EndStreamPrimitive,
    ControlBarrier,
    MemoryBarrier,
    AtomicLoad,
    AtomicStore,
    AtomicExchange,
    AtomicCompareExchange,
    AtomicCompareExchangeWeak,
    AtomicIIncrement,
    AtomicIDecrement,
    AtomicIAdd,
    AtomicISub,
    AtomicSMin,
    AtomicUMin,
    AtomicSMax,
    AtomicUMax,
    AtomicAnd,
    AtomicOr,
    AtomicXor,
    Phi,
    LoopMerge,
    SelectionMerge,
    Label,
    Branch,
    BranchConditional,
    Switch,
    Kill,
    Return,
    ReturnValue,
    Unreachable,
    LifetimeStart,
    LifetimeStop,
    GroupAsyncCopy,
    GroupWaitEvents,
    GroupAll,
    GroupAny,
    GroupBroadcast,
    GroupIAdd,
    GroupFAdd,
    GroupFMin,
    GroupUMin,
    GroupSMin,
    GroupFMax,
    GroupUMax,
    GroupSMax,
    ReadPipe,
    WritePipe,
    ReservedReadPipe,
    ReservedWritePipe,
    ReserveReadPipePackets,
    ReserveWritePipePackets,
    CommitReadPipe,
    CommitWritePipe,
    IsValidReserveId,
    GetNumPipePackets,
    GetMaxPipePackets,
    GroupReserveReadPipePackets,
    GroupReserveWritePipePackets,
    GroupCommitReadPipe,
    GroupCommitWritePipe,
    EnqueueMarker,
    EnqueueKernel,
    GetKernelNDrangeSubGroupCount,
    GetKernelNDrangeMaxSubGroupSize,
    GetKernelWorkGroupSize,
    GetKernelPreferredWorkGroupSizeMultiple,
    RetainEvent,
    ReleaseEvent,
    CreateUserEvent,
    IsValidEvent,
    SetUserEventStatus,
    CaptureEventProfilingInfo,
    GetDefaultQueue,
    BuildNDRange,
    ImageSparseSampleImplicitLod,
    ImageSparseSampleExplicitLod,
    ImageSparseSampleDrefImplicitLod,
    ImageSparseSampleDrefExplicitLod,
    ImageSparseSampleProjImplicitLod,
    ImageSparseSampleProjExplicitLod,
    ImageSparseSampleProjDrefImplicitLod,
    ImageSparseSampleProjDrefExplicitLod,
    ImageSparseFetch,
    ImageSparseGather,
    ImageSparseDrefGather,
    ImageSparseTexelsResident,
    NoLine,
    AtomicFlagTestAndSet,
    AtomicFlagClear,
    ImageSparseRead,
    SizeOf,
    TypePipeStorage,
    ConstantPipeStorage,
    CreatePipeFromPipeStorage,
    GetKernelLocalSizeForSubgroupCount,
    GetKernelMaxNumSubgroups,
    TypeNamedBarrier,
    NamedBarrierInitialize,
    MemoryNamedBarrier,
    ModuleProcessed,
    ExecutionModeId,
    DecorateId,
    GroupNonUniformElect,
    GroupNonUniformAll,
    GroupNonUniformAny,
    GroupNonUniformAllEqual,
    GroupNonUniformBroadcast,
    GroupNonUniformBroadcastFirst,
    GroupNonUniformBallot,
    GroupNonUniformInverseBallot,
    GroupNonUniformBallotBitExtract,
    GroupNonUniformBallotBitCount,
    GroupNonUniformBallotFindLSB,
    GroupNonUniformBallotFindMSB,
    GroupNonUniformShuffle,
    GroupNonUniformShuffleXor,
    GroupNonUniformShuffleUp,
    GroupNonUniformShuffleDown,
    GroupNonUniformIAdd,
    GroupNonUniformFAdd,
    GroupNonUniformIMul,
    GroupNonUniformFMul,
    GroupNonUniformSMin,
    GroupNonUniformUMin,
    GroupNonUniformFMin,
    GroupNonUniformSMax,
    GroupNonUniformUMax,
    GroupNonUniformFMax,
    GroupNonUniformBitwiseAnd,
    GroupNonUniformBitwiseOr,
    GroupNonUniformBitwiseXor,
    GroupNonUniformLogicalAnd,
    GroupNonUniformLogicalOr,
    GroupNonUniformLogicalXor,
    GroupNonUniformQuadBroadcast,
    GroupNonUniformQuadSwap,
    CopyLogical,
    PtrEqual,
    PtrNotEqual,
    PtrDiff,
    ColorAttachmentReadEXT,
    DepthAttachmentReadEXT,
    StencilAttachmentReadEXT,
    TerminateInvocation,
    SubgroupBallotKHR,
    SubgroupFirstInvocationKHR,
    SubgroupAllKHR,
    SubgroupAnyKHR,
    SubgroupAllEqualKHR,
    GroupNonUniformRotateKHR,
    SubgroupReadInvocationKHR,
    TraceRayKHR,
    ExecuteCallableKHR,
    ConvertUToAccelerationStructureKHR,
    IgnoreIntersectionKHR,
    TerminateRayKHR,
    SDot,
    UDot,
    SUDot,
    SDotAccSat,
    UDotAccSat,
    SUDotAccSat,
    TypeCooperativeMatrixKHR,
    CooperativeMatrixLoadKHR,
    CooperativeMatrixStoreKHR,
    CooperativeMatrixMulAddKHR,
    CooperativeMatrixLengthKHR,
    TypeRayQueryKHR,
    RayQueryInitializeKHR,
    RayQueryTerminateKHR,
    RayQueryGenerateIntersectionKHR,
    RayQueryConfirmIntersectionKHR,
    RayQueryProceedKHR,
    RayQueryGetIntersectionTypeKHR,
    ImageSampleWeightedQCOM,
    ImageBoxFilterQCOM,
    ImageBlockMatchSSDQCOM,
    ImageBlockMatchSADQCOM,
    GroupIAddNonUniformAMD,
    GroupFAddNonUniformAMD,
    GroupFMinNonUniformAMD,
    GroupUMinNonUniformAMD,
    GroupSMinNonUniformAMD,
    GroupFMaxNonUniformAMD,
    GroupUMaxNonUniformAMD,
    GroupSMaxNonUniformAMD,
    FragmentMaskFetchAMD,
    FragmentFetchAMD,
    ReadClockKHR,
    FinalizeNodePayloadsAMDX,
    FinishWritingNodePayloadAMDX,
    InitializeNodePayloadsAMDX,
    HitObjectRecordHitMotionNV,
    HitObjectRecordHitWithIndexMotionNV,
    HitObjectRecordMissMotionNV,
    HitObjectGetWorldToObjectNV,
    HitObjectGetObjectToWorldNV,
    HitObjectGetObjectRayDirectionNV,
    HitObjectGetObjectRayOriginNV,
    HitObjectTraceRayMotionNV,
    HitObjectGetShaderRecordBufferHandleNV,
    HitObjectGetShaderBindingTableRecordIndexNV,
    HitObjectRecordEmptyNV,
    HitObjectTraceRayNV,
    HitObjectRecordHitNV,
    HitObjectRecordHitWithIndexNV,
    HitObjectRecordMissNV,
    HitObjectExecuteShaderNV,
    HitObjectGetCurrentTimeNV,
    HitObjectGetAttributesNV,
    HitObjectGetHitKindNV,
    HitObjectGetPrimitiveIndexNV,
    HitObjectGetGeometryIndexNV,
    HitObjectGetInstanceIdNV,
    HitObjectGetInstanceCustomIndexNV,
    HitObjectGetWorldRayDirectionNV,
    HitObjectGetWorldRayOriginNV,
    HitObjectGetRayTMaxNV,
    HitObjectGetRayTMinNV,
    HitObjectIsEmptyNV,
    HitObjectIsHitNV,
    HitObjectIsMissNV,
    ReorderThreadWithHitObjectNV,
    ReorderThreadWithHintNV,
    TypeHitObjectNV,
    ImageSampleFootprintNV,
    EmitMeshTasksEXT,
    SetMeshOutputsEXT,
    GroupNonUniformPartitionNV,
    WritePackedPrimitiveIndices4x8NV,
    FetchMicroTriangleVertexPositionNV,
    FetchMicroTriangleVertexBarycentricNV,
    ReportIntersectionKHR,
    IgnoreIntersectionNV,
    TerminateRayNV,
    TraceNV,
    TraceMotionNV,
    TraceRayMotionNV,
    RayQueryGetIntersectionTriangleVertexPositionsKHR,
    TypeAccelerationStructureKHR,
    ExecuteCallableNV,
    TypeCooperativeMatrixNV,
    CooperativeMatrixLoadNV,
    CooperativeMatrixStoreNV,
    CooperativeMatrixMulAddNV,
    CooperativeMatrixLengthNV,
    BeginInvocationInterlockEXT,
    EndInvocationInterlockEXT,
    DemoteToHelperInvocation,
    IsHelperInvocationEXT,
    ConvertUToImageNV,
    ConvertUToSamplerNV,
    ConvertImageToUNV,
    ConvertSamplerToUNV,
    ConvertUToSampledImageNV,
    ConvertSampledImageToUNV,
    SamplerImageAddressingModeNV,
    SubgroupShuffleINTEL,
    SubgroupShuffleDownINTEL,
    SubgroupShuffleUpINTEL,
    SubgroupShuffleXorINTEL,
    SubgroupBlockReadINTEL,
    SubgroupBlockWriteINTEL,
    SubgroupImageBlockReadINTEL,
    SubgroupImageBlockWriteINTEL,
    SubgroupImageMediaBlockReadINTEL,
    SubgroupImageMediaBlockWriteINTEL,
    UCountLeadingZerosINTEL,
    UCountTrailingZerosINTEL,
    AbsISubINTEL,
    AbsUSubINTEL,
    IAddSatINTEL,
    UAddSatINTEL,
    IAverageINTEL,
    UAverageINTEL,
    IAverageRoundedINTEL,
    UAverageRoundedINTEL,
    ISubSatINTEL,
    USubSatINTEL,
    IMul32x16INTEL,
    UMul32x16INTEL,
    ConstantFunctionPointerINTEL,
    FunctionPointerCallINTEL,
    AsmTargetINTEL,
    AsmINTEL,
    AsmCallINTEL,
    AtomicFMinEXT,
    AtomicFMaxEXT,
    AssumeTrueKHR,
    ExpectKHR,
    DecorateString,
    MemberDecorateString,
    VmeImageINTEL,
    TypeVmeImageINTEL,
    TypeAvcImePayloadINTEL,
    TypeAvcRefPayloadINTEL,
    TypeAvcSicPayloadINTEL,
    TypeAvcMcePayloadINTEL,
    TypeAvcMceResultINTEL,
    TypeAvcImeResultINTEL,
    TypeAvcImeResultSingleReferenceStreamoutINTEL,
    TypeAvcImeResultDualReferenceStreamoutINTEL,
    TypeAvcImeSingleReferenceStreaminINTEL,
    TypeAvcImeDualReferenceStreaminINTEL,
    TypeAvcRefResultINTEL,
    TypeAvcSicResultINTEL,
    SubgroupAvcMceGetDefaultInterBaseMultiReferencePenaltyINTEL,
    SubgroupAvcMceSetInterBaseMultiReferencePenaltyINTEL,
    SubgroupAvcMceGetDefaultInterShapePenaltyINTEL,
    SubgroupAvcMceSetInterShapePenaltyINTEL,
    SubgroupAvcMceGetDefaultInterDirectionPenaltyINTEL,
    SubgroupAvcMceSetInterDirectionPenaltyINTEL,
    SubgroupAvcMceGetDefaultIntraLumaShapePenaltyINTEL,
    SubgroupAvcMceGetDefaultInterMotionVectorCostTableINTEL,
    SubgroupAvcMceGetDefaultHighPenaltyCostTableINTEL,
    SubgroupAvcMceGetDefaultMediumPenaltyCostTableINTEL,
    SubgroupAvcMceGetDefaultLowPenaltyCostTableINTEL,
    SubgroupAvcMceSetMotionVectorCostFunctionINTEL,
    SubgroupAvcMceGetDefaultIntraLumaModePenaltyINTEL,
    SubgroupAvcMceGetDefaultNonDcLumaIntraPenaltyINTEL,
    SubgroupAvcMceGetDefaultIntraChromaModeBasePenaltyINTEL,
    SubgroupAvcMceSetAcOnlyHaarINTEL,
    SubgroupAvcMceSetSourceInterlacedFieldPolarityINTEL,
    SubgroupAvcMceSetSingleReferenceInterlacedFieldPolarityINTEL,
    SubgroupAvcMceSetDualReferenceInterlacedFieldPolaritiesINTEL,
    SubgroupAvcMceConvertToImePayloadINTEL,
    SubgroupAvcMceConvertToImeResultINTEL,
    SubgroupAvcMceConvertToRefPayloadINTEL,
    SubgroupAvcMceConvertToRefResultINTEL,
    SubgroupAvcMceConvertToSicPayloadINTEL,
    SubgroupAvcMceConvertToSicResultINTEL,
    SubgroupAvcMceGetMotionVectorsINTEL,
    SubgroupAvcMceGetInterDistortionsINTEL,
    SubgroupAvcMceGetBestInterDistortionsINTEL,
    SubgroupAvcMceGetInterMajorShapeINTEL,
    SubgroupAvcMceGetInterMinorShapeINTEL,
    SubgroupAvcMceGetInterDirectionsINTEL,
    SubgroupAvcMceGetInterMotionVectorCountINTEL,
    SubgroupAvcMceGetInterReferenceIdsINTEL,
    SubgroupAvcMceGetInterReferenceInterlacedFieldPolaritiesINTEL,
    SubgroupAvcImeInitializeINTEL,
    SubgroupAvcImeSetSingleReferenceINTEL,
    SubgroupAvcImeSetDualReferenceINTEL,
    SubgroupAvcImeRefWindowSizeINTEL,
    SubgroupAvcImeAdjustRefOffsetINTEL,
    SubgroupAvcImeConvertToMcePayloadINTEL,
    SubgroupAvcImeSetMaxMotionVectorCountINTEL,
    SubgroupAvcImeSetUnidirectionalMixDisableINTEL,
    SubgroupAvcImeSetEarlySearchTerminationThresholdINTEL,
    SubgroupAvcImeSetWeightedSadINTEL,
    SubgroupAvcImeEvaluateWithSingleReferenceINTEL,
    SubgroupAvcImeEvaluateWithDualReferenceINTEL,
    SubgroupAvcImeEvaluateWithSingleReferenceStreaminINTEL,
    SubgroupAvcImeEvaluateWithDualReferenceStreaminINTEL,
    SubgroupAvcImeEvaluateWithSingleReferenceStreamoutINTEL,
    SubgroupAvcImeEvaluateWithDualReferenceStreamoutINTEL,
    SubgroupAvcImeEvaluateWithSingleReferenceStreaminoutINTEL,
    SubgroupAvcImeEvaluateWithDualReferenceStreaminoutINTEL,
    SubgroupAvcImeConvertToMceResultINTEL,
    SubgroupAvcImeGetSingleReferenceStreaminINTEL,
    SubgroupAvcImeGetDualReferenceStreaminINTEL,
    SubgroupAvcImeStripSingleReferenceStreamoutINTEL,
    SubgroupAvcImeStripDualReferenceStreamoutINTEL,
    SubgroupAvcImeGetStreamoutSingleReferenceMajorShapeMotionVectorsINTEL,
    SubgroupAvcImeGetStreamoutSingleReferenceMajorShapeDistortionsINTEL,
    SubgroupAvcImeGetStreamoutSingleReferenceMajorShapeReferenceIdsINTEL,
    SubgroupAvcImeGetStreamoutDualReferenceMajorShapeMotionVectorsINTEL,
    SubgroupAvcImeGetStreamoutDualReferenceMajorShapeDistortionsINTEL,
    SubgroupAvcImeGetStreamoutDualReferenceMajorShapeReferenceIdsINTEL,
    SubgroupAvcImeGetBorderReachedINTEL,
    SubgroupAvcImeGetTruncatedSearchIndicationINTEL,
    SubgroupAvcImeGetUnidirectionalEarlySearchTerminationINTEL,
    SubgroupAvcImeGetWeightingPatternMinimumMotionVectorINTEL,
    SubgroupAvcImeGetWeightingPatternMinimumDistortionINTEL,
    SubgroupAvcFmeInitializeINTEL,
    SubgroupAvcBmeInitializeINTEL,
    SubgroupAvcRefConvertToMcePayloadINTEL,
    SubgroupAvcRefSetBidirectionalMixDisableINTEL,
    SubgroupAvcRefSetBilinearFilterEnableINTEL,
    SubgroupAvcRefEvaluateWithSingleReferenceINTEL,
    SubgroupAvcRefEvaluateWithDualReferenceINTEL,
    SubgroupAvcRefEvaluateWithMultiReferenceINTEL,
    SubgroupAvcRefEvaluateWithMultiReferenceInterlacedINTEL,
    SubgroupAvcRefConvertToMceResultINTEL,
    SubgroupAvcSicInitializeINTEL,
    SubgroupAvcSicConfigureSkcINTEL,
    SubgroupAvcSicConfigureIpeLumaINTEL,
    SubgroupAvcSicConfigureIpeLumaChromaINTEL,
    SubgroupAvcSicGetMotionVectorMaskINTEL,
    SubgroupAvcSicConvertToMcePayloadINTEL,
    SubgroupAvcSicSetIntraLumaShapePenaltyINTEL,
    SubgroupAvcSicSetIntraLumaModeCostFunctionINTEL,
    SubgroupAvcSicSetIntraChromaModeCostFunctionINTEL,
    SubgroupAvcSicSetBilinearFilterEnableINTEL,
    SubgroupAvcSicSetSkcForwardTransformEnableINTEL,
    SubgroupAvcSicSetBlockBasedRawSkipSadINTEL,
    SubgroupAvcSicEvaluateIpeINTEL,
    SubgroupAvcSicEvaluateWithSingleReferenceINTEL,
    SubgroupAvcSicEvaluateWithDualReferenceINTEL,
    SubgroupAvcSicEvaluateWithMultiReferenceINTEL,
    SubgroupAvcSicEvaluateWithMultiReferenceInterlacedINTEL,
    SubgroupAvcSicConvertToMceResultINTEL,
    SubgroupAvcSicGetIpeLumaShapeINTEL,
    SubgroupAvcSicGetBestIpeLumaDistortionINTEL,
    SubgroupAvcSicGetBestIpeChromaDistortionINTEL,
    SubgroupAvcSicGetPackedIpeLumaModesINTEL,
    SubgroupAvcSicGetIpeChromaModeINTEL,
    SubgroupAvcSicGetPackedSkcLumaCountThresholdINTEL,
    SubgroupAvcSicGetPackedSkcLumaSumThresholdINTEL,
    SubgroupAvcSicGetInterRawSadsINTEL,
    VariableLengthArrayINTEL,
    SaveMemoryINTEL,
    RestoreMemoryINTEL,
    ArbitraryFloatSinCosPiINTEL,
    ArbitraryFloatCastINTEL,
    ArbitraryFloatCastFromIntINTEL,
    ArbitraryFloatCastToIntINTEL,
    ArbitraryFloatAddINTEL,
    ArbitraryFloatSubINTEL,
    ArbitraryFloatMulINTEL,
    ArbitraryFloatDivINTEL,
    ArbitraryFloatGTINTEL,
    ArbitraryFloatGEINTEL,
    ArbitraryFloatLTINTEL,
    ArbitraryFloatLEINTEL,
    ArbitraryFloatEQINTEL,
    ArbitraryFloatRecipINTEL,
    ArbitraryFloatRSqrtINTEL,
    ArbitraryFloatCbrtINTEL,
    ArbitraryFloatHypotINTEL,
    ArbitraryFloatSqrtINTEL,
    ArbitraryFloatLogINTEL,
    ArbitraryFloatLog2INTEL,
    ArbitraryFloatLog10INTEL,
    ArbitraryFloatLog1pINTEL,
    ArbitraryFloatExpINTEL,
    ArbitraryFloatExp2INTEL,
    ArbitraryFloatExp10INTEL,
    ArbitraryFloatExpm1INTEL,
    ArbitraryFloatSinINTEL,
    ArbitraryFloatCosINTEL,
    ArbitraryFloatSinCosINTEL,
    ArbitraryFloatSinPiINTEL,
    ArbitraryFloatCosPiINTEL,
    ArbitraryFloatASinINTEL,
    ArbitraryFloatASinPiINTEL,
    ArbitraryFloatACosINTEL,
    ArbitraryFloatACosPiINTEL,
    ArbitraryFloatATanINTEL,
    ArbitraryFloatATanPiINTEL,
    ArbitraryFloatATan2INTEL,
    ArbitraryFloatPowINTEL,
    ArbitraryFloatPowRINTEL,
    ArbitraryFloatPowNINTEL,
    LoopControlINTEL,
    AliasDomainDeclINTEL,
    AliasScopeDeclINTEL,
    AliasScopeListDeclINTEL,
    FixedSqrtINTEL,
    FixedRecipINTEL,
    FixedRsqrtINTEL,
    FixedSinINTEL,
    FixedCosINTEL,
    FixedSinCosINTEL,
    FixedSinPiINTEL,
    FixedCosPiINTEL,
    FixedSinCosPiINTEL,
    FixedLogINTEL,
    FixedExpINTEL,
    PtrCastToCrossWorkgroupINTEL,
    CrossWorkgroupCastToPtrINTEL,
    ReadPipeBlockingINTEL,
    WritePipeBlockingINTEL,
    FPGARegINTEL,
    RayQueryGetRayTMinKHR,
    RayQueryGetRayFlagsKHR,
    RayQueryGetIntersectionTKHR,
    RayQueryGetIntersectionInstanceCustomIndexKHR,
    RayQueryGetIntersectionInstanceIdKHR,
    RayQueryGetIntersectionInstanceShaderBindingTableRecordOffsetKHR,
    RayQueryGetIntersectionGeometryIndexKHR,
    RayQueryGetIntersectionPrimitiveIndexKHR,
    RayQueryGetIntersectionBarycentricsKHR,
    RayQueryGetIntersectionFrontFaceKHR,
    RayQueryGetIntersectionCandidateAABBOpaqueKHR,
    RayQueryGetIntersectionObjectRayDirectionKHR,
    RayQueryGetIntersectionObjectRayOriginKHR,
    RayQueryGetWorldRayDirectionKHR,
    RayQueryGetWorldRayOriginKHR,
    RayQueryGetIntersectionObjectToWorldKHR,
    RayQueryGetIntersectionWorldToObjectKHR,
    AtomicFAddEXT,
    TypeBufferSurfaceINTEL,
    TypeStructContinuedINTEL,
    ConstantCompositeContinuedINTEL,
    SpecConstantCompositeContinuedINTEL,
    ConvertFToBF16INTEL,
    ConvertBF16ToFINTEL,
    ControlBarrierArriveINTEL,
    ControlBarrierWaitINTEL,
    GroupIMulKHR,
    GroupFMulKHR,
    GroupBitwiseAndKHR,
    GroupBitwiseOrKHR,
    GroupBitwiseXorKHR,
    GroupLogicalAndKHR,
    GroupLogicalOrKHR,
    GroupLogicalXorKHR,
}

/// The first word of an instruction: the word count in the high half, the opcode in the low half.
pub open spec fn encode_word0(opcode: u16, word_count: u16) -> u32 {
    (word_count as int * 0x10000 + opcode as int) as u32
}

impl OpcodeName {
    /// The number that SPIR-V gives this opcode.
    pub open spec fn opcode(self) -> u16 {
        if self.opcode_part0() is Some { self.opcode_part0().unwrap() } else { if self.opcode_part1() is Some { self.opcode_part1().unwrap() } else { if self.opcode_part2() is Some { self.opcode_part2().unwrap() } else { if self.opcode_part3() is Some { self.opcode_part3().unwrap() } else { if self.opcode_part4() is Some { self.opcode_part4().unwrap() } else { if self.opcode_part5() is Some { self.opcode_part5().unwrap() } else { if self.opcode_part6() is Some { self.opcode_part6().unwrap() } else { self.opcode_part7().unwrap() } } } } } } }
    }

    /// The numbers of one slice of the opcode table.
    pub open spec fn opcode_part0(self) -> Option<u16> {
        match self {
            Self::Nop => Some(0),
            Self::Undef => Some(1),
            Self::SourceContinued => Some(2),
            Self::Source => Some(3),
            Self::SourceExtension => Some(4),
            Self::Name => Some(5),
            Self::MemberName => Some(6),
            Self::String => Some(7),
            Self::Line => Some(8),
            Self::Extension => Some(10),
            Self::ExtInstImport => Some(11),
            Self::ExtInst => Some(12),
            Self::MemoryModel => Some(14),
            Self::EntryPoint => Some(15),
            Self::ExecutionMode => Some(16),
            Self::Capability => Some(17),
            Self::TypeVoid => Some(19),
            Self::TypeBool => Some(20),
            Self::TypeInt => Some(21),
            Self::TypeFloat => Some(22),
            Self::TypeVector => Some(23),
            Self::TypeMatrix => Some(24),
            Self::TypeImage => Some(25),
            Self::TypeSampler => Some(26),
            Self::TypeSampledImage => Some(27),
            Self::TypeArray => Some(28),
            Self::TypeRuntimeArray => Some(29),
            Self::TypeStruct => Some(30),
            Self::TypeOpaque => Some(31),
            Self::TypePointer => Some(32),
            Self::TypeFunction => Some(33),
            Self::TypeEvent => Some(34),
            Self::TypeDeviceEvent => Some(35),
            Self::TypeReserveId => Some(36),
            Self::TypeQueue => Some(37),
            Self::TypePipe => Some(38),
            Self::TypeForwardPointer => Some(39),
            Self::ConstantTrue => Some(41),
            Self::ConstantFalse => Some(42),
            Self::Constant => Some(43),
            Self::ConstantComposite => Some(44),
            Self::ConstantSampler => Some(45),
            Self::ConstantNull => Some(46),
            Self::SpecConstantTrue => Some(48),
            Self::SpecConstantFalse => Some(49),
            Self::SpecConstant => Some(50),
            Self::SpecConstantComposite => Some(51),
            Self::SpecConstantOp => Some(52),
            Self::Function => Some(54),
            Self::FunctionParameter => Some(55),
            Self::FunctionEnd => Some(56),
            Self::FunctionCall => Some(57),
            Self::Variable => Some(59),
            Self::ImageTexelPointer => Some(60),
            Self::Load => Some(61),
            Self::Store => Some(62),
            Self::CopyMemory => Some(63),
            Self::CopyMemorySized => Some(64),
            Self::AccessChain => Some(65),
            Self::InBoundsAccessChain => Some(66),
            Self::PtrAccessChain => Some(67),
            Self::ArrayLength => Some(68),
            Self::GenericPtrMemSemantics => Some(69),
            Self::InBoundsPtrAccessChain => Some(70),
            Self::Decorate => Some(71),
            Self::MemberDecorate => Some(72),
            Self::DecorationGroup => Some(73),
            Self::GroupDecorate => Some(74),
            Self::GroupMemberDecorate => Some(75),
            Self::VectorExtractDynamic => Some(77),
            Self::VectorInsertDynamic => Some(78),
            Self::VectorShuffle => Some(79),
            Self::CompositeConstruct => Some(80),
            Self::CompositeExtract => Some(81),
            Self::CompositeInsert => Some(82),
            Self::CopyObject => Some(83),
            Self::Transpose => Some(84),
            Self::SampledImage => Some(86),
            Self::ImageSampleImplicitLod => Some(87),
            Self::ImageSampleExplicitLod => Some(88),
            Self::ImageSampleDrefImplicitLod => Some(89),
            Self::ImageSampleDrefExplicitLod => Some(90),
            Self::ImageSampleProjImplicitLod => Some(91),
            Self::ImageSampleProjExplicitLod => Some(92),
            Self::ImageSampleProjDrefImplicitLod => Some(93),
            Self::ImageSampleProjDrefExplicitLod => Some(94),
            Self::ImageFetch => Some(95),
            Self::ImageGather => Some(96),
            Self::ImageDrefGather => Some(97),
            Self::ImageRead => Some(98),
            _ => None,
        }
    }

    /// The numbers of one slice of the opcode table.
    pub open spec fn opcode_part1(self) -> Option<u16> {
        match self {
            Self::ImageWrite => Some(99),
            Self::Image => Some(100),
            Self::ImageQueryFormat => Some(101),
            Self::ImageQueryOrder => Some(102),
            Self::ImageQuerySizeLod => Some(103),
            Self::ImageQuerySize => Some(104),
            Self::ImageQueryLod => Some(105),
            Self::ImageQueryLevels => Some(106),
            Self::ImageQuerySamples => Some(107),
            Self::ConvertFToU => Some(109),
            Self::ConvertFToS => Some(110),
            Self::ConvertSToF => Some(111),
            Self::ConvertUToF => Some(112),
            Self::UConvert => Some(113),
            Self::SConvert => Some(114),
            Self::FConvert => Some(115),
            Self::QuantizeToF16 => Some(116),
            Self::ConvertPtrToU => Some(117),
            Self::SatConvertSToU => Some(118),
            Self::SatConvertUToS => Some(119),
            Self::ConvertUToPtr => Some(120),
            Self::PtrCastToGeneric => Some(121),
            Self::GenericCastToPtr => Some(122),
            Self::GenericCastToPtrExplicit => Some(123),
            Self::Bitcast => Some(124),
            Self::SNegate => Some(126),
            Self::FNegate => Some(127),
            Self::IAdd => Some(128),
            Self::FAdd => Some(129),
            Self::ISub => Some(130),
            Self::FSub => Some(131),
            Self::IMul => Some(132),
            Self::FMul => Some(133),
            Self::UDiv => Some(134),
            Self::SDiv => Some(135),
            Self::FDiv => Some(136),
            Self::UMod => Some(137),
            Self::SRem => Some(138),
            Self::SMod => Some(139),
            Self::FRem => Some(140),
            Self::FMod => Some(141),
            Self::VectorTimesScalar => Some(142),
            Self::MatrixTimesScalar => Some(143),
            Self::VectorTimesMatrix => Some(144),
            Self::MatrixTimesVector => Some(145),
            Self::MatrixTimesMatrix => Some(146),
            Self::OuterProduct => Some(147),
            Self::Dot => Some(148),
            Self::IAddCarry => Some(149),
            Self::ISubBorrow => Some(150),
            Self::UMulExtended => Some(151),
            Self::SMulExtended => Some(152),
            Self::Any => Some(154),
            Self::All => Some(155),
            Self::IsNan => Some(156),
            Self::IsInf => Some(157),
            Self::IsFinite => Some(158),
            Self::IsNormal => Some(159),
            Self::SignBitSet => Some(160),
            Self::LessOrGreater => Some(161),
            Self::Ordered => Some(162),
            Self::Unordered => Some(163),
            Self::LogicalEqual => Some(164),
            Self::LogicalNotEqual => Some(165),
            Self::LogicalOr => Some(166),
            Self::LogicalAnd => Some(167),
            Self::LogicalNot => Some(168),
            Self::Select => Some(169),
            Self::IEqual => Some(170),
            Self::INotEqual => Some(171),
            Self::UGreaterThan => Some(172),
            Self::SGreaterThan => Some(173),
            Self::UGreaterThanEqual => Some(174),
            Self::SGreaterThanEqual => Some(175),
            Self::ULessThan => Some(176),
            Self::SLessThan => Some(177),
            Self::ULessThanEqual => Some(178),
            Self::SLessThanEqual => Some(179),
            Self::FOrdEqual => Some(180),
            Self::FUnordEqual => Some(181),
            Self::FOrdNotEqual => Some(182),
            Self::FUnordNotEqual => Some(183),
            Self::FOrdLessThan => Some(184),
            Self::FUnordLessThan => Some(185),
            Self::FOrdGreaterThan => Some(186),
            Self::FUnordGreaterThan => Some(187),
            Self::FOrdLessThanEqual => Some(188),
            Self::FUnordLessThanEqual => Some(189),
            Self::FOrdGreaterThanEqual => Some(190),
            Self::FUnordGreaterThanEqual => Some(191),
            _ => None,
        }
    }

    /// The numbers of one slice of the opcode table.
    pub open spec fn opcode_part2(self) -> Option<u16> {
        match self {
            Self::ShiftRightLogical => Some(194),
            Self::ShiftRightArithmetic => Some(195),
            Self::ShiftLeftLogical => Some(196),
            Self::BitwiseOr => Some(197),
            Self::BitwiseXor => Some(198),
            Self::BitwiseAnd => Some(199),
            Self::Not => Some(200),
            Self::BitFieldInsert => Some(201),
            Self::BitFieldSExtract => Some(202),
            Self::BitFieldUExtract => Some(203),
            Self::BitReverse => Some(204),
            Self::BitCount => Some(205),
            Self::DPdx => Some(207),
            Self::DPdy => Some(208),
            Self::Fwidth => Some(209),
            Self::DPdxFine => Some(210),
            Self::DPdyFine => Some(211),
            Self::FwidthFine => Some(212),
            Self::DPdxCoarse => Some(213),
            Self::DPdyCoarse => Some(214),
            Self::FwidthCoarse => Some(215),
            Self::EmitVertex => Some(218),
            Self::EndPrimitive => Some(219),
            Self::EmitStreamVertex => Some(220),
            Self::EndStreamPrimitive => Some(221),
            Self::ControlBarrier => Some(224),
            Self::MemoryBarrier => Some(225),
            Self::AtomicLoad => Some(227),
            Self::AtomicStore => Some(228),
            Self::AtomicExchange => Some(229),
            Self::AtomicCompareExchange => Some(230),
            Self::AtomicCompareExchangeWeak => Some(231),
            Self::AtomicIIncrement => Some(232),
            Self::AtomicIDecrement => Some(233),
            Self::AtomicIAdd => Some(234),
            Self::AtomicISub => Some(235),
            Self::AtomicSMin => Some(236),
            Self::AtomicUMin => Some(237),
            Self::AtomicSMax => Some(238),
            Self::AtomicUMax => Some(239),
            Self::AtomicAnd => Some(240),
            Self::AtomicOr => Some(241),
            Self::AtomicXor => Some(242),
            Self::Phi => Some(245),
            Self::LoopMerge => Some(246),
            Self::SelectionMerge => Some(247),
            Self::Label => Some(248),
            Self::Branch => Some(249),
            Self::BranchConditional => Some(250),
            Self::Switch => Some(251),
            Self::Kill => Some(252),
            Self::Return => Some(253),
            Self::ReturnValue => Some(254),
            Self::Unreachable => Some(255),
            Self::LifetimeStart => Some(256),
            Self::LifetimeStop => Some(257),
            Self::GroupAsyncCopy => Some(259),
            Self::GroupWaitEvents => Some(260),
            Self::GroupAll => Some(261),
            Self::GroupAny => Some(262),
            Self::GroupBroadcast => Some(263),
            Self::GroupIAdd => Some(264),
            Self::GroupFAdd => Some(265),
            Self::GroupFMin => Some(266),
            Self::GroupUMin => Some(267),
            Self::GroupSMin => Some(268),
            Self::GroupFMax => Some(269),
            Self::GroupUMax => Some(270),
            Self::GroupSMax => Some(271),
            Self::ReadPipe => Some(274),
            Self::WritePipe => Some(275),
            Self::ReservedReadPipe => Some(276),
            Self::ReservedWritePipe => Some(277),
            Self::ReserveReadPipePackets => Some(278),
            Self::ReserveWritePipePackets => Some(279),
            Self::CommitReadPipe => Some(280),
            Self::CommitWritePipe => Some(281),
            Self::IsValidReserveId => Some(282),
            Self::GetNumPipePackets => Some(283),
            Self::GetMaxPipePackets => Some(284),
            Self::GroupReserveReadPipePackets => Some(285),
            Self::GroupReserveWritePipePackets => Some(286),
            Self::GroupCommitReadPipe => Some(287),
            Self::GroupCommitWritePipe => Some(288),
            Self::EnqueueMarker => Some(291),
            Self::EnqueueKernel => Some(292),
            Self::GetKernelNDrangeSubGroupCount => Some(293),
            Self::GetKernelNDrangeMaxSubGroupSize => Some(294),
            Self::GetKernelWorkGroupSize => Some(295),
            Self::GetKernelPreferredWorkGroupSizeMultiple => Some(296),
            _ => None,
        }
    }

    /// The numbers of one slice of the opcode table.
    pub open spec fn opcode_part3(self) -> Option<u16> {
        match self {
            Self::RetainEvent => Some(297),
            Self::ReleaseEvent => Some(298),
            Self::CreateUserEvent => Some(299),
            Self::IsValidEvent => Some(300),
            Self::SetUserEventStatus => Some(301),
            Self::CaptureEventProfilingInfo => Some(302),
            Self::GetDefaultQueue => Some(303),
            Self::BuildNDRange => Some(304),
            Self::ImageSparseSampleImplicitLod => Some(305),
            Self::ImageSparseSampleExplicitLod => Some(306),
            Self::ImageSparseSampleDrefImplicitLod => Some(307),
            Self::ImageSparseSampleDrefExplicitLod => Some(308),
            Self::ImageSparseSampleProjImplicitLod => Some(309),
            Self::ImageSparseSampleProjExplicitLod => Some(310),
            Self::ImageSparseSampleProjDrefImplicitLod => Some(311),
            Self::ImageSparseSampleProjDrefExplicitLod => Some(312),
            Self::ImageSparseFetch => Some(313),
            Self::ImageSparseGather => Some(314),
            Self::ImageSparseDrefGather => Some(315),
            Self::ImageSparseTexelsResident => Some(316),
            Self::NoLine => Some(317),
            Self::AtomicFlagTestAndSet => Some(318),
            Self::AtomicFlagClear => Some(319),
            Self::ImageSparseRead => Some(320),
            Self::SizeOf => Some(321),
            Self::TypePipeStorage => Some(322),
            Self::ConstantPipeStorage => Some(323),
            Self::CreatePipeFromPipeStorage => Some(324),
            Self::GetKernelLocalSizeForSubgroupCount => Some(325),
            Self::GetKernelMaxNumSubgroups => Some(326),
            Self::TypeNamedBarrier => Some(327),
            Self::NamedBarrierInitialize => Some(328),
            Self::MemoryNamedBarrier => Some(329),
            Self::ModuleProcessed => Some(330),
            Self::ExecutionModeId => Some(331),
            Self::DecorateId => Some(332),
            Self::GroupNonUniformElect => Some(333),
            Self::GroupNonUniformAll => Some(334),
            Self::GroupNonUniformAny => Some(335),
            Self::GroupNonUniformAllEqual => Some(336),
            Self::GroupNonUniformBroadcast => Some(337),
            Self::GroupNonUniformBroadcastFirst => Some(338),
            Self::GroupNonUniformBallot => Some(339),
            Self::GroupNonUniformInverseBallot => Some(340),
            Self::GroupNonUniformBallotBitExtract => Some(341),
            Self::GroupNonUniformBallotBitCount => Some(342),
            Self::GroupNonUniformBallotFindLSB => Some(343),
            Self::GroupNonUniformBallotFindMSB => Some(344),
            Self::GroupNonUniformShuffle => Some(345),
            Self::GroupNonUniformShuffleXor => Some(346),
            Self::GroupNonUniformShuffleUp => Some(347),
            Self::GroupNonUniformShuffleDown => Some(348),
            Self::GroupNonUniformIAdd => Some(349),
            Self::GroupNonUniformFAdd => Some(350),
            Self::GroupNonUniformIMul => Some(351),
            Self::GroupNonUniformFMul => Some(352),
            Self::GroupNonUniformSMin => Some(353),
            Self::GroupNonUniformUMin => Some(354),
            Self::GroupNonUniformFMin => Some(355),
            Self::GroupNonUniformSMax => Some(356),
            Self::GroupNonUniformUMax => Some(357),
            Self::GroupNonUniformFMax => Some(358),
            Self::GroupNonUniformBitwiseAnd => Some(359),
            Self::GroupNonUniformBitwiseOr => Some(360),
            Self::GroupNonUniformBitwiseXor => Some(361),
            Self::GroupNonUniformLogicalAnd => Some(362),
            Self::GroupNonUniformLogicalOr => Some(363),
            Self::GroupNonUniformLogicalXor => Some(364),
            Self::GroupNonUniformQuadBroadcast => Some(365),
            Self::GroupNonUniformQuadSwap => Some(366),
            Self::CopyLogical => Some(400),
            Self::PtrEqual => Some(401),
            Self::PtrNotEqual => Some(402),
            Self::PtrDiff => Some(403),
            Self::ColorAttachmentReadEXT => Some(4160),
            Self::DepthAttachmentReadEXT => Some(4161),
            Self::StencilAttachmentReadEXT => Some(4162),
            Self::TerminateInvocation => Some(4416),
            Self::SubgroupBallotKHR => Some(4421),
            Self::SubgroupFirstInvocationKHR => Some(4422),
            Self::SubgroupAllKHR => Some(4428),
            Self::SubgroupAnyKHR => Some(4429),
            Self::SubgroupAllEqualKHR => Some(4430),
            Self::GroupNonUniformRotateKHR => Some(4431),
            Self::SubgroupReadInvocationKHR => Some(4432),
            Self::TraceRayKHR => Some(4445),
            Self::ExecuteCallableKHR => Some(4446),
            Self::ConvertUToAccelerationStructureKHR => Some(4447),
            Self::IgnoreIntersectionKHR => Some(4448),
            Self::TerminateRayKHR => Some(4449),
            _ => None,
        }
    }

    /// The numbers of one slice of the opcode table.
    pub open spec fn opcode_part4(self) -> Option<u16> {
        match self {
            Self::SDot => Some(4450),
            Self::UDot => Some(4451),
            Self::SUDot => Some(4452),
            Self::SDotAccSat => Some(4453),
            Self::UDotAccSat => Some(4454),
            Self::SUDotAccSat => Some(4455),
            Self::TypeCooperativeMatrixKHR => Some(4456),
            Self::CooperativeMatrixLoadKHR => Some(4457),
            Self::CooperativeMatrixStoreKHR => Some(4458),
            Self::CooperativeMatrixMulAddKHR => Some(4459),
            Self::CooperativeMatrixLengthKHR => Some(4460),
            Self::TypeRayQueryKHR => Some(4472),
            Self::RayQueryInitializeKHR => Some(4473),
            Self::RayQueryTerminateKHR => Some(4474),
            Self::RayQueryGenerateIntersectionKHR => Some(4475),
            Self::RayQueryConfirmIntersectionKHR => Some(4476),
            Self::RayQueryProceedKHR => Some(4477),
            Self::RayQueryGetIntersectionTypeKHR => Some(4479),
            Self::ImageSampleWeightedQCOM => Some(4480),
            Self::ImageBoxFilterQCOM => Some(4481),
            Self::ImageBlockMatchSSDQCOM => Some(4482),
            Self::ImageBlockMatchSADQCOM => Some(4483),
            Self::GroupIAddNonUniformAMD => Some(5000),
            Self::GroupFAddNonUniformAMD => Some(5001),
            Self::GroupFMinNonUniformAMD => Some(5002),
            Self::GroupUMinNonUniformAMD => Some(5003),
            Self::GroupSMinNonUniformAMD => Some(5004),
            Self::GroupFMaxNonUniformAMD => Some(5005),
            Self::GroupUMaxNonUniformAMD => Some(5006),
            Self::GroupSMaxNonUniformAMD => Some(5007),
            Self::FragmentMaskFetchAMD => Some(5011),
            Self::FragmentFetchAMD => Some(5012),
            Self::ReadClockKHR => Some(5056),
            Self::FinalizeNodePayloadsAMDX => Some(5075),
            Self::FinishWritingNodePayloadAMDX => Some(5078),
            Self::InitializeNodePayloadsAMDX => Some(5090),
            Self::HitObjectRecordHitMotionNV => Some(5249),
            Self::HitObjectRecordHitWithIndexMotionNV => Some(5250),
            Self::HitObjectRecordMissMotionNV => Some(5251),
            Self::HitObjectGetWorldToObjectNV => Some(5252),
            Self::HitObjectGetObjectToWorldNV => Some(5253),
            Self::HitObjectGetObjectRayDirectionNV => Some(5254),
            Self::HitObjectGetObjectRayOriginNV => Some(5255),
            Self::HitObjectTraceRayMotionNV => Some(5256),
            Self::HitObjectGetShaderRecordBufferHandleNV => Some(5257),
            Self::HitObjectGetShaderBindingTableRecordIndexNV => Some(5258),
            Self::HitObjectRecordEmptyNV => Some(5259),
            Self::HitObjectTraceRayNV => Some(5260),
            Self::HitObjectRecordHitNV => Some(5261),
            Self::HitObjectRecordHitWithIndexNV => Some(5262),
            Self::HitObjectRecordMissNV => Some(5263),
            Self::HitObjectExecuteShaderNV => Some(5264),
            Self::HitObjectGetCurrentTimeNV => Some(5265),
            Self::HitObjectGetAttributesNV => Some(5266),
            Self::HitObjectGetHitKindNV => Some(5267),
            Self::HitObjectGetPrimitiveIndexNV => Some(5268),
            Self::HitObjectGetGeometryIndexNV => Some(5269),
            Self::HitObjectGetInstanceIdNV => Some(5270),
            Self::HitObjectGetInstanceCustomIndexNV => Some(5271),
            Self::HitObjectGetWorldRayDirectionNV => Some(5272),
            Self::HitObjectGetWorldRayOriginNV => Some(5273),
            Self::HitObjectGetRayTMaxNV => Some(5274),
            Self::HitObjectGetRayTMinNV => Some(5275),
            Self::HitObjectIsEmptyNV => Some(5276),
            Self::HitObjectIsHitNV => Some(5277),
            Self::HitObjectIsMissNV => Some(5278),
            Self::ReorderThreadWithHitObjectNV => Some(5279),
            Self::ReorderThreadWithHintNV => Some(5280),
            Self::TypeHitObjectNV => Some(5281),
            Self::ImageSampleFootprintNV => Some(5283),
            Self::EmitMeshTasksEXT => Some(5294),
            Self::SetMeshOutputsEXT => Some(5295),
            Self::GroupNonUniformPartitionNV => Some(5296),
            Self::WritePackedPrimitiveIndices4x8NV => Some(5299),
            Self::FetchMicroTriangleVertexPositionNV => Some(5300),
            Self::FetchMicroTriangleVertexBarycentricNV => Some(5301),
            Self::ReportIntersectionKHR => Some(5334),
            Self::IgnoreIntersectionNV => Some(5335),
            Self::TerminateRayNV => Some(5336),
            Self::TraceNV => Some(5337),
            Self::TraceMotionNV => Some(5338),
            Self::TraceRayMotionNV => Some(5339),
            Self::RayQueryGetIntersectionTriangleVertexPositionsKHR => Some(5340),
            Self::TypeAccelerationStructureKHR => Some(5341),
            Self::ExecuteCallableNV => Some(5344),
            Self::TypeCooperativeMatrixNV => Some(5358),
            Self::CooperativeMatrixLoadNV => Some(5359),
            Self::CooperativeMatrixStoreNV => Some(5360),
            Self::CooperativeMatrixMulAddNV => Some(5361),
            Self::CooperativeMatrixLengthNV => Some(5362),
            _ => None,
        }
    }

    /// The numbers of one slice of the opcode table.
    pub open spec fn opcode_part5(self) -> Option<u16> {
        match self {
            Self::BeginInvocationInterlockEXT => Some(5364),
            Self::EndInvocationInterlockEXT => Some(5365),
            Self::DemoteToHelperInvocation => Some(5380),
            Self::IsHelperInvocationEXT => Some(5381),
            Self::ConvertUToImageNV => Some(5391),
            Self::ConvertUToSamplerNV => Some(5392),
            Self::ConvertImageToUNV => Some(5393),
            Self::ConvertSamplerToUNV => Some(5394),
            Self::ConvertUToSampledImageNV => Some(5395),
            Self::ConvertSampledImageToUNV => Some(5396),
            Self::SamplerImageAddressingModeNV => Some(5397),
            Self::SubgroupShuffleINTEL => Some(5571),
            Self::SubgroupShuffleDownINTEL => Some(5572),
            Self::SubgroupShuffleUpINTEL => Some(5573),
            Self::SubgroupShuffleXorINTEL => Some(5574),
            Self::SubgroupBlockReadINTEL => Some(5575),
            Self::SubgroupBlockWriteINTEL => Some(5576),
            Self::SubgroupImageBlockReadINTEL => Some(5577),
            Self::SubgroupImageBlockWriteINTEL => Some(5578),
            Self::SubgroupImageMediaBlockReadINTEL => Some(5580),
            Self::SubgroupImageMediaBlockWriteINTEL => Some(5581),
            Self::UCountLeadingZerosINTEL => Some(5585),
            Self::UCountTrailingZerosINTEL => Some(5586),
            Self::AbsISubINTEL => Some(5587),
            Self::AbsUSubINTEL => Some(5588),
            Self::IAddSatINTEL => Some(5589),
            Self::UAddSatINTEL => Some(5590),
            Self::IAverageINTEL => Some(5591),
            Self::UAverageINTEL => Some(5592),
            Self::IAverageRoundedINTEL => Some(5593),
            Self::UAverageRoundedINTEL => Some(5594),
            Self::ISubSatINTEL => Some(5595),
            Self::USubSatINTEL => Some(5596),
            Self::IMul32x16INTEL => Some(5597),
            Self::UMul32x16INTEL => Some(5598),
            Self::ConstantFunctionPointerINTEL => Some(5600),
            Self::FunctionPointerCallINTEL => Some(5601),
            Self::AsmTargetINTEL => Some(5609),
            Self::AsmINTEL => Some(5610),
            Self::AsmCallINTEL => Some(5611),
            Self::AtomicFMinEXT => Some(5614),
            Self::AtomicFMaxEXT => Some(5615),
            Self::AssumeTrueKHR => Some(5630),
            Self::ExpectKHR => Some(5631),
            Self::DecorateString => Some(5632),
            Self::MemberDecorateString => Some(5633),
            Self::VmeImageINTEL => Some(5699),
            Self::TypeVmeImageINTEL => Some(5700),
            Self::TypeAvcImePayloadINTEL => Some(5701),
            Self::TypeAvcRefPayloadINTEL => Some(5702),
            Self::TypeAvcSicPayloadINTEL => Some(5703),
            Self::TypeAvcMcePayloadINTEL => Some(5704),
            Self::TypeAvcMceResultINTEL => Some(5705),
            Self::TypeAvcImeResultINTEL => Some(5706),
            Self::TypeAvcImeResultSingleReferenceStreamoutINTEL => Some(5707),
            Self::TypeAvcImeResultDualReferenceStreamoutINTEL => Some(5708),
            Self::TypeAvcImeSingleReferenceStreaminINTEL => Some(5709),
            Self::TypeAvcImeDualReferenceStreaminINTEL => Some(5710),
            Self::TypeAvcRefResultINTEL => Some(5711),
            Self::TypeAvcSicResultINTEL => Some(5712),
            Self::SubgroupAvcMceGetDefaultInterBaseMultiReferencePenaltyINTEL => Some(5713),
            Self::SubgroupAvcMceSetInterBaseMultiReferencePenaltyINTEL => Some(5714),
            Self::SubgroupAvcMceGetDefaultInterShapePenaltyINTEL => Some(5715),
            Self::SubgroupAvcMceSetInterShapePenaltyINTEL => Some(5716),
            Self::SubgroupAvcMceGetDefaultInterDirectionPenaltyINTEL => Some(5717),
            Self::SubgroupAvcMceSetInterDirectionPenaltyINTEL => Some(5718),
            Self::SubgroupAvcMceGetDefaultIntraLumaShapePenaltyINTEL => Some(5719),
            Self::SubgroupAvcMceGetDefaultInterMotionVectorCostTableINTEL => Some(5720),
            Self::SubgroupAvcMceGetDefaultHighPenaltyCostTableINTEL => Some(5721),
            Self::SubgroupAvcMceGetDefaultMediumPenaltyCostTableINTEL => Some(5722),
            Self::SubgroupAvcMceGetDefaultLowPenaltyCostTableINTEL => Some(5723),
            Self::SubgroupAvcMceSetMotionVectorCostFunctionINTEL => Some(5724),
            Self::SubgroupAvcMceGetDefaultIntraLumaModePenaltyINTEL => Some(5725),
            Self::SubgroupAvcMceGetDefaultNonDcLumaIntraPenaltyINTEL => Some(5726),
            Self::SubgroupAvcMceGetDefaultIntraChromaModeBasePenaltyINTEL => Some(5727),
            Self::SubgroupAvcMceSetAcOnlyHaarINTEL => Some(5728),
            Self::SubgroupAvcMceSetSourceInterlacedFieldPolarityINTEL => Some(5729),
            Self::SubgroupAvcMceSetSingleReferenceInterlacedFieldPolarityINTEL => Some(5730),
            Self::SubgroupAvcMceSetDualReferenceInterlacedFieldPolaritiesINTEL => Some(5731),
            Self::SubgroupAvcMceConvertToImePayloadINTEL => Some(5732),
            Self::SubgroupAvcMceConvertToImeResultINTEL => Some(5733),
            Self::SubgroupAvcMceConvertToRefPayloadINTEL => Some(5734),
            Self::SubgroupAvcMceConvertToRefResultINTEL => Some(5735),
            Self::SubgroupAvcMceConvertToSicPayloadINTEL => Some(5736),
            Self::SubgroupAvcMceConvertToSicResultINTEL => Some(5737),
            Self::SubgroupAvcMceGetMotionVectorsINTEL => Some(5738),
            Self::SubgroupAvcMceGetInterDistortionsINTEL => Some(5739),
            Self::SubgroupAvcMceGetBestInterDistortionsINTEL => Some(5740),
            Self::SubgroupAvcMceGetInterMajorShapeINTEL => Some(5741),
            Self::SubgroupAvcMceGetInterMinorShapeINTEL => Some(5742),
            _ => None,
        }
    }

    /// The numbers of one slice of the opcode table.
    pub open spec fn opcode_part6(self) -> Option<u16> {
        match self {
            Self::SubgroupAvcMceGetInterDirectionsINTEL => Some(5743),
            Self::SubgroupAvcMceGetInterMotionVectorCountINTEL => Some(5744),
            Self::SubgroupAvcMceGetInterReferenceIdsINTEL => Some(5745),
            Self::SubgroupAvcMceGetInterReferenceInterlacedFieldPolaritiesINTEL => Some(5746),
            Self::SubgroupAvcImeInitializeINTEL => Some(5747),
            Self::SubgroupAvcImeSetSingleReferenceINTEL => Some(5748),
            Self::SubgroupAvcImeSetDualReferenceINTEL => Some(5749),
            Self::SubgroupAvcImeRefWindowSizeINTEL => Some(5750),
            Self::SubgroupAvcImeAdjustRefOffsetINTEL => Some(5751),
            Self::SubgroupAvcImeConvertToMcePayloadINTEL => Some(5752),
            Self::SubgroupAvcImeSetMaxMotionVectorCountINTEL => Some(5753),
            Self::SubgroupAvcImeSetUnidirectionalMixDisableINTEL => Some(5754),
            Self::SubgroupAvcImeSetEarlySearchTerminationThresholdINTEL => Some(5755),
            Self::SubgroupAvcImeSetWeightedSadINTEL => Some(5756),
            Self::SubgroupAvcImeEvaluateWithSingleReferenceINTEL => Some(5757),
            Self::SubgroupAvcImeEvaluateWithDualReferenceINTEL => Some(5758),
            Self::SubgroupAvcImeEvaluateWithSingleReferenceStreaminINTEL => Some(5759),
            Self::SubgroupAvcImeEvaluateWithDualReferenceStreaminINTEL => Some(5760),
            Self::SubgroupAvcImeEvaluateWithSingleReferenceStreamoutINTEL => Some(5761),
            Self::SubgroupAvcImeEvaluateWithDualReferenceStreamoutINTEL => Some(5762),
            Self::SubgroupAvcImeEvaluateWithSingleReferenceStreaminoutINTEL => Some(5763),
            Self::SubgroupAvcImeEvaluateWithDualReferenceStreaminoutINTEL => Some(5764),
            Self::SubgroupAvcImeConvertToMceResultINTEL => Some(5765),
            Self::SubgroupAvcImeGetSingleReferenceStreaminINTEL => Some(5766),
            Self::SubgroupAvcImeGetDualReferenceStreaminINTEL => Some(5767),
            Self::SubgroupAvcImeStripSingleReferenceStreamoutINTEL => Some(5768),
            Self::SubgroupAvcImeStripDualReferenceStreamoutINTEL => Some(5769),
            Self::SubgroupAvcImeGetStreamoutSingleReferenceMajorShapeMotionVectorsINTEL => Some(5770),
            Self::SubgroupAvcImeGetStreamoutSingleReferenceMajorShapeDistortionsINTEL => Some(5771),
            Self::SubgroupAvcImeGetStreamoutSingleReferenceMajorShapeReferenceIdsINTEL => Some(5772),
            Self::SubgroupAvcImeGetStreamoutDualReferenceMajorShapeMotionVectorsINTEL => Some(5773),
            Self::SubgroupAvcImeGetStreamoutDualReferenceMajorShapeDistortionsINTEL => Some(5774),
            Self::SubgroupAvcImeGetStreamoutDualReferenceMajorShapeReferenceIdsINTEL => Some(5775),
            Self::SubgroupAvcImeGetBorderReachedINTEL => Some(5776),
            Self::SubgroupAvcImeGetTruncatedSearchIndicationINTEL => Some(5777),
            Self::SubgroupAvcImeGetUnidirectionalEarlySearchTerminationINTEL => Some(5778),
            Self::SubgroupAvcImeGetWeightingPatternMinimumMotionVectorINTEL => Some(5779),
            Self::SubgroupAvcImeGetWeightingPatternMinimumDistortionINTEL => Some(5780),
            Self::SubgroupAvcFmeInitializeINTEL => Some(5781),
            Self::SubgroupAvcBmeInitializeINTEL => Some(5782),
            Self::SubgroupAvcRefConvertToMcePayloadINTEL => Some(5783),
            Self::SubgroupAvcRefSetBidirectionalMixDisableINTEL => Some(5784),
            Self::SubgroupAvcRefSetBilinearFilterEnableINTEL => Some(5785),
            Self::SubgroupAvcRefEvaluateWithSingleReferenceINTEL => Some(5786),
            Self::SubgroupAvcRefEvaluateWithDualReferenceINTEL => Some(5787),
            Self::SubgroupAvcRefEvaluateWithMultiReferenceINTEL => Some(5788),
            Self::SubgroupAvcRefEvaluateWithMultiReferenceInterlacedINTEL => Some(5789),
            Self::SubgroupAvcRefConvertToMceResultINTEL => Some(5790),
            Self::SubgroupAvcSicInitializeINTEL => Some(5791),
            Self::SubgroupAvcSicConfigureSkcINTEL => Some(5792),
            Self::SubgroupAvcSicConfigureIpeLumaINTEL => Some(5793),
            Self::SubgroupAvcSicConfigureIpeLumaChromaINTEL => Some(5794),
            Self::SubgroupAvcSicGetMotionVectorMaskINTEL => Some(5795),
            Self::SubgroupAvcSicConvertToMcePayloadINTEL => Some(5796),
            Self::SubgroupAvcSicSetIntraLumaShapePenaltyINTEL => Some(5797),
            Self::SubgroupAvcSicSetIntraLumaModeCostFunctionINTEL => Some(5798),
            Self::SubgroupAvcSicSetIntraChromaModeCostFunctionINTEL => Some(5799),
            Self::SubgroupAvcSicSetBilinearFilterEnableINTEL => Some(5800),
            Self::SubgroupAvcSicSetSkcForwardTransformEnableINTEL => Some(5801),
            Self::SubgroupAvcSicSetBlockBasedRawSkipSadINTEL => Some(5802),
            Self::SubgroupAvcSicEvaluateIpeINTEL => Some(5803),
            Self::SubgroupAvcSicEvaluateWithSingleReferenceINTEL => Some(5804),
            Self::SubgroupAvcSicEvaluateWithDualReferenceINTEL => Some(5805),
            Self::SubgroupAvcSicEvaluateWithMultiReferenceINTEL => Some(5806),
            Self::SubgroupAvcSicEvaluateWithMultiReferenceInterlacedINTEL => Some(5807),
            Self::SubgroupAvcSicConvertToMceResultINTEL => Some(5808),
            Self::SubgroupAvcSicGetIpeLumaShapeINTEL => Some(5809),
            Self::SubgroupAvcSicGetBestIpeLumaDistortionINTEL => Some(5810),
            Self::SubgroupAvcSicGetBestIpeChromaDistortionINTEL => Some(5811),
            Self::SubgroupAvcSicGetPackedIpeLumaModesINTEL => Some(5812),
            Self::SubgroupAvcSicGetIpeChromaModeINTEL => Some(5813),
            Self::SubgroupAvcSicGetPackedSkcLumaCountThresholdINTEL => Some(5814),
            Self::SubgroupAvcSicGetPackedSkcLumaSumThresholdINTEL => Some(5815),
            Self::SubgroupAvcSicGetInterRawSadsINTEL => Some(5816),
            Self::VariableLengthArrayINTEL => Some(5818),
            Self::SaveMemoryINTEL => Some(5819),
            Self::RestoreMemoryINTEL => Some(5820),
            Self::ArbitraryFloatSinCosPiINTEL => Some(5840),
            Self::ArbitraryFloatCastINTEL => Some(5841),
            Self::ArbitraryFloatCastFromIntINTEL => Some(5842),
            Self::ArbitraryFloatCastToIntINTEL => Some(5843),
            Self::ArbitraryFloatAddINTEL => Some(5846),
            Self::ArbitraryFloatSubINTEL => Some(5847),
            Self::ArbitraryFloatMulINTEL => Some(5848),
            Self::ArbitraryFloatDivINTEL => Some(5849),
            Self::ArbitraryFloatGTINTEL => Some(5850),
            Self::ArbitraryFloatGEINTEL => Some(5851),
            Self::ArbitraryFloatLTINTEL => Some(5852),
            Self::ArbitraryFloatLEINTEL => Some(5853),
            Self::ArbitraryFloatEQINTEL => Some(5854),
            _ => None,
        }
    }

    /// The numbers of one slice of the opcode table.
    pub open spec fn opcode_part7(self) -> Option<u16> {
        match self {
            Self::ArbitraryFloatRecipINTEL => Some(5855),
            Self::ArbitraryFloatRSqrtINTEL => Some(5856),
            Self::ArbitraryFloatCbrtINTEL => Some(5857),
            Self::ArbitraryFloatHypotINTEL => Some(5858),
            Self::ArbitraryFloatSqrtINTEL => Some(5859),
            Self::ArbitraryFloatLogINTEL => Some(5860),
            Self::ArbitraryFloatLog2INTEL => Some(5861),
            Self::ArbitraryFloatLog10INTEL => Some(5862),
            Self::ArbitraryFloatLog1pINTEL => Some(5863),
            Self::ArbitraryFloatExpINTEL => Some(5864),
            Self::ArbitraryFloatExp2INTEL => Some(5865),
            Self::ArbitraryFloatExp10INTEL => Some(5866),
            Self::ArbitraryFloatExpm1INTEL => Some(5867),
            Self::ArbitraryFloatSinINTEL => Some(5868),
            Self::ArbitraryFloatCosINTEL => Some(5869),
            Self::ArbitraryFloatSinCosINTEL => Some(5870),
            Self::ArbitraryFloatSinPiINTEL => Some(5871),
            Self::ArbitraryFloatCosPiINTEL => Some(5872),
            Self::ArbitraryFloatASinINTEL => Some(5873),
            Self::ArbitraryFloatASinPiINTEL => Some(5874),
            Self::ArbitraryFloatACosINTEL => Some(5875),
            Self::ArbitraryFloatACosPiINTEL => Some(5876),
            Self::ArbitraryFloatATanINTEL => Some(5877),
            Self::ArbitraryFloatATanPiINTEL => Some(5878),
            Self::ArbitraryFloatATan2INTEL => Some(5879),
            Self::ArbitraryFloatPowINTEL => Some(5880),
            Self::ArbitraryFloatPowRINTEL => Some(5881),
            Self::ArbitraryFloatPowNINTEL => Some(5882),
            Self::LoopControlINTEL => Some(5887),
            Self::AliasDomainDeclINTEL => Some(5911),
            Self::AliasScopeDeclINTEL => Some(5912),
            Self::AliasScopeListDeclINTEL => Some(5913),
            Self::FixedSqrtINTEL => Some(5923),
            Self::FixedRecipINTEL => Some(5924),
            Self::FixedRsqrtINTEL => Some(5925),
            Self::FixedSinINTEL => Some(5926),
            Self::FixedCosINTEL => Some(5927),
            Self::FixedSinCosINTEL => Some(5928),
            Self::FixedSinPiINTEL => Some(5929),
            Self::FixedCosPiINTEL => Some(5930),
            Self::FixedSinCosPiINTEL => Some(5931),
            Self::FixedLogINTEL => Some(5932),
            Self::FixedExpINTEL => Some(5933),
            Self::PtrCastToCrossWorkgroupINTEL => Some(5934),
            Self::CrossWorkgroupCastToPtrINTEL => Some(5938),
            Self::ReadPipeBlockingINTEL => Some(5946),
            Self::WritePipeBlockingINTEL => Some(5947),
            Self::FPGARegINTEL => Some(5949),
            Self::RayQueryGetRayTMinKHR => Some(6016),
            Self::RayQueryGetRayFlagsKHR => Some(6017),
            Self::RayQueryGetIntersectionTKHR => Some(6018),
            Self::RayQueryGetIntersectionInstanceCustomIndexKHR => Some(6019),
            Self::RayQueryGetIntersectionInstanceIdKHR => Some(6020),
            Self::RayQueryGetIntersectionInstanceShaderBindingTableRecordOffsetKHR => Some(6021),
            Self::RayQueryGetIntersectionGeometryIndexKHR => Some(6022),
            Self::RayQueryGetIntersectionPrimitiveIndexKHR => Some(6023),
            Self::RayQueryGetIntersectionBarycentricsKHR => Some(6024),
            Self::RayQueryGetIntersectionFrontFaceKHR => Some(6025),
            Self::RayQueryGetIntersectionCandidateAABBOpaqueKHR => Some(6026),
            Self::RayQueryGetIntersectionObjectRayDirectionKHR => Some(6027),
            Self::RayQueryGetIntersectionObjectRayOriginKHR => Some(6028),
            Self::RayQueryGetWorldRayDirectionKHR => Some(6029),
            Self::RayQueryGetWorldRayOriginKHR => Some(6030),
            Self::RayQueryGetIntersectionObjectToWorldKHR => Some(6031),
            Self::RayQueryGetIntersectionWorldToObjectKHR => Some(6032),
            Self::AtomicFAddEXT => Some(6035),
            Self::TypeBufferSurfaceINTEL => Some(6086),
            Self::TypeStructContinuedINTEL => Some(6090),
            Self::ConstantCompositeContinuedINTEL => Some(6091),
            Self::SpecConstantCompositeContinuedINTEL => Some(6092),
            Self::ConvertFToBF16INTEL => Some(6116),
            Self::ConvertBF16ToFINTEL => Some(6117),
            Self::ControlBarrierArriveINTEL => Some(6142),
            Self::ControlBarrierWaitINTEL => Some(6143),
            Self::GroupIMulKHR => Some(6401),
            Self::GroupFMulKHR => Some(6402),
            Self::GroupBitwiseAndKHR => Some(6403),
            Self::GroupBitwiseOrKHR => Some(6404),
            Self::GroupBitwiseXorKHR => Some(6405),
            Self::GroupLogicalAndKHR => Some(6406),
            Self::GroupLogicalOrKHR => Some(6407),
            Self::GroupLogicalXorKHR => Some(6408),
            _ => None,
        }
    }

    /// The word count of the instructions that this library emits with this opcode, and
    /// whether further operands may follow; `None` for the opcodes it does not emit.
    pub open spec fn word_count(self) -> Option<(u16, bool)> {
        match self {
            Self::Capability => Some((2, false)),
            Self::Extension => Some((2, true)),
            Self::ExtInstImport => Some((3, true)),
            Self::MemoryModel => Some((3, false)),
            Self::EntryPoint => Some((4, true)),
            Self::ExecutionMode => Some((3, true)),
            Self::TypeVoid => Some((2, false)),
            Self::TypeBool => Some((2, false)),
            Self::TypeInt => Some((4, false)),
            Self::TypeFloat => Some((3, false)),
            Self::TypeVector => Some((4, false)),
            Self::TypeMatrix => Some((4, false)),
            Self::TypeArray => Some((4, false)),
            Self::TypeRuntimeArray => Some((3, false)),
            Self::TypePointer => Some((4, false)),
            Self::TypeFunction => Some((3, true)),
            Self::ConstantTrue => Some((3, false)),
            Self::ConstantFalse => Some((3, false)),
            Self::Constant => Some((4, true)),
            Self::Variable => Some((4, true)),
            Self::Function => Some((5, false)),
            Self::FunctionParameter => Some((3, false)),
            Self::FunctionEnd => Some((1, false)),
            _ => None,
        }
    }

    /// Whether this library can emit instructions with this opcode.
    pub open spec fn is_emitted(self) -> bool {
        self.word_count() is Some
    }

    /// Whether the emitted instruction has a fixed word count.
    pub open spec fn is_fixed(self) -> bool {
        self.word_count() matches Some((_, false))
    }

    /// Whether the emitted instruction takes a variable number of further operands.
    pub open spec fn is_variable(self) -> bool {
        self.word_count() matches Some((_, true))
    }

    /// The first word of the instruction with `additional_arguments` further operands.
    pub open spec fn word0(self, additional_arguments: u16) -> u32 {
        encode_word0(self.opcode(), (self.word_count().unwrap().0 + additional_arguments) as u16)
    }

    /// Whether `get_word0` accepts `additional_arguments` for this opcode.
    pub open spec fn accepts_arguments(self, additional_arguments: u16) -> bool {
        &&& self.is_emitted()
        &&& (self.is_fixed() ==> additional_arguments == 0)
        &&& (self.is_variable() ==> self.word_count().unwrap().0 + additional_arguments <= u16::MAX)
    }

    fn get_opcode_part0(&self) -> (r: Option<u16>)
        ensures
            r == self.opcode_part0(),
    {
        match self {
            Self::Nop => Some(0),
            Self::Undef => Some(1),
            Self::SourceContinued => Some(2),
            Self::Source => Some(3),
            Self::SourceExtension => Some(4),
            Self::Name => Some(5),
            Self::MemberName => Some(6),
            Self::String => Some(7),
            Self::Line => Some(8),
            Self::Extension => Some(10),
            Self::ExtInstImport => Some(11),
            Self::ExtInst => Some(12),
            Self::MemoryModel => Some(14),
            Self::EntryPoint => Some(15),
            Self::ExecutionMode => Some(16),
            Self::Capability => Some(17),
            Self::TypeVoid => Some(19),
            Self::TypeBool => Some(20),
            Self::TypeInt => Some(21),
            Self::TypeFloat => Some(22),
            Self::TypeVector => Some(23),
            Self::TypeMatrix => Some(24),
            Self::TypeImage => Some(25),
            Self::TypeSampler => Some(26),
            Self::TypeSampledImage => Some(27),
            Self::TypeArray => Some(28),
            Self::TypeRuntimeArray => Some(29),
            Self::TypeStruct => Some(30),
            Self::TypeOpaque => Some(31),
            Self::TypePointer => Some(32),
            Self::TypeFunction => Some(33),
            Self::TypeEvent => Some(34),
            Self::TypeDeviceEvent => Some(35),
            Self::TypeReserveId => Some(36),
            Self::TypeQueue => Some(37),
            Self::TypePipe => Some(38),
            Self::TypeForwardPointer => Some(39),
            Self::ConstantTrue => Some(41),
            Self::ConstantFalse => Some(42),
            Self::Constant => Some(43),
            Self::ConstantComposite => Some(44),
            Self::ConstantSampler => Some(45),
            Self::ConstantNull => Some(46),
            Self::SpecConstantTrue => Some(48),
            Self::SpecConstantFalse => Some(49),
            Self::SpecConstant => Some(50),
            Self::SpecConstantComposite => Some(51),
            Self::SpecConstantOp => Some(52),
            Self::Function => Some(54),
            Self::FunctionParameter => Some(55),
            Self::FunctionEnd => Some(56),
            Self::FunctionCall => Some(57),
            Self::Variable => Some(59),
            Self::ImageTexelPointer => Some(60),
            Self::Load => Some(61),
            Self::Store => Some(62),
            Self::CopyMemory => Some(63),
            Self::CopyMemorySized => Some(64),
            Self::AccessChain => Some(65),
            Self::InBoundsAccessChain => Some(66),
            Self::PtrAccessChain => Some(67),
            Self::ArrayLength => Some(68),
            Self::GenericPtrMemSemantics => Some(69),
            Self::InBoundsPtrAccessChain => Some(70),
            Self::Decorate => Some(71),
            Self::MemberDecorate => Some(72),
            Self::DecorationGroup => Some(73),
            Self::GroupDecorate => Some(74),
            Self::GroupMemberDecorate => Some(75),
            Self::VectorExtractDynamic => Some(77),
            Self::VectorInsertDynamic => Some(78),
            Self::VectorShuffle => Some(79),
            Self::CompositeConstruct => Some(80),
            Self::CompositeExtract => Some(81),
            Self::CompositeInsert => Some(82),
            Self::CopyObject => Some(83),
            Self::Transpose => Some(84),
            Self::SampledImage => Some(86),
            Self::ImageSampleImplicitLod => Some(87),
            Self::ImageSampleExplicitLod => Some(88),
            Self::ImageSampleDrefImplicitLod => Some(89),
            Self::ImageSampleDrefExplicitLod => Some(90),
            Self::ImageSampleProjImplicitLod => Some(91),
            Self::ImageSampleProjExplicitLod => Some(92),
            Self::ImageSampleProjDrefImplicitLod => Some(93),
            Self::ImageSampleProjDrefExplicitLod => Some(94),
            Self::ImageFetch => Some(95),
            Self::ImageGather => Some(96),
            Self::ImageDrefGather => Some(97),
            Self::ImageRead => Some(98),
            _ => None,
        }
    }

    fn get_opcode_part1(&self) -> (r: Option<u16>)
        ensures
            r == self.opcode_part1(),
    {
        match self {
            Self::ImageWrite => Some(99),
            Self::Image => Some(100),
            Self::ImageQueryFormat => Some(101),
            Self::ImageQueryOrder => Some(102),
            Self::ImageQuerySizeLod => Some(103),
            Self::ImageQuerySize => Some(104),
            Self::ImageQueryLod => Some(105),
            Self::ImageQueryLevels => Some(106),
            Self::ImageQuerySamples => Some(107),
            Self::ConvertFToU => Some(109),
            Self::ConvertFToS => Some(110),
            Self::ConvertSToF => Some(111),
            Self::ConvertUToF => Some(112),
            Self::UConvert => Some(113),
            Self::SConvert => Some(114),
            Self::FConvert => Some(115),
            Self::QuantizeToF16 => Some(116),
            Self::ConvertPtrToU => Some(117),
            Self::SatConvertSToU => Some(118),
            Self::SatConvertUToS => Some(119),
            Self::ConvertUToPtr => Some(120),
            Self::PtrCastToGeneric => Some(121),
            Self::GenericCastToPtr => Some(122),
            Self::GenericCastToPtrExplicit => Some(123),
            Self::Bitcast => Some(124),
            Self::SNegate => Some(126),
            Self::FNegate => Some(127),
            Self::IAdd => Some(128),
            Self::FAdd => Some(129),
            Self::ISub => Some(130),
            Self::FSub => Some(131),
            Self::IMul => Some(132),
            Self::FMul => Some(133),
            Self::UDiv => Some(134),
            Self::SDiv => Some(135),
            Self::FDiv => Some(136),
            Self::UMod => Some(137),
            Self::SRem => Some(138),
            Self::SMod => Some(139),
            Self::FRem => Some(140),
            Self::FMod => Some(141),
            Self::VectorTimesScalar => Some(142),
            Self::MatrixTimesScalar => Some(143),
            Self::VectorTimesMatrix => Some(144),
            Self::MatrixTimesVector => Some(145),
            Self::MatrixTimesMatrix => Some(146),
            Self::OuterProduct => Some(147),
            Self::Dot => Some(148),
            Self::IAddCarry => Some(149),
            Self::ISubBorrow => Some(150),
            Self::UMulExtended => Some(151),
            Self::SMulExtended => Some(152),
            Self::Any => Some(154),
            Self::All => Some(155),
            Self::IsNan => Some(156),
            Self::IsInf => Some(157),
            Self::IsFinite => Some(158),
            Self::IsNormal => Some(159),
            Self::SignBitSet => Some(160),
            Self::LessOrGreater => Some(161),
            Self::Ordered => Some(162),
            Self::Unordered => Some(163),
            Self::LogicalEqual => Some(164),
            Self::LogicalNotEqual => Some(165),
            Self::LogicalOr => Some(166),
            Self::LogicalAnd => Some(167),
            Self::LogicalNot => Some(168),
            Self::Select => Some(169),
            Self::IEqual => Some(170),
            Self::INotEqual => Some(171),
            Self::UGreaterThan => Some(172),
            Self::SGreaterThan => Some(173),
            Self::UGreaterThanEqual => Some(174),
            Self::SGreaterThanEqual => Some(175),
            Self::ULessThan => Some(176),
            Self::SLessThan => Some(177),
            Self::ULessThanEqual => Some(178),
            Self::SLessThanEqual => Some(179),
            Self::FOrdEqual => Some(180),
            Self::FUnordEqual => Some(181),
            Self::FOrdNotEqual => Some(182),
            Self::FUnordNotEqual => Some(183),
            Self::FOrdLessThan => Some(184),
            Self::FUnordLessThan => Some(185),
            Self::FOrdGreaterThan => Some(186),
            Self::FUnordGreaterThan => Some(187),
            Self::FOrdLessThanEqual => Some(188),
            Self::FUnordLessThanEqual => Some(189),
            Self::FOrdGreaterThanEqual => Some(190),
            Self::FUnordGreaterThanEqual => Some(191),
            _ => None,
        }
    }

    fn get_opcode_part2(&self) -> (r: Option<u16>)
        ensures
            r == self.opcode_part2(),
    {
        match self {
            Self::ShiftRightLogical => Some(194),
            Self::ShiftRightArithmetic => Some(195),
            Self::ShiftLeftLogical => Some(196),
            Self::BitwiseOr => Some(197),
            Self::BitwiseXor => Some(198),
            Self::BitwiseAnd => Some(199),
            Self::Not => Some(200),
            Self::BitFieldInsert => Some(201),
            Self::BitFieldSExtract => Some(202),
            Self::BitFieldUExtract => Some(203),
            Self::BitReverse => Some(204),
            Self::BitCount => Some(205),
            Self::DPdx => Some(207),
            Self::DPdy => Some(208),
            Self::Fwidth => Some(209),
            Self::DPdxFine => Some(210),
            Self::DPdyFine => Some(211),
            Self::FwidthFine => Some(212),
            Self::DPdxCoarse => Some(213),
            Self::DPdyCoarse => Some(214),
            Self::FwidthCoarse => Some(215),
            Self::EmitVertex => Some(218),
            Self::EndPrimitive => Some(219),
            Self::EmitStreamVertex => Some(220),
            Self::EndStreamPrimitive => Some(221),
            Self::ControlBarrier => Some(224),
            Self::MemoryBarrier => Some(225),
            Self::AtomicLoad => Some(227),
            Self::AtomicStore => Some(228),
            Self::AtomicExchange => Some(229),
            Self::AtomicCompareExchange => Some(230),
            Self::AtomicCompareExchangeWeak => Some(231),
            Self::AtomicIIncrement => Some(232),
            Self::AtomicIDecrement => Some(233),
            Self::AtomicIAdd => Some(234),
            Self::AtomicISub => Some(235),
            Self::AtomicSMin => Some(236),
            Self::AtomicUMin => Some(237),
            Self::AtomicSMax => Some(238),
            Self::AtomicUMax => Some(239),
            Self::AtomicAnd => Some(240),
            Self::AtomicOr => Some(241),
            Self::AtomicXor => Some(242),
            Self::Phi => Some(245),
            Self::LoopMerge => Some(246),
            Self::SelectionMerge => Some(247),
            Self::Label => Some(248),
            Self::Branch => Some(249),
            Self::BranchConditional => Some(250),
            Self::Switch => Some(251),
            Self::Kill => Some(252),
            Self::Return => Some(253),
            Self::ReturnValue => Some(254),
            Self::Unreachable => Some(255),
            Self::LifetimeStart => Some(256),
            Self::LifetimeStop => Some(257),
            Self::GroupAsyncCopy => Some(259),
            Self::GroupWaitEvents => Some(260),
            Self::GroupAll => Some(261),
            Self::GroupAny => Some(262),
            Self::GroupBroadcast => Some(263),
            Self::GroupIAdd => Some(264),
            Self::GroupFAdd => Some(265),
            Self::GroupFMin => Some(266),
            Self::GroupUMin => Some(267),
            Self::GroupSMin => Some(268),
            Self::GroupFMax => Some(269),
            Self::GroupUMax => Some(270),
            Self::GroupSMax => Some(271),
            Self::ReadPipe => Some(274),
            Self::WritePipe => Some(275),
            Self::ReservedReadPipe => Some(276),
            Self::ReservedWritePipe => Some(277),
            Self::ReserveReadPipePackets => Some(278),
            Self::ReserveWritePipePackets => Some(279),
            Self::CommitReadPipe => Some(280),
            Self::CommitWritePipe => Some(281),
            Self::IsValidReserveId => Some(282),
            Self::GetNumPipePackets => Some(283),
            Self::GetMaxPipePackets => Some(284),
            Self::GroupReserveReadPipePackets => Some(285),
            Self::GroupReserveWritePipePackets => Some(286),
            Self::GroupCommitReadPipe => Some(287),
            Self::GroupCommitWritePipe => Some(288),
            Self::EnqueueMarker => Some(291),
            Self::EnqueueKernel => Some(292),
            Self::GetKernelNDrangeSubGroupCount => Some(293),
            Self::GetKernelNDrangeMaxSubGroupSize => Some(294),
            Self::GetKernelWorkGroupSize => Some(295),
            Self::GetKernelPreferredWorkGroupSizeMultiple => Some(296),
            _ => None,
        }
    }

    fn get_opcode_part3(&self) -> (r: Option<u16>)
        ensures
            r == self.opcode_part3(),
    {
        match self {
            Self::RetainEvent => Some(297),
            Self::ReleaseEvent => Some(298),
            Self::CreateUserEvent => Some(299),
            Self::IsValidEvent => Some(300),
            Self::SetUserEventStatus => Some(301),
            Self::CaptureEventProfilingInfo => Some(302),
            Self::GetDefaultQueue => Some(303),
            Self::BuildNDRange => Some(304),
            Self::ImageSparseSampleImplicitLod => Some(305),
            Self::ImageSparseSampleExplicitLod => Some(306),
            Self::ImageSparseSampleDrefImplicitLod => Some(307),
            Self::ImageSparseSampleDrefExplicitLod => Some(308),
            Self::ImageSparseSampleProjImplicitLod => Some(309),
            Self::ImageSparseSampleProjExplicitLod => Some(310),
            Self::ImageSparseSampleProjDrefImplicitLod => Some(311),
            Self::ImageSparseSampleProjDrefExplicitLod => Some(312),
            Self::ImageSparseFetch => Some(313),
            Self::ImageSparseGather => Some(314),
            Self::ImageSparseDrefGather => Some(315),
            Self::ImageSparseTexelsResident => Some(316),
            Self::NoLine => Some(317),
            Self::AtomicFlagTestAndSet => Some(318),
            Self::AtomicFlagClear => Some(319),
            Self::ImageSparseRead => Some(320),
            Self::SizeOf => Some(321),
            Self::TypePipeStorage => Some(322),
            Self::ConstantPipeStorage => Some(323),
            Self::CreatePipeFromPipeStorage => Some(324),
            Self::GetKernelLocalSizeForSubgroupCount => Some(325),
            Self::GetKernelMaxNumSubgroups => Some(326),
            Self::TypeNamedBarrier => Some(327),
            Self::NamedBarrierInitialize => Some(328),
            Self::MemoryNamedBarrier => Some(329),
            Self::ModuleProcessed => Some(330),
            Self::ExecutionModeId => Some(331),
            Self::DecorateId => Some(332),
            Self::GroupNonUniformElect => Some(333),
            Self::GroupNonUniformAll => Some(334),
            Self::GroupNonUniformAny => Some(335),
            Self::GroupNonUniformAllEqual => Some(336),
            Self::GroupNonUniformBroadcast => Some(337),
            Self::GroupNonUniformBroadcastFirst => Some(338),
            Self::GroupNonUniformBallot => Some(339),
            Self::GroupNonUniformInverseBallot => Some(340),
            Self::GroupNonUniformBallotBitExtract => Some(341),
            Self::GroupNonUniformBallotBitCount => Some(342),
            Self::GroupNonUniformBallotFindLSB => Some(343),
            Self::GroupNonUniformBallotFindMSB => Some(344),
            Self::GroupNonUniformShuffle => Some(345),
            Self::GroupNonUniformShuffleXor => Some(346),
            Self::GroupNonUniformShuffleUp => Some(347),
            Self::GroupNonUniformShuffleDown => Some(348),
            Self::GroupNonUniformIAdd => Some(349),
            Self::GroupNonUniformFAdd => Some(350),
            Self::GroupNonUniformIMul => Some(351),
            Self::GroupNonUniformFMul => Some(352),
            Self::GroupNonUniformSMin => Some(353),
            Self::GroupNonUniformUMin => Some(354),
            Self::GroupNonUniformFMin => Some(355),
            Self::GroupNonUniformSMax => Some(356),
            Self::GroupNonUniformUMax => Some(357),
            Self::GroupNonUniformFMax => Some(358),
            Self::GroupNonUniformBitwiseAnd => Some(359),
            Self::GroupNonUniformBitwiseOr => Some(360),
            Self::GroupNonUniformBitwiseXor => Some(361),
            Self::GroupNonUniformLogicalAnd => Some(362),
            Self::GroupNonUniformLogicalOr => Some(363),
            Self::GroupNonUniformLogicalXor => Some(364),
            Self::GroupNonUniformQuadBroadcast => Some(365),
            Self::GroupNonUniformQuadSwap => Some(366),
            Self::CopyLogical => Some(400),
            Self::PtrEqual => Some(401),
            Self::PtrNotEqual => Some(402),
            Self::PtrDiff => Some(403),
            Self::ColorAttachmentReadEXT => Some(4160),
            Self::DepthAttachmentReadEXT => Some(4161),
            Self::StencilAttachmentReadEXT => Some(4162),
            Self::TerminateInvocation => Some(4416),
            Self::SubgroupBallotKHR => Some(4421),
            Self::SubgroupFirstInvocationKHR => Some(4422),
            Self::SubgroupAllKHR => Some(4428),
            Self::SubgroupAnyKHR => Some(4429),
            Self::SubgroupAllEqualKHR => Some(4430),
            Self::GroupNonUniformRotateKHR => Some(4431),
            Self::SubgroupReadInvocationKHR => Some(4432),
            Self::TraceRayKHR => Some(4445),
            Self::ExecuteCallableKHR => Some(4446),
            Self::ConvertUToAccelerationStructureKHR => Some(4447),
            Self::IgnoreIntersectionKHR => Some(4448),
            Self::TerminateRayKHR => Some(4449),
            _ => None,
        }
    }

    fn get_opcode_part4(&self) -> (r: Option<u16>)
        ensures
            r == self.opcode_part4(),
    {
        match self {
            Self::SDot => Some(4450),
            Self::UDot => Some(4451),
            Self::SUDot => Some(4452),
            Self::SDotAccSat => Some(4453),
            Self::UDotAccSat => Some(4454),
            Self::SUDotAccSat => Some(4455),
            Self::TypeCooperativeMatrixKHR => Some(4456),
            Self::CooperativeMatrixLoadKHR => Some(4457),
            Self::CooperativeMatrixStoreKHR => Some(4458),
            Self::CooperativeMatrixMulAddKHR => Some(4459),
            Self::CooperativeMatrixLengthKHR => Some(4460),
            Self::TypeRayQueryKHR => Some(4472),
            Self::RayQueryInitializeKHR => Some(4473),
            Self::RayQueryTerminateKHR => Some(4474),
            Self::RayQueryGenerateIntersectionKHR => Some(4475),
            Self::RayQueryConfirmIntersectionKHR => Some(4476),
            Self::RayQueryProceedKHR => Some(4477),
            Self::RayQueryGetIntersectionTypeKHR => Some(4479),
            Self::ImageSampleWeightedQCOM => Some(4480),
            Self::ImageBoxFilterQCOM => Some(4481),
            Self::ImageBlockMatchSSDQCOM => Some(4482),
            Self::ImageBlockMatchSADQCOM => Some(4483),
            Self::GroupIAddNonUniformAMD => Some(5000),
            Self::GroupFAddNonUniformAMD => Some(5001),
            Self::GroupFMinNonUniformAMD => Some(5002),
            Self::GroupUMinNonUniformAMD => Some(5003),
            Self::GroupSMinNonUniformAMD => Some(5004),
            Self::GroupFMaxNonUniformAMD => Some(5005),
            Self::GroupUMaxNonUniformAMD => Some(5006),
            Self::GroupSMaxNonUniformAMD => Some(5007),
            Self::FragmentMaskFetchAMD => Some(5011),
            Self::FragmentFetchAMD => Some(5012),
            Self::ReadClockKHR => Some(5056),
            Self::FinalizeNodePayloadsAMDX => Some(5075),
            Self::FinishWritingNodePayloadAMDX => Some(5078),
            Self::InitializeNodePayloadsAMDX => Some(5090),
            Self::HitObjectRecordHitMotionNV => Some(5249),
            Self::HitObjectRecordHitWithIndexMotionNV => Some(5250),
            Self::HitObjectRecordMissMotionNV => Some(5251),
            Self::HitObjectGetWorldToObjectNV => Some(5252),
            Self::HitObjectGetObjectToWorldNV => Some(5253),
            Self::HitObjectGetObjectRayDirectionNV => Some(5254),
            Self::HitObjectGetObjectRayOriginNV => Some(5255),
            Self::HitObjectTraceRayMotionNV => Some(5256),
            Self::HitObjectGetShaderRecordBufferHandleNV => Some(5257),
            Self::HitObjectGetShaderBindingTableRecordIndexNV => Some(5258),
            Self::HitObjectRecordEmptyNV => Some(5259),
            Self::HitObjectTraceRayNV => Some(5260),
            Self::HitObjectRecordHitNV => Some(5261),
            Self::HitObjectRecordHitWithIndexNV => Some(5262),
            Self::HitObjectRecordMissNV => Some(5263),
            Self::HitObjectExecuteShaderNV => Some(5264),
            Self::HitObjectGetCurrentTimeNV => Some(5265),
            Self::HitObjectGetAttributesNV => Some(5266),
            Self::HitObjectGetHitKindNV => Some(5267),
            Self::HitObjectGetPrimitiveIndexNV => Some(5268),
            Self::HitObjectGetGeometryIndexNV => Some(5269),
            Self::HitObjectGetInstanceIdNV => Some(5270),
            Self::HitObjectGetInstanceCustomIndexNV => Some(5271),
            Self::HitObjectGetWorldRayDirectionNV => Some(5272),
            Self::HitObjectGetWorldRayOriginNV => Some(5273),
            Self::HitObjectGetRayTMaxNV => Some(5274),
            Self::HitObjectGetRayTMinNV => Some(5275),
            Self::HitObjectIsEmptyNV => Some(5276),
            Self::HitObjectIsHitNV => Some(5277),
            Self::HitObjectIsMissNV => Some(5278),
            Self::ReorderThreadWithHitObjectNV => Some(5279),
            Self::ReorderThreadWithHintNV => Some(5280),
            Self::TypeHitObjectNV => Some(5281),
            Self::ImageSampleFootprintNV => Some(5283),
            Self::EmitMeshTasksEXT => Some(5294),
            Self::SetMeshOutputsEXT => Some(5295),
            Self::GroupNonUniformPartitionNV => Some(5296),
            Self::WritePackedPrimitiveIndices4x8NV => Some(5299),
            Self::FetchMicroTriangleVertexPositionNV => Some(5300),
            Self::FetchMicroTriangleVertexBarycentricNV => Some(5301),
            Self::ReportIntersectionKHR => Some(5334),
            Self::IgnoreIntersectionNV => Some(5335),
            Self::TerminateRayNV => Some(5336),
            Self::TraceNV => Some(5337),
            Self::TraceMotionNV => Some(5338),
            Self::TraceRayMotionNV => Some(5339),
            Self::RayQueryGetIntersectionTriangleVertexPositionsKHR => Some(5340),
            Self::TypeAccelerationStructureKHR => Some(5341),
            Self::ExecuteCallableNV => Some(5344),
            Self::TypeCooperativeMatrixNV => Some(5358),
            Self::CooperativeMatrixLoadNV => Some(5359),
            Self::CooperativeMatrixStoreNV => Some(5360),
            Self::CooperativeMatrixMulAddNV => Some(5361),
            Self::CooperativeMatrixLengthNV => Some(5362),
            _ => None,
        }
    }

    fn get_opcode_part5(&self) -> (r: Option<u16>)
        ensures
            r == self.opcode_part5(),
    {
        match self {
            Self::BeginInvocationInterlockEXT => Some(5364),
            Self::EndInvocationInterlockEXT => Some(5365),
            Self::DemoteToHelperInvocation => Some(5380),
            Self::IsHelperInvocationEXT => Some(5381),
            Self::ConvertUToImageNV => Some(5391),
            Self::ConvertUToSamplerNV => Some(5392),
            Self::ConvertImageToUNV => Some(5393),
            Self::ConvertSamplerToUNV => Some(5394),
            Self::ConvertUToSampledImageNV => Some(5395),
            Self::ConvertSampledImageToUNV => Some(5396),
            Self::SamplerImageAddressingModeNV => Some(5397),
            Self::SubgroupShuffleINTEL => Some(5571),
            Self::SubgroupShuffleDownINTEL => Some(5572),
            Self::SubgroupShuffleUpINTEL => Some(5573),
            Self::SubgroupShuffleXorINTEL => Some(5574),
            Self::SubgroupBlockReadINTEL => Some(5575),
            Self::SubgroupBlockWriteINTEL => Some(5576),
            Self::SubgroupImageBlockReadINTEL => Some(5577),
            Self::SubgroupImageBlockWriteINTEL => Some(5578),
            Self::SubgroupImageMediaBlockReadINTEL => Some(5580),
            Self::SubgroupImageMediaBlockWriteINTEL => Some(5581),
            Self::UCountLeadingZerosINTEL => Some(5585),
            Self::UCountTrailingZerosINTEL => Some(5586),
            Self::AbsISubINTEL => Some(5587),
            Self::AbsUSubINTEL => Some(5588),
            Self::IAddSatINTEL => Some(5589),
            Self::UAddSatINTEL => Some(5590),
            Self::IAverageINTEL => Some(5591),
            Self::UAverageINTEL => Some(5592),
            Self::IAverageRoundedINTEL => Some(5593),
            Self::UAverageRoundedINTEL => Some(5594),
            Self::ISubSatINTEL => Some(5595),
            Self::USubSatINTEL => Some(5596),
            Self::IMul32x16INTEL => Some(5597),
            Self::UMul32x16INTEL => Some(5598),
            Self::ConstantFunctionPointerINTEL => Some(5600),
            Self::FunctionPointerCallINTEL => Some(5601),
            Self::AsmTargetINTEL => Some(5609),
            Self::AsmINTEL => Some(5610),
            Self::AsmCallINTEL => Some(5611),
            Self::AtomicFMinEXT => Some(5614),
            Self::AtomicFMaxEXT => Some(5615),
            Self::AssumeTrueKHR => Some(5630),
            Self::ExpectKHR => Some(5631),
            Self::DecorateString => Some(5632),
            Self::MemberDecorateString => Some(5633),
            Self::VmeImageINTEL => Some(5699),
            Self::TypeVmeImageINTEL => Some(5700),
            Self::TypeAvcImePayloadINTEL => Some(5701),
            Self::TypeAvcRefPayloadINTEL => Some(5702),
            Self::TypeAvcSicPayloadINTEL => Some(5703),
            Self::TypeAvcMcePayloadINTEL => Some(5704),
            Self::TypeAvcMceResultINTEL => Some(5705),
            Self::TypeAvcImeResultINTEL => Some(5706),
            Self::TypeAvcImeResultSingleReferenceStreamoutINTEL => Some(5707),
            Self::TypeAvcImeResultDualReferenceStreamoutINTEL => Some(5708),
            Self::TypeAvcImeSingleReferenceStreaminINTEL => Some(5709),
            Self::TypeAvcImeDualReferenceStreaminINTEL => Some(5710),
            Self::TypeAvcRefResultINTEL => Some(5711),
            Self::TypeAvcSicResultINTEL => Some(5712),
            Self::SubgroupAvcMceGetDefaultInterBaseMultiReferencePenaltyINTEL => Some(5713),
            Self::SubgroupAvcMceSetInterBaseMultiReferencePenaltyINTEL => Some(5714),
            Self::SubgroupAvcMceGetDefaultInterShapePenaltyINTEL => Some(5715),
            Self::SubgroupAvcMceSetInterShapePenaltyINTEL => Some(5716),
            Self::SubgroupAvcMceGetDefaultInterDirectionPenaltyINTEL => Some(5717),
            Self::SubgroupAvcMceSetInterDirectionPenaltyINTEL => Some(5718),
            Self::SubgroupAvcMceGetDefaultIntraLumaShapePenaltyINTEL => Some(5719),
            Self::SubgroupAvcMceGetDefaultInterMotionVectorCostTableINTEL => Some(5720),
            Self::SubgroupAvcMceGetDefaultHighPenaltyCostTableINTEL => Some(5721),
            Self::SubgroupAvcMceGetDefaultMediumPenaltyCostTableINTEL => Some(5722),
            Self::SubgroupAvcMceGetDefaultLowPenaltyCostTableINTEL => Some(5723),
            Self::SubgroupAvcMceSetMotionVectorCostFunctionINTEL => Some(5724),
            Self::SubgroupAvcMceGetDefaultIntraLumaModePenaltyINTEL => Some(5725),
            Self::SubgroupAvcMceGetDefaultNonDcLumaIntraPenaltyINTEL => Some(5726),
            Self::SubgroupAvcMceGetDefaultIntraChromaModeBasePenaltyINTEL => Some(5727),
            Self::SubgroupAvcMceSetAcOnlyHaarINTEL => Some(5728),
            Self::SubgroupAvcMceSetSourceInterlacedFieldPolarityINTEL => Some(5729),
            Self::SubgroupAvcMceSetSingleReferenceInterlacedFieldPolarityINTEL => Some(5730),
            Self::SubgroupAvcMceSetDualReferenceInterlacedFieldPolaritiesINTEL => Some(5731),
            Self::SubgroupAvcMceConvertToImePayloadINTEL => Some(5732),
            Self::SubgroupAvcMceConvertToImeResultINTEL => Some(5733),
            Self::SubgroupAvcMceConvertToRefPayloadINTEL => Some(5734),
            Self::SubgroupAvcMceConvertToRefResultINTEL => Some(5735),
            Self::SubgroupAvcMceConvertToSicPayloadINTEL => Some(5736),
            Self::SubgroupAvcMceConvertToSicResultINTEL => Some(5737),
            Self::SubgroupAvcMceGetMotionVectorsINTEL => Some(5738),
            Self::SubgroupAvcMceGetInterDistortionsINTEL => Some(5739),
            Self::SubgroupAvcMceGetBestInterDistortionsINTEL => Some(5740),
            Self::SubgroupAvcMceGetInterMajorShapeINTEL => Some(5741),
            Self::SubgroupAvcMceGetInterMinorShapeINTEL => Some(5742),
            _ => None,
        }
    }

    fn get_opcode_part6(&self) -> (r: Option<u16>)
        ensures
            r == self.opcode_part6(),
    {
        match self {
            Self::SubgroupAvcMceGetInterDirectionsINTEL => Some(5743),
            Self::SubgroupAvcMceGetInterMotionVectorCountINTEL => Some(5744),
            Self::SubgroupAvcMceGetInterReferenceIdsINTEL => Some(5745),
            Self::SubgroupAvcMceGetInterReferenceInterlacedFieldPolaritiesINTEL => Some(5746),
            Self::SubgroupAvcImeInitializeINTEL => Some(5747),
            Self::SubgroupAvcImeSetSingleReferenceINTEL => Some(5748),
            Self::SubgroupAvcImeSetDualReferenceINTEL => Some(5749),
            Self::SubgroupAvcImeRefWindowSizeINTEL => Some(5750),
            Self::SubgroupAvcImeAdjustRefOffsetINTEL => Some(5751),
            Self::SubgroupAvcImeConvertToMcePayloadINTEL => Some(5752),
            Self::SubgroupAvcImeSetMaxMotionVectorCountINTEL => Some(5753),
            Self::SubgroupAvcImeSetUnidirectionalMixDisableINTEL => Some(5754),
            Self::SubgroupAvcImeSetEarlySearchTerminationThresholdINTEL => Some(5755),
            Self::SubgroupAvcImeSetWeightedSadINTEL => Some(5756),
            Self::SubgroupAvcImeEvaluateWithSingleReferenceINTEL => Some(5757),
            Self::SubgroupAvcImeEvaluateWithDualReferenceINTEL => Some(5758),
            Self::SubgroupAvcImeEvaluateWithSingleReferenceStreaminINTEL => Some(5759),
            Self::SubgroupAvcImeEvaluateWithDualReferenceStreaminINTEL => Some(5760),
            Self::SubgroupAvcImeEvaluateWithSingleReferenceStreamoutINTEL => Some(5761),
            Self::SubgroupAvcImeEvaluateWithDualReferenceStreamoutINTEL => Some(5762),
            Self::SubgroupAvcImeEvaluateWithSingleReferenceStreaminoutINTEL => Some(5763),
            Self::SubgroupAvcImeEvaluateWithDualReferenceStreaminoutINTEL => Some(5764),
            Self::SubgroupAvcImeConvertToMceResultINTEL => Some(5765),
            Self::SubgroupAvcImeGetSingleReferenceStreaminINTEL => Some(5766),
            Self::SubgroupAvcImeGetDualReferenceStreaminINTEL => Some(5767),
            Self::SubgroupAvcImeStripSingleReferenceStreamoutINTEL => Some(5768),
            Self::SubgroupAvcImeStripDualReferenceStreamoutINTEL => Some(5769),
            Self::SubgroupAvcImeGetStreamoutSingleReferenceMajorShapeMotionVectorsINTEL => Some(5770),
            Self::SubgroupAvcImeGetStreamoutSingleReferenceMajorShapeDistortionsINTEL => Some(5771),
            Self::SubgroupAvcImeGetStreamoutSingleReferenceMajorShapeReferenceIdsINTEL => Some(5772),
            Self::SubgroupAvcImeGetStreamoutDualReferenceMajorShapeMotionVectorsINTEL => Some(5773),
            Self::SubgroupAvcImeGetStreamoutDualReferenceMajorShapeDistortionsINTEL => Some(5774),
            Self::SubgroupAvcImeGetStreamoutDualReferenceMajorShapeReferenceIdsINTEL => Some(5775),
            Self::SubgroupAvcImeGetBorderReachedINTEL => Some(5776),
            Self::SubgroupAvcImeGetTruncatedSearchIndicationINTEL => Some(5777),
            Self::SubgroupAvcImeGetUnidirectionalEarlySearchTerminationINTEL => Some(5778),
            Self::SubgroupAvcImeGetWeightingPatternMinimumMotionVectorINTEL => Some(5779),
            Self::SubgroupAvcImeGetWeightingPatternMinimumDistortionINTEL => Some(5780),
            Self::SubgroupAvcFmeInitializeINTEL => Some(5781),
            Self::SubgroupAvcBmeInitializeINTEL => Some(5782),
            Self::SubgroupAvcRefConvertToMcePayloadINTEL => Some(5783),
            Self::SubgroupAvcRefSetBidirectionalMixDisableINTEL => Some(5784),
            Self::SubgroupAvcRefSetBilinearFilterEnableINTEL => Some(5785),
            Self::SubgroupAvcRefEvaluateWithSingleReferenceINTEL => Some(5786),
            Self::SubgroupAvcRefEvaluateWithDualReferenceINTEL => Some(5787),
            Self::SubgroupAvcRefEvaluateWithMultiReferenceINTEL => Some(5788),
            Self::SubgroupAvcRefEvaluateWithMultiReferenceInterlacedINTEL => Some(5789),
            Self::SubgroupAvcRefConvertToMceResultINTEL => Some(5790),
            Self::SubgroupAvcSicInitializeINTEL => Some(5791),
            Self::SubgroupAvcSicConfigureSkcINTEL => Some(5792),
            Self::SubgroupAvcSicConfigureIpeLumaINTEL => Some(5793),
            Self::SubgroupAvcSicConfigureIpeLumaChromaINTEL => Some(5794),
            Self::SubgroupAvcSicGetMotionVectorMaskINTEL => Some(5795),
            Self::SubgroupAvcSicConvertToMcePayloadINTEL => Some(5796),
            Self::SubgroupAvcSicSetIntraLumaShapePenaltyINTEL => Some(5797),
            Self::SubgroupAvcSicSetIntraLumaModeCostFunctionINTEL => Some(5798),
            Self::SubgroupAvcSicSetIntraChromaModeCostFunctionINTEL => Some(5799),
            Self::SubgroupAvcSicSetBilinearFilterEnableINTEL => Some(5800),
            Self::SubgroupAvcSicSetSkcForwardTransformEnableINTEL => Some(5801),
            Self::SubgroupAvcSicSetBlockBasedRawSkipSadINTEL => Some(5802),
            Self::SubgroupAvcSicEvaluateIpeINTEL => Some(5803),
            Self::SubgroupAvcSicEvaluateWithSingleReferenceINTEL => Some(5804),
            Self::SubgroupAvcSicEvaluateWithDualReferenceINTEL => Some(5805),
            Self::SubgroupAvcSicEvaluateWithMultiReferenceINTEL => Some(5806),
            Self::SubgroupAvcSicEvaluateWithMultiReferenceInterlacedINTEL => Some(5807),
            Self::SubgroupAvcSicConvertToMceResultINTEL => Some(5808),
            Self::SubgroupAvcSicGetIpeLumaShapeINTEL => Some(5809),
            Self::SubgroupAvcSicGetBestIpeLumaDistortionINTEL => Some(5810),
            Self::SubgroupAvcSicGetBestIpeChromaDistortionINTEL => Some(5811),
            Self::SubgroupAvcSicGetPackedIpeLumaModesINTEL => Some(5812),
            Self::SubgroupAvcSicGetIpeChromaModeINTEL => Some(5813),
            Self::SubgroupAvcSicGetPackedSkcLumaCountThresholdINTEL => Some(5814),
            Self::SubgroupAvcSicGetPackedSkcLumaSumThresholdINTEL => Some(5815),
            Self::SubgroupAvcSicGetInterRawSadsINTEL => Some(5816),
            Self::VariableLengthArrayINTEL => Some(5818),
            Self::SaveMemoryINTEL => Some(5819),
            Self::RestoreMemoryINTEL => Some(5820),
            Self::ArbitraryFloatSinCosPiINTEL => Some(5840),
            Self::ArbitraryFloatCastINTEL => Some(5841),
            Self::ArbitraryFloatCastFromIntINTEL => Some(5842),
            Self::ArbitraryFloatCastToIntINTEL => Some(5843),
            Self::ArbitraryFloatAddINTEL => Some(5846),
            Self::ArbitraryFloatSubINTEL => Some(5847),
            Self::ArbitraryFloatMulINTEL => Some(5848),
            Self::ArbitraryFloatDivINTEL => Some(5849),
            Self::ArbitraryFloatGTINTEL => Some(5850),
            Self::ArbitraryFloatGEINTEL => Some(5851),
            Self::ArbitraryFloatLTINTEL => Some(5852),
            Self::ArbitraryFloatLEINTEL => Some(5853),
            Self::ArbitraryFloatEQINTEL => Some(5854),
            _ => None,
        }
    }

    fn get_opcode_part7(&self) -> (r: Option<u16>)
        ensures
            r == self.opcode_part7(),
    {
        match self {
            Self::ArbitraryFloatRecipINTEL => Some(5855),
            Self::ArbitraryFloatRSqrtINTEL => Some(5856),
            Self::ArbitraryFloatCbrtINTEL => Some(5857),
            Self::ArbitraryFloatHypotINTEL => Some(5858),
            Self::ArbitraryFloatSqrtINTEL => Some(5859),
            Self::ArbitraryFloatLogINTEL => Some(5860),
            Self::ArbitraryFloatLog2INTEL => Some(5861),
            Self::ArbitraryFloatLog10INTEL => Some(5862),
            Self::ArbitraryFloatLog1pINTEL => Some(5863),
            Self::ArbitraryFloatExpINTEL => Some(5864),
            Self::ArbitraryFloatExp2INTEL => Some(5865),
            Self::ArbitraryFloatExp10INTEL => Some(5866),
            Self::ArbitraryFloatExpm1INTEL => Some(5867),
            Self::ArbitraryFloatSinINTEL => Some(5868),
            Self::ArbitraryFloatCosINTEL => Some(5869),
            Self::ArbitraryFloatSinCosINTEL => Some(5870),
            Self::ArbitraryFloatSinPiINTEL => Some(5871),
            Self::ArbitraryFloatCosPiINTEL => Some(5872),
            Self::ArbitraryFloatASinINTEL => Some(5873),
            Self::ArbitraryFloatASinPiINTEL => Some(5874),
            Self::ArbitraryFloatACosINTEL => Some(5875),
            Self::ArbitraryFloatACosPiINTEL => Some(5876),
            Self::ArbitraryFloatATanINTEL => Some(5877),
            Self::ArbitraryFloatATanPiINTEL => Some(5878),
            Self::ArbitraryFloatATan2INTEL => Some(5879),
            Self::ArbitraryFloatPowINTEL => Some(5880),
            Self::ArbitraryFloatPowRINTEL => Some(5881),
            Self::ArbitraryFloatPowNINTEL => Some(5882),
            Self::LoopControlINTEL => Some(5887),
            Self::AliasDomainDeclINTEL => Some(5911),
            Self::AliasScopeDeclINTEL => Some(5912),
            Self::AliasScopeListDeclINTEL => Some(5913),
            Self::FixedSqrtINTEL => Some(5923),
            Self::FixedRecipINTEL => Some(5924),
            Self::FixedRsqrtINTEL => Some(5925),
            Self::FixedSinINTEL => Some(5926),
            Self::FixedCosINTEL => Some(5927),
            Self::FixedSinCosINTEL => Some(5928),
            Self::FixedSinPiINTEL => Some(5929),
            Self::FixedCosPiINTEL => Some(5930),
            Self::FixedSinCosPiINTEL => Some(5931),
            Self::FixedLogINTEL => Some(5932),
            Self::FixedExpINTEL => Some(5933),
            Self::PtrCastToCrossWorkgroupINTEL => Some(5934),
            Self::CrossWorkgroupCastToPtrINTEL => Some(5938),
            Self::ReadPipeBlockingINTEL => Some(5946),
            Self::WritePipeBlockingINTEL => Some(5947),
            Self::FPGARegINTEL => Some(5949),
            Self::RayQueryGetRayTMinKHR => Some(6016),
            Self::RayQueryGetRayFlagsKHR => Some(6017),
            Self::RayQueryGetIntersectionTKHR => Some(6018),
            Self::RayQueryGetIntersectionInstanceCustomIndexKHR => Some(6019),
            Self::RayQueryGetIntersectionInstanceIdKHR => Some(6020),
            Self::RayQueryGetIntersectionInstanceShaderBindingTableRecordOffsetKHR => Some(6021),
            Self::RayQueryGetIntersectionGeometryIndexKHR => Some(6022),
            Self::RayQueryGetIntersectionPrimitiveIndexKHR => Some(6023),
            Self::RayQueryGetIntersectionBarycentricsKHR => Some(6024),
            Self::RayQueryGetIntersectionFrontFaceKHR => Some(6025),
            Self::RayQueryGetIntersectionCandidateAABBOpaqueKHR => Some(6026),
            Self::RayQueryGetIntersectionObjectRayDirectionKHR => Some(6027),
            Self::RayQueryGetIntersectionObjectRayOriginKHR => Some(6028),
            Self::RayQueryGetWorldRayDirectionKHR => Some(6029),
            Self::RayQueryGetWorldRayOriginKHR => Some(6030),
            Self::RayQueryGetIntersectionObjectToWorldKHR => Some(6031),
            Self::RayQueryGetIntersectionWorldToObjectKHR => Some(6032),
            Self::AtomicFAddEXT => Some(6035),
            Self::TypeBufferSurfaceINTEL => Some(6086),
            Self::TypeStructContinuedINTEL => Some(6090),
            Self::ConstantCompositeContinuedINTEL => Some(6091),
            Self::SpecConstantCompositeContinuedINTEL => Some(6092),
            Self::ConvertFToBF16INTEL => Some(6116),
            Self::ConvertBF16ToFINTEL => Some(6117),
            Self::ControlBarrierArriveINTEL => Some(6142),
            Self::ControlBarrierWaitINTEL => Some(6143),
            Self::GroupIMulKHR => Some(6401),
            Self::GroupFMulKHR => Some(6402),
            Self::GroupBitwiseAndKHR => Some(6403),
            Self::GroupBitwiseOrKHR => Some(6404),
            Self::GroupBitwiseXorKHR => Some(6405),
            Self::GroupLogicalAndKHR => Some(6406),
            Self::GroupLogicalOrKHR => Some(6407),
            Self::GroupLogicalXorKHR => Some(6408),
            _ => None,
        }
    }

    pub(crate) fn get_opcode(&self) -> (r: u16)
        ensures
            r == self.opcode(),
    {
        if let Some(v) = self.get_opcode_part0() {
            return v;
        }
        if let Some(v) = self.get_opcode_part1() {
            return v;
        }
        if let Some(v) = self.get_opcode_part2() {
            return v;
        }
        if let Some(v) = self.get_opcode_part3() {
            return v;
        }
        if let Some(v) = self.get_opcode_part4() {
            return v;
        }
        if let Some(v) = self.get_opcode_part5() {
            return v;
        }
        if let Some(v) = self.get_opcode_part6() {
            return v;
        }
        match self.get_opcode_part7() {
            Some(v) => v,
            None => 0,
        }
    }

    pub(crate) fn get_word_count(&self) -> (r: (u16, bool))
        requires
            self.is_emitted(),
        ensures
            r == self.word_count().unwrap(),
    {
        match self {
            Self::Capability => (2, false),
            Self::Extension => (2, true),
            Self::ExtInstImport => (3, true),
            Self::MemoryModel => (3, false),
            Self::EntryPoint => (4, true),
            Self::ExecutionMode => (3, true),
            Self::TypeVoid => (2, false),
            Self::TypeBool => (2, false),
            Self::TypeInt => (4, false),
            Self::TypeFloat => (3, false),
            Self::TypeVector => (4, false),
            Self::TypeMatrix => (4, false),
            Self::TypeArray => (4, false),
            Self::TypeRuntimeArray => (3, false),
            Self::TypePointer => (4, false),
            Self::TypeFunction => (3, true),
            Self::ConstantTrue => (3, false),
            Self::ConstantFalse => (3, false),
            Self::Constant => (4, true),
            Self::Variable => (4, true),
            Self::Function => (5, false),
            Self::FunctionParameter => (3, false),
            Self::FunctionEnd => (1, false),
            _ => (0, false),
        }
    }

    /// The first word of an instruction of fixed length.
    pub fn get_fixed_word0(&self) -> (r: u32)
        requires
            self.is_fixed(),
        ensures
            r == self.word0(0),
    {
        let opcode: u16 = self.get_opcode();
        let count: (u16, bool) = self.get_word_count();
        (count.0 as u32) * 0x10000 + opcode as u32
    }

    /// The first word of an instruction followed by `additional_arguments` further operands;
    /// an instruction of fixed length takes none.
    pub fn get_word0(&self, additional_arguments: u16) -> (r: u32)
        requires
            self.accepts_arguments(additional_arguments),
        ensures
            r == self.word0(additional_arguments),
    {
        let opcode: u16 = self.get_opcode();
        let count: (u16, bool) = self.get_word_count();
        if !count.1 {
            (count.0 as u32) * 0x10000 + opcode as u32
        } else {
            ((count.0 + additional_arguments) as u32) * 0x10000 + opcode as u32
        }
    }
}

/// The opcodes of the instructions that this library writes have the numbers that the
/// SPIR-V specification gives them, and the instructions it emits have the specification's
/// word count: the fixed count, or the least count of an instruction whose further operands
/// vary.
pub proof fn law_emitted_opcodes(op: OpcodeName)
    ensures
        op == OpcodeName::Extension ==> op.opcode() == 10,
        op == OpcodeName::ExtInstImport ==> op.opcode() == 11,
        op == OpcodeName::MemoryModel ==> op.opcode() == 14,
        op == OpcodeName::EntryPoint ==> op.opcode() == 15,
        op == OpcodeName::ExecutionMode ==> op.opcode() == 16,
        op == OpcodeName::Capability ==> op.opcode() == 17,
        op == OpcodeName::TypeVoid ==> op.opcode() == 19,
        op == OpcodeName::TypeBool ==> op.opcode() == 20,
        op == OpcodeName::TypeInt ==> op.opcode() == 21,
        op == OpcodeName::TypeFloat ==> op.opcode() == 22,
        op == OpcodeName::TypeVector ==> op.opcode() == 23,
        op == OpcodeName::TypeMatrix ==> op.opcode() == 24,
        op == OpcodeName::TypeSampler ==> op.opcode() == 26,
        op == OpcodeName::TypeArray ==> op.opcode() == 28,
        op == OpcodeName::TypeRuntimeArray ==> op.opcode() == 29,
        op == OpcodeName::TypePointer ==> op.opcode() == 32,
        op == OpcodeName::TypeFunction ==> op.opcode() == 33,
        op == OpcodeName::ConstantTrue ==> op.opcode() == 41,
        op == OpcodeName::ConstantFalse ==> op.opcode() == 42,
        op == OpcodeName::Constant ==> op.opcode() == 43,
        op == OpcodeName::Function ==> op.opcode() == 54,
        op == OpcodeName::FunctionParameter ==> op.opcode() == 55,
        op == OpcodeName::FunctionEnd ==> op.opcode() == 56,
        op == OpcodeName::Variable ==> op.opcode() == 59,
        op == OpcodeName::Decorate ==> op.opcode() == 71,
        op == OpcodeName::Label ==> op.opcode() == 248,
        op == OpcodeName::Extension ==> op.word_count() == Some((2u16, true)),
        op == OpcodeName::ExtInstImport ==> op.word_count() == Some((3u16, true)),
        op == OpcodeName::MemoryModel ==> op.word_count() == Some((3u16, false)),
        op == OpcodeName::EntryPoint ==> op.word_count() == Some((4u16, true)),
        op == OpcodeName::ExecutionMode ==> op.word_count() == Some((3u16, true)),
        op == OpcodeName::Capability ==> op.word_count() == Some((2u16, false)),
        op == OpcodeName::TypeVoid ==> op.word_count() == Some((2u16, false)),
        op == OpcodeName::TypeBool ==> op.word_count() == Some((2u16, false)),
        op == OpcodeName::TypeInt ==> op.word_count() == Some((4u16, false)),
        op == OpcodeName::TypeFloat ==> op.word_count() == Some((3u16, false)),
        op == OpcodeName::TypeVector ==> op.word_count() == Some((4u16, false)),
        op == OpcodeName::TypeMatrix ==> op.word_count() == Some((4u16, false)),
        op == OpcodeName::TypeArray ==> op.word_count() == Some((4u16, false)),
        op == OpcodeName::TypeRuntimeArray ==> op.word_count() == Some((3u16, false)),
        op == OpcodeName::TypePointer ==> op.word_count() == Some((4u16, false)),
        op == OpcodeName::TypeFunction ==> op.word_count() == Some((3u16, true)),
        op == OpcodeName::ConstantTrue ==> op.word_count() == Some((3u16, false)),
        op == OpcodeName::ConstantFalse ==> op.word_count() == Some((3u16, false)),
        op == OpcodeName::Constant ==> op.word_count() == Some((4u16, true)),
        op == OpcodeName::Function ==> op.word_count() == Some((5u16, false)),
        op == OpcodeName::FunctionParameter ==> op.word_count() == Some((3u16, false)),
        op == OpcodeName::FunctionEnd ==> op.word_count() == Some((1u16, false)),
        op == OpcodeName::Variable ==> op.word_count() == Some((4u16, true)),
{
}

} // verus!
