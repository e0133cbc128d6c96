use vstd::prelude::*;

verus! {

/// The pipeline stage a shader targets.
#[derive(Clone, Copy, Debug, PartialEq, Eq, Structural)]
pub enum ShaderKind {
    Unknown,
    Vertex,
    Fragment,
    Compute,
    Mesh,
    Task,
    RayGeneration,
    Intersection,
    AnyHit,
    ClosestHit,
    Miss,
    Callable,
    TesselationControl,
    TesselationEvaluation,
    Geometry,
}

/// The language the shader source is written in.
#[derive(Clone, Copy, Debug, PartialEq, Eq, Structural)]
pub enum InputSourceLanguage {
    Unknown,
    /// HLSL, served by the legacy-language compiler.
    Hlsl,
    /// GLSL, the C-style shading language.
    Glsl,
    /// WGSL, the native textual intermediate representation.
    Wgsl,
    /// SPIR-V assembly text.
    SpirvAsm,
}

/// The surface syntax that the native front end reads a native-IR source in.
#[derive(Clone, Copy, Debug, PartialEq, Eq, Structural)]
pub enum SurfaceSyntax {
    /// Plain native-IR text (WGSL).
    NativeText,
    /// C-style GPU syntax (GLSL).
    CStyle,
}

/// The execution environment the binary is meant for.
#[derive(Clone, Copy, Debug, PartialEq, Eq, Structural)]
pub enum TargetEnvironmentType {
    Vulkan,
    OpenGL,
    WebGpu,
}

/// The binary-format version of the output.
#[derive(Clone, Copy, Debug, PartialEq, Eq, Structural)]
pub enum TargetSpirvVersion {
    Spirv1_0,
    Spirv1_1,
    Spirv1_2,
    Spirv1_3,
    Spirv1_4,
    Spirv1_5,
    Spirv1_6,
}

/// How hard a backend should optimize; advisory.
#[derive(Clone, Copy, Debug, PartialEq, Eq, Structural)]
pub enum OptimizationLevel {
    Zero,
    MinSize,
    MaxPerformance,
}

/// The three backend toolchains a request can be served by.
#[derive(Clone, Copy, Debug, PartialEq, Eq, Structural)]
pub enum Backend {
    /// The legacy-language compiler (HLSL and GLSL).
    LegacyCompiler,
    /// The native-IR parser, validator and emitter.
    NativeIr,
    /// The textual-assembly assembler.
    Assembly,
}

/// Every way a compilation request can fail.
#[derive(Clone, Debug, PartialEq, Eq)]
pub enum ShaderError {
    /// The stage was not given and could not be inferred from the path.
    AmbiguousStage,
    /// The language was not given and could not be inferred from the path.
    AmbiguousLanguage,
    /// The pair of environment and binary-format version is not supported.
    UnsupportedTarget,
    /// The backend that serves the language is not part of this build.
    BackendUnavailable(Backend),
    /// The selected backend cannot represent the requested stage.
    UnsupportedStage(ShaderKind),
    /// No search location holds the requested file.
    IncludeNotFound(String),
    /// The file is already open further up the chain of inclusions.
    CircularInclude(String),
    /// The backend's own diagnostic text, unmodified.
    BackendCompilationFailure(String),
}

/// The directives of one compilation request, as given: any of them may be unset.
pub struct ShaderDirectives {
    pub kind: ShaderKind,
    pub lang: InputSourceLanguage,
    pub native_syntax: SurfaceSyntax,
    pub entry: Option<String>,
    pub optim_lvl: OptimizationLevel,
    pub debug: bool,
    pub y_flip: bool,
    /// Preprocessor defines: a name and an optional value.
    pub defines: Vec<(String, Option<String>)>,
    /// Include search directories, in order of precedence.
    pub incl_dirs: Vec<String>,
    pub env_ty: Option<TargetEnvironmentType>,
    pub spv_ver: Option<TargetSpirvVersion>,
    /// The file the source was read from, if any.
    pub path: Option<String>,
}

/// A complete configuration: every field is decided.
pub struct ShaderCompilationConfig {
    pub kind: ShaderKind,
    pub lang: InputSourceLanguage,
    pub native_syntax: SurfaceSyntax,
    pub entry: String,
    pub optim_lvl: OptimizationLevel,
    pub debug: bool,
    pub y_flip: bool,
    pub defines: Vec<(String, Option<String>)>,
    pub incl_dirs: Vec<String>,
    pub env_ty: TargetEnvironmentType,
    pub spv_ver: TargetSpirvVersion,
    pub path: Option<String>,
}

/// What a successful compilation hands back.
pub struct CompilationFeedback {
    /// The binary word sequence.
    pub spv: Vec<u32>,
    /// The files the output depends on.
    pub dep_paths: Vec<String>,
}

/// The pairs of environment and binary-format version that can be targeted.
pub open spec fn target_supported(env: TargetEnvironmentType, ver: TargetSpirvVersion) -> bool {
    match (env, ver) {
        (TargetEnvironmentType::Vulkan, TargetSpirvVersion::Spirv1_0) => true,
        (TargetEnvironmentType::Vulkan, TargetSpirvVersion::Spirv1_3) => true,
        (TargetEnvironmentType::Vulkan, TargetSpirvVersion::Spirv1_5) => true,
        (TargetEnvironmentType::Vulkan, TargetSpirvVersion::Spirv1_6) => true,
        (TargetEnvironmentType::OpenGL, TargetSpirvVersion::Spirv1_0) => true,
        (TargetEnvironmentType::WebGpu, TargetSpirvVersion::Spirv1_0) => true,
        _ => false,
    }
}

/// Whether `(env, ver)` is in the compatibility table.
pub fn is_target_supported(env: TargetEnvironmentType, ver: TargetSpirvVersion) -> (r: bool)
    ensures
        r == target_supported(env, ver),
{
    match (env, ver) {
        (TargetEnvironmentType::Vulkan, TargetSpirvVersion::Spirv1_0) => true,
        (TargetEnvironmentType::Vulkan, TargetSpirvVersion::Spirv1_3) => true,
        (TargetEnvironmentType::Vulkan, TargetSpirvVersion::Spirv1_5) => true,
        (TargetEnvironmentType::Vulkan, TargetSpirvVersion::Spirv1_6) => true,
        (TargetEnvironmentType::OpenGL, TargetSpirvVersion::Spirv1_0) => true,
        (TargetEnvironmentType::WebGpu, TargetSpirvVersion::Spirv1_0) => true,
        _ => false,
    }
}

impl ShaderCompilationConfig {
    /// A resolved configuration names a stage and a language, and a supported target.
    pub open spec fn wf(&self) -> bool {
        &&& self.kind != ShaderKind::Unknown
        &&& self.lang != InputSourceLanguage::Unknown
        &&& target_supported(self.env_ty, self.spv_ver)
    }
}

impl ShaderDirectives {
    /// Directives that leave everything unset, with no defines, no search
    /// directories and every flag off.
    pub fn new() -> (r: ShaderDirectives)
        ensures
            r.kind == ShaderKind::Unknown,
            r.lang == InputSourceLanguage::Unknown,
            r.native_syntax == SurfaceSyntax::NativeText,
            r.entry is None,
            r.optim_lvl == OptimizationLevel::Zero,
            !r.debug,
            !r.y_flip,
            r.defines@.len() == 0,
            r.incl_dirs@.len() == 0,
            r.env_ty is None,
            r.spv_ver is None,
            r.path is None,
    {
        ShaderDirectives {
            kind: ShaderKind::Unknown,
            lang: InputSourceLanguage::Unknown,
            native_syntax: SurfaceSyntax::NativeText,
            entry: None,
            optim_lvl: OptimizationLevel::Zero,
            debug: false,
            y_flip: false,
            defines: Vec::new(),
            incl_dirs: Vec::new(),
            env_ty: None,
            spv_ver: None,
            path: None,
        }
    }
}

} // verus!
