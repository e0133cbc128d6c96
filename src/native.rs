use vstd::prelude::*;

use crate::config::{
    is_target_supported, target_supported, CompilationFeedback, InputSourceLanguage,
    ShaderCompilationConfig,
    ShaderError, ShaderKind, SurfaceSyntax, TargetSpirvVersion,
};

verus! {

#[verifier::external_type_specification]
#[verifier::external_body]
pub struct ExModule(naga::Module);

#[verifier::external_type_specification]
#[verifier::external_body]
pub struct ExModuleInfo(naga::valid::ModuleInfo);

#[verifier::external_type_specification]
#[verifier::external_body]
pub struct ExShaderStage(naga::ShaderStage);

/// The first word of every binary module.
pub const SPIRV_MAGIC: u32 = 0x07230203;

/// The stages the native backend can emit.
#[derive(Clone, Copy, Debug, PartialEq, Eq, Structural)]
pub enum NativeStage {
    Vertex,
    Fragment,
    Compute,
    Mesh,
    Task,
}

/// The ray-tracing family of stages.
pub open spec fn is_ray_tracing(k: ShaderKind) -> bool {
    match k {
        ShaderKind::RayGeneration | ShaderKind::Intersection | ShaderKind::AnyHit
        | ShaderKind::ClosestHit | ShaderKind::Miss | ShaderKind::Callable => true,
        _ => false,
    }
}

/// The native backend's stage for `k`; `None` for a stage it cannot represent.
pub open spec fn native_stage(k: ShaderKind) -> Option<NativeStage> {
    match k {
        ShaderKind::Vertex => Some(NativeStage::Vertex),
        ShaderKind::Fragment => Some(NativeStage::Fragment),
        ShaderKind::Compute => Some(NativeStage::Compute),
        ShaderKind::Mesh => Some(NativeStage::Mesh),
        ShaderKind::Task => Some(NativeStage::Task),
        _ => None,
    }
}

/// Maps a stage to the native backend's own, failing loudly on the stages it
/// has no representation for.
pub fn native_stage_of(kind: ShaderKind) -> (r: Result<NativeStage, ShaderError>)
    ensures
        match native_stage(kind) {
            Some(s) => r == Ok::<NativeStage, ShaderError>(s),
            None => r == Err::<NativeStage, ShaderError>(ShaderError::UnsupportedStage(kind)),
        },
{
    match kind {
        ShaderKind::Vertex => Ok(NativeStage::Vertex),
        ShaderKind::Fragment => Ok(NativeStage::Fragment),
        ShaderKind::Compute => Ok(NativeStage::Compute),
        ShaderKind::Mesh => Ok(NativeStage::Mesh),
        ShaderKind::Task => Ok(NativeStage::Task),
        _ => Err(ShaderError::UnsupportedStage(kind)),
    }
}

/// A ray-tracing stage never reaches the native backend's emitter: it has no
/// native stage, so the backend fails with `UnsupportedStage` instead of
/// compiling it as some other stage.
pub proof fn lemma_ray_tracing_unsupported(k: ShaderKind)
    requires
        is_ray_tracing(k),
    ensures
        native_stage(k) is None,
{
}

/// The emitter's settings that a configuration decides.
pub struct EmitOptions {
    /// Binary-format version as (major, minor).
    pub lang_version: (u8, u8),
    /// Embed debug names.
    pub debug: bool,
    /// Flip the vertical coordinate of the position output.
    pub adjust_coordinate_space: bool,
}

/// The (major, minor) pair of a binary-format version.
pub open spec fn spirv_lang_version(v: TargetSpirvVersion) -> (u8, u8) {
    match v {
        TargetSpirvVersion::Spirv1_0 => (1, 0),
        TargetSpirvVersion::Spirv1_1 => (1, 1),
        TargetSpirvVersion::Spirv1_2 => (1, 2),
        TargetSpirvVersion::Spirv1_3 => (1, 3),
        TargetSpirvVersion::Spirv1_4 => (1, 4),
        TargetSpirvVersion::Spirv1_5 => (1, 5),
        TargetSpirvVersion::Spirv1_6 => (1, 6),
    }
}

/// The version word of a module header for a (major, minor) pair.
pub open spec fn version_word(v: (u8, u8)) -> int {
    v.0 * 65536 + v.1 * 256
}

/// The emitter settings for `cfg`: each flag is taken on its own.
pub fn emit_options(cfg: &ShaderCompilationConfig) -> (r: EmitOptions)
    ensures
        r.lang_version == spirv_lang_version(cfg.spv_ver),
        r.debug == cfg.debug,
        r.adjust_coordinate_space == cfg.y_flip,
{
    let lang_version: (u8, u8) = match cfg.spv_ver {
        TargetSpirvVersion::Spirv1_0 => (1, 0),
        TargetSpirvVersion::Spirv1_1 => (1, 1),
        TargetSpirvVersion::Spirv1_2 => (1, 2),
        TargetSpirvVersion::Spirv1_3 => (1, 3),
        TargetSpirvVersion::Spirv1_4 => (1, 4),
        TargetSpirvVersion::Spirv1_5 => (1, 5),
        TargetSpirvVersion::Spirv1_6 => (1, 6),
    };
    EmitOptions { lang_version, debug: cfg.debug, adjust_coordinate_space: cfg.y_flip }
}

/// What a module was parsed from: the stage the C-style front end read it
/// for (`None` for native-IR text), and the source text.
pub type ModuleOrigin = (Option<NativeStage>, Seq<char>);

/// naga's stage, with the native stage it was made from.
pub struct NagaStage {
    stage: naga::ShaderStage,
    native: Ghost<NativeStage>,
}

impl NagaStage {
    /// The native stage this naga stage was made from.
    pub closed spec fn native(&self) -> NativeStage {
        self.native@
    }
}

/// A module produced by one of naga's front ends, with what it was parsed from.
pub struct ParsedModule {
    module: naga::Module,
    origin: Ghost<ModuleOrigin>,
}

impl ParsedModule {
    /// What the module was parsed from.
    pub closed spec fn origin(&self) -> ModuleOrigin {
        self.origin@
    }
}

/// The validation result of a module, with the origin of that module.
pub struct ValidatedModule {
    info: naga::valid::ModuleInfo,
    origin: Ghost<ModuleOrigin>,
}

impl ValidatedModule {
    /// What the validated module was parsed from.
    pub closed spec fn origin(&self) -> ModuleOrigin {
        self.origin@
    }
}

/// The diagnostic naga's WGSL front end gives for `src`; `None` when it parses.
pub uninterp spec fn wgsl_parse_error(src: Seq<char>) -> Option<Seq<char>>;

/// The diagnostic naga's GLSL front end gives for `src` read for `stage`;
/// `None` when it parses.
pub uninterp spec fn glsl_parse_error(src: Seq<char>, stage: NativeStage) -> Option<Seq<char>>;

/// The diagnostic naga's validator gives for the module parsed from `origin`,
/// with every validation enabled and the capabilities the binary writer
/// supports; `None` when the module is valid.
pub uninterp spec fn validation_error(origin: ModuleOrigin) -> Option<Seq<char>>;

/// What naga's binary writer gives for the module parsed from `origin`, with
/// version `lang_version`, the debug and coordinate flags, and the entry point
/// `entry` of stage `stage`: the words, or the diagnostic.
pub uninterp spec fn emitted(
    origin: ModuleOrigin,
    lang_version: (u8, u8),
    debug: bool,
    adjust_coordinate_space: bool,
    stage: NativeStage,
    entry: Seq<char>,
) -> Result<Seq<u32>, Seq<char>>;

/// The parse diagnostic for `src` in surface syntax `syntax`.
pub open spec fn parse_error(syntax: SurfaceSyntax, stage: NativeStage, src: Seq<char>) -> Option<
    Seq<char>,
> {
    match syntax {
        SurfaceSyntax::NativeText => wgsl_parse_error(src),
        SurfaceSyntax::CStyle => glsl_parse_error(src, stage),
    }
}

/// The origin of the module parsed from `src` in surface syntax `syntax`.
pub open spec fn origin_of(syntax: SurfaceSyntax, stage: NativeStage, src: Seq<char>) -> ModuleOrigin {
    match syntax {
        SurfaceSyntax::NativeText => (None, src),
        SurfaceSyntax::CStyle => (Some(stage), src),
    }
}

/// What the native backend makes of `src`: the first failing step's
/// diagnostic (parse, then validation, then emission), or the emitted words.
pub open spec fn native_outcome(
    syntax: SurfaceSyntax,
    stage: NativeStage,
    src: Seq<char>,
    lang_version: (u8, u8),
    debug: bool,
    y_flip: bool,
    entry: Seq<char>,
) -> Result<Seq<u32>, Seq<char>> {
    let origin = origin_of(syntax, stage, src);
    match parse_error(syntax, stage, src) {
        Some(m) => Err(m),
        None => match validation_error(origin) {
            Some(m) => Err(m),
            None => emitted(origin, lang_version, debug, y_flip, stage, entry),
        },
    }
}

/// The message for a source language the native backend does not read.
pub open spec fn unsupported_language_message() -> Seq<char> {
    "unsupported source language"@
}

/// Converts a native stage to naga's `ShaderStage`, variant for variant.
#[verifier::external_body]
fn to_naga_stage(s: NativeStage) -> (r: NagaStage)
    ensures
        r.native() == s,
{
    let stage = match s {
        NativeStage::Vertex => naga::ShaderStage::Vertex,
        NativeStage::Fragment => naga::ShaderStage::Fragment,
        NativeStage::Compute => naga::ShaderStage::Compute,
        NativeStage::Mesh => naga::ShaderStage::Mesh,
        NativeStage::Task => naga::ShaderStage::Task,
    };
    NagaStage { stage, native: Ghost(s) }
}

/// Relies on naga::front::wgsl::parse_str to parse WGSL text into a module;
/// a failure is rendered by the error's emit_to_string, with line and column.
#[verifier::external_body]
fn parse_wgsl(src: &str) -> (r: Result<ParsedModule, String>)
    ensures
        match wgsl_parse_error(src@) {
            Some(m) => r matches Err(e) && e@ == m,
            None => r matches Ok(p) && p.origin() == (None::<NativeStage>, src@),
        },
{
    let module = naga::front::wgsl::parse_str(src).map_err(|e| e.emit_to_string(src))?;
    Ok(ParsedModule { module, origin: Ghost((None, src@)) })
}

/// Relies on naga::front::glsl::Frontend::parse to parse GLSL text for one
/// stage into a module; a failure is rendered by emit_to_string.
#[verifier::external_body]
fn parse_glsl(src: &str, stage: &NagaStage) -> (r: Result<ParsedModule, String>)
    ensures
        match glsl_parse_error(src@, stage.native()) {
            Some(m) => r matches Err(e) && e@ == m,
            None => r matches Ok(p) && p.origin() == (Some(stage.native()), src@),
        },
{
    let options = naga::front::glsl::Options::from(stage.stage);
    let module = naga::front::glsl::Frontend::default().parse(&options, src).map_err(
        |e| e.emit_to_string(src),
    )?;
    Ok(ParsedModule { module, origin: Ghost((Some(stage.native@), src@)) })
}

/// Relies on naga::valid::Validator::validate, with every validation enabled
/// and the capabilities that naga::back::spv::supported_capabilities lists, so
/// that a module the binary writer cannot emit is rejected here; a failure is
/// rendered with its Debug form.
#[verifier::external_body]
fn validate_module(m: &ParsedModule) -> (r: Result<ValidatedModule, String>)
    ensures
        match validation_error(m.origin()) {
            Some(e) => r matches Err(t) && t@ == e,
            None => r matches Ok(v) && v.origin() == m.origin(),
        },
{
    let caps = naga::back::spv::supported_capabilities();
    let mut validator = naga::valid::Validator::new(naga::valid::ValidationFlags::all(), caps);
    let info = validator.validate(&m.module).map_err(|e| format!("{:?}", e))?;
    Ok(ValidatedModule { info, origin: Ghost(m.origin@) })
}

/// Relies on naga::back::spv::write_vec. On success its output starts with the
/// five-word header (the magic number, then the version word made from
/// `lang_version`), and the memory-model instruction always follows.
#[verifier::external_body]
fn write_spirv(
    m: &ParsedModule,
    v: &ValidatedModule,
    opts: &EmitOptions,
    stage: &NagaStage,
    entry: &String,
) -> (r: Result<Vec<u32>, String>)
    requires
        v.origin() == m.origin(),
    ensures
        match emitted(
            m.origin(),
            opts.lang_version,
            opts.debug,
            opts.adjust_coordinate_space,
            stage.native(),
            entry@,
        ) {
            Ok(w) => r matches Ok(x) && x@ == w,
            Err(e) => r matches Err(t) && t@ == e,
        },
        r matches Ok(w) ==> w@.len() > 5 && w@[0] == SPIRV_MAGIC && w@[1] as int == version_word(
            opts.lang_version,
        ),
{
    let mut o = naga::back::spv::Options::default();
    o.lang_version = opts.lang_version;
    o.flags.set(naga::back::spv::WriterFlags::DEBUG, opts.debug);
    o.flags.set(naga::back::spv::WriterFlags::ADJUST_COORDINATE_SPACE, opts.adjust_coordinate_space);
    let po = naga::back::spv::PipelineOptions { shader_stage: stage.stage, entry_point: entry.clone() };
    naga::back::spv::write_vec(&m.module, &v.info, &o, Some(&po)).map_err(|e| format!("{:?}", e))
}

/// Compiles `src` with the native backend: parses it in the configured surface
/// syntax, validates the module, and emits it for the configured stage, entry
/// point, version and flags. The stage, the language and the target are checked
/// before anything is parsed; the path is not read, and the backend reports no
/// dependency of its own.
pub fn compile(src: &str, _path: Option<&str>, cfg: &ShaderCompilationConfig) -> (r: Result<
    CompilationFeedback,
    ShaderError,
>)
    ensures
        native_stage(cfg.kind) is None ==> r == Err::<CompilationFeedback, ShaderError>(
            ShaderError::UnsupportedStage(cfg.kind),
        ),
        native_stage(cfg.kind) is Some && cfg.lang != InputSourceLanguage::Wgsl ==> (r matches Err(
            ShaderError::BackendCompilationFailure(m),
        ) && m@ == unsupported_language_message()),
        native_stage(cfg.kind) is Some && cfg.lang == InputSourceLanguage::Wgsl && !target_supported(
            cfg.env_ty,
            cfg.spv_ver,
        ) ==> r == Err::<CompilationFeedback, ShaderError>(ShaderError::UnsupportedTarget),
        native_stage(cfg.kind) is Some && cfg.lang == InputSourceLanguage::Wgsl && target_supported(
            cfg.env_ty,
            cfg.spv_ver,
        ) ==> match native_outcome(
            cfg.native_syntax,
            native_stage(cfg.kind)->Some_0,
            src@,
            spirv_lang_version(cfg.spv_ver),
            cfg.debug,
            cfg.y_flip,
            cfg.entry@,
        ) {
            Ok(w) => r matches Ok(fb) && fb.spv@ == w && fb.dep_paths@.len() == 0,
            Err(m) => r matches Err(ShaderError::BackendCompilationFailure(t)) && t@ == m,
        },
        r matches Ok(fb) ==> {
            &&& fb.spv@.len() > 5
            &&& fb.spv@[0] == SPIRV_MAGIC
            &&& fb.spv@[1] as int == version_word(spirv_lang_version(cfg.spv_ver))
        },
{
    let stage = match native_stage_of(cfg.kind) {
        Ok(s) => s,
        Err(e) => return Err(e),
    };
    if cfg.lang != InputSourceLanguage::Wgsl {
        return Err(ShaderError::BackendCompilationFailure("unsupported source language".to_owned()));
    }
    if !is_target_supported(cfg.env_ty, cfg.spv_ver) {
        return Err(ShaderError::UnsupportedTarget);
    }
    let naga_stage = to_naga_stage(stage);
    let parsed = match cfg.native_syntax {
        SurfaceSyntax::NativeText => parse_wgsl(src),
        SurfaceSyntax::CStyle => parse_glsl(src, &naga_stage),
    };
    let module = match parsed {
        Ok(m) => m,
        Err(msg) => return Err(ShaderError::BackendCompilationFailure(msg)),
    };
    let info = match validate_module(&module) {
        Ok(i) => i,
        Err(msg) => return Err(ShaderError::BackendCompilationFailure(msg)),
    };
    let opts = emit_options(cfg);
    match write_spirv(&module, &info, &opts, &naga_stage, &cfg.entry) {
        Ok(spv) => Ok(CompilationFeedback { spv, dep_paths: Vec::new() }),
        Err(msg) => Err(ShaderError::BackendCompilationFailure(msg)),
    }
}

} // verus!
