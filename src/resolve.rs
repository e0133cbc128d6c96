use vstd::prelude::*;

use crate::config::{
    is_target_supported, target_supported, InputSourceLanguage, ShaderCompilationConfig,
    ShaderDirectives, ShaderError, ShaderKind, TargetEnvironmentType, TargetSpirvVersion,
};
use crate::text::{chars_of, is_word, split_at_last_dot, split_ext};

verus! {

/// The stage that a stage suffix names; `Unknown` for any other suffix.
pub open spec fn stage_of_ext(e: Seq<char>) -> ShaderKind {
    if e == "vert"@ {
        ShaderKind::Vertex
    } else if e == "frag"@ {
        ShaderKind::Fragment
    } else if e == "comp"@ {
        ShaderKind::Compute
    } else if e == "mesh"@ {
        ShaderKind::Mesh
    } else if e == "task"@ {
        ShaderKind::Task
    } else if e == "rgen"@ {
        ShaderKind::RayGeneration
    } else if e == "rint"@ {
        ShaderKind::Intersection
    } else if e == "rahit"@ {
        ShaderKind::AnyHit
    } else if e == "rchit"@ {
        ShaderKind::ClosestHit
    } else if e == "rmiss"@ {
        ShaderKind::Miss
    } else if e == "rcall"@ {
        ShaderKind::Callable
    } else if e == "tesc"@ {
        ShaderKind::TesselationControl
    } else if e == "tese"@ {
        ShaderKind::TesselationEvaluation
    } else if e == "geom"@ {
        ShaderKind::Geometry
    } else {
        ShaderKind::Unknown
    }
}

/// The language that a language suffix names; `Unknown` for any other suffix.
pub open spec fn lang_of_ext(e: Seq<char>) -> InputSourceLanguage {
    if e == "hlsl"@ {
        InputSourceLanguage::Hlsl
    } else if e == "glsl"@ {
        InputSourceLanguage::Glsl
    } else if e == "wgsl"@ {
        InputSourceLanguage::Wgsl
    } else if e == "spvasm"@ {
        InputSourceLanguage::SpirvAsm
    } else {
        InputSourceLanguage::Unknown
    }
}

/// The stage a path names: its last suffix when that is a stage suffix
/// (`a.frag`), else the suffix before a language suffix (`a.frag.hlsl`).
pub open spec fn stage_of_path(p: Seq<char>) -> ShaderKind {
    match split_ext(p) {
        None => ShaderKind::Unknown,
        Some((stem, ext)) => {
            if stage_of_ext(ext) != ShaderKind::Unknown {
                stage_of_ext(ext)
            } else if lang_of_ext(ext) != InputSourceLanguage::Unknown {
                match split_ext(stem) {
                    None => ShaderKind::Unknown,
                    Some((_, ext2)) => stage_of_ext(ext2),
                }
            } else {
                ShaderKind::Unknown
            }
        },
    }
}

/// The language a path names: that of its last suffix.
pub open spec fn lang_of_path(p: Seq<char>) -> InputSourceLanguage {
    match split_ext(p) {
        None => InputSourceLanguage::Unknown,
        Some((_, ext)) => lang_of_ext(ext),
    }
}

fn stage_of_suffix(e: &Vec<char>) -> (r: ShaderKind)
    ensures
        r == stage_of_ext(e@),
{
    if is_word(e, "vert") {
        ShaderKind::Vertex
    } else if is_word(e, "frag") {
        ShaderKind::Fragment
    } else if is_word(e, "comp") {
        ShaderKind::Compute
    } else if is_word(e, "mesh") {
        ShaderKind::Mesh
    } else if is_word(e, "task") {
        ShaderKind::Task
    } else if is_word(e, "rgen") {
        ShaderKind::RayGeneration
    } else if is_word(e, "rint") {
        ShaderKind::Intersection
    } else if is_word(e, "rahit") {
        ShaderKind::AnyHit
    } else if is_word(e, "rchit") {
        ShaderKind::ClosestHit
    } else if is_word(e, "rmiss") {
        ShaderKind::Miss
    } else if is_word(e, "rcall") {
        ShaderKind::Callable
    } else if is_word(e, "tesc") {
        ShaderKind::TesselationControl
    } else if is_word(e, "tese") {
        ShaderKind::TesselationEvaluation
    } else if is_word(e, "geom") {
        ShaderKind::Geometry
    } else {
        ShaderKind::Unknown
    }
}

fn lang_of_suffix(e: &Vec<char>) -> (r: InputSourceLanguage)
    ensures
        r == lang_of_ext(e@),
{
    if is_word(e, "hlsl") {
        InputSourceLanguage::Hlsl
    } else if is_word(e, "glsl") {
        InputSourceLanguage::Glsl
    } else if is_word(e, "wgsl") {
        InputSourceLanguage::Wgsl
    } else if is_word(e, "spvasm") {
        InputSourceLanguage::SpirvAsm
    } else {
        InputSourceLanguage::Unknown
    }
}

/// Infers the stage from a path's suffixes.
pub fn infer_stage(path: &str) -> (r: ShaderKind)
    ensures
        r == stage_of_path(path@),
{
    let p = chars_of(path);
    match split_at_last_dot(&p) {
        None => ShaderKind::Unknown,
        Some((stem, ext)) => {
            let s = stage_of_suffix(&ext);
            if s != ShaderKind::Unknown {
                s
            } else if lang_of_suffix(&ext) != InputSourceLanguage::Unknown {
                match split_at_last_dot(&stem) {
                    None => ShaderKind::Unknown,
                    Some((_, ext2)) => stage_of_suffix(&ext2),
                }
            } else {
                ShaderKind::Unknown
            }
        },
    }
}

/// Infers the language from a path's last suffix.
pub fn infer_language(path: &str) -> (r: InputSourceLanguage)
    ensures
        r == lang_of_path(path@),
{
    let p = chars_of(path);
    match split_at_last_dot(&p) {
        None => InputSourceLanguage::Unknown,
        Some((_, ext)) => lang_of_suffix(&ext),
    }
}

/// The stage after defaulting: the given one, else the one the path names.
pub open spec fn resolved_kind(d: ShaderDirectives) -> ShaderKind {
    if d.kind != ShaderKind::Unknown {
        d.kind
    } else {
        match d.path {
            Some(p) => stage_of_path(p@),
            None => ShaderKind::Unknown,
        }
    }
}

/// The language after defaulting: the given one, else the one the path names.
pub open spec fn resolved_lang(d: ShaderDirectives) -> InputSourceLanguage {
    if d.lang != InputSourceLanguage::Unknown {
        d.lang
    } else {
        match d.path {
            Some(p) => lang_of_path(p@),
            None => InputSourceLanguage::Unknown,
        }
    }
}

/// The environment after defaulting.
pub open spec fn resolved_env(d: ShaderDirectives) -> TargetEnvironmentType {
    match d.env_ty {
        Some(e) => e,
        None => TargetEnvironmentType::Vulkan,
    }
}

/// The binary-format version after defaulting.
pub open spec fn resolved_ver(d: ShaderDirectives) -> TargetSpirvVersion {
    match d.spv_ver {
        Some(v) => v,
        None => TargetSpirvVersion::Spirv1_0,
    }
}

/// The entry point after defaulting.
pub open spec fn resolved_entry(d: ShaderDirectives) -> Seq<char> {
    match d.entry {
        Some(e) => e@,
        None => "main"@,
    }
}

/// The error that resolving `d` fails with, if it fails.
pub open spec fn resolution_error(d: ShaderDirectives) -> Option<ShaderError> {
    if resolved_kind(d) == ShaderKind::Unknown {
        Some(ShaderError::AmbiguousStage)
    } else if resolved_lang(d) == InputSourceLanguage::Unknown {
        Some(ShaderError::AmbiguousLanguage)
    } else if !target_supported(resolved_env(d), resolved_ver(d)) {
        Some(ShaderError::UnsupportedTarget)
    } else {
        None
    }
}

/// `c` is the configuration that resolving `d` gives.
pub open spec fn resolves_to(d: ShaderDirectives, c: ShaderCompilationConfig) -> bool {
    &&& c.kind == resolved_kind(d)
    &&& c.lang == resolved_lang(d)
    &&& c.native_syntax == d.native_syntax
    &&& c.entry@ == resolved_entry(d)
    &&& c.optim_lvl == d.optim_lvl
    &&& c.debug == d.debug
    &&& c.y_flip == d.y_flip
    &&& c.defines == d.defines
    &&& c.incl_dirs == d.incl_dirs
    &&& c.env_ty == resolved_env(d)
    &&& c.spv_ver == resolved_ver(d)
    &&& c.path == d.path
}

/// Fills in the unset directives and checks that the result is consistent.
pub fn resolve(d: ShaderDirectives) -> (r: Result<ShaderCompilationConfig, ShaderError>)
    ensures
        match r {
            Ok(c) => resolution_error(d) is None && resolves_to(d, c) && c.wf(),
            Err(e) => resolution_error(d) == Some(e),
        },
{
    let kind = if d.kind != ShaderKind::Unknown {
        d.kind
    } else {
        match &d.path {
            Some(p) => infer_stage(p.as_str()),
            None => ShaderKind::Unknown,
        }
    };
    if kind == ShaderKind::Unknown {
        return Err(ShaderError::AmbiguousStage);
    }
    let lang = if d.lang != InputSourceLanguage::Unknown {
        d.lang
    } else {
        match &d.path {
            Some(p) => infer_language(p.as_str()),
            None => InputSourceLanguage::Unknown,
        }
    };
    if lang == InputSourceLanguage::Unknown {
        return Err(ShaderError::AmbiguousLanguage);
    }
    let env_ty = match d.env_ty {
        Some(e) => e,
        None => TargetEnvironmentType::Vulkan,
    };
    let spv_ver = match d.spv_ver {
        Some(v) => v,
        None => TargetSpirvVersion::Spirv1_0,
    };
    if !is_target_supported(env_ty, spv_ver) {
        return Err(ShaderError::UnsupportedTarget);
    }
    let entry = match d.entry {
        Some(e) => e,
        None => "main".to_owned(),
    };
    Ok(
        ShaderCompilationConfig {
            kind,
            lang,
            native_syntax: d.native_syntax,
            entry,
            optim_lvl: d.optim_lvl,
            debug: d.debug,
            y_flip: d.y_flip,
            defines: d.defines,
            incl_dirs: d.incl_dirs,
            env_ty,
            spv_ver,
            path: d.path,
        },
    )
}

/// A stage and a language that are given explicitly are never replaced:
/// resolution neither fails on them nor changes them.
pub proof fn lemma_explicit_kind_and_lang_kept(d: ShaderDirectives, c: ShaderCompilationConfig)
    requires
        d.kind != ShaderKind::Unknown,
        d.lang != InputSourceLanguage::Unknown,
    ensures
        resolution_error(d) != Some(ShaderError::AmbiguousStage),
        resolution_error(d) != Some(ShaderError::AmbiguousLanguage),
        resolves_to(d, c) ==> c.kind == d.kind && c.lang == d.lang,
{
}

/// With neither stage nor language given, the path's suffixes decide both
/// through the suffix tables alone; a path that the tables do not recognise
/// fails with `AmbiguousStage` or `AmbiguousLanguage`, and nothing is guessed.
pub proof fn lemma_inference_follows_suffix_table(d: ShaderDirectives, p: String, c: ShaderCompilationConfig)
    requires
        d.kind == ShaderKind::Unknown,
        d.lang == InputSourceLanguage::Unknown,
        d.path == Some(p),
    ensures
        (stage_of_path(p@) == ShaderKind::Unknown) <==> (resolution_error(d) == Some(
            ShaderError::AmbiguousStage,
        )),
        (stage_of_path(p@) != ShaderKind::Unknown && lang_of_path(p@)
            == InputSourceLanguage::Unknown) <==> (resolution_error(d) == Some(
            ShaderError::AmbiguousLanguage,
        )),
        resolves_to(d, c) ==> c.kind == stage_of_path(p@) && c.lang == lang_of_path(p@),
{
}

/// Once stage and language are decided, membership of the (environment,
/// version) pair in the compatibility table alone decides success; every pair
/// outside it fails with `UnsupportedTarget`.
pub proof fn lemma_target_table_decides(d: ShaderDirectives)
    requires
        resolved_kind(d) != ShaderKind::Unknown,
        resolved_lang(d) != InputSourceLanguage::Unknown,
    ensures
        resolution_error(d) is None <==> target_supported(resolved_env(d), resolved_ver(d)),
        resolution_error(d) is Some ==> resolution_error(d) == Some(ShaderError::UnsupportedTarget),
{
}

} // verus!
