use vstd::prelude::*;

use crate::config::{
    Backend, CompilationFeedback, InputSourceLanguage, ShaderCompilationConfig, ShaderDirectives,
    ShaderError,
};
use crate::includes::{record_all, views, DependencyTracker};
use crate::native::{compile, native_outcome, native_stage, spirv_lang_version, version_word, SPIRV_MAGIC};
use crate::resolve::{
    resolution_error, resolve, resolved_entry, resolved_kind, resolved_lang, resolved_ver,
};

verus! {

/// Which backends a build carries.
#[derive(Clone, Copy, Debug, PartialEq, Eq, Structural)]
pub struct BackendSet {
    pub legacy_compiler: bool,
    pub native_ir: bool,
    pub assembly: bool,
}

/// The backend that serves a language. A language left unknown goes to the
/// native backend, whose default surface syntax is native-IR text.
pub open spec fn backend_for(lang: InputSourceLanguage) -> Backend {
    match lang {
        InputSourceLanguage::Hlsl | InputSourceLanguage::Glsl => Backend::LegacyCompiler,
        InputSourceLanguage::Wgsl | InputSourceLanguage::Unknown => Backend::NativeIr,
        InputSourceLanguage::SpirvAsm => Backend::Assembly,
    }
}

/// Whether `set` carries backend `b`.
pub open spec fn carries(set: BackendSet, b: Backend) -> bool {
    match b {
        Backend::LegacyCompiler => set.legacy_compiler,
        Backend::NativeIr => set.native_ir,
        Backend::Assembly => set.assembly,
    }
}

/// The backend that serves `lang`.
pub fn backend_for_language(lang: InputSourceLanguage) -> (r: Backend)
    ensures
        r == backend_for(lang),
{
    match lang {
        InputSourceLanguage::Hlsl | InputSourceLanguage::Glsl => Backend::LegacyCompiler,
        InputSourceLanguage::Wgsl | InputSourceLanguage::Unknown => Backend::NativeIr,
        InputSourceLanguage::SpirvAsm => Backend::Assembly,
    }
}

/// Picks the one backend that serves `lang`; no other is tried in its place.
/// Fails with `BackendUnavailable`, naming that backend, when `available` does
/// not carry it.
pub fn select_backend(lang: InputSourceLanguage, available: BackendSet) -> (r: Result<
    Backend,
    ShaderError,
>)
    ensures
        r == if carries(available, backend_for(lang)) {
            Ok::<Backend, ShaderError>(backend_for(lang))
        } else {
            Err::<Backend, ShaderError>(ShaderError::BackendUnavailable(backend_for(lang)))
        },
{
    let b = backend_for_language(lang);
    let has = match b {
        Backend::LegacyCompiler => available.legacy_compiler,
        Backend::NativeIr => available.native_ir,
        Backend::Assembly => available.assembly,
    };
    if has {
        Ok(b)
    } else {
        Err(ShaderError::BackendUnavailable(b))
    }
}

/// The backends of this build: the native backend alone.
pub fn built_backends() -> (r: BackendSet)
    ensures
        r == (BackendSet { legacy_compiler: false, native_ir: true, assembly: false }),
{
    BackendSet { legacy_compiler: false, native_ir: true, assembly: false }
}

/// Compiles `src` under a resolved configuration with the backend that its
/// language selects, reporting the output words and the files depended on.
pub fn dispatch(cfg: &ShaderCompilationConfig, src: &str) -> (r: Result<
    CompilationFeedback,
    ShaderError,
>)
    requires
        cfg.wf(),
    ensures
        backend_for(cfg.lang) != Backend::NativeIr ==> r == Err::<CompilationFeedback, ShaderError>(
            ShaderError::BackendUnavailable(backend_for(cfg.lang)),
        ),
        backend_for(cfg.lang) == Backend::NativeIr && native_stage(cfg.kind) is None ==> r == Err::<
            CompilationFeedback,
            ShaderError,
        >(ShaderError::UnsupportedStage(cfg.kind)),
        backend_for(cfg.lang) == Backend::NativeIr && native_stage(cfg.kind) is Some ==> match native_outcome(
            cfg.native_syntax,
            native_stage(cfg.kind)->Some_0,
            src@,
            spirv_lang_version(cfg.spv_ver),
            cfg.debug,
            cfg.y_flip,
            cfg.entry@,
        ) {
            Ok(w) => r matches Ok(fb) && fb.spv@ == w && fb.dep_paths@.len() == 0,
            Err(m) => r matches Err(ShaderError::BackendCompilationFailure(t)) && t@ == m,
        },
        r matches Ok(fb) ==> {
            &&& backend_for(cfg.lang) == Backend::NativeIr
            &&& native_stage(cfg.kind) is Some
            &&& fb.spv@.len() > 5
            &&& fb.spv@[0] == SPIRV_MAGIC
            &&& fb.spv@[1] as int == version_word(spirv_lang_version(cfg.spv_ver))
            &&& fb.dep_paths@.len() == 0
        },
        r matches Err(e) ==> e == ShaderError::BackendUnavailable(backend_for(cfg.lang)) || e
            == ShaderError::UnsupportedStage(cfg.kind) || e is BackendCompilationFailure,
{
    match select_backend(cfg.lang, built_backends()) {
        Ok(Backend::NativeIr) => {
            let path = match &cfg.path {
                Some(p) => Some(p.as_str()),
                None => None,
            };
            compile(src, path, cfg)
        },
        Ok(b) => Err(ShaderError::BackendUnavailable(b)),
        Err(e) => Err(e),
    }
}

/// The dependencies of one compilation: the source file, if it came from one,
/// then what the backend reported, each path listed once.
pub open spec fn collected(origin: Option<String>, reported: Seq<Seq<char>>) -> Seq<Seq<char>> {
    let start: Seq<Seq<char>> = match origin {
        Some(p) => seq![p@],
        None => Seq::empty(),
    };
    record_all(start, reported)
}

/// Merges the source file and the backend's dependency list into one list
/// without duplicates.
pub fn collect_dependencies(origin: &Option<String>, reported: &Vec<String>) -> (r: Vec<String>)
    ensures
        views(r@) == collected(*origin, views(reported@)),
        views(r@).no_duplicates(),
{
    let mut t = DependencyTracker::new();
    match origin {
        Some(p) => {
            t.record_dependency(p);
            assert(t.dependencies() =~= seq![p@]);
        },
        None => {},
    }
    t.record_dependencies(reported);
    proof {
        t.lemma_wf_no_duplicates();
    }
    t.into_dependencies()
}

/// Resolves the directives, then compiles `src` with the backend they select,
/// and lists the source file among the dependencies when it came from one.
/// A resolution failure stops everything before any backend runs.
pub fn compile_shader(d: ShaderDirectives, src: &str) -> (r: Result<
    CompilationFeedback,
    ShaderError,
>)
    ensures
        resolution_error(d) matches Some(e) ==> r == Err::<CompilationFeedback, ShaderError>(e),
        resolution_error(d) is None && backend_for(resolved_lang(d)) != Backend::NativeIr ==> r
            == Err::<CompilationFeedback, ShaderError>(
            ShaderError::BackendUnavailable(backend_for(resolved_lang(d))),
        ),
        resolution_error(d) is None && backend_for(resolved_lang(d)) == Backend::NativeIr
            && native_stage(resolved_kind(d)) is None ==> r == Err::<CompilationFeedback, ShaderError>(
            ShaderError::UnsupportedStage(resolved_kind(d)),
        ),
        resolution_error(d) is None && backend_for(resolved_lang(d)) == Backend::NativeIr
            && native_stage(resolved_kind(d)) is Some ==> match native_outcome(
            d.native_syntax,
            native_stage(resolved_kind(d))->Some_0,
            src@,
            spirv_lang_version(resolved_ver(d)),
            d.debug,
            d.y_flip,
            resolved_entry(d),
        ) {
            Ok(w) => r matches Ok(fb) && fb.spv@ == w,
            Err(m) => r matches Err(ShaderError::BackendCompilationFailure(t)) && t@ == m,
        },
        r matches Err(e) ==> {
            ||| resolution_error(d) == Some(e)
            ||| resolution_error(d) is None && {
                ||| e == ShaderError::BackendUnavailable(backend_for(resolved_lang(d)))
                ||| e == ShaderError::UnsupportedStage(resolved_kind(d))
                ||| e is BackendCompilationFailure
            }
        },
        r matches Ok(fb) ==> {
            &&& resolution_error(d) is None
            &&& fb.spv@.len() > 5
            &&& fb.spv@[0] == SPIRV_MAGIC
            &&& fb.spv@[1] as int == version_word(spirv_lang_version(resolved_ver(d)))
            &&& views(fb.dep_paths@) == match d.path {
                Some(p) => seq![p@],
                None => Seq::<Seq<char>>::empty(),
            }
        },
{
    let cfg = match resolve(d) {
        Ok(c) => c,
        Err(e) => return Err(e),
    };
    match dispatch(&cfg, src) {
        Ok(fb) => {
            let dep_paths = collect_dependencies(&cfg.path, &fb.dep_paths);
            assert(views(fb.dep_paths@) =~= Seq::<Seq<char>>::empty());
            Ok(CompilationFeedback { spv: fb.spv, dep_paths })
        },
        Err(e) => Err(e),
    }
}

} // verus!
