use inline_spirv::config::{
    Backend, InputSourceLanguage, ShaderCompilationConfig, ShaderDirectives, ShaderError,
    ShaderKind, SurfaceSyntax, TargetEnvironmentType, TargetSpirvVersion,
};
use inline_spirv::dispatch::{backend_for_language, built_backends, compile_shader, dispatch, select_backend, BackendSet};
use inline_spirv::native::{compile, emit_options, native_stage_of, NativeStage, SPIRV_MAGIC};
use inline_spirv::resolve::resolve;

const WGSL: &str = r#"
@vertex
fn vs_main(@builtin(vertex_index) in_vertex_index: u32) -> @builtin(position) vec4<f32> {
    let x = f32(i32(in_vertex_index) - 1);
    let y = f32(i32(in_vertex_index & 1u) * 2 - 1);
    return vec4<f32>(x, y, 0.0, 1.0);
}

@fragment
fn fs_main() -> @location(0) vec4<f32> {
    return vec4<f32>(1.0, 0.0, 0.0, 1.0);
}
"#;

const GLSL_FRAG: &str = r#"#version 450
layout(location = 0) out vec4 color;
void main() {
    color = vec4(1.0, 0.0, 0.0, 1.0);
}
"#;

fn wgsl_directives(kind: ShaderKind, entry: &str) -> ShaderDirectives {
    let mut d = ShaderDirectives::new();
    d.kind = kind;
    d.lang = InputSourceLanguage::Wgsl;
    d.entry = Some(entry.to_string());
    d
}

fn config(kind: ShaderKind) -> ShaderCompilationConfig {
    resolve(wgsl_directives(kind, "main")).ok().unwrap()
}

#[test]
fn wgsl_fragment_compiles() {
    let fb = compile_shader(wgsl_directives(ShaderKind::Fragment, "fs_main"), WGSL).ok().unwrap();
    assert!(fb.spv.len() > 5);
    assert_eq!(fb.spv[0], SPIRV_MAGIC);
    assert_eq!(fb.spv[1], 0x0001_0000);
    let again = compile_shader(wgsl_directives(ShaderKind::Fragment, "fs_main"), WGSL).ok().unwrap();
    assert_eq!(fb.spv, again.spv);
    assert!(fb.dep_paths.is_empty());
}

#[test]
fn source_file_is_a_dependency() {
    let mut d = ShaderDirectives::new();
    d.path = Some("shaders/tri.frag.wgsl".to_string());
    d.entry = Some("fs_main".to_string());
    let fb = compile_shader(d, WGSL).ok().unwrap();
    assert_eq!(fb.dep_paths, vec!["shaders/tri.frag.wgsl".to_string()]);
    assert_eq!(fb.spv[0], SPIRV_MAGIC);
}

#[test]
fn wgsl_for_webgpu_1_0_compiles() {
    let mut d = wgsl_directives(ShaderKind::Vertex, "vs_main");
    d.env_ty = Some(TargetEnvironmentType::WebGpu);
    d.spv_ver = Some(TargetSpirvVersion::Spirv1_0);
    let fb = compile_shader(d, WGSL).ok().unwrap();
    assert_eq!(fb.spv[0], SPIRV_MAGIC);
}

#[test]
fn wgsl_for_webgpu_1_6_is_rejected_before_compiling() {
    let mut d = wgsl_directives(ShaderKind::Vertex, "vs_main");
    d.env_ty = Some(TargetEnvironmentType::WebGpu);
    d.spv_ver = Some(TargetSpirvVersion::Spirv1_6);
    assert_eq!(compile_shader(d, WGSL).err(), Some(ShaderError::UnsupportedTarget));
}

#[test]
fn requested_version_reaches_the_header() {
    let mut d = wgsl_directives(ShaderKind::Fragment, "fs_main");
    d.spv_ver = Some(TargetSpirvVersion::Spirv1_3);
    let fb = compile_shader(d, WGSL).ok().unwrap();
    assert_eq!(fb.spv[1], 0x0001_0300);
    let mut d = wgsl_directives(ShaderKind::Fragment, "fs_main");
    d.spv_ver = Some(TargetSpirvVersion::Spirv1_6);
    let fb = compile_shader(d, WGSL).ok().unwrap();
    assert_eq!(fb.spv[1], 0x0001_0600);
}

#[test]
fn c_style_syntax_goes_through_native_front_end() {
    let mut d = wgsl_directives(ShaderKind::Fragment, "main");
    d.native_syntax = SurfaceSyntax::CStyle;
    let fb = compile_shader(d, GLSL_FRAG).ok().unwrap();
    assert_eq!(fb.spv[0], SPIRV_MAGIC);
}

#[test]
fn syntax_error_carries_backend_text() {
    match compile_shader(wgsl_directives(ShaderKind::Fragment, "fs_main"), "fn broken(") {
        Err(ShaderError::BackendCompilationFailure(msg)) => assert!(!msg.is_empty()),
        _ => panic!("expected a backend failure"),
    }
}

#[test]
fn missing_entry_point_fails() {
    match compile_shader(wgsl_directives(ShaderKind::Fragment, "nope"), WGSL) {
        Err(ShaderError::BackendCompilationFailure(msg)) => assert!(!msg.is_empty()),
        _ => panic!("expected a backend failure"),
    }
}

#[test]
fn ray_tracing_stages_are_unsupported_by_native_backend() {
    for kind in [
        ShaderKind::RayGeneration,
        ShaderKind::Intersection,
        ShaderKind::AnyHit,
        ShaderKind::ClosestHit,
        ShaderKind::Miss,
        ShaderKind::Callable,
    ] {
        let cfg = config(kind);
        assert_eq!(compile(WGSL, None, &cfg).err(), Some(ShaderError::UnsupportedStage(kind)));
        assert_eq!(dispatch(&cfg, WGSL).err(), Some(ShaderError::UnsupportedStage(kind)));
        assert_eq!(native_stage_of(kind), Err(ShaderError::UnsupportedStage(kind)));
    }
}

#[test]
fn tessellation_and_geometry_are_unsupported_by_native_backend() {
    for kind in [
        ShaderKind::TesselationControl,
        ShaderKind::TesselationEvaluation,
        ShaderKind::Geometry,
        ShaderKind::Unknown,
    ] {
        assert_eq!(native_stage_of(kind), Err(ShaderError::UnsupportedStage(kind)));
    }
}

#[test]
fn native_stage_table() {
    assert_eq!(native_stage_of(ShaderKind::Vertex), Ok(NativeStage::Vertex));
    assert_eq!(native_stage_of(ShaderKind::Fragment), Ok(NativeStage::Fragment));
    assert_eq!(native_stage_of(ShaderKind::Compute), Ok(NativeStage::Compute));
    assert_eq!(native_stage_of(ShaderKind::Mesh), Ok(NativeStage::Mesh));
    assert_eq!(native_stage_of(ShaderKind::Task), Ok(NativeStage::Task));
}

#[test]
fn emit_options_follow_config() {
    let mut d = wgsl_directives(ShaderKind::Fragment, "fs_main");
    d.spv_ver = Some(TargetSpirvVersion::Spirv1_5);
    d.debug = true;
    let o = emit_options(&resolve(d).ok().unwrap());
    assert_eq!(o.lang_version, (1, 5));
    assert!(o.debug);
    assert!(!o.adjust_coordinate_space);
    let mut d = wgsl_directives(ShaderKind::Fragment, "fs_main");
    d.y_flip = true;
    let o = emit_options(&resolve(d).ok().unwrap());
    assert_eq!(o.lang_version, (1, 0));
    assert!(!o.debug);
    assert!(o.adjust_coordinate_space);
}

#[test]
fn debug_flag_changes_output() {
    let plain = compile_shader(wgsl_directives(ShaderKind::Fragment, "fs_main"), WGSL).ok().unwrap();
    let mut d = wgsl_directives(ShaderKind::Fragment, "fs_main");
    d.debug = true;
    let debug = compile_shader(d, WGSL).ok().unwrap();
    assert_ne!(plain.spv, debug.spv);
}

#[test]
fn y_flip_changes_vertex_output() {
    let plain = compile_shader(wgsl_directives(ShaderKind::Vertex, "vs_main"), WGSL).ok().unwrap();
    let mut d = wgsl_directives(ShaderKind::Vertex, "vs_main");
    d.y_flip = true;
    let flipped = compile_shader(d, WGSL).ok().unwrap();
    assert_ne!(plain.spv, flipped.spv);
}

#[test]
fn frag_hlsl_selects_legacy_backend() {
    let mut d = ShaderDirectives::new();
    d.path = Some("shader.frag.hlsl".to_string());
    let c = resolve(d).ok().unwrap();
    assert_eq!(c.entry, "main");
    let all = BackendSet { legacy_compiler: true, native_ir: true, assembly: true };
    assert_eq!(select_backend(c.lang, all), Ok(Backend::LegacyCompiler));
    assert_eq!(dispatch(&c, "float4 main() : SV_Target { return 1; }").err(), Some(ShaderError::BackendUnavailable(Backend::LegacyCompiler)));
}

#[test]
fn language_to_backend_mapping() {
    assert_eq!(backend_for_language(InputSourceLanguage::Hlsl), Backend::LegacyCompiler);
    assert_eq!(backend_for_language(InputSourceLanguage::Glsl), Backend::LegacyCompiler);
    assert_eq!(backend_for_language(InputSourceLanguage::Wgsl), Backend::NativeIr);
    assert_eq!(backend_for_language(InputSourceLanguage::Unknown), Backend::NativeIr);
    assert_eq!(backend_for_language(InputSourceLanguage::SpirvAsm), Backend::Assembly);
}

#[test]
fn missing_backend_is_named() {
    let none = BackendSet { legacy_compiler: false, native_ir: false, assembly: false };
    assert_eq!(select_backend(InputSourceLanguage::Wgsl, none), Err(ShaderError::BackendUnavailable(Backend::NativeIr)));
    assert_eq!(select_backend(InputSourceLanguage::SpirvAsm, built_backends()), Err(ShaderError::BackendUnavailable(Backend::Assembly)));
    assert_eq!(select_backend(InputSourceLanguage::Wgsl, built_backends()), Ok(Backend::NativeIr));
    let mut d = ShaderDirectives::new();
    d.path = Some("a.comp.spvasm".to_string());
    assert_eq!(compile_shader(d, "OpCapability Shader").err(), Some(ShaderError::BackendUnavailable(Backend::Assembly)));
}

#[test]
fn resolution_errors_stop_before_backends() {
    let mut d = ShaderDirectives::new();
    d.lang = InputSourceLanguage::Glsl;
    assert_eq!(compile_shader(d, GLSL_FRAG).err(), Some(ShaderError::AmbiguousStage));
}

#[test]
fn native_backend_rejects_other_languages() {
    let mut d = ShaderDirectives::new();
    d.path = Some("shader.frag.hlsl".to_string());
    let c = resolve(d).ok().unwrap();
    assert_eq!(
        compile("float4 main() : SV_Target { return 0; }", Some("shader.frag.hlsl"), &c).err(),
        Some(ShaderError::BackendCompilationFailure("unsupported source language".to_string()))
    );
}

#[test]
fn compiling_twice_gives_the_same_words() {
    let cfg = resolve(wgsl_directives(ShaderKind::Fragment, "fs_main")).ok().unwrap();
    let a = compile(WGSL, None, &cfg).ok().unwrap();
    let b = compile(WGSL, Some("x.frag.glsl"), &cfg).ok().unwrap();
    assert_eq!(a.spv, b.spv);
    assert!(a.dep_paths.is_empty() && b.dep_paths.is_empty());
}

#[test]
fn ill_typed_source_fails() {
    let src = "@fragment fn fs_main() -> @location(0) vec4<f32> { let x: i32 = 1.0; return vec4<f32>(); }";
    match compile_shader(wgsl_directives(ShaderKind::Fragment, "fs_main"), src) {
        Err(ShaderError::BackendCompilationFailure(msg)) => assert!(!msg.is_empty()),
        _ => panic!("expected a backend failure"),
    }
}

#[test]
fn c_style_syntax_error_carries_backend_text() {
    let mut d = wgsl_directives(ShaderKind::Fragment, "main");
    d.native_syntax = SurfaceSyntax::CStyle;
    match compile_shader(d, "#version 450\nvoid main( {") {
        Err(ShaderError::BackendCompilationFailure(msg)) => assert!(!msg.is_empty()),
        _ => panic!("expected a backend failure"),
    }
}

#[test]
fn external_texture_is_rejected_before_emission() {
    let src = r#"
@group(0) @binding(0) var t: texture_external;

@fragment
fn fs_main() -> @location(0) vec4<f32> {
    return vec4<f32>(1.0, 0.0, 0.0, 1.0);
}
"#;
    match compile_shader(wgsl_directives(ShaderKind::Fragment, "fs_main"), src) {
        Err(ShaderError::BackendCompilationFailure(msg)) => assert!(!msg.is_empty()),
        _ => panic!("expected a backend failure"),
    }
}
