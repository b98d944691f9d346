use hello_triangle::adapter::{AdapterDesc, AdapterSearch, AdapterStep, Luid};
use hello_triangle::command_line::{ascii_eq_ignore_case, window_title, SampleCommandLine};
use hello_triangle::pipeline::{
    compile_options, device_options, input_layout, pipeline_desc, root_signature_desc, shader_file,
    CompileOptions, CullMode, FillMode, Semantic, ShaderStage, TopologyType,
};
use hello_triangle::targets::PixelFormat;
use hello_triangle::vertex::{triangle_payload, triangle_vertices, PAYLOAD_SIZE, VERTEX_STRIDE};

fn args(list: &[&str]) -> Vec<String> {
    list.iter().map(|s| s.to_string()).collect()
}

#[test]
fn startup_warp_path() {
    let cl = SampleCommandLine::from_args(&args(&["hello_triangle.exe", "/warp"]));
    assert!(cl.use_warp_device);
    assert_eq!(window_title("DXSample", &cl), "DXSample (WARP)");
    let search = AdapterSearch::start(cl.use_warp_device);
    assert_eq!(search.step(), AdapterStep::UseWarp);
    assert!(device_options(false, cl.use_warp_device).use_warp);
}

#[test]
fn warp_flag_any_case_either_prefix() {
    assert!(SampleCommandLine::from_args(&args(&["app", "-WARP"])).use_warp_device);
    assert!(SampleCommandLine::from_args(&args(&["app", "/WaRp", "x"])).use_warp_device);
    assert!(!SampleCommandLine::from_args(&args(&["app"])).use_warp_device);
    assert!(!SampleCommandLine::from_args(&args(&[])).use_warp_device);
    assert!(!SampleCommandLine::from_args(&args(&["app", "warp", "--warp", "/warps"])).use_warp_device);
    let plain = SampleCommandLine::from_args(&args(&["app"]));
    assert_eq!(window_title("DXSample", &plain), "DXSample");
    assert!(ascii_eq_ignore_case("AbC", "aBc"));
    assert!(!ascii_eq_ignore_case("ab", "abc"));
    assert!(!ascii_eq_ignore_case("[", "{"));
}

#[test]
fn adapter_search_skips_software_and_failures() {
    let mut s = AdapterSearch::start(false);
    assert_eq!(s.step(), AdapterStep::Enumerate { index: 0 });
    s.on_adapter(Some(true));
    assert_eq!(s.step(), AdapterStep::Enumerate { index: 1 });
    s.on_adapter(Some(false));
    assert_eq!(s.step(), AdapterStep::DryRun { index: 1 });
    s.on_dry_run(false);
    assert_eq!(s.step(), AdapterStep::Enumerate { index: 2 });
    s.on_adapter(Some(false));
    s.on_dry_run(true);
    assert_eq!(s.step(), AdapterStep::Selected { index: 2 });
}

#[test]
fn adapter_search_without_hardware_fails() {
    let mut s = AdapterSearch::start(false);
    s.on_adapter(Some(true));
    s.on_adapter(None);
    assert_eq!(s.step(), AdapterStep::NoCompatibleAdapter);
}

fn desc_named(name: &str) -> AdapterDesc {
    let mut description = [0u16; 128];
    for (i, u) in name.encode_utf16().enumerate() {
        description[i] = u;
    }
    AdapterDesc {
        description,
        vendor_id: 0x10de,
        device_id: 1,
        subsys_id: 2,
        revision: 3,
        dedicated_video_memory: 1 << 30,
        dedicated_system_memory: 0,
        shared_system_memory: 1 << 33,
        adapter_luid: Luid { low_part: 7, high_part: 0 },
    }
}

#[test]
fn adapter_description_stops_at_nul() {
    assert_eq!(desc_named("Microsoft Basic Render Driver").description(), "Microsoft Basic Render Driver");
    assert_eq!(desc_named("").description(), "");
    let mut full = desc_named("");
    full.description = [0x41u16; 128];
    assert_eq!(full.description(), "A".repeat(128));
    let mut lone = desc_named("ab");
    lone.description[1] = 0xD800;
    assert_eq!(lone.description(), "a\u{FFFD}");
}

#[test]
fn input_layout_contract() {
    let l = input_layout();
    assert_eq!(l.len(), 2);
    assert_eq!((l[0].semantic, l[0].format, l[0].aligned_byte_offset), (Semantic::Position, PixelFormat::R32G32B32Float, 0));
    assert_eq!((l[1].semantic, l[1].format, l[1].aligned_byte_offset), (Semantic::Color, PixelFormat::R32G32B32A32Float, 12));
    assert!(l.iter().all(|e| e.per_vertex && e.input_slot == 0 && e.semantic_index == 0));
    let p = pipeline_desc();
    assert_eq!(p.input_layout, l);
    assert_eq!((p.fill_mode, p.cull_mode, p.topology), (FillMode::Solid, CullMode::Off, TopologyType::Triangle));
    assert_eq!(p.sample_mask, 0xFFFF_FFFF);
    assert_eq!((p.render_target_count, p.render_target_format), (1, PixelFormat::R8G8B8A8Unorm));
    assert!(!p.blend_enabled && !p.depth_enabled && !p.stencil_enabled);
    assert_eq!(p.write_mask, 0xf);
    let r = root_signature_desc();
    assert_eq!((r.parameter_count, r.allow_input_layout), (0, true));
}

#[test]
fn shaders_and_options() {
    assert_eq!(shader_file(), "shaders.hlsl");
    assert_eq!((ShaderStage::Vertex.entry_point(), ShaderStage::Vertex.target()), ("VSMain", "vs_5_0"));
    assert_eq!((ShaderStage::Pixel.entry_point(), ShaderStage::Pixel.target()), ("PSMain", "ps_5_0"));
    assert_eq!(compile_options(true), CompileOptions { debug_info: true, skip_optimization: true });
    assert_eq!(compile_options(false), CompileOptions { debug_info: false, skip_optimization: false });
    let d = device_options(true, false);
    assert!(d.enable_debug_layer && d.debug_factory && !d.use_warp);
    assert_eq!((d.feature_level_major, d.feature_level_minor), (11, 0));
}

fn floats_of(payload: &[u8]) -> Vec<f32> {
    payload.chunks(4).map(|b| f32::from_le_bytes([b[0], b[1], b[2], b[3]])).collect()
}

#[test]
fn aspect_dependent_geometry() {
    let aspect = 1024f32 / 768f32;
    let top = (0.25f32 * aspect).to_bits();
    let payload = triangle_payload(top);
    assert_eq!(payload.len(), 84);
    let f = floats_of(&payload);
    assert!((f[1] - 0.333333).abs() < 1e-6);
    assert!((f[8] + 0.333333).abs() < 1e-6);
    assert_eq!(f[8], f[15]);
    assert_eq!(f[8], -0.25f32 * aspect);
}

#[test]
fn vertex_payload_round_trip() {
    let aspect = 800f32 / 600f32;
    let top = (0.25f32 * aspect).to_bits();
    let payload = triangle_payload(top);
    assert_eq!(payload.len() as u32, PAYLOAD_SIZE);
    assert_eq!(VERTEX_STRIDE * 3, PAYLOAD_SIZE);
    let words = triangle_vertices(top);
    let back: Vec<u32> = payload.chunks(4).map(|b| u32::from_le_bytes([b[0], b[1], b[2], b[3]])).collect();
    assert_eq!(back, words);
    let expected: [f32; 21] = [
        0.0, 0.25 * aspect, 0.0, 1.0, 0.0, 0.0, 1.0,
        0.25, -0.25 * aspect, 0.0, 0.0, 1.0, 0.0, 1.0,
        -0.25, -0.25 * aspect, 0.0, 0.0, 0.0, 1.0, 1.0,
    ];
    let f = floats_of(&payload);
    for i in 0..21 {
        assert_eq!(f[i].to_bits(), expected[i].to_bits(), "float {}", i);
    }
}
