use std::path::PathBuf;

use koyote::context::teardown_order;
use koyote::device::{
    pick_physical_device, AdapterInfo, DeviceClass, QueueFamilyInfo, SurfaceFormat,
    SwapchainSupport,
};
use koyote::pipeline::{PipelineError, RenderPipeline, RenderPipelineBuilder, RenderPipelineConfig};
use koyote::release::Release;
use koyote::compile::{StageAction, StageBuild, StageEvent};
use koyote::shader::{Shader, ShaderCreateInfo};
use koyote::stage::{Stage, StageMap, StageSet};

fn info(stages: &[Stage]) -> ShaderCreateInfo {
    let mut set = StageSet::new();
    set.extend(stages);
    ShaderCreateInfo { path: PathBuf::from("res/shaders/triangle.hlsl"), stages: set }
}

fn valid_config() -> RenderPipelineConfig {
    let mut c = RenderPipelineConfig::new((800, 500));
    c.pipeline_layout = 0x10;
    c.render_pass = 0x20;
    c
}

#[test]
fn config_defaults() {
    let c = RenderPipelineConfig::new((640, 480));
    assert_eq!((c.width, c.height), (640, 480));
    assert_eq!((c.pipeline_layout, c.render_pass, c.subpass), (0, 0, 0));
    assert!(c.cull_back_faces && c.front_face_counter_clockwise && c.blend_enable);
    assert!(c.depth_test_enable && c.depth_write_enable);
    assert_eq!((c.topology, c.polygon_mode, c.rasterization_samples), (3, 0, 1));
    assert_eq!((c.src_color_blend_factor, c.dst_color_blend_factor, c.color_blend_op), (2, 4, 0));
    assert_eq!((c.src_alpha_blend_factor, c.dst_alpha_blend_factor, c.alpha_blend_op), (6, 7, 0));
    assert_eq!((c.color_write_mask, c.logic_op, c.depth_compare_op), (0xf, 3, 1));
    assert!(!c.primitive_restart_enable && !c.logic_op_enable);
}

#[test]
fn build_with_valid_handles() {
    let req = RenderPipelineBuilder::new()
        .with_shader(info(&[Stage::Vertex, Stage::Fragment]))
        .with_config(valid_config())
        .build()
        .unwrap();
    assert_eq!(req.config, valid_config());
    assert!(req.shader.stages.vertex && req.shader.stages.fragment);
}

#[test]
fn build_rejects_null_layout() {
    let mut c = valid_config();
    c.pipeline_layout = 0;
    let r = RenderPipelineBuilder::new().with_shader(info(&[Stage::Vertex])).with_config(c).build();
    assert_eq!(r.err(), Some(PipelineError::NullPipelineLayout));
}

#[test]
fn build_rejects_null_render_pass() {
    let mut c = valid_config();
    c.render_pass = 0;
    let r = RenderPipelineBuilder::new().with_config(c).with_shader(info(&[Stage::Vertex])).build();
    assert_eq!(r.err(), Some(PipelineError::NullRenderPass));
}

#[test]
fn build_rejects_default_config() {
    let r = RenderPipelineBuilder::new()
        .with_shader(info(&[Stage::Vertex]))
        .with_config(RenderPipelineConfig::new((1, 1)))
        .build();
    assert_eq!(r.err(), Some(PipelineError::NullPipelineLayout));
}

#[test]
fn shader_needs_exactly_requested_modules() {
    let wanted = info(&[Stage::Vertex, Stage::Fragment]);
    let mut modules = StageMap::new();
    modules.insert(Stage::Vertex, 1);
    assert!(Shader::from_modules(&wanted, modules.clone()).is_none());
    modules.insert(Stage::Fragment, 2);
    let shader = Shader::from_modules(&wanted, modules.clone()).unwrap();
    assert_eq!(shader.pipeline_stages(), vec![(Stage::Vertex, 1), (Stage::Fragment, 2)]);
    modules.insert(Stage::Compute, 3);
    assert!(Shader::from_modules(&wanted, modules).is_none());
}

#[test]
fn shader_releases_each_module() {
    let mut modules = StageMap::new();
    modules.insert(Stage::Geometry, 8);
    modules.insert(Stage::Vertex, 5);
    let shader = Shader::from_modules(&info(&[Stage::Vertex, Stage::Geometry]), modules).unwrap();
    assert_eq!(
        shader.releases(),
        vec![Release::DestroyShaderModule(5), Release::DestroyShaderModule(8)]
    );
    assert!(shader.has_stage(Stage::Geometry));
    assert!(!shader.has_stage(Stage::Fragment));
}

#[test]
fn context_teardown_order() {
    assert_eq!(
        teardown_order(4, Some(9)),
        vec![
            Release::DestroyCommandPool(4),
            Release::DestroyDevice,
            Release::DestroyDebugMessenger(9),
            Release::DestroyInstance
        ]
    );
    assert_eq!(
        teardown_order(4, None),
        vec![Release::DestroyCommandPool(4), Release::DestroyDevice, Release::DestroyInstance]
    );
}

fn gpu(name: &str, class: DeviceClass) -> AdapterInfo {
    AdapterInfo {
        name: name.to_string(),
        class,
        queue_families: vec![QueueFamilyInfo { queue_count: 1, graphics: true, present: true }],
        extensions: vec!["VK_KHR_swapchain".to_string()],
        swapchain: SwapchainSupport {
            formats: vec![SurfaceFormat { format: 50, color_space: 0 }],
            present_modes: vec![0, 2],
        },
        sampler_anisotropy: true,
    }
}

#[test]
fn end_to_end_scenario() {
    // Selection: one integrated and one discrete adapter, both valid.
    let adapters = vec![gpu("integrated", DeviceClass::IntegratedGpu), gpu("discrete", DeviceClass::DiscreteGpu)];
    let chosen = pick_physical_device(&adapters, &vec!["VK_KHR_swapchain".to_string()]).unwrap();
    assert_eq!(adapters[chosen].name, "discrete");

    // Shader from cached bytecode, one stage after the other.
    let create_info = info(&[Stage::Vertex, Stage::Fragment]);
    let mut modules = StageMap::new();
    let mut next_module = 40;
    for stage in create_info.stages.members() {
        let mut build = StageBuild::new(stage, false);
        let mut action =
            build.step(StageEvent::CacheChecked { artifact_modified: Some(20), exe_modified: 10 });
        assert_eq!(action, StageAction::ReadCache);
        action = build.step(StageEvent::CacheRead(vec![3, 2, 35, 7]));
        assert_eq!(action, StageAction::CreateModule { persist: false });
        next_module += 1;
        match build.step(StageEvent::ModuleCreated(next_module)) {
            StageAction::Finish(h) => modules.insert(stage, h),
            other => panic!("stage not finished: {other:?}"),
        }
    }
    let shader = Shader::from_modules(&create_info, modules).unwrap();
    assert_eq!(shader.modules.len(), 2);

    // Pipeline with a valid configuration; its teardown releases one pipeline.
    let request = RenderPipelineBuilder::new()
        .with_shader(create_info)
        .with_config(valid_config())
        .build()
        .unwrap();
    let pipeline = RenderPipeline::new(77, request.config, shader);
    let releases = pipeline.releases();
    assert_eq!(releases, vec![Release::DestroyPipeline(77)]);
    let pipelines_released =
        releases.iter().filter(|r| matches!(r, Release::DestroyPipeline(_))).count();
    assert_eq!(pipelines_released, 1);
}

#[test]
fn assembly_builds_stages_in_order() {
    let wanted = info(&[Stage::Fragment, Stage::Vertex]);
    let mut assembly = koyote::shader::ShaderAssembly::new(&wanted);
    assert_eq!(assembly.next_stage(), Some(Stage::Vertex));
    assembly.record(Stage::Vertex, 11);
    assert_eq!(assembly.next_stage(), Some(Stage::Fragment));
    let assembly = match assembly.finish() {
        Ok(_) => panic!("finished with a stage missing"),
        Err(a) => a,
    };
    let mut assembly = assembly;
    assembly.record(Stage::Fragment, 12);
    assert_eq!(assembly.next_stage(), None);
    let shader = assembly.finish().unwrap();
    assert_eq!(shader.pipeline_stages(), vec![(Stage::Vertex, 11), (Stage::Fragment, 12)]);
}

#[test]
fn assembly_abandon_releases_built_modules() {
    let wanted = info(&[Stage::Vertex, Stage::Fragment, Stage::Compute]);
    let mut assembly = koyote::shader::ShaderAssembly::new(&wanted);
    assembly.record(Stage::Vertex, 1);
    assembly.record(Stage::Fragment, 2);
    assert_eq!(
        assembly.abandon(),
        vec![Release::DestroyShaderModule(1), Release::DestroyShaderModule(2)]
    );
}
