use std::marker::PhantomData;

use vstd::prelude::*;

use crate::release::Release;
use crate::shader::{Shader, ShaderCreateInfo};

verus! {

/// Vulkan enumerant values of the default fixed-function state.
pub const TOPOLOGY_TRIANGLE_LIST: i32 = 3;
pub const POLYGON_MODE_FILL: i32 = 0;
pub const SAMPLE_COUNT_1: u32 = 1;
pub const COMPARE_OP_LESS: i32 = 1;
pub const BLEND_FACTOR_SRC_COLOR: i32 = 2;
pub const BLEND_FACTOR_DST_COLOR: i32 = 4;
pub const BLEND_FACTOR_SRC_ALPHA: i32 = 6;
pub const BLEND_FACTOR_ONE_MINUS_SRC_ALPHA: i32 = 7;
pub const BLEND_OP_ADD: i32 = 0;
pub const LOGIC_OP_COPY: i32 = 3;
pub const COLOR_COMPONENTS_RGBA: u32 = 0xf;

/// The fixed-function state of a graphics pipeline, with handles and Vulkan
/// enumerants as raw values.
///
/// The viewport covers the whole extent at depths 0 to 1, the scissor equals it,
/// lines are 1 wide and the blend constants are 0; these floating-point values are
/// set where the native structures are filled.
#[derive(Debug, Copy, Clone, PartialEq, Eq, Structural)]
pub struct RenderPipelineConfig {
    pub width: u32,
    pub height: u32,
    pub topology: i32,
    pub primitive_restart_enable: bool,
    pub polygon_mode: i32,
    pub cull_back_faces: bool,
    pub front_face_counter_clockwise: bool,
    pub rasterization_samples: u32,
    pub blend_enable: bool,
    pub src_color_blend_factor: i32,
    pub dst_color_blend_factor: i32,
    pub color_blend_op: i32,
    pub src_alpha_blend_factor: i32,
    pub dst_alpha_blend_factor: i32,
    pub alpha_blend_op: i32,
    pub color_write_mask: u32,
    pub logic_op_enable: bool,
    pub logic_op: i32,
    pub depth_test_enable: bool,
    pub depth_write_enable: bool,
    pub depth_compare_op: i32,
    pub pipeline_layout: u64,
    pub render_pass: u64,
    pub subpass: u32,
}

impl RenderPipelineConfig {
    /// The default state for a viewport of the given size: filled triangle lists,
    /// back faces culled with counter-clockwise front faces, one sample, color
    /// blending on, depth test and write on with "less". Layout and render pass
    /// are left null: they must be set before a pipeline can be built.
    pub fn new(size: (u32, u32)) -> (r: RenderPipelineConfig)
        ensures
            r.width == size.0,
            r.height == size.1,
            r.topology == TOPOLOGY_TRIANGLE_LIST,
            !r.primitive_restart_enable,
            r.polygon_mode == POLYGON_MODE_FILL,
            r.cull_back_faces,
            r.front_face_counter_clockwise,
            r.rasterization_samples == SAMPLE_COUNT_1,
            r.blend_enable,
            r.src_color_blend_factor == BLEND_FACTOR_SRC_COLOR,
            r.dst_color_blend_factor == BLEND_FACTOR_DST_COLOR,
            r.color_blend_op == BLEND_OP_ADD,
            r.src_alpha_blend_factor == BLEND_FACTOR_SRC_ALPHA,
            r.dst_alpha_blend_factor == BLEND_FACTOR_ONE_MINUS_SRC_ALPHA,
            r.alpha_blend_op == BLEND_OP_ADD,
            r.color_write_mask == COLOR_COMPONENTS_RGBA,
            !r.logic_op_enable,
            r.logic_op == LOGIC_OP_COPY,
            r.depth_test_enable,
            r.depth_write_enable,
            r.depth_compare_op == COMPARE_OP_LESS,
            r.pipeline_layout == 0,
            r.render_pass == 0,
            r.subpass == 0,
    {
        RenderPipelineConfig {
            width: size.0,
            height: size.1,
            topology: TOPOLOGY_TRIANGLE_LIST,
            primitive_restart_enable: false,
            polygon_mode: POLYGON_MODE_FILL,
            cull_back_faces: true,
            front_face_counter_clockwise: true,
            rasterization_samples: SAMPLE_COUNT_1,
            blend_enable: true,
            src_color_blend_factor: BLEND_FACTOR_SRC_COLOR,
            dst_color_blend_factor: BLEND_FACTOR_DST_COLOR,
            color_blend_op: BLEND_OP_ADD,
            src_alpha_blend_factor: BLEND_FACTOR_SRC_ALPHA,
            dst_alpha_blend_factor: BLEND_FACTOR_ONE_MINUS_SRC_ALPHA,
            alpha_blend_op: BLEND_OP_ADD,
            color_write_mask: COLOR_COMPONENTS_RGBA,
            logic_op_enable: false,
            logic_op: LOGIC_OP_COPY,
            depth_test_enable: true,
            depth_write_enable: true,
            depth_compare_op: COMPARE_OP_LESS,
            pipeline_layout: 0,
            render_pass: 0,
            subpass: 0,
        }
    }
}

/// Marks a pipeline builder without a shader.
#[derive(Debug, Default, Clone)]
pub struct ShaderMissing;

/// Marks a pipeline builder with a shader.
#[derive(Debug, Default, Clone)]
pub struct ShaderSpecified;

/// Marks a pipeline builder without a configuration.
#[derive(Debug, Default, Clone)]
pub struct ConfigMissing;

/// Marks a pipeline builder with a configuration.
#[derive(Debug, Default, Clone)]
pub struct ConfigSpecified;

/// Why no pipeline was built.
#[derive(Debug, Copy, Clone, PartialEq, Eq, Structural)]
pub enum PipelineError {
    NullPipelineLayout,
    NullRenderPass,
    ShaderMissing,
    ConfigMissing,
}

/// What a pipeline is made from, once checked: compile the shader, then create
/// one native pipeline from its modules and the configuration.
#[derive(Debug, Clone)]
pub struct PipelineRequest {
    pub shader: ShaderCreateInfo,
    pub config: RenderPipelineConfig,
}

/// A builder whose `build` exists only once both `with_shader` and `with_config`
/// were called: the markers `S` and `C` record which were.
pub struct RenderPipelineBuilder<S, C> {
    shader_specified: PhantomData<S>,
    shader: Option<ShaderCreateInfo>,
    config_specified: PhantomData<C>,
    config: Option<RenderPipelineConfig>,
}

impl<S, C> RenderPipelineBuilder<S, C> {
    /// The shader given so far.
    pub closed spec fn spec_shader(&self) -> Option<ShaderCreateInfo> {
        self.shader
    }

    /// The configuration given so far.
    pub closed spec fn spec_config(&self) -> Option<RenderPipelineConfig> {
        self.config
    }
}

impl RenderPipelineBuilder<ShaderMissing, ConfigMissing> {
    pub fn new() -> (r: RenderPipelineBuilder<ShaderMissing, ConfigMissing>)
        ensures
            r.spec_shader() is None,
            r.spec_config() is None,
    {
        RenderPipelineBuilder {
            shader_specified: PhantomData,
            shader: None,
            config_specified: PhantomData,
            config: None,
        }
    }
}

impl<C> RenderPipelineBuilder<ShaderMissing, C> {
    pub fn with_shader(self, shader_info: ShaderCreateInfo) -> (r: RenderPipelineBuilder<
        ShaderSpecified,
        C,
    >)
        ensures
            r.spec_shader() == Some(shader_info),
            r.spec_config() == self.spec_config(),
    {
        RenderPipelineBuilder {
            shader_specified: PhantomData,
            shader: Some(shader_info),
            config_specified: PhantomData,
            config: self.config,
        }
    }
}

impl<S> RenderPipelineBuilder<S, ConfigMissing> {
    pub fn with_config(self, config: RenderPipelineConfig) -> (r: RenderPipelineBuilder<
        S,
        ConfigSpecified,
    >)
        ensures
            r.spec_shader() == self.spec_shader(),
            r.spec_config() == Some(config),
    {
        RenderPipelineBuilder {
            shader_specified: PhantomData,
            shader: self.shader,
            config_specified: PhantomData,
            config: Some(config),
        }
    }
}

/// The error that `build` reports for a configuration, if any: a null layout first,
/// then a null render pass.
pub open spec fn config_error(c: RenderPipelineConfig) -> Option<PipelineError> {
    if c.pipeline_layout == 0 {
        Some(PipelineError::NullPipelineLayout)
    } else if c.render_pass == 0 {
        Some(PipelineError::NullRenderPass)
    } else {
        None
    }
}

impl RenderPipelineBuilder<ShaderSpecified, ConfigSpecified> {
    /// Checks the configuration and hands back what the pipeline is made from.
    /// It fails exactly when the layout or the render pass is null.
    pub fn build(self) -> (r: Result<PipelineRequest, PipelineError>)
        ensures
            self.spec_shader() is None ==> r == Err::<PipelineRequest, PipelineError>(
                PipelineError::ShaderMissing,
            ),
            self.spec_shader() is Some && self.spec_config() is None ==> r == Err::<
                PipelineRequest,
                PipelineError,
            >(PipelineError::ConfigMissing),
            (self.spec_shader() is Some && self.spec_config() is Some) ==> match config_error(
                self.spec_config()->Some_0,
            ) {
                Some(e) => r == Err::<PipelineRequest, PipelineError>(e),
                None => r matches Ok(req) && Some(req.shader) == self.spec_shader() && Some(req.config)
                    == self.spec_config(),
            },
    {
        match (self.shader, self.config) {
            (Some(shader), Some(config)) => {
                if config.pipeline_layout == 0 {
                    Err(PipelineError::NullPipelineLayout)
                } else if config.render_pass == 0 {
                    Err(PipelineError::NullRenderPass)
                } else {
                    Ok(PipelineRequest { shader, config })
                }
            },
            (None, _) => Err(PipelineError::ShaderMissing),
            (Some(_), None) => Err(PipelineError::ConfigMissing),
        }
    }
}

/// A built pipeline: its native handle, its configuration and its shader.
#[derive(Debug)]
pub struct RenderPipeline {
    pub pipeline: u64,
    pub config: RenderPipelineConfig,
    pub shader: Shader,
}

impl RenderPipeline {
    pub fn new(pipeline: u64, config: RenderPipelineConfig, shader: Shader) -> (r: RenderPipeline)
        ensures
            r.pipeline == pipeline,
            r.config == config,
            r.shader == shader,
    {
        RenderPipeline { pipeline, config, shader }
    }

    /// What tearing the pipeline down releases: its one native pipeline.
    pub fn releases(&self) -> (r: Vec<Release>)
        ensures
            r@ == seq![Release::DestroyPipeline(self.pipeline)],
    {
        let mut v: Vec<Release> = Vec::new();
        v.push(Release::DestroyPipeline(self.pipeline));
        assert(v@ =~= seq![Release::DestroyPipeline(self.pipeline)]);
        v
    }
}

} // verus!
