//! Workflows: capturing, exporting and inspecting.
//!
//! The requests and responses of the operations that trigger a capture,
//! export a capture to files, and describe what a capture holds, and the
//! operations themselves.

use vstd::prelude::*;
use vstd::string::*;
use crate::call::PreparedCall;
use crate::copies::{clone_opt_texts, clone_text, clone_values, opt_texts_of, text_of};
use crate::error::{error_text, OperationError};
use crate::paths::{resolve_path_string_from_cwd, resolved};
use crate::toolchain::RenderDocInstallation;

verus! {

/// What [`RenderDocInstallation::trigger_capture_via_target_control`] is asked.
#[derive(Debug, Clone, PartialEq, Eq)]
pub struct TriggerCaptureRequest {
    pub host: String,
    pub target_ident: u32,
    pub num_frames: u32,
    pub timeout_s: u32,
}

/// A [`TriggerCaptureRequest`] as a plain value.
pub struct TriggerCaptureRequestView {
    pub host: Seq<char>,
    pub target_ident: u32,
    pub num_frames: u32,
    pub timeout_s: u32,
}

impl View for TriggerCaptureRequest {
    type V = TriggerCaptureRequestView;

    open spec fn view(&self) -> TriggerCaptureRequestView {
        TriggerCaptureRequestView {
            host: self.host@,
            target_ident: self.target_ident,
            num_frames: self.num_frames,
            timeout_s: self.timeout_s,
        }
    }
}

/// What [`RenderDocInstallation::trigger_capture_via_target_control`] answers.
#[derive(Debug, Clone, PartialEq, Eq)]
pub struct TriggerCaptureResponse {
    pub capture_path: String,
    pub frame_number: u32,
    pub api: String,
}

/// What [`RenderDocInstallation::export_actions_jsonl`] is asked.
#[derive(Debug, Clone, PartialEq, Eq)]
pub struct ExportActionsRequest {
    pub capture_path: String,
    pub output_dir: String,
    pub basename: String,
    pub only_drawcalls: bool,
    pub marker_prefix: Option<String>,
    pub event_id_min: Option<u32>,
    pub event_id_max: Option<u32>,
    pub name_contains: Option<String>,
    pub marker_contains: Option<String>,
    pub case_sensitive: bool,
}

/// A [`ExportActionsRequest`] as a plain value.
pub struct ExportActionsRequestView {
    pub capture_path: Seq<char>,
    pub output_dir: Seq<char>,
    pub basename: Seq<char>,
    pub only_drawcalls: bool,
    pub marker_prefix: Option<Seq<char>>,
    pub event_id_min: Option<u32>,
    pub event_id_max: Option<u32>,
    pub name_contains: Option<Seq<char>>,
    pub marker_contains: Option<Seq<char>>,
    pub case_sensitive: bool,
}

impl View for ExportActionsRequest {
    type V = ExportActionsRequestView;

    open spec fn view(&self) -> ExportActionsRequestView {
        ExportActionsRequestView {
            capture_path: self.capture_path@,
            output_dir: self.output_dir@,
            basename: self.basename@,
            only_drawcalls: self.only_drawcalls,
            marker_prefix: text_of(self.marker_prefix),
            event_id_min: self.event_id_min,
            event_id_max: self.event_id_max,
            name_contains: text_of(self.name_contains),
            marker_contains: text_of(self.marker_contains),
            case_sensitive: self.case_sensitive,
        }
    }
}

/// What [`RenderDocInstallation::export_actions_jsonl`] answers.
#[derive(Debug, Clone, PartialEq, Eq)]
pub struct ExportActionsResponse {
    pub capture_path: String,
    pub actions_jsonl_path: String,
    pub summary_json_path: String,
    pub total_actions: u64,
    pub drawcall_actions: u64,
}

/// What [`RenderDocInstallation::find_events`] is asked.
#[derive(Debug, Clone, PartialEq, Eq)]
pub struct FindEventsRequest {
    pub capture_path: String,
    pub only_drawcalls: bool,
    pub marker_prefix: Option<String>,
    pub event_id_min: Option<u32>,
    pub event_id_max: Option<u32>,
    pub name_contains: Option<String>,
    pub marker_contains: Option<String>,
    pub case_sensitive: bool,
    pub max_results: Option<u32>,
}

/// A [`FindEventsRequest`] as a plain value.
pub struct FindEventsRequestView {
    pub capture_path: Seq<char>,
    pub only_drawcalls: bool,
    pub marker_prefix: Option<Seq<char>>,
    pub event_id_min: Option<u32>,
    pub event_id_max: Option<u32>,
    pub name_contains: Option<Seq<char>>,
    pub marker_contains: Option<Seq<char>>,
    pub case_sensitive: bool,
    pub max_results: Option<u32>,
}

impl View for FindEventsRequest {
    type V = FindEventsRequestView;

    open spec fn view(&self) -> FindEventsRequestView {
        FindEventsRequestView {
            capture_path: self.capture_path@,
            only_drawcalls: self.only_drawcalls,
            marker_prefix: text_of(self.marker_prefix),
            event_id_min: self.event_id_min,
            event_id_max: self.event_id_max,
            name_contains: text_of(self.name_contains),
            marker_contains: text_of(self.marker_contains),
            case_sensitive: self.case_sensitive,
            max_results: self.max_results,
        }
    }
}

/// One event that matched a filter.
#[derive(Debug, Clone, PartialEq, Eq)]
pub struct FoundEvent {
    pub event_id: u32,
    pub parent_event_id: Option<u32>,
    pub depth: u32,
    pub name: String,
    pub flags: u64,
    pub flags_names: Vec<String>,
    pub marker_path: Vec<String>,
    pub marker_path_joined: String,
}

/// What [`RenderDocInstallation::find_events`] answers.
#[derive(Debug, Clone, PartialEq, Eq)]
pub struct FindEventsResponse {
    pub capture_path: String,
    pub total_matches: u64,
    pub truncated: bool,
    pub first_event_id: Option<u32>,
    pub last_event_id: Option<u32>,
    pub matches: Vec<FoundEvent>,
}

/// What [`RenderDocInstallation::get_events`] is asked.
#[derive(Debug, Clone, PartialEq, Eq)]
pub struct GetEventsRequest {
    pub capture_path: String,
}

/// A [`GetEventsRequest`] as a plain value.
pub struct GetEventsRequestView {
    pub capture_path: Seq<char>,
}

impl View for GetEventsRequest {
    type V = GetEventsRequestView;

    open spec fn view(&self) -> GetEventsRequestView {
        GetEventsRequestView {
            capture_path: self.capture_path@,
        }
    }
}

/// One event of a capture.
#[derive(Debug, Clone, PartialEq, Eq)]
pub struct EventInfo {
    pub event_id: u32,
    pub scope: String,
    pub name: String,
}

/// What [`RenderDocInstallation::get_events`] answers.
#[derive(Debug, Clone, PartialEq, Eq)]
pub struct GetEventsResponse {
    pub capture_path: String,
    pub total_events: u64,
    pub events: Vec<EventInfo>,
}

/// What [`RenderDocInstallation::get_shader_details`] is asked.
#[derive(Debug, Clone, PartialEq, Eq)]
pub struct GetShaderDetailsRequest {
    pub capture_path: String,
    pub pipeline_name: String,
    /// Optional list of entry points to filter by. If not provided, returns all entry points.
    pub entry_points: Option<Vec<String>>,
}

/// A [`GetShaderDetailsRequest`] as a plain value.
pub struct GetShaderDetailsRequestView {
    pub capture_path: Seq<char>,
    pub pipeline_name: Seq<char>,
    pub entry_points: Option<Seq<Seq<char>>>,
}

impl View for GetShaderDetailsRequest {
    type V = GetShaderDetailsRequestView;

    open spec fn view(&self) -> GetShaderDetailsRequestView {
        GetShaderDetailsRequestView {
            capture_path: self.capture_path@,
            pipeline_name: self.pipeline_name@,
            entry_points: opt_texts_of(self.entry_points),
        }
    }
}

/// One source file of a shader.
#[derive(Debug, Clone, PartialEq, Eq)]
pub struct ShaderSourceFile {
    pub path: String,
    pub size: u64,
}

/// One resource that a shader reads or writes.
#[derive(Debug, Clone, PartialEq, Eq)]
pub struct ShaderResource {
    pub name: String,
    pub resource_type: String,
    pub set: Option<u32>,
    pub binding: Option<u32>,
}

/// One constant block of a shader.
#[derive(Debug, Clone, PartialEq, Eq)]
pub struct ShaderConstantBlock {
    pub name: String,
    pub byte_size: u64,
    pub set: Option<u32>,
    pub binding: Option<u32>,
}

/// One sampler of a shader.
#[derive(Debug, Clone, PartialEq, Eq)]
pub struct ShaderSampler {
    pub name: String,
    pub set: Option<u32>,
    pub binding: Option<u32>,
}

/// One input of a shader.
#[derive(Debug, Clone, PartialEq, Eq)]
pub struct ShaderInputSignature {
    pub name: String,
    pub semantic: String,
    pub index: u32,
    pub var_type: String,
    pub components: u32,
}

/// One shader of a pipeline.
#[derive(Debug, Clone, PartialEq, Eq)]
pub struct ShaderInfo {
    pub entry_point: String,
    pub stage: String,
    pub event_id: u32,
    pub source_files: Vec<ShaderSourceFile>,
    pub encoding: Option<String>,
    pub debug_info_error: Option<String>,
    pub read_write_resources: Vec<ShaderResource>,
    pub read_only_resources: Vec<ShaderResource>,
    pub constant_blocks: Vec<ShaderConstantBlock>,
    pub samplers: Vec<ShaderSampler>,
    pub input_signature: Vec<ShaderInputSignature>,
}

/// What [`RenderDocInstallation::get_shader_details`] answers.
#[derive(Debug, Clone, PartialEq, Eq)]
pub struct GetShaderDetailsResponse {
    pub capture_path: String,
    pub pipeline_name: String,
    pub entry_points_filter: Option<Vec<String>>,
    pub shaders: Vec<ShaderInfo>,
}

/// What [`RenderDocInstallation::get_buffer_details`] is asked.
#[derive(Debug, Clone, PartialEq, Eq)]
pub struct GetBufferDetailsRequest {
    pub capture_path: String,
    pub buffer_name: String,
}

/// A [`GetBufferDetailsRequest`] as a plain value.
pub struct GetBufferDetailsRequestView {
    pub capture_path: Seq<char>,
    pub buffer_name: Seq<char>,
}

impl View for GetBufferDetailsRequest {
    type V = GetBufferDetailsRequestView;

    open spec fn view(&self) -> GetBufferDetailsRequestView {
        GetBufferDetailsRequestView {
            capture_path: self.capture_path@,
            buffer_name: self.buffer_name@,
        }
    }
}

/// Where in a descriptor set a buffer is bound.
#[derive(Debug, Clone, PartialEq, Eq)]
pub struct BufferBinding {
    pub index: u32,
    pub name: String,
    pub binding_type: String,
}

/// One place where a buffer is used.
#[derive(Debug, Clone, PartialEq, Eq)]
pub struct BufferUsage {
    pub pipeline: String,
    pub descriptor_set: String,
    pub binding: BufferBinding,
    pub event_ids: Vec<u32>,
}

/// What [`RenderDocInstallation::get_buffer_details`] answers.
#[derive(Debug, Clone, PartialEq, Eq)]
pub struct GetBufferDetailsResponse {
    pub buffer_name: String,
    pub schema: serde_json::Value,
    pub stride: u64,
    pub usages: Vec<BufferUsage>,
}

/// What [`RenderDocInstallation::get_texture_details`] is asked.
#[derive(Debug, Clone, PartialEq, Eq)]
pub struct GetTextureDetailsRequest {
    pub capture_path: String,
    pub texture_name: String,
}

/// A [`GetTextureDetailsRequest`] as a plain value.
pub struct GetTextureDetailsRequestView {
    pub capture_path: Seq<char>,
    pub texture_name: Seq<char>,
}

impl View for GetTextureDetailsRequest {
    type V = GetTextureDetailsRequestView;

    open spec fn view(&self) -> GetTextureDetailsRequestView {
        GetTextureDetailsRequestView {
            capture_path: self.capture_path@,
            texture_name: self.texture_name@,
        }
    }
}

/// Where a texture is bound.
#[derive(Debug, Clone, PartialEq, Eq)]
pub struct TextureBinding {
    pub index: u32,
    pub name: String,
    pub binding_type: String,
}

/// One place where a texture is used.
#[derive(Debug, Clone, PartialEq, Eq)]
pub struct TextureUsage {
    pub pipeline: String,
    pub usage_type: String,
    pub binding: TextureBinding,
    pub event_ids: Vec<u32>,
}

/// What [`RenderDocInstallation::get_texture_details`] answers.
#[derive(Debug, Clone, PartialEq, Eq)]
pub struct GetTextureDetailsResponse {
    pub texture_name: String,
    pub texture_id: u64,
    pub format: String,
    pub width: u32,
    pub height: u32,
    pub depth: u32,
    pub mip_levels: u32,
    pub array_size: u32,
    pub sample_count: u32,
    pub cube_map: bool,
    pub usages: Vec<TextureUsage>,
}

/// What [`RenderDocInstallation::get_buffer_changes_delta`] is asked.
#[derive(Debug, Clone, PartialEq, Eq)]
pub struct GetBufferChangesDeltaRequest {
    pub capture_path: String,
    pub buffer_name: String,
    pub tracked_indices: Vec<u32>,
}

/// A [`GetBufferChangesDeltaRequest`] as a plain value.
pub struct GetBufferChangesDeltaRequestView {
    pub capture_path: Seq<char>,
    pub buffer_name: Seq<char>,
    pub tracked_indices: Seq<u32>,
}

impl View for GetBufferChangesDeltaRequest {
    type V = GetBufferChangesDeltaRequestView;

    open spec fn view(&self) -> GetBufferChangesDeltaRequestView {
        GetBufferChangesDeltaRequestView {
            capture_path: self.capture_path@,
            buffer_name: self.buffer_name@,
            tracked_indices: self.tracked_indices@,
        }
    }
}

/// What changed in a buffer element at one event.
#[derive(Debug, Clone, PartialEq, Eq)]
pub struct BufferElementChange {
    pub event_id: u32,
    pub delta: serde_json::Value,
}

/// One tracked element of a buffer: how it began and how it changed.
#[derive(Debug, Clone, PartialEq, Eq)]
pub struct BufferElement {
    pub buffer_index: u32,
    pub initial_event_id: u32,
    pub initial_state: serde_json::Value,
    pub changes: Vec<BufferElementChange>,
}

/// What [`RenderDocInstallation::get_buffer_changes_delta`] answers.
#[derive(Debug, Clone, PartialEq, Eq)]
pub struct GetBufferChangesDeltaResponse {
    pub tracked_indices: Vec<u32>,
    pub total_changes: u64,
    pub elements: Vec<BufferElement>,
}

/// Which texel of a texture is meant.
#[derive(Debug, Clone, Copy, PartialEq, Eq)]
pub struct TexelCoord {
    pub x: u32,
    pub y: u32,
    pub z: u32,
    pub mip: u32,
    pub slice: u32,
}

/// What [`RenderDocInstallation::get_texture_changes_delta`] is asked.
#[derive(Debug, Clone, PartialEq, Eq)]
pub struct GetTextureChangesDeltaRequest {
    pub capture_path: String,
    pub texture_name: String,
    pub tracked_texels: Vec<TexelCoord>,
}

/// A [`GetTextureChangesDeltaRequest`] as a plain value.
pub struct GetTextureChangesDeltaRequestView {
    pub capture_path: Seq<char>,
    pub texture_name: Seq<char>,
    pub tracked_texels: Seq<TexelCoord>,
}

impl View for GetTextureChangesDeltaRequest {
    type V = GetTextureChangesDeltaRequestView;

    open spec fn view(&self) -> GetTextureChangesDeltaRequestView {
        GetTextureChangesDeltaRequestView {
            capture_path: self.capture_path@,
            texture_name: self.texture_name@,
            tracked_texels: self.tracked_texels@,
        }
    }
}

/// The format of a texture.
#[derive(Debug, Clone, PartialEq, Eq)]
pub struct TextureFormatInfo {
    pub name: String,
    pub channels: u32,
    pub bytes_per_channel: u32,
    pub component_type: String,
}

/// What changed in a texel at one event.
#[derive(Debug, Clone, PartialEq, Eq)]
pub struct TexelChange {
    pub event_id: u32,
    pub delta: serde_json::Value,
}

/// One tracked texel: how it began and how it changed.
#[derive(Debug, Clone, PartialEq, Eq)]
pub struct TrackedTexel {
    pub coord: TexelCoord,
    pub initial_event_id: u32,
    pub initial_state: serde_json::Value,
    pub changes: Vec<TexelChange>,
}

/// What [`RenderDocInstallation::get_texture_changes_delta`] answers.
#[derive(Debug, Clone, PartialEq, Eq)]
pub struct GetTextureChangesDeltaResponse {
    pub tracked_texels: Vec<TexelCoord>,
    pub format: TextureFormatInfo,
    pub total_changes: u64,
    pub texels: Vec<TrackedTexel>,
}

/// What [`RenderDocInstallation::get_pipeline_details`] is asked.
#[derive(Debug, Clone, PartialEq, Eq)]
pub struct GetPipelineDetailsRequest {
    pub capture_path: String,
    pub pipeline_name: String,
}

/// A [`GetPipelineDetailsRequest`] as a plain value.
pub struct GetPipelineDetailsRequestView {
    pub capture_path: Seq<char>,
    pub pipeline_name: Seq<char>,
}

impl View for GetPipelineDetailsRequest {
    type V = GetPipelineDetailsRequestView;

    open spec fn view(&self) -> GetPipelineDetailsRequestView {
        GetPipelineDetailsRequestView {
            capture_path: self.capture_path@,
            pipeline_name: self.pipeline_name@,
        }
    }
}

/// One stage of a pipeline.
#[derive(Debug, Clone, PartialEq, Eq)]
pub struct PipelineStageInfo {
    pub stage: String,
    pub shader: String,
    pub entry_point: String,
    /// Vertex buffer layouts (Vertex stage only)
    pub vertex_buffers: Vec<VertexBufferLayout>,
    /// Index buffer info (Vertex stage only)
    pub index_buffer: Option<IndexBufferInfo>,
}

/// The index buffer of a pipeline.
#[derive(Debug, Clone, PartialEq, Eq)]
pub struct IndexBufferInfo {
    /// Index format (Uint16 or Uint32)
    pub format: String,
    /// Stride in bytes (2 for Uint16, 4 for Uint32)
    pub stride: u32,
    /// Example resource name from one of the events
    pub example_resource: String,
}

/// One resource binding of a pipeline.
#[derive(Debug, Clone, PartialEq, Eq)]
pub struct PipelineResourceBinding {
    pub stage: String,
    pub name: String,
    pub binding_type: String,
    pub read_write: bool,
    pub set: Option<u32>,
    pub binding: Option<u32>,
    /// Example resource name from one of the events where this binding is used
    pub example_resource: Option<String>,
    /// For buffers: the inferred struct schema from shader reflection
    pub schema: Option<serde_json::Value>,
    /// For textures: the format of the bound texture
    pub format: Option<String>,
}

/// One constant block of a pipeline.
#[derive(Debug, Clone, PartialEq, Eq)]
pub struct PipelineConstantBlock {
    pub stage: String,
    pub name: String,
    pub byte_size: u64,
    pub set: Option<u32>,
    pub binding: Option<u32>,
}

/// One sampler binding of a pipeline.
#[derive(Debug, Clone, PartialEq, Eq)]
pub struct PipelineSamplerBinding {
    pub stage: String,
    pub name: String,
    pub set: Option<u32>,
    pub binding: Option<u32>,
}

/// One attribute of a vertex.
#[derive(Debug, Clone, PartialEq, Eq)]
pub struct VertexAttribute {
    pub name: String,
    pub offset: u32,
    pub format: String,
    pub per_instance: bool,
}

/// The layout of one vertex buffer.
#[derive(Debug, Clone, PartialEq, Eq)]
pub struct VertexBufferLayout {
    /// Vertex buffer binding index
    pub binding: u32,
    /// Stride in bytes between vertices
    pub stride: u32,
    /// Attributes in this vertex buffer
    pub attributes: Vec<VertexAttribute>,
    /// Example resource name from one of the events
    pub example_resource: String,
}

/// One render target of a pipeline.
#[derive(Debug, Clone, PartialEq, Eq)]
pub struct PipelineRenderTarget {
    pub index: u32,
    pub target_type: String,
    /// Format of the render target (e.g., "R8G8B8A8_UNORM", "D32_SFLOAT")
    pub format: String,
    /// MSAA sample count (1 for non-MSAA)
    pub sample_count: u32,
    /// Example resource name from one of the events where this pipeline is used
    pub example_resource: String,
}

/// How a pipeline tests and writes depth.
#[derive(Debug, Clone, PartialEq, Eq)]
pub struct PipelineDepthState {
    pub depth_test_enable: Option<bool>,
    pub depth_write_enable: Option<bool>,
    pub depth_function: Option<String>,
    pub depth_bounds_enable: Option<bool>,
    /// Single precision, as IEEE 754 bits.
    pub min_depth_bounds: Option<u32>,
    /// Single precision, as IEEE 754 bits.
    pub max_depth_bounds: Option<u32>,
}

/// How one face is tested against the stencil buffer.
#[derive(Debug, Clone, PartialEq, Eq)]
pub struct StencilFaceState {
    /// Comparison function that determines if the fail_op or pass_op is used
    pub compare: Option<String>,
    /// Operation performed when stencil test fails
    pub fail_op: Option<String>,
    /// Operation performed when depth test fails but stencil test succeeds
    pub depth_fail_op: Option<String>,
    /// Operation performed when stencil test succeeds
    pub pass_op: Option<String>,
}

/// How a pipeline tests and writes the stencil buffer.
#[derive(Debug, Clone, PartialEq, Eq)]
pub struct PipelineStencilState {
    /// Front face stencil mode
    pub front: Option<StencilFaceState>,
    /// Back face stencil mode
    pub back: Option<StencilFaceState>,
    /// Stencil values are AND'd with this mask when reading (low 8 bits)
    pub read_mask: Option<u32>,
    /// Stencil values are AND'd with this mask when writing (low 8 bits)
    pub write_mask: Option<u32>,
}

/// How source and destination are blended.
#[derive(Debug, Clone, PartialEq, Eq)]
pub struct BlendOperation {
    pub source: Option<String>,
    pub destination: Option<String>,
    pub operation: Option<String>,
}

/// How one attachment is blended.
#[derive(Debug, Clone, PartialEq, Eq)]
pub struct BlendAttachment {
    pub index: u32,
    pub enabled: bool,
    pub write_mask: u32,
    pub color_blend: Option<BlendOperation>,
    pub alpha_blend: Option<BlendOperation>,
}

/// How a pipeline blends.
#[derive(Debug, Clone, PartialEq, Eq)]
pub struct PipelineBlendState {
    pub attachments: Option<Vec<BlendAttachment>>,
    /// Single precision, as IEEE 754 bits.
    pub blend_factor: Option<Vec<u32>>,
    pub logic_op_enabled: Option<bool>,
    pub logic_op: Option<String>,
}

/// A binding in a descriptor set layout
#[derive(Debug, Clone, PartialEq, Eq)]
pub struct LayoutBinding {
    /// Binding number within the set
    pub binding: u32,
    /// Descriptor type as string (e.g., "UniformBuffer", "StorageBuffer", "CombinedImageSampler")
    pub descriptor_type: String,
    /// Number of descriptors in this binding (for arrays)
    pub descriptor_count: Option<u32>,
    /// List of shader stages that can access this binding
    pub stages: Vec<String>,
    /// Whether this binding has immutable samplers
    pub has_immutable_samplers: Option<bool>,
}

/// A descriptor set within a pipeline layout
#[derive(Debug, Clone, PartialEq, Eq)]
pub struct DescriptorSetLayout {
    /// Set index in the pipeline layout
    pub set_index: u32,
    /// Name of this descriptor set (e.g., "group0", "group1")
    pub name: Option<String>,
    /// Whether this is a push descriptor set
    pub push_descriptor: Option<bool>,
    /// Index of the descriptor buffer (for VK_EXT_descriptor_buffer)
    pub descriptor_buffer_index: Option<i32>,
    /// Bindings within this descriptor set layout
    pub bindings: Vec<LayoutBinding>,
}

/// A descriptor buffer binding (for VK_EXT_descriptor_buffer)
#[derive(Debug, Clone, PartialEq, Eq)]
pub struct DescriptorBufferBinding {
    /// Index of this descriptor buffer
    pub index: u32,
    /// Name of the buffer resource
    pub buffer: String,
    /// Byte offset into the buffer
    pub offset: Option<u64>,
    /// Buffer types (e.g., ["resource"], ["sampler"], ["resource", "sampler"])
    pub types: Vec<String>,
}

/// Pipeline layout information
#[derive(Debug, Clone, PartialEq, Eq)]
pub struct PipelineLayout {
    /// Name of the pipeline layout
    pub name: Option<String>,
    /// Pipeline creation flags as semantic names (e.g., ["CaptureStatistics", "DescriptorBuffer"])
    pub flags: Vec<String>,
    /// Whether this pipeline uses VK_EXT_descriptor_buffer
    pub uses_descriptor_buffers: Option<bool>,
    /// Descriptor sets in the pipeline layout
    pub descriptor_sets: Vec<DescriptorSetLayout>,
    /// Descriptor buffers bound (for VK_EXT_descriptor_buffer)
    pub descriptor_buffers: Vec<DescriptorBufferBinding>,
}

/// What [`RenderDocInstallation::get_pipeline_details`] answers.
#[derive(Debug, Clone, PartialEq, Eq)]
pub struct GetPipelineDetailsResponse {
    pub pipeline_name: String,
    pub pipeline_id: u64,
    pub pipeline_type: String,
    pub stages: Vec<PipelineStageInfo>,
    pub resource_bindings: Vec<PipelineResourceBinding>,
    pub constant_blocks: Vec<PipelineConstantBlock>,
    /// Samplers used by the pipeline (may be empty or absent for compute)
    pub samplers: Vec<PipelineSamplerBinding>,
    /// Render target layouts (graphics pipelines only)
    pub render_targets: Vec<PipelineRenderTarget>,
    /// Depth testing state (graphics pipelines only)
    pub depth_state: Option<PipelineDepthState>,
    /// Stencil testing state (graphics pipelines only)
    pub stencil_state: Option<PipelineStencilState>,
    /// Blend state (graphics pipelines only)
    pub blend_state: Option<PipelineBlendState>,
    /// Pipeline layout information (descriptor sets, flags, etc.)
    pub pipeline_layout: Option<PipelineLayout>,
    /// Vulkan pipeline create info extracted from structured file (graphics pipelines only)
    pub vulkan_create_info: Option<VulkanPipelineCreateInfo>,
    pub event_ids: Vec<u32>,
    /// Debug info for resource scanning (temporary)
    pub debug_resource_scan: Vec<serde_json::Value>,
}

/// Vulkan graphics pipeline create info extracted from the structured file.
/// Contains the full pipeline state as specified in VkGraphicsPipelineCreateInfo.
#[derive(Debug, Clone, PartialEq, Eq)]
pub struct VulkanPipelineCreateInfo {
    /// Pipeline creation flags
    pub flags: Option<String>,
    /// Shader stages used by this pipeline
    pub shader_stages: Vec<VulkanShaderStageInfo>,
    /// Vertex input state (bindings and attributes)
    pub vertex_input: Option<VulkanVertexInputState>,
    /// Input assembly state (topology, primitive restart)
    pub input_assembly: Option<VulkanInputAssemblyState>,
    /// Tessellation state
    pub tessellation: Option<VulkanTessellationState>,
    /// Viewport state
    pub viewport: Option<VulkanViewportState>,
    /// Rasterization state
    pub rasterization: Option<VulkanRasterizationState>,
    /// Multisample state
    pub multisample: Option<VulkanMultisampleState>,
    /// Depth/stencil state
    pub depth_stencil: Option<VulkanDepthStencilState>,
    /// Color blend state
    pub color_blend: Option<VulkanColorBlendState>,
    /// Dynamic states
    pub dynamic_states: Vec<String>,
    /// Pipeline layout name
    pub layout: Option<String>,
    /// Render pass name
    pub render_pass: Option<String>,
    /// Subpass index
    pub subpass: Option<u32>,
}

/// One shader stage of a Vulkan pipeline.
#[derive(Debug, Clone, PartialEq, Eq)]
pub struct VulkanShaderStageInfo {
    pub stage: String,
    pub module: Option<String>,
    pub entry_point: Option<String>,
}

/// The vertex input of a Vulkan pipeline.
#[derive(Debug, Clone, PartialEq, Eq)]
pub struct VulkanVertexInputState {
    pub bindings: Vec<VulkanVertexBinding>,
    pub attributes: Vec<VulkanVertexAttribute>,
}

/// One vertex binding of a Vulkan pipeline.
#[derive(Debug, Clone, PartialEq, Eq)]
pub struct VulkanVertexBinding {
    pub binding: u32,
    pub stride: u32,
    pub input_rate: Option<String>,
}

/// One vertex attribute of a Vulkan pipeline.
#[derive(Debug, Clone, PartialEq, Eq)]
pub struct VulkanVertexAttribute {
    pub location: u32,
    pub binding: u32,
    pub format: String,
    pub offset: u32,
}

/// The input assembly of a Vulkan pipeline.
#[derive(Debug, Clone, PartialEq, Eq)]
pub struct VulkanInputAssemblyState {
    pub topology: String,
    pub primitive_restart_enable: Option<bool>,
}

/// The tessellation of a Vulkan pipeline.
#[derive(Debug, Clone, PartialEq, Eq)]
pub struct VulkanTessellationState {
    pub patch_control_points: u32,
}

/// The viewports of a Vulkan pipeline.
#[derive(Debug, Clone, PartialEq, Eq)]
pub struct VulkanViewportState {
    pub viewport_count: u32,
    pub scissor_count: u32,
}

/// The rasterization of a Vulkan pipeline.
#[derive(Debug, Clone, PartialEq, Eq)]
pub struct VulkanRasterizationState {
    pub depth_clamp_enable: Option<bool>,
    pub rasterizer_discard_enable: Option<bool>,
    pub polygon_mode: Option<String>,
    pub cull_mode: Option<String>,
    pub front_face: Option<String>,
    pub depth_bias_enable: Option<bool>,
    /// Single precision, as IEEE 754 bits.
    pub line_width: Option<u32>,
}

/// The multisampling of a Vulkan pipeline.
#[derive(Debug, Clone, PartialEq, Eq)]
pub struct VulkanMultisampleState {
    pub samples: String,
    pub sample_shading_enable: Option<bool>,
    pub alpha_to_coverage_enable: Option<bool>,
}

/// The stencil operations of one face in a Vulkan pipeline.
#[derive(Debug, Clone, PartialEq, Eq)]
pub struct VulkanStencilOpState {
    pub fail_op: Option<String>,
    pub pass_op: Option<String>,
    pub depth_fail_op: Option<String>,
    pub compare_op: Option<String>,
}

/// The depth and stencil tests of a Vulkan pipeline.
#[derive(Debug, Clone, PartialEq, Eq)]
pub struct VulkanDepthStencilState {
    pub depth_test_enable: Option<bool>,
    pub depth_write_enable: Option<bool>,
    pub depth_compare_op: Option<String>,
    pub depth_bounds_test_enable: Option<bool>,
    pub stencil_test_enable: Option<bool>,
    pub front_stencil: Option<VulkanStencilOpState>,
    pub back_stencil: Option<VulkanStencilOpState>,
}

/// The blending of one attachment in a Vulkan pipeline.
#[derive(Debug, Clone, PartialEq, Eq)]
pub struct VulkanColorBlendAttachment {
    pub blend_enable: bool,
    pub src_color_blend: Option<String>,
    pub dst_color_blend: Option<String>,
    pub color_blend_op: Option<String>,
    pub src_alpha_blend: Option<String>,
    pub dst_alpha_blend: Option<String>,
    pub alpha_blend_op: Option<String>,
    pub color_write_mask: Option<String>,
}

/// The blending of a Vulkan pipeline.
#[derive(Debug, Clone, PartialEq, Eq)]
pub struct VulkanColorBlendState {
    pub logic_op_enable: Option<bool>,
    pub logic_op: Option<String>,
    pub attachments: Vec<VulkanColorBlendAttachment>,
}

/// What [`RenderDocInstallation::get_pipeline_binding_changes_delta`] is asked.
#[derive(Debug, Clone, PartialEq, Eq)]
pub struct GetPipelineBindingChangesDeltaRequest {
    pub capture_path: String,
    pub pipeline_name: String,
}

/// A [`GetPipelineBindingChangesDeltaRequest`] as a plain value.
pub struct GetPipelineBindingChangesDeltaRequestView {
    pub capture_path: Seq<char>,
    pub pipeline_name: Seq<char>,
}

impl View for GetPipelineBindingChangesDeltaRequest {
    type V = GetPipelineBindingChangesDeltaRequestView;

    open spec fn view(&self) -> GetPipelineBindingChangesDeltaRequestView {
        GetPipelineBindingChangesDeltaRequestView {
            capture_path: self.capture_path@,
            pipeline_name: self.pipeline_name@,
        }
    }
}

/// What is bound at a binding.
#[derive(Debug, Clone, PartialEq, Eq)]
pub struct BindingValue {
    pub resource_id: Option<u64>,
    pub resource_name: Option<String>,
}

/// What a binding changed to at one event.
#[derive(Debug, Clone, PartialEq, Eq)]
pub struct BindingChange {
    pub event_id: u32,
    pub new_value: BindingValue,
}

/// One binding of a pipeline: what it began with and how it changed.
#[derive(Debug, Clone, PartialEq, Eq)]
pub struct TrackedBinding {
    pub stage: String,
    pub binding_type: String,
    pub set: u32,
    pub binding: u32,
    pub name: String,
    pub initial_event_id: u32,
    pub initial_value: BindingValue,
    pub changes: Vec<BindingChange>,
}

/// What [`RenderDocInstallation::get_pipeline_binding_changes_delta`] answers.
#[derive(Debug, Clone, PartialEq, Eq)]
pub struct GetPipelineBindingChangesDeltaResponse {
    pub pipeline_name: String,
    pub pipeline_type: String,
    pub total_changes: u64,
    pub bindings: Vec<TrackedBinding>,
}

/// What [`RenderDocInstallation::get_event_pipeline_state`] is asked.
#[derive(Debug, Clone, PartialEq, Eq)]
pub struct GetEventPipelineStateRequest {
    pub capture_path: String,
    pub event_id: u32,
}

/// A [`GetEventPipelineStateRequest`] as a plain value.
pub struct GetEventPipelineStateRequestView {
    pub capture_path: Seq<char>,
    pub event_id: u32,
}

impl View for GetEventPipelineStateRequest {
    type V = GetEventPipelineStateRequestView;

    open spec fn view(&self) -> GetEventPipelineStateRequestView {
        GetEventPipelineStateRequestView {
            capture_path: self.capture_path@,
            event_id: self.event_id,
        }
    }
}

/// One active stage at an event.
#[derive(Debug, Clone, PartialEq, Eq)]
pub struct PipelineStage {
    pub stage: String,
    pub shader: String,
    pub entry_point: String,
    pub index_buffer: Option<serde_json::Value>,
    pub vertex_buffers: Option<Vec<serde_json::Value>>,
    pub render_targets: Option<Vec<serde_json::Value>>,
    pub depth_target: Option<serde_json::Value>,
    pub depth_state: Option<serde_json::Value>,
    pub stencil_state: Option<serde_json::Value>,
    pub blend_state: Option<serde_json::Value>,
}

/// One resource bound at an event.
#[derive(Debug, Clone, PartialEq, Eq)]
pub struct PipelineResource {
    pub stage: String,
    pub set: i32,
    pub binding: i32,
    pub name: String,
    pub access: String,
    pub resource_type: String,
    pub resource: String,
    pub resource_id: String,
    pub contents: Option<String>,
    pub layout: Option<serde_json::Value>,
}

/// One uniform buffer bound at an event.
#[derive(Debug, Clone, PartialEq, Eq)]
pub struct PipelineUniform {
    pub stage: String,
    pub set: i32,
    pub binding: i32,
    pub name: String,
    pub resource: String,
    pub resource_id: String,
    pub variable_count: u32,
    pub variables: Vec<serde_json::Value>,
    pub contents: Option<String>,
}

/// One sampler bound at an event.
#[derive(Debug, Clone, PartialEq, Eq)]
pub struct PipelineSampler {
    pub stage: String,
    pub set: i32,
    pub binding: i32,
    pub name: String,
}

/// What [`RenderDocInstallation::get_event_pipeline_state`] answers.
#[derive(Debug, Clone, PartialEq, Eq)]
pub struct GetEventPipelineStateResponse {
    pub capture_path: String,
    pub pipeline: String,
    pub event_id: u32,
    pub is_compute: bool,
    pub stages: Vec<PipelineStage>,
    pub resources: Vec<PipelineResource>,
    pub uniforms: Vec<PipelineUniform>,
    pub samplers: Vec<PipelineSampler>,
}

/// What [`RenderDocInstallation::get_resource_changed_event_ids`] is asked.
#[derive(Debug, Clone, PartialEq, Eq)]
pub struct GetResourceChangedEventIdsRequest {
    pub capture_path: String,
    pub resource_name: String,
}

/// A [`GetResourceChangedEventIdsRequest`] as a plain value.
pub struct GetResourceChangedEventIdsRequestView {
    pub capture_path: Seq<char>,
    pub resource_name: Seq<char>,
}

impl View for GetResourceChangedEventIdsRequest {
    type V = GetResourceChangedEventIdsRequestView;

    open spec fn view(&self) -> GetResourceChangedEventIdsRequestView {
        GetResourceChangedEventIdsRequestView {
            capture_path: self.capture_path@,
            resource_name: self.resource_name@,
        }
    }
}

/// What [`RenderDocInstallation::get_resource_changed_event_ids`] answers.
#[derive(Debug, Clone, PartialEq, Eq)]
pub struct GetResourceChangedEventIdsResponse {
    pub capture_path: String,
    pub resource_name: String,
    pub resource_id: String,
    pub resource_type: String,
    pub total_actions_scanned: u64,
    pub write_count: u64,
    pub event_ids: Vec<u32>,
}

/// What [`RenderDocInstallation::search_resources`] is asked.
#[derive(Debug, Clone, PartialEq, Eq)]
pub struct SearchResourcesRequest {
    /// Path to the .rdc capture file.
    pub capture_path: String,
    /// Optional regex pattern to match against resource names.
    /// If not provided, matches all resources (filtered only by resource_types if specified).
    ///
    /// Uses Rust-compatible regex syntax. Examples:
    /// - `"particle"` - matches names containing "particle"
    /// - `"^Texture"` - matches names starting with "Texture"
    /// - `"Buffer$"` - matches names ending with "Buffer"
    /// - `"shadow|light"` - matches names containing "shadow" or "light"
    /// - `"gbuffer_\\d+"` - matches "gbuffer_0", "gbuffer_1", etc.
    /// - `".*_diffuse$"` - matches names ending with "_diffuse"
    pub query: Option<String>,
    /// If true, matching is case-sensitive. Default is false (case-insensitive).
    pub case_sensitive: bool,
    /// Maximum number of results to return. Default is 500.
    pub max_results: Option<u32>,
    /// Optional list of resource types to filter by.
    ///
    /// Valid values:
    /// - `Unknown` - Unclassified resources
    /// - `Device` - VkDevice / GPU device
    /// - `Queue` - VkQueue
    /// - `CommandBuffer` - VkCommandBuffer
    /// - `Texture` - Images/textures
    /// - `Buffer` - VkBuffer
    /// - `View` - Image/buffer views
    /// - `Sampler` - VkSampler
    /// - `SwapchainImage` - Swapchain images
    /// - `Memory` - VkDeviceMemory
    /// - `Shader` - Shader modules
    /// - `ShaderBinding` - Descriptor set layouts, pipeline layouts
    /// - `PipelineState` - Graphics/compute pipelines
    /// - `StateObject` - Other state objects
    /// - `RenderPass` - VkRenderPass / VkFramebuffer
    /// - `Query` - Query pools
    /// - `Sync` - Fences, semaphores, events
    /// - `Pool` - Command pools, descriptor pools
    /// - `AccelerationStructure` - Ray tracing acceleration structures
    /// - `DescriptorStore` - Descriptor heaps/sets
    pub resource_types: Option<Vec<String>>,
}

/// A [`SearchResourcesRequest`] as a plain value.
pub struct SearchResourcesRequestView {
    pub capture_path: Seq<char>,
    pub query: Option<Seq<char>>,
    pub case_sensitive: bool,
    pub max_results: Option<u32>,
    pub resource_types: Option<Seq<Seq<char>>>,
}

impl View for SearchResourcesRequest {
    type V = SearchResourcesRequestView;

    open spec fn view(&self) -> SearchResourcesRequestView {
        SearchResourcesRequestView {
            capture_path: self.capture_path@,
            query: text_of(self.query),
            case_sensitive: self.case_sensitive,
            max_results: self.max_results,
            resource_types: opt_texts_of(self.resource_types),
        }
    }
}

/// One resource that matched a search.
#[derive(Debug, Clone, PartialEq, Eq)]
pub struct ResourceMatch {
    pub resource_id: u64,
    pub name: String,
    pub resource_type: String,
}

/// What [`RenderDocInstallation::search_resources`] answers.
#[derive(Debug, Clone, PartialEq, Eq)]
pub struct SearchResourcesResponse {
    pub capture_path: String,
    pub query: Option<String>,
    pub case_sensitive: bool,
    pub total_resources: u64,
    pub total_matches: u64,
    pub truncated: bool,
    pub matches: Vec<ResourceMatch>,
}

/// What [`RenderDocInstallation::find_resource_uses`] is asked.
#[derive(Debug, Clone, PartialEq, Eq)]
pub struct FindResourceUsesRequest {
    /// Path to the .rdc capture file.
    pub capture_path: String,
    /// Resource name or ID to find uses of. Can be an exact name, partial name, or numeric ID.
    pub resource: String,
    /// Maximum number of uses to return. Default is 500.
    pub max_results: Option<u32>,
    /// Maximum bytes to read when comparing data (default 64KB).
    /// Set to 0 to read entire resource.
    pub data_sample_bytes: Option<u32>,
    /// Filter results by delta presence: "all" (default), "with_delta", "without_delta".
    pub delta_filter: Option<String>,
}

/// A [`FindResourceUsesRequest`] as a plain value.
pub struct FindResourceUsesRequestView {
    pub capture_path: Seq<char>,
    pub resource: Seq<char>,
    pub max_results: Option<u32>,
    pub data_sample_bytes: Option<u32>,
    pub delta_filter: Option<Seq<char>>,
}

impl View for FindResourceUsesRequest {
    type V = FindResourceUsesRequestView;

    open spec fn view(&self) -> FindResourceUsesRequestView {
        FindResourceUsesRequestView {
            capture_path: self.capture_path@,
            resource: self.resource@,
            max_results: self.max_results,
            data_sample_bytes: self.data_sample_bytes,
            delta_filter: text_of(self.delta_filter),
        }
    }
}

/// One use of a resource.
#[derive(Debug, Clone, PartialEq, Eq)]
pub struct ResourceUse {
    /// The event ID where the resource is used.
    pub event_id: u32,
    /// How the resource is used (e.g., VertexBuffer, ColorTarget, PS_Resource, CS_RWResource).
    pub usage: String,
    /// Whether the resource data changed at this event.
    /// Based on actual binary data comparison between events.
    /// None for unknown/ambiguous usages or first event when comparing data.
    pub has_delta: Option<bool>,
    /// When has_delta=true, this shows what data changed.
    /// For buffers with shader reflection: {element: N, fields: {...}}
    /// For other resources: {offset: N, length: N, old_hex: "...", new_hex: "..."}
    pub delta: Option<serde_json::Value>,
    /// The view through which the resource is accessed (if applicable).
    pub view_id: Option<u64>,
    /// Name of the view (if applicable).
    pub view_name: Option<String>,
    /// Name of the pipeline at this event.
    pub pipeline_name: Option<String>,
    /// Shader stage (Vertex, Fragment, Compute, etc.) for stage-specific usages.
    pub stage: Option<String>,
    /// Entry point name for shader resources.
    pub entry_point: Option<String>,
    /// Additional detail about the usage.
    pub usage_detail: Option<String>,
}

/// What [`RenderDocInstallation::find_resource_uses`] answers.
#[derive(Debug, Clone, PartialEq, Eq)]
pub struct FindResourceUsesResponse {
    pub total_uses: u64,
    pub truncated: bool,
    pub uses: Vec<ResourceUse>,
}

/// What [`RenderDocInstallation::export_bindings_index_jsonl`] is asked.
#[derive(Debug, Clone, PartialEq, Eq)]
pub struct ExportBindingsIndexRequest {
    pub capture_path: String,
    pub output_dir: String,
    pub basename: String,
    pub marker_prefix: Option<String>,
    pub event_id_min: Option<u32>,
    pub event_id_max: Option<u32>,
    pub name_contains: Option<String>,
    pub marker_contains: Option<String>,
    pub case_sensitive: bool,
    pub include_cbuffers: bool,
    pub include_outputs: bool,
}

/// A [`ExportBindingsIndexRequest`] as a plain value.
pub struct ExportBindingsIndexRequestView {
    pub capture_path: Seq<char>,
    pub output_dir: Seq<char>,
    pub basename: Seq<char>,
    pub marker_prefix: Option<Seq<char>>,
    pub event_id_min: Option<u32>,
    pub event_id_max: Option<u32>,
    pub name_contains: Option<Seq<char>>,
    pub marker_contains: Option<Seq<char>>,
    pub case_sensitive: bool,
    pub include_cbuffers: bool,
    pub include_outputs: bool,
}

impl View for ExportBindingsIndexRequest {
    type V = ExportBindingsIndexRequestView;

    open spec fn view(&self) -> ExportBindingsIndexRequestView {
        ExportBindingsIndexRequestView {
            capture_path: self.capture_path@,
            output_dir: self.output_dir@,
            basename: self.basename@,
            marker_prefix: text_of(self.marker_prefix),
            event_id_min: self.event_id_min,
            event_id_max: self.event_id_max,
            name_contains: text_of(self.name_contains),
            marker_contains: text_of(self.marker_contains),
            case_sensitive: self.case_sensitive,
            include_cbuffers: self.include_cbuffers,
            include_outputs: self.include_outputs,
        }
    }
}

/// What [`RenderDocInstallation::export_bindings_index_jsonl`] answers.
#[derive(Debug, Clone, PartialEq, Eq)]
pub struct ExportBindingsIndexResponse {
    pub capture_path: String,
    pub bindings_jsonl_path: String,
    pub summary_json_path: String,
    pub total_drawcalls: u64,
}

/// What [`RenderDocInstallation::export_bundle_jsonl`] is asked.
#[derive(Debug, Clone, PartialEq, Eq)]
pub struct ExportBundleRequest {
    pub capture_path: String,
    pub output_dir: String,
    pub basename: String,
    pub only_drawcalls: bool,
    pub marker_prefix: Option<String>,
    pub event_id_min: Option<u32>,
    pub event_id_max: Option<u32>,
    pub name_contains: Option<String>,
    pub marker_contains: Option<String>,
    pub case_sensitive: bool,
    pub include_cbuffers: bool,
    pub include_outputs: bool,
}

/// A [`ExportBundleRequest`] as a plain value.
pub struct ExportBundleRequestView {
    pub capture_path: Seq<char>,
    pub output_dir: Seq<char>,
    pub basename: Seq<char>,
    pub only_drawcalls: bool,
    pub marker_prefix: Option<Seq<char>>,
    pub event_id_min: Option<u32>,
    pub event_id_max: Option<u32>,
    pub name_contains: Option<Seq<char>>,
    pub marker_contains: Option<Seq<char>>,
    pub case_sensitive: bool,
    pub include_cbuffers: bool,
    pub include_outputs: bool,
}

impl View for ExportBundleRequest {
    type V = ExportBundleRequestView;

    open spec fn view(&self) -> ExportBundleRequestView {
        ExportBundleRequestView {
            capture_path: self.capture_path@,
            output_dir: self.output_dir@,
            basename: self.basename@,
            only_drawcalls: self.only_drawcalls,
            marker_prefix: text_of(self.marker_prefix),
            event_id_min: self.event_id_min,
            event_id_max: self.event_id_max,
            name_contains: text_of(self.name_contains),
            marker_contains: text_of(self.marker_contains),
            case_sensitive: self.case_sensitive,
            include_cbuffers: self.include_cbuffers,
            include_outputs: self.include_outputs,
        }
    }
}

/// What an export of both actions and bindings has written.
#[derive(Debug, Clone, PartialEq, Eq)]
pub struct ExportBundleResponse {
    pub capture_path: String,
    pub actions_jsonl_path: String,
    pub actions_summary_json_path: String,
    pub total_actions: u64,
    pub drawcall_actions: u64,
    pub bindings_jsonl_path: String,
    pub bindings_summary_json_path: String,
    pub total_drawcalls: u64,
}

/// The failure of the operation that the name tells.
pub type TriggerCaptureError = OperationError;

/// The failure of the operation that the name tells.
pub type ExportActionsError = OperationError;

/// The failure of the operation that the name tells.
pub type FindEventsError = OperationError;

/// The failure of the operation that the name tells.
pub type ExportBindingsIndexError = OperationError;

/// The failure of the operation that the name tells.
pub type GetEventsError = OperationError;

/// The failure of the operation that the name tells.
pub type GetShaderDetailsError = OperationError;

/// The failure of the operation that the name tells.
pub type GetBufferDetailsError = OperationError;

/// The failure of the operation that the name tells.
pub type GetTextureDetailsError = OperationError;

/// The failure of the operation that the name tells.
pub type GetBufferChangesDeltaError = OperationError;

/// The failure of the operation that the name tells.
pub type GetTextureChangesDeltaError = OperationError;

/// The failure of the operation that the name tells.
pub type GetPipelineDetailsError = OperationError;

/// The failure of the operation that the name tells.
pub type GetPipelineBindingChangesDeltaError = OperationError;

/// The failure of the operation that the name tells.
pub type GetEventPipelineStateError = OperationError;

/// The failure of the operation that the name tells.
pub type GetResourceChangedEventIdsError = OperationError;

/// The failure of the operation that the name tells.
pub type SearchResourcesError = OperationError;

/// The failure of the operation that the name tells.
pub type FindResourceUsesError = OperationError;

impl RenderDocInstallation {
    /// Asks a running target for a capture.
    ///
    /// The request names no file and is written as it is given.
    pub fn trigger_capture_via_target_control(&self, cwd: &str, req: &TriggerCaptureRequest) -> (call: PreparedCall<TriggerCaptureRequest>)
        ensures
            call.is_for(self@, cwd@, "trigger_capture"@, "trigger_capture"@),
            call.request@ == req@,
    {
        let request = TriggerCaptureRequest {
            host: req.host.clone(),
            target_ident: req.target_ident,
            num_frames: req.num_frames,
            timeout_s: req.timeout_s,
        };
        self.prepare(cwd, "trigger_capture", "trigger_capture", request)
    }

    /// Exports the actions of a capture as JSON lines, with a summary.
    ///
    /// The capture and the output directory are resolved against `cwd`.
    pub fn export_actions_jsonl(&self, cwd: &str, req: &ExportActionsRequest) -> (call: PreparedCall<ExportActionsRequest>)
        ensures
            call.is_for(self@, cwd@, "export_actions_jsonl"@, "export_actions_jsonl"@),
            call.request@ == (ExportActionsRequestView {
                capture_path: resolved(cwd@, req@.capture_path),
                output_dir: resolved(cwd@, req@.output_dir),
                ..req@
            }),
    {
        let request = ExportActionsRequest {
            capture_path: resolve_path_string_from_cwd(cwd, req.capture_path.as_str()),
            output_dir: resolve_path_string_from_cwd(cwd, req.output_dir.as_str()),
            basename: req.basename.clone(),
            only_drawcalls: req.only_drawcalls,
            marker_prefix: clone_text(&req.marker_prefix),
            event_id_min: req.event_id_min,
            event_id_max: req.event_id_max,
            name_contains: clone_text(&req.name_contains),
            marker_contains: clone_text(&req.marker_contains),
            case_sensitive: req.case_sensitive,
        };
        self.prepare(cwd, "export_actions_jsonl", "export_actions_jsonl", request)
    }

    /// Finds the events that match a filter.
    ///
    /// The capture is resolved against `cwd`.
    pub fn find_events(&self, cwd: &str, req: &FindEventsRequest) -> (call: PreparedCall<FindEventsRequest>)
        ensures
            call.is_for(self@, cwd@, "find_events_json"@, "find_events"@),
            call.request@ == (FindEventsRequestView {
                capture_path: resolved(cwd@, req@.capture_path),
                ..req@
            }),
    {
        let request = FindEventsRequest {
            capture_path: resolve_path_string_from_cwd(cwd, req.capture_path.as_str()),
            only_drawcalls: req.only_drawcalls,
            marker_prefix: clone_text(&req.marker_prefix),
            event_id_min: req.event_id_min,
            event_id_max: req.event_id_max,
            name_contains: clone_text(&req.name_contains),
            marker_contains: clone_text(&req.marker_contains),
            case_sensitive: req.case_sensitive,
            max_results: req.max_results,
        };
        self.prepare(cwd, "find_events_json", "find_events", request)
    }

    /// Lists all events of a capture.
    ///
    /// The capture is resolved against `cwd`.
    pub fn get_events(&self, cwd: &str, req: &GetEventsRequest) -> (call: PreparedCall<GetEventsRequest>)
        ensures
            call.is_for(self@, cwd@, "get_events_json"@, "get_events"@),
            call.request@ == (GetEventsRequestView {
                capture_path: resolved(cwd@, req@.capture_path),
                ..req@
            }),
    {
        let request = GetEventsRequest {
            capture_path: resolve_path_string_from_cwd(cwd, req.capture_path.as_str()),
        };
        self.prepare(cwd, "get_events_json", "get_events", request)
    }

    /// Describes the shaders of a pipeline.
    ///
    /// The capture is resolved against `cwd`.
    pub fn get_shader_details(&self, cwd: &str, req: &GetShaderDetailsRequest) -> (call: PreparedCall<GetShaderDetailsRequest>)
        ensures
            call.is_for(self@, cwd@, "get_shader_details_json"@, "get_shader_details"@),
            call.request@ == (GetShaderDetailsRequestView {
                capture_path: resolved(cwd@, req@.capture_path),
                ..req@
            }),
    {
        let request = GetShaderDetailsRequest {
            capture_path: resolve_path_string_from_cwd(cwd, req.capture_path.as_str()),
            pipeline_name: req.pipeline_name.clone(),
            entry_points: clone_opt_texts(&req.entry_points),
        };
        self.prepare(cwd, "get_shader_details_json", "get_shader_details", request)
    }

    /// Describes a buffer and where it is used.
    ///
    /// The capture is resolved against `cwd`.
    pub fn get_buffer_details(&self, cwd: &str, req: &GetBufferDetailsRequest) -> (call: PreparedCall<GetBufferDetailsRequest>)
        ensures
            call.is_for(self@, cwd@, "get_buffer_details_json"@, "get_buffer_details"@),
            call.request@ == (GetBufferDetailsRequestView {
                capture_path: resolved(cwd@, req@.capture_path),
                ..req@
            }),
    {
        let request = GetBufferDetailsRequest {
            capture_path: resolve_path_string_from_cwd(cwd, req.capture_path.as_str()),
            buffer_name: req.buffer_name.clone(),
        };
        self.prepare(cwd, "get_buffer_details_json", "get_buffer_details", request)
    }

    /// Describes a texture and where it is used.
    ///
    /// The capture is resolved against `cwd`.
    pub fn get_texture_details(&self, cwd: &str, req: &GetTextureDetailsRequest) -> (call: PreparedCall<GetTextureDetailsRequest>)
        ensures
            call.is_for(self@, cwd@, "get_texture_details_json"@, "get_texture_details"@),
            call.request@ == (GetTextureDetailsRequestView {
                capture_path: resolved(cwd@, req@.capture_path),
                ..req@
            }),
    {
        let request = GetTextureDetailsRequest {
            capture_path: resolve_path_string_from_cwd(cwd, req.capture_path.as_str()),
            texture_name: req.texture_name.clone(),
        };
        self.prepare(cwd, "get_texture_details_json", "get_texture_details", request)
    }

    /// Follows chosen elements of a buffer through the frame.
    ///
    /// The capture is resolved against `cwd`.
    pub fn get_buffer_changes_delta(&self, cwd: &str, req: &GetBufferChangesDeltaRequest) -> (call: PreparedCall<GetBufferChangesDeltaRequest>)
        ensures
            call.is_for(self@, cwd@, "get_buffer_changes_delta_json"@, "get_buffer_changes_delta"@),
            call.request@ == (GetBufferChangesDeltaRequestView {
                capture_path: resolved(cwd@, req@.capture_path),
                ..req@
            }),
    {
        let request = GetBufferChangesDeltaRequest {
            capture_path: resolve_path_string_from_cwd(cwd, req.capture_path.as_str()),
            buffer_name: req.buffer_name.clone(),
            tracked_indices: clone_values(&req.tracked_indices),
        };
        self.prepare(cwd, "get_buffer_changes_delta_json", "get_buffer_changes_delta", request)
    }

    /// Follows chosen texels of a texture through the frame.
    ///
    /// The capture is resolved against `cwd`.
    pub fn get_texture_changes_delta(&self, cwd: &str, req: &GetTextureChangesDeltaRequest) -> (call: PreparedCall<GetTextureChangesDeltaRequest>)
        ensures
            call.is_for(self@, cwd@, "get_texture_changes_delta_json"@, "get_texture_changes_delta"@),
            call.request@ == (GetTextureChangesDeltaRequestView {
                capture_path: resolved(cwd@, req@.capture_path),
                ..req@
            }),
    {
        let request = GetTextureChangesDeltaRequest {
            capture_path: resolve_path_string_from_cwd(cwd, req.capture_path.as_str()),
            texture_name: req.texture_name.clone(),
            tracked_texels: clone_values(&req.tracked_texels),
        };
        self.prepare(cwd, "get_texture_changes_delta_json", "get_texture_changes_delta", request)
    }

    /// Describes a pipeline.
    ///
    /// The capture is resolved against `cwd`.
    pub fn get_pipeline_details(&self, cwd: &str, req: &GetPipelineDetailsRequest) -> (call: PreparedCall<GetPipelineDetailsRequest>)
        ensures
            call.is_for(self@, cwd@, "get_pipeline_details_json"@, "get_pipeline_details"@),
            call.request@ == (GetPipelineDetailsRequestView {
                capture_path: resolved(cwd@, req@.capture_path),
                ..req@
            }),
    {
        let request = GetPipelineDetailsRequest {
            capture_path: resolve_path_string_from_cwd(cwd, req.capture_path.as_str()),
            pipeline_name: req.pipeline_name.clone(),
        };
        self.prepare(cwd, "get_pipeline_details_json", "get_pipeline_details", request)
    }

    /// Follows the bindings of a pipeline through the frame.
    ///
    /// The capture is resolved against `cwd`.
    pub fn get_pipeline_binding_changes_delta(&self, cwd: &str, req: &GetPipelineBindingChangesDeltaRequest) -> (call: PreparedCall<GetPipelineBindingChangesDeltaRequest>)
        ensures
            call.is_for(self@, cwd@, "get_pipeline_binding_changes_delta_json"@, "get_pipeline_binding_changes_delta"@),
            call.request@ == (GetPipelineBindingChangesDeltaRequestView {
                capture_path: resolved(cwd@, req@.capture_path),
                ..req@
            }),
    {
        let request = GetPipelineBindingChangesDeltaRequest {
            capture_path: resolve_path_string_from_cwd(cwd, req.capture_path.as_str()),
            pipeline_name: req.pipeline_name.clone(),
        };
        self.prepare(cwd, "get_pipeline_binding_changes_delta_json", "get_pipeline_binding_changes_delta", request)
    }

    /// Describes the pipeline state at an event.
    ///
    /// The capture is resolved against `cwd`.
    pub fn get_event_pipeline_state(&self, cwd: &str, req: &GetEventPipelineStateRequest) -> (call: PreparedCall<GetEventPipelineStateRequest>)
        ensures
            call.is_for(self@, cwd@, "get_event_pipeline_state_json"@, "get_event_pipeline_state"@),
            call.request@ == (GetEventPipelineStateRequestView {
                capture_path: resolved(cwd@, req@.capture_path),
                ..req@
            }),
    {
        let request = GetEventPipelineStateRequest {
            capture_path: resolve_path_string_from_cwd(cwd, req.capture_path.as_str()),
            event_id: req.event_id,
        };
        self.prepare(cwd, "get_event_pipeline_state_json", "get_event_pipeline_state", request)
    }

    /// Finds the events that write to a resource.
    ///
    /// The capture is resolved against `cwd`.
    pub fn get_resource_changed_event_ids(&self, cwd: &str, req: &GetResourceChangedEventIdsRequest) -> (call: PreparedCall<GetResourceChangedEventIdsRequest>)
        ensures
            call.is_for(self@, cwd@, "get_resource_changed_event_ids_json"@, "get_resource_changed_event_ids"@),
            call.request@ == (GetResourceChangedEventIdsRequestView {
                capture_path: resolved(cwd@, req@.capture_path),
                ..req@
            }),
    {
        let request = GetResourceChangedEventIdsRequest {
            capture_path: resolve_path_string_from_cwd(cwd, req.capture_path.as_str()),
            resource_name: req.resource_name.clone(),
        };
        self.prepare(cwd, "get_resource_changed_event_ids_json", "get_resource_changed_event_ids", request)
    }

    /// Finds resources by name and type.
    ///
    /// The capture is resolved against `cwd`.
    pub fn search_resources(&self, cwd: &str, req: &SearchResourcesRequest) -> (call: PreparedCall<SearchResourcesRequest>)
        ensures
            call.is_for(self@, cwd@, "search_resources_json"@, "search_resources"@),
            call.request@ == (SearchResourcesRequestView {
                capture_path: resolved(cwd@, req@.capture_path),
                ..req@
            }),
    {
        let request = SearchResourcesRequest {
            capture_path: resolve_path_string_from_cwd(cwd, req.capture_path.as_str()),
            query: clone_text(&req.query),
            case_sensitive: req.case_sensitive,
            max_results: req.max_results,
            resource_types: clone_opt_texts(&req.resource_types),
        };
        self.prepare(cwd, "search_resources_json", "search_resources", request)
    }

    /// Finds the events that use a resource.
    ///
    /// The capture is resolved against `cwd`.
    pub fn find_resource_uses(&self, cwd: &str, req: &FindResourceUsesRequest) -> (call: PreparedCall<FindResourceUsesRequest>)
        ensures
            call.is_for(self@, cwd@, "find_resource_uses_json"@, "find_resource_uses"@),
            call.request@ == (FindResourceUsesRequestView {
                capture_path: resolved(cwd@, req@.capture_path),
                ..req@
            }),
    {
        let request = FindResourceUsesRequest {
            capture_path: resolve_path_string_from_cwd(cwd, req.capture_path.as_str()),
            resource: req.resource.clone(),
            max_results: req.max_results,
            data_sample_bytes: req.data_sample_bytes,
            delta_filter: clone_text(&req.delta_filter),
        };
        self.prepare(cwd, "find_resource_uses_json", "find_resource_uses", request)
    }

    /// Exports the bindings of every draw call as JSON lines, with a summary.
    ///
    /// The capture and the output directory are resolved against `cwd`.
    pub fn export_bindings_index_jsonl(&self, cwd: &str, req: &ExportBindingsIndexRequest) -> (call: PreparedCall<ExportBindingsIndexRequest>)
        ensures
            call.is_for(self@, cwd@, "export_bindings_index_jsonl"@, "export_bindings_index_jsonl"@),
            call.request@ == (ExportBindingsIndexRequestView {
                capture_path: resolved(cwd@, req@.capture_path),
                output_dir: resolved(cwd@, req@.output_dir),
                ..req@
            }),
    {
        let request = ExportBindingsIndexRequest {
            capture_path: resolve_path_string_from_cwd(cwd, req.capture_path.as_str()),
            output_dir: resolve_path_string_from_cwd(cwd, req.output_dir.as_str()),
            basename: req.basename.clone(),
            marker_prefix: clone_text(&req.marker_prefix),
            event_id_min: req.event_id_min,
            event_id_max: req.event_id_max,
            name_contains: clone_text(&req.name_contains),
            marker_contains: clone_text(&req.marker_contains),
            case_sensitive: req.case_sensitive,
            include_cbuffers: req.include_cbuffers,
            include_outputs: req.include_outputs,
        };
        self.prepare(cwd, "export_bindings_index_jsonl", "export_bindings_index_jsonl", request)
    }

    /// Exports the actions and the bindings of a capture: two calls, one
    /// after the other, the second only if the first succeeded.
    ///
    /// The capture and the output directory are resolved against `cwd`, in
    /// the response and in both requests alike.
    ///
    /// What is returned are the two calls. The first is run, and its outcome
    /// given to [`ExportBundleCalls::after_actions`], which hands out the
    /// second only if the first succeeded.
    pub fn export_bundle_jsonl(&self, cwd: &str, req: &ExportBundleRequest) -> (calls:
        ExportBundleCalls)
        ensures
            calls.capture_path@ == resolved(cwd@, req@.capture_path),
            calls.actions.is_for(self@, cwd@, "export_actions_jsonl"@, "export_actions_jsonl"@),
            calls.actions.request@ == bundle_actions_request(cwd@, req@),
            calls.bindings.is_for(
                self@,
                cwd@,
                "export_bindings_index_jsonl"@,
                "export_bindings_index_jsonl"@,
            ),
            calls.bindings.request@ == bundle_bindings_request(cwd@, req@),
    {
        let capture_path = resolve_path_string_from_cwd(cwd, req.capture_path.as_str());
        let actions = self.export_actions_jsonl(
            cwd,
            &ExportActionsRequest {
                capture_path: req.capture_path.clone(),
                output_dir: req.output_dir.clone(),
                basename: req.basename.clone(),
                only_drawcalls: req.only_drawcalls,
                marker_prefix: clone_text(&req.marker_prefix),
                event_id_min: req.event_id_min,
                event_id_max: req.event_id_max,
                name_contains: clone_text(&req.name_contains),
                marker_contains: clone_text(&req.marker_contains),
                case_sensitive: req.case_sensitive,
            },
        );
        let bindings = self.export_bindings_index_jsonl(
            cwd,
            &ExportBindingsIndexRequest {
                capture_path: req.capture_path.clone(),
                output_dir: req.output_dir.clone(),
                basename: req.basename.clone(),
                marker_prefix: clone_text(&req.marker_prefix),
                event_id_min: req.event_id_min,
                event_id_max: req.event_id_max,
                name_contains: clone_text(&req.name_contains),
                marker_contains: clone_text(&req.marker_contains),
                case_sensitive: req.case_sensitive,
                include_cbuffers: req.include_cbuffers,
                include_outputs: req.include_outputs,
            },
        );
        ExportBundleCalls { capture_path, actions, bindings }
    }
}

/// The request for the actions that an export of both is made of.
pub open spec fn bundle_actions_request(cwd: Seq<char>, req: ExportBundleRequestView) -> ExportActionsRequestView {
    ExportActionsRequestView {
        capture_path: resolved(cwd, req.capture_path),
        output_dir: resolved(cwd, req.output_dir),
        basename: req.basename,
        only_drawcalls: req.only_drawcalls,
        marker_prefix: req.marker_prefix,
        event_id_min: req.event_id_min,
        event_id_max: req.event_id_max,
        name_contains: req.name_contains,
        marker_contains: req.marker_contains,
        case_sensitive: req.case_sensitive,
    }
}

/// The request for the bindings that an export of both is made of.
pub open spec fn bundle_bindings_request(cwd: Seq<char>, req: ExportBundleRequestView) -> ExportBindingsIndexRequestView {
    ExportBindingsIndexRequestView {
        capture_path: resolved(cwd, req.capture_path),
        output_dir: resolved(cwd, req.output_dir),
        basename: req.basename,
        marker_prefix: req.marker_prefix,
        event_id_min: req.event_id_min,
        event_id_max: req.event_id_max,
        name_contains: req.name_contains,
        marker_contains: req.marker_contains,
        case_sensitive: req.case_sensitive,
        include_cbuffers: req.include_cbuffers,
        include_outputs: req.include_outputs,
    }
}

/// The two calls that an export of both actions and bindings consists of.
#[derive(Debug, Clone, PartialEq, Eq)]
pub struct ExportBundleCalls {
    /// The capture, resolved against the working directory.
    pub capture_path: String,
    /// The export of the actions, to be run first.
    pub actions: PreparedCall<ExportActionsRequest>,
    /// The export of the bindings, to be run if the first succeeded.
    pub bindings: PreparedCall<ExportBindingsIndexRequest>,
}

/// The response of an export of both, put together from the resolved
/// capture and the responses of the two calls.
pub open spec fn bundle_response(
    capture_path: String,
    actions: ExportActionsResponse,
    bindings: ExportBindingsIndexResponse,
) -> ExportBundleResponse {
    ExportBundleResponse {
        capture_path,
        actions_jsonl_path: actions.actions_jsonl_path,
        actions_summary_json_path: actions.summary_json_path,
        total_actions: actions.total_actions,
        drawcall_actions: actions.drawcall_actions,
        bindings_jsonl_path: bindings.bindings_jsonl_path,
        bindings_summary_json_path: bindings.summary_json_path,
        total_drawcalls: bindings.total_drawcalls,
    }
}

/// An export of both whose first call has succeeded and whose second call
/// is still to be run.
#[derive(Debug, Clone, PartialEq, Eq)]
pub struct ExportBundlePending {
    /// The capture, resolved against the working directory.
    pub capture_path: String,
    /// What the export of the actions answered.
    pub actions: ExportActionsResponse,
    /// The export of the bindings, to be run now.
    pub bindings: PreparedCall<ExportBindingsIndexRequest>,
}

impl ExportBundleCalls {
    /// Takes the outcome of the export of the actions.
    ///
    /// A failure ends the export of both: it is handed on unchanged as
    /// [`ExportBundleError::Actions`], and the call for the bindings is not
    /// handed out, so that it is never run. A success hands out the call for
    /// the bindings together with what the first call answered.
    pub fn after_actions(self, actions: Result<ExportActionsResponse, ExportActionsError>) -> (out:
        Result<ExportBundlePending, ExportBundleError>)
        ensures
            match actions {
                Ok(answer) => out == Ok::<ExportBundlePending, ExportBundleError>(
                    ExportBundlePending {
                        capture_path: self.capture_path,
                        actions: answer,
                        bindings: self.bindings,
                    },
                ),
                Err(e) => out == Err::<ExportBundlePending, ExportBundleError>(
                    ExportBundleError::Actions(e),
                ),
            },
    {
        match actions {
            Ok(answer) => Ok(
                ExportBundlePending {
                    capture_path: self.capture_path,
                    actions: answer,
                    bindings: self.bindings,
                },
            ),
            Err(e) => Err(ExportBundleError::Actions(e)),
        }
    }

    /// Puts the responses of the two calls together.
    pub fn finish(self, actions: ExportActionsResponse, bindings: ExportBindingsIndexResponse) -> (out:
        ExportBundleResponse)
        ensures
            out == bundle_response(self.capture_path, actions, bindings),
    {
        ExportBundleResponse {
            capture_path: self.capture_path,
            actions_jsonl_path: actions.actions_jsonl_path,
            actions_summary_json_path: actions.summary_json_path,
            total_actions: actions.total_actions,
            drawcall_actions: actions.drawcall_actions,
            bindings_jsonl_path: bindings.bindings_jsonl_path,
            bindings_summary_json_path: bindings.summary_json_path,
            total_drawcalls: bindings.total_drawcalls,
        }
    }
}

impl ExportBundlePending {
    /// Takes the outcome of the export of the bindings and ends the export
    /// of both.
    ///
    /// A failure is handed on unchanged as [`ExportBundleError::Bindings`];
    /// nothing of what the first call answered is returned with it. A success
    /// gives the response of both, every field filled.
    pub fn conclude(self, bindings: Result<ExportBindingsIndexResponse, ExportBindingsIndexError>) -> (out:
        Result<ExportBundleResponse, ExportBundleError>)
        ensures
            match bindings {
                Ok(answer) => out == Ok::<ExportBundleResponse, ExportBundleError>(
                    bundle_response(self.capture_path, self.actions, answer),
                ),
                Err(e) => out == Err::<ExportBundleResponse, ExportBundleError>(
                    ExportBundleError::Bindings(e),
                ),
            },
    {
        match bindings {
            Ok(answer) => Ok(
                ExportBundleResponse {
                    capture_path: self.capture_path,
                    actions_jsonl_path: self.actions.actions_jsonl_path,
                    actions_summary_json_path: self.actions.summary_json_path,
                    total_actions: self.actions.total_actions,
                    drawcall_actions: self.actions.drawcall_actions,
                    bindings_jsonl_path: answer.bindings_jsonl_path,
                    bindings_summary_json_path: answer.summary_json_path,
                    total_drawcalls: answer.total_drawcalls,
                },
            ),
            Err(e) => Err(ExportBundleError::Bindings(e)),
        }
    }
}

/// Which of the two calls of an export of both failed, and how.
#[derive(Debug, Clone, PartialEq, Eq)]
pub enum ExportBundleError {
    /// The export of the actions failed; the bindings were not tried.
    Actions(ExportActionsError),
    /// The export of the bindings failed.
    Bindings(ExportBindingsIndexError),
}

impl ExportBundleError {
    /// What the failure of an export of both says, given the words of the
    /// call that failed.
    pub open spec fn text(self) -> Seq<char> {
        match self {
            ExportBundleError::Actions(e) => "export actions failed: "@ + error_text(e@),
            ExportBundleError::Bindings(e) => "export bindings index failed: "@ + error_text(e@),
        }
    }

    /// The failure in words.
    pub fn message(&self) -> (out: String)
        ensures
            out@ == self.text(),
    {
        match self {
            ExportBundleError::Actions(e) => "export actions failed: ".to_owned().concat(
                e.message().as_str(),
            ),
            ExportBundleError::Bindings(e) => "export bindings index failed: ".to_owned().concat(
                e.message().as_str(),
            ),
        }
    }
}

/// The buffer elements that are tracked when a request names none: the
/// first one.
pub fn default_tracked_indices() -> (out: Vec<u32>)
    ensures
        out@ == seq![0u32],
{
    let mut out: Vec<u32> = Vec::new();
    out.push(0);
    out
}

/// The texel that is tracked when a request names none: the first one.
pub fn default_tracked_texels() -> (out: Vec<TexelCoord>)
    ensures
        out@ == seq![TexelCoord { x: 0, y: 0, z: 0, mip: 0, slice: 0 }],
{
    let mut out: Vec<TexelCoord> = Vec::new();
    out.push(TexelCoord { x: 0, y: 0, z: 0, mip: 0, slice: 0 });
    out
}

/// The number of search results when a request names none.
pub fn default_max_search_results() -> (out: Option<u32>)
    ensures
        out == Some(500u32),
{
    Some(500)
}

/// The delta filter when a request names none: every use is reported.
pub fn default_delta_filter() -> (out: Option<String>)
    ensures
        out is Some,
        out->0@ == "all"@,
{
    Some("all".to_owned())
}

/// The number of bytes compared when a request names none: 64 KiB.
pub fn default_data_sample_bytes() -> (out: Option<u32>)
    ensures
        out == Some(65536u32),
{
    Some(64 * 1024)
}

} // verus!
