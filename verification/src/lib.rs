//! A bridge to RenderDoc that runs scripts and reads their answers.
//!
//! RenderDoc's replay tooling offers no call interface: all it can do is
//! start `qrenderdoc --python <script>` as a fresh process. This library
//! gives that single integration point the shape of a call: a typed request
//! goes in, a typed response or a failure of a known kind comes out. It
//! decides where a script, a request and a response live on disk, in which
//! order the steps of one call happen, and how every failure on the way is
//! classified. The file and process work itself is performed by the caller,
//! one action at a time.
//!
//! The parts, from the leaves up:
//!
//! - [`paths`]: paths as text, and how a path in a request is resolved
//!   against the caller's working directory;
//! - [`decimal`], [`rundir`]: run directories, one per call and never shared;
//! - [`error`]: the kinds of failure of a call;
//! - [`envelope`], [`json`]: the envelope that a script answers with, and how
//!   it is read from the bytes of the response file;
//! - [`exchange`]: the steps of one call, as a function from the stage reached
//!   and the event reported to the next stage and the next action;
//! - [`trace`], [`store`]: what holds of every call as a whole, and of the
//!   files it leaves behind;
//! - [`toolchain`]: finding the RenderDoc programs;
//! - [`call`], [`replay`], [`workflows`]: the operations, each with its
//!   request and response;
//! - [`capture`], [`server`]: launching a program under capture, and the
//!   defaults of a tool call;
//! - [`settings`], [`in_app`]: the names and rules of the in-application API.

pub mod call;
pub mod capture;
pub mod copies;
pub mod decimal;
pub mod envelope;
pub mod error;
pub mod exchange;
pub mod in_app;
pub mod json;
pub mod paths;
pub mod replay;
pub mod rundir;
pub mod server;
pub mod settings;
pub mod store;
pub mod toolchain;
pub mod trace;
pub mod workflows;

pub use paths::{
    default_artifacts_dir, default_exports_dir, default_scripts_dir, is_absolute, join,
    resolve_path_from_base, resolve_path_string_from_cwd,
};
pub use decimal::decimal_string;
pub use rundir::{RunDirAllocator, RunToken, run_dir_for, run_dir_name_string};
pub use error::{FailureKind, IoFailure, OperationError};
pub use envelope::Envelope;
pub use exchange::{
    Action, Event, Exchange, ExchangePlan, HOST_SCRIPT_FLAG, Operation, ProcessOutcome, Stage,
    remove_if_exists, step,
};
pub use toolchain::{
    DetectInstallationError, ProgramNames, RENDERDOC_DIR_VARIABLE, RenderDocInstallation,
    find_in_path, first_existing,
};
pub use json::{
    Document, JsonKind, Member, decode_envelope, envelope_from_readings, envelope_of_document,
    read_response,
};
pub use call::PreparedCall;
pub use capture::{
    capture_arguments, find, launched_ident, parse_target_ident, thumbnail_arguments,
};
pub use replay::{
    REPLAY_LIST_TEXTURES_JSON_PY, REPLAY_PICK_PIXEL_JSON_PY, REPLAY_SAVE_OUTPUTS_PNG_JSON_PY,
    REPLAY_SAVE_TEXTURE_PNG_JSON_PY, ReplayListTexturesError, ReplayListTexturesRequest,
    ReplayListTexturesResponse, ReplayPickPixelError, ReplayPickPixelRequest,
    ReplayPickPixelResponse, ReplaySaveOutputsPngError, ReplaySaveOutputsPngRequest,
    ReplaySaveOutputsPngResponse, ReplaySaveTexturePngError, ReplaySaveTexturePngRequest,
    ReplaySaveTexturePngResponse, ReplaySavedImage, ReplayTextureInfo,
};
pub use workflows::{
    BindingChange, BindingValue, BlendAttachment, BlendOperation, BufferBinding, BufferElement,
    BufferElementChange, BufferUsage, DescriptorBufferBinding, DescriptorSetLayout, EventInfo,
    ExportActionsError, ExportActionsRequest, ExportActionsResponse, ExportBindingsIndexError,
    ExportBindingsIndexRequest, ExportBindingsIndexResponse, ExportBundleCalls, ExportBundleError,
    ExportBundlePending,
    ExportBundleRequest, ExportBundleResponse, FindEventsError, FindEventsRequest,
    FindEventsResponse, FindResourceUsesError, FindResourceUsesRequest, FindResourceUsesResponse,
    FoundEvent, GetBufferChangesDeltaError, GetBufferChangesDeltaRequest,
    GetBufferChangesDeltaResponse, GetBufferDetailsError, GetBufferDetailsRequest,
    GetBufferDetailsResponse, GetEventPipelineStateError, GetEventPipelineStateRequest,
    GetEventPipelineStateResponse, GetEventsError, GetEventsRequest, GetEventsResponse,
    GetPipelineBindingChangesDeltaError, GetPipelineBindingChangesDeltaRequest,
    GetPipelineBindingChangesDeltaResponse, GetPipelineDetailsError, GetPipelineDetailsRequest,
    GetPipelineDetailsResponse, GetResourceChangedEventIdsError, GetResourceChangedEventIdsRequest,
    GetResourceChangedEventIdsResponse, GetShaderDetailsError, GetShaderDetailsRequest,
    GetShaderDetailsResponse, GetTextureChangesDeltaError, GetTextureChangesDeltaRequest,
    GetTextureChangesDeltaResponse, GetTextureDetailsError, GetTextureDetailsRequest,
    GetTextureDetailsResponse, IndexBufferInfo, LayoutBinding, PipelineBlendState,
    PipelineConstantBlock, PipelineDepthState, PipelineLayout, PipelineRenderTarget,
    PipelineResource, PipelineResourceBinding, PipelineSampler, PipelineSamplerBinding,
    PipelineStage, PipelineStageInfo, PipelineStencilState, PipelineUniform, ResourceMatch,
    ResourceUse, SearchResourcesError, SearchResourcesRequest, SearchResourcesResponse,
    ShaderConstantBlock, ShaderInfo, ShaderInputSignature, ShaderResource, ShaderSampler,
    ShaderSourceFile, StencilFaceState, TexelChange, TexelCoord, TextureBinding, TextureFormatInfo,
    TextureUsage, TrackedBinding, TrackedTexel, TriggerCaptureError, TriggerCaptureRequest,
    TriggerCaptureResponse, VertexAttribute, VertexBufferLayout, VulkanColorBlendAttachment,
    VulkanColorBlendState, VulkanDepthStencilState, VulkanInputAssemblyState,
    VulkanMultisampleState, VulkanPipelineCreateInfo, VulkanRasterizationState,
    VulkanShaderStageInfo, VulkanStencilOpState, VulkanTessellationState, VulkanVertexAttribute,
    VulkanVertexBinding, VulkanVertexInputState, VulkanViewportState, default_data_sample_bytes,
    default_delta_filter, default_max_search_results, default_tracked_indices,
    default_tracked_texels,
};
pub use settings::{
    CaptureOption, InputButton, OverlayBits, RENDERDOC_CaptureOption, RENDERDOC_InputButton,
};
pub use in_app::{
    InAppError, RENDERDOC_Version, capture_if_any, key_count, preferred_versions,
    trim_trailing_nuls,
};
pub use server::{
    FindEventSelection, artifacts_dir_or_default, basename_from, basename_or_default,
    capture_file_template, default_frames, default_host, default_max_results, default_regex_mode,
    default_timeout_s, default_true, output_dir_or_default, replay_output_dir_or_default,
    resolve_base_cwd, select_event_id, thumbnail_path_or_default,
};
