//! The runner profile: the component graph of a pipeline, its scheduling
//! policy and its VMC output, with the rules a profile must meet.
use vstd::prelude::*;

use crate::catalog::{
    EngineComponentKind, InputComponentKind, OutputComponentKind, PostProcessComponentKind,
};
use crate::float_bits::{f32_gt, F32Bits};
use crate::text::{chars_of, concat, is_ascii_alphanumeric, is_white_space, owned, trim, trim_chars, trim_end, trim_start};

verus! {

#[verifier::external_type_specification]
#[verifier::external_body]
#[verifier::reject_recursive_types(K)]
#[verifier::reject_recursive_types(V)]
pub struct ExTomlMap<K, V>(toml::map::Map<K, V>);

#[verifier::external_type_specification]
#[verifier::external_body]
pub struct ExTomlValue(toml::Value);

/// A new, empty settings table, made by `toml::map::Map::new`.
/// What the table holds is not modelled; it is carried unread.
#[verifier::external_body]
fn empty_settings() -> toml::map::Map<String, toml::Value> {
    toml::map::Map::new()
}

/// `i64::MAX`, the largest integer TOML can write.
pub const TOML_INTEGER_MAX: u64 = 9223372036854775807u64;

/// The kinds of frame buffer between pipeline stages.
#[derive(Clone, Copy, Debug, PartialEq, Eq, Structural)]
pub enum BufferComponentKind {
    Ring,
    Latest,
}

impl Default for BufferComponentKind {
    fn default() -> (r: Self)
        ensures
            r == BufferComponentKind::Ring,
    {
        BufferComponentKind::Ring
    }
}

/// What a full buffer does with a new frame.
#[derive(Clone, Copy, Debug, PartialEq, Eq, Structural)]
pub enum BufferOverflowPolicy {
    DropOldest,
    DropNewest,
    BlockProducer,
    ReplaceOld,
}

impl Default for BufferOverflowPolicy {
    fn default() -> (r: Self)
        ensures
            r == BufferOverflowPolicy::DropOldest,
    {
        BufferOverflowPolicy::DropOldest
    }
}

pub struct InputComponentConfig {
    pub id: String,
    pub kind: InputComponentKind,
    pub settings: toml::map::Map<String, toml::Value>,
}

impl Default for InputComponentConfig {
    fn default() -> (r: Self)
        ensures
            r.id@ == "input"@,
            r.kind == InputComponentKind::spec_default_for(true) || r.kind
                == InputComponentKind::spec_default_for(false),
    {
        InputComponentConfig {
            id: owned("input"),
            kind: InputComponentKind::default(),
            settings: empty_settings(),
        }
    }
}

pub struct BufferComponentConfig {
    pub id: String,
    pub kind: BufferComponentKind,
    pub capacity: usize,
    pub overflow: BufferOverflowPolicy,
    pub settings: toml::map::Map<String, toml::Value>,
}

/// The buffer layout that suits an input: an eight-slot ring that blocks the
/// producer for recorded video, a single latest-wins slot for everything else.
pub open spec fn buffer_shape_for(input: InputComponentKind) -> (
    BufferComponentKind,
    usize,
    BufferOverflowPolicy,
) {
    if input.spec_prefers_deterministic_fifo() {
        (BufferComponentKind::Ring, 8, BufferOverflowPolicy::BlockProducer)
    } else {
        (BufferComponentKind::Latest, 1, BufferOverflowPolicy::ReplaceOld)
    }
}

impl BufferComponentConfig {
    /// The buffer's kind, capacity and overflow policy.
    pub open spec fn shape(self) -> (BufferComponentKind, usize, BufferOverflowPolicy) {
        (self.kind, self.capacity, self.overflow)
    }

    fn latest_wins(id: &str) -> (r: Self)
        ensures
            r.id@ == id@,
            r.shape() == (BufferComponentKind::Latest, 1usize, BufferOverflowPolicy::ReplaceOld),
    {
        BufferComponentConfig {
            id: owned(id),
            kind: BufferComponentKind::Latest,
            capacity: 1,
            overflow: BufferOverflowPolicy::ReplaceOld,
            settings: empty_settings(),
        }
    }

    fn deterministic_fifo(id: &str) -> (r: Self)
        ensures
            r.id@ == id@,
            r.shape() == (BufferComponentKind::Ring, 8usize, BufferOverflowPolicy::BlockProducer),
    {
        BufferComponentConfig {
            id: owned(id),
            kind: BufferComponentKind::Ring,
            capacity: 8,
            overflow: BufferOverflowPolicy::BlockProducer,
            settings: empty_settings(),
        }
    }

    pub fn input_default() -> (r: Self)
        ensures
            r.id@ == "input-buffer"@,
            r.shape() == (BufferComponentKind::Latest, 1usize, BufferOverflowPolicy::ReplaceOld),
    {
        Self::latest_wins("input-buffer")
    }

    pub fn output_default() -> (r: Self)
        ensures
            r.id@ == "output-buffer"@,
            r.shape() == (BufferComponentKind::Latest, 1usize, BufferOverflowPolicy::ReplaceOld),
    {
        Self::latest_wins("output-buffer")
    }

    pub fn automatic_input_for(input: &InputComponentKind) -> (r: Self)
        ensures
            r.id@ == "input-buffer"@,
            r.shape() == buffer_shape_for(*input),
    {
        if input.prefers_deterministic_fifo() {
            Self::deterministic_fifo("input-buffer")
        } else {
            Self::latest_wins("input-buffer")
        }
    }

    pub fn automatic_output_for(input: &InputComponentKind) -> (r: Self)
        ensures
            r.id@ == "output-buffer"@,
            r.shape() == buffer_shape_for(*input),
    {
        if input.prefers_deterministic_fifo() {
            Self::deterministic_fifo("output-buffer")
        } else {
            Self::latest_wins("output-buffer")
        }
    }
}

impl Default for BufferComponentConfig {
    fn default() -> (r: Self)
        ensures
            r.id@ == "input-buffer"@,
            r.shape() == (BufferComponentKind::Latest, 1usize, BufferOverflowPolicy::ReplaceOld),
    {
        Self::input_default()
    }
}

pub struct EngineComponentConfig {
    pub id: String,
    pub kind: EngineComponentKind,
    pub settings: toml::map::Map<String, toml::Value>,
}

impl Default for EngineComponentConfig {
    fn default() -> (r: Self)
        ensures
            r.id@ == "engine"@,
            r.kind == EngineComponentKind::MediaPipeNative,
    {
        EngineComponentConfig {
            id: owned("engine"),
            kind: EngineComponentKind::MediaPipeNative,
            settings: empty_settings(),
        }
    }
}

pub struct PostProcessComponentConfig {
    pub id: String,
    pub kind: PostProcessComponentKind,
    pub settings: toml::map::Map<String, toml::Value>,
}

impl Default for PostProcessComponentConfig {
    fn default() -> (r: Self)
        ensures
            r.id@ == "post-process"@,
            r.kind == PostProcessComponentKind::MediaPipeStable,
    {
        PostProcessComponentConfig {
            id: owned("post-process"),
            kind: PostProcessComponentKind::MediaPipeStable,
            settings: empty_settings(),
        }
    }
}

pub struct OutputComponentConfig {
    pub id: String,
    pub kind: OutputComponentKind,
    pub enabled: bool,
    pub settings: toml::map::Map<String, toml::Value>,
}

impl OutputComponentConfig {
    pub fn vmc_default() -> (r: Self)
        ensures
            r.id@ == "output-vmc"@,
            r.kind == OutputComponentKind::Vmc,
            r.enabled,
    {
        OutputComponentConfig {
            id: owned("output-vmc"),
            kind: OutputComponentKind::Vmc,
            enabled: true,
            settings: empty_settings(),
        }
    }
}

impl Default for OutputComponentConfig {
    fn default() -> (r: Self)
        ensures
            r.id@ == "output-vmc"@,
            r.kind == OutputComponentKind::Vmc,
            r.enabled,
    {
        Self::vmc_default()
    }
}

pub struct PipelineComponentsConfig {
    pub input: InputComponentConfig,
    pub input_buffer: BufferComponentConfig,
    pub engine: EngineComponentConfig,
    pub post_process: PostProcessComponentConfig,
    pub output_buffer: BufferComponentConfig,
    pub outputs: Vec<OutputComponentConfig>,
}

impl Default for PipelineComponentsConfig {
    fn default() -> (r: Self)
        ensures
            r.input.id@ == "input"@,
            r.input.kind == InputComponentKind::spec_default_for(true) || r.input.kind
                == InputComponentKind::spec_default_for(false),
            r.input_buffer.id@ == "input-buffer"@,
            r.input_buffer.shape() == (
                BufferComponentKind::Latest,
                1usize,
                BufferOverflowPolicy::ReplaceOld,
            ),
            r.engine.id@ == "engine"@,
            r.engine.kind == EngineComponentKind::MediaPipeNative,
            r.post_process.id@ == "post-process"@,
            r.post_process.kind == PostProcessComponentKind::MediaPipeStable,
            r.output_buffer.id@ == "output-buffer"@,
            r.output_buffer.shape() == (
                BufferComponentKind::Latest,
                1usize,
                BufferOverflowPolicy::ReplaceOld,
            ),
            r.outputs@.len() == 1,
            r.outputs@[0].id@ == "output-vmc"@,
            r.outputs@[0].kind == OutputComponentKind::Vmc,
            r.outputs@[0].enabled,
    {
        let mut outputs: Vec<OutputComponentConfig> = Vec::new();
        outputs.push(OutputComponentConfig::vmc_default());
        PipelineComponentsConfig {
            input: InputComponentConfig::default(),
            input_buffer: BufferComponentConfig::input_default(),
            engine: EngineComponentConfig::default(),
            post_process: PostProcessComponentConfig::default(),
            output_buffer: BufferComponentConfig::output_default(),
            outputs,
        }
    }
}

impl PipelineComponentsConfig {
    /// Replaces both buffers by the layout that suits the input kind,
    /// keeping each buffer's settings table.
    pub fn apply_automatic_buffer_strategy(&mut self)
        ensures
            final(self).input_buffer.id@ == "input-buffer"@,
            final(self).input_buffer.shape() == buffer_shape_for(old(self).input.kind),
            final(self).input_buffer.settings == old(self).input_buffer.settings,
            final(self).output_buffer.id@ == "output-buffer"@,
            final(self).output_buffer.shape() == buffer_shape_for(old(self).input.kind),
            final(self).output_buffer.settings == old(self).output_buffer.settings,
            final(self).input.id == old(self).input.id,
            final(self).input.kind == old(self).input.kind,
            final(self).input.settings == old(self).input.settings,
            final(self).engine == old(self).engine,
            final(self).post_process == old(self).post_process,
            final(self).outputs == old(self).outputs,
    {
        let mut input_buffer = BufferComponentConfig::automatic_input_for(&self.input.kind);
        std::mem::swap(&mut input_buffer.settings, &mut self.input_buffer.settings);
        let mut output_buffer = BufferComponentConfig::automatic_output_for(&self.input.kind);
        std::mem::swap(&mut output_buffer.settings, &mut self.output_buffer.settings);
        self.input_buffer = input_buffer;
        self.output_buffer = output_buffer;
    }
}

/// How one signal is written as a VMC blendshape, with scaling and clamping.
pub struct VmcBlendshapeDetail {
    pub name: String,
    pub scale: F32Bits,
    pub offset: F32Bits,
    pub clamp_min: Option<F32Bits>,
    pub clamp_max: Option<F32Bits>,
}

impl Default for VmcBlendshapeDetail {
    fn default() -> (r: Self)
        ensures
            r.name@ == Seq::<char>::empty(),
            r.scale == F32Bits(0x3f80_0000),
            r.offset == F32Bits(0),
            r.clamp_min is None,
            r.clamp_max is None,
    {
        VmcBlendshapeDetail {
            name: String::new(),
            scale: F32Bits(0x3f80_0000),
            offset: F32Bits(0),
            clamp_min: None,
            clamp_max: None,
        }
    }
}

/// A blendshape map entry: a bare blendshape name or a detailed mapping.
pub enum VmcBlendshapeEntry {
    Name(String),
    Detailed(VmcBlendshapeDetail),
}

pub struct VmcOutputConfig {
    pub target_addr: String,
    pub send_ok_packet: bool,
    /// Signal name and entry, in the order the map is walked.
    pub blendshape_map: Vec<(String, VmcBlendshapeEntry)>,
}

impl Default for VmcOutputConfig {
    fn default() -> (r: Self)
        ensures
            r.target_addr@ == "127.0.0.1:39539"@,
            r.send_ok_packet,
            r.blendshape_map@.len() == 3,
            r.blendshape_map@[0].0@ == "head.yaw"@,
            r.blendshape_map@[0].1 matches VmcBlendshapeEntry::Name(n) && n@ == "HeadYaw"@,
            r.blendshape_map@[1].0@ == "head.pitch"@,
            r.blendshape_map@[1].1 matches VmcBlendshapeEntry::Name(n) && n@ == "HeadPitch"@,
            r.blendshape_map@[2].0@ == "head.roll"@,
            r.blendshape_map@[2].1 matches VmcBlendshapeEntry::Name(n) && n@ == "HeadRoll"@,
    {
        let mut map: Vec<(String, VmcBlendshapeEntry)> = Vec::new();
        map.push((owned("head.yaw"), VmcBlendshapeEntry::Name(owned("HeadYaw"))));
        map.push((owned("head.pitch"), VmcBlendshapeEntry::Name(owned("HeadPitch"))));
        map.push((owned("head.roll"), VmcBlendshapeEntry::Name(owned("HeadRoll"))));
        VmcOutputConfig {
            target_addr: owned("127.0.0.1:39539"),
            send_ok_packet: true,
            blendshape_map: map,
        }
    }
}

/// Whether a blendshape map is the default one: `head.yaw`, `head.pitch` and
/// `head.roll` to `HeadYaw`, `HeadPitch` and `HeadRoll`, in that order.
pub open spec fn is_default_blendshape_map(m: Seq<(String, VmcBlendshapeEntry)>) -> bool {
    &&& m.len() == 3
    &&& m[0].0@ == "head.yaw"@
    &&& m[0].1 matches VmcBlendshapeEntry::Name(n) && n@ == "HeadYaw"@
    &&& m[1].0@ == "head.pitch"@
    &&& m[1].1 matches VmcBlendshapeEntry::Name(n) && n@ == "HeadPitch"@
    &&& m[2].0@ == "head.roll"@
    &&& m[2].1 matches VmcBlendshapeEntry::Name(n) && n@ == "HeadRoll"@
}

pub struct OutputConfig {
    pub vmc: VmcOutputConfig,
}

impl Default for OutputConfig {
    fn default() -> (r: Self)
        ensures
            r.vmc.target_addr@ == "127.0.0.1:39539"@,
            r.vmc.send_ok_packet,
            is_default_blendshape_map(r.vmc.blendshape_map@),
    {
        OutputConfig { vmc: VmcOutputConfig::default() }
    }
}

/// How the pipeline ranks and ages its sources.
pub struct PipelinePolicyConfig {
    pub stale_timeout_ns: u64,
    pub hold_last_ticks: u32,
    pub hold_decay_per_tick: F32Bits,
    pub source_priority: Vec<(String, i32)>,
    pub source_min_confidence: Vec<(String, F32Bits)>,
    pub source_stale_timeout_ns: Vec<(String, u64)>,
    pub priority_weight: F32Bits,
    pub confidence_weight: F32Bits,
    pub freshness_weight: F32Bits,
}

impl Default for PipelinePolicyConfig {
    fn default() -> (r: Self)
        ensures
            r.stale_timeout_ns == TOML_INTEGER_MAX,
            r.hold_last_ticks == 0,
            r.hold_decay_per_tick == F32Bits(0x3f80_0000),
            r.source_priority@.len() == 0,
            r.source_min_confidence@.len() == 0,
            r.source_stale_timeout_ns@.len() == 0,
            r.priority_weight == F32Bits(0x447a_0000),
            r.confidence_weight == F32Bits(0x42c8_0000),
            r.freshness_weight == F32Bits(0x3f80_0000),
    {
        PipelinePolicyConfig {
            stale_timeout_ns: TOML_INTEGER_MAX,
            hold_last_ticks: 0,
            hold_decay_per_tick: F32Bits(0x3f80_0000),
            source_priority: Vec::new(),
            source_min_confidence: Vec::new(),
            source_stale_timeout_ns: Vec::new(),
            priority_weight: F32Bits(0x447a_0000),
            confidence_weight: F32Bits(0x42c8_0000),
            freshness_weight: F32Bits(0x3f80_0000),
        }
    }
}

/// Whether no key occurs twice in a keyed list: the lists below stand for
/// maps, which hold each key once.
pub open spec fn keys_unique<V>(entries: Seq<(String, V)>) -> bool {
    forall|i: int, j: int| 0 <= i < j < entries.len() ==> #[trigger] entries[i].0@ != #[trigger] entries[j].0@
}

pub struct RunnerProfile {
    pub pipeline: PipelinePolicyConfig,
    pub components: PipelineComponentsConfig,
    pub output: OutputConfig,
}

impl RunnerProfile {
    /// Whether each keyed list of the profile holds each key once, as the
    /// maps they stand for do.
    pub open spec fn maps_keyed_uniquely(self) -> bool {
        &&& keys_unique(self.pipeline.source_priority@)
        &&& keys_unique(self.pipeline.source_min_confidence@)
        &&& keys_unique(self.pipeline.source_stale_timeout_ns@)
        &&& keys_unique(self.output.vmc.blendshape_map@)
    }
}

impl Default for RunnerProfile {
    fn default() -> (r: Self)
        ensures
            r.pipeline.stale_timeout_ns == TOML_INTEGER_MAX,
            r.pipeline.hold_last_ticks == 0,
            r.pipeline.hold_decay_per_tick == F32Bits(0x3f80_0000),
            r.pipeline.source_priority@.len() == 0,
            r.pipeline.source_min_confidence@.len() == 0,
            r.pipeline.source_stale_timeout_ns@.len() == 0,
            r.pipeline.priority_weight == F32Bits(0x447a_0000),
            r.pipeline.confidence_weight == F32Bits(0x42c8_0000),
            r.pipeline.freshness_weight == F32Bits(0x3f80_0000),
            r.components.input.id@ == "input"@,
            r.components.input.kind == InputComponentKind::spec_default_for(true) || r.components.input.kind
                == InputComponentKind::spec_default_for(false),
            r.components.input_buffer.id@ == "input-buffer"@,
            r.components.input_buffer.shape() == (
                BufferComponentKind::Latest,
                1usize,
                BufferOverflowPolicy::ReplaceOld,
            ),
            r.components.engine.id@ == "engine"@,
            r.components.engine.kind == EngineComponentKind::MediaPipeNative,
            r.components.post_process.id@ == "post-process"@,
            r.components.post_process.kind == PostProcessComponentKind::MediaPipeStable,
            r.components.output_buffer.id@ == "output-buffer"@,
            r.components.output_buffer.shape() == (
                BufferComponentKind::Latest,
                1usize,
                BufferOverflowPolicy::ReplaceOld,
            ),
            r.components.outputs@.len() == 1,
            r.components.outputs@[0].id@ == "output-vmc"@,
            r.components.outputs@[0].kind == OutputComponentKind::Vmc,
            r.components.outputs@[0].enabled,
            r.output.vmc.target_addr@ == "127.0.0.1:39539"@,
            r.output.vmc.send_ok_packet,
            is_default_blendshape_map(r.output.vmc.blendshape_map@),
            profile_error(r) is None,
            r.maps_keyed_uniquely(),
    {
        let r = RunnerProfile {
            pipeline: PipelinePolicyConfig::default(),
            components: PipelineComponentsConfig::default(),
            output: OutputConfig::default(),
        };
        proof {
            lemma_default_profile_is_valid(r);
            reveal_strlit("head.yaw");
            reveal_strlit("head.pitch");
            reveal_strlit("head.roll");
            let m = r.output.vmc.blendshape_map@;
            assert("head.yaw"@.len() == 8 && "head.pitch"@.len() == 10 && "head.roll"@.len() == 9);
            assert(m[0].0@ != m[1].0@ && m[0].0@ != m[2].0@ && m[1].0@ != m[2].0@);
        }
        r
    }
}

/// Why a profile was refused.
#[derive(Clone, Debug, PartialEq, Eq)]
pub enum ProfileError {
    /// A component id is empty or only white space; the field is named.
    EmptyComponentId { field: String },
    /// A component id holds a character other than ASCII letters, digits, `.`, `-`, `_`.
    InvalidComponentId { field: String },
    /// A buffer has no room; the field is named.
    ZeroCapacity { field: String },
    /// An integer is above `i64::MAX`, which TOML cannot write; the field is named.
    IntegerTooLarge { field: String },
    /// The graph has no output component.
    NoOutputs,
    /// Two output components share an id.
    DuplicateOutputId { id: String },
    /// A blendshape map key is empty or only white space.
    EmptySignalName,
    /// A bare blendshape name is empty or only white space.
    EmptyBlendshapeName { signal: String },
    /// A detailed mapping has an empty name.
    EmptyDetailedName { signal: String },
    /// A detailed mapping clamps with a minimum above its maximum.
    InvalidClampRange { signal: String, min: F32Bits, max: F32Bits },
}

/// A profile error as plain values.
pub enum ProfileErrorView {
    EmptyComponentId(Seq<char>),
    InvalidComponentId(Seq<char>),
    ZeroCapacity(Seq<char>),
    IntegerTooLarge(Seq<char>),
    NoOutputs,
    DuplicateOutputId(Seq<char>),
    EmptySignalName,
    EmptyBlendshapeName(Seq<char>),
    EmptyDetailedName(Seq<char>),
    InvalidClampRange(Seq<char>, F32Bits, F32Bits),
}

impl ProfileError {
    pub open spec fn view(self) -> ProfileErrorView {
        match self {
            ProfileError::EmptyComponentId { field } => ProfileErrorView::EmptyComponentId(field@),
            ProfileError::InvalidComponentId { field } => ProfileErrorView::InvalidComponentId(
                field@,
            ),
            ProfileError::ZeroCapacity { field } => ProfileErrorView::ZeroCapacity(field@),
            ProfileError::IntegerTooLarge { field } => ProfileErrorView::IntegerTooLarge(field@),
            ProfileError::NoOutputs => ProfileErrorView::NoOutputs,
            ProfileError::DuplicateOutputId { id } => ProfileErrorView::DuplicateOutputId(id@),
            ProfileError::EmptySignalName => ProfileErrorView::EmptySignalName,
            ProfileError::EmptyBlendshapeName { signal } => ProfileErrorView::EmptyBlendshapeName(
                signal@,
            ),
            ProfileError::EmptyDetailedName { signal } => ProfileErrorView::EmptyDetailedName(
                signal@,
            ),
            ProfileError::InvalidClampRange { signal, min, max } =>
                ProfileErrorView::InvalidClampRange(signal@, min, max),
        }
    }
}

/// The message a refusal shows. For an inverted clamp range it is the text
/// before the two bounds; the bounds are floating-point numbers, whose text
/// the caller writes after it as ` (min=.. > max=..)`.
pub open spec fn profile_error_message(e: ProfileErrorView) -> Seq<char> {
    match e {
        ProfileErrorView::EmptyComponentId(f) => f + " must not be empty"@,
        ProfileErrorView::InvalidComponentId(f) => f + " may only contain ASCII letters, digits, '.', '-', and '_'"@,
        ProfileErrorView::ZeroCapacity(f) => f + " must be greater than 0"@,
        ProfileErrorView::IntegerTooLarge(f) => f + " must be <= i64::MAX for TOML serialization"@,
        ProfileErrorView::NoOutputs => "components.outputs must contain at least one output component"@,
        ProfileErrorView::DuplicateOutputId(id) => "components.outputs contains duplicate id: "@ + id,
        ProfileErrorView::EmptySignalName => "output.vmc.blendshape_map の signal 名が空です"@,
        ProfileErrorView::EmptyBlendshapeName(s) => "output.vmc.blendshape_map["@ + s + "] の name が空です"@,
        ProfileErrorView::EmptyDetailedName(s) => "output.vmc.blendshape_map["@ + s + "].name が空です"@,
        ProfileErrorView::InvalidClampRange(s, _, _) => "output.vmc.blendshape_map["@ + s + "] の clamp 範囲が不正です"@,
    }
}

impl ProfileError {
    /// The message the refusal shows (see `profile_error_message`).
    pub fn message(&self) -> (r: String)
        ensures
            r@ == profile_error_message(self.view()),
    {
        match self {
            ProfileError::EmptyComponentId { field } => concat(field.as_str(), " must not be empty"),
            ProfileError::InvalidComponentId { field } => concat(
                field.as_str(),
                " may only contain ASCII letters, digits, '.', '-', and '_'",
            ),
            ProfileError::ZeroCapacity { field } => concat(field.as_str(), " must be greater than 0"),
            ProfileError::IntegerTooLarge { field } => concat(
                field.as_str(),
                " must be <= i64::MAX for TOML serialization",
            ),
            ProfileError::NoOutputs => owned("components.outputs must contain at least one output component"),
            ProfileError::DuplicateOutputId { id } => concat("components.outputs contains duplicate id: ", id.as_str()),
            ProfileError::EmptySignalName => owned("output.vmc.blendshape_map の signal 名が空です"),
            ProfileError::EmptyBlendshapeName { signal } => {
                let head = concat("output.vmc.blendshape_map[", signal.as_str());
                concat(head.as_str(), "] の name が空です")
            },
            ProfileError::EmptyDetailedName { signal } => {
                let head = concat("output.vmc.blendshape_map[", signal.as_str());
                concat(head.as_str(), "].name が空です")
            },
            ProfileError::InvalidClampRange { signal, .. } => {
                let head = concat("output.vmc.blendshape_map[", signal.as_str());
                concat(head.as_str(), "] の clamp 範囲が不正です")
            },
        }
    }
}

/// Whether `c` may stand in a component id.
pub open spec fn is_id_char(c: char) -> bool {
    is_ascii_alphanumeric(c) || c == '-' || c == '_' || c == '.'
}

/// What is wrong with a component id for `field`, if anything: blank ids
/// first, then ids with a character outside ASCII letters, digits, `.`, `-`, `_`.
pub open spec fn component_id_error(field: Seq<char>, id: Seq<char>) -> Option<ProfileErrorView> {
    if trim(id).len() == 0 {
        Some(ProfileErrorView::EmptyComponentId(field))
    } else if exists|i: int| 0 <= i < id.len() && !is_id_char(id[i]) {
        Some(ProfileErrorView::InvalidComponentId(field))
    } else {
        None
    }
}

/// What is wrong with an integer for `field` that TOML must write, if anything.
pub open spec fn integer_error(field: Seq<char>, value: u64) -> Option<ProfileErrorView> {
    if value > TOML_INTEGER_MAX {
        Some(ProfileErrorView::IntegerTooLarge(field))
    } else {
        None
    }
}

/// The first per-source timeout among the first `n` entries that TOML cannot
/// write, named `pipeline.source_stale_timeout_ns.<source>`.
pub open spec fn source_timeout_error(entries: Seq<(String, u64)>, n: int) -> Option<
    ProfileErrorView,
>
    decreases n,
{
    if n <= 0 {
        None
    } else {
        match source_timeout_error(entries, n - 1) {
            Some(e) => Some(e),
            None => integer_error(
                "pipeline.source_stale_timeout_ns."@ + entries[n - 1].0@,
                entries[n - 1].1,
            ),
        }
    }
}

/// What is wrong with the output at index `k`, given the outputs before it:
/// a bad id, or an id an earlier output already has.
pub open spec fn output_error_at(outputs: Seq<OutputComponentConfig>, k: int) -> Option<
    ProfileErrorView,
> {
    match component_id_error("components.outputs[].id"@, outputs[k].id@) {
        Some(e) => Some(e),
        None => if exists|j: int| 0 <= j < k && outputs[j].id@ == outputs[k].id@ {
            Some(ProfileErrorView::DuplicateOutputId(outputs[k].id@))
        } else {
            None
        },
    }
}

/// The first error among the first `n` outputs.
pub open spec fn outputs_error(outputs: Seq<OutputComponentConfig>, n: int) -> Option<
    ProfileErrorView,
>
    decreases n,
{
    if n <= 0 {
        None
    } else {
        match outputs_error(outputs, n - 1) {
            Some(e) => Some(e),
            None => output_error_at(outputs, n - 1),
        }
    }
}

/// What is wrong with one blendshape map entry, if anything.
pub open spec fn blendshape_entry_error(signal: Seq<char>, entry: VmcBlendshapeEntry) -> Option<
    ProfileErrorView,
> {
    if trim(signal).len() == 0 {
        Some(ProfileErrorView::EmptySignalName)
    } else {
        match entry {
            VmcBlendshapeEntry::Name(name) => if trim(name@).len() == 0 {
                Some(ProfileErrorView::EmptyBlendshapeName(signal))
            } else {
                None
            },
            VmcBlendshapeEntry::Detailed(detail) => if trim(detail.name@).len() == 0 {
                Some(ProfileErrorView::EmptyDetailedName(signal))
            } else {
                match (detail.clamp_min, detail.clamp_max) {
                    (Some(min), Some(max)) => if f32_gt(min.0, max.0) {
                        Some(ProfileErrorView::InvalidClampRange(signal, min, max))
                    } else {
                        None
                    },
                    _ => None,
                }
            },
        }
    }
}

/// The first error among the first `n` blendshape map entries.
pub open spec fn blendshape_error(entries: Seq<(String, VmcBlendshapeEntry)>, n: int) -> Option<
    ProfileErrorView,
>
    decreases n,
{
    if n <= 0 {
        None
    } else {
        match blendshape_error(entries, n - 1) {
            Some(e) => Some(e),
            None => blendshape_entry_error(entries[n - 1].0@, entries[n - 1].1),
        }
    }
}

/// `a` if it is an error, else `b`.
pub open spec fn or_else(a: Option<ProfileErrorView>, b: Option<ProfileErrorView>) -> Option<
    ProfileErrorView,
> {
    match a {
        Some(e) => Some(e),
        None => b,
    }
}

/// The first rule a profile breaks, in the order they are checked: the five
/// stage ids, the two buffer capacities, the timeouts, that there is an
/// output, each output's id and its uniqueness, then each blendshape entry.
pub open spec fn profile_error(p: RunnerProfile) -> Option<ProfileErrorView> {
    let c = p.components;
    or_else(
        component_id_error("components.input.id"@, c.input.id@),
        or_else(
            component_id_error("components.input_buffer.id"@, c.input_buffer.id@),
            or_else(
                component_id_error("components.engine.id"@, c.engine.id@),
                or_else(
                    component_id_error("components.post_process.id"@, c.post_process.id@),
                    or_else(
                        component_id_error("components.output_buffer.id"@, c.output_buffer.id@),
                        or_else(
                            if c.input_buffer.capacity == 0 {
                                Some(
                                    ProfileErrorView::ZeroCapacity(
                                        "components.input_buffer.capacity"@,
                                    ),
                                )
                            } else {
                                None
                            },
                            or_else(
                                if c.output_buffer.capacity == 0 {
                                    Some(
                                        ProfileErrorView::ZeroCapacity(
                                            "components.output_buffer.capacity"@,
                                        ),
                                    )
                                } else {
                                    None
                                },
                                or_else(
                                    integer_error(
                                        "pipeline.stale_timeout_ns"@,
                                        p.pipeline.stale_timeout_ns,
                                    ),
                                    or_else(
                                        source_timeout_error(
                                            p.pipeline.source_stale_timeout_ns@,
                                            p.pipeline.source_stale_timeout_ns@.len() as int,
                                        ),
                                        or_else(
                                            if c.outputs@.len() == 0 {
                                                Some(ProfileErrorView::NoOutputs)
                                            } else {
                                                None
                                            },
                                            or_else(
                                                outputs_error(c.outputs@, c.outputs@.len() as int),
                                                blendshape_error(
                                                    p.output.vmc.blendshape_map@,
                                                    p.output.vmc.blendshape_map@.len() as int,
                                                ),
                                            ),
                                        ),
                                    ),
                                ),
                            ),
                        ),
                    ),
                ),
            ),
        ),
    )
}

/// A literal id made of letters, `.`, `-` and `_` breaks no id rule.
proof fn lemma_literal_id_ok(field: Seq<char>, id: Seq<char>)
    requires
        id.len() > 0,
        !is_white_space(id[0]),
        forall|i: int| 0 <= i < id.len() ==> is_id_char(#[trigger] id[i]),
    ensures
        component_id_error(field, id) is None,
{
    assert(trim_start(id) == id);
    assert(!is_white_space(id.last())) by {
        assert(is_id_char(id[id.len() - 1]));
    }
    assert(trim_end(id) == id);
}

/// A blendshape entry with a signal and a name that are not blank breaks no rule.
proof fn lemma_named_entry_ok(signal: Seq<char>, name: String)
    requires
        signal.len() > 0,
        !is_white_space(signal[0]),
        !is_white_space(signal.last()),
        name@.len() > 0,
        !is_white_space(name@[0]),
        !is_white_space(name@.last()),
    ensures
        blendshape_entry_error(signal, VmcBlendshapeEntry::Name(name)) is None,
{
    assert(trim_start(signal) == signal);
    assert(trim_end(signal) == signal);
    assert(trim_start(name@) == name@);
    assert(trim_end(name@) == name@);
}

/// The default profile breaks no rule.
proof fn lemma_default_profile_is_valid(r: RunnerProfile)
    requires
        r.pipeline.stale_timeout_ns == TOML_INTEGER_MAX,
        r.pipeline.source_stale_timeout_ns@.len() == 0,
        r.components.input.id@ == "input"@,
        r.components.input_buffer.id@ == "input-buffer"@,
        r.components.input_buffer.capacity == 1,
        r.components.engine.id@ == "engine"@,
        r.components.post_process.id@ == "post-process"@,
        r.components.output_buffer.id@ == "output-buffer"@,
        r.components.output_buffer.capacity == 1,
        r.components.outputs@.len() == 1,
        r.components.outputs@[0].id@ == "output-vmc"@,
        is_default_blendshape_map(r.output.vmc.blendshape_map@),
    ensures
        profile_error(r) is None,
{
    reveal_strlit("input");
    reveal_strlit("input-buffer");
    reveal_strlit("engine");
    reveal_strlit("post-process");
    reveal_strlit("output-buffer");
    reveal_strlit("output-vmc");
    reveal_strlit("head.yaw");
    reveal_strlit("head.pitch");
    reveal_strlit("head.roll");
    reveal_strlit("HeadYaw");
    reveal_strlit("HeadPitch");
    reveal_strlit("HeadRoll");
    let c = r.components;
    lemma_literal_id_ok("components.input.id"@, c.input.id@);
    lemma_literal_id_ok("components.input_buffer.id"@, c.input_buffer.id@);
    lemma_literal_id_ok("components.engine.id"@, c.engine.id@);
    lemma_literal_id_ok("components.post_process.id"@, c.post_process.id@);
    lemma_literal_id_ok("components.output_buffer.id"@, c.output_buffer.id@);
    lemma_literal_id_ok("components.outputs[].id"@, c.outputs@[0].id@);
    assert(output_error_at(c.outputs@, 0) is None);
    assert(outputs_error(c.outputs@, 0) is None);
    assert(outputs_error(c.outputs@, 1) is None);
    assert(source_timeout_error(r.pipeline.source_stale_timeout_ns@, 0) is None);
    let m = r.output.vmc.blendshape_map@;
    match (m[0].1, m[1].1, m[2].1) {
        (VmcBlendshapeEntry::Name(a), VmcBlendshapeEntry::Name(b), VmcBlendshapeEntry::Name(d)) => {
            lemma_named_entry_ok(m[0].0@, a);
            lemma_named_entry_ok(m[1].0@, b);
            lemma_named_entry_ok(m[2].0@, d);
        },
        _ => {},
    }
    assert(blendshape_error(m, 0) is None);
    assert(blendshape_error(m, 1) is None);
    assert(blendshape_error(m, 2) is None);
    assert(blendshape_error(m, 3) is None);
}

/// The result a check gives for its first error.
pub open spec fn reports(r: Result<(), ProfileError>, e: Option<ProfileErrorView>) -> bool {
    match r {
        Ok(()) => e is None,
        Err(err) => e == Some(err.view()),
    }
}

proof fn lemma_source_timeout_error_stable(entries: Seq<(String, u64)>, m: int, n: int)
    requires
        0 <= m <= n,
        source_timeout_error(entries, m) is Some,
    ensures
        source_timeout_error(entries, n) == source_timeout_error(entries, m),
    decreases n - m,
{
    if n > m {
        lemma_source_timeout_error_stable(entries, m, n - 1);
    }
}

proof fn lemma_outputs_error_stable(outputs: Seq<OutputComponentConfig>, m: int, n: int)
    requires
        0 <= m <= n,
        outputs_error(outputs, m) is Some,
    ensures
        outputs_error(outputs, n) == outputs_error(outputs, m),
    decreases n - m,
{
    if n > m {
        lemma_outputs_error_stable(outputs, m, n - 1);
    }
}

proof fn lemma_blendshape_error_stable(entries: Seq<(String, VmcBlendshapeEntry)>, m: int, n: int)
    requires
        0 <= m <= n,
        blendshape_error(entries, m) is Some,
    ensures
        blendshape_error(entries, n) == blendshape_error(entries, m),
    decreases n - m,
{
    if n > m {
        lemma_blendshape_error_stable(entries, m, n - 1);
    }
}

fn is_blank(s: &String) -> (r: bool)
    ensures
        r == (trim(s@).len() == 0),
{
    let v = chars_of(s.as_str());
    let t = trim_chars(&v);
    t.len() == 0
}

/// Checks a component id for `field`: not blank, and made of ASCII letters,
/// digits, `.`, `-` and `_` only.
pub fn validate_component_id(field: &str, id: &str) -> (r: Result<(), ProfileError>)
    ensures
        reports(r, component_id_error(field@, id@)),
{
    let v = chars_of(id);
    let t = trim_chars(&v);
    if t.len() == 0 {
        return Err(ProfileError::EmptyComponentId { field: owned(field) });
    }
    let mut i: usize = 0;
    while i < v.len()
        invariant
            i <= v.len(),
            v@ == id@,
            trim(id@).len() != 0,
            forall|j: int| 0 <= j < i ==> is_id_char(v@[j]),
        decreases v.len() - i,
    {
        let c = v[i];
        let ok = ('a' <= c && c <= 'z') || ('A' <= c && c <= 'Z') || ('0' <= c && c <= '9') || c
            == '-' || c == '_' || c == '.';
        if !ok {
            assert(!is_id_char(id@[i as int]));
            return Err(ProfileError::InvalidComponentId { field: owned(field) });
        }
        i = i + 1;
    }
    Ok(())
}

/// Checks that an integer for `field` fits the TOML integer range.
pub fn validate_toml_integer_u64(field: &str, value: u64) -> (r: Result<(), ProfileError>)
    ensures
        reports(r, integer_error(field@, value)),
{
    if value > TOML_INTEGER_MAX {
        return Err(ProfileError::IntegerTooLarge { field: owned(field) });
    }
    Ok(())
}

fn validate_source_timeouts(entries: &Vec<(String, u64)>) -> (r: Result<(), ProfileError>)
    ensures
        reports(r, source_timeout_error(entries@, entries@.len() as int)),
{
    let mut i: usize = 0;
    while i < entries.len()
        invariant
            i <= entries.len(),
            source_timeout_error(entries@, i as int) is None,
        decreases entries.len() - i,
    {
        let mut field = owned("pipeline.source_stale_timeout_ns.");
        field.append(entries[i].0.as_str());
        let r = validate_toml_integer_u64(field.as_str(), entries[i].1);
        if r.is_err() {
            proof {
                lemma_source_timeout_error_stable(entries@, i as int + 1, entries@.len() as int);
            }
            return r;
        }
        i = i + 1;
    }
    Ok(())
}

fn validate_outputs(outputs: &Vec<OutputComponentConfig>) -> (r: Result<(), ProfileError>)
    ensures
        reports(r, outputs_error(outputs@, outputs@.len() as int)),
{
    let mut k: usize = 0;
    while k < outputs.len()
        invariant
            k <= outputs.len(),
            outputs_error(outputs@, k as int) is None,
        decreases outputs.len() - k,
    {
        let r = validate_component_id("components.outputs[].id", outputs[k].id.as_str());
        if r.is_err() {
            proof {
                lemma_outputs_error_stable(outputs@, k as int + 1, outputs@.len() as int);
            }
            return r;
        }
        let mut j: usize = 0;
        while j < k
            invariant
                j <= k < outputs.len(),
                outputs_error(outputs@, k as int) is None,
                component_id_error("components.outputs[].id"@, outputs@[k as int].id@) is None,
                forall|m: int| 0 <= m < j ==> outputs@[m].id@ != outputs@[k as int].id@,
            decreases k - j,
        {
            if outputs[j].id == outputs[k].id {
                proof {
                    assert(outputs@[j as int].id@ == outputs@[k as int].id@);
                    assert(output_error_at(outputs@, k as int) == Some(
                        ProfileErrorView::DuplicateOutputId(outputs@[k as int].id@),
                    ));
                    lemma_outputs_error_stable(outputs@, k as int + 1, outputs@.len() as int);
                }
                return Err(ProfileError::DuplicateOutputId { id: outputs[k].id.clone() });
            }
            j = j + 1;
        }
        k = k + 1;
    }
    Ok(())
}

fn validate_blendshape_entry(signal: &String, entry: &VmcBlendshapeEntry) -> (r: Result<
    (),
    ProfileError,
>)
    ensures
        reports(r, blendshape_entry_error(signal@, *entry)),
{
    if is_blank(signal) {
        return Err(ProfileError::EmptySignalName);
    }
    match entry {
        VmcBlendshapeEntry::Name(name) => {
            if is_blank(name) {
                return Err(ProfileError::EmptyBlendshapeName { signal: signal.clone() });
            }
            Ok(())
        },
        VmcBlendshapeEntry::Detailed(detail) => {
            if is_blank(&detail.name) {
                return Err(ProfileError::EmptyDetailedName { signal: signal.clone() });
            }
            match (detail.clamp_min, detail.clamp_max) {
                (Some(min), Some(max)) => {
                    if min.gt(max) {
                        return Err(
                            ProfileError::InvalidClampRange { signal: signal.clone(), min, max },
                        );
                    }
                    Ok(())
                },
                _ => Ok(()),
            }
        },
    }
}

fn validate_blendshapes(entries: &Vec<(String, VmcBlendshapeEntry)>) -> (r: Result<
    (),
    ProfileError,
>)
    ensures
        reports(r, blendshape_error(entries@, entries@.len() as int)),
{
    let mut i: usize = 0;
    while i < entries.len()
        invariant
            i <= entries.len(),
            blendshape_error(entries@, i as int) is None,
        decreases entries.len() - i,
    {
        let r = validate_blendshape_entry(&entries[i].0, &entries[i].1);
        if r.is_err() {
            proof {
                lemma_blendshape_error_stable(entries@, i as int + 1, entries@.len() as int);
            }
            return r;
        }
        i = i + 1;
    }
    Ok(())
}

/// Checks a profile against every rule, and reports the first it breaks.
pub fn validate_profile(profile: &RunnerProfile) -> (r: Result<(), ProfileError>)
    ensures
        reports(r, profile_error(*profile)),
{
    let c = &profile.components;
    let r = validate_component_id("components.input.id", c.input.id.as_str());
    if r.is_err() {
        return r;
    }
    let r = validate_component_id("components.input_buffer.id", c.input_buffer.id.as_str());
    if r.is_err() {
        return r;
    }
    let r = validate_component_id("components.engine.id", c.engine.id.as_str());
    if r.is_err() {
        return r;
    }
    let r = validate_component_id("components.post_process.id", c.post_process.id.as_str());
    if r.is_err() {
        return r;
    }
    let r = validate_component_id("components.output_buffer.id", c.output_buffer.id.as_str());
    if r.is_err() {
        return r;
    }
    if c.input_buffer.capacity == 0 {
        return Err(ProfileError::ZeroCapacity { field: owned("components.input_buffer.capacity") });
    }
    if c.output_buffer.capacity == 0 {
        return Err(
            ProfileError::ZeroCapacity { field: owned("components.output_buffer.capacity") },
        );
    }
    let r = validate_toml_integer_u64("pipeline.stale_timeout_ns", profile.pipeline.stale_timeout_ns);
    if r.is_err() {
        return r;
    }
    let r = validate_source_timeouts(&profile.pipeline.source_stale_timeout_ns);
    if r.is_err() {
        return r;
    }
    if c.outputs.len() == 0 {
        return Err(ProfileError::NoOutputs);
    }
    let r = validate_outputs(&c.outputs);
    if r.is_err() {
        return r;
    }
    validate_blendshapes(&profile.output.vmc.blendshape_map)
}

} // verus!
