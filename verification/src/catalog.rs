//! The pipeline components a profile can name, and the catalog that lists
//! them for the platform the process runs on.
use vstd::prelude::*;

use crate::text::owned;

verus! {

/// Whether the target this crate was compiled for is Windows: `\` is a path
/// separator there and nowhere else, as `std::path::is_separator` documents.
/// Nothing is stated of the result, which depends on the build target.
#[verifier::external_body]
pub(crate) fn target_is_windows() -> bool {
    std::path::is_separator('\\')
}

/// The kinds of frame input a pipeline can read.
#[derive(Clone, Copy, Debug, PartialEq, Eq, Structural)]
pub enum InputComponentKind {
    WebcamDirectShow,
    WebcamNokhwa,
    WebcamBrowser,
    FileImage,
    FileVideo,
}

/// All input kinds, in catalog order.
pub open spec fn input_kinds() -> Seq<InputComponentKind> {
    seq![
        InputComponentKind::WebcamDirectShow,
        InputComponentKind::WebcamNokhwa,
        InputComponentKind::WebcamBrowser,
        InputComponentKind::FileImage,
        InputComponentKind::FileVideo,
    ]
}

impl InputComponentKind {
    pub open spec fn spec_id(self) -> Seq<char> {
        match self {
            InputComponentKind::WebcamDirectShow => "webcam-directshow"@,
            InputComponentKind::WebcamNokhwa => "webcam-nokhwa"@,
            InputComponentKind::WebcamBrowser => "webcam-browser"@,
            InputComponentKind::FileImage => "file-image"@,
            InputComponentKind::FileVideo => "file-video"@,
        }
    }

    pub open spec fn spec_label(self) -> Seq<char> {
        match self {
            InputComponentKind::WebcamDirectShow => "Webcam DirectShow"@,
            InputComponentKind::WebcamNokhwa => "Webcam nokhwa"@,
            InputComponentKind::WebcamBrowser => "Webcam Browser"@,
            InputComponentKind::FileImage => "File Image"@,
            InputComponentKind::FileVideo => "File Video"@,
        }
    }

    /// Whether this input exists on a platform: DirectShow on Windows only,
    /// nokhwa everywhere else, the rest everywhere.
    pub open spec fn spec_available_on(self, windows: bool) -> bool {
        match self {
            InputComponentKind::WebcamDirectShow => windows,
            InputComponentKind::WebcamNokhwa => !windows,
            _ => true,
        }
    }

    pub open spec fn spec_is_realtime(self) -> bool {
        match self {
            InputComponentKind::WebcamDirectShow | InputComponentKind::WebcamNokhwa
            | InputComponentKind::WebcamBrowser => true,
            _ => false,
        }
    }

    pub open spec fn spec_prefers_deterministic_fifo(self) -> bool {
        self == InputComponentKind::FileVideo
    }

    /// All input kinds, in catalog order.
    pub fn all() -> (r: Vec<InputComponentKind>)
        ensures
            r@ == input_kinds(),
    {
        let r = vec![
            InputComponentKind::WebcamDirectShow,
            InputComponentKind::WebcamNokhwa,
            InputComponentKind::WebcamBrowser,
            InputComponentKind::FileImage,
            InputComponentKind::FileVideo,
        ];
        assert(r@ =~= input_kinds());
        r
    }

    pub fn id(&self) -> (r: &'static str)
        ensures
            r@ == self.spec_id(),
    {
        match self {
            InputComponentKind::WebcamDirectShow => "webcam-directshow",
            InputComponentKind::WebcamNokhwa => "webcam-nokhwa",
            InputComponentKind::WebcamBrowser => "webcam-browser",
            InputComponentKind::FileImage => "file-image",
            InputComponentKind::FileVideo => "file-video",
        }
    }

    pub fn label(&self) -> (r: &'static str)
        ensures
            r@ == self.spec_label(),
    {
        match self {
            InputComponentKind::WebcamDirectShow => "Webcam DirectShow",
            InputComponentKind::WebcamNokhwa => "Webcam nokhwa",
            InputComponentKind::WebcamBrowser => "Webcam Browser",
            InputComponentKind::FileImage => "File Image",
            InputComponentKind::FileVideo => "File Video",
        }
    }

    /// Whether this input exists on a Windows (`windows`) or other platform.
    pub fn available_on(&self, windows: bool) -> (r: bool)
        ensures
            r == self.spec_available_on(windows),
    {
        match self {
            InputComponentKind::WebcamDirectShow => windows,
            InputComponentKind::WebcamNokhwa => !windows,
            InputComponentKind::WebcamBrowser => true,
            InputComponentKind::FileImage | InputComponentKind::FileVideo => true,
        }
    }

    /// Whether this input exists on the platform the crate was built for.
    pub fn available_on_current_platform(&self) -> (r: bool)
        ensures
            r == self.spec_available_on(true) || r == self.spec_available_on(false),
    {
        self.available_on(target_is_windows())
    }

    pub fn is_realtime(&self) -> (r: bool)
        ensures
            r == self.spec_is_realtime(),
    {
        match self {
            InputComponentKind::WebcamDirectShow | InputComponentKind::WebcamNokhwa
            | InputComponentKind::WebcamBrowser => true,
            _ => false,
        }
    }

    pub fn prefers_deterministic_fifo(&self) -> (r: bool)
        ensures
            r == self.spec_prefers_deterministic_fifo(),
    {
        match self {
            InputComponentKind::FileVideo => true,
            _ => false,
        }
    }

    /// The default input of a platform: DirectShow on Windows, nokhwa elsewhere.
    pub open spec fn spec_default_for(windows: bool) -> InputComponentKind {
        if windows {
            InputComponentKind::WebcamDirectShow
        } else {
            InputComponentKind::WebcamNokhwa
        }
    }

    pub fn default_for(windows: bool) -> (r: InputComponentKind)
        ensures
            r == Self::spec_default_for(windows),
    {
        if windows {
            InputComponentKind::WebcamDirectShow
        } else {
            InputComponentKind::WebcamNokhwa
        }
    }
}

impl Default for InputComponentKind {
    fn default() -> (r: Self)
        ensures
            r == Self::spec_default_for(true) || r == Self::spec_default_for(false),
    {
        Self::default_for(target_is_windows())
    }
}

/// The inference engines.
#[derive(Clone, Copy, Debug, PartialEq, Eq, Structural)]
pub enum EngineComponentKind {
    MediaPipeNative,
}

impl EngineComponentKind {
    pub open spec fn spec_id(self) -> Seq<char> {
        "media-pipe-native"@
    }

    pub open spec fn spec_label(self) -> Seq<char> {
        "MediaPipe Native"@
    }

    pub fn all() -> (r: Vec<EngineComponentKind>)
        ensures
            r@ == seq![EngineComponentKind::MediaPipeNative],
    {
        let r = vec![EngineComponentKind::MediaPipeNative];
        assert(r@ =~= seq![EngineComponentKind::MediaPipeNative]);
        r
    }

    pub fn id(&self) -> (r: &'static str)
        ensures
            r@ == self.spec_id(),
    {
        match self {
            EngineComponentKind::MediaPipeNative => "media-pipe-native",
        }
    }

    pub fn label(&self) -> (r: &'static str)
        ensures
            r@ == self.spec_label(),
    {
        match self {
            EngineComponentKind::MediaPipeNative => "MediaPipe Native",
        }
    }
}

impl Default for EngineComponentKind {
    fn default() -> (r: Self)
        ensures
            r == EngineComponentKind::MediaPipeNative,
    {
        EngineComponentKind::MediaPipeNative
    }
}

/// The post-processors that turn engine output into motion frames.
#[derive(Clone, Copy, Debug, PartialEq, Eq, Structural)]
pub enum PostProcessComponentKind {
    MediaPipeStable,
    MediaPipeExperimental1,
    MediaPipeExperimental2,
    Passthrough,
}

impl PostProcessComponentKind {
    pub open spec fn spec_id(self) -> Seq<char> {
        match self {
            PostProcessComponentKind::MediaPipeStable => "media-pipe-default"@,
            PostProcessComponentKind::MediaPipeExperimental1 => "media-pipe-experimental1"@,
            PostProcessComponentKind::MediaPipeExperimental2 => "media-pipe-experimental2"@,
            PostProcessComponentKind::Passthrough => "none"@,
        }
    }

    pub open spec fn spec_label(self) -> Seq<char> {
        match self {
            PostProcessComponentKind::MediaPipeStable => "MediaPipe to UNMotion/VMC"@,
            PostProcessComponentKind::MediaPipeExperimental1 => "MediaPipe Experimental 1"@,
            PostProcessComponentKind::MediaPipeExperimental2 => "MediaPipe Experimental 2"@,
            PostProcessComponentKind::Passthrough => "Raw / no conversion"@,
        }
    }

    /// The post-processors offered in the catalog: the stable one and none.
    pub fn all() -> (r: Vec<PostProcessComponentKind>)
        ensures
            r@ == seq![PostProcessComponentKind::MediaPipeStable, PostProcessComponentKind::Passthrough],
    {
        let r = vec![PostProcessComponentKind::MediaPipeStable, PostProcessComponentKind::Passthrough];
        assert(r@ =~= seq![PostProcessComponentKind::MediaPipeStable, PostProcessComponentKind::Passthrough]);
        r
    }

    pub fn id(&self) -> (r: &'static str)
        ensures
            r@ == self.spec_id(),
    {
        match self {
            PostProcessComponentKind::MediaPipeStable => "media-pipe-default",
            PostProcessComponentKind::MediaPipeExperimental1 => "media-pipe-experimental1",
            PostProcessComponentKind::MediaPipeExperimental2 => "media-pipe-experimental2",
            PostProcessComponentKind::Passthrough => "none",
        }
    }

    pub fn label(&self) -> (r: &'static str)
        ensures
            r@ == self.spec_label(),
    {
        match self {
            PostProcessComponentKind::MediaPipeStable => "MediaPipe to UNMotion/VMC",
            PostProcessComponentKind::MediaPipeExperimental1 => "MediaPipe Experimental 1",
            PostProcessComponentKind::MediaPipeExperimental2 => "MediaPipe Experimental 2",
            PostProcessComponentKind::Passthrough => "Raw / no conversion",
        }
    }
}

impl Default for PostProcessComponentKind {
    fn default() -> (r: Self)
        ensures
            r == PostProcessComponentKind::MediaPipeStable,
    {
        PostProcessComponentKind::MediaPipeStable
    }
}

/// The output sinks.
#[derive(Clone, Copy, Debug, PartialEq, Eq, Structural)]
pub enum OutputComponentKind {
    Vmc,
    Zenoh,
    VrcOsc,
    Debug,
    Record,
}

/// All output kinds, in catalog order.
pub open spec fn output_kinds() -> Seq<OutputComponentKind> {
    seq![
        OutputComponentKind::Vmc,
        OutputComponentKind::Zenoh,
        OutputComponentKind::VrcOsc,
        OutputComponentKind::Debug,
        OutputComponentKind::Record,
    ]
}

impl OutputComponentKind {
    pub open spec fn spec_id(self) -> Seq<char> {
        match self {
            OutputComponentKind::Vmc => "vmc"@,
            OutputComponentKind::Zenoh => "zenoh"@,
            OutputComponentKind::VrcOsc => "vrc-osc"@,
            OutputComponentKind::Debug => "debug"@,
            OutputComponentKind::Record => "record"@,
        }
    }

    pub open spec fn spec_label(self) -> Seq<char> {
        match self {
            OutputComponentKind::Vmc => "VMC"@,
            OutputComponentKind::Zenoh => "Zenoh"@,
            OutputComponentKind::VrcOsc => "VRC (VRCFT) / OSC"@,
            OutputComponentKind::Debug => "Debug"@,
            OutputComponentKind::Record => "Record"@,
        }
    }

    pub fn all() -> (r: Vec<OutputComponentKind>)
        ensures
            r@ == output_kinds(),
    {
        let r = vec![
            OutputComponentKind::Vmc,
            OutputComponentKind::Zenoh,
            OutputComponentKind::VrcOsc,
            OutputComponentKind::Debug,
            OutputComponentKind::Record,
        ];
        assert(r@ =~= output_kinds());
        r
    }

    pub fn id(&self) -> (r: &'static str)
        ensures
            r@ == self.spec_id(),
    {
        match self {
            OutputComponentKind::Vmc => "vmc",
            OutputComponentKind::Zenoh => "zenoh",
            OutputComponentKind::VrcOsc => "vrc-osc",
            OutputComponentKind::Debug => "debug",
            OutputComponentKind::Record => "record",
        }
    }

    pub fn label(&self) -> (r: &'static str)
        ensures
            r@ == self.spec_label(),
    {
        match self {
            OutputComponentKind::Vmc => "VMC",
            OutputComponentKind::Zenoh => "Zenoh",
            OutputComponentKind::VrcOsc => "VRC (VRCFT) / OSC",
            OutputComponentKind::Debug => "Debug",
            OutputComponentKind::Record => "Record",
        }
    }
}

impl Default for OutputComponentKind {
    fn default() -> (r: Self)
        ensures
            r == OutputComponentKind::Vmc,
    {
        OutputComponentKind::Vmc
    }
}

/// One selectable component: its id, its label and whether it can be used here.
#[derive(Clone, Debug, PartialEq, Eq)]
pub struct ComponentOption {
    pub id: String,
    pub label: String,
    pub available: bool,
}

/// An option as plain values: id, label, availability.
pub open spec fn option_view(o: ComponentOption) -> (Seq<char>, Seq<char>, bool) {
    (o.id@, o.label@, o.available)
}

/// The options a catalog lists for the input kinds on a platform.
pub open spec fn input_options(windows: bool) -> Seq<(Seq<char>, Seq<char>, bool)> {
    input_kinds().map_values(
        |k: InputComponentKind| (k.spec_id(), k.spec_label(), k.spec_available_on(windows)),
    )
}

/// The options a catalog lists for the output kinds.
pub open spec fn output_options() -> Seq<(Seq<char>, Seq<char>, bool)> {
    output_kinds().map_values(|k: OutputComponentKind| (k.spec_id(), k.spec_label(), true))
}

/// The components a user can pick from, grouped by pipeline stage.
#[derive(Clone, Debug, PartialEq, Eq)]
pub struct PipelineComponentCatalog {
    pub inputs: Vec<ComponentOption>,
    pub engines: Vec<ComponentOption>,
    pub post_processes: Vec<ComponentOption>,
    pub outputs: Vec<ComponentOption>,
}

impl PipelineComponentCatalog {
    /// Whether this catalog lists every component, with availability as on a
    /// Windows (`windows`) or other platform.
    pub open spec fn lists_for(self, windows: bool) -> bool {
        &&& self.inputs@.map_values(|o: ComponentOption| option_view(o)) == input_options(windows)
        &&& self.engines@.map_values(|o: ComponentOption| option_view(o)) == seq![
            ("media-pipe-native"@, "MediaPipe Native"@, true),
        ]
        &&& self.post_processes@.map_values(|o: ComponentOption| option_view(o)) == seq![
            ("media-pipe-default"@, "MediaPipe to UNMotion/VMC"@, true),
            ("none"@, "Raw / no conversion"@, true),
        ]
        &&& self.outputs@.map_values(|o: ComponentOption| option_view(o)) == output_options()
    }

    /// The catalog as a platform sees it.
    pub fn for_platform(windows: bool) -> (r: Self)
        ensures
            r.lists_for(windows),
    {
        let kinds = InputComponentKind::all();
        let mut inputs: Vec<ComponentOption> = Vec::new();
        let mut i: usize = 0;
        while i < kinds.len()
            invariant
                i <= kinds.len(),
                kinds@ == input_kinds(),
                inputs@.map_values(|o: ComponentOption| option_view(o)) == input_options(
                    windows,
                ).take(i as int),
            decreases kinds.len() - i,
        {
            let kind = kinds[i];
            let opt = ComponentOption {
                id: owned(kind.id()),
                label: owned(kind.label()),
                available: kind.available_on(windows),
            };
            let ghost before = inputs@;
            inputs.push(opt);
            assert(inputs@ == before.push(opt));
            assert(inputs@.map_values(|o: ComponentOption| option_view(o)) =~= before.map_values(
                |o: ComponentOption| option_view(o),
            ).push(option_view(opt)));
            assert(input_options(windows)[i as int] == option_view(opt));
            assert(inputs@.map_values(|o: ComponentOption| option_view(o)) =~= input_options(
                windows,
            ).take(i as int + 1));
            i = i + 1;
        }
        assert(input_options(windows).take(5) =~= input_options(windows));
        let mut engines: Vec<ComponentOption> = Vec::new();
        let engine = EngineComponentKind::MediaPipeNative;
        engines.push(
            ComponentOption { id: owned(engine.id()), label: owned(engine.label()), available: true },
        );
        let mut post_processes: Vec<ComponentOption> = Vec::new();
        let stable = PostProcessComponentKind::MediaPipeStable;
        let none = PostProcessComponentKind::Passthrough;
        post_processes.push(
            ComponentOption { id: owned(stable.id()), label: owned(stable.label()), available: true },
        );
        post_processes.push(
            ComponentOption { id: owned(none.id()), label: owned(none.label()), available: true },
        );
        let out_kinds = OutputComponentKind::all();
        let mut outputs: Vec<ComponentOption> = Vec::new();
        let mut j: usize = 0;
        while j < out_kinds.len()
            invariant
                j <= out_kinds.len(),
                out_kinds@ == output_kinds(),
                outputs@.map_values(|o: ComponentOption| option_view(o)) == output_options().take(
                    j as int,
                ),
            decreases out_kinds.len() - j,
        {
            let kind = out_kinds[j];
            let opt = ComponentOption { id: owned(kind.id()), label: owned(kind.label()), available: true };
            let ghost before = outputs@;
            outputs.push(opt);
            assert(outputs@.map_values(|o: ComponentOption| option_view(o)) =~= before.map_values(
                |o: ComponentOption| option_view(o),
            ).push(option_view(opt)));
            assert(output_options()[j as int] == option_view(opt));
            assert(outputs@.map_values(|o: ComponentOption| option_view(o)) =~= output_options().take(
                j as int + 1,
            ));
            j = j + 1;
        }
        assert(output_options().take(5) =~= output_options());
        let r = PipelineComponentCatalog { inputs, engines, post_processes, outputs };
        assert(r.engines@.map_values(|o: ComponentOption| option_view(o)) =~= seq![
            ("media-pipe-native"@, "MediaPipe Native"@, true),
        ]);
        assert(r.post_processes@.map_values(|o: ComponentOption| option_view(o)) =~= seq![
            ("media-pipe-default"@, "MediaPipe to UNMotion/VMC"@, true),
            ("none"@, "Raw / no conversion"@, true),
        ]);
        r
    }

    /// The catalog for the platform the crate was built for.
    pub fn current_platform() -> (r: Self)
        ensures
            r.lists_for(true) || r.lists_for(false),
    {
        Self::for_platform(target_is_windows())
    }
}

} // verus!
