//! The source text of a generated project. Each text is a fixed frame with
//! the configured values set into it; nothing else varies, so equal
//! configurations give equal texts.

use crate::config::{
    clap_model, standalone_model, vst3_model, ClapConfig, ClapModel, LibConfig, LibModel,
    StandaloneConfig, StandaloneModel, Vst3Config, Vst3Model,
};
use vstd::prelude::*;
use vstd::string::StringExecFns;

verus! {

pub const LIB_OPENING: &'static str = "use nih_plug::prelude::*;
use std::sync::Arc;

pub struct ";

pub const LIB_AFTER_TYPE: &'static str = " {
    params: Arc<PluginParams>,
}

#[derive(Params)]
struct PluginParams {
    #[id = \"gain\"]
    pub gain: FloatParam,
}

impl Default for PluginParams {
    fn default() -> Self {
        Self {
            gain: FloatParam::new(
                \"Gain\",
                util::db_to_gain(0.0),
                FloatRange::Skewed {
                    min: util::db_to_gain(-30.0),
                    max: util::db_to_gain(30.0),
                    factor: FloatRange::gain_skew_factor(-30.0, 30.0),
                },
            )
            .with_smoother(SmoothingStyle::Logarithmic(50.0))
            .with_unit(\" dB\")
            .with_value_to_string(formatters::v2s_f32_gain_to_db(2))
            .with_string_to_value(formatters::s2v_f32_gain_to_db()),
        }
    }
}

impl Default for ";

pub const LIB_AFTER_DEFAULT: &'static str = " {
    fn default() -> Self {
        Self {
            params: Arc::new(PluginParams::default()),
        }
    }
}

impl Plugin for ";

pub const LIB_BEFORE_NAME: &'static str = " {
    const NAME: &'static str = \"";

pub const LIB_BEFORE_VENDOR: &'static str = "\";
    const VENDOR: &'static str = \"";

pub const LIB_BEFORE_URL: &'static str = "\";
    const URL: &'static str = \"";

pub const LIB_BEFORE_EMAIL: &'static str = "\";
    const EMAIL: &'static str = \"";

pub const LIB_BEFORE_MIDI: &'static str = "\";
    const VERSION: &'static str = env!(\"CARGO_PKG_VERSION\");

    const AUDIO_IO_LAYOUTS: &'static [AudioIOLayout] = &[AudioIOLayout {
        main_input_channels: NonZeroU32::new(2),
        main_output_channels: NonZeroU32::new(2),
        ..AudioIOLayout::const_default()
    }];

    const MIDI_INPUT: MidiConfig = MidiConfig::";

pub const LIB_CLOSING: &'static str = ";
    const SAMPLE_ACCURATE_AUTOMATION: bool = true;

    type SysExMessage = ();
    type BackgroundTask = ();

    fn params(&self) -> Arc<dyn Params> {
        self.params.clone()
    }

    fn process(
        &mut self,
        buffer: &mut Buffer,
        _aux: &mut AuxiliaryBuffers,
        _context: &mut impl ProcessContext<Self>,
    ) -> ProcessStatus {
        for channel_samples in buffer.iter_samples() {
            let gain = self.params.gain.smoothed.next();
            for sample in channel_samples {
                *sample *= gain;
            }
        }
        ProcessStatus::Normal
    }
}
";

pub const CLAP_OPENING: &'static str = "
impl ClapPlugin for ";

pub const CLAP_BEFORE_ID: &'static str = " {
    const CLAP_ID: &'static str = \"";

pub const CLAP_BEFORE_DESCRIPTION: &'static str = "\";
    const CLAP_DESCRIPTION: Option<&'static str> = Some(\"";

pub const CLAP_BEFORE_FEATURES: &'static str = "\");
    const CLAP_MANUAL_URL: Option<&'static str> = Some(Self::URL);
    const CLAP_SUPPORT_URL: Option<&'static str> = None;
    const CLAP_FEATURES: &'static [ClapFeature] = &[";

pub const CLAP_BEFORE_EXPORT: &'static str = "];
}

nih_export_clap!(";

pub const CLAP_CLOSING: &'static str = ");
";

pub const VST3_OPENING: &'static str = "
impl Vst3Plugin for ";

pub const VST3_BEFORE_ID: &'static str = " {
    const VST3_CLASS_ID: [u8; 16] = *b\"";

pub const VST3_BEFORE_CATEGORIES: &'static str = "\";
    const VST3_SUBCATEGORIES: &'static [Vst3SubCategory] = &[";

pub const VST3_BEFORE_EXPORT: &'static str = "];
}

nih_export_vst3!(";

pub const VST3_CLOSING: &'static str = ");
";

pub const MAIN_OPENING: &'static str = "use nih_plug::prelude::*;

fn main() {
    nih_export_standalone::<";

pub const MAIN_BEFORE_TYPE: &'static str = "::";

pub const MAIN_CLOSING: &'static str = ">();
}
";

/// The plugin itself: its type, its parameters, and the constants that name
/// it, its vendor, its URL, its contact address and its MIDI tier.
pub open spec fn lib_text(lib: LibModel) -> Seq<char> {
    LIB_OPENING@ + lib.plugin_name + LIB_AFTER_TYPE@ + lib.plugin_name + LIB_AFTER_DEFAULT@
        + lib.plugin_name + LIB_BEFORE_NAME@ + lib.plugin_name + LIB_BEFORE_VENDOR@ + lib.vendor
        + LIB_BEFORE_URL@ + lib.url + LIB_BEFORE_EMAIL@ + lib.email + LIB_BEFORE_MIDI@
        + lib.midi_config.constant_text() + LIB_CLOSING@
}

/// The CLAP declaration of the plugin.
pub open spec fn clap_text(clap: ClapModel) -> Seq<char> {
    CLAP_OPENING@ + clap.plugin_name + CLAP_BEFORE_ID@ + clap.clap_id + CLAP_BEFORE_DESCRIPTION@
        + clap.clap_description + CLAP_BEFORE_FEATURES@ + clap.clap_features + CLAP_BEFORE_EXPORT@
        + clap.plugin_name + CLAP_CLOSING@
}

/// The VST3 declaration of the plugin.
pub open spec fn vst3_text(vst3: Vst3Model) -> Seq<char> {
    VST3_OPENING@ + vst3.plugin_name + VST3_BEFORE_ID@ + vst3.vst_id + VST3_BEFORE_CATEGORIES@
        + vst3.sub_categories + VST3_BEFORE_EXPORT@ + vst3.plugin_name + VST3_CLOSING@
}

/// The entry point of the standalone application.
pub open spec fn main_text(standalone: StandaloneModel) -> Seq<char> {
    MAIN_OPENING@ + standalone.project_name + MAIN_BEFORE_TYPE@ + standalone.plugin_name
        + MAIN_CLOSING@
}

impl LibConfig {
    /// The source of the plugin without any export declaration.
    pub fn render(&self) -> (text: String)
        ensures
            text@ == lib_text(self@),
    {
        let mut text = String::from_str(LIB_OPENING);
        text.append(self.plugin_name.as_str());
        text.append(LIB_AFTER_TYPE);
        text.append(self.plugin_name.as_str());
        text.append(LIB_AFTER_DEFAULT);
        text.append(self.plugin_name.as_str());
        text.append(LIB_BEFORE_NAME);
        text.append(self.plugin_name.as_str());
        text.append(LIB_BEFORE_VENDOR);
        text.append(self.vendor.as_str());
        text.append(LIB_BEFORE_URL);
        text.append(self.url.as_str());
        text.append(LIB_BEFORE_EMAIL);
        text.append(self.email.as_str());
        text.append(LIB_BEFORE_MIDI);
        text.append(self.midi_config.constant());
        text.append(LIB_CLOSING);
        text
    }
}

impl ClapConfig {
    /// The CLAP declaration of the plugin.
    pub fn render(&self) -> (text: String)
        ensures
            text@ == clap_text(self@),
    {
        let mut text = String::from_str(CLAP_OPENING);
        text.append(self.plugin_name.as_str());
        text.append(CLAP_BEFORE_ID);
        text.append(self.clap_id.as_str());
        text.append(CLAP_BEFORE_DESCRIPTION);
        text.append(self.clap_description.as_str());
        text.append(CLAP_BEFORE_FEATURES);
        text.append(self.clap_features.as_str());
        text.append(CLAP_BEFORE_EXPORT);
        text.append(self.plugin_name.as_str());
        text.append(CLAP_CLOSING);
        text
    }
}

impl Vst3Config {
    /// The VST3 declaration of the plugin.
    pub fn render(&self) -> (text: String)
        ensures
            text@ == vst3_text(self@),
    {
        let mut text = String::from_str(VST3_OPENING);
        text.append(self.plugin_name.as_str());
        text.append(VST3_BEFORE_ID);
        text.append(self.vst_id.as_str());
        text.append(VST3_BEFORE_CATEGORIES);
        text.append(self.sub_categories.as_str());
        text.append(VST3_BEFORE_EXPORT);
        text.append(self.plugin_name.as_str());
        text.append(VST3_CLOSING);
        text
    }
}

impl StandaloneConfig {
    /// The entry point of the standalone application.
    pub fn render(&self) -> (text: String)
        ensures
            text@ == main_text(self@),
    {
        let mut text = String::from_str(MAIN_OPENING);
        text.append(self.project_name.as_str());
        text.append(MAIN_BEFORE_TYPE);
        text.append(self.plugin_name.as_str());
        text.append(MAIN_CLOSING);
        text
    }
}

/// What an optional part adds to a text: its own text, or nothing.
pub open spec fn clap_part(clap: Option<ClapModel>) -> Seq<char> {
    match clap {
        Some(clap) => clap_text(clap),
        None => Seq::empty(),
    }
}

/// What an optional part adds to a text: its own text, or nothing.
pub open spec fn vst3_part(vst3: Option<Vst3Model>) -> Seq<char> {
    match vst3 {
        Some(vst3) => vst3_text(vst3),
        None => Seq::empty(),
    }
}

/// The whole library source: the plugin first, then the CLAP declaration if
/// there is one, then the VST3 declaration if there is one.
pub open spec fn library_source(
    lib: LibModel,
    clap: Option<ClapModel>,
    vst3: Option<Vst3Model>,
) -> Seq<char> {
    lib_text(lib) + clap_part(clap) + vst3_part(vst3)
}

/// Writes the library source of the project: the plugin, followed by the
/// declaration of each plugin format that was configured, CLAP before VST3.
pub fn write_to_lib(
    lib_config: &LibConfig,
    clap_config: &Option<ClapConfig>,
    vst_config: &Option<Vst3Config>,
) -> (source: String)
    ensures
        source@ == library_source(lib_config@, clap_model(*clap_config), vst3_model(*vst_config)),
{
    let mut source = lib_config.render();
    if let Some(clap) = clap_config {
        let part = clap.render();
        source.append(part.as_str());
    }
    if let Some(vst3) = vst_config {
        let part = vst3.render();
        source.append(part.as_str());
    }
    assert(source@ =~= library_source(
        lib_config@,
        clap_model(*clap_config),
        vst3_model(*vst_config),
    ));
    source
}

/// Writes the entry point of the standalone application, where one was asked
/// for, and nothing where none was.
pub fn write_to_main(standalone_config: &Option<StandaloneConfig>) -> (source: Option<String>)
    ensures
        match standalone_model(*standalone_config) {
            Some(standalone) => source is Some && source->Some_0@ == main_text(standalone),
            None => source is None,
        },
{
    match standalone_config {
        Some(standalone) => Some(standalone.render()),
        None => None,
    }
}

} // verus!
