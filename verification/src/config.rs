//! The configuration of a new plugin project: who made it, which MIDI events
//! it receives, and the settings of each export format.

use crate::categories::{build_category_list, category_list};
use crate::options::{
    all_offered, clap_main_features, clap_other_features, clap_primary, clap_secondary, pick,
    picked, vst3_main_categories, vst3_other_categories, vst3_primary, vst3_secondary,
};
use vstd::prelude::*;
use vstd::string::StringExecFns;

verus! {

pub const DEFAULT_NAME: &'static str = "Gain";

pub const DEFAULT_VENDOR: &'static str = "NIH-Plug";

pub const DEFAULT_URL: &'static str = "https://github.com/robbert-vdh/nih-plug";

pub const DEFAULT_EMAIL: &'static str = "info@example.com";

pub const DEFAULT_VST_ID: &'static str = "Exactly16Chars!!";

pub const DEFAULT_SUB_CATEGORY: &'static str = "Vst3SubCategory::Fx";

pub const DEFAULT_CLAP_ID: &'static str = "com.moist-plugins-gmbh.gain";

pub const DEFAULT_CLAP_DESCRIPTION: &'static str = "A smoothed gain parameter example plugin";

/// The namespace of VST3 subcategories.
pub const VST3_NAMESPACE: &'static str = "Vst3SubCategory";

/// The namespace of CLAP features.
pub const CLAP_NAMESPACE: &'static str = "ClapFeature";

/// The number of bytes in a VST3 class identifier.
pub const VST_ID_LENGTH: usize = 16;

/// What the user is told when a VST3 identifier has the wrong length.
pub const VST_ID_MESSAGE: &'static str = "VST3 ID must be exactly 16 characters.";

/// The number of bytes that a text takes in UTF-8.
pub open spec fn byte_length(text: Seq<char>) -> nat {
    vstd::utf8::encode_utf8(text).len()
}

/// The text itself, or the fallback where the text is empty.
pub open spec fn or_default(text: Seq<char>, fallback: Seq<char>) -> Seq<char> {
    if text.len() == 0 {
        fallback
    } else {
        text
    }
}

/// Why a configuration could not be collected.
#[derive(Clone, Copy, Debug, PartialEq, Eq, Structural)]
pub enum CollectError {
    /// A prompt was cancelled or could not be read.
    UserInput,
    /// The VST3 identifier does not have exactly sixteen bytes.
    Validation,
    /// No export format was chosen.
    Selection,
    /// The project name is empty.
    MissingName,
    /// A category was chosen that was not offered.
    NotOffered,
    /// The reply does not answer the question that was asked.
    Unexpected,
}

/// What the user is told when a prompt was cancelled.
pub const USER_INPUT_MESSAGE: &'static str = "The question was cancelled.";

/// What the user is told when no export format was chosen.
pub const SELECTION_MESSAGE: &'static str = "At least one export type must be selected.";

/// What the user is told when the project has no name.
pub const MISSING_NAME_MESSAGE: &'static str = "The project needs a name.";

/// What the user is told when a category was chosen that was not offered.
pub const NOT_OFFERED_MESSAGE: &'static str = "This category is not among the choices.";

/// What the user is told when a reply does not fit the question.
pub const UNEXPECTED_MESSAGE: &'static str = "This is not what was asked for.";

impl CollectError {
    /// What the user is told of the error.
    pub open spec fn message_text(self) -> Seq<char> {
        match self {
            CollectError::UserInput => USER_INPUT_MESSAGE@,
            CollectError::Validation => VST_ID_MESSAGE@,
            CollectError::Selection => SELECTION_MESSAGE@,
            CollectError::MissingName => MISSING_NAME_MESSAGE@,
            CollectError::NotOffered => NOT_OFFERED_MESSAGE@,
            CollectError::Unexpected => UNEXPECTED_MESSAGE@,
        }
    }

    /// What the user is told of the error.
    pub fn message(&self) -> (message: &'static str)
        ensures
            message@ == self.message_text(),
    {
        match self {
            CollectError::UserInput => USER_INPUT_MESSAGE,
            CollectError::Validation => VST_ID_MESSAGE,
            CollectError::Selection => SELECTION_MESSAGE,
            CollectError::MissingName => MISSING_NAME_MESSAGE,
            CollectError::NotOffered => NOT_OFFERED_MESSAGE,
            CollectError::Unexpected => UNEXPECTED_MESSAGE,
        }
    }
}

/// Which MIDI events the generated plugin receives.
#[derive(Clone, Copy, Debug, PartialEq, Eq, Structural)]
pub enum MidiConfig {
    /// No MIDI events at all.
    Silent,
    /// Note on, off and choke events, pressure, and standard expressions.
    Basic,
    /// Everything, control changes and pitch bend included.
    Full,
}

impl MidiConfig {
    /// The name of the framework's constant for this tier.
    pub open spec fn constant_text(self) -> Seq<char> {
        match self {
            MidiConfig::Silent => "None"@,
            MidiConfig::Basic => "Basic"@,
            MidiConfig::Full => "MidiCCs"@,
        }
    }

    /// The name of the framework's constant for this tier, as it is written
    /// into the generated source.
    pub fn constant(&self) -> (name: &'static str)
        ensures
            name@ == self.constant_text(),
    {
        match self {
            MidiConfig::Silent => "None",
            MidiConfig::Basic => "Basic",
            MidiConfig::Full => "MidiCCs",
        }
    }
}

/// An export format of the plugin.
#[derive(Clone, Copy, Debug, PartialEq, Eq, Structural)]
pub enum ExportType {
    Vst3,
    Clap,
    Standalone,
}

/// The identity of the plugin and its MIDI tier, as a mathematical record.
pub struct LibModel {
    pub plugin_name: Seq<char>,
    pub vendor: Seq<char>,
    pub url: Seq<char>,
    pub email: Seq<char>,
    pub midi_config: MidiConfig,
}

/// The identity of the plugin and its MIDI tier.
#[derive(Clone, Debug)]
pub struct LibConfig {
    pub plugin_name: String,
    pub vendor: String,
    pub url: String,
    pub email: String,
    pub midi_config: MidiConfig,
}

impl View for LibConfig {
    type V = LibModel;

    open spec fn view(&self) -> LibModel {
        LibModel {
            plugin_name: self.plugin_name@,
            vendor: self.vendor@,
            url: self.url@,
            email: self.email@,
            midi_config: self.midi_config,
        }
    }
}

/// The identity that a project has when nobody was asked.
pub open spec fn default_lib() -> LibModel {
    LibModel {
        plugin_name: DEFAULT_NAME@,
        vendor: DEFAULT_VENDOR@,
        url: DEFAULT_URL@,
        email: DEFAULT_EMAIL@,
        midi_config: MidiConfig::Silent,
    }
}

impl Default for LibConfig {
    fn default() -> (config: LibConfig)
        ensures
            config@ == default_lib(),
    {
        LibConfig {
            plugin_name: String::from_str(DEFAULT_NAME),
            vendor: String::from_str(DEFAULT_VENDOR),
            url: String::from_str(DEFAULT_URL),
            email: String::from_str(DEFAULT_EMAIL),
            midi_config: MidiConfig::Silent,
        }
    }
}

/// The settings of the VST3 export, as a mathematical record.
pub struct Vst3Model {
    pub plugin_name: Seq<char>,
    pub vst_id: Seq<char>,
    pub sub_categories: Seq<char>,
}

/// The settings of the VST3 export.
#[derive(Clone, Debug)]
pub struct Vst3Config {
    pub plugin_name: String,
    /// The class identifier: exactly sixteen bytes.
    pub vst_id: String,
    /// The subcategories, primary first, as a category list.
    pub sub_categories: String,
}

impl View for Vst3Config {
    type V = Vst3Model;

    open spec fn view(&self) -> Vst3Model {
        Vst3Model {
            plugin_name: self.plugin_name@,
            vst_id: self.vst_id@,
            sub_categories: self.sub_categories@,
        }
    }
}

impl Vst3Model {
    /// The identifier has exactly sixteen bytes.
    pub open spec fn wf(self) -> bool {
        byte_length(self.vst_id) == VST_ID_LENGTH
    }
}

/// The VST3 settings that a project has when nobody was asked.
pub open spec fn default_vst3() -> Vst3Model {
    Vst3Model {
        plugin_name: DEFAULT_NAME@,
        vst_id: DEFAULT_VST_ID@,
        sub_categories: DEFAULT_SUB_CATEGORY@,
    }
}

/// The placeholder identifier has the length that every identifier must have.
pub proof fn lemma_default_vst3_wf()
    ensures
        default_vst3().wf(),
{
    reveal_strlit("Exactly16Chars!!");
    let id = DEFAULT_VST_ID@;
    assert(vstd::utf8::is_ascii_chars(id)) by {
        assert forall|i: int| 0 <= i < id.len() implies '\0' <= #[trigger] id[i] <= '\x7f' by {}
    }
    vstd::utf8::is_ascii_chars_encode_utf8(id);
}

impl Default for Vst3Config {
    fn default() -> (config: Vst3Config)
        ensures
            config@ == default_vst3(),
            config@.wf(),
    {
        proof {
            lemma_default_vst3_wf();
        }
        Vst3Config {
            plugin_name: String::from_str(DEFAULT_NAME),
            vst_id: String::from_str(DEFAULT_VST_ID),
            sub_categories: String::from_str(DEFAULT_SUB_CATEGORY),
        }
    }
}

/// The settings of the CLAP export, as a mathematical record.
pub struct ClapModel {
    pub plugin_name: Seq<char>,
    pub clap_id: Seq<char>,
    pub clap_description: Seq<char>,
    pub clap_features: Seq<char>,
}

/// The settings of the CLAP export.
#[derive(Clone, Debug)]
pub struct ClapConfig {
    pub plugin_name: String,
    pub clap_id: String,
    pub clap_description: String,
    /// The features, primary first, as a category list.
    pub clap_features: String,
}

impl View for ClapConfig {
    type V = ClapModel;

    open spec fn view(&self) -> ClapModel {
        ClapModel {
            plugin_name: self.plugin_name@,
            clap_id: self.clap_id@,
            clap_description: self.clap_description@,
            clap_features: self.clap_features@,
        }
    }
}

/// The settings of the standalone export, as a mathematical record.
pub struct StandaloneModel {
    pub plugin_name: Seq<char>,
    pub project_name: Seq<char>,
}

/// The settings of the standalone export. Both names are those of the project:
/// nothing here is asked for separately.
#[derive(Clone, Debug)]
pub struct StandaloneConfig {
    pub plugin_name: String,
    pub project_name: String,
}

impl View for StandaloneConfig {
    type V = StandaloneModel;

    open spec fn view(&self) -> StandaloneModel {
        StandaloneModel { plugin_name: self.plugin_name@, project_name: self.project_name@ }
    }
}

/// Accepts a VST3 identifier of exactly sixteen bytes and rejects every other.
pub fn validate_vst_id(vst_id: &str) -> (checked: Result<(), CollectError>)
    ensures
        checked is Ok <==> byte_length(vst_id@) == VST_ID_LENGTH,
        checked is Err ==> checked == Err::<(), CollectError>(CollectError::Validation),
{
    if vst_id.as_bytes().len() != VST_ID_LENGTH {
        Err(CollectError::Validation)
    } else {
        Ok(())
    }
}

/// The answer, or the fallback where the answer is empty.
fn answer_or(answer: String, fallback: &str) -> (text: String)
    ensures
        text@ == or_default(answer@, fallback@),
{
    if answer.as_str().is_empty() {
        String::from_str(fallback)
    } else {
        answer
    }
}

/// The identity that the answers describe: an empty answer stands for the
/// default of its field.
pub open spec fn lib_of_answers(
    plugin_name: Seq<char>,
    vendor: Seq<char>,
    url: Seq<char>,
    email: Seq<char>,
    midi_config: MidiConfig,
) -> LibModel {
    LibModel {
        plugin_name: or_default(plugin_name, DEFAULT_NAME@),
        vendor: or_default(vendor, DEFAULT_VENDOR@),
        url: or_default(url, DEFAULT_URL@),
        email: or_default(email, DEFAULT_EMAIL@),
        midi_config,
    }
}

/// Builds the plugin's identity from the answers that were given.
pub fn configure_lib(
    plugin_name: String,
    vendor: String,
    url: String,
    email: String,
    midi_config: MidiConfig,
) -> (config: LibConfig)
    ensures
        config@ == lib_of_answers(plugin_name@, vendor@, url@, email@, midi_config),
{
    LibConfig {
        plugin_name: answer_or(plugin_name, DEFAULT_NAME),
        vendor: answer_or(vendor, DEFAULT_VENDOR),
        url: answer_or(url, DEFAULT_URL),
        email: answer_or(email, DEFAULT_EMAIL),
        midi_config,
    }
}

/// The export formats that were chosen.
#[derive(Clone, Copy, Debug, PartialEq, Eq, Structural)]
pub struct ExportSelection {
    pub vst3: bool,
    pub clap: bool,
    pub standalone: bool,
}

impl ExportSelection {
    /// Whether the format is among the chosen ones.
    pub open spec fn has(self, export: ExportType) -> bool {
        match export {
            ExportType::Vst3 => self.vst3,
            ExportType::Clap => self.clap,
            ExportType::Standalone => self.standalone,
        }
    }

    /// The chosen formats as a set.
    pub open spec fn as_set(self) -> Set<ExportType> {
        Set::new(|export: ExportType| self.has(export))
    }

    /// The selection that holds exactly the formats of the list.
    pub open spec fn of(chosen: Seq<ExportType>) -> ExportSelection {
        ExportSelection {
            vst3: chosen.contains(ExportType::Vst3),
            clap: chosen.contains(ExportType::Clap),
            standalone: chosen.contains(ExportType::Standalone),
        }
    }

    /// The selection of a project for which nobody was asked: VST3 alone.
    pub fn vst3_only() -> (selection: ExportSelection)
        ensures
            selection == (ExportSelection { vst3: true, clap: false, standalone: false }),
    {
        ExportSelection { vst3: true, clap: false, standalone: false }
    }

    /// Whether the format is among the chosen ones.
    pub fn contains(&self, export: ExportType) -> (found: bool)
        ensures
            found == self.has(export),
    {
        match export {
            ExportType::Vst3 => self.vst3,
            ExportType::Clap => self.clap,
            ExportType::Standalone => self.standalone,
        }
    }
}

/// Turns the formats that were ticked into a selection. At least one format
/// must have been ticked; a format ticked twice counts once.
pub fn collect_export_types(chosen: &Vec<ExportType>) -> (selection: Result<
    ExportSelection,
    CollectError,
>)
    ensures
        chosen@.len() == 0 ==> selection == Err::<ExportSelection, CollectError>(
            CollectError::Selection,
        ),
        chosen@.len() > 0 ==> selection == Ok::<ExportSelection, CollectError>(
            ExportSelection::of(chosen@),
        ),
{
    if chosen.len() == 0 {
        return Err(CollectError::Selection);
    }
    let mut selection = ExportSelection { vst3: false, clap: false, standalone: false };
    let mut i: usize = 0;
    while i < chosen.len()
        invariant
            i <= chosen.len(),
            selection == ExportSelection::of(chosen@.take(i as int)),
        decreases chosen.len() - i,
    {
        proof {
            let before = chosen@.take(i as int);
            let after = chosen@.take(i + 1);
            assert(after =~= before.push(chosen@[i as int]));
            assert forall|export: ExportType|
                after.contains(export) <==> (before.contains(export) || export
                    == chosen@[i as int]) by {
                if before.contains(export) {
                    let j = choose|j: int| 0 <= j < before.len() && before[j] == export;
                    assert(after[j] == export);
                }
                if export == chosen@[i as int] {
                    assert(after[i as int] == export);
                }
            }
        }
        match chosen[i] {
            ExportType::Vst3 => {
                selection.vst3 = true;
            },
            ExportType::Clap => {
                selection.clap = true;
            },
            ExportType::Standalone => {
                selection.standalone = true;
            },
        }
        i = i + 1;
    }
    assert(chosen@.take(chosen.len() as int) =~= chosen@);
    Ok(selection)
}

/// Whether the primary subcategory and every other one were offered for VST3.
pub open spec fn vst3_offered(primary: usize, secondary: Seq<usize>) -> bool {
    primary < vst3_primary().len() && all_offered(vst3_secondary(), secondary)
}

/// The VST3 settings that the answers describe: the identifier as it was
/// entered, and the chosen subcategories as a category list, primary first.
pub open spec fn vst3_of_answers(
    plugin_name: Seq<char>,
    vst_id: Seq<char>,
    primary: usize,
    secondary: Seq<usize>,
) -> Vst3Model {
    Vst3Model {
        plugin_name,
        vst_id,
        sub_categories: category_list(
            VST3_NAMESPACE@,
            vst3_primary()[primary as int],
            picked(vst3_secondary(), secondary),
        ),
    }
}

/// Builds the VST3 settings from the answers that were given. The identifier
/// is kept as it was entered, and refused unless it has exactly sixteen
/// bytes. The subcategories are chosen by their places among those offered:
/// one primary, and any number of others in the order in which they were
/// chosen.
pub fn configure_vst_export(
    plugin_name: &str,
    vst_id: String,
    primary: usize,
    secondary: &Vec<usize>,
) -> (config: Result<Vst3Config, CollectError>)
    ensures
        byte_length(vst_id@) != VST_ID_LENGTH ==> config == Err::<Vst3Config, CollectError>(
            CollectError::Validation,
        ),
        byte_length(vst_id@) == VST_ID_LENGTH && !vst3_offered(primary, secondary@) ==> config
            == Err::<Vst3Config, CollectError>(CollectError::NotOffered),
        byte_length(vst_id@) == VST_ID_LENGTH && vst3_offered(primary, secondary@) ==> config
            is Ok && config->Ok_0@ == vst3_of_answers(plugin_name@, vst_id@, primary, secondary@)
            && config->Ok_0@.wf(),
{
    match validate_vst_id(vst_id.as_str()) {
        Err(error) => {
            return Err(error);
        },
        Ok(()) => {},
    }
    let offered = vst3_main_categories();
    if primary >= offered.len() {
        return Err(CollectError::NotOffered);
    }
    match pick(&vst3_other_categories(), secondary) {
        None => Err(CollectError::NotOffered),
        Some(others) => Ok(
            Vst3Config {
                plugin_name: String::from_str(plugin_name),
                vst_id,
                sub_categories: build_category_list(offered[primary], &others, VST3_NAMESPACE),
            },
        ),
    }
}

/// Whether the primary feature and every other one were offered for CLAP.
pub open spec fn clap_offered(primary: usize, secondary: Seq<usize>) -> bool {
    primary < clap_primary().len() && all_offered(clap_secondary(), secondary)
}

/// The CLAP settings that the answers describe: an empty identifier or
/// description stands for its default, and the chosen features make a
/// category list, primary first.
pub open spec fn clap_of_answers(
    plugin_name: Seq<char>,
    clap_id: Seq<char>,
    clap_description: Seq<char>,
    primary: usize,
    secondary: Seq<usize>,
) -> ClapModel {
    ClapModel {
        plugin_name,
        clap_id: or_default(clap_id, DEFAULT_CLAP_ID@),
        clap_description: or_default(clap_description, DEFAULT_CLAP_DESCRIPTION@),
        clap_features: category_list(
            CLAP_NAMESPACE@,
            clap_primary()[primary as int],
            picked(clap_secondary(), secondary),
        ),
    }
}

/// Builds the CLAP settings from the answers that were given. The features
/// are chosen by their places among those offered: one primary, and any
/// number of others in the order in which they were chosen.
pub fn configure_clap_export(
    plugin_name: &str,
    clap_id: String,
    clap_description: String,
    primary: usize,
    secondary: &Vec<usize>,
) -> (config: Result<ClapConfig, CollectError>)
    ensures
        !clap_offered(primary, secondary@) ==> config == Err::<ClapConfig, CollectError>(
            CollectError::NotOffered,
        ),
        clap_offered(primary, secondary@) ==> config is Ok && config->Ok_0@ == clap_of_answers(
            plugin_name@,
            clap_id@,
            clap_description@,
            primary,
            secondary@,
        ),
{
    let offered = clap_main_features();
    if primary >= offered.len() {
        return Err(CollectError::NotOffered);
    }
    match pick(&clap_other_features(), secondary) {
        None => Err(CollectError::NotOffered),
        Some(others) => Ok(
            ClapConfig {
                plugin_name: String::from_str(plugin_name),
                clap_id: answer_or(clap_id, DEFAULT_CLAP_ID),
                clap_description: answer_or(clap_description, DEFAULT_CLAP_DESCRIPTION),
                clap_features: build_category_list(offered[primary], &others, CLAP_NAMESPACE),
            },
        ),
    }
}

/// The model of optional VST3 settings.
pub open spec fn vst3_model(vst3: Option<Vst3Config>) -> Option<Vst3Model> {
    match vst3 {
        Some(vst3) => Some(vst3@),
        None => None,
    }
}

/// The model of optional CLAP settings.
pub open spec fn clap_model(clap: Option<ClapConfig>) -> Option<ClapModel> {
    match clap {
        Some(clap) => Some(clap@),
        None => None,
    }
}

/// The model of optional standalone settings.
pub open spec fn standalone_model(standalone: Option<StandaloneConfig>) -> Option<
    StandaloneModel,
> {
    match standalone {
        Some(standalone) => Some(standalone@),
        None => None,
    }
}

/// Everything that is known of a project, as a mathematical record.
pub struct AggregateModel {
    pub project_name: Seq<char>,
    pub lib: LibModel,
    pub vst3: Option<Vst3Model>,
    pub clap: Option<ClapModel>,
    pub standalone: Option<StandaloneModel>,
}

impl AggregateModel {
    /// The export formats of the project: those that have settings.
    pub open spec fn selection(self) -> ExportSelection {
        ExportSelection {
            vst3: self.vst3 is Some,
            clap: self.clap is Some,
            standalone: self.standalone is Some,
        }
    }

    /// The settings fit together: every export names the plugin as the
    /// project does, the standalone export names the project itself, and the
    /// VST3 identifier has its sixteen bytes.
    pub open spec fn wf(self) -> bool {
        &&& self.vst3 matches Some(vst3) ==> vst3.wf() && vst3.plugin_name
            == self.lib.plugin_name
        &&& self.clap matches Some(clap) ==> clap.plugin_name == self.lib.plugin_name
        &&& self.standalone matches Some(standalone) ==> standalone.plugin_name
            == self.lib.plugin_name && standalone.project_name == self.project_name
    }
}

/// Everything that is known of a project: its name, the plugin's identity,
/// and the settings of each export format that was chosen. A format that was
/// not chosen has no settings.
#[derive(Clone, Debug)]
pub struct ConfigAggregate {
    pub project_name: String,
    pub lib: LibConfig,
    pub vst3: Option<Vst3Config>,
    pub clap: Option<ClapConfig>,
    pub standalone: Option<StandaloneConfig>,
}

impl View for ConfigAggregate {
    type V = AggregateModel;

    open spec fn view(&self) -> AggregateModel {
        AggregateModel {
            project_name: self.project_name@,
            lib: self.lib@,
            vst3: vst3_model(self.vst3),
            clap: clap_model(self.clap),
            standalone: standalone_model(self.standalone),
        }
    }
}

/// The project that comes of asking nothing: the default identity, and the
/// VST3 export alone with its default settings.
pub open spec fn default_aggregate(project_name: Seq<char>) -> AggregateModel {
    AggregateModel {
        project_name,
        lib: default_lib(),
        vst3: Some(default_vst3()),
        clap: None,
        standalone: None,
    }
}

/// A project for which nothing was asked exports VST3 and nothing else, and
/// its settings fit together.
pub proof fn lemma_default_aggregate(project_name: Seq<char>)
    ensures
        default_aggregate(project_name).wf(),
        default_aggregate(project_name).selection() == (ExportSelection {
            vst3: true,
            clap: false,
            standalone: false,
        }),
        default_aggregate(project_name).selection().as_set() == set![ExportType::Vst3],
{
    lemma_default_vst3_wf();
    assert(default_aggregate(project_name).selection().as_set() =~= set![ExportType::Vst3]);
}

impl ConfigAggregate {
    /// The project that comes of asking nothing.
    pub fn with_defaults(project_name: String) -> (config: ConfigAggregate)
        ensures
            config@ == default_aggregate(project_name@),
    {
        ConfigAggregate {
            project_name,
            lib: LibConfig::default(),
            vst3: Some(Vst3Config::default()),
            clap: None,
            standalone: None,
        }
    }

    /// The export formats of the project.
    pub fn selection(&self) -> (selection: ExportSelection)
        ensures
            selection == self@.selection(),
    {
        ExportSelection {
            vst3: self.vst3.is_some(),
            clap: self.clap.is_some(),
            standalone: self.standalone.is_some(),
        }
    }
}

} // verus!
