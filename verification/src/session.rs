//! The questions that lead to a project's configuration, one stage at a time.
//! The session decides what is asked next and what becomes of each reply;
//! putting the questions to somebody is the caller's work.

use crate::config::{
    byte_length, clap_of_answers, clap_offered, collect_export_types, configure_clap_export,
    configure_lib, configure_vst_export, default_aggregate, default_lib, lemma_default_aggregate,
    lib_of_answers, vst3_of_answers, vst3_offered, AggregateModel, CollectError, ConfigAggregate,
    ExportSelection, ExportType, LibConfig, MidiConfig, StandaloneConfig, StandaloneModel,
    VST_ID_LENGTH,
};
use vstd::prelude::*;

verus! {

/// What a session waits for.
#[derive(Clone, Copy, Debug, PartialEq, Eq, Structural)]
pub enum Stage {
    /// The name of the project: its directory and its package.
    ProjectName,
    /// The plugin's name, vendor, URL, contact address and MIDI tier.
    Identity,
    /// The export formats.
    Exports,
    /// The VST3 identifier and subcategories.
    Vst3,
    /// The CLAP identifier, description and features.
    Clap,
    /// Nothing: the configuration is complete.
    Ready,
    /// Nothing: the session was given up.
    Aborted,
}

/// A reply to what a session waits for.
#[derive(Clone, Debug)]
pub enum Reply {
    ProjectName(String),
    /// An empty text stands for the default of its field.
    Identity { plugin_name: String, vendor: String, url: String, email: String, midi_config: MidiConfig },
    /// The formats that were ticked, at least one.
    Exports(Vec<ExportType>),
    /// The subcategories by their places among those offered.
    Vst3 { vst_id: String, primary: usize, secondary: Vec<usize> },
    /// The features by their places among those offered. An empty identifier
    /// or description stands for its default.
    Clap { clap_id: String, clap_description: String, primary: usize, secondary: Vec<usize> },
    /// The question was not answered: it was cancelled or could not be read.
    Cancelled,
}

/// A session as a mathematical record.
pub struct SessionModel {
    pub stage: Stage,
    /// Whether the project takes its defaults and only its name is asked for.
    pub defaults: bool,
    /// The formats that were chosen, or the suggestion while none were.
    pub wanted: ExportSelection,
    /// What is known of the project so far.
    pub config: AggregateModel,
}

/// The stage that follows the project's name: in defaults mode nothing more
/// is asked.
pub open spec fn stage_after_name(defaults: bool) -> Stage {
    if defaults {
        Stage::Ready
    } else {
        Stage::Identity
    }
}

/// The stage that follows the choice of formats: the settings of VST3 where
/// it was chosen, else those of CLAP where it was chosen, else none.
pub open spec fn stage_after_exports(wanted: ExportSelection) -> Stage {
    if wanted.vst3 {
        Stage::Vst3
    } else if wanted.clap {
        Stage::Clap
    } else {
        Stage::Ready
    }
}

/// The stage that follows the VST3 settings.
pub open spec fn stage_after_vst3(wanted: ExportSelection) -> Stage {
    if wanted.clap {
        Stage::Clap
    } else {
        Stage::Ready
    }
}

/// The project of which nothing is known but its name.
pub open spec fn blank_aggregate(project_name: Seq<char>) -> AggregateModel {
    AggregateModel {
        project_name,
        lib: default_lib(),
        vst3: None,
        clap: None,
        standalone: None,
    }
}

/// The text of a name that may be missing: a missing name is an empty one.
pub open spec fn given_name(name: Option<String>) -> Seq<char> {
    match name {
        Some(name) => name@,
        None => Seq::empty(),
    }
}

/// The session at its start: the name is asked for first unless it was
/// given, and in defaults mode the project has its default settings already.
pub open spec fn initial(project_name: Seq<char>, defaults: bool) -> SessionModel {
    SessionModel {
        stage: if project_name.len() == 0 {
            Stage::ProjectName
        } else {
            stage_after_name(defaults)
        },
        defaults,
        wanted: ExportSelection { vst3: true, clap: false, standalone: false },
        config: if defaults {
            default_aggregate(project_name)
        } else {
            blank_aggregate(project_name)
        },
    }
}

/// Whether a reply is taken, and why not where it is not.
pub open spec fn verdict(before: SessionModel, reply: Reply) -> Result<(), CollectError> {
    match (before.stage, reply) {
        (Stage::Ready, _) => Err(CollectError::Unexpected),
        (Stage::Aborted, _) => Err(CollectError::Unexpected),
        (_, Reply::Cancelled) => Err(CollectError::UserInput),
        (Stage::ProjectName, Reply::ProjectName(name)) => if name@.len() == 0 {
            Err(CollectError::MissingName)
        } else {
            Ok(())
        },
        (Stage::Identity, Reply::Identity { .. }) => Ok(()),
        (Stage::Exports, Reply::Exports(chosen)) => if chosen@.len() == 0 {
            Err(CollectError::Selection)
        } else {
            Ok(())
        },
        (Stage::Vst3, Reply::Vst3 { vst_id, primary, secondary }) => if byte_length(vst_id@)
            != VST_ID_LENGTH {
            Err(CollectError::Validation)
        } else if !vst3_offered(primary, secondary@) {
            Err(CollectError::NotOffered)
        } else {
            Ok(())
        },
        (Stage::Clap, Reply::Clap { primary, secondary, .. }) => if !clap_offered(
            primary,
            secondary@,
        ) {
            Err(CollectError::NotOffered)
        } else {
            Ok(())
        },
        _ => Err(CollectError::Unexpected),
    }
}

/// What a reply that is taken adds to the project.
pub open spec fn config_after(before: SessionModel, reply: Reply) -> AggregateModel {
    let config = before.config;
    match reply {
        Reply::ProjectName(name) => AggregateModel { project_name: name@, ..config },
        Reply::Identity { plugin_name, vendor, url, email, midi_config } => AggregateModel {
            lib: lib_of_answers(plugin_name@, vendor@, url@, email@, midi_config),
            ..config
        },
        Reply::Exports(chosen) => AggregateModel {
            standalone: if chosen@.contains(ExportType::Standalone) {
                Some(
                    StandaloneModel {
                        plugin_name: config.lib.plugin_name,
                        project_name: config.project_name,
                    },
                )
            } else {
                None
            },
            ..config
        },
        Reply::Vst3 { vst_id, primary, secondary } => AggregateModel {
            vst3: Some(
                vst3_of_answers(config.lib.plugin_name, vst_id@, primary, secondary@),
            ),
            ..config
        },
        Reply::Clap { clap_id, clap_description, primary, secondary } => AggregateModel {
            clap: Some(
                clap_of_answers(
                    config.lib.plugin_name,
                    clap_id@,
                    clap_description@,
                    primary,
                    secondary@,
                ),
            ),
            ..config
        },
        Reply::Cancelled => config,
    }
}

/// The stage that follows a reply that is taken.
pub open spec fn stage_after(before: SessionModel, reply: Reply) -> Stage {
    match reply {
        Reply::ProjectName(_) => stage_after_name(before.defaults),
        Reply::Identity { .. } => Stage::Exports,
        Reply::Exports(chosen) => stage_after_exports(ExportSelection::of(chosen@)),
        Reply::Vst3 { .. } => stage_after_vst3(before.wanted),
        Reply::Clap { .. } => Stage::Ready,
        Reply::Cancelled => before.stage,
    }
}

/// The session after a reply. A reply that is taken adds to the project and
/// leads to the next stage. A cancelled question and an empty choice of
/// formats end the session. Any other reply that is not taken changes
/// nothing, so that the same question can be put again.
pub open spec fn after(before: SessionModel, reply: Reply) -> SessionModel {
    match verdict(before, reply) {
        Ok(()) => SessionModel {
            stage: stage_after(before, reply),
            defaults: before.defaults,
            wanted: match reply {
                Reply::Exports(chosen) => ExportSelection::of(chosen@),
                _ => before.wanted,
            },
            config: config_after(before, reply),
        },
        Err(CollectError::UserInput) => SessionModel { stage: Stage::Aborted, ..before },
        Err(CollectError::Selection) => SessionModel { stage: Stage::Aborted, ..before },
        Err(_) => before,
    }
}

/// The questions that lead to a project's configuration, and the replies
/// given so far.
pub struct Session {
    stage: Stage,
    defaults: bool,
    wanted: ExportSelection,
    config: ConfigAggregate,
}

impl View for Session {
    type V = SessionModel;

    closed spec fn view(&self) -> SessionModel {
        SessionModel {
            stage: self.stage,
            defaults: self.defaults,
            wanted: self.wanted,
            config: self.config@,
        }
    }
}

/// What holds of a session from its start through every reply: the settings
/// gathered so far fit together, a stage is reached only with the settings
/// of the stages before it, and a complete configuration has a name and
/// settings for exactly the formats that were chosen, of which there is at
/// least one.
pub open spec fn consistent(session: SessionModel) -> bool {
    let config = session.config;
    let wanted = session.wanted;
    &&& config.wf()
    &&& session.defaults ==> config == default_aggregate(config.project_name) && wanted
        == config.selection() && (session.stage == Stage::ProjectName || session.stage
        == Stage::Ready || session.stage == Stage::Aborted)
    &&& match session.stage {
        Stage::ProjectName => session.defaults || config == blank_aggregate(config.project_name),
        Stage::Identity => config == blank_aggregate(config.project_name),
        Stage::Exports => config.selection() == (ExportSelection {
            vst3: false,
            clap: false,
            standalone: false,
        }),
        Stage::Vst3 => wanted.vst3 && config.selection() == (ExportSelection {
            vst3: false,
            clap: false,
            standalone: wanted.standalone,
        }),
        Stage::Clap => wanted.clap && config.selection() == (ExportSelection {
            vst3: wanted.vst3,
            clap: false,
            standalone: wanted.standalone,
        }),
        Stage::Ready => config.selection() == wanted && (wanted.vst3 || wanted.clap
            || wanted.standalone),
        Stage::Aborted => true,
    }
    &&& session.stage != Stage::ProjectName && session.stage != Stage::Aborted
        ==> config.project_name.len() > 0
}

/// In defaults mode a session exports VST3 and nothing else, at every stage:
/// there are no CLAP settings and no standalone settings.
pub proof fn lemma_defaults_export_vst3_alone(session: SessionModel)
    requires
        consistent(session),
        session.defaults,
    ensures
        session.config.selection().as_set() == set![ExportType::Vst3],
        session.config.vst3 is Some,
        session.config.clap is None,
        session.config.standalone is None,
{
    lemma_default_aggregate(session.config.project_name);
}

/// A complete configuration has settings for exactly the formats that were
/// chosen, and at least one format was chosen.
pub proof fn lemma_ready_matches_choice(session: SessionModel, export: ExportType)
    requires
        consistent(session),
        session.stage == Stage::Ready,
    ensures
        session.config.selection().has(export) <==> session.wanted.has(export),
        session.config.selection().as_set().len() > 0,
{
    let chosen = session.config.selection().as_set();
    let witness = if session.wanted.vst3 {
        ExportType::Vst3
    } else if session.wanted.clap {
        ExportType::Clap
    } else {
        ExportType::Standalone
    };
    assert(chosen.contains(witness));
    let all = set![ExportType::Vst3, ExportType::Clap, ExportType::Standalone];
    assert(chosen.subset_of(all));
    vstd::set_lib::lemma_len_subset(chosen, all);
    if chosen.len() == 0 {
        assert(chosen.finite());
        assert(chosen =~= Set::empty());
    }
}

impl Session {
    #[verifier::type_invariant]
    spec fn inv(self) -> bool {
        consistent(self@)
    }

    /// Starts a session. A name that is missing or empty is asked for first;
    /// in defaults mode nothing else is asked, and the project takes the
    /// default identity and the VST3 export alone.
    pub fn begin(name: Option<String>, defaults: bool) -> (session: Session)
        ensures
            session@ == initial(given_name(name), defaults),
            consistent(session@),
    {
        let project_name = match name {
            Some(name) => name,
            None => String::new(),
        };
        let stage = if project_name.as_str().is_empty() {
            Stage::ProjectName
        } else if defaults {
            Stage::Ready
        } else {
            Stage::Identity
        };
        let config = if defaults {
            ConfigAggregate::with_defaults(project_name)
        } else {
            ConfigAggregate {
                project_name,
                lib: LibConfig::default(),
                vst3: None,
                clap: None,
                standalone: None,
            }
        };
        proof {
            lemma_default_aggregate(config.project_name@);
        }
        Session { stage, defaults, wanted: ExportSelection::vst3_only(), config }
    }

    /// What the session waits for.
    pub fn pending(&self) -> (stage: Stage)
        ensures
            stage == self@.stage,
    {
        self.stage
    }

    /// The formats that were chosen; before the choice, the one that is
    /// suggested.
    pub fn wanted(&self) -> (wanted: ExportSelection)
        ensures
            wanted == self@.wanted,
    {
        self.wanted
    }

    /// The project's name: empty until it is known.
    pub fn project_name(&self) -> (name: &str)
        ensures
            name@ == self@.config.project_name,
    {
        self.config.project_name.as_str()
    }

    /// The plugin's name as far as it is known.
    pub fn plugin_name(&self) -> (name: &str)
        ensures
            name@ == self@.config.lib.plugin_name,
    {
        self.config.lib.plugin_name.as_str()
    }

    /// Takes a reply to what the session waits for, and says whether it was
    /// taken.
    pub fn answer(self, reply: Reply) -> (next: (Session, Result<(), CollectError>))
        ensures
            next.0@ == after(self@, reply),
            next.1 == verdict(self@, reply),
            consistent(next.0@),
    {
        proof {
            use_type_invariant(&self);
        }
        let Session { stage, defaults, wanted, config } = self;
        match (stage, reply) {
            (Stage::Ready, _) => (
                Session { stage, defaults, wanted, config },
                Err(CollectError::Unexpected),
            ),
            (Stage::Aborted, _) => (
                Session { stage, defaults, wanted, config },
                Err(CollectError::Unexpected),
            ),
            (_, Reply::Cancelled) => (
                Session { stage: Stage::Aborted, defaults, wanted, config },
                Err(CollectError::UserInput),
            ),
            (Stage::ProjectName, Reply::ProjectName(name)) => {
                if name.as_str().is_empty() {
                    (Session { stage, defaults, wanted, config }, Err(CollectError::MissingName))
                } else {
                    let ConfigAggregate { project_name: _, lib, vst3, clap, standalone } = config;
                    let next = if defaults {
                        Stage::Ready
                    } else {
                        Stage::Identity
                    };
                    (
                        Session {
                            stage: next,
                            defaults,
                            wanted,
                            config: ConfigAggregate {
                                project_name: name,
                                lib,
                                vst3,
                                clap,
                                standalone,
                            },
                        },
                        Ok(()),
                    )
                }
            },
            (
                Stage::Identity,
                Reply::Identity { plugin_name, vendor, url, email, midi_config },
            ) => {
                let ConfigAggregate { project_name, lib: _, vst3, clap, standalone } = config;
                let lib = configure_lib(plugin_name, vendor, url, email, midi_config);
                (
                    Session {
                        stage: Stage::Exports,
                        defaults,
                        wanted,
                        config: ConfigAggregate { project_name, lib, vst3, clap, standalone },
                    },
                    Ok(()),
                )
            },
            (Stage::Exports, Reply::Exports(chosen)) => {
                match collect_export_types(&chosen) {
                    Err(error) => (
                        Session { stage: Stage::Aborted, defaults, wanted, config },
                        Err(error),
                    ),
                    Ok(selection) => {
                        let ConfigAggregate { project_name, lib, vst3, clap, standalone: _ } =
                            config;
                        let standalone = if selection.standalone {
                            Some(
                                StandaloneConfig {
                                    plugin_name: lib.plugin_name.clone(),
                                    project_name: project_name.clone(),
                                },
                            )
                        } else {
                            None
                        };
                        let next = if selection.vst3 {
                            Stage::Vst3
                        } else if selection.clap {
                            Stage::Clap
                        } else {
                            Stage::Ready
                        };
                        assert(selection.vst3 || selection.clap || selection.standalone) by {
                            assert(chosen@.contains(chosen@[0]));
                        }
                        (
                            Session {
                                stage: next,
                                defaults,
                                wanted: selection,
                                config: ConfigAggregate {
                                    project_name,
                                    lib,
                                    vst3,
                                    clap,
                                    standalone,
                                },
                            },
                            Ok(()),
                        )
                    },
                }
            },
            (Stage::Vst3, Reply::Vst3 { vst_id, primary, secondary }) => {
                match configure_vst_export(
                    config.lib.plugin_name.as_str(),
                    vst_id,
                    primary,
                    &secondary,
                ) {
                    Err(error) => (Session { stage, defaults, wanted, config }, Err(error)),
                    Ok(settings) => {
                        let ConfigAggregate { project_name, lib, vst3: _, clap, standalone } =
                            config;
                        let next = if wanted.clap {
                            Stage::Clap
                        } else {
                            Stage::Ready
                        };
                        (
                            Session {
                                stage: next,
                                defaults,
                                wanted,
                                config: ConfigAggregate {
                                    project_name,
                                    lib,
                                    vst3: Some(settings),
                                    clap,
                                    standalone,
                                },
                            },
                            Ok(()),
                        )
                    },
                }
            },
            (Stage::Clap, Reply::Clap { clap_id, clap_description, primary, secondary }) => {
                match configure_clap_export(
                    config.lib.plugin_name.as_str(),
                    clap_id,
                    clap_description,
                    primary,
                    &secondary,
                ) {
                    Err(error) => (Session { stage, defaults, wanted, config }, Err(error)),
                    Ok(settings) => {
                        let ConfigAggregate { project_name, lib, vst3, clap: _, standalone } =
                            config;
                        (
                            Session {
                                stage: Stage::Ready,
                                defaults,
                                wanted,
                                config: ConfigAggregate {
                                    project_name,
                                    lib,
                                    vst3,
                                    clap: Some(settings),
                                    standalone,
                                },
                            },
                            Ok(()),
                        )
                    },
                }
            },
            (stage, _) => (
                Session { stage, defaults, wanted, config },
                Err(CollectError::Unexpected),
            ),
        }
    }

    /// The configuration, once it is complete: it then has a name, and
    /// settings that fit together for exactly the formats that were chosen.
    pub fn finish(self) -> (config: Option<ConfigAggregate>)
        ensures
            config is Some <==> self@.stage == Stage::Ready,
            config is Some ==> config->Some_0@ == self@.config && consistent(self@),
    {
        proof {
            use_type_invariant(&self);
        }
        match self.stage {
            Stage::Ready => Some(self.config),
            _ => None,
        }
    }
}

} // verus!
