use plugforge::config::{
    CollectError, ExportSelection, ExportType, MidiConfig,
};
use plugforge::manifest::write_to_toml;
use plugforge::plan::{create_project, Step};
use plugforge::session::{Reply, Session, Stage};
use plugforge::templates::{write_to_lib, write_to_main};

fn identity() -> Reply {
    Reply::Identity {
        plugin_name: "Fuzz".to_string(),
        vendor: "Acme".to_string(),
        url: String::new(),
        email: "fuzz@acme.example".to_string(),
        midi_config: MidiConfig::Full,
    }
}

fn vst3() -> Reply {
    Reply::Vst3 {
        vst_id: "FuzzByAcmeCorp!!".to_string(),
        primary: 0,
        secondary: vec![1, 15],
    }
}

fn clap() -> Reply {
    Reply::Clap {
        clap_id: "example.acme.fuzz".to_string(),
        clap_description: String::new(),
        primary: 1,
        secondary: vec![13],
    }
}

fn taken(session: Session, reply: Reply) -> Session {
    let (session, verdict) = session.answer(reply);
    assert_eq!(verdict, Ok(()));
    session
}

fn refused(session: Session, reply: Reply, error: CollectError) -> Session {
    let (session, verdict) = session.answer(reply);
    assert_eq!(verdict, Err(error));
    session
}

const STUB: &str = "[package]
name = \"gain\"
version = \"0.1.0\"
edition = \"2021\"

[dependencies]
";

#[test]
fn defaults_with_a_name_ask_nothing() {
    let session = Session::begin(Some("gain".to_string()), true);
    assert_eq!(session.pending(), Stage::Ready);
    let config = session.finish().unwrap();
    assert_eq!(config.project_name, "gain");
    assert_eq!(config.lib.plugin_name, "Gain");
    assert_eq!(config.lib.vendor, "NIH-Plug");
    assert_eq!(config.lib.midi_config, MidiConfig::Silent);
    let vst3 = config.vst3.as_ref().unwrap();
    assert_eq!(vst3.plugin_name, "Gain");
    assert_eq!(vst3.vst_id, "Exactly16Chars!!");
    assert_eq!(vst3.sub_categories, "Vst3SubCategory::Fx");
    assert!(config.clap.is_none());
    assert!(config.standalone.is_none());
    assert_eq!(
        config.selection(),
        ExportSelection { vst3: true, clap: false, standalone: false }
    );
}

#[test]
fn defaults_without_a_name_ask_for_the_name_only() {
    let session = Session::begin(None, true);
    assert_eq!(session.pending(), Stage::ProjectName);
    let session = taken(session, Reply::ProjectName("gain".to_string()));
    assert_eq!(session.pending(), Stage::Ready);
    let config = session.finish().unwrap();
    assert_eq!(config.project_name, "gain");
    assert_eq!(
        config.selection(),
        ExportSelection { vst3: true, clap: false, standalone: false }
    );
    assert_eq!(config.vst3.unwrap().vst_id, "Exactly16Chars!!");
}

#[test]
fn an_empty_name_counts_as_none() {
    assert_eq!(Session::begin(Some(String::new()), true).pending(), Stage::ProjectName);
    assert_eq!(Session::begin(Some(String::new()), false).pending(), Stage::ProjectName);
    assert_eq!(Session::begin(None, false).pending(), Stage::ProjectName);
    assert_eq!(Session::begin(Some("gain".to_string()), false).pending(), Stage::Identity);
}

#[test]
fn an_empty_name_is_asked_for_again() {
    let session = Session::begin(None, false);
    let session = refused(session, Reply::ProjectName(String::new()), CollectError::MissingName);
    assert_eq!(session.pending(), Stage::ProjectName);
    let session = taken(session, Reply::ProjectName("fuzz_box".to_string()));
    assert_eq!(session.pending(), Stage::Identity);
}

#[test]
fn defaults_scenario_end_to_end() {
    let config = Session::begin(Some("gain".to_string()), true).finish().unwrap();
    assert_eq!(
        create_project(&config, true),
        vec![Step::CreateSkeleton, Step::UpdateManifest, Step::WriteLibrary]
    );
    let manifest = write_to_toml(STUB, config.standalone.is_some())
        .unwrap()
        .parse::<toml::Table>()
        .unwrap();
    let framework = manifest["dependencies"]["nih_plug"].as_table().unwrap();
    assert_eq!(
        framework["git"].as_str(),
        Some("https://github.com/robbert-vdh/nih-plug.git")
    );
    assert_eq!(
        framework["features"],
        toml::Value::Array(vec![toml::Value::String("assert_process_allocs".to_string())])
    );
    assert_eq!(
        manifest["lib"]["crate_type"],
        toml::Value::Array(vec![toml::Value::String("cdylib".to_string())])
    );
    let source = write_to_lib(&config.lib, &config.clap, &config.vst3);
    assert!(source.contains("const NAME: &'static str = \"Gain\";"));
    assert!(source.contains("const VENDOR: &'static str = \"NIH-Plug\";"));
    assert!(!source.contains("ClapPlugin"));
    assert!(source.contains(
        "const VST3_SUBCATEGORIES: &'static [Vst3SubCategory] = &[Vst3SubCategory::Fx];"
    ));
    assert_eq!(source.matches("Vst3SubCategory::").count(), 1);
    assert_eq!(write_to_main(&config.standalone), None);
}

#[test]
fn all_exports_scenario_end_to_end() {
    let session = Session::begin(Some("fuzz_box".to_string()), false);
    assert_eq!(session.pending(), Stage::Identity);
    let session = taken(session, identity());
    assert_eq!(session.pending(), Stage::Exports);
    assert_eq!(session.plugin_name(), "Fuzz");
    let session = taken(
        session,
        Reply::Exports(vec![ExportType::Vst3, ExportType::Clap, ExportType::Standalone]),
    );
    assert_eq!(session.pending(), Stage::Vst3);
    assert_eq!(
        session.wanted(),
        ExportSelection { vst3: true, clap: true, standalone: true }
    );
    let session = taken(session, vst3());
    assert_eq!(session.pending(), Stage::Clap);
    let session = taken(session, clap());
    assert_eq!(session.pending(), Stage::Ready);
    let config = session.finish().unwrap();

    assert_eq!(config.project_name, "fuzz_box");
    assert_eq!(config.lib.plugin_name, "Fuzz");
    assert_eq!(config.lib.vendor, "Acme");
    assert_eq!(config.lib.url, "https://github.com/robbert-vdh/nih-plug");
    assert_eq!(config.lib.email, "fuzz@acme.example");
    assert_eq!(config.lib.midi_config, MidiConfig::Full);
    let vst3 = config.vst3.as_ref().unwrap();
    assert_eq!(vst3.plugin_name, "Fuzz");
    assert_eq!(vst3.vst_id, "FuzzByAcmeCorp!!");
    assert_eq!(
        vst3.sub_categories,
        "Vst3SubCategory::Fx, Vst3SubCategory::Delay, Vst3SubCategory::Reverb"
    );
    let clap = config.clap.as_ref().unwrap();
    assert_eq!(clap.plugin_name, "Fuzz");
    assert_eq!(clap.clap_id, "example.acme.fuzz");
    assert_eq!(clap.clap_description, "A smoothed gain parameter example plugin");
    assert_eq!(clap.clap_features, "ClapFeature::AudioEffect, ClapFeature::Distortion");
    let standalone = config.standalone.as_ref().unwrap();
    assert_eq!(standalone.plugin_name, "Fuzz");
    assert_eq!(standalone.project_name, "fuzz_box");

    assert_eq!(
        create_project(&config, false),
        vec![
            Step::CreateSkeleton,
            Step::UpdateManifest,
            Step::WriteLibrary,
            Step::WriteEntryPoint,
            Step::Build,
            Step::Bundle
        ]
    );
    let source = write_to_lib(&config.lib, &config.clap, &config.vst3);
    let plugin = source.find("impl Plugin for Fuzz").unwrap();
    let clap = source.find("impl ClapPlugin for Fuzz").unwrap();
    let vst3 = source.find("impl Vst3Plugin for Fuzz").unwrap();
    assert!(plugin < clap && clap < vst3);
    assert_eq!(
        write_to_main(&config.standalone),
        Some(
            "use nih_plug::prelude::*;\n\nfn main() {\n    nih_export_standalone::<fuzz_box::Fuzz>();\n}\n"
                .to_string()
        )
    );
    let manifest = write_to_toml(STUB, config.standalone.is_some()).unwrap();
    assert!(manifest.contains("features = [\"assert_process_allocs\", \"standalone\"]"));
    assert!(manifest.contains("crate_type = [\"cdylib\", \"lib\"]"));
}

#[test]
fn clap_alone_skips_the_vst3_stage() {
    let session = Session::begin(Some("fuzz_box".to_string()), false);
    let session = taken(session, identity());
    let session = taken(session, Reply::Exports(vec![ExportType::Clap]));
    assert_eq!(session.pending(), Stage::Clap);
    let session = taken(session, clap());
    let config = session.finish().unwrap();
    assert!(config.vst3.is_none());
    assert!(config.clap.is_some());
    assert!(config.standalone.is_none());
}

#[test]
fn standalone_alone_asks_nothing_more() {
    let session = Session::begin(Some("fuzz_box".to_string()), false);
    let session = taken(session, identity());
    let session = taken(session, Reply::Exports(vec![ExportType::Standalone]));
    assert_eq!(session.pending(), Stage::Ready);
    let config = session.finish().unwrap();
    assert!(config.vst3.is_none());
    assert!(config.clap.is_none());
    let standalone = config.standalone.unwrap();
    assert_eq!(standalone.plugin_name, "Fuzz");
    assert_eq!(standalone.project_name, "fuzz_box");
}

#[test]
fn vst3_alone_is_ready_after_its_settings() {
    let session = Session::begin(Some("fuzz_box".to_string()), false);
    let session = taken(session, identity());
    let session = taken(session, Reply::Exports(vec![ExportType::Vst3]));
    assert_eq!(session.pending(), Stage::Vst3);
    let session = taken(session, vst3());
    assert_eq!(session.pending(), Stage::Ready);
    let config = session.finish().unwrap();
    assert!(config.vst3.is_some());
    assert!(config.clap.is_none());
    assert!(config.standalone.is_none());
}

#[test]
fn a_bad_identifier_is_asked_for_again() {
    let session = Session::begin(Some("fuzz_box".to_string()), false);
    let session = taken(session, identity());
    let session = taken(session, Reply::Exports(vec![ExportType::Vst3]));
    let session = refused(
        session,
        Reply::Vst3 {
            vst_id: "fifteen chars!!".to_string(),
            primary: 0,
            secondary: Vec::new(),
        },
        CollectError::Validation,
    );
    assert_eq!(session.pending(), Stage::Vst3);
    let session = taken(session, vst3());
    assert_eq!(session.finish().unwrap().vst3.unwrap().vst_id, "FuzzByAcmeCorp!!");
}

#[test]
fn a_category_that_was_not_offered_is_asked_for_again() {
    let session = Session::begin(Some("fuzz_box".to_string()), false);
    let session = taken(session, identity());
    let session = taken(session, Reply::Exports(vec![ExportType::Clap, ExportType::Vst3]));
    let session = refused(
        session,
        Reply::Vst3 { vst_id: "FuzzByAcmeCorp!!".to_string(), primary: 3, secondary: Vec::new() },
        CollectError::NotOffered,
    );
    assert_eq!(session.pending(), Stage::Vst3);
    let session = taken(session, vst3());
    let session = refused(
        session,
        Reply::Clap {
            clap_id: String::new(),
            clap_description: String::new(),
            primary: 0,
            secondary: vec![35],
        },
        CollectError::NotOffered,
    );
    assert_eq!(session.pending(), Stage::Clap);
    let session = taken(session, clap());
    assert_eq!(session.pending(), Stage::Ready);
}

#[test]
fn an_empty_choice_of_exports_ends_the_session() {
    let session = Session::begin(Some("fuzz_box".to_string()), false);
    let session = taken(session, identity());
    let session = refused(session, Reply::Exports(Vec::new()), CollectError::Selection);
    assert_eq!(session.pending(), Stage::Aborted);
    assert!(session.finish().is_none());
}

#[test]
fn a_cancelled_question_ends_the_session() {
    let session = Session::begin(None, false);
    let session = refused(session, Reply::Cancelled, CollectError::UserInput);
    assert_eq!(session.pending(), Stage::Aborted);
    let session = refused(session, Reply::ProjectName("x".to_string()), CollectError::Unexpected);
    assert_eq!(session.pending(), Stage::Aborted);
    assert!(session.finish().is_none());

    let session = Session::begin(Some("fuzz_box".to_string()), false);
    let session = taken(session, identity());
    let session = taken(session, Reply::Exports(vec![ExportType::Vst3, ExportType::Clap]));
    let session = taken(session, vst3());
    let session = refused(session, Reply::Cancelled, CollectError::UserInput);
    assert!(session.finish().is_none());
}

#[test]
fn a_reply_to_another_question_changes_nothing() {
    let session = Session::begin(Some("fuzz_box".to_string()), false);
    let session = refused(session, vst3(), CollectError::Unexpected);
    assert_eq!(session.pending(), Stage::Identity);
    let session = refused(session, Reply::Exports(vec![ExportType::Clap]), CollectError::Unexpected);
    assert_eq!(session.pending(), Stage::Identity);
    let session = taken(session, identity());
    let session = refused(session, identity(), CollectError::Unexpected);
    assert_eq!(session.pending(), Stage::Exports);
    assert_eq!(session.plugin_name(), "Fuzz");
}

#[test]
fn a_complete_session_takes_no_more_replies() {
    let session = Session::begin(Some("gain".to_string()), true);
    let session = refused(session, Reply::Cancelled, CollectError::Unexpected);
    assert_eq!(session.pending(), Stage::Ready);
    let session = refused(session, identity(), CollectError::Unexpected);
    assert!(session.finish().is_some());
}

#[test]
fn an_unfinished_session_has_no_configuration() {
    assert!(Session::begin(None, true).finish().is_none());
    assert!(Session::begin(Some("fuzz_box".to_string()), false).finish().is_none());
}

#[test]
fn vst3_is_suggested_before_the_choice() {
    let session = Session::begin(Some("fuzz_box".to_string()), false);
    assert_eq!(
        session.wanted(),
        ExportSelection { vst3: true, clap: false, standalone: false }
    );
}
