use plugforge::config::{
    collect_export_types, configure_clap_export, configure_lib, configure_vst_export,
    validate_vst_id, ClapConfig, CollectError, ConfigAggregate, ExportSelection, ExportType,
    LibConfig, MidiConfig, StandaloneConfig, Vst3Config, DEFAULT_CLAP_DESCRIPTION,
    DEFAULT_CLAP_ID, DEFAULT_EMAIL, DEFAULT_NAME, DEFAULT_SUB_CATEGORY, DEFAULT_URL,
    DEFAULT_VENDOR, DEFAULT_VST_ID, VST_ID_LENGTH, VST_ID_MESSAGE,
};

#[test]
fn default_constants() {
    assert_eq!(DEFAULT_NAME, "Gain");
    assert_eq!(DEFAULT_VENDOR, "NIH-Plug");
    assert_eq!(DEFAULT_URL, "https://github.com/robbert-vdh/nih-plug");
    assert_eq!(DEFAULT_EMAIL, "info@example.com");
    assert_eq!(DEFAULT_VST_ID, "Exactly16Chars!!");
    assert_eq!(DEFAULT_SUB_CATEGORY, "Vst3SubCategory::Fx");
    assert_eq!(DEFAULT_CLAP_ID, "com.moist-plugins-gmbh.gain");
    assert_eq!(DEFAULT_CLAP_DESCRIPTION, "A smoothed gain parameter example plugin");
    assert_eq!(VST_ID_LENGTH, 16);
    assert_eq!(VST_ID_MESSAGE, "VST3 ID must be exactly 16 characters.");
}

#[test]
fn vst_id_of_sixteen_bytes_is_accepted() {
    assert_eq!(validate_vst_id("Exactly16Chars!!"), Ok(()));
    assert_eq!(validate_vst_id("0123456789abcdef"), Ok(()));
    assert_eq!(validate_vst_id("                "), Ok(()));
}

#[test]
fn vst_id_of_another_length_is_rejected() {
    assert_eq!(validate_vst_id(""), Err(CollectError::Validation));
    assert_eq!(validate_vst_id("short"), Err(CollectError::Validation));
    assert_eq!(validate_vst_id("0123456789abcde"), Err(CollectError::Validation));
    assert_eq!(validate_vst_id("0123456789abcdefg"), Err(CollectError::Validation));
}

#[test]
fn vst_id_length_counts_bytes() {
    // Sixteen characters, seventeen bytes.
    assert_eq!(validate_vst_id("0123456789abcd\u{e9}f"), Err(CollectError::Validation));
    // Fifteen characters, sixteen bytes.
    assert_eq!(validate_vst_id("0123456789abcd\u{e9}"), Ok(()));
}

#[test]
fn every_length_but_sixteen_is_rejected() {
    for length in 0..64usize {
        let id = "x".repeat(length);
        assert_eq!(validate_vst_id(&id).is_ok(), length == 16);
    }
}

#[test]
fn midi_constants() {
    assert_eq!(MidiConfig::Silent.constant(), "None");
    assert_eq!(MidiConfig::Basic.constant(), "Basic");
    assert_eq!(MidiConfig::Full.constant(), "MidiCCs");
}

#[test]
fn default_lib_config() {
    let config = LibConfig::default();
    assert_eq!(config.plugin_name, "Gain");
    assert_eq!(config.vendor, "NIH-Plug");
    assert_eq!(config.url, "https://github.com/robbert-vdh/nih-plug");
    assert_eq!(config.email, "info@example.com");
    assert_eq!(config.midi_config, MidiConfig::Silent);
}

#[test]
fn default_vst3_config() {
    let config = Vst3Config::default();
    assert_eq!(config.plugin_name, "Gain");
    assert_eq!(config.vst_id, "Exactly16Chars!!");
    assert_eq!(config.vst_id.len(), 16);
    assert_eq!(config.sub_categories, "Vst3SubCategory::Fx");
}

#[test]
fn lib_answers_are_kept() {
    let config = configure_lib(
        "Fuzz".to_string(),
        "Acme".to_string(),
        "https://acme.example".to_string(),
        "fuzz@acme.example".to_string(),
        MidiConfig::Full,
    );
    assert_eq!(config.plugin_name, "Fuzz");
    assert_eq!(config.vendor, "Acme");
    assert_eq!(config.url, "https://acme.example");
    assert_eq!(config.email, "fuzz@acme.example");
    assert_eq!(config.midi_config, MidiConfig::Full);
}

#[test]
fn empty_lib_answers_fall_back_to_defaults() {
    let config = configure_lib(
        String::new(),
        String::new(),
        String::new(),
        String::new(),
        MidiConfig::Basic,
    );
    assert_eq!(config.plugin_name, "Gain");
    assert_eq!(config.vendor, "NIH-Plug");
    assert_eq!(config.url, "https://github.com/robbert-vdh/nih-plug");
    assert_eq!(config.email, "info@example.com");
    assert_eq!(config.midi_config, MidiConfig::Basic);
}

#[test]
fn some_lib_answers_empty() {
    let config = configure_lib(
        "Fuzz".to_string(),
        String::new(),
        " ".to_string(),
        String::new(),
        MidiConfig::Silent,
    );
    assert_eq!(config.plugin_name, "Fuzz");
    assert_eq!(config.vendor, "NIH-Plug");
    assert_eq!(config.url, " ");
    assert_eq!(config.email, "info@example.com");
}

#[test]
fn no_export_is_an_error() {
    assert_eq!(collect_export_types(&Vec::new()), Err(CollectError::Selection));
}

#[test]
fn exports_are_collected() {
    assert_eq!(
        collect_export_types(&vec![ExportType::Vst3]),
        Ok(ExportSelection { vst3: true, clap: false, standalone: false })
    );
    assert_eq!(
        collect_export_types(&vec![ExportType::Standalone, ExportType::Clap]),
        Ok(ExportSelection { vst3: false, clap: true, standalone: true })
    );
    assert_eq!(
        collect_export_types(&vec![ExportType::Vst3, ExportType::Clap, ExportType::Standalone]),
        Ok(ExportSelection { vst3: true, clap: true, standalone: true })
    );
}

#[test]
fn an_export_ticked_twice_counts_once() {
    assert_eq!(
        collect_export_types(&vec![ExportType::Clap, ExportType::Clap]),
        Ok(ExportSelection { vst3: false, clap: true, standalone: false })
    );
}

#[test]
fn selection_membership() {
    let selection = ExportSelection { vst3: true, clap: false, standalone: true };
    assert!(selection.contains(ExportType::Vst3));
    assert!(!selection.contains(ExportType::Clap));
    assert!(selection.contains(ExportType::Standalone));
    assert_eq!(
        ExportSelection::vst3_only(),
        ExportSelection { vst3: true, clap: false, standalone: false }
    );
}

#[test]
fn vst_export_keeps_the_identifier() {
    let config = configure_vst_export("Fuzz", "FuzzByAcmeCorp!!".to_string(), 0, &vec![2, 7])
        .unwrap();
    assert_eq!(config.plugin_name, "Fuzz");
    assert_eq!(config.vst_id, "FuzzByAcmeCorp!!");
    assert_eq!(
        config.sub_categories,
        "Vst3SubCategory::Fx, Vst3SubCategory::Distortion, Vst3SubCategory::Filter"
    );
}

#[test]
fn vst_export_with_delay_and_reverb() {
    let config = configure_vst_export("Gain", "Exactly16Chars!!".to_string(), 0, &vec![1, 15])
        .unwrap();
    assert_eq!(
        config.sub_categories,
        "Vst3SubCategory::Fx, Vst3SubCategory::Delay, Vst3SubCategory::Reverb"
    );
}

#[test]
fn vst_export_keeps_the_order_of_the_choices() {
    let config = configure_vst_export("Gain", "Exactly16Chars!!".to_string(), 2, &vec![19, 0, 19])
        .unwrap();
    assert_eq!(
        config.sub_categories,
        "Vst3SubCategory::Spatial, Vst3SubCategory::UpDownmix, Vst3SubCategory::Analyzer, Vst3SubCategory::UpDownmix"
    );
}

#[test]
fn vst_export_refuses_a_bad_identifier() {
    let refused = configure_vst_export("Fuzz", "too short".to_string(), 0, &Vec::new());
    assert_eq!(refused.err(), Some(CollectError::Validation));
    let refused = configure_vst_export("Fuzz", String::new(), 0, &Vec::new());
    assert_eq!(refused.err(), Some(CollectError::Validation));
    let refused = configure_vst_export("Fuzz", "too short".to_string(), 9, &vec![99]);
    assert_eq!(refused.err(), Some(CollectError::Validation));
}

#[test]
fn vst_export_refuses_what_was_not_offered() {
    let id = || "Exactly16Chars!!".to_string();
    assert_eq!(
        configure_vst_export("Fuzz", id(), 3, &Vec::new()).err(),
        Some(CollectError::NotOffered)
    );
    assert_eq!(
        configure_vst_export("Fuzz", id(), 0, &vec![1, 20]).err(),
        Some(CollectError::NotOffered)
    );
    assert_eq!(
        configure_vst_export("Fuzz", id(), 0, &vec![usize::MAX]).err(),
        Some(CollectError::NotOffered)
    );
    assert!(configure_vst_export("Fuzz", id(), 2, &vec![19]).is_ok());
}

#[test]
fn clap_export_from_answers() {
    let config: ClapConfig = configure_clap_export(
        "Fuzz",
        "example.acme.fuzz".to_string(),
        "A fuzz".to_string(),
        1,
        &vec![13],
    )
    .unwrap();
    assert_eq!(config.plugin_name, "Fuzz");
    assert_eq!(config.clap_id, "example.acme.fuzz");
    assert_eq!(config.clap_description, "A fuzz");
    assert_eq!(config.clap_features, "ClapFeature::AudioEffect, ClapFeature::Distortion");
}

#[test]
fn clap_export_defaults() {
    let config =
        configure_clap_export("Fuzz", String::new(), String::new(), 0, &Vec::new()).unwrap();
    assert_eq!(config.clap_id, "com.moist-plugins-gmbh.gain");
    assert_eq!(config.clap_description, "A smoothed gain parameter example plugin");
    assert_eq!(config.clap_features, "ClapFeature::Instrument");
}

#[test]
fn clap_export_refuses_what_was_not_offered() {
    assert_eq!(
        configure_clap_export("Fuzz", String::new(), String::new(), 4, &Vec::new()).err(),
        Some(CollectError::NotOffered)
    );
    assert_eq!(
        configure_clap_export("Fuzz", String::new(), String::new(), 3, &vec![34, 35]).err(),
        Some(CollectError::NotOffered)
    );
    let config =
        configure_clap_export("Fuzz", String::new(), String::new(), 3, &vec![34, 32]).unwrap();
    assert_eq!(
        config.clap_features,
        "ClapFeature::NoteEffect, ClapFeature::Ambisonic, ClapFeature::Stereo"
    );
}

#[test]
fn aggregate_with_defaults() {
    let config = ConfigAggregate::with_defaults("gain".to_string());
    assert_eq!(config.project_name, "gain");
    assert_eq!(config.lib.plugin_name, "Gain");
    assert_eq!(config.vst3.as_ref().unwrap().vst_id, "Exactly16Chars!!");
    assert!(config.clap.is_none());
    assert!(config.standalone.is_none());
    assert_eq!(
        config.selection(),
        ExportSelection { vst3: true, clap: false, standalone: false }
    );
}

#[test]
fn aggregate_selection_follows_settings() {
    let config = ConfigAggregate {
        project_name: "fuzz".to_string(),
        lib: LibConfig::default(),
        vst3: None,
        clap: None,
        standalone: Some(StandaloneConfig {
            plugin_name: "Gain".to_string(),
            project_name: "fuzz".to_string(),
        }),
    };
    assert_eq!(
        config.selection(),
        ExportSelection { vst3: false, clap: false, standalone: true }
    );
}

#[test]
fn collect_error_messages() {
    assert_eq!(CollectError::UserInput.message(), "The question was cancelled.");
    assert_eq!(
        CollectError::Validation.message(),
        "VST3 ID must be exactly 16 characters."
    );
    assert_eq!(
        CollectError::Selection.message(),
        "At least one export type must be selected."
    );
    assert_eq!(CollectError::MissingName.message(), "The project needs a name.");
    assert_eq!(
        CollectError::NotOffered.message(),
        "This category is not among the choices."
    );
    assert_eq!(CollectError::Unexpected.message(), "This is not what was asked for.");
}
