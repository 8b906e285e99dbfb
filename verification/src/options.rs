//! The categories that are offered for each plugin format: a short list to
//! take the primary category from, and a longer one for the others.

use crate::categories::texts;
use vstd::prelude::*;
use vstd::string::StringExecFns;

verus! {

/// The texts of a sequence of string slices.
pub open spec fn labels(items: Seq<&'static str>) -> Seq<Seq<char>> {
    Seq::new(items.len(), |i: int| items[i]@)
}

/// The primary VST3 subcategories.
pub open spec fn vst3_primary() -> Seq<Seq<char>> {
    seq!["Fx"@, "Instrument"@, "Spatial"@]
}

/// The other VST3 subcategories.
pub open spec fn vst3_secondary() -> Seq<Seq<char>> {
    seq![
        "Analyzer"@,
        "Delay"@,
        "Distortion"@,
        "Drum"@,
        "Dynamics"@,
        "Eq"@,
        "External"@,
        "Filter"@,
        "Generator"@,
        "Mastering"@,
        "Modulation"@,
        "Network"@,
        "Piano"@,
        "PitchShift"@,
        "Restoration"@,
        "Reverb"@,
        "Sampler"@,
        "Synth"@,
        "Tools"@,
        "UpDownmix"@,
    ]
}

/// The primary CLAP features.
pub open spec fn clap_primary() -> Seq<Seq<char>> {
    seq!["Instrument"@, "AudioEffect"@, "NoteDetector"@, "NoteEffect"@]
}

/// The other CLAP features.
pub open spec fn clap_secondary() -> Seq<Seq<char>> {
    seq![
        "Analyzer"@,
        "Synthesizer"@,
        "Sampler"@,
        "Drum"@,
        "DrumMachine"@,
        "Filter"@,
        "Phaser"@,
        "Equalizer"@,
        "Deesser"@,
        "PhaseVocoder"@,
        "Granular"@,
        "FrequencyShifter"@,
        "PitchShifter"@,
        "Distortion"@,
        "TransientShaper"@,
        "Compressor"@,
        "Expander"@,
        "Gate"@,
        "Limiter"@,
        "Flanger"@,
        "Chorus"@,
        "Delay"@,
        "Reverb"@,
        "Tremolo"@,
        "Glitch"@,
        "Utility"@,
        "PitchCorrection"@,
        "Restoration"@,
        "MultiEffects"@,
        "Mixing"@,
        "Mastering"@,
        "Mono"@,
        "Stereo"@,
        "Surround"@,
        "Ambisonic"@,
    ]
}

/// The subcategories of which a VST3 plugin takes exactly one.
pub fn vst3_main_categories() -> (offered: Vec<&'static str>)
    ensures
        labels(offered@) == vst3_primary(),
{
    let offered = vec!["Fx", "Instrument", "Spatial"];
    assert(labels(offered@) =~= vst3_primary());
    offered
}

/// The subcategories of which a VST3 plugin takes any number.
pub fn vst3_other_categories() -> (offered: Vec<&'static str>)
    ensures
        labels(offered@) == vst3_secondary(),
{
    let offered = vec![
        "Analyzer",
        "Delay",
        "Distortion",
        "Drum",
        "Dynamics",
        "Eq",
        "External",
        "Filter",
        "Generator",
        "Mastering",
        "Modulation",
        "Network",
        "Piano",
        "PitchShift",
        "Restoration",
        "Reverb",
        "Sampler",
        "Synth",
        "Tools",
        "UpDownmix",
    ];
    assert(labels(offered@) =~= vst3_secondary());
    offered
}

/// The features of which a CLAP plugin takes exactly one.
pub fn clap_main_features() -> (offered: Vec<&'static str>)
    ensures
        labels(offered@) == clap_primary(),
{
    let offered = vec!["Instrument", "AudioEffect", "NoteDetector", "NoteEffect"];
    assert(labels(offered@) =~= clap_primary());
    offered
}

/// The features of which a CLAP plugin takes any number.
pub fn clap_other_features() -> (offered: Vec<&'static str>)
    ensures
        labels(offered@) == clap_secondary(),
{
    let offered = vec![
        "Analyzer",
        "Synthesizer",
        "Sampler",
        "Drum",
        "DrumMachine",
        "Filter",
        "Phaser",
        "Equalizer",
        "Deesser",
        "PhaseVocoder",
        "Granular",
        "FrequencyShifter",
        "PitchShifter",
        "Distortion",
        "TransientShaper",
        "Compressor",
        "Expander",
        "Gate",
        "Limiter",
        "Flanger",
        "Chorus",
        "Delay",
        "Reverb",
        "Tremolo",
        "Glitch",
        "Utility",
        "PitchCorrection",
        "Restoration",
        "MultiEffects",
        "Mixing",
        "Mastering",
        "Mono",
        "Stereo",
        "Surround",
        "Ambisonic",
    ];
    assert(labels(offered@) =~= clap_secondary());
    offered
}

/// Whether every choice is the index of something that was offered.
pub open spec fn all_offered(offered: Seq<Seq<char>>, choices: Seq<usize>) -> bool {
    forall|i: int| 0 <= i < choices.len() ==> choices[i] < offered.len()
}

/// What was chosen, in the order of the choices. Something chosen twice
/// occurs twice.
pub open spec fn picked(offered: Seq<Seq<char>>, choices: Seq<usize>) -> Seq<Seq<char>> {
    Seq::new(choices.len(), |i: int| offered[choices[i] as int])
}

/// Looks up each choice among what was offered. Nothing comes back where a
/// choice is the index of nothing.
pub fn pick(offered: &Vec<&'static str>, choices: &Vec<usize>) -> (chosen: Option<Vec<String>>)
    ensures
        chosen is Some <==> all_offered(labels(offered@), choices@),
        chosen is Some ==> texts(chosen->Some_0@) == picked(labels(offered@), choices@),
{
    let mut chosen: Vec<String> = Vec::new();
    let mut i: usize = 0;
    while i < choices.len()
        invariant
            i <= choices.len(),
            all_offered(labels(offered@), choices@.take(i as int)),
            texts(chosen@) == picked(labels(offered@), choices@.take(i as int)),
        decreases choices.len() - i,
    {
        let choice = choices[i];
        if choice >= offered.len() {
            assert(!all_offered(labels(offered@), choices@)) by {
                assert(choices@[i as int] >= labels(offered@).len());
            }
            return None;
        }
        let ghost earlier = chosen@;
        chosen.push(String::from_str(offered[choice]));
        proof {
            let before = choices@.take(i as int);
            let after = choices@.take(i + 1);
            assert(texts(earlier).len() == i);
            assert forall|j: int| 0 <= j < after.len() implies after[j] < labels(
                offered@,
            ).len() by {
                if j < i {
                    assert(after[j] == before[j]);
                }
            }
            assert forall|j: int| 0 <= j < after.len() implies texts(chosen@)[j] == picked(
                labels(offered@),
                after,
            )[j] by {
                if j < i {
                    assert(texts(earlier)[j] == picked(labels(offered@), before)[j]);
                    assert(after[j] == before[j]);
                }
            }
            assert(texts(chosen@) =~= picked(labels(offered@), after));
        }
        i = i + 1;
    }
    assert(choices@.take(choices.len() as int) =~= choices@);
    Some(chosen)
}

} // verus!
