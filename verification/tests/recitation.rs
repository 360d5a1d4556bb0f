use mantra_miner::{Mantra, MantraMiner, Options};

const PREPARATION: &str = "I take refuge in the Three Jewels and arise bodhicitta.";
const DEDICATION: &str = "I dedicate the merit of this practice to all sentient beings.";

fn simple_mantra() -> Mantra {
    Mantra {
        syllables: vec![
            "om".to_string(),
            "ma".to_string(),
            "ni".to_string(),
            "pad".to_string(),
            "me".to_string(),
            "hum".to_string(),
        ],
        repeats: None,
    }
}

fn repeated_mantra() -> Mantra {
    Mantra {
        syllables: vec!["hri".to_string()],
        repeats: Some(108),
    }
}

#[test]
fn should_repeat() {
    let mut options = Options::default();

    options.repeats = Some(10);
    assert_eq!(options.should_repeat(5), true);
    assert_eq!(options.should_repeat(10), false);
    assert_eq!(options.should_repeat(50), false);

    options.repeats = None;
    assert_eq!(options.should_repeat(5), true);
    assert_eq!(options.should_repeat(10), true);
    assert_eq!(options.should_repeat(50), true);
}

#[test]
fn recite_string() {
    let units = MantraMiner::recite_string(&Some(PREPARATION.to_string()));
    let output: String = units.concat();
    assert_eq!(output.as_bytes(), PREPARATION.as_bytes());
}

#[test]
fn recite_mantra() {
    let mantra = simple_mantra();
    let units = mantra.recite();
    let output: String = units.concat();
    assert_eq!(output.as_bytes(), "om\nma\nni\npad\nme\nhum\n".as_bytes());
}

#[test]
fn recite_string_absent_text() {
    let units = MantraMiner::recite_string(&None);
    assert!(units.is_empty());
}

#[test]
fn recite_string_multibyte_characters() {
    let units = MantraMiner::recite_string(&Some("oṃ āḥ".to_string()));
    assert_eq!(units, vec!["o", "ṃ", " ", "ā", "ḥ"]);
    assert_eq!(units.concat(), "oṃ āḥ");
}

#[test]
fn recite_repeated_mantra() {
    let units = repeated_mantra().recite();
    assert_eq!(units.len(), 108);
    for unit in &units {
        assert_eq!(unit, "hri\n");
    }
}

#[test]
fn iteration_of_empty_options() {
    let units = MantraMiner::iteration(&Options::default());
    assert!(units.is_empty());
}

#[test]
fn iteration_of_full_script() {
    let options = Options {
        preparation: Some(PREPARATION.to_string()),
        preparation_repeats: Some(2),
        mantras: vec![simple_mantra(), repeated_mantra()],
        conclusion: Some(DEDICATION.to_string()),
        conclusion_repeats: None,
        repeats: Some(3),
        rate_ns: 1000,
    };
    let units = MantraMiner::iteration(&options);
    let mut expected = String::new();
    expected.push_str(PREPARATION);
    expected.push_str(PREPARATION);
    expected.push_str("om\nma\nni\npad\nme\nhum\n");
    for _ in 0..108 {
        expected.push_str("hri\n");
    }
    expected.push_str(DEDICATION);
    assert_eq!(units.concat(), expected);
    // One unit per preparation character, per syllable occurrence, and per
    // conclusion character.
    let expected_units =
        2 * PREPARATION.chars().count() + 6 + 108 + DEDICATION.chars().count();
    assert_eq!(units.len(), expected_units);
}
