use fretboard::config::{Config, ConfigError, MAX_FRET_COUNT, MAX_GAP, MAX_WINDOW_WIDTH};
use fretboard::geometry::Rgba;
use fretboard::note::Note;

fn grey() -> Rgba {
    Rgba { r: 153, g: 153, b: 153, a: 255 }
}

fn seven_greys() -> Vec<Rgba> {
    vec![grey(); 7]
}

fn six_open_strings() -> Vec<Note> {
    vec![Note::E, Note::A, Note::D, Note::G, Note::B, Note::E]
}

#[test]
fn valid_config_is_accepted() {
    let config = Config::new(six_open_strings(), seven_greys(), 50, 1000, 22).unwrap();
    assert_eq!(config.tuning, six_open_strings());
    assert_eq!(config.palette, seven_greys());
    assert_eq!(config.gap, 50);
    assert_eq!(config.window_width, 1000);
    assert_eq!(config.fret_count, 22);
}

#[test]
fn short_tuning_is_rejected() {
    let tuning = vec![Note::E, Note::A, Note::D, Note::G, Note::B];
    let r = Config::new(tuning, seven_greys(), 50, 1000, 22);
    assert_eq!(r, Err(ConfigError::TuningLength));
}

#[test]
fn long_tuning_is_rejected() {
    let tuning = vec![Note::E; 7];
    let r = Config::new(tuning, seven_greys(), 50, 1000, 22);
    assert_eq!(r, Err(ConfigError::TuningLength));
}

#[test]
fn non_positive_fret_count_is_rejected() {
    let zero = Config::new(six_open_strings(), seven_greys(), 50, 1000, 0);
    assert_eq!(zero, Err(ConfigError::FretCount));
    let negative = Config::new(six_open_strings(), seven_greys(), 50, 1000, -3);
    assert_eq!(negative, Err(ConfigError::FretCount));
}

#[test]
fn oversized_fret_count_is_rejected() {
    let r = Config::new(six_open_strings(), seven_greys(), 50, 1000, MAX_FRET_COUNT + 1);
    assert_eq!(r, Err(ConfigError::FretCount));
}

#[test]
fn wrong_palette_length_is_rejected() {
    let r = Config::new(six_open_strings(), vec![grey(); 6], 50, 1000, 22);
    assert_eq!(r, Err(ConfigError::PaletteLength));
}

#[test]
fn bad_gap_is_rejected() {
    let zero = Config::new(six_open_strings(), seven_greys(), 0, 1000, 22);
    assert_eq!(zero, Err(ConfigError::Gap));
    let odd = Config::new(six_open_strings(), seven_greys(), 51, 1000, 22);
    assert_eq!(odd, Err(ConfigError::Gap));
    let huge = Config::new(six_open_strings(), seven_greys(), MAX_GAP + 2, 1000, 22);
    assert_eq!(huge, Err(ConfigError::Gap));
}

#[test]
fn bad_window_width_is_rejected() {
    let negative = Config::new(six_open_strings(), seven_greys(), 50, -2, 22);
    assert_eq!(negative, Err(ConfigError::WindowWidth));
    let odd = Config::new(six_open_strings(), seven_greys(), 50, 999, 22);
    assert_eq!(odd, Err(ConfigError::WindowWidth));
    let huge = Config::new(six_open_strings(), seven_greys(), 50, MAX_WINDOW_WIDTH + 2, 22);
    assert_eq!(huge, Err(ConfigError::WindowWidth));
}

#[test]
fn first_invalid_input_names_the_error() {
    let tuning = vec![Note::E];
    let r = Config::new(tuning, vec![grey(); 3], 0, -1, 0);
    assert_eq!(r, Err(ConfigError::TuningLength));
    let r2 = Config::new(six_open_strings(), vec![grey(); 3], 0, -1, 0);
    assert_eq!(r2, Err(ConfigError::FretCount));
}

#[test]
fn note_letters_round_trip() {
    let letters = ['A', 'B', 'C', 'D', 'E', 'F', 'G'];
    for k in 0..7 {
        assert_eq!(Note::from_index(k).letter(), letters[k]);
    }
}
