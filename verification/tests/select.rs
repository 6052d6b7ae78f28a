use ezgl::config::{config_template, select_config};

#[test]
fn no_preference_picks_greatest_sample_count() {
    let samples = vec![0u8, 2, 4, 8];
    assert_eq!(select_config(&samples, None), Some(3));
}

#[test]
fn exact_preference_picks_the_match_not_the_maximum() {
    let samples = vec![0u8, 2, 4, 8];
    assert_eq!(select_config(&samples, Some(4)), Some(2));
}

#[test]
fn absent_preference_falls_back_to_the_maximum() {
    let samples = vec![0u8, 2, 4, 8];
    assert_eq!(select_config(&samples, Some(16)), Some(3));
}

#[test]
fn empty_enumeration_selects_nothing() {
    let samples: Vec<u8> = Vec::new();
    assert_eq!(select_config(&samples, None), None);
    assert_eq!(select_config(&samples, Some(4)), None);
}

#[test]
fn equal_maxima_first_seen_wins() {
    let samples = vec![8u8, 8, 2];
    assert_eq!(select_config(&samples, None), Some(0));
}

#[test]
fn repeated_exact_matches_first_seen_wins() {
    let samples = vec![2u8, 4, 4, 8];
    assert_eq!(select_config(&samples, Some(4)), Some(1));
}

#[test]
fn single_configuration_is_selected_either_way() {
    let samples = vec![0u8];
    assert_eq!(select_config(&samples, None), Some(0));
    assert_eq!(select_config(&samples, Some(8)), Some(0));
}

#[test]
fn template_requires_alpha_window_compatibility_and_on_screen() {
    let t = config_template();
    assert_eq!(t.alpha_bits, 8);
    assert!(t.window_compatible);
    assert!(t.on_screen);
}
