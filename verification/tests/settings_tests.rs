use attt::cli::Cli;
use attt::config::Config;
use attt::settings::PromptSettings;

#[test]
fn settings_start_with_defaults() {
    let s = PromptSettings::new();
    assert_eq!(s.wc, 10);
    assert!(!s.capitalization);
    assert!(!s.punctuation);
    assert!(!s.zen);
}

#[test]
fn toggles_flip_one_switch_each() {
    let mut s = PromptSettings::new();
    s.toggle_capitalization();
    assert_eq!(s, PromptSettings { wc: 10, capitalization: true, punctuation: false, zen: false });
    s.toggle_punctuation();
    assert_eq!(s, PromptSettings { wc: 10, capitalization: true, punctuation: true, zen: false });
    s.toggle_zen();
    assert_eq!(s, PromptSettings { wc: 10, capitalization: true, punctuation: true, zen: true });
    s.toggle_capitalization();
    s.toggle_punctuation();
    s.toggle_zen();
    assert_eq!(s, PromptSettings::new());
}

#[test]
fn word_count_cycles_in_ascending_order() {
    let mut s = PromptSettings::new();
    s.next_word_count();
    assert_eq!(s.wc, 25);
    s.next_word_count();
    assert_eq!(s.wc, 50);
    s.next_word_count();
    assert_eq!(s.wc, 100);
    s.next_word_count();
    assert_eq!(s.wc, 10);
    assert!(!s.capitalization && !s.punctuation && !s.zen);
}

#[test]
fn word_count_outside_the_cycle_joins_it() {
    let mut s = PromptSettings { wc: 0, ..PromptSettings::new() };
    s.next_word_count();
    assert_eq!(s.wc, 10);
    let mut s = PromptSettings { wc: 30, ..PromptSettings::new() };
    s.next_word_count();
    assert_eq!(s.wc, 50);
    let mut s = PromptSettings { wc: u32::MAX, ..PromptSettings::new() };
    s.next_word_count();
    assert_eq!(s.wc, 10);
}

#[test]
fn cli_defaults() {
    let cli = Cli::new();
    assert!(!cli.skip_menu);
    assert_eq!(cli.config, "");
    assert_eq!(cli.wc, 25);
}

#[test]
fn config_can_be_made() {
    let config = Config::new();
    assert!(format!("{:?}", config).contains("Config"));
}

#[test]
fn default_config_is_the_new_one() {
    let config = Config::default();
    assert_eq!(format!("{:?}", config), format!("{:?}", Config::new()));
}
