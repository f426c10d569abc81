use attt::app::{App, CorpusLoadError, Pages};
use attt::cli::Cli;
use attt::handler::{handle_key_events, KeyCode, KeyEvent, KeyModifiers};
use attt::language::{LanguagePrompt, BOUNDARY};
use attt::menu::MenuOptions;
use attt::settings::PromptSettings;
use attt::stats::{Ratio, TypingStats};
use attt::typing::LetterState;

fn corpus(words: &[&str]) -> Result<LanguagePrompt, CorpusLoadError> {
    Ok(LanguagePrompt::new(
        String::from("english"),
        false,
        true,
        words.iter().map(|w| w.to_string()).collect(),
    ))
}

fn key(code: KeyCode) -> KeyEvent {
    KeyEvent { code, modifiers: KeyModifiers::Plain }
}

fn press(app: &mut App, code: KeyCode) {
    handle_key_events(key(code), app);
}

fn typing_app(words: &[&str]) -> App {
    let mut app = App::new(corpus(words));
    press(&mut app, KeyCode::Enter);
    assert_eq!(app.current_page, Pages::Typing);
    app
}

fn phrase_of(app: &App) -> Vec<char> {
    app.typing.as_ref().unwrap().phrase().clone()
}

#[test]
fn app_starts_on_the_menu() {
    let app = App::new(corpus(&["a"]));
    assert!(app.running);
    assert_eq!(app.current_page, Pages::Menu);
    assert_eq!(app.menu.selected_option(), Some(MenuOptions::Type));
    assert_eq!(app.prompt_settings, PromptSettings::new());
    assert!(app.typing.is_none());
    assert!(app.notice.is_none());
    assert!(!app.paused);
    assert_eq!(app.previous_stats, TypingStats::zero());
}

#[test]
fn quit_stops_the_application() {
    let mut app = App::new(corpus(&["a"]));
    app.quit();
    assert!(!app.running);
    assert_eq!(app.current_page, Pages::Menu);
}

#[test]
fn tick_and_resize_change_nothing() {
    let mut app = typing_app(&["ab"]);
    let before = format!("{:?}", app);
    app.tick();
    app.resize(40, 120);
    assert_eq!(format!("{:?}", app), before);
}

#[test]
fn menu_type_enters_typing_with_a_fresh_phrase() {
    let app = typing_app(&["ab", "cd"]);
    let t = app.typing.as_ref().unwrap();
    assert_eq!(t.position(), 0);
    assert!(t.typing().is_empty());
    let phrase: String = t.phrase().iter().collect();
    let words: Vec<&str> = phrase.split(BOUNDARY).collect();
    assert_eq!(words.len(), 10);
    assert!(words.iter().all(|w| *w == "ab" || *w == "cd"));
}

#[test]
fn menu_quit_stops_the_application() {
    let mut app = App::new(corpus(&["a"]));
    press(&mut app, KeyCode::Down);
    assert_eq!(app.menu.selected_option(), Some(MenuOptions::Quit));
    press(&mut app, KeyCode::Enter);
    assert!(!app.running);
    assert_eq!(app.current_page, Pages::Menu);
}

#[test]
fn menu_escape_stops_the_application() {
    let mut app = App::new(corpus(&["a"]));
    press(&mut app, KeyCode::Esc);
    assert!(!app.running);
}

#[test]
fn menu_navigation_keys() {
    let mut app = App::new(corpus(&["a"]));
    press(&mut app, KeyCode::Char('j'));
    assert_eq!(app.menu.selected(), Some(1));
    press(&mut app, KeyCode::Char('j'));
    assert_eq!(app.menu.selected(), Some(0));
    press(&mut app, KeyCode::Char('k'));
    assert_eq!(app.menu.selected(), Some(1));
    press(&mut app, KeyCode::Up);
    assert_eq!(app.menu.selected(), Some(0));
    press(&mut app, KeyCode::Char('G'));
    assert_eq!(app.menu.selected(), Some(1));
    press(&mut app, KeyCode::Char('g'));
    assert_eq!(app.menu.selected(), Some(0));
    press(&mut app, KeyCode::End);
    assert_eq!(app.menu.selected(), Some(1));
    press(&mut app, KeyCode::Home);
    assert_eq!(app.menu.selected(), Some(0));
    press(&mut app, KeyCode::Char('h'));
    assert_eq!(app.menu.selected(), None);
    press(&mut app, KeyCode::Down);
    assert_eq!(app.menu.selected(), Some(0));
    press(&mut app, KeyCode::Left);
    assert_eq!(app.menu.selected(), None);
}

#[test]
fn menu_enter_with_nothing_selected_does_nothing() {
    let mut app = App::new(corpus(&["a"]));
    press(&mut app, KeyCode::Left);
    press(&mut app, KeyCode::Enter);
    assert!(app.running);
    assert_eq!(app.current_page, Pages::Menu);
    assert!(app.typing.is_none());
}

#[test]
fn menu_ignores_other_keys() {
    let mut app = App::new(corpus(&["a"]));
    let before = format!("{:?}", app);
    press(&mut app, KeyCode::Char('x'));
    press(&mut app, KeyCode::Right);
    press(&mut app, KeyCode::Other);
    assert_eq!(format!("{:?}", app), before);
}

#[test]
fn missing_corpus_keeps_the_menu_and_gives_notice() {
    let mut app = App::new(Err(CorpusLoadError::Missing));
    press(&mut app, KeyCode::Enter);
    assert!(app.running);
    assert_eq!(app.current_page, Pages::Menu);
    assert!(app.typing.is_none());
    assert_eq!(app.notice, Some(CorpusLoadError::Missing));
}

#[test]
fn malformed_corpus_keeps_the_menu_and_gives_notice() {
    let mut app = App::new(Err(CorpusLoadError::Malformed));
    app.select_menu_option();
    assert_eq!(app.current_page, Pages::Menu);
    assert_eq!(app.notice, Some(CorpusLoadError::Malformed));
}

#[test]
fn escape_pauses_and_escape_resumes() {
    let mut app = typing_app(&["ab"]);
    press(&mut app, KeyCode::Char('a'));
    let log = app.typing.as_ref().unwrap().typing().clone();
    app.pause_popup.select_last();
    press(&mut app, KeyCode::Esc);
    assert_eq!(app.current_page, Pages::Pause);
    assert!(app.paused);
    assert_eq!(app.pause_popup.selected(), Some(0));
    press(&mut app, KeyCode::Char('a'));
    assert_eq!(app.typing.as_ref().unwrap().typing(), &log);
    press(&mut app, KeyCode::Esc);
    assert_eq!(app.current_page, Pages::Typing);
    assert!(!app.paused);
    assert_eq!(app.typing.as_ref().unwrap().typing(), &log);
    assert_eq!(app.typing.as_ref().unwrap().position(), 1);
}

#[test]
fn pause_q_returns_to_the_menu_and_drops_the_attempt() {
    let mut app = typing_app(&["ab"]);
    press(&mut app, KeyCode::Esc);
    press(&mut app, KeyCode::Char('q'));
    assert_eq!(app.current_page, Pages::Menu);
    assert!(!app.paused);
    assert!(app.typing.is_none());
    assert!(app.running);
}

#[test]
fn pause_and_unpause_outside_their_pages_do_nothing() {
    let mut app = App::new(corpus(&["ab"]));
    app.pause();
    assert_eq!(app.current_page, Pages::Menu);
    assert!(!app.paused);
    app.unpause();
    app.leave();
    app.new_prompt();
    app.skip_prompt();
    app.restart_prompt();
    assert_eq!(app.current_page, Pages::Menu);
    assert!(app.typing.is_none());
    let mut app = typing_app(&["ab"]);
    app.select_menu_option();
    app.unpause();
    app.leave();
    assert_eq!(app.current_page, Pages::Typing);
    assert!(app.typing.is_some());
}

#[test]
fn letters_are_typed_and_the_text_follows() {
    let mut app = typing_app(&["ab"]);
    press(&mut app, KeyCode::Char('a'));
    handle_key_events(KeyEvent { code: KeyCode::Char('B'), modifiers: KeyModifiers::Shift }, &mut app);
    let t = app.typing.as_ref().unwrap();
    assert_eq!(t.typing(), &vec!['a', 'B']);
    assert_eq!(t.position(), 1);
    assert_eq!(t.state()[1].state, LetterState::Incorrect);
    assert!(t.text()[1].active);
    assert!(!t.text()[0].active);
}

#[test]
fn space_types_the_boundary() {
    let mut app = typing_app(&["ab"]);
    press(&mut app, KeyCode::Char(' '));
    assert_eq!(app.typing.as_ref().unwrap().typing(), &vec![BOUNDARY]);
}

#[test]
fn keys_that_are_not_letters_are_not_typed() {
    let mut app = typing_app(&["ab"]);
    for c in ['1', '[', '`', '@', '{', 'é', '•'] {
        press(&mut app, KeyCode::Char(c));
    }
    handle_key_events(KeyEvent { code: KeyCode::Char('a'), modifiers: KeyModifiers::Other }, &mut app);
    handle_key_events(KeyEvent { code: KeyCode::Char('a'), modifiers: KeyModifiers::Alt }, &mut app);
    press(&mut app, KeyCode::Enter);
    press(&mut app, KeyCode::Other);
    assert!(app.typing.as_ref().unwrap().typing().is_empty());
    for c in ['A', 'Z', 'a', 'z'] {
        press(&mut app, KeyCode::Char(c));
    }
    assert_eq!(app.typing.as_ref().unwrap().typing().len(), 4);
}

#[test]
fn alt_digits_change_the_settings() {
    let mut app = typing_app(&["ab"]);
    let alt = |c: char| KeyEvent { code: KeyCode::Char(c), modifiers: KeyModifiers::Alt };
    handle_key_events(alt('1'), &mut app);
    assert_eq!(app.prompt_settings.wc, 25);
    handle_key_events(alt('2'), &mut app);
    assert!(app.prompt_settings.capitalization);
    handle_key_events(alt('3'), &mut app);
    assert!(app.prompt_settings.punctuation);
    handle_key_events(alt('4'), &mut app);
    assert!(app.prompt_settings.zen);
    handle_key_events(alt('5'), &mut app);
    assert_eq!(
        app.prompt_settings,
        PromptSettings { wc: 25, capitalization: true, punctuation: true, zen: true }
    );
    press(&mut app, KeyCode::Char('1'));
    assert_eq!(app.prompt_settings.wc, 25);
    assert!(app.typing.as_ref().unwrap().typing().is_empty());
}

#[test]
fn left_restarts_the_same_phrase() {
    let mut app = typing_app(&["ab", "cd"]);
    let phrase = phrase_of(&app);
    press(&mut app, KeyCode::Char('x'));
    press(&mut app, KeyCode::Left);
    let t = app.typing.as_ref().unwrap();
    assert_eq!(t.phrase(), &phrase);
    assert!(t.typing().is_empty());
    assert_eq!(t.position(), 0);
    assert!(t.state().iter().all(|l| l.state == LetterState::Unpressed));
    assert_eq!(app.current_page, Pages::Typing);
}

#[test]
fn right_skips_and_keeps_the_previous_statistics() {
    let mut app = typing_app(&["ab"]);
    press(&mut app, KeyCode::Char('a'));
    press(&mut app, KeyCode::Right);
    assert_eq!(app.current_page, Pages::Typing);
    assert_eq!(app.previous_stats, TypingStats::zero());
    let t = app.typing.as_ref().unwrap();
    assert!(t.typing().is_empty());
    assert_eq!(t.position(), 0);
}

#[test]
fn completing_a_phrase_keeps_its_statistics_and_starts_a_new_one() {
    let mut app = App::with_cli(
        &Cli { skip_menu: true, config: String::new(), wc: 2 },
        corpus(&["ab"]),
    );
    assert_eq!(app.current_page, Pages::Typing);
    let phrase = phrase_of(&app);
    assert_eq!(phrase, vec!['a', 'b', BOUNDARY, 'a', 'b']);
    press(&mut app, KeyCode::Char('x'));
    for c in ['a', 'b', ' ', 'a'] {
        press(&mut app, KeyCode::Char(c));
        assert_eq!(app.previous_stats, TypingStats::zero());
    }
    press(&mut app, KeyCode::Char('b'));
    assert_eq!(app.current_page, Pages::Typing);
    // 5 characters of the phrase over 6 typed
    assert_eq!(app.previous_stats.accuracy, Ratio { num: 500, den: 6 });
    assert_eq!(app.previous_stats.wpm.num, if app.previous_stats.wpm.den == 1 { 0 } else { 72_000_000_000 });
    let t = app.typing.as_ref().unwrap();
    assert!(t.typing().is_empty());
    assert_eq!(t.position(), 0);
    assert_eq!(t.phrase(), &phrase);
}

#[test]
fn with_cli_sets_the_word_count() {
    let app = App::with_cli(&Cli { skip_menu: false, config: String::new(), wc: 50 }, corpus(&["ab"]));
    assert_eq!(app.current_page, Pages::Menu);
    assert_eq!(app.prompt_settings.wc, 50);
    assert!(app.typing.is_none());
    let app = App::with_cli(&Cli::new(), corpus(&["ab"]));
    assert_eq!(app.prompt_settings.wc, 25);
}

#[test]
fn with_cli_cannot_skip_the_menu_without_a_corpus() {
    let app = App::with_cli(
        &Cli { skip_menu: true, config: String::new(), wc: 10 },
        Err(CorpusLoadError::Missing),
    );
    assert_eq!(app.current_page, Pages::Menu);
    assert_eq!(app.notice, Some(CorpusLoadError::Missing));
    assert!(app.typing.is_none());
}

#[test]
fn new_prompt_uses_the_current_word_count() {
    let mut app = typing_app(&["ab"]);
    app.prompt_settings.next_word_count();
    app.new_prompt();
    let phrase: String = phrase_of(&app).iter().collect();
    assert_eq!(phrase.split(BOUNDARY).count(), 25);
}

#[test]
fn empty_corpus_gives_an_empty_phrase_that_takes_no_input() {
    let mut app = typing_app(&[]);
    assert!(phrase_of(&app).is_empty());
    press(&mut app, KeyCode::Char('a'));
    assert_eq!(app.current_page, Pages::Typing);
    assert!(app.typing.as_ref().unwrap().typing().is_empty());
    assert_eq!(app.previous_stats, TypingStats::zero());
}

#[test]
fn pause_always_opens_on_resume() {
    let mut app = typing_app(&["ab"]);
    for _ in 0..3 {
        app.pause();
        assert_eq!(app.pause_popup.selected_option(), Some(attt::pause::PauseOptions::Resume));
        app.pause_popup.select_next();
        assert_eq!(app.pause_popup.selected_option(), Some(attt::pause::PauseOptions::Quit));
        app.unpause();
    }
}
