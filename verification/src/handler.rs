//! What each key does on each page.

use crate::app::{App, AppView, Pages};
use crate::language::BOUNDARY;
use crate::menu::MenuView;
use crate::selection::SelectionView;
use crate::settings::{following_word_count, PromptSettings};
use crate::typing::TypingView;
use vstd::prelude::*;

verus! {

/// The key that was pressed.
#[derive(Debug, Clone, Copy, PartialEq, Eq, Structural)]
pub enum KeyCode {
    Esc,
    Enter,
    Left,
    Right,
    Up,
    Down,
    Home,
    End,
    Char(char),
    /// Any key the application has no use for.
    Other,
}

/// The modifier keys held down with the key.
#[derive(Debug, Clone, Copy, PartialEq, Eq, Structural)]
pub enum KeyModifiers {
    /// No modifier.
    Plain,
    /// Shift alone.
    Shift,
    /// Alt alone.
    Alt,
    /// Any other modifier or combination of modifiers.
    Other,
}

/// A key press.
#[derive(Debug, Clone, Copy, PartialEq, Eq, Structural)]
pub struct KeyEvent {
    pub code: KeyCode,
    pub modifiers: KeyModifiers,
}

/// `c` is one of the letters `A` to `Z` and `a` to `z`.
pub open spec fn is_letter(c: char) -> bool {
    ('A' <= c && c <= 'Z') || ('a' <= c && c <= 'z')
}

/// The menu's selection after the key `code`.
pub open spec fn menu_navigation(code: KeyCode, selection: SelectionView) -> SelectionView {
    if code == KeyCode::Char('h') || code == KeyCode::Left {
        selection.select_none()
    } else if code == KeyCode::Char('j') || code == KeyCode::Down {
        selection.select_next()
    } else if code == KeyCode::Char('k') || code == KeyCode::Up {
        selection.select_previous()
    } else if code == KeyCode::Char('g') || code == KeyCode::Home {
        selection.select_first()
    } else if code == KeyCode::Char('G') || code == KeyCode::End {
        selection.select_last()
    } else {
        selection
    }
}

/// `post` is the application after `key` was pressed on the menu: escape
/// stops the application, enter takes the highlighted option, and the
/// navigation keys move the highlight.
pub open spec fn menu_key(pre: AppView, key: KeyEvent, post: AppView) -> bool {
    match key.code {
        KeyCode::Esc => post == pre.quit(),
        KeyCode::Enter => pre.selects_menu_option(post),
        _ => post == (AppView {
            menu: MenuView { selection: menu_navigation(key.code, pre.menu.selection), ..pre.menu },
            ..pre
        }),
    }
}

/// The application after `key` was pressed on the pause overlay: escape
/// resumes the attempt, `q` gives it up for the menu.
pub open spec fn pause_key(pre: AppView, key: KeyEvent) -> AppView {
    if key.code == KeyCode::Esc {
        pre.unpause()
    } else if key.code == KeyCode::Char('q') {
        pre.leave()
    } else {
        pre
    }
}

/// The settings after a digit was pressed with alt: `1` moves the word
/// count on, `2`, `3` and `4` flip capitalization, punctuation and zen mode.
pub open spec fn alt_key(c: char, settings: PromptSettings) -> PromptSettings {
    if c == '1' {
        PromptSettings { wc: following_word_count(settings.wc), ..settings }
    } else if c == '2' {
        PromptSettings { capitalization: !settings.capitalization, ..settings }
    } else if c == '3' {
        PromptSettings { punctuation: !settings.punctuation, ..settings }
    } else if c == '4' {
        PromptSettings { zen: !settings.zen, ..settings }
    } else {
        settings
    }
}

/// The application with the display of its attempt brought up to date.
pub open spec fn refreshed(pre: AppView) -> AppView {
    match pre.typing {
        Some(attempt) => AppView { typing: Some(attempt.construct_text()), ..pre },
        None => pre,
    }
}

/// `post` is the application after the character `c` was typed at some
/// moment: the attempt takes the keystroke and its display is brought up to
/// date; where the keystroke completes the attempt, the statistics are kept
/// and a new attempt is set up.
pub open spec fn types(pre: AppView, c: char, post: AppView) -> bool {
    match pre.typing {
        Some(attempt) => exists|now: nat|
            {
                let typed = AppView {
                    typing: Some((#[trigger] attempt.input(c, now)).construct_text()),
                    ..pre
                };
                if attempt.completes(c) {
                    typed.advances_prompt(post)
                } else {
                    post == typed
                }
            },
        None => post == pre,
    }
}

/// `post` is the application after `key` was pressed on the typing page.
/// Escape pauses. The space bar types the boundary marker; a letter, alone
/// or with shift, types itself. Alt with a digit changes a setting. Left
/// starts the attempt over, right skips to a new one. Any other key does
/// nothing. Whatever the key, the display of the attempt is then brought up
/// to date.
pub open spec fn typing_key(pre: AppView, key: KeyEvent, post: AppView) -> bool {
    match key.code {
        KeyCode::Esc => post == refreshed(pre.pause()),
        KeyCode::Char(c) => {
            if c == ' ' {
                types(pre, BOUNDARY, post)
            } else if (key.modifiers == KeyModifiers::Plain || key.modifiers == KeyModifiers::Shift)
                && is_letter(c) {
                types(pre, c, post)
            } else if key.modifiers == KeyModifiers::Alt {
                post == refreshed(
                    AppView { prompt_settings: alt_key(c, pre.prompt_settings), ..pre },
                )
            } else {
                post == refreshed(pre)
            }
        },
        KeyCode::Left => post == refreshed(pre.restart()),
        KeyCode::Right => pre.skips_prompt(post),
        _ => post == refreshed(pre),
    }
}

/// `post` is the application after `key` was pressed, whatever page is
/// shown.
pub open spec fn handles(pre: AppView, key: KeyEvent, post: AppView) -> bool {
    match pre.current_page {
        Pages::Menu => menu_key(pre, key, post),
        Pages::Typing => typing_key(pre, key, post),
        Pages::Pause => post == pause_key(pre, key),
    }
}

/// Handles the key events and updates the state of [`App`].
pub fn handle_key_events(key_event: KeyEvent, app: &mut App)
    requires
        old(app)@.wf(),
    ensures
        handles(old(app)@, key_event, final(app)@),
        final(app)@.wf(),
{
    match app.current_page {
        Pages::Menu => handle_menu(key_event, app),
        Pages::Typing => handle_typing(key_event, app),
        Pages::Pause => handle_pause(key_event, app),
    }
}

fn handle_menu(key_event: KeyEvent, app: &mut App)
    requires
        old(app)@.wf(),
    ensures
        menu_key(old(app)@, key_event, final(app)@),
        final(app)@.wf(),
{
    match key_event.code {
        // Exit application on `ESC`
        KeyCode::Esc => {
            app.quit();
        },
        KeyCode::Char('h') | KeyCode::Left => app.menu.select_none(),
        KeyCode::Char('j') | KeyCode::Down => app.menu.select_next(),
        KeyCode::Char('k') | KeyCode::Up => app.menu.select_previous(),
        KeyCode::Char('g') | KeyCode::Home => app.menu.select_first(),
        KeyCode::Char('G') | KeyCode::End => app.menu.select_last(),
        KeyCode::Enter => app.select_menu_option(),
        _ => {},
    }
}

fn handle_pause(key_event: KeyEvent, app: &mut App)
    requires
        old(app)@.wf(),
    ensures
        final(app)@ == pause_key(old(app)@, key_event),
        final(app)@.wf(),
{
    match key_event.code {
        // Resume on `ESC`
        KeyCode::Esc => {
            app.unpause();
        },
        KeyCode::Char('q') => {
            app.leave();
        },
        _ => {},
    }
}

/// Whether `c` is one of the letters the typing page takes.
fn is_alphabet_char(c: char) -> (letter: bool)
    ensures
        letter == is_letter(c),
{
    ('A' <= c && c <= 'Z') || ('a' <= c && c <= 'z')
}

/// Hands the character `c` to the attempt, if there is one, and says
/// whether it completed the attempt.
fn type_char(app: &mut App, c: char) -> (done: bool)
    requires
        old(app)@.wf(),
    ensures
        match old(app)@.typing {
            Some(attempt) => {
                &&& done == attempt.completes(c)
                &&& exists|now: nat|
                    final(app)@ == (AppView {
                        typing: Some(#[trigger] attempt.input(c, now)),
                        ..old(app)@
                    })
            },
            None => !done && final(app)@ == old(app)@,
        },
        final(app)@.wf(),
{
    match &mut app.typing {
        Some(attempt) => attempt.input(c),
        None => false,
    }
}

/// Brings the display of the attempt, if there is one, up to date.
fn refresh(app: &mut App)
    requires
        old(app)@.wf(),
    ensures
        final(app)@ == refreshed(old(app)@),
        final(app)@.wf(),
{
    match &mut app.typing {
        Some(attempt) => attempt.construct_text(),
        None => {},
    }
}

fn handle_typing(key_event: KeyEvent, app: &mut App)
    requires
        old(app)@.wf(),
        old(app)@.current_page == Pages::Typing,
    ensures
        typing_key(old(app)@, key_event, final(app)@),
        final(app)@.wf(),
{
    let ghost pre = app@;
    let ghost mut typed: Option<char> = None;
    let mut prompt_complete = false;
    match key_event.code {
        // Pause on `ESC`
        KeyCode::Esc => {
            app.pause();
        },
        KeyCode::Char(ch) => {
            if ch == ' ' {
                prompt_complete = type_char(app, BOUNDARY);
                proof {
                    typed = Some(BOUNDARY);
                }
            } else if (key_event.modifiers == KeyModifiers::Plain || key_event.modifiers
                == KeyModifiers::Shift) && is_alphabet_char(ch) {
                prompt_complete = type_char(app, ch);
                proof {
                    typed = Some(ch);
                }
            } else if key_event.modifiers == KeyModifiers::Alt {
                match ch {
                    '1' => {
                        app.prompt_settings.next_word_count();
                    },
                    '2' => {
                        app.prompt_settings.toggle_capitalization();
                    },
                    '3' => {
                        app.prompt_settings.toggle_punctuation();
                    },
                    '4' => {
                        app.prompt_settings.toggle_zen();
                    },
                    _ => {},
                }
            }
        },
        // restart current prompt
        KeyCode::Left => {
            app.restart_prompt();
        },
        // skip to new prompt
        KeyCode::Right => {
            app.skip_prompt();
            proof {
                TypingView::lemma_ready_is_constructed(app@.typing.unwrap().phrase);
            }
        },
        _ => {},
    }
    let ghost mid = app@;

    refresh(app);
    let ghost shown = app@;
    if prompt_complete {
        app.new_prompt();
    }
    proof {
        if let Some(c) = typed {
            let attempt = pre.typing.unwrap();
            let now = choose|now: nat|
                mid == (AppView { typing: Some(#[trigger] attempt.input(c, now)), ..pre });
            assert(shown == (AppView {
                typing: Some(attempt.input(c, now).construct_text()),
                ..pre
            }));
            assert(types(pre, c, app@));
        }
    }
}

} // verus!
