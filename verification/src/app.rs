//! The controller that sequences the pages of the application.

use crate::cli::Cli;
use crate::language::{is_sample, LanguagePrompt};
use crate::menu::{Menu, MenuOptions, MenuView};
use crate::pause::{Pause, PauseOptions, PauseView};
use crate::settings::PromptSettings;
use crate::stats::TypingStats;
use crate::typing::{Typing, TypingView};
use vstd::prelude::*;

verus! {

/// All possible pages the user could be shown.
#[derive(Debug, Clone, Copy, PartialEq, Eq, Structural)]
pub enum Pages {
    Menu,
    Typing,
    Pause,
}

/// Why no word corpus is at hand.
#[derive(Debug, Clone, Copy, PartialEq, Eq, Structural)]
pub enum CorpusLoadError {
    /// The resource could not be read.
    Missing,
    /// The resource could be read and is not a corpus.
    Malformed,
}

/// The mathematical state of the application.
pub struct AppView {
    pub running: bool,
    pub current_page: Pages,
    pub menu: MenuView,
    pub prompt_settings: PromptSettings,
    /// The words of the corpus, or why there is none.
    pub corpus: Result<Seq<Seq<char>>, CorpusLoadError>,
    /// The failure to be shown to the user, if any.
    pub notice: Option<CorpusLoadError>,
    /// The attempt in progress; none while the menu is shown.
    pub typing: Option<TypingView>,
    pub pause_popup: PauseView,
    pub paused: bool,
    /// The statistics of the last completed attempt.
    pub previous_stats: TypingStats,
}

impl AppView {
    /// What holds of the application in every state: the menu and the pause
    /// overlay keep the options they start with; an attempt exists exactly
    /// while the typing page or the pause overlay is shown, and then a
    /// corpus is at hand; the overlay is shown exactly while paused.
    pub open spec fn wf(self) -> bool {
        &&& self.menu.wf()
        &&& self.menu.options == MenuView::initial().options
        &&& self.pause_popup.wf()
        &&& self.pause_popup.options == PauseView::initial().options
        &&& self.paused <==> self.current_page == Pages::Pause
        &&& self.typing is Some <==> self.current_page != Pages::Menu
        &&& self.typing matches Some(attempt) ==> attempt.valid() && self.corpus is Ok
    }

    /// The application as it starts: on the menu, with no attempt made.
    pub open spec fn initial(
        corpus: Result<Seq<Seq<char>>, CorpusLoadError>,
        settings: PromptSettings,
    ) -> AppView {
        AppView {
            running: true,
            current_page: Pages::Menu,
            menu: MenuView::initial(),
            prompt_settings: settings,
            corpus,
            notice: None,
            typing: None,
            pause_popup: PauseView::initial(),
            paused: false,
            previous_stats: TypingStats::blank(),
        }
    }

    /// The application told to stop.
    pub open spec fn quit(self) -> AppView {
        AppView { running: false, ..self }
    }

    /// Both lists have two options in every state, and on the menu `Type` is
    /// the first option and `Quit` the second.
    pub proof fn lemma_menu_options(self)
        requires
            self.wf(),
        ensures
            self.menu.selection.selected == Some(0nat) ==> self.menu.selected_option() == Some(
                MenuOptions::Type,
            ),
            self.menu.selection.selected == Some(1nat) ==> self.menu.selected_option() == Some(
                MenuOptions::Quit,
            ),
            self.menu.selection.len == 2,
            self.pause_popup.selection.len == 2,
    {
    }

    /// The typing page paused: the overlay opens with its first option
    /// highlighted. Anywhere else nothing changes.
    pub open spec fn pause(self) -> AppView {
        if self.current_page == Pages::Typing {
            AppView {
                paused: true,
                pause_popup: PauseView {
                    selection: self.pause_popup.selection.select_first(),
                    ..self.pause_popup
                },
                current_page: Pages::Pause,
                ..self
            }
        } else {
            self
        }
    }

    /// The paused attempt resumed as it was. Anywhere else nothing changes.
    pub open spec fn unpause(self) -> AppView {
        if self.current_page == Pages::Pause {
            AppView { paused: false, current_page: Pages::Typing, ..self }
        } else {
            self
        }
    }

    /// The paused attempt given up for the menu. Anywhere else nothing
    /// changes.
    pub open spec fn leave(self) -> AppView {
        if self.current_page == Pages::Pause {
            AppView { paused: false, current_page: Pages::Menu, typing: None, ..self }
        } else {
            self
        }
    }

    /// The attempt started over on the same phrase. Anywhere but on the
    /// typing page nothing changes.
    pub open spec fn restart(self) -> AppView {
        match self.typing {
            Some(attempt) if self.current_page == Pages::Typing => AppView {
                typing: Some(attempt.reset()),
                ..self
            },
            _ => self,
        }
    }

    /// `next` is the application after an attempt at a freshly drawn phrase
    /// was set up: on the typing page, with the attempt ready. Without a
    /// corpus no attempt is set up: the page stays and the failure is put on
    /// notice.
    pub open spec fn sets_up_typing(self, next: AppView) -> bool {
        match self.corpus {
            Ok(corpus) => {
                &&& next.typing matches Some(attempt)
                &&& attempt == TypingView::ready(attempt.phrase)
                &&& is_sample(corpus, attempt.phrase, self.prompt_settings.wc as nat)
                &&& attempt.phrase.len() <= usize::MAX
                &&& next == AppView {
                    current_page: Pages::Typing,
                    typing: next.typing,
                    notice: None,
                    paused: false,
                    ..self
                }
            },
            Err(failure) => next == AppView { notice: Some(failure), ..self },
        }
    }

    /// `next` is the application after the highlighted option of the menu
    /// was taken: `Type` sets up an attempt, `Quit` stops the application.
    /// With no option highlighted, or away from the menu, nothing changes.
    pub open spec fn selects_menu_option(self, next: AppView) -> bool {
        if self.current_page != Pages::Menu {
            next == self
        } else {
            match self.menu.selected_option() {
                Some(MenuOptions::Type) => self.sets_up_typing(next),
                Some(MenuOptions::Quit) => next == self.quit(),
                None => next == self,
            }
        }
    }

    /// `next` is the application after the attempt was left for a new one
    /// and its statistics were kept as the previous ones. Anywhere but on
    /// the typing page nothing changes.
    pub open spec fn advances_prompt(self, next: AppView) -> bool {
        match self.typing {
            Some(attempt) if self.current_page == Pages::Typing => {
                &&& TypingStats::of(
                    attempt.phrase.len(),
                    attempt.typing.len(),
                    attempt.elapsed,
                    next.previous_stats,
                )
                &&& (AppView { previous_stats: next.previous_stats, ..self }).sets_up_typing(next)
            },
            _ => next == self,
        }
    }

    /// `next` is the application after the attempt was left for a new one
    /// and its statistics were dropped. Anywhere but on the typing page
    /// nothing changes.
    pub open spec fn skips_prompt(self, next: AppView) -> bool {
        if self.current_page == Pages::Typing {
            self.sets_up_typing(next)
        } else {
            next == self
        }
    }
}

/// The application: which page is shown, and the state behind each page.
#[derive(Debug)]
pub struct App {
    pub running: bool,
    pub current_page: Pages,
    pub menu: Menu,
    pub prompt_settings: PromptSettings,
    /// The corpus that was loaded, or why there is none.
    pub language: Result<LanguagePrompt, CorpusLoadError>,
    /// The failure to be shown to the user, if any.
    pub notice: Option<CorpusLoadError>,
    /// The attempt in progress; none while the menu is shown.
    pub typing: Option<Typing>,
    pub pause_popup: Pause,
    pub paused: bool,
    pub previous_stats: TypingStats,
}

impl View for App {
    type V = AppView;

    open spec fn view(&self) -> AppView {
        AppView {
            running: self.running,
            current_page: self.current_page,
            menu: self.menu@,
            prompt_settings: self.prompt_settings,
            corpus: App::corpus_of(self.language),
            notice: self.notice,
            typing: match self.typing {
                Some(attempt) => Some(attempt@),
                None => None,
            },
            pause_popup: self.pause_popup@,
            paused: self.paused,
            previous_stats: self.previous_stats,
        }
    }
}

impl App {
    /// The corpus as the application's state holds it.
    pub open spec fn corpus_of(language: Result<LanguagePrompt, CorpusLoadError>) -> Result<
        Seq<Seq<char>>,
        CorpusLoadError,
    > {
        match language {
            Ok(language) => Ok(language.corpus()),
            Err(failure) => Err(failure),
        }
    }

    /// Constructs the application over the corpus that was loaded, or over
    /// the failure to load one.
    pub fn new(language: Result<LanguagePrompt, CorpusLoadError>) -> (app: Self)
        ensures
            app@ == AppView::initial(Self::corpus_of(language), PromptSettings::initial()),
            app@.wf(),
    {
        Self {
            running: true,
            current_page: Pages::Menu,
            menu: Menu::new(),
            prompt_settings: PromptSettings::new(),
            language,
            notice: None,
            typing: None,
            pause_popup: Pause::new(),
            paused: false,
            previous_stats: TypingStats::zero(),
        }
    }

    /// Constructs the application as the command line asks: with its word
    /// count, and past the menu where it says so.
    pub fn with_cli(cli: &Cli, language: Result<LanguagePrompt, CorpusLoadError>) -> (app: Self)
        ensures
            ({
                let settings = PromptSettings { wc: cli.wc, ..PromptSettings::initial() };
                let start = AppView::initial(Self::corpus_of(language), settings);
                if cli.skip_menu {
                    start.sets_up_typing(app@)
                } else {
                    app@ == start
                }
            }),
            app@.wf(),
    {
        let mut app = Self::new(language);
        app.prompt_settings.wc = cli.wc;
        if cli.skip_menu {
            app.setup_typing();
        }
        app
    }

    /// Handles the tick event of the terminal.
    pub fn tick(&self) {
    }

    /// Set running to false to quit the application.
    pub fn quit(&mut self)
        ensures
            final(self)@ == old(self)@.quit(),
    {
        self.running = false;
    }

    pub fn pause(&mut self)
        requires
            old(self)@.wf(),
        ensures
            final(self)@ == old(self)@.pause(),
            final(self)@.wf(),
            old(self)@.current_page == Pages::Typing ==> final(self)@.pause_popup.selected_option()
                == Some(PauseOptions::Resume),
    {
        if self.current_page == Pages::Typing {
            self.paused = true;
            self.pause_popup.select_first();
            self.current_page = Pages::Pause;
        }
    }

    pub fn unpause(&mut self)
        requires
            old(self)@.wf(),
        ensures
            final(self)@ == old(self)@.unpause(),
            final(self)@.wf(),
    {
        if self.current_page == Pages::Pause {
            self.paused = false;
            self.current_page = Pages::Typing;
        }
    }

    /// Gives the paused attempt up and returns to the menu.
    pub fn leave(&mut self)
        requires
            old(self)@.wf(),
        ensures
            final(self)@ == old(self)@.leave(),
            final(self)@.wf(),
    {
        if self.current_page == Pages::Pause {
            self.paused = false;
            self.current_page = Pages::Menu;
            self.typing = None;
        }
    }

    pub fn select_menu_option(&mut self)
        requires
            old(self)@.wf(),
        ensures
            old(self)@.selects_menu_option(final(self)@),
            final(self)@.wf(),
    {
        if self.current_page != Pages::Menu {
            return ;
        }
        match self.menu.selected_option() {
            Some(MenuOptions::Type) => self.setup_typing(),
            Some(MenuOptions::Quit) => self.quit(),
            None => {},
        }
    }

    fn setup_typing(&mut self)
        requires
            old(self)@.wf(),
            old(self)@.current_page != Pages::Pause,
        ensures
            old(self)@.sets_up_typing(final(self)@),
            final(self)@.wf(),
    {
        match &self.language {
            Ok(language) => {
                let phrase = language.generate(self.prompt_settings.wc);
                assert(phrase@.len() == phrase.len());
                self.current_page = Pages::Typing;
                self.typing = Some(Typing::new(phrase));
                self.notice = None;
            },
            Err(failure) => {
                self.notice = Some(*failure);
            },
        }
    }

    /// Keeps the statistics of the attempt and sets up a new one.
    pub fn new_prompt(&mut self)
        requires
            old(self)@.wf(),
        ensures
            old(self)@.advances_prompt(final(self)@),
            final(self)@.wf(),
    {
        if self.current_page != Pages::Typing {
            return ;
        }
        match &self.typing {
            Some(attempt) => {
                self.previous_stats = attempt.calculate_statistics();
                self.setup_typing();
            },
            None => {},
        }
    }

    /// Sets up a new attempt and drops the statistics of the one that is
    /// left.
    pub fn skip_prompt(&mut self)
        requires
            old(self)@.wf(),
        ensures
            old(self)@.skips_prompt(final(self)@),
            final(self)@.wf(),
    {
        if self.current_page == Pages::Typing {
            self.setup_typing();
        }
    }

    /// Starts the attempt over on the same phrase.
    pub fn restart_prompt(&mut self)
        requires
            old(self)@.wf(),
        ensures
            final(self)@ == old(self)@.restart(),
            final(self)@.wf(),
    {
        if self.current_page != Pages::Typing {
            return ;
        }
        match &mut self.typing {
            Some(attempt) => {
                attempt.reset();
            },
            None => {},
        }
    }

    pub fn resize(&mut self, height: u16, width: u16)
        ensures
            final(self)@ == old(self)@,
    {
    }
}

} // verus!
