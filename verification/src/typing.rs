//! The typing engine: one attempt at one phrase, scored keystroke by
//! keystroke.

use crate::stats::{accuracy_percent, TypingStats};
use std::time::Instant;
use vstd::prelude::*;

verus! {

/// What is known of one position of the phrase.
#[derive(Debug, Clone, Copy, PartialEq, Eq, Structural)]
pub enum LetterState {
    Unpressed,
    Incorrect,
    Correct,
}

/// The record kept for one position of the phrase: the character expected
/// there, its index, and how the user has fared on it.
#[derive(Debug, Clone, Copy, PartialEq, Eq, Structural)]
pub struct TypingLetter {
    pub state: LetterState,
    pub value: char,
    pub position: usize,
}

impl TypingLetter {
    pub fn new(c: char, state: LetterState, position: usize) -> (letter: Self)
        ensures
            letter == (TypingLetter { state, value: c, position }),
    {
        Self { state, value: c, position }
    }
}

/// How a segment of the displayed phrase is coloured.
#[derive(Debug, Clone, Copy, PartialEq, Eq, Structural)]
pub enum SegmentStyle {
    Neutral,
    Positive,
    Negative,
}

/// One character of the displayed phrase with its styling. `active` marks the
/// character the cursor stands on.
#[derive(Debug, Clone, Copy, PartialEq, Eq, Structural)]
pub struct StyledSegment {
    pub value: char,
    pub style: SegmentStyle,
    pub active: bool,
}

/// The style that shows a letter's state.
pub open spec fn style_of(state: LetterState) -> SegmentStyle {
    match state {
        LetterState::Unpressed => SegmentStyle::Neutral,
        LetterState::Incorrect => SegmentStyle::Negative,
        LetterState::Correct => SegmentStyle::Positive,
    }
}

/// The mathematical state of an attempt.
pub struct TypingView {
    /// The characters the user is asked to type.
    pub phrase: Seq<char>,
    /// Every character the user has typed, in order, mistakes included.
    pub typing: Seq<char>,
    /// One record per position of the phrase.
    pub letters: Seq<TypingLetter>,
    /// The index of the next expected character.
    pub position: nat,
    /// The display projection as it was last constructed.
    pub text: Seq<StyledSegment>,
    /// The clock reading, in nanoseconds, taken at the first keystroke.
    pub start: nat,
    /// The nanoseconds from the first keystroke to the completing one.
    pub elapsed: nat,
}

impl TypingView {
    /// The record of position `i` before anything was pressed there.
    pub open spec fn blank_letter(phrase: Seq<char>, i: int) -> TypingLetter {
        TypingLetter { state: LetterState::Unpressed, value: phrase[i], position: i as usize }
    }

    /// The attempt at `phrase` before the first keystroke.
    pub open spec fn ready(phrase: Seq<char>) -> TypingView {
        let blank = TypingView {
            phrase,
            typing: Seq::empty(),
            letters: Seq::new(phrase.len(), |i: int| Self::blank_letter(phrase, i)),
            position: 0,
            text: Seq::empty(),
            start: 0,
            elapsed: 0,
        };
        TypingView { text: blank.projection(), ..blank }
    }

    /// All of the phrase has been typed.
    pub open spec fn is_complete(self) -> bool {
        self.position >= self.phrase.len()
    }

    /// Nothing has been typed yet.
    pub open spec fn is_ready(self) -> bool {
        self.typing.len() == 0
    }

    /// A keystroke has been logged that the cursor has not yet answered.
    pub open spec fn is_pending(self) -> bool {
        self.position < self.phrase.len() && self.position < self.typing.len()
    }

    /// What holds of the records, the cursor and the timing whatever was done
    /// to the attempt: there is one record per position of the phrase, each
    /// with the expected character and its own index; the cursor stands
    /// inside the phrase or at its end; the positions before it were pressed,
    /// those after it were not, and the one under it is not yet correct.
    pub open spec fn valid(self) -> bool {
        &&& self.letters.len() == self.phrase.len()
        &&& self.text.len() == self.phrase.len()
        &&& self.position <= self.phrase.len()
        &&& forall|i: int|
            0 <= i < self.letters.len() ==> (#[trigger] self.letters[i]).value == self.phrase[i]
                && self.letters[i].position == i
        &&& forall|i: int|
            0 <= i < self.position ==> (#[trigger] self.letters[i]).state
                != LetterState::Unpressed
        &&& forall|i: int|
            self.position < i < self.letters.len() ==> (#[trigger] self.letters[i]).state
                == LetterState::Unpressed
        &&& self.position < self.letters.len() ==> self.letters[self.position as int].state
            != LetterState::Correct
        &&& forall|i: int| 0 <= i < self.text.len() ==> (#[trigger] self.text[i]).value == self.phrase[i]
        &&& self.is_ready() ==> self.start == 0
        &&& !self.is_complete() ==> self.elapsed == 0
    }

    /// What holds of an attempt that was driven by keystrokes alone: it is
    /// valid, the cursor has not passed the end of the input log, and before
    /// the first keystroke nothing is marked.
    pub open spec fn wf(self) -> bool {
        &&& self.valid()
        &&& self.position <= self.typing.len()
        &&& self.is_ready() && self.position < self.letters.len()
            ==> self.letters[self.position as int].state == LetterState::Unpressed
    }

    /// The attempt after the character `c` was compared with the expected
    /// one: a match marks the position correct, unless a mistake was made
    /// there before, and moves the cursor on; a mismatch marks the position
    /// incorrect and leaves the cursor where it is.
    pub open spec fn character_matching(self, c: char) -> TypingView
        recommends
            !self.is_complete(),
    {
        let at = self.position as int;
        if c == self.phrase[at] {
            TypingView {
                letters: if self.letters[at].state == LetterState::Incorrect {
                    self.letters
                } else {
                    self.letters.update(
                        at,
                        TypingLetter { state: LetterState::Correct, value: c, position: at as usize },
                    )
                },
                position: self.position + 1,
                ..self
            }
        } else {
            TypingView {
                letters: self.letters.update(
                    at,
                    TypingLetter {
                        state: LetterState::Incorrect,
                        value: self.phrase[at],
                        position: at as usize,
                    },
                ),
                ..self
            }
        }
    }

    /// The attempt after the keystroke `c`, made when the clock read `now`
    /// nanoseconds. A keystroke on a completed attempt changes nothing.
    pub open spec fn input(self, c: char, now: nat) -> TypingView {
        if self.is_complete() {
            self
        } else {
            let start = if self.is_ready() {
                now
            } else {
                self.start
            };
            let logged = TypingView { typing: self.typing.push(c), start, ..self };
            let matched = logged.character_matching(c);
            if matched.is_complete() {
                TypingView {
                    elapsed: if now >= start {
                        (now - start) as nat
                    } else {
                        0
                    },
                    ..matched
                }
            } else {
                matched
            }
        }
    }

    /// Whether the keystroke `c` completes the attempt.
    pub open spec fn completes(self, c: char) -> bool {
        !self.is_complete() && self.position + 1 == self.phrase.len() && c
            == self.phrase[self.position as int]
    }

    /// The styled segment shown for position `i`.
    pub open spec fn segment(self, i: int) -> StyledSegment {
        StyledSegment {
            value: self.letters[i].value,
            style: style_of(self.letters[i].state),
            active: i == self.position,
        }
    }

    /// The display projection of the records and the cursor.
    pub open spec fn projection(self) -> Seq<StyledSegment> {
        Seq::new(self.letters.len(), |i: int| self.segment(i))
    }

    /// The attempt with its display projection brought up to date.
    pub open spec fn construct_text(self) -> TypingView {
        TypingView { text: self.projection(), ..self }
    }

    /// The attempt started over on the same phrase.
    pub open spec fn reset(self) -> TypingView {
        Self::ready(self.phrase)
    }
}

impl TypingView {
    /// The attempt after the keystrokes `keys`, the `i`-th made when the
    /// clock read `times[i]`.
    pub open spec fn feed(self, keys: Seq<char>, times: Seq<nat>) -> TypingView
        recommends
            keys.len() == times.len(),
        decreases keys.len(),
    {
        if keys.len() == 0 {
            self
        } else {
            self.feed(keys.drop_last(), times.drop_last()).input(keys.last(), times.last())
        }
    }

    /// A fresh attempt is well formed.
    pub proof fn lemma_ready_wf(phrase: Seq<char>)
        requires
            phrase.len() <= usize::MAX,
        ensures
            Self::ready(phrase).wf(),
            Self::ready(phrase).is_ready(),
    {
    }

    /// The display of a fresh attempt is up to date.
    pub proof fn lemma_ready_is_constructed(phrase: Seq<char>)
        ensures
            Self::ready(phrase).construct_text() == Self::ready(phrase),
    {
        assert(Self::ready(phrase).projection() =~= Self::ready(phrase).text);
    }

    /// The compare step keeps the attempt valid: the cursor moves on by one
    /// exactly when the character is the expected one, and never passes the
    /// end of the phrase. Where the character was logged before, the attempt
    /// stays well formed.
    pub proof fn lemma_character_matching_valid(self, c: char)
        requires
            self.valid(),
            !self.is_complete(),
        ensures
            self.character_matching(c).valid(),
            self.character_matching(c).position == if c == self.phrase[self.position as int] {
                self.position + 1
            } else {
                self.position
            },
            self.character_matching(c).position <= self.phrase.len(),
            self.character_matching(c).typing == self.typing,
            self.wf() && self.is_pending() ==> self.character_matching(c).wf(),
    {
    }

    /// A keystroke keeps a valid attempt valid.
    pub proof fn lemma_input_valid(self, c: char, now: nat)
        requires
            self.valid(),
        ensures
            self.input(c, now).valid(),
    {
    }

    /// A keystroke keeps the attempt well formed. In particular the cursor
    /// never passes the end of the phrase nor the length of the input log.
    pub proof fn lemma_input_wf(self, c: char, now: nat)
        requires
            self.wf(),
        ensures
            self.input(c, now).wf(),
            self.input(c, now).phrase == self.phrase,
            self.input(c, now).text == self.text,
    {
    }

    /// Constructing the display twice in a row gives what constructing it
    /// once gives.
    pub proof fn lemma_construct_text_idempotent(self)
        ensures
            self.construct_text().construct_text() == self.construct_text(),
    {
        assert(self.construct_text().projection() =~= self.projection());
    }

    /// Constructing the display changes nothing but the display, and keeps
    /// the attempt well formed.
    pub proof fn lemma_construct_text_wf(self)
        requires
            self.wf(),
        ensures
            self.construct_text().wf(),
            self.construct_text() == (TypingView { text: self.construct_text().text, ..self }),
    {
    }

    /// Starting over gives the fresh attempt at the same phrase: the input
    /// log empty, the cursor at 0, every record unpressed.
    pub proof fn lemma_reset_restores_ready(self)
        ensures
            self.reset().phrase == self.phrase,
            self.reset().typing.len() == 0,
            self.reset().position == 0,
            self.reset().letters.len() == self.phrase.len(),
            forall|i: int|
                0 <= i < self.phrase.len() ==> (#[trigger] self.reset().letters[i]).state
                    == LetterState::Unpressed,
            self.reset() == Self::ready(self.phrase),
    {
    }

    /// A keystroke that differs from the expected character is logged, marks
    /// the position incorrect and leaves the cursor where it is.
    pub proof fn lemma_mismatch_keeps_cursor(self, c: char, now: nat)
        requires
            self.wf(),
            !self.is_complete(),
            c != self.phrase[self.position as int],
        ensures
            self.input(c, now).position == self.position,
            self.input(c, now).typing == self.typing.push(c),
            self.input(c, now).letters[self.position as int].state == LetterState::Incorrect,
            self.input(c, now).letters[self.position as int].value == self.phrase[self.position as int],
            !self.completes(c),
    {
    }

    /// A keystroke that equals the expected character is logged and moves the
    /// cursor on by one. The position it leaves is marked correct, unless a
    /// mistake was made there before: then it stays marked incorrect.
    pub proof fn lemma_match_advances_cursor(self, c: char, now: nat)
        requires
            self.wf(),
            !self.is_complete(),
            c == self.phrase[self.position as int],
        ensures
            self.input(c, now).position == self.position + 1,
            self.input(c, now).typing == self.typing.push(c),
            self.input(c, now).letters[self.position as int].state == if self.letters[self.position as int].state
                == LetterState::Incorrect {
                LetterState::Incorrect
            } else {
                LetterState::Correct
            },
    {
    }

    /// Typing the phrase character for character: after the first `k`
    /// keystrokes the cursor stands at `k`, the log holds those `k`
    /// characters, the positions before the cursor are correct and the
    /// others unpressed; and the next keystroke completes the attempt exactly
    /// when it is the last character of the phrase.
    pub proof fn lemma_matching_keystrokes(phrase: Seq<char>, times: Seq<nat>, k: int)
        requires
            times.len() == phrase.len(),
            0 <= k <= phrase.len(),
        ensures
            ({
                let after = Self::ready(phrase).feed(phrase.take(k), times.take(k));
                &&& after.phrase == phrase
                &&& after.position == k
                &&& after.typing == phrase.take(k)
                &&& after.letters.len() == phrase.len()
                &&& forall|i: int|
                    0 <= i < k ==> (#[trigger] after.letters[i]).state == LetterState::Correct
                &&& forall|i: int|
                    k <= i < phrase.len() ==> (#[trigger] after.letters[i]).state
                        == LetterState::Unpressed
                &&& after.is_complete() <==> k == phrase.len()
                &&& k < phrase.len() ==> (after.completes(phrase[k]) <==> k + 1 == phrase.len())
            }),
        decreases k,
    {
        let start = Self::ready(phrase);
        if k == 0 {
            assert(phrase.take(0) =~= Seq::<char>::empty());
            assert(start.feed(phrase.take(0), times.take(0)) == start);
        } else {
            Self::lemma_matching_keystrokes(phrase, times, k - 1);
            let keys = phrase.take(k);
            let moments = times.take(k);
            assert(keys.drop_last() =~= phrase.take(k - 1));
            assert(moments.drop_last() =~= times.take(k - 1));
            let before = start.feed(phrase.take(k - 1), times.take(k - 1));
            let after = before.input(keys.last(), moments.last());
            assert(after == start.feed(keys, moments));
            before.lemma_first_match(keys.last(), moments.last());
            assert(after.typing =~= phrase.take(k));
            assert forall|i: int| 0 <= i < k implies (#[trigger] after.letters[i]).state
                == LetterState::Correct by {
                if i < k - 1 {
                    assert(before.letters[i].state == LetterState::Correct);
                }
            }
            assert forall|i: int| k <= i < phrase.len() implies (#[trigger] after.letters[i]).state
                == LetterState::Unpressed by {
                assert(before.letters[i].state == LetterState::Unpressed);
            }
        }
    }

    /// What a matching keystroke does at a position that was never pressed.
    proof fn lemma_first_match(self, c: char, now: nat)
        requires
            self.letters.len() == self.phrase.len(),
            self.position < self.phrase.len(),
            c == self.phrase[self.position as int],
            self.letters[self.position as int].state == LetterState::Unpressed,
        ensures
            self.input(c, now).phrase == self.phrase,
            self.input(c, now).position == self.position + 1,
            self.input(c, now).typing == self.typing.push(c),
            self.input(c, now).letters.len() == self.letters.len(),
            self.input(c, now).letters[self.position as int].state == LetterState::Correct,
            forall|i: int|
                0 <= i < self.letters.len() && i != self.position ==> #[trigger] self.input(
                    c,
                    now,
                ).letters[i] == self.letters[i],
    {
    }

    /// A completed attempt has at least as many logged keystrokes as the
    /// phrase has characters, so its accuracy is at most 100 percent.
    pub proof fn lemma_completed_log_covers_phrase(self)
        requires
            self.wf(),
            self.is_complete(),
        ensures
            self.typing.len() >= self.phrase.len(),
            accuracy_percent(self.phrase.len(), self.typing.len()).at_most(100),
    {
    }
}

/// One attempt at typing a phrase.
#[derive(Debug)]
pub struct Typing {
    // position in the phrase
    position: usize,
    // everything the user has typed so far
    typing: Vec<char>,
    // phrase the user is attempting to type
    phrase: Vec<char>,
    // state of each position of the phrase
    state: Vec<TypingLetter>,
    // materialized text for the UI to display
    text: Vec<StyledSegment>,
    // the clock the keystrokes are timed on
    clock: Instant,
    // clock reading at the first keystroke, in nanoseconds
    start_time: u128,
    // nanoseconds from the first keystroke to the completing one
    duration: u128,
}

impl View for Typing {
    type V = TypingView;

    closed spec fn view(&self) -> TypingView {
        TypingView {
            phrase: self.phrase@,
            typing: self.typing@,
            letters: self.state@,
            position: self.position as nat,
            text: self.text@,
            start: self.start_time as nat,
            elapsed: self.duration as nat,
        }
    }
}

impl Typing {
    /// Starts an attempt at `phrase`.
    pub fn new(phrase: Vec<char>) -> (attempt: Self)
        ensures
            attempt@ == TypingView::ready(phrase@),
            attempt@.wf(),
    {
        let state: Vec<TypingLetter> = Self::setup_state(&phrase);
        let text: Vec<StyledSegment> = Self::setup_text(&state);
        let attempt = Self {
            position: 0,
            typing: Vec::new(),
            phrase,
            state,
            text,
            clock: Instant::now(),
            start_time: 0,
            duration: 0,
        };
        proof {
            let ready = TypingView::ready(phrase@);
            assert(attempt.phrase@.len() == attempt.phrase.len());
            assert(attempt@.letters =~= ready.letters);
            assert(attempt@.text =~= ready.text);
            assert(attempt@.typing =~= ready.typing);
        }
        attempt
    }

    /// Starts the attempt over on the same phrase.
    pub fn reset(&mut self)
        ensures
            final(self)@ == old(self)@.reset(),
            final(self)@.wf(),
    {
        self.position = 0;
        self.typing = Vec::new();
        self.state = Self::setup_state(&self.phrase);
        self.text = Self::setup_text(&self.state);
        self.start_time = 0;
        self.duration = 0;
        proof {
            let ready = TypingView::ready(self.phrase@);
            assert(self.phrase@.len() == self.phrase.len());
            assert(self@.letters =~= ready.letters);
            assert(self@.text =~= ready.text);
            assert(self@.typing =~= ready.typing);
        }
    }

    /// The records of a phrase nothing of which has been typed.
    fn setup_state(phrase: &Vec<char>) -> (letters: Vec<TypingLetter>)
        ensures
            letters@ == Seq::new(phrase@.len(), |i: int| TypingView::blank_letter(phrase@, i)),
    {
        let mut letters: Vec<TypingLetter> = Vec::new();
        let mut i: usize = 0;
        while i < phrase.len()
            invariant
                i <= phrase.len(),
                letters@.len() == i,
                forall|j: int|
                    0 <= j < i ==> #[trigger] letters@[j] == TypingView::blank_letter(phrase@, j),
            decreases phrase.len() - i,
        {
            let letter = TypingLetter::new(phrase[i], LetterState::Unpressed, i);
            letters.push(letter);
            i += 1;
        }
        assert(letters@ =~= Seq::new(phrase@.len(), |i: int| TypingView::blank_letter(phrase@, i)));
        letters
    }

    /// The display of records before the first keystroke: every character
    /// neutral, the first one active.
    fn setup_text(state: &Vec<TypingLetter>) -> (text: Vec<StyledSegment>)
        ensures
            text@ == Seq::new(
                state@.len(),
                |i: int|
                    StyledSegment {
                        value: state@[i].value,
                        style: SegmentStyle::Neutral,
                        active: i == 0,
                    },
            ),
    {
        let mut text: Vec<StyledSegment> = Vec::new();
        let mut i: usize = 0;
        while i < state.len()
            invariant
                i <= state.len(),
                text@.len() == i,
                forall|j: int|
                    0 <= j < i ==> #[trigger] text@[j] == (StyledSegment {
                        value: state@[j].value,
                        style: SegmentStyle::Neutral,
                        active: j == 0,
                    }),
            decreases state.len() - i,
        {
            text.push(
                StyledSegment { value: state[i].value, style: SegmentStyle::Neutral, active: i == 0 },
            );
            i += 1;
        }
        assert(text@ =~= Seq::new(
            state@.len(),
            |i: int|
                StyledSegment {
                    value: state@[i].value,
                    style: SegmentStyle::Neutral,
                    active: i == 0,
                },
        ));
        text
    }

    /// The display of `state` with the cursor at `position`.
    fn project(state: &Vec<TypingLetter>, position: usize) -> (spans: Vec<StyledSegment>)
        ensures
            spans@.len() == state@.len(),
            forall|i: int|
                0 <= i < state@.len() ==> #[trigger] spans@[i] == (StyledSegment {
                    value: state@[i].value,
                    style: style_of(state@[i].state),
                    active: i == position,
                }),
    {
        let mut spans: Vec<StyledSegment> = Vec::new();
        let mut i: usize = 0;
        while i < state.len()
            invariant
                i <= state.len(),
                spans@.len() == i,
                forall|j: int|
                    0 <= j < i ==> #[trigger] spans@[j] == (StyledSegment {
                        value: state@[j].value,
                        style: style_of(state@[j].state),
                        active: false,
                    }),
            decreases state.len() - i,
        {
            let letter = state[i];
            let style = match letter.state {
                LetterState::Unpressed => SegmentStyle::Neutral,
                LetterState::Incorrect => SegmentStyle::Negative,
                LetterState::Correct => SegmentStyle::Positive,
            };
            let span = StyledSegment { value: letter.value, style, active: false };
            spans.push(span);
            i += 1;
        }
        // mark the character under the cursor
        if position < spans.len() {
            let current = spans[position];
            let marked = StyledSegment { value: current.value, style: current.style, active: true };
            spans.set(position, marked);
        }
        spans
    }

    /// Brings the display projection up to date with the records and the
    /// cursor. Nothing else does: a caller that wants the display to follow
    /// the keystrokes calls this after each of them.
    pub fn construct_text(&mut self)
        requires
            old(self)@.valid(),
        ensures
            final(self)@ == old(self)@.construct_text(),
            final(self)@.valid(),
            old(self)@.wf() ==> final(self)@.wf(),
    {
        self.text = Self::project(&self.state, self.position);
        proof {
            assert(self@.text =~= old(self)@.projection());
        }
    }

    /// Compares `c` with the expected character and updates the record and
    /// the cursor; on a completed attempt it does nothing. The input log is
    /// not touched: where the character was logged first, as `input` does,
    /// the cursor stays within the log.
    pub fn character_matching(&mut self, c: char)
        requires
            old(self)@.valid(),
        ensures
            final(self)@ == if old(self)@.is_complete() {
                old(self)@
            } else {
                old(self)@.character_matching(c)
            },
            final(self)@.valid(),
            old(self)@.wf() && old(self)@.is_pending() ==> final(self)@.wf(),
    {
        if self.position >= self.phrase.len() {
            return ;
        }
        let current_char = self.phrase[self.position];
        if c == current_char {
            if self.state[self.position].state != LetterState::Incorrect {
                let correct = TypingLetter::new(c, LetterState::Correct, self.position);
                self.state.set(self.position, correct);
            }
            self.position += 1;
        } else {
            let incorrect = TypingLetter::new(current_char, LetterState::Incorrect, self.position);
            self.state.set(self.position, incorrect);
        }
    }

    /// Takes the keystroke `c`, made when the clock read `now` nanoseconds,
    /// and says whether it completed the attempt.
    pub fn input_at(&mut self, c: char, now: u128) -> (done: bool)
        requires
            old(self)@.valid(),
        ensures
            final(self)@ == old(self)@.input(c, now as nat),
            done == old(self)@.completes(c),
            final(self)@.valid(),
            old(self)@.wf() ==> final(self)@.wf(),
    {
        if self.position >= self.phrase.len() {
            return false;
        }
        // overwrite the start time if nothing was typed yet
        if self.typing.len() == 0 {
            self.start_time = now;
        }
        self.typing.push(c);

        self.character_matching(c);

        if self.position >= self.phrase.len() {
            self.duration = if now >= self.start_time {
                now - self.start_time
            } else {
                0
            };
            return true;
        }
        false
    }

    /// Takes the keystroke `c`, timed on the attempt's own clock, and says
    /// whether it completed the attempt.
    pub fn input(&mut self, c: char) -> (done: bool)
        requires
            old(self)@.valid(),
        ensures
            exists|now: nat| final(self)@ == #[trigger] old(self)@.input(c, now),
            done == old(self)@.completes(c),
            final(self)@.valid(),
            old(self)@.wf() ==> final(self)@.wf(),
    {
        let now: u128 = self.clock.elapsed().as_nanos();
        self.input_at(c, now)
    }

    /// The statistics of the attempt as it stands: the words per minute over
    /// the time from the first keystroke to the completing one, the accuracy
    /// over everything typed, and the two combined.
    pub fn calculate_statistics(&self) -> (stats: TypingStats)
        ensures
            TypingStats::of(self@.phrase.len(), self@.typing.len(), self@.elapsed, stats),
    {
        TypingStats::compute(self.phrase.len(), self.typing.len(), self.duration)
    }

    /// The index of the next expected character.
    pub fn position(&self) -> (position: usize)
        ensures
            position == self@.position,
    {
        self.position
    }

    /// The phrase the user is asked to type.
    pub fn phrase(&self) -> (phrase: &Vec<char>)
        ensures
            phrase@ == self@.phrase,
    {
        &self.phrase
    }

    /// Everything the user has typed so far.
    pub fn typing(&self) -> (typing: &Vec<char>)
        ensures
            typing@ == self@.typing,
    {
        &self.typing
    }

    /// The record of each position of the phrase.
    pub fn state(&self) -> (letters: &Vec<TypingLetter>)
        ensures
            letters@ == self@.letters,
    {
        &self.state
    }

    /// The display projection as it was last constructed.
    pub fn text(&self) -> (text: &Vec<StyledSegment>)
        ensures
            text@ == self@.text,
    {
        &self.text
    }

    /// Whether all of the phrase has been typed.
    pub fn is_complete(&self) -> (complete: bool)
        ensures
            complete == self@.is_complete(),
    {
        self.position >= self.phrase.len()
    }
}

} // verus!
