//! The `less`-style input state machine and the service that feeds it terminal events.
//!
//! In navigation mode single keys scroll, page and jump; `/` and `?` open a search
//! prompt with a history of earlier patterns, `-` opens a command prompt and `%` a
//! percentage prompt. The machine turns each key event into one `InputAction`.

use crate::input::keys::{KeyCode, KeyEvent, KeyEventKind, KeyModifiers};
use crate::input::raw::{
    enqueue_step, is_stale, Event, PendingScroll, RawInputCollector, RawInputEvent,
    ScrollDirection as RawScrollDirection,
};
use crate::text::{
    ascii_graphic, decimal_value, is_ascii_graphic, is_decimal_digit, owned, parse_u16,
    parse_u16_spec, str_trim, string_clear, string_pop, string_push, trim_whitespace,
};
use vstd::prelude::*;

verus! {

/// Current input mode.
#[derive(Debug, Clone, Copy, PartialEq, Eq, Structural)]
pub enum InputState {
    Navigation,
    SearchInput { direction: SearchDirection },
    Command,
    PercentInput,
}

/// Direction of a search.
#[derive(Debug, Clone, Copy, PartialEq, Eq, Structural)]
pub enum SearchDirection {
    Forward,
    Backward,
}

impl SearchDirection {
    /// The prompt character of a direction: `/` forward, `?` backward.
    pub open spec fn prompt_char(self) -> char {
        match self {
            SearchDirection::Forward => '/',
            SearchDirection::Backward => '?',
        }
    }

    /// Character displayed in the search prompt.
    pub fn to_char(self) -> (r: char)
        ensures
            r == self.prompt_char(),
    {
        match self {
            SearchDirection::Forward => '/',
            SearchDirection::Backward => '?',
        }
    }
}

/// Direction of a scroll action.
#[derive(Debug, Clone, Copy, PartialEq, Eq, Structural)]
pub enum ScrollDirection {
    Up,
    Down,
}

/// What the user asked for.
#[derive(Debug, Clone, PartialEq)]
pub enum InputAction {
    Scroll { direction: ScrollDirection, lines: u64 },
    PageUp,
    PageDown,
    GoToStart,
    GoToEnd,
    Quit,
    StartSearch(SearchDirection),
    UpdateSearchBuffer { direction: SearchDirection, buffer: String },
    CancelSearch,
    ExecuteSearch { pattern: String, direction: SearchDirection },
    NextMatch,
    PreviousMatch,
    Resize { width: u16, height: u16 },
    StartCommand,
    UpdateCommandBuffer(String),
    CancelCommand,
    ExecuteCommand { buffer: String },
    StartPercentInput,
    UpdatePercentBuffer(String),
    CancelPercentInput,
    SubmitPercent(u8),
    NoAction,
    InvalidInput,
}

/// An `InputAction` with its strings taken as character sequences.
pub ghost enum ActionView {
    Scroll { direction: ScrollDirection, lines: u64 },
    PageUp,
    PageDown,
    GoToStart,
    GoToEnd,
    Quit,
    StartSearch(SearchDirection),
    UpdateSearchBuffer { direction: SearchDirection, buffer: Seq<char> },
    CancelSearch,
    ExecuteSearch { pattern: Seq<char>, direction: SearchDirection },
    NextMatch,
    PreviousMatch,
    Resize { width: u16, height: u16 },
    StartCommand,
    UpdateCommandBuffer(Seq<char>),
    CancelCommand,
    ExecuteCommand { buffer: Seq<char> },
    StartPercentInput,
    UpdatePercentBuffer(Seq<char>),
    CancelPercentInput,
    SubmitPercent(u8),
    NoAction,
    InvalidInput,
}

impl View for InputAction {
    type V = ActionView;

    open spec fn view(&self) -> ActionView {
        match self {
            InputAction::Scroll { direction, lines } => ActionView::Scroll {
                direction: *direction,
                lines: *lines,
            },
            InputAction::PageUp => ActionView::PageUp,
            InputAction::PageDown => ActionView::PageDown,
            InputAction::GoToStart => ActionView::GoToStart,
            InputAction::GoToEnd => ActionView::GoToEnd,
            InputAction::Quit => ActionView::Quit,
            InputAction::StartSearch(d) => ActionView::StartSearch(*d),
            InputAction::UpdateSearchBuffer { direction, buffer } => ActionView::UpdateSearchBuffer {
                direction: *direction,
                buffer: buffer@,
            },
            InputAction::CancelSearch => ActionView::CancelSearch,
            InputAction::ExecuteSearch { pattern, direction } => ActionView::ExecuteSearch {
                pattern: pattern@,
                direction: *direction,
            },
            InputAction::NextMatch => ActionView::NextMatch,
            InputAction::PreviousMatch => ActionView::PreviousMatch,
            InputAction::Resize { width, height } => ActionView::Resize {
                width: *width,
                height: *height,
            },
            InputAction::StartCommand => ActionView::StartCommand,
            InputAction::UpdateCommandBuffer(b) => ActionView::UpdateCommandBuffer(b@),
            InputAction::CancelCommand => ActionView::CancelCommand,
            InputAction::ExecuteCommand { buffer } => ActionView::ExecuteCommand { buffer: buffer@ },
            InputAction::StartPercentInput => ActionView::StartPercentInput,
            InputAction::UpdatePercentBuffer(b) => ActionView::UpdatePercentBuffer(b@),
            InputAction::CancelPercentInput => ActionView::CancelPercentInput,
            InputAction::SubmitPercent(p) => ActionView::SubmitPercent(*p),
            InputAction::NoAction => ActionView::NoAction,
            InputAction::InvalidInput => ActionView::InvalidInput,
        }
    }
}

/// The state machine's contents, strings taken as character sequences.
pub ghost struct MachineView {
    pub state: InputState,
    pub search: Seq<char>,
    pub command: Seq<char>,
    pub percent: Seq<char>,
    pub history: Seq<Seq<char>>,
    pub cursor: Option<usize>,
}

impl MachineView {
    /// The cursor points into the history, and the percentage prompt holds at most three
    /// decimal digits.
    pub open spec fn wf(self) -> bool {
        &&& (self.cursor matches Some(i) ==> i < self.history.len())
        &&& self.percent.len() <= 3
        &&& forall|i: int| 0 <= i < self.percent.len() ==> is_decimal_digit(#[trigger] self.percent[i])
    }
}

/// A key with these modifiers counts as a plain key: the navigation and prompt bindings
/// refuse it only when both Control and Alt are held.
pub open spec fn plain_key(mods: KeyModifiers) -> bool {
    !(mods.control && mods.alt)
}

/// Exactly Control is held.
pub open spec fn control_only(mods: KeyModifiers) -> bool {
    mods == (KeyModifiers { control: true, ..KeyModifiers::spec_none() })
}

/// A character that may be typed into the search or command prompt.
pub open spec fn prompt_char_ok(c: char) -> bool {
    is_ascii_graphic(c) || c == ' '
}

/// `history` after a search for `pattern`: empty patterns and a repeat of the latest
/// entry are not recorded.
pub open spec fn record_pattern(history: Seq<Seq<char>>, pattern: Seq<char>) -> Seq<Seq<char>> {
    if pattern.len() == 0 {
        history
    } else if history.len() > 0 && history.last() == pattern {
        history
    } else {
        history.push(pattern)
    }
}

/// The key bindings of navigation mode.
pub open spec fn navigation_step(m: MachineView, code: KeyCode, mods: KeyModifiers) -> (
    MachineView,
    ActionView,
) {
    let plain = plain_key(mods);
    let invalid = (MachineView { percent: seq![], ..m }, ActionView::InvalidInput);
    match code {
        KeyCode::Char(c) => {
            if plain && c == '%' {
                (
                    MachineView { state: InputState::PercentInput, percent: seq![], ..m },
                    ActionView::StartPercentInput,
                )
            } else if plain && c == 'j' {
                (m, ActionView::Scroll { direction: ScrollDirection::Down, lines: 1 })
            } else if plain && c == 'k' {
                (m, ActionView::Scroll { direction: ScrollDirection::Up, lines: 1 })
            } else if plain && (c == ' ' || c == 'f') {
                (m, ActionView::PageDown)
            } else if plain && c == 'b' {
                (m, ActionView::PageUp)
            } else if plain && c == 'g' {
                (m, ActionView::GoToStart)
            } else if plain && c == 'G' {
                (m, ActionView::GoToEnd)
            } else if plain && c == '-' {
                (
                    MachineView { state: InputState::Command, command: seq![], ..m },
                    ActionView::StartCommand,
                )
            } else if plain && c == 'q' {
                (m, ActionView::Quit)
            } else if c == 'c' && control_only(mods) {
                (m, ActionView::Quit)
            } else if plain && c == 'n' {
                (m, ActionView::NextMatch)
            } else if plain && c == 'N' {
                (m, ActionView::PreviousMatch)
            } else if plain && c == '/' {
                (
                    MachineView {
                        state: InputState::SearchInput { direction: SearchDirection::Forward },
                        search: seq![],
                        cursor: None,
                        ..m
                    },
                    ActionView::StartSearch(SearchDirection::Forward),
                )
            } else if plain && c == '?' {
                (
                    MachineView {
                        state: InputState::SearchInput { direction: SearchDirection::Backward },
                        search: seq![],
                        cursor: None,
                        ..m
                    },
                    ActionView::StartSearch(SearchDirection::Backward),
                )
            } else {
                invalid
            }
        },
        KeyCode::Down => (m, ActionView::Scroll { direction: ScrollDirection::Down, lines: 1 }),
        KeyCode::Up => (m, ActionView::Scroll { direction: ScrollDirection::Up, lines: 1 }),
        KeyCode::PageDown => (m, ActionView::PageDown),
        KeyCode::PageUp => (m, ActionView::PageUp),
        _ => invalid,
    }
}

/// The key bindings of the search prompt.
pub open spec fn search_step(
    m: MachineView,
    d: SearchDirection,
    code: KeyCode,
    mods: KeyModifiers,
) -> (MachineView, ActionView) {
    let to_navigation = MachineView {
        state: InputState::Navigation,
        search: seq![],
        cursor: None,
        ..m
    };
    match code {
        KeyCode::Char(c) => {
            if c == 'c' && control_only(mods) {
                (to_navigation, ActionView::CancelSearch)
            } else if prompt_char_ok(c) && plain_key(mods) {
                let buffer = m.search.push(c);
                (
                    MachineView { search: buffer, cursor: None, ..m },
                    ActionView::UpdateSearchBuffer { direction: d, buffer },
                )
            } else {
                (MachineView { percent: seq![], ..m }, ActionView::InvalidInput)
            }
        },
        KeyCode::Backspace => {
            let buffer = if m.search.len() > 0 {
                m.search.drop_last()
            } else {
                m.search
            };
            if buffer.len() == 0 {
                (
                    MachineView { state: InputState::Navigation, search: buffer, cursor: None, ..m },
                    ActionView::CancelSearch,
                )
            } else {
                (
                    MachineView { search: buffer, cursor: None, ..m },
                    ActionView::UpdateSearchBuffer { direction: d, buffer },
                )
            }
        },
        KeyCode::Enter => {
            let trimmed = trim_whitespace(m.search);
            if trimmed.len() == 0 {
                (to_navigation, ActionView::CancelSearch)
            } else {
                (
                    MachineView { history: record_pattern(m.history, trimmed), ..to_navigation },
                    ActionView::ExecuteSearch { pattern: trimmed, direction: d },
                )
            }
        },
        KeyCode::Esc => (to_navigation, ActionView::CancelSearch),
        KeyCode::Up => {
            if m.history.len() == 0 {
                (m, ActionView::NoAction)
            } else {
                let next: usize = match m.cursor {
                    None => (m.history.len() - 1) as usize,
                    Some(i) => if i == 0 {
                        0
                    } else {
                        (i - 1) as usize
                    },
                };
                (
                    MachineView { cursor: Some(next), search: m.history[next as int], ..m },
                    ActionView::UpdateSearchBuffer { direction: d, buffer: m.history[next as int] },
                )
            }
        },
        KeyCode::Down => {
            if m.history.len() == 0 {
                (m, ActionView::NoAction)
            } else {
                match m.cursor {
                    None => (m, ActionView::NoAction),
                    Some(i) => if i + 1 < m.history.len() {
                        (
                            MachineView {
                                cursor: Some((i + 1) as usize),
                                search: m.history[i + 1],
                                ..m
                            },
                            ActionView::UpdateSearchBuffer {
                                direction: d,
                                buffer: m.history[i + 1],
                            },
                        )
                    } else {
                        (
                            MachineView { cursor: None, search: seq![], ..m },
                            ActionView::UpdateSearchBuffer { direction: d, buffer: seq![] },
                        )
                    },
                }
            }
        },
        _ => (MachineView { percent: seq![], ..m }, ActionView::InvalidInput),
    }
}

/// The key bindings of the command prompt.
pub open spec fn command_step(m: MachineView, code: KeyCode, mods: KeyModifiers) -> (
    MachineView,
    ActionView,
) {
    let to_navigation = MachineView { state: InputState::Navigation, command: seq![], ..m };
    match code {
        KeyCode::Esc => (to_navigation, ActionView::CancelCommand),
        KeyCode::Enter => (to_navigation, ActionView::ExecuteCommand { buffer: m.command }),
        KeyCode::Backspace => {
            if m.command.len() > 0 {
                (
                    MachineView { command: m.command.drop_last(), ..m },
                    ActionView::UpdateCommandBuffer(m.command.drop_last()),
                )
            } else {
                (MachineView { state: InputState::Navigation, ..m }, ActionView::CancelCommand)
            }
        },
        KeyCode::Char(c) => {
            if c == 'c' && control_only(mods) {
                (to_navigation, ActionView::CancelCommand)
            } else if prompt_char_ok(c) && plain_key(mods) {
                (
                    MachineView { command: m.command.push(c), ..m },
                    ActionView::UpdateCommandBuffer(m.command.push(c)),
                )
            } else {
                (m, ActionView::InvalidInput)
            }
        },
        _ => (m, ActionView::InvalidInput),
    }
}

/// The key bindings of the percentage prompt.
pub open spec fn percent_step(m: MachineView, code: KeyCode, mods: KeyModifiers) -> (
    MachineView,
    ActionView,
) {
    let to_navigation = MachineView { state: InputState::Navigation, percent: seq![], ..m };
    match code {
        KeyCode::Char(c) => {
            if is_decimal_digit(c) && plain_key(mods) {
                let buffer = if m.percent.len() < 3 {
                    m.percent.push(c)
                } else {
                    m.percent
                };
                (MachineView { percent: buffer, ..m }, ActionView::UpdatePercentBuffer(buffer))
            } else if c == 'c' && mods.control {
                (to_navigation, ActionView::CancelPercentInput)
            } else {
                (m, ActionView::InvalidInput)
            }
        },
        KeyCode::Backspace => {
            if m.percent.len() > 0 {
                (
                    MachineView { percent: m.percent.drop_last(), ..m },
                    ActionView::UpdatePercentBuffer(m.percent.drop_last()),
                )
            } else {
                (MachineView { state: InputState::Navigation, ..m }, ActionView::CancelPercentInput)
            }
        },
        KeyCode::Enter => {
            if m.percent.len() == 0 {
                (to_navigation, ActionView::CancelPercentInput)
            } else {
                match parse_u16_spec(m.percent) {
                    Some(v) => (
                        to_navigation,
                        ActionView::SubmitPercent(if v < 100 {
                            v as u8
                        } else {
                            100u8
                        }),
                    ),
                    None => (to_navigation, ActionView::InvalidInput),
                }
            }
        },
        KeyCode::Esc => (to_navigation, ActionView::CancelPercentInput),
        _ => (m, ActionView::InvalidInput),
    }
}

/// What one key event does to the machine and which action it yields.
pub open spec fn key_step(m: MachineView, key: KeyEvent) -> (MachineView, ActionView) {
    if key.kind != KeyEventKind::Press {
        (m, ActionView::NoAction)
    } else {
        match m.state {
            InputState::Navigation => navigation_step(m, key.code, key.modifiers),
            InputState::SearchInput { direction } => search_step(
                m,
                direction,
                key.code,
                key.modifiers,
            ),
            InputState::Command => command_step(m, key.code, key.modifiers),
            InputState::PercentInput => percent_step(m, key.code, key.modifiers),
        }
    }
}

/// Escape pressed in any mode leaves the machine in navigation mode; in a prompt it
/// cancels the prompt.
pub proof fn law_escape_returns_to_navigation(m: MachineView, mods: KeyModifiers)
    ensures
        ({
            let (next, action) = key_step(
                m,
                KeyEvent { code: KeyCode::Esc, modifiers: mods, kind: KeyEventKind::Press },
            );
            &&& next.state == InputState::Navigation
            &&& m.state is SearchInput ==> action == ActionView::CancelSearch
            &&& m.state is Command ==> action == ActionView::CancelCommand
            &&& m.state is PercentInput ==> action == ActionView::CancelPercentInput
        }),
{
}

/// A press of `code` with modifiers `mods`.
pub open spec fn press(code: KeyCode, mods: KeyModifiers) -> KeyEvent {
    KeyEvent { code, modifiers: mods, kind: KeyEventKind::Press }
}

/// The `less`-style bindings of navigation mode: `j`/Down scroll down a line and
/// `k`/Up up a line; Space, `f` and PgDn page down, `b` and PgUp page up; `g` goes to
/// the start of the file and `G` to its end; `n`/`N` repeat the search forward and
/// backward; `q` quits; these leave the machine as it was. `/` and `?` open the forward
/// and backward search prompt, `%` the percentage prompt and `-` the command prompt.
pub proof fn law_navigation_bindings(m: MachineView, mods: KeyModifiers)
    requires
        m.state == InputState::Navigation,
        !(mods.control && mods.alt),
    ensures
        key_step(m, press(KeyCode::Char('g'), mods)) == (m, ActionView::GoToStart),
        key_step(m, press(KeyCode::Char('G'), mods)) == (m, ActionView::GoToEnd),
        key_step(m, press(KeyCode::Char('j'), mods)) == (m, ActionView::Scroll {
            direction: ScrollDirection::Down,
            lines: 1,
        }),
        key_step(m, press(KeyCode::Down, mods)) == (m, ActionView::Scroll {
            direction: ScrollDirection::Down,
            lines: 1,
        }),
        key_step(m, press(KeyCode::Char('k'), mods)) == (m, ActionView::Scroll {
            direction: ScrollDirection::Up,
            lines: 1,
        }),
        key_step(m, press(KeyCode::Up, mods)) == (m, ActionView::Scroll {
            direction: ScrollDirection::Up,
            lines: 1,
        }),
        key_step(m, press(KeyCode::Char(' '), mods)) == (m, ActionView::PageDown),
        key_step(m, press(KeyCode::Char('f'), mods)) == (m, ActionView::PageDown),
        key_step(m, press(KeyCode::PageDown, mods)) == (m, ActionView::PageDown),
        key_step(m, press(KeyCode::Char('b'), mods)) == (m, ActionView::PageUp),
        key_step(m, press(KeyCode::PageUp, mods)) == (m, ActionView::PageUp),
        key_step(m, press(KeyCode::Char('n'), mods)) == (m, ActionView::NextMatch),
        key_step(m, press(KeyCode::Char('N'), mods)) == (m, ActionView::PreviousMatch),
        key_step(m, press(KeyCode::Char('q'), mods)) == (m, ActionView::Quit),
        key_step(m, press(KeyCode::Char('/'), mods)).1 == ActionView::StartSearch(
            SearchDirection::Forward,
        ),
        key_step(m, press(KeyCode::Char('/'), mods)).0.state == (InputState::SearchInput {
            direction: SearchDirection::Forward,
        }),
        key_step(m, press(KeyCode::Char('?'), mods)).1 == ActionView::StartSearch(
            SearchDirection::Backward,
        ),
        key_step(m, press(KeyCode::Char('?'), mods)).0.state == (InputState::SearchInput {
            direction: SearchDirection::Backward,
        }),
        key_step(m, press(KeyCode::Char('%'), mods)).1 == ActionView::StartPercentInput,
        key_step(m, press(KeyCode::Char('%'), mods)).0.state == InputState::PercentInput,
        key_step(m, press(KeyCode::Char('-'), mods)).1 == ActionView::StartCommand,
        key_step(m, press(KeyCode::Char('-'), mods)).0.state == InputState::Command,
{
}

/// Editing the search prompt: a typed character (printable, no Control+Alt) is appended
/// to the buffer and shown; Backspace removes the last character and, when that empties
/// the buffer, closes the prompt; Up with history and nothing recalled yet brings back
/// the most recent search.
pub proof fn law_search_prompt_editing(
    m: MachineView,
    d: SearchDirection,
    c: char,
    mods: KeyModifiers,
)
    requires
        m.state == (InputState::SearchInput { direction: d }),
        is_ascii_graphic(c) || c == ' ',
        !(mods.control && mods.alt),
        !(c == 'c' && mods == (KeyModifiers { control: true, ..KeyModifiers::spec_none() })),
        m.history.len() <= usize::MAX,
    ensures
        key_step(m, press(KeyCode::Char(c), mods)).0.search == m.search.push(c),
        key_step(m, press(KeyCode::Char(c), mods)).1 == (ActionView::UpdateSearchBuffer {
            direction: d,
            buffer: m.search.push(c),
        }),
        m.search.len() > 1 ==> key_step(m, press(KeyCode::Backspace, mods)).0.search
            == m.search.drop_last() && key_step(m, press(KeyCode::Backspace, mods)).0.state
            == m.state,
        m.search.len() <= 1 ==> key_step(m, press(KeyCode::Backspace, mods)).0.state
            == InputState::Navigation,
        m.search.len() <= 1 ==> key_step(m, press(KeyCode::Backspace, mods)).1
            == ActionView::CancelSearch,
        m.history.len() > 0 && m.cursor is None ==> key_step(m, press(KeyCode::Up, mods)).1
            == (ActionView::UpdateSearchBuffer { direction: d, buffer: m.history.last() }),
{
}

/// Ctrl+C cancels whichever prompt is open and returns to navigation mode; in navigation
/// mode it quits.
pub proof fn law_ctrl_c_cancels_or_quits(m: MachineView)
    ensures
        ({
            let (next, action) = key_step(
                m,
                KeyEvent {
                    code: KeyCode::Char('c'),
                    modifiers: KeyModifiers { control: true, ..KeyModifiers::spec_none() },
                    kind: KeyEventKind::Press,
                },
            );
            &&& next.state == InputState::Navigation
            &&& m.state is Navigation ==> action == ActionView::Quit
            &&& m.state is SearchInput ==> action == ActionView::CancelSearch
            &&& m.state is Command ==> action == ActionView::CancelCommand
            &&& m.state is PercentInput ==> action == ActionView::CancelPercentInput
        }),
{
}

/// Backspace on an empty prompt closes it and returns to navigation mode.
pub proof fn law_backspace_on_empty_prompt_cancels(m: MachineView, mods: KeyModifiers)
    requires
        m.state is SearchInput ==> m.search.len() == 0,
        m.state is Command ==> m.command.len() == 0,
        m.state is PercentInput ==> m.percent.len() == 0,
        !(m.state is Navigation),
    ensures
        ({
            let (next, action) = key_step(
                m,
                KeyEvent { code: KeyCode::Backspace, modifiers: mods, kind: KeyEventKind::Press },
            );
            &&& next.state == InputState::Navigation
            &&& m.state is SearchInput ==> action == ActionView::CancelSearch
            &&& m.state is Command ==> action == ActionView::CancelCommand
            &&& m.state is PercentInput ==> action == ActionView::CancelPercentInput
        }),
{
}

/// The search history holds no empty entry and no entry equal to the one before it.
pub open spec fn clean_history(history: Seq<Seq<char>>) -> bool {
    &&& forall|i: int| 0 <= i < history.len() ==> (#[trigger] history[i]).len() > 0
    &&& forall|i: int| 0 < i < history.len() ==> #[trigger] history[i] != history[i - 1]
}

/// Recording a search never gives the history an empty entry or two equal neighbours.
pub proof fn law_recording_keeps_history_clean(history: Seq<Seq<char>>, pattern: Seq<char>)
    requires
        clean_history(history),
    ensures
        clean_history(record_pattern(history, pattern)),
{
    let h = record_pattern(history, pattern);
    if h.len() > history.len() {
        assert forall|i: int| 0 < i < h.len() implies #[trigger] h[i] != h[i - 1] by {
            if i == h.len() - 1 {
                assert(h[i - 1] == history.last());
            } else {
                assert(h[i] == history[i] && h[i - 1] == history[i - 1]);
            }
        }
    }
}

/// Enter in the search prompt records the trimmed pattern in the history: unchanged
/// when the pattern is blank or repeats the latest entry, appended otherwise; any other
/// key in any mode leaves the history as it was.
pub proof fn law_enter_records_search(m: MachineView, key: KeyEvent)
    ensures
        key_step(m, key).0.history == if key.kind == KeyEventKind::Press && m.state is SearchInput
            && key.code == KeyCode::Enter {
            let p = trim_whitespace(m.search);
            if p.len() == 0 || (m.history.len() > 0 && m.history.last() == p) {
                m.history
            } else {
                m.history.push(p)
            }
        } else {
            m.history
        },
{
}

/// No key ever gives the search history an empty entry or two equal neighbours.
pub proof fn law_history_stays_clean(m: MachineView, key: KeyEvent)
    requires
        clean_history(m.history),
    ensures
        clean_history(key_step(m, key).0.history),
{
    if key.kind == KeyEventKind::Press {
        if let InputState::SearchInput { .. } = m.state {
            if key.code == KeyCode::Enter {
                law_recording_keeps_history_clean(m.history, trim_whitespace(m.search));
            }
        }
    }
}

/// A decimal string of at most three digits is worth less than 1000.
proof fn lemma_decimal_value_three_digits(s: Seq<char>)
    requires
        s.len() <= 3,
        forall|i: int| 0 <= i < s.len() ==> is_decimal_digit(#[trigger] s[i]),
    ensures
        decimal_value(s) < 1000,
        s.len() <= 2 ==> decimal_value(s) < 100,
        s.len() <= 1 ==> decimal_value(s) < 10,
    decreases s.len(),
{
    if s.len() > 0 {
        let init = s.drop_last();
        assert forall|i: int| 0 <= i < init.len() implies is_decimal_digit(#[trigger] init[i]) by {
            assert(init[i] == s[i]);
        }
        lemma_decimal_value_three_digits(init);
        assert(is_decimal_digit(s[s.len() - 1]));
    }
}

/// Enter in the percentage prompt never refuses what the prompt accepted: a non-empty
/// buffer is submitted as its value capped at 100, an empty one cancels.
pub proof fn law_percent_prompt_submits(m: MachineView, mods: KeyModifiers)
    requires
        m.wf(),
        m.state == InputState::PercentInput,
    ensures
        ({
            let (next, action) = key_step(
                m,
                KeyEvent { code: KeyCode::Enter, modifiers: mods, kind: KeyEventKind::Press },
            );
            &&& next.state == InputState::Navigation
            &&& next.percent.len() == 0
            &&& m.percent.len() == 0 ==> action == ActionView::CancelPercentInput
            &&& m.percent.len() > 0 ==> action == ActionView::SubmitPercent(
                if decimal_value(m.percent) < 100 {
                    decimal_value(m.percent) as u8
                } else {
                    100u8
                },
            )
        }),
{
    lemma_decimal_value_three_digits(m.percent);
    if m.percent.len() > 0 {
        assert(m.percent[0] != '+');
    }
}

/// Whatever key arrives, a submitted percentage is at most 100.
pub proof fn law_submitted_percent_at_most_100(m: MachineView, key: KeyEvent)
    requires
        m.wf(),
    ensures
        key_step(m, key).1 matches ActionView::SubmitPercent(v) ==> v <= 100,
{
    lemma_decimal_value_three_digits(m.percent);
}

/// A search executed from the prompt becomes the most recent history entry, and the
/// next Up in a fresh prompt recalls it.
pub proof fn law_executed_search_is_recalled(m: MachineView, d: SearchDirection, mods: KeyModifiers, up_mods: KeyModifiers)
    requires
        m.wf(),
        m.state == (InputState::SearchInput { direction: d }),
        trim_whitespace(m.search).len() > 0,
        m.history.len() < usize::MAX,
    ensures
        ({
            let (after, action) = key_step(
                m,
                KeyEvent { code: KeyCode::Enter, modifiers: mods, kind: KeyEventKind::Press },
            );
            let prompt = MachineView {
                state: InputState::SearchInput { direction: d },
                search: seq![],
                cursor: None,
                ..after
            };
            let (_, recalled) = key_step(
                prompt,
                KeyEvent { code: KeyCode::Up, modifiers: up_mods, kind: KeyEventKind::Press },
            );
            &&& action == ActionView::ExecuteSearch { pattern: trim_whitespace(m.search), direction: d }
            &&& after.state == InputState::Navigation
            &&& after.history.last() == trim_whitespace(m.search)
            &&& recalled == ActionView::UpdateSearchBuffer { direction: d, buffer: trim_whitespace(m.search) }
        }),
{
    let after = key_step(
        m,
        KeyEvent { code: KeyCode::Enter, modifiers: mods, kind: KeyEventKind::Press },
    ).0;
    assert(after.history.len() >= 1);
    assert(after.history[after.history.len() - 1] == trim_whitespace(m.search));
}

/// State machine that mirrors classic `less` bindings.
pub struct InputStateMachine {
    state: InputState,
    search_buffer: String,
    command_buffer: String,
    percent_buffer: String,
    search_history: Vec<String>,
    history_cursor: Option<usize>,
}

impl View for InputStateMachine {
    type V = MachineView;

    closed spec fn view(&self) -> MachineView {
        MachineView {
            state: self.state,
            search: self.search_buffer@,
            command: self.command_buffer@,
            percent: self.percent_buffer@,
            history: self.search_history@.map_values(|s: String| s@),
            cursor: self.history_cursor,
        }
    }
}

impl InputStateMachine {
    /// A machine in navigation mode with empty prompts and no history.
    pub fn new() -> (r: Self)
        ensures
            r@.wf(),
            r@.state == InputState::Navigation,
            r@.search.len() == 0,
            r@.command.len() == 0,
            r@.percent.len() == 0,
            r@.history.len() == 0,
            r@.cursor is None,
    {
        let r = InputStateMachine {
            state: InputState::Navigation,
            search_buffer: String::new(),
            command_buffer: String::new(),
            percent_buffer: String::new(),
            search_history: Vec::new(),
            history_cursor: None,
        };
        assert(r@.history =~= Seq::<Seq<char>>::empty());
        r
    }

    fn clear_percent_buffer(&mut self)
        ensures
            final(self)@ == (MachineView { percent: seq![], ..old(self)@ }),
    {
        string_clear(&mut self.percent_buffer);
        proof {
            assert(self@.history =~= old(self)@.history);
        }
    }

    /// Apply one key event: the machine moves as `key_step` says and returns its action.
    pub fn handle_key_event(&mut self, key_event: KeyEvent) -> (r: InputAction)
        requires
            old(self)@.wf(),
        ensures
            final(self)@.wf(),
            (final(self)@, r@) == key_step(old(self)@, key_event),
    {
        if key_event.kind != KeyEventKind::Press {
            return InputAction::NoAction;
        }
        match self.state {
            InputState::Navigation => self.navigation_key(key_event.code, key_event.modifiers),
            InputState::SearchInput { direction } => self.search_key(
                direction,
                key_event.code,
                key_event.modifiers,
            ),
            InputState::Command => self.command_key(key_event.code, key_event.modifiers),
            InputState::PercentInput => self.percent_key(key_event.code, key_event.modifiers),
        }
    }

    fn navigation_key(&mut self, code: KeyCode, modifiers: KeyModifiers) -> (r: InputAction)
        requires
            old(self)@.wf(),
            old(self)@.state == InputState::Navigation,
        ensures
            final(self)@.wf(),
            (final(self)@, r@) == navigation_step(old(self)@, code, modifiers),
    {
        let plain = !modifiers.contains(KeyModifiers::control().union(KeyModifiers::alt()));
        match code {
            KeyCode::Char(c) => {
                if plain && c == '%' {
                    self.state = InputState::PercentInput;
                    self.clear_percent_buffer();
                    InputAction::StartPercentInput
                } else if plain && c == 'j' {
                    InputAction::Scroll { direction: ScrollDirection::Down, lines: 1 }
                } else if plain && c == 'k' {
                    InputAction::Scroll { direction: ScrollDirection::Up, lines: 1 }
                } else if plain && (c == ' ' || c == 'f') {
                    InputAction::PageDown
                } else if plain && c == 'b' {
                    InputAction::PageUp
                } else if plain && c == 'g' {
                    InputAction::GoToStart
                } else if plain && c == 'G' {
                    InputAction::GoToEnd
                } else if plain && c == '-' {
                    self.state = InputState::Command;
                    string_clear(&mut self.command_buffer);
                    proof {
                        assert(self@.history =~= old(self)@.history);
                    }
                    InputAction::StartCommand
                } else if plain && c == 'q' {
                    InputAction::Quit
                } else if c == 'c' && modifiers == KeyModifiers::control() {
                    InputAction::Quit
                } else if plain && c == 'n' {
                    InputAction::NextMatch
                } else if plain && c == 'N' {
                    InputAction::PreviousMatch
                } else if plain && c == '/' {
                    self.state = InputState::SearchInput { direction: SearchDirection::Forward };
                    string_clear(&mut self.search_buffer);
                    self.history_cursor = None;
                    proof {
                        assert(self@.history =~= old(self)@.history);
                    }
                    InputAction::StartSearch(SearchDirection::Forward)
                } else if plain && c == '?' {
                    self.state = InputState::SearchInput { direction: SearchDirection::Backward };
                    string_clear(&mut self.search_buffer);
                    self.history_cursor = None;
                    proof {
                        assert(self@.history =~= old(self)@.history);
                    }
                    InputAction::StartSearch(SearchDirection::Backward)
                } else {
                    self.clear_percent_buffer();
                    InputAction::InvalidInput
                }
            },
            KeyCode::Down => InputAction::Scroll { direction: ScrollDirection::Down, lines: 1 },
            KeyCode::Up => InputAction::Scroll { direction: ScrollDirection::Up, lines: 1 },
            KeyCode::PageDown => InputAction::PageDown,
            KeyCode::PageUp => InputAction::PageUp,
            _ => {
                self.clear_percent_buffer();
                InputAction::InvalidInput
            },
        }
    }

    fn search_key(&mut self, direction: SearchDirection, code: KeyCode, modifiers: KeyModifiers) -> (r: InputAction)
        requires
            old(self)@.wf(),
            old(self)@.state == (InputState::SearchInput { direction }),
        ensures
            final(self)@.wf(),
            (final(self)@, r@) == search_step(old(self)@, direction, code, modifiers),
    {
        let plain = !modifiers.contains(KeyModifiers::control().union(KeyModifiers::alt()));
        match code {
            KeyCode::Char(ch) => {
                if ch == 'c' && modifiers == KeyModifiers::control() {
                    self.state = InputState::Navigation;
                    string_clear(&mut self.search_buffer);
                    self.history_cursor = None;
                    proof {
                        assert(self@.history =~= old(self)@.history);
                    }
                    InputAction::CancelSearch
                } else if (ascii_graphic(ch) || ch == ' ') && plain {
                    self.history_cursor = None;
                    string_push(&mut self.search_buffer, ch);
                    proof {
                        assert(self@.history =~= old(self)@.history);
                    }
                    InputAction::UpdateSearchBuffer { direction, buffer: self.search_buffer.clone() }
                } else {
                    self.clear_percent_buffer();
                    InputAction::InvalidInput
                }
            },
            KeyCode::Backspace => {
                self.history_cursor = None;
                let _ = string_pop(&mut self.search_buffer);
                proof {
                    assert(self@.history =~= old(self)@.history);
                }
                if self.search_buffer.as_str().is_empty() {
                    self.state = InputState::Navigation;
                    InputAction::CancelSearch
                } else {
                    InputAction::UpdateSearchBuffer { direction, buffer: self.search_buffer.clone() }
                }
            },
            KeyCode::Enter => {
                let pattern = self.search_buffer.clone();
                self.state = InputState::Navigation;
                string_clear(&mut self.search_buffer);
                self.history_cursor = None;
                proof {
                    assert(self@.history =~= old(self)@.history);
                }
                let trimmed_view = str_trim(pattern.as_str());
                if trimmed_view.is_empty() {
                    InputAction::CancelSearch
                } else {
                    let trimmed = owned(trimmed_view);
                    self.record_history(trimmed.clone());
                    InputAction::ExecuteSearch { pattern: trimmed, direction }
                }
            },
            KeyCode::Esc => {
                self.state = InputState::Navigation;
                string_clear(&mut self.search_buffer);
                self.history_cursor = None;
                proof {
                    assert(self@.history =~= old(self)@.history);
                }
                InputAction::CancelSearch
            },
            KeyCode::Up => {
                if self.search_history.len() == 0 {
                    return InputAction::NoAction;
                }
                let next_index: usize = match self.history_cursor {
                    None => self.search_history.len() - 1,
                    Some(idx) => if idx == 0 {
                        0
                    } else {
                        idx - 1
                    },
                };
                self.history_cursor = Some(next_index);
                if next_index < self.search_history.len() {
                    self.search_buffer = self.search_history[next_index].clone();
                }
                proof {
                    assert(self@.history =~= old(self)@.history);
                }
                InputAction::UpdateSearchBuffer { direction, buffer: self.search_buffer.clone() }
            },
            KeyCode::Down => {
                if self.search_history.len() == 0 {
                    return InputAction::NoAction;
                }
                match self.history_cursor {
                    None => InputAction::NoAction,
                    Some(idx) => {
                        if idx + 1 < self.search_history.len() {
                            let next_index = idx + 1;
                            self.history_cursor = Some(next_index);
                            self.search_buffer = self.search_history[next_index].clone();
                            proof {
                                assert(self@.history =~= old(self)@.history);
                            }
                            InputAction::UpdateSearchBuffer {
                                direction,
                                buffer: self.search_buffer.clone(),
                            }
                        } else {
                            self.history_cursor = None;
                            string_clear(&mut self.search_buffer);
                            proof {
                                assert(self@.history =~= old(self)@.history);
                            }
                            InputAction::UpdateSearchBuffer {
                                direction,
                                buffer: self.search_buffer.clone(),
                            }
                        }
                    },
                }
            },
            _ => {
                self.clear_percent_buffer();
                InputAction::InvalidInput
            },
        }
    }

    fn command_key(&mut self, code: KeyCode, modifiers: KeyModifiers) -> (r: InputAction)
        requires
            old(self)@.wf(),
            old(self)@.state == InputState::Command,
        ensures
            final(self)@.wf(),
            (final(self)@, r@) == command_step(old(self)@, code, modifiers),
    {
        let plain = !modifiers.contains(KeyModifiers::control().union(KeyModifiers::alt()));
        let cancel = match code {
            KeyCode::Esc => true,
            KeyCode::Char(ch) => ch == 'c' && modifiers == KeyModifiers::control(),
            _ => false,
        };
        if cancel {
            self.state = InputState::Navigation;
            string_clear(&mut self.command_buffer);
            proof {
                assert(self@.history =~= old(self)@.history);
            }
            return InputAction::CancelCommand;
        }
        match code {
            KeyCode::Enter => {
                let buffer = self.command_buffer.clone();
                self.state = InputState::Navigation;
                string_clear(&mut self.command_buffer);
                proof {
                    assert(self@.history =~= old(self)@.history);
                }
                InputAction::ExecuteCommand { buffer }
            },
            KeyCode::Backspace => {
                let popped = string_pop(&mut self.command_buffer);
                proof {
                    assert(self@.history =~= old(self)@.history);
                }
                if popped.is_some() {
                    InputAction::UpdateCommandBuffer(self.command_buffer.clone())
                } else {
                    self.state = InputState::Navigation;
                    InputAction::CancelCommand
                }
            },
            KeyCode::Char(ch) => {
                if (ascii_graphic(ch) || ch == ' ') && plain {
                    string_push(&mut self.command_buffer, ch);
                    proof {
                        assert(self@.history =~= old(self)@.history);
                    }
                    InputAction::UpdateCommandBuffer(self.command_buffer.clone())
                } else {
                    InputAction::InvalidInput
                }
            },
            _ => InputAction::InvalidInput,
        }
    }

    fn percent_key(&mut self, code: KeyCode, modifiers: KeyModifiers) -> (r: InputAction)
        requires
            old(self)@.wf(),
            old(self)@.state == InputState::PercentInput,
        ensures
            final(self)@.wf(),
            (final(self)@, r@) == percent_step(old(self)@, code, modifiers),
    {
        let plain = !modifiers.contains(KeyModifiers::control().union(KeyModifiers::alt()));
        match code {
            KeyCode::Char(ch) => {
                if '0' <= ch && ch <= '9' && plain {
                    proof {
                        vstd::utf8::is_ascii_chars_encode_utf8(self@.percent);
                    }
                    if self.percent_buffer.as_str().len() < 3 {
                        string_push(&mut self.percent_buffer, ch);
                    }
                    proof {
                        assert(self@.history =~= old(self)@.history);
                    }
                    InputAction::UpdatePercentBuffer(self.percent_buffer.clone())
                } else if ch == 'c' && modifiers.contains(KeyModifiers::control()) {
                    self.clear_percent_buffer();
                    self.state = InputState::Navigation;
                    InputAction::CancelPercentInput
                } else {
                    InputAction::InvalidInput
                }
            },
            KeyCode::Backspace => {
                let popped = string_pop(&mut self.percent_buffer);
                proof {
                    assert(self@.history =~= old(self)@.history);
                }
                if popped.is_some() {
                    InputAction::UpdatePercentBuffer(self.percent_buffer.clone())
                } else {
                    self.state = InputState::Navigation;
                    InputAction::CancelPercentInput
                }
            },
            KeyCode::Enter => {
                let buffer = self.percent_buffer.clone();
                self.clear_percent_buffer();
                self.state = InputState::Navigation;
                if buffer.as_str().is_empty() {
                    return InputAction::CancelPercentInput;
                }
                match parse_u16(buffer.as_str()) {
                    Some(value) => {
                        let capped: u8 = if value < 100 {
                            value as u8
                        } else {
                            100
                        };
                        InputAction::SubmitPercent(capped)
                    },
                    None => InputAction::InvalidInput,
                }
            },
            KeyCode::Esc => {
                self.clear_percent_buffer();
                self.state = InputState::Navigation;
                InputAction::CancelPercentInput
            },
            _ => InputAction::InvalidInput,
        }
    }

    /// The search prompt's current text.
    pub fn get_search_buffer(&self) -> (r: &str)
        ensures
            r@ == self@.search,
    {
        self.search_buffer.as_str()
    }

    /// The current input mode.
    pub fn get_state(&self) -> (r: InputState)
        ensures
            r == self@.state,
    {
        self.state
    }

    fn record_history(&mut self, pattern: String)
        requires
            old(self)@.wf(),
        ensures
            final(self)@ == (MachineView {
                history: record_pattern(old(self)@.history, pattern@),
                ..old(self)@
            }),
    {
        if pattern.as_str().is_empty() {
            return;
        }
        let n = self.search_history.len();
        if n > 0 && self.search_history[n - 1] == pattern {
            return;
        }
        self.search_history.push(pattern);
        proof {
            assert(self@.history =~= old(self)@.history.push(pattern@));
        }
    }
}

impl Default for InputStateMachine {
    fn default() -> (r: Self)
        ensures
            r@.wf(),
            r@.state == InputState::Navigation,
            r@.search.len() == 0,
            r@.command.len() == 0,
            r@.percent.len() == 0,
            r@.history.len() == 0,
            r@.cursor is None,
    {
        Self::new()
    }
}

/// The scroll direction of an action, for a coalesced scroll.
pub open spec fn action_scroll_direction(d: RawScrollDirection) -> ScrollDirection {
    match d {
        RawScrollDirection::Up => ScrollDirection::Up,
        RawScrollDirection::Down => ScrollDirection::Down,
    }
}

/// What one primitive event does to the machine, and the action it yields: keys go
/// through the state machine, whose `NoAction` and `InvalidInput` yield nothing; resizes
/// and coalesced scrolls become the matching actions.
pub open spec fn raw_event_step(m: MachineView, e: RawInputEvent) -> (MachineView, Option<ActionView>) {
    match e {
        RawInputEvent::Key(k) => {
            let (m2, a) = key_step(m, k);
            (
                m2,
                if a == ActionView::NoAction || a == ActionView::InvalidInput {
                    None
                } else {
                    Some(a)
                },
            )
        },
        RawInputEvent::Resize { width, height } => (m, Some(ActionView::Resize { width, height })),
        RawInputEvent::Scroll { direction, lines } => (
            m,
            Some(ActionView::Scroll { direction: action_scroll_direction(direction), lines }),
        ),
    }
}

/// The machine and the actions after the primitive events `events`, in order.
pub open spec fn raw_events_run(m: MachineView, events: Seq<RawInputEvent>) -> (
    MachineView,
    Seq<ActionView>,
)
    decreases events.len(),
{
    if events.len() == 0 {
        (m, seq![])
    } else {
        let (m1, acts) = raw_events_run(m, events.drop_last());
        let (m2, a) = raw_event_step(m1, events.last());
        (
            m2,
            match a {
                Some(a) => acts.push(a),
                None => acts,
            },
        )
    }
}

/// The events a drain at `now` yields from a queue and a pending scroll: the scroll first
/// if its window has passed, then the queue in order.
pub open spec fn drain_order(
    queue: Seq<RawInputEvent>,
    pending: Option<PendingScroll>,
    window: u64,
    now: u64,
) -> Seq<RawInputEvent> {
    if is_stale(pending, window, now) {
        seq![
            RawInputEvent::Scroll {
                direction: pending->Some_0.direction,
                lines: pending->Some_0.lines,
            },
        ] + queue
    } else {
        queue
    }
}

/// Produces high-level `InputAction`s from terminal events.
pub struct InputService {
    state_machine: InputStateMachine,
    raw_input: RawInputCollector,
}

impl InputService {
    /// The state machine inside.
    pub closed spec fn machine(&self) -> MachineView {
        self.state_machine@
    }

    /// The collector inside.
    pub closed spec fn collector(&self) -> RawInputCollector {
        self.raw_input
    }

    /// The machine's invariant holds.
    pub open spec fn wf(&self) -> bool {
        self.machine().wf()
    }

    /// A service with a fresh machine and an idle collector with the default window.
    pub fn new() -> (r: Self)
        ensures
            r.wf(),
            r.machine().state == InputState::Navigation,
            r.machine().history.len() == 0,
            r.collector().queue().len() == 0,
            r.collector().pending_scroll() is None,
            r.collector().window_len() == crate::input::raw::DEFAULT_COALESCE_WINDOW_NANOS,
    {
        InputService { state_machine: InputStateMachine::new(), raw_input: RawInputCollector::new() }
    }

    /// Take in a terminal event that arrived at `now`, then turn every event ready at
    /// `now` into actions, in order, dropping `NoAction` and `InvalidInput`.
    pub fn process_event(&mut self, event: Event, now: u64) -> (r: Vec<InputAction>)
        requires
            old(self).wf(),
        ensures
            final(self).wf(),
            final(self).collector().window_len() == old(self).collector().window_len(),
            ({
                let (q1, p1) = enqueue_step(
                    old(self).collector().queue(),
                    old(self).collector().pending_scroll(),
                    event,
                    now,
                );
                let drained = drain_order(q1, p1, old(self).collector().window_len(), now);
                &&& (final(self).machine(), r@.map_values(|a: InputAction| a@)) == raw_events_run(
                    old(self).machine(),
                    drained,
                )
                &&& final(self).collector().queue().len() == 0
                &&& final(self).collector().pending_scroll() == if is_stale(
                    p1,
                    old(self).collector().window_len(),
                    now,
                ) {
                    None
                } else {
                    p1
                }
            }),
    {
        self.raw_input.process_event(event, now);
        self.drain_ready(Vec::new(), now)
    }

    /// Turn `first`, then every event ready at `now`, into actions, in order.
    pub fn actions_after(&mut self, first: RawInputEvent, now: u64) -> (r: Vec<InputAction>)
        requires
            old(self).wf(),
        ensures
            final(self).wf(),
            final(self).collector().window_len() == old(self).collector().window_len(),
            ({
                let drained = seq![first] + drain_order(
                    old(self).collector().queue(),
                    old(self).collector().pending_scroll(),
                    old(self).collector().window_len(),
                    now,
                );
                (final(self).machine(), r@.map_values(|a: InputAction| a@)) == raw_events_run(
                    old(self).machine(),
                    drained,
                )
            }),
            final(self).collector().queue().len() == 0,
    {
        let mut actions: Vec<InputAction> = Vec::new();
        if let Some(action) = self.process_raw_event(first) {
            actions.push(action);
        }
        proof {
            let (m1, acts) = raw_events_run(old(self).machine(), seq![first]);
            assert(seq![first].drop_last() =~= Seq::<RawInputEvent>::empty());
            assert(seq![first].last() == first);
            let (m2, o) = raw_event_step(old(self).machine(), first);
            assert(raw_events_run(old(self).machine(), Seq::<RawInputEvent>::empty()) == (
                old(self).machine(),
                Seq::<ActionView>::empty(),
            ));
            match o {
                Some(x) => {
                    assert(acts =~= seq![x]);
                },
                None => {
                    assert(acts =~= Seq::<ActionView>::empty());
                },
            }
            assert(actions@.map_values(|a: InputAction| a@) =~= acts);
        }
        let r = self.drain_ready(actions, now);
        proof {
            let rest = drain_order(
                old(self).collector().queue(),
                old(self).collector().pending_scroll(),
                old(self).collector().window_len(),
                now,
            );
            lemma_run_append(old(self).machine(), seq![first], rest);
        }
        r
    }

    /// The next event ready at `now`: a scroll whose window has passed, else the oldest
    /// queued event.
    pub fn take_ready_event(&mut self, now: u64) -> (r: Option<RawInputEvent>)
        requires
            old(self).wf(),
        ensures
            final(self).wf(),
            final(self).machine() == old(self).machine(),
            final(self).collector().window_len() == old(self).collector().window_len(),
            ({
                let d = drain_order(
                    old(self).collector().queue(),
                    old(self).collector().pending_scroll(),
                    old(self).collector().window_len(),
                    now,
                );
                &&& d.len() == 0 ==> r is None
                &&& d.len() > 0 ==> r == Some(d[0])
                &&& drain_order(
                    final(self).collector().queue(),
                    final(self).collector().pending_scroll(),
                    final(self).collector().window_len(),
                    now,
                ) == if d.len() == 0 {
                    d
                } else {
                    d.drop_first()
                }
            }),
    {
        let ghost c = self.raw_input;
        let r = self.raw_input.try_flush_coalesced(now);
        proof {
            lemma_drain_step(c, self.raw_input, now, r);
        }
        r
    }

    /// Take in an event read from the terminal at `now` and return the oldest queued
    /// event.
    pub fn accept_polled_event(&mut self, event: Event, now: u64) -> (r: Option<RawInputEvent>)
        requires
            old(self).wf(),
        ensures
            final(self).wf(),
            final(self).machine() == old(self).machine(),
            final(self).collector().window_len() == old(self).collector().window_len(),
            ({
                let (q1, p1) = enqueue_step(
                    old(self).collector().queue(),
                    old(self).collector().pending_scroll(),
                    event,
                    now,
                );
                &&& final(self).collector().pending_scroll() == p1
                &&& q1.len() == 0 ==> r is None && final(self).collector().queue() == q1
                &&& q1.len() > 0 ==> r == Some(q1[0]) && final(self).collector().queue()
                    == q1.drop_first()
            }),
    {
        self.raw_input.process_event(event, now);
        self.raw_input.pop_pending()
    }

    fn drain_ready(&mut self, actions: Vec<InputAction>, now: u64) -> (r: Vec<InputAction>)
        requires
            old(self).wf(),
        ensures
            final(self).wf(),
            final(self).collector().window_len() == old(self).collector().window_len(),
            ({
                let d = drain_order(
                    old(self).collector().queue(),
                    old(self).collector().pending_scroll(),
                    old(self).collector().window_len(),
                    now,
                );
                let (m2, acts) = raw_events_run(old(self).machine(), d);
                &&& final(self).machine() == m2
                &&& r@.map_values(|a: InputAction| a@) == actions@.map_values(
                    |a: InputAction| a@,
                ) + acts
            }),
            final(self).collector().queue().len() == 0,
            final(self).collector().pending_scroll() == if is_stale(
                old(self).collector().pending_scroll(),
                old(self).collector().window_len(),
                now,
            ) {
                None
            } else {
                old(self).collector().pending_scroll()
            },
    {
        let mut actions = actions;
        let ghost start = actions@.map_values(|a: InputAction| a@);
        let ghost d = drain_order(
            self.raw_input.queue(),
            self.raw_input.pending_scroll(),
            self.raw_input.window_len(),
            now,
        );
        let ghost m0 = self.state_machine@;
        let ghost w = self.raw_input.window_len();
        let ghost mut k: int = 0;
        loop
            invariant
                0 <= k <= d.len(),
                self.state_machine@.wf(),
                w == old(self).collector().window_len(),
                self.raw_input.window_len() == w,
                drain_order(self.raw_input.queue(), self.raw_input.pending_scroll(), w, now)
                    == d.skip(k),
                (self.state_machine@, actions@.map_values(|a: InputAction| a@)) == ({
                    let (m2, acts) = raw_events_run(m0, d.take(k));
                    (m2, start + acts)
                }),
                k > 0 ==> !is_stale(self.raw_input.pending_scroll(), w, now),
                self.raw_input.pending_scroll() == if k > 0 && is_stale(
                    old(self).collector().pending_scroll(),
                    w,
                    now,
                ) {
                    None
                } else {
                    old(self).collector().pending_scroll()
                },
                m0 == old(self).machine(),
                d == drain_order(
                    old(self).collector().queue(),
                    old(self).collector().pending_scroll(),
                    old(self).collector().window_len(),
                    now,
                ),
            ensures
                k == d.len(),
                self.raw_input.queue().len() == 0,
                !is_stale(self.raw_input.pending_scroll(), w, now),
            decreases d.len() - k,
        {
            let ghost c = self.raw_input;
            let ghost acts_before = actions@.map_values(|a: InputAction| a@);
            let ghost m_before = self.state_machine@;
            match self.raw_input.try_flush_coalesced(now) {
                Some(raw) => {
                    proof {
                        lemma_drain_step(c, self.raw_input, now, Some(raw));
                        assert(d.skip(k)[0] == d[k]);
                        assert(d.skip(k).drop_first() =~= d.skip(k + 1));
                    }
                    let ghost (m1, a1) = raw_events_run(m0, d.take(k));
                    assert(raw == d[k]);
                    assert(m_before == m1);
                    let produced = self.process_raw_event(raw);
                    if let Some(action) = produced {
                        actions.push(action);
                        assert(actions@.map_values(|a: InputAction| a@) =~= acts_before.push(
                            action@,
                        ));
                    }
                    proof {
                        assert(d.take(k + 1).drop_last() =~= d.take(k));
                        assert(d.take(k + 1).last() == d[k]);
                        let (m2, o) = raw_event_step(m1, d[k]);
                        assert(acts_before == start + a1);
                        match o {
                            Some(x) => {
                                assert(start + a1.push(x) =~= (start + a1).push(x));
                            },
                            None => {},
                        }
                        k = k + 1;
                    }
                },
                None => {
                    proof {
                        lemma_drain_step(c, self.raw_input, now, None::<RawInputEvent>);
                        if k < d.len() {
                            assert(d.skip(k).len() > 0);
                        }
                    }
                    break;
                },
            }
        }
        proof {
            assert(d.take(k) =~= d);
        }
        actions
    }

    fn process_raw_event(&mut self, event: RawInputEvent) -> (r: Option<InputAction>)
        requires
            old(self).wf(),
        ensures
            final(self).wf(),
            final(self).collector() == old(self).collector(),
            ({
                let (m2, a) = raw_event_step(old(self).machine(), event);
                &&& final(self).machine() == m2
                &&& match r {
                    Some(x) => a == Some(x@),
                    None => a is None,
                }
            }),
    {
        let action = match event {
            RawInputEvent::Key(key_event) => self.state_machine.handle_key_event(key_event),
            RawInputEvent::Resize { width, height } => InputAction::Resize { width, height },
            RawInputEvent::Scroll { direction, lines } => {
                let d = match direction {
                    RawScrollDirection::Up => ScrollDirection::Up,
                    RawScrollDirection::Down => ScrollDirection::Down,
                };
                InputAction::Scroll { direction: d, lines }
            },
        };
        match action {
            InputAction::NoAction | InputAction::InvalidInput => None,
            _ => Some(action),
        }
    }
}

/// How one `try_flush_coalesced` step moves through the drain order.
proof fn lemma_drain_step(
    before: RawInputCollector,
    after: RawInputCollector,
    now: u64,
    r: Option<RawInputEvent>,
)
    requires
        after.window_len() == before.window_len(),
        is_stale(before.pending_scroll(), before.window_len(), now) ==> {
            &&& r == Some(
                RawInputEvent::Scroll {
                    direction: before.pending_scroll()->Some_0.direction,
                    lines: before.pending_scroll()->Some_0.lines,
                },
            )
            &&& after.pending_scroll() is None
            &&& after.queue() == before.queue()
        },
        !is_stale(before.pending_scroll(), before.window_len(), now) ==> {
            &&& after.pending_scroll() == before.pending_scroll()
            &&& before.queue().len() == 0 ==> r is None && after.queue() == before.queue()
            &&& before.queue().len() > 0 ==> r == Some(before.queue()[0]) && after.queue()
                == before.queue().drop_first()
        },
    ensures
        ({
            let d = drain_order(before.queue(), before.pending_scroll(), before.window_len(), now);
            &&& d.len() == 0 <==> r is None
            &&& d.len() > 0 ==> r == Some(d[0])
            &&& drain_order(after.queue(), after.pending_scroll(), after.window_len(), now) == if d.len() == 0 {
                d
            } else {
                d.drop_first()
            }
            &&& !is_stale(after.pending_scroll(), after.window_len(), now)
        }),
{
    let d = drain_order(before.queue(), before.pending_scroll(), before.window_len(), now);
    if is_stale(before.pending_scroll(), before.window_len(), now) {
        assert(d.drop_first() =~= before.queue());
    }
}

/// Running two stretches of events one after the other is running them together.
proof fn lemma_run_append(m: MachineView, a: Seq<RawInputEvent>, b: Seq<RawInputEvent>)
    ensures
        ({
            let (m1, x) = raw_events_run(m, a);
            let (m2, y) = raw_events_run(m1, b);
            raw_events_run(m, a + b) == (m2, x + y)
        }),
    decreases b.len(),
{
    if b.len() == 0 {
        assert(a + b =~= a);
        let (m1, x) = raw_events_run(m, a);
        assert(x + seq![] =~= x);
    } else {
        lemma_run_append(m, a, b.drop_last());
        assert((a + b).drop_last() =~= a + b.drop_last());
        assert((a + b).last() == b.last());
        let (m1, x) = raw_events_run(m, a);
        let (m3, y3) = raw_events_run(m1, b.drop_last());
        let (m4, o) = raw_event_step(m3, b.last());
        match o {
            Some(act) => {
                assert((x + y3).push(act) =~= x + y3.push(act));
            },
            None => {},
        }
    }
}

impl Default for InputService {
    fn default() -> (r: Self)
        ensures
            r.wf(),
            r.machine().state == InputState::Navigation,
            r.collector().queue().len() == 0,
    {
        Self::new()
    }
}

} // verus!
