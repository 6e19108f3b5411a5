//! The input panel: its visibility state machine, and what a submission
//! hands back to the caller.

use vstd::prelude::*;

verus! {

/// Whether `c` has the Unicode `White_Space` property.
pub open spec fn is_white_space(c: char) -> bool {
    ||| '\u{9}' <= c <= '\u{d}'
    ||| c == ' '
    ||| c == '\u{85}'
    ||| c == '\u{a0}'
    ||| c == '\u{1680}'
    ||| '\u{2000}' <= c <= '\u{200a}'
    ||| c == '\u{2028}'
    ||| c == '\u{2029}'
    ||| c == '\u{202f}'
    ||| c == '\u{205f}'
    ||| c == '\u{3000}'
}

/// `s` without its leading white space.
pub open spec fn trim_start(s: Seq<char>) -> Seq<char>
    decreases s.len(),
{
    if s.len() > 0 && is_white_space(s[0]) {
        trim_start(s.drop_first())
    } else {
        s
    }
}

/// `s` without its trailing white space.
pub open spec fn trim_end(s: Seq<char>) -> Seq<char>
    decreases s.len(),
{
    if s.len() > 0 && is_white_space(s.last()) {
        trim_end(s.drop_last())
    } else {
        s
    }
}

/// `s` without its leading and trailing white space.
pub open spec fn trimmed(s: Seq<char>) -> Seq<char> {
    trim_end(trim_start(s))
}

/// Relies on `str::trim`: leading and trailing characters with the Unicode
/// `White_Space` property are removed.
#[verifier::external_body]
fn trim(s: &str) -> (r: &str)
    ensures
        r@ == trimmed(s@),
{
    s.trim()
}

/// What a submission of `content` writes to standard output: the trimmed
/// text and a line break, or nothing where only white space was typed.
pub open spec fn submitted_line(content: Seq<char>) -> Option<Seq<char>> {
    if trimmed(content).len() == 0 {
        None
    } else {
        Some(trimmed(content) + seq!['\n'])
    }
}

/// The text that submitting `content` writes to standard output, if any.
pub fn submission_output(content: &str) -> (r: Option<String>)
    ensures
        r.deep_view() == submitted_line(content@),
{
    let t = trim(content);
    if t.unicode_len() == 0 {
        None
    } else {
        proof {
            reveal_strlit("\n");
        }
        Some(t.to_owned().concat("\n"))
    }
}

/// The exit code of every way the process ends.
pub const EXIT_OK: i32 = 0;

/// The key code of the Enter key, which submits the typed text.
pub const ENTER_KEY: u32 = 13;

/// The key code of the Escape key, which dismisses the panel.
pub const ESCAPE_KEY: u32 = 27;

/// Whether the panel is on screen.
#[derive(Clone, Copy, Debug, PartialEq, Eq, Structural)]
pub enum PanelState {
    Hidden,
    Visible,
}

/// What the panel reacts to.
#[derive(Debug)]
pub enum PanelEvent {
    /// The user invoked the launcher's trigger again, or the process started.
    Toggle,
    /// The panel lost input focus.
    FocusLost,
    /// The user confirmed the typed text.
    Submit(String),
    /// The user dismissed the panel without submitting.
    Cancel,
}

/// The mathematical value of a [`PanelEvent`].
pub enum EventView {
    Toggle,
    FocusLost,
    Submit(Seq<char>),
    Cancel,
}

impl View for PanelEvent {
    type V = EventView;

    open spec fn view(&self) -> EventView {
        match self {
            PanelEvent::Toggle => EventView::Toggle,
            PanelEvent::FocusLost => EventView::FocusLost,
            PanelEvent::Submit(s) => EventView::Submit(s@),
            PanelEvent::Cancel => EventView::Cancel,
        }
    }
}

/// What the host is to do after an event.
#[derive(Debug)]
pub enum PanelAction {
    /// Place the panel on the monitor under the pointer, then show it and
    /// let it take input focus.
    Show,
    /// Hide the panel and keep the process running.
    Hide,
    /// Hide the panel, then end the process with `code`.
    HideAndExit { code: i32 },
    /// Write `output`, if any, to standard output, then end the process
    /// with `code`.
    Exit { output: Option<String>, code: i32 },
}

/// The mathematical value of a [`PanelAction`].
pub enum ActionView {
    Show,
    Hide,
    HideAndExit { code: int },
    Exit { output: Option<Seq<char>>, code: int },
}

impl View for PanelAction {
    type V = ActionView;

    open spec fn view(&self) -> ActionView {
        match self {
            PanelAction::Show => ActionView::Show,
            PanelAction::Hide => ActionView::Hide,
            PanelAction::HideAndExit { code } => ActionView::HideAndExit { code: *code as int },
            PanelAction::Exit { output, code } => ActionView::Exit {
                output: output.deep_view(),
                code: *code as int,
            },
        }
    }
}

/// The state after `e` in state `s`, and what the host is to do.
/// Toggling or dismissing a visible panel hides it and ends the process;
/// toggling a hidden one shows it. Losing focus only hides the panel, so
/// that the trigger can show the same process again. Submitting ends the
/// process after writing the trimmed text.
pub open spec fn transition(s: PanelState, e: EventView) -> (PanelState, ActionView) {
    match e {
        EventView::Toggle | EventView::Cancel => match s {
            PanelState::Visible => (PanelState::Hidden, ActionView::HideAndExit { code: EXIT_OK as int }),
            PanelState::Hidden => (PanelState::Visible, ActionView::Show),
        },
        EventView::FocusLost => (PanelState::Hidden, ActionView::Hide),
        EventView::Submit(content) => (
            s,
            ActionView::Exit { output: submitted_line(content), code: EXIT_OK as int },
        ),
    }
}

/// The exit code with which an action ends the process, or `None` where the
/// process keeps running.
pub open spec fn exit_of(a: ActionView) -> Option<int> {
    match a {
        ActionView::HideAndExit { code } => Some(code),
        ActionView::Exit { code, .. } => Some(code),
        _ => None,
    }
}

/// From a visible panel, losing focus hides it and the process keeps
/// running; toggling or dismissing hides it and ends the process with
/// exit code 0.
pub proof fn lemma_visible_exits()
    ensures
        transition(PanelState::Visible, EventView::FocusLost).0 == PanelState::Hidden,
        exit_of(transition(PanelState::Visible, EventView::FocusLost).1) is None,
        transition(PanelState::Visible, EventView::Toggle).0 == PanelState::Hidden,
        exit_of(transition(PanelState::Visible, EventView::Toggle).1) == Some(0int),
        transition(PanelState::Visible, EventView::Cancel).0 == PanelState::Hidden,
        exit_of(transition(PanelState::Visible, EventView::Cancel).1) == Some(0int),
{
}

/// The event that pressing the key `key_code` raises, with `content` the
/// text typed so far.
pub open spec fn key_event(key_code: u32, content: Seq<char>) -> Option<EventView> {
    if key_code == ENTER_KEY {
        Some(EventView::Submit(content))
    } else if key_code == ESCAPE_KEY {
        Some(EventView::Cancel)
    } else {
        None
    }
}

/// The event that a key press in the panel's input raises, with `content`
/// the text typed so far: Enter submits it, Escape dismisses the panel, and
/// other keys raise nothing.
pub fn event_for_key(key_code: u32, content: String) -> (r: Option<PanelEvent>)
    ensures
        match r {
            Some(e) => key_event(key_code, content@) == Some(e@),
            None => key_event(key_code, content@) is None,
        },
{
    if key_code == ENTER_KEY {
        Some(PanelEvent::Submit(content))
    } else if key_code == ESCAPE_KEY {
        Some(PanelEvent::Cancel)
    } else {
        None
    }
}

/// The single panel of the process and its visibility.
pub struct PanelController {
    state: PanelState,
}

impl PanelController {
    /// The panel at process start, not yet shown.
    pub fn new() -> (r: PanelController)
        ensures
            r.view() == PanelState::Hidden,
    {
        PanelController { state: PanelState::Hidden }
    }

    /// The panel's visibility.
    pub closed spec fn view(&self) -> PanelState {
        self.state
    }

    /// The panel's visibility.
    pub fn state(&self) -> (r: PanelState)
        ensures
            r == self.view(),
    {
        self.state
    }

    /// Moves the panel to its next state on `event` and says what the host
    /// is to do.
    pub fn handle(&mut self, event: PanelEvent) -> (r: PanelAction)
        ensures
            (final(self).view(), r@) == transition(old(self).view(), event@),
    {
        match event {
            PanelEvent::Toggle | PanelEvent::Cancel => match self.state {
                PanelState::Visible => {
                    self.state = PanelState::Hidden;
                    PanelAction::HideAndExit { code: EXIT_OK }
                },
                PanelState::Hidden => {
                    self.state = PanelState::Visible;
                    PanelAction::Show
                },
            },
            PanelEvent::FocusLost => {
                self.state = PanelState::Hidden;
                PanelAction::Hide
            },
            PanelEvent::Submit(content) => {
                PanelAction::Exit { output: submission_output(content.as_str()), code: EXIT_OK }
            },
        }
    }
}

} // verus!
