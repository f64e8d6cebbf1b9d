//! The input helper of a browser-embedded host: synthesizes toolkit
//! keyboard and composition events from the low-level events of a hidden
//! proxy input element, where the host's native key handling is not enough
//! (mobile virtual keyboards, IME composition).
//!
//! The helper keeps one bit of state: whether the latest character arrived
//! through a raw key-down.  A plain `input` event that is not part of a
//! composition and did not arrive through a key-down is synthesized as a
//! press/release pair; one that did arrive through a key-down is dropped, so
//! no character is dispatched twice.  Composition is not modeled as
//! incremental edits: every composition update carries the full current
//! pre-edit text with the cursor at its end, and the composition's end
//! commits the final text as one event.

use vstd::prelude::*;
use vstd::string::StrSliceExecFns;

verus! {

/// Backspace, as the toolkit encodes it.
pub const KEY_BACKSPACE: char = '\u{8}';

/// Tab, as the toolkit encodes it.
pub const KEY_TAB: char = '\u{9}';

/// Shift-tab, as the toolkit encodes it.
pub const KEY_BACKTAB: char = '\u{19}';

/// Return, as the toolkit encodes it.
pub const KEY_RETURN: char = '\u{a}';

/// Escape, as the toolkit encodes it.
pub const KEY_ESCAPE: char = '\u{1b}';

/// Delete, as the toolkit encodes it.
pub const KEY_DELETE: char = '\u{7f}';

/// The up arrow, as the toolkit encodes it.
pub const KEY_UP_ARROW: char = '\u{f700}';

/// The down arrow, as the toolkit encodes it.
pub const KEY_DOWN_ARROW: char = '\u{f701}';

/// The left arrow, as the toolkit encodes it.
pub const KEY_LEFT_ARROW: char = '\u{f702}';

/// The right arrow, as the toolkit encodes it.
pub const KEY_RIGHT_ARROW: char = '\u{f703}';

/// A low-level event of the proxy input element, as the embedder hands it
/// over.
pub enum HostEvent {
    /// A key went down; `key` is the host's key name.
    KeyDown { key: String, shift: bool, is_composing: bool },
    /// A key went up; `key` is the host's key name.
    KeyUp { key: String, shift: bool, is_composing: bool },
    /// The element's value changed (virtual keyboard, autocomplete).
    Input { data: Option<String>, is_composing: bool, is_composition_insert: bool },
    /// The pre-edit text of a composition changed.
    CompositionUpdate { data: Option<String> },
    /// A composition committed its final text.
    CompositionEnd { data: Option<String> },
    /// The proxy element lost focus; `canvas_has_focus` tells whether the
    /// canvas itself holds the focus instead.
    FocusLost { canvas_has_focus: bool },
}

/// A toolkit event the helper dispatches.
#[derive(Debug, PartialEq, Eq)]
pub enum ToolkitEvent {
    KeyPressed { text: String },
    KeyReleased { text: String },
    /// The full current pre-edit text, with the cursor at `cursor`.
    UpdateComposition { text: String, cursor: usize },
    /// The committed final text.
    CommitComposition { text: String },
    WindowActive { active: bool },
    WindowFocus { focused: bool },
}

/// The spec-level shape of a [`HostEvent`], texts as character sequences.
pub enum HostEventView {
    KeyDown { key: Seq<char>, shift: bool, is_composing: bool },
    KeyUp { key: Seq<char>, shift: bool, is_composing: bool },
    Input { data: Option<Seq<char>>, is_composing: bool, is_composition_insert: bool },
    CompositionUpdate { data: Option<Seq<char>> },
    CompositionEnd { data: Option<Seq<char>> },
    FocusLost { canvas_has_focus: bool },
}

/// The spec-level shape of a [`ToolkitEvent`], texts as character sequences.
pub enum ToolkitEventView {
    KeyPressed { text: Seq<char> },
    KeyReleased { text: Seq<char> },
    UpdateComposition { text: Seq<char>, cursor: int },
    CommitComposition { text: Seq<char> },
    WindowActive { active: bool },
    WindowFocus { focused: bool },
}

impl View for HostEvent {
    type V = HostEventView;

    open spec fn view(&self) -> HostEventView {
        match self {
            HostEvent::KeyDown { key, shift, is_composing } => HostEventView::KeyDown {
                key: key@,
                shift: *shift,
                is_composing: *is_composing,
            },
            HostEvent::KeyUp { key, shift, is_composing } => HostEventView::KeyUp {
                key: key@,
                shift: *shift,
                is_composing: *is_composing,
            },
            HostEvent::Input { data, is_composing, is_composition_insert } => HostEventView::Input {
                data: match data {
                    Some(s) => Some(s@),
                    None => None,
                },
                is_composing: *is_composing,
                is_composition_insert: *is_composition_insert,
            },
            HostEvent::CompositionUpdate { data } => HostEventView::CompositionUpdate {
                data: match data {
                    Some(s) => Some(s@),
                    None => None,
                },
            },
            HostEvent::CompositionEnd { data } => HostEventView::CompositionEnd {
                data: match data {
                    Some(s) => Some(s@),
                    None => None,
                },
            },
            HostEvent::FocusLost { canvas_has_focus } => HostEventView::FocusLost {
                canvas_has_focus: *canvas_has_focus,
            },
        }
    }
}

impl View for ToolkitEvent {
    type V = ToolkitEventView;

    open spec fn view(&self) -> ToolkitEventView {
        match self {
            ToolkitEvent::KeyPressed { text } => ToolkitEventView::KeyPressed { text: text@ },
            ToolkitEvent::KeyReleased { text } => ToolkitEventView::KeyReleased { text: text@ },
            ToolkitEvent::UpdateComposition { text, cursor } => ToolkitEventView::UpdateComposition {
                text: text@,
                cursor: *cursor as int,
            },
            ToolkitEvent::CommitComposition { text } => ToolkitEventView::CommitComposition {
                text: text@,
            },
            ToolkitEvent::WindowActive { active } => ToolkitEventView::WindowActive {
                active: *active,
            },
            ToolkitEvent::WindowFocus { focused } => ToolkitEventView::WindowFocus {
                focused: *focused,
            },
        }
    }
}

/// The views of a dispatched event list.
pub open spec fn events_view(events: Seq<ToolkitEvent>) -> Seq<ToolkitEventView> {
    events.map_values(|e: ToolkitEvent| e@)
}

/// What a key name stands for: nothing while composing; the toolkit's code
/// for the named non-printable keys (shift-tab becoming backtab); a single
/// printable character as itself; nothing for any other named key.
pub open spec fn spec_event_text(key: Seq<char>, shift: bool, is_composing: bool) -> Option<char> {
    if is_composing {
        None
    } else if key == "Tab"@ && shift {
        Some(KEY_BACKTAB)
    } else if key == "Tab"@ {
        Some(KEY_TAB)
    } else if key == "Backspace"@ {
        Some(KEY_BACKSPACE)
    } else if key == "Enter"@ {
        Some(KEY_RETURN)
    } else if key == "Escape"@ {
        Some(KEY_ESCAPE)
    } else if key == "Delete"@ {
        Some(KEY_DELETE)
    } else if key == "ArrowUp"@ {
        Some(KEY_UP_ARROW)
    } else if key == "ArrowDown"@ {
        Some(KEY_DOWN_ARROW)
    } else if key == "ArrowLeft"@ {
        Some(KEY_LEFT_ARROW)
    } else if key == "ArrowRight"@ {
        Some(KEY_RIGHT_ARROW)
    } else if key.len() == 1 {
        Some(key[0])
    } else {
        None
    }
}

/// What the helper does with one event: its next state, the views of the
/// events it dispatches, and whether the proxy element's value is cleared.
pub struct ProcessOutcome {
    pub has_key_down: bool,
    pub events: Seq<ToolkitEventView>,
    pub clear_input: bool,
}

/// The helper's whole behavior, one event at a time.
pub open spec fn spec_process(has_key_down: bool, ev: HostEventView) -> ProcessOutcome {
    match ev {
        HostEventView::KeyDown { key, shift, is_composing } => match spec_event_text(
            key,
            shift,
            is_composing,
        ) {
            Some(c) => ProcessOutcome {
                has_key_down: true,
                events: seq![ToolkitEventView::KeyPressed { text: seq![c] }],
                clear_input: false,
            },
            None => ProcessOutcome { has_key_down, events: Seq::empty(), clear_input: false },
        },
        HostEventView::KeyUp { key, shift, is_composing } => match spec_event_text(
            key,
            shift,
            is_composing,
        ) {
            Some(c) => ProcessOutcome {
                has_key_down: false,
                events: seq![ToolkitEventView::KeyReleased { text: seq![c] }],
                clear_input: false,
            },
            None => ProcessOutcome { has_key_down, events: Seq::empty(), clear_input: false },
        },
        HostEventView::Input { data, is_composing, is_composition_insert } => match data {
            Some(text) => if !is_composing && !is_composition_insert {
                if !has_key_down {
                    ProcessOutcome {
                        has_key_down: false,
                        events: seq![
                            ToolkitEventView::KeyPressed { text },
                            ToolkitEventView::KeyReleased { text },
                        ],
                        clear_input: true,
                    }
                } else {
                    ProcessOutcome { has_key_down, events: Seq::empty(), clear_input: true }
                }
            } else {
                ProcessOutcome { has_key_down, events: Seq::empty(), clear_input: false }
            },
            None => ProcessOutcome { has_key_down, events: Seq::empty(), clear_input: false },
        },
        HostEventView::CompositionUpdate { data } => match data {
            Some(text) => ProcessOutcome {
                has_key_down,
                events: seq![
                    ToolkitEventView::UpdateComposition { text, cursor: text.len() as int },
                ],
                clear_input: false,
            },
            None => ProcessOutcome { has_key_down, events: Seq::empty(), clear_input: false },
        },
        HostEventView::CompositionEnd { data } => match data {
            Some(text) => ProcessOutcome {
                has_key_down,
                events: seq![ToolkitEventView::CommitComposition { text }],
                clear_input: true,
            },
            None => ProcessOutcome { has_key_down, events: Seq::empty(), clear_input: false },
        },
        HostEventView::FocusLost { canvas_has_focus } => if !canvas_has_focus {
            ProcessOutcome {
                has_key_down,
                events: seq![
                    ToolkitEventView::WindowActive { active: false },
                    ToolkitEventView::WindowFocus { focused: false },
                ],
                clear_input: false,
            }
        } else {
            ProcessOutcome { has_key_down, events: Seq::empty(), clear_input: false }
        },
    }
}

/// Character-wise string equality.
fn str_eq(a: &str, b: &str) -> (r: bool)
    ensures
        r == (a@ == b@),
{
    let n = a.unicode_len();
    let m = b.unicode_len();
    if n != m {
        return false;
    }
    let mut i: usize = 0;
    while i < n
        invariant
            0 <= i <= n,
            n == a@.len(),
            n == b@.len(),
            forall|j: int| 0 <= j < i ==> a@[j] == b@[j],
        decreases n - i,
    {
        if a.get_char(i) != b.get_char(i) {
            return false;
        }
        i = i + 1;
    }
    proof {
        assert(a@ =~= b@);
    }
    true
}

/// Relies on `String::from(char)`: the returned string holds exactly the
/// one given character.
#[verifier::external_body]
fn char_to_string(c: char) -> (r: String)
    ensures
        r@ == seq![c],
{
    String::from(c)
}

/// What the helper asks the embedder to do with one event.
pub struct InputResponse {
    /// The toolkit events to dispatch, in order.
    pub events: Vec<ToolkitEvent>,
    /// Whether to clear the proxy input element's value.
    pub clear_input: bool,
}

/// The helper's state: whether the latest character arrived through a raw
/// key-down that was not part of a composition.
pub struct InputHelper {
    pub has_key_down: bool,
}

impl InputHelper {
    /// A fresh helper: no key is down.
    pub fn new() -> (h: Self)
        ensures
            !h.has_key_down,
    {
        InputHelper { has_key_down: false }
    }

    /// The toolkit's code for a host key name, as [`spec_event_text`] says.
    pub fn event_text(key: &str, shift: bool, is_composing: bool) -> (r: Option<char>)
        ensures
            r == spec_event_text(key@, shift, is_composing),
    {
        if is_composing {
            return None;
        }
        if str_eq(key, "Tab") {
            return if shift {
                Some(KEY_BACKTAB)
            } else {
                Some(KEY_TAB)
            };
        }
        if str_eq(key, "Backspace") {
            return Some(KEY_BACKSPACE);
        }
        if str_eq(key, "Enter") {
            return Some(KEY_RETURN);
        }
        if str_eq(key, "Escape") {
            return Some(KEY_ESCAPE);
        }
        if str_eq(key, "Delete") {
            return Some(KEY_DELETE);
        }
        if str_eq(key, "ArrowUp") {
            return Some(KEY_UP_ARROW);
        }
        if str_eq(key, "ArrowDown") {
            return Some(KEY_DOWN_ARROW);
        }
        if str_eq(key, "ArrowLeft") {
            return Some(KEY_LEFT_ARROW);
        }
        if str_eq(key, "ArrowRight") {
            return Some(KEY_RIGHT_ARROW);
        }
        if key.unicode_len() == 1 {
            return Some(key.get_char(0));
        }
        None
    }

    /// Handles one host event, as [`spec_process`] says.
    pub fn process_event(&mut self, ev: HostEvent) -> (r: InputResponse)
        ensures
            final(self).has_key_down == spec_process(old(self).has_key_down, ev@).has_key_down,
            events_view(r.events@) == spec_process(old(self).has_key_down, ev@).events,
            r.clear_input == spec_process(old(self).has_key_down, ev@).clear_input,
    {
        let ghost sp = spec_process(old(self).has_key_down, ev@);
        let mut events: Vec<ToolkitEvent> = Vec::new();
        let clear_input: bool;
        match ev {
            HostEvent::KeyDown { key, shift, is_composing } => {
                match Self::event_text(key.as_str(), shift, is_composing) {
                    Some(c) => {
                        self.has_key_down = true;
                        events.push(ToolkitEvent::KeyPressed { text: char_to_string(c) });
                    },
                    None => {},
                }
                clear_input = false;
            },
            HostEvent::KeyUp { key, shift, is_composing } => {
                match Self::event_text(key.as_str(), shift, is_composing) {
                    Some(c) => {
                        self.has_key_down = false;
                        events.push(ToolkitEvent::KeyReleased { text: char_to_string(c) });
                    },
                    None => {},
                }
                clear_input = false;
            },
            HostEvent::Input { data, is_composing, is_composition_insert } => {
                match data {
                    Some(text) => {
                        if !is_composing && !is_composition_insert {
                            if !self.has_key_down {
                                let released = text.clone();
                                events.push(ToolkitEvent::KeyPressed { text });
                                events.push(ToolkitEvent::KeyReleased { text: released });
                                self.has_key_down = false;
                            }
                            clear_input = true;
                        } else {
                            clear_input = false;
                        }
                    },
                    None => {
                        clear_input = false;
                    },
                }
            },
            HostEvent::CompositionUpdate { data } => {
                match data {
                    Some(text) => {
                        let cursor = text.as_str().unicode_len();
                        events.push(ToolkitEvent::UpdateComposition { text, cursor });
                    },
                    None => {},
                }
                clear_input = false;
            },
            HostEvent::CompositionEnd { data } => {
                match data {
                    Some(text) => {
                        events.push(ToolkitEvent::CommitComposition { text });
                        clear_input = true;
                    },
                    None => {
                        clear_input = false;
                    },
                }
            },
            HostEvent::FocusLost { canvas_has_focus } => {
                if !canvas_has_focus {
                    events.push(ToolkitEvent::WindowActive { active: false });
                    events.push(ToolkitEvent::WindowFocus { focused: false });
                }
                clear_input = false;
            },
        }
        proof {
            assert(events_view(events@) =~= sp.events);
        }
        InputResponse { events, clear_input }
    }
}

/// A character that arrives through a key-down is dispatched once: the
/// key-down presses it and marks the key down, the following plain `input`
/// event carrying it synthesizes nothing, and the key-up releases it.
pub proof fn lemma_key_down_not_dispatched_twice(
    key: Seq<char>,
    shift: bool,
    c: char,
    data: Seq<char>,
)
    requires
        spec_event_text(key, shift, false) == Some(c),
    ensures
        ({
            let s1 = spec_process(
                false,
                HostEventView::KeyDown { key, shift, is_composing: false },
            );
            let s2 = spec_process(
                s1.has_key_down,
                HostEventView::Input {
                    data: Some(data),
                    is_composing: false,
                    is_composition_insert: false,
                },
            );
            let s3 = spec_process(
                s2.has_key_down,
                HostEventView::KeyUp { key, shift, is_composing: false },
            );
            &&& s1.events == seq![ToolkitEventView::KeyPressed { text: seq![c] }]
            &&& s2.events == Seq::<ToolkitEventView>::empty()
            &&& s3.events == seq![ToolkitEventView::KeyReleased { text: seq![c] }]
            &&& !s3.has_key_down
        }),
{
}

/// Each composition update dispatches exactly one update event carrying the
/// full current pre-edit text with the cursor at its end, and the
/// composition's end dispatches exactly one commit of the final text —
/// never any press or release.
pub proof fn lemma_composition_dispatch(
    has_key_down: bool,
    first: Seq<char>,
    second: Seq<char>,
    committed: Seq<char>,
)
    ensures
        ({
            let s1 = spec_process(
                has_key_down,
                HostEventView::CompositionUpdate { data: Some(first) },
            );
            let s2 = spec_process(
                s1.has_key_down,
                HostEventView::CompositionUpdate { data: Some(second) },
            );
            let s3 = spec_process(
                s2.has_key_down,
                HostEventView::CompositionEnd { data: Some(committed) },
            );
            &&& s1.events == seq![
                ToolkitEventView::UpdateComposition { text: first, cursor: first.len() as int },
            ]
            &&& s2.events == seq![
                ToolkitEventView::UpdateComposition { text: second, cursor: second.len() as int },
            ]
            &&& s3.events == seq![ToolkitEventView::CommitComposition { text: committed }]
            &&& s1.has_key_down == has_key_down && s2.has_key_down == has_key_down
                && s3.has_key_down == has_key_down
        }),
{
}

} // verus!
