//! Input records: one event of a console's input buffer.

use vstd::prelude::*;
use crate::values::ascii_or_unicode_char::AsciiOrUnicodeChar;
use crate::values::coord::Coord;
use crate::values::input_record_event_type::{
    lemma_tag_round_trip, InputRecordEventType, FOCUS_EVENT, KEY_EVENT, MENU_EVENT, MOUSE_EVENT,
    WINDOW_BUFFER_SIZE_EVENT,
};

verus! {

/// Keyboard input.
#[derive(Clone, Copy, Debug, Default, PartialEq, Eq, Structural)]
pub struct KeyEventRecord {
    pub key_down: bool,
    pub repeat_count: u16,
    pub virtual_key_code: u16,
    pub virtual_scan_code: u16,
    pub char: AsciiOrUnicodeChar,
    pub control_key_state: u32,
}

/// A menu command; used internally by the console.
#[derive(Clone, Copy, Debug, Default, PartialEq, Eq, Structural)]
pub struct MenuEventRecord {
    pub command_id: u32,
}

/// Mouse movement or a mouse button.
#[derive(Clone, Copy, Debug, Default, PartialEq, Eq, Structural)]
pub struct MouseEventRecord {
    pub mouse_position: Coord,
    pub button_state: u32,
    pub control_key_state: u32,
    pub event_flags: u32,
}

/// A change of focus; used internally by the console.
#[derive(Clone, Copy, Debug, Default, PartialEq, Eq, Structural)]
pub struct FocusEventRecord {
    pub set_focus: bool,
}

/// The screen buffer was resized.
#[derive(Clone, Copy, Debug, Default, PartialEq, Eq, Structural)]
pub struct WindowBufferSizeRecord {
    /// The new size of the screen buffer, in cells.
    pub size: Coord,
}

/// The payload of an input record, by kind; `Other` holds the tag of a kind
/// that this library does not know.
#[derive(Clone, Copy, Debug, PartialEq, Eq, Structural)]
pub enum InputEvent {
    Key(KeyEventRecord),
    Mouse(MouseEventRecord),
    WindowBufferSize(WindowBufferSizeRecord),
    Menu(MenuEventRecord),
    Focus(FocusEventRecord),
    Other(u16),
}

/// Whether `tag` is one of the five kinds of event that have a record type.
pub open spec fn is_known_tag(tag: u16) -> bool {
    tag == KEY_EVENT || tag == MOUSE_EVENT || tag == WINDOW_BUFFER_SIZE_EVENT || tag == MENU_EVENT
        || tag == FOCUS_EVENT
}

/// The tag of an event's kind.
pub open spec fn event_tag(e: InputEvent) -> u16 {
    match e {
        InputEvent::Key(_) => KEY_EVENT,
        InputEvent::Mouse(_) => MOUSE_EVENT,
        InputEvent::WindowBufferSize(_) => WINDOW_BUFFER_SIZE_EVENT,
        InputEvent::Menu(_) => MENU_EVENT,
        InputEvent::Focus(_) => FOCUS_EVENT,
        InputEvent::Other(tag) => tag,
    }
}

/// One event of an input buffer: a tag and the record that the tag selects.
/// The record can be read only as the kind that the tag names.
#[derive(Clone, Copy, Debug)]
pub struct InputRecord {
    event: InputEvent,
}

impl View for InputRecord {
    type V = InputEvent;

    closed spec fn view(&self) -> InputEvent {
        self.event
    }
}

impl InputRecord {
    /// An `Other` event carries a tag of no known kind.
    #[verifier::type_invariant]
    spec fn tag_matches_payload(&self) -> bool {
        match self.event {
            InputEvent::Other(tag) => !is_known_tag(tag),
            _ => true,
        }
    }

    /// The record of an event whose kind this library does not know, or
    /// `None` where `event_type` is one of the known kinds.
    pub fn unknown(event_type: InputRecordEventType) -> (r: Option<Self>)
        ensures
            r is Some <==> !is_known_tag(event_type@),
            r is Some ==> r->Some_0@ == InputEvent::Other(event_type@),
    {
        let tag: u16 = event_type.into();
        proof {
            lemma_tag_round_trip(tag, event_type);
        }
        if tag == KEY_EVENT || tag == MOUSE_EVENT || tag == WINDOW_BUFFER_SIZE_EVENT || tag
            == MENU_EVENT || tag == FOCUS_EVENT {
            None
        } else {
            Some(InputRecord { event: InputEvent::Other(tag) })
        }
    }

    /// The tag: one of [`KEY_EVENT`], [`MOUSE_EVENT`], [`WINDOW_BUFFER_SIZE_EVENT`],
    /// [`MENU_EVENT`], [`FOCUS_EVENT`], or another value.
    pub fn event_type(&self) -> (r: InputRecordEventType)
        ensures
            r@ == event_tag(self@),
    {
        let tag: u16 = match self.event {
            InputEvent::Key(_) => KEY_EVENT,
            InputEvent::Mouse(_) => MOUSE_EVENT,
            InputEvent::WindowBufferSize(_) => WINDOW_BUFFER_SIZE_EVENT,
            InputEvent::Menu(_) => MENU_EVENT,
            InputEvent::Focus(_) => FOCUS_EVENT,
            InputEvent::Other(tag) => tag,
        };
        let r = InputRecordEventType::from(tag);
        proof {
            lemma_tag_round_trip(tag, r);
        }
        r
    }

    /// The key event, where the tag is [`KEY_EVENT`].
    pub fn as_key_event(&self) -> (r: Option<&KeyEventRecord>)
        ensures
            r is Some <==> event_tag(self@) == KEY_EVENT,
            r is Some ==> self@ == InputEvent::Key(*r->Some_0),
    {
        proof {
            use_type_invariant(self);
        }
        match &self.event {
            InputEvent::Key(e) => Some(e),
            _ => None,
        }
    }

    /// The mouse event, where the tag is [`MOUSE_EVENT`].
    pub fn as_mouse_event(&self) -> (r: Option<&MouseEventRecord>)
        ensures
            r is Some <==> event_tag(self@) == MOUSE_EVENT,
            r is Some ==> self@ == InputEvent::Mouse(*r->Some_0),
    {
        proof {
            use_type_invariant(self);
        }
        match &self.event {
            InputEvent::Mouse(e) => Some(e),
            _ => None,
        }
    }

    /// The resize event, where the tag is [`WINDOW_BUFFER_SIZE_EVENT`].
    pub fn as_window_buffer_size_event(&self) -> (r: Option<&WindowBufferSizeRecord>)
        ensures
            r is Some <==> event_tag(self@) == WINDOW_BUFFER_SIZE_EVENT,
            r is Some ==> self@ == InputEvent::WindowBufferSize(*r->Some_0),
    {
        proof {
            use_type_invariant(self);
        }
        match &self.event {
            InputEvent::WindowBufferSize(e) => Some(e),
            _ => None,
        }
    }

    /// The menu event, where the tag is [`MENU_EVENT`].
    pub fn as_menu_event(&self) -> (r: Option<&MenuEventRecord>)
        ensures
            r is Some <==> event_tag(self@) == MENU_EVENT,
            r is Some ==> self@ == InputEvent::Menu(*r->Some_0),
    {
        proof {
            use_type_invariant(self);
        }
        match &self.event {
            InputEvent::Menu(e) => Some(e),
            _ => None,
        }
    }

    /// The focus event, where the tag is [`FOCUS_EVENT`].
    pub fn as_focus_event(&self) -> (r: Option<&FocusEventRecord>)
        ensures
            r is Some <==> event_tag(self@) == FOCUS_EVENT,
            r is Some ==> self@ == InputEvent::Focus(*r->Some_0),
    {
        proof {
            use_type_invariant(self);
        }
        match &self.event {
            InputEvent::Focus(e) => Some(e),
            _ => None,
        }
    }
}

impl Default for InputRecord {
    /// The all-zero record: tag zero, of no known kind.
    fn default() -> (r: Self)
        ensures
            r@ == InputEvent::Other(0),
    {
        InputRecord { event: InputEvent::Other(0) }
    }
}

impl From<KeyEventRecord> for InputRecord {
    fn from(value: KeyEventRecord) -> Self {
        InputRecord { event: InputEvent::Key(value) }
    }
}

impl vstd::std_specs::convert::FromSpecImpl<KeyEventRecord> for InputRecord {
    open spec fn obeys_from_spec() -> bool {
        true
    }

    closed spec fn from_spec(v: KeyEventRecord) -> Self {
        InputRecord { event: InputEvent::Key(v) }
    }
}

impl From<MouseEventRecord> for InputRecord {
    fn from(value: MouseEventRecord) -> Self {
        InputRecord { event: InputEvent::Mouse(value) }
    }
}

impl vstd::std_specs::convert::FromSpecImpl<MouseEventRecord> for InputRecord {
    open spec fn obeys_from_spec() -> bool {
        true
    }

    closed spec fn from_spec(v: MouseEventRecord) -> Self {
        InputRecord { event: InputEvent::Mouse(v) }
    }
}

impl From<WindowBufferSizeRecord> for InputRecord {
    fn from(value: WindowBufferSizeRecord) -> Self {
        InputRecord { event: InputEvent::WindowBufferSize(value) }
    }
}

impl vstd::std_specs::convert::FromSpecImpl<WindowBufferSizeRecord> for InputRecord {
    open spec fn obeys_from_spec() -> bool {
        true
    }

    closed spec fn from_spec(v: WindowBufferSizeRecord) -> Self {
        InputRecord { event: InputEvent::WindowBufferSize(v) }
    }
}

impl From<MenuEventRecord> for InputRecord {
    fn from(value: MenuEventRecord) -> Self {
        InputRecord { event: InputEvent::Menu(value) }
    }
}

impl vstd::std_specs::convert::FromSpecImpl<MenuEventRecord> for InputRecord {
    open spec fn obeys_from_spec() -> bool {
        true
    }

    closed spec fn from_spec(v: MenuEventRecord) -> Self {
        InputRecord { event: InputEvent::Menu(v) }
    }
}

impl From<FocusEventRecord> for InputRecord {
    fn from(value: FocusEventRecord) -> Self {
        InputRecord { event: InputEvent::Focus(value) }
    }
}

impl vstd::std_specs::convert::FromSpecImpl<FocusEventRecord> for InputRecord {
    open spec fn obeys_from_spec() -> bool {
        true
    }

    closed spec fn from_spec(v: FocusEventRecord) -> Self {
        InputRecord { event: InputEvent::Focus(v) }
    }
}

/// A record built from an event record holds that record, under its tag.
pub proof fn lemma_record_from_event(
    key: KeyEventRecord,
    mouse: MouseEventRecord,
    size: WindowBufferSizeRecord,
    menu: MenuEventRecord,
    focus: FocusEventRecord,
)
    ensures
        <InputRecord as vstd::std_specs::convert::FromSpec<KeyEventRecord>>::from_spec(key)@
            == InputEvent::Key(key),
        <InputRecord as vstd::std_specs::convert::FromSpec<MouseEventRecord>>::from_spec(mouse)@
            == InputEvent::Mouse(mouse),
        <InputRecord as vstd::std_specs::convert::FromSpec<WindowBufferSizeRecord>>::from_spec(
            size,
        )@ == InputEvent::WindowBufferSize(size),
        <InputRecord as vstd::std_specs::convert::FromSpec<MenuEventRecord>>::from_spec(menu)@
            == InputEvent::Menu(menu),
        <InputRecord as vstd::std_specs::convert::FromSpec<FocusEventRecord>>::from_spec(focus)@
            == InputEvent::Focus(focus),
{
}

} // verus!
