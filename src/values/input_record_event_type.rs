//! The tag of an input record.

use vstd::prelude::*;

verus! {

/// Tag of a key event, whose record is a [`KeyEventRecord`](crate::KeyEventRecord).
pub const KEY_EVENT: u16 = 0x0001;

/// Tag of a mouse event, whose record is a [`MouseEventRecord`](crate::MouseEventRecord).
pub const MOUSE_EVENT: u16 = 0x0002;

/// Tag of a resize of the screen buffer, whose record is a
/// [`WindowBufferSizeRecord`](crate::WindowBufferSizeRecord).
pub const WINDOW_BUFFER_SIZE_EVENT: u16 = 0x0004;

/// Tag of a menu event, whose record is a [`MenuEventRecord`](crate::MenuEventRecord).
pub const MENU_EVENT: u16 = 0x0008;

/// Tag of a focus event, whose record is a [`FocusEventRecord`](crate::FocusEventRecord).
pub const FOCUS_EVENT: u16 = 0x0010;

/// Which kind of event an [`InputRecord`](crate::InputRecord) holds: one of
/// the tags above, or another value that the platform may add.
#[derive(Clone, Copy, Debug, Default, PartialEq, Eq, PartialOrd, Ord, Hash, Structural)]
pub struct InputRecordEventType(u16);

impl View for InputRecordEventType {
    type V = u16;

    closed spec fn view(&self) -> u16 {
        self.0
    }
}

impl InputRecordEventType {
    /// The name of a known tag, such as `"KEY_EVENT"`; `None` for another value.
    pub fn name(self) -> (r: Option<&'static str>)
        ensures
            r is Some <==> (self@ == KEY_EVENT || self@ == MOUSE_EVENT || self@
                == WINDOW_BUFFER_SIZE_EVENT || self@ == MENU_EVENT || self@ == FOCUS_EVENT),
            self@ == KEY_EVENT ==> r->Some_0@ == "KEY_EVENT"@,
            self@ == MOUSE_EVENT ==> r->Some_0@ == "MOUSE_EVENT"@,
            self@ == WINDOW_BUFFER_SIZE_EVENT ==> r->Some_0@ == "WINDOW_BUFFER_SIZE_EVENT"@,
            self@ == MENU_EVENT ==> r->Some_0@ == "MENU_EVENT"@,
            self@ == FOCUS_EVENT ==> r->Some_0@ == "FOCUS_EVENT"@,
    {
        match self.0 {
            KEY_EVENT => Some("KEY_EVENT"),
            MOUSE_EVENT => Some("MOUSE_EVENT"),
            WINDOW_BUFFER_SIZE_EVENT => Some("WINDOW_BUFFER_SIZE_EVENT"),
            MENU_EVENT => Some("MENU_EVENT"),
            FOCUS_EVENT => Some("FOCUS_EVENT"),
            _ => None,
        }
    }
}

impl From<u16> for InputRecordEventType {
    fn from(value: u16) -> Self {
        InputRecordEventType(value)
    }
}

impl vstd::std_specs::convert::FromSpecImpl<u16> for InputRecordEventType {
    open spec fn obeys_from_spec() -> bool {
        true
    }

    closed spec fn from_spec(v: u16) -> Self {
        InputRecordEventType(v)
    }
}

impl From<InputRecordEventType> for u16 {
    fn from(value: InputRecordEventType) -> Self {
        value.0
    }
}

impl vstd::std_specs::convert::FromSpecImpl<InputRecordEventType> for u16 {
    open spec fn obeys_from_spec() -> bool {
        true
    }

    closed spec fn from_spec(v: InputRecordEventType) -> Self {
        v.0
    }
}

/// A tag converted to its value and back is unchanged, and so is a value
/// converted to a tag and back.
pub proof fn lemma_tag_round_trip(tag: u16, t: InputRecordEventType)
    ensures
        <InputRecordEventType as vstd::std_specs::convert::FromSpec<u16>>::from_spec(tag)@ == tag,
        <u16 as vstd::std_specs::convert::FromSpec<InputRecordEventType>>::from_spec(t) == t@,
        <u16 as vstd::std_specs::convert::FromSpec<InputRecordEventType>>::from_spec(
            <InputRecordEventType as vstd::std_specs::convert::FromSpec<u16>>::from_spec(tag),
        ) == tag,
        <InputRecordEventType as vstd::std_specs::convert::FromSpec<u16>>::from_spec(
            <u16 as vstd::std_specs::convert::FromSpec<InputRecordEventType>>::from_spec(t),
        ) == t,
{
}

} // verus!
