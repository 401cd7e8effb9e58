use vstd::prelude::*;

verus! {

/// The kinds of keyboard event.
#[derive(Clone, Copy, Debug, PartialEq, Eq, Structural)]
pub enum EventType {
    KeyPressed,
    KeyReleased,
    KeyTyped,
}

/// Category bit of events that come from an input device.
pub const EVENT_CATEGORY_INPUT: u8 = 2;

/// Category bit of events that come from the keyboard.
pub const EVENT_CATEGORY_KEYBOARD: u8 = 4;

/// Why a key event could not be made.
#[derive(Clone, Copy, Debug, PartialEq, Eq, Structural)]
pub enum KeyEventError {
    /// A key press without a repeat count (-1), or another kind of event
    /// with a repeat count (greater than -1).
    InvalidRepeatCount,
}

/// The event type a numeric code stands for: 0 a press, 1 a release,
/// anything else a typed key.
pub open spec fn type_of_code(code: u8) -> EventType {
    if code == 0 {
        EventType::KeyPressed
    } else if code == 1 {
        EventType::KeyReleased
    } else {
        EventType::KeyTyped
    }
}

/// A repeat count fits its event type: a press never has -1, and any other
/// event has no count above -1.
pub open spec fn repeat_count_fits(event_type: EventType, repeat_count: i32) -> bool {
    if event_type == EventType::KeyPressed {
        repeat_count != -1
    } else {
        repeat_count <= -1
    }
}

/// The name an event type is shown under.
pub open spec fn name_of(event_type: EventType) -> Seq<char> {
    match event_type {
        EventType::KeyPressed => "KeyPressed"@,
        EventType::KeyReleased => "KeyReleased"@,
        EventType::KeyTyped => "KeyTyped"@,
    }
}

/// The text `format!("{}: {} ({} repeats)", name, key_code, repeat_count)` gives.
pub uninterp spec fn pressed_text(name: Seq<char>, key_code: i32, repeat_count: i32) -> Seq<char>;

/// The text `format!("{}: {}", name, key_code)` gives.
pub uninterp spec fn plain_text(name: Seq<char>, key_code: i32) -> Seq<char>;

/// Relies on std's `format!`: the name, the key code and the repeat count in
/// decimal, as "name: key (n repeats)".
#[verifier::external_body]
fn format_pressed(name: &str, key_code: i32, repeat_count: i32) -> (r: String)
    ensures
        r@ == pressed_text(name@, key_code, repeat_count),
{
    format!("{}: {} ({} repeats)", name, key_code, repeat_count)
}

/// Relies on std's `format!`: the name and the key code in decimal, as "name: key".
#[verifier::external_body]
fn format_plain(name: &str, key_code: i32) -> (r: String)
    ensures
        r@ == plain_text(name@, key_code),
{
    format!("{}: {}", name, key_code)
}

pub fn event_name(event_type: EventType) -> (r: &'static str)
    ensures
        r@ == name_of(event_type),
{
    proof {
        reveal_strlit("KeyPressed");
        reveal_strlit("KeyReleased");
        reveal_strlit("KeyTyped");
    }
    match event_type {
        EventType::KeyPressed => "KeyPressed",
        EventType::KeyReleased => "KeyReleased",
        EventType::KeyTyped => "KeyTyped",
    }
}

pub fn get_type_from_int(code: u8) -> (r: EventType)
    ensures
        r == type_of_code(code),
{
    match code {
        0 => EventType::KeyPressed,
        1 => EventType::KeyReleased,
        _ => EventType::KeyTyped,
    }
}

/// A keyboard event: the key, how often a press repeated, and its type.
pub struct KeyEvent {
    key_code: i32,
    repeat_count: i32,
    event_type: EventType,
    category_flags: u8,
}

impl KeyEvent {
    pub closed spec fn key_code_spec(&self) -> i32 {
        self.key_code
    }

    pub closed spec fn repeat_count_spec(&self) -> i32 {
        self.repeat_count
    }

    pub closed spec fn event_type_spec(&self) -> EventType {
        self.event_type
    }

    pub closed spec fn category_flags_spec(&self) -> u8 {
        self.category_flags
    }

    /// Makes a key event of the type that `event_type` codes for. Fails when
    /// the repeat count does not fit that type.
    pub fn new(key_code: i32, repeat_count: i32, event_type: u8) -> (r: Result<
        KeyEvent,
        KeyEventError,
    >)
        ensures
            r.is_ok() == repeat_count_fits(type_of_code(event_type), repeat_count),
            r.is_err() ==> r == Err::<KeyEvent, KeyEventError>(KeyEventError::InvalidRepeatCount),
            r.is_ok() ==> {
                &&& r.unwrap().key_code_spec() == key_code
                &&& r.unwrap().repeat_count_spec() == repeat_count
                &&& r.unwrap().event_type_spec() == type_of_code(event_type)
                &&& r.unwrap().category_flags_spec() == (EVENT_CATEGORY_KEYBOARD
                    | EVENT_CATEGORY_INPUT)
            },
    {
        let e_type = get_type_from_int(event_type);
        let is_pressed = match e_type {
            EventType::KeyPressed => true,
            _ => false,
        };
        if repeat_count > -1 && !is_pressed || is_pressed && repeat_count == -1 {
            return Err(KeyEventError::InvalidRepeatCount);
        }
        Ok(
            KeyEvent {
                key_code,
                repeat_count,
                event_type: e_type,
                category_flags: EVENT_CATEGORY_KEYBOARD | EVENT_CATEGORY_INPUT,
            },
        )
    }

    /// A line describing the event; only a press shows its repeat count.
    pub fn to_string(&self) -> (r: String)
        ensures
            self.event_type_spec() == EventType::KeyPressed ==> r@ == pressed_text(
                name_of(self.event_type_spec()),
                self.key_code_spec(),
                self.repeat_count_spec(),
            ),
            self.event_type_spec() != EventType::KeyPressed ==> r@ == plain_text(
                name_of(self.event_type_spec()),
                self.key_code_spec(),
            ),
    {
        let name = event_name(self.event_type);
        match self.event_type {
            EventType::KeyPressed => format_pressed(name, self.key_code, self.repeat_count),
            _ => format_plain(name, self.key_code),
        }
    }

    pub fn get_event_type(&self) -> (r: EventType)
        ensures
            r == self.event_type_spec(),
    {
        self.event_type
    }

    pub fn get_category_flags(&self) -> (r: u8)
        ensures
            r == self.category_flags_spec(),
    {
        self.category_flags
    }

    /// Whether the event carries any bit of `category`.
    pub fn is_in_category(&self, category: u8) -> (r: bool)
        ensures
            r == (self.category_flags_spec() & category != 0),
    {
        self.category_flags & category != 0
    }

    pub fn get_key_code(&self) -> (r: i32)
        ensures
            r == self.key_code_spec(),
    {
        self.key_code
    }

    pub fn get_repeat_count(&self) -> (r: i32)
        ensures
            r == self.repeat_count_spec(),
    {
        self.repeat_count
    }
}

} // verus!
