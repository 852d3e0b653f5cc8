//! Window geometry and window state, and their shape on the wire.

use crate::json::{lookup, JSObject, JsonValue, Member};
use vstd::prelude::*;

verus! {

/// The state of the window
#[derive(Debug, PartialEq, Eq, Hash, Clone, Copy, Structural)]
pub enum WindowState {
    Normal,
    Maximized,
    Minimized,
    Fullscreen,
}

/// A struct that stores the size, position and window state of the browser window.
#[derive(Debug, PartialEq, Eq, Hash, Clone, Copy, Structural)]
pub struct Bounds {
    /// x coordinate of the window
    pub left: i32,
    /// y coordinate of the window
    pub top: i32,
    /// width of the window
    pub width: i32,
    /// height of the window
    pub height: i32,
    pub window_state: WindowState,
}

impl WindowState {
    /// Convert to Bounds struct
    pub fn to_bounds(self) -> (b: Bounds)
        ensures
            b == self.to_bounds_spec(),
    {
        Bounds { height: 0, width: 0, top: 0, left: 0, window_state: self }
    }
}

/// The name of a window state on the wire.
pub open spec fn state_name(state: WindowState) -> Seq<char> {
    match state {
        WindowState::Normal => "normal"@,
        WindowState::Maximized => "maximized"@,
        WindowState::Minimized => "minimized"@,
        WindowState::Fullscreen => "fullscreen"@,
    }
}

/// The window state that a JSON value names.
pub open spec fn named_state(v: JsonValue) -> Option<WindowState> {
    if v == JsonValue::String("normal"@) {
        Some(WindowState::Normal)
    } else if v == JsonValue::String("maximized"@) {
        Some(WindowState::Maximized)
    } else if v == JsonValue::String("minimized"@) {
        Some(WindowState::Minimized)
    } else if v == JsonValue::String("fullscreen"@) {
        Some(WindowState::Fullscreen)
    } else {
        None
    }
}

/// The bounds with every field, as a JSON object.
pub open spec fn bounds_value(b: Bounds) -> JsonValue {
    JsonValue::Object(
        seq![
            ("left"@, JsonValue::integer(b.left as int)),
            ("top"@, JsonValue::integer(b.top as int)),
            ("width"@, JsonValue::integer(b.width as int)),
            ("height"@, JsonValue::integer(b.height as int)),
            ("windowState"@, JsonValue::String(state_name(b.window_state))),
        ],
    )
}

/// The bounds as they are sent to the browser: for a window that is not in
/// the normal state only the state, since the browser takes no geometry
/// with such a state.
pub open spec fn bounds_params(b: Bounds) -> JsonValue {
    if b.window_state != WindowState::Normal {
        JsonValue::object1("windowState"@, JsonValue::String(state_name(b.window_state)))
    } else {
        bounds_value(b)
    }
}

/// The integer under `key`, where it is one of 32 bits.
pub open spec fn field_i32(v: JsonValue, key: Seq<char>) -> Option<i32> {
    match v.get(key).as_i64() {
        Some(n) => if i32::MIN <= n <= i32::MAX {
            Some(n as i32)
        } else {
            None
        },
        None => None,
    }
}

/// The bounds that a JSON object describes: `None` unless it holds the four
/// numbers and a window state.
pub open spec fn parsed_bounds(v: JsonValue) -> Option<Bounds> {
    match (
        field_i32(v, "left"@),
        field_i32(v, "top"@),
        field_i32(v, "width"@),
        field_i32(v, "height"@),
        named_state(v.get("windowState"@)),
    ) {
        (Some(left), Some(top), Some(width), Some(height), Some(window_state)) => Some(
            Bounds { left, top, width, height, window_state },
        ),
        _ => None,
    }
}

/// The names of the four states differ, so a state is known by its name.
pub proof fn lemma_state_names(state: WindowState)
    ensures
        named_state(JsonValue::String(state_name(state))) == Some(state),
{
    reveal_strlit("normal");
    reveal_strlit("maximized");
    reveal_strlit("minimized");
    reveal_strlit("fullscreen");
    assert("fullscreen"@.len() == 10);
    assert("maximized"@[1] != "minimized"@[1]);
}

/// The five keys of bounds on the wire differ from one another.
proof fn lemma_bounds_keys()
    ensures
        "left"@.len() == 4,
        "top"@.len() == 3,
        "width"@.len() == 5,
        "height"@.len() == 6,
        "windowState"@.len() == 11,
{
    reveal_strlit("left");
    reveal_strlit("top");
    reveal_strlit("width");
    reveal_strlit("height");
    reveal_strlit("windowState");
}

/// Bounds that are written with every field are read back as they were.
pub proof fn lemma_bounds_round_trip(b: Bounds)
    ensures
        parsed_bounds(bounds_value(b)) == Some(b),
{
    lemma_bounds_keys();
    reveal_with_fuel(lookup, 6);
    lemma_state_names(b.window_state);
    let v = bounds_value(b);
}

/// Bounds edge case: for a window that is maximized, minimized or
/// fullscreen, what is sent holds the state and nothing else: no geometry
/// is found in it, whatever geometry the bounds carry.
pub proof fn lemma_state_only(b: Bounds)
    requires
        b.window_state != WindowState::Normal,
    ensures
        bounds_params(b) == JsonValue::Object(
            seq![("windowState"@, JsonValue::String(state_name(b.window_state)))],
        ),
        bounds_params(b).get("left"@).is_null(),
        bounds_params(b).get("top"@).is_null(),
        bounds_params(b).get("width"@).is_null(),
        bounds_params(b).get("height"@).is_null(),
        named_state(bounds_params(b).get("windowState"@)) == Some(b.window_state),
        bounds_params(b) == bounds_params(b.window_state.to_bounds_spec()),
{
    lemma_bounds_keys();
    reveal_with_fuel(lookup, 3);
    lemma_state_names(b.window_state);
}

impl WindowState {
    /// The bounds that carry this state and no geometry.
    pub open spec fn to_bounds_spec(self) -> Bounds {
        Bounds { left: 0, top: 0, width: 0, height: 0, window_state: self }
    }

    /// The name of the state on the wire.
    pub fn name(self) -> (n: &'static str)
        ensures
            n@ == state_name(self),
    {
        match self {
            WindowState::Normal => "normal",
            WindowState::Maximized => "maximized",
            WindowState::Minimized => "minimized",
            WindowState::Fullscreen => "fullscreen",
        }
    }

    /// The state that a JSON value names.
    pub fn from_json(v: &JSObject) -> (s: Option<WindowState>)
        ensures
            s == named_state(v@),
    {
        if v.eq_str("normal") {
            Some(WindowState::Normal)
        } else if v.eq_str("maximized") {
            Some(WindowState::Maximized)
        } else if v.eq_str("minimized") {
            Some(WindowState::Minimized)
        } else if v.eq_str("fullscreen") {
            Some(WindowState::Fullscreen)
        } else {
            None
        }
    }
}

/// The integer under `key`, where it is one of 32 bits.
fn get_i32(v: &JSObject, key: &str) -> (n: Option<i32>)
    ensures
        n == field_i32(v@, key@),
{
    match v.get(key).as_i64() {
        Some(n) => if -0x8000_0000i64 <= n && n <= 0x7fff_ffffi64 {
            Some(n as i32)
        } else {
            None
        },
        None => None,
    }
}

impl Bounds {
    /// The bounds with every field, as a JSON object.
    pub fn to_json(&self) -> (v: JSObject)
        ensures
            v@ == bounds_value(*self),
    {
        let mut members: Vec<Member> = Vec::new();
        members.push(Member::new("left", JSObject::integer(self.left as i64)));
        members.push(Member::new("top", JSObject::integer(self.top as i64)));
        members.push(Member::new("width", JSObject::integer(self.width as i64)));
        members.push(Member::new("height", JSObject::integer(self.height as i64)));
        members.push(Member::new("windowState", JSObject::string(self.window_state.name())));
        let v = JSObject::object(members);
        assert(v@->Object_0 =~= bounds_value(*self)->Object_0);
        v
    }

    /// The bounds as they are sent to the browser: only the state, unless
    /// the state is `Normal`.
    pub fn to_params(&self) -> (v: JSObject)
        ensures
            v@ == bounds_params(*self),
    {
        if self.window_state != WindowState::Normal {
            JSObject::object1("windowState", JSObject::string(self.window_state.name()))
        } else {
            self.to_json()
        }
    }

    /// Reads bounds out of the JSON object that the browser reports.
    pub fn from_json(v: &JSObject) -> (b: Option<Bounds>)
        ensures
            b == parsed_bounds(v@),
    {
        let left = get_i32(v, "left");
        let top = get_i32(v, "top");
        let width = get_i32(v, "width");
        let height = get_i32(v, "height");
        let window_state = WindowState::from_json(v.get("windowState"));
        match (left, top, width, height, window_state) {
            (Some(left), Some(top), Some(width), Some(height), Some(window_state)) => Some(
                Bounds { left, top, width, height, window_state },
            ),
            _ => None,
        }
    }
}

} // verus!
