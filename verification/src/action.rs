//! Actions: what the keyboard and the pointer do, one step at a time.
use crate::json;
use crate::json::{Json, JsonValue, Object};
use crate::keys::TypingData;
use crate::text;
use crate::types::{ElementId, MAGIC_ELEMENTID};
use vstd::prelude::*;

verus! {

/// Trait for all Actions.
pub trait Action: Sized {
    /// The action that pauses for so many milliseconds.
    spec fn pause_of(duration_ms: u64) -> Self;

    /// What the action is in a request.
    spec fn json(&self) -> Json;

    /// Get a pause action.
    fn get_pause(duration_ms: u64) -> (r: Self)
        ensures
            r == Self::pause_of(duration_ms),
    ;

    /// What the action is in a request.
    fn to_json(&self) -> (r: JsonValue)
        ensures
            r@ == self.json(),
    ;
}

/// The request for a pause.
pub open spec fn pause_json(duration: u64) -> Json {
    json::obj2("type"@, Json::Str("pause"@), "duration"@, Json::Int(duration as int))
}

/// The request for a pause.
fn pause_value(duration: u64) -> (r: JsonValue)
    ensures
        r@ == pause_json(duration),
{
    JsonValue::object2("type", JsonValue::text("pause"), "duration", JsonValue::Unsigned(duration))
}

/// Null Action.
#[derive(Debug, Clone, Copy)]
pub enum NullAction {
    /// Pause action.
    Pause {
        /// Duration of the pause in milliseconds.
        duration: u64,
    },
}

impl Action for NullAction {
    open spec fn pause_of(duration_ms: u64) -> Self {
        NullAction::Pause { duration: duration_ms }
    }

    open spec fn json(&self) -> Json {
        match self {
            NullAction::Pause { duration } => pause_json(*duration),
        }
    }

    fn get_pause(duration_ms: u64) -> (r: Self) {
        NullAction::Pause { duration: duration_ms }
    }

    fn to_json(&self) -> (r: JsonValue) {
        match self {
            NullAction::Pause { duration } => pause_value(*duration),
        }
    }
}

/// Key Action.
#[derive(Debug, Clone, Copy)]
pub enum KeyAction {
    /// Pause action.
    Pause {
        /// Duration of the pause in milliseconds.
        duration: u64,
    },
    /// Key Up action.
    KeyUp {
        /// The key to press.
        value: char,
    },
    /// Key Down action.
    KeyDown {
        /// The key to release.
        value: char,
    },
}

/// The request for a key to go up or down.
pub open spec fn key_json(name: Seq<char>, value: char) -> Json {
    json::obj2("type"@, Json::Str(name), "value"@, Json::Str(seq![value]))
}

/// The request for a key to go up or down.
fn key_value(name: &str, value: char) -> (r: JsonValue)
    ensures
        r@ == key_json(name@, value),
{
    let mut key: String = String::new();
    key.push(value);
    assert(key@ == seq![value]);
    JsonValue::object2("type", JsonValue::text(name), "value", JsonValue::String(key))
}

impl Action for KeyAction {
    open spec fn pause_of(duration_ms: u64) -> Self {
        KeyAction::Pause { duration: duration_ms }
    }

    open spec fn json(&self) -> Json {
        match self {
            KeyAction::Pause { duration } => pause_json(*duration),
            KeyAction::KeyUp { value } => key_json("keyUp"@, *value),
            KeyAction::KeyDown { value } => key_json("keyDown"@, *value),
        }
    }

    fn get_pause(duration_ms: u64) -> (r: Self) {
        KeyAction::Pause { duration: duration_ms }
    }

    fn to_json(&self) -> (r: JsonValue) {
        match self {
            KeyAction::Pause { duration } => pause_value(*duration),
            KeyAction::KeyUp { value } => key_value("keyUp", *value),
            KeyAction::KeyDown { value } => key_value("keyDown", *value),
        }
    }
}

/// Mouse Button.
#[derive(Debug, Clone, Copy, PartialEq, Eq, Structural)]
pub enum MouseButton {
    /// Left mouse button.
    Left,
    /// Middle mouse button.
    Middle,
    /// Right mouse button.
    Right,
}

impl MouseButton {
    /// The number of the button.
    pub open spec fn number(self) -> u64 {
        match self {
            MouseButton::Left => 0,
            MouseButton::Middle => 1,
            MouseButton::Right => 2,
        }
    }

    /// The number of the button.
    pub fn as_number(&self) -> (r: u64)
        ensures
            r == self.number(),
    {
        match self {
            MouseButton::Left => 0,
            MouseButton::Middle => 1,
            MouseButton::Right => 2,
        }
    }
}

/// Pointer Origin.
#[derive(Debug)]
pub enum PointerOrigin {
    /// Pointer origin is the viewport.
    Viewport,
    /// Pointer origin is the pointer itself.
    Pointer,
    /// Pointer origin is a WebElement.
    WebElement(ElementId),
}

impl PointerOrigin {
    /// What the origin is in a request.
    pub open spec fn json(&self) -> Json {
        match self {
            PointerOrigin::Viewport => Json::Str("viewport"@),
            PointerOrigin::Pointer => Json::Str("pointer"@),
            PointerOrigin::WebElement(id) => json::obj1(MAGIC_ELEMENTID@, Json::Str(id@)),
        }
    }

    /// What the origin is in a request.
    pub fn to_json(&self) -> (r: JsonValue)
        ensures
            r@ == self.json(),
    {
        match self {
            PointerOrigin::Viewport => JsonValue::text("viewport"),
            PointerOrigin::Pointer => JsonValue::text("pointer"),
            PointerOrigin::WebElement(id) => JsonValue::object1(
                MAGIC_ELEMENTID,
                JsonValue::text(id.as_str()),
            ),
        }
    }
}

/// Pointer Action.
#[derive(Debug)]
pub enum PointerAction {
    /// Pause action.
    Pause {
        /// Duration of the pause in milliseconds.
        duration: u64,
    },
    /// Pointer down action.
    PointerDown {
        /// The mouse button to press.
        button: MouseButton,
        /// Duration of the action in milliseconds.
        duration: u64,
    },
    /// Pointer up action.
    PointerUp {
        /// The mouse button to release.
        button: MouseButton,
        /// Duration of the action in milliseconds.
        duration: u64,
    },
    /// Pointer move action.
    PointerMove {
        /// Duration of the action in milliseconds.
        duration: u64,
        /// The pointer origin.
        origin: PointerOrigin,
        /// The x coordinate to move to.
        x: i64,
        /// The y coordinate to move to.
        y: i64,
    },
    /// Pointer cancel action.
    PointerCancel,
}

/// The request for a button to go up or down.
pub open spec fn button_json(name: Seq<char>, button: MouseButton, duration: u64) -> Json {
    Json::Obj(
        Map::empty().insert("type"@, Json::Str(name)).insert(
            "button"@,
            Json::Int(button.number() as int),
        ).insert("duration"@, Json::Int(duration as int)),
    )
}

/// The request for a button to go up or down.
fn button_value(name: &str, button: &MouseButton, duration: u64) -> (r: JsonValue)
    ensures
        r@ == button_json(name@, *button, duration),
{
    let mut o: Object = Object::new();
    o.push("type", JsonValue::text(name));
    o.push("button", JsonValue::Unsigned(button.as_number()));
    o.push("duration", JsonValue::Unsigned(duration));
    JsonValue::Object(o)
}

impl Action for PointerAction {
    open spec fn pause_of(duration_ms: u64) -> Self {
        PointerAction::Pause { duration: duration_ms }
    }

    open spec fn json(&self) -> Json {
        match self {
            PointerAction::Pause { duration } => pause_json(*duration),
            PointerAction::PointerDown { button, duration } => button_json(
                "pointerDown"@,
                *button,
                *duration,
            ),
            PointerAction::PointerUp { button, duration } => button_json(
                "pointerUp"@,
                *button,
                *duration,
            ),
            PointerAction::PointerMove { duration, origin, x, y } => Json::Obj(
                Map::empty().insert("type"@, Json::Str("pointerMove"@)).insert(
                    "duration"@,
                    Json::Int(*duration as int),
                ).insert("origin"@, origin.json()).insert("x"@, Json::Int(*x as int)).insert(
                    "y"@,
                    Json::Int(*y as int),
                ),
            ),
            PointerAction::PointerCancel => json::obj1("type"@, Json::Str("pointerCancel"@)),
        }
    }

    fn get_pause(duration_ms: u64) -> (r: Self) {
        PointerAction::Pause { duration: duration_ms }
    }

    fn to_json(&self) -> (r: JsonValue) {
        match self {
            PointerAction::Pause { duration } => pause_value(*duration),
            PointerAction::PointerDown { button, duration } => button_value(
                "pointerDown",
                button,
                *duration,
            ),
            PointerAction::PointerUp { button, duration } => button_value(
                "pointerUp",
                button,
                *duration,
            ),
            PointerAction::PointerMove { duration, origin, x, y } => {
                let mut o: Object = Object::new();
                o.push("type", JsonValue::text("pointerMove"));
                o.push("duration", JsonValue::Unsigned(*duration));
                o.push("origin", origin.to_json());
                o.push("x", JsonValue::Signed(*x));
                o.push("y", JsonValue::Signed(*y));
                JsonValue::Object(o)
            },
            PointerAction::PointerCancel => JsonValue::object1(
                "type",
                JsonValue::text("pointerCancel"),
            ),
        }
    }
}

/// Parameters for Pointer Actions.
#[derive(Debug)]
pub struct PointerParameters {
    /// The type of pointer.
    pub pointer_type: String,
}

/// Action Source.
#[derive(Debug)]
pub struct ActionSource<T: Action> {
    /// The ID of the action source.
    pub id: String,
    /// The type of action source.
    pub action_type: String,
    /// Parameters for the action source.
    pub parameters: Option<PointerParameters>,
    /// The actions to perform.
    pub actions: Vec<T>,
    /// The duration of the action source in milliseconds.
    pub duration: u64,
}

/// What a list of actions is in a request.
pub open spec fn actions_json<T: Action>(actions: Seq<T>) -> Seq<Json> {
    Seq::new(actions.len(), |i: int| actions[i].json())
}

impl<T: Action> ActionSource<T> {
    /// Everything but the actions is as in `other`.
    pub open spec fn same_source(&self, other: &ActionSource<T>) -> bool {
        &&& self.id == other.id
        &&& self.action_type == other.action_type
        &&& self.parameters == other.parameters
        &&& self.duration == other.duration
    }

    /// What the source is in a request: who acts, and the actions in their order.
    pub open spec fn json(&self) -> Json {
        Json::Obj(
            json::with_member(
                Map::empty().insert("id"@, Json::Str(self.id@)).insert(
                    "type"@,
                    Json::Str(self.action_type@),
                ),
                "parameters"@,
                match self.parameters {
                    Some(p) => Some(json::obj1("pointerType"@, Json::Str(p.pointer_type@))),
                    None => None,
                },
            ).insert("actions"@, Json::Arr(actions_json(self.actions@))),
        )
    }

    /// Add the specified action to this action source.
    pub fn add_action(&mut self, action: T)
        ensures
            final(self).actions@ == old(self).actions@.push(action),
            final(self).same_source(old(self)),
    {
        self.actions.push(action);
    }

    /// Add a pause action so this action source.
    pub fn pause(&mut self)
        ensures
            final(self).actions@ == old(self).actions@.push(T::pause_of(0)),
            final(self).same_source(old(self)),
    {
        self.actions.push(T::get_pause(0));
    }

    /// Add a pause action with the specified duration to this action source.
    pub fn pause_for(&mut self, duration_ms: u64)
        ensures
            final(self).actions@ == old(self).actions@.push(T::pause_of(duration_ms)),
            final(self).same_source(old(self)),
    {
        self.actions.push(T::get_pause(duration_ms));
    }

    /// Get the ID of this action source.
    pub fn id(&self) -> (r: &str)
        ensures
            r@ == self.id@,
    {
        self.id.as_str()
    }

    /// What the source is in a request.
    pub fn to_json(&self) -> (r: JsonValue)
        ensures
            r@ == self.json(),
    {
        let mut list: Vec<JsonValue> = Vec::new();
        let mut i: usize = 0;
        while i < self.actions.len()
            invariant
                i <= self.actions.len(),
                json::items_view(list@) == actions_json(self.actions@).take(i as int),
            decreases self.actions.len() - i,
        {
            let ghost before = list@;
            let item: JsonValue = self.actions[i].to_json();
            list.push(item);
            i = i + 1;
            proof {
                json::lemma_items_view_push(before, item);
                assert(actions_json(self.actions@).take(i as int) == actions_json(
                    self.actions@,
                ).take(i as int - 1).push(item@));
            }
        }
        assert(actions_json(self.actions@).take(self.actions.len() as int) == actions_json(
            self.actions@,
        ));
        let mut o: Object = Object::new();
        o.push("id", JsonValue::text(self.id.as_str()));
        o.push("type", JsonValue::text(self.action_type.as_str()));
        match &self.parameters {
            Some(p) => o.insert(
                "parameters",
                JsonValue::object1("pointerType", JsonValue::text(p.pointer_type.as_str())),
            ),
            None => {},
        }
        o.push("actions", JsonValue::Array(list));
        JsonValue::Object(o)
    }
}

/// The actions that press and release each key of a text in turn.
pub open spec fn key_strokes(typed: Seq<char>) -> Seq<KeyAction> {
    Seq::new(
        2 * typed.len(),
        |i: int|
            if i % 2 == 0 {
                KeyAction::KeyDown { value: text::char_at(typed, i / 2) }
            } else {
                KeyAction::KeyUp { value: text::char_at(typed, i / 2) }
            },
    )
}

/// To type one text and then another is to type the two as one.
pub proof fn lemma_key_strokes_concat(a: Seq<char>, b: Seq<char>)
    ensures
        key_strokes(a + b) == key_strokes(a) + key_strokes(b),
{
    assert forall|i: int| 0 <= i < 2 * (a.len() + b.len()) implies key_strokes(a + b)[i] == (
    key_strokes(a) + key_strokes(b))[i] by {
        if i >= 2 * a.len() {
            let j = i - 2 * a.len();
            assert(j % 2 == i % 2 && j / 2 == i / 2 - a.len());
        }
    }
}

impl ActionSource<KeyAction> {
    /// Create a new Key action source.
    ///
    /// Duration `Option<u64>` represents the time in milliseconds before an action is executed.
    /// Defaults to 0ms
    pub fn new(name: &str, duration: Option<u64>) -> (r: Self)
        ensures
            r.id@ == name@,
            r.action_type@ == "key"@,
            r.parameters is None,
            r.actions@ == Seq::<KeyAction>::empty(),
            r.duration == (match duration {
                Some(d) => d,
                None => 0,
            }),
    {
        let duration: u64 = match duration {
            Some(d) => d,
            None => 0,
        };
        ActionSource {
            id: name.to_owned(),
            action_type: "key".to_owned(),
            parameters: None,
            actions: Vec::new(),
            duration,
        }
    }

    /// Add a Key Down action.
    pub fn key_down(&mut self, value: char)
        ensures
            final(self).actions@ == old(self).actions@.push(KeyAction::KeyDown { value }),
            final(self).same_source(old(self)),
    {
        self.add_action(KeyAction::KeyDown { value });
    }

    /// Add a Key Up action.
    pub fn key_up(&mut self, value: char)
        ensures
            final(self).actions@ == old(self).actions@.push(KeyAction::KeyUp { value }),
            final(self).same_source(old(self)),
    {
        self.add_action(KeyAction::KeyUp { value });
    }

    /// Send multiple keys as a string of Key Up and Key Down actions.
    pub fn send_keys(&mut self, typing: TypingData)
        ensures
            final(self).actions@ == old(self).actions@ + key_strokes(typing@),
            final(self).same_source(old(self)),
    {
        let chars: Vec<char> = typing.as_vec();
        let mut i: usize = 0;
        assert(self.actions@ == old(self).actions@ + key_strokes(typing@.take(0)));
        while i < chars.len()
            invariant
                i <= chars.len(),
                chars@ == typing@,
                self.actions@ == old(self).actions@ + key_strokes(typing@.take(i as int)),
                self.same_source(old(self)),
            decreases chars.len() - i,
        {
            self.key_down(chars[i]);
            self.key_up(chars[i]);
            i = i + 1;
            proof {
                let now = typing@.take(i as int);
                assert(key_strokes(now) == key_strokes(typing@.take(i as int - 1)).push(
                    KeyAction::KeyDown { value: text::char_at(typing@, i as int - 1) },
                ).push(KeyAction::KeyUp { value: text::char_at(typing@, i as int - 1) }));
                assert(self.actions@ == old(self).actions@ + key_strokes(now));
            }
        }
        assert(typing@.take(chars.len() as int) == typing@);
    }
}

/// Enum representing the type of pointer action.
#[derive(Debug, Clone, Copy)]
pub enum PointerActionType {
    /// Mouse pointer.
    Mouse,
    /// Pen pointer.
    Pen,
    /// Touch pointer.
    Touch,
}

impl PointerActionType {
    /// The name of the pointer.
    pub open spec fn name(self) -> Seq<char> {
        match self {
            PointerActionType::Mouse => "mouse"@,
            PointerActionType::Pen => "pen"@,
            PointerActionType::Touch => "touch"@,
        }
    }
}

/// A move of the pointer to a place relative to an origin.
pub open spec fn moved(duration: u64, origin: PointerOrigin, x: i64, y: i64) -> PointerAction {
    PointerAction::PointerMove { duration, origin, x, y }
}

/// A button going down.
pub open spec fn pressed(button: MouseButton) -> PointerAction {
    PointerAction::PointerDown { button, duration: 0 }
}

/// A button going up.
pub open spec fn released(button: MouseButton) -> PointerAction {
    PointerAction::PointerUp { button, duration: 0 }
}

impl ActionSource<PointerAction> {
    /// Create a new Pointer action source.
    ///
    /// Duration represents the time in milliseconds before an action is executed.
    /// Defaults to 250ms
    pub fn new(name: &str, action_type: PointerActionType, duration: Option<u64>) -> (r: Self)
        ensures
            r.id@ == name@,
            r.action_type@ == "pointer"@,
            r.parameters matches Some(p) && p.pointer_type@ == action_type.name(),
            r.actions@ == Seq::<PointerAction>::empty(),
            r.duration == (match duration {
                Some(d) => d,
                None => 250,
            }),
    {
        let duration: u64 = match duration {
            Some(d) => d,
            None => 250,
        };
        let pointer_type: String = match action_type {
            PointerActionType::Mouse => "mouse".to_owned(),
            PointerActionType::Pen => "pen".to_owned(),
            PointerActionType::Touch => "touch".to_owned(),
        };
        ActionSource {
            id: name.to_owned(),
            action_type: "pointer".to_owned(),
            parameters: Some(PointerParameters { pointer_type }),
            actions: Vec::new(),
            duration,
        }
    }

    /// Add a move action to the specified coordinates.
    pub fn move_to(&mut self, x: i64, y: i64)
        ensures
            final(self).actions@ == old(self).actions@.push(
                moved(old(self).duration, PointerOrigin::Viewport, x, y),
            ),
            final(self).same_source(old(self)),
    {
        let duration: u64 = self.duration;
        self.add_action(
            PointerAction::PointerMove { duration, origin: PointerOrigin::Viewport, x, y },
        );
    }

    /// Add a move action by the specified coordinates.
    pub fn move_by(&mut self, x: i64, y: i64)
        ensures
            final(self).actions@ == old(self).actions@.push(
                moved(old(self).duration, PointerOrigin::Pointer, x, y),
            ),
            final(self).same_source(old(self)),
    {
        let duration: u64 = self.duration;
        self.add_action(
            PointerAction::PointerMove { duration, origin: PointerOrigin::Pointer, x, y },
        );
    }

    /// Add a move action to the specified coordinates relative to the element.
    pub fn move_to_element(&mut self, element_id: ElementId, x: i64, y: i64)
        ensures
            final(self).actions@ == old(self).actions@.push(
                moved(old(self).duration, PointerOrigin::WebElement(element_id), x, y),
            ),
            final(self).same_source(old(self)),
    {
        let duration: u64 = self.duration;
        self.add_action(
            PointerAction::PointerMove {
                duration,
                origin: PointerOrigin::WebElement(element_id),
                x,
                y,
            },
        );
    }

    /// Add a move action to the center of the specified element.
    pub fn move_to_element_center(&mut self, element_id: ElementId)
        ensures
            final(self).actions@ == old(self).actions@.push(
                moved(old(self).duration, PointerOrigin::WebElement(element_id), 0, 0),
            ),
            final(self).same_source(old(self)),
    {
        let duration: u64 = self.duration;
        self.add_action(
            PointerAction::PointerMove {
                duration,
                origin: PointerOrigin::WebElement(element_id),
                x: 0,
                y: 0,
            },
        );
    }

    /// Add a click action.
    pub fn click(&mut self)
        ensures
            final(self).actions@ == old(self).actions@.push(pressed(MouseButton::Left)).push(
                released(MouseButton::Left),
            ),
            final(self).same_source(old(self)),
    {
        self.add_action(PointerAction::PointerDown { button: MouseButton::Left, duration: 0 });
        self.add_action(PointerAction::PointerUp { button: MouseButton::Left, duration: 0 });
    }

    /// Add a right-click action.
    pub fn context_click(&mut self)
        ensures
            final(self).actions@ == old(self).actions@.push(pressed(MouseButton::Right)).push(
                released(MouseButton::Right),
            ),
            final(self).same_source(old(self)),
    {
        self.add_action(PointerAction::PointerDown { button: MouseButton::Right, duration: 0 });
        self.add_action(PointerAction::PointerUp { button: MouseButton::Right, duration: 0 });
    }

    /// Add a click-and-hold action.
    pub fn click_and_hold(&mut self)
        ensures
            final(self).actions@ == old(self).actions@.push(pressed(MouseButton::Left)),
            final(self).same_source(old(self)),
    {
        self.add_action(PointerAction::PointerDown { button: MouseButton::Left, duration: 0 });
    }

    /// Add a click-and-hold action on the specified element.
    pub fn click_element_and_hold(&mut self, element_id: ElementId)
        ensures
            final(self).actions@ == old(self).actions@.push(
                moved(old(self).duration, PointerOrigin::WebElement(element_id), 0, 0),
            ).push(pressed(MouseButton::Left)),
            final(self).same_source(old(self)),
    {
        self.move_to_element_center(element_id);
        self.click_and_hold();
    }

    /// Add a release action.
    pub fn release(&mut self)
        ensures
            final(self).actions@ == old(self).actions@.push(released(MouseButton::Left)),
            final(self).same_source(old(self)),
    {
        self.add_action(PointerAction::PointerUp { button: MouseButton::Left, duration: 0 });
    }

    /// Add a double-click action.
    pub fn double_click(&mut self)
        ensures
            final(self).actions@ == old(self).actions@ + seq![
                pressed(MouseButton::Left),
                released(MouseButton::Left),
                pressed(MouseButton::Left),
                released(MouseButton::Left),
            ],
            final(self).same_source(old(self)),
    {
        self.click();
        self.click();
    }

    /// Add a double-click action on the specified element.
    pub fn double_click_element(&mut self, element_id: ElementId)
        ensures
            final(self).actions@ == old(self).actions@ + seq![
                moved(old(self).duration, PointerOrigin::WebElement(element_id), 0, 0),
                pressed(MouseButton::Left),
                released(MouseButton::Left),
                pressed(MouseButton::Left),
                released(MouseButton::Left),
            ],
            final(self).same_source(old(self)),
    {
        self.move_to_element_center(element_id);
        self.double_click();
    }
}

} // verus!
