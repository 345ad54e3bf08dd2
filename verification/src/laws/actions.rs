//! What the keyboard and the pointer do.
use vstd::prelude::*;

use crate::action::{
    Action, ActionSource, KeyAction, MouseButton, NullAction, PointerAction, PointerActionType,
    PointerOrigin,
};
use crate::action_chain::ActionChain;
use crate::command::CommandView;
use crate::connection::HttpClient;
use crate::driver::Driver;
use crate::duration::Duration;
use crate::error::WebDriverResult;
use crate::json::{Json, JsonValue};
use crate::keys::{IntoKeyChar, IntoTyping, TypingData};
use crate::laws::values;
use crate::laws;
use crate::session::SessionHandle;
use crate::types::ElementId;
use crate::webdrivercommands::WebDriverCommands;
use crate::webelement::WebElement;

verus! {

/// A pause of the keyboard, the pointer and of neither is one for as long as it is asked for.
pub proof fn law_pauses(n: u64, none: NullAction, key: KeyAction, pointer: PointerAction)
    requires
        call_ensures(<NullAction as Action>::get_pause, (n,), none),
        call_ensures(<KeyAction as Action>::get_pause, (n,), key),
        call_ensures(<PointerAction as Action>::get_pause, (n,), pointer),
    ensures
        none == (NullAction::Pause { duration: n }),
        key == (KeyAction::Pause { duration: n }),
        pointer == (PointerAction::Pause { duration: n }),
{
}

/// What is done with a key is written with its name and the key.
pub proof fn law_key_actions_are_written(a: &KeyAction, n: &NullAction, r: JsonValue,
    none: JsonValue)
    requires
        call_ensures(<KeyAction as Action>::to_json, (a,), r),
        call_ensures(<NullAction as Action>::to_json, (n,), none),
    ensures
        a matches KeyAction::Pause { duration }
            ==> r@ == Json::Obj(map!["type"@ => Json::Str("pause"@),
            "duration"@ => Json::Int(*duration as int)]),
        a matches KeyAction::KeyUp { value }
            ==> r@ == Json::Obj(map!["type"@ => Json::Str("keyUp"@),
            "value"@ => Json::Str(seq![*value])]),
        a matches KeyAction::KeyDown { value }
            ==> r@ == Json::Obj(map!["type"@ => Json::Str("keyDown"@),
            "value"@ => Json::Str(seq![*value])]),
        n matches NullAction::Pause { duration }
            ==> none@ == Json::Obj(map!["type"@ => Json::Str("pause"@),
            "duration"@ => Json::Int(*duration as int)]),
{
}

/// The number of a button: left, middle and right in that order.
pub open spec fn button_number(b: MouseButton) -> int {
    match b {
        MouseButton::Left => 0,
        MouseButton::Middle => 1,
        MouseButton::Right => 2,
    }
}

/// Where a move starts from.
pub open spec fn origin_written(o: PointerOrigin) -> Json {
    match o {
        PointerOrigin::Viewport => Json::Str("viewport"@),
        PointerOrigin::Pointer => Json::Str("pointer"@),
        PointerOrigin::WebElement(id) => Json::Obj(
            map!["element-6066-11e4-a52e-4f735466cecf"@ => Json::Str(id@)],
        ),
    }
}

/// Buttons and origins are written as the standard says.
pub proof fn law_pointer_parts(b: &MouseButton, o: &PointerOrigin, n: u64, j: JsonValue)
    requires
        call_ensures(MouseButton::as_number, (b,), n),
        call_ensures(PointerOrigin::to_json, (o,), j),
    ensures
        n == button_number(*b),
        j@ == origin_written(*o),
{
}

/// What is done with the pointer is written with its name, its button or its way, and its time.
pub proof fn law_pointer_actions_are_written(a: &PointerAction, r: JsonValue)
    requires
        call_ensures(<PointerAction as Action>::to_json, (a,), r),
    ensures
        a matches PointerAction::Pause { duration }
            ==> r@ == Json::Obj(map!["type"@ => Json::Str("pause"@),
            "duration"@ => Json::Int(*duration as int)]),
        a matches PointerAction::PointerDown { button, duration }
            ==> r@ == Json::Obj(map!["type"@ => Json::Str("pointerDown"@),
            "button"@ => Json::Int(button_number(*button)),
            "duration"@ => Json::Int(*duration as int)]),
        a matches PointerAction::PointerUp { button, duration }
            ==> r@ == Json::Obj(map!["type"@ => Json::Str("pointerUp"@),
            "button"@ => Json::Int(button_number(*button)),
            "duration"@ => Json::Int(*duration as int)]),
        a matches PointerAction::PointerMove { duration, origin, x, y }
            ==> r@ == Json::Obj(map!["type"@ => Json::Str("pointerMove"@),
            "duration"@ => Json::Int(*duration as int), "origin"@ => origin_written(*origin),
            "x"@ => Json::Int(*x as int), "y"@ => Json::Int(*y as int)]),
        a is PointerCancel ==> r@ == Json::Obj(map!["type"@ => Json::Str("pointerCancel"@)]),
{
}

/// The source kept everything but its actions.
pub open spec fn same<T: Action>(a: ActionSource<T>, b: ActionSource<T>) -> bool {
    b.id == a.id && b.action_type == a.action_type && b.parameters == a.parameters && b.duration
        == a.duration
}

/// A button that is pressed, and one that is let go.
pub open spec fn press(button: MouseButton) -> PointerAction {
    PointerAction::PointerDown { button, duration: 0 }
}

/// A button that is let go.
pub open spec fn lift(button: MouseButton) -> PointerAction {
    PointerAction::PointerUp { button, duration: 0 }
}

/// A way of the pointer.
pub open spec fn way(duration: u64, origin: PointerOrigin, x: i64, y: i64) -> PointerAction {
    PointerAction::PointerMove { duration, origin, x, y }
}

/// A keyboard or a pointer starts without actions, with its name and its kind, and without a delay
/// for keys and a quarter of a second for the pointer where none is given.
pub proof fn law_new_sources(
    name: &str,
    t: PointerActionType,
    n: u64,
    key: ActionSource<KeyAction>,
    slow: ActionSource<KeyAction>,
    pointer: ActionSource<PointerAction>,
    paced: ActionSource<PointerAction>,
)
    requires
        call_ensures(ActionSource::<KeyAction>::new, (name, None::<u64>), key),
        call_ensures(ActionSource::<KeyAction>::new, (name, Some(n)), slow),
        call_ensures(ActionSource::<PointerAction>::new, (name, t, None::<u64>), pointer),
        call_ensures(ActionSource::<PointerAction>::new, (name, t, Some(n)), paced),
    ensures
        key.id@ == name@ && key.action_type@ == "key"@ && key.parameters is None
            && key.actions@.len()
            == 0 && key.duration == 0,
        slow.duration == n,
        pointer.id@ == name@ && pointer.action_type@ == "pointer"@ && pointer.actions@.len() == 0
            && pointer.duration == 250,
        paced.duration == n,
        pointer.parameters matches Some(p) && p.pointer_type@ == (match t {
            PointerActionType::Mouse => "mouse"@,
            PointerActionType::Pen => "pen"@,
            PointerActionType::Touch => "touch"@,
        }),
{
}

/// The keyboard presses, lets go and rests one step at a time, and types every key by pressing it
/// and letting it go.
pub proof fn law_keyboard_steps(c: char, n: u64, a: KeyAction, t: TypingData)
    ensures
        forall|s: &mut ActionSource<KeyAction>, r: ()| #[trigger]
            call_ensures(ActionSource::<KeyAction>::add_action, (s, a), r)
            ==> same(*s, *final(s)) && final(s).actions@ == s.actions@.push(a),
        forall|s: &mut ActionSource<KeyAction>, r: ()| #[trigger]
            call_ensures(ActionSource::<KeyAction>::pause, (s,), r)
            ==> same(*s, *final(s))
            && final(s).actions@ == s.actions@.push(KeyAction::Pause { duration: 0 }),
        forall|s: &mut ActionSource<KeyAction>, r: ()| #[trigger]
            call_ensures(ActionSource::<KeyAction>::pause_for, (s, n), r)
            ==> same(*s, *final(s))
            && final(s).actions@ == s.actions@.push(KeyAction::Pause { duration: n }),
        forall|s: &mut ActionSource<KeyAction>, r: ()| #[trigger]
            call_ensures(ActionSource::<KeyAction>::key_down, (s, c), r)
            ==> same(*s, *final(s))
            && final(s).actions@ == s.actions@.push(KeyAction::KeyDown { value: c }),
        forall|s: &mut ActionSource<KeyAction>, r: ()| #[trigger]
            call_ensures(ActionSource::<KeyAction>::key_up, (s, c), r)
            ==> same(*s, *final(s))
            && final(s).actions@ == s.actions@.push(KeyAction::KeyUp { value: c }),
        forall|s: &mut ActionSource<KeyAction>, r: ()| #[trigger]
            call_ensures(ActionSource::<KeyAction>::send_keys, (s, t), r)
            ==> same(*s, *final(s)) && final(s).actions@ == s.actions@ + strokes(t@),
{
    lemma_strokes(t@);
}

/// The letter in a place.
pub open spec fn letter(typed: Seq<char>, i: int) -> char {
    typed[i]
}

/// Every key pressed and let go, in order.
pub open spec fn strokes(typed: Seq<char>) -> Seq<KeyAction> {
    Seq::new(
        2 * typed.len(),
        |i: int|
            if i % 2 == 0 {
                KeyAction::KeyDown { value: letter(typed, i / 2) }
            } else {
                KeyAction::KeyUp { value: letter(typed, i / 2) }
            },
    )
}

proof fn lemma_strokes(typed: Seq<char>)
    ensures
        crate::action::key_strokes(typed) == strokes(typed),
{
    assert(forall|k: int| crate::text::char_at(typed, k) == letter(typed, k));
    assert(crate::action::key_strokes(typed) =~= strokes(typed));
}

/// The pointer moves, presses and lets go one step at a time.
pub proof fn law_pointer_steps(e: ElementId, x: i64, y: i64, n: u64, a: PointerAction)
    ensures
        forall|s: &mut ActionSource<PointerAction>, r: ()| #[trigger]
            call_ensures(ActionSource::<PointerAction>::add_action, (s, a), r)
            ==> same(*s, *final(s)) && final(s).actions@ == s.actions@ + seq![a],
        forall|s: &mut ActionSource<PointerAction>, r: ()| #[trigger]
            call_ensures(ActionSource::<PointerAction>::pause, (s,), r)
            ==> same(*s, *final(s))
            && final(s).actions@ == s.actions@ + seq![PointerAction::Pause { duration: 0 }],
        forall|s: &mut ActionSource<PointerAction>, r: ()| #[trigger]
            call_ensures(ActionSource::<PointerAction>::pause_for, (s, n), r)
            ==> same(*s, *final(s))
            && final(s).actions@ == s.actions@ + seq![PointerAction::Pause { duration: n }],
        forall|s: &mut ActionSource<PointerAction>, r: ()| #[trigger]
            call_ensures(ActionSource::<PointerAction>::move_to, (s, x, y), r)
            ==> same(*s, *final(s))
            && final(s).actions@ == s.actions@ + seq![way(s.duration, PointerOrigin::Viewport, x,
            y)],
        forall|s: &mut ActionSource<PointerAction>, r: ()| #[trigger]
            call_ensures(ActionSource::<PointerAction>::move_by, (s, x, y), r)
            ==> same(*s, *final(s))
            && final(s).actions@ == s.actions@ + seq![way(s.duration, PointerOrigin::Pointer, x,
            y)],
        forall|s: &mut ActionSource<PointerAction>, r: ()| #[trigger]
            call_ensures(ActionSource::<PointerAction>::move_to_element, (s, e, x, y), r)
            ==> same(*s, *final(s))
            && final(s).actions@ == s.actions@ + seq![way(s.duration, PointerOrigin::WebElement(e),
            x, y)],
        forall|s: &mut ActionSource<PointerAction>, r: ()| #[trigger]
            call_ensures(ActionSource::<PointerAction>::move_to_element_center, (s, e), r)
            ==> same(*s, *final(s))
            && final(s).actions@ == s.actions@ + seq![way(s.duration, PointerOrigin::WebElement(e),
            0, 0)],
        forall|s: &mut ActionSource<PointerAction>, r: ()| #[trigger]
            call_ensures(ActionSource::<PointerAction>::click, (s,), r)
            ==> same(*s, *final(s))
            && final(s).actions@ == s.actions@ + seq![press(MouseButton::Left),
            lift(MouseButton::Left)],
        forall|s: &mut ActionSource<PointerAction>, r: ()| #[trigger]
            call_ensures(ActionSource::<PointerAction>::context_click, (s,), r)
            ==> same(*s, *final(s))
            && final(s).actions@ == s.actions@ + seq![press(MouseButton::Right),
            lift(MouseButton::Right)],
        forall|s: &mut ActionSource<PointerAction>, r: ()| #[trigger]
            call_ensures(ActionSource::<PointerAction>::click_and_hold, (s,), r)
            ==> same(*s, *final(s))
            && final(s).actions@ == s.actions@ + seq![press(MouseButton::Left)],
        forall|s: &mut ActionSource<PointerAction>, r: ()| #[trigger]
            call_ensures(ActionSource::<PointerAction>::click_element_and_hold, (s, e), r)
            ==> same(*s, *final(s))
            && final(s).actions@ == s.actions@ + seq![way(s.duration, PointerOrigin::WebElement(e),
            0, 0), press(MouseButton::Left)],
        forall|s: &mut ActionSource<PointerAction>, r: ()| #[trigger]
            call_ensures(ActionSource::<PointerAction>::release, (s,), r)
            ==> same(*s, *final(s))
            && final(s).actions@ == s.actions@ + seq![lift(MouseButton::Left)],
        forall|s: &mut ActionSource<PointerAction>, r: ()| #[trigger]
            call_ensures(ActionSource::<PointerAction>::double_click, (s,), r)
            ==> same(*s, *final(s))
            && final(s).actions@ == s.actions@ + seq![press(MouseButton::Left),
            lift(MouseButton::Left), press(MouseButton::Left), lift(MouseButton::Left)],
        forall|s: &mut ActionSource<PointerAction>, r: ()| #[trigger]
            call_ensures(ActionSource::<PointerAction>::double_click_element, (s, e), r)
            ==> same(*s, *final(s))
            && final(s).actions@ == s.actions@ + seq![way(s.duration, PointerOrigin::WebElement(e),
            0, 0), press(MouseButton::Left), lift(MouseButton::Left), press(MouseButton::Left),
            lift(MouseButton::Left)],
{
    assert forall|s: &mut ActionSource<PointerAction>, r: ()| #[trigger]
        call_ensures(ActionSource::<PointerAction>::add_action, (s, a), r)
        implies final(s).actions@ == s.actions@ + seq![a] by {
        assert(final(s).actions@ =~= s.actions@ + seq![a]);
    }
    assert forall|s: &mut ActionSource<PointerAction>, r: ()| #[trigger]
        call_ensures(ActionSource::<PointerAction>::pause, (s,), r)
        implies final(s).actions@ == s.actions@ + seq![PointerAction::Pause { duration: 0 }] by {
        assert(final(s).actions@ =~= s.actions@ + seq![PointerAction::Pause { duration: 0 }]);
    }
    assert forall|s: &mut ActionSource<PointerAction>, r: ()| #[trigger]
        call_ensures(ActionSource::<PointerAction>::pause_for, (s, n), r)
        implies final(s).actions@ == s.actions@ + seq![PointerAction::Pause { duration: n }] by {
        assert(final(s).actions@ =~= s.actions@ + seq![PointerAction::Pause { duration: n }]);
    }
    assert forall|s: &mut ActionSource<PointerAction>, r: ()| #[trigger]
        call_ensures(ActionSource::<PointerAction>::move_to, (s, x, y), r)
        implies final(s).actions@ == s.actions@ + seq![way(s.duration, PointerOrigin::Viewport, x,
        y)] by {
        assert(final(s).actions@ =~= s.actions@ + seq![way(s.duration, PointerOrigin::Viewport, x,
            y)]);
    }
    assert forall|s: &mut ActionSource<PointerAction>, r: ()| #[trigger]
        call_ensures(ActionSource::<PointerAction>::move_by, (s, x, y), r)
        implies final(s).actions@ == s.actions@ + seq![way(s.duration, PointerOrigin::Pointer, x,
        y)] by {
        assert(final(s).actions@ =~= s.actions@ + seq![way(s.duration, PointerOrigin::Pointer, x,
            y)]);
    }
    assert forall|s: &mut ActionSource<PointerAction>, r: ()| #[trigger]
        call_ensures(ActionSource::<PointerAction>::move_to_element, (s, e, x, y), r)
        implies final(s).actions@ == s.actions@ + seq![way(s.duration,
        PointerOrigin::WebElement(e), x, y)] by {
        assert(final(s).actions@ =~= s.actions@ + seq![way(s.duration,
            PointerOrigin::WebElement(e), x, y)]);
    }
    assert forall|s: &mut ActionSource<PointerAction>, r: ()| #[trigger]
        call_ensures(ActionSource::<PointerAction>::move_to_element_center, (s, e), r)
        implies final(s).actions@ == s.actions@ + seq![way(s.duration,
        PointerOrigin::WebElement(e), 0, 0)] by {
        assert(final(s).actions@ =~= s.actions@ + seq![way(s.duration,
            PointerOrigin::WebElement(e), 0, 0)]);
    }
    assert forall|s: &mut ActionSource<PointerAction>, r: ()| #[trigger]
        call_ensures(ActionSource::<PointerAction>::click, (s,), r)
        implies final(s).actions@ == s.actions@ + seq![press(MouseButton::Left),
        lift(MouseButton::Left)] by {
        assert(final(s).actions@ =~= s.actions@ + seq![press(MouseButton::Left),
            lift(MouseButton::Left)]);
    }
    assert forall|s: &mut ActionSource<PointerAction>, r: ()| #[trigger]
        call_ensures(ActionSource::<PointerAction>::context_click, (s,), r)
        implies final(s).actions@ == s.actions@ + seq![press(MouseButton::Right),
        lift(MouseButton::Right)] by {
        assert(final(s).actions@ =~= s.actions@ + seq![press(MouseButton::Right),
            lift(MouseButton::Right)]);
    }
    assert forall|s: &mut ActionSource<PointerAction>, r: ()| #[trigger]
        call_ensures(ActionSource::<PointerAction>::click_and_hold, (s,), r)
        implies final(s).actions@ == s.actions@ + seq![press(MouseButton::Left)] by {
        assert(final(s).actions@ =~= s.actions@ + seq![press(MouseButton::Left)]);
    }
    assert forall|s: &mut ActionSource<PointerAction>, r: ()| #[trigger]
        call_ensures(ActionSource::<PointerAction>::click_element_and_hold, (s, e), r)
        implies final(s).actions@ == s.actions@ + seq![way(s.duration,
        PointerOrigin::WebElement(e), 0, 0), press(MouseButton::Left)] by {
        assert(final(s).actions@ =~= s.actions@ + seq![way(s.duration,
            PointerOrigin::WebElement(e), 0, 0), press(MouseButton::Left)]);
    }
    assert forall|s: &mut ActionSource<PointerAction>, r: ()| #[trigger]
        call_ensures(ActionSource::<PointerAction>::release, (s,), r)
        implies final(s).actions@ == s.actions@ + seq![lift(MouseButton::Left)] by {
        assert(final(s).actions@ =~= s.actions@ + seq![lift(MouseButton::Left)]);
    }
    assert forall|s: &mut ActionSource<PointerAction>, r: ()| #[trigger]
        call_ensures(ActionSource::<PointerAction>::double_click, (s,), r)
        implies final(s).actions@ == s.actions@ + seq![press(MouseButton::Left),
        lift(MouseButton::Left), press(MouseButton::Left), lift(MouseButton::Left)] by {
        assert(final(s).actions@ =~= s.actions@ + seq![press(MouseButton::Left),
            lift(MouseButton::Left), press(MouseButton::Left), lift(MouseButton::Left)]);
    }
    assert forall|s: &mut ActionSource<PointerAction>, r: ()| #[trigger]
        call_ensures(ActionSource::<PointerAction>::double_click_element, (s, e), r)
        implies final(s).actions@ == s.actions@ + seq![way(s.duration,
        PointerOrigin::WebElement(e), 0, 0), press(MouseButton::Left), lift(MouseButton::Left),
        press(MouseButton::Left), lift(MouseButton::Left)] by {
        assert(final(s).actions@ =~= s.actions@ + seq![way(s.duration,
            PointerOrigin::WebElement(e), 0, 0), press(MouseButton::Left), lift(MouseButton::Left),
            press(MouseButton::Left), lift(MouseButton::Left)]);
    }
}

proof fn lemma_source_names()
    ensures
        "id"@ != "type"@,
        "id"@ != "parameters"@,
        "id"@ != "actions"@,
        "type"@ != "parameters"@,
        "type"@ != "actions"@,
        "parameters"@ != "actions"@,
{
    reveal_strlit("id");
    reveal_strlit("type");
    reveal_strlit("parameters");
    reveal_strlit("actions");
    assert("id"@.len() != "type"@.len());
    assert("id"@.len() != "parameters"@.len());
    assert("id"@.len() != "actions"@.len());
    assert("type"@.len() != "parameters"@.len());
    assert("type"@.len() != "actions"@.len());
    assert("parameters"@.len() != "actions"@.len());
}

/// A source is written with its name, its kind, its parameters where it has them, and its actions
/// in order.
pub proof fn law_source_is_written<T: Action>(s: &ActionSource<T>, r: JsonValue, i: int,
    a: JsonValue)
    requires
        call_ensures(ActionSource::<T>::to_json, (s,), r),
        0 <= i < s.actions@.len(),
        call_ensures(T::to_json, (&s.actions@[i],), a),
    ensures
        r@ matches Json::Obj(m) && {
            &&& m.contains_key("id"@) && m["id"@] == Json::Str(s.id@)
            &&& m.contains_key("type"@) && m["type"@] == Json::Str(s.action_type@)
            &&& match s.parameters {
                Some(p) => m.contains_key("parameters"@) && m["parameters"@] == Json::Obj(
                    map!["pointerType"@ => Json::Str(p.pointer_type@)],
                ),
                None => !m.contains_key("parameters"@),
            }
            &&& m.contains_key("actions"@) && m["actions"@] is Arr && m["actions"@]->Arr_0.len()
                == s.actions@.len() && m["actions"@]->Arr_0[i] == a@
        },
{
    lemma_source_names();
}

/// What a chain gained: these actions of the keyboard and of the pointer, and nothing else.
pub open spec fn gains<D>(
    a: ActionChain<D>,
    b: ActionChain<D>,
    keys: Seq<KeyAction>,
    pointer: Seq<PointerAction>,
) -> bool {
    &&& b.driver() == a.driver()
    &&& same(a.keyboard(), b.keyboard())
    &&& same(a.pointer(), b.pointer())
    &&& b.keyboard().actions@ == a.keyboard().actions@ + keys
    &&& b.pointer().actions@ == a.pointer().actions@ + pointer
}

/// Rests of the keyboard.
pub open spec fn rests(n: nat) -> Seq<KeyAction> {
    Seq::new(n, |i: int| KeyAction::Pause { duration: 0 })
}

/// Rests of the pointer.
pub open spec fn stays(n: nat) -> Seq<PointerAction> {
    Seq::new(n, |i: int| PointerAction::Pause { duration: 0 })
}

/// The pointer of a chain clicks, holds, moves and lets go where it is, and the keyboard rests a step
/// for every step of it.
pub proof fn law_chain_pointer<D>(
    c: ActionChain<D>,
    e: &WebElement<D>,
    f: &WebElement<D>,
    x: i64,
    y: i64,
)
    ensures
        forall|r: ActionChain<D>| #[trigger] call_ensures(ActionChain::<D>::click, (c,), r)
            ==> gains(c, r, rests(2), seq![press(MouseButton::Left), lift(MouseButton::Left)]),
        forall|r: ActionChain<D>| #[trigger]
            call_ensures(ActionChain::<D>::click_and_hold, (c,), r)
            ==> gains(c, r, rests(1), seq![press(MouseButton::Left)]),
        forall|r: ActionChain<D>| #[trigger] call_ensures(ActionChain::<D>::context_click, (c,), r)
            ==> gains(c, r, rests(2), seq![press(MouseButton::Right), lift(MouseButton::Right)]),
        forall|r: ActionChain<D>| #[trigger] call_ensures(ActionChain::<D>::double_click, (c,), r)
            ==> gains(c, r, rests(4), seq![press(MouseButton::Left), lift(MouseButton::Left),
            press(MouseButton::Left), lift(MouseButton::Left)]),
        forall|r: ActionChain<D>| #[trigger] call_ensures(ActionChain::<D>::move_to, (c, x, y), r)
            ==> gains(c, r, rests(1), seq![way(c.pointer().duration, PointerOrigin::Viewport, x,
            y)]),
        forall|r: ActionChain<D>| #[trigger]
            call_ensures(ActionChain::<D>::move_by_offset, (c, x, y), r)
            ==> gains(c, r, rests(1), seq![way(c.pointer().duration, PointerOrigin::Pointer, x,
            y)]),
        forall|r: ActionChain<D>| #[trigger] call_ensures(ActionChain::<D>::release, (c,), r)
            ==> gains(c, r, rests(1), seq![lift(MouseButton::Left)]),
{
    assert(crate::action_chain::key_pauses(1) =~= rests(1));
    assert(crate::action_chain::key_pauses(2) =~= rests(2));
    assert(crate::action_chain::key_pauses(4) =~= rests(4));
}

/// Over an element, the pointer first goes to the middle of it, or as far from there as is asked.
pub proof fn law_chain_elements<D>(
    c: ActionChain<D>,
    e: &WebElement<D>,
    f: &WebElement<D>,
    x: i64,
    y: i64,
)
    ensures
        forall|r: ActionChain<D>| #[trigger]
            call_ensures(ActionChain::<D>::move_to_element_center, (c, e), r)
            ==> gains(c, r, rests(1), seq![way(c.pointer().duration,
            PointerOrigin::WebElement(e.element_id), 0, 0)]),
        forall|r: ActionChain<D>| #[trigger]
            call_ensures(ActionChain::<D>::move_to_element_with_offset, (c, e, x, y), r)
            ==> gains(c, r, rests(1), seq![way(c.pointer().duration,
            PointerOrigin::WebElement(e.element_id), x, y)]),
        forall|r: ActionChain<D>| #[trigger]
            call_ensures(ActionChain::<D>::click_element, (c, e), r)
            ==> gains(c, r, rests(3), seq![way(c.pointer().duration,
            PointerOrigin::WebElement(e.element_id), 0, 0), press(MouseButton::Left),
            lift(MouseButton::Left)]),
        forall|r: ActionChain<D>| #[trigger]
            call_ensures(ActionChain::<D>::click_and_hold_element, (c, e), r)
            ==> gains(c, r, rests(2), seq![way(c.pointer().duration,
            PointerOrigin::WebElement(e.element_id), 0, 0), press(MouseButton::Left)]),
        forall|r: ActionChain<D>| #[trigger]
            call_ensures(ActionChain::<D>::context_click_element, (c, e), r)
            ==> gains(c, r, rests(3), seq![way(c.pointer().duration,
            PointerOrigin::WebElement(e.element_id), 0, 0), press(MouseButton::Right),
            lift(MouseButton::Right)]),
        forall|r: ActionChain<D>| #[trigger]
            call_ensures(ActionChain::<D>::double_click_element, (c, e), r)
            ==> gains(c, r, rests(5), seq![way(c.pointer().duration,
            PointerOrigin::WebElement(e.element_id), 0, 0), press(MouseButton::Left),
            lift(MouseButton::Left), press(MouseButton::Left), lift(MouseButton::Left)]),
        forall|r: ActionChain<D>| #[trigger]
            call_ensures(ActionChain::<D>::release_on_element, (c, e), r)
            ==> gains(c, r, rests(2), seq![way(c.pointer().duration,
            PointerOrigin::WebElement(e.element_id), 0, 0), lift(MouseButton::Left)]),
{
    assert(crate::action_chain::key_pauses(1) =~= rests(1));
    assert(crate::action_chain::key_pauses(2) =~= rests(2));
    assert(crate::action_chain::key_pauses(3) =~= rests(3));
    assert(crate::action_chain::key_pauses(5) =~= rests(5));
}

/// To drag is to press, to move and to let go; what is dragged from an element starts there.
pub proof fn law_chain_drags<D>(
    c: ActionChain<D>,
    e: &WebElement<D>,
    f: &WebElement<D>,
    x: i64,
    y: i64,
)
    ensures
        forall|r: ActionChain<D>| #[trigger]
            call_ensures(ActionChain::<D>::drag_and_drop_element, (c, e, f), r)
            ==> gains(c, r, rests(4), seq![way(c.pointer().duration,
            PointerOrigin::WebElement(e.element_id), 0, 0), press(MouseButton::Left),
            way(c.pointer().duration, PointerOrigin::WebElement(f.element_id), 0, 0),
            lift(MouseButton::Left)]),
        forall|r: ActionChain<D>| #[trigger]
            call_ensures(ActionChain::<D>::drag_and_drop_by_offset, (c, x, y), r)
            ==> gains(c, r, rests(3), seq![press(MouseButton::Left), way(c.pointer().duration,
            PointerOrigin::Pointer, x, y), lift(MouseButton::Left)]),
        forall|r: ActionChain<D>| #[trigger]
            call_ensures(ActionChain::<D>::drag_and_drop_element_by_offset, (c, e, x, y), r)
            ==> gains(c, r, rests(4), seq![way(c.pointer().duration,
            PointerOrigin::WebElement(e.element_id), 0, 0), press(MouseButton::Left),
            way(c.pointer().duration, PointerOrigin::Pointer, x, y), lift(MouseButton::Left)]),
{
    assert(crate::action_chain::key_pauses(3) =~= rests(3));
    assert(crate::action_chain::key_pauses(4) =~= rests(4));
}

/// The keyboard of a chain presses, lets go and types while the pointer rests a step for every step
/// of it.
pub proof fn law_chain_keys<D, K: IntoKeyChar, S: IntoTyping>(
    c: ActionChain<D>,
    key: K,
    code: char,
    text: S,
    typing: TypingData,
)
    requires
        call_ensures(K::into_char, (key,), code),
        call_ensures(TypingData::from::<S>, (text,), typing),
    ensures
        forall|r: ActionChain<D>| #[trigger]
            call_ensures(ActionChain::<D>::key_down::<K>, (c, key), r)
            ==> gains(c, r, seq![KeyAction::KeyDown { value: code }], stays(1)),
        forall|r: ActionChain<D>| #[trigger]
            call_ensures(ActionChain::<D>::key_up::<K>, (c, key), r)
            ==> gains(c, r, seq![KeyAction::KeyUp { value: code }], stays(1)),
        forall|r: ActionChain<D>| #[trigger]
            call_ensures(ActionChain::<D>::send_keys::<S>, (c, text), r)
            ==> gains(c, r, strokes(typing@), stays(2 * typing@.len())),
{
    assert(crate::action_chain::pointer_pauses(1) =~= stays(1));
    assert(crate::action_chain::pointer_pauses(2 * typing@.len()) =~= stays(2 * typing@.len()));
    lemma_strokes(typing@);
}

/// Keys for an element are pressed, let go and typed after a click on it.
pub proof fn law_chain_keys_on_element<D, K: IntoKeyChar, S: IntoTyping>(
    c: ActionChain<D>,
    e: &WebElement<D>,
    key: K,
    code: char,
    text: S,
    typing: TypingData,
)
    requires
        call_ensures(K::into_char, (key,), code),
        call_ensures(TypingData::from::<S>, (text,), typing),
    ensures
        forall|r: ActionChain<D>| #[trigger]
            call_ensures(ActionChain::<D>::key_down_on_element::<K>, (c, e, key), r)
            ==> gains(c, r, rests(3) + seq![KeyAction::KeyDown { value: code }], clicked(c, *e)
            + stays(1)),
        forall|r: ActionChain<D>| #[trigger]
            call_ensures(ActionChain::<D>::key_up_on_element::<K>, (c, e, key), r)
            ==> gains(c, r, rests(3) + seq![KeyAction::KeyUp { value: code }], clicked(c, *e)
            + stays(1)),
        forall|r: ActionChain<D>| #[trigger]
            call_ensures(ActionChain::<D>::send_keys_to_element::<S>, (c, e, text), r)
            ==> gains(c, r, rests(3) + strokes(typing@), clicked(c, *e) + stays(2 * typing@.len())),
{
    assert(crate::action_chain::key_pauses(3) =~= rests(3));
    assert(crate::action_chain::pointer_pauses(1) =~= stays(1));
    assert(crate::action_chain::pointer_pauses(2 * typing@.len()) =~= stays(2 * typing@.len()));
    lemma_strokes(typing@);
}

/// A click in the middle of an element.
pub open spec fn clicked<D>(c: ActionChain<D>, e: WebElement<D>) -> Seq<PointerAction> {
    seq![way(c.pointer().duration, PointerOrigin::WebElement(e.element_id), 0, 0),
        press(MouseButton::Left), lift(MouseButton::Left)]
}

/// The keyboard and the pointer of a chain stay in step: each has as many actions as the other,
/// from the start on.
pub proof fn law_chain_in_step<D>(
    c: ActionChain<D>,
    keys: Seq<KeyAction>,
    pointer: Seq<PointerAction>,
    next: ActionChain<D>,
)
    requires
        gains(c, next, keys, pointer),
        keys.len() == pointer.len(),
        c.keyboard().actions@.len() == c.pointer().actions@.len(),
    ensures
        next.keyboard().actions@.len() == next.pointer().actions@.len(),
{
}

/// A chain without actions: a keyboard called `key` and a mouse called `pointer`, with their delays.
pub open spec fn is_fresh<D>(c: ActionChain<D>, d: D, key_delay: int, pointer_delay: int) -> bool {
    &&& c.driver() == d
    &&& c.keyboard().id@ == "key"@ && c.keyboard().action_type@ == "key"@
    &&& c.keyboard().parameters is None
    &&& c.keyboard().actions@.len() == 0
    &&& c.keyboard().duration == key_delay
    &&& c.pointer().id@ == "pointer"@ && c.pointer().action_type@ == "pointer"@
    &&& c.pointer().parameters matches Some(p) && p.pointer_type@ == "mouse"@
    &&& c.pointer().actions@.len() == 0
    &&& c.pointer().duration == pointer_delay
}

/// A new chain has no actions. Keys have no delay and the pointer a quarter of a second where none
/// is given.
pub proof fn law_new_chain<D>(d: &D, k: Duration, p: Duration)
    ensures
        forall|r: ActionChain<D>| #[trigger] call_ensures(ActionChain::<D>::new, (d,), r)
            ==> is_fresh(r, *d, 0, 250),
        forall|r: ActionChain<D>| #[trigger]
            call_ensures(ActionChain::<D>::new_with_delay, (d, None::<Duration>, None::<Duration>),
            r) ==> is_fresh(r, *d, 0, 250),
        forall|r: ActionChain<D>| #[trigger]
            call_ensures(ActionChain::<D>::new_with_delay, (d, Some(k), None::<Duration>), r)
            ==> is_fresh(r, *d, values::millis(k), 250),
        forall|r: ActionChain<D>| #[trigger]
            call_ensures(ActionChain::<D>::new_with_delay, (d, None::<Duration>, Some(p)), r)
            ==> is_fresh(r, *d, 0, values::millis(p)),
        forall|r: ActionChain<D>| #[trigger]
            call_ensures(ActionChain::<D>::new_with_delay, (d, Some(k), Some(p)), r)
            ==> is_fresh(r, *d, values::millis(k), values::millis(p)),
{
}

/// Sessions and drivers start chains of their own.
pub proof fn law_chains_of_sessions<H: HttpClient, G, D: Driver>(h: &SessionHandle<H, G>, d: &D,
    k: Duration, p: Duration)
    ensures
        forall|r: ActionChain<SessionHandle<H, G>>| #[trigger]
            call_ensures(SessionHandle::<H, G>::action_chain, (h,), r) ==> is_fresh(r, *h, 0, 250),
        forall|r: ActionChain<SessionHandle<H, G>>| #[trigger]
            call_ensures(SessionHandle::<H, G>::action_chain_with_delay, (h, Some(k), Some(p)), r)
            ==> is_fresh(r, *h, values::millis(k), values::millis(p)),
        forall|r: ActionChain<D>| #[trigger]
            call_ensures(<D as WebDriverCommands>::action_chain, (d,), r)
            ==> is_fresh(r, *d, 0, 250),
{
}

/// A chain is performed as the keyboard and the pointer together, and let go by its own command.
pub proof fn law_chain_is_performed<D: Driver>(
    c: &ActionChain<D>,
    keyboard: ActionSource<KeyAction>,
    pointer: ActionSource<PointerAction>,
    k: JsonValue,
    p: JsonValue,
    done: WebDriverResult<()>,
    reset: WebDriverResult<()>,
)
    requires
        keyboard == c.keyboard(),
        pointer == c.pointer(),
        call_ensures(ActionSource::<KeyAction>::to_json, (&keyboard,), k),
        call_ensures(ActionSource::<PointerAction>::to_json, (&pointer,), p),
        call_ensures(ActionChain::<D>::perform, (c,), done),
        call_ensures(ActionChain::<D>::reset_actions, (c,), reset),
    ensures
        laws::done(c.driver(), CommandView::PerformActions(Json::Arr(seq![k@, p@])), done),
        laws::done(c.driver(), CommandView::ReleaseActions, reset),
{
}

} // verus!
