//! Chains of keyboard and pointer actions.
use crate::action;
use crate::action::{
    Action, ActionSource, KeyAction, MouseButton, PointerAction, PointerActionType, PointerOrigin,
};
use crate::command::{Actions, Command, CommandView};
use crate::driver;
use crate::driver::{run_command, Driver};
use crate::duration::Duration;
use crate::error::WebDriverResult;
use crate::json;
use crate::json::{Json, JsonValue};
use crate::keys::{IntoKeyChar, IntoTyping, TypingData};
use crate::types;
use crate::types::ElementId;
use crate::webelement::WebElement;
use vstd::prelude::*;

verus! {

/// The ActionChain struct allows you to perform multiple input actions in a sequence, including
/// drag-and-drop, send keystrokes to an element, and hover the mouse over an element.
///
/// The keyboard and the pointer act in step: while one of them does something, the other one
/// pauses.
#[derive(Debug)]
pub struct ActionChain<'a, D> {
    session: &'a D,
    key_actions: ActionSource<KeyAction>,
    pointer_actions: ActionSource<PointerAction>,
}

/// Pauses of the keyboard.
pub open spec fn key_pauses(n: nat) -> Seq<KeyAction> {
    Seq::new(n, |i: int| KeyAction::pause_of(0))
}

/// Pauses of the pointer.
pub open spec fn pointer_pauses(n: nat) -> Seq<PointerAction> {
    Seq::new(n, |i: int| PointerAction::pause_of(0))
}

/// A move to the middle of an element.
pub open spec fn onto(delay: u64, element_id: ElementId) -> PointerAction {
    action::moved(delay, PointerOrigin::WebElement(element_id), 0, 0)
}

/// The left button going down.
pub open spec fn down() -> PointerAction {
    action::pressed(MouseButton::Left)
}

/// The left button going up.
pub open spec fn up() -> PointerAction {
    action::released(MouseButton::Left)
}

/// A key going down.
pub open spec fn key_pressed(value: char) -> KeyAction {
    KeyAction::KeyDown { value }
}

/// A key going up.
pub open spec fn key_released(value: char) -> KeyAction {
    KeyAction::KeyUp { value }
}

/// The delay of a source in milliseconds.
fn delay_millis(delay: Option<Duration>) -> (r: Option<u64>)
    ensures
        r == types::opt_millis(delay),
{
    match delay {
        Some(d) => {
            let millis: u128 = d.as_millis();
            Some((millis % 0x1_0000_0000_0000_0000) as u64)
        },
        None => None,
    }
}

impl<'a, D> ActionChain<'a, D> {
    /// The session that the actions are performed in.
    pub closed spec fn driver(&self) -> D {
        *self.session
    }

    /// What the keyboard does.
    pub closed spec fn keyboard(&self) -> ActionSource<KeyAction> {
        self.key_actions
    }

    /// What the pointer does.
    pub closed spec fn pointer(&self) -> ActionSource<PointerAction> {
        self.pointer_actions
    }

    /// The time that a move of the pointer takes.
    pub open spec fn delay(&self) -> u64 {
        self.pointer().duration
    }

    /// Whether the keyboard and the pointer are in step.
    pub open spec fn in_step(&self) -> bool {
        self.keyboard().actions@.len() == self.pointer().actions@.len()
    }

    /// Whether this is `before` with more actions behind those that it had.
    pub open spec fn extends(
        &self,
        before: &Self,
        keys: Seq<KeyAction>,
        pointer: Seq<PointerAction>,
    ) -> bool {
        &&& self.driver() == before.driver()
        &&& self.keyboard().same_source(&before.keyboard())
        &&& self.pointer().same_source(&before.pointer())
        &&& self.keyboard().actions@ == before.keyboard().actions@ + keys
        &&& self.pointer().actions@ == before.pointer().actions@ + pointer
    }

    /// Create a new ActionChain struct.
    pub fn new(session: &'a D) -> (r: Self)
        ensures
            r.is_new(*session, 0, 250),
    {
        ActionChain::new_with_delay(session, None, None)
    }

    /// Whether this is a chain without actions.
    pub open spec fn is_new(&self, session: D, key_delay: u64, pointer_delay: u64) -> bool {
        &&& self.driver() == session
        &&& self.keyboard().id@ == "key"@
        &&& self.keyboard().action_type@ == "key"@
        &&& self.keyboard().parameters is None
        &&& self.keyboard().actions@ == Seq::<KeyAction>::empty()
        &&& self.keyboard().duration == key_delay
        &&& self.pointer().id@ == "pointer"@
        &&& self.pointer().action_type@ == "pointer"@
        &&& self.pointer().parameters matches Some(p) && p.pointer_type@
            == PointerActionType::Mouse.name()
        &&& self.pointer().actions@ == Seq::<PointerAction>::empty()
        &&& self.pointer().duration == pointer_delay
    }

    /// Create a new ActionChain struct with custom delays.
    pub fn new_with_delay(
        session: &'a D,
        key_delay: Option<Duration>,
        pointer_delay: Option<Duration>,
    ) -> (r: Self)
        ensures
            r.is_new(
                *session,
                match types::opt_millis(key_delay) {
                    Some(d) => d,
                    None => 0,
                },
                match types::opt_millis(pointer_delay) {
                    Some(d) => d,
                    None => 250,
                },
            ),
    {
        ActionChain {
            session,
            key_actions: ActionSource::<KeyAction>::new("key", delay_millis(key_delay)),
            pointer_actions: ActionSource::<PointerAction>::new(
                "pointer",
                PointerActionType::Mouse,
                delay_millis(pointer_delay),
            ),
        }
    }

    /// The keyboard pauses.
    fn pause_keys(&mut self, n: usize)
        ensures
            final(self).extends(old(self), key_pauses(n as nat), Seq::empty()),
    {
        let mut i: usize = 0;
        while i < n
            invariant
                i <= n,
                self.extends(old(self), key_pauses(i as nat), Seq::empty()),
            decreases n - i,
        {
            self.key_actions.pause();
            proof {
                assert(key_pauses((i + 1) as nat) == key_pauses(i as nat).push(
                    KeyAction::pause_of(0),
                ));
                assert(self.keyboard().actions@ == old(self).keyboard().actions@ + key_pauses(
                    (i + 1) as nat,
                ));
            }
            i = i + 1;
        }
    }

    /// Click and release the left mouse button.
    pub fn click(self) -> (r: Self)
        ensures
            r.extends(&self, key_pauses(2), seq![down(), up()]),
            self.in_step() ==> r.in_step(),
    {
        let mut r: Self = self;
        let ghost pointer = seq![down(), up()];
        r.pointer_actions.click();
        proof {
            assert(r.pointer().actions@ == self.pointer().actions@ + pointer);
        }
        r.pause_keys(2);
        proof {
            assert(r.pointer().actions@ == self.pointer().actions@ + pointer);
            assert(r.keyboard().actions@ == self.keyboard().actions@ + key_pauses(2));
        }
        r
    }

    /// Click the left mouse button and hold it down.
    pub fn click_and_hold(self) -> (r: Self)
        ensures
            r.extends(&self, key_pauses(1), seq![down()]),
            self.in_step() ==> r.in_step(),
    {
        let mut r: Self = self;
        let ghost pointer = seq![down()];
        r.pointer_actions.click_and_hold();
        proof {
            assert(r.pointer().actions@ == self.pointer().actions@ + pointer);
        }
        r.pause_keys(1);
        proof {
            assert(r.pointer().actions@ == self.pointer().actions@ + pointer);
            assert(r.keyboard().actions@ == self.keyboard().actions@ + key_pauses(1));
        }
        r
    }

    /// Click and release the right mouse button.
    pub fn context_click(self) -> (r: Self)
        ensures
            r.extends(&self, key_pauses(2), seq![action::pressed(MouseButton::Right), action::released(MouseButton::Right)]),
            self.in_step() ==> r.in_step(),
    {
        let mut r: Self = self;
        let ghost pointer = seq![action::pressed(MouseButton::Right), action::released(MouseButton::Right)];
        r.pointer_actions.context_click();
        proof {
            assert(r.pointer().actions@ == self.pointer().actions@ + pointer);
        }
        r.pause_keys(2);
        proof {
            assert(r.pointer().actions@ == self.pointer().actions@ + pointer);
            assert(r.keyboard().actions@ == self.keyboard().actions@ + key_pauses(2));
        }
        r
    }

    /// Double-click the left mouse button.
    pub fn double_click(self) -> (r: Self)
        ensures
            r.extends(&self, key_pauses(4), seq![down(), up(), down(), up()]),
            self.in_step() ==> r.in_step(),
    {
        let mut r: Self = self;
        let ghost pointer = seq![down(), up(), down(), up()];
        r.pointer_actions.double_click();
        proof {
            assert(r.pointer().actions@ == self.pointer().actions@ + pointer);
        }
        r.pause_keys(4);
        proof {
            assert(r.pointer().actions@ == self.pointer().actions@ + pointer);
            assert(r.keyboard().actions@ == self.keyboard().actions@ + key_pauses(4));
        }
        r
    }

    /// Move the mouse cursor to the specified X and Y coordinates.
    pub fn move_to(self, x: i64, y: i64) -> (r: Self)
        ensures
            r.extends(&self, key_pauses(1), seq![action::moved(self.delay(), PointerOrigin::Viewport, x, y)]),
            self.in_step() ==> r.in_step(),
    {
        let mut r: Self = self;
        let ghost pointer = seq![action::moved(self.delay(), PointerOrigin::Viewport, x, y)];
        r.pointer_actions.move_to(x, y);
        proof {
            assert(r.pointer().actions@ == self.pointer().actions@ + pointer);
        }
        r.pause_keys(1);
        proof {
            assert(r.pointer().actions@ == self.pointer().actions@ + pointer);
            assert(r.keyboard().actions@ == self.keyboard().actions@ + key_pauses(1));
        }
        r
    }

    /// Move the mouse cursor by the specified X and Y offsets.
    pub fn move_by_offset(self, x_offset: i64, y_offset: i64) -> (r: Self)
        ensures
            r.extends(&self, key_pauses(1), seq![action::moved(self.delay(), PointerOrigin::Pointer, x_offset, y_offset)]),
            self.in_step() ==> r.in_step(),
    {
        let mut r: Self = self;
        let ghost pointer = seq![action::moved(self.delay(), PointerOrigin::Pointer, x_offset, y_offset)];
        r.pointer_actions.move_by(x_offset, y_offset);
        proof {
            assert(r.pointer().actions@ == self.pointer().actions@ + pointer);
        }
        r.pause_keys(1);
        proof {
            assert(r.pointer().actions@ == self.pointer().actions@ + pointer);
            assert(r.keyboard().actions@ == self.keyboard().actions@ + key_pauses(1));
        }
        r
    }

    /// Move the mouse cursor to the center of the specified element.
    pub fn move_to_element_center(self, element: &WebElement<D>) -> (r: Self)
        ensures
            r.extends(&self, key_pauses(1), seq![onto(self.delay(), element.element_id)]),
            self.in_step() ==> r.in_step(),
    {
        let mut r: Self = self;
        let ghost pointer = seq![onto(self.delay(), element.element_id)];
        r.pointer_actions.move_to_element_center(element.element_id.clone());
        proof {
            assert(r.pointer().actions@ == self.pointer().actions@ + pointer);
        }
        r.pause_keys(1);
        proof {
            assert(r.pointer().actions@ == self.pointer().actions@ + pointer);
            assert(r.keyboard().actions@ == self.keyboard().actions@ + key_pauses(1));
        }
        r
    }

    /// Move the mouse cursor to the specified offsets relative to the specified element.
    pub fn move_to_element_with_offset(self, element: &WebElement<D>, x_offset: i64, y_offset: i64) -> (r: Self)
        ensures
            r.extends(&self, key_pauses(1), seq![action::moved(self.delay(), PointerOrigin::WebElement(element.element_id), x_offset, y_offset)]),
            self.in_step() ==> r.in_step(),
    {
        let mut r: Self = self;
        let ghost pointer = seq![action::moved(self.delay(), PointerOrigin::WebElement(element.element_id), x_offset, y_offset)];
        r.pointer_actions.move_to_element(element.element_id.clone(), x_offset, y_offset);
        proof {
            assert(r.pointer().actions@ == self.pointer().actions@ + pointer);
        }
        r.pause_keys(1);
        proof {
            assert(r.pointer().actions@ == self.pointer().actions@ + pointer);
            assert(r.keyboard().actions@ == self.keyboard().actions@ + key_pauses(1));
        }
        r
    }

    /// Release the left mouse button.
    pub fn release(self) -> (r: Self)
        ensures
            r.extends(&self, key_pauses(1), seq![up()]),
            self.in_step() ==> r.in_step(),
    {
        let mut r: Self = self;
        let ghost pointer = seq![up()];
        r.pointer_actions.release();
        proof {
            assert(r.pointer().actions@ == self.pointer().actions@ + pointer);
        }
        r.pause_keys(1);
        proof {
            assert(r.pointer().actions@ == self.pointer().actions@ + pointer);
            assert(r.keyboard().actions@ == self.keyboard().actions@ + key_pauses(1));
        }
        r
    }

    /// Click on the specified element using the mouse.
    pub fn click_element(self, element: &WebElement<D>) -> (r: Self)
        ensures
            r.extends(&self, key_pauses(3), seq![onto(self.delay(), element.element_id), down(), up()]),
            self.in_step() ==> r.in_step(),
    {
        let r: Self = self.move_to_element_center(element).click();
        proof {
            assert(r.pointer().actions@ == self.pointer().actions@ + seq![onto(self.delay(), element.element_id), down(), up()]);
            assert(r.keyboard().actions@ == self.keyboard().actions@ + key_pauses(3));
        }
        r
    }

    /// Click on the specified element using the mouse and hold the button down.
    pub fn click_and_hold_element(self, element: &WebElement<D>) -> (r: Self)
        ensures
            r.extends(&self, key_pauses(2), seq![onto(self.delay(), element.element_id), down()]),
            self.in_step() ==> r.in_step(),
    {
        let r: Self = self.move_to_element_center(element).click_and_hold();
        proof {
            assert(r.pointer().actions@ == self.pointer().actions@ + seq![onto(self.delay(), element.element_id), down()]);
            assert(r.keyboard().actions@ == self.keyboard().actions@ + key_pauses(2));
        }
        r
    }

    /// Click on the specified element using the right mouse button.
    pub fn context_click_element(self, element: &WebElement<D>) -> (r: Self)
        ensures
            r.extends(&self, key_pauses(3), seq![onto(self.delay(), element.element_id), action::pressed(MouseButton::Right), action::released(MouseButton::Right)]),
            self.in_step() ==> r.in_step(),
    {
        let r: Self = self.move_to_element_center(element).context_click();
        proof {
            assert(r.pointer().actions@ == self.pointer().actions@ + seq![onto(self.delay(), element.element_id), action::pressed(MouseButton::Right), action::released(MouseButton::Right)]);
            assert(r.keyboard().actions@ == self.keyboard().actions@ + key_pauses(3));
        }
        r
    }

    /// Double-click on the specified element.
    pub fn double_click_element(self, element: &WebElement<D>) -> (r: Self)
        ensures
            r.extends(&self, key_pauses(5), seq![onto(self.delay(), element.element_id), down(), up(), down(), up()]),
            self.in_step() ==> r.in_step(),
    {
        let r: Self = self.move_to_element_center(element).double_click();
        proof {
            assert(r.pointer().actions@ == self.pointer().actions@ + seq![onto(self.delay(), element.element_id), down(), up(), down(), up()]);
            assert(r.keyboard().actions@ == self.keyboard().actions@ + key_pauses(5));
        }
        r
    }

    /// Move the mouse to the specified element and release the mouse button.
    pub fn release_on_element(self, element: &WebElement<D>) -> (r: Self)
        ensures
            r.extends(&self, key_pauses(2), seq![onto(self.delay(), element.element_id), up()]),
            self.in_step() ==> r.in_step(),
    {
        let r: Self = self.move_to_element_center(element).release();
        proof {
            assert(r.pointer().actions@ == self.pointer().actions@ + seq![onto(self.delay(), element.element_id), up()]);
            assert(r.keyboard().actions@ == self.keyboard().actions@ + key_pauses(2));
        }
        r
    }

    /// Drag the mouse cursor from the center of the source element to the center of the target element.
    pub fn drag_and_drop_element(self, source: &WebElement<D>, target: &WebElement<D>) -> (r: Self)
        ensures
            r.extends(&self, key_pauses(4), seq![onto(self.delay(), source.element_id), down(), onto(self.delay(), target.element_id), up()]),
            self.in_step() ==> r.in_step(),
    {
        let r: Self = self.click_and_hold_element(source).release_on_element(target);
        proof {
            assert(r.pointer().actions@ == self.pointer().actions@ + seq![onto(self.delay(), source.element_id), down(), onto(self.delay(), target.element_id), up()]);
            assert(r.keyboard().actions@ == self.keyboard().actions@ + key_pauses(4));
        }
        r
    }

    /// Drag the mouse cursor by the specified X and Y offsets.
    pub fn drag_and_drop_by_offset(self, x_offset: i64, y_offset: i64) -> (r: Self)
        ensures
            r.extends(&self, key_pauses(3), seq![down(), action::moved(self.delay(), PointerOrigin::Pointer, x_offset, y_offset), up()]),
            self.in_step() ==> r.in_step(),
    {
        let r: Self = self.click_and_hold().move_by_offset(x_offset, y_offset).release();
        proof {
            assert(r.pointer().actions@ == self.pointer().actions@ + seq![down(), action::moved(self.delay(), PointerOrigin::Pointer, x_offset, y_offset), up()]);
            assert(r.keyboard().actions@ == self.keyboard().actions@ + key_pauses(3));
        }
        r
    }

    /// Drag the mouse cursor by the specified X and Y offsets, starting from the center of the specified element, and drop there.
    pub fn drag_and_drop_element_by_offset(self, element: &WebElement<D>, x_offset: i64, y_offset: i64) -> (r: Self)
        ensures
            r.extends(&self, key_pauses(4), seq![onto(self.delay(), element.element_id), down(), action::moved(self.delay(), PointerOrigin::Pointer, x_offset, y_offset), up()]),
            self.in_step() ==> r.in_step(),
    {
        let r: Self = self.click_and_hold_element(element).move_by_offset(x_offset, y_offset).release();
        proof {
            assert(r.pointer().actions@ == self.pointer().actions@ + seq![onto(self.delay(), element.element_id), down(), action::moved(self.delay(), PointerOrigin::Pointer, x_offset, y_offset), up()]);
            assert(r.keyboard().actions@ == self.keyboard().actions@ + key_pauses(4));
        }
        r
    }

    /// Press the specified key down.
    pub fn key_down<T: IntoKeyChar>(self, value: T) -> (r: Self)
        ensures
            r.extends(
                &self,
                seq![key_pressed(value.key_char())],
                pointer_pauses(1),
            ),
            self.in_step() ==> r.in_step(),
    {
        let mut r: Self = self;
        let c: char = value.into_char();
        r.key_actions.key_down(c);
        r.pointer_actions.pause();
        proof {
            assert(r.pointer().actions@ == self.pointer().actions@ + pointer_pauses(1));
            assert(r.keyboard().actions@ == self.keyboard().actions@ + seq![
                key_pressed(c),
            ]);
        }
        r
    }

    /// Click the specified element and then press the specified key down.
    pub fn key_down_on_element<T: IntoKeyChar>(self, element: &WebElement<D>, value: T) -> (r: Self)
        ensures
            r.extends(
                &self,
                key_pauses(3) + seq![key_pressed(value.key_char())],
                seq![onto(self.delay(), element.element_id), down(), up()] + pointer_pauses(1),
            ),
            self.in_step() ==> r.in_step(),
    {
        let r: Self = self.click_element(element).key_down(value);
        proof {
            assert(r.pointer().actions@ == self.pointer().actions@ + (seq![
                onto(self.delay(), element.element_id),
                down(),
                up(),
            ] + pointer_pauses(1)));
            assert(r.keyboard().actions@ == self.keyboard().actions@ + (key_pauses(3) + seq![
                key_pressed(value.key_char()),
            ]));
        }
        r
    }

    /// Release the specified key. This will usually be used some time after calling `key_down()`.
    pub fn key_up<T: IntoKeyChar>(self, value: T) -> (r: Self)
        ensures
            r.extends(
                &self,
                seq![key_released(value.key_char())],
                pointer_pauses(1),
            ),
            self.in_step() ==> r.in_step(),
    {
        let mut r: Self = self;
        let c: char = value.into_char();
        r.key_actions.key_up(c);
        r.pointer_actions.pause();
        proof {
            assert(r.pointer().actions@ == self.pointer().actions@ + pointer_pauses(1));
            assert(r.keyboard().actions@ == self.keyboard().actions@ + seq![
                key_released(c),
            ]);
        }
        r
    }

    /// Click the specified element and release the specified key.
    pub fn key_up_on_element<T: IntoKeyChar>(self, element: &WebElement<D>, value: T) -> (r: Self)
        ensures
            r.extends(
                &self,
                key_pauses(3) + seq![key_released(value.key_char())],
                seq![onto(self.delay(), element.element_id), down(), up()] + pointer_pauses(1),
            ),
            self.in_step() ==> r.in_step(),
    {
        let r: Self = self.click_element(element).key_up(value);
        proof {
            assert(r.pointer().actions@ == self.pointer().actions@ + (seq![
                onto(self.delay(), element.element_id),
                down(),
                up(),
            ] + pointer_pauses(1)));
            assert(r.keyboard().actions@ == self.keyboard().actions@ + (key_pauses(3) + seq![
                key_released(value.key_char()),
            ]));
        }
        r
    }

    /// Send the specified keystrokes to the active element.
    pub fn send_keys<S: IntoTyping>(self, text: S) -> (r: Self)
        ensures
            r.extends(
                &self,
                action::key_strokes(text.typed()),
                pointer_pauses(2 * text.typed().len()),
            ),
            self.in_step() ==> r.in_step(),
    {
        let typing: TypingData = TypingData::from(text);
        let chars: Vec<char> = typing.as_vec();
        let mut r: Self = self;
        let mut i: usize = 0;
        proof {
            assert(chars@.take(0) == Seq::<char>::empty());
            assert(r.keyboard().actions@ == self.keyboard().actions@ + action::key_strokes(
                chars@.take(0),
            ));
            assert(r.pointer().actions@ == self.pointer().actions@ + pointer_pauses(0));
        }
        while i < chars.len()
            invariant
                i <= chars.len(),
                r.extends(
                    &self,
                    action::key_strokes(chars@.take(i as int)),
                    pointer_pauses((2 * i) as nat),
                ),
                self.in_step() ==> r.in_step(),
            decreases chars.len() - i,
        {
            let ghost before = r;
            let c: char = chars[i];
            r = r.key_down(c).key_up(c);
            proof {
                assert(chars@.take(i + 1) == chars@.take(i as int).push(c));
                action::lemma_key_strokes_concat(chars@.take(i as int), seq![c]);
                assert(chars@.take(i as int).push(c) == chars@.take(i as int) + seq![c]);
                assert(action::key_strokes(seq![c]) == seq![
                    key_pressed(c),
                    key_released(c),
                ]);
                assert(r.keyboard().actions@ == self.keyboard().actions@ + action::key_strokes(
                    chars@.take(i + 1),
                ));
                assert(r.pointer().actions@ == self.pointer().actions@ + pointer_pauses(
                    (2 * (i + 1)) as nat,
                ));
            }
            i = i + 1;
        }
        proof {
            assert(chars@.take(i as int) == chars@);
        }
        r
    }

    /// Click on the specified element and send the specified keystrokes.
    pub fn send_keys_to_element<S: IntoTyping>(self, element: &WebElement<D>, text: S) -> (r: Self)
        ensures
            r.extends(
                &self,
                key_pauses(3) + action::key_strokes(text.typed()),
                seq![onto(self.delay(), element.element_id), down(), up()] + pointer_pauses(
                    2 * text.typed().len(),
                ),
            ),
            self.in_step() ==> r.in_step(),
    {
        let r: Self = self.click_element(element).send_keys(text);
        proof {
            assert(r.pointer().actions@ == self.pointer().actions@ + (seq![
                onto(self.delay(), element.element_id),
                down(),
                up(),
            ] + pointer_pauses(2 * text.typed().len())));
            assert(r.keyboard().actions@ == self.keyboard().actions@ + (key_pauses(3)
                + action::key_strokes(text.typed())));
        }
        r
    }
}

impl<'a, D: Driver> ActionChain<'a, D> {
    /// Perform the action sequence. No actions are actually performed until this method is called.
    pub fn perform(&self) -> (r: WebDriverResult<()>)
        ensures
            driver::runs(
                self.driver(),
                CommandView::PerformActions(
                    Json::Arr(seq![self.keyboard().json(), self.pointer().json()]),
                ),
                r,
            ),
    {
        let mut sources: Vec<JsonValue> = Vec::new();
        sources.push(self.key_actions.to_json());
        sources.push(self.pointer_actions.to_json());
        let list: JsonValue = JsonValue::Array(sources);
        proof {
            json::lemma_items_view(sources@);
            assert(json::items_view(sources@) == seq![
                self.keyboard().json(),
                self.pointer().json(),
            ]);
        }
        run_command(self.session, Command::PerformActions(Actions::from(list)))
    }

    /// Release all the keys and buttons that are down.
    pub fn reset_actions(&self) -> (r: WebDriverResult<()>)
        ensures
            driver::runs(self.driver(), CommandView::ReleaseActions, r),
    {
        run_command(self.session, Command::ReleaseActions)
    }
}

} // verus!
