//! What an element asks its session for.
use vstd::prelude::*;

use crate::command::{By, CommandView, Selector};
use crate::driver::Driver;
use crate::error::{WebDriverError, WebDriverErrorInner, WebDriverResult};
use crate::http::CmdResponse;
use crate::json::{Json, JsonValue};
use crate::keys::{IntoTyping, TypingData};
use crate::laws::values;
use crate::laws;
use crate::types::ElementId;
use crate::webelement::{
    presence_of, property_of, text_or_empty, unwrap_element_sync, unwrap_elements_sync, WebElement,
};
use crate::wire;

verus! {

/// The session was asked for an element: the one whose reference the reply holds, in that session.
pub open spec fn told_element<D: Driver>(
    d: D,
    command: CommandView,
    r: WebDriverResult<WebElement<D>>,
) -> bool {
    laws::told(
        d,
        command,
        |v: Json| values::element_in(v) is Some,
        |v: Json, w: WebElement<D>|
            values::element_in(v) == Some(w.element_id@) && *w.session == d,
        r,
    )
}

/// A list of references to elements.
pub open spec fn elements_valid(v: Json) -> bool {
    v matches Json::Arr(items) && forall|i: int|
        0 <= i < items.len() ==> values::element_in(#[trigger] items[i]) is Some
}

/// The elements that a list refers to, in its order.
pub open spec fn elements_read<D>(v: Json, d: D, w: Vec<WebElement<D>>) -> bool {
    v matches Json::Arr(items) && w@.len() == items.len() && forall|i: int|
        0 <= i < items.len() ==> values::element_in(#[trigger] items[i]) == Some(
            w@[i].element_id@,
        ) && *w@[i].session == d
}

/// The session was asked for elements: those whose references the reply holds, in its order.
pub open spec fn told_elements<D: Driver>(
    d: D,
    command: CommandView,
    r: WebDriverResult<Vec<WebElement<D>>>,
) -> bool {
    laws::told(
        d,
        command,
        |v: Json| elements_valid(v),
        |v: Json, w: Vec<WebElement<D>>| elements_read(v, d, w),
        r,
    )
}

/// The session was asked for an attribute: a text, or nothing.
pub open spec fn told_attribute<D: Driver>(
    d: D,
    command: CommandView,
    r: WebDriverResult<Option<String>>,
) -> bool {
    exists|reply: WebDriverResult<JsonValue>| #[trigger]
        d.may_answer(command, reply) && match reply {
            Err(e) => r matches Err(f) && f == e,
            Ok(body) => r matches Ok(t) && match (t, laws::text_in(body)) {
                (Some(t), Some(s)) => t@ == s,
                (None, None) => true,
                _ => false,
            },
        }
}

/// What a property is as a text: a text is itself, null and nothing are none, and every other value
/// is its JSON text.
pub open spec fn property_shown(v: Option<Json>) -> Option<Seq<char>> {
    match v {
        None => None,
        Some(Json::Null) => None,
        Some(Json::Str(s)) => Some(s),
        Some(v) => Some(wire::text_of_json(wire::settled(v))),
    }
}

/// The session was asked for a property.
pub open spec fn told_property<D: Driver>(
    d: D,
    command: CommandView,
    r: WebDriverResult<Option<String>>,
) -> bool {
    exists|reply: WebDriverResult<JsonValue>| #[trigger]
        d.may_answer(command, reply) && match reply {
            Err(e) => r matches Err(f) && f == e,
            Ok(body) => r matches Ok(t) && match (t, property_shown(laws::value_in(body))) {
                (Some(t), Some(s)) => t@ == s,
                (None, None) => true,
                _ => false,
            },
        }
}

/// The attributes of an element are asked for by their own names.
pub proof fn law_attributes<D: Driver>(e: &WebElement<D>, name: &str)
    ensures
        forall|r: WebDriverResult<Option<String>>| #[trigger]
            call_ensures(WebElement::<D>::id, (e,), r) ==> told_attribute(
            *e.session,
            CommandView::GetElementAttribute(e.element_id@, "id"@),
            r,
        ),
        forall|r: WebDriverResult<Option<String>>| #[trigger]
            call_ensures(WebElement::<D>::class_name, (e,), r) ==> told_attribute(
            *e.session,
            CommandView::GetElementAttribute(e.element_id@, "class"@),
            r,
        ),
        forall|r: WebDriverResult<Option<String>>| #[trigger]
            call_ensures(WebElement::<D>::value, (e,), r) ==> told_attribute(
            *e.session,
            CommandView::GetElementAttribute(e.element_id@, "value"@),
            r,
        ),
        forall|r: WebDriverResult<Option<String>>| #[trigger]
            call_ensures(WebElement::<D>::get_attribute, (e, name), r) ==> told_attribute(
            *e.session,
            CommandView::GetElementAttribute(e.element_id@, name@),
            r,
        ),
        forall|r: WebDriverResult<Option<String>>| #[trigger]
            call_ensures(WebElement::<D>::get_property, (e, name), r) ==> told_property(
            *e.session,
            CommandView::GetElementProperty(e.element_id@, name@),
            r,
        ),
{
}

/// A CSS property is asked for by its name; one that is no text is empty.
pub proof fn law_css_property<D: Driver>(e: &WebElement<D>, name: &str, r: WebDriverResult<String>)
    requires
        call_ensures(WebElement::<D>::get_css_property, (e, name), r),
    ensures
        exists|reply: WebDriverResult<JsonValue>| #[trigger]
            e.session.may_answer(CommandView::GetElementCssValue(e.element_id@, name@), reply)
                && match reply {
                Err(f) => r matches Err(g) && g == f,
                Ok(body) => r matches Ok(t) && t@ == (match laws::text_in(body) {
                    Some(s) => s,
                    None => Seq::empty(),
                }),
            },
{
}

/// The text within an element and around it are properties of it; one that is missing is empty.
pub proof fn law_html<D: Driver>(
    e: &WebElement<D>,
    inner: WebDriverResult<String>,
    outer: WebDriverResult<String>,
)
    requires
        call_ensures(WebElement::<D>::inner_html, (e,), inner),
        call_ensures(WebElement::<D>::outer_html, (e,), outer),
    ensures
        told_html(*e.session, CommandView::GetElementProperty(e.element_id@, "innerHTML"@), inner),
        told_html(*e.session, CommandView::GetElementProperty(e.element_id@, "outerHTML"@), outer),
{
    lemma_html(e, "innerHTML"@, inner);
    lemma_html(e, "outerHTML"@, outer);
}

/// The session was asked for a property that is empty where it is missing.
pub open spec fn told_html<D: Driver>(
    d: D,
    command: CommandView,
    r: WebDriverResult<String>,
) -> bool {
    exists|reply: WebDriverResult<JsonValue>| #[trigger]
        d.may_answer(command, reply) && match reply {
            Err(e) => r matches Err(f) && f == e,
            Ok(body) => r matches Ok(t) && t@ == (match property_shown(laws::value_in(body)) {
                Some(s) => s,
                None => Seq::empty(),
            }),
        }
}

proof fn lemma_html<D: Driver>(e: &WebElement<D>, name: Seq<char>, r: WebDriverResult<String>)
    requires
        e.has_html(name, r),
    ensures
        told_html(*e.session, CommandView::GetElementProperty(e.element_id@, name), r),
{
    let p = choose|p: WebDriverResult<Option<String>>| #[trigger]
        e.has_property(name, p) && match p {
            Err(f) => r == Err::<String, WebDriverError>(f),
            Ok(h) => r matches Ok(t) && t@ == crate::webelement::or_empty(crate::text::opt_text(h)),
        };
    assert(told_property(*e.session, CommandView::GetElementProperty(e.element_id@, name), p));
}

/// What an element is, is asked of it by the command for that.
pub proof fn law_element_is<D: Driver>(e: &WebElement<D>)
    ensures
        forall|r: WebDriverResult<String>| #[trigger]
            call_ensures(WebElement::<D>::tag_name, (e,), r) ==> laws::told_text(
            *e.session,
            CommandView::GetElementTagName(e.element_id@),
            r,
        ),
        forall|r: WebDriverResult<String>| #[trigger] call_ensures(WebElement::<D>::text, (e,), r)
            ==> laws::told_text(
            *e.session,
            CommandView::GetElementText(e.element_id@),
            r,
        ),
        forall|r: WebDriverResult<String>| #[trigger]
            call_ensures(WebElement::<D>::screenshot_as_base64, (e,), r) ==> laws::told_text(
            *e.session,
            CommandView::TakeElementScreenshot(e.element_id@),
            r,
        ),
        forall|r: WebDriverResult<bool>| #[trigger]
            call_ensures(WebElement::<D>::is_selected, (e,), r) ==> laws::told_flag(
            *e.session,
            CommandView::IsElementSelected(e.element_id@),
            r,
        ),
        forall|r: WebDriverResult<bool>| #[trigger]
            call_ensures(WebElement::<D>::is_displayed, (e,), r) ==> laws::told_flag(
            *e.session,
            CommandView::IsElementDisplayed(e.element_id@),
            r,
        ),
        forall|r: WebDriverResult<bool>| #[trigger]
            call_ensures(WebElement::<D>::is_enabled, (e,), r) ==> laws::told_flag(
            *e.session,
            CommandView::IsElementEnabled(e.element_id@),
            r,
        ),
        forall|r: WebDriverResult<JsonValue>| #[trigger]
            call_ensures(WebElement::<D>::rect, (e,), r) ==> laws::told(
            *e.session,
            CommandView::GetElementRect(e.element_id@),
            |v: Json| true,
            |v: Json, t: JsonValue| t@ == v,
            r,
        ),
{
}

/// What is done to an element is done by the command for that.
pub proof fn law_element_does<D: Driver>(e: &WebElement<D>)
    ensures
        forall|r: WebDriverResult<()>| #[trigger] call_ensures(WebElement::<D>::click, (e,), r)
            ==> laws::done(
            *e.session,
            CommandView::ElementClick(e.element_id@),
            r,
        ),
        forall|r: WebDriverResult<()>| #[trigger] call_ensures(WebElement::<D>::clear, (e,), r)
            ==> laws::done(
            *e.session,
            CommandView::ElementClear(e.element_id@),
            r,
        ),
        forall|r: WebDriverResult<()>| #[trigger]
            call_ensures(WebElement::<D>::enter_frame, (*e,), r)
            ==> laws::done(*e.session, CommandView::SwitchToFrameElement(e.element_id@), r),
        forall|r: WebDriverResult<()>| #[trigger] call_ensures(WebElement::<D>::focus, (e,), r)
            ==> laws::done(
            *e.session,
            on_itself(e.element_id@, "arguments[0].focus();"@),
            r,
        ),
        forall|r: WebDriverResult<()>| #[trigger]
            call_ensures(WebElement::<D>::scroll_into_view, (e,), r) ==> laws::done(
            *e.session,
            on_itself(e.element_id@, "arguments[0].scrollIntoView();"@),
            r,
        ),
{
}

/// A script that is run with the element as its only argument.
pub open spec fn on_itself(id: Seq<char>, script: Seq<char>) -> CommandView {
    CommandView::ExecuteScript(
        script,
        seq![Json::Obj(map!["element-6066-11e4-a52e-4f735466cecf"@ => Json::Str(id)])],
    )
}

/// An element is handed to a script as its reference.
pub proof fn law_element_as_argument<D: Driver>(e: &WebElement<D>, r: JsonValue)
    requires
        call_ensures(WebElement::<D>::to_json, (e,), r),
    ensures
        r@ == Json::Obj(map!["element-6066-11e4-a52e-4f735466cecf"@ => Json::Str(e.element_id@)]),
{
}

/// Keys are sent to the element as they are typed.
pub proof fn law_send_keys<D: Driver, S: IntoTyping>(
    e: &WebElement<D>,
    keys: S,
    typing: TypingData,
    r: WebDriverResult<()>,
)
    requires
        call_ensures(WebElement::<D>::send_keys::<S>, (e, keys), r),
        call_ensures(TypingData::from::<S>, (keys,), typing),
    ensures
        laws::done(*e.session, CommandView::ElementSendKeys(e.element_id@, typing@), r),
{
}

/// Elements are searched for below the element, with the selector that was asked for.
pub proof fn law_element_search<D: Driver>(
    e: &WebElement<D>,
    by: By,
    selector: Selector,
    one: WebDriverResult<WebElement<D>>,
    all: WebDriverResult<Vec<WebElement<D>>>,
)
    requires
        call_ensures(By::into_selector, (by,), selector),
        call_ensures(WebElement::<D>::find_element, (e, by), one),
        call_ensures(WebElement::<D>::find_elements, (e, by), all),
    ensures
        told_element(
            *e.session,
            CommandView::FindElementFromElement(e.element_id@, selector@),
            one,
        ),
        told_elements(
            *e.session,
            CommandView::FindElementsFromElement(e.element_id@, selector@),
            all,
        ),
{
    lemma_element(
        *e.session,
        CommandView::FindElementFromElement(e.element_id@, selector@),
        one,
    );
    lemma_elements(
        *e.session,
        CommandView::FindElementsFromElement(e.element_id@, selector@),
        all,
    );
}

/// A search is answered by an element of the session.
pub proof fn lemma_element<D: Driver>(d: D, command: CommandView, r: WebDriverResult<WebElement<D>>)
    requires
        crate::webelement::finds(d, command, r),
    ensures
        told_element(d, command, r),
{
}

/// A search for all is answered by elements of the session.
pub proof fn lemma_elements<D: Driver>(
    d: D,
    command: CommandView,
    r: WebDriverResult<Vec<WebElement<D>>>,
)
    requires
        crate::webelement::finds_all(d, command, r),
    ensures
        told_elements(d, command, r),
{
    let reply = choose|reply: WebDriverResult<JsonValue>| #[trigger]
        d.may_answer(command, reply) && match reply {
            Err(e) => r == Err::<Vec<WebElement<D>>, WebDriverError>(e),
            Ok(body) => match crate::json::member(body@, "value"@) {
                Some(v) => crate::webelement::elements_result(d, v, r),
                None => r matches Err(e) && crate::http::is_json_error(
                    e,
                    "Unexpected response body"@,
                ),
            },
        };
    if let Ok(body) = reply {
        if let Some(v) = laws::value_in(body) {
            lemma_list(d, v, r);
        }
    }
}

/// A list of references to elements is read as those elements.
pub proof fn lemma_list<D>(d: D, v: Json, r: WebDriverResult<Vec<WebElement<D>>>)
    requires
        crate::webelement::elements_result(d, v, r),
    ensures
        elements_valid(v) ==> (r matches Ok(w) && elements_read(v, d, w)),
        !elements_valid(v) ==> r is Err,
{
    if let Json::Arr(items) = v {
        assert(forall|i: int|
            0 <= i < items.len() ==> (crate::types::element_ref_of(#[trigger] items[i]) is Some
                <==> values::element_in(items[i]) is Some));
        assert(elements_valid(v) == crate::webelement::refers_to_elements(v));
        if let Ok(w) = r {
            assert forall|i: int| 0 <= i < items.len() implies values::element_in(
                #[trigger] items[i],
            ) == Some(w@[i].element_id@) && *w@[i].session == d by {
                assert(crate::webelement::is_element(
                    w@[i],
                    d,
                    crate::types::element_ref_of(items[i])->0.id(),
                ));
            }
        }
    }
}

/// An element is clickable where it is displayed and enabled, and whether it is enabled is asked
/// only of one that is displayed.
pub proof fn law_clickable<D: Driver>(e: &WebElement<D>, r: WebDriverResult<bool>)
    requires
        call_ensures(WebElement::<D>::is_clickable, (e,), r),
    ensures
        exists|shown: WebDriverResult<bool>| #[trigger]
            laws::told_flag(*e.session, CommandView::IsElementDisplayed(e.element_id@), shown)
                && match shown {
                Ok(true) => laws::told_flag(
                    *e.session,
                    CommandView::IsElementEnabled(e.element_id@),
                    r,
                ),
                Ok(false) => r matches Ok(b) && !b,
                Err(f) => r matches Err(g) && g == f,
            },
{
    let shown = choose|shown: WebDriverResult<bool>| #[trigger]
        crate::driver::answers(
            *e.session,
            CommandView::IsElementDisplayed(e.element_id@),
            shown,
        ) && if shown == Ok::<bool, WebDriverError>(true) {
            crate::driver::answers(*e.session, CommandView::IsElementEnabled(e.element_id@), r)
        } else {
            r == shown
        };
    assert(laws::told_flag(*e.session, CommandView::IsElementDisplayed(e.element_id@), shown));
}

/// An element is present where its tag name can be asked for. It is not where the server knows no
/// such element, or knows it no more; every other error is an error.
pub proof fn law_presence<D: Driver>(e: &WebElement<D>, r: WebDriverResult<bool>)
    requires
        call_ensures(WebElement::<D>::is_present, (e,), r),
    ensures
        exists|tag: WebDriverResult<String>| #[trigger]
            laws::told_text(*e.session, CommandView::GetElementTagName(e.element_id@), tag)
                && match tag {
                Ok(_) => r matches Ok(b) && b,
                Err(f) => match f@ {
                    WebDriverErrorInner::NoSuchElement(_) => r matches Ok(b) && !b,
                    WebDriverErrorInner::StaleElementReference(_) => r matches Ok(b) && !b,
                    _ => r matches Err(g) && g == f,
                },
            },
{
    let tag = choose|tag: WebDriverResult<String>| #[trigger]
        crate::driver::answers(*e.session, CommandView::GetElementTagName(e.element_id@), tag)
            && crate::webelement::presence(tag, r);
    assert(laws::told_text(*e.session, CommandView::GetElementTagName(e.element_id@), tag));
}

/// A picture of an element is the base64 text that the server answers with, decoded.
pub proof fn law_element_picture<D: Driver>(e: &WebElement<D>, r: WebDriverResult<Vec<u8>>)
    requires
        call_ensures(WebElement::<D>::screenshot_as_png, (e,), r),
    ensures
        exists|t: WebDriverResult<String>| #[trigger]
            laws::told_text(*e.session, CommandView::TakeElementScreenshot(e.element_id@), t)
                && laws::decoded(t, r),
{
    let t = choose|t: WebDriverResult<String>| #[trigger]
        crate::driver::answers(*e.session, CommandView::TakeElementScreenshot(e.element_id@), t)
            && crate::reply::data_result(t, r);
    assert(laws::told_text(*e.session, CommandView::TakeElementScreenshot(e.element_id@), t));
}

/// An element is shown with its session and its own id.
pub proof fn law_element_is_shown<D: Driver>(e: &WebElement<D>, r: String)
    requires
        call_ensures(WebElement::<D>::to_text, (e,), r),
    ensures
        r@ == "(session=\""@ + e.session.id() + "\", element=\""@ + e.element_id@ + "\")"@,
{
}

/// An element is made of its session and its id, and a copy of it is the same element.
pub proof fn law_new_element<D: Driver>(d: &D, id: ElementId, r: WebElement<D>, copy: WebElement<D>)
    requires
        call_ensures(WebElement::<D>::new, (d, id), r),
        call_ensures(<WebElement<D> as Clone>::clone, (&r,), copy),
    ensures
        r.element_id@ == id@,
        *r.session == *d,
        copy.element_id@ == id@,
        *copy.session == *d,
{
}

/// References that a script or a response hands back are elements of the session that is given.
pub proof fn law_elements_of_values<D>(
    d: &D,
    v: &JsonValue,
    one: WebDriverResult<WebElement<D>>,
    all: WebDriverResult<Vec<WebElement<D>>>,
)
    requires
        call_ensures(unwrap_element_sync::<D>, (d, v), one),
        call_ensures(unwrap_elements_sync::<D>, (d, v), all),
    ensures
        match values::element_in(v@) {
            Some(id) => one matches Ok(w) && w.element_id@ == id && *w.session == *d,
            None => one is Err,
        },
        elements_valid(v@) ==> (all matches Ok(w) && elements_read(v@, *d, w)),
        !elements_valid(v@) ==> all is Err,
{
    lemma_list(*d, v@, all);
}

/// What a response holds under `value` is read as the elements that it refers to.
pub proof fn law_elements_of_responses<D>(
    c: CmdResponse,
    d: &D,
    one: WebDriverResult<WebElement<D>>,
    all: WebDriverResult<Vec<WebElement<D>>>,
)
    requires
        call_ensures(CmdResponse::element::<D>, (c, d), one),
        call_ensures(CmdResponse::elements::<D>, (c, d), all),
    ensures
        match laws::value_in(c.body) {
            Some(v) => {
                &&& match values::element_in(v) {
                    Some(id) => one matches Ok(w) && w.element_id@ == id && *w.session == *d,
                    None => one is Err,
                }
                &&& elements_valid(v) ==> (all matches Ok(w) && elements_read(v, *d, w))
                &&& !elements_valid(v) ==> all is Err
            },
            None => one is Err && all is Err,
        },
{
    if let Some(v) = laws::value_in(c.body) {
        lemma_list(*d, v, all);
    }
}

/// Small readings: a property as a text, nothing as an empty text, and presence by the error.
pub proof fn law_small_readings(
    v: &JsonValue,
    t: Option<String>,
    tag: WebDriverResult<String>,
    p: Option<String>,
    s: String,
    b: WebDriverResult<bool>,
)
    requires
        call_ensures(property_of, (v,), p),
        call_ensures(text_or_empty, (t,), s),
        call_ensures(presence_of, (tag,), b),
    ensures
        match (p, property_shown(Some(v@))) {
            (Some(t), Some(x)) => t@ == x,
            (None, None) => true,
            _ => false,
        },
        s@ == (match t {
            Some(t) => t@,
            None => Seq::empty(),
        }),
        match tag {
            Ok(_) => b matches Ok(x) && x,
            Err(f) => match f@ {
                WebDriverErrorInner::NoSuchElement(_) => b matches Ok(x) && !x,
                WebDriverErrorInner::StaleElementReference(_) => b matches Ok(x) && !x,
                _ => b matches Err(g) && g == f,
            },
        },
{
}

} // verus!
