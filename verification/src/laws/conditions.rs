//! What a condition asks of an element.
use vstd::prelude::*;

use crate::command::CommandView;
use crate::conditions::{
    element_has_attribute, element_has_attributes, element_has_class, element_has_css_properties,
    element_has_css_property, element_has_id, element_has_properties, element_has_property,
    element_has_tag, element_has_text, element_has_value, element_is_clickable,
    element_is_displayed, element_is_enabled, element_is_not_clickable, element_is_not_displayed,
    element_is_not_enabled, element_is_not_selected, element_is_selected, element_lacks_attribute,
    element_lacks_attributes, element_lacks_class, element_lacks_css_properties,
    element_lacks_css_property, element_lacks_id, element_lacks_properties, element_lacks_property,
    element_lacks_tag, element_lacks_text, element_lacks_value, Condition, Named,
};
use crate::conditions;
use crate::driver::Driver;
use crate::error::{WebDriverError, WebDriverResult};
use crate::json::{Json, JsonValue};
use crate::laws;
use crate::needle::{IntoNeedle, Needle};
use crate::types::IntoArcStr;
use crate::webelement::WebElement;
use crate::wire;

verus! {

/// An error is a no where errors are ignored, and comes out where they are not.
pub open spec fn error_out(e: WebDriverError, ignored: bool, r: WebDriverResult<bool>) -> bool {
    match r {
        Ok(b) => ignored && !b,
        Err(f) => !ignored && f == e,
    }
}

/// `r` is a no where errors are ignored, and some error where they are not.
pub open spec fn unreadable(ignored: bool, r: WebDriverResult<bool>) -> bool {
    match r {
        Ok(b) => ignored && !b,
        Err(_) => !ignored,
    }
}

/// One command decides: a text in its reply is held against `needle`, and no text is no match.
pub open spec fn decided_by<D: Driver, N: IntoNeedle>(
    d: D,
    command: CommandView,
    needle: N,
    wanted: bool,
    ignored: bool,
    r: WebDriverResult<bool>,
) -> bool {
    exists|reply: WebDriverResult<JsonValue>| #[trigger]
        d.may_answer(command, reply) && match reply {
            Err(e) => error_out(e, ignored, r),
            Ok(body) => r matches Ok(b) && match laws::text_in(body) {
                Some(s) => b == (needle.matches_with(s) == wanted),
                None => b == !wanted,
            },
        }
}

/// One command decides, and must be answered by a text.
pub open spec fn decided_by_text<D: Driver, N: IntoNeedle>(
    d: D,
    command: CommandView,
    needle: N,
    wanted: bool,
    ignored: bool,
    r: WebDriverResult<bool>,
) -> bool {
    exists|reply: WebDriverResult<JsonValue>| #[trigger]
        d.may_answer(command, reply) && match reply {
            Err(e) => error_out(e, ignored, r),
            Ok(body) => match laws::text_in(body) {
                Some(s) => r matches Ok(b) && b == (needle.matches_with(s) == wanted),
                None => unreadable(ignored, r),
            },
        }
}

/// One command decides, and must be answered by a yes or a no.
pub open spec fn decided_by_flag<D: Driver>(
    d: D,
    command: CommandView,
    wanted: bool,
    ignored: bool,
    r: WebDriverResult<bool>,
) -> bool {
    exists|reply: WebDriverResult<JsonValue>| #[trigger]
        d.may_answer(command, reply) && match reply {
            Err(e) => error_out(e, ignored, r),
            Ok(body) => match laws::value_in(body) {
                Some(Json::Bool(b)) => r matches Ok(x) && x == (b == wanted),
                _ => unreadable(ignored, r),
            },
        }
}

/// The conditions on an element's value ask for its attribute `value` and for nothing else: they hold
/// where the text of that attribute matches, and their opposites where it does not.
pub proof fn law_value_conditions<D: Driver, N: IntoNeedle>(
    e: &WebElement<D>,
    needle: N,
    ignored: bool,
    has: Condition,
    lacks: Condition,
    yes: WebDriverResult<bool>,
    no: WebDriverResult<bool>,
)
    requires
        call_ensures(element_has_value::<N>, (needle, ignored), has),
        call_ensures(element_lacks_value::<N>, (needle, ignored), lacks),
        call_ensures(Condition::check::<D>, (&has, e), yes),
        call_ensures(Condition::check::<D>, (&lacks, e), no),
    ensures
        decided_by(
            *e.session,
            CommandView::GetElementAttribute(e.element_id@, "value"@),
            needle,
            true,
            ignored,
            yes,
        ),
        decided_by(
            *e.session,
            CommandView::GetElementAttribute(e.element_id@, "value"@),
            needle,
            false,
            ignored,
            no,
        ),
{
}

/// The conditions on an element's class ask for its attribute `class` and for nothing else: they hold
/// where the text of that attribute matches, and their opposites where it does not.
pub proof fn law_class_conditions<D: Driver, N: IntoNeedle>(
    e: &WebElement<D>,
    needle: N,
    ignored: bool,
    has: Condition,
    lacks: Condition,
    yes: WebDriverResult<bool>,
    no: WebDriverResult<bool>,
)
    requires
        call_ensures(element_has_class::<N>, (needle, ignored), has),
        call_ensures(element_lacks_class::<N>, (needle, ignored), lacks),
        call_ensures(Condition::check::<D>, (&has, e), yes),
        call_ensures(Condition::check::<D>, (&lacks, e), no),
    ensures
        decided_by(
            *e.session,
            CommandView::GetElementAttribute(e.element_id@, "class"@),
            needle,
            true,
            ignored,
            yes,
        ),
        decided_by(
            *e.session,
            CommandView::GetElementAttribute(e.element_id@, "class"@),
            needle,
            false,
            ignored,
            no,
        ),
{
}

/// The conditions on an element's id ask for its attribute `id` and for nothing else: they hold
/// where the text of that attribute matches, and their opposites where it does not.
pub proof fn law_id_conditions<D: Driver, N: IntoNeedle>(
    e: &WebElement<D>,
    needle: N,
    ignored: bool,
    has: Condition,
    lacks: Condition,
    yes: WebDriverResult<bool>,
    no: WebDriverResult<bool>,
)
    requires
        call_ensures(element_has_id::<N>, (needle, ignored), has),
        call_ensures(element_lacks_id::<N>, (needle, ignored), lacks),
        call_ensures(Condition::check::<D>, (&has, e), yes),
        call_ensures(Condition::check::<D>, (&lacks, e), no),
    ensures
        decided_by(
            *e.session,
            CommandView::GetElementAttribute(e.element_id@, "id"@),
            needle,
            true,
            ignored,
            yes,
        ),
        decided_by(
            *e.session,
            CommandView::GetElementAttribute(e.element_id@, "id"@),
            needle,
            false,
            ignored,
            no,
        ),
{
}

/// The conditions on an element's text ask for its text and for nothing else.
pub proof fn law_text_conditions<D: Driver, N: IntoNeedle>(
    e: &WebElement<D>,
    needle: N,
    ignored: bool,
    has: Condition,
    lacks: Condition,
    yes: WebDriverResult<bool>,
    no: WebDriverResult<bool>,
)
    requires
        call_ensures(element_has_text::<N>, (needle, ignored), has),
        call_ensures(element_lacks_text::<N>, (needle, ignored), lacks),
        call_ensures(Condition::check::<D>, (&has, e), yes),
        call_ensures(Condition::check::<D>, (&lacks, e), no),
    ensures
        decided_by_text(
            *e.session,
            CommandView::GetElementText(e.element_id@),
            needle,
            true,
            ignored,
            yes,
        ),
        decided_by_text(
            *e.session,
            CommandView::GetElementText(e.element_id@),
            needle,
            false,
            ignored,
            no,
        ),
{
}

/// The conditions on an element's tag ask for its tag name and for nothing else.
pub proof fn law_tag_conditions<D: Driver, N: IntoNeedle>(
    e: &WebElement<D>,
    needle: N,
    ignored: bool,
    has: Condition,
    lacks: Condition,
    yes: WebDriverResult<bool>,
    no: WebDriverResult<bool>,
)
    requires
        call_ensures(element_has_tag::<N>, (needle, ignored), has),
        call_ensures(element_lacks_tag::<N>, (needle, ignored), lacks),
        call_ensures(Condition::check::<D>, (&has, e), yes),
        call_ensures(Condition::check::<D>, (&lacks, e), no),
    ensures
        decided_by_text(
            *e.session,
            CommandView::GetElementTagName(e.element_id@),
            needle,
            true,
            ignored,
            yes,
        ),
        decided_by_text(
            *e.session,
            CommandView::GetElementTagName(e.element_id@),
            needle,
            false,
            ignored,
            no,
        ),
{
}

/// Whether an element is enabled is asked of the session by its own command.
pub proof fn law_enabled_conditions<D: Driver>(
    e: &WebElement<D>,
    ignored: bool,
    is: Condition,
    is_not: Condition,
    yes: WebDriverResult<bool>,
    no: WebDriverResult<bool>,
)
    requires
        call_ensures(element_is_enabled, (ignored,), is),
        call_ensures(element_is_not_enabled, (ignored,), is_not),
        call_ensures(Condition::check::<D>, (&is, e), yes),
        call_ensures(Condition::check::<D>, (&is_not, e), no),
    ensures
        decided_by_flag(*e.session, CommandView::IsElementEnabled(e.element_id@), true, ignored,
            yes),
        decided_by_flag(*e.session, CommandView::IsElementEnabled(e.element_id@), false, ignored,
            no),
{
}

/// Whether an element is selected is asked of the session by its own command.
pub proof fn law_selected_conditions<D: Driver>(
    e: &WebElement<D>,
    ignored: bool,
    is: Condition,
    is_not: Condition,
    yes: WebDriverResult<bool>,
    no: WebDriverResult<bool>,
)
    requires
        call_ensures(element_is_selected, (ignored,), is),
        call_ensures(element_is_not_selected, (ignored,), is_not),
        call_ensures(Condition::check::<D>, (&is, e), yes),
        call_ensures(Condition::check::<D>, (&is_not, e), no),
    ensures
        decided_by_flag(*e.session, CommandView::IsElementSelected(e.element_id@), true, ignored,
            yes),
        decided_by_flag(*e.session, CommandView::IsElementSelected(e.element_id@), false, ignored,
            no),
{
}

/// Whether an element is displayed is asked of the session by its own command.
pub proof fn law_displayed_conditions<D: Driver>(
    e: &WebElement<D>,
    ignored: bool,
    is: Condition,
    is_not: Condition,
    yes: WebDriverResult<bool>,
    no: WebDriverResult<bool>,
)
    requires
        call_ensures(element_is_displayed, (ignored,), is),
        call_ensures(element_is_not_displayed, (ignored,), is_not),
        call_ensures(Condition::check::<D>, (&is, e), yes),
        call_ensures(Condition::check::<D>, (&is_not, e), no),
    ensures
        decided_by_flag(*e.session, CommandView::IsElementDisplayed(e.element_id@), true, ignored,
            yes),
        decided_by_flag(*e.session, CommandView::IsElementDisplayed(e.element_id@), false, ignored,
            no),
{
}

/// An element is clickable where it is displayed and enabled: a yes to both is a yes, and a no to
/// either is a no. Whether it is enabled is asked for only after it was found to be displayed.
pub proof fn law_clickable_conditions<D: Driver>(
    e: &WebElement<D>,
    ignored: bool,
    is: Condition,
    is_not: Condition,
    yes: WebDriverResult<bool>,
    no: WebDriverResult<bool>,
)
    requires
        call_ensures(element_is_clickable, (ignored,), is),
        call_ensures(element_is_not_clickable, (ignored,), is_not),
        call_ensures(Condition::check::<D>, (&is, e), yes),
        call_ensures(Condition::check::<D>, (&is_not, e), no),
    ensures
        clickable_decides(*e.session, e.element_id@, true, ignored, yes),
        clickable_decides(*e.session, e.element_id@, false, ignored, no),
{
    lemma_clickable(e, is, yes);
    lemma_clickable(e, is_not, no);
}

/// A condition on being clickable is decided by the two commands for that.
pub proof fn lemma_clickable<D: Driver>(e: &WebElement<D>, c: Condition, r: WebDriverResult<bool>)
    requires
        c.probe == conditions::Probe::Flag(conditions::Flag::Clickable),
        c.decides(*e, r),
    ensures
        clickable_decides(*e.session, e.element_id@, c.wanted, c.ignore_errors, r),
{
    let answer = choose|answer: WebDriverResult<bool>| #[trigger]
        conditions::single_answer(c.probe, *e, answer) && conditions::verdict(
            answer,
            c.wanted,
            c.ignore_errors,
            r,
        );
    assert(e.clickable(answer));
}

/// What two commands together say of whether an element can be clicked.
pub open spec fn clickable_decides<D: Driver>(
    d: D,
    id: Seq<char>,
    wanted: bool,
    ignored: bool,
    r: WebDriverResult<bool>,
) -> bool {
    exists|shown: WebDriverResult<JsonValue>| #[trigger]
        d.may_answer(CommandView::IsElementDisplayed(id), shown) && match shown {
            Err(e) => error_out(e, ignored, r),
            Ok(body) => match laws::value_in(body) {
                Some(Json::Bool(true)) => decided_by_flag(
                    d,
                    CommandView::IsElementEnabled(id),
                    wanted,
                    ignored,
                    r,
                ),
                Some(Json::Bool(false)) => r matches Ok(b) && b == !wanted,
                _ => unreadable(ignored, r),
            },
        }
}

/// What a list of attributes, of properties or of CSS properties asks for, item by item.
pub open spec fn item_command(named: Named, id: Seq<char>, name: Seq<char>) -> CommandView {
    match named {
        Named::Attribute => CommandView::GetElementAttribute(id, name),
        Named::Property => CommandView::GetElementProperty(id, name),
        Named::CssProperty => CommandView::GetElementCssValue(id, name),
    }
}

/// Whether a reply matches. An attribute is a text or nothing; a property that is no text is held
/// against as its JSON text, and null is nothing; a CSS property that is missing is empty.
pub open spec fn reply_matches(named: Named, body: JsonValue, needle: Needle) -> bool {
    match named {
        Named::Attribute => laws::text_in(body) matches Some(s) && needle.matches_text(s),
        Named::Property => match laws::value_in(body) {
            None => false,
            Some(Json::Null) => false,
            Some(Json::Str(s)) => needle.matches_text(s),
            Some(v) => needle.matches_text(wire::text_of_json(wire::settled(v))),
        },
        Named::CssProperty => match laws::text_in(body) {
            Some(s) => needle.matches_text(s),
            None => needle.matches_text(Seq::empty()),
        },
    }
}

/// The session may answer so that the item matches, or so that it does not.
pub open spec fn item_says<D: Driver>(
    named: Named,
    e: WebElement<D>,
    item: (String, Needle),
    b: bool,
) -> bool {
    exists|body: JsonValue| #[trigger]
        e.session.may_answer(
            item_command(named, e.element_id@, item.0@),
            Ok::<JsonValue, WebDriverError>(body),
        ) && reply_matches(named, body, item.1) == b
}

/// The session may answer with the error.
pub open spec fn item_fails<D: Driver>(
    named: Named,
    e: WebElement<D>,
    item: (String, Needle),
    f: WebDriverError,
) -> bool {
    e.session.may_answer(
        item_command(named, e.element_id@, item.0@),
        Err::<JsonValue, WebDriverError>(f),
    )
}

/// What a list decides: a yes says that every item is as wanted, a no that some item is not or that
/// an error was ignored, and an error is that of some item.
pub open spec fn list_decides<D: Driver>(
    named: Named,
    e: WebElement<D>,
    items: Seq<(String, Needle)>,
    wanted: bool,
    ignored: bool,
    r: WebDriverResult<bool>,
) -> bool {
    match r {
        Ok(true) => forall|i: int|
            0 <= i < items.len() ==> item_says(named, e, #[trigger] items[i], wanted),
        Ok(false) => exists|i: int|
            0 <= i < items.len() && (item_says(named, e, #[trigger] items[i], !wanted) || (ignored
                && exists|f: WebDriverError| item_fails(named, e, items[i], f))),
        Err(f) => !ignored && exists|i: int|
            0 <= i < items.len() && item_fails(named, e, #[trigger] items[i], f),
    }
}

proof fn lemma_item<D: Driver>(
    named: Named,
    e: WebElement<D>,
    item: (String, Needle),
    found: WebDriverResult<bool>,
)
    requires
        conditions::named_matches(named, e, item, found),
    ensures
        found matches Ok(b) ==> item_says(named, e, item, b),
        found matches Err(f) ==> item_fails(named, e, item, f),
{
    match named {
        Named::Attribute => {
            let text = choose|text: WebDriverResult<Option<String>>| #[trigger]
                e.has_attribute(item.0@, text) && conditions::opt_match(item.1, text, found);
            let reply = choose|reply: WebDriverResult<JsonValue>| #[trigger]
                e.session.may_answer(
                    CommandView::GetElementAttribute(e.element_id@, item.0@),
                    reply,
                ) && match reply {
                    Err(f) => text == Err::<Option<String>, WebDriverError>(f),
                    Ok(body) => text matches Ok(p) && crate::text::opt_text(p)
                        == crate::webelement::attribute_of(crate::reply::value_of(body@)),
                };
            assert(reply is Ok ==> e.session.may_answer(
                item_command(named, e.element_id@, item.0@),
                Ok::<JsonValue, WebDriverError>(reply->Ok_0),
            ));
        },
        Named::Property => {
            let text = choose|text: WebDriverResult<Option<String>>| #[trigger]
                e.has_property(item.0@, text) && conditions::opt_match(item.1, text, found);
            let reply = choose|reply: WebDriverResult<JsonValue>| #[trigger]
                e.session.may_answer(
                    CommandView::GetElementProperty(e.element_id@, item.0@),
                    reply,
                ) && match reply {
                    Err(f) => text == Err::<Option<String>, WebDriverError>(f),
                    Ok(body) => text matches Ok(p) && crate::text::opt_text(p)
                        == crate::webelement::property_text(crate::reply::value_of(body@)),
                };
            assert(reply is Ok ==> e.session.may_answer(
                item_command(named, e.element_id@, item.0@),
                Ok::<JsonValue, WebDriverError>(reply->Ok_0),
            ));
        },
        Named::CssProperty => {
            let text = choose|text: WebDriverResult<String>| #[trigger]
                e.has_css_property(item.0@, text) && conditions::text_match(item.1, text, found);
            let reply = choose|reply: WebDriverResult<JsonValue>| #[trigger]
                e.session.may_answer(
                    CommandView::GetElementCssValue(e.element_id@, item.0@),
                    reply,
                ) && match reply {
                    Err(f) => text == Err::<String, WebDriverError>(f),
                    Ok(body) => text matches Ok(p) && p@ == crate::webelement::or_empty(
                        crate::webelement::attribute_of(crate::reply::value_of(body@)),
                    ),
                };
            assert(reply is Ok ==> e.session.may_answer(
                item_command(named, e.element_id@, item.0@),
                Ok::<JsonValue, WebDriverError>(reply->Ok_0),
            ));
        },
    }
}

/// A list is decided item by item, from the item `i` on.
pub proof fn lemma_list<D: Driver>(
    named: Named,
    e: WebElement<D>,
    items: Seq<(String, Needle)>,
    i: nat,
    wanted: bool,
    ignored: bool,
    r: WebDriverResult<bool>,
)
    requires
        conditions::list_verdict(named, e, items, i, wanted, ignored, r),
        forall|j: int| 0 <= j < i && j < items.len()
            ==> item_says(named, e, #[trigger] items[j], wanted),
    ensures
        list_decides(named, e, items, wanted, ignored, r),
    decreases items.len() - i,
{
    if i < items.len() {
        let found = choose|found: WebDriverResult<bool>| #[trigger]
            conditions::named_matches(named, e, items[i as int], found) && match found {
                Err(f) => conditions::failed(f, ignored, r),
                Ok(b) => if b == wanted {
                    conditions::list_verdict(named, e, items, i + 1, wanted, ignored, r)
                } else {
                    r == Ok::<bool, WebDriverError>(false)
                },
            };
        lemma_item(named, e, items[i as int], found);
        match found {
            Err(f) => {
                assert(item_fails(named, e, items[i as int], f));
            },
            Ok(b) => {
                if b == wanted {
                    lemma_list(named, e, items, i + 1, wanted, ignored, r);
                } else {
                    assert(item_says(named, e, items[i as int], !wanted));
                }
            },
        }
    }
}

/// A condition on attributes asks for each of them by its name, and for nothing else.
pub proof fn law_attributes_conditions<D: Driver>(
    e: &WebElement<D>,
    desired: Vec<(String, Needle)>,
    ignored: bool,
    has: Condition,
    lacks: Condition,
    yes: WebDriverResult<bool>,
    no: WebDriverResult<bool>,
)
    requires
        call_ensures(element_has_attributes, (desired, ignored), has),
        call_ensures(element_lacks_attributes, (desired, ignored), lacks),
        call_ensures(Condition::check::<D>, (&has, e), yes),
        call_ensures(Condition::check::<D>, (&lacks, e), no),
    ensures
        list_decides(Named::Attribute, *e, desired@, true, ignored, yes),
        list_decides(Named::Attribute, *e, desired@, false, ignored, no),
{
    lemma_list(Named::Attribute, *e, desired@, 0, true, ignored, yes);
    lemma_list(Named::Attribute, *e, desired@, 0, false, ignored, no);
}

/// A condition on one attribute asks for that one by its name.
pub proof fn law_attribute_condition<D: Driver, S: IntoArcStr, N: IntoNeedle>(
    e: &WebElement<D>,
    name: S,
    needle: N,
    ignored: bool,
    has: Condition,
    lacks: Condition,
    yes: WebDriverResult<bool>,
    no: WebDriverResult<bool>,
)
    requires
        call_ensures(element_has_attribute::<S, N>, (name, needle, ignored), has),
        call_ensures(element_lacks_attribute::<S, N>, (name, needle, ignored), lacks),
        call_ensures(Condition::check::<D>, (&has, e), yes),
        call_ensures(Condition::check::<D>, (&lacks, e), no),
    ensures
        decided_by(
            *e.session,
            CommandView::GetElementAttribute(e.element_id@, name.text()),
            needle,
            true,
            ignored,
            yes,
        ),
        decided_by(
            *e.session,
            CommandView::GetElementAttribute(e.element_id@, name.text()),
            needle,
            false,
            ignored,
            no,
        ),
{
    reveal_with_fuel(conditions::list_verdict, 3);
}

/// A condition on properties asks for each of them by its name, and for nothing else.
pub proof fn law_properties_conditions<D: Driver>(
    e: &WebElement<D>,
    desired: Vec<(String, Needle)>,
    ignored: bool,
    has: Condition,
    lacks: Condition,
    yes: WebDriverResult<bool>,
    no: WebDriverResult<bool>,
)
    requires
        call_ensures(element_has_properties, (desired, ignored), has),
        call_ensures(element_lacks_properties, (desired, ignored), lacks),
        call_ensures(Condition::check::<D>, (&has, e), yes),
        call_ensures(Condition::check::<D>, (&lacks, e), no),
    ensures
        list_decides(Named::Property, *e, desired@, true, ignored, yes),
        list_decides(Named::Property, *e, desired@, false, ignored, no),
{
    lemma_list(Named::Property, *e, desired@, 0, true, ignored, yes);
    lemma_list(Named::Property, *e, desired@, 0, false, ignored, no);
}

/// The one command for a property decides.
pub open spec fn decided_by_property<D: Driver, N: IntoNeedle>(
    d: D,
    command: CommandView,
    needle: N,
    wanted: bool,
    ignored: bool,
    r: WebDriverResult<bool>,
) -> bool {
    exists|reply: WebDriverResult<JsonValue>| #[trigger]
        d.may_answer(command, reply) && match reply {
            Err(e) => error_out(e, ignored, r),
            Ok(body) => r matches Ok(b) && match laws::value_in(body) {
                None => b == !wanted,
                Some(Json::Null) => b == !wanted,
                Some(Json::Str(s)) => b == (needle.matches_with(s) == wanted),
                Some(v) => b == (needle.matches_with(wire::text_of_json(wire::settled(v)))
                    == wanted),
            },
        }
}

/// A condition on one property asks for that one by its name.
pub proof fn law_property_condition<D: Driver, S: IntoArcStr, N: IntoNeedle>(
    e: &WebElement<D>,
    name: S,
    needle: N,
    ignored: bool,
    has: Condition,
    lacks: Condition,
    yes: WebDriverResult<bool>,
    no: WebDriverResult<bool>,
)
    requires
        call_ensures(element_has_property::<S, N>, (name, needle, ignored), has),
        call_ensures(element_lacks_property::<S, N>, (name, needle, ignored), lacks),
        call_ensures(Condition::check::<D>, (&has, e), yes),
        call_ensures(Condition::check::<D>, (&lacks, e), no),
    ensures
        decided_by_property(
            *e.session,
            CommandView::GetElementProperty(e.element_id@, name.text()),
            needle,
            true,
            ignored,
            yes,
        ),
        decided_by_property(
            *e.session,
            CommandView::GetElementProperty(e.element_id@, name.text()),
            needle,
            false,
            ignored,
            no,
        ),
{
    reveal_with_fuel(conditions::list_verdict, 3);
}

/// A condition on CSS properties asks for each of them by its name, and for nothing else.
pub proof fn law_css_properties_conditions<D: Driver>(
    e: &WebElement<D>,
    desired: Vec<(String, Needle)>,
    ignored: bool,
    has: Condition,
    lacks: Condition,
    yes: WebDriverResult<bool>,
    no: WebDriverResult<bool>,
)
    requires
        call_ensures(element_has_css_properties, (desired, ignored), has),
        call_ensures(element_lacks_css_properties, (desired, ignored), lacks),
        call_ensures(Condition::check::<D>, (&has, e), yes),
        call_ensures(Condition::check::<D>, (&lacks, e), no),
    ensures
        list_decides(Named::CssProperty, *e, desired@, true, ignored, yes),
        list_decides(Named::CssProperty, *e, desired@, false, ignored, no),
{
    lemma_list(Named::CssProperty, *e, desired@, 0, true, ignored, yes);
    lemma_list(Named::CssProperty, *e, desired@, 0, false, ignored, no);
}

/// The one command for a CSS property decides.
pub open spec fn decided_by_css_property<D: Driver, N: IntoNeedle>(
    d: D,
    command: CommandView,
    needle: N,
    wanted: bool,
    ignored: bool,
    r: WebDriverResult<bool>,
) -> bool {
    exists|reply: WebDriverResult<JsonValue>| #[trigger]
        d.may_answer(command, reply) && match reply {
            Err(e) => error_out(e, ignored, r),
            Ok(body) => r matches Ok(b) && b == (needle.matches_with(match laws::text_in(body) {
                Some(s) => s,
                None => Seq::empty(),
            }) == wanted),
        }
}

/// A condition on one CSS property asks for that one by its name.
pub proof fn law_css_property_condition<D: Driver, S: IntoArcStr, N: IntoNeedle>(
    e: &WebElement<D>,
    name: S,
    needle: N,
    ignored: bool,
    has: Condition,
    lacks: Condition,
    yes: WebDriverResult<bool>,
    no: WebDriverResult<bool>,
)
    requires
        call_ensures(element_has_css_property::<S, N>, (name, needle, ignored), has),
        call_ensures(element_lacks_css_property::<S, N>, (name, needle, ignored), lacks),
        call_ensures(Condition::check::<D>, (&has, e), yes),
        call_ensures(Condition::check::<D>, (&lacks, e), no),
    ensures
        decided_by_css_property(
            *e.session,
            CommandView::GetElementCssValue(e.element_id@, name.text()),
            needle,
            true,
            ignored,
            yes,
        ),
        decided_by_css_property(
            *e.session,
            CommandView::GetElementCssValue(e.element_id@, name.text()),
            needle,
            false,
            ignored,
            no,
        ),
{
    reveal_with_fuel(conditions::list_verdict, 3);
}

/// An answer is kept or turned round; an error is a no where errors are ignored.
pub proof fn law_verdicts(answer: WebDriverResult<bool>, ignored: bool)
    ensures
        forall|r: WebDriverResult<bool>| #[trigger]
            call_ensures(conditions::handle_errors, (answer, ignored), r) ==> match answer {
                Ok(b) => r matches Ok(c) && c == b,
                Err(e) => error_out(e, ignored, r),
            },
        forall|r: WebDriverResult<bool>| #[trigger]
            call_ensures(conditions::negate, (answer, ignored), r) ==> match answer {
                Ok(b) => r matches Ok(c) && c == !b,
                Err(e) => error_out(e, ignored, r),
            },
{
}

} // verus!
