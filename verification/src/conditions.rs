//! Conditions on elements.
use crate::command::CommandView;
use crate::driver;
use crate::driver::Driver;
use crate::error::{WebDriverError, WebDriverResult};
use crate::needle::{IntoNeedle, Needle};
use crate::types::{IntoArcStr, IntoTransfer};
use crate::webelement::WebElement;
use vstd::prelude::*;

verus! {

/// Whether `r` is what an error comes to: the condition does not hold where errors are ignored.
pub open spec fn failed(e: WebDriverError, ignore_errors: bool, r: WebDriverResult<bool>) -> bool {
    if ignore_errors {
        r == Ok::<bool, WebDriverError>(false)
    } else {
        r == Err::<bool, WebDriverError>(e)
    }
}

/// Whether `r` is the verdict on an answer, which must be the wanted one.
pub open spec fn verdict(
    answer: WebDriverResult<bool>,
    wanted: bool,
    ignore_errors: bool,
    r: WebDriverResult<bool>,
) -> bool {
    match answer {
        Ok(b) => r == Ok::<bool, WebDriverError>(b == wanted),
        Err(e) => failed(e, ignore_errors, r),
    }
}

/// The result, or `false` where it is an error and errors are ignored.
pub fn handle_errors(result: WebDriverResult<bool>, ignore_errors: bool) -> (r: WebDriverResult<
    bool,
>)
    ensures
        verdict(result, true, ignore_errors, r),
{
    match result {
        Ok(x) => Ok(x),
        Err(e) => if ignore_errors {
            Ok(false)
        } else {
            Err(e)
        },
    }
}

/// The opposite of the result, or `false` where it is an error and errors are ignored.
pub fn negate(result: WebDriverResult<bool>, ignore_errors: bool) -> (r: WebDriverResult<bool>)
    ensures
        verdict(result, false, ignore_errors, r),
{
    match result {
        Ok(x) => Ok(!x),
        Err(e) => handle_errors(Err(e), ignore_errors),
    }
}

/// The verdict on an answer, which must be the wanted one.
fn judge(answer: WebDriverResult<bool>, wanted: bool, ignore_errors: bool) -> (r: WebDriverResult<
    bool,
>)
    ensures
        verdict(answer, wanted, ignore_errors, r),
{
    if wanted {
        handle_errors(answer, ignore_errors)
    } else {
        negate(answer, ignore_errors)
    }
}

/// A truth value of an element.
#[derive(Debug, Clone, Copy, PartialEq, Eq, Structural)]
pub enum Flag {
    Enabled,
    Selected,
    Displayed,
    Clickable,
}

/// What of an element is looked at.
#[derive(Debug)]
pub enum Probe {
    /// A truth value.
    Flag(Flag),
    /// The text.
    Text(Needle),
    /// The name of the tag.
    Tag(Needle),
    /// The id.
    Id(Needle),
    /// The class name.
    Class(Needle),
    /// The value.
    Value(Needle),
    /// Each of some attributes.
    Attributes(Vec<(String, Needle)>),
    /// Each of some properties.
    Properties(Vec<(String, Needle)>),
    /// Each of some CSS properties.
    CssProperties(Vec<(String, Needle)>),
}

/// A condition on elements: what is looked at, whether it must match or must not, and whether an
/// error means that the condition does not hold.
#[derive(Debug)]
pub struct Condition {
    pub probe: Probe,
    pub wanted: bool,
    pub ignore_errors: bool,
}

/// Whether `found`, which may say if something matches a needle, follows from a text.
pub open spec fn text_match(
    needle: Needle,
    text: WebDriverResult<String>,
    found: WebDriverResult<bool>,
) -> bool {
    match text {
        Ok(s) => found == Ok::<bool, WebDriverError>(needle.matches_text(s@)),
        Err(e) => found == Err::<bool, WebDriverError>(e),
    }
}

/// Whether `found`, which may say if something matches a needle, follows from a text that may be
/// missing; nothing matches one that is missing.
pub open spec fn opt_match(
    needle: Needle,
    text: WebDriverResult<Option<String>>,
    found: WebDriverResult<bool>,
) -> bool {
    match text {
        Ok(Some(s)) => found == Ok::<bool, WebDriverError>(needle.matches_text(s@)),
        Ok(None) => found == Ok::<bool, WebDriverError>(false),
        Err(e) => found == Err::<bool, WebDriverError>(e),
    }
}

/// Says whether a text matches a needle.
fn match_text(needle: &Needle, text: WebDriverResult<String>) -> (found: WebDriverResult<bool>)
    ensures
        text_match(*needle, text, found),
{
    match text {
        Ok(s) => Ok(needle.is_match(s.as_str())),
        Err(e) => Err(e),
    }
}

/// Says whether a text that may be missing matches a needle.
fn match_opt(needle: &Needle, text: WebDriverResult<Option<String>>) -> (found: WebDriverResult<
    bool,
>)
    ensures
        opt_match(*needle, text, found),
{
    match text {
        Ok(Some(s)) => Ok(needle.is_match(s.as_str())),
        Ok(None) => Ok(false),
        Err(e) => Err(e),
    }
}

/// What an element has by names.
#[derive(Debug, Clone, Copy, PartialEq, Eq, Structural)]
pub enum Named {
    Attribute,
    Property,
    CssProperty,
}

/// Whether `found` may say if what an element has by a name matches.
pub open spec fn named_matches<D: Driver>(
    named: Named,
    e: WebElement<D>,
    item: (String, Needle),
    found: WebDriverResult<bool>,
) -> bool {
    match named {
        Named::Attribute => exists|text: WebDriverResult<Option<String>>| #[trigger]
            e.has_attribute(item.0@, text) && opt_match(item.1, text, found),
        Named::Property => exists|text: WebDriverResult<Option<String>>| #[trigger]
            e.has_property(item.0@, text) && opt_match(item.1, text, found),
        Named::CssProperty => exists|text: WebDriverResult<String>| #[trigger]
            e.has_css_property(item.0@, text) && text_match(item.1, text, found),
    }
}

/// Says whether what an element has by a name matches.
fn match_named<D: Driver>(named: Named, e: &WebElement<D>, item: &(String, Needle)) -> (found:
    WebDriverResult<bool>)
    ensures
        named_matches(named, *e, *item, found),
{
    let name: &str = item.0.as_str();
    match named {
        Named::Attribute => match_opt(&item.1, e.get_attribute(name)),
        Named::Property => match_opt(&item.1, e.get_property(name)),
        Named::CssProperty => match_text(&item.1, e.get_css_property(name)),
    }
}

/// Whether `r` may be the verdict on the items from `i` on: each must match, or must not, as is
/// wanted, and they are looked at in turn until one does not comply.
pub open spec fn list_verdict<D: Driver>(
    named: Named,
    e: WebElement<D>,
    items: Seq<(String, Needle)>,
    i: nat,
    wanted: bool,
    ignore_errors: bool,
    r: WebDriverResult<bool>,
) -> bool
    decreases items.len() - i,
{
    if i >= items.len() {
        r == Ok::<bool, WebDriverError>(true)
    } else {
        exists|found: WebDriverResult<bool>| #[trigger]
            named_matches(named, e, items[i as int], found) && match found {
                Err(f) => failed(f, ignore_errors, r),
                Ok(b) => if b == wanted {
                    list_verdict(named, e, items, i + 1, wanted, ignore_errors, r)
                } else {
                    r == Ok::<bool, WebDriverError>(false)
                },
            }
    }
}

/// The verdict on a list of items.
fn judge_list<D: Driver>(
    named: Named,
    e: &WebElement<D>,
    items: &Vec<(String, Needle)>,
    wanted: bool,
    ignore_errors: bool,
) -> (r: WebDriverResult<bool>)
    ensures
        list_verdict(named, *e, items@, 0, wanted, ignore_errors, r),
{
    let mut i: usize = 0;
    while i < items.len()
        invariant
            i <= items.len(),
            forall|q: WebDriverResult<bool>| #[trigger]
                list_verdict(named, *e, items@, i as nat, wanted, ignore_errors, q)
                    ==> list_verdict(named, *e, items@, 0, wanted, ignore_errors, q),
        decreases items.len() - i,
    {
        let found: WebDriverResult<bool> = match_named(named, e, &items[i]);
        let ghost gfound = found;
        assert(named_matches(named, *e, items@[i as int], gfound));
        match found {
            Err(f) => {
                let r: WebDriverResult<bool> = handle_errors(Err(f), ignore_errors);
                assert(list_verdict(named, *e, items@, i as nat, wanted, ignore_errors, r));
                return r;
            },
            Ok(b) => if b != wanted {
                assert(list_verdict(
                    named,
                    *e,
                    items@,
                    i as nat,
                    wanted,
                    ignore_errors,
                    Ok(false),
                ));
                return Ok(false);
            },
        }
        let ghost k = i;
        i = i + 1;
        proof {
            assert forall|q: WebDriverResult<bool>| #[trigger]
                list_verdict(
                    named,
                    *e,
                    items@,
                    i as nat,
                    wanted,
                    ignore_errors,
                    q,
                ) implies list_verdict(named, *e, items@, 0, wanted, ignore_errors, q) by {
                assert(list_verdict(named, *e, items@, k as nat, wanted, ignore_errors, q));
            }
        }
    }
    assert(list_verdict(named, *e, items@, i as nat, wanted, ignore_errors, Ok(true)));
    Ok(true)
}

/// Where errors are ignored, the verdict on a list of items is no error.
proof fn lemma_list_ignored<D: Driver>(
    named: Named,
    e: WebElement<D>,
    items: Seq<(String, Needle)>,
    i: nat,
    wanted: bool,
    r: WebDriverResult<bool>,
)
    requires
        list_verdict(named, e, items, i, wanted, true, r),
    ensures
        r is Ok,
    decreases items.len() - i,
{
    if i < items.len() {
        let found = choose|found: WebDriverResult<bool>| #[trigger]
            named_matches(named, e, items[i as int], found) && match found {
                Err(f) => failed(f, true, r),
                Ok(b) => if b == wanted {
                    list_verdict(named, e, items, i + 1, wanted, true, r)
                } else {
                    r == Ok::<bool, WebDriverError>(false)
                },
            };
        if found == Ok::<bool, WebDriverError>(wanted) {
            lemma_list_ignored(named, e, items, i + 1, wanted, r);
        }
    }
}

/// Whether `answer` may say if the element has the truth value.
pub open spec fn flag_answer<D: Driver>(
    flag: Flag,
    e: WebElement<D>,
    answer: WebDriverResult<bool>,
) -> bool {
    match flag {
        Flag::Enabled => driver::answers(
            *e.session,
            CommandView::IsElementEnabled(e.element_id@),
            answer,
        ),
        Flag::Selected => driver::answers(
            *e.session,
            CommandView::IsElementSelected(e.element_id@),
            answer,
        ),
        Flag::Displayed => driver::answers(
            *e.session,
            CommandView::IsElementDisplayed(e.element_id@),
            answer,
        ),
        Flag::Clickable => e.clickable(answer),
    }
}

/// Whether `answer` may say if what is looked at, other than a list, matches.
pub open spec fn single_answer<D: Driver>(
    probe: Probe,
    e: WebElement<D>,
    answer: WebDriverResult<bool>,
) -> bool {
    match probe {
        Probe::Flag(flag) => flag_answer(flag, e, answer),
        Probe::Text(needle) => exists|text: WebDriverResult<String>| #[trigger]
            driver::answers(*e.session, CommandView::GetElementText(e.element_id@), text)
                && text_match(needle, text, answer),
        Probe::Tag(needle) => exists|text: WebDriverResult<String>| #[trigger]
            driver::answers(*e.session, CommandView::GetElementTagName(e.element_id@), text)
                && text_match(needle, text, answer),
        Probe::Id(needle) => exists|text: WebDriverResult<Option<String>>| #[trigger]
            e.has_attribute("id"@, text) && opt_match(needle, text, answer),
        Probe::Class(needle) => exists|text: WebDriverResult<Option<String>>| #[trigger]
            e.has_attribute("class"@, text) && opt_match(needle, text, answer),
        Probe::Value(needle) => exists|text: WebDriverResult<Option<String>>| #[trigger]
            e.has_attribute("value"@, text) && opt_match(needle, text, answer),
        _ => false,
    }
}

impl Condition {
    /// Whether `r` may say if the condition holds for an element.
    pub open spec fn decides<D: Driver>(&self, e: WebElement<D>, r: WebDriverResult<bool>) -> bool {
        match self.probe {
            Probe::Attributes(items) => list_verdict(
                Named::Attribute,
                e,
                items@,
                0,
                self.wanted,
                self.ignore_errors,
                r,
            ),
            Probe::Properties(items) => list_verdict(
                Named::Property,
                e,
                items@,
                0,
                self.wanted,
                self.ignore_errors,
                r,
            ),
            Probe::CssProperties(items) => list_verdict(
                Named::CssProperty,
                e,
                items@,
                0,
                self.wanted,
                self.ignore_errors,
                r,
            ),
            _ => exists|answer: WebDriverResult<bool>| #[trigger]
                single_answer(self.probe, e, answer) && verdict(
                    answer,
                    self.wanted,
                    self.ignore_errors,
                    r,
                ),
        }
    }

    /// Says whether the condition holds for an element.
    pub fn check<D: Driver>(&self, e: &WebElement<D>) -> (r: WebDriverResult<bool>)
        ensures
            self.decides(*e, r),
    {
        let answer: WebDriverResult<bool> = match &self.probe {
            Probe::Attributes(items) => return judge_list(
                Named::Attribute,
                e,
                items,
                self.wanted,
                self.ignore_errors,
            ),
            Probe::Properties(items) => return judge_list(
                Named::Property,
                e,
                items,
                self.wanted,
                self.ignore_errors,
            ),
            Probe::CssProperties(items) => return judge_list(
                Named::CssProperty,
                e,
                items,
                self.wanted,
                self.ignore_errors,
            ),
            Probe::Flag(Flag::Enabled) => e.is_enabled(),
            Probe::Flag(Flag::Selected) => e.is_selected(),
            Probe::Flag(Flag::Displayed) => e.is_displayed(),
            Probe::Flag(Flag::Clickable) => e.is_clickable(),
            Probe::Text(needle) => match_text(needle, e.text()),
            Probe::Tag(needle) => match_text(needle, e.tag_name()),
            Probe::Id(needle) => match_opt(needle, e.id()),
            Probe::Class(needle) => match_opt(needle, e.class_name()),
            Probe::Value(needle) => match_opt(needle, e.value()),
        };
        assert(single_answer(self.probe, *e, answer));
        judge(answer, self.wanted, self.ignore_errors)
    }
}

/// A condition that ignores errors never fails.
pub proof fn lemma_ignored_errors<D: Driver>(
    condition: Condition,
    e: WebElement<D>,
    r: WebDriverResult<bool>,
)
    requires
        condition.ignore_errors,
        condition.decides(e, r),
    ensures
        r is Ok,
{
    match condition.probe {
        Probe::Attributes(items) => lemma_list_ignored(Named::Attribute, e, items@, 0, condition.wanted, r),
        Probe::Properties(items) => lemma_list_ignored(Named::Property, e, items@, 0, condition.wanted, r),
        Probe::CssProperties(items) => lemma_list_ignored(
            Named::CssProperty,
            e,
            items@,
            0,
            condition.wanted,
            r,
        ),
        _ => {},
    }
}

/// Where the page answers, a condition holds where its opposite does not, and the other way
/// round.
pub proof fn lemma_opposites(
    answer: WebDriverResult<bool>,
    ignore_errors: bool,
    holds: WebDriverResult<bool>,
    opposite: WebDriverResult<bool>,
)
    requires
        answer is Ok,
        verdict(answer, true, ignore_errors, holds),
        verdict(answer, false, ignore_errors, opposite),
    ensures
        holds is Ok,
        opposite is Ok,
        holds->Ok_0 == !opposite->Ok_0,
{
}

/// Predicate that returns true for elements that are enabled.
pub fn element_is_enabled(ignore_errors: bool) -> (r: Condition)
    ensures
        r == (Condition { probe: Probe::Flag(Flag::Enabled), wanted: true, ignore_errors }),
{
    Condition { probe: Probe::Flag(Flag::Enabled), wanted: true, ignore_errors }
}

/// Predicate that returns true for elements that are not enabled.
pub fn element_is_not_enabled(ignore_errors: bool) -> (r: Condition)
    ensures
        r == (Condition { probe: Probe::Flag(Flag::Enabled), wanted: false, ignore_errors }),
{
    Condition { probe: Probe::Flag(Flag::Enabled), wanted: false, ignore_errors }
}

/// Predicate that returns true for elements that are selected.
pub fn element_is_selected(ignore_errors: bool) -> (r: Condition)
    ensures
        r == (Condition { probe: Probe::Flag(Flag::Selected), wanted: true, ignore_errors }),
{
    Condition { probe: Probe::Flag(Flag::Selected), wanted: true, ignore_errors }
}

/// Predicate that returns true for elements that are not selected.
pub fn element_is_not_selected(ignore_errors: bool) -> (r: Condition)
    ensures
        r == (Condition { probe: Probe::Flag(Flag::Selected), wanted: false, ignore_errors }),
{
    Condition { probe: Probe::Flag(Flag::Selected), wanted: false, ignore_errors }
}

/// Predicate that returns true for elements that are displayed.
pub fn element_is_displayed(ignore_errors: bool) -> (r: Condition)
    ensures
        r == (Condition { probe: Probe::Flag(Flag::Displayed), wanted: true, ignore_errors }),
{
    Condition { probe: Probe::Flag(Flag::Displayed), wanted: true, ignore_errors }
}

/// Predicate that returns true for elements that are not displayed.
pub fn element_is_not_displayed(ignore_errors: bool) -> (r: Condition)
    ensures
        r == (Condition { probe: Probe::Flag(Flag::Displayed), wanted: false, ignore_errors }),
{
    Condition { probe: Probe::Flag(Flag::Displayed), wanted: false, ignore_errors }
}

/// Predicate that returns true for elements that are clickable.
pub fn element_is_clickable(ignore_errors: bool) -> (r: Condition)
    ensures
        r == (Condition { probe: Probe::Flag(Flag::Clickable), wanted: true, ignore_errors }),
{
    Condition { probe: Probe::Flag(Flag::Clickable), wanted: true, ignore_errors }
}

/// Predicate that returns true for elements that are not clickable.
pub fn element_is_not_clickable(ignore_errors: bool) -> (r: Condition)
    ensures
        r == (Condition { probe: Probe::Flag(Flag::Clickable), wanted: false, ignore_errors }),
{
    Condition { probe: Probe::Flag(Flag::Clickable), wanted: false, ignore_errors }
}

/// Predicate that returns true for elements that have the specified class name.
pub fn element_has_class<N: IntoNeedle>(class: N, ignore_errors: bool) -> (r: Condition)
    ensures
        r.wanted == true,
        r.ignore_errors == ignore_errors,
        r.probe matches Probe::Class(n) && forall|h: Seq<char>| #[trigger]
            n.matches_text(h) == class.matches_with(h),
{
    Condition { probe: Probe::Class(class.into_needle()), wanted: true, ignore_errors }
}

/// Predicate that returns true for elements that do not have the specified class name.
pub fn element_lacks_class<N: IntoNeedle>(class: N, ignore_errors: bool) -> (r: Condition)
    ensures
        r.wanted == false,
        r.ignore_errors == ignore_errors,
        r.probe matches Probe::Class(n) && forall|h: Seq<char>| #[trigger]
            n.matches_text(h) == class.matches_with(h),
{
    Condition { probe: Probe::Class(class.into_needle()), wanted: false, ignore_errors }
}

/// Predicate that returns true for elements that have the specified text.
pub fn element_has_text<N: IntoNeedle>(text: N, ignore_errors: bool) -> (r: Condition)
    ensures
        r.wanted == true,
        r.ignore_errors == ignore_errors,
        r.probe matches Probe::Text(n) && forall|h: Seq<char>| #[trigger]
            n.matches_text(h) == text.matches_with(h),
{
    Condition { probe: Probe::Text(text.into_needle()), wanted: true, ignore_errors }
}

/// Predicate that returns true for elements that do not have the specified text.
pub fn element_lacks_text<N: IntoNeedle>(text: N, ignore_errors: bool) -> (r: Condition)
    ensures
        r.wanted == false,
        r.ignore_errors == ignore_errors,
        r.probe matches Probe::Text(n) && forall|h: Seq<char>| #[trigger]
            n.matches_text(h) == text.matches_with(h),
{
    Condition { probe: Probe::Text(text.into_needle()), wanted: false, ignore_errors }
}

/// Predicate that returns true for elements that have the specified value.
pub fn element_has_value<N: IntoNeedle>(value: N, ignore_errors: bool) -> (r: Condition)
    ensures
        r.wanted == true,
        r.ignore_errors == ignore_errors,
        r.probe matches Probe::Value(n) && forall|h: Seq<char>| #[trigger]
            n.matches_text(h) == value.matches_with(h),
{
    Condition { probe: Probe::Value(value.into_needle()), wanted: true, ignore_errors }
}

/// Predicate that returns true for elements that do not have the specified value.
pub fn element_lacks_value<N: IntoNeedle>(value: N, ignore_errors: bool) -> (r: Condition)
    ensures
        r.wanted == false,
        r.ignore_errors == ignore_errors,
        r.probe matches Probe::Value(n) && forall|h: Seq<char>| #[trigger]
            n.matches_text(h) == value.matches_with(h),
{
    Condition { probe: Probe::Value(value.into_needle()), wanted: false, ignore_errors }
}

/// Predicate that returns true for elements that have the specified id.
pub fn element_has_id<N: IntoNeedle>(id: N, ignore_errors: bool) -> (r: Condition)
    ensures
        r.wanted == true,
        r.ignore_errors == ignore_errors,
        r.probe matches Probe::Id(n) && forall|h: Seq<char>| #[trigger]
            n.matches_text(h) == id.matches_with(h),
{
    Condition { probe: Probe::Id(id.into_needle()), wanted: true, ignore_errors }
}

/// Predicate that returns true for elements that do not have the specified id.
pub fn element_lacks_id<N: IntoNeedle>(id: N, ignore_errors: bool) -> (r: Condition)
    ensures
        r.wanted == false,
        r.ignore_errors == ignore_errors,
        r.probe matches Probe::Id(n) && forall|h: Seq<char>| #[trigger]
            n.matches_text(h) == id.matches_with(h),
{
    Condition { probe: Probe::Id(id.into_needle()), wanted: false, ignore_errors }
}

/// Predicate that returns true for elements that have the specified tag.
pub fn element_has_tag<N: IntoNeedle>(tag: N, ignore_errors: bool) -> (r: Condition)
    ensures
        r.wanted == true,
        r.ignore_errors == ignore_errors,
        r.probe matches Probe::Tag(n) && forall|h: Seq<char>| #[trigger]
            n.matches_text(h) == tag.matches_with(h),
{
    Condition { probe: Probe::Tag(tag.into_needle()), wanted: true, ignore_errors }
}

/// Predicate that returns true for elements that do not have the specified tag.
pub fn element_lacks_tag<N: IntoNeedle>(tag: N, ignore_errors: bool) -> (r: Condition)
    ensures
        r.wanted == false,
        r.ignore_errors == ignore_errors,
        r.probe matches Probe::Tag(n) && forall|h: Seq<char>| #[trigger]
            n.matches_text(h) == tag.matches_with(h),
{
    Condition { probe: Probe::Tag(tag.into_needle()), wanted: false, ignore_errors }
}

/// Predicate that returns true for elements that have the specified attribute with the specified
/// value.
pub fn element_has_attribute<S: IntoArcStr, N: IntoNeedle>(
    name: S,
    value: N,
    ignore_errors: bool,
) -> (r: Condition)
    ensures
        r.wanted == true,
        r.ignore_errors == ignore_errors,
        r.probe matches Probe::Attributes(items) && items.len() == 1 && items[0].0@ == name.text()
            && forall|h: Seq<char>| #[trigger]
            items[0].1.matches_text(h) == value.matches_with(h),
{
    let mut items: Vec<(String, Needle)> = Vec::new();
    items.push((IntoTransfer::into(name), value.into_needle()));
    Condition { probe: Probe::Attributes(items), wanted: true, ignore_errors }
}

/// Predicate that returns true for elements that have all the specified attributes with the
/// specified values.
pub fn element_has_attributes(desired: Vec<(String, Needle)>, ignore_errors: bool) -> (r: Condition)
    ensures
        r == (Condition { probe: Probe::Attributes(desired), wanted: true, ignore_errors }),
{
    Condition { probe: Probe::Attributes(desired), wanted: true, ignore_errors }
}

/// Predicate that returns true for elements that do not have the specified attribute with the specified
/// value.
pub fn element_lacks_attribute<S: IntoArcStr, N: IntoNeedle>(
    name: S,
    value: N,
    ignore_errors: bool,
) -> (r: Condition)
    ensures
        r.wanted == false,
        r.ignore_errors == ignore_errors,
        r.probe matches Probe::Attributes(items) && items.len() == 1 && items[0].0@ == name.text()
            && forall|h: Seq<char>| #[trigger]
            items[0].1.matches_text(h) == value.matches_with(h),
{
    let mut items: Vec<(String, Needle)> = Vec::new();
    items.push((IntoTransfer::into(name), value.into_needle()));
    Condition { probe: Probe::Attributes(items), wanted: false, ignore_errors }
}

/// Predicate that returns true for elements that do not have any of the specified attributes with the
/// specified values.
pub fn element_lacks_attributes(desired: Vec<(String, Needle)>, ignore_errors: bool) -> (r: Condition)
    ensures
        r == (Condition { probe: Probe::Attributes(desired), wanted: false, ignore_errors }),
{
    Condition { probe: Probe::Attributes(desired), wanted: false, ignore_errors }
}

/// Predicate that returns true for elements that have the specified property with the specified
/// value.
pub fn element_has_property<S: IntoArcStr, N: IntoNeedle>(
    name: S,
    value: N,
    ignore_errors: bool,
) -> (r: Condition)
    ensures
        r.wanted == true,
        r.ignore_errors == ignore_errors,
        r.probe matches Probe::Properties(items) && items.len() == 1 && items[0].0@ == name.text()
            && forall|h: Seq<char>| #[trigger]
            items[0].1.matches_text(h) == value.matches_with(h),
{
    let mut items: Vec<(String, Needle)> = Vec::new();
    items.push((IntoTransfer::into(name), value.into_needle()));
    Condition { probe: Probe::Properties(items), wanted: true, ignore_errors }
}

/// Predicate that returns true for elements that have all the specified properties with the
/// specified values.
pub fn element_has_properties(desired: Vec<(String, Needle)>, ignore_errors: bool) -> (r: Condition)
    ensures
        r == (Condition { probe: Probe::Properties(desired), wanted: true, ignore_errors }),
{
    Condition { probe: Probe::Properties(desired), wanted: true, ignore_errors }
}

/// Predicate that returns true for elements that do not have the specified property with the specified
/// value.
pub fn element_lacks_property<S: IntoArcStr, N: IntoNeedle>(
    name: S,
    value: N,
    ignore_errors: bool,
) -> (r: Condition)
    ensures
        r.wanted == false,
        r.ignore_errors == ignore_errors,
        r.probe matches Probe::Properties(items) && items.len() == 1 && items[0].0@ == name.text()
            && forall|h: Seq<char>| #[trigger]
            items[0].1.matches_text(h) == value.matches_with(h),
{
    let mut items: Vec<(String, Needle)> = Vec::new();
    items.push((IntoTransfer::into(name), value.into_needle()));
    Condition { probe: Probe::Properties(items), wanted: false, ignore_errors }
}

/// Predicate that returns true for elements that do not have any of the specified properties with the
/// specified values.
pub fn element_lacks_properties(desired: Vec<(String, Needle)>, ignore_errors: bool) -> (r: Condition)
    ensures
        r == (Condition { probe: Probe::Properties(desired), wanted: false, ignore_errors }),
{
    Condition { probe: Probe::Properties(desired), wanted: false, ignore_errors }
}

/// Predicate that returns true for elements that have the specified CSS property with the specified
/// value.
pub fn element_has_css_property<S: IntoArcStr, N: IntoNeedle>(
    name: S,
    value: N,
    ignore_errors: bool,
) -> (r: Condition)
    ensures
        r.wanted == true,
        r.ignore_errors == ignore_errors,
        r.probe matches Probe::CssProperties(items) && items.len() == 1 && items[0].0@ == name.text()
            && forall|h: Seq<char>| #[trigger]
            items[0].1.matches_text(h) == value.matches_with(h),
{
    let mut items: Vec<(String, Needle)> = Vec::new();
    items.push((IntoTransfer::into(name), value.into_needle()));
    Condition { probe: Probe::CssProperties(items), wanted: true, ignore_errors }
}

/// Predicate that returns true for elements that have all the specified CSS properties with the
/// specified values.
pub fn element_has_css_properties(desired: Vec<(String, Needle)>, ignore_errors: bool) -> (r: Condition)
    ensures
        r == (Condition { probe: Probe::CssProperties(desired), wanted: true, ignore_errors }),
{
    Condition { probe: Probe::CssProperties(desired), wanted: true, ignore_errors }
}

/// Predicate that returns true for elements that do not have the specified CSS property with the specified
/// value.
pub fn element_lacks_css_property<S: IntoArcStr, N: IntoNeedle>(
    name: S,
    value: N,
    ignore_errors: bool,
) -> (r: Condition)
    ensures
        r.wanted == false,
        r.ignore_errors == ignore_errors,
        r.probe matches Probe::CssProperties(items) && items.len() == 1 && items[0].0@ == name.text()
            && forall|h: Seq<char>| #[trigger]
            items[0].1.matches_text(h) == value.matches_with(h),
{
    let mut items: Vec<(String, Needle)> = Vec::new();
    items.push((IntoTransfer::into(name), value.into_needle()));
    Condition { probe: Probe::CssProperties(items), wanted: false, ignore_errors }
}

/// Predicate that returns true for elements that do not have any of the specified CSS properties with the
/// specified values.
pub fn element_lacks_css_properties(desired: Vec<(String, Needle)>, ignore_errors: bool) -> (r: Condition)
    ensures
        r == (Condition { probe: Probe::CssProperties(desired), wanted: false, ignore_errors }),
{
    Condition { probe: Probe::CssProperties(desired), wanted: false, ignore_errors }
}

} // verus!
