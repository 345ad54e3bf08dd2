//! Elements of a page.
use crate::command::{By, Command, CommandView};
use crate::driver;
use crate::driver::{read_command, run_command, Driver};
use crate::error::{WebDriverError, WebDriverErrorInner, WebDriverResult};
use crate::http;
use crate::http::{decode_error, CmdResponse};
use crate::json;
use crate::json::{Json, JsonValue};
use crate::keys::{IntoTyping, TypingData};
use crate::reply;
use crate::reply::{convert_json, data_of, read_reply, reply_value};
use crate::text::cat5;
use crate::types;
use crate::types::{ElementId, ElementRef, MAGIC_ELEMENTID};
use crate::wire;
use vstd::prelude::*;

verus! {

/// An element of a page, in a session.
#[derive(Debug)]
pub struct WebElement<'a, D> {
    pub element_id: ElementId,
    pub session: &'a D,
}

/// Whether `w` is the element of the session with an id.
pub open spec fn is_element<D>(w: WebElement<D>, d: D, id: Seq<char>) -> bool {
    w.element_id@ == id && *w.session == d
}

/// Whether `r` is the element that a value refers to.
pub open spec fn element_result<D>(d: D, v: Json, r: WebDriverResult<WebElement<D>>) -> bool {
    match types::element_ref_of(v) {
        Some(e) => r matches Ok(w) && is_element(w, d, e.id()),
        None => r matches Err(e) && http::is_json_error(e, http::decode_message("an element"@)),
    }
}

/// Whether a value is a list of references to elements.
pub open spec fn refers_to_elements(v: Json) -> bool {
    v matches Json::Arr(items) && forall|i: int|
        0 <= i < items.len() ==> types::element_ref_of(#[trigger] items[i]) is Some
}

/// Whether `r` is the elements that a value refers to.
pub open spec fn elements_result<D>(d: D, v: Json, r: WebDriverResult<Vec<WebElement<D>>>) -> bool {
    if refers_to_elements(v) {
        r matches Ok(w) && v matches Json::Arr(items) && w.len() == items.len() && forall|i: int|
            0 <= i < items.len() ==> is_element(
                #[trigger] w[i],
                d,
                types::element_ref_of(items[i])->0.id(),
            )
    } else {
        r matches Err(e) && http::is_json_error(e, http::decode_message("a list"@))
    }
}

/// Whether `r` may be the element that is found by the command.
pub open spec fn finds<D: Driver>(
    d: D,
    command: CommandView,
    r: WebDriverResult<WebElement<D>>,
) -> bool {
    exists|reply: WebDriverResult<JsonValue>| #[trigger]
        d.may_answer(command, reply) && match reply {
            Err(e) => r == Err::<WebElement<D>, WebDriverError>(e),
            Ok(body) => match json::member(body@, "value"@) {
                Some(v) => element_result(d, v, r),
                None => r matches Err(e) && http::is_json_error(e, "Unexpected response body"@),
            },
        }
}

/// Whether `r` may be the elements that are found by the command.
pub open spec fn finds_all<D: Driver>(
    d: D,
    command: CommandView,
    r: WebDriverResult<Vec<WebElement<D>>>,
) -> bool {
    exists|reply: WebDriverResult<JsonValue>| #[trigger]
        d.may_answer(command, reply) && match reply {
            Err(e) => r == Err::<Vec<WebElement<D>>, WebDriverError>(e),
            Ok(body) => match json::member(body@, "value"@) {
                Some(v) => elements_result(d, v, r),
                None => r matches Err(e) && http::is_json_error(e, "Unexpected response body"@),
            },
        }
}

/// The element that a value refers to.
pub fn unwrap_element_sync<'a, D>(session: &'a D, value: &JsonValue) -> (r: WebDriverResult<
    WebElement<'a, D>,
>)
    ensures
        element_result(*session, value@, r),
{
    match ElementRef::from_json(value) {
        Some(e) => Ok(WebElement::new(session, ElementId::from(e.id()))),
        None => Err(decode_error("an element")),
    }
}

/// The elements that a value refers to.
pub fn unwrap_elements_sync<'a, D>(session: &'a D, value: &JsonValue) -> (r: WebDriverResult<
    Vec<WebElement<'a, D>>,
>)
    ensures
        elements_result(*session, value@, r),
{
    let refs: Vec<ElementRef> = match convert_json(value) {
        Ok(refs) => refs,
        Err(e) => return Err(e),
    };
    let mut r: Vec<WebElement<'a, D>> = Vec::new();
    let mut i: usize = 0;
    while i < refs.len()
        invariant
            i <= refs.len(),
            r.len() == i,
            forall|j: int| 0 <= j < i ==> is_element(#[trigger] r@[j], *session, refs@[j]@.id()),
        decreases refs.len() - i,
    {
        r.push(WebElement::new(session, ElementId::from(refs[i].id())));
        i = i + 1;
    }
    proof {
        let items = value@->Arr_0;
        assert forall|i: int| 0 <= i < items.len() implies is_element(
            #[trigger] r@[i],
            *session,
            types::element_ref_of(items[i])->0.id(),
        ) by {
            let x = refs@[i];
        }
    }
    Ok(r)
}

/// The element that the command finds.
pub fn find_command<'a, D: Driver>(d: &'a D, command: Command) -> (r: WebDriverResult<
    WebElement<'a, D>,
>)
    ensures
        finds(*d, command@, r),
{
    let reply: WebDriverResult<JsonValue> = d.cmd(command);
    match read_reply::<JsonValue>(reply) {
        Ok(v) => unwrap_element_sync(d, &v),
        Err(e) => Err(e),
    }
}

/// The elements that the command finds.
pub fn find_all_command<'a, D: Driver>(d: &'a D, command: Command) -> (r: WebDriverResult<
    Vec<WebElement<'a, D>>,
>)
    ensures
        finds_all(*d, command@, r),
{
    let reply: WebDriverResult<JsonValue> = d.cmd(command);
    match read_reply::<JsonValue>(reply) {
        Ok(v) => unwrap_elements_sync(d, &v),
        Err(e) => Err(e),
    }
}

impl CmdResponse {
    /// The element that the response refers to.
    pub fn element<'a, D>(self, handle: &'a D) -> (r: WebDriverResult<WebElement<'a, D>>)
        ensures
            match json::member(self.body@, "value"@) {
                Some(v) => element_result(*handle, v, r),
                None => r matches Err(e) && http::is_json_error(e, "Unexpected response body"@),
            },
    {
        match self.value_json() {
            Ok(v) => unwrap_element_sync(handle, &v),
            Err(e) => Err(e),
        }
    }

    /// The elements that the response refers to.
    pub fn elements<'a, D>(self, handle: &'a D) -> (r: WebDriverResult<Vec<WebElement<'a, D>>>)
        ensures
            match json::member(self.body@, "value"@) {
                Some(v) => elements_result(*handle, v, r),
                None => r matches Err(e) && http::is_json_error(e, "Unexpected response body"@),
            },
    {
        match self.value_json() {
            Ok(v) => unwrap_elements_sync(handle, &v),
            Err(e) => Err(e),
        }
    }
}

impl<'a, D> WebElement<'a, D> {
    /// Create a new WebElement struct.
    pub fn new(session: &'a D, element_id: ElementId) -> (r: Self)
        ensures
            r.element_id == element_id,
            *r.session == *session,
    {
        WebElement { element_id, session }
    }

    /// The reference to the element: what stands for it in the arguments of a script.
    pub fn to_json(&self) -> (r: JsonValue)
        ensures
            r@ == types::json_of_element_ref(types::ElementRefView::Element(self.element_id@)),
    {
        JsonValue::object1(MAGIC_ELEMENTID, JsonValue::text(self.element_id.as_str()))
    }
}

impl<'a, D> Clone for WebElement<'a, D> {
    fn clone(&self) -> (r: Self)
        ensures
            r == *self,
    {
        WebElement { element_id: self.element_id.clone(), session: self.session }
    }
}

/// What a property is read as: nothing where it is `null`, its text where it is not a text.
pub open spec fn property_text(v: Json) -> Option<Seq<char>> {
    match v {
        Json::Null => None,
        Json::Str(s) => Some(s),
        _ => Some(wire::text_of_json(wire::settled(v))),
    }
}

/// Reads a property.
pub fn property_of(v: &JsonValue) -> (r: Option<String>)
    ensures
        crate::text::opt_text(r) == property_text(v@),
{
    if v.is_null() {
        None
    } else {
        match v.as_str() {
            Some(s) => Some(s.to_owned()),
            None => Some(v.to_text()),
        }
    }
}

/// What an attribute is read as: nothing where it is not a text.
pub open spec fn attribute_of(v: Json) -> Option<Seq<char>> {
    match v {
        Json::Str(s) => Some(s),
        _ => None,
    }
}

/// A text, or the empty text where there is none.
pub open spec fn or_empty(s: Option<Seq<char>>) -> Seq<char> {
    match s {
        Some(s) => s,
        None => Seq::empty(),
    }
}

/// A text, or the empty text where there is none.
pub fn text_or_empty(s: Option<String>) -> (r: String)
    ensures
        r@ == or_empty(crate::text::opt_text(s)),
{
    match s {
        Some(s) => s,
        None => String::new(),
    }
}

/// What an element is called in messages.
pub open spec fn element_shown(session: Seq<char>, element: Seq<char>) -> Seq<char> {
    "(session=\""@ + session + "\", element=\""@ + element + "\")"@
}

/// Whether there is an element, going by what its tag name came to: the error that there is no
/// such element, or that it is stale, says that there is none.
pub open spec fn presence(tag: WebDriverResult<String>, r: WebDriverResult<bool>) -> bool {
    match tag {
        Ok(_) => r == Ok::<bool, WebDriverError>(true),
        Err(e) => if e@ is NoSuchElement || e@ is StaleElementReference {
            r == Ok::<bool, WebDriverError>(false)
        } else {
            r == Err::<bool, WebDriverError>(e)
        },
    }
}

/// Says whether there is an element, going by what its tag name came to.
pub fn presence_of(tag: WebDriverResult<String>) -> (r: WebDriverResult<bool>)
    ensures
        presence(tag, r),
{
    match tag {
        Ok(_) => Ok(true),
        Err(e) => {
            let gone: bool = match e.as_inner() {
                WebDriverErrorInner::NoSuchElement(_) => true,
                WebDriverErrorInner::StaleElementReference(_) => true,
                _ => false,
            };
            if gone {
                Ok(false)
            } else {
                Err(e)
            }
        },
    }
}

impl<'a, D: Driver> WebElement<'a, D> {
    /// Whether `r` may be what a property of the element is read as.
    pub open spec fn has_property(&self, name: Seq<char>, r: WebDriverResult<Option<String>>) -> bool {
        exists|reply: WebDriverResult<JsonValue>| #[trigger]
            self.session.may_answer(
                CommandView::GetElementProperty(self.element_id@, name),
                reply,
            ) && match reply {
                Err(e) => r == Err::<Option<String>, WebDriverError>(e),
                Ok(body) => r matches Ok(p) && crate::text::opt_text(p) == property_text(
                    reply::value_of(body@),
                ),
            }
    }

    /// Whether `r` may be what an attribute of the element is read as.
    pub open spec fn has_attribute(&self, name: Seq<char>, r: WebDriverResult<Option<String>>) -> bool {
        exists|reply: WebDriverResult<JsonValue>| #[trigger]
            self.session.may_answer(
                CommandView::GetElementAttribute(self.element_id@, name),
                reply,
            ) && match reply {
                Err(e) => r == Err::<Option<String>, WebDriverError>(e),
                Ok(body) => r matches Ok(p) && crate::text::opt_text(p) == attribute_of(
                    reply::value_of(body@),
                ),
            }
    }

    /// Whether `r` may be what a CSS property of the element is read as.
    pub open spec fn has_css_property(&self, name: Seq<char>, r: WebDriverResult<String>) -> bool {
        exists|reply: WebDriverResult<JsonValue>| #[trigger]
            self.session.may_answer(
                CommandView::GetElementCssValue(self.element_id@, name),
                reply,
            ) && match reply {
                Err(e) => r == Err::<String, WebDriverError>(e),
                Ok(body) => r matches Ok(p) && p@ == or_empty(
                    attribute_of(reply::value_of(body@)),
                ),
            }
    }

    /// Whether `r` may say if the element is displayed and enabled; whether it is enabled is asked
    /// only where it is displayed.
    pub open spec fn clickable(&self, r: WebDriverResult<bool>) -> bool {
        exists|displayed: WebDriverResult<bool>| #[trigger]
            driver::answers(
                *self.session,
                CommandView::IsElementDisplayed(self.element_id@),
                displayed,
            ) && if displayed == Ok::<bool, WebDriverError>(true) {
                driver::answers(*self.session, CommandView::IsElementEnabled(self.element_id@), r)
            } else {
                r == displayed
            }
    }

    /// Whether `r` may say if the element is still there.
    pub open spec fn present(&self, r: WebDriverResult<bool>) -> bool {
        exists|tag: WebDriverResult<String>| #[trigger]
            driver::answers(*self.session, CommandView::GetElementTagName(self.element_id@), tag)
                && presence(tag, r)
    }

    /// Whether `r` may be the HTML of the element that a property holds.
    pub open spec fn has_html(&self, name: Seq<char>, r: WebDriverResult<String>) -> bool {
        exists|p: WebDriverResult<Option<String>>| #[trigger]
            self.has_property(name, p) && match p {
                Err(e) => r == Err::<String, WebDriverError>(e),
                Ok(h) => r matches Ok(t) && t@ == or_empty(crate::text::opt_text(h)),
            }
    }

    /// Whether `r` may be what a script with the element as its argument comes to.
    pub open spec fn scripted(&self, script: Seq<char>, r: WebDriverResult<()>) -> bool {
        driver::runs(
            *self.session,
            CommandView::ExecuteScript(
                script,
                seq![
                    types::json_of_element_ref(types::ElementRefView::Element(self.element_id@)),
                ],
            ),
            r,
        )
    }

    /// Runs a script with the element as its argument.
    fn run_script(&self, script: &str) -> (r: WebDriverResult<()>)
        ensures
            self.scripted(script@, r),
    {
        let mut args: Vec<JsonValue> = Vec::new();
        args.push(self.to_json());
        proof {
            json::lemma_items_view_push(Seq::empty(), args@[0]);
            assert(args@ == Seq::<JsonValue>::empty().push(args@[0]));
            assert(json::items_view(args@) == seq![
                types::json_of_element_ref(types::ElementRefView::Element(self.element_id@)),
            ]);
        }
        run_command(self.session, Command::ExecuteScript(script.to_owned(), args))
    }

    /// Get the bounding rectangle for this WebElement, as the server sends it.
    pub fn rect(&self) -> (r: WebDriverResult<JsonValue>)
        ensures
            driver::answers(*self.session, CommandView::GetElementRect(self.element_id@), r),
    {
        read_command(self.session, Command::GetElementRect(self.element_id.clone()))
    }

    /// Get the tag name for this WebElement.
    pub fn tag_name(&self) -> (r: WebDriverResult<String>)
        ensures
            driver::answers(*self.session, CommandView::GetElementTagName(self.element_id@), r),
    {
        read_command(self.session, Command::GetElementTagName(self.element_id.clone()))
    }

    /// Get the class name for this WebElement.
    pub fn class_name(&self) -> (r: WebDriverResult<Option<String>>)
        ensures
            self.has_attribute("class"@, r),
    {
        self.get_attribute("class")
    }

    /// Get the id for this WebElement.
    pub fn id(&self) -> (r: WebDriverResult<Option<String>>)
        ensures
            self.has_attribute("id"@, r),
    {
        self.get_attribute("id")
    }

    /// Get the text contents for this WebElement.
    pub fn text(&self) -> (r: WebDriverResult<String>)
        ensures
            driver::answers(*self.session, CommandView::GetElementText(self.element_id@), r),
    {
        read_command(self.session, Command::GetElementText(self.element_id.clone()))
    }

    /// Convenience method for getting the (optional) value attribute of this element.
    pub fn value(&self) -> (r: WebDriverResult<Option<String>>)
        ensures
            self.has_attribute("value"@, r),
    {
        self.get_attribute("value")
    }

    /// Click the WebElement.
    pub fn click(&self) -> (r: WebDriverResult<()>)
        ensures
            driver::runs(*self.session, CommandView::ElementClick(self.element_id@), r),
    {
        run_command(self.session, Command::ElementClick(self.element_id.clone()))
    }

    /// Clear the WebElement contents.
    pub fn clear(&self) -> (r: WebDriverResult<()>)
        ensures
            driver::runs(*self.session, CommandView::ElementClear(self.element_id@), r),
    {
        run_command(self.session, Command::ElementClear(self.element_id.clone()))
    }

    /// Get the specified property.
    pub fn get_property(&self, name: &str) -> (r: WebDriverResult<Option<String>>)
        ensures
            self.has_property(name@, r),
    {
        let reply: WebDriverResult<JsonValue> = self.session.cmd(
            Command::GetElementProperty(self.element_id.clone(), name.to_owned()),
        );
        match reply {
            Err(e) => Err(e),
            Ok(body) => {
                let v: JsonValue = reply_value(&body);
                Ok(property_of(&v))
            },
        }
    }

    /// Get the specified attribute.
    pub fn get_attribute(&self, name: &str) -> (r: WebDriverResult<Option<String>>)
        ensures
            self.has_attribute(name@, r),
    {
        let reply: WebDriverResult<JsonValue> = self.session.cmd(
            Command::GetElementAttribute(self.element_id.clone(), name.to_owned()),
        );
        match reply {
            Err(e) => Err(e),
            Ok(body) => {
                let v: JsonValue = reply_value(&body);
                match v.as_str() {
                    Some(s) => Ok(Some(s.to_owned())),
                    None => Ok(None),
                }
            },
        }
    }

    /// Get the specified CSS property.
    pub fn get_css_property(&self, name: &str) -> (r: WebDriverResult<String>)
        ensures
            self.has_css_property(name@, r),
    {
        let reply: WebDriverResult<JsonValue> = self.session.cmd(
            Command::GetElementCssValue(self.element_id.clone(), name.to_owned()),
        );
        match reply {
            Err(e) => Err(e),
            Ok(body) => {
                let v: JsonValue = reply_value(&body);
                match v.as_str() {
                    Some(s) => Ok(s.to_owned()),
                    None => Ok(String::new()),
                }
            },
        }
    }

    /// Return true if the WebElement is currently selected, otherwise false.
    pub fn is_selected(&self) -> (r: WebDriverResult<bool>)
        ensures
            driver::answers(*self.session, CommandView::IsElementSelected(self.element_id@), r),
    {
        read_command(self.session, Command::IsElementSelected(self.element_id.clone()))
    }

    /// Return true if the WebElement is currently displayed, otherwise false.
    pub fn is_displayed(&self) -> (r: WebDriverResult<bool>)
        ensures
            driver::answers(*self.session, CommandView::IsElementDisplayed(self.element_id@), r),
    {
        read_command(self.session, Command::IsElementDisplayed(self.element_id.clone()))
    }

    /// Return true if the WebElement is currently enabled, otherwise false.
    pub fn is_enabled(&self) -> (r: WebDriverResult<bool>)
        ensures
            driver::answers(*self.session, CommandView::IsElementEnabled(self.element_id@), r),
    {
        read_command(self.session, Command::IsElementEnabled(self.element_id.clone()))
    }

    /// Return true if the WebElement is currently clickable (visible and enabled), otherwise false.
    pub fn is_clickable(&self) -> (r: WebDriverResult<bool>)
        ensures
            self.clickable(r),
    {
        match self.is_displayed() {
            Ok(true) => self.is_enabled(),
            Ok(false) => Ok(false),
            Err(e) => Err(e),
        }
    }

    /// Return true if the WebElement is currently (still) present and not stale.
    pub fn is_present(&self) -> (r: WebDriverResult<bool>)
        ensures
            self.present(r),
    {
        presence_of(self.tag_name())
    }

    /// Search for a child element of this WebElement using the specified selector.
    pub fn find_element(&self, by: By) -> (r: WebDriverResult<WebElement<'a, D>>)
        ensures
            finds(
                *self.session,
                CommandView::FindElementFromElement(self.element_id@, by@.selector()),
                r,
            ),
    {
        find_command(
            self.session,
            Command::FindElementFromElement(self.element_id.clone(), by.into_selector()),
        )
    }

    /// Search for all child elements of this WebElement that match the specified selector.
    pub fn find_elements(&self, by: By) -> (r: WebDriverResult<Vec<WebElement<'a, D>>>)
        ensures
            finds_all(
                *self.session,
                CommandView::FindElementsFromElement(self.element_id@, by@.selector()),
                r,
            ),
    {
        find_all_command(
            self.session,
            Command::FindElementsFromElement(self.element_id.clone(), by.into_selector()),
        )
    }

    /// Send the specified input.
    pub fn send_keys<S: IntoTyping>(&self, keys: S) -> (r: WebDriverResult<()>)
        ensures
            driver::runs(
                *self.session,
                CommandView::ElementSendKeys(self.element_id@, keys.typed()),
                r,
            ),
    {
        run_command(
            self.session,
            Command::ElementSendKeys(self.element_id.clone(), TypingData::from(keys)),
        )
    }

    /// Take a screenshot of this WebElement and return it as a base64-encoded string.
    pub fn screenshot_as_base64(&self) -> (r: WebDriverResult<String>)
        ensures
            driver::answers(*self.session, CommandView::TakeElementScreenshot(self.element_id@), r),
    {
        read_command(self.session, Command::TakeElementScreenshot(self.element_id.clone()))
    }

    /// Take a screenshot of this WebElement and return it as PNG bytes.
    pub fn screenshot_as_png(&self) -> (r: WebDriverResult<Vec<u8>>)
        ensures
            exists|s: WebDriverResult<String>| #[trigger]
                driver::answers(
                    *self.session,
                    CommandView::TakeElementScreenshot(self.element_id@),
                    s,
                ) && reply::data_result(s, r),
    {
        data_of(self.screenshot_as_base64())
    }

    /// Focus this WebElement using JavaScript.
    pub fn focus(&self) -> (r: WebDriverResult<()>)
        ensures
            self.scripted("arguments[0].focus();"@, r),
    {
        self.run_script("arguments[0].focus();")
    }

    /// Scroll this element into view using JavaScript.
    pub fn scroll_into_view(&self) -> (r: WebDriverResult<()>)
        ensures
            self.scripted("arguments[0].scrollIntoView();"@, r),
    {
        self.run_script("arguments[0].scrollIntoView();")
    }

    /// Get the innerHtml property of this element.
    pub fn inner_html(&self) -> (r: WebDriverResult<String>)
        ensures
            self.has_html("innerHTML"@, r),
    {
        match self.get_property("innerHTML") {
            Ok(h) => Ok(text_or_empty(h)),
            Err(e) => Err(e),
        }
    }

    /// Get the outerHtml property of this element.
    pub fn outer_html(&self) -> (r: WebDriverResult<String>)
        ensures
            self.has_html("outerHTML"@, r),
    {
        match self.get_property("outerHTML") {
            Ok(h) => Ok(text_or_empty(h)),
            Err(e) => Err(e),
        }
    }

    /// Switch to the frame that this element is.
    pub fn enter_frame(self) -> (r: WebDriverResult<()>)
        ensures
            driver::runs(*self.session, CommandView::SwitchToFrameElement(self.element_id@), r),
    {
        run_command(self.session, Command::SwitchToFrameElement(self.element_id))
    }

    /// What the element is called in messages.
    pub fn to_text(&self) -> (r: String)
        ensures
            r@ == element_shown(self.session.id(), self.element_id@),
    {
        cat5(
            "(session=\"",
            self.session.session_id().as_str(),
            "\", element=\"",
            self.element_id.as_str(),
            "\")",
        )
    }
}

} // verus!
