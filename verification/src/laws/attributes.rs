//! What the tokens of an attribute are read from, and which of them go together.
use vstd::prelude::*;

use crate::bytoken::{ByToken, ByTokens, Meta, MetaPath, MetaValue, NestedMeta, TokenView};
use crate::bytoken;
use crate::text;

verus! {

/// The path is the one word `name`.
pub open spec fn is_word(path: MetaPath, name: Seq<char>) -> bool {
    path.single && path.text@ == name
}

proof fn lemma_names_differ()
    ensures
        "id"@ != "tag"@,
        "id"@ != "link"@,
        "id"@ != "css"@,
        "id"@ != "xpath"@,
        "id"@ != "name"@,
        "id"@ != "class"@,
        "id"@ != "testid"@,
        "id"@ != "description"@,
        "id"@ != "custom"@,
        "tag"@ != "link"@,
        "tag"@ != "css"@,
        "tag"@ != "xpath"@,
        "tag"@ != "name"@,
        "tag"@ != "class"@,
        "tag"@ != "testid"@,
        "tag"@ != "description"@,
        "tag"@ != "custom"@,
        "link"@ != "css"@,
        "link"@ != "xpath"@,
        "link"@ != "name"@,
        "link"@ != "class"@,
        "link"@ != "testid"@,
        "link"@ != "description"@,
        "link"@ != "custom"@,
        "css"@ != "xpath"@,
        "css"@ != "name"@,
        "css"@ != "class"@,
        "css"@ != "testid"@,
        "css"@ != "description"@,
        "css"@ != "custom"@,
        "xpath"@ != "name"@,
        "xpath"@ != "class"@,
        "xpath"@ != "testid"@,
        "xpath"@ != "description"@,
        "xpath"@ != "custom"@,
        "name"@ != "class"@,
        "name"@ != "testid"@,
        "name"@ != "description"@,
        "name"@ != "custom"@,
        "class"@ != "testid"@,
        "class"@ != "description"@,
        "class"@ != "custom"@,
        "testid"@ != "description"@,
        "testid"@ != "custom"@,
        "description"@ != "custom"@,
{
    reveal_strlit("id");
    reveal_strlit("tag");
    reveal_strlit("link");
    reveal_strlit("css");
    reveal_strlit("xpath");
    reveal_strlit("name");
    reveal_strlit("class");
    reveal_strlit("testid");
    reveal_strlit("description");
    reveal_strlit("custom");
    assert("id"@.len() != "tag"@.len());
    assert("id"@.len() != "link"@.len());
    assert("id"@.len() != "css"@.len());
    assert("id"@.len() != "xpath"@.len());
    assert("id"@.len() != "name"@.len());
    assert("id"@.len() != "class"@.len());
    assert("id"@.len() != "testid"@.len());
    assert("id"@.len() != "description"@.len());
    assert("id"@.len() != "custom"@.len());
    assert("tag"@.len() != "link"@.len());
    assert("tag"@[0] != "css"@[0]);
    assert("tag"@.len() != "xpath"@.len());
    assert("tag"@.len() != "name"@.len());
    assert("tag"@.len() != "class"@.len());
    assert("tag"@.len() != "testid"@.len());
    assert("tag"@.len() != "description"@.len());
    assert("tag"@.len() != "custom"@.len());
    assert("link"@.len() != "css"@.len());
    assert("link"@.len() != "xpath"@.len());
    assert("link"@[0] != "name"@[0]);
    assert("link"@.len() != "class"@.len());
    assert("link"@.len() != "testid"@.len());
    assert("link"@.len() != "description"@.len());
    assert("link"@.len() != "custom"@.len());
    assert("css"@.len() != "xpath"@.len());
    assert("css"@.len() != "name"@.len());
    assert("css"@.len() != "class"@.len());
    assert("css"@.len() != "testid"@.len());
    assert("css"@.len() != "description"@.len());
    assert("css"@.len() != "custom"@.len());
    assert("xpath"@.len() != "name"@.len());
    assert("xpath"@[0] != "class"@[0]);
    assert("xpath"@.len() != "testid"@.len());
    assert("xpath"@.len() != "description"@.len());
    assert("xpath"@.len() != "custom"@.len());
    assert("name"@.len() != "class"@.len());
    assert("name"@.len() != "testid"@.len());
    assert("name"@.len() != "description"@.len());
    assert("name"@.len() != "custom"@.len());
    assert("class"@.len() != "testid"@.len());
    assert("class"@.len() != "description"@.len());
    assert("class"@.len() != "custom"@.len());
    assert("testid"@.len() != "description"@.len());
    assert("testid"@[0] != "custom"@[0]);
    assert("description"@.len() != "custom"@.len());
}

proof fn lemma_words_differ()
    ensures
        "multi"@ != "not_empty"@,
        "multi"@ != "allow_empty"@,
        "multi"@ != "single"@,
        "multi"@ != "first"@,
        "multi"@ != "ignore_errors"@,
        "multi"@ != "allow_errors"@,
        "multi"@ != "nowait"@,
        "not_empty"@ != "allow_empty"@,
        "not_empty"@ != "single"@,
        "not_empty"@ != "first"@,
        "not_empty"@ != "ignore_errors"@,
        "not_empty"@ != "allow_errors"@,
        "not_empty"@ != "nowait"@,
        "allow_empty"@ != "single"@,
        "allow_empty"@ != "first"@,
        "allow_empty"@ != "ignore_errors"@,
        "allow_empty"@ != "allow_errors"@,
        "allow_empty"@ != "nowait"@,
        "single"@ != "first"@,
        "single"@ != "ignore_errors"@,
        "single"@ != "allow_errors"@,
        "single"@ != "nowait"@,
        "first"@ != "ignore_errors"@,
        "first"@ != "allow_errors"@,
        "first"@ != "nowait"@,
        "ignore_errors"@ != "allow_errors"@,
        "ignore_errors"@ != "nowait"@,
        "allow_errors"@ != "nowait"@,
{
    reveal_strlit("multi");
    reveal_strlit("not_empty");
    reveal_strlit("allow_empty");
    reveal_strlit("single");
    reveal_strlit("first");
    reveal_strlit("ignore_errors");
    reveal_strlit("allow_errors");
    reveal_strlit("nowait");
    assert("multi"@.len() != "not_empty"@.len());
    assert("multi"@.len() != "allow_empty"@.len());
    assert("multi"@.len() != "single"@.len());
    assert("multi"@[0] != "first"@[0]);
    assert("multi"@.len() != "ignore_errors"@.len());
    assert("multi"@.len() != "allow_errors"@.len());
    assert("multi"@.len() != "nowait"@.len());
    assert("not_empty"@.len() != "allow_empty"@.len());
    assert("not_empty"@.len() != "single"@.len());
    assert("not_empty"@.len() != "first"@.len());
    assert("not_empty"@.len() != "ignore_errors"@.len());
    assert("not_empty"@.len() != "allow_errors"@.len());
    assert("not_empty"@.len() != "nowait"@.len());
    assert("allow_empty"@.len() != "single"@.len());
    assert("allow_empty"@.len() != "first"@.len());
    assert("allow_empty"@.len() != "ignore_errors"@.len());
    assert("allow_empty"@.len() != "allow_errors"@.len());
    assert("allow_empty"@.len() != "nowait"@.len());
    assert("single"@.len() != "first"@.len());
    assert("single"@.len() != "ignore_errors"@.len());
    assert("single"@.len() != "allow_errors"@.len());
    assert("single"@[0] != "nowait"@[0]);
    assert("first"@.len() != "ignore_errors"@.len());
    assert("first"@.len() != "allow_errors"@.len());
    assert("first"@.len() != "nowait"@.len());
    assert("ignore_errors"@.len() != "allow_errors"@.len());
    assert("ignore_errors"@.len() != "nowait"@.len());
    assert("allow_errors"@.len() != "nowait"@.len());
}

proof fn lemma_types_differ()
    ensures
        "multi"@ != "not_empty"@,
        "multi"@ != "allow_empty"@,
        "multi"@ != "single"@,
        "multi"@ != "first"@,
        "multi"@ != "ignore_errors"@,
        "multi"@ != "description"@,
        "multi"@ != "wait"@,
        "multi"@ != "nowait"@,
        "multi"@ != "custom"@,
        "multi"@ != "selector"@,
        "multi"@ != "all"@,
        "not_empty"@ != "allow_empty"@,
        "not_empty"@ != "single"@,
        "not_empty"@ != "first"@,
        "not_empty"@ != "ignore_errors"@,
        "not_empty"@ != "description"@,
        "not_empty"@ != "wait"@,
        "not_empty"@ != "nowait"@,
        "not_empty"@ != "custom"@,
        "not_empty"@ != "selector"@,
        "not_empty"@ != "all"@,
        "allow_empty"@ != "single"@,
        "allow_empty"@ != "first"@,
        "allow_empty"@ != "ignore_errors"@,
        "allow_empty"@ != "description"@,
        "allow_empty"@ != "wait"@,
        "allow_empty"@ != "nowait"@,
        "allow_empty"@ != "custom"@,
        "allow_empty"@ != "selector"@,
        "allow_empty"@ != "all"@,
        "single"@ != "first"@,
        "single"@ != "ignore_errors"@,
        "single"@ != "description"@,
        "single"@ != "wait"@,
        "single"@ != "nowait"@,
        "single"@ != "custom"@,
        "single"@ != "selector"@,
        "single"@ != "all"@,
        "first"@ != "ignore_errors"@,
        "first"@ != "description"@,
        "first"@ != "wait"@,
        "first"@ != "nowait"@,
        "first"@ != "custom"@,
        "first"@ != "selector"@,
        "first"@ != "all"@,
        "ignore_errors"@ != "description"@,
        "ignore_errors"@ != "wait"@,
        "ignore_errors"@ != "nowait"@,
        "ignore_errors"@ != "custom"@,
        "ignore_errors"@ != "selector"@,
        "ignore_errors"@ != "all"@,
        "description"@ != "wait"@,
        "description"@ != "nowait"@,
        "description"@ != "custom"@,
        "description"@ != "selector"@,
        "description"@ != "all"@,
        "wait"@ != "nowait"@,
        "wait"@ != "custom"@,
        "wait"@ != "selector"@,
        "wait"@ != "all"@,
        "nowait"@ != "custom"@,
        "nowait"@ != "selector"@,
        "nowait"@ != "all"@,
        "custom"@ != "selector"@,
        "custom"@ != "all"@,
        "selector"@ != "all"@,
{
    reveal_strlit("multi");
    reveal_strlit("not_empty");
    reveal_strlit("allow_empty");
    reveal_strlit("single");
    reveal_strlit("first");
    reveal_strlit("ignore_errors");
    reveal_strlit("description");
    reveal_strlit("wait");
    reveal_strlit("nowait");
    reveal_strlit("custom");
    reveal_strlit("selector");
    reveal_strlit("all");
    assert("multi"@.len() != "not_empty"@.len());
    assert("multi"@.len() != "allow_empty"@.len());
    assert("multi"@.len() != "single"@.len());
    assert("multi"@[0] != "first"@[0]);
    assert("multi"@.len() != "ignore_errors"@.len());
    assert("multi"@.len() != "description"@.len());
    assert("multi"@.len() != "wait"@.len());
    assert("multi"@.len() != "nowait"@.len());
    assert("multi"@.len() != "custom"@.len());
    assert("multi"@.len() != "selector"@.len());
    assert("multi"@.len() != "all"@.len());
    assert("not_empty"@.len() != "allow_empty"@.len());
    assert("not_empty"@.len() != "single"@.len());
    assert("not_empty"@.len() != "first"@.len());
    assert("not_empty"@.len() != "ignore_errors"@.len());
    assert("not_empty"@.len() != "description"@.len());
    assert("not_empty"@.len() != "wait"@.len());
    assert("not_empty"@.len() != "nowait"@.len());
    assert("not_empty"@.len() != "custom"@.len());
    assert("not_empty"@.len() != "selector"@.len());
    assert("not_empty"@.len() != "all"@.len());
    assert("allow_empty"@.len() != "single"@.len());
    assert("allow_empty"@.len() != "first"@.len());
    assert("allow_empty"@.len() != "ignore_errors"@.len());
    assert("allow_empty"@[0] != "description"@[0]);
    assert("allow_empty"@.len() != "wait"@.len());
    assert("allow_empty"@.len() != "nowait"@.len());
    assert("allow_empty"@.len() != "custom"@.len());
    assert("allow_empty"@.len() != "selector"@.len());
    assert("allow_empty"@.len() != "all"@.len());
    assert("single"@.len() != "first"@.len());
    assert("single"@.len() != "ignore_errors"@.len());
    assert("single"@.len() != "description"@.len());
    assert("single"@.len() != "wait"@.len());
    assert("single"@[0] != "nowait"@[0]);
    assert("single"@[0] != "custom"@[0]);
    assert("single"@.len() != "selector"@.len());
    assert("single"@.len() != "all"@.len());
    assert("first"@.len() != "ignore_errors"@.len());
    assert("first"@.len() != "description"@.len());
    assert("first"@.len() != "wait"@.len());
    assert("first"@.len() != "nowait"@.len());
    assert("first"@.len() != "custom"@.len());
    assert("first"@.len() != "selector"@.len());
    assert("first"@.len() != "all"@.len());
    assert("ignore_errors"@.len() != "description"@.len());
    assert("ignore_errors"@.len() != "wait"@.len());
    assert("ignore_errors"@.len() != "nowait"@.len());
    assert("ignore_errors"@.len() != "custom"@.len());
    assert("ignore_errors"@.len() != "selector"@.len());
    assert("ignore_errors"@.len() != "all"@.len());
    assert("description"@.len() != "wait"@.len());
    assert("description"@.len() != "nowait"@.len());
    assert("description"@.len() != "custom"@.len());
    assert("description"@.len() != "selector"@.len());
    assert("description"@.len() != "all"@.len());
    assert("wait"@.len() != "nowait"@.len());
    assert("wait"@.len() != "custom"@.len());
    assert("wait"@.len() != "selector"@.len());
    assert("wait"@.len() != "all"@.len());
    assert("nowait"@[0] != "custom"@[0]);
    assert("nowait"@.len() != "selector"@.len());
    assert("nowait"@.len() != "all"@.len());
    assert("custom"@.len() != "selector"@.len());
    assert("custom"@.len() != "all"@.len());
    assert("selector"@.len() != "all"@.len());
}

/// A name with a literal is the selector that the name says, with that literal.
pub proof fn law_selector_attributes(
    path: MetaPath,
    value: MetaValue,
    literal: String,
    r: Result<ByToken, String>,
)
    requires
        value.literal == Some(literal),
        call_ensures(ByToken::try_from, (&Meta::NameValue(path, value),), r),
    ensures
        is_word(path, "id"@) ==> (r matches Ok(t) && t matches ByToken::Id(s) && s@ == literal@),
        is_word(path, "tag"@) ==> (r matches Ok(t) && t matches ByToken::Tag(s) && s@ == literal@),
        is_word(path, "link"@)
            ==> (r matches Ok(t) && t matches ByToken::LinkText(s) && s@ == literal@),
        is_word(path, "css"@) ==> (r matches Ok(t) && t matches ByToken::Css(s) && s@ == literal@),
        is_word(path, "xpath"@)
            ==> (r matches Ok(t) && t matches ByToken::XPath(s) && s@ == literal@),
        is_word(path, "name"@)
            ==> (r matches Ok(t) && t matches ByToken::Name(s) && s@ == literal@),
        is_word(path, "class"@)
            ==> (r matches Ok(t) && t matches ByToken::ClassName(s) && s@ == literal@),
        is_word(path, "testid"@)
            ==> (r matches Ok(t) && t matches ByToken::Testid(s) && s@ == literal@),
        is_word(path, "description"@)
            ==> (r matches Ok(t) && t matches ByToken::Description(s) && s@ == literal@),
        r matches Ok(t) && !is_word(path, "custom"@) ==> exists|i: int|
            0 <= i < literal_names().len() && is_word(path, #[trigger] literal_names()[i]),
        r matches Err(message) ==> message@ == "unknown attribute: "@ + path.text@,
{
    lemma_names_differ();
    assert(literal_names()[0] == "id"@ && literal_names()[1] == "tag"@);
    assert(literal_names()[2] == "link"@ && literal_names()[3] == "css"@);
    assert(literal_names()[4] == "xpath"@ && literal_names()[5] == "name"@);
    assert(literal_names()[6] == "class"@ && literal_names()[7] == "testid"@);
    assert(literal_names()[8] == "description"@);
}

/// The names that take a literal.
pub open spec fn literal_names() -> Seq<Seq<char>> {
    seq![
        "id"@,
        "tag"@,
        "link"@,
        "css"@,
        "xpath"@,
        "name"@,
        "class"@,
        "testid"@,
        "description"@,
    ]
}

/// A function of the user's own is given by its text, and a name that takes a literal is not known
/// without one.
pub proof fn law_custom_attribute(path: MetaPath, value: MetaValue, r: Result<ByToken, String>)
    requires
        call_ensures(ByToken::try_from, (&Meta::NameValue(path, value),), r),
    ensures
        is_word(path, "custom"@) ==> (r matches Ok(t) && t matches ByToken::CustomFn(f) && f@
            == value.text@),
        value.literal is None && !is_word(path, "custom"@) ==> (r matches Err(message) && message@
            == "unknown attribute: "@ + path.text@),
{
    lemma_names_differ();
}

/// A word that stands alone is the token that it names; two words ignore errors.
pub proof fn law_plain_attributes(path: MetaPath, r: Result<ByToken, String>)
    requires
        call_ensures(ByToken::try_from, (&Meta::Path(path),), r),
    ensures
        is_word(path, "multi"@) ==> (r matches Ok(t) && t is Multi),
        is_word(path, "not_empty"@) ==> (r matches Ok(t) && t is NotEmpty),
        is_word(path, "allow_empty"@) ==> (r matches Ok(t) && t is AllowEmpty),
        is_word(path, "single"@) ==> (r matches Ok(t) && t is Single),
        is_word(path, "first"@) ==> (r matches Ok(t) && t is First),
        is_word(path, "ignore_errors"@) ==> (r matches Ok(t) && t is IgnoreErrors),
        is_word(path, "allow_errors"@) ==> (r matches Ok(t) && t is IgnoreErrors),
        is_word(path, "nowait"@) ==> (r matches Ok(t) && t is NoWait),
        r is Err <==> !(is_word(path, "multi"@) || is_word(path, "not_empty"@) || is_word(
            path,
            "allow_empty"@,
        ) || is_word(path, "single"@) || is_word(path, "first"@) || is_word(path, "ignore_errors"@)
            || is_word(path, "allow_errors"@) || is_word(path, "nowait"@)),
        r matches Err(message) ==> message@ == "unknown attribute "@ + path.text@,
{
    lemma_words_differ();
}

/// A wait takes a timeout and an interval, in either order, and each of them once.
pub proof fn law_wait_attribute(
    path: MetaPath,
    one: NestedMeta,
    two: NestedMeta,
    nested: Vec<NestedMeta>,
    r: Result<ByToken, String>,
)
    requires
        nested@ == seq![one, two],
        call_ensures(ByToken::try_from, (&Meta::List(path, nested, None),), r),
        is_word(path, "wait"@),
        one.value is Ok,
        two.value is Ok,
    ensures
        is_word(one.path, "timeout_ms"@) && is_word(two.path, "interval_ms"@) ==> (r matches Ok(t)
            && t matches ByToken::Wait(w) && w.timeout_ms@ == one.value->Ok_0@ && w.interval_ms@
            == two.value->Ok_0@),
        is_word(one.path, "interval_ms"@) && is_word(two.path, "timeout_ms"@) ==> (r matches Ok(t)
            && t matches ByToken::Wait(w) && w.timeout_ms@ == two.value->Ok_0@ && w.interval_ms@
            == one.value->Ok_0@),
        is_word(one.path, "timeout_ms"@) && is_word(two.path, "timeout_ms"@) ==> (r matches Err(m)
            && m@ == "cannot specify timeout twice"@),
        is_word(one.path, "interval_ms"@) && is_word(two.path, "interval_ms"@) ==> (
        r matches Err(m) && m@ == "cannot specify interval twice"@),
{
    reveal_with_fuel(bytoken::wait_of, 3);
    reveal_strlit("timeout_ms");
    reveal_strlit("interval_ms");
    assert("timeout_ms"@.len() != "interval_ms"@.len());
    assert(nested@[0] == one && nested@[1] == two);
}

/// A wait is complete: whatever its arguments are, a token that is read from it holds the value of
/// an argument called `timeout_ms` and the value of one called `interval_ms`.
pub proof fn law_wait_is_complete(
    path: MetaPath,
    nested: Vec<NestedMeta>,
    ending: Option<String>,
    r: Result<ByToken, String>,
)
    requires
        call_ensures(ByToken::try_from, (&Meta::List(path, nested, ending),), r),
    ensures
        r matches Ok(t) ==> is_word(path, "wait"@) && ending is None && (
        t matches ByToken::Wait(w) && gives(nested@, "timeout_ms"@, w.timeout_ms@) && gives(
            nested@,
            "interval_ms"@,
            w.interval_ms@,
        )),
        !is_word(path, "wait"@) ==> (r matches Err(message) && message@ == "unknown attribute: "@
            + path.text@),
        is_word(path, "wait"@) && nested@.len() == 0 && ending is None ==> (r matches Err(message)
            && message@ == "wait attribute requires the following args: timeout_ms, interval_ms"@),
{
    if is_word(path, "wait"@) {
        if let Ok(t) = r {
            lemma_wait(nested@, 0, None, None, text::opt_text(ending), t@);
        }
    }
}

/// Some argument called `name` has the value.
pub open spec fn gives(nested: Seq<NestedMeta>, name: Seq<char>, value: Seq<char>) -> bool {
    exists|i: int|
        0 <= i < nested.len() && is_word((#[trigger] nested[i]).path, name) && (
        nested[i].value matches Ok(v) && v@ == value)
}

proof fn lemma_wait(
    nested: Seq<NestedMeta>,
    i: nat,
    timeout: Option<Seq<char>>,
    interval: Option<Seq<char>>,
    ending: Option<Seq<char>>,
    t: bytoken::TokenView,
)
    requires
        bytoken::wait_of(nested, i, timeout, interval, ending) == Ok::<bytoken::TokenView,
            Seq<char>>(t),
        i <= nested.len(),
        timeout matches Some(v) ==> gives(nested, "timeout_ms"@, v),
        interval matches Some(v) ==> gives(nested, "interval_ms"@, v),
    ensures
        ending is None,
        t matches bytoken::TokenView::Wait(a, b) && gives(nested, "timeout_ms"@, a) && gives(
            nested,
            "interval_ms"@,
            b,
        ),
    decreases nested.len() - i,
{
    if i < nested.len() {
        let item = nested[i as int];
        if item.path.is("timeout_ms"@) {
            lemma_wait(nested, i + 1, Some(item.value->Ok_0@), interval, ending, t);
        } else {
            lemma_wait(nested, i + 1, timeout, Some(item.value->Ok_0@), ending, t);
        }
    }
}

/// What a token counts as. There may be one of each.
pub open spec fn counts_as(t: ByToken) -> Seq<char> {
    match t {
        ByToken::Multi => "multi"@,
        ByToken::NotEmpty => "not_empty"@,
        ByToken::AllowEmpty => "allow_empty"@,
        ByToken::Single => "single"@,
        ByToken::First => "first"@,
        ByToken::IgnoreErrors => "ignore_errors"@,
        ByToken::Description(_) => "description"@,
        ByToken::Wait(_) => "wait"@,
        ByToken::NoWait => "nowait"@,
        ByToken::CustomFn(_) => "custom"@,
        ByToken::Id(_) => "selector"@,
        ByToken::Tag(_) => "selector"@,
        ByToken::LinkText(_) => "selector"@,
        ByToken::Css(_) => "selector"@,
        ByToken::XPath(_) => "selector"@,
        ByToken::Name(_) => "selector"@,
        ByToken::ClassName(_) => "selector"@,
        ByToken::Testid(_) => "selector"@,
    }
}

/// Whether `t` does not go with `other`: one element does not go with many, an empty result has to
/// be either allowed or not, a wait is either there or not, and a function of the user's own goes
/// with a selector and with `not_empty` alone.
pub open spec fn refuses(t: ByToken, other: ByToken) -> bool {
    match t {
        ByToken::Single => other is Multi || other is CustomFn || other is First,
        ByToken::First => other is Multi || other is CustomFn || other is Single,
        ByToken::NotEmpty => other is CustomFn || other is Single || other is First || other
            is AllowEmpty,
        ByToken::AllowEmpty => other is CustomFn || other is Single || other is First || other
            is NotEmpty,
        ByToken::IgnoreErrors => other is CustomFn,
        ByToken::Description(_) => other is CustomFn,
        ByToken::Wait(_) => other is CustomFn || other is NoWait,
        ByToken::NoWait => other is CustomFn || other is Wait,
        ByToken::CustomFn(_) => other is Multi || other is Single || other is First || other
            is IgnoreErrors || other is Description || other is Wait || other is NoWait || other
            is AllowEmpty,
        _ => false,
    }
}

/// A token says what it counts as, and names the types of exactly those tokens that it does not go
/// with.
pub proof fn law_token_types(t: &ByToken, other: ByToken, name: &'static str, types: Vec<String>)
    requires
        call_ensures(ByToken::get_unique_type, (t,), name),
        call_ensures(ByToken::get_disallowed_types, (t,), types),
    ensures
        name@ == counts_as(*t),
        text::texts(types@).contains(counts_as(other)) <==> refuses(*t, other),
{
    lemma_types_differ();
    lemma_refused(*t, other);
}

proof fn lemma_refused(t: ByToken, other: ByToken)
    ensures
        t@.unique_type() == counts_as(t),
        t@.disallowed().contains(counts_as(other)) <==> refuses(t, other),
{
    lemma_types_differ();
    let list = t@.disallowed();
    let name = counts_as(other);
    match t {
        ByToken::Single => {
            assert(list[0] == "multi"@);
            assert(list[1] == "custom"@);
            assert(list[2] == "first"@);
        },
        ByToken::First => {
            assert(list[0] == "multi"@);
            assert(list[1] == "custom"@);
            assert(list[2] == "single"@);
        },
        ByToken::NotEmpty => {
            assert(list[0] == "custom"@);
            assert(list[1] == "single"@);
            assert(list[2] == "first"@);
            assert(list[3] == "allow_empty"@);
        },
        ByToken::AllowEmpty => {
            assert(list[0] == "custom"@);
            assert(list[1] == "single"@);
            assert(list[2] == "first"@);
            assert(list[3] == "not_empty"@);
        },
        ByToken::IgnoreErrors => {
            assert(list[0] == "custom"@);
        },
        ByToken::Description(_) => {
            assert(list[0] == "custom"@);
        },
        ByToken::Wait(_) => {
            assert(list[0] == "custom"@);
            assert(list[1] == "nowait"@);
        },
        ByToken::NoWait => {
            assert(list[0] == "custom"@);
            assert(list[1] == "wait"@);
        },
        ByToken::CustomFn(_) => {
            assert(list[0] == "multi"@);
            assert(list[1] == "all"@);
            assert(list[2] == "single"@);
            assert(list[3] == "first"@);
            assert(list[4] == "ignore_errors"@);
            assert(list[5] == "description"@);
            assert(list[6] == "wait"@);
            assert(list[7] == "nowait"@);
            assert(list[8] == "allow_empty"@);
        },
        _ => {},
    }
    if refuses(t, other) {
        let k = choose|k: int| 0 <= k < list.len() && list[k] == name;
        assert(list.contains(name));
    }
}

/// Tokens are valid where no two of them count as one and none of them refuses another.
pub proof fn law_validity(tokens: ByTokens, r: Result<ByTokens, String>)
    requires
        call_ensures(ByTokens::validate, (tokens,), r),
    ensures
        r is Ok <==> {
            let ts = tokens.tokens@;
            &&& forall|i: int, j: int|
                0 <= i < j < ts.len() ==> counts_as(#[trigger] ts[i]) != counts_as(#[trigger] ts[j])
            &&& forall|i: int, j: int|
                0 <= i < ts.len() && 0 <= j < ts.len() ==> !refuses(
                    #[trigger] ts[i],
                    #[trigger] ts[j],
                )
        },
        r matches Ok(t) ==> t == tokens,
{
    let ts = tokens.tokens@;
    let views = tokens@;
    bytoken::lemma_valid_tokens(views);
    assert forall|i: int, j: int| 0 <= i < ts.len() && 0 <= j < ts.len() implies (
    views[i].disallowed().contains(views[j].unique_type()) <==> refuses(
        #[trigger] ts[i],
        #[trigger] ts[j],
    )) && views[i].unique_type() == counts_as(ts[i]) by {
        lemma_refused(ts[i], ts[j]);
        lemma_refused(ts[j], ts[i]);
    }
    let types = bytoken::types_of(views);
    assert(types.len() == ts.len());
    if bytoken::compatible(views) {
        assert forall|i: int, j: int| 0 <= i < ts.len() && 0 <= j < ts.len() implies !refuses(
            #[trigger] ts[i],
            #[trigger] ts[j],
        ) by {
            if refuses(ts[i], ts[j]) {
                let list = views[i].disallowed();
                let k = choose|k: int| 0 <= k < list.len() && list[k] == views[j].unique_type();
                assert(types[j] == list[k]);
                assert(types.contains(views[i].disallowed()[k]));
            }
        }
    }
    if forall|i: int, j: int|
        0 <= i < ts.len() && 0 <= j < ts.len() ==> !refuses(#[trigger] ts[i], #[trigger] ts[j]) {
        assert forall|i: int, k: int|
            0 <= i < views.len() && 0 <= k < views[i].disallowed().len() implies !types.contains(
            #[trigger] views[i].disallowed()[k],
        ) by {
            if types.contains(views[i].disallowed()[k]) {
                let j = choose|j: int| 0 <= j < types.len() && types[j] == views[i].disallowed()[k];
                assert(views[i].disallowed().contains(views[j].unique_type()));
                assert(refuses(ts[i], ts[j]));
            }
        }
    }
    assert(bytoken::distinct(views) <==> forall|i: int, j: int|
        0 <= i < j < ts.len() ==> counts_as(#[trigger] ts[i]) != counts_as(#[trigger] ts[j])) by {
        assert(forall|i: int| 0 <= i < ts.len() ==> #[trigger] views[i] == ts[i]@);
        assert(forall|i: int|
            0 <= i < ts.len() ==> (#[trigger] views[i]).unique_type() == counts_as(ts[i]));
        assert(forall|i: int|
            0 <= i < ts.len() ==> views[i].unique_type() == counts_as(#[trigger] ts[i]));
    }
}

/// Whether there is a token of one kind is told token by token.
pub proof fn law_token_kinds(tokens: &ByTokens, multi: bool, selector: bool, custom: bool)
    requires
        call_ensures(ByTokens::is_multi, (tokens,), multi),
        call_ensures(ByTokens::has_selector, (tokens,), selector),
        call_ensures(ByTokens::has_custom, (tokens,), custom),
    ensures
        multi <==> exists|i: int| 0 <= i < tokens.tokens@.len() && (#[trigger]
            tokens.tokens@[i]) is Multi,
        selector <==> exists|i: int|
            0 <= i < tokens.tokens@.len() && counts_as(#[trigger] tokens.tokens@[i]) == "selector"@,
        custom <==> exists|i: int|
            0 <= i < tokens.tokens@.len() && (#[trigger] tokens.tokens@[i]) is CustomFn,
{
    lemma_types_differ();
    assert(forall|i: int|
        0 <= i < tokens.tokens@.len() ==> #[trigger] tokens@[i] == tokens.tokens@[i]@);
    assert(forall|i: int|
        0 <= i < tokens.tokens@.len() ==> tokens@[i] == (#[trigger] tokens.tokens@[i])@);
}

/// The message for tokens that are not valid names what is there twice, or else what does not go
/// with what.
pub proof fn law_validity_message(tokens: ByTokens, message: String)
    requires
        call_ensures(ByTokens::validate, (tokens,), Err::<ByTokens, String>(message)),
    ensures
        (exists|i: int, j: int|
            #![trigger tokens.tokens@[i], tokens.tokens@[j]]
            0 <= i < j < tokens.tokens@.len() && counts_as(tokens.tokens@[i]) == counts_as(
                tokens.tokens@[j],
            ) && message@ == "duplicate token '"@ + counts_as(tokens.tokens@[j])
                + "' (cannot specify multiple)"@) || (exists|i: int, j: int|
            #![trigger tokens.tokens@[i], tokens.tokens@[j]]
            0 <= i < tokens.tokens@.len() && 0 <= j < tokens.tokens@.len() && refuses(
                tokens.tokens@[i],
                tokens.tokens@[j],
            ) && message@ == "cannot specify '"@ + counts_as(tokens.tokens@[i]) + "' with '"@
                + counts_as(tokens.tokens@[j]) + "'"@),
{
    let ts = tokens.tokens@;
    let views = tokens@;
    let types = bytoken::types_of(views);
    assert(types.len() == ts.len());
    assert forall|i: int| 0 <= i < ts.len() implies #[trigger] types[i] == counts_as(ts[i]) by {
        lemma_refused(ts[i], ts[i]);
        assert(types[i] == views[i].unique_type());
    }
    match bytoken::first_duplicate(types, 0) {
        Some(t) => {
            lemma_duplicate(types, 0);
            let (i, j) = choose|i: int, j: int|
                0 <= i < j < types.len() && #[trigger] types[i] == t && #[trigger] types[j] == t;
            assert(counts_as(ts[i]) == counts_as(ts[j]));
        },
        None => {
            lemma_conflict(views, 0);
            let pair = bytoken::first_conflict(views, 0)->0;
            let (i, j) = choose|i: int, j: int|
                0 <= i < views.len() && 0 <= j < views.len() && #[trigger] views[i].unique_type()
                    == pair.0 && #[trigger] types[j] == pair.1 && views[i].disallowed().contains(
                    pair.1,
                );
            lemma_refused(ts[i], ts[j]);
            lemma_refused(ts[j], ts[i]);
            assert(refuses(ts[i], ts[j]));
        },
    }
}

proof fn lemma_duplicate(types: Seq<Seq<char>>, k: nat)
    ensures
        bytoken::first_duplicate(types, k) matches Some(t) ==> exists|i: int, j: int|
            0 <= i < j < types.len() && #[trigger] types[i] == t && #[trigger] types[j] == t,
    decreases types.len() - k,
{
    if k < types.len() {
        if types.take(k as int).contains(types[k as int]) {
            let i = choose|i: int| 0 <= i < k && types.take(k as int)[i] == types[k as int];
            assert(types[i] == types[k as int]);
        } else {
            lemma_duplicate(types, k + 1);
        }
    }
}

proof fn lemma_conflict(tokens: Seq<TokenView>, k: nat)
    ensures
        bytoken::first_conflict(tokens, k) matches Some((a, b)) ==> exists|i: int, j: int|
            0 <= i < tokens.len() && 0 <= j < tokens.len() && #[trigger]
                tokens[i].unique_type() == a
                && #[trigger] bytoken::types_of(tokens)[j] == b && tokens[i].disallowed().contains(
                b,
            ),
    decreases tokens.len() - k,
{
    if k < tokens.len() {
        let names = tokens[k as int].disallowed();
        lemma_present(names, bytoken::types_of(tokens), 0);
        match bytoken::first_present(names, bytoken::types_of(tokens), 0) {
            Some(t) => {
                let types = bytoken::types_of(tokens);
                let j = choose|j: int| 0 <= j < types.len() && types[j] == t;
                assert(tokens[k as int].unique_type() == tokens[k as int].unique_type());
                assert(types[j] == t);
            },
            None => {
                lemma_conflict(tokens, k + 1);
            },
        }
    }
}

proof fn lemma_present(names: Seq<Seq<char>>, types: Seq<Seq<char>>, k: nat)
    ensures
        bytoken::first_present(names, types, k) matches Some(t) ==> names.contains(t)
            && types.contains(t),
    decreases names.len() - k,
{
    if k < names.len() && !types.contains(names[k as int]) {
        lemma_present(names, types, k + 1);
    }
}

/// A word in a wait that is neither of the two is an error that names it.
pub proof fn law_wait_word(path: MetaPath, one: NestedMeta, nested: Vec<NestedMeta>,
    r: Result<ByToken, String>)
    requires
        nested@ == seq![one],
        call_ensures(ByToken::try_from, (&Meta::List(path, nested, None),), r),
        is_word(path, "wait"@),
        !is_word(one.path, "timeout_ms"@),
        !is_word(one.path, "interval_ms"@),
    ensures
        r matches Err(m) && m@ == "unknown attribute "@ + one.path.text@
            + " (must be timeout_ms or interval_ms)"@,
{
    reveal_with_fuel(bytoken::wait_of, 2);
    assert(nested@[0] == one);
}

} // verus!
