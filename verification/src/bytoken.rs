//! The tokens of a `#[by(..)]` attribute: how they are read, and which ones go together.
use crate::text;
use crate::text::{cat2, cat3, cat5, text_eq};
use vstd::prelude::*;

verus! {

/// A path in an attribute, by its text. It is a single identifier or a longer path.
#[derive(Debug)]
pub struct MetaPath {
    pub single: bool,
    pub text: String,
}

impl MetaPath {
    /// Whether the path is that identifier.
    pub open spec fn is(&self, name: Seq<char>) -> bool {
        self.single && self.text@ == name
    }

    /// Whether the path is that identifier.
    pub fn is_ident(&self, name: &str) -> (r: bool)
        ensures
            r == self.is(name@),
    {
        self.single && text_eq(self.text.as_str(), name)
    }
}

/// The value behind a name: the text of the expression, and that of the literal where the
/// expression is a string literal.
#[derive(Debug)]
pub struct MetaValue {
    pub literal: Option<String>,
    pub text: String,
}

/// An item within the brackets of another: its path, and the text of the expression behind it
/// or why there is none.
#[derive(Debug)]
pub struct NestedMeta {
    pub path: MetaPath,
    pub value: Result<String, String>,
}

/// An item of an attribute.
#[derive(Debug)]
pub enum Meta {
    /// A path alone.
    Path(MetaPath),
    /// A path with items in brackets. The last part says why the items end before the brackets
    /// do, where they do.
    List(MetaPath, Vec<NestedMeta>, Option<String>),
    /// A name and a value.
    NameValue(MetaPath, MetaValue),
}

/// How long to wait and how often to try, each by the text of an expression.
#[derive(Debug)]
pub struct WaitOptions {
    pub timeout_ms: String,
    pub interval_ms: String,
}

impl Clone for WaitOptions {
    fn clone(&self) -> (r: Self)
        ensures
            r == *self,
    {
        WaitOptions {
            timeout_ms: self.timeout_ms.clone(),
            interval_ms: self.interval_ms.clone(),
        }
    }
}

/// These are all the supported tokens in a `#[by(..)]` attribute.
#[derive(Debug)]
pub enum ByToken {
    Id(String),
    Tag(String),
    LinkText(String),
    Css(String),
    XPath(String),
    Name(String),
    ClassName(String),
    Testid(String),
    Multi,
    /// NotEmpty is the default but can be specified to be explicit.
    NotEmpty,
    AllowEmpty,
    /// Single is the default but can be specified to be explicit.
    Single,
    First,
    IgnoreErrors,
    Description(String),
    Wait(WaitOptions),
    NoWait,
    CustomFn(String),
}

/// What a token stands for.
pub enum TokenView {
    Id(Seq<char>),
    Tag(Seq<char>),
    LinkText(Seq<char>),
    Css(Seq<char>),
    XPath(Seq<char>),
    Name(Seq<char>),
    ClassName(Seq<char>),
    Testid(Seq<char>),
    Multi,
    NotEmpty,
    AllowEmpty,
    Single,
    First,
    IgnoreErrors,
    Description(Seq<char>),
    Wait(Seq<char>, Seq<char>),
    NoWait,
    CustomFn(Seq<char>),
}

impl ByToken {
    /// What this token stands for.
    pub open spec fn view(&self) -> TokenView {
        match self {
            ByToken::Id(s) => TokenView::Id(s@),
            ByToken::Tag(s) => TokenView::Tag(s@),
            ByToken::LinkText(s) => TokenView::LinkText(s@),
            ByToken::Css(s) => TokenView::Css(s@),
            ByToken::XPath(s) => TokenView::XPath(s@),
            ByToken::Name(s) => TokenView::Name(s@),
            ByToken::ClassName(s) => TokenView::ClassName(s@),
            ByToken::Testid(s) => TokenView::Testid(s@),
            ByToken::Multi => TokenView::Multi,
            ByToken::NotEmpty => TokenView::NotEmpty,
            ByToken::AllowEmpty => TokenView::AllowEmpty,
            ByToken::Single => TokenView::Single,
            ByToken::First => TokenView::First,
            ByToken::IgnoreErrors => TokenView::IgnoreErrors,
            ByToken::Description(s) => TokenView::Description(s@),
            ByToken::Wait(w) => TokenView::Wait(w.timeout_ms@, w.interval_ms@),
            ByToken::NoWait => TokenView::NoWait,
            ByToken::CustomFn(s) => TokenView::CustomFn(s@),
        }
    }
}

impl TokenView {
    /// Whether the token says what to look for.
    pub open spec fn is_selector(self) -> bool {
        match self {
            TokenView::Id(_) => true,
            TokenView::Tag(_) => true,
            TokenView::LinkText(_) => true,
            TokenView::Css(_) => true,
            TokenView::XPath(_) => true,
            TokenView::Name(_) => true,
            TokenView::ClassName(_) => true,
            TokenView::Testid(_) => true,
            _ => false,
        }
    }

    /// The name of the token's type. Of each type there may be one token.
    pub open spec fn unique_type(self) -> Seq<char> {
        match self {
            TokenView::Multi => "multi"@,
            TokenView::NotEmpty => "not_empty"@,
            TokenView::AllowEmpty => "allow_empty"@,
            TokenView::Single => "single"@,
            TokenView::First => "first"@,
            TokenView::IgnoreErrors => "ignore_errors"@,
            TokenView::Description(_) => "description"@,
            TokenView::Wait(_, _) => "wait"@,
            TokenView::NoWait => "nowait"@,
            TokenView::CustomFn(_) => "custom"@,
            _ => "selector"@,
        }
    }

    /// The types that the token does not go together with.
    pub open spec fn disallowed(self) -> Seq<Seq<char>> {
        match self {
            TokenView::Single => seq!["multi"@, "custom"@, "first"@],
            TokenView::First => seq!["multi"@, "custom"@, "single"@],
            TokenView::NotEmpty => seq!["custom"@, "single"@, "first"@, "allow_empty"@],
            TokenView::AllowEmpty => seq!["custom"@, "single"@, "first"@, "not_empty"@],
            TokenView::IgnoreErrors => seq!["custom"@],
            TokenView::Description(_) => seq!["custom"@],
            TokenView::Wait(_, _) => seq!["custom"@, "nowait"@],
            TokenView::NoWait => seq!["custom"@, "wait"@],
            TokenView::CustomFn(_) => seq![
                "multi"@,
                "all"@,
                "single"@,
                "first"@,
                "ignore_errors"@,
                "description"@,
                "wait"@,
                "nowait"@,
                "allow_empty"@,
            ],
            _ => seq![],
        }
    }
}

/// What a list of tokens stands for.
pub open spec fn tokens_view(tokens: Seq<ByToken>) -> Seq<TokenView> {
    Seq::new(tokens.len(), |i: int| tokens[i]@)
}

/// The types of the tokens, in their order.
pub open spec fn types_of(tokens: Seq<TokenView>) -> Seq<Seq<char>> {
    Seq::new(tokens.len(), |i: int| tokens[i].unique_type())
}

/// The first of the types from `i` on that stands among those before it.
pub open spec fn first_duplicate(types: Seq<Seq<char>>, i: nat) -> Option<Seq<char>>
    decreases types.len() - i,
{
    if i >= types.len() {
        None
    } else if types.take(i as int).contains(types[i as int]) {
        Some(types[i as int])
    } else {
        first_duplicate(types, i + 1)
    }
}

/// The first of the names from `k` on that stands among the types.
pub open spec fn first_present(names: Seq<Seq<char>>, types: Seq<Seq<char>>, k: nat) -> Option<
    Seq<char>,
>
    decreases names.len() - k,
{
    if k >= names.len() {
        None
    } else if types.contains(names[k as int]) {
        Some(names[k as int])
    } else {
        first_present(names, types, k + 1)
    }
}

/// The types of the first token from `i` on that does not go together with another, and of the
/// first one that it does not go together with.
pub open spec fn first_conflict(tokens: Seq<TokenView>, i: nat) -> Option<(Seq<char>, Seq<char>)>
    decreases tokens.len() - i,
{
    if i >= tokens.len() {
        None
    } else {
        match first_present(tokens[i as int].disallowed(), types_of(tokens), 0) {
            Some(t) => Some((tokens[i as int].unique_type(), t)),
            None => first_conflict(tokens, i + 1),
        }
    }
}

/// Why the tokens do not go together, where they do not.
pub open spec fn invalid(tokens: Seq<TokenView>) -> Option<Seq<char>> {
    match first_duplicate(types_of(tokens), 0) {
        Some(t) => Some("duplicate token '"@ + t + "' (cannot specify multiple)"@),
        None => match first_conflict(tokens, 0) {
            Some((a, b)) => Some("cannot specify '"@ + a + "' with '"@ + b + "'"@),
            None => None,
        },
    }
}

/// No two tokens are of the same type.
pub open spec fn distinct(tokens: Seq<TokenView>) -> bool {
    forall|i: int, j: int|
        0 <= i < j < tokens.len() ==> (#[trigger] tokens[i]).unique_type() != (#[trigger]
        tokens[j]).unique_type()
}

/// No token stands with one that it does not go together with.
pub open spec fn compatible(tokens: Seq<TokenView>) -> bool {
    forall|i: int, k: int|
        0 <= i < tokens.len() && 0 <= k < tokens[i].disallowed().len() ==> !types_of(
            tokens,
        ).contains(#[trigger] tokens[i].disallowed()[k])
}

proof fn lemma_no_duplicate(tokens: Seq<TokenView>, i: nat)
    requires
        i <= tokens.len(),
    ensures
        first_duplicate(types_of(tokens), i) is None <==> forall|a: int, b: int|
            0 <= a < b < tokens.len() && i <= b ==> (#[trigger] tokens[a]).unique_type() != (
            #[trigger] tokens[b]).unique_type(),
    decreases tokens.len() - i,
{
    let types = types_of(tokens);
    if i < tokens.len() {
        lemma_no_duplicate(tokens, i + 1);
        if types.take(i as int).contains(types[i as int]) {
            let a = choose|a: int| 0 <= a < i && types.take(i as int)[a] == types[i as int];
            assert(tokens[a].unique_type() == tokens[i as int].unique_type());
        } else {
            assert forall|a: int| 0 <= a < i implies (#[trigger] tokens[a]).unique_type()
                != tokens[i as int].unique_type() by {
                assert(types.take(i as int)[a] == tokens[a].unique_type());
            }
        }
    }
}

proof fn lemma_none_present(names: Seq<Seq<char>>, types: Seq<Seq<char>>, k: nat)
    requires
        k <= names.len(),
    ensures
        first_present(names, types, k) is None <==> forall|j: int|
            k <= j < names.len() ==> !types.contains(#[trigger] names[j]),
    decreases names.len() - k,
{
    if k < names.len() {
        lemma_none_present(names, types, k + 1);
    }
}

proof fn lemma_no_conflict(tokens: Seq<TokenView>, i: nat)
    requires
        i <= tokens.len(),
    ensures
        first_conflict(tokens, i) is None <==> forall|a: int, k: int|
            i <= a < tokens.len() && 0 <= k < tokens[a].disallowed().len() ==> !types_of(
                tokens,
            ).contains(#[trigger] tokens[a].disallowed()[k]),
    decreases tokens.len() - i,
{
    if i < tokens.len() {
        lemma_no_conflict(tokens, i + 1);
        lemma_none_present(tokens[i as int].disallowed(), types_of(tokens), 0);
    }
}

/// The tokens of an attribute are accepted exactly where no type occurs twice and no token stands
/// with one that it does not go together with.
pub proof fn lemma_valid_tokens(tokens: Seq<TokenView>)
    ensures
        invalid(tokens) is None <==> distinct(tokens) && compatible(tokens),
{
    lemma_no_duplicate(tokens, 0);
    lemma_no_conflict(tokens, 0);
}

/// A custom function goes together with no option: beside it there can only stand a selector.
pub proof fn lemma_custom_stands_alone(tokens: Seq<TokenView>, c: int, i: int)
    requires
        invalid(tokens) is None,
        0 <= c < tokens.len(),
        0 <= i < tokens.len(),
        i != c,
        tokens[c] is CustomFn,
    ensures
        tokens[i].is_selector(),
{
    lemma_valid_tokens(tokens);
    let t = tokens[i];
    assert(types_of(tokens)[i] == t.unique_type());
    assert(types_of(tokens)[c] == "custom"@);
    if t is CustomFn {
        if i < c {
            assert(tokens[i].unique_type() != tokens[c].unique_type());
        } else {
            assert(tokens[c].unique_type() != tokens[i].unique_type());
        }
    } else if !t.is_selector() {
        if t is Multi {
            assert(tokens[c].disallowed()[0] == "multi"@);
        } else if t is Single {
            assert(tokens[i].disallowed()[1] == "custom"@);
        } else if t is First {
            assert(tokens[i].disallowed()[1] == "custom"@);
        } else {
            assert(tokens[i].disallowed()[0] == "custom"@);
        }
    }
}

impl ByToken {
    /// Helper for making sure the right things are mutually exclusive.
    ///
    /// This is how we catch repeated options.
    pub fn get_unique_type(&self) -> (r: &'static str)
        ensures
            r@ == self@.unique_type(),
    {
        match self {
            ByToken::Multi => "multi",
            ByToken::NotEmpty => "not_empty",
            ByToken::AllowEmpty => "allow_empty",
            ByToken::Single => "single",
            ByToken::First => "first",
            ByToken::IgnoreErrors => "ignore_errors",
            ByToken::Description(_) => "description",
            ByToken::Wait(_) => "wait",
            ByToken::NoWait => "nowait",
            ByToken::CustomFn(_) => "custom",
            ByToken::Id(_)
            | ByToken::Tag(_)
            | ByToken::LinkText(_)
            | ByToken::Css(_)
            | ByToken::XPath(_)
            | ByToken::Name(_)
            | ByToken::ClassName(_)
            | ByToken::Testid(_) => "selector",
        }
    }

    /// Get the above unique names that are not supported with each token.
    ///
    /// This is how mutually exclusive options are determined.
    pub fn get_disallowed_types(&self) -> (r: Vec<String>)
        ensures
            text::texts(r@) == self@.disallowed(),
    {
        let mut r: Vec<String> = Vec::new();
        match self {
            ByToken::Single => {
                r.push("multi".to_owned());
                r.push("custom".to_owned());
                r.push("first".to_owned());
            },
            ByToken::First => {
                r.push("multi".to_owned());
                r.push("custom".to_owned());
                r.push("single".to_owned());
            },
            ByToken::NotEmpty => {
                r.push("custom".to_owned());
                r.push("single".to_owned());
                r.push("first".to_owned());
                r.push("allow_empty".to_owned());
            },
            ByToken::AllowEmpty => {
                r.push("custom".to_owned());
                r.push("single".to_owned());
                r.push("first".to_owned());
                r.push("not_empty".to_owned());
            },
            ByToken::IgnoreErrors => {
                r.push("custom".to_owned());
            },
            ByToken::Description(_) => {
                r.push("custom".to_owned());
            },
            ByToken::Wait(_) => {
                r.push("custom".to_owned());
                r.push("nowait".to_owned());
            },
            ByToken::NoWait => {
                r.push("custom".to_owned());
                r.push("wait".to_owned());
            },
            ByToken::CustomFn(_) => {
                r.push("multi".to_owned());
                r.push("all".to_owned());
                r.push("single".to_owned());
                r.push("first".to_owned());
                r.push("ignore_errors".to_owned());
                r.push("description".to_owned());
                r.push("wait".to_owned());
                r.push("nowait".to_owned());
                r.push("allow_empty".to_owned());
            },
            _ => {},
        }
        assert(text::texts(r@) == self@.disallowed());
        r
    }
}

/// What a nested list of items is read as: how long to wait and how often to try.
pub open spec fn wait_of(
    nested: Seq<NestedMeta>,
    i: nat,
    timeout: Option<Seq<char>>,
    interval: Option<Seq<char>>,
    ending: Option<Seq<char>>,
) -> Result<TokenView, Seq<char>>
    decreases nested.len() - i,
{
    if i >= nested.len() {
        match ending {
            Some(message) => Err(message),
            None => match (timeout, interval) {
                (Some(t), Some(n)) => Ok(TokenView::Wait(t, n)),
                _ => Err(
                    "wait attribute requires the following args: timeout_ms, interval_ms"@,
                ),
            },
        }
    } else {
        let item = nested[i as int];
        if item.path.is("timeout_ms"@) {
            if timeout is Some {
                Err("cannot specify timeout twice"@)
            } else {
                match item.value {
                    Ok(v) => wait_of(nested, i + 1, Some(v@), interval, ending),
                    Err(message) => Err(message@),
                }
            }
        } else if item.path.is("interval_ms"@) {
            if interval is Some {
                Err("cannot specify interval twice"@)
            } else {
                match item.value {
                    Ok(v) => wait_of(nested, i + 1, timeout, Some(v@), ending),
                    Err(message) => Err(message@),
                }
            }
        } else {
            Err(
                "unknown attribute "@ + item.path.text@
                    + " (must be timeout_ms or interval_ms)"@,
            )
        }
    }
}

/// What an item of a `#[by(..)]` attribute is read as: a token, or a message that says why not.
pub open spec fn token_of(meta: Meta) -> Result<TokenView, Seq<char>> {
    match meta {
        Meta::Path(p) => if p.is("multi"@) {
            Ok(TokenView::Multi)
        } else if p.is("not_empty"@) {
            Ok(TokenView::NotEmpty)
        } else if p.is("allow_empty"@) {
            Ok(TokenView::AllowEmpty)
        } else if p.is("single"@) {
            Ok(TokenView::Single)
        } else if p.is("first"@) {
            Ok(TokenView::First)
        } else if p.is("ignore_errors"@) || p.is("allow_errors"@) {
            Ok(TokenView::IgnoreErrors)
        } else if p.is("nowait"@) {
            Ok(TokenView::NoWait)
        } else {
            Err("unknown attribute "@ + p.text@)
        },
        Meta::List(p, nested, ending) => if p.is("wait"@) {
            wait_of(nested@, 0, None, None, text::opt_text(ending))
        } else {
            Err("unknown attribute: "@ + p.text@)
        },
        Meta::NameValue(k, value) => if value.literal is Some && k.is("id"@) {
            Ok(TokenView::Id(value.literal->0@))
        } else if value.literal is Some && k.is("tag"@) {
            Ok(TokenView::Tag(value.literal->0@))
        } else if value.literal is Some && k.is("link"@) {
            Ok(TokenView::LinkText(value.literal->0@))
        } else if value.literal is Some && k.is("css"@) {
            Ok(TokenView::Css(value.literal->0@))
        } else if value.literal is Some && k.is("xpath"@) {
            Ok(TokenView::XPath(value.literal->0@))
        } else if value.literal is Some && k.is("name"@) {
            Ok(TokenView::Name(value.literal->0@))
        } else if value.literal is Some && k.is("class"@) {
            Ok(TokenView::ClassName(value.literal->0@))
        } else if value.literal is Some && k.is("testid"@) {
            Ok(TokenView::Testid(value.literal->0@))
        } else if value.literal is Some && k.is("description"@) {
            Ok(TokenView::Description(value.literal->0@))
        } else if k.is("custom"@) {
            Ok(TokenView::CustomFn(value.text@))
        } else {
            Err("unknown attribute: "@ + k.text@)
        },
    }
}

/// Whether a result is the one of a reading.
pub open spec fn reads<T, V>(
    r: Result<T, String>,
    view: spec_fn(T) -> V,
    reading: Result<V, Seq<char>>,
) -> bool {
    match r {
        Ok(t) => reading == Ok::<V, Seq<char>>(view(t)),
        Err(message) => reading == Err::<V, Seq<char>>(message@),
    }
}

/// Reads a nested list of items.
fn read_wait(nested: &Vec<NestedMeta>, ending: &Option<String>) -> (r: Result<ByToken, String>)
    ensures
        reads(
            r,
            |t: ByToken| t@,
            wait_of(nested@, 0, None, None, text::opt_text(*ending)),
        ),
{
    let mut timeout: Option<String> = None;
    let mut interval: Option<String> = None;
    let mut i: usize = 0;
    while i < nested.len()
        invariant
            i <= nested.len(),
            wait_of(nested@, 0, None, None, text::opt_text(*ending)) == wait_of(
                nested@,
                i as nat,
                text::opt_text(timeout),
                text::opt_text(interval),
                text::opt_text(*ending),
            ),
        decreases nested.len() - i,
    {
        let item: &NestedMeta = &nested[i];
        if item.path.is_ident("timeout_ms") {
            if timeout.is_some() {
                return Err("cannot specify timeout twice".to_owned());
            }
            match &item.value {
                Ok(v) => {
                    timeout = Some(v.clone());
                },
                Err(message) => return Err(message.clone()),
            }
        } else if item.path.is_ident("interval_ms") {
            if interval.is_some() {
                return Err("cannot specify interval twice".to_owned());
            }
            match &item.value {
                Ok(v) => {
                    interval = Some(v.clone());
                },
                Err(message) => return Err(message.clone()),
            }
        } else {
            return Err(
                cat3(
                    "unknown attribute ",
                    item.path.text.as_str(),
                    " (must be timeout_ms or interval_ms)",
                ),
            );
        }
        i = i + 1;
    }
    match ending {
        Some(message) => return Err(message.clone()),
        None => {},
    }
    match (timeout, interval) {
        (Some(timeout_ms), Some(interval_ms)) => Ok(
            ByToken::Wait(WaitOptions { timeout_ms, interval_ms }),
        ),
        _ => Err("wait attribute requires the following args: timeout_ms, interval_ms".to_owned()),
    }
}

impl ByToken {
    /// This is where all tokens are parsed into `ByToken` variants.
    pub fn try_from(meta: &Meta) -> (r: Result<ByToken, String>)
        ensures
            reads(r, |t: ByToken| t@, token_of(*meta)),
    {
        match meta {
            Meta::Path(p) => if p.is_ident("multi") {
                Ok(ByToken::Multi)
            } else if p.is_ident("not_empty") {
                Ok(ByToken::NotEmpty)
            } else if p.is_ident("allow_empty") {
                Ok(ByToken::AllowEmpty)
            } else if p.is_ident("single") {
                Ok(ByToken::Single)
            } else if p.is_ident("first") {
                Ok(ByToken::First)
            } else if p.is_ident("ignore_errors") || p.is_ident("allow_errors") {
                Ok(ByToken::IgnoreErrors)
            } else if p.is_ident("nowait") {
                Ok(ByToken::NoWait)
            } else {
                Err(cat2("unknown attribute ", p.text.as_str()))
            },
            Meta::List(p, nested, ending) => if p.is_ident("wait") {
                read_wait(nested, ending)
            } else {
                Err(cat2("unknown attribute: ", p.text.as_str()))
            },
            Meta::NameValue(k, value) => {
                match &value.literal {
                    Some(v) => if k.is_ident("id") {
                        return Ok(ByToken::Id(v.clone()));
                    } else if k.is_ident("tag") {
                        return Ok(ByToken::Tag(v.clone()));
                    } else if k.is_ident("link") {
                        return Ok(ByToken::LinkText(v.clone()));
                    } else if k.is_ident("css") {
                        return Ok(ByToken::Css(v.clone()));
                    } else if k.is_ident("xpath") {
                        return Ok(ByToken::XPath(v.clone()));
                    } else if k.is_ident("name") {
                        return Ok(ByToken::Name(v.clone()));
                    } else if k.is_ident("class") {
                        return Ok(ByToken::ClassName(v.clone()));
                    } else if k.is_ident("testid") {
                        return Ok(ByToken::Testid(v.clone()));
                    } else if k.is_ident("description") {
                        return Ok(ByToken::Description(v.clone()));
                    },
                    None => {},
                }
                if k.is_ident("custom") {
                    Ok(ByToken::CustomFn(value.text.clone()))
                } else {
                    Err(cat2("unknown attribute: ", k.text.as_str()))
                }
            },
        }
    }
}

/// Wrapper for a list of tokens so we can add methods to it.
#[derive(Debug)]
pub struct ByTokens {
    pub tokens: Vec<ByToken>,
}

/// What the items of an attribute from `i` on are read as, behind the tokens that there are: all
/// tokens, or the place of the first item that is no token or does not go together with what
/// stands before it, and what is wrong with it.
pub open spec fn tokens_of(metas: Seq<Meta>, i: nat, tokens: Seq<TokenView>) -> Result<
    Seq<TokenView>,
    (int, Seq<char>),
>
    decreases metas.len() - i,
{
    if i >= metas.len() {
        Ok(tokens)
    } else {
        match token_of(metas[i as int]) {
            Ok(t) => match invalid(tokens.push(t)) {
                Some(message) => Err((i as int, message)),
                None => tokens_of(metas, i + 1, tokens.push(t)),
            },
            Err(message) => Err((i as int, message)),
        }
    }
}

/// The tokens that an attribute is read as go together.
pub proof fn lemma_tokens_valid(metas: Seq<Meta>, i: nat, tokens: Seq<TokenView>)
    requires
        invalid(tokens) is None,
        tokens_of(metas, i, tokens) is Ok,
    ensures
        invalid(tokens_of(metas, i, tokens)->Ok_0) is None,
    decreases metas.len() - i,
{
    if i < metas.len() {
        lemma_tokens_valid(metas, i + 1, tokens.push(token_of(metas[i as int])->Ok_0));
    }
}

impl ByTokens {
    /// What the tokens stand for.
    pub open spec fn view(&self) -> Seq<TokenView> {
        tokens_view(self.tokens@)
    }

    /// Whether a name is among the types of the first `n` tokens.
    fn has_type(&self, name: &str, n: usize) -> (r: bool)
        requires
            n <= self.tokens.len(),
        ensures
            r == types_of(self@).take(n as int).contains(name@),
    {
        let ghost types = types_of(self@);
        let mut i: usize = 0;
        while i < n
            invariant
                i <= n <= self.tokens.len(),
                types == types_of(self@),
                forall|j: int| 0 <= j < i ==> #[trigger] types[j] != name@,
            decreases n - i,
        {
            if text_eq(self.tokens[i].get_unique_type(), name) {
                assert(types.take(n as int)[i as int] == name@);
                return true;
            }
            i = i + 1;
        }
        assert(!types.take(n as int).contains(name@)) by {
            if types.take(n as int).contains(name@) {
                let j = choose|j: int| 0 <= j < n && types.take(n as int)[j] == name@;
                assert(types[j] == name@);
            }
        }
        false
    }

    /// Apply validation rules to the list of tokens.
    ///
    /// This is where we determine whether these tokens are compatible with each other.
    pub fn validate(self) -> (r: Result<Self, String>)
        ensures
            match r {
                Ok(t) => t == self && invalid(self@) is None,
                Err(message) => invalid(self@) == Some(message@),
            },
    {
        let ghost types = types_of(self@);
        let mut i: usize = 0;
        while i < self.tokens.len()
            invariant
                i <= self.tokens.len(),
                types == types_of(self@),
                first_duplicate(types, 0) == first_duplicate(types, i as nat),
            decreases self.tokens.len() - i,
        {
            let t: &'static str = self.tokens[i].get_unique_type();
            assert(t@ == types[i as int]);
            if self.has_type(t, i) {
                return Err(cat3("duplicate token '", t, "' (cannot specify multiple)"));
            }
            i = i + 1;
        }
        i = 0;
        while i < self.tokens.len()
            invariant
                i <= self.tokens.len(),
                types == types_of(self@),
                first_duplicate(types, 0) is None,
                first_conflict(self@, 0) == first_conflict(self@, i as nat),
            decreases self.tokens.len() - i,
        {
            let disallowed: Vec<String> = self.tokens[i].get_disallowed_types();
            let ghost names = self@[i as int].disallowed();
            let mut k: usize = 0;
            while k < disallowed.len()
                invariant
                    k <= disallowed.len(),
                    i < self.tokens.len(),
                    types == types_of(self@),
                    names == self@[i as int].disallowed(),
                    text::texts(disallowed@) == names,
                    first_duplicate(types, 0) is None,
                    first_conflict(self@, 0) == first_conflict(self@, i as nat),
                    first_present(names, types, 0) == first_present(names, types, k as nat),
                decreases disallowed.len() - k,
            {
                let n: usize = self.tokens.len();
                assert(disallowed@[k as int]@ == names[k as int]);
                assert(types.take(n as int) == types);
                if self.has_type(disallowed[k].as_str(), n) {
                    return Err(
                        cat5(
                            "cannot specify '",
                            self.tokens[i].get_unique_type(),
                            "' with '",
                            disallowed[k].as_str(),
                            "'",
                        ),
                    );
                }
                k = k + 1;
            }
            i = i + 1;
        }
        Ok(self)
    }

    /// Reads the items of an attribute. The error comes with the place of the item that it is
    /// about.
    pub fn from_metas(metas: &Vec<Meta>) -> (r: Result<ByTokens, (usize, String)>)
        ensures
            match r {
                Ok(t) => tokens_of(metas@, 0, Seq::empty()) == Ok::<
                    Seq<TokenView>,
                    (int, Seq<char>),
                >(t@),
                Err(e) => tokens_of(metas@, 0, Seq::empty()) == Err::<
                    Seq<TokenView>,
                    (int, Seq<char>),
                >((e.0 as int, e.1@)),
            },
    {
        let mut tokens: ByTokens = ByTokens { tokens: Vec::new() };
        let mut i: usize = 0;
        assert(tokens@ == Seq::<TokenView>::empty());
        while i < metas.len()
            invariant
                i <= metas.len(),
                tokens_of(metas@, 0, Seq::empty()) == tokens_of(metas@, i as nat, tokens@),
            decreases metas.len() - i,
        {
            let token: ByToken = match ByToken::try_from(&metas[i]) {
                Ok(t) => t,
                Err(message) => return Err((i, message)),
            };
            let ghost before = tokens@;
            let mut list: Vec<ByToken> = tokens.tokens;
            list.push(token);
            let all: ByTokens = ByTokens { tokens: list };
            assert(all@ == before.push(token@));
            tokens = match all.validate() {
                Ok(t) => t,
                Err(message) => return Err((i, message)),
            };
            i = i + 1;
        }
        Ok(tokens)
    }

    /// Whether the tokens ask for more than one element.
    pub fn is_multi(&self) -> (r: bool)
        ensures
            r == exists|i: int| 0 <= i < self@.len() && (#[trigger] self@[i]) is Multi,
    {
        let mut i: usize = 0;
        while i < self.tokens.len()
            invariant
                i <= self.tokens.len(),
                forall|j: int| 0 <= j < i ==> !((#[trigger] self@[j]) is Multi),
            decreases self.tokens.len() - i,
        {
            match &self.tokens[i] {
                ByToken::Multi => {
                    assert(self@[i as int] is Multi);
                    return true;
                },
                _ => {},
            }
            i = i + 1;
        }
        false
    }

    /// Whether there is a token that says what to look for.
    pub fn has_selector(&self) -> (r: bool)
        ensures
            r == exists|i: int| 0 <= i < self@.len() && (#[trigger] self@[i]).is_selector(),
    {
        let mut i: usize = 0;
        while i < self.tokens.len()
            invariant
                i <= self.tokens.len(),
                forall|j: int| 0 <= j < i ==> !(#[trigger] self@[j]).is_selector(),
            decreases self.tokens.len() - i,
        {
            match &self.tokens[i] {
                ByToken::Id(_)
                | ByToken::Tag(_)
                | ByToken::LinkText(_)
                | ByToken::Css(_)
                | ByToken::XPath(_)
                | ByToken::Name(_)
                | ByToken::ClassName(_)
                | ByToken::Testid(_) => {
                    assert(self@[i as int].is_selector());
                    return true;
                },
                _ => {},
            }
            i = i + 1;
        }
        false
    }

    /// Whether there is a custom function.
    pub fn has_custom(&self) -> (r: bool)
        ensures
            r == exists|i: int| 0 <= i < self@.len() && (#[trigger] self@[i]) is CustomFn,
    {
        let mut i: usize = 0;
        while i < self.tokens.len()
            invariant
                i <= self.tokens.len(),
                forall|j: int| 0 <= j < i ==> !((#[trigger] self@[j]) is CustomFn),
            decreases self.tokens.len() - i,
        {
            match &self.tokens[i] {
                ByToken::CustomFn(_) => {
                    assert(self@[i as int] is CustomFn);
                    return true;
                },
                _ => {},
            }
            i = i + 1;
        }
        false
    }
}

} // verus!
