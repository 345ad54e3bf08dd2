//! The `#[by(..)]` attribute, and the code that a component is derived to.
use thirtyfour::bytoken::{ByToken, ByTokens, Meta, MetaPath, MetaValue, NestedMeta};
use thirtyfour::component::{
    expand_component_derive, fix_type, is_multi_resolver, is_type, FieldAttr, FieldType,
    MultiResolverArgs, ParsedField, ParsedOptions, SingleResolverArgs, TypeArg, TypeArgs, TypePath,
    TypeSegment,
};

fn ident(name: &str) -> MetaPath {
    MetaPath { single: true, text: name.to_string() }
}

fn word(name: &str) -> Meta {
    Meta::Path(ident(name))
}

fn text(name: &str, value: &str) -> Meta {
    Meta::NameValue(
        ident(name),
        MetaValue { literal: Some(value.to_string()), text: format!("\"{}\"", value) },
    )
}

fn expr(name: &str, value: &str) -> Meta {
    Meta::NameValue(ident(name), MetaValue { literal: None, text: value.to_string() })
}

fn wait(items: &[(&str, &str)]) -> Meta {
    let nested = items
        .iter()
        .map(|(n, v)| NestedMeta { path: ident(n), value: Ok(v.to_string()) })
        .collect();
    Meta::List(ident("wait"), nested, None)
}

fn tokens(metas: Vec<Meta>) -> Result<ByTokens, (usize, String)> {
    ByTokens::from_metas(&metas)
}

fn refused(metas: Vec<Meta>) -> String {
    tokens(metas).unwrap_err().1
}

#[test]
fn every_token() {
    let read = |m: Meta| format!("{:?}", ByToken::try_from(&m).unwrap());
    assert_eq!(read(text("id", "x")), "Id(\"x\")");
    assert_eq!(read(text("tag", "x")), "Tag(\"x\")");
    assert_eq!(read(text("link", "x")), "LinkText(\"x\")");
    assert_eq!(read(text("css", "x")), "Css(\"x\")");
    assert_eq!(read(text("xpath", "x")), "XPath(\"x\")");
    assert_eq!(read(text("name", "x")), "Name(\"x\")");
    assert_eq!(read(text("class", "x")), "ClassName(\"x\")");
    assert_eq!(read(text("testid", "x")), "Testid(\"x\")");
    assert_eq!(read(text("description", "x")), "Description(\"x\")");
    assert_eq!(read(expr("custom", "f")), "CustomFn(\"f\")");
    assert_eq!(read(word("multi")), "Multi");
    assert_eq!(read(word("not_empty")), "NotEmpty");
    assert_eq!(read(word("allow_empty")), "AllowEmpty");
    assert_eq!(read(word("single")), "Single");
    assert_eq!(read(word("first")), "First");
    assert_eq!(read(word("ignore_errors")), "IgnoreErrors");
    assert_eq!(read(word("allow_errors")), "IgnoreErrors");
    assert_eq!(read(word("nowait")), "NoWait");
    match ByToken::try_from(&wait(&[("interval_ms", "5"), ("timeout_ms", "10")])).unwrap() {
        ByToken::Wait(w) => {
            assert_eq!(w.timeout_ms, "10");
            assert_eq!(w.interval_ms, "5");
        }
        _ => unreachable!(),
    }
}

#[test]
fn tokens_that_are_none() {
    let e = |m: Meta| ByToken::try_from(&m).unwrap_err();
    assert_eq!(e(word("odd")), "unknown attribute odd");
    assert_eq!(e(text("odd", "x")), "unknown attribute: odd");
    assert_eq!(e(expr("id", "x")), "unknown attribute: id");
    assert_eq!(e(Meta::List(ident("odd"), vec![], None)), "unknown attribute: odd");
    assert_eq!(
        e(Meta::Path(MetaPath { single: false, text: "a::multi".to_string() })),
        "unknown attribute a::multi"
    );
    assert_eq!(
        e(wait(&[("timeout_ms", "1")])),
        "wait attribute requires the following args: timeout_ms, interval_ms"
    );
    assert_eq!(
        e(wait(&[("timeout_ms", "1"), ("timeout_ms", "2")])),
        "cannot specify timeout twice"
    );
    assert_eq!(
        e(wait(&[("interval_ms", "1"), ("interval_ms", "2")])),
        "cannot specify interval twice"
    );
    assert_eq!(
        e(wait(&[("odd", "1")])),
        "unknown attribute odd (must be timeout_ms or interval_ms)"
    );
    assert_eq!(e(Meta::List(ident("wait"), vec![], Some("cut".to_string()))), "cut");
}

#[test]
fn tokens_that_do_not_go_together() {
    assert!(tokens(vec![text("id", "x"), word("multi"), word("allow_empty")]).is_ok());
    assert_eq!(
        refused(vec![text("id", "x"), text("css", "y")]),
        "duplicate token 'selector' (cannot specify multiple)"
    );
    assert_eq!(
        refused(vec![word("single"), word("multi")]),
        "cannot specify 'single' with 'multi'"
    );
    assert_eq!(
        refused(vec![word("first"), word("single")]),
        "cannot specify 'first' with 'single'"
    );
    assert_eq!(
        refused(vec![word("nowait"), wait(&[("timeout_ms", "1"), ("interval_ms", "1")])]),
        "cannot specify 'nowait' with 'wait'"
    );
    assert_eq!(
        refused(vec![word("not_empty"), word("allow_empty")]),
        "cannot specify 'not_empty' with 'allow_empty'"
    );
    assert_eq!(
        refused(vec![expr("custom", "f"), word("first")]),
        "cannot specify 'custom' with 'first'"
    );
    assert_eq!(
        refused(vec![expr("custom", "f"), text("description", "d")]),
        "cannot specify 'custom' with 'description'"
    );
    let at = tokens(vec![text("id", "x"), word("odd")]).unwrap_err();
    assert_eq!(at.0, 1);
}

#[test]
fn resolvers_of_one_element() {
    let code = |metas: Vec<Meta>| {
        SingleResolverArgs::try_new("R".to_string(), tokens(metas).unwrap()).map(|a| a.to_code())
    };
    assert_eq!(
        code(vec![text("id", "x")]).unwrap(),
        "R::new_single_opts(base.clone(), ::thirtyfour::By::Id(\"x\"), \
         ::thirtyfour::extensions::query::ElementQueryOptions::default()\
         .set_ignore_errors(::std::option::Option::None)\
         .set_description::<String>(::std::option::Option::None)\
         .set_wait(::std::option::Option::None))"
            .replace("::thirtyfour::By::Id(\"x\")", &by("Id", "x"))
    );
    let first = code(vec![text("css", "x"), word("first"), word("nowait")]).unwrap();
    assert!(first.starts_with("R::new_first_opts(base.clone(), "));
    assert!(first.contains("ElementQueryWaitOptions::NoWait"));
    let waiting =
        code(vec![text("css", "x"), wait(&[("timeout_ms", "10"), ("interval_ms", "5")])]).unwrap();
    assert!(waiting.contains("timeout: ::std::time::Duration::from_millis(10)"));
    assert!(waiting.contains("interval: ::std::time::Duration::from_millis(5)"));
    assert_eq!(code(vec![expr("custom", "f")]).unwrap(), "R::new_custom(base.clone(), f)");
    assert_eq!(
        code(vec![text("css", "x"), word("allow_empty")]).unwrap_err(),
        "unexpected extra args"
    );
}

/// The code for a selector, as a resolver has it.
fn by(kind: &str, value: &str) -> String {
    let args = SingleResolverArgs::try_new(
        "R".to_string(),
        tokens(vec![text(&kind.to_lowercase(), value)]).unwrap(),
    );
    let code = args.unwrap().to_code();
    let rest = code.strip_prefix("R::new_single_opts(base.clone(), ").unwrap();
    let by = rest.split(", ::thirtyfour::extensions").next().unwrap().to_string();
    assert!(by.contains(&format!("By::{}(", kind)), "{}", by);
    assert!(by.contains(value));
    by
}

#[test]
fn resolvers_of_several_elements() {
    let code = |metas: Vec<Meta>| {
        MultiResolverArgs::try_new("R".to_string(), tokens(metas).unwrap()).map(|a| a.to_code())
    };
    let some = code(vec![text("class", "x"), word("multi"), word("not_empty")]).unwrap();
    assert!(some.starts_with("R::new_not_empty_opts(base.clone(), "));
    let any = code(vec![text("class", "x"), word("allow_empty"), word("ignore_errors")]).unwrap();
    assert!(any.starts_with("R::new_allow_empty_opts(base.clone(), "));
    assert!(any.contains(".set_ignore_errors(::std::option::Option::Some(true))"));
    let named = code(vec![text("class", "x"), text("description", "d")]).unwrap();
    assert!(named.contains(".set_description::<String>(::std::option::Option::Some("));
    assert!(named.ends_with(".set_wait(None))"));
    assert_eq!(
        code(vec![text("class", "x"), word("first")]).unwrap_err(),
        "unexpected extra args"
    );
}

fn segment(ident: &str) -> TypeSegment {
    TypeSegment { ident: ident.to_string(), args: TypeArgs::Nothing }
}

fn generic(ident: &str, args: Vec<TypeArg>, text: &str) -> TypeSegment {
    TypeSegment { ident: ident.to_string(), args: TypeArgs::Angle(args, text.to_string()) }
}

fn path(segments: Vec<TypeSegment>) -> TypePath {
    TypePath { leading: false, segments }
}

fn of_vec() -> TypeSegment {
    let vec = TypeArg::Path(vec!["Vec".to_string()]);
    generic("ElementResolver", vec![vec], "<Vec<WebElement>>")
}

#[test]
fn types() {
    let plain = path(vec![segment("a"), segment("B")]);
    assert!(is_type(&plain, &["B", "a|B"]));
    assert!(!is_type(&plain, &["B", "b|B"]));
    assert_eq!(fix_type(&plain), "a::B");
    assert_eq!(fix_type(&path(vec![of_vec()])), "ElementResolver::<Vec<WebElement>>");
    assert!(is_multi_resolver(&path(vec![of_vec()])));
    assert!(is_multi_resolver(&path(vec![segment("components"), of_vec()])));
    assert!(is_multi_resolver(&path(vec![segment("ElementResolverMulti")])));
    assert!(!is_multi_resolver(&path(vec![segment("ElementResolverSingle")])));
    let single = generic(
        "ElementResolver",
        vec![TypeArg::Path(vec!["WebElement".to_string()])],
        "<WebElement>",
    );
    assert!(!is_multi_resolver(&path(vec![single])));
    let lifetime = generic(
        "ElementResolver",
        vec![TypeArg::Other, TypeArg::Path(vec!["std".to_string(), "vec".to_string(), "Vec".to_string()])],
        "<'a, std::vec::Vec<T>>",
    );
    assert!(is_multi_resolver(&path(vec![lifetime])));
    let long = TypePath { leading: true, segments: vec![segment("a"), segment("B")] };
    assert_eq!(fix_type(&long), "::a::B");
}

fn field(name: &str, ty: FieldType, attrs: Vec<FieldAttr>) -> ParsedField {
    ParsedField { ident: name.to_string(), ty, attrs }
}

fn attr(name: &str, metas: Vec<Meta>) -> FieldAttr {
    FieldAttr { path: ident(name), text: format!("#[{}]", name), metas: Ok(metas) }
}

fn element() -> FieldType {
    FieldType::Path(path(vec![segment("WebElement")]))
}

fn resolver() -> FieldType {
    FieldType::Path(path(vec![segment("ElementResolverSingle")]))
}

fn derive(fields: Vec<ParsedField>) -> Result<String, (Option<usize>, String)> {
    assert!(fields.iter().all(|f| f.is_complete()));
    expand_component_derive(ParsedOptions { ident: "Page".to_string(), fields })
        .map_err(|e| (e.field, e.message))
}

#[test]
fn a_component() {
    let code = derive(vec![
        field("base", element(), vec![]),
        field("link", resolver(), vec![attr("by", vec![expr("custom", "f")])]),
        field("count", FieldType::Other, vec![attr("cfg", vec![])]),
    ]);
    assert_eq!(
        code.unwrap(),
        "impl Page { pub fn new(base: ::thirtyfour::WebElement) -> Self { \
         let link = { ElementResolverSingle::new_custom(base.clone(), f) }; \
         #[cfg] let count = Default::default(); \
         Self { base: base, link, #[cfg] count, } } } \
         #[automatically_derived] impl From<::thirtyfour::WebElement> for Page { \
         fn from(elem: ::thirtyfour::WebElement) -> Self { Self::new(elem) } } \
         #[automatically_derived] impl ::thirtyfour::components::Component for Page { \
         fn base_element(&self) -> ::thirtyfour::WebElement { self.base.clone() } }"
    );
}

#[test]
fn the_base_of_a_component() {
    let base = |name: &str| field(name, element(), vec![attr("base", vec![])]);
    assert!(derive(vec![base("root")]).unwrap().contains("Self { root: base,"));
    assert_eq!(
        derive(vec![base("root"), base("other")]).unwrap_err(),
        (Some(1), "cannot specify multiple base fields".to_string())
    );
    assert_eq!(
        derive(vec![]).unwrap_err(),
        (
            None,
            "base field not found. Add the #[base] attribute for the base WebElement field"
                .to_string()
        )
    );
    assert_eq!(
        derive(vec![field("base", resolver(), vec![])]).unwrap_err().1,
        "base element field must be of type thirtyfour::WebElement"
    );
    assert_eq!(
        derive(vec![field("base", FieldType::Other, vec![])]).unwrap_err().1,
        "base element field is not a thirtyfour::WebElement"
    );
    let several = field(
        "links",
        resolver(),
        vec![attr("by", vec![text("css", "a"), word("multi"), word("first")])],
    );
    let e = derive(vec![base("root"), several]).unwrap_err();
    assert_eq!(e, (Some(1), "cannot specify 'first' with 'multi'".to_string()));
}

#[test]
fn a_field_without_a_selector_is_not_complete() {
    let bare = field("link", resolver(), vec![attr("by", vec![word("first")])]);
    assert!(!bare.is_complete());
    assert!(field("link", FieldType::Other, vec![]).is_complete());
    let twice =
        field("a", resolver(), vec![attr("by", vec![text("id", "x"), text("id", "y")])]);
    let options =
        |fields: Vec<ParsedField>| ParsedOptions { ident: "Page".to_string(), fields };
    let link = || field("link", resolver(), vec![attr("by", vec![word("first")])]);
    let base = || field("base", element(), vec![]);
    assert!(options(vec![link()]).lacks_selector());
    assert!(options(vec![base(), link()]).lacks_selector());
    assert!(!options(vec![base()]).lacks_selector());
    // Another fault that comes first is what counts.
    assert!(!options(vec![base(), field("b", element(), vec![attr("base", vec![])]), link()])
        .lacks_selector());
    let two = options(vec![twice, bare]);
    assert!(!two.lacks_selector());
    assert_eq!(expand_component_derive(two).unwrap_err().field, Some(0));
}
