//! Cookies.
use crate::json;
use crate::json::{read_opt_bool, read_opt_i64, read_opt_str, read_str, Json, JsonValue, Object};
use crate::text;
use crate::text::text_eq;
use vstd::prelude::*;

verus! {

/// Enum representing the SameSite attribute of a cookie.
#[derive(Debug, Clone, Copy, PartialEq, Eq, Structural)]
pub enum SameSite {
    /// Strict SameSite attribute.
    Strict,
    /// Lax SameSite attribute.
    Lax,
    /// No SameSite attribute.
    Nothing,
}

impl SameSite {
    /// The name of the attribute's value.
    pub open spec fn name(self) -> Seq<char> {
        match self {
            SameSite::Strict => "Strict"@,
            SameSite::Lax => "Lax"@,
            SameSite::Nothing => "None"@,
        }
    }

    /// The name of the attribute's value.
    pub fn to_text(&self) -> (r: String)
        ensures
            r@ == self.name(),
    {
        match self {
            SameSite::Strict => "Strict".to_owned(),
            SameSite::Lax => "Lax".to_owned(),
            SameSite::Nothing => "None".to_owned(),
        }
    }
}

/// Cookie struct used to create new cookies.
#[derive(Debug)]
pub struct Cookie {
    /// The name of the cookie.
    pub name: String,
    /// The value of the cookie.
    pub value: JsonValue,
    /// The path of the cookie.
    pub path: Option<String>,
    /// The domain of the cookie.
    pub domain: Option<String>,
    /// Whether the cookie is secure.
    pub secure: Option<bool>,
    /// The expiry date of the cookie.
    pub expiry: Option<i64>,
    /// The sameSite attribute of the cookie.
    pub same_site: Option<SameSite>,
}

/// What a cookie stands for.
pub struct CookieView {
    pub name: Seq<char>,
    pub value: Json,
    pub path: Option<Seq<char>>,
    pub domain: Option<Seq<char>>,
    pub secure: Option<bool>,
    pub expiry: Option<i64>,
    pub same_site: Option<SameSite>,
}

/// An optional text as JSON.
pub open spec fn some_str(s: Option<Seq<char>>) -> Option<Json> {
    match s {
        Some(s) => Some(Json::Str(s)),
        None => None,
    }
}

impl CookieView {
    /// What the cookie is in a request: name and value, and of the rest what is given.
    pub open spec fn json(self) -> Json {
        let m0 = Map::empty().insert("name"@, Json::Str(self.name)).insert("value"@, self.value);
        let m1 = json::with_member(m0, "path"@, some_str(self.path));
        let m2 = json::with_member(m1, "domain"@, some_str(self.domain));
        let m3 = json::with_member(
            m2,
            "secure"@,
            match self.secure {
                Some(b) => Some(Json::Bool(b)),
                None => None,
            },
        );
        let m4 = json::with_member(
            m3,
            "expiry"@,
            match self.expiry {
                Some(n) => Some(Json::Int(n as int)),
                None => None,
            },
        );
        let m5 = json::with_member(
            m4,
            "sameSite"@,
            match self.same_site {
                Some(s) => Some(Json::Str(s.name())),
                None => None,
            },
        );
        Json::Obj(m5)
    }
}

/// A field for an optional SameSite attribute.
pub open spec fn same_site_field(v: Option<Json>) -> Option<Option<SameSite>> {
    match v {
        None => Some(None),
        Some(Json::Null) => Some(None),
        Some(Json::Str(s)) => if s == "Strict"@ {
            Some(Some(SameSite::Strict))
        } else if s == "Lax"@ {
            Some(Some(SameSite::Lax))
        } else if s == "None"@ {
            Some(Some(SameSite::Nothing))
        } else {
            None
        },
        _ => None,
    }
}

/// A field for an optional number of 64 bits with a sign.
pub open spec fn opt_i64_field(v: Option<Json>) -> Option<Option<i64>> {
    match json::opt_int_field(v, i64::MIN as int, i64::MAX as int) {
        Some(Some(n)) => Some(Some(n as i64)),
        Some(None) => Some(None),
        None => None,
    }
}

/// The cookie that a JSON value is read as, where it is one.
pub open spec fn cookie_of(v: Json) -> Option<CookieView> {
    let name = json::str_field(json::field(v, 0, "name"@));
    let value = json::field(v, 1, "value"@);
    let path = json::opt_str_field(json::field(v, 2, "path"@));
    let domain = json::opt_str_field(json::field(v, 3, "domain"@));
    let secure = json::opt_bool_field(json::field(v, 4, "secure"@));
    let expiry = opt_i64_field(json::field(v, 5, "expiry"@));
    let same_site = same_site_field(json::field(v, 6, "sameSite"@));
    if json::is_record(v, 7) && name is Some && value is Some && path is Some && domain is Some
        && secure is Some && expiry is Some && same_site is Some {
        Some(
            CookieView {
                name: name->0,
                value: value->0,
                path: path->0,
                domain: domain->0,
                secure: secure->0,
                expiry: expiry->0,
                same_site: same_site->0,
            },
        )
    } else {
        None
    }
}

/// A field for an optional SameSite attribute.
fn read_same_site(v: Option<&JsonValue>) -> (r: Option<Option<SameSite>>)
    ensures
        r == same_site_field(json::opt_ref_view(v)),
{
    match v {
        None => Some(None),
        Some(v) => if v.is_null() {
            Some(None)
        } else {
            match v.as_str() {
                Some(s) => if text_eq(s, "Strict") {
                    Some(Some(SameSite::Strict))
                } else if text_eq(s, "Lax") {
                    Some(Some(SameSite::Lax))
                } else if text_eq(s, "None") {
                    Some(Some(SameSite::Nothing))
                } else {
                    None
                },
                None => None,
            }
        },
    }
}

/// An optional text as JSON.
fn some_text(s: &Option<String>) -> (r: Option<JsonValue>)
    ensures
        json::opt_view(r) == some_str(text::opt_text(*s)),
{
    match s {
        Some(s) => Some(JsonValue::text(s.as_str())),
        None => None,
    }
}

impl Cookie {
    /// What this cookie stands for.
    pub open spec fn view(&self) -> CookieView {
        CookieView {
            name: self.name@,
            value: self.value@,
            path: text::opt_text(self.path),
            domain: text::opt_text(self.domain),
            secure: self.secure,
            expiry: self.expiry,
            same_site: self.same_site,
        }
    }

    /// Create a new Cookie struct, specifying the name and the JSON data.
    pub fn new(name: &str, value: JsonValue) -> (r: Self)
        ensures
            r@ == (CookieView {
                name: name@,
                value: value@,
                path: None,
                domain: None,
                secure: None,
                expiry: None,
                same_site: None,
            }),
    {
        Cookie {
            name: name.to_owned(),
            value,
            path: None,
            domain: None,
            secure: None,
            expiry: None,
            same_site: None,
        }
    }

    /// What the cookie is in a request.
    pub fn to_json(&self) -> (r: JsonValue)
        ensures
            r@ == self@.json(),
    {
        let mut o: Object = Object::new();
        o.push("name", JsonValue::text(self.name.as_str()));
        o.push("value", self.value.clone());
        o.insert_some("path", some_text(&self.path));
        o.insert_some("domain", some_text(&self.domain));
        o.insert_some(
            "secure",
            match self.secure {
                Some(b) => Some(JsonValue::Bool(b)),
                None => None,
            },
        );
        o.insert_some(
            "expiry",
            match self.expiry {
                Some(n) => Some(JsonValue::Signed(n)),
                None => None,
            },
        );
        o.insert_some(
            "sameSite",
            match self.same_site {
                Some(s) => Some(JsonValue::String(s.to_text())),
                None => None,
            },
        );
        JsonValue::Object(o)
    }

    /// The cookie that a JSON value is read as, where it is one.
    pub fn from_json(v: &JsonValue) -> (r: Option<Cookie>)
        ensures
            match r {
                Some(c) => cookie_of(v@) == Some(c@),
                None => cookie_of(v@) is None,
            },
    {
        if !v.is_record(7) {
            return None;
        }
        let name: String = match read_str(v.field(0, "name")) {
            Some(s) => s,
            None => return None,
        };
        let value: JsonValue = match v.field(1, "value") {
            Some(value) => value.clone(),
            None => return None,
        };
        let path: Option<String> = match read_opt_str(v.field(2, "path")) {
            Some(s) => s,
            None => return None,
        };
        let domain: Option<String> = match read_opt_str(v.field(3, "domain")) {
            Some(s) => s,
            None => return None,
        };
        let secure: Option<bool> = match read_opt_bool(v.field(4, "secure")) {
            Some(b) => b,
            None => return None,
        };
        let expiry: Option<i64> = match read_opt_i64(v.field(5, "expiry")) {
            Some(n) => n,
            None => return None,
        };
        let same_site: Option<SameSite> = match read_same_site(v.field(6, "sameSite")) {
            Some(s) => s,
            None => return None,
        };
        Some(Cookie { name, value, path, domain, secure, expiry, same_site })
    }
}

/// A cookie that is sent is, where the server sends it back, read as the same cookie.
pub proof fn lemma_cookie_round_trip(c: CookieView)
    ensures
        cookie_of(c.json()) == Some(c),
{
    reveal_strlit("name");
    reveal_strlit("value");
    reveal_strlit("path");
    reveal_strlit("domain");
    reveal_strlit("secure");
    reveal_strlit("expiry");
    reveal_strlit("sameSite");
    reveal_strlit("Strict");
    reveal_strlit("Lax");
    reveal_strlit("None");
    assert("name"@[0] == 'n');
    assert("value"@[0] == 'v');
    assert("path"@[0] == 'p');
    assert("domain"@[0] == 'd');
    assert("secure"@[1] == 'e');
    assert("expiry"@[0] == 'e');
    assert("sameSite"@[1] == 'a');
    assert("sameSite"@[0] == 's');
    assert("secure"@[0] == 's');
    assert("Strict"@[0] == 'S');
    assert("Lax"@[0] == 'L');
    assert("None"@[0] == 'N');
}

} // verus!
