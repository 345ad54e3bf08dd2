//! Printing: which pages, and which way round.
use crate::json::{Json, JsonValue};
use vstd::prelude::*;

verus! {

/// Enum representing the ranges of pages to print
#[derive(Debug)]
pub enum PrintPageRange {
    /// Single page
    Integer(u64),
    /// Range of pages hyphen-separated.
    Range(String),
}

impl PrintPageRange {
    /// What the range is in a request.
    pub open spec fn json(&self) -> Json {
        match self {
            PrintPageRange::Integer(n) => Json::Int(*n as int),
            PrintPageRange::Range(s) => Json::Str(s@),
        }
    }

    /// What the range is in a request.
    pub fn to_json(&self) -> (r: JsonValue)
        ensures
            r@ == self.json(),
    {
        match self {
            PrintPageRange::Integer(n) => JsonValue::Unsigned(*n),
            PrintPageRange::Range(s) => JsonValue::text(s.as_str()),
        }
    }
}

/// Enum representing the printing orientation
#[derive(Debug, Clone, Copy, PartialEq, Eq, Structural)]
pub enum PrintOrientation {
    /// Print in landscape mode
    Landscape,
    /// Print in portrait mode
    Portrait,
}

impl Default for PrintOrientation {
    fn default() -> (r: Self)
        ensures
            r == PrintOrientation::Portrait,
    {
        PrintOrientation::Portrait
    }
}

impl PrintOrientation {
    /// The name of the orientation.
    pub open spec fn name(self) -> Seq<char> {
        match self {
            PrintOrientation::Landscape => "landscape"@,
            PrintOrientation::Portrait => "portrait"@,
        }
    }

    /// What the orientation is in a request.
    pub fn to_json(&self) -> (r: JsonValue)
        ensures
            r@ == Json::Str(self.name()),
    {
        match self {
            PrintOrientation::Landscape => JsonValue::text("landscape"),
            PrintOrientation::Portrait => JsonValue::text("portrait"),
        }
    }
}

} // verus!
