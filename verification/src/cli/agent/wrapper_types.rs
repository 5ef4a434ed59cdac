//! Tool names as they appear in an agent's configuration, kept apart by
//! type so that the two uses cannot be confused.

use vstd::prelude::*;

verus! {

/// The characters of a borrowed text.
pub open spec fn text_of(text: &str) -> Seq<char> {
    text@
}

/// Subject of the tool name change. For tools in mcp servers, you would
/// need to prefix them with their server names.
#[derive(Debug, Clone, PartialEq, Eq, Hash)]
pub struct OriginalToolName(String);

impl View for OriginalToolName {
    type V = Seq<char>;

    closed spec fn view(&self) -> Seq<char> {
        self.0@
    }
}

impl OriginalToolName {
    /// Wraps a name.
    pub fn new(name: String) -> (wrapped: Self)
        ensures
            wrapped@ == name@,
    {
        Self(name)
    }
}

impl std::ops::Deref for OriginalToolName {
    type Target = String;

    fn deref(&self) -> (name: &String)
        ensures
            name@ == self@,
    {
        &self.0
    }
}

impl std::borrow::Borrow<str> for OriginalToolName {
    fn borrow(&self) -> (name: &str)
        ensures
            text_of(name) == self@,
    {
        self.0.as_str()
    }
}

/// The name of the tool to be configured.
#[derive(Debug, Clone, PartialEq, Eq, Hash)]
pub struct ToolSettingTarget(String);

impl View for ToolSettingTarget {
    type V = Seq<char>;

    closed spec fn view(&self) -> Seq<char> {
        self.0@
    }
}

impl ToolSettingTarget {
    /// Wraps a name.
    pub fn new(name: String) -> (wrapped: Self)
        ensures
            wrapped@ == name@,
    {
        Self(name)
    }
}

impl std::ops::Deref for ToolSettingTarget {
    type Target = String;

    fn deref(&self) -> (name: &String)
        ensures
            name@ == self@,
    {
        &self.0
    }
}

impl std::borrow::Borrow<str> for ToolSettingTarget {
    fn borrow(&self) -> (name: &str)
        ensures
            text_of(name) == self@,
    {
        self.0.as_str()
    }
}

/// The description that a schema gives to the keys of a map of tool
/// names: the one found in the key type's own schema, else the fallback.
pub fn key_description<'a>(found: Option<&'a str>, fallback: &'a str) -> (description: &'a str)
    ensures
        description@ == (match found {
            Some(text) => text@,
            None => fallback@,
        }),
{
    match found {
        Some(text) => text,
        None => fallback,
    }
}

} // verus!
