//! The literal values of attributes.

use vstd::prelude::*;
use crate::attrs::coerced_path::CoercedPath;
use crate::attrs::configured_attr::ConfiguredAttr;

verus! {

/// The type of an attribute, by the text that denotes it in a rule
/// definition. Two types are the same where their texts are.
#[derive(Debug, Clone, PartialEq, Eq, Hash)]
pub struct AttrType(pub String);

impl View for AttrType {
    type V = Seq<char>;

    open spec fn view(&self) -> Seq<char> {
        self.0@
    }
}

impl AttrType {
    /// The type of attributes that take any value.
    pub fn any() -> (any: AttrType)
        ensures
            any@ == "attrs.any()"@,
    {
        AttrType("attrs.any()".to_owned())
    }

    /// Whether two types are the same.
    pub fn same(&self, other: &AttrType) -> (same: bool)
        ensures
            same == (self@ == other@),
    {
        self.0 == other.0
    }
}

/// A target, by its label.
#[derive(Debug, Clone, PartialEq, Eq, Hash)]
pub struct TargetLabel(pub String);

/// The providers of a configured target, by their label.
#[derive(Debug, Clone, PartialEq, Eq, Hash)]
pub struct ConfiguredProvidersLabel(pub String);

/// A dependency on the providers of a target.
#[derive(Debug, Clone, PartialEq, Eq, Hash)]
pub struct DepAttr {
    pub label: ConfiguredProvidersLabel,
}

/// A piece of an argument: plain text, or a macro yet to be expanded.
#[derive(Debug, Clone, PartialEq, Eq, Hash)]
pub enum StringWithMacrosPart {
    String(String),
    /// The macro as written; the flag says whether its expansion goes to a
    /// file.
    Macro(bool, String),
}

/// An argument that may hold macros.
#[derive(Debug, Clone, PartialEq, Eq, Hash)]
pub enum StringWithMacros {
    /// Plain text and nothing else.
    StringPart(String),
    ManyParts(Vec<StringWithMacrosPart>),
}

/// A list, with the type that all its items have.
#[derive(Debug, PartialEq, Eq, Hash)]
pub struct ListLiteral {
    pub items: Vec<ConfiguredAttr>,
    pub item_type: AttrType,
}

/// The value of an attribute.
#[derive(Debug, PartialEq, Eq, Hash)]
pub enum AttrLiteral {
    Bool(bool),
    Int(i32),
    String(String),
    /// Like `String`, but drawn from a fixed set of variants.
    EnumVariant(String),
    List(Box<ListLiteral>),
    Tuple(Vec<ConfiguredAttr>),
    Dict(Vec<(ConfiguredAttr, ConfiguredAttr)>),
    /// The attribute was given no value.
    NoValue,
    Dep(Box<DepAttr>),
    ConfigurationDep(Box<TargetLabel>),
    SourceFile(CoercedPath),
    Arg(StringWithMacros),
    /// Unlike a dependency a label is not traversed: labels stand in for
    /// dependencies that would close a cycle.
    Label(Box<ConfiguredProvidersLabel>),
}

} // verus!
