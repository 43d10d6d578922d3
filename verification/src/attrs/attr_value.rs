//! What an attribute value says, apart from how it is stored.

use vstd::prelude::*;
use crate::attrs::attr_literal::AttrLiteral;
use crate::attrs::attr_literal::StringWithMacros;
use crate::attrs::attr_literal::StringWithMacrosPart;
use crate::attrs::coerced_path::CoercedPath;
use crate::attrs::coerced_path::PackageRelativePath;
use crate::attrs::configured_attr::ConfiguredAttr;

verus! {

/// The content of a [`CoercedPath`].
pub enum PathValue {
    File(Seq<char>),
    Directory(Seq<char>, Seq<Seq<char>>),
}

/// The content of a [`StringWithMacrosPart`].
pub enum PartValue {
    String(Seq<char>),
    Macro(bool, Seq<char>),
}

/// The content of a [`StringWithMacros`].
pub enum ArgValue {
    StringPart(Seq<char>),
    ManyParts(Seq<PartValue>),
}

/// The content of an attribute value. Two attributes with the same content
/// are the same key of a dictionary.
pub enum AttrValue {
    Bool(bool),
    Int(i32),
    String(Seq<char>),
    EnumVariant(Seq<char>),
    /// The items, and the text of the item type.
    List(Seq<AttrValue>, Seq<char>),
    Tuple(Seq<AttrValue>),
    Dict(Seq<(AttrValue, AttrValue)>),
    NoValue,
    Dep(Seq<char>),
    ConfigurationDep(Seq<char>),
    SourceFile(PathValue),
    Arg(ArgValue),
    Label(Seq<char>),
}

/// The texts of `files`, one by one.
pub open spec fn path_texts(files: Seq<Box<PackageRelativePath>>) -> Seq<Seq<char>> {
    Seq::new(files.len(), |i: int| files[i]@)
}

/// The contents of `parts`, one by one.
pub open spec fn deep_parts(parts: Seq<StringWithMacrosPart>) -> Seq<PartValue> {
    Seq::new(parts.len(), |i: int| parts[i].deep())
}

impl CoercedPath {
    pub open spec fn deep(&self) -> PathValue {
        match self {
            CoercedPath::File(x) => PathValue::File(x@),
            CoercedPath::Directory(x) => PathValue::Directory(x.dir@, path_texts(x.files@)),
        }
    }
}

impl StringWithMacrosPart {
    pub open spec fn deep(&self) -> PartValue {
        match self {
            StringWithMacrosPart::String(s) => PartValue::String(s@),
            StringWithMacrosPart::Macro(write_to_file, m) => PartValue::Macro(*write_to_file, m@),
        }
    }
}

impl StringWithMacros {
    pub open spec fn deep(&self) -> ArgValue {
        match self {
            StringWithMacros::StringPart(s) => ArgValue::StringPart(s@),
            StringWithMacros::ManyParts(parts) => ArgValue::ManyParts(deep_parts(parts@)),
        }
    }
}

/// The contents of `items`, one by one.
pub open spec fn deep_items(items: Seq<ConfiguredAttr>) -> Seq<AttrValue>
    decreases items,
{
    Seq::new(
        items.len(),
        |i: int|
            if 0 <= i < items.len() {
                items[i].deep()
            } else {
                AttrValue::NoValue
            },
    )
}

/// The contents of `entries`, key and value, one by one.
pub open spec fn deep_entries(entries: Seq<(ConfiguredAttr, ConfiguredAttr)>) -> Seq<
    (AttrValue, AttrValue),
>
    decreases entries,
{
    Seq::new(
        entries.len(),
        |i: int|
            if 0 <= i < entries.len() {
                (entries[i].0.deep(), entries[i].1.deep())
            } else {
                (AttrValue::NoValue, AttrValue::NoValue)
            },
    )
}

impl AttrLiteral {
    pub open spec fn deep(&self) -> AttrValue
        decreases self,
    {
        match self {
            AttrLiteral::Bool(b) => AttrValue::Bool(*b),
            AttrLiteral::Int(i) => AttrValue::Int(*i),
            AttrLiteral::String(s) => AttrValue::String(s@),
            AttrLiteral::EnumVariant(s) => AttrValue::EnumVariant(s@),
            AttrLiteral::List(list) => AttrValue::List(deep_items(list.items@), list.item_type@),
            AttrLiteral::Tuple(items) => AttrValue::Tuple(deep_items(items@)),
            AttrLiteral::Dict(entries) => AttrValue::Dict(deep_entries(entries@)),
            AttrLiteral::NoValue => AttrValue::NoValue,
            AttrLiteral::Dep(d) => AttrValue::Dep(d.label.0@),
            AttrLiteral::ConfigurationDep(t) => AttrValue::ConfigurationDep(t.0@),
            AttrLiteral::SourceFile(p) => AttrValue::SourceFile(p.deep()),
            AttrLiteral::Arg(a) => AttrValue::Arg(a.deep()),
            AttrLiteral::Label(l) => AttrValue::Label(l.0@),
        }
    }
}

impl ConfiguredAttr {
    /// What the value says, apart from how it is stored.
    pub open spec fn deep(&self) -> AttrValue
        decreases self,
    {
        self.0.deep()
    }
}

impl PackageRelativePath {
    /// Whether two paths are the same text.
    pub fn same(&self, other: &PackageRelativePath) -> (same: bool)
        ensures
            same == (self@ == other@),
    {
        self.0 == other.0
    }
}

/// Whether two sequences of paths are the same texts, one by one.
pub fn same_paths(a: &Vec<Box<PackageRelativePath>>, b: &Vec<Box<PackageRelativePath>>) -> (same:
    bool)
    ensures
        same == (path_texts(a@) == path_texts(b@)),
{
    if a.len() != b.len() {
        assert(path_texts(a@).len() != path_texts(b@).len());
        return false;
    }
    let mut i: usize = 0;
    while i < a.len()
        invariant
            i <= a@.len(),
            a@.len() == b@.len(),
            forall|j: int| 0 <= j < i ==> a@[j]@ == b@[j]@,
        decreases a@.len() - i,
    {
        if !a[i].same(&b[i]) {
            assert(path_texts(a@)[i as int] != path_texts(b@)[i as int]);
            return false;
        }
        i = i + 1;
    }
    assert(path_texts(a@) =~= path_texts(b@));
    true
}

impl CoercedPath {
    /// Whether two paths say the same.
    pub fn same(&self, other: &CoercedPath) -> (same: bool)
        ensures
            same == (self.deep() == other.deep()),
    {
        match (self, other) {
            (CoercedPath::File(a), CoercedPath::File(b)) => a.same(b),
            (CoercedPath::Directory(a), CoercedPath::Directory(b)) => a.dir.same(&b.dir)
                && same_paths(&a.files, &b.files),
            _ => false,
        }
    }
}

impl StringWithMacrosPart {
    /// Whether two parts say the same.
    pub fn same(&self, other: &StringWithMacrosPart) -> (same: bool)
        ensures
            same == (self.deep() == other.deep()),
    {
        match (self, other) {
            (StringWithMacrosPart::String(a), StringWithMacrosPart::String(b)) => *a == *b,
            (StringWithMacrosPart::Macro(fa, a), StringWithMacrosPart::Macro(fb, b)) => *fa == *fb
                && *a == *b,
            _ => false,
        }
    }
}

/// Whether two sequences of parts say the same, part by part.
pub fn same_parts(a: &Vec<StringWithMacrosPart>, b: &Vec<StringWithMacrosPart>) -> (same: bool)
    ensures
        same == (deep_parts(a@) == deep_parts(b@)),
{
    if a.len() != b.len() {
        assert(deep_parts(a@).len() != deep_parts(b@).len());
        return false;
    }
    let mut i: usize = 0;
    while i < a.len()
        invariant
            i <= a@.len(),
            a@.len() == b@.len(),
            forall|j: int| 0 <= j < i ==> a@[j].deep() == b@[j].deep(),
        decreases a@.len() - i,
    {
        if !a[i].same(&b[i]) {
            assert(deep_parts(a@)[i as int] != deep_parts(b@)[i as int]);
            return false;
        }
        i = i + 1;
    }
    assert(deep_parts(a@) =~= deep_parts(b@));
    true
}

impl StringWithMacros {
    /// Whether two arguments say the same.
    pub fn same(&self, other: &StringWithMacros) -> (same: bool)
        ensures
            same == (self.deep() == other.deep()),
    {
        match (self, other) {
            (StringWithMacros::StringPart(a), StringWithMacros::StringPart(b)) => *a == *b,
            (StringWithMacros::ManyParts(a), StringWithMacros::ManyParts(b)) => same_parts(a, b),
            _ => false,
        }
    }
}

/// Whether two sequences of values say the same, item by item.
pub fn same_items(a: &Vec<ConfiguredAttr>, b: &Vec<ConfiguredAttr>) -> (same: bool)
    ensures
        same == (deep_items(a@) == deep_items(b@)),
    decreases a,
{
    if a.len() != b.len() {
        assert(deep_items(a@).len() != deep_items(b@).len());
        return false;
    }
    let mut i: usize = 0;
    while i < a.len()
        invariant
            i <= a@.len(),
            a@.len() == b@.len(),
            forall|j: int| 0 <= j < i ==> a@[j].deep() == b@[j].deep(),
        decreases a@.len() - i,
    {
        if !a[i].same(&b[i]) {
            assert(deep_items(a@)[i as int] != deep_items(b@)[i as int]);
            return false;
        }
        i = i + 1;
    }
    assert(deep_items(a@) =~= deep_items(b@));
    true
}

/// Whether two sequences of entries say the same, entry by entry.
pub fn same_entries(
    a: &Vec<(ConfiguredAttr, ConfiguredAttr)>,
    b: &Vec<(ConfiguredAttr, ConfiguredAttr)>,
) -> (same: bool)
    ensures
        same == (deep_entries(a@) == deep_entries(b@)),
    decreases a,
{
    if a.len() != b.len() {
        assert(deep_entries(a@).len() != deep_entries(b@).len());
        return false;
    }
    let mut i: usize = 0;
    while i < a.len()
        invariant
            i <= a@.len(),
            a@.len() == b@.len(),
            forall|j: int|
                0 <= j < i ==> a@[j].0.deep() == b@[j].0.deep() && a@[j].1.deep() == b@[j].1.deep(),
        decreases a@.len() - i,
    {
        if !a[i].0.same(&b[i].0) || !a[i].1.same(&b[i].1) {
            assert(deep_entries(a@)[i as int] != deep_entries(b@)[i as int]);
            return false;
        }
        i = i + 1;
    }
    assert(deep_entries(a@) =~= deep_entries(b@));
    true
}

impl AttrLiteral {
    /// Whether two literals say the same.
    pub fn same(&self, other: &AttrLiteral) -> (same: bool)
        ensures
            same == (self.deep() == other.deep()),
        decreases self,
    {
        match (self, other) {
            (AttrLiteral::Bool(a), AttrLiteral::Bool(b)) => *a == *b,
            (AttrLiteral::Int(a), AttrLiteral::Int(b)) => *a == *b,
            (AttrLiteral::String(a), AttrLiteral::String(b)) => *a == *b,
            (AttrLiteral::EnumVariant(a), AttrLiteral::EnumVariant(b)) => *a == *b,
            (AttrLiteral::List(a), AttrLiteral::List(b)) => same_items(&a.items, &b.items)
                && a.item_type.same(&b.item_type),
            (AttrLiteral::Tuple(a), AttrLiteral::Tuple(b)) => same_items(a, b),
            (AttrLiteral::Dict(a), AttrLiteral::Dict(b)) => same_entries(a, b),
            (AttrLiteral::NoValue, AttrLiteral::NoValue) => true,
            (AttrLiteral::Dep(a), AttrLiteral::Dep(b)) => a.label.0 == b.label.0,
            (AttrLiteral::ConfigurationDep(a), AttrLiteral::ConfigurationDep(b)) => a.0 == b.0,
            (AttrLiteral::SourceFile(a), AttrLiteral::SourceFile(b)) => a.same(b),
            (AttrLiteral::Arg(a), AttrLiteral::Arg(b)) => a.same(b),
            (AttrLiteral::Label(a), AttrLiteral::Label(b)) => a.0 == b.0,
            _ => false,
        }
    }
}

impl ConfiguredAttr {
    /// Whether two values say the same. This is the equality by which
    /// dictionaries tell their keys apart.
    pub fn same(&self, other: &ConfiguredAttr) -> (same: bool)
        ensures
            same == (self.deep() == other.deep()),
        decreases self,
    {
        self.0.same(&other.0)
    }
}

} // verus!
