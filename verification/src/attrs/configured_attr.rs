//! An attribute value after configuration.

use vstd::prelude::*;
use crate::attrs::attr_literal::AttrLiteral;
use crate::attrs::attr_literal::ConfiguredProvidersLabel;
use crate::attrs::attr_literal::ListLiteral;
use crate::attrs::attr_literal::StringWithMacros;
use crate::attrs::attr_literal::TargetLabel;
use crate::attrs::concat::agrees;
use crate::attrs::concat::concat_arg_items;
use crate::attrs::concat::concat_dict_items;
use crate::attrs::concat::concat_list_items;
use crate::attrs::concat::concat_string_items;
use crate::attrs::concat::dict_from_entries;
use crate::attrs::concat::into_parts;
use crate::attrs::concat::spec_concat;
use crate::attrs::concat::ConcatError;
use crate::attrs::concat::ConfiguredAttrError;

verus! {

/// An attribute value in which every choice has been made.
#[derive(Debug, PartialEq, Eq, Hash)]
pub struct ConfiguredAttr(pub AttrLiteral);

impl ConfiguredAttr {
    pub fn new(v: AttrLiteral) -> (attr: ConfiguredAttr)
        ensures
            attr.0 == v,
    {
        ConfiguredAttr(v)
    }

    /// Adds `items` to this value, in order.
    ///
    /// Lists of one item type add up to the list of all their items,
    /// dictionaries without a common key to the dictionary of all their
    /// entries, strings to their concatenation and arguments to the
    /// argument made of all their parts. Values of other kinds cannot be
    /// added to. The first of `items` that is a failure, or does not fit,
    /// ends the sum with that failure.
    pub fn concat<E>(self, items: Vec<Result<ConfiguredAttr, E>>) -> (result: Result<
        ConfiguredAttr,
        ConcatError<E>,
    >)
        ensures
            agrees(result, spec_concat(self, items@)),
    {
        match self.0 {
            AttrLiteral::List(list) => {
                let list = *list;
                match concat_list_items(list.item_type, list.items, items) {
                    Ok((items, item_type)) => Ok(
                        ConfiguredAttr(AttrLiteral::List(Box::new(ListLiteral { items, item_type }))),
                    ),
                    Err(e) => Err(e),
                }
            },
            AttrLiteral::Dict(left) => {
                match concat_dict_items(dict_from_entries(left), items) {
                    Ok(entries) => Ok(ConfiguredAttr(AttrLiteral::Dict(entries))),
                    Err(e) => Err(e),
                }
            },
            AttrLiteral::String(res) => {
                match concat_string_items(res, items) {
                    Ok(res) => Ok(ConfiguredAttr(AttrLiteral::String(res))),
                    Err(e) => Err(e),
                }
            },
            AttrLiteral::Arg(left) => {
                match concat_arg_items(into_parts(left), items) {
                    Ok(parts) => Ok(ConfiguredAttr(AttrLiteral::Arg(StringWithMacros::ManyParts(parts)))),
                    Err(e) => Err(e),
                }
            },
            val => Err(ConcatError::Attr(ConfiguredAttrError::ConcatNotSupported(val))),
        }
    }

    /// The label of the dependency, if the value is one.
    pub fn unpack_dep(&self) -> (label: Option<&ConfiguredProvidersLabel>)
        ensures
            match self.0 {
                AttrLiteral::Dep(d) => label == Some(&d.label),
                _ => label is None,
            },
    {
        match &self.0 {
            AttrLiteral::Dep(d) => Some(&d.label),
            _ => None,
        }
    }

    /// The label of the dependency, if the value is one.
    pub fn try_into_dep(self) -> (label: Option<ConfiguredProvidersLabel>)
        ensures
            match self.0 {
                AttrLiteral::Dep(d) => label == Some(d.label),
                _ => label is None,
            },
    {
        match self.0 {
            AttrLiteral::Dep(d) => Some(d.label),
            _ => None,
        }
    }

    /// The target of the configuration dependency, if the value is one.
    pub fn try_into_configuration_dep(self) -> (label: Option<TargetLabel>)
        ensures
            match self.0 {
                AttrLiteral::ConfigurationDep(d) => label == Some(*d),
                _ => label is None,
            },
    {
        match self.0 {
            AttrLiteral::ConfigurationDep(d) => Some(*d),
            _ => None,
        }
    }

    /// The items of the list, if the value is one.
    pub fn unpack_list(&self) -> (items: Option<&[ConfiguredAttr]>)
        ensures
            match self.0 {
                AttrLiteral::List(list) => items matches Some(items) && items@ == list.items@,
                _ => items is None,
            },
    {
        match &self.0 {
            AttrLiteral::List(list) => Some(list.items.as_slice()),
            _ => None,
        }
    }

    /// The items of the list, if the value is one.
    pub fn try_into_list(self) -> (items: Option<Vec<ConfiguredAttr>>)
        ensures
            match self.0 {
                AttrLiteral::List(list) => items == Some(list.items),
                _ => items is None,
            },
    {
        match self.0 {
            AttrLiteral::List(list) => Some(list.items),
            _ => None,
        }
    }

    /// The label, if the value is one.
    pub fn unpack_label(&self) -> (label: Option<&ConfiguredProvidersLabel>)
        ensures
            match self.0 {
                AttrLiteral::Label(l) => label == Some(&*l),
                _ => label is None,
            },
    {
        match &self.0 {
            AttrLiteral::Label(label) => Some(label),
            _ => None,
        }
    }

    /// The label, if the value is one.
    pub fn try_into_label(self) -> (label: Option<ConfiguredProvidersLabel>)
        ensures
            match self.0 {
                AttrLiteral::Label(l) => label == Some(*l),
                _ => label is None,
            },
    {
        match self.0 {
            AttrLiteral::Label(label) => Some(*label),
            _ => None,
        }
    }
}

} // verus!
