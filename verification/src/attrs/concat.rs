//! What the sum of attribute values is.
//!
//! A value to which others are added has to be a list, a dictionary, a
//! string or an argument, and the others have to be of the same kind. The
//! addends come one by one, each of them a value or the failure to make
//! one, and the first that fails or does not fit ends the sum.

use vstd::prelude::*;
use vstd::string::StringExecFns;
use crate::attrs::attr_literal::AttrLiteral;
use crate::attrs::attr_literal::AttrType;
use crate::attrs::attr_literal::StringWithMacros;
use crate::attrs::attr_literal::StringWithMacrosPart;
use crate::attrs::attr_value::AttrValue;
use crate::attrs::configured_attr::ConfiguredAttr;

verus! {

/// The kinds of value that can be added up.
#[derive(Debug, Clone, Copy, PartialEq, Eq, Hash, Structural)]
pub enum ConcatKind {
    List,
    Dict,
    String,
    Arg,
}

impl ConcatKind {
    /// The name of the kind.
    pub fn name(&self) -> (name: &'static str)
        ensures
            name@ == match *self {
                ConcatKind::List => "list"@,
                ConcatKind::Dict => "dict"@,
                ConcatKind::String => "string"@,
                ConcatKind::Arg => "arg"@,
            },
    {
        match self {
            ConcatKind::List => "list",
            ConcatKind::Dict => "dict",
            ConcatKind::String => "string",
            ConcatKind::Arg => "arg",
        }
    }
}

/// Why attribute values could not be added up.
#[derive(Debug, PartialEq, Eq)]
pub enum ConfiguredAttrError {
    /// Values like this one cannot be added to.
    ConcatNotSupported(AttrLiteral),
    /// To a value of the given kind, this value cannot be added.
    ConcatNotSupportedValues(ConcatKind, AttrLiteral),
    /// A dictionary that was added holds this key, which is there already.
    DictConcatDuplicateKeys(ConfiguredAttr),
    /// A list of the second item type was added to one of the first.
    ConcatListDifferentTypes(AttrType, AttrType),
}

/// Why a sum could not be made: an addend was not there, or did not fit.
#[derive(Debug, PartialEq, Eq)]
pub enum ConcatError<E> {
    /// The failure that came in place of an addend.
    Item(E),
    Attr(ConfiguredAttrError),
}

/// The content of a sum.
pub enum Concatenated {
    /// The items and their type.
    List(Seq<ConfiguredAttr>, AttrType),
    Dict(Seq<(ConfiguredAttr, ConfiguredAttr)>),
    String(Seq<char>),
    /// The parts of the argument.
    Arg(Seq<StringWithMacrosPart>),
}

/// The failure of an addend that is not of the kind of the sum.
pub open spec fn mismatch<E>(kind: ConcatKind, attr: AttrLiteral) -> ConcatError<E> {
    ConcatError::Attr(ConfiguredAttrError::ConcatNotSupportedValues(kind, attr))
}

/// The items of a list of type `item_type` that holds `acc`, after the
/// lists in `items` were added to it.
pub open spec fn concat_list<E>(
    item_type: AttrType,
    acc: Seq<ConfiguredAttr>,
    items: Seq<Result<ConfiguredAttr, E>>,
) -> Result<Seq<ConfiguredAttr>, ConcatError<E>>
    decreases items.len(),
{
    if items.len() == 0 {
        Ok(acc)
    } else {
        match items[0] {
            Err(e) => Err(ConcatError::Item(e)),
            Ok(ConfiguredAttr(AttrLiteral::List(list))) => if item_type@ != list.item_type@ {
                Err(
                    ConcatError::Attr(
                        ConfiguredAttrError::ConcatListDifferentTypes(item_type, list.item_type),
                    ),
                )
            } else {
                concat_list(item_type, acc + list.items@, items.drop_first())
            },
            Ok(ConfiguredAttr(attr)) => Err(mismatch(ConcatKind::List, attr)),
        }
    }
}

/// The text `acc`, after the strings in `items` were added to it.
pub open spec fn concat_string<E>(acc: Seq<char>, items: Seq<Result<ConfiguredAttr, E>>) -> Result<
    Seq<char>,
    ConcatError<E>,
>
    decreases items.len(),
{
    if items.len() == 0 {
        Ok(acc)
    } else {
        match items[0] {
            Err(e) => Err(ConcatError::Item(e)),
            Ok(ConfiguredAttr(AttrLiteral::String(right))) => concat_string(
                acc + right@,
                items.drop_first(),
            ),
            Ok(ConfiguredAttr(attr)) => Err(mismatch(ConcatKind::String, attr)),
        }
    }
}

/// The parts that an argument contributes to a sum: plain text is one
/// part.
pub open spec fn parts_of(arg: StringWithMacros) -> Seq<StringWithMacrosPart> {
    match arg {
        StringWithMacros::StringPart(s) => seq![StringWithMacrosPart::String(s)],
        StringWithMacros::ManyParts(parts) => parts@,
    }
}

/// The parts `acc`, after the arguments in `items` were added to them.
pub open spec fn concat_arg<E>(
    acc: Seq<StringWithMacrosPart>,
    items: Seq<Result<ConfiguredAttr, E>>,
) -> Result<Seq<StringWithMacrosPart>, ConcatError<E>>
    decreases items.len(),
{
    if items.len() == 0 {
        Ok(acc)
    } else {
        match items[0] {
            Err(e) => Err(ConcatError::Item(e)),
            Ok(ConfiguredAttr(AttrLiteral::Arg(right))) => concat_arg(
                acc + parts_of(right),
                items.drop_first(),
            ),
            Ok(ConfiguredAttr(attr)) => Err(mismatch(ConcatKind::Arg, attr)),
        }
    }
}

/// Whether `entries` holds a key that says `key`.
pub open spec fn has_key(entries: Seq<(ConfiguredAttr, ConfiguredAttr)>, key: AttrValue) -> bool {
    exists|j: int| 0 <= j < entries.len() && #[trigger] entries[j].0.deep() == key
}

/// Whether `j` is the place of the first key in `entries` that says `key`.
pub open spec fn is_first_key(
    entries: Seq<(ConfiguredAttr, ConfiguredAttr)>,
    key: AttrValue,
    j: int,
) -> bool {
    &&& 0 <= j < entries.len()
    &&& entries[j].0.deep() == key
    &&& forall|i: int| 0 <= i < j ==> #[trigger] entries[i].0.deep() != key
}

/// The place of the first key in `entries` that says `key`.
pub open spec fn first_key(entries: Seq<(ConfiguredAttr, ConfiguredAttr)>, key: AttrValue) -> int {
    choose|j: int| is_first_key(entries, key, j)
}

/// `entries` after `key` was set to `value`: a key that is there keeps its
/// place and gets the new value, a new key goes to the end.
pub open spec fn dict_insert(
    entries: Seq<(ConfiguredAttr, ConfiguredAttr)>,
    key: ConfiguredAttr,
    value: ConfiguredAttr,
) -> Seq<(ConfiguredAttr, ConfiguredAttr)> {
    if has_key(entries, key.deep()) {
        let j = first_key(entries, key.deep());
        entries.update(j, (entries[j].0, value))
    } else {
        entries.push((key, value))
    }
}

/// The entries of the dictionary made by setting each key of `left` in
/// turn, on top of `acc`.
pub open spec fn dict_from(
    acc: Seq<(ConfiguredAttr, ConfiguredAttr)>,
    left: Seq<(ConfiguredAttr, ConfiguredAttr)>,
) -> Seq<(ConfiguredAttr, ConfiguredAttr)>
    decreases left.len(),
{
    if left.len() == 0 {
        acc
    } else {
        dict_from(dict_insert(acc, left[0].0, left[0].1), left.drop_first())
    }
}

/// `acc` after the entries of `right` were added at the end, none of whose
/// keys may be there already.
pub open spec fn dict_extend(
    acc: Seq<(ConfiguredAttr, ConfiguredAttr)>,
    right: Seq<(ConfiguredAttr, ConfiguredAttr)>,
) -> Result<Seq<(ConfiguredAttr, ConfiguredAttr)>, ConfiguredAttrError>
    decreases right.len(),
{
    if right.len() == 0 {
        Ok(acc)
    } else if has_key(acc, right[0].0.deep()) {
        Err(ConfiguredAttrError::DictConcatDuplicateKeys(right[0].0))
    } else {
        dict_extend(acc.push(right[0]), right.drop_first())
    }
}

/// The entries `acc`, after the dictionaries in `items` were added to them.
pub open spec fn concat_dict<E>(
    acc: Seq<(ConfiguredAttr, ConfiguredAttr)>,
    items: Seq<Result<ConfiguredAttr, E>>,
) -> Result<Seq<(ConfiguredAttr, ConfiguredAttr)>, ConcatError<E>>
    decreases items.len(),
{
    if items.len() == 0 {
        Ok(acc)
    } else {
        match items[0] {
            Err(e) => Err(ConcatError::Item(e)),
            Ok(ConfiguredAttr(AttrLiteral::Dict(right))) => match dict_extend(acc, right@) {
                Err(e) => Err(ConcatError::Attr(e)),
                Ok(extended) => concat_dict(extended, items.drop_first()),
            },
            Ok(ConfiguredAttr(attr)) => Err(mismatch(ConcatKind::Dict, attr)),
        }
    }
}

/// The sum of `first` and `items`.
pub open spec fn spec_concat<E>(first: ConfiguredAttr, items: Seq<Result<ConfiguredAttr, E>>) -> Result<
    Concatenated,
    ConcatError<E>,
> {
    match first.0 {
        AttrLiteral::List(list) => match concat_list(list.item_type, list.items@, items) {
            Ok(sum) => Ok(Concatenated::List(sum, list.item_type)),
            Err(e) => Err(e),
        },
        AttrLiteral::Dict(left) => match concat_dict(dict_from(Seq::empty(), left@), items) {
            Ok(sum) => Ok(Concatenated::Dict(sum)),
            Err(e) => Err(e),
        },
        AttrLiteral::String(left) => match concat_string(left@, items) {
            Ok(sum) => Ok(Concatenated::String(sum)),
            Err(e) => Err(e),
        },
        AttrLiteral::Arg(left) => match concat_arg(parts_of(left), items) {
            Ok(sum) => Ok(Concatenated::Arg(sum)),
            Err(e) => Err(e),
        },
        val => Err(ConcatError::Attr(ConfiguredAttrError::ConcatNotSupported(val))),
    }
}

/// Whether `attr` is the value with the content `sum`.
pub open spec fn holds(attr: ConfiguredAttr, sum: Concatenated) -> bool {
    match sum {
        Concatenated::List(items, item_type) => attr.0 matches AttrLiteral::List(list)
            && list.items@ == items && list.item_type == item_type,
        Concatenated::Dict(entries) => attr.0 matches AttrLiteral::Dict(dict) && dict@ == entries,
        Concatenated::String(text) => attr.0 matches AttrLiteral::String(s) && s@ == text,
        Concatenated::Arg(parts) => attr.0 matches AttrLiteral::Arg(StringWithMacros::ManyParts(p))
            && p@ == parts,
    }
}

/// Whether `result` is what `expected` calls for: the value with that
/// content, or that very failure.
pub open spec fn agrees<E>(
    result: Result<ConfiguredAttr, ConcatError<E>>,
    expected: Result<Concatenated, ConcatError<E>>,
) -> bool {
    match expected {
        Ok(sum) => result matches Ok(attr) && holds(attr, sum),
        Err(e) => result == Err::<ConfiguredAttr, _>(e),
    }
}

/// Adds the lists in `items` to the list of type `item_type` that holds
/// `first`.
pub fn concat_list_items<E>(
    item_type: AttrType,
    first: Vec<ConfiguredAttr>,
    items: Vec<Result<ConfiguredAttr, E>>,
) -> (result: Result<(Vec<ConfiguredAttr>, AttrType), ConcatError<E>>)
    ensures
        match concat_list(item_type, first@, items@) {
            Ok(sum) => result matches Ok(r) && r.0@ == sum && r.1 == item_type,
            Err(e) => result == Err::<(Vec<ConfiguredAttr>, AttrType), _>(e),
        },
{
    let ghost all = items@;
    let ghost total = concat_list(item_type, first@, all);
    let mut res = first;
    assert(all.skip(0) =~= all);
    for x in it: items.into_iter()
        invariant
            it.seq() == all,
            total == concat_list(item_type, first@, items@),
            total == concat_list(item_type, res@, all.skip(it.index() as int)),
    {
        proof {
            assert(all.skip(it.index() as int).drop_first() =~= all.skip(it.index() + 1));
        }
        match x {
            Err(e) => {
                return Err(ConcatError::Item(e));
            },
            Ok(ConfiguredAttr(AttrLiteral::List(list))) => {
                let mut list = *list;
                if !item_type.same(&list.item_type) {
                    return Err(
                        ConcatError::Attr(
                            ConfiguredAttrError::ConcatListDifferentTypes(item_type, list.item_type),
                        ),
                    );
                }
                res.append(&mut list.items);
            },
            Ok(ConfiguredAttr(attr)) => {
                return Err(
                    ConcatError::Attr(
                        ConfiguredAttrError::ConcatNotSupportedValues(ConcatKind::List, attr),
                    ),
                );
            },
        }
    }
    Ok((res, item_type))
}

/// Adds the strings in `items` to `first`.
pub fn concat_string_items<E>(first: String, items: Vec<Result<ConfiguredAttr, E>>) -> (result:
    Result<String, ConcatError<E>>)
    ensures
        match concat_string(first@, items@) {
            Ok(sum) => result matches Ok(r) && r@ == sum,
            Err(e) => result == Err::<String, _>(e),
        },
{
    let ghost all = items@;
    let ghost total = concat_string(first@, all);
    let mut res = first;
    assert(all.skip(0) =~= all);
    for x in it: items.into_iter()
        invariant
            it.seq() == all,
            total == concat_string(first@, items@),
            total == concat_string(res@, all.skip(it.index() as int)),
    {
        proof {
            assert(all.skip(it.index() as int).drop_first() =~= all.skip(it.index() + 1));
        }
        match x {
            Err(e) => {
                return Err(ConcatError::Item(e));
            },
            Ok(ConfiguredAttr(AttrLiteral::String(right))) => {
                res.append(right.as_str());
            },
            Ok(ConfiguredAttr(attr)) => {
                return Err(
                    ConcatError::Attr(
                        ConfiguredAttrError::ConcatNotSupportedValues(ConcatKind::String, attr),
                    ),
                );
            },
        }
    }
    Ok(res)
}

/// The parts that `arg` contributes to a sum.
pub fn into_parts(arg: StringWithMacros) -> (parts: Vec<StringWithMacrosPart>)
    ensures
        parts@ == parts_of(arg),
{
    match arg {
        StringWithMacros::StringPart(s) => {
            let mut parts: Vec<StringWithMacrosPart> = Vec::new();
            parts.push(StringWithMacrosPart::String(s));
            assert(parts@ =~= parts_of(arg));
            parts
        },
        StringWithMacros::ManyParts(parts) => parts,
    }
}

/// Adds the arguments in `items` to the parts `first`.
pub fn concat_arg_items<E>(
    first: Vec<StringWithMacrosPart>,
    items: Vec<Result<ConfiguredAttr, E>>,
) -> (result: Result<Vec<StringWithMacrosPart>, ConcatError<E>>)
    ensures
        match concat_arg(first@, items@) {
            Ok(sum) => result matches Ok(r) && r@ == sum,
            Err(e) => result == Err::<Vec<StringWithMacrosPart>, _>(e),
        },
{
    let ghost all = items@;
    let ghost total = concat_arg(first@, all);
    let mut res = first;
    assert(all.skip(0) =~= all);
    for x in it: items.into_iter()
        invariant
            it.seq() == all,
            total == concat_arg(first@, items@),
            total == concat_arg(res@, all.skip(it.index() as int)),
    {
        proof {
            assert(all.skip(it.index() as int).drop_first() =~= all.skip(it.index() + 1));
        }
        match x {
            Err(e) => {
                return Err(ConcatError::Item(e));
            },
            Ok(ConfiguredAttr(AttrLiteral::Arg(right))) => {
                let mut parts = into_parts(right);
                res.append(&mut parts);
            },
            Ok(ConfiguredAttr(attr)) => {
                return Err(
                    ConcatError::Attr(
                        ConfiguredAttrError::ConcatNotSupportedValues(ConcatKind::Arg, attr),
                    ),
                );
            },
        }
    }
    Ok(res)
}

/// The place of the first key in `entries` that says what `key` says.
pub fn find_key(entries: &Vec<(ConfiguredAttr, ConfiguredAttr)>, key: &ConfiguredAttr) -> (found:
    Option<usize>)
    ensures
        match found {
            Some(j) => is_first_key(entries@, key.deep(), j as int),
            None => !has_key(entries@, key.deep()),
        },
{
    let mut i: usize = 0;
    while i < entries.len()
        invariant
            i <= entries@.len(),
            forall|j: int| 0 <= j < i ==> #[trigger] entries@[j].0.deep() != key.deep(),
        decreases entries@.len() - i,
    {
        if entries[i].0.same(key) {
            return Some(i);
        }
        i = i + 1;
    }
    None
}

/// A key has one first place.
pub proof fn lemma_first_key_unique(
    entries: Seq<(ConfiguredAttr, ConfiguredAttr)>,
    key: AttrValue,
    j: int,
)
    requires
        is_first_key(entries, key, j),
    ensures
        has_key(entries, key),
        first_key(entries, key) == j,
{
    let k = first_key(entries, key);
    assert(is_first_key(entries, key, k));
    if k < j {
        assert(entries[k].0.deep() != key);
    } else if j < k {
        assert(entries[j].0.deep() != key);
    }
}

/// Sets `key` to `value` in `entries`.
pub fn dict_insert_entry(
    entries: &mut Vec<(ConfiguredAttr, ConfiguredAttr)>,
    key: ConfiguredAttr,
    value: ConfiguredAttr,
)
    ensures
        final(entries)@ == dict_insert(old(entries)@, key, value),
{
    match find_key(entries, &key) {
        Some(j) => {
            proof {
                lemma_first_key_unique(entries@, key.deep(), j as int);
            }
            let (kept, _) = entries.remove(j);
            entries.insert(j, (kept, value));
            assert(entries@ =~= old(entries)@.update(j as int, (old(entries)@[j as int].0, value)));
        },
        None => {
            entries.push((key, value));
        },
    }
}

/// The dictionary made by setting each key of `left` in turn.
pub fn dict_from_entries(left: Vec<(ConfiguredAttr, ConfiguredAttr)>) -> (entries: Vec<
    (ConfiguredAttr, ConfiguredAttr),
>)
    ensures
        entries@ == dict_from(Seq::empty(), left@),
{
    let ghost all = left@;
    let mut res: Vec<(ConfiguredAttr, ConfiguredAttr)> = Vec::new();
    assert(all.skip(0) =~= all);
    for x in it: left.into_iter()
        invariant
            it.seq() == all,
            all == left@,
            dict_from(Seq::empty(), all) == dict_from(res@, all.skip(it.index() as int)),
    {
        proof {
            assert(all.skip(it.index() as int).drop_first() =~= all.skip(it.index() + 1));
        }
        let (k, v) = x;
        dict_insert_entry(&mut res, k, v);
    }
    res
}

/// Adds the entries of `right` at the end of `first`, unless one of their
/// keys is there already.
pub fn dict_extend_entries(
    first: Vec<(ConfiguredAttr, ConfiguredAttr)>,
    right: Vec<(ConfiguredAttr, ConfiguredAttr)>,
) -> (result: Result<Vec<(ConfiguredAttr, ConfiguredAttr)>, ConfiguredAttrError>)
    ensures
        match dict_extend(first@, right@) {
            Ok(sum) => result matches Ok(r) && r@ == sum,
            Err(e) => result == Err::<Vec<(ConfiguredAttr, ConfiguredAttr)>, _>(e),
        },
{
    let ghost all = right@;
    let ghost total = dict_extend(first@, all);
    let mut res = first;
    assert(all.skip(0) =~= all);
    for x in it: right.into_iter()
        invariant
            it.seq() == all,
            total == dict_extend(first@, right@),
            total == dict_extend(res@, all.skip(it.index() as int)),
    {
        proof {
            assert(all.skip(it.index() as int).drop_first() =~= all.skip(it.index() + 1));
        }
        let (k, v) = x;
        match find_key(&res, &k) {
            Some(j) => {
                proof {
                    lemma_first_key_unique(res@, k.deep(), j as int);
                }
                return Err(ConfiguredAttrError::DictConcatDuplicateKeys(k));
            },
            None => {
                res.push((k, v));
            },
        }
    }
    Ok(res)
}

/// Adds the dictionaries in `items` to the entries `first`.
pub fn concat_dict_items<E>(
    first: Vec<(ConfiguredAttr, ConfiguredAttr)>,
    items: Vec<Result<ConfiguredAttr, E>>,
) -> (result: Result<Vec<(ConfiguredAttr, ConfiguredAttr)>, ConcatError<E>>)
    ensures
        match concat_dict(first@, items@) {
            Ok(sum) => result matches Ok(r) && r@ == sum,
            Err(e) => result == Err::<Vec<(ConfiguredAttr, ConfiguredAttr)>, _>(e),
        },
{
    let ghost all = items@;
    let ghost total = concat_dict(first@, all);
    let mut res = first;
    assert(all.skip(0) =~= all);
    for x in it: items.into_iter()
        invariant
            it.seq() == all,
            total == concat_dict(first@, items@),
            total == concat_dict(res@, all.skip(it.index() as int)),
    {
        proof {
            assert(all.skip(it.index() as int).drop_first() =~= all.skip(it.index() + 1));
        }
        match x {
            Err(e) => {
                return Err(ConcatError::Item(e));
            },
            Ok(ConfiguredAttr(AttrLiteral::Dict(right))) => {
                match dict_extend_entries(res, right) {
                    Err(e) => {
                        return Err(ConcatError::Attr(e));
                    },
                    Ok(extended) => {
                        res = extended;
                    },
                }
            },
            Ok(ConfiguredAttr(attr)) => {
                return Err(
                    ConcatError::Attr(
                        ConfiguredAttrError::ConcatNotSupportedValues(ConcatKind::Dict, attr),
                    ),
                );
            },
        }
    }
    Ok(res)
}

} // verus!
