use vstd::prelude::*;

use crate::fragment::Fragment;

verus! {

/// The value of one field of a tagged fragment.
#[derive(Debug, PartialEq, Eq)]
pub enum TaggedValue {
    Text(String),
    Number(usize),
}

/// One named field of a tagged fragment.
#[derive(Debug, PartialEq, Eq)]
pub struct TaggedField {
    pub key: String,
    pub value: TaggedValue,
}

/// The external form of a fragment: a tag that names its kind and its fields in a
/// fixed order, with camelCase names, so that a template can cross a process
/// boundary.
#[derive(Debug, PartialEq, Eq)]
pub struct TaggedFragment {
    pub tag: String,
    pub fields: Vec<TaggedField>,
}

/// Whether a field has the given name and holds the given text.
pub open spec fn is_text_field(f: TaggedField, key: Seq<char>, s: String) -> bool {
    f.key@ == key && f.value == TaggedValue::Text(s)
}

/// Whether `t` is the external form of `f`.
pub open spec fn encodes(f: Fragment, t: TaggedFragment) -> bool {
    let fs = t.fields@;
    match f {
        Fragment::StringChunk { chunk } => {
            &&& t.tag@ == "stringChunk"@
            &&& fs.len() == 1
            &&& is_text_field(fs[0], "chunk"@, chunk)
        },
        Fragment::Parameter => t.tag@ == "parameter"@ && fs.len() == 0,
        Fragment::ParameterTuple { item_prefix, item_separator, item_suffix, arity } => {
            &&& t.tag@ == "parameterTuple"@
            &&& fs.len() == 4
            &&& is_text_field(fs[0], "itemPrefix"@, item_prefix)
            &&& is_text_field(fs[1], "itemSeparator"@, item_separator)
            &&& is_text_field(fs[2], "itemSuffix"@, item_suffix)
            &&& fs[3].key@ == "arity"@
            &&& fs[3].value == TaggedValue::Number(arity)
        },
        Fragment::ParameterTupleList {
            item_prefix,
            item_separator,
            item_suffix,
            group_separator,
        } => {
            &&& t.tag@ == "parameterTupleList"@
            &&& fs.len() == 4
            &&& is_text_field(fs[0], "itemPrefix"@, item_prefix)
            &&& is_text_field(fs[1], "itemSeparator"@, item_separator)
            &&& is_text_field(fs[2], "itemSuffix"@, item_suffix)
            &&& is_text_field(fs[3], "groupSeparator"@, group_separator)
        },
    }
}

/// The text of field `i`, where it has the given name and holds text.
pub open spec fn text_at(t: TaggedFragment, i: int, key: Seq<char>) -> Option<String> {
    if 0 <= i < t.fields@.len() && t.fields@[i].key@ == key {
        match t.fields@[i].value {
            TaggedValue::Text(s) => Some(s),
            TaggedValue::Number(_) => None,
        }
    } else {
        None
    }
}

/// The number in field `i`, where it has the given name and holds a number.
pub open spec fn number_at(t: TaggedFragment, i: int, key: Seq<char>) -> Option<usize> {
    if 0 <= i < t.fields@.len() && t.fields@[i].key@ == key {
        match t.fields@[i].value {
            TaggedValue::Number(n) => Some(n),
            TaggedValue::Text(_) => None,
        }
    } else {
        None
    }
}

/// The fragment whose external form `t` is, or `None` where the tag is unknown
/// or the fields are not those of its kind.
pub open spec fn decode(t: TaggedFragment) -> Option<Fragment> {
    let n = t.fields@.len();
    if t.tag@ == "stringChunk"@ {
        if n == 1 && text_at(t, 0, "chunk"@) is Some {
            Some(Fragment::StringChunk { chunk: text_at(t, 0, "chunk"@)->0 })
        } else {
            None
        }
    } else if t.tag@ == "parameter"@ {
        if n == 0 {
            Some(Fragment::Parameter)
        } else {
            None
        }
    } else if t.tag@ == "parameterTuple"@ {
        if n == 4 && text_at(t, 0, "itemPrefix"@) is Some && text_at(t, 1, "itemSeparator"@) is Some
            && text_at(t, 2, "itemSuffix"@) is Some && number_at(t, 3, "arity"@) is Some {
            Some(
                Fragment::ParameterTuple {
                    item_prefix: text_at(t, 0, "itemPrefix"@)->0,
                    item_separator: text_at(t, 1, "itemSeparator"@)->0,
                    item_suffix: text_at(t, 2, "itemSuffix"@)->0,
                    arity: number_at(t, 3, "arity"@)->0,
                },
            )
        } else {
            None
        }
    } else if t.tag@ == "parameterTupleList"@ {
        if n == 4 && text_at(t, 0, "itemPrefix"@) is Some && text_at(t, 1, "itemSeparator"@) is Some
            && text_at(t, 2, "itemSuffix"@) is Some && text_at(t, 3, "groupSeparator"@) is Some {
            Some(
                Fragment::ParameterTupleList {
                    item_prefix: text_at(t, 0, "itemPrefix"@)->0,
                    item_separator: text_at(t, 1, "itemSeparator"@)->0,
                    item_suffix: text_at(t, 2, "itemSuffix"@)->0,
                    group_separator: text_at(t, 3, "groupSeparator"@)->0,
                },
            )
        } else {
            None
        }
    } else {
        None
    }
}

fn text_field(key: &str, s: &String) -> (r: TaggedField)
    ensures
        is_text_field(r, key@, *s),
{
    TaggedField { key: String::from_str(key), value: TaggedValue::Text(s.clone()) }
}

fn exec_text_at(t: &TaggedFragment, i: usize, key: &str) -> (r: Option<String>)
    ensures
        r == text_at(*t, i as int, key@),
{
    if i < t.fields.len() && t.fields[i].key == String::from_str(key) {
        match &t.fields[i].value {
            TaggedValue::Text(s) => Some(s.clone()),
            TaggedValue::Number(_) => None,
        }
    } else {
        None
    }
}

fn exec_number_at(t: &TaggedFragment, i: usize, key: &str) -> (r: Option<usize>)
    ensures
        r == number_at(*t, i as int, key@),
{
    if i < t.fields.len() && t.fields[i].key == String::from_str(key) {
        match &t.fields[i].value {
            TaggedValue::Number(n) => Some(*n),
            TaggedValue::Text(_) => None,
        }
    } else {
        None
    }
}

impl Fragment {
    /// The external form of this fragment.
    pub fn to_tagged(&self) -> (r: TaggedFragment)
        ensures
            encodes(*self, r),
    {
        match self {
            Fragment::StringChunk { chunk } => TaggedFragment {
                tag: String::from_str("stringChunk"),
                fields: vec![text_field("chunk", chunk)],
            },
            Fragment::Parameter => TaggedFragment {
                tag: String::from_str("parameter"),
                fields: Vec::new(),
            },
            Fragment::ParameterTuple { item_prefix, item_separator, item_suffix, arity } => {
                TaggedFragment {
                    tag: String::from_str("parameterTuple"),
                    fields: vec![
                        text_field("itemPrefix", item_prefix),
                        text_field("itemSeparator", item_separator),
                        text_field("itemSuffix", item_suffix),
                        TaggedField {
                            key: String::from_str("arity"),
                            value: TaggedValue::Number(*arity),
                        },
                    ],
                }
            },
            Fragment::ParameterTupleList {
                item_prefix,
                item_separator,
                item_suffix,
                group_separator,
            } => TaggedFragment {
                tag: String::from_str("parameterTupleList"),
                fields: vec![
                    text_field("itemPrefix", item_prefix),
                    text_field("itemSeparator", item_separator),
                    text_field("itemSuffix", item_suffix),
                    text_field("groupSeparator", group_separator),
                ],
            },
        }
    }

    /// The fragment whose external form `t` is, or `None` where `t` is no such
    /// form.
    pub fn from_tagged(t: &TaggedFragment) -> (r: Option<Fragment>)
        ensures
            r == decode(*t),
    {
        let n = t.fields.len();
        if t.tag == String::from_str("stringChunk") {
            if n != 1 {
                return None;
            }
            match exec_text_at(t, 0, "chunk") {
                Some(chunk) => Some(Fragment::StringChunk { chunk }),
                None => None,
            }
        } else if t.tag == String::from_str("parameter") {
            if n == 0 {
                Some(Fragment::Parameter)
            } else {
                None
            }
        } else if t.tag == String::from_str("parameterTuple") {
            if n != 4 {
                return None;
            }
            match (
                exec_text_at(t, 0, "itemPrefix"),
                exec_text_at(t, 1, "itemSeparator"),
                exec_text_at(t, 2, "itemSuffix"),
                exec_number_at(t, 3, "arity"),
            ) {
                (Some(item_prefix), Some(item_separator), Some(item_suffix), Some(arity)) => Some(
                    Fragment::ParameterTuple { item_prefix, item_separator, item_suffix, arity },
                ),
                _ => None,
            }
        } else if t.tag == String::from_str("parameterTupleList") {
            if n != 4 {
                return None;
            }
            match (
                exec_text_at(t, 0, "itemPrefix"),
                exec_text_at(t, 1, "itemSeparator"),
                exec_text_at(t, 2, "itemSuffix"),
                exec_text_at(t, 3, "groupSeparator"),
            ) {
                (
                    Some(item_prefix),
                    Some(item_separator),
                    Some(item_suffix),
                    Some(group_separator),
                ) => Some(
                    Fragment::ParameterTupleList {
                        item_prefix,
                        item_separator,
                        item_suffix,
                        group_separator,
                    },
                ),
                _ => None,
            }
        } else {
            None
        }
    }
}

/// Reading back the external form of a fragment gives the same fragment: same
/// kind, same fields.
pub proof fn lemma_tagged_round_trip(f: Fragment, t: TaggedFragment)
    requires
        encodes(f, t),
    ensures
        decode(t) == Some(f),
{
    reveal_strlit("stringChunk");
    reveal_strlit("parameter");
    reveal_strlit("parameterTuple");
    reveal_strlit("parameterTupleList");
    assert("stringChunk"@.len() == 11);
    assert("parameter"@.len() == 9);
    assert("parameterTuple"@.len() == 14);
    assert("parameterTupleList"@.len() == 18);
}

} // verus!
