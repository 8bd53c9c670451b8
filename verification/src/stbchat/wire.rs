//! The self-describing value that a payload carries: text, a flag, or a
//! record of named fields. Field names and tags travel with the data.

use vstd::prelude::*;
use crate::text::str_eq;

verus! {

/// The mathematical model of a wire value.
pub enum WireValue {
    Text(Seq<char>),
    Flag(bool),
    Record(Seq<(Seq<char>, WireValue)>),
}

/// A wire value: what a payload holds once its bytes are read.
#[derive(Debug)]
pub enum Field {
    /// A piece of text.
    Text(String),
    /// A truth value.
    Flag(bool),
    /// Named fields, in the order of the schema.
    Record(Vec<(String, Field)>),
}

impl Field {
    /// What this value stands for.
    pub open spec fn model(&self) -> WireValue
        decreases self,
    {
        match self {
            Field::Text(s) => WireValue::Text(s@),
            Field::Flag(b) => WireValue::Flag(*b),
            Field::Record(v) => WireValue::Record(
                Seq::new(
                    v@.len(),
                    |i: int|
                        if 0 <= i < v@.len() {
                            (v@[i].0@, v@[i].1.model())
                        } else {
                            (Seq::empty(), WireValue::Flag(false))
                        },
                ),
            ),
        }
    }
}

impl View for Field {
    type V = WireValue;

    open spec fn view(&self) -> WireValue {
        self.model()
    }
}

/// The model of a list of named fields.
pub open spec fn entries(v: Seq<(String, Field)>) -> Seq<(Seq<char>, WireValue)> {
    Seq::new(v.len(), |i: int| (v[i].0@, v[i].1@))
}

/// The text of field `i` of `rec`, where that field is called `name` and
/// holds text.
pub open spec fn text_field(rec: Seq<(Seq<char>, WireValue)>, i: int, name: Seq<char>) -> Option<
    Seq<char>,
> {
    if 0 <= i < rec.len() && rec[i].0 == name {
        match rec[i].1 {
            WireValue::Text(t) => Some(t),
            _ => None,
        }
    } else {
        None
    }
}

/// The flag of field `i` of `rec`, where that field is called `name` and
/// holds a flag.
pub open spec fn flag_field(rec: Seq<(Seq<char>, WireValue)>, i: int, name: Seq<char>) -> Option<
    bool,
> {
    if 0 <= i < rec.len() && rec[i].0 == name {
        match rec[i].1 {
            WireValue::Flag(b) => Some(b),
            _ => None,
        }
    } else {
        None
    }
}

/// The fields of field `i` of `rec`, where that field is called `name` and
/// holds a record.
pub open spec fn record_field(rec: Seq<(Seq<char>, WireValue)>, i: int, name: Seq<char>) -> Option<
    Seq<(Seq<char>, WireValue)>,
> {
    if 0 <= i < rec.len() && rec[i].0 == name {
        match rec[i].1 {
            WireValue::Record(r) => Some(r),
            _ => None,
        }
    } else {
        None
    }
}

/// The view of a record is the model of its entries.
pub proof fn lemma_record_view(v: Vec<(String, Field)>)
    ensures
        Field::Record(v)@ == WireValue::Record(entries(v@)),
{
    let direct = Field::Record(v).model();
    assert(direct is Record);
    assert(direct->Record_0.len() == v@.len());
    assert forall|i: int| 0 <= i < v@.len() implies direct->Record_0[i] == entries(v@)[i] by {}
    assert(direct->Record_0 =~= entries(v@));
}

/// A named text field.
pub fn text_entry(name: &str, text: &str) -> (r: (String, Field))
    ensures
        r.0@ == name@,
        r.1@ == WireValue::Text(text@),
{
    (String::from_str(name), Field::Text(String::from_str(text)))
}

/// A named flag field.
pub fn flag_entry(name: &str, flag: bool) -> (r: (String, Field))
    ensures
        r.0@ == name@,
        r.1@ == WireValue::Flag(flag),
{
    (String::from_str(name), Field::Flag(flag))
}

/// A named record field.
pub fn record_entry(name: &str, fields: Vec<(String, Field)>) -> (r: (String, Field))
    ensures
        r.0@ == name@,
        r.1@ == WireValue::Record(entries(fields@)),
{
    proof {
        lemma_record_view(fields);
    }
    (String::from_str(name), Field::Record(fields))
}

/// Reads field `i` of `rec` as the text field called `name`.
pub fn text_at(rec: &Vec<(String, Field)>, i: usize, name: &str) -> (r: Option<String>)
    ensures
        match text_field(entries(rec@), i as int, name@) {
            Some(t) => r is Some && r->Some_0@ == t,
            None => r is None,
        },
{
    if i < rec.len() && str_eq(rec[i].0.as_str(), name) {
        match &rec[i].1 {
            Field::Text(t) => Some(t.clone()),
            _ => None,
        }
    } else {
        None
    }
}

/// Reads field `i` of `rec` as the flag field called `name`.
pub fn flag_at(rec: &Vec<(String, Field)>, i: usize, name: &str) -> (r: Option<bool>)
    ensures
        r == flag_field(entries(rec@), i as int, name@),
{
    if i < rec.len() && str_eq(rec[i].0.as_str(), name) {
        match &rec[i].1 {
            Field::Flag(b) => Some(*b),
            _ => None,
        }
    } else {
        None
    }
}

/// Reads field `i` of `rec` as the record field called `name`.
pub fn record_at<'a>(rec: &'a Vec<(String, Field)>, i: usize, name: &str) -> (r: Option<
    &'a Vec<(String, Field)>,
>)
    ensures
        match record_field(entries(rec@), i as int, name@) {
            Some(fields) => r is Some && entries(r->Some_0@) == fields,
            None => r is None,
        },
{
    if i < rec.len() && str_eq(rec[i].0.as_str(), name) {
        match &rec[i].1 {
            Field::Record(fields) => {
                proof {
                    lemma_record_view(*fields);
                }
                Some(fields)
            },
            _ => None,
        }
    } else {
        None
    }
}

} // verus!
