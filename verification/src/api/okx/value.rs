//! The values that frames and requests are made of: texts, numbers, lists
//! and objects. What the exchange sends is decoded into them, and what is
//! sent to the exchange is encoded from them. A text that was received
//! carries, beside its characters, the number that it writes.
use crate::common::msgs::Num;
use crate::text::str_eq;
use vstd::prelude::*;
use vstd::string::StringExecFns;

verus! {

/// A value of a frame or of a request.
#[derive(Debug)]
pub enum Value {
    /// Nothing.
    Null,
    /// A text, and the number that it writes where it is known to write one.
    Text { text: String, num: Option<Num> },
    /// A whole number.
    Integer(i64),
    /// A number that is written as a number.
    Number(Num),
    /// A number that is written as a text.
    Decimal(Num),
    /// A list of values.
    List(Vec<Value>),
    /// An object: named values, in their order.
    Object(Vec<Field>),
    /// Anything else: a truth value.
    Other,
}

/// A named value of an object.
#[derive(Debug)]
pub struct Field {
    pub name: String,
    pub value: Value,
}

/// Whether `v` is the text `s`, with nothing said of a number.
pub open spec fn is_text(v: Value, s: Seq<char>) -> bool {
    v matches Value::Text { text, num } && text@ == s && num is None
}

/// Whether `v` is the text `s`, or nothing where there is no text.
pub open spec fn is_optional_text(v: Value, s: Option<String>) -> bool {
    match s {
        Some(s) => is_text(v, s@),
        None => v is Null,
    }
}

/// Whether `f` is the field called `name` that holds the text `s`.
pub open spec fn is_text_entry(f: Field, name: Seq<char>, s: Seq<char>) -> bool {
    f.name@ == name && is_text(f.value, s)
}

/// The text `s` as a value.
pub fn text_value(s: &str) -> (v: Value)
    ensures
        is_text(v, s@),
{
    Value::Text { text: String::from_str(s), num: None }
}

/// An optional text as a value.
pub fn optional_text_value(s: &Option<String>) -> (v: Value)
    ensures
        is_optional_text(v, *s),
{
    match s {
        Some(s) => text_value(s.as_str()),
        None => Value::Null,
    }
}

/// The field called `name` that holds `value`.
pub fn field(name: &str, value: Value) -> (f: Field)
    ensures
        f.name@ == name@,
        f.value == value,
{
    Field { name: String::from_str(name), value }
}

/// The field called `name` that holds the text `s`.
pub fn text_entry(name: &str, s: &str) -> (f: Field)
    ensures
        is_text_entry(f, name@, s@),
{
    field(name, text_value(s))
}

/// The value of the first field called `name`, if there is one.
pub open spec fn lookup(fields: Seq<Field>, name: Seq<char>) -> Option<Value>
    decreases fields.len(),
{
    if fields.len() == 0 {
        None
    } else if fields[0].name@ == name {
        Some(fields[0].value)
    } else {
        lookup(fields.drop_first(), name)
    }
}

/// The value of the first of `fields` called `name`.
pub fn find_field<'a>(fields: &'a Vec<Field>, name: &str) -> (r: Option<&'a Value>)
    ensures
        r == match lookup(fields@, name@) {
            Some(v) => Some(&v),
            None => None,
        },
{
    let mut i: usize = 0;
    assert(fields@.skip(0) =~= fields@);
    while i < fields.len()
        invariant
            i <= fields@.len(),
            lookup(fields@, name@) == lookup(fields@.skip(i as int), name@),
        decreases fields@.len() - i,
    {
        let ghost rest = fields@.skip(i as int);
        assert(rest.drop_first() =~= fields@.skip(i + 1));
        if str_eq(fields[i].name.as_str(), name) {
            return Some(&fields[i].value);
        }
        i = i + 1;
    }
    None
}

/// The place of the first of `fields` called `name`.
pub fn find_index(fields: &Vec<Field>, name: &str) -> (r: Option<usize>)
    ensures
        match r {
            Some(i) => i < fields@.len() && lookup(fields@, name@) == Some(fields@[i as int].value),
            None => lookup(fields@, name@) is None,
        },
{
    let mut i: usize = 0;
    assert(fields@.skip(0) =~= fields@);
    while i < fields.len()
        invariant
            i <= fields@.len(),
            lookup(fields@, name@) == lookup(fields@.skip(i as int), name@),
        decreases fields@.len() - i,
    {
        let ghost rest = fields@.skip(i as int);
        assert(rest.drop_first() =~= fields@.skip(i + 1));
        if str_eq(fields[i].name.as_str(), name) {
            return Some(i);
        }
        i = i + 1;
    }
    None
}

impl Value {
    /// The value that an object holds under `name`; `None` for a value that
    /// is no object or has no such field.
    pub open spec fn member(self, name: Seq<char>) -> Option<Value> {
        match self {
            Value::Object(fields) => lookup(fields@, name),
            _ => None,
        }
    }

    /// The text that an object holds under `name`.
    pub open spec fn text_at(self, name: Seq<char>) -> Option<Seq<char>> {
        match self.member(name) {
            Some(Value::Text { text, num }) => Some(text@),
            _ => None,
        }
    }

    /// The number written by the text that an object holds under `name`.
    pub open spec fn num_at(self, name: Seq<char>) -> Option<Option<Num>> {
        match self.member(name) {
            Some(Value::Text { text, num }) => Some(num),
            _ => None,
        }
    }

    /// The items of the list that an object holds under `name`.
    pub open spec fn list_at(self, name: Seq<char>) -> Option<Seq<Value>> {
        match self.member(name) {
            Some(Value::List(items)) => Some(items@),
            _ => None,
        }
    }

    /// The string that an object holds under `name`.
    pub open spec fn string_at(self, name: Seq<char>) -> Option<String> {
        match self.member(name) {
            Some(Value::Text { text, num }) => Some(text),
            _ => None,
        }
    }

    /// The string that an object may hold under `name`: `Some(None)` where
    /// it holds nothing there, `None` where it holds something else.
    pub open spec fn optional_string_at(self, name: Seq<char>) -> Option<Option<String>> {
        match self.member(name) {
            None => Some(None),
            Some(Value::Null) => Some(None),
            Some(Value::Text { text, num }) => Some(Some(text)),
            Some(_) => None,
        }
    }

    /// The list that an object holds under `name`.
    pub open spec fn items_at(self, name: Seq<char>) -> Option<Vec<Value>> {
        match self.member(name) {
            Some(Value::List(items)) => Some(items),
            _ => None,
        }
    }

    /// The value held under `name`.
    pub fn get(&self, name: &str) -> (r: Option<&Value>)
        ensures
            r == match self.member(name@) {
                Some(v) => Some(&v),
                None => None,
            },
    {
        match self {
            Value::Object(fields) => find_field(fields, name),
            _ => None,
        }
    }

    /// The text held under `name`.
    pub fn get_text(&self, name: &str) -> (r: Option<&str>)
        ensures
            r.is_some() == self.text_at(name@).is_some(),
            r matches Some(t) ==> Some(t@) == self.text_at(name@),
    {
        match self.get(name) {
            Some(Value::Text { text, num }) => Some(text.as_str()),
            _ => None,
        }
    }

    /// The number written by the text held under `name`: `None` where no
    /// text is held there, `Some(None)` where the text writes no number.
    pub fn get_num(&self, name: &str) -> (r: Option<Option<Num>>)
        ensures
            r == self.num_at(name@),
    {
        match self.get(name) {
            Some(Value::Text { text, num }) => Some(*num),
            _ => None,
        }
    }

    /// A copy of the string held under `name`.
    pub fn get_string(&self, name: &str) -> (r: Option<String>)
        ensures
            r == self.string_at(name@),
    {
        match self.get(name) {
            Some(Value::Text { text, num }) => Some(text.clone()),
            _ => None,
        }
    }

    /// A copy of the string that may be held under `name`.
    pub fn get_optional_string(&self, name: &str) -> (r: Option<Option<String>>)
        ensures
            r == self.optional_string_at(name@),
    {
        match self.get(name) {
            None => Some(None),
            Some(Value::Null) => Some(None),
            Some(Value::Text { text, num }) => Some(Some(text.clone())),
            Some(_) => None,
        }
    }

    /// Takes the list held under `name` out of the value.
    pub fn take_list(self, name: &str) -> (r: Option<Vec<Value>>)
        ensures
            r == self.items_at(name@),
    {
        match self {
            Value::Object(fields) => {
                let mut fields = fields;
                match find_index(&fields, name) {
                    Some(i) => {
                        let field = fields.remove(i);
                        match field.value {
                            Value::List(items) => Some(items),
                            _ => None,
                        }
                    },
                    None => None,
                }
            },
            _ => None,
        }
    }

    /// The items of the list held under `name`.
    pub fn get_list(&self, name: &str) -> (r: Option<&Vec<Value>>)
        ensures
            r.is_some() == self.list_at(name@).is_some(),
            r matches Some(items) ==> Some(items@) == self.list_at(name@),
    {
        match self.get(name) {
            Some(Value::List(items)) => Some(items),
            _ => None,
        }
    }
}

} // verus!
