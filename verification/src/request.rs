//! What of a request the handlers read: its method, its header lines and the
//! parameters of its query string, as plain values.

use crate::text::{opt_text, parse_bool, parse_i64, parsed_bool, parsed_i64, same_text};
use vstd::prelude::*;
use vstd::string::*;
use vstd::utf8::*;

verus! {

/// The method of a request.
#[derive(Debug, Clone, Copy, PartialEq, Eq, Structural)]
pub enum Method {
    Get,
    Put,
    Delete,
    Post,
    Head,
    /// Any other method.
    Other,
}

/// One header line. The name is in lower case. The value is `None` where it
/// is not text.
#[derive(Debug)]
pub struct HeaderLine {
    pub name: String,
    pub value: Option<String>,
}

impl View for HeaderLine {
    type V = (Seq<char>, Option<Seq<char>>);

    open spec fn view(&self) -> (Seq<char>, Option<Seq<char>>) {
        (self.name@, opt_text(self.value))
    }
}

/// The header lines of a request, in the order they came in.
#[derive(Debug)]
pub struct Headers {
    pub lines: Vec<HeaderLine>,
}

impl View for Headers {
    type V = Seq<(Seq<char>, Option<Seq<char>>)>;

    open spec fn view(&self) -> Seq<(Seq<char>, Option<Seq<char>>)> {
        self.lines@.map_values(|line: HeaderLine| line@)
    }
}

/// The value of the first line named `key`, where there is one and its value
/// is text.
pub open spec fn header_text(
    lines: Seq<(Seq<char>, Option<Seq<char>>)>,
    key: Seq<char>,
) -> Option<Seq<char>>
    decreases lines.len(),
{
    if lines.len() == 0 {
        None
    } else if lines.first().0 == key {
        lines.first().1
    } else {
        header_text(lines.drop_first(), key)
    }
}

/// The integer in the header `key`: `Ok(None)` where there is no such header
/// with text in it, `Err` where its text is no integer.
pub open spec fn header_integer(
    lines: Seq<(Seq<char>, Option<Seq<char>>)>,
    key: Seq<char>,
) -> Result<Option<i64>, ParseError> {
    match header_text(lines, key) {
        None => Ok(None),
        Some(text) => match parsed_i64(encode_utf8(text)) {
            Some(value) => Ok(Some(value)),
            None => Err(ParseError {  }),
        },
    }
}

/// The flag in the header `key`, where there is one and it reads `true` or
/// `false`.
pub open spec fn header_flag(
    lines: Seq<(Seq<char>, Option<Seq<char>>)>,
    key: Seq<char>,
) -> Option<bool> {
    match header_text(lines, key) {
        None => None,
        Some(text) => parsed_bool(text),
    }
}

/// A header whose text is not what it should be.
#[derive(Debug, Clone, Copy, PartialEq, Eq, Structural)]
pub struct ParseError {}

/// The text of the header `key`.
pub fn header_string_opt(key: &str, map: &Headers) -> (value: Option<String>)
    ensures
        opt_text(value) == header_text(map@, key@),
{
    let mut i: usize = 0;
    assert(map@.skip(0) =~= map@);
    while i < map.lines.len()
        invariant
            i <= map.lines@.len(),
            header_text(map@, key@) == header_text(map@.skip(i as int), key@),
        decreases map.lines@.len() - i,
    {
        let line = &map.lines[i];
        proof {
            let rest = map@.skip(i as int);
            assert(rest.first() == line@);
            assert(rest.drop_first() =~= map@.skip(i + 1));
        }
        if same_text(line.name.as_str(), key) {
            return match &line.value {
                Some(text) => Some(text.clone()),
                None => None,
            };
        }
        i = i + 1;
    }
    None
}

/// The integer in the header `key`.
pub fn header_parse(key: &str, map: &Headers) -> (value: Result<Option<i64>, ParseError>)
    ensures
        value == header_integer(map@, key@),
{
    match header_string_opt(key, map) {
        Some(text) => match parse_i64(text.as_str()) {
            Some(value) => Ok(Some(value)),
            None => Err(ParseError {  }),
        },
        None => Ok(None),
    }
}

/// The flag in the header `key`.
pub fn header_parse_bool(key: &str, map: &Headers) -> (value: Option<bool>)
    ensures
        value == header_flag(map@, key@),
{
    match header_string_opt(key, map) {
        Some(text) => parse_bool(text.as_str()),
        None => None,
    }
}

/// One parameter of a query string, decoded.
#[derive(Debug)]
pub struct Parameter {
    pub key: String,
    pub value: String,
}

impl View for Parameter {
    type V = (Seq<char>, Seq<char>);

    open spec fn view(&self) -> (Seq<char>, Seq<char>) {
        (self.key@, self.value@)
    }
}

/// The parameters of a query string, in order.
#[derive(Debug)]
pub struct Query {
    pub parameters: Vec<Parameter>,
}

impl View for Query {
    type V = Seq<(Seq<char>, Seq<char>)>;

    open spec fn view(&self) -> Seq<(Seq<char>, Seq<char>)> {
        self.parameters@.map_values(|p: Parameter| p@)
    }
}

/// The values that the parameters named `key` have, in order.
pub open spec fn values_of(query: Seq<(Seq<char>, Seq<char>)>, key: Seq<char>) -> Seq<Seq<char>>
    decreases query.len(),
{
    if query.len() == 0 {
        Seq::empty()
    } else if query.last().0 == key {
        values_of(query.drop_last(), key).push(query.last().1)
    } else {
        values_of(query.drop_last(), key)
    }
}

/// What a query string says of one field.
pub enum Field<T> {
    /// Nothing: no parameter has the name of the field.
    Absent,
    /// One value.
    Given(T),
    /// Nothing that can be used: the name comes twice, or the value is not
    /// what the field takes.
    Spoiled,
}

impl<T> Field<T> {
    /// The field as an optional value, where it is not spoiled.
    pub open spec fn value(self) -> Option<T> {
        match self {
            Field::Given(value) => Some(value),
            _ => None,
        }
    }
}

/// A field that takes any text.
pub open spec fn text_field(query: Seq<(Seq<char>, Seq<char>)>, key: Seq<char>) -> Field<
    Seq<char>,
> {
    let values = values_of(query, key);
    if values.len() == 0 {
        Field::Absent
    } else if values.len() == 1 {
        Field::Given(values[0])
    } else {
        Field::Spoiled
    }
}

/// A field that takes an integer.
pub open spec fn integer_field(query: Seq<(Seq<char>, Seq<char>)>, key: Seq<char>) -> Field<i64> {
    match text_field(query, key) {
        Field::Absent => Field::Absent,
        Field::Spoiled => Field::Spoiled,
        Field::Given(text) => match parsed_i64(encode_utf8(text)) {
            Some(value) => Field::Given(value),
            None => Field::Spoiled,
        },
    }
}

/// A field that takes a flag.
pub open spec fn flag_field(query: Seq<(Seq<char>, Seq<char>)>, key: Seq<char>) -> Field<bool> {
    match text_field(query, key) {
        Field::Absent => Field::Absent,
        Field::Spoiled => Field::Spoiled,
        Field::Given(text) => match parsed_bool(text) {
            Some(value) => Field::Given(value),
            None => Field::Spoiled,
        },
    }
}

/// The view of a text field that was read.
pub open spec fn field_text(field: Field<String>) -> Field<Seq<char>> {
    match field {
        Field::Absent => Field::Absent,
        Field::Given(text) => Field::Given(text@),
        Field::Spoiled => Field::Spoiled,
    }
}

impl Query {
    /// Reads a field that takes any text.
    pub fn text(&self, key: &str) -> (field: Field<String>)
        ensures
            field_text(field) == text_field(self@, key@),
    {
        let mut found: Field<String> = Field::Absent;
        let mut i: usize = 0;
        assert(self@.take(0) =~= Seq::empty());
        while i < self.parameters.len()
            invariant
                i <= self.parameters@.len(),
                field_text(found) == text_field(self@.take(i as int), key@),
                found is Spoiled ==> values_of(self@.take(i as int), key@).len() >= 2,
            decreases self.parameters@.len() - i,
        {
            let parameter = &self.parameters[i];
            proof {
                let longer = self@.take(i + 1);
                assert(longer.drop_last() =~= self@.take(i as int));
                assert(longer.last() == parameter@);
            }
            if same_text(parameter.key.as_str(), key) {
                found = match found {
                    Field::Absent => Field::Given(parameter.value.clone()),
                    _ => Field::Spoiled,
                };
            }
            i = i + 1;
        }
        assert(self@.take(i as int) =~= self@);
        found
    }

    /// Reads a field that takes an integer.
    pub fn integer(&self, key: &str) -> (field: Field<i64>)
        ensures
            field == integer_field(self@, key@),
    {
        match self.text(key) {
            Field::Absent => Field::Absent,
            Field::Spoiled => Field::Spoiled,
            Field::Given(text) => match parse_i64(text.as_str()) {
                Some(value) => Field::Given(value),
                None => Field::Spoiled,
            },
        }
    }

    /// Reads a field that takes a flag.
    pub fn flag(&self, key: &str) -> (field: Field<bool>)
        ensures
            field == flag_field(self@, key@),
    {
        match self.text(key) {
            Field::Absent => Field::Absent,
            Field::Spoiled => Field::Spoiled,
            Field::Given(text) => match parse_bool(text.as_str()) {
                Some(value) => Field::Given(value),
                None => Field::Spoiled,
            },
        }
    }
}

} // verus!
