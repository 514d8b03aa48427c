//! What a handler answers with, as plain values.

use crate::text::{opt_text, same_text};
use vstd::prelude::*;
use vstd::string::*;

verus! {

/// One header line.
#[derive(Debug)]
pub struct Header {
    pub name: String,
    pub value: String,
}

impl View for Header {
    type V = (Seq<char>, Seq<char>);

    open spec fn view(&self) -> (Seq<char>, Seq<char>) {
        (self.name@, self.value@)
    }
}

/// The header lines of `headers`, in order.
pub open spec fn header_lines(headers: Seq<Header>) -> Seq<(Seq<char>, Seq<char>)> {
    headers.map_values(|h: Header| h@)
}

/// What a `Response` holds.
pub struct ResponseView {
    pub status: u16,
    pub headers: Seq<(Seq<char>, Seq<char>)>,
    pub body: Seq<char>,
}

impl ResponseView {
    /// The answer with the header `name` added where there is a value for it.
    pub open spec fn with(self, name: Seq<char>, value: Option<Seq<char>>) -> ResponseView {
        match value {
            Some(value) => ResponseView {
                headers: self.headers.push((name, value)),
                ..self
            },
            None => self,
        }
    }

    /// The answer with status `status`, no header and no body.
    pub open spec fn empty(status: u16) -> ResponseView {
        ResponseView { status, headers: Seq::empty(), body: Seq::empty() }
    }
}

/// An answer: a status, header lines, and a body of text.
#[derive(Debug)]
pub struct Response {
    pub status: u16,
    pub headers: Vec<Header>,
    pub body: String,
}

impl View for Response {
    type V = ResponseView;

    open spec fn view(&self) -> ResponseView {
        ResponseView {
            status: self.status,
            headers: header_lines(self.headers@),
            body: self.body@,
        }
    }
}

/// The header lines without those named `name`.
pub open spec fn without(headers: Seq<(Seq<char>, Seq<char>)>, name: Seq<char>) -> Seq<
    (Seq<char>, Seq<char>),
>
    decreases headers.len(),
{
    if headers.len() == 0 {
        Seq::empty()
    } else if headers.last().0 == name {
        without(headers.drop_last(), name)
    } else {
        without(headers.drop_last(), name).push(headers.last())
    }
}

/// The header lines with `value` as the one line named `name`, at the end.
pub open spec fn replaced(
    headers: Seq<(Seq<char>, Seq<char>)>,
    name: Seq<char>,
    value: Seq<char>,
) -> Seq<(Seq<char>, Seq<char>)> {
    without(headers, name).push((name, value))
}

/// The text of an optional flag.
pub open spec fn opt_flag_text(flag: Option<bool>) -> Option<Seq<char>> {
    match flag {
        Some(flag) => Some(flag_text(flag)),
        None => None,
    }
}

/// The text of a flag, as headers carry it.
pub open spec fn flag_text(flag: bool) -> Seq<char> {
    if flag {
        "true"@
    } else {
        "false"@
    }
}

impl Response {
    /// An answer with the given status, no header and no body.
    pub fn new(status: u16) -> (response: Self)
        ensures
            response@ == ResponseView::empty(status),
    {
        let response = Response { status, headers: Vec::new(), body: String::new() };
        assert(response@.headers =~= Seq::empty());
        response
    }

    /// Adds the header `name` with `value`.
    pub fn header(self, name: &str, value: String) -> (response: Self)
        ensures
            response@ == self@.with(name@, Some(value@)),
    {
        let mut response = self;
        let ghost before = response.headers@;
        let header = Header { name: name.to_owned(), value };
        response.headers.push(header);
        assert(header_lines(response.headers@) =~= header_lines(before).push(header@));
        response
    }

    /// Adds the header `name` where there is a value for it.
    pub fn header_opt(self, name: &str, value: Option<String>) -> (response: Self)
        ensures
            response@ == self@.with(name@, opt_text(value)),
    {
        match value {
            Some(value) => self.header(name, value),
            None => self,
        }
    }

    /// Sets the header `name` to `value`, in place of every line of that
    /// name.
    pub fn insert(self, name: String, value: String) -> (response: Self)
        ensures
            response@ == (ResponseView {
                headers: replaced(self@.headers, name@, value@),
                ..self@
            }),
    {
        let Response { status, headers, body } = self;
        let mut kept: Vec<Header> = Vec::new();
        let mut i: usize = 0;
        assert(headers@.take(0) =~= Seq::empty());
        assert(header_lines(headers@.take(0)) =~= Seq::empty());
        assert(header_lines(kept@) =~= Seq::empty());
        while i < headers.len()
            invariant
                i <= headers@.len(),
                header_lines(kept@) == without(header_lines(headers@.take(i as int)), name@),
            decreases headers@.len() - i,
        {
            let ghost before = kept@;
            proof {
                let longer = headers@.take(i + 1);
                assert(header_lines(longer).drop_last() =~= header_lines(
                    headers@.take(i as int),
                ));
                assert(header_lines(longer).last() == headers@[i as int]@);
            }
            if !same_text(headers[i].name.as_str(), name.as_str()) {
                let line = Header {
                    name: headers[i].name.clone(),
                    value: headers[i].value.clone(),
                };
                kept.push(line);
                assert(header_lines(kept@) =~= header_lines(before).push(line@));
            }
            i = i + 1;
        }
        assert(headers@.take(i as int) =~= headers@);
        let ghost before = kept@;
        let line = Header { name, value };
        kept.push(line);
        assert(header_lines(kept@) =~= header_lines(before).push(line@));
        Response { status, headers: kept, body }
    }

    /// Sets the body.
    pub fn body(self, body: String) -> (response: Self)
        ensures
            response@ == (ResponseView { body: body@, ..self@ }),
    {
        let mut response = self;
        response.body = body;
        response
    }
}

/// The text of a flag.
pub fn flag(value: bool) -> (text: String)
    ensures
        text@ == flag_text(value),
{
    if value {
        String::from_str("true")
    } else {
        String::from_str("false")
    }
}

/// The text of an optional flag.
pub fn opt_flag(value: Option<bool>) -> (text: Option<String>)
    ensures
        opt_text(text) == opt_flag_text(value),
{
    match value {
        Some(value) => Some(flag(value)),
        None => None,
    }
}

} // verus!
