//! Requests and responses as plain values.
//!
//! Header names are held in lower case, the form in which HTTP libraries hand
//! them over; names are compared as they stand.

use vstd::prelude::*;

verus! {

/// A header field as a pair of texts: its name and its value.
pub type Field = (Seq<char>, Seq<char>);

/// One header line.
#[derive(Clone, Debug, PartialEq, Eq)]
pub struct Header {
    pub name: String,
    pub value: String,
}

impl View for Header {
    type V = Field;

    open spec fn view(&self) -> Field {
        (self.name@, self.value@)
    }
}

/// The fields of a list of headers, in order.
pub open spec fn fields_of(headers: Seq<Header>) -> Seq<Field> {
    headers.map_values(|h: Header| h@)
}

/// The value of the first field called `name`, if there is one.
pub open spec fn first_value(fields: Seq<Field>, name: Seq<char>) -> Option<Seq<char>>
    decreases fields.len(),
{
    if fields.len() == 0 {
        None
    } else if fields[0].0 == name {
        Some(fields[0].1)
    } else {
        first_value(fields.drop_first(), name)
    }
}

/// Whether some field is called `name`.
pub open spec fn has_field(fields: Seq<Field>, name: Seq<char>) -> bool {
    exists|i: int| 0 <= i < fields.len() && (#[trigger] fields[i]).0 == name
}

/// A field is found by `first_value` exactly when one of that name exists.
pub proof fn lemma_first_value_is_some(fields: Seq<Field>, name: Seq<char>)
    ensures
        first_value(fields, name) is Some <==> has_field(fields, name),
    decreases fields.len(),
{
    if fields.len() > 0 && fields[0].0 != name {
        let rest = fields.drop_first();
        lemma_first_value_is_some(rest, name);
        if has_field(rest, name) {
            let i = choose|i: int| 0 <= i < rest.len() && (#[trigger] rest[i]).0 == name;
            assert(fields[i + 1].0 == name);
        }
        if has_field(fields, name) {
            let i = choose|i: int| 0 <= i < fields.len() && (#[trigger] fields[i]).0 == name;
            assert(rest[i - 1].0 == name);
        }
    }
}

/// Looking a name up in two lists laid end to end finds it in the first, or
/// else in the second.
pub proof fn lemma_first_value_of_append(a: Seq<Field>, b: Seq<Field>, name: Seq<char>)
    ensures
        first_value(a + b, name) == if first_value(a, name) is Some {
            first_value(a, name)
        } else {
            first_value(b, name)
        },
    decreases a.len(),
{
    if a.len() == 0 {
        assert(a + b == b);
    } else {
        assert((a + b).drop_first() == a.drop_first() + b);
        lemma_first_value_of_append(a.drop_first(), b, name);
    }
}

impl Header {
    /// The header `name: value`.
    pub fn new(name: &str, value: &str) -> (header: Self)
        ensures
            header@ == (name@, value@),
    {
        Header { name: String::from_str(name), value: String::from_str(value) }
    }

    /// A copy of this header.
    pub fn duplicate(&self) -> (copy: Self)
        ensures
            copy@ == self@,
    {
        Header { name: self.name.clone(), value: self.value.clone() }
    }
}

/// Looks up the first header called `name`: its value, or `None` when no
/// header has that name.
pub fn find_header<'a>(headers: &'a Vec<Header>, name: &str) -> (found: Option<&'a str>)
    ensures
        found is Some <==> has_field(fields_of(headers@), name@),
        match found {
            Some(value) => first_value(fields_of(headers@), name@) == Some(value@),
            None => first_value(fields_of(headers@), name@) is None,
        },
{
    let wanted = String::from_str(name);
    let ghost fields = fields_of(headers@);
    let mut i: usize = 0;
    proof {
        lemma_first_value_is_some(fields, name@);
        assert(fields.skip(0) == fields);
    }
    while i < headers.len()
        invariant
            i <= headers.len(),
            wanted@ == name@,
            fields == fields_of(headers@),
            first_value(fields, name@) == first_value(fields.skip(i as int), name@),
        decreases headers.len() - i,
    {
        let ghost rest = fields.skip(i as int);
        assert(rest[0] == headers@[i as int]@);
        if headers[i].name == wanted {
            return Some(headers[i].value.as_str());
        }
        assert(rest.drop_first() == fields.skip(i + 1));
        i += 1;
    }
    None
}

/// An HTTP request, as far as a handler could look at it.
#[derive(Clone, Debug, PartialEq, Eq)]
pub struct Request {
    pub method: String,
    pub path: String,
    pub headers: Vec<Header>,
    pub body: Vec<u8>,
}

/// What a `Request` holds.
pub struct RequestView {
    pub method: Seq<char>,
    pub path: Seq<char>,
    pub fields: Seq<Field>,
    pub body: Seq<u8>,
}

impl View for Request {
    type V = RequestView;

    open spec fn view(&self) -> RequestView {
        RequestView {
            method: self.method@,
            path: self.path@,
            fields: fields_of(self.headers@),
            body: self.body@,
        }
    }
}

impl Request {
    /// The value of the first header called `name`, or `None` when the
    /// request carries no such header.
    pub fn header(&self, name: &str) -> (found: Option<&str>)
        ensures
            found is Some <==> has_field(self@.fields, name@),
            match found {
                Some(value) => first_value(self@.fields, name@) == Some(value@),
                None => first_value(self@.fields, name@) is None,
            },
    {
        find_header(&self.headers, name)
    }
}

/// An HTTP response: status code, headers in order, and body text.
#[derive(Clone, Debug, PartialEq, Eq)]
pub struct Response {
    pub status: u16,
    pub headers: Vec<Header>,
    pub body: String,
}

/// What a `Response` holds.
pub struct ResponseView {
    pub status: u16,
    pub fields: Seq<Field>,
    pub body: Seq<char>,
}

impl View for Response {
    type V = ResponseView;

    open spec fn view(&self) -> ResponseView {
        ResponseView { status: self.status, fields: fields_of(self.headers@), body: self.body@ }
    }
}

impl Response {
    /// The value of the first header called `name`, or `None` when the
    /// response carries no such header.
    pub fn header(&self, name: &str) -> (found: Option<&str>)
        ensures
            found is Some <==> has_field(self@.fields, name@),
            match found {
                Some(value) => first_value(self@.fields, name@) == Some(value@),
                None => first_value(self@.fields, name@) is None,
            },
    {
        find_header(&self.headers, name)
    }
}

} // verus!
