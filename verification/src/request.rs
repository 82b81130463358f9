//! The request as the decoder sees it: its headers, and a body that can be
//! taken once.

use vstd::prelude::*;
use crate::text::{chars_of, eq_ignore_ascii_case, matches_ignoring_case};

verus! {

/// An incoming request: header fields in the order in which they came,
/// and the body, until it is taken.
pub struct Request {
    headers: Vec<(String, String)>,
    body: Option<Vec<u8>>,
}

/// What a request holds.
pub struct RequestView {
    /// The header fields, name and value, in order.
    pub headers: Seq<(Seq<char>, Seq<char>)>,
    /// The body, or `None` once it was taken.
    pub body: Option<Seq<u8>>,
}

/// The header fields of a list, name and value, in order.
pub open spec fn fields_of(headers: Seq<(String, String)>) -> Seq<(Seq<char>, Seq<char>)> {
    Seq::new(headers.len(), |i: int| (headers[i].0@, headers[i].1@))
}

/// The value of the first field whose name equals `name` but for the case
/// of its ASCII letters, or `None` where no field has that name.
pub open spec fn field_value(fields: Seq<(Seq<char>, Seq<char>)>, name: Seq<char>) -> Option<
    Seq<char>,
>
    decreases fields.len(),
{
    if fields.len() == 0 {
        None
    } else if eq_ignore_ascii_case(fields[0].0, name) {
        Some(fields[0].1)
    } else {
        field_value(fields.drop_first(), name)
    }
}

impl RequestView {
    /// The value of the header `name`, looked up without regard to case.
    pub open spec fn header(self, name: Seq<char>) -> Option<Seq<char>> {
        field_value(self.headers, name)
    }

    /// The request once its body was taken: the same headers, no body.
    pub open spec fn without_body(self) -> RequestView {
        RequestView { headers: self.headers, body: None }
    }
}

impl View for Request {
    type V = RequestView;

    closed spec fn view(&self) -> RequestView {
        RequestView {
            headers: fields_of(self.headers@),
            body: match self.body {
                Some(bytes) => Some(bytes@),
                None => None,
            },
        }
    }
}

impl Request {
    /// A request with the given header fields and body.
    pub fn new(headers: Vec<(String, String)>, body: Vec<u8>) -> (r: Request)
        ensures
            r@.headers == fields_of(headers@),
            r@.body == Some(body@),
    {
        Request { headers, body: Some(body) }
    }

    /// The value of the header `name`. Names are compared without regard
    /// to the case of ASCII letters; of several fields of that name the
    /// first counts.
    pub fn header(&self, name: &str) -> (r: Option<&str>)
        ensures
            match self@.header(name@) {
                Some(value) => r matches Some(found) && found@ == value,
                None => r is None,
            },
    {
        let wanted = chars_of(name);
        let mut i: usize = 0;
        assert(self@.headers.skip(0) == self@.headers);
        while i < self.headers.len()
            invariant
                i <= self.headers@.len(),
                wanted@ == name@,
                field_value(self@.headers, name@) == field_value(
                    self@.headers.skip(i as int),
                    name@,
                ),
            decreases self.headers@.len() - i,
        {
            let ghost rest = self@.headers.skip(i as int);
            assert(rest[0] == (self.headers@[i as int].0@, self.headers@[i as int].1@));
            assert(rest.drop_first() == self@.headers.skip(i + 1));
            if matches_ignoring_case(self.headers[i].0.as_str(), &wanted) {
                return Some(self.headers[i].1.as_str());
            }
            i += 1;
        }
        None
    }

    /// Takes the body. It is there to be taken once: every later call
    /// returns `None`.
    pub fn data(&mut self) -> (r: Option<Vec<u8>>)
        ensures
            match old(self)@.body {
                Some(bytes) => r matches Some(taken) && taken@ == bytes,
                None => r is None,
            },
            final(self)@ == old(self)@.without_body(),
    {
        self.body.take()
    }
}

} // verus!
