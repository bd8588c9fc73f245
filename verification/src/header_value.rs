use vstd::prelude::*;

verus! {

/// One textual value associated with an HTTP header name.
///
/// The surrounding header machinery treats a value as opaque text; all
/// that the value list needs of it is construction, read access, and
/// comparison against string slices. Its mathematical model is the
/// sequence of characters it holds.
#[derive(Debug, Clone)]
pub struct HeaderValue {
    value: String,
}

impl View for HeaderValue {
    type V = Seq<char>;

    closed spec fn view(&self) -> Seq<char> {
        self.value@
    }
}

impl HeaderValue {
    /// Wraps owned text as a header value.
    pub fn new(value: String) -> (r: HeaderValue)
        ensures
            r@ == value@,
    {
        HeaderValue { value }
    }

    /// Copies borrowed text into a new header value.
    pub fn from_str_value(value: &str) -> (r: HeaderValue)
        ensures
            r@ == value@,
    {
        HeaderValue { value: value.to_owned() }
    }

    /// The text of this value, borrowed.
    pub fn as_str(&self) -> (r: &str)
        ensures
            r@ == self@,
    {
        self.value.as_str()
    }

    /// True exactly when this value's text equals `other`.
    pub fn eq_str(&self, other: &str) -> (r: bool)
        ensures
            r == (self@ == other@),
    {
        let owned: String = other.to_owned();
        self.value == owned
    }
}

} // verus!
