//! The headers that an engine instance is constructed from.
use vstd::prelude::*;
use crate::common::{Header, HeaderModel};
use crate::pieces::views;

verus! {

/// A character with the upper-case letters `A` to `Z` made lower case.
/// Every other character, a letter outside ASCII included, stays as it is.
pub open spec fn fold_ascii(c: char) -> char {
    if 'A' as u32 <= c as u32 && c as u32 <= 'Z' as u32 {
        ((c as u32) + 32) as char
    } else {
        c
    }
}

/// Two texts are the same but for the case of their ASCII letters.
pub open spec fn same_ignoring_ascii_case(a: Seq<char>, b: Seq<char>) -> bool {
    &&& a.len() == b.len()
    &&& forall|i: int| 0 <= i < a.len() ==> fold_ascii(#[trigger] a[i]) == fold_ascii(b[i])
}

/// `str::eq_ignore_ascii_case` of std: whether two texts are equal once
/// the ASCII letters of both are made lower case.
#[verifier::external_body]
fn eq_ignore_ascii_case(a: &str, b: &str) -> (r: bool)
    ensures
        r == same_ignoring_ascii_case(a@, b@),
{
    a.eq_ignore_ascii_case(b)
}

/// Header `i` is the first whose key is `name`, ignoring the case of ASCII
/// letters.
pub open spec fn first_match(headers: Seq<HeaderModel>, name: Seq<char>, i: int) -> bool {
    &&& 0 <= i < headers.len()
    &&& same_ignoring_ascii_case(headers[i].key, name)
    &&& forall|j: int| 0 <= j < i ==> !same_ignoring_ascii_case((#[trigger] headers[j]).key, name)
}

/// No header has the key `name`, ignoring the case of ASCII letters.
pub open spec fn no_match(headers: Seq<HeaderModel>, name: Seq<char>) -> bool {
    forall|j: int|
        0 <= j < headers.len() ==> !same_ignoring_ascii_case((#[trigger] headers[j]).key, name)
}

/// A list of headers, in the order in which they came. The engine is
/// constructed from one, and finds in it the content type of the request by
/// the rule of [`WasmHeaders::extract`].
#[derive(Clone, Debug, PartialEq, Eq)]
pub struct WasmHeaders(pub Vec<Header>);

impl View for WasmHeaders {
    type V = Seq<HeaderModel>;

    open spec fn view(&self) -> Seq<HeaderModel> {
        views(self.0@)
    }
}

impl WasmHeaders {
    /// The value of the first header whose key is `name`, ignoring the case
    /// of ASCII letters; nothing where no header has that key.
    pub fn extract(&self, name: &str) -> (r: Option<&str>)
        ensures
            match r {
                Some(value) => exists|i: int|
                    first_match(self@, name@, i) && value@ == (#[trigger] self@[i]).value,
                None => no_match(self@, name@),
            },
    {
        let mut i: usize = 0;
        while i < self.0.len()
            invariant
                i <= self.0.len(),
                forall|j: int|
                    0 <= j < i ==> !same_ignoring_ascii_case((#[trigger] self@[j]).key, name@),
            decreases self.0.len() - i,
        {
            let header = &self.0[i];
            if eq_ignore_ascii_case(header.key.as_str(), name) {
                proof {
                    assert(first_match(self@, name@, i as int));
                }
                return Some(header.value.as_str());
            }
            i += 1;
        }
        None
    }
}

} // verus!
