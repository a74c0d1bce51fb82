//! The three kinds of response and the tags that name them.

use vstd::prelude::*;
use vstd::string::*;

verus! {

/// Tells whether two texts hold the same characters.
fn same_text(a: &str, b: &str) -> (r: bool)
    ensures
        r == (a@ == b@),
{
    let n: usize = a.unicode_len();
    if n != b.unicode_len() {
        return false;
    }
    let mut i: usize = 0;
    while i < n
        invariant
            i <= n,
            n == a@.len(),
            n == b@.len(),
            forall|j: int| 0 <= j < i ==> a@[j] == b@[j],
        decreases n - i,
    {
        if a.get_char(i) != b.get_char(i) {
            return false;
        }
        i += 1;
    }
    assert(a@ =~= b@);
    true
}

/// The kind of a response. An encoded envelope names it under `status`.
#[derive(Debug, Clone, Copy, PartialEq, Eq, Hash)]
pub enum Status {
    /// The call went well.
    Success,
    /// The call was refused for a reason that the caller can mend.
    Fail,
    /// The call broke on the server's side.
    Error,
}

impl Status {
    /// The text that stands for this kind in an encoded envelope.
    pub open spec fn spec_tag(self) -> Seq<char> {
        match self {
            Status::Success => "success"@,
            Status::Fail => "fail"@,
            Status::Error => "error"@,
        }
    }

    /// The kind that a text stands for, if it is one of the three tags.
    pub open spec fn spec_from_tag(tag: Seq<char>) -> Option<Status> {
        if tag == Status::Success.spec_tag() {
            Some(Status::Success)
        } else if tag == Status::Fail.spec_tag() {
            Some(Status::Fail)
        } else if tag == Status::Error.spec_tag() {
            Some(Status::Error)
        } else {
            None
        }
    }

    /// The tag of this kind: `success`, `fail` or `error`, in lower case.
    pub fn tag(self) -> (r: &'static str)
        ensures
            r@ == self.spec_tag(),
    {
        match self {
            Status::Success => "success",
            Status::Fail => "fail",
            Status::Error => "error",
        }
    }

    /// Reads a tag. Any text but the three tags, letter for letter, is no kind.
    pub fn from_tag(tag: &str) -> (r: Option<Status>)
        ensures
            r == Status::spec_from_tag(tag@),
    {
        if same_text(tag, "success") {
            Some(Status::Success)
        } else if same_text(tag, "fail") {
            Some(Status::Fail)
        } else if same_text(tag, "error") {
            Some(Status::Error)
        } else {
            None
        }
    }
}

} // verus!
