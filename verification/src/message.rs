//! The message model: opaque protocol payloads plus the one predicate the
//! transport inspects, "is this the exit notification".

use vstd::prelude::*;
use vstd::string::StrSliceExecFns;

verus! {

/// A protocol notification: a method name and the raw body text.
#[derive(Debug, Clone, PartialEq, Eq)]
pub struct Notification {
    pub method: String,
    pub content: String,
}

/// One protocol message in transit. The transport never interprets the
/// payload; the only fact it inspects is whether a message is the exit
/// notification.
#[derive(Debug, Clone, PartialEq, Eq)]
pub enum Message {
    Request { content: String },
    Response { content: String },
    Notification(Notification),
}

impl Notification {
    /// A notification is the exit signal exactly when its method is "exit".
    pub open spec fn is_exit_spec(&self) -> bool {
        self.method@ == "exit"@
    }

    pub fn is_exit(&self) -> (r: bool)
        ensures
            r == self.is_exit_spec(),
    {
        str_chars_eq(self.method.as_str(), "exit")
    }
}

impl Message {
    /// The exit signal is a notification whose method is "exit"; requests and
    /// responses never are.
    pub open spec fn is_exit_spec(&self) -> bool {
        match self {
            Message::Notification(n) => n.is_exit_spec(),
            _ => false,
        }
    }

    pub fn is_exit(&self) -> (r: bool)
        ensures
            r == self.is_exit_spec(),
    {
        match self {
            Message::Notification(n) => n.is_exit(),
            _ => false,
        }
    }
}

/// Character-for-character equality of two string slices.
fn str_chars_eq(a: &str, b: &str) -> (r: bool)
    ensures
        r == (a@ == b@),
{
    let la = a.unicode_len();
    let lb = b.unicode_len();
    if la != lb {
        return false;
    }
    let mut i: usize = 0;
    while i < la
        invariant
            i <= la,
            la == a@.len(),
            lb == b@.len(),
            la == lb,
            forall|j: int| 0 <= j < i ==> a@[j] == b@[j],
        decreases la - i,
    {
        if a.get_char(i) != b.get_char(i) {
            return false;
        }
        i += 1;
    }
    proof {
        assert(a@ =~= b@);
    }
    true
}

} // verus!
