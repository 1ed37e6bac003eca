use vstd::prelude::*;
use vstd::string::StringExecFns;
use crate::text::{int_text, push_signed_decimal};

verus! {

/// The state of some piece of work.
#[derive(Debug)]
pub enum Status {
    Active,
    Inactive,
    Pending(String),
    Error { code: i32, message: String },
}

/// The one-line report of a status.
pub open spec fn status_report(s: Status) -> Seq<char> {
    match s {
        Status::Active => "アクティブ"@,
        Status::Inactive => "非アクティブ"@,
        Status::Pending(msg) => "保留中: "@ + msg@,
        Status::Error { code, message } => "エラー"@ + int_text(code as int) + ": "@ + message@,
    }
}

impl Status {
    /// The one-line report of this status, chosen by its variant.
    pub fn report(&self) -> (r: String)
        ensures
            r@ == status_report(*self),
    {
        match self {
            Status::Active => String::from_str("アクティブ"),
            Status::Inactive => String::from_str("非アクティブ"),
            Status::Pending(msg) => {
                let mut s = String::from_str("保留中: ");
                s.append(msg.as_str());
                s
            },
            Status::Error { code, message } => {
                let mut s = String::from_str("エラー");
                push_signed_decimal(&mut s, *code);
                s.append(": ");
                s.append(message.as_str());
                s
            },
        }
    }
}

} // verus!
