//! Small extensions shared by the crate's hosts.

use vstd::prelude::*;

verus! {

/// Extension for `Result`: turning an error into a prefixed message string.
pub trait ResultExt: Sized {
    type Value;

    /// The carried success value, if any.
    spec fn ok_model(&self) -> Option<Self::Value>;

    /// The text of the carried error, or empty on success.
    spec fn err_model(&self) -> Seq<char>;

    /// Passes a success through; rewrites an error to `prefix` followed by
    /// `" Error: "` and the original error text.
    fn map_err_to_string(self, prefix: &str) -> (r: Result<Self::Value, String>)
        ensures
            match r {
                Ok(v) => self.ok_model() == Some(v),
                Err(m) => self.ok_model() is None && m@ == prefix@ + " Error: "@
                    + self.err_model(),
            },
    ;
}

impl<T> ResultExt for Result<T, String> {
    type Value = T;

    open spec fn ok_model(&self) -> Option<T> {
        match self {
            Ok(v) => Some(*v),
            Err(_) => None,
        }
    }

    open spec fn err_model(&self) -> Seq<char> {
        match self {
            Ok(_) => Seq::empty(),
            Err(e) => e@,
        }
    }

    fn map_err_to_string(self, prefix: &str) -> (r: Result<T, String>) {
        match self {
            Ok(v) => Ok(v),
            Err(e) => {
                let mut m = prefix.to_owned();
                m.append(" Error: ");
                m.append(e.as_str());
                Err(m)
            },
        }
    }
}

} // verus!
