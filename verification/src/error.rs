use vstd::prelude::*;

verus! {

/// The error of the library: a human-readable message.
#[derive(Debug)]
pub enum UndercoverError {
    Message(String),
}

impl UndercoverError {
    /// The text of the error.
    pub open spec fn message_view(&self) -> Seq<char> {
        match self {
            UndercoverError::Message(m) => m@,
        }
    }

    /// The text of the error.
    pub fn message(&self) -> (r: &String)
        ensures
            r@ == self.message_view(),
    {
        match self {
            UndercoverError::Message(m) => m,
        }
    }
}

} // verus!
