use vstd::prelude::*;

verus! {

/// An error that carries a message.
#[derive(Debug)]
pub struct StringError {
    msg: String,
}

impl View for StringError {
    type V = Seq<char>;

    /// The message.
    closed spec fn view(&self) -> Seq<char> {
        self.msg@
    }
}

impl Clone for StringError {
    fn clone(&self) -> (r: StringError)
        ensures
            r@ == self@,
    {
        StringError { msg: self.msg.clone() }
    }
}

impl StringError {
    /// Returns an error with the given message.
    pub fn new(msg: &str) -> (r: StringError)
        ensures
            r@ == msg@,
    {
        StringError { msg: String::from_str(msg) }
    }

    /// The message.
    pub fn msg(&self) -> (r: &str)
        ensures
            r@ == self@,
    {
        self.msg.as_str()
    }
}

} // verus!
