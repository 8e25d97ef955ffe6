use vstd::prelude::*;

verus! {

/// An error of the chat bot, carrying the text shown to the user.
#[derive(Debug)]
pub struct SolarSystemInfoBotError {
    message: String,
}

impl SolarSystemInfoBotError {
    /// The text of this error.
    pub closed spec fn text(&self) -> Seq<char> {
        self.message@
    }

    /// An error whose text is `msg`.
    pub fn new(msg: &str) -> (r: Self)
        ensures
            r.text() == msg@,
    {
        SolarSystemInfoBotError { message: String::from_str(msg) }
    }

    /// The text of this error, as it is displayed.
    pub fn message(&self) -> (r: String)
        ensures
            r@ == self.text(),
    {
        self.message.clone()
    }
}

} // verus!
