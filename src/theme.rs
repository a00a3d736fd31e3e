use vstd::prelude::*;

verus! {

/// The colours a dial is drawn with, shared by the views below the app.
#[derive(Clone, Debug, PartialEq)]
pub struct Theme {
    pub foreground: String,
    pub background: String,
    pub primary: String,
    pub secondary: String,
}

} // verus!
