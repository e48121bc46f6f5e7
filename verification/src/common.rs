use vstd::prelude::*;

verus! {

/// Two-dimensional string data: an ordered sequence of rows, each an ordered
/// sequence of string cells.
pub type TableData = Vec<Vec<String>>;

/// Conversion of enum values to a readable description.
pub trait DisplayString {
    /// The description, as a mathematical value.
    spec fn spec_display(&self) -> Seq<char>;

    /// Returns the readable description of the value.
    fn to_display_string(&self) -> (r: &'static str)
        ensures
            r@ == self.spec_display(),
    ;
}

} // verus!
