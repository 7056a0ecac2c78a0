use vstd::prelude::*;

verus! {

/// The logical type of a column. The engine takes it as a tag: it selects
/// an evaluator by it and reads nothing else from it.
#[derive(Debug, PartialEq, Eq, Clone, Copy, Structural)]
pub enum DataType {
    SmallInt,
    Integer,
    BigInt,
    Boolean,
    Varchar,
    Char { width: u16 },
}

impl DataType {
    /// Whether columns of this type hold text.
    pub open spec fn is_text_spec(self) -> bool {
        self is Varchar || self is Char
    }

    /// Whether columns of this type hold text.
    #[verifier::when_used_as_spec(is_text_spec)]
    pub fn is_text(self) -> (text: bool)
        ensures
            text == self.is_text_spec(),
    {
        match self {
            DataType::Varchar => true,
            DataType::Char { .. } => true,
            _ => false,
        }
    }
}

} // verus!
