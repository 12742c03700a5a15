//! Why an operation on a chunk gave no result.
use vstd::prelude::*;
use vstd::string::StringExecFns;

verus! {

/// Why an operation on a chunk gave no result.
#[derive(Debug, PartialEq, Eq)]
pub enum ChunkError {
    /// The operation is not offered at this level of abstraction.
    Unsupported,
    /// Two chunk items selected for one chunk share an identity.
    DuplicateItem,
    /// Something the chunk depends on failed; the text says what.
    Dependency(String),
}

impl Clone for ChunkError {
    fn clone(&self) -> (r: Self)
        ensures
            r == *self,
    {
        match self {
            ChunkError::Unsupported => ChunkError::Unsupported,
            ChunkError::DuplicateItem => ChunkError::DuplicateItem,
            ChunkError::Dependency(text) => ChunkError::Dependency(text.clone()),
        }
    }
}

impl ChunkError {
    /// The failure in words.
    pub open spec fn text(self) -> Seq<char> {
        match self {
            ChunkError::Unsupported => "EcmascriptChunk::content() is not implemented"@,
            ChunkError::DuplicateItem => "two chunk items of one chunk share an identity"@,
            ChunkError::Dependency(text) => text@,
        }
    }

    /// The failure in words: for a failed dependency, its own text unchanged.
    pub fn to_string(&self) -> (r: String)
        ensures
            r@ == self.text(),
    {
        match self {
            ChunkError::Unsupported => String::from_str(
                "EcmascriptChunk::content() is not implemented",
            ),
            ChunkError::DuplicateItem => String::from_str(
                "two chunk items of one chunk share an identity",
            ),
            ChunkError::Dependency(text) => text.clone(),
        }
    }
}

} // verus!
