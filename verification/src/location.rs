//! Where a note was committed, and the proof of it.

use miden_protocol::crypto::merkle::SparseMerklePath;
use vstd::prelude::*;

use crate::word::Word;

verus! {

/// The number of a block.
#[derive(Debug, Clone, Copy, PartialEq, Eq, Structural)]
pub struct BlockNumber {
    /// The number.
    pub value: u32,
}

/// Where in the chain a note was committed.
#[derive(Debug, Clone, Copy, PartialEq, Eq, Structural)]
pub struct NoteLocation {
    /// The block in which the note was committed.
    pub block_num: BlockNumber,
    /// The index of the note in that block's tree of notes.
    pub block_note_tree_index: u16,
}

/// The proof that a note was committed in a block.
#[derive(Debug, PartialEq, Eq)]
pub struct NoteInclusionProof {
    /// Where the note was committed.
    pub location: NoteLocation,
    /// The path from the note to the root of its block's tree of notes.
    pub note_path: SparseMerklePath,
}

impl Clone for NoteInclusionProof {
    fn clone(&self) -> (r: NoteInclusionProof)
        ensures
            r == *self,
    {
        NoteInclusionProof { location: self.location, note_path: self.note_path.clone() }
    }
}

/// A path of Merkle tree nodes, as it proves the inclusion of a leaf.
#[derive(Debug, PartialEq, Eq)]
pub struct MerklePath {
    /// The nodes of the path.
    pub nodes: Vec<Word>,
}

impl Clone for MerklePath {
    fn clone(&self) -> (r: MerklePath)
        ensures
            r.nodes@ == self.nodes@,
    {
        let nodes = self.nodes.clone();
        assert(nodes@ =~= self.nodes@);
        MerklePath { nodes }
    }
}

} // verus!
