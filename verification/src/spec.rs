use vstd::prelude::*;

verus! {

/// The declared folder layout: a list of areas.
#[derive(Debug)]
pub struct SpecFile {
    pub version: u32,
    pub areas: Vec<Area>,
}

/// One area of the layout: a root folder and what must lie below it.
#[derive(Debug)]
pub struct Area {
    pub name: String,
    /// The root folder; a leading `~/` stands for the home directory.
    pub root: String,
    pub required: Vec<Node>,
}

/// A required folder, given relative to its parent, with its own required
/// folders.
#[derive(Debug)]
pub struct Node {
    pub path: String,
    pub children: Vec<Node>,
}

} // verus!
