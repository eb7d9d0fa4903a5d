use vstd::prelude::*;

verus! {

/// An invocation: the service address and at most one operation.
#[derive(Debug)]
pub struct Cli {
    pub address: String,
    pub command: Option<SubCommands>,
}

/// The closed set of operations.
#[derive(Debug)]
pub enum SubCommands {
    Create(Create),
    Get(Get),
    SetData(SetData),
    Exists(Exists),
    Delete(Delete),
    DeleteAll(DeleteAll),
}

/// Writes data at `path`, creating the path first.
#[derive(Debug)]
pub struct Create {
    pub path: String,
    pub value: Option<String>,
    pub random_size: usize,
}

/// Overwrites the data at `path`, creating the path first.
#[derive(Debug)]
pub struct SetData {
    pub path: String,
    pub value: Option<String>,
    pub random_size: usize,
}

/// Asks whether `path` exists.
#[derive(Debug)]
pub struct Exists {
    pub path: String,
}

/// Removes exactly `path`.
#[derive(Debug)]
pub struct Delete {
    pub path: String,
}

/// Removes `path` and its whole subtree.
#[derive(Debug)]
pub struct DeleteAll {
    pub path: String,
}

/// Reads the data at `path`.
#[derive(Debug)]
pub struct Get {
    pub path: String,
}

} // verus!
