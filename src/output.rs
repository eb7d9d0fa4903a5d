use vstd::prelude::*;

verus! {

/// Whether the operation succeeded.
#[derive(Clone, Copy, Debug, PartialEq, Eq, Structural)]
pub enum OpCode {
    Success,
    Failed,
}

impl Default for OpCode {
    fn default() -> (r: OpCode)
        ensures
            r == OpCode::Success,
    {
        OpCode::Success
    }
}

/// Metadata of a znode, as the service reports it.
#[derive(Clone, Copy, Debug, PartialEq, Eq, Structural)]
pub struct ZnodeStat {
    pub czxid: i64,
    pub mzxid: i64,
    pub ctime: i64,
    pub mtime: i64,
    pub version: i32,
    pub cversion: i32,
    pub aversion: i32,
    pub ephemeral_owner: i64,
    pub data_length: i32,
    pub num_children: i32,
    pub pzxid: i64,
}

/// The outcome of one operation.
#[derive(Debug)]
pub struct OpResult {
    pub code: OpCode,
    pub znode_stat: Option<ZnodeStat>,
    pub value: Option<String>,
    pub error: Option<String>,
}

/// The mathematical content of an `OpResult`.
pub struct OpResultModel {
    pub code: OpCode,
    pub znode_stat: Option<ZnodeStat>,
    pub value: Option<Seq<char>>,
    pub error: Option<Seq<char>>,
}

pub open spec fn text_of(s: Option<String>) -> Option<Seq<char>> {
    match s {
        Some(t) => Some(t@),
        None => None,
    }
}

impl View for OpResult {
    type V = OpResultModel;

    open spec fn view(&self) -> OpResultModel {
        OpResultModel {
            code: self.code,
            znode_stat: self.znode_stat,
            value: text_of(self.value),
            error: text_of(self.error),
        }
    }
}

impl OpResult {
    /// A success that carries nothing.
    pub fn success() -> (r: OpResult)
        ensures
            r@ == (OpResultModel { code: OpCode::Success, znode_stat: None, value: None, error: None }),
    {
        OpResult { code: OpCode::Success, znode_stat: None, value: None, error: None }
    }

    /// A failure that carries nothing.
    pub fn failed() -> (r: OpResult)
        ensures
            r@ == (OpResultModel { code: OpCode::Failed, znode_stat: None, value: None, error: None }),
    {
        OpResult { code: OpCode::Failed, znode_stat: None, value: None, error: None }
    }
}

} // verus!
