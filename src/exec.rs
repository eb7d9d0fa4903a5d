use vstd::prelude::*;
use vstd::utf8::*;

use crate::cmd::{SetData, SubCommands};
use crate::output::{text_of, OpCode, OpResult, OpResultModel, ZnodeStat};
use crate::payload::{draws_random, payload};

verus! {

/// The one service call an operation makes.
#[derive(Debug)]
pub enum Request {
    /// Create every missing node along `path`, then store `data` there.
    Write { path: String, data: Vec<u8> },
    /// Read the data and metadata at `path`.
    Read { path: String },
    /// Ask for the metadata at `path`, without a watch.
    Probe { path: String },
    /// Remove exactly `path`, whatever its version.
    Remove { path: String },
    /// Remove `path` and every node below it.
    RemoveAll { path: String },
}

/// `r` writes at `path` the bytes that the data-source rule picks for
/// `value` and `random_size`.
pub open spec fn is_write_of(
    r: Request,
    path: Seq<char>,
    value: Option<Seq<char>>,
    random_size: nat,
) -> bool {
    match r {
        Request::Write { path: p, data } => p@ == path && (if draws_random(value, random_size) {
            data@.len() == random_size
        } else {
            data@ == encode_utf8(value->0)
        }),
        _ => false,
    }
}

/// The request that carries out `cmd`.
pub open spec fn is_request_for(r: Request, cmd: SubCommands) -> bool {
    match cmd {
        SubCommands::Create(c) => is_write_of(r, c.path@, text_of(c.value), c.random_size as nat),
        SubCommands::SetData(c) => is_write_of(r, c.path@, text_of(c.value), c.random_size as nat),
        SubCommands::Get(c) => r matches Request::Read { path } && path@ == c.path@,
        SubCommands::Exists(c) => r matches Request::Probe { path } && path@ == c.path@,
        SubCommands::Delete(c) => r matches Request::Remove { path } && path@ == c.path@,
        SubCommands::DeleteAll(c) => r matches Request::RemoveAll { path } && path@ == c.path@,
    }
}

/// Builds the service call for a command, drawing a random payload where
/// the command asks for one.
pub fn request_for(cmd: SubCommands) -> (r: Request)
    ensures
        is_request_for(r, cmd),
{
    match cmd {
        SubCommands::Create(c) => {
            let data = payload(&c.value, c.random_size);
            Request::Write { path: c.path, data }
        },
        SubCommands::SetData(c) => {
            let data = payload(&c.value, c.random_size);
            Request::Write { path: c.path, data }
        },
        SubCommands::Get(c) => Request::Read { path: c.path },
        SubCommands::Exists(c) => Request::Probe { path: c.path },
        SubCommands::Delete(c) => Request::Remove { path: c.path },
        SubCommands::DeleteAll(c) => Request::RemoveAll { path: c.path },
    }
}

pub open spec fn failed_model(error: Option<Seq<char>>) -> OpResultModel {
    OpResultModel { code: OpCode::Failed, znode_stat: None, value: None, error }
}

/// The result of a write: the new metadata, or the cause of the failure.
pub open spec fn write_model(outcome: Result<ZnodeStat, Seq<char>>) -> OpResultModel {
    match outcome {
        Ok(stat) => OpResultModel {
            code: OpCode::Success,
            znode_stat: Some(stat),
            value: None,
            error: None,
        },
        Err(e) => failed_model(Some(e)),
    }
}

/// The result of a successful read: the metadata, and the data as text
/// when it is valid UTF-8.
pub open spec fn read_model(data: Seq<u8>, stat: ZnodeStat) -> OpResultModel {
    OpResultModel {
        code: OpCode::Success,
        znode_stat: Some(stat),
        value: if valid_utf8(data) {
            Some(decode_utf8(data))
        } else {
            None
        },
        error: None,
    }
}

/// Relies on String::from_utf8: it succeeds exactly on valid UTF-8, and the
/// string then holds the decoded characters.
#[verifier::external_body]
fn decode_text(bytes: Vec<u8>) -> (r: Option<String>)
    ensures
        r is Some <==> valid_utf8(bytes@),
        r matches Some(s) ==> s@ == decode_utf8(bytes@),
{
    match String::from_utf8(bytes) {
        Ok(s) => Some(s),
        Err(_) => None,
    }
}

/// Translates the outcome of a write (Create or Set).
pub fn write_result(outcome: Result<ZnodeStat, String>) -> (r: OpResult)
    ensures
        r@ == write_model(
            match outcome {
                Ok(s) => Ok(s),
                Err(e) => Err(e@),
            },
        ),
{
    match outcome {
        Ok(stat) => OpResult {
            code: OpCode::Success,
            znode_stat: Some(stat),
            value: None,
            error: None,
        },
        Err(e) => OpResult { code: OpCode::Failed, znode_stat: None, value: None, error: Some(e) },
    }
}

/// Translates the outcome of a read. Data that is not valid UTF-8 leaves
/// `value` out; it is no failure. A failure carries no cause.
pub fn read_result(outcome: Result<(Vec<u8>, ZnodeStat), String>) -> (r: OpResult)
    ensures
        outcome matches Ok((data, stat)) ==> r@ == read_model(data@, stat),
        outcome is Err ==> r@ == failed_model(None),
{
    match outcome {
        Ok((data, stat)) => OpResult {
            code: OpCode::Success,
            znode_stat: Some(stat),
            value: decode_text(data),
            error: None,
        },
        Err(_) => OpResult::failed(),
    }
}

/// Translates the outcome of an existence check: a missing node is a
/// success without metadata. A failure carries no cause.
pub fn exists_result(outcome: Result<Option<ZnodeStat>, String>) -> (r: OpResult)
    ensures
        outcome matches Ok(found) ==> r@ == (OpResultModel {
            code: OpCode::Success,
            znode_stat: found,
            value: None,
            error: None,
        }),
        outcome is Err ==> r@ == failed_model(None),
{
    match outcome {
        Ok(found) => OpResult { code: OpCode::Success, znode_stat: found, value: None, error: None },
        Err(_) => OpResult::failed(),
    }
}

/// Translates the outcome of a removal (Delete or DeleteAll): nothing is
/// carried beyond the code.
pub fn remove_result(outcome: Result<(), String>) -> (r: OpResult)
    ensures
        outcome is Ok ==> r@ == (OpResultModel {
            code: OpCode::Success,
            znode_stat: None,
            value: None,
            error: None,
        }),
        outcome is Err ==> r@ == failed_model(None),
{
    match outcome {
        Ok(()) => OpResult::success(),
        Err(_) => OpResult::failed(),
    }
}

/// A Set of the text `v` without a random size stores bytes that, read back,
/// give `v` as the value, with the metadata of the read.
pub proof fn lemma_get_after_set(cmd: SetData, r: Request, stat: ZnodeStat)
    requires
        cmd.random_size == 0,
        cmd.value is Some,
        is_request_for(r, SubCommands::SetData(cmd)),
    ensures
        r matches Request::Write { data, .. } && read_model(data@, stat) == (OpResultModel {
            code: OpCode::Success,
            znode_stat: Some(stat),
            value: Some(cmd.value->0@),
            error: None,
        }),
{
    encode_utf8_valid_utf8(cmd.value->0@);
    encode_utf8_decode_utf8(cmd.value->0@);
}

} // verus!
