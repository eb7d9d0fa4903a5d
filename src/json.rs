use vstd::prelude::*;
use vstd::string::*;

use crate::output::{OpCode, OpResult, OpResultModel, ZnodeStat};

verus! {

/// The JSON string literal that serde_json writes for the text `s`: quoted,
/// with the characters JSON requires escaped.
pub uninterp spec fn json_quoted(s: Seq<char>) -> Seq<char>;

pub open spec fn digit_char(d: nat) -> char {
    seq!['0', '1', '2', '3', '4', '5', '6', '7', '8', '9'][d as int]
}

/// The decimal digits of `n`, most significant first, without leading zeros.
pub open spec fn digits_of(n: nat) -> Seq<char>
    decreases n,
{
    if n < 10 {
        seq![digit_char(n)]
    } else {
        digits_of(n / 10) + seq![digit_char(n % 10)]
    }
}

/// The decimal form of `i`, with a leading `-` when it is negative.
pub open spec fn decimal_of(i: int) -> Seq<char> {
    if i < 0 {
        seq!['-'] + digits_of((-i) as nat)
    } else {
        digits_of(i as nat)
    }
}

/// Relies on serde_json::to_string on a `str`: a quoted, escaped JSON string.
/// Writing into memory cannot fail for a `str`.
#[verifier::external_body]
fn quote(s: &str) -> (r: String)
    ensures
        r@ == json_quoted(s@),
{
    serde_json::to_string(s).unwrap()
}

/// Relies on serde_json::to_string on an `i64`: its decimal form, as itoa
/// writes it. Writing into memory cannot fail for an integer.
#[verifier::external_body]
fn integer(n: i64) -> (r: String)
    ensures
        r@ == decimal_of(n as int),
{
    serde_json::to_string(&n).unwrap()
}

pub open spec fn code_json(c: OpCode) -> Seq<char> {
    match c {
        OpCode::Success => "\"success\""@,
        OpCode::Failed => "\"failed\""@,
    }
}

/// The JSON object of a znode's metadata, its keys in this fixed order.
pub open spec fn stat_json(s: ZnodeStat) -> Seq<char> {
    "{\"czxid\":"@ + decimal_of(s.czxid as int) + ",\"mzxid\":"@ + decimal_of(s.mzxid as int)
        + ",\"ctime\":"@ + decimal_of(s.ctime as int) + ",\"mtime\":"@ + decimal_of(
        s.mtime as int,
    ) + ",\"version\":"@ + decimal_of(s.version as int) + ",\"cversion\":"@ + decimal_of(
        s.cversion as int,
    ) + ",\"aversion\":"@ + decimal_of(s.aversion as int) + ",\"ephemeral_owner\":"@
        + decimal_of(s.ephemeral_owner as int) + ",\"data_length\":"@ + decimal_of(
        s.data_length as int,
    ) + ",\"num_children\":"@ + decimal_of(s.num_children as int) + ",\"pzxid\":"@
        + decimal_of(s.pzxid as int) + "}"@
}

pub open spec fn stat_or_null(o: Option<ZnodeStat>) -> Seq<char> {
    match o {
        Some(s) => stat_json(s),
        None => "null"@,
    }
}

pub open spec fn text_or_null(o: Option<Seq<char>>) -> Seq<char> {
    match o {
        Some(t) => json_quoted(t),
        None => "null"@,
    }
}

/// The JSON object of a result: the four keys always, in this order, with
/// `null` for each absent field.
pub open spec fn result_json(r: OpResultModel) -> Seq<char> {
    "{\"code\":"@ + code_json(r.code) + ",\"znode_stat\":"@ + stat_or_null(r.znode_stat)
        + ",\"value\":"@ + text_or_null(r.value) + ",\"error\":"@ + text_or_null(r.error) + "}"@
}

fn push_integer(out: &mut String, key: &str, n: i64)
    ensures
        final(out)@ == old(out)@ + key@ + decimal_of(n as int),
{
    out.append(key);
    let d = integer(n);
    out.append(d.as_str());
}

fn push_text_or_null(out: &mut String, t: &Option<String>)
    ensures
        final(out)@ == old(out)@ + text_or_null(crate::output::text_of(*t)),
{
    match t {
        Some(s) => {
            let q = quote(s.as_str());
            out.append(q.as_str());
        },
        None => out.append("null"),
    }
}

impl ZnodeStat {
    /// The JSON object of this metadata.
    pub fn to_json(&self) -> (r: String)
        ensures
            r@ == stat_json(*self),
    {
        let mut out = String::from_str("{\"czxid\":");
        let d = integer(self.czxid);
        out.append(d.as_str());
        push_integer(&mut out, ",\"mzxid\":", self.mzxid);
        push_integer(&mut out, ",\"ctime\":", self.ctime);
        push_integer(&mut out, ",\"mtime\":", self.mtime);
        push_integer(&mut out, ",\"version\":", self.version as i64);
        push_integer(&mut out, ",\"cversion\":", self.cversion as i64);
        push_integer(&mut out, ",\"aversion\":", self.aversion as i64);
        push_integer(&mut out, ",\"ephemeral_owner\":", self.ephemeral_owner);
        push_integer(&mut out, ",\"data_length\":", self.data_length as i64);
        push_integer(&mut out, ",\"num_children\":", self.num_children as i64);
        push_integer(&mut out, ",\"pzxid\":", self.pzxid);
        out.append("}");
        assert(out@ =~= stat_json(*self));
        out
    }
}

impl OpResult {
    /// The JSON object of this result.
    pub fn to_json(&self) -> (r: String)
        ensures
            r@ == result_json(self@),
    {
        let mut out = String::from_str("{\"code\":");
        match self.code {
            OpCode::Success => out.append("\"success\""),
            OpCode::Failed => out.append("\"failed\""),
        }
        out.append(",\"znode_stat\":");
        match &self.znode_stat {
            Some(s) => {
                let j = s.to_json();
                out.append(j.as_str());
            },
            None => out.append("null"),
        }
        out.append(",\"value\":");
        push_text_or_null(&mut out, &self.value);
        out.append(",\"error\":");
        push_text_or_null(&mut out, &self.error);
        out.append("}");
        assert(out@ =~= result_json(self@));
        out
    }
}

} // verus!
