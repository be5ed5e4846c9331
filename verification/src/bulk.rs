//! Bulk-action codec: serializes an ordered sequence of heterogeneous
//! actions into newline-delimited metadata+payload line pairs. The
//! metadata line is a JSON object over the action's set fields, in
//! declaration order, with unset fields omitted entirely (never `null`);
//! the payload line is emitted verbatim for every variant.

use vstd::prelude::*;
use vstd::string::*;
use crate::encode::{append_quoted, bool_str, bool_to_string, i64_to_dec, int_dec_str, quoted};
use crate::types::{op_type_str, version_type_str, OpType, VersionType};

verus! {

/// A JSON object key as it appears on the wire: the quoted name followed
/// by a colon. Metadata keys are fixed ASCII names and need no escaping.
pub open spec fn json_key(name: Seq<char>) -> Seq<char> {
    seq!['"'] + name + seq!['"', ':']
}

/// A non-leading JSON object member for a field that is set: a comma, the
/// key, and the rendered value; an unset field contributes nothing.
pub open spec fn opt_member(name: Seq<char>, v: Option<Seq<char>>) -> Seq<char> {
    match v {
        Some(x) => seq![','] + json_key(name) + x,
        Option::None => seq![],
    }
}

fn append_key(out: &mut String, name: &str)
    ensures
        final(out)@ == old(out)@ + json_key(name@),
{
    out.append("\"");
    out.append(name);
    out.append("\":");
    proof {
        reveal_strlit("\"");
        reveal_strlit("\":");
        assert(out@ =~= old(out)@ + json_key(name@));
    }
}

fn append_comma(out: &mut String)
    ensures
        final(out)@ == old(out)@ + seq![','],
{
    out.append(",");
    proof {
        reveal_strlit(",");
        assert(out@ =~= old(out)@ + seq![',']);
    }
}

fn append_opt_quoted_member(out: &mut String, name: &str, v: &Option<String>)
    ensures
        final(out)@ == old(out)@ + opt_member(
            name@,
            match v {
                Some(x) => Some(quoted(x@)),
                Option::None => Option::None,
            },
        ),
{
    if let Some(x) = v {
        append_comma(out);
        append_key(out, name);
        append_quoted(out, x.as_str());
    }
}

fn append_opt_op_type_member(out: &mut String, name: &str, v: &Option<OpType>)
    ensures
        final(out)@ == old(out)@ + opt_member(
            name@,
            match v {
                Some(t) => Some(quoted(op_type_str(*t))),
                Option::None => Option::None,
            },
        ),
{
    if let Some(t) = v {
        append_comma(out);
        append_key(out, name);
        let text = t.to_string();
        append_quoted(out, text.as_str());
    }
}

fn append_opt_version_type_member(out: &mut String, name: &str, v: &Option<VersionType>)
    ensures
        final(out)@ == old(out)@ + opt_member(
            name@,
            match v {
                Some(t) => Some(quoted(version_type_str(*t))),
                Option::None => Option::None,
            },
        ),
{
    if let Some(t) = v {
        append_comma(out);
        append_key(out, name);
        let text = t.to_string();
        append_quoted(out, text.as_str());
    }
}

fn append_opt_int_member(out: &mut String, name: &str, v: &Option<i64>)
    ensures
        final(out)@ == old(out)@ + opt_member(
            name@,
            match v {
                Some(x) => Some(int_dec_str(*x as int)),
                Option::None => Option::None,
            },
        ),
{
    if let Some(x) = v {
        append_comma(out);
        append_key(out, name);
        let text = i64_to_dec(*x);
        out.append(text.as_str());
    }
}

fn append_opt_bool_member(out: &mut String, name: &str, v: &Option<bool>)
    ensures
        final(out)@ == old(out)@ + opt_member(
            name@,
            match v {
                Some(b) => Some(bool_str(*b)),
                Option::None => Option::None,
            },
        ),
{
    if let Some(b) = v {
        append_comma(out);
        append_key(out, name);
        let text = bool_to_string(*b);
        out.append(text.as_str());
    }
}

/// Metadata of one bulk action: the target index and type, and the
/// optional per-document routing fields. Field names match the wire keys.
#[derive(Debug, Clone, PartialEq)]
pub struct BulkActionMetadata {
    pub _index: String,
    pub _type: String,
    pub _id: Option<String>,
    pub _routing: Option<String>,
    pub _parent: Option<String>,
    pub _timestamp: Option<String>,
    pub _ttl: Option<String>,
    pub op_type: Option<OpType>,
    pub _version: Option<i64>,
    pub _version_type: Option<VersionType>,
    pub _retry_on_conflict: Option<bool>,
}

/// The metadata line of a bulk action: a JSON object holding the two
/// required fields and every optional field that is set, in declaration
/// order; unset fields are omitted entirely.
pub open spec fn metadata_json_str(m: BulkActionMetadata) -> Seq<char> {
    seq!['{'] + json_key("_index"@) + quoted(m._index@) + seq![','] + json_key("_type"@) + quoted(
        m._type@,
    ) + opt_member(
        "_id"@,
        match m._id {
            Some(v) => Some(quoted(v@)),
            Option::None => Option::None,
        },
    ) + opt_member(
        "_routing"@,
        match m._routing {
            Some(v) => Some(quoted(v@)),
            Option::None => Option::None,
        },
    ) + opt_member(
        "_parent"@,
        match m._parent {
            Some(v) => Some(quoted(v@)),
            Option::None => Option::None,
        },
    ) + opt_member(
        "_timestamp"@,
        match m._timestamp {
            Some(v) => Some(quoted(v@)),
            Option::None => Option::None,
        },
    ) + opt_member(
        "_ttl"@,
        match m._ttl {
            Some(v) => Some(quoted(v@)),
            Option::None => Option::None,
        },
    ) + opt_member(
        "op_type"@,
        match m.op_type {
            Some(t) => Some(quoted(op_type_str(t))),
            Option::None => Option::None,
        },
    ) + opt_member(
        "_version"@,
        match m._version {
            Some(v) => Some(int_dec_str(v as int)),
            Option::None => Option::None,
        },
    ) + opt_member(
        "_version_type"@,
        match m._version_type {
            Some(t) => Some(quoted(version_type_str(t))),
            Option::None => Option::None,
        },
    ) + opt_member(
        "_retry_on_conflict"@,
        match m._retry_on_conflict {
            Some(b) => Some(bool_str(b)),
            Option::None => Option::None,
        },
    ) + seq!['}']
}

impl BulkActionMetadata {
    /// Render the metadata line's JSON object.
    pub fn to_json(&self) -> (r: String)
        ensures
            r@ == metadata_json_str(*self),
    {
        let mut out = String::from_str("{");
        proof {
            reveal_strlit("{");
            assert(out@ =~= seq!['{']);
        }
        append_key(&mut out, "_index");
        append_quoted(&mut out, self._index.as_str());
        append_comma(&mut out);
        append_key(&mut out, "_type");
        append_quoted(&mut out, self._type.as_str());
        append_opt_quoted_member(&mut out, "_id", &self._id);
        append_opt_quoted_member(&mut out, "_routing", &self._routing);
        append_opt_quoted_member(&mut out, "_parent", &self._parent);
        append_opt_quoted_member(&mut out, "_timestamp", &self._timestamp);
        append_opt_quoted_member(&mut out, "_ttl", &self._ttl);
        append_opt_op_type_member(&mut out, "op_type", &self.op_type);
        append_opt_int_member(&mut out, "_version", &self._version);
        append_opt_version_type_member(&mut out, "_version_type", &self._version_type);
        append_opt_bool_member(&mut out, "_retry_on_conflict", &self._retry_on_conflict);
        out.append("}");
        proof {
            reveal_strlit("}");
            assert("}"@ =~= seq!['}']);
        }
        out
    }
}

/// One batched write: the action metadata plus a pre-serialized payload
/// line, emitted verbatim. A payload line is emitted for every variant,
/// Delete included.
#[derive(Debug, Clone, PartialEq)]
pub enum BulkAction {
    Index(BulkActionMetadata, String),
    Delete(BulkActionMetadata, String),
    Update(BulkActionMetadata, String),
}

/// Wire form of one bulk action: the metadata JSON line and the payload
/// line, each newline-terminated.
pub open spec fn bulk_action_str(a: BulkAction) -> Seq<char> {
    match a {
        BulkAction::Index(m, p) => metadata_json_str(m) + seq!['\n'] + p@ + seq!['\n'],
        BulkAction::Delete(m, p) => metadata_json_str(m) + seq!['\n'] + p@ + seq!['\n'],
        BulkAction::Update(m, p) => metadata_json_str(m) + seq!['\n'] + p@ + seq!['\n'],
    }
}

impl BulkAction {
    /// Render this action's two newline-terminated lines.
    pub fn to_string(&self) -> (r: String)
        ensures
            r@ == bulk_action_str(*self),
    {
        let (m, p): (&BulkActionMetadata, &String) = match self {
            BulkAction::Index(m, p) => (m, p),
            BulkAction::Delete(m, p) => (m, p),
            BulkAction::Update(m, p) => (m, p),
        };
        let mut out = m.to_json();
        out.append("\n");
        out.append(p.as_str());
        out.append("\n");
        proof {
            reveal_strlit("\n");
            assert(out@ =~= bulk_action_str(*self));
        }
        out
    }
}

/// An ordered sequence of bulk actions; order is preserved end to end
/// because per-item results are positionally correlated with submission
/// order.
#[derive(Debug, Clone, PartialEq)]
pub struct BulkPayload {
    pub actions: Vec<BulkAction>,
}

/// Wire form of a whole payload: the actions' line pairs concatenated in
/// order, with no separators beyond the per-action newlines; zero actions
/// serialize to the empty string.
pub open spec fn bulk_payload_str(actions: Seq<BulkAction>) -> Seq<char>
    decreases actions.len(),
{
    if actions.len() == 0 {
        seq![]
    } else {
        bulk_payload_str(actions.drop_last()) + bulk_action_str(actions.last())
    }
}

impl BulkPayload {
    /// Render the whole payload in submission order.
    pub fn to_string(&self) -> (r: String)
        ensures
            r@ == bulk_payload_str(self.actions@),
    {
        let mut out = String::new();
        proof {
            assert(out@ =~= bulk_payload_str(self.actions@.take(0)));
        }
        let n = self.actions.len();
        let mut i: usize = 0;
        while i < n
            invariant
                i <= n,
                n == self.actions.len(),
                out@ == bulk_payload_str(self.actions@.take(i as int)),
            decreases n - i,
        {
            let line_pair = self.actions[i].to_string();
            out.append(line_pair.as_str());
            proof {
                assert(self.actions@.take(i + 1).drop_last() =~= self.actions@.take(i as int));
                assert(self.actions@.take(i + 1).last() == self.actions@[i as int]);
            }
            i = i + 1;
        }
        proof {
            assert(self.actions@.take(n as int) =~= self.actions@);
        }
        out
    }
}

} // verus!
