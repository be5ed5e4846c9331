//! Per-operation request builders for single-document and bulk
//! operations: each holds its required path fields, its optional query
//! fields in fixed declaration order, and its body if the operation has
//! one, and derives the complete request description.

use vstd::prelude::*;
use vstd::string::*;
use crate::bulk::{bulk_payload_str, BulkPayload};
use crate::encode::{
    bool_str, bool_to_string, comma_join, dec_str, i64_to_dec, int_dec_str, str_seq_view,
    u64_to_dec,
};
use crate::http::{
    emit_pairs, lemma_emit_pairs_take_step, method_body_consistent, pairs_view, push_slot,
    HttpRequest, Method, ReqView,
};
use crate::types::{
    consistency_str, expand_wildcards_str, op_type_str, version_type_str, Consistency,
    ExpandWildcards, OpType, StringList, Timeout, VersionType,
};

verus! {

/// Builder for the Index operation: stores or creates a document. POST,
/// path `index/type[/id]`, body = source document; `op_type` defaults to
/// `create`, every other optional field defaults to absent.
#[derive(Debug, Clone, PartialEq)]
pub struct IndexRequest {
    pub index: String,
    pub typ: String,
    pub id: Option<String>,
    pub source: String,
    pub consistency: Option<Consistency>,
    pub op_type: Option<OpType>,
    pub parent: Option<String>,
    pub refresh: Option<bool>,
    pub routing: Option<String>,
    pub timeout: Option<Timeout>,
    pub timestamp: Option<String>,
    pub ttl: Option<i64>,
    pub version: Option<i64>,
    pub version_type: Option<VersionType>,
}

impl IndexRequest {
    /// A fresh Index request over the given required fields; `op_type`
    /// starts as `create`, all other optional fields start absent.
    pub fn new(index: String, typ: String, id: Option<String>, source: String) -> (r: Self)
        ensures
            r == (IndexRequest {
                index,
                typ,
                id,
                source,
                consistency: Option::None,
                op_type: Some(OpType::Create),
                parent: Option::None,
                refresh: Option::None,
                routing: Option::None,
                timeout: Option::None,
                timestamp: Option::None,
                ttl: Option::None,
                version: Option::None,
                version_type: Option::None,
            }),
    {
        IndexRequest {
            index,
            typ,
            id,
            source,
            consistency: Option::None,
            op_type: Some(OpType::Create),
            parent: Option::None,
            refresh: Option::None,
            routing: Option::None,
            timeout: Option::None,
            timestamp: Option::None,
            ttl: Option::None,
            version: Option::None,
            version_type: Option::None,
        }
    }

    /// The builder itself, for fluent chaining.
    pub fn get(self) -> (r: Self)
        ensures
            r == self,
    {
        self
    }

    /// Set the write-consistency requirement.
    pub fn consistency(self, value: Consistency) -> (r: Self)
        ensures
            r == (IndexRequest { consistency: Some(value), ..self }),
    {
        IndexRequest { consistency: Some(value), ..self }
    }

    /// Set whether the write must create or may overwrite.
    pub fn op_type(self, value: OpType) -> (r: Self)
        ensures
            r == (IndexRequest { op_type: Some(value), ..self }),
    {
        IndexRequest { op_type: Some(value), ..self }
    }

    /// Set the parent document id.
    pub fn parent(self, value: String) -> (r: Self)
        ensures
            r == (IndexRequest { parent: Some(value), ..self }),
    {
        IndexRequest { parent: Some(value), ..self }
    }

    /// Set whether the write refreshes the index at once.
    pub fn refresh(self, value: bool) -> (r: Self)
        ensures
            r == (IndexRequest { refresh: Some(value), ..self }),
    {
        IndexRequest { refresh: Some(value), ..self }
    }

    /// Set the routing value.
    pub fn routing(self, value: String) -> (r: Self)
        ensures
            r == (IndexRequest { routing: Some(value), ..self }),
    {
        IndexRequest { routing: Some(value), ..self }
    }

    /// Set the operation timeout.
    pub fn timeout(self, value: Timeout) -> (r: Self)
        ensures
            r == (IndexRequest { timeout: Some(value), ..self }),
    {
        IndexRequest { timeout: Some(value), ..self }
    }

    /// Set the document timestamp, already rendered in its wire form.
    pub fn timestamp(self, value: String) -> (r: Self)
        ensures
            r == (IndexRequest { timestamp: Some(value), ..self }),
    {
        IndexRequest { timestamp: Some(value), ..self }
    }

    /// Set the document's time-to-live in milliseconds.
    pub fn ttl(self, value: i64) -> (r: Self)
        ensures
            r == (IndexRequest { ttl: Some(value), ..self }),
    {
        IndexRequest { ttl: Some(value), ..self }
    }

    /// Set the document version.
    pub fn version(self, value: i64) -> (r: Self)
        ensures
            r == (IndexRequest { version: Some(value), ..self }),
    {
        IndexRequest { version: Some(value), ..self }
    }

    /// Set the versioning discipline.
    pub fn version_type(self, value: VersionType) -> (r: Self)
        ensures
            r == (IndexRequest { version_type: Some(value), ..self }),
    {
        IndexRequest { version_type: Some(value), ..self }
    }

    /// Path rule: `[index, type]`, with the id appended as a third
    /// segment only when it is present.
    pub open spec fn path_view(self) -> Seq<Seq<char>> {
        match self.id {
            Some(id) => seq![self.index@, self.typ@, id@],
            Option::None => seq![self.index@, self.typ@],
        }
    }

    /// The optional query fields in declaration order, each serialized
    /// when set.
    pub open spec fn query_slots(self) -> Seq<Option<(Seq<char>, Seq<char>)>> {
        seq![
            match self.consistency {
                Some(c) => Some(("consistency"@, consistency_str(c))),
                Option::None => Option::None,
            },
            match self.op_type {
                Some(t) => Some(("op_type"@, op_type_str(t))),
                Option::None => Option::None,
            },
            match self.parent {
                Some(p) => Some(("parent"@, p@)),
                Option::None => Option::None,
            },
            match self.refresh {
                Some(b) => Some(("refresh"@, bool_str(b))),
                Option::None => Option::None,
            },
            match self.routing {
                Some(r) => Some(("routing"@, r@)),
                Option::None => Option::None,
            },
            match self.timeout {
                Some(t) => Some(("timeout"@, dec_str(t.0 as nat))),
                Option::None => Option::None,
            },
            match self.timestamp {
                Some(t) => Some(("timestamp"@, t@)),
                Option::None => Option::None,
            },
            match self.ttl {
                Some(t) => Some(("ttl"@, int_dec_str(t as int))),
                Option::None => Option::None,
            },
            match self.version {
                Some(v) => Some(("version"@, int_dec_str(v as int))),
                Option::None => Option::None,
            },
            match self.version_type {
                Some(v) => Some(("version_type"@, version_type_str(v))),
                Option::None => Option::None,
            },
        ]
    }

    /// The ordered query pairs this builder emits.
    pub open spec fn query_pairs(self) -> Seq<(Seq<char>, Seq<char>)> {
        emit_pairs(self.query_slots())
    }

    /// The complete derived request this builder describes.
    pub open spec fn req_view(self) -> ReqView {
        ReqView {
            method: Method::Post,
            path: self.path_view(),
            query: self.query_pairs(),
            body: Some(self.source@),
        }
    }

    /// The URL path segments of this request.
    pub fn get_path(&self) -> (r: Vec<String>)
        ensures
            str_seq_view(r@) == self.path_view(),
    {
        let mut path: Vec<String> = Vec::new();
        path.push(self.index.clone());
        path.push(self.typ.clone());
        if let Some(id) = &self.id {
            path.push(id.clone());
        }
        proof {
            assert(str_seq_view(path@) =~= self.path_view());
        }
        path
    }

    fn build_query(&self) -> (q: Vec<(String, String)>)
        ensures
            pairs_view(q@) == self.query_pairs(),
    {
        let ghost slots = self.query_slots();
        let mut q: Vec<(String, String)> = Vec::new();
        proof {
            assert(pairs_view(q@) =~= emit_pairs(slots.take(0)));
        }
        let consistency_arg: Option<String> = match &self.consistency {
            Some(c) => Some(c.to_string()),
            Option::None => Option::None,
        };
        push_slot(&mut q, "consistency", consistency_arg);
        proof {
            lemma_emit_pairs_take_step(slots, 0);
        }
        let op_type_arg: Option<String> = match &self.op_type {
            Some(t) => Some(t.to_string()),
            Option::None => Option::None,
        };
        push_slot(&mut q, "op_type", op_type_arg);
        proof {
            lemma_emit_pairs_take_step(slots, 1);
        }
        let parent_arg: Option<String> = match &self.parent {
            Some(p) => Some(p.clone()),
            Option::None => Option::None,
        };
        push_slot(&mut q, "parent", parent_arg);
        proof {
            lemma_emit_pairs_take_step(slots, 2);
        }
        let refresh_arg: Option<String> = match &self.refresh {
            Some(b) => Some(bool_to_string(*b)),
            Option::None => Option::None,
        };
        push_slot(&mut q, "refresh", refresh_arg);
        proof {
            lemma_emit_pairs_take_step(slots, 3);
        }
        let routing_arg: Option<String> = match &self.routing {
            Some(r) => Some(r.clone()),
            Option::None => Option::None,
        };
        push_slot(&mut q, "routing", routing_arg);
        proof {
            lemma_emit_pairs_take_step(slots, 4);
        }
        let timeout_arg: Option<String> = match &self.timeout {
            Some(t) => Some(t.to_string()),
            Option::None => Option::None,
        };
        push_slot(&mut q, "timeout", timeout_arg);
        proof {
            lemma_emit_pairs_take_step(slots, 5);
        }
        let timestamp_arg: Option<String> = match &self.timestamp {
            Some(t) => Some(t.clone()),
            Option::None => Option::None,
        };
        push_slot(&mut q, "timestamp", timestamp_arg);
        proof {
            lemma_emit_pairs_take_step(slots, 6);
        }
        let ttl_arg: Option<String> = match &self.ttl {
            Some(t) => Some(i64_to_dec(*t)),
            Option::None => Option::None,
        };
        push_slot(&mut q, "ttl", ttl_arg);
        proof {
            lemma_emit_pairs_take_step(slots, 7);
        }
        let version_arg: Option<String> = match &self.version {
            Some(v) => Some(i64_to_dec(*v)),
            Option::None => Option::None,
        };
        push_slot(&mut q, "version", version_arg);
        proof {
            lemma_emit_pairs_take_step(slots, 8);
        }
        let version_type_arg: Option<String> = match &self.version_type {
            Some(v) => Some(v.to_string()),
            Option::None => Option::None,
        };
        push_slot(&mut q, "version_type", version_type_arg);
        proof {
            lemma_emit_pairs_take_step(slots, 9);
            assert(slots.take(10) =~= slots);
        }
        q
    }

    /// Derive the complete request: POST, the path rule's segments, the
    /// set query fields in declaration order, and the source document as
    /// body. The same builder always derives the same request.
    pub fn to_http_request(&self) -> (r: HttpRequest)
        ensures
            r@ == self.req_view(),
            method_body_consistent(r@),
    {
        let path = self.get_path();
        let query = self.build_query();
        let body = Some(self.source.clone());
        let r = HttpRequest { method: Method::Post, path, query, body };
        proof {
            assert(r@.path == self.path_view());
            assert(r@.query == self.query_pairs());
        }
        r
    }
}


/// Builder for the Update operation: applies a partial update or script
/// to one document. POST, path `index/type/id`, body = update request.
#[derive(Debug, Clone, PartialEq)]
pub struct UpdateRequest {
    pub index: String,
    pub typ: String,
    pub id: String,
    pub update_body: String,
    pub consistency: Option<Consistency>,
    pub fields: Option<StringList>,
    pub lang: Option<String>,
    pub parent: Option<String>,
    pub refresh: Option<bool>,
    pub retry_on_conflict: Option<usize>,
    pub routing: Option<String>,
    pub script: Option<String>,
    pub script_id: Option<String>,
    pub scripted_upsert: Option<bool>,
    pub timeout: Option<Timeout>,
    pub timestamp: Option<String>,
    pub ttl: Option<i64>,
    pub version: Option<i64>,
    pub version_type: Option<VersionType>,
}

impl UpdateRequest {
    /// A fresh request over the given required fields; every optional
    /// field starts absent.
    pub fn new(index: String, typ: String, id: String, update_body: String) -> (r: Self)
        ensures
            r == (UpdateRequest {
                index,
                typ,
                id,
                update_body,
                consistency: Option::None,
                fields: Option::None,
                lang: Option::None,
                parent: Option::None,
                refresh: Option::None,
                retry_on_conflict: Option::None,
                routing: Option::None,
                script: Option::None,
                script_id: Option::None,
                scripted_upsert: Option::None,
                timeout: Option::None,
                timestamp: Option::None,
                ttl: Option::None,
                version: Option::None,
                version_type: Option::None,
            }),
    {
        UpdateRequest {
            index,
            typ,
            id,
            update_body,
            consistency: Option::None,
            fields: Option::None,
            lang: Option::None,
            parent: Option::None,
            refresh: Option::None,
            retry_on_conflict: Option::None,
            routing: Option::None,
            script: Option::None,
            script_id: Option::None,
            scripted_upsert: Option::None,
            timeout: Option::None,
            timestamp: Option::None,
            ttl: Option::None,
            version: Option::None,
            version_type: Option::None,
        }
    }

    /// The builder itself, for fluent chaining.
    pub fn get(self) -> (r: Self)
        ensures
            r == self,
    {
        self
    }

    /// Set the write-consistency requirement.
    pub fn consistency(self, value: Consistency) -> (r: Self)
        ensures
            r == (UpdateRequest { consistency: Some(value), ..self }),
    {
        UpdateRequest { consistency: Some(value), ..self }
    }

    /// Set the list of fields to return.
    pub fn fields(self, value: StringList) -> (r: Self)
        ensures
            r == (UpdateRequest { fields: Some(value), ..self }),
    {
        UpdateRequest { fields: Some(value), ..self }
    }

    /// Set the script language.
    pub fn lang(self, value: String) -> (r: Self)
        ensures
            r == (UpdateRequest { lang: Some(value), ..self }),
    {
        UpdateRequest { lang: Some(value), ..self }
    }

    /// Set the parent document id.
    pub fn parent(self, value: String) -> (r: Self)
        ensures
            r == (UpdateRequest { parent: Some(value), ..self }),
    {
        UpdateRequest { parent: Some(value), ..self }
    }

    /// Set whether the operation refreshes the index at once.
    pub fn refresh(self, value: bool) -> (r: Self)
        ensures
            r == (UpdateRequest { refresh: Some(value), ..self }),
    {
        UpdateRequest { refresh: Some(value), ..self }
    }

    /// Set how many times a version conflict is retried.
    pub fn retry_on_conflict(self, value: usize) -> (r: Self)
        ensures
            r == (UpdateRequest { retry_on_conflict: Some(value), ..self }),
    {
        UpdateRequest { retry_on_conflict: Some(value), ..self }
    }

    /// Set the routing value.
    pub fn routing(self, value: String) -> (r: Self)
        ensures
            r == (UpdateRequest { routing: Some(value), ..self }),
    {
        UpdateRequest { routing: Some(value), ..self }
    }

    /// Set the inline update script.
    pub fn script(self, value: String) -> (r: Self)
        ensures
            r == (UpdateRequest { script: Some(value), ..self }),
    {
        UpdateRequest { script: Some(value), ..self }
    }

    /// Set the id of a stored update script.
    pub fn script_id(self, value: String) -> (r: Self)
        ensures
            r == (UpdateRequest { script_id: Some(value), ..self }),
    {
        UpdateRequest { script_id: Some(value), ..self }
    }

    /// Set whether the script also runs for an upsert.
    pub fn scripted_upsert(self, value: bool) -> (r: Self)
        ensures
            r == (UpdateRequest { scripted_upsert: Some(value), ..self }),
    {
        UpdateRequest { scripted_upsert: Some(value), ..self }
    }

    /// Set the operation timeout.
    pub fn timeout(self, value: Timeout) -> (r: Self)
        ensures
            r == (UpdateRequest { timeout: Some(value), ..self }),
    {
        UpdateRequest { timeout: Some(value), ..self }
    }

    /// Set the document timestamp, already rendered in its wire form.
    pub fn timestamp(self, value: String) -> (r: Self)
        ensures
            r == (UpdateRequest { timestamp: Some(value), ..self }),
    {
        UpdateRequest { timestamp: Some(value), ..self }
    }

    /// Set the document's time-to-live in milliseconds.
    pub fn ttl(self, value: i64) -> (r: Self)
        ensures
            r == (UpdateRequest { ttl: Some(value), ..self }),
    {
        UpdateRequest { ttl: Some(value), ..self }
    }

    /// Set the document version.
    pub fn version(self, value: i64) -> (r: Self)
        ensures
            r == (UpdateRequest { version: Some(value), ..self }),
    {
        UpdateRequest { version: Some(value), ..self }
    }

    /// Set the versioning discipline.
    pub fn version_type(self, value: VersionType) -> (r: Self)
        ensures
            r == (UpdateRequest { version_type: Some(value), ..self }),
    {
        UpdateRequest { version_type: Some(value), ..self }
    }

    /// Path rule: the three segments `[index, type, id]`.
    pub open spec fn path_view(self) -> Seq<Seq<char>> {
        seq![self.index@, self.typ@, self.id@]
    }

    /// The optional query fields in declaration order, each serialized
    /// when set.
    pub open spec fn query_slots(self) -> Seq<Option<(Seq<char>, Seq<char>)>> {
        seq![
            match self.consistency {
                Some(v) => Some(("consistency"@, consistency_str(v))),
                Option::None => Option::None,
            },
            match self.fields {
                Some(v) => Some(("fields"@, comma_join(str_seq_view(v.0@)))),
                Option::None => Option::None,
            },
            match self.lang {
                Some(v) => Some(("lang"@, v@)),
                Option::None => Option::None,
            },
            match self.parent {
                Some(v) => Some(("parent"@, v@)),
                Option::None => Option::None,
            },
            match self.refresh {
                Some(v) => Some(("refresh"@, bool_str(v))),
                Option::None => Option::None,
            },
            match self.retry_on_conflict {
                Some(v) => Some(("retry_on_conflict"@, dec_str(v as nat))),
                Option::None => Option::None,
            },
            match self.routing {
                Some(v) => Some(("routing"@, v@)),
                Option::None => Option::None,
            },
            match self.script {
                Some(v) => Some(("script"@, v@)),
                Option::None => Option::None,
            },
            match self.script_id {
                Some(v) => Some(("script_id"@, v@)),
                Option::None => Option::None,
            },
            match self.scripted_upsert {
                Some(v) => Some(("scripted_upsert"@, bool_str(v))),
                Option::None => Option::None,
            },
            match self.timeout {
                Some(v) => Some(("timeout"@, dec_str(v.0 as nat))),
                Option::None => Option::None,
            },
            match self.timestamp {
                Some(v) => Some(("timestamp"@, v@)),
                Option::None => Option::None,
            },
            match self.ttl {
                Some(v) => Some(("ttl"@, int_dec_str(v as int))),
                Option::None => Option::None,
            },
            match self.version {
                Some(v) => Some(("version"@, int_dec_str(v as int))),
                Option::None => Option::None,
            },
            match self.version_type {
                Some(v) => Some(("version_type"@, version_type_str(v))),
                Option::None => Option::None,
            },
        ]
    }

    /// The ordered query pairs this builder emits.
    pub open spec fn query_pairs(self) -> Seq<(Seq<char>, Seq<char>)> {
        emit_pairs(self.query_slots())
    }

    /// The complete derived request this builder describes.
    pub open spec fn req_view(self) -> ReqView {
        ReqView {
            method: Method::Post,
            path: self.path_view(),
            query: self.query_pairs(),
            body: Some(self.update_body@),
        }
    }

    /// The URL path segments of this request.
    pub fn get_path(&self) -> (r: Vec<String>)
        ensures
            str_seq_view(r@) == self.path_view(),
    {
        let mut path: Vec<String> = Vec::new();
        path.push(self.index.clone());
        path.push(self.typ.clone());
        path.push(self.id.clone());
        proof {
            assert(str_seq_view(path@) =~= self.path_view());
        }
        path
    }

    fn build_query(&self) -> (q: Vec<(String, String)>)
        ensures
            pairs_view(q@) == self.query_pairs(),
    {
        let ghost slots = self.query_slots();
        let mut q: Vec<(String, String)> = Vec::new();
        proof {
            assert(pairs_view(q@) =~= emit_pairs(slots.take(0)));
        }
        let consistency_arg: Option<String> = match &self.consistency {
            Some(x) => Some(x.to_string()),
            Option::None => Option::None,
        };
        push_slot(&mut q, "consistency", consistency_arg);
        proof {
            lemma_emit_pairs_take_step(slots, 0);
        }
        let fields_arg: Option<String> = match &self.fields {
            Some(x) => Some(x.to_string()),
            Option::None => Option::None,
        };
        push_slot(&mut q, "fields", fields_arg);
        proof {
            lemma_emit_pairs_take_step(slots, 1);
        }
        let lang_arg: Option<String> = match &self.lang {
            Some(x) => Some(x.clone()),
            Option::None => Option::None,
        };
        push_slot(&mut q, "lang", lang_arg);
        proof {
            lemma_emit_pairs_take_step(slots, 2);
        }
        let parent_arg: Option<String> = match &self.parent {
            Some(x) => Some(x.clone()),
            Option::None => Option::None,
        };
        push_slot(&mut q, "parent", parent_arg);
        proof {
            lemma_emit_pairs_take_step(slots, 3);
        }
        let refresh_arg: Option<String> = match &self.refresh {
            Some(x) => Some(bool_to_string(*x)),
            Option::None => Option::None,
        };
        push_slot(&mut q, "refresh", refresh_arg);
        proof {
            lemma_emit_pairs_take_step(slots, 4);
        }
        let retry_on_conflict_arg: Option<String> = match &self.retry_on_conflict {
            Some(x) => Some(u64_to_dec(*x as u64)),
            Option::None => Option::None,
        };
        push_slot(&mut q, "retry_on_conflict", retry_on_conflict_arg);
        proof {
            lemma_emit_pairs_take_step(slots, 5);
        }
        let routing_arg: Option<String> = match &self.routing {
            Some(x) => Some(x.clone()),
            Option::None => Option::None,
        };
        push_slot(&mut q, "routing", routing_arg);
        proof {
            lemma_emit_pairs_take_step(slots, 6);
        }
        let script_arg: Option<String> = match &self.script {
            Some(x) => Some(x.clone()),
            Option::None => Option::None,
        };
        push_slot(&mut q, "script", script_arg);
        proof {
            lemma_emit_pairs_take_step(slots, 7);
        }
        let script_id_arg: Option<String> = match &self.script_id {
            Some(x) => Some(x.clone()),
            Option::None => Option::None,
        };
        push_slot(&mut q, "script_id", script_id_arg);
        proof {
            lemma_emit_pairs_take_step(slots, 8);
        }
        let scripted_upsert_arg: Option<String> = match &self.scripted_upsert {
            Some(x) => Some(bool_to_string(*x)),
            Option::None => Option::None,
        };
        push_slot(&mut q, "scripted_upsert", scripted_upsert_arg);
        proof {
            lemma_emit_pairs_take_step(slots, 9);
        }
        let timeout_arg: Option<String> = match &self.timeout {
            Some(x) => Some(x.to_string()),
            Option::None => Option::None,
        };
        push_slot(&mut q, "timeout", timeout_arg);
        proof {
            lemma_emit_pairs_take_step(slots, 10);
        }
        let timestamp_arg: Option<String> = match &self.timestamp {
            Some(x) => Some(x.clone()),
            Option::None => Option::None,
        };
        push_slot(&mut q, "timestamp", timestamp_arg);
        proof {
            lemma_emit_pairs_take_step(slots, 11);
        }
        let ttl_arg: Option<String> = match &self.ttl {
            Some(x) => Some(i64_to_dec(*x)),
            Option::None => Option::None,
        };
        push_slot(&mut q, "ttl", ttl_arg);
        proof {
            lemma_emit_pairs_take_step(slots, 12);
        }
        let version_arg: Option<String> = match &self.version {
            Some(x) => Some(i64_to_dec(*x)),
            Option::None => Option::None,
        };
        push_slot(&mut q, "version", version_arg);
        proof {
            lemma_emit_pairs_take_step(slots, 13);
        }
        let version_type_arg: Option<String> = match &self.version_type {
            Some(x) => Some(x.to_string()),
            Option::None => Option::None,
        };
        push_slot(&mut q, "version_type", version_type_arg);
        proof {
            lemma_emit_pairs_take_step(slots, 14);
            assert(slots.take(15) =~= slots);
        }
        q
    }

    /// Derive the complete request: POST, the path
    /// rule's segments, the set query fields in declaration order, and
    /// the update document as body.
    /// The same builder always derives the same request.
    pub fn to_http_request(&self) -> (r: HttpRequest)
        ensures
            r@ == self.req_view(),
            method_body_consistent(r@),
    {
        let path = self.get_path();
        let query = self.build_query();
        let body: Option<String> = Some(self.update_body.clone());
        let r = HttpRequest { method: Method::Post, path, query, body };
        proof {
            assert(r@.path == self.path_view());
            assert(r@.query == self.query_pairs());
        }
        r
    }
}

/// Builder for the Get operation: fetches one document. GET, path
/// `index/type/id`, no body.
#[derive(Debug, Clone, PartialEq)]
pub struct GetRequest {
    pub index: String,
    pub typ: String,
    pub id: String,
    pub fields: Option<StringList>,
    pub parent: Option<String>,
    pub preference: Option<String>,
    pub realtime: Option<bool>,
    pub refresh: Option<bool>,
    pub routing: Option<String>,
    pub source: Option<bool>,
    pub source_exclude: Option<StringList>,
    pub source_include: Option<StringList>,
    pub version: Option<i64>,
    pub version_type: Option<VersionType>,
}

impl GetRequest {
    /// A fresh request over the given required fields; every optional
    /// field starts absent.
    pub fn new(index: String, typ: String, id: String) -> (r: Self)
        ensures
            r == (GetRequest {
                index,
                typ,
                id,
                fields: Option::None,
                parent: Option::None,
                preference: Option::None,
                realtime: Option::None,
                refresh: Option::None,
                routing: Option::None,
                source: Option::None,
                source_exclude: Option::None,
                source_include: Option::None,
                version: Option::None,
                version_type: Option::None,
            }),
    {
        GetRequest {
            index,
            typ,
            id,
            fields: Option::None,
            parent: Option::None,
            preference: Option::None,
            realtime: Option::None,
            refresh: Option::None,
            routing: Option::None,
            source: Option::None,
            source_exclude: Option::None,
            source_include: Option::None,
            version: Option::None,
            version_type: Option::None,
        }
    }

    /// The builder itself, for fluent chaining.
    pub fn get(self) -> (r: Self)
        ensures
            r == self,
    {
        self
    }

    /// Set the list of fields to return.
    pub fn fields(self, value: StringList) -> (r: Self)
        ensures
            r == (GetRequest { fields: Some(value), ..self }),
    {
        GetRequest { fields: Some(value), ..self }
    }

    /// Set the parent document id.
    pub fn parent(self, value: String) -> (r: Self)
        ensures
            r == (GetRequest { parent: Some(value), ..self }),
    {
        GetRequest { parent: Some(value), ..self }
    }

    /// Set which shard copies to prefer.
    pub fn preference(self, value: String) -> (r: Self)
        ensures
            r == (GetRequest { preference: Some(value), ..self }),
    {
        GetRequest { preference: Some(value), ..self }
    }

    /// Set whether the read is realtime rather than search-time.
    pub fn realtime(self, value: bool) -> (r: Self)
        ensures
            r == (GetRequest { realtime: Some(value), ..self }),
    {
        GetRequest { realtime: Some(value), ..self }
    }

    /// Set whether the operation refreshes the index at once.
    pub fn refresh(self, value: bool) -> (r: Self)
        ensures
            r == (GetRequest { refresh: Some(value), ..self }),
    {
        GetRequest { refresh: Some(value), ..self }
    }

    /// Set the routing value.
    pub fn routing(self, value: String) -> (r: Self)
        ensures
            r == (GetRequest { routing: Some(value), ..self }),
    {
        GetRequest { routing: Some(value), ..self }
    }

    /// Set whether the document source is returned.
    pub fn source(self, value: bool) -> (r: Self)
        ensures
            r == (GetRequest { source: Some(value), ..self }),
    {
        GetRequest { source: Some(value), ..self }
    }

    /// Set the source fields to exclude.
    pub fn source_exclude(self, value: StringList) -> (r: Self)
        ensures
            r == (GetRequest { source_exclude: Some(value), ..self }),
    {
        GetRequest { source_exclude: Some(value), ..self }
    }

    /// Set the source fields to include.
    pub fn source_include(self, value: StringList) -> (r: Self)
        ensures
            r == (GetRequest { source_include: Some(value), ..self }),
    {
        GetRequest { source_include: Some(value), ..self }
    }

    /// Set the document version.
    pub fn version(self, value: i64) -> (r: Self)
        ensures
            r == (GetRequest { version: Some(value), ..self }),
    {
        GetRequest { version: Some(value), ..self }
    }

    /// Set the versioning discipline.
    pub fn version_type(self, value: VersionType) -> (r: Self)
        ensures
            r == (GetRequest { version_type: Some(value), ..self }),
    {
        GetRequest { version_type: Some(value), ..self }
    }

    /// Path rule: the three segments `[index, type, id]`.
    pub open spec fn path_view(self) -> Seq<Seq<char>> {
        seq![self.index@, self.typ@, self.id@]
    }

    /// The optional query fields in declaration order, each serialized
    /// when set.
    pub open spec fn query_slots(self) -> Seq<Option<(Seq<char>, Seq<char>)>> {
        seq![
            match self.fields {
                Some(v) => Some(("fields"@, comma_join(str_seq_view(v.0@)))),
                Option::None => Option::None,
            },
            match self.parent {
                Some(v) => Some(("parent"@, v@)),
                Option::None => Option::None,
            },
            match self.preference {
                Some(v) => Some(("preference"@, v@)),
                Option::None => Option::None,
            },
            match self.realtime {
                Some(v) => Some(("realtime"@, bool_str(v))),
                Option::None => Option::None,
            },
            match self.refresh {
                Some(v) => Some(("refresh"@, bool_str(v))),
                Option::None => Option::None,
            },
            match self.routing {
                Some(v) => Some(("routing"@, v@)),
                Option::None => Option::None,
            },
            match self.source {
                Some(v) => Some(("_source"@, bool_str(v))),
                Option::None => Option::None,
            },
            match self.source_exclude {
                Some(v) => Some(("_source_exclude"@, comma_join(str_seq_view(v.0@)))),
                Option::None => Option::None,
            },
            match self.source_include {
                Some(v) => Some(("_source_include"@, comma_join(str_seq_view(v.0@)))),
                Option::None => Option::None,
            },
            match self.version {
                Some(v) => Some(("version"@, int_dec_str(v as int))),
                Option::None => Option::None,
            },
            match self.version_type {
                Some(v) => Some(("version_type"@, version_type_str(v))),
                Option::None => Option::None,
            },
        ]
    }

    /// The ordered query pairs this builder emits.
    pub open spec fn query_pairs(self) -> Seq<(Seq<char>, Seq<char>)> {
        emit_pairs(self.query_slots())
    }

    /// The complete derived request this builder describes.
    pub open spec fn req_view(self) -> ReqView {
        ReqView {
            method: Method::Get,
            path: self.path_view(),
            query: self.query_pairs(),
            body: Option::None,
        }
    }

    /// The URL path segments of this request.
    pub fn get_path(&self) -> (r: Vec<String>)
        ensures
            str_seq_view(r@) == self.path_view(),
    {
        let mut path: Vec<String> = Vec::new();
        path.push(self.index.clone());
        path.push(self.typ.clone());
        path.push(self.id.clone());
        proof {
            assert(str_seq_view(path@) =~= self.path_view());
        }
        path
    }

    fn build_query(&self) -> (q: Vec<(String, String)>)
        ensures
            pairs_view(q@) == self.query_pairs(),
    {
        let ghost slots = self.query_slots();
        let mut q: Vec<(String, String)> = Vec::new();
        proof {
            assert(pairs_view(q@) =~= emit_pairs(slots.take(0)));
        }
        let fields_arg: Option<String> = match &self.fields {
            Some(x) => Some(x.to_string()),
            Option::None => Option::None,
        };
        push_slot(&mut q, "fields", fields_arg);
        proof {
            lemma_emit_pairs_take_step(slots, 0);
        }
        let parent_arg: Option<String> = match &self.parent {
            Some(x) => Some(x.clone()),
            Option::None => Option::None,
        };
        push_slot(&mut q, "parent", parent_arg);
        proof {
            lemma_emit_pairs_take_step(slots, 1);
        }
        let preference_arg: Option<String> = match &self.preference {
            Some(x) => Some(x.clone()),
            Option::None => Option::None,
        };
        push_slot(&mut q, "preference", preference_arg);
        proof {
            lemma_emit_pairs_take_step(slots, 2);
        }
        let realtime_arg: Option<String> = match &self.realtime {
            Some(x) => Some(bool_to_string(*x)),
            Option::None => Option::None,
        };
        push_slot(&mut q, "realtime", realtime_arg);
        proof {
            lemma_emit_pairs_take_step(slots, 3);
        }
        let refresh_arg: Option<String> = match &self.refresh {
            Some(x) => Some(bool_to_string(*x)),
            Option::None => Option::None,
        };
        push_slot(&mut q, "refresh", refresh_arg);
        proof {
            lemma_emit_pairs_take_step(slots, 4);
        }
        let routing_arg: Option<String> = match &self.routing {
            Some(x) => Some(x.clone()),
            Option::None => Option::None,
        };
        push_slot(&mut q, "routing", routing_arg);
        proof {
            lemma_emit_pairs_take_step(slots, 5);
        }
        let source_arg: Option<String> = match &self.source {
            Some(x) => Some(bool_to_string(*x)),
            Option::None => Option::None,
        };
        push_slot(&mut q, "_source", source_arg);
        proof {
            lemma_emit_pairs_take_step(slots, 6);
        }
        let source_exclude_arg: Option<String> = match &self.source_exclude {
            Some(x) => Some(x.to_string()),
            Option::None => Option::None,
        };
        push_slot(&mut q, "_source_exclude", source_exclude_arg);
        proof {
            lemma_emit_pairs_take_step(slots, 7);
        }
        let source_include_arg: Option<String> = match &self.source_include {
            Some(x) => Some(x.to_string()),
            Option::None => Option::None,
        };
        push_slot(&mut q, "_source_include", source_include_arg);
        proof {
            lemma_emit_pairs_take_step(slots, 8);
        }
        let version_arg: Option<String> = match &self.version {
            Some(x) => Some(i64_to_dec(*x)),
            Option::None => Option::None,
        };
        push_slot(&mut q, "version", version_arg);
        proof {
            lemma_emit_pairs_take_step(slots, 9);
        }
        let version_type_arg: Option<String> = match &self.version_type {
            Some(x) => Some(x.to_string()),
            Option::None => Option::None,
        };
        push_slot(&mut q, "version_type", version_type_arg);
        proof {
            lemma_emit_pairs_take_step(slots, 10);
            assert(slots.take(11) =~= slots);
        }
        q
    }

    /// Derive the complete request: GET, the path
    /// rule's segments, the set query fields in declaration order and no body.
    /// The same builder always derives the same request.
    pub fn to_http_request(&self) -> (r: HttpRequest)
        ensures
            r@ == self.req_view(),
            method_body_consistent(r@),
    {
        let path = self.get_path();
        let query = self.build_query();
        let body: Option<String> = Option::None;
        let r = HttpRequest { method: Method::Get, path, query, body };
        proof {
            assert(r@.path == self.path_view());
            assert(r@.query == self.query_pairs());
        }
        r
    }
}

/// Builder for the Count operation: counts matching documents. GET,
/// path `[index][/type]/_count` with both leading segments optional,
/// no body.
#[derive(Debug, Clone, PartialEq)]
pub struct CountRequest {
    pub index: Option<String>,
    pub typ: Option<String>,
    pub ignore_unavailable: Option<bool>,
    pub allow_no_indices: Option<bool>,
    pub expand_wildcards: Option<ExpandWildcards>,
    pub min_score: Option<String>,
    pub preference: Option<String>,
    pub routing: Option<String>,
    pub source: Option<bool>,
}

impl CountRequest {
    /// A fresh request over the given required fields; every optional
    /// field starts absent.
    pub fn new(index: Option<String>, typ: Option<String>) -> (r: Self)
        ensures
            r == (CountRequest {
                index,
                typ,
                ignore_unavailable: Option::None,
                allow_no_indices: Option::None,
                expand_wildcards: Option::None,
                min_score: Option::None,
                preference: Option::None,
                routing: Option::None,
                source: Option::None,
            }),
    {
        CountRequest {
            index,
            typ,
            ignore_unavailable: Option::None,
            allow_no_indices: Option::None,
            expand_wildcards: Option::None,
            min_score: Option::None,
            preference: Option::None,
            routing: Option::None,
            source: Option::None,
        }
    }

    /// The builder itself, for fluent chaining.
    pub fn get(self) -> (r: Self)
        ensures
            r == self,
    {
        self
    }

    /// Set whether missing indices are ignored.
    pub fn ignore_unavailable(self, value: bool) -> (r: Self)
        ensures
            r == (CountRequest { ignore_unavailable: Some(value), ..self }),
    {
        CountRequest { ignore_unavailable: Some(value), ..self }
    }

    /// Set whether a wildcard matching nothing is allowed.
    pub fn allow_no_indices(self, value: bool) -> (r: Self)
        ensures
            r == (CountRequest { allow_no_indices: Some(value), ..self }),
    {
        CountRequest { allow_no_indices: Some(value), ..self }
    }

    /// Set the wildcard-expansion policy.
    pub fn expand_wildcards(self, value: ExpandWildcards) -> (r: Self)
        ensures
            r == (CountRequest { expand_wildcards: Some(value), ..self }),
    {
        CountRequest { expand_wildcards: Some(value), ..self }
    }

    /// Set the minimum score, already rendered in its decimal wire form.
    pub fn min_score(self, value: String) -> (r: Self)
        ensures
            r == (CountRequest { min_score: Some(value), ..self }),
    {
        CountRequest { min_score: Some(value), ..self }
    }

    /// Set which shard copies to prefer.
    pub fn preference(self, value: String) -> (r: Self)
        ensures
            r == (CountRequest { preference: Some(value), ..self }),
    {
        CountRequest { preference: Some(value), ..self }
    }

    /// Set the routing value.
    pub fn routing(self, value: String) -> (r: Self)
        ensures
            r == (CountRequest { routing: Some(value), ..self }),
    {
        CountRequest { routing: Some(value), ..self }
    }

    /// Set whether the document source is returned.
    pub fn source(self, value: bool) -> (r: Self)
        ensures
            r == (CountRequest { source: Some(value), ..self }),
    {
        CountRequest { source: Some(value), ..self }
    }

    /// Path rule: the index and type segments when present, then the fixed `_count` segment.
    pub open spec fn path_view(self) -> Seq<Seq<char>> {
        (match self.index {
            Some(i) => seq![i@],
            Option::None => seq![],
        }) + (match self.typ {
            Some(t) => seq![t@],
            Option::None => seq![],
        }) + seq!["_count"@]
    }

    /// The optional query fields in declaration order, each serialized
    /// when set.
    pub open spec fn query_slots(self) -> Seq<Option<(Seq<char>, Seq<char>)>> {
        seq![
            match self.ignore_unavailable {
                Some(v) => Some(("ignore_unavailable"@, bool_str(v))),
                Option::None => Option::None,
            },
            match self.allow_no_indices {
                Some(v) => Some(("allow_no_indices"@, bool_str(v))),
                Option::None => Option::None,
            },
            match self.expand_wildcards {
                Some(v) => Some(("expand_wildcards"@, expand_wildcards_str(v))),
                Option::None => Option::None,
            },
            match self.min_score {
                Some(v) => Some(("min_score"@, v@)),
                Option::None => Option::None,
            },
            match self.preference {
                Some(v) => Some(("preference"@, v@)),
                Option::None => Option::None,
            },
            match self.routing {
                Some(v) => Some(("routing"@, v@)),
                Option::None => Option::None,
            },
            match self.source {
                Some(v) => Some(("_source"@, bool_str(v))),
                Option::None => Option::None,
            },
        ]
    }

    /// The ordered query pairs this builder emits.
    pub open spec fn query_pairs(self) -> Seq<(Seq<char>, Seq<char>)> {
        emit_pairs(self.query_slots())
    }

    /// The complete derived request this builder describes.
    pub open spec fn req_view(self) -> ReqView {
        ReqView {
            method: Method::Get,
            path: self.path_view(),
            query: self.query_pairs(),
            body: Option::None,
        }
    }

    /// The URL path segments of this request.
    pub fn get_path(&self) -> (r: Vec<String>)
        ensures
            str_seq_view(r@) == self.path_view(),
    {
        let mut path: Vec<String> = Vec::new();
        if let Some(i) = &self.index {
            path.push(i.clone());
        }
        if let Some(t) = &self.typ {
            path.push(t.clone());
        }
        path.push(String::from_str("_count"));
        proof {
            assert(str_seq_view(path@) =~= self.path_view());
        }
        path
    }

    fn build_query(&self) -> (q: Vec<(String, String)>)
        ensures
            pairs_view(q@) == self.query_pairs(),
    {
        let ghost slots = self.query_slots();
        let mut q: Vec<(String, String)> = Vec::new();
        proof {
            assert(pairs_view(q@) =~= emit_pairs(slots.take(0)));
        }
        let ignore_unavailable_arg: Option<String> = match &self.ignore_unavailable {
            Some(x) => Some(bool_to_string(*x)),
            Option::None => Option::None,
        };
        push_slot(&mut q, "ignore_unavailable", ignore_unavailable_arg);
        proof {
            lemma_emit_pairs_take_step(slots, 0);
        }
        let allow_no_indices_arg: Option<String> = match &self.allow_no_indices {
            Some(x) => Some(bool_to_string(*x)),
            Option::None => Option::None,
        };
        push_slot(&mut q, "allow_no_indices", allow_no_indices_arg);
        proof {
            lemma_emit_pairs_take_step(slots, 1);
        }
        let expand_wildcards_arg: Option<String> = match &self.expand_wildcards {
            Some(x) => Some(x.to_string()),
            Option::None => Option::None,
        };
        push_slot(&mut q, "expand_wildcards", expand_wildcards_arg);
        proof {
            lemma_emit_pairs_take_step(slots, 2);
        }
        let min_score_arg: Option<String> = match &self.min_score {
            Some(x) => Some(x.clone()),
            Option::None => Option::None,
        };
        push_slot(&mut q, "min_score", min_score_arg);
        proof {
            lemma_emit_pairs_take_step(slots, 3);
        }
        let preference_arg: Option<String> = match &self.preference {
            Some(x) => Some(x.clone()),
            Option::None => Option::None,
        };
        push_slot(&mut q, "preference", preference_arg);
        proof {
            lemma_emit_pairs_take_step(slots, 4);
        }
        let routing_arg: Option<String> = match &self.routing {
            Some(x) => Some(x.clone()),
            Option::None => Option::None,
        };
        push_slot(&mut q, "routing", routing_arg);
        proof {
            lemma_emit_pairs_take_step(slots, 5);
        }
        let source_arg: Option<String> = match &self.source {
            Some(x) => Some(bool_to_string(*x)),
            Option::None => Option::None,
        };
        push_slot(&mut q, "_source", source_arg);
        proof {
            lemma_emit_pairs_take_step(slots, 6);
            assert(slots.take(7) =~= slots);
        }
        q
    }

    /// Derive the complete request: GET, the path
    /// rule's segments, the set query fields in declaration order and no body.
    /// The same builder always derives the same request.
    pub fn to_http_request(&self) -> (r: HttpRequest)
        ensures
            r@ == self.req_view(),
            method_body_consistent(r@),
    {
        let path = self.get_path();
        let query = self.build_query();
        let body: Option<String> = Option::None;
        let r = HttpRequest { method: Method::Get, path, query, body };
        proof {
            assert(r@.path == self.path_view());
            assert(r@.query == self.query_pairs());
        }
        r
    }
}

/// Builder for the document Exists check. HEAD, path `index/type/id`,
/// no body; existence is read off the response status by the caller.
#[derive(Debug, Clone, PartialEq)]
pub struct ExistsRequest {
    pub index: String,
    pub typ: String,
    pub id: String,
    pub parent: Option<String>,
    pub preference: Option<String>,
    pub realtime: Option<bool>,
    pub refresh: Option<bool>,
    pub routing: Option<String>,
}

impl ExistsRequest {
    /// A fresh request over the given required fields; every optional
    /// field starts absent.
    pub fn new(index: String, typ: String, id: String) -> (r: Self)
        ensures
            r == (ExistsRequest {
                index,
                typ,
                id,
                parent: Option::None,
                preference: Option::None,
                realtime: Option::None,
                refresh: Option::None,
                routing: Option::None,
            }),
    {
        ExistsRequest {
            index,
            typ,
            id,
            parent: Option::None,
            preference: Option::None,
            realtime: Option::None,
            refresh: Option::None,
            routing: Option::None,
        }
    }

    /// The builder itself, for fluent chaining.
    pub fn get(self) -> (r: Self)
        ensures
            r == self,
    {
        self
    }

    /// Set the parent document id.
    pub fn parent(self, value: String) -> (r: Self)
        ensures
            r == (ExistsRequest { parent: Some(value), ..self }),
    {
        ExistsRequest { parent: Some(value), ..self }
    }

    /// Set which shard copies to prefer.
    pub fn preference(self, value: String) -> (r: Self)
        ensures
            r == (ExistsRequest { preference: Some(value), ..self }),
    {
        ExistsRequest { preference: Some(value), ..self }
    }

    /// Set whether the read is realtime rather than search-time.
    pub fn realtime(self, value: bool) -> (r: Self)
        ensures
            r == (ExistsRequest { realtime: Some(value), ..self }),
    {
        ExistsRequest { realtime: Some(value), ..self }
    }

    /// Set whether the operation refreshes the index at once.
    pub fn refresh(self, value: bool) -> (r: Self)
        ensures
            r == (ExistsRequest { refresh: Some(value), ..self }),
    {
        ExistsRequest { refresh: Some(value), ..self }
    }

    /// Set the routing value.
    pub fn routing(self, value: String) -> (r: Self)
        ensures
            r == (ExistsRequest { routing: Some(value), ..self }),
    {
        ExistsRequest { routing: Some(value), ..self }
    }

    /// Path rule: the three segments `[index, type, id]`.
    pub open spec fn path_view(self) -> Seq<Seq<char>> {
        seq![self.index@, self.typ@, self.id@]
    }

    /// The optional query fields in declaration order, each serialized
    /// when set.
    pub open spec fn query_slots(self) -> Seq<Option<(Seq<char>, Seq<char>)>> {
        seq![
            match self.parent {
                Some(v) => Some(("parent"@, v@)),
                Option::None => Option::None,
            },
            match self.preference {
                Some(v) => Some(("preference"@, v@)),
                Option::None => Option::None,
            },
            match self.realtime {
                Some(v) => Some(("realtime"@, bool_str(v))),
                Option::None => Option::None,
            },
            match self.refresh {
                Some(v) => Some(("refresh"@, bool_str(v))),
                Option::None => Option::None,
            },
            match self.routing {
                Some(v) => Some(("routing"@, v@)),
                Option::None => Option::None,
            },
        ]
    }

    /// The ordered query pairs this builder emits.
    pub open spec fn query_pairs(self) -> Seq<(Seq<char>, Seq<char>)> {
        emit_pairs(self.query_slots())
    }

    /// The complete derived request this builder describes.
    pub open spec fn req_view(self) -> ReqView {
        ReqView {
            method: Method::Head,
            path: self.path_view(),
            query: self.query_pairs(),
            body: Option::None,
        }
    }

    /// The URL path segments of this request.
    pub fn get_path(&self) -> (r: Vec<String>)
        ensures
            str_seq_view(r@) == self.path_view(),
    {
        let mut path: Vec<String> = Vec::new();
        path.push(self.index.clone());
        path.push(self.typ.clone());
        path.push(self.id.clone());
        proof {
            assert(str_seq_view(path@) =~= self.path_view());
        }
        path
    }

    fn build_query(&self) -> (q: Vec<(String, String)>)
        ensures
            pairs_view(q@) == self.query_pairs(),
    {
        let ghost slots = self.query_slots();
        let mut q: Vec<(String, String)> = Vec::new();
        proof {
            assert(pairs_view(q@) =~= emit_pairs(slots.take(0)));
        }
        let parent_arg: Option<String> = match &self.parent {
            Some(x) => Some(x.clone()),
            Option::None => Option::None,
        };
        push_slot(&mut q, "parent", parent_arg);
        proof {
            lemma_emit_pairs_take_step(slots, 0);
        }
        let preference_arg: Option<String> = match &self.preference {
            Some(x) => Some(x.clone()),
            Option::None => Option::None,
        };
        push_slot(&mut q, "preference", preference_arg);
        proof {
            lemma_emit_pairs_take_step(slots, 1);
        }
        let realtime_arg: Option<String> = match &self.realtime {
            Some(x) => Some(bool_to_string(*x)),
            Option::None => Option::None,
        };
        push_slot(&mut q, "realtime", realtime_arg);
        proof {
            lemma_emit_pairs_take_step(slots, 2);
        }
        let refresh_arg: Option<String> = match &self.refresh {
            Some(x) => Some(bool_to_string(*x)),
            Option::None => Option::None,
        };
        push_slot(&mut q, "refresh", refresh_arg);
        proof {
            lemma_emit_pairs_take_step(slots, 3);
        }
        let routing_arg: Option<String> = match &self.routing {
            Some(x) => Some(x.clone()),
            Option::None => Option::None,
        };
        push_slot(&mut q, "routing", routing_arg);
        proof {
            lemma_emit_pairs_take_step(slots, 4);
            assert(slots.take(5) =~= slots);
        }
        q
    }

    /// Derive the complete request: HEAD, the path
    /// rule's segments, the set query fields in declaration order and no body.
    /// The same builder always derives the same request.
    pub fn to_http_request(&self) -> (r: HttpRequest)
        ensures
            r@ == self.req_view(),
            method_body_consistent(r@),
    {
        let path = self.get_path();
        let query = self.build_query();
        let body: Option<String> = Option::None;
        let r = HttpRequest { method: Method::Head, path, query, body };
        proof {
            assert(r@.path == self.path_view());
            assert(r@.query == self.query_pairs());
        }
        r
    }
}

/// Builder for the Delete operation: removes one document. DELETE, path
/// `index/type/id`, never a body.
#[derive(Debug, Clone, PartialEq)]
pub struct DeleteRequest {
    pub index: String,
    pub typ: String,
    pub id: String,
    pub consistency: Option<Consistency>,
    pub parent: Option<String>,
    pub refresh: Option<bool>,
    pub routing: Option<String>,
    pub timeout: Option<Timeout>,
    pub version: Option<i64>,
    pub version_type: Option<VersionType>,
}

impl DeleteRequest {
    /// A fresh request over the given required fields; every optional
    /// field starts absent.
    pub fn new(index: String, typ: String, id: String) -> (r: Self)
        ensures
            r == (DeleteRequest {
                index,
                typ,
                id,
                consistency: Option::None,
                parent: Option::None,
                refresh: Option::None,
                routing: Option::None,
                timeout: Option::None,
                version: Option::None,
                version_type: Option::None,
            }),
    {
        DeleteRequest {
            index,
            typ,
            id,
            consistency: Option::None,
            parent: Option::None,
            refresh: Option::None,
            routing: Option::None,
            timeout: Option::None,
            version: Option::None,
            version_type: Option::None,
        }
    }

    /// The builder itself, for fluent chaining.
    pub fn get(self) -> (r: Self)
        ensures
            r == self,
    {
        self
    }

    /// Set the write-consistency requirement.
    pub fn consistency(self, value: Consistency) -> (r: Self)
        ensures
            r == (DeleteRequest { consistency: Some(value), ..self }),
    {
        DeleteRequest { consistency: Some(value), ..self }
    }

    /// Set the parent document id.
    pub fn parent(self, value: String) -> (r: Self)
        ensures
            r == (DeleteRequest { parent: Some(value), ..self }),
    {
        DeleteRequest { parent: Some(value), ..self }
    }

    /// Set whether the operation refreshes the index at once.
    pub fn refresh(self, value: bool) -> (r: Self)
        ensures
            r == (DeleteRequest { refresh: Some(value), ..self }),
    {
        DeleteRequest { refresh: Some(value), ..self }
    }

    /// Set the routing value.
    pub fn routing(self, value: String) -> (r: Self)
        ensures
            r == (DeleteRequest { routing: Some(value), ..self }),
    {
        DeleteRequest { routing: Some(value), ..self }
    }

    /// Set the operation timeout.
    pub fn timeout(self, value: Timeout) -> (r: Self)
        ensures
            r == (DeleteRequest { timeout: Some(value), ..self }),
    {
        DeleteRequest { timeout: Some(value), ..self }
    }

    /// Set the document version.
    pub fn version(self, value: i64) -> (r: Self)
        ensures
            r == (DeleteRequest { version: Some(value), ..self }),
    {
        DeleteRequest { version: Some(value), ..self }
    }

    /// Set the versioning discipline.
    pub fn version_type(self, value: VersionType) -> (r: Self)
        ensures
            r == (DeleteRequest { version_type: Some(value), ..self }),
    {
        DeleteRequest { version_type: Some(value), ..self }
    }

    /// Path rule: the three segments `[index, type, id]`.
    pub open spec fn path_view(self) -> Seq<Seq<char>> {
        seq![self.index@, self.typ@, self.id@]
    }

    /// The optional query fields in declaration order, each serialized
    /// when set.
    pub open spec fn query_slots(self) -> Seq<Option<(Seq<char>, Seq<char>)>> {
        seq![
            match self.consistency {
                Some(v) => Some(("consistency"@, consistency_str(v))),
                Option::None => Option::None,
            },
            match self.parent {
                Some(v) => Some(("parent"@, v@)),
                Option::None => Option::None,
            },
            match self.refresh {
                Some(v) => Some(("refresh"@, bool_str(v))),
                Option::None => Option::None,
            },
            match self.routing {
                Some(v) => Some(("routing"@, v@)),
                Option::None => Option::None,
            },
            match self.timeout {
                Some(v) => Some(("timeout"@, dec_str(v.0 as nat))),
                Option::None => Option::None,
            },
            match self.version {
                Some(v) => Some(("version"@, int_dec_str(v as int))),
                Option::None => Option::None,
            },
            match self.version_type {
                Some(v) => Some(("version_type"@, version_type_str(v))),
                Option::None => Option::None,
            },
        ]
    }

    /// The ordered query pairs this builder emits.
    pub open spec fn query_pairs(self) -> Seq<(Seq<char>, Seq<char>)> {
        emit_pairs(self.query_slots())
    }

    /// The complete derived request this builder describes.
    pub open spec fn req_view(self) -> ReqView {
        ReqView {
            method: Method::Delete,
            path: self.path_view(),
            query: self.query_pairs(),
            body: Option::None,
        }
    }

    /// The URL path segments of this request.
    pub fn get_path(&self) -> (r: Vec<String>)
        ensures
            str_seq_view(r@) == self.path_view(),
    {
        let mut path: Vec<String> = Vec::new();
        path.push(self.index.clone());
        path.push(self.typ.clone());
        path.push(self.id.clone());
        proof {
            assert(str_seq_view(path@) =~= self.path_view());
        }
        path
    }

    fn build_query(&self) -> (q: Vec<(String, String)>)
        ensures
            pairs_view(q@) == self.query_pairs(),
    {
        let ghost slots = self.query_slots();
        let mut q: Vec<(String, String)> = Vec::new();
        proof {
            assert(pairs_view(q@) =~= emit_pairs(slots.take(0)));
        }
        let consistency_arg: Option<String> = match &self.consistency {
            Some(x) => Some(x.to_string()),
            Option::None => Option::None,
        };
        push_slot(&mut q, "consistency", consistency_arg);
        proof {
            lemma_emit_pairs_take_step(slots, 0);
        }
        let parent_arg: Option<String> = match &self.parent {
            Some(x) => Some(x.clone()),
            Option::None => Option::None,
        };
        push_slot(&mut q, "parent", parent_arg);
        proof {
            lemma_emit_pairs_take_step(slots, 1);
        }
        let refresh_arg: Option<String> = match &self.refresh {
            Some(x) => Some(bool_to_string(*x)),
            Option::None => Option::None,
        };
        push_slot(&mut q, "refresh", refresh_arg);
        proof {
            lemma_emit_pairs_take_step(slots, 2);
        }
        let routing_arg: Option<String> = match &self.routing {
            Some(x) => Some(x.clone()),
            Option::None => Option::None,
        };
        push_slot(&mut q, "routing", routing_arg);
        proof {
            lemma_emit_pairs_take_step(slots, 3);
        }
        let timeout_arg: Option<String> = match &self.timeout {
            Some(x) => Some(x.to_string()),
            Option::None => Option::None,
        };
        push_slot(&mut q, "timeout", timeout_arg);
        proof {
            lemma_emit_pairs_take_step(slots, 4);
        }
        let version_arg: Option<String> = match &self.version {
            Some(x) => Some(i64_to_dec(*x)),
            Option::None => Option::None,
        };
        push_slot(&mut q, "version", version_arg);
        proof {
            lemma_emit_pairs_take_step(slots, 5);
        }
        let version_type_arg: Option<String> = match &self.version_type {
            Some(x) => Some(x.to_string()),
            Option::None => Option::None,
        };
        push_slot(&mut q, "version_type", version_type_arg);
        proof {
            lemma_emit_pairs_take_step(slots, 6);
            assert(slots.take(7) =~= slots);
        }
        q
    }

    /// Derive the complete request: DELETE, the path
    /// rule's segments, the set query fields in declaration order and no body.
    /// The same builder always derives the same request.
    pub fn to_http_request(&self) -> (r: HttpRequest)
        ensures
            r@ == self.req_view(),
            method_body_consistent(r@),
    {
        let path = self.get_path();
        let query = self.build_query();
        let body: Option<String> = Option::None;
        let r = HttpRequest { method: Method::Delete, path, query, body };
        proof {
            assert(r@.path == self.path_view());
            assert(r@.query == self.query_pairs());
        }
        r
    }
}

/// Builder for the Bulk operation: submits an ordered batch of actions.
/// POST, path `_bulk`, body = the newline-delimited bulk payload.
#[derive(Debug, Clone, PartialEq)]
pub struct BulkRequest {
    pub payload: BulkPayload,
    pub consistency: Option<Consistency>,
    pub index: Option<String>,
    pub typ: Option<String>,
    pub refresh: Option<bool>,
    pub routing: Option<String>,
    pub timeout: Option<Timeout>,
    pub version: Option<i64>,
    pub version_type: Option<VersionType>,
}

impl BulkRequest {
    /// A fresh request over the given required fields; every optional
    /// field starts absent.
    pub fn new(payload: BulkPayload) -> (r: Self)
        ensures
            r == (BulkRequest {
                payload,
                consistency: Option::None,
                index: Option::None,
                typ: Option::None,
                refresh: Option::None,
                routing: Option::None,
                timeout: Option::None,
                version: Option::None,
                version_type: Option::None,
            }),
    {
        BulkRequest {
            payload,
            consistency: Option::None,
            index: Option::None,
            typ: Option::None,
            refresh: Option::None,
            routing: Option::None,
            timeout: Option::None,
            version: Option::None,
            version_type: Option::None,
        }
    }

    /// The builder itself, for fluent chaining.
    pub fn get(self) -> (r: Self)
        ensures
            r == self,
    {
        self
    }

    /// Set the write-consistency requirement.
    pub fn consistency(self, value: Consistency) -> (r: Self)
        ensures
            r == (BulkRequest { consistency: Some(value), ..self }),
    {
        BulkRequest { consistency: Some(value), ..self }
    }

    /// Set the default index for actions without one.
    pub fn index(self, value: String) -> (r: Self)
        ensures
            r == (BulkRequest { index: Some(value), ..self }),
    {
        BulkRequest { index: Some(value), ..self }
    }

    /// Set the default type for actions without one.
    pub fn typ(self, value: String) -> (r: Self)
        ensures
            r == (BulkRequest { typ: Some(value), ..self }),
    {
        BulkRequest { typ: Some(value), ..self }
    }

    /// Set whether the operation refreshes the index at once.
    pub fn refresh(self, value: bool) -> (r: Self)
        ensures
            r == (BulkRequest { refresh: Some(value), ..self }),
    {
        BulkRequest { refresh: Some(value), ..self }
    }

    /// Set the routing value.
    pub fn routing(self, value: String) -> (r: Self)
        ensures
            r == (BulkRequest { routing: Some(value), ..self }),
    {
        BulkRequest { routing: Some(value), ..self }
    }

    /// Set the operation timeout.
    pub fn timeout(self, value: Timeout) -> (r: Self)
        ensures
            r == (BulkRequest { timeout: Some(value), ..self }),
    {
        BulkRequest { timeout: Some(value), ..self }
    }

    /// Set the document version.
    pub fn version(self, value: i64) -> (r: Self)
        ensures
            r == (BulkRequest { version: Some(value), ..self }),
    {
        BulkRequest { version: Some(value), ..self }
    }

    /// Set the versioning discipline.
    pub fn version_type(self, value: VersionType) -> (r: Self)
        ensures
            r == (BulkRequest { version_type: Some(value), ..self }),
    {
        BulkRequest { version_type: Some(value), ..self }
    }

    /// Path rule: the single fixed `_bulk` segment.
    pub open spec fn path_view(self) -> Seq<Seq<char>> {
        seq!["_bulk"@]
    }

    /// The optional query fields in declaration order, each serialized
    /// when set.
    pub open spec fn query_slots(self) -> Seq<Option<(Seq<char>, Seq<char>)>> {
        seq![
            match self.consistency {
                Some(v) => Some(("consistency"@, consistency_str(v))),
                Option::None => Option::None,
            },
            match self.index {
                Some(v) => Some(("index"@, v@)),
                Option::None => Option::None,
            },
            match self.typ {
                Some(v) => Some(("type"@, v@)),
                Option::None => Option::None,
            },
            match self.refresh {
                Some(v) => Some(("refresh"@, bool_str(v))),
                Option::None => Option::None,
            },
            match self.routing {
                Some(v) => Some(("routing"@, v@)),
                Option::None => Option::None,
            },
            match self.timeout {
                Some(v) => Some(("timeout"@, dec_str(v.0 as nat))),
                Option::None => Option::None,
            },
            match self.version {
                Some(v) => Some(("version"@, int_dec_str(v as int))),
                Option::None => Option::None,
            },
            match self.version_type {
                Some(v) => Some(("version_type"@, version_type_str(v))),
                Option::None => Option::None,
            },
        ]
    }

    /// The ordered query pairs this builder emits.
    pub open spec fn query_pairs(self) -> Seq<(Seq<char>, Seq<char>)> {
        emit_pairs(self.query_slots())
    }

    /// The complete derived request this builder describes.
    pub open spec fn req_view(self) -> ReqView {
        ReqView {
            method: Method::Post,
            path: self.path_view(),
            query: self.query_pairs(),
            body: Some(bulk_payload_str(self.payload.actions@)),
        }
    }

    /// The URL path segments of this request.
    pub fn get_path(&self) -> (r: Vec<String>)
        ensures
            str_seq_view(r@) == self.path_view(),
    {
        let mut path: Vec<String> = Vec::new();
        path.push(String::from_str("_bulk"));
        proof {
            assert(str_seq_view(path@) =~= self.path_view());
        }
        path
    }

    fn build_query(&self) -> (q: Vec<(String, String)>)
        ensures
            pairs_view(q@) == self.query_pairs(),
    {
        let ghost slots = self.query_slots();
        let mut q: Vec<(String, String)> = Vec::new();
        proof {
            assert(pairs_view(q@) =~= emit_pairs(slots.take(0)));
        }
        let consistency_arg: Option<String> = match &self.consistency {
            Some(x) => Some(x.to_string()),
            Option::None => Option::None,
        };
        push_slot(&mut q, "consistency", consistency_arg);
        proof {
            lemma_emit_pairs_take_step(slots, 0);
        }
        let index_arg: Option<String> = match &self.index {
            Some(x) => Some(x.clone()),
            Option::None => Option::None,
        };
        push_slot(&mut q, "index", index_arg);
        proof {
            lemma_emit_pairs_take_step(slots, 1);
        }
        let typ_arg: Option<String> = match &self.typ {
            Some(x) => Some(x.clone()),
            Option::None => Option::None,
        };
        push_slot(&mut q, "type", typ_arg);
        proof {
            lemma_emit_pairs_take_step(slots, 2);
        }
        let refresh_arg: Option<String> = match &self.refresh {
            Some(x) => Some(bool_to_string(*x)),
            Option::None => Option::None,
        };
        push_slot(&mut q, "refresh", refresh_arg);
        proof {
            lemma_emit_pairs_take_step(slots, 3);
        }
        let routing_arg: Option<String> = match &self.routing {
            Some(x) => Some(x.clone()),
            Option::None => Option::None,
        };
        push_slot(&mut q, "routing", routing_arg);
        proof {
            lemma_emit_pairs_take_step(slots, 4);
        }
        let timeout_arg: Option<String> = match &self.timeout {
            Some(x) => Some(x.to_string()),
            Option::None => Option::None,
        };
        push_slot(&mut q, "timeout", timeout_arg);
        proof {
            lemma_emit_pairs_take_step(slots, 5);
        }
        let version_arg: Option<String> = match &self.version {
            Some(x) => Some(i64_to_dec(*x)),
            Option::None => Option::None,
        };
        push_slot(&mut q, "version", version_arg);
        proof {
            lemma_emit_pairs_take_step(slots, 6);
        }
        let version_type_arg: Option<String> = match &self.version_type {
            Some(x) => Some(x.to_string()),
            Option::None => Option::None,
        };
        push_slot(&mut q, "version_type", version_type_arg);
        proof {
            lemma_emit_pairs_take_step(slots, 7);
            assert(slots.take(8) =~= slots);
        }
        q
    }

    /// Derive the complete request: POST, the path
    /// rule's segments, the set query fields in declaration order, and
    /// the rendered bulk payload as body.
    /// The same builder always derives the same request.
    pub fn to_http_request(&self) -> (r: HttpRequest)
        ensures
            r@ == self.req_view(),
            method_body_consistent(r@),
    {
        let path = self.get_path();
        let query = self.build_query();
        let body: Option<String> = Some(self.payload.to_string());
        let r = HttpRequest { method: Method::Post, path, query, body };
        proof {
            assert(r@.path == self.path_view());
            assert(r@.query == self.query_pairs());
        }
        r
    }
}

/// An Index request constructed with no explicit `op_type`, and no other
/// optional field set, serializes exactly the single query pair
/// `op_type=create`.
pub proof fn lemma_index_default_op_type(r: IndexRequest)
    requires
        r.consistency is None,
        r.op_type == Some(OpType::Create),
        r.parent is None,
        r.refresh is None,
        r.routing is None,
        r.timeout is None,
        r.timestamp is None,
        r.ttl is None,
        r.version is None,
        r.version_type is None,
    ensures
        r.query_pairs() == seq![("op_type"@, "create"@)],
{
    reveal_with_fuel(emit_pairs, 11);
    assert(r.query_pairs() =~= seq![("op_type"@, "create"@)]);
}

/// Deriving a request is referentially transparent: two derivations from
/// the same unmodified builder describe the same method, path, query
/// pairs and body.
pub proof fn lemma_derivation_deterministic(b: IndexRequest, r1: ReqView, r2: ReqView)
    requires
        r1 == b.req_view(),
        r2 == b.req_view(),
    ensures
        r1 == r2,
{
}

/// Deriving a bulk request is referentially transparent in the same way:
/// two derivations from the same unmodified builder describe the same
/// request.
pub proof fn lemma_bulk_derivation_deterministic(b: BulkRequest, r1: ReqView, r2: ReqView)
    requires
        r1 == b.req_view(),
        r2 == b.req_view(),
    ensures
        r1 == r2,
{
}

} // verus!


