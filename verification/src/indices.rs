//! Request builders for index-management operations: existence checks
//! over an index list, index creation, and index close.

use vstd::prelude::*;
use vstd::string::*;
use crate::encode::{bool_str, bool_to_string, comma_join, dec_str, str_seq_view};
use crate::http::{
    emit_pairs, lemma_emit_pairs_take_step, method_body_consistent, pairs_view, push_slot,
    HttpRequest, Method, ReqView,
};
use crate::types::{expand_wildcards_str, ExpandWildcards, StringList, Timeout};

verus! {

/// Builder for the index Exists check. HEAD, one path segment holding
/// the comma-joined index list, no body; existence is read off the
/// response status by the caller.
#[derive(Debug, Clone, PartialEq)]
pub struct ExistsRequest {
    pub indices: StringList,
    pub ignore_unavailable: Option<bool>,
    pub allow_no_indices: Option<bool>,
    pub expand_wildcards: Option<ExpandWildcards>,
    pub local: Option<bool>,
}

impl ExistsRequest {
    /// A fresh request over the given required fields; every optional
    /// field starts absent.
    pub fn new(indices: StringList) -> (r: Self)
        ensures
            r == (ExistsRequest {
                indices,
                ignore_unavailable: Option::None,
                allow_no_indices: Option::None,
                expand_wildcards: Option::None,
                local: Option::None,
            }),
    {
        ExistsRequest {
            indices,
            ignore_unavailable: Option::None,
            allow_no_indices: Option::None,
            expand_wildcards: Option::None,
            local: Option::None,
        }
    }

    /// The builder itself, for fluent chaining.
    pub fn get(self) -> (r: Self)
        ensures
            r == self,
    {
        self
    }

    /// Set whether missing indices are ignored.
    pub fn ignore_unavailable(self, value: bool) -> (r: Self)
        ensures
            r == (ExistsRequest { ignore_unavailable: Some(value), ..self }),
    {
        ExistsRequest { ignore_unavailable: Some(value), ..self }
    }

    /// Set whether a wildcard matching nothing is allowed.
    pub fn allow_no_indices(self, value: bool) -> (r: Self)
        ensures
            r == (ExistsRequest { allow_no_indices: Some(value), ..self }),
    {
        ExistsRequest { allow_no_indices: Some(value), ..self }
    }

    /// Set the wildcard-expansion policy.
    pub fn expand_wildcards(self, value: ExpandWildcards) -> (r: Self)
        ensures
            r == (ExistsRequest { expand_wildcards: Some(value), ..self }),
    {
        ExistsRequest { expand_wildcards: Some(value), ..self }
    }

    /// Set whether only the local node is consulted.
    pub fn local(self, value: bool) -> (r: Self)
        ensures
            r == (ExistsRequest { local: Some(value), ..self }),
    {
        ExistsRequest { local: Some(value), ..self }
    }

    /// Path rule: one segment holding the comma-joined index list.
    pub open spec fn path_view(self) -> Seq<Seq<char>> {
        seq![comma_join(str_seq_view(self.indices.0@))]
    }

    /// The optional query fields in declaration order, each serialized
    /// when set.
    pub open spec fn query_slots(self) -> Seq<Option<(Seq<char>, Seq<char>)>> {
        seq![
            match self.ignore_unavailable {
                Some(v) => Some(("ignore_unavailable"@, bool_str(v))),
                Option::None => Option::None,
            },
            match self.allow_no_indices {
                Some(v) => Some(("allow_no_indices"@, bool_str(v))),
                Option::None => Option::None,
            },
            match self.expand_wildcards {
                Some(v) => Some(("expand_wildcards"@, expand_wildcards_str(v))),
                Option::None => Option::None,
            },
            match self.local {
                Some(v) => Some(("local"@, bool_str(v))),
                Option::None => Option::None,
            },
        ]
    }

    /// The ordered query pairs this builder emits.
    pub open spec fn query_pairs(self) -> Seq<(Seq<char>, Seq<char>)> {
        emit_pairs(self.query_slots())
    }

    /// The complete derived request this builder describes.
    pub open spec fn req_view(self) -> ReqView {
        ReqView {
            method: Method::Head,
            path: self.path_view(),
            query: self.query_pairs(),
            body: Option::None,
        }
    }

    /// The URL path segments of this request.
    pub fn get_path(&self) -> (r: Vec<String>)
        ensures
            str_seq_view(r@) == self.path_view(),
    {
        let mut path: Vec<String> = Vec::new();
        path.push(self.indices.to_string());
        proof {
            assert(str_seq_view(path@) =~= self.path_view());
        }
        path
    }

    fn build_query(&self) -> (q: Vec<(String, String)>)
        ensures
            pairs_view(q@) == self.query_pairs(),
    {
        let ghost slots = self.query_slots();
        let mut q: Vec<(String, String)> = Vec::new();
        proof {
            assert(pairs_view(q@) =~= emit_pairs(slots.take(0)));
        }
        let ignore_unavailable_arg: Option<String> = match &self.ignore_unavailable {
            Some(x) => Some(bool_to_string(*x)),
            Option::None => Option::None,
        };
        push_slot(&mut q, "ignore_unavailable", ignore_unavailable_arg);
        proof {
            lemma_emit_pairs_take_step(slots, 0);
        }
        let allow_no_indices_arg: Option<String> = match &self.allow_no_indices {
            Some(x) => Some(bool_to_string(*x)),
            Option::None => Option::None,
        };
        push_slot(&mut q, "allow_no_indices", allow_no_indices_arg);
        proof {
            lemma_emit_pairs_take_step(slots, 1);
        }
        let expand_wildcards_arg: Option<String> = match &self.expand_wildcards {
            Some(x) => Some(x.to_string()),
            Option::None => Option::None,
        };
        push_slot(&mut q, "expand_wildcards", expand_wildcards_arg);
        proof {
            lemma_emit_pairs_take_step(slots, 2);
        }
        let local_arg: Option<String> = match &self.local {
            Some(x) => Some(bool_to_string(*x)),
            Option::None => Option::None,
        };
        push_slot(&mut q, "local", local_arg);
        proof {
            lemma_emit_pairs_take_step(slots, 3);
            assert(slots.take(4) =~= slots);
        }
        q
    }

    /// Derive the complete request: HEAD, the path
    /// rule's segments, the set query fields in declaration order and no body.
    /// The same builder always derives the same request.
    pub fn to_http_request(&self) -> (r: HttpRequest)
        ensures
            r@ == self.req_view(),
            method_body_consistent(r@),
    {
        let path = self.get_path();
        let query = self.build_query();
        let body: Option<String> = Option::None;
        let r = HttpRequest { method: Method::Head, path, query, body };
        proof {
            assert(r@.path == self.path_view());
            assert(r@.query == self.query_pairs());
        }
        r
    }
}

/// Builder for the index Create operation. POST, path `[index]`, no
/// body.
#[derive(Debug, Clone, PartialEq)]
pub struct CreateRequest {
    pub index: String,
    pub timeout: Option<Timeout>,
    pub master_timeout: Option<Timeout>,
    pub ignore_unavailable: Option<bool>,
    pub allow_no_indices: Option<bool>,
    pub expand_wildcards: Option<ExpandWildcards>,
}

impl CreateRequest {
    /// A fresh request over the given required fields; every optional
    /// field starts absent.
    pub fn new(index: String) -> (r: Self)
        ensures
            r == (CreateRequest {
                index,
                timeout: Option::None,
                master_timeout: Option::None,
                ignore_unavailable: Option::None,
                allow_no_indices: Option::None,
                expand_wildcards: Option::None,
            }),
    {
        CreateRequest {
            index,
            timeout: Option::None,
            master_timeout: Option::None,
            ignore_unavailable: Option::None,
            allow_no_indices: Option::None,
            expand_wildcards: Option::None,
        }
    }

    /// The builder itself, for fluent chaining.
    pub fn get(self) -> (r: Self)
        ensures
            r == self,
    {
        self
    }

    /// Set the operation timeout.
    pub fn timeout(self, value: Timeout) -> (r: Self)
        ensures
            r == (CreateRequest { timeout: Some(value), ..self }),
    {
        CreateRequest { timeout: Some(value), ..self }
    }

    /// Set the master-node timeout.
    pub fn master_timeout(self, value: Timeout) -> (r: Self)
        ensures
            r == (CreateRequest { master_timeout: Some(value), ..self }),
    {
        CreateRequest { master_timeout: Some(value), ..self }
    }

    /// Set whether missing indices are ignored.
    pub fn ignore_unavailable(self, value: bool) -> (r: Self)
        ensures
            r == (CreateRequest { ignore_unavailable: Some(value), ..self }),
    {
        CreateRequest { ignore_unavailable: Some(value), ..self }
    }

    /// Set whether a wildcard matching nothing is allowed.
    pub fn allow_no_indices(self, value: bool) -> (r: Self)
        ensures
            r == (CreateRequest { allow_no_indices: Some(value), ..self }),
    {
        CreateRequest { allow_no_indices: Some(value), ..self }
    }

    /// Set the wildcard-expansion policy.
    pub fn expand_wildcards(self, value: ExpandWildcards) -> (r: Self)
        ensures
            r == (CreateRequest { expand_wildcards: Some(value), ..self }),
    {
        CreateRequest { expand_wildcards: Some(value), ..self }
    }

    /// Path rule: the single `[index]` segment.
    pub open spec fn path_view(self) -> Seq<Seq<char>> {
        seq![self.index@]
    }

    /// The optional query fields in declaration order, each serialized
    /// when set.
    pub open spec fn query_slots(self) -> Seq<Option<(Seq<char>, Seq<char>)>> {
        seq![
            match self.timeout {
                Some(v) => Some(("timeout"@, dec_str(v.0 as nat))),
                Option::None => Option::None,
            },
            match self.master_timeout {
                Some(v) => Some(("master_timeout"@, dec_str(v.0 as nat))),
                Option::None => Option::None,
            },
            match self.ignore_unavailable {
                Some(v) => Some(("ignore_unavailable"@, bool_str(v))),
                Option::None => Option::None,
            },
            match self.allow_no_indices {
                Some(v) => Some(("allow_no_indices"@, bool_str(v))),
                Option::None => Option::None,
            },
            match self.expand_wildcards {
                Some(v) => Some(("expand_wildcards"@, expand_wildcards_str(v))),
                Option::None => Option::None,
            },
        ]
    }

    /// The ordered query pairs this builder emits.
    pub open spec fn query_pairs(self) -> Seq<(Seq<char>, Seq<char>)> {
        emit_pairs(self.query_slots())
    }

    /// The complete derived request this builder describes.
    pub open spec fn req_view(self) -> ReqView {
        ReqView {
            method: Method::Post,
            path: self.path_view(),
            query: self.query_pairs(),
            body: Option::None,
        }
    }

    /// The URL path segments of this request.
    pub fn get_path(&self) -> (r: Vec<String>)
        ensures
            str_seq_view(r@) == self.path_view(),
    {
        let mut path: Vec<String> = Vec::new();
        path.push(self.index.clone());
        proof {
            assert(str_seq_view(path@) =~= self.path_view());
        }
        path
    }

    fn build_query(&self) -> (q: Vec<(String, String)>)
        ensures
            pairs_view(q@) == self.query_pairs(),
    {
        let ghost slots = self.query_slots();
        let mut q: Vec<(String, String)> = Vec::new();
        proof {
            assert(pairs_view(q@) =~= emit_pairs(slots.take(0)));
        }
        let timeout_arg: Option<String> = match &self.timeout {
            Some(x) => Some(x.to_string()),
            Option::None => Option::None,
        };
        push_slot(&mut q, "timeout", timeout_arg);
        proof {
            lemma_emit_pairs_take_step(slots, 0);
        }
        let master_timeout_arg: Option<String> = match &self.master_timeout {
            Some(x) => Some(x.to_string()),
            Option::None => Option::None,
        };
        push_slot(&mut q, "master_timeout", master_timeout_arg);
        proof {
            lemma_emit_pairs_take_step(slots, 1);
        }
        let ignore_unavailable_arg: Option<String> = match &self.ignore_unavailable {
            Some(x) => Some(bool_to_string(*x)),
            Option::None => Option::None,
        };
        push_slot(&mut q, "ignore_unavailable", ignore_unavailable_arg);
        proof {
            lemma_emit_pairs_take_step(slots, 2);
        }
        let allow_no_indices_arg: Option<String> = match &self.allow_no_indices {
            Some(x) => Some(bool_to_string(*x)),
            Option::None => Option::None,
        };
        push_slot(&mut q, "allow_no_indices", allow_no_indices_arg);
        proof {
            lemma_emit_pairs_take_step(slots, 3);
        }
        let expand_wildcards_arg: Option<String> = match &self.expand_wildcards {
            Some(x) => Some(x.to_string()),
            Option::None => Option::None,
        };
        push_slot(&mut q, "expand_wildcards", expand_wildcards_arg);
        proof {
            lemma_emit_pairs_take_step(slots, 4);
            assert(slots.take(5) =~= slots);
        }
        q
    }

    /// Derive the complete request: POST, the path
    /// rule's segments, the set query fields in declaration order and no body.
    /// The same builder always derives the same request.
    pub fn to_http_request(&self) -> (r: HttpRequest)
        ensures
            r@ == self.req_view(),
            method_body_consistent(r@),
    {
        let path = self.get_path();
        let query = self.build_query();
        let body: Option<String> = Option::None;
        let r = HttpRequest { method: Method::Post, path, query, body };
        proof {
            assert(r@.path == self.path_view());
            assert(r@.query == self.query_pairs());
        }
        r
    }
}

/// Builder for the index Close operation. POST, path `[index]`, body =
/// the index configuration JSON.
#[derive(Debug, Clone, PartialEq)]
pub struct CloseRequest {
    pub index: String,
    pub config_body: String,
    pub timeout: Option<Timeout>,
    pub master_timeout: Option<Timeout>,
}

impl CloseRequest {
    /// A fresh request over the given required fields; every optional
    /// field starts absent.
    pub fn new(index: String, config_body: String) -> (r: Self)
        ensures
            r == (CloseRequest {
                index,
                config_body,
                timeout: Option::None,
                master_timeout: Option::None,
            }),
    {
        CloseRequest {
            index,
            config_body,
            timeout: Option::None,
            master_timeout: Option::None,
        }
    }

    /// The builder itself, for fluent chaining.
    pub fn get(self) -> (r: Self)
        ensures
            r == self,
    {
        self
    }

    /// Set the operation timeout.
    pub fn timeout(self, value: Timeout) -> (r: Self)
        ensures
            r == (CloseRequest { timeout: Some(value), ..self }),
    {
        CloseRequest { timeout: Some(value), ..self }
    }

    /// Set the master-node timeout.
    pub fn master_timeout(self, value: Timeout) -> (r: Self)
        ensures
            r == (CloseRequest { master_timeout: Some(value), ..self }),
    {
        CloseRequest { master_timeout: Some(value), ..self }
    }

    /// Path rule: the single `[index]` segment.
    pub open spec fn path_view(self) -> Seq<Seq<char>> {
        seq![self.index@]
    }

    /// The optional query fields in declaration order, each serialized
    /// when set.
    pub open spec fn query_slots(self) -> Seq<Option<(Seq<char>, Seq<char>)>> {
        seq![
            match self.timeout {
                Some(v) => Some(("timeout"@, dec_str(v.0 as nat))),
                Option::None => Option::None,
            },
            match self.master_timeout {
                Some(v) => Some(("master_timeout"@, dec_str(v.0 as nat))),
                Option::None => Option::None,
            },
        ]
    }

    /// The ordered query pairs this builder emits.
    pub open spec fn query_pairs(self) -> Seq<(Seq<char>, Seq<char>)> {
        emit_pairs(self.query_slots())
    }

    /// The complete derived request this builder describes.
    pub open spec fn req_view(self) -> ReqView {
        ReqView {
            method: Method::Post,
            path: self.path_view(),
            query: self.query_pairs(),
            body: Some(self.config_body@),
        }
    }

    /// The URL path segments of this request.
    pub fn get_path(&self) -> (r: Vec<String>)
        ensures
            str_seq_view(r@) == self.path_view(),
    {
        let mut path: Vec<String> = Vec::new();
        path.push(self.index.clone());
        proof {
            assert(str_seq_view(path@) =~= self.path_view());
        }
        path
    }

    fn build_query(&self) -> (q: Vec<(String, String)>)
        ensures
            pairs_view(q@) == self.query_pairs(),
    {
        let ghost slots = self.query_slots();
        let mut q: Vec<(String, String)> = Vec::new();
        proof {
            assert(pairs_view(q@) =~= emit_pairs(slots.take(0)));
        }
        let timeout_arg: Option<String> = match &self.timeout {
            Some(x) => Some(x.to_string()),
            Option::None => Option::None,
        };
        push_slot(&mut q, "timeout", timeout_arg);
        proof {
            lemma_emit_pairs_take_step(slots, 0);
        }
        let master_timeout_arg: Option<String> = match &self.master_timeout {
            Some(x) => Some(x.to_string()),
            Option::None => Option::None,
        };
        push_slot(&mut q, "master_timeout", master_timeout_arg);
        proof {
            lemma_emit_pairs_take_step(slots, 1);
            assert(slots.take(2) =~= slots);
        }
        q
    }

    /// Derive the complete request: POST, the path
    /// rule's segments, the set query fields in declaration order, and
    /// the configuration JSON as body.
    /// The same builder always derives the same request.
    pub fn to_http_request(&self) -> (r: HttpRequest)
        ensures
            r@ == self.req_view(),
            method_body_consistent(r@),
    {
        let path = self.get_path();
        let query = self.build_query();
        let body: Option<String> = Some(self.config_body.clone());
        let r = HttpRequest { method: Method::Post, path, query, body };
        proof {
            assert(r@.path == self.path_view());
            assert(r@.query == self.query_pairs());
        }
        r
    }
}
} // verus!
