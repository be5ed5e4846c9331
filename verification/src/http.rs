//! The derived form of one request: HTTP method, ordered URL path
//! segments, ordered query pairs, and optional body text. Builders
//! produce this value; a transport collaborator outside this crate
//! performs the actual exchange.

use vstd::prelude::*;
use vstd::string::*;

verus! {

/// The HTTP method of an operation.
#[derive(Debug, Clone, Copy, PartialEq, Eq, Structural)]
pub enum Method {
    Get,
    Post,
    Put,
    Head,
    Delete,
}

/// Whether a method may carry a request body: only POST and PUT do here;
/// GET and HEAD never carry one, and DELETE never does in this protocol.
pub open spec fn method_allows_body(m: Method) -> bool {
    m == Method::Post || m == Method::Put
}

/// Specification view of a derived request.
pub struct ReqView {
    pub method: Method,
    pub path: Seq<Seq<char>>,
    pub query: Seq<(Seq<char>, Seq<char>)>,
    pub body: Option<Seq<char>>,
}

/// A derived request is consistent when it only carries a body under a
/// method that allows one.
pub open spec fn method_body_consistent(r: ReqView) -> bool {
    r.body is Some ==> method_allows_body(r.method)
}

/// View of a vector of query pairs as pairs of character sequences.
pub open spec fn pairs_view(v: Seq<(String, String)>) -> Seq<(Seq<char>, Seq<char>)> {
    v.map_values(|p: (String, String)| (p.0@, p.1@))
}

/// A derived request, ready to hand to a transport collaborator.
#[derive(Debug, Clone, PartialEq)]
pub struct HttpRequest {
    pub method: Method,
    pub path: Vec<String>,
    pub query: Vec<(String, String)>,
    pub body: Option<String>,
}

impl View for HttpRequest {
    type V = ReqView;

    open spec fn view(&self) -> ReqView {
        ReqView {
            method: self.method,
            path: crate::encode::str_seq_view(self.path@),
            query: pairs_view(self.query@),
            body: match self.body {
                Some(b) => Some(b@),
                Option::None => Option::None,
            },
        }
    }
}

/// The query-pair contribution of one optional field: its single pair
/// when the field is set, nothing when it is not.
pub open spec fn opt_entry(slot: Option<(Seq<char>, Seq<char>)>) -> Seq<(Seq<char>, Seq<char>)> {
    match slot {
        Some(p) => seq![p],
        Option::None => seq![],
    }
}

/// The ordered query-pair list emitted for a declaration-ordered list of
/// optional-field slots.
pub open spec fn emit_pairs(slots: Seq<Option<(Seq<char>, Seq<char>)>>) -> Seq<
    (Seq<char>, Seq<char>),
>
    decreases slots.len(),
{
    if slots.len() == 0 {
        seq![]
    } else {
        emit_pairs(slots.drop_last()) + opt_entry(slots.last())
    }
}

/// The emitted query-pair list contains exactly the pairs of the fields
/// that are set, in their fixed declaration order, and omits every field
/// that is not set, never serializing an absent field as empty.
pub proof fn lemma_emit_pairs_exactly_set(slots: Seq<Option<(Seq<char>, Seq<char>)>>)
    ensures
        emit_pairs(slots) == slots.filter(|s: Option<(Seq<char>, Seq<char>)>| s is Some)
            .map_values(|s: Option<(Seq<char>, Seq<char>)>| s.unwrap()),
    decreases slots.len(),
{
    reveal(Seq::filter);
    let pred = |s: Option<(Seq<char>, Seq<char>)>| s is Some;
    let extract = |s: Option<(Seq<char>, Seq<char>)>| s.unwrap();
    if slots.len() == 0 {
        assert(emit_pairs(slots) =~= slots.filter(pred).map_values(extract));
    } else {
        lemma_emit_pairs_exactly_set(slots.drop_last());
        assert(emit_pairs(slots) =~= slots.filter(pred).map_values(extract));
    }
}

/// One step of query-pair emission: emitting a prefix one slot longer
/// appends that slot's contribution.
pub proof fn lemma_emit_pairs_take_step(slots: Seq<Option<(Seq<char>, Seq<char>)>>, k: int)
    requires
        0 <= k < slots.len(),
    ensures
        emit_pairs(slots.take(k + 1)) == emit_pairs(slots.take(k)) + opt_entry(slots[k]),
{
    assert(slots.take(k + 1).drop_last() =~= slots.take(k));
    assert(slots.take(k + 1).last() == slots[k]);
}

/// Append one optional field's pair to the query list: the serialized
/// value under its wire name when set, nothing when unset.
pub fn push_slot(q: &mut Vec<(String, String)>, name: &str, v: Option<String>)
    ensures
        pairs_view(final(q)@) == pairs_view(old(q)@) + opt_entry(
            match v {
                Some(x) => Some((name@, x@)),
                Option::None => Option::None,
            },
        ),
{
    match v {
        Some(x) => {
            let ghost xv = x@;
            q.push((String::from_str(name), x));
            proof {
                assert(pairs_view(q@) =~= pairs_view(old(q)@) + opt_entry(Some((name@, xv))));
            }
        },
        Option::None => {
            proof {
                assert(pairs_view(q@) =~= pairs_view(old(q)@) + opt_entry(
                    Option::<(Seq<char>, Seq<char>)>::None,
                ));
            }
        },
    }
}

/// What `url`'s `application/x-www-form-urlencoded` byte serializer
/// produces for the UTF-8 bytes of a string: a function of the
/// characters alone.
pub uninterp spec fn form_encoded(s: Seq<char>) -> Seq<char>;

/// Relies on url::form_urlencoded::byte_serialize, the
/// application/x-www-form-urlencoded byte serializer: its output depends
/// only on the input bytes, and empty input serializes to empty output.
#[verifier::external_body]
fn form_encode(s: &str) -> (r: String)
    ensures
        r@ == form_encoded(s@),
        s@.len() == 0 ==> r@.len() == 0,
{
    url::form_urlencoded::byte_serialize(s.as_bytes()).collect()
}

/// The query string serialized from an ordered pair list: each name and
/// value percent-encoded by the form-urlencoded serializer, joined as
/// `name=value` pairs separated by `&`.
pub open spec fn urlencoded_pairs(pairs: Seq<(Seq<char>, Seq<char>)>) -> Seq<char>
    decreases pairs.len(),
{
    if pairs.len() == 0 {
        seq![]
    } else if pairs.len() == 1 {
        form_encoded(pairs[0].0) + seq!['='] + form_encoded(pairs[0].1)
    } else {
        urlencoded_pairs(pairs.drop_last()) + seq!['&'] + form_encoded(pairs.last().0) + seq!['=']
            + form_encoded(pairs.last().1)
    }
}

/// Render an ordered pair list as a form-urlencoded query string.
pub fn render_query(pairs: &Vec<(String, String)>) -> (r: String)
    ensures
        r@ == urlencoded_pairs(pairs_view(pairs@)),
{
    let ghost views = pairs_view(pairs@);
    let mut out = String::new();
    proof {
        assert(out@ =~= urlencoded_pairs(views.take(0)));
    }
    let n = pairs.len();
    let mut i: usize = 0;
    while i < n
        invariant
            i <= n,
            n == pairs.len(),
            views == pairs_view(pairs@),
            views.len() == n,
            out@ == urlencoded_pairs(views.take(i as int)),
        decreases n - i,
    {
        if i > 0 {
            out.append("&");
            proof {
                reveal_strlit("&");
            }
        }
        let name_enc = form_encode(pairs[i].0.as_str());
        out.append(name_enc.as_str());
        out.append("=");
        let value_enc = form_encode(pairs[i].1.as_str());
        out.append(value_enc.as_str());
        proof {
            reveal_strlit("=");
            assert(views.take(i + 1).drop_last() =~= views.take(i as int));
            assert(views.take(i + 1).last() == views[i as int]);
            assert(views[i as int] == (pairs@[i as int].0@, pairs@[i as int].1@));
            if i == 0 {
                assert(out@ =~= urlencoded_pairs(views.take(1)));
            } else {
                assert(out@ =~= urlencoded_pairs(views.take(i + 1)));
            }
        }
        i = i + 1;
    }
    proof {
        assert(views.take(n as int) =~= views);
    }
    out
}

impl HttpRequest {
    /// The form-urlencoded query string of this request, or `None` when
    /// no query parameter is set (the `?` is then omitted entirely).
    pub fn query_string(&self) -> (r: Option<String>)
        ensures
            r is None <==> self.query@.len() == 0,
            r is Some ==> r->0@ == urlencoded_pairs(pairs_view(self.query@)),
    {
        if self.query.len() == 0 {
            Option::None
        } else {
            Some(render_query(&self.query))
        }
    }
}

} // verus!
