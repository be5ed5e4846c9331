//! Query-parameter value types: the naming/serialization contract, the
//! wire enums, comma-joined string lists, and the millisecond-precision
//! timeout with its unit-suffixed literal parser.

use vstd::prelude::*;
use vstd::string::*;
use crate::encode::{comma_join, dec_str, join_comma, str_seq_view};

verus! {

/// Every query-parameter type knows its invariant wire name and serializes
/// itself to a string; values are never deserialized from wire form here.
pub trait QueryParam {
    /// The wire name, as a specification value.
    spec fn spec_name(&self) -> Seq<char>;

    /// The serialized value, as a specification value.
    spec fn spec_value(&self) -> Seq<char>;

    /// The constant wire name of this parameter.
    fn get_name(&self) -> (r: &'static str)
        ensures
            r@ == self.spec_name(),
    ;

    /// The one-way string serialization of this value.
    fn get_value(&self) -> (r: String)
        ensures
            r@ == self.spec_value(),
    ;
}

/// A list of strings that serializes comma-joined, with no surrounding
/// brackets and no escaping.
#[derive(Debug, Clone, PartialEq)]
pub struct StringList(pub Vec<String>);

impl StringList {
    /// Comma-joined rendering of the list; the empty list renders empty.
    pub fn to_string(&self) -> (r: String)
        ensures
            r@ == comma_join(str_seq_view(self.0@)),
    {
        join_comma(&self.0)
    }
}

/// Wildcard-expansion policy for index names.
#[derive(Debug, Clone, Copy, PartialEq, Eq)]
pub enum ExpandWildcards {
    Open,
    Closed,
    NoWildcards,
    All,
}

/// Wire form of an `ExpandWildcards` value.
pub open spec fn expand_wildcards_str(v: ExpandWildcards) -> Seq<char> {
    match v {
        ExpandWildcards::Open => "open"@,
        ExpandWildcards::Closed => "closed"@,
        ExpandWildcards::NoWildcards => "none"@,
        ExpandWildcards::All => "all"@,
    }
}

impl ExpandWildcards {
    /// The lowercase wire literal for this variant.
    pub fn to_string(&self) -> (r: String)
        ensures
            r@ == expand_wildcards_str(*self),
    {
        match self {
            ExpandWildcards::Open => String::from_str("open"),
            ExpandWildcards::Closed => String::from_str("closed"),
            ExpandWildcards::NoWildcards => String::from_str("none"),
            ExpandWildcards::All => String::from_str("all"),
        }
    }
}

/// Write-consistency requirement.
#[derive(Debug, Clone, Copy, PartialEq, Eq)]
pub enum Consistency {
    One,
    Quorum,
    All,
}

/// Wire form of a `Consistency` value.
pub open spec fn consistency_str(v: Consistency) -> Seq<char> {
    match v {
        Consistency::One => "one"@,
        Consistency::Quorum => "quorum"@,
        Consistency::All => "all"@,
    }
}

impl Consistency {
    /// The lowercase wire literal for this variant.
    pub fn to_string(&self) -> (r: String)
        ensures
            r@ == consistency_str(*self),
    {
        match self {
            Consistency::One => String::from_str("one"),
            Consistency::Quorum => String::from_str("quorum"),
            Consistency::All => String::from_str("all"),
        }
    }
}

/// Whether an index operation may overwrite (`index`) or must create
/// (`create`).
#[derive(Debug, Clone, Copy, PartialEq, Eq)]
pub enum OpType {
    Index,
    Create,
}

/// Wire form of an `OpType` value.
pub open spec fn op_type_str(v: OpType) -> Seq<char> {
    match v {
        OpType::Index => "index"@,
        OpType::Create => "create"@,
    }
}

impl OpType {
    /// The lowercase wire literal for this variant.
    pub fn to_string(&self) -> (r: String)
        ensures
            r@ == op_type_str(*self),
    {
        match self {
            OpType::Index => String::from_str("index"),
            OpType::Create => String::from_str("create"),
        }
    }
}

/// Versioning discipline applied to a document write.
#[derive(Debug, Clone, Copy, PartialEq, Eq)]
pub enum VersionType {
    Internal,
    External,
    ExternalGte,
    Force,
}

/// Wire form of a `VersionType` value, lowercase snake case.
pub open spec fn version_type_str(v: VersionType) -> Seq<char> {
    match v {
        VersionType::Internal => "internal"@,
        VersionType::External => "external"@,
        VersionType::ExternalGte => "external_gte"@,
        VersionType::Force => "force"@,
    }
}

impl VersionType {
    /// The lowercase snake-case wire literal for this variant.
    pub fn to_string(&self) -> (r: String)
        ensures
            r@ == version_type_str(*self),
    {
        match self {
            VersionType::Internal => String::from_str("internal"),
            VersionType::External => String::from_str("external"),
            VersionType::ExternalGte => String::from_str("external_gte"),
            VersionType::Force => String::from_str("force"),
        }
    }
}

/// The error of the duration-literal parser: the literal does not match
/// the grammar `digits [unit]`, or its value does not fit.
#[derive(Debug, Clone, Copy, PartialEq, Eq)]
pub enum ParseTimeoutError {
    Invalid,
}

impl ParseTimeoutError {
    /// A short description of the error.
    pub fn description(&self) -> (r: &'static str)
        ensures
            r@ == "invalid format"@,
    {
        "invalid format"
    }
}

/// A millisecond-precision duration, constructed by parsing a literal of
/// the grammar `digits [unit]`; it serializes as unit-less decimal
/// milliseconds.
#[derive(Debug, Clone, Copy, PartialEq, Eq)]
pub struct Timeout(pub u64);

/// Whether a character is a decimal digit.
pub open spec fn is_dec_digit(c: char) -> bool {
    '0' <= c && c <= '9'
}

/// Numeric value of a decimal digit character.
pub open spec fn digit_val(c: char) -> nat {
    (c as u32 - '0' as u32) as nat
}

/// Numeric value of a sequence of decimal digit characters, most
/// significant first.
pub open spec fn digits_val(s: Seq<char>) -> nat
    decreases s.len(),
{
    if s.len() == 0 {
        0
    } else {
        digits_val(s.drop_last()) * 10 + digit_val(s.last())
    }
}

/// Length of the longest prefix of decimal digit characters.
pub open spec fn digit_prefix_len(s: Seq<char>) -> nat
    decreases s.len(),
{
    if s.len() > 0 && is_dec_digit(s[0]) {
        1 + digit_prefix_len(s.drop_first())
    } else {
        0
    }
}

/// Millisecond multiplier of a unit suffix; the empty suffix means the
/// digits are already milliseconds.
pub open spec fn unit_millis(u: Seq<char>) -> Option<nat> {
    if u.len() == 0 {
        Some(1nat)
    } else if u == seq!['m', 's'] {
        Some(1nat)
    } else if u == seq!['s'] {
        Some(1000nat)
    } else if u == seq!['m'] {
        Some(60000nat)
    } else if u == seq!['H'] || u == seq!['h'] {
        Some(3600000nat)
    } else if u == seq!['d'] {
        Some(86400000nat)
    } else if u == seq!['w'] {
        Some(604800000nat)
    } else {
        Option::None
    }
}

/// Whether a literal matches the duration grammar `digits [unit]`.
pub open spec fn timeout_grammar_ok(s: Seq<char>) -> bool {
    &&& digit_prefix_len(s) >= 1
    &&& unit_millis(s.skip(digit_prefix_len(s) as int)) is Some
}

/// The millisecond value of a duration literal that matches the grammar.
pub open spec fn timeout_value(s: Seq<char>) -> nat {
    digits_val(s.take(digit_prefix_len(s) as int)) * (match unit_millis(
        s.skip(digit_prefix_len(s) as int),
    ) {
        Some(m) => m,
        Option::None => 0,
    })
}

proof fn lemma_digit_prefix_len_is(s: Seq<char>, k: nat)
    requires
        k <= s.len(),
        forall|j: int| 0 <= j < k ==> is_dec_digit(s[j]),
        k < s.len() ==> !is_dec_digit(s[k as int]),
    ensures
        digit_prefix_len(s) == k,
    decreases s.len(),
{
    if k == 0 {
    } else {
        assert(is_dec_digit(s[0]));
        lemma_digit_prefix_len_is(s.drop_first(), (k - 1) as nat);
    }
}

proof fn lemma_digits_val_mono(s: Seq<char>, i: nat, k: nat)
    requires
        i <= k <= s.len(),
    ensures
        digits_val(s.take(i as int)) <= digits_val(s.take(k as int)),
    decreases k - i,
{
    if i < k {
        lemma_digits_val_mono(s, i, (k - 1) as nat);
        assert(s.take(k as int).drop_last() =~= s.take(k - 1));
        assert(digits_val(s.take(k as int)) == digits_val(s.take(k - 1)) * 10 + digit_val(
            s.take(k as int).last(),
        ));
        assert(digits_val(s.take(k - 1)) * 10 >= digits_val(s.take(k - 1)));
    }
}

proof fn lemma_digit_prefix_len_le(s: Seq<char>)
    ensures
        digit_prefix_len(s) <= s.len(),
    decreases s.len(),
{
    if s.len() > 0 && is_dec_digit(s[0]) {
        lemma_digit_prefix_len_le(s.drop_first());
    }
}

proof fn lemma_mul_within(a: nat, m: nat, limit: nat)
    requires
        m >= 1,
        a <= limit / m,
    ensures
        a * m <= limit,
{
    let q = limit / m;
    let r = limit % m;
    vstd::arithmetic::div_mod::lemma_fundamental_div_mod(limit as int, m as int);
    assert(a * m <= limit) by (nonlinear_arith)
        requires
            a <= q,
            limit == m * q + r,
            r >= 0,
    ;
}

proof fn lemma_mul_beyond(a: nat, m: nat, limit: nat)
    requires
        m >= 1,
        a > limit / m,
    ensures
        a * m > limit,
{
    let q = limit / m;
    let r = limit % m;
    vstd::arithmetic::div_mod::lemma_fundamental_div_mod(limit as int, m as int);
    assert(a * m > limit) by (nonlinear_arith)
        requires
            a > q,
            limit == m * q + r,
            0 <= r < m,
    ;
}

proof fn lemma_unit_single(c: char)
    ensures
        unit_millis(seq![c]) == (if c == 's' {
            Some(1000nat)
        } else if c == 'm' {
            Some(60000nat)
        } else if c == 'H' || c == 'h' {
            Some(3600000nat)
        } else if c == 'd' {
            Some(86400000nat)
        } else if c == 'w' {
            Some(604800000nat)
        } else {
            Option::<nat>::None
        }),
{
    let u = seq![c];
    assert(u.len() == 1);
    assert(u[0] == c);
    assert(seq!['m', 's'].len() == 2);
    assert(seq!['s'][0] == 's');
    assert(seq!['m'][0] == 'm');
    assert(seq!['H'][0] == 'H');
    assert(seq!['h'][0] == 'h');
    assert(seq!['d'][0] == 'd');
    assert(seq!['w'][0] == 'w');
    assert(u == seq!['s'] <==> c == 's') by {
        if c == 's' {
            assert(u =~= seq!['s']);
        }
    }
    assert(u == seq!['m'] <==> c == 'm') by {
        if c == 'm' {
            assert(u =~= seq!['m']);
        }
    }
    assert(u == seq!['H'] <==> c == 'H') by {
        if c == 'H' {
            assert(u =~= seq!['H']);
        }
    }
    assert(u == seq!['h'] <==> c == 'h') by {
        if c == 'h' {
            assert(u =~= seq!['h']);
        }
    }
    assert(u == seq!['d'] <==> c == 'd') by {
        if c == 'd' {
            assert(u =~= seq!['d']);
        }
    }
    assert(u == seq!['w'] <==> c == 'w') by {
        if c == 'w' {
            assert(u =~= seq!['w']);
        }
    }
}

proof fn lemma_unit_double(c0: char, c1: char)
    ensures
        unit_millis(seq![c0, c1]) == (if c0 == 'm' && c1 == 's' {
            Some(1nat)
        } else {
            Option::<nat>::None
        }),
{
    let u = seq![c0, c1];
    assert(u.len() == 2);
    assert(u[0] == c0 && u[1] == c1);
    assert(seq!['m', 's'][0] == 'm' && seq!['m', 's'][1] == 's');
    assert(seq!['s'].len() == 1);
    assert(seq!['m'].len() == 1);
    assert(seq!['H'].len() == 1);
    assert(seq!['h'].len() == 1);
    assert(seq!['d'].len() == 1);
    assert(seq!['w'].len() == 1);
    assert(u == seq!['m', 's'] <==> (c0 == 'm' && c1 == 's')) by {
        if c0 == 'm' && c1 == 's' {
            assert(u =~= seq!['m', 's']);
        }
    }
}

proof fn lemma_unit_overlong(u: Seq<char>)
    requires
        u.len() >= 3,
    ensures
        unit_millis(u) is None,
{
    assert(seq!['m', 's'].len() == 2);
    assert(seq!['s'].len() == 1);
    assert(seq!['m'].len() == 1);
    assert(seq!['H'].len() == 1);
    assert(seq!['h'].len() == 1);
    assert(seq!['d'].len() == 1);
    assert(seq!['w'].len() == 1);
}

impl Timeout {
    /// Parse a duration literal of the grammar `digits [unit]`, with unit
    /// one of `ms`, `s`, `m`, `h`, `H`, `d`, `w`; an absent unit means the
    /// digits are already milliseconds. Returns the error exactly when the
    /// literal does not match the grammar or its millisecond value does
    /// not fit in 64 bits.
    pub fn parse_from_str(s: &str) -> (r: Result<Timeout, ParseTimeoutError>)
        ensures
            r is Ok <==> timeout_grammar_ok(s@) && timeout_value(s@) <= u64::MAX,
            r is Ok ==> r->Ok_0.0 as nat == timeout_value(s@),
            r is Err ==> r->Err_0 == ParseTimeoutError::Invalid,
    {
        let n = s.unicode_len();
        let mut i: usize = 0;
        let mut acc: u64 = 0;
        while i < n
            invariant
                i <= n,
                n == s@.len(),
                forall|j: int| 0 <= j < i ==> is_dec_digit(s@[j]),
                acc as nat == digits_val(s@.take(i as int)),
            ensures
                i <= n,
                n == s@.len(),
                forall|j: int| 0 <= j < i ==> is_dec_digit(s@[j]),
                acc as nat == digits_val(s@.take(i as int)),
                i < n ==> !is_dec_digit(s@[i as int]),
            decreases n - i,
        {
            let c = s.get_char(i);
            if !('0' <= c && c <= '9') {
                break;
            }
            let d: u64 = (c as u32 - '0' as u32) as u64;
            if acc > (u64::MAX - d) / 10 {
                // The digits alone already exceed the representable range;
                // with a multiplier of at least one the value cannot fit.
                proof {
                    let ghost k = digit_prefix_len(s@);
                    assert(s@.take(i + 1).drop_last() =~= s@.take(i as int));
                    assert(s@.take(i + 1).last() == s@[i as int]);
                    assert(digits_val(s@.take(i + 1)) == acc as nat * 10 + digit_val(s@[i as int]));
                    let ghost q = (u64::MAX - d) / 10;
                    vstd::arithmetic::div_mod::lemma_fundamental_div_mod(
                        (u64::MAX - d) as int,
                        10,
                    );
                    assert(acc as nat * 10 + d as nat > u64::MAX);
                    // The scanned digits extend to the full digit prefix.
                    assert(forall|j: int| 0 <= j <= i ==> is_dec_digit(s@[j]));
                    lemma_digit_prefix_front(s@, (i + 1) as nat);
                    lemma_digit_prefix_len_le(s@);
                    lemma_digits_val_mono(s@, (i + 1) as nat, k);
                    if timeout_grammar_ok(s@) {
                        let ghost m = match unit_millis(s@.skip(k as int)) {
                            Some(m) => m,
                            Option::None => 0nat,
                        };
                        assert(m >= 1);
                        vstd::arithmetic::mul::lemma_mul_inequality(
                            1,
                            m as int,
                            digits_val(s@.take(k as int)) as int,
                        );
                        vstd::arithmetic::mul::lemma_mul_is_commutative(
                            m as int,
                            digits_val(s@.take(k as int)) as int,
                        );
                        assert(timeout_value(s@) > u64::MAX);
                    }
                }
                return Err(ParseTimeoutError::Invalid);
            }
            acc = acc * 10 + d;
            proof {
                assert(s@.take(i + 1).drop_last() =~= s@.take(i as int));
                assert(s@.take(i + 1).last() == s@[i as int]);
            }
            i = i + 1;
        }
        let k = i;
        proof {
            lemma_digit_prefix_len_is(s@, k as nat);
        }
        if k == 0 {
            return Err(ParseTimeoutError::Invalid);
        }
        let rem = n - k;
        let mult: u64 = if rem == 0 {
            proof {
                assert(s@.skip(k as int) =~= Seq::<char>::empty());
            }
            1
        } else if rem == 1 {
            let c = s.get_char(k);
            proof {
                assert(s@.skip(k as int) =~= seq![c]);
                lemma_unit_single(c);
            }
            if c == 's' {
                1000
            } else if c == 'm' {
                60000
            } else if c == 'H' || c == 'h' {
                3600000
            } else if c == 'd' {
                86400000
            } else if c == 'w' {
                604800000
            } else {
                return Err(ParseTimeoutError::Invalid);
            }
        } else if rem == 2 {
            let c0 = s.get_char(k);
            let c1 = s.get_char(k + 1);
            proof {
                assert(s@.skip(k as int) =~= seq![c0, c1]);
                lemma_unit_double(c0, c1);
            }
            if c0 == 'm' && c1 == 's' {
                1
            } else {
                return Err(ParseTimeoutError::Invalid);
            }
        } else {
            proof {
                assert(s@.skip(k as int).len() >= 3);
                lemma_unit_overlong(s@.skip(k as int));
            }
            return Err(ParseTimeoutError::Invalid);
        };
        assert(match unit_millis(s@.skip(k as int)) {
            Some(m) => m == mult as nat,
            Option::None => false,
        });
        if mult > 1 {
            let limit = u64::MAX / mult;
            if acc > limit {
                proof {
                    lemma_mul_beyond(acc as nat, mult as nat, u64::MAX as nat);
                }
                return Err(ParseTimeoutError::Invalid);
            }
            proof {
                lemma_mul_within(acc as nat, mult as nat, u64::MAX as nat);
            }
        }
        Ok(Timeout(acc * mult))
    }

    /// Unit-less decimal rendering of the duration in milliseconds.
    pub fn to_string(&self) -> (r: String)
        ensures
            r@ == dec_str(self.0 as nat),
    {
        crate::encode::u64_to_dec(self.0)
    }
}

proof fn lemma_digit_prefix_front(s: Seq<char>, k: nat)
    requires
        k <= s.len(),
        forall|j: int| 0 <= j < k ==> is_dec_digit(s[j]),
    ensures
        digit_prefix_len(s) >= k,
    decreases k,
{
    if k > 0 {
        assert(is_dec_digit(s[0]));
        lemma_digit_prefix_front(s.drop_first(), (k - 1) as nat);
    }
}

impl core::str::FromStr for Timeout {
    type Err = ParseTimeoutError;

    fn from_str(s: &str) -> Result<Timeout, ParseTimeoutError> {
        Timeout::parse_from_str(s)
    }
}

impl QueryParam for Consistency {
    open spec fn spec_name(&self) -> Seq<char> {
        "consistency"@
    }

    open spec fn spec_value(&self) -> Seq<char> {
        consistency_str(*self)
    }

    fn get_name(&self) -> (r: &'static str) {
        "consistency"
    }

    fn get_value(&self) -> (r: String) {
        self.to_string()
    }
}

impl QueryParam for ExpandWildcards {
    open spec fn spec_name(&self) -> Seq<char> {
        "expand_wildcards"@
    }

    open spec fn spec_value(&self) -> Seq<char> {
        expand_wildcards_str(*self)
    }

    fn get_name(&self) -> (r: &'static str) {
        "expand_wildcards"
    }

    fn get_value(&self) -> (r: String) {
        self.to_string()
    }
}

impl QueryParam for OpType {
    open spec fn spec_name(&self) -> Seq<char> {
        "op_type"@
    }

    open spec fn spec_value(&self) -> Seq<char> {
        op_type_str(*self)
    }

    fn get_name(&self) -> (r: &'static str) {
        "op_type"
    }

    fn get_value(&self) -> (r: String) {
        self.to_string()
    }
}

impl QueryParam for VersionType {
    open spec fn spec_name(&self) -> Seq<char> {
        "version_type"@
    }

    open spec fn spec_value(&self) -> Seq<char> {
        version_type_str(*self)
    }

    fn get_name(&self) -> (r: &'static str) {
        "version_type"
    }

    fn get_value(&self) -> (r: String) {
        self.to_string()
    }
}

impl QueryParam for Timeout {
    open spec fn spec_name(&self) -> Seq<char> {
        "timeout"@
    }

    open spec fn spec_value(&self) -> Seq<char> {
        dec_str(self.0 as nat)
    }

    fn get_name(&self) -> (r: &'static str) {
        "timeout"
    }

    fn get_value(&self) -> (r: String) {
        self.to_string()
    }
}

} // verus!
