//! Decentralized identifiers as pq-ucan reads them.
//!
//! A pq-ucan `Did` is its text and nothing more: `Did::parse` validates the
//! text and keeps it, and `method` and `base` cut pieces out of it. [`Did`]
//! here holds that text as a plain value, so that contracts can speak of
//! it, next to the pq-ucan value it stands for.

use vstd::prelude::*;

use pq_ucan::did::{Did as UcanDid, DidError};

verus! {

#[verifier::external_type_specification]
#[verifier::external_body]
pub struct ExUcanDid(UcanDid);

#[verifier::external_type_specification]
#[verifier::external_body]
pub struct ExDidError(DidError);

/// `/`, `?` and `#` end the `did:method:id` part of a DID URL.
pub open spec fn is_url_delimiter(c: char) -> bool {
    c == '/' || c == '?' || c == '#'
}

/// `i` is the index of the first URL delimiter in `s`, or `s.len()` when
/// there is none.
pub open spec fn first_delimiter_at(s: Seq<char>, i: int) -> bool {
    &&& 0 <= i <= s.len()
    &&& forall|j: int| 0 <= j < i ==> !is_url_delimiter(#[trigger] s[j])
    &&& i < s.len() ==> is_url_delimiter(s[i])
}

/// The index of the first URL delimiter in `s`, or `s.len()`.
pub open spec fn first_delimiter(s: Seq<char>) -> int {
    choose|i: int| first_delimiter_at(s, i)
}

/// `i` is the index of the first `:` in `s`, or `s.len()` when there is none.
pub open spec fn first_colon_at(s: Seq<char>, i: int) -> bool {
    &&& 0 <= i <= s.len()
    &&& forall|j: int| 0 <= j < i ==> #[trigger] s[j] != ':'
    &&& i < s.len() ==> s[i] == ':'
}

/// The index of the first `:` in `s`, or `s.len()`.
pub open spec fn first_colon(s: Seq<char>) -> int {
    choose|i: int| first_colon_at(s, i)
}

pub proof fn lemma_first_delimiter(s: Seq<char>, i: int)
    requires
        first_delimiter_at(s, i),
    ensures
        first_delimiter(s) == i,
{
    let k: int = first_delimiter(s);
    assert(first_delimiter_at(s, k));
    if k < i {
        assert(!is_url_delimiter(s[k]));
    } else if i < k {
        assert(!is_url_delimiter(s[i]));
    }
}

pub proof fn lemma_first_colon(s: Seq<char>, i: int)
    requires
        first_colon_at(s, i),
    ensures
        first_colon(s) == i,
{
    let k: int = first_colon(s);
    assert(first_colon_at(s, k));
    if k < i {
        assert(s[k] != ':');
    } else if i < k {
        assert(s[i] != ':');
    }
}

/// `did:`
pub open spec fn did_scheme() -> Seq<char> {
    seq!['d', 'i', 'd', ':']
}

pub open spec fn is_ascii_digit(c: char) -> bool {
    '0' <= c && c <= '9'
}

pub open spec fn is_ascii_lower(c: char) -> bool {
    'a' <= c && c <= 'z'
}

pub open spec fn is_ascii_upper(c: char) -> bool {
    'A' <= c && c <= 'Z'
}

pub open spec fn is_ascii_hex(c: char) -> bool {
    is_ascii_digit(c) || ('a' <= c && c <= 'f') || ('A' <= c && c <= 'F')
}

/// A method name: non-empty, lowercase letters and digits.
pub open spec fn method_name_ok(m: Seq<char>) -> bool {
    &&& m.len() > 0
    &&& forall|i: int| 0 <= i < m.len() ==> is_ascii_lower(#[trigger] m[i]) || is_ascii_digit(m[i])
}

/// A character allowed in a method-specific identifier.
pub open spec fn is_id_char(c: char) -> bool {
    is_ascii_lower(c) || is_ascii_upper(c) || is_ascii_digit(c) || c == '.' || c == '-' || c
        == '_' || c == ':' || c == '%'
}

/// A method-specific identifier: non-empty, not ending in `:`, made of
/// identifier characters, with every `%` followed by two hex digits.
pub open spec fn method_id_ok(id: Seq<char>) -> bool {
    &&& id.len() > 0
    &&& id.last() != ':'
    &&& forall|i: int| 0 <= i < id.len() ==> is_id_char(#[trigger] id[i])
    &&& forall|i: int|
        0 <= i < id.len() && #[trigger] id[i] == '%' ==> i + 2 < id.len() && is_ascii_hex(id[i + 1])
            && is_ascii_hex(id[i + 2])
}

/// The texts that pq-ucan's `Did::parse` accepts: `did:`, a method name, `:`,
/// and a method-specific identifier that runs to the first URL delimiter;
/// whatever follows the delimiter (path, query, fragment) is kept unchecked.
pub open spec fn did_syntax_ok(t: Seq<char>) -> bool {
    &&& t.len() >= 4
    &&& t.take(4) == did_scheme()
    &&& {
        let rest = t.skip(4);
        let c: int = first_colon(rest);
        &&& c < rest.len()
        &&& method_name_ok(rest.take(c))
        &&& {
            let tail = rest.skip(c + 1);
            method_id_ok(tail.take(first_delimiter(tail)))
        }
    }
}

/// `did:method:id` with any path, query and fragment removed.
pub open spec fn did_base(t: Seq<char>) -> Seq<char> {
    t.take(first_delimiter(t))
}

/// The method name, `key` in `did:key:z...`: what lies between the scheme
/// and the next `:` of the base, or nothing when the base is shorter than
/// the scheme.
pub open spec fn did_method(t: Seq<char>) -> Seq<char> {
    let b = did_base(t);
    if b.len() < 4 {
        Seq::empty()
    } else {
        let r = b.skip(4);
        r.take(first_colon(r))
    }
}

/// `Did::parse` of pq-ucan. It accepts the texts that `did_syntax_ok`
/// describes (`did:`, a lowercase alphanumeric method, `:`, an identifier
/// of letters, digits, `.-_:` and `%XX` escapes, not ending in `:`, up to
/// the first `/`, `?` or `#`) and refuses every other.
#[verifier::external_body]
fn ucan_did_parse(text: &str) -> (r: Result<UcanDid, DidError>)
    ensures
        r is Ok <==> did_syntax_ok(text@),
{
    UcanDid::parse(text)
}

/// `Did::as_str` of pq-ucan, copied. A pq-ucan `Did` is built only by
/// `Did::parse` or by `Did::from_key` (`did:key:z` and base58btc), so its
/// text is one that `Did::parse` accepts.
#[verifier::external_body]
fn ucan_did_text(did: &UcanDid) -> (r: String)
    ensures
        did_syntax_ok(r@),
{
    did.as_str().to_owned()
}

/// `Clone` of pq-ucan's `Did`. Nothing is stated of the copy.
#[verifier::external_body]
fn ucan_did_clone(did: &UcanDid) -> UcanDid {
    did.clone()
}

/// A syntactically valid DID: its text, and the pq-ucan `Did` parsed from it.
#[derive(Debug)]
pub struct Did {
    text: String,
    ucan: UcanDid,
}

impl View for Did {
    type V = Seq<char>;

    closed spec fn view(&self) -> Seq<char> {
        self.text@
    }
}

impl Clone for Did {
    fn clone(&self) -> (r: Self)
        ensures
            r@ == self@,
    {
        proof {
            use_type_invariant(self);
        }
        Did { text: self.text.clone(), ucan: ucan_did_clone(&self.ucan) }
    }
}

impl Did {
    #[verifier::type_invariant]
    spec fn inv(self) -> bool {
        did_syntax_ok(self.text@)
    }

    /// Parse a DID string; `None` where pq-ucan's `Did::parse` refuses it.
    pub fn parse(text: &str) -> (r: Option<Did>)
        ensures
            r is Some <==> did_syntax_ok(text@),
            r matches Some(d) ==> d@ == text@,
    {
        match ucan_did_parse(text) {
            Ok(ucan) => Some(Did { text: text.to_owned(), ucan }),
            Err(_) => None,
        }
    }

    /// The DID for a pq-ucan `Did`, with the same text.
    pub fn from_ucan(did: &UcanDid) -> (r: Did) {
        let text = ucan_did_text(did);
        Did { text, ucan: ucan_did_clone(did) }
    }

    /// The pq-ucan `Did` this stands for.
    pub fn to_ucan(&self) -> UcanDid {
        ucan_did_clone(&self.ucan)
    }

    /// The full string.
    pub fn as_str(&self) -> (r: &str)
        ensures
            r@ == self@,
    {
        self.text.as_str()
    }

    /// `did:method:id`, with any path, query and fragment removed.
    pub fn base(&self) -> (r: &str)
        ensures
            r@ == did_base(self@),
    {
        let s = self.text.as_str();
        let n: usize = s.unicode_len();
        let mut i: usize = 0;
        while i < n
            invariant
                0 <= i <= n,
                n == s@.len(),
                s@ == self@,
                forall|j: int| 0 <= j < i ==> !is_url_delimiter(#[trigger] s@[j]),
            decreases n - i,
        {
            let c = s.get_char(i);
            if c == '/' || c == '?' || c == '#' {
                proof {
                    lemma_first_delimiter(s@, i as int);
                    assert(s@.take(i as int) =~= s@.subrange(0, i as int));
                }
                return s.substring_char(0, i);
            }
            i = i + 1;
        }
        proof {
            lemma_first_delimiter(s@, n as int);
            assert(s@.take(n as int) =~= s@.subrange(0, n as int));
        }
        s.substring_char(0, n)
    }

    /// The method name, `key` in `did:key:z...`.
    pub fn method(&self) -> (r: &str)
        ensures
            r@ == did_method(self@),
    {
        let b = self.base();
        let n: usize = b.unicode_len();
        if n < 4 {
            proof {
                reveal_strlit("");
                assert(""@ =~= Seq::<char>::empty());
            }
            return "";
        }
        let ghost r = b@.skip(4);
        let mut j: usize = 4;
        while j < n
            invariant
                4 <= j <= n,
                n == b@.len(),
                b@ == did_base(self@),
                r == b@.skip(4),
                forall|k: int| 0 <= k < j - 4 ==> #[trigger] r[k] != ':',
            decreases n - j,
        {
            if b.get_char(j) == ':' {
                proof {
                    assert(r[j - 4] == b@[j as int]);
                    lemma_first_colon(r, j - 4);
                    assert(r.take(j - 4) =~= b@.subrange(4, j as int));
                }
                return b.substring_char(4, j);
            }
            j = j + 1;
        }
        proof {
            lemma_first_colon(r, j - 4);
            assert(r.take(j - 4) =~= b@.subrange(4, j as int));
        }
        b.substring_char(4, j)
    }
}

} // verus!
