//! Correlation identifiers: one opaque token links every event of one
//! request-response exchange. An inbound `x-request-id` header is reused
//! verbatim when its value is text safe; otherwise (or when the header is
//! absent) a fresh random token is generated. The id is written onto the
//! response headers after the handler has run, overwriting any value the
//! handler may have set.

use vstd::prelude::*;
use vstd::string::StrSliceExecFns;
use crate::headers::{HeaderEntry, HeaderModel, models_of};
use crate::text::{
    ascii_bytes, ascii_chars, chars_text_safe, eq_ignore_case, is_text_safe, is_text_safe_char,
    lemma_text_safe_bytes_decode, lemma_text_safe_chars_encode, lower_chars, render_text,
    text_safe,
};

verus! {

/// The name of the correlation header.
pub open spec fn correlation_header_name() -> Seq<char> {
    "x-request-id"@
}

/// Whether `name` is the correlation header's name, ignoring ASCII case.
pub open spec fn is_correlation_name(name: Seq<char>) -> bool {
    lower_chars(name) == lower_chars(correlation_header_name())
}

/// Decides whether a header name is the correlation header's name.
pub fn is_correlation_header(name: &str) -> (r: bool)
    ensures
        r == is_correlation_name(name@),
{
    eq_ignore_case(name, "x-request-id")
}

/// A header entry is reported in events and kept on propagation exactly when
/// it is not the correlation header itself.
pub open spec fn included(e: HeaderModel) -> bool {
    !is_correlation_name(e.name)
}

/// The header entries that are not the correlation header, in order.
pub open spec fn included_headers(entries: Seq<HeaderModel>) -> Seq<HeaderModel> {
    entries.filter(|e: HeaderModel| included(e))
}

/// The shape of a freshly generated token: 36 lower-case hexadecimal digits
/// and hyphens.
pub open spec fn is_fresh_token_char(c: char) -> bool {
    c == '-' || ('0' <= c && c <= '9') || ('a' <= c && c <= 'f')
}

/// A freshly generated token is non-empty and text safe by shape.
pub open spec fn is_fresh_token(s: Seq<char>) -> bool {
    s.len() == 36 && forall|i: int| 0 <= i < s.len() ==> is_fresh_token_char(#[trigger] s[i])
}

/// Relies on `uuid::Uuid::new_v4` and its `Display` form: a version-4 id
/// prints as 36 characters, lower-case hexadecimal digits in five groups
/// separated by hyphens.
#[verifier::external_body]
fn random_token() -> (r: String)
    ensures
        is_fresh_token(r@),
{
    uuid::Uuid::new_v4().to_string()
}

/// The opaque token linking all events of one exchange. Immutable once
/// assigned; discarded after the response is sent.
pub struct CorrelationId {
    pub text: String,
}

impl View for CorrelationId {
    type V = Seq<char>;

    open spec fn view(&self) -> Seq<char> {
        self.text@
    }
}

impl Clone for CorrelationId {
    fn clone(&self) -> (r: Self)
        ensures
            r == *self,
    {
        CorrelationId { text: self.text.clone() }
    }
}

impl CorrelationId {
    /// Every character of the id is text safe, so the id can stand in a
    /// header value and in a log line.
    pub open spec fn wf(&self) -> bool {
        chars_text_safe(self@)
    }

    /// The id as a string slice.
    pub fn as_str(&self) -> (r: &str)
        ensures
            r@ == self@,
    {
        self.text.as_str()
    }

    /// Decides well-formedness of the id.
    pub fn text_is_safe(&self) -> (r: bool)
        ensures
            r == self.wf(),
    {
        let s = self.text.as_str();
        let len = s.unicode_len();
        let mut i: usize = 0;
        while i < len
            invariant
                0 <= i <= len,
                len == s@.len(),
                s@ == self@,
                forall|j: int| 0 <= j < i ==> is_text_safe_char(#[trigger] s@[j]),
            decreases len - i,
        {
            let c = s.get_char(i);
            let n = c as u32;
            if !(n == 9 || (32 <= n && n <= 126)) {
                assert(!is_text_safe_char(s@[i as int]));
                return false;
            }
            assert(is_text_safe_char(s@[i as int]));
            i = i + 1;
        }
        true
    }
}

/// Generates a fresh correlation id.
pub fn fresh_correlation_id() -> (r: CorrelationId)
    ensures
        r.wf(),
        is_fresh_token(r@),
{
    let text = random_token();
    let r = CorrelationId { text };
    assert forall|i: int| 0 <= i < r@.len() implies is_text_safe_char(#[trigger] r@[i]) by {
        assert(is_fresh_token_char(r@[i]));
    }
    r
}

/// What the provider assigns: the inbound value when it is present and text
/// safe, else the fresh token.
pub open spec fn spec_assigned_id(inbound: Option<Seq<u8>>, fresh: Seq<char>) -> Seq<char> {
    match inbound {
        Some(v) => if is_text_safe(v) {
            ascii_chars(v)
        } else {
            fresh
        },
        None => fresh,
    }
}

/// Assigns the id for one request, given the inbound correlation header value
/// (if any) and a fresh token to fall back on. A malformed inbound value is
/// treated as absent: unparseable bytes are never propagated.
pub fn assign_correlation_id(inbound: Option<&Vec<u8>>, fresh: CorrelationId) -> (r: CorrelationId)
    requires
        fresh.wf(),
    ensures
        r.wf(),
        r@ == spec_assigned_id(
            match inbound {
                Some(v) => Some(v@),
                None => None,
            },
            fresh@,
        ),
{
    match inbound {
        Some(v) => {
            if text_safe(v) {
                proof {
                    lemma_text_safe_bytes_decode(v@);
                }
                CorrelationId { text: render_text(v) }
            } else {
                fresh
            }
        },
        None => fresh,
    }
}

/// Assigns the id for one request, generating the fallback token. Whatever
/// token generation returns, the result is well formed; a text-safe inbound
/// value is reused exactly; in every other case the id is a fresh token.
pub fn provide_correlation_id(inbound: Option<&Vec<u8>>) -> (r: CorrelationId)
    ensures
        r.wf(),
        match inbound {
            Some(v) => if is_text_safe(v@) {
                r@ == ascii_chars(v@)
            } else {
                is_fresh_token(r@)
            },
            None => is_fresh_token(r@),
        },
{
    let fresh = fresh_correlation_id();
    assign_correlation_id(inbound, fresh)
}

/// The value of the first correlation header among `entries`, if any.
pub open spec fn inbound_correlation_value(entries: Seq<HeaderModel>) -> Option<Seq<u8>>
    decreases entries.len(),
{
    if entries.len() == 0 {
        None
    } else if is_correlation_name(entries[0].name) {
        Some(entries[0].value)
    } else {
        inbound_correlation_value(entries.drop_first())
    }
}

/// Finds the value of the first correlation header of a request.
pub fn find_correlation_value(headers: &Vec<HeaderEntry>) -> (r: Option<&Vec<u8>>)
    ensures
        match r {
            Some(v) => inbound_correlation_value(models_of(headers@)) == Some(v@),
            None => inbound_correlation_value(models_of(headers@)) is None,
        },
{
    let ghost m = models_of(headers@);
    let mut i: usize = 0;
    proof {
        assert(m.skip(0) =~= m);
    }
    while i < headers.len()
        invariant
            0 <= i <= headers@.len(),
            m == models_of(headers@),
            m.len() == headers@.len(),
            inbound_correlation_value(m) == inbound_correlation_value(m.skip(i as int)),
        decreases headers@.len() - i,
    {
        if is_correlation_header(headers[i].name.as_str()) {
            assert(m.skip(i as int)[0] == m[i as int]);
            return Some(&headers[i].value);
        }
        proof {
            assert(m.skip(i as int)[0] == m[i as int]);
            assert(m.skip(i as int).drop_first() =~= m.skip(i as int + 1));
        }
        i = i + 1;
    }
    proof {
        assert(m.skip(i as int) =~= Seq::<HeaderModel>::empty());
    }
    None
}

/// The response headers after propagation: every entry but the correlation
/// header is kept in order, and the correlation header with the assigned id
/// stands last.
pub open spec fn with_correlation_header(entries: Seq<HeaderModel>, id: Seq<char>) -> Seq<
    HeaderModel,
> {
    included_headers(entries).push(
        HeaderModel { name: correlation_header_name(), value: ascii_bytes(id) },
    )
}

/// Filtering distributes over appending one entry.
pub proof fn lemma_included_push(s: Seq<HeaderModel>, x: HeaderModel)
    ensures
        included_headers(s.push(x)) == if included(x) {
            included_headers(s).push(x)
        } else {
            included_headers(s)
        },
{
    reveal(Seq::filter);
    assert(s.push(x).drop_last() =~= s);
    assert(s.push(x).last() == x);
}

/// A header entry carrying the correlation id.
pub fn correlation_entry(id: &CorrelationId) -> (r: HeaderEntry)
    requires
        id.wf(),
    ensures
        r@ == (HeaderModel { name: correlation_header_name(), value: ascii_bytes(id@) }),
{
    let name = String::from_str("x-request-id");
    proof {
        lemma_text_safe_chars_encode(id@);
    }
    let id_str = id.as_str();
    let value = id_str.as_bytes_vec();
    proof {
        vstd::string::is_ascii_spec_bytes(id_str);
        assert(value@ =~= ascii_bytes(id@));
    }
    HeaderEntry { name, value }
}

/// Copies the id onto the response headers, overwriting any correlation
/// header the handler may have set.
pub fn propagate_correlation_id(headers: &mut Vec<HeaderEntry>, id: &CorrelationId)
    requires
        id.wf(),
    ensures
        models_of(final(headers)@) == with_correlation_header(models_of(old(headers)@), id@),
{
    let ghost m = models_of(old(headers)@);
    let mut out: Vec<HeaderEntry> = Vec::new();
    let mut i: usize = 0;
    proof {
        assert(m.take(0) =~= Seq::<HeaderModel>::empty());
        assert(models_of(out@) =~= Seq::<HeaderModel>::empty());
    }
    while i < headers.len()
        invariant
            0 <= i <= headers@.len(),
            m == models_of(headers@),
            m.len() == headers@.len(),
            models_of(out@) == included_headers(m.take(i as int)),
        decreases headers@.len() - i,
    {
        let e = &headers[i];
        proof {
            assert(m.take(i as int + 1) =~= m.take(i as int).push(m[i as int]));
            lemma_included_push(m.take(i as int), m[i as int]);
        }
        if !is_correlation_header(e.name.as_str()) {
            let c = e.clone();
            out.push(c);
            proof {
                assert(models_of(out@) =~= included_headers(m.take(i as int + 1)));
            }
        }
        i = i + 1;
    }
    proof {
        assert(m.take(i as int) =~= m);
    }
    let entry = correlation_entry(id);
    out.push(entry);
    proof {
        assert(models_of(out@) =~= with_correlation_header(m, id@));
    }
    *headers = out;
}

/// All entries of a correlation-header-free sequence are passed over by the
/// lookup, so an appended correlation header is the one found.
proof fn lemma_lookup_finds_appended(s: Seq<HeaderModel>, x: HeaderModel)
    requires
        forall|i: int| 0 <= i < s.len() ==> included(#[trigger] s[i]),
        is_correlation_name(x.name),
    ensures
        inbound_correlation_value(s.push(x)) == Some(x.value),
    decreases s.len(),
{
    if s.len() == 0 {
        assert(s.push(x)[0] == x);
    } else {
        assert(s.push(x)[0] == s[0]);
        assert(s.push(x).drop_first() =~= s.drop_first().push(x));
        lemma_lookup_finds_appended(s.drop_first(), x);
    }
}

/// Every response carries the assigned id: after propagation, the first (and
/// only) correlation header of the response holds exactly the id's bytes.
pub proof fn lemma_response_carries_correlation_id(entries: Seq<HeaderModel>, id: Seq<char>)
    ensures
        inbound_correlation_value(with_correlation_header(entries, id)) == Some(ascii_bytes(id)),
{
    let kept = included_headers(entries);
    assert forall|i: int| 0 <= i < kept.len() implies included(#[trigger] kept[i]) by {
        broadcast use vstd::seq_lib::group_filter_ensures;

    }
    lemma_lookup_finds_appended(
        kept,
        HeaderModel { name: correlation_header_name(), value: ascii_bytes(id) },
    );
}

/// A text-safe inbound id that the provider reused comes back on the response
/// byte for byte: looking the correlation header up after propagation yields
/// exactly the inbound value.
pub proof fn lemma_reused_id_round_trip(v: Seq<u8>, response: Seq<HeaderModel>)
    requires
        is_text_safe(v),
    ensures
        inbound_correlation_value(with_correlation_header(response, ascii_chars(v))) == Some(v),
{
    lemma_response_carries_correlation_id(response, ascii_chars(v));
    lemma_text_safe_bytes_decode(v);
}

/// Renders a correlation header value the way the event emitters report the
/// id: the text of a text-safe value, and the empty string otherwise.
pub fn request_id_to_string(value: &Vec<u8>) -> (r: String)
    ensures
        r@ == if is_text_safe(value@) {
            ascii_chars(value@)
        } else {
            Seq::<char>::empty()
        },
{
    if text_safe(value) {
        render_text(value)
    } else {
        String::new()
    }
}

/// Renders an optional correlation header value, absent values giving the
/// empty string.
pub fn get_request_id(value: &Option<Vec<u8>>) -> (r: String)
    ensures
        r@ == match value {
            Some(v) => if is_text_safe(v@) {
                ascii_chars(v@)
            } else {
                Seq::<char>::empty()
            },
            None => Seq::<char>::empty(),
        },
{
    match value {
        Some(v) => request_id_to_string(v),
        None => String::new(),
    }
}

} // verus!
