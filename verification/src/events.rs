//! Structured log events. One request event is built when a request arrives,
//! one response event when its response is ready. The request event carries a
//! header summary in which sensitive values are masked, non-text-safe values
//! are replaced by a placeholder, and the correlation header is excluded (it
//! is reported as its own field).

use vstd::prelude::*;
use vstd::string::StrSliceExecFns;
use vstd::string::StringExecFns;
use crate::correlation::{
    included, included_headers, is_correlation_header, lemma_included_push, CorrelationId,
};
use crate::headers::{HeaderEntry, HeaderModel, models_of};
use crate::sensitive::{name_is_sensitive, SensitiveNameSet};
use crate::text::{ascii_chars, is_text_safe, render_text, text_safe};

verus! {

/// The fixed mask that replaces every sensitive header value.
pub open spec fn mask() -> Seq<char> {
    "******"@
}

/// The placeholder shown for a header value that is not text safe.
pub open spec fn non_text_placeholder() -> Seq<char> {
    "<non-utf8>"@
}

/// The delimiter between two summary lines.
pub open spec fn separator() -> Seq<char> {
    "; "@
}

/// How one header value is shown in the summary: masked when sensitive,
/// verbatim when text safe, and as a placeholder otherwise.
pub open spec fn rendered_value(value: Seq<u8>, sensitive: bool) -> Seq<char> {
    if sensitive {
        mask()
    } else if is_text_safe(value) {
        ascii_chars(value)
    } else {
        non_text_placeholder()
    }
}

/// One line of the summary: the header name, a colon and a space, and the
/// rendered value.
pub open spec fn summary_line(e: HeaderModel, names: Seq<Seq<char>>) -> Seq<char> {
    e.name + ": "@ + rendered_value(e.value, name_is_sensitive(names, e.name))
}

/// The summary lines of a request: one per header in received order, the
/// correlation header excluded.
pub open spec fn summary_lines(entries: Seq<HeaderModel>, names: Seq<Seq<char>>) -> Seq<
    Seq<char>,
> {
    included_headers(entries).map_values(|e: HeaderModel| summary_line(e, names))
}

/// The lines joined by the delimiter.
pub open spec fn join_lines(lines: Seq<Seq<char>>) -> Seq<char>
    decreases lines.len(),
{
    if lines.len() == 0 {
        Seq::empty()
    } else if lines.len() == 1 {
        lines[0]
    } else {
        join_lines(lines.drop_last()) + separator() + lines.last()
    }
}

/// The whole header summary of a request.
pub open spec fn spec_header_summary(entries: Seq<HeaderModel>, names: Seq<Seq<char>>) -> Seq<
    char,
> {
    join_lines(summary_lines(entries, names))
}

/// There are no summary lines without headers.
proof fn lemma_summary_lines_empty(names: Seq<Seq<char>>)
    ensures
        summary_lines(Seq::empty(), names) =~= Seq::<Seq<char>>::empty(),
{
    reveal(Seq::filter);
}

/// Appending one header appends its line when the header is included and
/// changes nothing otherwise.
proof fn lemma_summary_lines_push(entries: Seq<HeaderModel>, names: Seq<Seq<char>>, x: HeaderModel)
    ensures
        summary_lines(entries.push(x), names) == if included(x) {
            summary_lines(entries, names).push(summary_line(x, names))
        } else {
            summary_lines(entries, names)
        },
{
    lemma_included_push(entries, x);
    if included(x) {
        included_headers(entries).lemma_push_map_commute(
            |e: HeaderModel| summary_line(e, names),
            x,
        );
    }
}

/// Joining after appending one line appends the delimiter and the line, or is
/// the line itself when it is the first.
proof fn lemma_join_push(lines: Seq<Seq<char>>, x: Seq<char>)
    ensures
        join_lines(lines.push(x)) == if lines.len() == 0 {
            x
        } else {
            join_lines(lines) + separator() + x
        },
{
    assert(lines.push(x).drop_last() =~= lines);
    assert(lines.push(x).last() == x);
}

/// Builds the header summary of a request: every header in received order but
/// the correlation one, as "name: value" lines joined by "; ", sensitive
/// values masked and non-text-safe values replaced by a placeholder.
pub fn header_summary(headers: &Vec<HeaderEntry>, set: &SensitiveNameSet) -> (r: String)
    ensures
        r@ == spec_header_summary(models_of(headers@), set@),
{
    let ghost m = models_of(headers@);
    let mut out = String::new();
    let mut any = false;
    let mut i: usize = 0;
    proof {
        assert(m.take(0) =~= Seq::<HeaderModel>::empty());
        lemma_summary_lines_empty(set@);
    }
    while i < headers.len()
        invariant
            0 <= i <= headers@.len(),
            m == models_of(headers@),
            m.len() == headers@.len(),
            any == (summary_lines(m.take(i as int), set@).len() > 0),
            out@ == join_lines(summary_lines(m.take(i as int), set@)),
        decreases headers@.len() - i,
    {
        let e = &headers[i];
        proof {
            assert(m.take(i as int + 1) =~= m.take(i as int).push(m[i as int]));
            assert(m[i as int] == e@);
            lemma_summary_lines_push(m.take(i as int), set@, m[i as int]);
        }
        if !is_correlation_header(e.name.as_str()) {
            proof {
                lemma_join_push(
                    summary_lines(m.take(i as int), set@),
                    summary_line(m[i as int], set@),
                );
            }
            if any {
                out.append("; ");
            }
            out.append(e.name.as_str());
            out.append(": ");
            if set.is_sensitive(e.name.as_str()) {
                out.append("******");
            } else if text_safe(&e.value) {
                let rendered = render_text(&e.value);
                out.append(rendered.as_str());
            } else {
                out.append("<non-utf8>");
            }
            any = true;
            proof {
                assert(out@ =~= join_lines(summary_lines(m.take(i as int + 1), set@)));
            }
        }
        i = i + 1;
    }
    proof {
        assert(m.take(m.len() as int) =~= m);
    }
    out
}

/// The structured record emitted when a request arrives, before dispatch.
pub struct RequestEvent {
    pub message: String,
    pub correlation_id: String,
    pub method: String,
    pub uri: String,
    pub header_summary: String,
}

/// The mathematical model of a request event.
pub struct RequestEventModel {
    pub message: Seq<char>,
    pub correlation_id: Seq<char>,
    pub method: Seq<char>,
    pub uri: Seq<char>,
    pub header_summary: Seq<char>,
}

impl View for RequestEvent {
    type V = RequestEventModel;

    open spec fn view(&self) -> RequestEventModel {
        RequestEventModel {
            message: self.message@,
            correlation_id: self.correlation_id@,
            method: self.method@,
            uri: self.uri@,
            header_summary: self.header_summary@,
        }
    }
}

/// The structured record emitted when a response is ready, after the handler.
pub struct ResponseEvent {
    pub message: String,
    pub correlation_id: String,
    pub status: u16,
    pub latency_micros: u64,
}

/// The mathematical model of a response event.
pub struct ResponseEventModel {
    pub message: Seq<char>,
    pub correlation_id: Seq<char>,
    pub status: u16,
    pub latency_micros: u64,
}

impl View for ResponseEvent {
    type V = ResponseEventModel;

    open spec fn view(&self) -> ResponseEventModel {
        ResponseEventModel {
            message: self.message@,
            correlation_id: self.correlation_id@,
            status: self.status,
            latency_micros: self.latency_micros,
        }
    }
}

/// The one request event of an exchange, as a function of the request, the
/// sensitive names and the assigned id.
pub open spec fn spec_request_event(
    method: Seq<char>,
    uri: Seq<char>,
    entries: Seq<HeaderModel>,
    names: Seq<Seq<char>>,
    id: Seq<char>,
) -> RequestEventModel {
    RequestEventModel {
        message: "Request initiated"@,
        correlation_id: id,
        method: method,
        uri: uri,
        header_summary: spec_header_summary(entries, names),
    }
}

/// The one response event of an exchange, as a function of the assigned id,
/// the status code and the measured latency.
pub open spec fn spec_response_event(id: Seq<char>, status: u16, latency_micros: u64) -> ResponseEventModel {
    ResponseEventModel {
        message: "Request processed"@,
        correlation_id: id,
        status: status,
        latency_micros: latency_micros,
    }
}

/// Builds the request event for one inbound request.
pub fn build_request_event(
    method: &str,
    uri: &str,
    headers: &Vec<HeaderEntry>,
    set: &SensitiveNameSet,
    id: &CorrelationId,
) -> (ev: RequestEvent)
    ensures
        ev@ == spec_request_event(method@, uri@, models_of(headers@), set@, id@),
{
    RequestEvent {
        message: String::from_str("Request initiated"),
        correlation_id: String::from_str(id.as_str()),
        method: String::from_str(method),
        uri: String::from_str(uri),
        header_summary: header_summary(headers, set),
    }
}

/// Builds the response event for one completed exchange.
pub fn build_response_event(id: &CorrelationId, status: u16, latency_micros: u64) -> (ev:
    ResponseEvent)
    ensures
        ev@ == spec_response_event(id@, status, latency_micros),
{
    ResponseEvent {
        message: String::from_str("Request processed"),
        correlation_id: String::from_str(id.as_str()),
        status,
        latency_micros,
    }
}

/// A sensitive header contributes its name and the mask to the summary,
/// whatever its value holds.
pub proof fn lemma_sensitive_line_masked(e: HeaderModel, names: Seq<Seq<char>>)
    requires
        name_is_sensitive(names, e.name),
    ensures
        summary_line(e, names) == e.name + ": "@ + mask(),
{
}

/// The summary lines never depend on the values of sensitive headers: two
/// header lists that agree on every name and on every non-sensitive value
/// have equal lines.
proof fn lemma_lines_ignore_sensitive_values(
    a: Seq<HeaderModel>,
    b: Seq<HeaderModel>,
    names: Seq<Seq<char>>,
)
    requires
        a.len() == b.len(),
        forall|i: int| 0 <= i < a.len() ==> (#[trigger] a[i]).name == b[i].name,
        forall|i: int|
            0 <= i < a.len() && !name_is_sensitive(names, a[i].name) ==> (#[trigger] a[i]).value
                == b[i].value,
    ensures
        summary_lines(a, names) == summary_lines(b, names),
    decreases a.len(),
{
    if a.len() == 0 {
        lemma_summary_lines_empty(names);
        assert(a =~= Seq::<HeaderModel>::empty());
        assert(b =~= Seq::<HeaderModel>::empty());
    } else {
        let a1 = a.drop_last();
        let b1 = b.drop_last();
        assert forall|i: int| 0 <= i < a1.len() implies (#[trigger] a1[i]).name == b1[i].name by {
            assert(a1[i] == a[i]);
        }
        assert forall|i: int|
            0 <= i < a1.len() && !name_is_sensitive(names, a1[i].name) implies (
        #[trigger] a1[i]).value == b1[i].value by {
            assert(a1[i] == a[i]);
        }
        lemma_lines_ignore_sensitive_values(a1, b1, names);
        let x = a.last();
        let y = b.last();
        assert(x.name == y.name);
        assert(a =~= a1.push(x));
        assert(b =~= b1.push(y));
        lemma_summary_lines_push(a1, names, x);
        lemma_summary_lines_push(b1, names, y);
        if !name_is_sensitive(names, x.name) {
            assert(x.value == y.value);
        }
    }
}

/// No sensitive header value ever reaches the summary: the whole summary is
/// the same whatever the values of the sensitive headers are, so only the
/// mask, never the raw value, is shown for them.
pub proof fn lemma_summary_ignores_sensitive_values(
    a: Seq<HeaderModel>,
    b: Seq<HeaderModel>,
    names: Seq<Seq<char>>,
)
    requires
        a.len() == b.len(),
        forall|i: int| 0 <= i < a.len() ==> (#[trigger] a[i]).name == b[i].name,
        forall|i: int|
            0 <= i < a.len() && !name_is_sensitive(names, a[i].name) ==> (#[trigger] a[i]).value
                == b[i].value,
    ensures
        spec_header_summary(a, names) == spec_header_summary(b, names),
{
    lemma_lines_ignore_sensitive_values(a, b, names);
}

/// Removing a correlation header leaves the kept headers unchanged.
proof fn lemma_included_remove(entries: Seq<HeaderModel>, i: int)
    requires
        0 <= i < entries.len(),
        !included(entries[i]),
    ensures
        included_headers(entries.remove(i)) == included_headers(entries),
    decreases entries.len(),
{
    reveal(Seq::filter);
    if i == entries.len() - 1 {
        assert(entries.remove(i) =~= entries.drop_last());
    } else {
        assert(entries.remove(i).drop_last() =~= entries.drop_last().remove(i));
        assert(entries.drop_last()[i] == entries[i]);
        lemma_included_remove(entries.drop_last(), i);
        assert(entries.remove(i).last() == entries.last());
    }
}

/// The correlation header never appears inside the summary: removing it from
/// the request changes nothing in the summary, which therefore holds neither
/// its name nor its value.
pub proof fn lemma_correlation_header_not_in_summary(
    entries: Seq<HeaderModel>,
    names: Seq<Seq<char>>,
    i: int,
)
    requires
        0 <= i < entries.len(),
        !included(entries[i]),
    ensures
        spec_header_summary(entries.remove(i), names) == spec_header_summary(entries, names),
{
    lemma_included_remove(entries, i);
}

} // verus!
