//! Request header metadata: an ordered, multi-valued list of name and value
//! pairs, and the rule that puts the trace context into it.
//!
//! Header names are compared without regard to the case of their letters, as
//! HTTP does.

use vstd::prelude::*;

verus! {

/// One header line.
#[derive(Debug, Clone, PartialEq, Eq)]
pub struct Header {
    pub name: String,
    pub value: String,
}

/// Header metadata in the order in which it will be sent. A name may occur
/// more than once.
#[derive(Debug, Clone, PartialEq, Eq)]
pub struct Headers {
    pub entries: Vec<Header>,
}

/// A header line as a pair of texts: its name and its value.
pub type HeaderLine = (Seq<char>, Seq<char>);

impl View for Header {
    type V = HeaderLine;

    open spec fn view(&self) -> HeaderLine {
        (self.name@, self.value@)
    }
}

impl View for Headers {
    type V = Seq<HeaderLine>;

    open spec fn view(&self) -> Seq<HeaderLine> {
        lines_of(self.entries@)
    }
}

/// The transport's header map.
#[verifier::external_type_specification]
#[verifier::external_body]
#[verifier::reject_recursive_types(T)]
pub struct ExHeaderMap<T>(hyper::HeaderMap<T>);

/// The value of one header in the transport's header map.
#[verifier::external_type_specification]
#[verifier::external_body]
pub struct ExHeaderValue(hyper::header::HeaderValue);

/// The lines that a header map holds, in the order in which it hands them
/// out, one for each value of each name; `None` where one of its values is
/// not text.
pub uninterp spec fn header_map_text(map: hyper::HeaderMap) -> Option<Seq<HeaderLine>>;

/// The lines that a list of headers stands for.
pub open spec fn lines_of(entries: Seq<Header>) -> Seq<HeaderLine> {
    entries.map_values(|h: Header| h@)
}

/// The place of a letter of the basic alphabet in it, whatever its case; -1
/// for every other character.
pub open spec fn letter_index(c: char) -> int {
    if 97 <= c as u32 <= 122 {
        c as u32 - 97
    } else if 65 <= c as u32 <= 90 {
        c as u32 - 65
    } else {
        -1
    }
}

/// Whether two characters are the same but for the case of a letter.
pub open spec fn same_letter(a: char, b: char) -> bool {
    a == b || (letter_index(a) >= 0 && letter_index(a) == letter_index(b))
}

/// Whether two header names are the same to HTTP: the same characters but
/// for the case of letters.
pub open spec fn same_name(a: Seq<char>, b: Seq<char>) -> bool {
    a.len() == b.len() && forall|i: int| 0 <= i < a.len() ==> same_letter(#[trigger] a[i], b[i])
}

/// Being the same name is an equivalence.
pub proof fn lemma_same_name_equivalence(a: Seq<char>, b: Seq<char>, c: Seq<char>)
    ensures
        same_name(a, a),
        same_name(a, b) ==> same_name(b, a),
        same_name(a, b) && same_name(b, c) ==> same_name(a, c),
{
    if same_name(a, b) {
        assert forall|i: int| 0 <= i < b.len() implies same_letter(#[trigger] b[i], a[i]) by {
            assert(same_letter(a[i], b[i]));
        }
        if same_name(b, c) {
            assert forall|i: int| 0 <= i < a.len() implies same_letter(#[trigger] a[i], c[i]) by {
                assert(same_letter(a[i], b[i]));
                assert(same_letter(b[i], c[i]));
            }
        }
    }
}

/// The name of the header that carries the trace context.
pub open spec fn trace_header() -> Seq<char> {
    "traceparent"@
}

/// The lines of `lines` whose name is not the same as `name`, in their
/// order.
pub open spec fn without_name(lines: Seq<HeaderLine>, name: Seq<char>) -> Seq<HeaderLine>
    decreases lines.len(),
{
    if lines.len() == 0 {
        Seq::empty()
    } else {
        let rest = without_name(lines.drop_last(), name);
        if same_name(lines.last().0, name) {
            rest
        } else {
            rest.push(lines.last())
        }
    }
}

/// The lines that go out for a caller's `lines` under the trace identifier
/// `trace_id`: the caller's lines but for any that bear the trace header's
/// name, then the trace header itself.
pub open spec fn with_trace(lines: Seq<HeaderLine>, trace_id: Seq<char>) -> Seq<HeaderLine> {
    without_name(lines, trace_header()).push((trace_header(), trace_id))
}

/// How many of `lines` bear the name `name`.
pub open spec fn occurrences(lines: Seq<HeaderLine>, name: Seq<char>) -> nat
    decreases lines.len(),
{
    if lines.len() == 0 {
        0
    } else {
        occurrences(lines.drop_last(), name) + if same_name(lines.last().0, name) {
            1nat
        } else {
            0nat
        }
    }
}

/// Removing a name leaves no line with that name, and never adds a line.
pub proof fn lemma_without_name_removes(lines: Seq<HeaderLine>, name: Seq<char>)
    ensures
        occurrences(without_name(lines, name), name) == 0,
        without_name(lines, name).len() <= lines.len(),
        forall|i: int|
            0 <= i < without_name(lines, name).len() ==> !same_name(
                (#[trigger] without_name(lines, name)[i]).0,
                name,
            ),
    decreases lines.len(),
{
    if lines.len() > 0 {
        lemma_without_name_removes(lines.drop_last(), name);
        let rest = without_name(lines.drop_last(), name);
        if !same_name(lines.last().0, name) {
            assert(rest.push(lines.last()).drop_last() =~= rest);
        }
    }
}

/// Removing a name keeps every line of another name, as often as it stood.
pub proof fn lemma_without_name_keeps(lines: Seq<HeaderLine>, name: Seq<char>, other: Seq<char>)
    requires
        !same_name(other, name),
    ensures
        occurrences(without_name(lines, name), other) == occurrences(lines, other),
    decreases lines.len(),
{
    if lines.len() > 0 {
        lemma_without_name_keeps(lines.drop_last(), name, other);
        let rest = without_name(lines.drop_last(), name);
        if !same_name(lines.last().0, name) {
            assert(rest.push(lines.last()).drop_last() =~= rest);
        } else {
            lemma_same_name_equivalence(lines.last().0, other, name);
            lemma_same_name_equivalence(other, lines.last().0, name);
        }
    }
}

/// Lines that never bore the name pass through unchanged.
pub proof fn lemma_without_name_verbatim(lines: Seq<HeaderLine>, name: Seq<char>)
    requires
        occurrences(lines, name) == 0,
    ensures
        without_name(lines, name) == lines,
    decreases lines.len(),
{
    if lines.len() > 0 {
        lemma_without_name_verbatim(lines.drop_last(), name);
        assert(lines.drop_last().push(lines.last()) =~= lines);
    } else {
        assert(lines =~= Seq::empty());
    }
}

/// The trace header is always sent, exactly once, as the last line, and with
/// the trace identifier as its value, whatever the caller's lines held under
/// that name, in whatever case. Every other header goes out as often as the
/// caller gave it.
pub proof fn lemma_trace_header_owned(
    lines: Seq<HeaderLine>,
    trace_id: Seq<char>,
    other: Seq<char>,
)
    ensures
        occurrences(with_trace(lines, trace_id), trace_header()) == 1,
        with_trace(lines, trace_id).last() == (trace_header(), trace_id),
        forall|i: int|
            0 <= i < with_trace(lines, trace_id).len() && same_name(
                (#[trigger] with_trace(lines, trace_id)[i]).0,
                trace_header(),
            ) ==> with_trace(lines, trace_id)[i] == (trace_header(), trace_id),
        !same_name(other, trace_header()) ==> occurrences(with_trace(lines, trace_id), other)
            == occurrences(lines, other),
{
    let kept = without_name(lines, trace_header());
    let sent = with_trace(lines, trace_id);
    lemma_without_name_removes(lines, trace_header());
    assert(sent.drop_last() =~= kept);
    lemma_same_name_equivalence(trace_header(), trace_header(), trace_header());
    assert forall|i: int|
        0 <= i < sent.len() && same_name((#[trigger] sent[i]).0, trace_header()) implies sent[i] == (
        trace_header(),
        trace_id,
    ) by {
        if i < kept.len() {
            assert(sent[i] == kept[i]);
        }
    }
    if !same_name(other, trace_header()) {
        lemma_without_name_keeps(lines, trace_header(), other);
        lemma_same_name_equivalence(trace_header(), other, other);
    }
}

/// The trace header's name.
pub fn trace_header_name() -> (name: String)
    ensures
        name@ == trace_header(),
{
    "traceparent".to_owned()
}

/// The place of a letter in the alphabet, and 26 for any other character.
fn letter_of(c: char) -> (index: u32)
    ensures
        index <= 26,
        letter_index(c) == (if index < 26 {
            index as int
        } else {
            -1
        }),
{
    let n: u32 = c as u32;
    if 97 <= n && n <= 122 {
        n - 97
    } else if 65 <= n && n <= 90 {
        n - 65
    } else {
        26
    }
}

/// Whether two header names are the same to HTTP.
pub fn is_same_name(a: &str, b: &str) -> (same: bool)
    ensures
        same == same_name(a@, b@),
{
    let n = a.unicode_len();
    if n != b.unicode_len() {
        return false;
    }
    let mut i: usize = 0;
    while i < n
        invariant
            i <= n,
            n == a@.len(),
            n == b@.len(),
            forall|j: int| 0 <= j < i ==> same_letter(#[trigger] a@[j], b@[j]),
        decreases n - i,
    {
        let x = a.get_char(i);
        let y = b.get_char(i);
        if x != y {
            let p = letter_of(x);
            if p == 26 || p != letter_of(y) {
                assert(!same_letter(a@[i as int], b@[i as int]));
                return false;
            }
        }
        i += 1;
    }
    true
}

/// Reads a header map line by line, with `hyper::HeaderMap::iter`, each name
/// by `HeaderName::as_str` and each value by `HeaderValue::to_str`. What is
/// claimed is only that the outcome is the one that `header_map_text` names:
/// the map's lines as texts, or nothing where `to_str` refuses a value.
#[verifier::external_body]
fn read_header_map(map: &hyper::HeaderMap) -> (headers: Option<Headers>)
    ensures
        match headers {
            Some(h) => header_map_text(*map) == Some(h@),
            None => header_map_text(*map) is None,
        },
{
    let mut entries = Vec::new();
    for (name, value) in map.iter() {
        match value.to_str() {
            Ok(text) => entries.push(Header { name: name.as_str().to_owned(), value: text.to_owned() }),
            Err(_) => return None,
        }
    }
    Some(Headers { entries })
}

impl Headers {
    /// No headers.
    pub fn new() -> (headers: Headers)
        ensures
            headers@ == Seq::<HeaderLine>::empty(),
    {
        let headers = Headers { entries: Vec::new() };
        assert(headers@ =~= Seq::<HeaderLine>::empty());
        headers
    }

    /// Adds a line at the end. Lines that bear the same name stay.
    pub fn append(&mut self, name: String, value: String)
        ensures
            final(self)@ == old(self)@.push((name@, value@)),
    {
        self.entries.push(Header { name, value });
        assert(self@ =~= old(self)@.push((name@, value@)));
    }

    /// The number of lines.
    pub fn len(&self) -> (n: usize)
        ensures
            n == self@.len(),
    {
        self.entries.len()
    }

    /// The value of the first line that bears the name `name`, if there is
    /// one.
    pub fn get(&self, name: &str) -> (value: Option<&String>)
        ensures
            match value {
                Some(v) => exists|i: int|
                    0 <= i < self@.len() && same_name(self@[i].0, name@) && self@[i].1 == v@
                        && forall|j: int| 0 <= j < i ==> !same_name((#[trigger] self@[j]).0, name@),
                None => forall|j: int|
                    0 <= j < self@.len() ==> !same_name((#[trigger] self@[j]).0, name@),
            },
    {
        let mut i: usize = 0;
        while i < self.entries.len()
            invariant
                i <= self.entries.len(),
                forall|j: int| 0 <= j < i ==> !same_name((#[trigger] self@[j]).0, name@),
            decreases self.entries.len() - i,
        {
            if is_same_name(self.entries[i].name.as_str(), name) {
                assert(self@[i as int] == self.entries[i as int]@);
                return Some(&self.entries[i].value);
            }
            i += 1;
        }
        None
    }

    /// The headers to send for a caller's header map under the trace
    /// identifier `trace_id`, as `with_trace_header` gives them for the
    /// map's lines; `None` where the map holds a value that is not text.
    pub fn from_map_with_trace_header(map: &hyper::HeaderMap, trace_id: &String) -> (sent: Option<
        Headers,
    >)
        ensures
            match sent {
                Some(h) => header_map_text(*map) matches Some(lines) && h@ == with_trace(
                    lines,
                    trace_id@,
                ),
                None => header_map_text(*map) is None,
            },
    {
        match read_header_map(map) {
            Some(headers) => Some(headers.with_trace_header(trace_id)),
            None => None,
        }
    }

    /// The headers to send for these caller-supplied headers under the trace
    /// identifier `trace_id`. The adapter owns the trace header: a line that
    /// the caller supplied under its name, in whatever case, is dropped, and
    /// the line derived from `trace_id` is added. Every other line passes
    /// through in order.
    pub fn with_trace_header(&self, trace_id: &String) -> (sent: Headers)
        ensures
            sent@ == with_trace(self@, trace_id@),
    {
        let name = trace_header_name();
        let mut out: Vec<Header> = Vec::new();
        let mut i: usize = 0;
        assert(self@.take(0) =~= Seq::<HeaderLine>::empty());
        assert(lines_of(out@) =~= Seq::<HeaderLine>::empty());
        while i < self.entries.len()
            invariant
                i <= self.entries.len(),
                name@ == trace_header(),
                lines_of(out@) == without_name(self@.take(i as int), trace_header()),
            decreases self.entries.len() - i,
        {
            let h = &self.entries[i];
            let ghost before = lines_of(out@);
            proof {
                assert(self@.take(i + 1).drop_last() =~= self@.take(i as int));
                assert(self@.take(i + 1).last() == h@);
            }
            if !is_same_name(h.name.as_str(), name.as_str()) {
                out.push(Header { name: h.name.clone(), value: h.value.clone() });
                assert(lines_of(out@) =~= before.push(h@));
            }
            i += 1;
        }
        assert(self@.take(self.entries.len() as int) =~= self@);
        let ghost kept = lines_of(out@);
        out.push(Header { name, value: trace_id.clone() });
        assert(lines_of(out@) =~= kept.push((trace_header(), trace_id@)));
        Headers { entries: out }
    }
}

} // verus!
