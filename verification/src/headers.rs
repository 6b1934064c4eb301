use vstd::prelude::*;
use vstd::string::*;
use vstd::utf8::*;

use crate::error::spec_utf8_error_bytes;

verus! {

broadcast use vstd::seq::group_seq_axioms;

/// The largest length of a header name that http accepts.
pub const MAX_HEADER_NAME_LEN: usize = 65535;

/// A character allowed in a header name (`tchar` of RFC 7230).
pub open spec fn is_tchar(c: char) -> bool {
    ||| ('a' <= c && c <= 'z')
    ||| ('A' <= c && c <= 'Z')
    ||| ('0' <= c && c <= '9')
    ||| c == '!' || c == '#' || c == '$' || c == '%' || c == '&' || c == '\''
    ||| c == '*' || c == '+' || c == '-' || c == '.' || c == '^' || c == '_'
    ||| c == '`' || c == '|' || c == '~'
}

/// A text that http accepts as a header name: one to 65535 token characters.
pub open spec fn is_token(s: Seq<char>) -> bool {
    &&& 0 < s.len() <= MAX_HEADER_NAME_LEN
    &&& forall|i: int| 0 <= i < s.len() ==> is_tchar(#[trigger] s[i])
}

/// The ASCII lower-case form of a character.
pub open spec fn lower_char(c: char) -> char {
    if 'A' <= c && c <= 'Z' {
        ((c as u32) + 32) as char
    } else {
        c
    }
}

/// The ASCII lower-case form of a text.
pub open spec fn lowercase(s: Seq<char>) -> Seq<char> {
    s.map_values(|c: char| lower_char(c))
}

/// A header name in the form in which headers are kept: a token in lower case.
pub open spec fn is_header_name(s: Seq<char>) -> bool {
    is_token(s) && lowercase(s) == s
}

/// A byte allowed in a header value: any byte but the controls other than
/// horizontal tab.
pub open spec fn is_value_byte(b: u8) -> bool {
    (b >= 32 && b != 127) || b == 9
}

/// A byte string that http accepts as a header value.
pub open spec fn is_field_value(v: Seq<u8>) -> bool {
    forall|i: int| 0 <= i < v.len() ==> is_value_byte(#[trigger] v[i])
}

/// A byte that a header value may hold to be read as text: visible ASCII or
/// horizontal tab.
pub open spec fn is_visible_byte(b: u8) -> bool {
    (b >= 32 && b < 127) || b == 9
}

/// The characters that a byte string of ASCII stands for.
pub open spec fn ascii_text(v: Seq<u8>) -> Seq<char> {
    v.map_values(|b: u8| b as char)
}

/// The name under which a header given as `name` is kept, or `None` where
/// `name` is no header name.
pub open spec fn normal_name(name: Seq<char>) -> Option<Seq<char>> {
    if is_token(name) {
        Some(lowercase(name))
    } else {
        None
    }
}

/// Calls `http::HeaderName::from_bytes` on the bytes of `name`, and gives the
/// name that http keeps (`HeaderName::as_str`) where it accepts them.
///
/// Claimed, as http's source shows: the bytes are accepted exactly when there
/// are 1 to 65535 of them and each is a token character, and the name kept is
/// the input with ASCII upper-case letters made lower-case.
#[verifier::external_body]
fn header_name_from_str(name: &str) -> (r: Option<String>)
    ensures
        r is Some <==> is_token(name@),
        r matches Some(n) ==> n@ == lowercase(name@),
{
    match http::HeaderName::from_bytes(name.as_bytes()) {
        Ok(n) => Some(n.as_str().to_string()),
        Err(_) => None,
    }
}

/// Calls `http::HeaderValue::from_bytes` and tells whether it accepts `value`.
///
/// Claimed, as http's source shows: it accepts exactly the byte strings whose
/// bytes are all printable or horizontal tab (any byte of 32 or more but 127,
/// or 9).
#[verifier::external_body]
fn header_value_accepts(value: &[u8]) -> (b: bool)
    ensures
        b == is_field_value(value@),
{
    http::HeaderValue::from_bytes(value).is_ok()
}

/// Calls `String::from_utf8`.
///
/// Claimed, as std documents: it succeeds exactly on valid UTF-8, and then the
/// string holds the characters that the bytes encode; the error hands back
/// the bytes it was given (`FromUtf8Error::as_bytes`).
#[verifier::external_body]
pub(crate) fn string_from_utf8(bytes: Vec<u8>) -> (r: Result<String, std::string::FromUtf8Error>)
    ensures
        r is Ok <==> valid_utf8(bytes@),
        r matches Ok(s) ==> s@ == decode_utf8(bytes@),
        r matches Err(e) ==> spec_utf8_error_bytes(e) == bytes@,
{
    String::from_utf8(bytes)
}

/// Bytes of visible ASCII are valid UTF-8 and encode the characters of the
/// same codes.
pub proof fn lemma_ascii_bytes_decode(v: Seq<u8>)
    requires
        forall|i: int| 0 <= i < v.len() ==> #[trigger] v[i] < 128,
    ensures
        valid_utf8(v),
        decode_utf8(v) == ascii_text(v),
{
    let chars = ascii_text(v);
    assert forall|i: int| 0 <= i < chars.len() implies '\0' <= #[trigger] chars[i] <= '\u{7f}' by {
        let b = v[i];
        assert(b < 128);
        assert((b as char) as u32 == b as u32);
    }
    assert(is_ascii_chars(chars));
    is_ascii_chars_encode_utf8(chars);
    assert forall|i: int| 0 <= i < chars.len() implies #[trigger] encode_utf8(chars)[i] == v[i] by {
        let b = v[i];
        assert(chars[i] as u8 == encode_utf8(chars)[i]);
        assert(((b as char) as u8) == b);
    }
    assert(encode_utf8(chars) =~= v);
    encode_utf8_valid_utf8(chars);
    encode_utf8_decode_utf8(chars);
}

/// Reads a header value as text, as `http::HeaderValue::to_str` does: the
/// value is text exactly when each byte is visible ASCII or a tab.
pub fn value_to_str(value: &[u8]) -> (r: Option<String>)
    ensures
        r is Some <==> (forall|i: int| 0 <= i < value@.len() ==> is_visible_byte(#[trigger] value@[i])),
        r matches Some(s) ==> s@ == ascii_text(value@),
{
    let mut i: usize = 0;
    while i < value.len()
        invariant
            0 <= i <= value@.len(),
            forall|j: int| 0 <= j < i ==> is_visible_byte(#[trigger] value@[j]),
        decreases value@.len() - i,
    {
        if !((value[i] >= 32 && value[i] < 127) || value[i] == 9) {
            return None;
        }
        i = i + 1;
    }
    proof {
        assert forall|j: int| 0 <= j < value@.len() implies #[trigger] value@[j] < 128 by {
            assert(is_visible_byte(value@[j]));
        }
        lemma_ascii_bytes_decode(value@);
    }
    match string_from_utf8(vstd::slice::slice_to_vec(value)) {
        Ok(s) => Some(s),
        Err(_) => None,
    }
}


/// A header entry as the contracts see it: its name and its value.
pub type EntryView = (Seq<char>, Seq<u8>);

/// The value of the first entry named `n`, or `None` where no entry has that
/// name.
pub open spec fn lookup(s: Seq<EntryView>, n: Seq<char>) -> Option<Seq<u8>>
    decreases s.len(),
{
    if s.len() == 0 {
        None
    } else if s[0].0 == n {
        Some(s[0].1)
    } else {
        lookup(s.drop_first(), n)
    }
}

/// The entries of `s` that are not named `n`, in their order.
pub open spec fn without(s: Seq<EntryView>, n: Seq<char>) -> Seq<EntryView>
    decreases s.len(),
{
    if s.len() == 0 {
        s
    } else if s[0].0 == n {
        without(s.drop_first(), n)
    } else {
        seq![s[0]] + without(s.drop_first(), n)
    }
}

/// The entries after the value of `n` is set to `v`: the first entry named
/// `n` takes the value `v` in its place and the later ones named `n` are
/// dropped; where there is none, the entry is added at the end.
pub open spec fn set_entry(s: Seq<EntryView>, n: Seq<char>, v: Seq<u8>) -> Seq<EntryView>
    decreases s.len(),
{
    if s.len() == 0 {
        seq![(n, v)]
    } else if s[0].0 == n {
        seq![(n, v)] + without(s.drop_first(), n)
    } else {
        seq![s[0]] + set_entry(s.drop_first(), n, v)
    }
}

/// Every entry has a header name in lower case and a valid value.
pub open spec fn entries_wf(s: Seq<EntryView>) -> bool {
    forall|i: int| 0 <= i < s.len() ==> is_header_name(#[trigger] s[i].0) && is_field_value(s[i].1)
}

/// The number of entries named `n`.
pub open spec fn count_named(s: Seq<EntryView>, n: Seq<char>) -> nat
    decreases s.len(),
{
    if s.len() == 0 {
        0
    } else {
        (if s[0].0 == n { 1nat } else { 0nat }) + count_named(s.drop_first(), n)
    }
}

/// The view of a stored entry.
pub open spec fn entry_view(e: (String, Vec<u8>)) -> EntryView {
    (e.0@, e.1@)
}

/// The views of stored entries.
pub open spec fn entries_of(v: Seq<(String, Vec<u8>)>) -> Seq<EntryView> {
    v.map_values(|e: (String, Vec<u8>)| entry_view(e))
}

/// An ordered collection of HTTP headers, each a name and a value, where one
/// name may occur several times.
///
/// Names are kept as http keeps them, in lower case, and every value is one
/// that http accepts.
pub struct Headers {
    entries: Vec<(String, Vec<u8>)>,
}

impl View for Headers {
    type V = Seq<EntryView>;

    closed spec fn view(&self) -> Seq<EntryView> {
        entries_of(self.entries@)
    }
}

/// No entry named `n` is left in `without(s, n)`, and an entry of another
/// name has there the value that it had in `s`.
pub proof fn lemma_without(s: Seq<EntryView>, n: Seq<char>, m: Seq<char>)
    ensures
        lookup(without(s, n), n) is None,
        m != n ==> lookup(without(s, m), n) == lookup(s, n),
        entries_wf(s) ==> entries_wf(without(s, n)),
        count_named(without(s, n), n) == 0,
    decreases s.len(),
{
    if s.len() > 0 {
        lemma_without(s.drop_first(), n, m);
        let rest = without(s.drop_first(), n);
        if s[0].0 != n {
            assert((seq![s[0]] + rest).drop_first() =~= rest);
        }
        let rest_m = without(s.drop_first(), m);
        if s[0].0 != m {
            assert((seq![s[0]] + rest_m).drop_first() =~= rest_m);
        }
        if entries_wf(s) {
            lemma_wf_drop_first(s);
        }
    }
}

/// What setting a header does: the name then has the value set, every other
/// name keeps its value, exactly one entry has the name, the entries stay
/// well formed, and setting the same value again changes nothing.
pub proof fn lemma_set_entry(s: Seq<EntryView>, n: Seq<char>, v: Seq<u8>, m: Seq<char>)
    ensures
        lookup(set_entry(s, n, v), n) == Some(v),
        m != n ==> lookup(set_entry(s, n, v), m) == lookup(s, m),
        count_named(set_entry(s, n, v), n) == 1,
        entries_wf(s) && is_header_name(n) && is_field_value(v) ==> entries_wf(set_entry(s, n, v)),
        set_entry(set_entry(s, n, v), n, v) == set_entry(s, n, v),
    decreases s.len(),
{
    let r = set_entry(s, n, v);
    if s.len() == 0 {
        assert(r.drop_first() =~= Seq::<EntryView>::empty());
        assert(set_entry(r, n, v) =~= seq![(n, v)] + without(r.drop_first(), n));
        assert(without(r.drop_first(), n) =~= Seq::<EntryView>::empty());
        assert(r[0] == (n, v));
        assert(entries_wf(seq![(n, v)]) || !(is_header_name(n) && is_field_value(v)));
        assert(lookup(r.drop_first(), m) is None);
        assert(count_named(r.drop_first(), n) == 0);
    } else if s[0].0 == n {
        let rest = without(s.drop_first(), n);
        lemma_without(s.drop_first(), n, m);
        lemma_without(rest, n, n);
        lemma_without_idem(s.drop_first(), n);
        assert(r.drop_first() =~= rest);
        if entries_wf(s) && is_header_name(n) && is_field_value(v) {
            lemma_without(s, n, n);
            lemma_wf_drop_first(s);
            lemma_without(s.drop_first(), n, n);
            assert(entries_wf(seq![(n, v)]));
            lemma_wf_concat(seq![(n, v)], rest);
        }
        if entries_wf(s) {
            lemma_wf_drop_first(s);
        }
        if m != n {
            lemma_without(s.drop_first(), m, n);
        }
        assert(set_entry(r, n, v) =~= seq![(n, v)] + without(rest, n));
        assert(r[0] == (n, v));
        assert(count_named(r, n) == 1 + count_named(rest, n));
    } else {
        let rest = set_entry(s.drop_first(), n, v);
        lemma_set_entry(s.drop_first(), n, v, m);
        assert(r.drop_first() =~= rest);
        if entries_wf(s) && is_header_name(n) && is_field_value(v) {
            lemma_wf_drop_first(s);
            assert(entries_wf(seq![s[0]]));
            lemma_wf_concat(seq![s[0]], rest);
        }
        if entries_wf(s) {
            lemma_wf_drop_first(s);
        }
        assert(set_entry(r, n, v) =~= seq![s[0]] + set_entry(rest, n, v));
        assert(r[0] == s[0]);
        assert(count_named(r, n) == count_named(rest, n));
    }
}

/// Well-formed entries stay well formed without their first.
pub proof fn lemma_wf_drop_first(s: Seq<EntryView>)
    requires
        entries_wf(s),
        s.len() > 0,
    ensures
        entries_wf(s.drop_first()),
{
    assert forall|i: int| 0 <= i < s.drop_first().len() implies is_header_name(#[trigger] s.drop_first()[i].0) && is_field_value(s.drop_first()[i].1) by {
        assert(s.drop_first()[i] == s[i + 1]);
        assert(is_header_name(s[i + 1].0));
    }
}

/// Well-formed entries joined are well formed.
pub proof fn lemma_wf_concat(a: Seq<EntryView>, b: Seq<EntryView>)
    requires
        entries_wf(a),
        entries_wf(b),
    ensures
        entries_wf(a + b),
{
    assert forall|i: int| 0 <= i < (a + b).len() implies is_header_name(#[trigger] (a + b)[i].0) && is_field_value((a + b)[i].1) by {
        if i < a.len() {
            assert((a + b)[i] == a[i]);
            assert(is_header_name(a[i].0));
        } else {
            assert((a + b)[i] == b[i - a.len()]);
            assert(is_header_name(b[i - a.len()].0));
        }
    }
}

/// Setting a header twice leaves the second value alone in place of the
/// first.
pub proof fn law_header_overwrite(s: Seq<EntryView>, n: Seq<char>, v1: Seq<u8>, v2: Seq<u8>)
    ensures
        set_entry(set_entry(s, n, v1), n, v2) == set_entry(s, n, v2),
    decreases s.len(),
{
    let r = set_entry(s, n, v1);
    if s.len() == 0 {
        assert(r.drop_first() =~= Seq::<EntryView>::empty());
        assert(set_entry(r, n, v2) =~= seq![(n, v2)]);
    } else if s[0].0 == n {
        let w = without(s.drop_first(), n);
        assert(r.drop_first() =~= w);
        lemma_without_idem(s.drop_first(), n);
        assert(set_entry(r, n, v2) =~= seq![(n, v2)] + w);
    } else {
        law_header_overwrite(s.drop_first(), n, v1, v2);
        assert(r.drop_first() =~= set_entry(s.drop_first(), n, v1));
        assert(set_entry(r, n, v2) =~= seq![s[0]] + set_entry(s.drop_first(), n, v2));
    }
}

/// Header names are matched without regard to ASCII case: a header set under
/// one spelling of a name is found under any other spelling of it.
pub proof fn law_header_names_ignore_case(s: Seq<EntryView>, a: Seq<char>, b: Seq<char>, v: Seq<u8>)
    requires
        is_token(a),
        is_token(b),
        lowercase(a) == lowercase(b),
    ensures
        normal_name(b) matches Some(n) && lookup(set_entry(s, lowercase(a), v), n) == Some(v),
{
    lemma_set_entry(s, lowercase(a), v, lowercase(a));
}

/// Dropping the entries of a name twice is dropping them once.
pub proof fn lemma_without_idem(s: Seq<EntryView>, n: Seq<char>)
    ensures
        without(without(s, n), n) == without(s, n),
    decreases s.len(),
{
    if s.len() > 0 {
        lemma_without_idem(s.drop_first(), n);
        let rest = without(s.drop_first(), n);
        if s[0].0 != n {
            assert((seq![s[0]] + rest).drop_first() =~= rest);
            assert(without(seq![s[0]] + rest, n) =~= seq![s[0]] + without(rest, n));
        }
    }
}


/// A copy of a byte string.
pub fn copy_bytes(v: &Vec<u8>) -> (r: Vec<u8>)
    ensures
        r@ == v@,
{
    let r = v.clone();
    assert(r@ =~= v@);
    r
}

/// The value that an optional byte string stands for.
pub open spec fn opt_bytes(r: Option<Vec<u8>>) -> Option<Seq<u8>> {
    match r {
        Some(v) => Some(v@),
        None => None,
    }
}

impl Headers {
    #[verifier::type_invariant]
    closed spec fn well_formed(&self) -> bool {
        entries_wf(self@)
    }

    /// Creates an empty collection.
    pub fn new() -> (h: Headers)
        ensures
            h@ == Seq::<EntryView>::empty(),
    {
        let h = Headers { entries: Vec::new() };
        assert(h@ =~= Seq::<EntryView>::empty());
        h
    }

    /// The entries of the collection, in their order.
    pub fn entries(&self) -> (v: Vec<(String, Vec<u8>)>)
        ensures
            entries_of(v@) == self@,
    {
        let mut out: Vec<(String, Vec<u8>)> = Vec::new();
        let mut i: usize = 0;
        while i < self.entries.len()
            invariant
                i <= self.entries@.len(),
                entries_of(out@) == self@.take(i as int),
            decreases self.entries@.len() - i,
        {
            let ghost before = out@;
            let e = &self.entries[i];
            let item = (e.0.clone(), copy_bytes(&e.1));
            assert(entry_view(item) == self@[i as int]);
            out.push(item);
            assert(out@ == before.push(item));
            assert(entries_of(out@) =~= entries_of(before).push(entry_view(item)));
            assert(entries_of(out@) =~= self@.take(i + 1));
            i = i + 1;
        }
        assert(self@.take(i as int) =~= self@);
        out
    }

    /// The number of entries.
    pub fn len(&self) -> (n: usize)
        ensures
            n == self@.len(),
    {
        self.entries.len()
    }

    /// Sets the value of a name already in the form in which names are kept,
    /// replacing every value that it had.
    fn set_normal(&mut self, name: String, value: Vec<u8>)
        requires
            is_header_name(name@),
            is_field_value(value@),
        ensures
            final(self)@ == set_entry(old(self)@, name@, value@),
    {
        proof {
            use_type_invariant(&*self);
        }
        let ghost s = self@;
        let ghost n = name@;
        let ghost v = value@;
        let mut out: Vec<(String, Vec<u8>)> = Vec::new();
        let mut placed = false;
        let mut i: usize = 0;
        assert(s.skip(0) =~= s);
        while i < self.entries.len()
            invariant
                s == self@,
                n == name@,
                v == value@,
                i <= self.entries@.len(),
                set_entry(s, n, v) == entries_of(out@) + (
                if placed {
                    without(s.skip(i as int), n)
                } else {
                    set_entry(s.skip(i as int), n, v)
                }),
            decreases self.entries@.len() - i,
        {
            let ghost before = entries_of(out@);
            let ghost t = s.skip(i as int);
            assert(t[0] == s[i as int]);
            assert(t.drop_first() =~= s.skip(i + 1));
            let e = &self.entries[i];
            if e.0 == name {
                if !placed {
                    out.push((name.clone(), copy_bytes(&value)));
                    placed = true;
                    assert(entries_of(out@) =~= before.push((n, v)));
                    assert(set_entry(t, n, v) == seq![(n, v)] + without(t.drop_first(), n));
                    assert(before + set_entry(t, n, v) =~= before.push((n, v)) + without(s.skip(i + 1), n));
                } else {
                    assert(entries_of(out@) =~= before);
                }
            } else {
                out.push((e.0.clone(), copy_bytes(&e.1)));
                assert(entries_of(out@) =~= before.push(t[0]));
                if placed {
                    assert(before + without(t, n) =~= before.push(t[0]) + without(s.skip(i + 1), n));
                } else {
                    assert(before + set_entry(t, n, v) =~= before.push(t[0]) + set_entry(s.skip(i + 1), n, v));
                }
            }
            i = i + 1;
        }
        let ghost before = entries_of(out@);
        assert(s.skip(i as int) =~= Seq::<EntryView>::empty());
        if !placed {
            out.push((name, value));
            assert(entries_of(out@) =~= before + seq![(n, v)]);
        } else {
            assert(before + Seq::<EntryView>::empty() =~= before);
        }
        proof {
            lemma_set_entry(s, n, v, n);
            assert(entries_of(out@) == set_entry(s, n, v));
        }
        self.entries = out;
    }

    /// Sets the header `name` to `value`, as `http::HeaderMap::insert` does:
    /// every value that the name had is replaced. A name or value that http
    /// does not accept leaves the headers unchanged and gives `false`.
    pub fn insert(&mut self, name: &str, value: &[u8]) -> (ok: bool)
        ensures
            ok == (is_token(name@) && is_field_value(value@)),
            ok ==> final(self)@ == set_entry(old(self)@, lowercase(name@), value@),
            !ok ==> final(self)@ == old(self)@,
    {
        let normal = header_name_from_str(name);
        match normal {
            Some(n) => {
                if header_value_accepts(value) {
                    proof {
                        lemma_lowercase_is_header_name(name@);
                    }
                    self.set_normal(n, vstd::slice::slice_to_vec(value));
                    true
                } else {
                    false
                }
            },
            None => false,
        }
    }

    /// Adds a value for the header `name`, after those that it has, as
    /// `http::HeaderMap::append` does. A name or value that http does not
    /// accept leaves the headers unchanged and gives `false`.
    pub fn append(&mut self, name: &str, value: &[u8]) -> (ok: bool)
        ensures
            ok == (is_token(name@) && is_field_value(value@)),
            ok ==> final(self)@ == old(self)@.push((lowercase(name@), value@)),
            !ok ==> final(self)@ == old(self)@,
    {
        proof {
            use_type_invariant(&*self);
        }
        let normal = header_name_from_str(name);
        match normal {
            Some(n) => {
                if header_value_accepts(value) {
                    proof {
                        lemma_lowercase_is_header_name(name@);
                    }
                    let mut entries: Vec<(String, Vec<u8>)> = Vec::new();
                    std::mem::swap(&mut entries, &mut self.entries);
                    let ghost before = entries@;
                    entries.push((n, vstd::slice::slice_to_vec(value)));
                    proof {
                        let t = entries_of(entries@);
                        assert(t =~= old(self)@.push((lowercase(name@), value@)));
                        assert(entries_wf(t)) by {
                            assert forall|i: int| 0 <= i < t.len() implies is_header_name(#[trigger] t[i].0) && is_field_value(t[i].1) by {
                                if i < t.len() - 1 {
                                    assert(t[i] == old(self)@[i]);
                                    assert(is_header_name(old(self)@[i].0));
                                } else {
                                    assert(t[i] == (lowercase(name@), value@));
                                }
                            }
                        }
                    }
                    self.entries = entries;
                    true
                } else {
                    false
                }
            },
            None => false,
        }
    }

    /// The first value of the header `name`, as `http::HeaderMap::get` finds
    /// it: the name is looked up in the form in which names are kept, and a
    /// text that is no header name finds nothing.
    pub fn get(&self, name: &str) -> (r: Option<Vec<u8>>)
        ensures
            opt_bytes(r) == match normal_name(name@) {
                Some(n) => lookup(self@, n),
                None => None,
            },
    {
        let normal = header_name_from_str(name);
        match normal {
            Some(n) => self.get_normal(&n),
            None => None,
        }
    }

    /// The first value of a name given in the form in which names are kept.
    fn get_normal(&self, name: &String) -> (r: Option<Vec<u8>>)
        ensures
            opt_bytes(r) == lookup(self@, name@),
    {
        let ghost s = self@;
        let mut i: usize = 0;
        assert(s.skip(0) =~= s);
        while i < self.entries.len()
            invariant
                s == self@,
                i <= self.entries@.len(),
                lookup(s, name@) == lookup(s.skip(i as int), name@),
            decreases self.entries@.len() - i,
        {
            let ghost t = s.skip(i as int);
            assert(t[0] == s[i as int]);
            assert(t.drop_first() =~= s.skip(i + 1));
            if self.entries[i].0 == *name {
                return Some(copy_bytes(&self.entries[i].1));
            }
            i = i + 1;
        }
        assert(s.skip(i as int) =~= Seq::<EntryView>::empty());
        None
    }
}

/// The lower-case form of a token is a header name in the form in which names
/// are kept.
pub proof fn lemma_lowercase_is_header_name(s: Seq<char>)
    requires
        is_token(s),
    ensures
        is_header_name(lowercase(s)),
{
    let l = lowercase(s);
    assert forall|i: int| 0 <= i < l.len() implies is_tchar(#[trigger] l[i]) by {
        assert(is_tchar(s[i]));
        let c = s[i];
        if 'A' <= c && c <= 'Z' {
            assert(((c as u32) + 32) as char == l[i]);
        }
    }
    assert forall|i: int| 0 <= i < l.len() implies #[trigger] lowercase(l)[i] == l[i] by {
        let c = s[i];
        if 'A' <= c && c <= 'Z' {
            assert('a' <= l[i] && l[i] <= 'z');
        }
    }
    assert(lowercase(l) =~= l);
}

/// Looking a name up finds the value of the first entry with that name, and
/// nothing exactly where no entry has it.
pub proof fn law_lookup_first(s: Seq<EntryView>, n: Seq<char>)
    ensures
        lookup(s, n) is None <==> (forall|i: int| 0 <= i < s.len() ==> #[trigger] s[i].0 != n),
        forall|i: int|
            0 <= i < s.len() && s[i].0 == n && (forall|j: int| 0 <= j < i ==> #[trigger] s[j].0 != n)
                ==> lookup(s, n) == Some(#[trigger] s[i].1),
    decreases s.len(),
{
    if s.len() > 0 {
        let t = s.drop_first();
        law_lookup_first(t, n);
        assert forall|i: int| 0 <= i < t.len() implies #[trigger] t[i] == s[i + 1] by {}
        if s[0].0 != n {
            if lookup(s, n) is None {
                assert forall|i: int| 0 <= i < s.len() implies #[trigger] s[i].0 != n by {
                    if i > 0 {
                        assert(t[i - 1] == s[i]);
                    }
                }
            } else {
                assert(!(forall|i: int| 0 <= i < t.len() ==> #[trigger] t[i].0 != n));
                let k = choose|k: int| 0 <= k < t.len() && t[k].0 == n;
                assert(s[k + 1].0 == n);
            }
            assert forall|i: int|
                0 <= i < s.len() && s[i].0 == n && (forall|j: int| 0 <= j < i ==> #[trigger] s[j].0 != n)
                implies lookup(s, n) == Some(#[trigger] s[i].1) by {
                assert(i > 0);
                assert(t[i - 1] == s[i]);
                assert forall|j: int| 0 <= j < i - 1 implies #[trigger] t[j].0 != n by {
                    assert(t[j] == s[j + 1]);
                }
            }
        } else {
            assert forall|i: int|
                0 <= i < s.len() && s[i].0 == n && (forall|j: int| 0 <= j < i ==> #[trigger] s[j].0 != n)
                implies lookup(s, n) == Some(#[trigger] s[i].1) by {
                if i > 0 {
                    assert(s[0].0 != n);
                }
            }
        }
    }
}

} // verus!
