use vstd::prelude::*;
use vstd::string::*;

use crate::headers::is_tchar;

verus! {

/// The name of an extension method: a token that is none of the nine
/// standard names, so that a method has one form only, as in http's `Method`.
pub struct ExtensionName {
    name: String,
}

impl View for ExtensionName {
    type V = Seq<char>;

    closed spec fn view(&self) -> Seq<char> {
        self.name@
    }
}

impl ExtensionName {
    #[verifier::type_invariant]
    closed spec fn well_formed(&self) -> bool {
        is_method_token(self.name@) && !is_standard_name(self.name@)
    }

    /// The name.
    pub fn as_str(&self) -> (s: String)
        ensures
            s@ == self@,
    {
        self.name.clone()
    }
}

/// A text that http accepts as a method name: one or more token characters.
pub open spec fn is_method_token(s: Seq<char>) -> bool {
    &&& s.len() > 0
    &&& forall|i: int| 0 <= i < s.len() ==> is_tchar(#[trigger] s[i])
}

/// An HTTP request method.
///
/// The nine methods of the HTTP standard have variants of their own; any
/// other method is carried by its name.
pub enum Method {
    Options,
    Get,
    Post,
    Put,
    Delete,
    Head,
    Trace,
    Connect,
    Patch,
    Extension(ExtensionName),
}

/// A request method as the `wasi:http` transport names it.
pub enum WasiMethod {
    Get,
    Head,
    Post,
    Put,
    Delete,
    Connect,
    Options,
    Trace,
    Patch,
    Other(String),
}

/// The textual name of a method, as it appears on the wire.
pub open spec fn method_name(m: Method) -> Seq<char> {
    match m {
        Method::Options => "OPTIONS"@,
        Method::Get => "GET"@,
        Method::Post => "POST"@,
        Method::Put => "PUT"@,
        Method::Delete => "DELETE"@,
        Method::Head => "HEAD"@,
        Method::Trace => "TRACE"@,
        Method::Connect => "CONNECT"@,
        Method::Patch => "PATCH"@,
        Method::Extension(s) => s@,
    }
}

/// Whether a text is the name of one of the nine standard methods.
pub open spec fn is_standard_name(s: Seq<char>) -> bool {
    ||| s == "OPTIONS"@
    ||| s == "GET"@
    ||| s == "POST"@
    ||| s == "PUT"@
    ||| s == "DELETE"@
    ||| s == "HEAD"@
    ||| s == "TRACE"@
    ||| s == "CONNECT"@
    ||| s == "PATCH"@
}

/// A method in the one form that http's `Method` can hold: a standard method
/// has its own variant, so an extension never carries a standard name, and
/// an extension's name is a token. Every method that the library holds is in
/// this form (`ExtensionName` keeps it as its invariant).
pub open spec fn is_canonical(m: Method) -> bool {
    m matches Method::Extension(s) ==> is_method_token(s@) && !is_standard_name(s@)
}

/// What identifies a method: the number of its variant and, for an
/// extension, its name.
pub open spec fn method_key(m: Method) -> (int, Seq<char>) {
    match m {
        Method::Options => (0, Seq::empty()),
        Method::Get => (1, Seq::empty()),
        Method::Post => (2, Seq::empty()),
        Method::Put => (3, Seq::empty()),
        Method::Delete => (4, Seq::empty()),
        Method::Head => (5, Seq::empty()),
        Method::Trace => (6, Seq::empty()),
        Method::Connect => (7, Seq::empty()),
        Method::Patch => (8, Seq::empty()),
        Method::Extension(s) => (9, s@),
    }
}

/// What identifies a transport method: the number of its variant and, for
/// `Other`, its name.
pub open spec fn wasi_key(w: WasiMethod) -> (int, Seq<char>) {
    match w {
        WasiMethod::Get => (0, Seq::empty()),
        WasiMethod::Head => (1, Seq::empty()),
        WasiMethod::Post => (2, Seq::empty()),
        WasiMethod::Put => (3, Seq::empty()),
        WasiMethod::Delete => (4, Seq::empty()),
        WasiMethod::Connect => (5, Seq::empty()),
        WasiMethod::Options => (6, Seq::empty()),
        WasiMethod::Trace => (7, Seq::empty()),
        WasiMethod::Patch => (8, Seq::empty()),
        WasiMethod::Other(s) => (9, s@),
    }
}

/// The transport method, as `wasi_key` identifies it, that a method is sent
/// as: the seven methods that the client names map to the variant of the same
/// name, every other method is sent by its name.
pub open spec fn wasi_key_of(m: Method) -> (int, Seq<char>) {
    match m {
        Method::Get => (0, Seq::empty()),
        Method::Head => (1, Seq::empty()),
        Method::Post => (2, Seq::empty()),
        Method::Put => (3, Seq::empty()),
        Method::Delete => (4, Seq::empty()),
        Method::Options => (6, Seq::empty()),
        Method::Patch => (8, Seq::empty()),
        _ => (9, method_name(m)),
    }
}

/// No two methods are sent as one transport method: of methods in the form
/// that http holds them, which every method of the library is (see
/// `to_wasi_method`), two are sent alike exactly when they are the same
/// method.
pub proof fn law_wasi_method_injective(m1: Method, m2: Method)
    requires
        is_canonical(m1),
        is_canonical(m2),
    ensures
        wasi_key_of(m1) == wasi_key_of(m2) <==> method_key(m1) == method_key(m2),
{
    reveal_strlit("TRACE");
    reveal_strlit("CONNECT");
    if wasi_key_of(m1) == wasi_key_of(m2) && (m1 is Trace || m1 is Connect) {
        assert("TRACE"@[0] != "CONNECT"@[0]);
    }
    if wasi_key_of(m1) == wasi_key_of(m2) && (m2 is Trace || m2 is Connect) {
        assert("TRACE"@[0] != "CONNECT"@[0]);
    }
}

/// Whether a transport method is the one that `m` is sent as.
pub open spec fn sent_as(m: Method, w: WasiMethod) -> bool {
    match m {
        Method::Get => w == WasiMethod::Get,
        Method::Post => w == WasiMethod::Post,
        Method::Put => w == WasiMethod::Put,
        Method::Delete => w == WasiMethod::Delete,
        Method::Patch => w == WasiMethod::Patch,
        Method::Head => w == WasiMethod::Head,
        Method::Options => w == WasiMethod::Options,
        _ => w matches WasiMethod::Other(s) && s@ == method_name(m),
    }
}

impl Method {
    /// The name of the method.
    pub fn as_str(&self) -> (s: String)
        ensures
            s@ == method_name(*self),
    {
        match self {
            Method::Options => String::from_str("OPTIONS"),
            Method::Get => String::from_str("GET"),
            Method::Post => String::from_str("POST"),
            Method::Put => String::from_str("PUT"),
            Method::Delete => String::from_str("DELETE"),
            Method::Head => String::from_str("HEAD"),
            Method::Trace => String::from_str("TRACE"),
            Method::Connect => String::from_str("CONNECT"),
            Method::Patch => String::from_str("PATCH"),
            Method::Extension(e) => e.as_str(),
        }
    }

    /// The method of a name, as http's `Method::from_bytes` reads it: a
    /// standard name (in upper case) gives its own variant, any other token an
    /// extension, and a name that is no token (empty, or with a character
    /// outside the token set) nothing.
    pub fn from_name(name: &str) -> (m: Option<Method>)
        ensures
            m is Some <==> is_method_token(name@),
            m matches Some(x) ==> is_canonical(x) && method_name(x) == name@,
    {
        proof {
            lemma_standard_names_are_tokens();
        }
        let n = String::from_str(name);
        if n == String::from_str("OPTIONS") {
            return Some(Method::Options);
        } else if n == String::from_str("GET") {
            return Some(Method::Get);
        } else if n == String::from_str("POST") {
            return Some(Method::Post);
        } else if n == String::from_str("PUT") {
            return Some(Method::Put);
        } else if n == String::from_str("DELETE") {
            return Some(Method::Delete);
        } else if n == String::from_str("HEAD") {
            return Some(Method::Head);
        } else if n == String::from_str("TRACE") {
            return Some(Method::Trace);
        } else if n == String::from_str("CONNECT") {
            return Some(Method::Connect);
        } else if n == String::from_str("PATCH") {
            return Some(Method::Patch);
        }
        if is_method_name(name) {
            Some(Method::Extension(ExtensionName { name: n }))
        } else {
            None
        }
    }

    /// Whether the method is GET or HEAD.
    pub fn is_get_or_head(&self) -> (b: bool)
        ensures
            b == (*self is Get || *self is Head),
    {
        match self {
            Method::Get | Method::Head => true,
            _ => false,
        }
    }
}

/// The standard names are tokens.
pub proof fn lemma_standard_names_are_tokens()
    ensures
        forall|s: Seq<char>| is_standard_name(s) ==> is_method_token(s),
{
    reveal_strlit("OPTIONS");
    reveal_strlit("GET");
    reveal_strlit("POST");
    reveal_strlit("PUT");
    reveal_strlit("DELETE");
    reveal_strlit("HEAD");
    reveal_strlit("TRACE");
    reveal_strlit("CONNECT");
    reveal_strlit("PATCH");
    assert forall|s: Seq<char>| is_standard_name(s) implies is_method_token(s) by {
        assert forall|i: int| 0 <= i < s.len() implies is_tchar(#[trigger] s[i]) by {
            assert('A' <= s[i] && s[i] <= 'Z');
        }
    }
}

/// Whether a text is a token.
fn is_method_name(name: &str) -> (b: bool)
    ensures
        b == is_method_token(name@),
{
    let len = name.unicode_len();
    if len == 0 {
        return false;
    }
    let mut i: usize = 0;
    while i < len
        invariant
            len == name@.len(),
            i <= len,
            forall|j: int| 0 <= j < i ==> is_tchar(#[trigger] name@[j]),
        decreases len - i,
    {
        let c = name.get_char(i);
        let ok = ('a' <= c && c <= 'z') || ('A' <= c && c <= 'Z') || ('0' <= c && c <= '9')
            || c == '!' || c == '#' || c == '$' || c == '%' || c == '&' || c == '\''
            || c == '*' || c == '+' || c == '-' || c == '.' || c == '^' || c == '_'
            || c == '`' || c == '|' || c == '~';
        if !ok {
            return false;
        }
        i = i + 1;
    }
    true
}

/// The transport method that a request method is sent as.
pub fn to_wasi_method(m: &Method) -> (w: WasiMethod)
    ensures
        sent_as(*m, w),
        wasi_key(w) == wasi_key_of(*m),
        is_canonical(*m),
{
    proof {
        if let Method::Extension(e) = m {
            use_type_invariant(e);
        }
    }
    match m {
        Method::Get => WasiMethod::Get,
        Method::Post => WasiMethod::Post,
        Method::Put => WasiMethod::Put,
        Method::Delete => WasiMethod::Delete,
        Method::Patch => WasiMethod::Patch,
        Method::Head => WasiMethod::Head,
        Method::Options => WasiMethod::Options,
        _ => WasiMethod::Other(m.as_str()),
    }
}

} // verus!
