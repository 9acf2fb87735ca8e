//! The native URL value: one successfully parsed URL, owned by the wrapper.
//!
//! A `Url` always holds a parse result of the underlying URL library; there
//! is no partially constructed state. Its mathematical model is the canonical
//! serialization of the held URL, a `Seq<char>`. Everything the library is
//! relied upon for is stated over uninterpreted functions of that text:
//! parsing, relative resolution, the lenient host getter and setter.

use vstd::prelude::*;
use vstd::string::StringExecFns;
use url::Url as RawUrl;

verus! {

#[verifier::external_type_specification]
#[verifier::external_body]
pub struct ExRawUrl(RawUrl);

/// What `url::Url::parse` returns on `s`: the canonical serialization of the
/// parsed URL on success, the display text of the parse error on failure.
pub uninterp spec fn parse_spec(s: Seq<char>) -> Result<Seq<char>, Seq<char>>;

/// What `url::Url::join` returns, as a function of the base URL's canonical
/// serialization and the input text: the canonical serialization of the
/// resolved URL on success, the display text of the error on failure.
pub uninterp spec fn join_spec(base: Seq<char>, input: Seq<char>) -> Result<Seq<char>, Seq<char>>;

/// The position of the first `:` in `u`, or `u.len()` when there is none. In
/// a canonical URL serialization this is the end of the scheme, whose
/// characters never include `:`.
pub open spec fn first_colon(u: Seq<char>) -> int
    decreases u.len(),
{
    if u.len() == 0 {
        0
    } else if u[0] == ':' {
        0
    } else {
        1 + first_colon(u.drop_first())
    }
}

/// Whether the URL with the given canonical serialization cannot serve as a
/// base: the character after the scheme's `:` is not `/`, so the URL has no
/// hierarchical part.
pub open spec fn cannot_be_a_base_text(u: Seq<char>) -> bool {
    let i = first_colon(u);
    !(i + 1 < u.len() && u[i + 1] == '/')
}

proof fn lemma_first_colon_at(u: Seq<char>, i: int)
    requires
        0 <= i <= u.len(),
        forall|j: int| 0 <= j < i ==> u[j] != ':',
        i < u.len() ==> u[i] == ':',
    ensures
        first_colon(u) == i,
    decreases i,
{
    if i == 0 {
    } else {
        lemma_first_colon_at(u.drop_first(), i - 1);
    }
}

/// The host component (with port, if any) that the lenient getter
/// `url::quirks::host` reports for the URL with the given canonical
/// serialization; empty when the URL has no host.
pub uninterp spec fn host_spec(u: Seq<char>) -> Seq<char>;

/// What the lenient setter `url::quirks::set_host` does to the URL with
/// canonical serialization `u` when given `new_host`: `Ok` with the new
/// serialization when the assignment takes effect, `Err` when it no-ops.
pub uninterp spec fn set_host_spec(u: Seq<char>, new_host: Seq<char>) -> Result<Seq<char>, ()>;

/// A wrapper that owns exactly one successfully parsed URL.
///
/// `text` mirrors the canonical serialization of `inner` at all times; it is
/// the model that every contract speaks of. The value holds no references to
/// anything script-visible, only library-owned data.
pub struct Url {
    inner: RawUrl,
    text: String,
}

/// Why a `Url` could not be constructed.
#[derive(Debug)]
pub enum ParseError {
    /// The text itself was rejected by the URL parser; `detail` is the
    /// parser's error text.
    Syntax { detail: String },
    /// The base text parsed, but the resulting URL cannot serve as a base;
    /// `base` is the offending base text.
    InvalidBase { base: String },
    /// Resolution of the relative text against a valid base failed; `detail`
    /// is the parser's error text.
    InvalidRelative { detail: String },
}

impl View for Url {
    type V = Seq<char>;

    closed spec fn view(&self) -> Seq<char> {
        self.text@
    }
}

impl Url {
    /// Relies on `url::Url::parse` and on the parse error's display text:
    /// both are functions of the input string alone. `Url::as_str` is the
    /// canonical serialization of the parsed URL.
    #[verifier::external_body]
    fn parse_raw(input: &str) -> (r: Result<Url, String>)
        ensures
            match r {
                Ok(u) => parse_spec(input@) == Ok::<Seq<char>, Seq<char>>(u@),
                Err(e) => parse_spec(input@) == Err::<Seq<char>, Seq<char>>(e@),
            },
    {
        match url::Url::parse(input) {
            Ok(u) => {
                let text = u.as_str().to_string();
                Ok(Url { inner: u, text })
            }
            Err(e) => Err(e.to_string()),
        }
    }

    /// Relies on `url::Url::join` and on the parse error's display text: both
    /// are functions of the base URL (determined by its serialization) and
    /// the input string alone.
    #[verifier::external_body]
    fn join_raw(&self, input: &str) -> (r: Result<Url, String>)
        ensures
            match r {
                Ok(u) => join_spec(self@, input@) == Ok::<Seq<char>, Seq<char>>(u@),
                Err(e) => join_spec(self@, input@) == Err::<Seq<char>, Seq<char>>(e@),
            },
    {
        match self.inner.join(input) {
            Ok(u) => {
                let text = u.as_str().to_string();
                Ok(Url { inner: u, text })
            }
            Err(e) => Err(e.to_string()),
        }
    }

    /// Whether this URL cannot serve as a base: its scheme has no
    /// hierarchical part, that is, the character after the scheme's `:` is
    /// not `/`.
    pub fn cannot_be_a_base(&self) -> (r: bool)
        ensures
            r == cannot_be_a_base_text(self@),
    {
        let s = self.text.as_str();
        let n = s.unicode_len();
        let mut i: usize = 0;
        while i < n && s.get_char(i) != ':'
            invariant
                i <= n,
                n == s@.len(),
                s@ == self@,
                forall|j: int| 0 <= j < i ==> s@[j] != ':',
            decreases n - i,
        {
            i = i + 1;
        }
        proof {
            lemma_first_colon_at(self@, i as int);
        }
        if i < n {
            if i + 1 < n {
                let c = s.get_char(i + 1);
                return c != '/';
            }
            return true;
        }
        true
    }

    /// Relies on `url::quirks::host`, the lenient getter: a function of the
    /// URL value alone, returning an empty string when the URL has no host.
    #[verifier::external_body]
    fn host_raw(&self) -> (r: String)
        ensures
            r@ == host_spec(self@),
    {
        url::quirks::host(&self.inner).to_string()
    }

    /// Relies on `url::quirks::set_host`, the lenient setter: it returns
    /// `Err` without touching the URL when the URL cannot be a base or when
    /// the value is not a valid host, and otherwise splices the new host (and
    /// port) into the serialization, leaving scheme, path, query and fragment
    /// as they were.
    #[verifier::external_body]
    fn set_host_raw(&mut self, value: &str)
        ensures
            final(self)@ == (match set_host_spec(old(self)@, value@) {
                Ok(t) => t,
                Err(_) => old(self)@,
            }),
            cannot_be_a_base_text(old(self)@) ==> set_host_spec(old(self)@, value@) is Err,
    {
        let _ = url::quirks::set_host(&mut self.inner, value);
        self.text = self.inner.as_str().to_string();
    }

    /// Relies on `url::Url`'s `Clone` implementation: the copy carries the
    /// same serialization.
    #[verifier::external_body]
    fn clone_raw(&self) -> (r: Url)
        ensures
            r@ == self@,
    {
        Url { inner: self.inner.clone(), text: self.text.clone() }
    }

    /// Parses `text` as an absolute URL.
    pub fn construct_from_absolute(text: &str) -> (r: Result<Url, ParseError>)
        ensures
            match parse_spec(text@) {
                Ok(t) => r matches Ok(u) && u@ == t,
                Err(e) => r matches Err(ParseError::Syntax { detail }) && detail@ == e,
            },
    {
        match Self::parse_raw(text) {
            Ok(u) => Ok(u),
            Err(detail) => Err(ParseError::Syntax { detail }),
        }
    }

    /// Parses `base_text` as an absolute URL and resolves `text` against it.
    ///
    /// Fails with `Syntax` when the base itself does not parse, with
    /// `InvalidBase` when it parses but cannot serve as a base, and with
    /// `InvalidRelative` when resolution of `text` against it fails.
    pub fn construct_relative(text: &str, base_text: &str) -> (r: Result<Url, ParseError>)
        ensures
            match parse_spec(base_text@) {
                Err(e) => r matches Err(ParseError::Syntax { detail }) && detail@ == e,
                Ok(b) => {
                    if cannot_be_a_base_text(b) {
                        r matches Err(ParseError::InvalidBase { base }) && base@ == base_text@
                    } else {
                        match join_spec(b, text@) {
                            Ok(t) => r matches Ok(u) && u@ == t,
                            Err(e) => (r matches Err(ParseError::InvalidRelative { detail })
                                && detail@ == e),
                        }
                    }
                },
            },
    {
        let base_url = match Self::parse_raw(base_text) {
            Ok(u) => u,
            Err(detail) => {
                return Err(ParseError::Syntax { detail });
            }
        };
        if base_url.cannot_be_a_base() {
            return Err(ParseError::InvalidBase { base: String::from_str(base_text) });
        }
        match base_url.join_raw(text) {
            Ok(u) => Ok(u),
            Err(detail) => Err(ParseError::InvalidRelative { detail }),
        }
    }

    /// Returns the host component through the lenient getter: the empty
    /// string, rather than a failure, when the URL has no host.
    pub fn get_host(&self) -> (r: String)
        ensures
            r@ == host_spec(self@),
    {
        self.host_raw()
    }

    /// Sets the host component through the lenient setter. When the URL
    /// cannot be a base, or the value is not a valid host, the URL is left
    /// unchanged; no error is signalled either way. A successful assignment
    /// rewrites only the host and port of the underlying URL, but the model
    /// here is the whole serialization — the URL is not decomposed further —
    /// so the contract pins the new state as the named setter result.
    pub fn set_host(&mut self, value: &str)
        ensures
            final(self)@ == (match set_host_spec(old(self)@, value@) {
                Ok(t) => t,
                Err(_) => old(self)@,
            }),
            set_host_spec(old(self)@, value@) is Err ==> final(self)@ == old(self)@,
            cannot_be_a_base_text(old(self)@) ==> final(self)@ == old(self)@,
    {
        self.set_host_raw(value);
    }

    /// Duplicates the wrapper: a shallow value copy with the same model.
    pub fn duplicate(&self) -> (r: Url)
        ensures
            r@ == self@,
    {
        self.clone_raw()
    }
}

/// Reading the host twice with no intervening mutation yields identical
/// results: the getter's result is a function of the URL's model alone.
pub proof fn lemma_get_host_idempotent(u: Seq<char>, first: Seq<char>, second: Seq<char>)
    requires
        first == host_spec(u),
        second == host_spec(u),
    ensures
        first == second,
{
}

} // verus!
