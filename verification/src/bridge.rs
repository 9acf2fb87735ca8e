//! Script-facing binding logic.
//!
//! A binding layer that installs the URL class into a scripting context has
//! three jobs this module can carry: deciding, for the script constructor's
//! arguments, which native construction to run; translating a native parse
//! failure into the exact error message the script side must see; and
//! translating multi-word member names into camelCase. All three are plain
//! functions from text to text, verified here; the registration plumbing
//! itself stays with the embedding host.

use vstd::prelude::*;
use vstd::string::StringExecFns;
use crate::url_value::ParseError;
use crate::url_value::Url;
use crate::url_value::cannot_be_a_base_text;
use crate::url_value::join_spec;
use crate::url_value::parse_spec;

verus! {

/// Message for a URL that failed to parse on its own, with no base supplied.
pub open spec fn msg_parse_base_failed(detail: Seq<char>) -> Seq<char> {
    "Failed to parse base URL: "@ + detail
}

/// Message for a base that parsed but cannot serve as a base.
pub open spec fn msg_cannot_be_a_base(base: Seq<char>) -> Seq<char> {
    "Base URL "@ + base + " cannot be a base"@
}

/// Message for any other failure on the base-supplied path: a relative URL
/// that failed to resolve against a valid base, or a base that itself failed
/// to parse.
pub open spec fn msg_parse_failed(detail: Seq<char>) -> Seq<char> {
    "Failed to parse URL: "@ + detail
}

/// The script-visible error message for each construction failure. The
/// template depends on whether a base argument was supplied: with one, every
/// failure other than an unusable base reads "Failed to parse URL"; without
/// one, a parse failure reads "Failed to parse base URL".
pub open spec fn error_message_spec(e: &ParseError, base_supplied: bool) -> Seq<char> {
    match e {
        ParseError::Syntax { detail } => {
            if base_supplied {
                msg_parse_failed(detail@)
            } else {
                msg_parse_base_failed(detail@)
            }
        },
        ParseError::InvalidBase { base } => msg_cannot_be_a_base(base@),
        ParseError::InvalidRelative { detail } => msg_parse_failed(detail@),
    }
}

/// Renders a construction failure as the message a script-level TypeError
/// must carry; `base_supplied` says which constructor path failed.
pub fn constructor_error_message(e: &ParseError, base_supplied: bool) -> (r: String)
    ensures
        r@ == error_message_spec(e, base_supplied),
{
    match e {
        ParseError::Syntax { detail } => {
            let mut s = if base_supplied {
                String::from_str("Failed to parse URL: ")
            } else {
                String::from_str("Failed to parse base URL: ")
            };
            s.append(detail.as_str());
            s
        },
        ParseError::InvalidBase { base } => {
            let mut s = String::from_str("Base URL ");
            s.append(base.as_str());
            s.append(" cannot be a base");
            s
        },
        ParseError::InvalidRelative { detail } => {
            let mut s = String::from_str("Failed to parse URL: ");
            s.append(detail.as_str());
            s
        },
    }
}

/// The constructor decision: what evaluating `new URL(url_text, base_text?)`
/// must produce once both arguments are coerced to text. `Ok` carries the
/// constructed native value, `Err` the message of the TypeError the script
/// side must raise.
pub fn construct(url_text: &str, base_text: Option<&str>) -> (r: Result<Url, String>)
    ensures
        match base_text {
            Some(b) => match parse_spec(b@) {
                Err(e) => r matches Err(m) && m@ == msg_parse_failed(e),
                Ok(bc) => {
                    if cannot_be_a_base_text(bc) {
                        r matches Err(m) && m@ == msg_cannot_be_a_base(b@)
                    } else {
                        match join_spec(bc, url_text@) {
                            Ok(t) => r matches Ok(u) && u@ == t,
                            Err(e) => r matches Err(m) && m@ == msg_parse_failed(e),
                        }
                    }
                },
            },
            None => match parse_spec(url_text@) {
                Ok(t) => r matches Ok(u) && u@ == t,
                Err(e) => r matches Err(m) && m@ == msg_parse_base_failed(e),
            },
        },
{
    let result = match base_text {
        Some(b) => Url::construct_relative(url_text, b),
        None => Url::construct_from_absolute(url_text),
    };
    match result {
        Ok(u) => Ok(u),
        Err(e) => Err(constructor_error_message(&e, base_text.is_some())),
    }
}

/// The uppercase form of an ASCII lowercase letter; any other character is
/// unchanged.
pub open spec fn upper_char(c: char) -> char {
    if 'a' <= c && c <= 'z' {
        (((c as u8) - 32) as u8) as char
    } else {
        c
    }
}

/// CamelCase translation of the tail `s` of a member name: underscores are
/// dropped and the character following each run of underscores is
/// uppercased; `up` says whether the first character follows an underscore.
pub open spec fn camel_from(s: Seq<char>, up: bool) -> Seq<char>
    decreases s.len(),
{
    if s.len() == 0 {
        Seq::empty()
    } else if s[0] == '_' {
        camel_from(s.drop_first(), true)
    } else if up {
        seq![upper_char(s[0])] + camel_from(s.drop_first(), false)
    } else {
        seq![s[0]] + camel_from(s.drop_first(), false)
    }
}

/// The camelCase form of a member name: a single-word name is unchanged.
pub open spec fn camel_case_spec(s: Seq<char>) -> Seq<char> {
    camel_from(s, false)
}

/// Relies on `String::push`: appends exactly the one character.
#[verifier::external_body]
fn push_char(s: &mut String, c: char)
    ensures
        final(s)@ == old(s)@ + seq![c],
{
    s.push(c);
}

fn upper(c: char) -> (r: char)
    ensures
        r == upper_char(c),
{
    if 'a' <= c && c <= 'z' {
        ((c as u8) - 32) as char
    } else {
        c
    }
}

/// Translates a native member name to the camelCase form under which the
/// binding exposes it to scripts.
pub fn camel_case(name: &str) -> (r: String)
    ensures
        r@ == camel_case_spec(name@),
{
    let n = name.unicode_len();
    let mut out = String::new();
    let mut up = false;
    let mut i: usize = 0;
    proof {
        assert(name@.skip(0) =~= name@);
    }
    while i < n
        invariant
            i <= n,
            n == name@.len(),
            out@ + camel_from(name@.skip(i as int), up) == camel_case_spec(name@),
        decreases n - i,
    {
        let c = name.get_char(i);
        let ghost rest = name@.skip(i as int);
        proof {
            assert(rest.len() > 0);
            assert(rest[0] == name@[i as int]);
            assert(rest.drop_first() =~= name@.skip(i as int + 1));
        }
        if c == '_' {
            up = true;
        } else if up {
            push_char(&mut out, upper(c));
            up = false;
            proof {
                assert(out@ + camel_from(name@.skip(i as int + 1), false) =~= camel_case_spec(
                    name@,
                ));
            }
        } else {
            push_char(&mut out, c);
            proof {
                assert(out@ + camel_from(name@.skip(i as int + 1), false) =~= camel_case_spec(
                    name@,
                ));
            }
        }
        i = i + 1;
    }
    proof {
        assert(name@.skip(n as int) =~= Seq::<char>::empty());
        assert(out@ + camel_from(Seq::<char>::empty(), up) =~= out@);
    }
    out
}

} // verus!
