//! Query strings with optional parameters.
//!
//! A parameter that is present is written as its name, `=` and its value,
//! and a parameter that is absent is not written. The first parameter
//! follows `?`, each later one follows `&`, and a path without parameters
//! stays as it is.

use vstd::prelude::*;
use vstd::string::*;
use crate::json::{
    bool_text, decimal, decimal_text, joined, lemma_joined_push, push_bool, push_joined,
};
use crate::payload::{opt_bool, opt_decimal, opt_decimal32};

verus! {

/// The text of one parameter.
pub open spec fn param_text(name: Seq<char>, value: Seq<char>) -> Seq<char> {
    name + seq!['='] + value
}

/// The parameter `name` where a value is present, nothing where it is
/// absent.
pub open spec fn maybe_param(name: Seq<char>, value: Option<Seq<char>>) -> Seq<Seq<char>> {
    match value {
        Some(v) => seq![param_text(name, v)],
        None => Seq::empty(),
    }
}

/// The numeral of an 8-bit number that may be absent.
pub open spec fn opt_decimal8(n: Option<u8>) -> Option<Seq<char>> {
    match n {
        Some(n) => Some(decimal_text(n as nat)),
        None => None,
    }
}

/// The query string of the given parameter texts: empty where there are
/// none.
pub open spec fn query_text(params: Seq<Seq<char>>) -> Seq<char> {
    if params.len() == 0 {
        Seq::empty()
    } else {
        seq!['?'] + joined(params, seq!['&'])
    }
}

/// What the punctuation literals of a query string hold.
pub proof fn lemma_query_marks()
    ensures
        "?"@ == seq!['?'],
        "&"@ == seq!['&'],
        "="@ == seq!['='],
{
    reveal_strlit("?");
    reveal_strlit("&");
    reveal_strlit("=");
    assert("?"@ =~= seq!['?']);
    assert("&"@ =~= seq!['&']);
    assert("="@ =~= seq!['=']);
}

/// Writes a path and, behind it, the parameters that are present.
pub struct UrlWriter {
    out: String,
    any: bool,
    path: Ghost<Seq<char>>,
    params: Ghost<Seq<Seq<char>>>,
}

impl UrlWriter {
    #[verifier::type_invariant]
    spec fn framed(&self) -> bool {
        &&& self.any == (self.params@.len() > 0)
        &&& self.out@ == self.path@ + query_text(self.params@)
    }

    /// The path the writer was started with.
    pub closed spec fn path(&self) -> Seq<char> {
        self.path@
    }

    /// The texts of the parameters written so far.
    pub closed spec fn params(&self) -> Seq<Seq<char>> {
        self.params@
    }

    /// A writer that holds `path` and no parameter yet.
    pub fn new(path: &str) -> (w: Self)
        ensures
            w.path() == path@,
            w.params() == Seq::<Seq<char>>::empty(),
    {
        let out = String::from_str(path);
        assert(out@ =~= path@ + query_text(Seq::<Seq<char>>::empty()));
        UrlWriter { out, any: false, path: Ghost(path@), params: Ghost(Seq::empty()) }
    }

    /// Writes the parameter `name` with the value `value`.
    pub fn param(self, name: &str, value: &str) -> (w: Self)
        ensures
            w.path() == self.path(),
            w.params() == self.params() + seq![param_text(name@, value@)],
    {
        proof {
            use_type_invariant(&self);
            lemma_query_marks();
        }
        let ghost before = self.params@;
        let ghost p = param_text(name@, value@);
        let mut item = String::from_str(name);
        item.append("=");
        item.append(value);
        assert(item@ == p);
        let first: bool = !self.any;
        let mut out: String = self.out;
        if first {
            out.append("?");
        }
        push_joined(&mut out, first, "&", item.as_str());
        proof {
            assert(before + seq![p] =~= before.push(p));
            lemma_joined_push(before, seq!['&'], p);
            assert(out@ =~= self.path@ + query_text(before + seq![p]));
        }
        UrlWriter { out, any: true, path: self.path, params: Ghost(before + seq![p]) }
    }

    /// Writes the parameter `name` where a value is given.
    pub fn opt_str(self, name: &str, value: Option<&str>) -> (w: Self)
        ensures
            w.path() == self.path(),
            w.params() == self.params() + maybe_param(name@, value.deep_view()),
    {
        match value {
            Some(v) => self.param(name, v),
            None => {
                assert(self.params() + maybe_param(name@, value.deep_view()) =~= self.params());
                self
            },
        }
    }

    /// Writes the parameter `name` where the field holds a value.
    pub fn opt_string(self, name: &str, value: &Option<String>) -> (w: Self)
        ensures
            w.path() == self.path(),
            w.params() == self.params() + maybe_param(name@, value.deep_view()),
    {
        match value {
            Some(v) => self.param(name, v.as_str()),
            None => self.opt_str(name, None),
        }
    }

    /// Writes the parameter `name` with a number where one is given.
    pub fn opt_unsigned(self, name: &str, value: Option<u64>) -> (w: Self)
        ensures
            w.path() == self.path(),
            w.params() == self.params() + maybe_param(name@, opt_decimal(value)),
    {
        match value {
            Some(v) => {
                let text: String = decimal(v);
                self.param(name, text.as_str())
            },
            None => self.opt_str(name, None),
        }
    }

    /// Writes the parameter `name` with a 32-bit number where one is given.
    pub fn opt_unsigned32(self, name: &str, value: Option<u32>) -> (w: Self)
        ensures
            w.path() == self.path(),
            w.params() == self.params() + maybe_param(name@, opt_decimal32(value)),
    {
        match value {
            Some(v) => {
                let text: String = decimal(v as u64);
                self.param(name, text.as_str())
            },
            None => self.opt_str(name, None),
        }
    }

    /// Writes the parameter `name` with an 8-bit number where one is given.
    pub fn opt_unsigned8(self, name: &str, value: Option<u8>) -> (w: Self)
        ensures
            w.path() == self.path(),
            w.params() == self.params() + maybe_param(name@, opt_decimal8(value)),
    {
        match value {
            Some(v) => {
                let text: String = decimal(v as u64);
                self.param(name, text.as_str())
            },
            None => self.opt_str(name, None),
        }
    }

    /// Writes the parameter `name` with `true` or `false` where a truth
    /// value is given.
    pub fn opt_bool(self, name: &str, value: Option<bool>) -> (w: Self)
        ensures
            w.path() == self.path(),
            w.params() == self.params() + maybe_param(name@, opt_bool(value)),
    {
        match value {
            Some(v) => {
                let mut text = String::new();
                push_bool(&mut text, v);
                assert(text@ =~= bool_text(v));
                self.param(name, text.as_str())
            },
            None => self.opt_str(name, None),
        }
    }

    /// Hands out the path with its query string.
    pub fn finish(self) -> (r: String)
        ensures
            r@ == self.path() + query_text(self.params()),
    {
        proof {
            use_type_invariant(&self);
        }
        self.out
    }
}

} // verus!
