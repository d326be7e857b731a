//! Request bodies with optional fields.
//!
//! A body is a JSON object. Its members are written in the order in which
//! the fields are declared; a field that was never set leaves no member at
//! all, and a field set to an empty value leaves a member with that value.

use vstd::prelude::*;
use vstd::string::*;
use crate::json::{
    array_text, bool_text, decimal, decimal_text, json_array, json_quoted, joined,
    lemma_joined_push, lemma_marks, number_array, push_bool, push_joined, quote, quoted_all,
    string_array, Json, JsonNumber,
};

verus! {

/// One member of a JSON object: its name, unquoted, and the text of its
/// value.
pub struct Member {
    pub name: Seq<char>,
    pub text: Seq<char>,
}

/// The text of one member: the quoted name, a colon, the value.
pub open spec fn member_text(m: Member) -> Seq<char> {
    json_quoted(m.name) + seq![':'] + m.text
}

/// The texts of `members`, in order.
pub open spec fn member_texts(members: Seq<Member>) -> Seq<Seq<char>> {
    members.map_values(|m: Member| member_text(m))
}

/// The names of `members`, in order.
pub open spec fn member_names(members: Seq<Member>) -> Seq<Seq<char>> {
    members.map_values(|m: Member| m.name)
}

/// The JSON object with the given members, in that order.
pub open spec fn object_text(members: Seq<Member>) -> Seq<char> {
    seq!['{'] + joined(member_texts(members), seq![',']) + seq!['}']
}

/// The one member `name` with the value text `text`.
pub open spec fn one(name: Seq<char>, text: Seq<char>) -> Seq<Member> {
    seq![Member { name, text }]
}

/// The member `name` where a value text is present, nothing where it is
/// absent.
pub open spec fn maybe(name: Seq<char>, text: Option<Seq<char>>) -> Seq<Member> {
    match text {
        Some(t) => one(name, t),
        None => Seq::empty(),
    }
}

/// The quoted text of a string that may be absent.
pub open spec fn opt_quoted(s: Option<Seq<char>>) -> Option<Seq<char>> {
    match s {
        Some(s) => Some(json_quoted(s)),
        None => None,
    }
}

/// The numeral of a number that may be absent.
pub open spec fn opt_decimal(n: Option<u64>) -> Option<Seq<char>> {
    match n {
        Some(n) => Some(decimal_text(n as nat)),
        None => None,
    }
}

/// The numeral of a 32-bit number that may be absent.
pub open spec fn opt_decimal32(n: Option<u32>) -> Option<Seq<char>> {
    match n {
        Some(n) => Some(decimal_text(n as nat)),
        None => None,
    }
}

/// The text of a truth value that may be absent.
pub open spec fn opt_bool(b: Option<bool>) -> Option<Seq<char>> {
    match b {
        Some(b) => Some(bool_text(b)),
        None => None,
    }
}

/// The array of a list of value texts that may be absent.
pub open spec fn opt_array(items: Option<Seq<Seq<char>>>) -> Option<Seq<char>> {
    match items {
        Some(items) => Some(array_text(items)),
        None => None,
    }
}

/// The array, each string quoted, of a list of strings that may be absent.
pub open spec fn opt_quoted_array(items: Option<Seq<Seq<char>>>) -> Option<Seq<char>> {
    match items {
        Some(items) => Some(array_text(quoted_all(items))),
        None => None,
    }
}

/// The name `name` where `set` holds, nothing where it does not.
#[verifier::opaque]
pub open spec fn name_if(set: bool, name: Seq<char>) -> Seq<Seq<char>> {
    if set {
        seq![name]
    } else {
        Seq::empty()
    }
}

/// A member that is always written adds its name to the names.
pub proof fn lemma_names_one(members: Seq<Member>, name: Seq<char>, text: Seq<char>)
    ensures
        member_names(members + one(name, text)) == member_names(members) + seq![name],
{
    assert(member_names(members + one(name, text)) =~= member_names(members) + seq![name]);
}

/// A member that may be absent adds its name to the names exactly where
/// it is present.
pub proof fn lemma_names_maybe(members: Seq<Member>, name: Seq<char>, text: Option<Seq<char>>)
    ensures
        member_names(members + maybe(name, text)) == member_names(members) + name_if(
            text is Some,
            name,
        ),
{
    reveal(name_if);
    assert(member_names(members + maybe(name, text)) =~= member_names(members) + name_if(
        text is Some,
        name,
    ));
}

/// A name is among two names exactly where it is one of them.
pub proof fn lemma_pair_contains(a: Seq<char>, b: Seq<char>, k: Seq<char>)
    ensures
        seq![a, b].contains(k) <==> (k == a || k == b),
{
    let s = seq![a, b];
    assert(s[0] == a);
    assert(s[1] == b);
}

/// A name is among `names` followed by `name_if(set, name)` exactly where
/// it is among `names`, or the condition holds and it is that name.
pub proof fn lemma_name_if_contains(
    names: Seq<Seq<char>>,
    set: bool,
    name: Seq<char>,
    k: Seq<char>,
)
    ensures
        (names + name_if(set, name)).contains(k) <==> (names.contains(k) || (set && k == name)),
{
    reveal(name_if);
    vstd::seq_lib::lemma_seq_concat_contains_all_elements(names, name_if(set, name), k);
    if set {
        assert(name_if(set, name)[0] == name);
    }
}

/// Writes a JSON object member by member.
pub struct ObjectWriter {
    out: String,
    any: bool,
    members: Ghost<Seq<Member>>,
}

impl ObjectWriter {
    #[verifier::type_invariant]
    spec fn framed(&self) -> bool {
        &&& self.any == (self.members@.len() > 0)
        &&& self.out@ == seq!['{'] + joined(member_texts(self.members@), seq![','])
    }

    /// The members written so far.
    pub closed spec fn members(&self) -> Seq<Member> {
        self.members@
    }

    /// A writer that has written no member yet.
    pub fn new() -> (w: Self)
        ensures
            w.members() == Seq::<Member>::empty(),
    {
        proof {
            lemma_marks();
        }
        let out = String::from_str("{");
        assert(out@ =~= seq!['{'] + joined(member_texts(Seq::<Member>::empty()), seq![',']));
        ObjectWriter { out, any: false, members: Ghost(Seq::empty()) }
    }

    /// Writes the member `name` with the value text `text`.
    pub fn member(self, name: &str, text: &str) -> (w: Self)
        ensures
            w.members() == self.members() + one(name@, text@),
    {
        proof {
            use_type_invariant(&self);
            lemma_marks();
        }
        let ghost before = self.members@;
        let ghost m = Member { name: name@, text: text@ };
        let mut item: String = quote(name);
        item.append(":");
        item.append(text);
        assert(item@ == member_text(m));
        let first: bool = !self.any;
        let mut out: String = self.out;
        push_joined(&mut out, first, ",", item.as_str());
        proof {
            assert(before + one(name@, text@) =~= before.push(m));
            assert(member_texts(before.push(m)) =~= member_texts(before).push(member_text(m)));
            lemma_joined_push(member_texts(before), seq![','], member_text(m));
            assert(out@ =~= seq!['{'] + joined(
                member_texts(before + one(name@, text@)),
                seq![','],
            ));
        }
        ObjectWriter { out, any: true, members: Ghost(before + one(name@, text@)) }
    }

    /// Writes the member `name` where `text` is present, and nothing where
    /// it is absent.
    pub fn maybe_member(self, name: &str, text: Option<&str>) -> (w: Self)
        ensures
            w.members() == self.members() + maybe(name@, text.deep_view()),
    {
        match text {
            Some(t) => self.member(name, t),
            None => {
                assert(self.members() + maybe(name@, text.deep_view()) =~= self.members());
                self
            },
        }
    }

    /// Writes the member `name` with the string `value`, quoted.
    pub fn string(self, name: &str, value: &str) -> (w: Self)
        ensures
            w.members() == self.members() + one(name@, json_quoted(value@)),
    {
        let text: String = quote(value);
        self.member(name, text.as_str())
    }

    /// Writes the member `name` with a string, quoted, where one is given.
    pub fn opt_str(self, name: &str, value: Option<&str>) -> (w: Self)
        ensures
            w.members() == self.members() + maybe(name@, opt_quoted(value.deep_view())),
    {
        match value {
            Some(v) => self.string(name, v),
            None => self.maybe_member(name, None),
        }
    }

    /// Writes the member `name` with a string, quoted, where the field holds
    /// one.
    pub fn opt_string(self, name: &str, value: &Option<String>) -> (w: Self)
        ensures
            w.members() == self.members() + maybe(name@, opt_quoted(value.deep_view())),
    {
        match value {
            Some(v) => self.string(name, v.as_str()),
            None => self.maybe_member(name, None),
        }
    }

    /// Writes the member `name` with a number where one is given.
    pub fn opt_unsigned(self, name: &str, value: Option<u64>) -> (w: Self)
        ensures
            w.members() == self.members() + maybe(name@, opt_decimal(value)),
    {
        match value {
            Some(v) => {
                let text: String = decimal(v);
                self.member(name, text.as_str())
            },
            None => self.maybe_member(name, None),
        }
    }

    /// Writes the member `name` with a 32-bit number where one is given.
    pub fn opt_unsigned32(self, name: &str, value: Option<u32>) -> (w: Self)
        ensures
            w.members() == self.members() + maybe(name@, opt_decimal32(value)),
    {
        match value {
            Some(v) => {
                let text: String = decimal(v as u64);
                self.member(name, text.as_str())
            },
            None => self.maybe_member(name, None),
        }
    }

    /// Writes the member `name` with a truth value where one is given.
    pub fn opt_bool(self, name: &str, value: Option<bool>) -> (w: Self)
        ensures
            w.members() == self.members() + maybe(name@, opt_bool(value)),
    {
        match value {
            Some(v) => {
                let mut text = String::new();
                push_bool(&mut text, v);
                assert(text@ =~= bool_text(v));
                self.member(name, text.as_str())
            },
            None => self.maybe_member(name, None),
        }
    }

    /// Writes the member `name` with the value `value`.
    pub fn json(self, name: &str, value: &Json) -> (w: Self)
        ensures
            w.members() == self.members() + one(name@, value@),
    {
        self.member(name, value.as_str())
    }

    /// Writes the member `name` with a value where the field holds one.
    pub fn opt_json(self, name: &str, value: &Option<Json>) -> (w: Self)
        ensures
            w.members() == self.members() + maybe(name@, value.deep_view()),
    {
        match value {
            Some(v) => self.member(name, v.as_str()),
            None => self.maybe_member(name, None),
        }
    }

    /// Writes the member `name` with a number where the field holds one.
    pub fn opt_number(self, name: &str, value: &Option<JsonNumber>) -> (w: Self)
        ensures
            w.members() == self.members() + maybe(name@, value.deep_view()),
    {
        match value {
            Some(v) => self.member(name, v.as_str()),
            None => self.maybe_member(name, None),
        }
    }

    /// Writes the member `name` with the array of `value`.
    pub fn json_list(self, name: &str, value: &Vec<Json>) -> (w: Self)
        ensures
            w.members() == self.members() + one(name@, array_text(value.deep_view())),
    {
        let text: String = json_array(value);
        self.member(name, text.as_str())
    }

    /// Writes the member `name` with an array of values where the field
    /// holds a list.
    pub fn opt_json_list(self, name: &str, value: &Option<Vec<Json>>) -> (w: Self)
        ensures
            w.members() == self.members() + maybe(name@, opt_array(value.deep_view())),
    {
        match value {
            Some(v) => self.json_list(name, v),
            None => self.maybe_member(name, None),
        }
    }

    /// Writes the member `name` with an array of numbers where the field
    /// holds a list.
    pub fn opt_number_list(self, name: &str, value: &Option<Vec<JsonNumber>>) -> (w: Self)
        ensures
            w.members() == self.members() + maybe(name@, opt_array(value.deep_view())),
    {
        match value {
            Some(v) => {
                let text: String = number_array(v);
                self.member(name, text.as_str())
            },
            None => self.maybe_member(name, None),
        }
    }

    /// Writes the member `name` with an array of quoted strings where the
    /// field holds a list.
    pub fn opt_string_list(self, name: &str, value: &Option<Vec<String>>) -> (w: Self)
        ensures
            w.members() == self.members() + maybe(name@, opt_quoted_array(value.deep_view())),
    {
        match value {
            Some(v) => {
                let text: String = string_array(v);
                self.member(name, text.as_str())
            },
            None => self.maybe_member(name, None),
        }
    }

    /// Closes the object and hands out its text.
    pub fn finish(self) -> (r: String)
        ensures
            r@ == object_text(self.members()),
    {
        proof {
            use_type_invariant(&self);
            lemma_marks();
        }
        let mut out = self.out;
        out.append("}");
        out
    }
}

} // verus!
