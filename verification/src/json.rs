//! JSON text: the pieces a request body is assembled from.
//!
//! Strings are quoted and escaped by `serde_json`; raw values and numbers are
//! checked by `serde_json` and then carried as text; the framing of objects
//! and arrays is written here.

use vstd::prelude::*;
use vstd::string::*;
use crate::error_handling::{Category, OpenAIError, OpenAIResult};

verus! {

#[verifier::external_type_specification]
#[verifier::external_body]
pub struct ExValue(serde_json::Value);

#[verifier::external_type_specification]
#[verifier::external_body]
pub struct ExNumber(serde_json::Number);

/// Whether `serde_json::from_str` reads `text` as one JSON value.
pub uninterp spec fn json_parses(text: Seq<char>) -> bool;

/// Whether `serde_json::from_str` reads `text` as one JSON number.
pub uninterp spec fn number_parses(text: Seq<char>) -> bool;

/// The JSON string literal, quotes and escapes included, that
/// `serde_json::to_string` writes for the string `s`.
pub uninterp spec fn json_quoted(s: Seq<char>) -> Seq<char>;

/// Calls `serde_json::from_str` at type `serde_json::Value`. The call
/// succeeds exactly on the texts that `json_parses` names.
#[verifier::external_body]
fn read_value(text: &str) -> (r: Result<serde_json::Value, serde_json::Error>)
    ensures
        r.is_ok() == json_parses(text@),
{
    serde_json::from_str::<serde_json::Value>(text)
}

/// Calls `serde_json::from_str` at type `serde_json::Number`. The call
/// succeeds exactly on the texts that `number_parses` names.
#[verifier::external_body]
fn read_number(text: &str) -> (r: Result<serde_json::Number, serde_json::Error>)
    ensures
        r.is_ok() == number_parses(text@),
{
    serde_json::from_str::<serde_json::Number>(text)
}

/// Calls `serde_json::to_string` on a string slice. The call writes into a
/// byte vector, which cannot fail, so it always succeeds, and its result is
/// the text that `json_quoted` names.
#[verifier::external_body]
fn write_string(s: &str) -> (r: Result<String, serde_json::Error>)
    ensures
        r.is_ok(),
        r matches Ok(text) ==> text@ == json_quoted(s@),
{
    serde_json::to_string(s)
}

/// The string `s` as a JSON string literal.
pub fn quote(s: &str) -> (r: String)
    ensures
        r@ == json_quoted(s@),
{
    write_string(s).unwrap()
}

/// The character of one decimal digit.
pub open spec fn digit_char(d: nat) -> char {
    if d == 0 {
        '0'
    } else if d == 1 {
        '1'
    } else if d == 2 {
        '2'
    } else if d == 3 {
        '3'
    } else if d == 4 {
        '4'
    } else if d == 5 {
        '5'
    } else if d == 6 {
        '6'
    } else if d == 7 {
        '7'
    } else if d == 8 {
        '8'
    } else {
        '9'
    }
}

/// The decimal numeral of `n`, without sign or leading zeros.
pub open spec fn decimal_text(n: nat) -> Seq<char>
    decreases n,
{
    if n < 10 {
        seq![digit_char(n)]
    } else {
        decimal_text(n / 10).push(digit_char(n % 10))
    }
}

/// `"true"` or `"false"`.
pub open spec fn bool_text(b: bool) -> Seq<char> {
    if b {
        seq!['t', 'r', 'u', 'e']
    } else {
        seq!['f', 'a', 'l', 's', 'e']
    }
}

fn digit_str(d: u64) -> (r: &'static str)
    requires
        d < 10,
    ensures
        r@ == seq![digit_char(d as nat)],
{
    proof {
        reveal_strlit("0");
        reveal_strlit("1");
        reveal_strlit("2");
        reveal_strlit("3");
        reveal_strlit("4");
        reveal_strlit("5");
        reveal_strlit("6");
        reveal_strlit("7");
        reveal_strlit("8");
        reveal_strlit("9");
    }
    let r: &'static str = if d == 0 {
        "0"
    } else if d == 1 {
        "1"
    } else if d == 2 {
        "2"
    } else if d == 3 {
        "3"
    } else if d == 4 {
        "4"
    } else if d == 5 {
        "5"
    } else if d == 6 {
        "6"
    } else if d == 7 {
        "7"
    } else if d == 8 {
        "8"
    } else {
        "9"
    };
    assert(r@ =~= seq![digit_char(d as nat)]);
    r
}

/// Appends the decimal numeral of `n` to `out`.
pub fn push_decimal(out: &mut String, n: u64)
    ensures
        final(out)@ == old(out)@ + decimal_text(n as nat),
    decreases n,
{
    if n >= 10 {
        push_decimal(out, n / 10);
    }
    let ghost before = out@;
    out.append(digit_str(n % 10));
    proof {
        if n < 10 {
            assert(out@ =~= old(out)@ + decimal_text(n as nat));
        } else {
            assert(before == old(out)@ + decimal_text((n / 10) as nat));
            assert(out@ =~= old(out)@ + decimal_text(n as nat));
        }
    }
}

/// The decimal numeral of `n` as a string.
pub fn decimal(n: u64) -> (r: String)
    ensures
        r@ == decimal_text(n as nat),
{
    let mut out = String::new();
    push_decimal(&mut out, n);
    assert(out@ =~= decimal_text(n as nat));
    out
}

/// Appends `"true"` or `"false"` to `out`.
pub fn push_bool(out: &mut String, b: bool)
    ensures
        final(out)@ == old(out)@ + bool_text(b),
{
    proof {
        reveal_strlit("true");
        reveal_strlit("false");
    }
    if b {
        assert("true"@ =~= bool_text(true));
        out.append("true");
    } else {
        assert("false"@ =~= bool_text(false));
        out.append("false");
    }
}

/// One JSON value of any shape, held as the text it was given in.
#[derive(Debug, PartialEq, Eq)]
pub struct Json {
    text: String,
}

impl View for Json {
    type V = Seq<char>;

    closed spec fn view(&self) -> Seq<char> {
        self.text@
    }
}

impl Json {
    #[verifier::type_invariant]
    spec fn parses(&self) -> bool {
        json_parses(self.text@)
    }

    /// Takes `text` as a JSON value if it is one, and fails with an encoding
    /// error if it is not. The text is kept as it stands.
    pub fn parse(text: &str) -> (r: OpenAIResult<Json>)
        ensures
            r.is_ok() == json_parses(text@),
            r matches Ok(j) ==> j@ == text@,
            r matches Err(e) ==> e.spec_category() == Category::Encoding,
    {
        match read_value(text) {
            Ok(_) => Ok(Json { text: String::from_str(text) }),
            Err(e) => Err(OpenAIError::from(e)),
        }
    }

    /// The text of the value, which reads as JSON.
    pub fn as_str(&self) -> (r: &str)
        ensures
            r@ == self@,
            json_parses(self@),
    {
        proof {
            use_type_invariant(self);
        }
        self.text.as_str()
    }
}

/// One JSON number, held as the numeral it was given in.
#[derive(Debug, PartialEq, Eq)]
pub struct JsonNumber {
    text: String,
}

impl View for JsonNumber {
    type V = Seq<char>;

    closed spec fn view(&self) -> Seq<char> {
        self.text@
    }
}

impl JsonNumber {
    #[verifier::type_invariant]
    spec fn parses(&self) -> bool {
        number_parses(self.text@)
    }

    /// Takes `text` as a JSON number if it is one, and fails with an encoding
    /// error if it is not. The numeral is kept as it stands.
    pub fn parse(text: &str) -> (r: OpenAIResult<JsonNumber>)
        ensures
            r.is_ok() == number_parses(text@),
            r matches Ok(n) ==> n@ == text@,
            r matches Err(e) ==> e.spec_category() == Category::Encoding,
    {
        match read_number(text) {
            Ok(_) => Ok(JsonNumber { text: String::from_str(text) }),
            Err(e) => Err(OpenAIError::from(e)),
        }
    }

    /// The numeral, which reads as a JSON number.
    pub fn as_str(&self) -> (r: &str)
        ensures
            r@ == self@,
            number_parses(self@),
    {
        proof {
            use_type_invariant(self);
        }
        self.text.as_str()
    }
}

impl Clone for Json {
    fn clone(&self) -> (r: Self)
        ensures
            r@ == self@,
    {
        proof {
            use_type_invariant(self);
        }
        Json { text: self.text.clone() }
    }
}

impl Clone for JsonNumber {
    fn clone(&self) -> (r: Self)
        ensures
            r@ == self@,
    {
        proof {
            use_type_invariant(self);
        }
        JsonNumber { text: self.text.clone() }
    }
}

impl DeepView for Json {
    type V = Seq<char>;

    open spec fn deep_view(&self) -> Seq<char> {
        self@
    }
}

impl DeepView for JsonNumber {
    type V = Seq<char>;

    open spec fn deep_view(&self) -> Seq<char> {
        self@
    }
}

/// `items` one after the other, with `sep` between each two neighbours.
pub open spec fn joined(items: Seq<Seq<char>>, sep: Seq<char>) -> Seq<char>
    decreases items.len(),
{
    if items.len() == 0 {
        Seq::empty()
    } else if items.len() == 1 {
        items[0]
    } else {
        joined(items.drop_last(), sep) + sep + items.last()
    }
}

/// What joining one more item adds to the joined text.
pub proof fn lemma_joined_push(items: Seq<Seq<char>>, sep: Seq<char>, item: Seq<char>)
    ensures
        joined(items.push(item), sep) == if items.len() == 0 {
            item
        } else {
            joined(items, sep) + sep + item
        },
{
    let more = items.push(item);
    assert(more.drop_last() =~= items);
    assert(more.last() == item);
    if items.len() == 0 {
        assert(more[0] == item);
    }
}

/// The JSON array whose elements have the texts `items`, in that order.
pub open spec fn array_text(items: Seq<Seq<char>>) -> Seq<char> {
    seq!['['] + joined(items, seq![',']) + seq![']']
}

/// The quoted text of each string of `items`.
pub open spec fn quoted_all(items: Seq<Seq<char>>) -> Seq<Seq<char>> {
    items.map_values(|s: Seq<char>| json_quoted(s))
}

/// What the punctuation literals of JSON text hold.
pub proof fn lemma_marks()
    ensures
        "["@ == seq!['['],
        "]"@ == seq![']'],
        "{"@ == seq!['{'],
        "}"@ == seq!['}'],
        ","@ == seq![','],
        ":"@ == seq![':'],
{
    reveal_strlit("[");
    reveal_strlit("]");
    reveal_strlit("{");
    reveal_strlit("}");
    reveal_strlit(",");
    reveal_strlit(":");
    assert("["@ =~= seq!['[']);
    assert("]"@ =~= seq![']']);
    assert("{"@ =~= seq!['{']);
    assert("}"@ =~= seq!['}']);
    assert(","@ =~= seq![',']);
    assert(":"@ =~= seq![':']);
}

/// Appends `item` to `out`: directly where `first` is set, after `sep`
/// where it is not.
pub fn push_joined(out: &mut String, first: bool, sep: &str, item: &str)
    ensures
        final(out)@ == if first {
            old(out)@ + item@
        } else {
            old(out)@ + sep@ + item@
        },
{
    if !first {
        out.append(sep);
    }
    out.append(item);
}

/// A value that is written into JSON text.
pub trait JsonText {
    /// The JSON text of the value.
    spec fn json_text(&self) -> Seq<char>;

    /// Writes the JSON text of the value.
    fn to_json_text(&self) -> (r: String)
        ensures
            r@ == self.json_text(),
    ;
}

impl JsonText for Json {
    open spec fn json_text(&self) -> Seq<char> {
        self@
    }

    fn to_json_text(&self) -> (r: String) {
        String::from_str(self.as_str())
    }
}

impl JsonText for JsonNumber {
    open spec fn json_text(&self) -> Seq<char> {
        self@
    }

    fn to_json_text(&self) -> (r: String) {
        String::from_str(self.as_str())
    }
}

impl JsonText for String {
    open spec fn json_text(&self) -> Seq<char> {
        json_quoted(self@)
    }

    fn to_json_text(&self) -> (r: String) {
        quote(self.as_str())
    }
}

/// The JSON texts of `items`, in order.
pub open spec fn json_texts<T: JsonText>(items: Seq<T>) -> Seq<Seq<char>> {
    items.map_values(|item: T| item.json_text())
}

/// Writes the JSON array of `items`.
pub fn array_of<T: JsonText>(items: &Vec<T>) -> (r: String)
    ensures
        r@ == array_text(json_texts(items@)),
{
    proof {
        lemma_marks();
    }
    let ghost texts = json_texts(items@);
    let mut out = String::from_str("[");
    assert(out@ =~= seq!['['] + joined(texts.take(0), seq![',']));
    let mut i: usize = 0;
    while i < items.len()
        invariant
            i <= items.len(),
            texts == json_texts(items@),
            out@ == seq!['['] + joined(texts.take(i as int), seq![',']),
        decreases items.len() - i,
    {
        let item: String = items[i].to_json_text();
        proof {
            assert(texts[i as int] == items[i as int].json_text());
            assert(texts.take(i as int + 1) =~= texts.take(i as int).push(texts[i as int]));
            lemma_joined_push(texts.take(i as int), seq![','], texts[i as int]);
            lemma_marks();
        }
        push_joined(&mut out, i == 0, ",", item.as_str());
        assert(out@ =~= seq!['['] + joined(texts.take(i as int + 1), seq![',']));
        i = i + 1;
    }
    assert(texts.take(i as int) =~= texts);
    out.append("]");
    out
}

/// Writes the JSON array of the given values.
pub fn json_array(items: &Vec<Json>) -> (r: String)
    ensures
        r@ == array_text(items.deep_view()),
{
    assert(json_texts(items@) =~= items.deep_view());
    array_of(items)
}

/// Writes the JSON array of the given numbers.
pub fn number_array(items: &Vec<JsonNumber>) -> (r: String)
    ensures
        r@ == array_text(items.deep_view()),
{
    assert(json_texts(items@) =~= items.deep_view());
    array_of(items)
}

/// Writes the JSON array of the given strings, each quoted.
pub fn string_array(items: &Vec<String>) -> (r: String)
    ensures
        r@ == array_text(quoted_all(items.deep_view())),
{
    assert(json_texts(items@) =~= quoted_all(items.deep_view()));
    array_of(items)
}

} // verus!
