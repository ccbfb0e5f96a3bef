//! JSON values as the bridge reads and writes them.
//!
//! Text is turned into a [`Json`] tree by `serde_json`; everything the bridge
//! then does with the tree (field lookup with defaults, compact re-encoding)
//! is done here on plain values.

use crate::text::{append_piece, clone_opt, opt_view, single_line};
use vstd::prelude::*;
use vstd::string::*;

verus! {

/// A JSON number, held by its three readings.
#[derive(Debug, PartialEq, Eq)]
pub struct JsonNumber {
    /// The number as it is written in compact JSON.
    pub text: String,
    /// The number as a `u64`, when it is a non-negative integer in range.
    pub unsigned: Option<u64>,
    /// The number read as a double, written as a JSON number literal.
    pub float_text: Option<String>,
}

pub ghost struct JsonNumberView {
    pub text: Seq<char>,
    pub unsigned: Option<u64>,
    pub float_text: Option<Seq<char>>,
}

impl JsonNumberView {
    /// Neither way of writing the number holds a newline.
    pub open spec fn plain(self) -> bool {
        &&& single_line(self.text)
        &&& self.float_text matches Some(t) ==> single_line(t)
    }
}

impl View for JsonNumber {
    type V = JsonNumberView;

    open spec fn view(&self) -> JsonNumberView {
        JsonNumberView {
            text: self.text@,
            unsigned: self.unsigned,
            float_text: opt_view(self.float_text),
        }
    }
}

impl Clone for JsonNumber {
    fn clone(&self) -> (res: Self)
        ensures
            res@ == self@,
    {
        JsonNumber {
            text: self.text.clone(),
            unsigned: self.unsigned,
            float_text: clone_opt(&self.float_text),
        }
    }
}

/// A JSON value. An object keeps its members as a list; a key is looked up
/// from the front.
#[derive(Debug, PartialEq, Eq)]
pub enum Json {
    Null,
    Bool(bool),
    Number(JsonNumber),
    String(String),
    Array(Vec<Json>),
    Object(Vec<(String, Json)>),
}

pub ghost enum JsonView {
    Null,
    Bool(bool),
    Number(JsonNumberView),
    String(Seq<char>),
    Array(Seq<JsonView>),
    Object(Seq<(Seq<char>, JsonView)>),
}

/// The view of the first `n` of `items`.
pub open spec fn items_view(items: Seq<Json>, n: nat) -> Seq<JsonView>
    decreases items, n,
{
    if n == 0 || n > items.len() {
        Seq::empty()
    } else {
        items_view(items, (n - 1) as nat).push(json_view(items[n - 1]))
    }
}

/// The view of the first `n` of `members`.
pub open spec fn members_view(members: Seq<(String, Json)>, n: nat) -> Seq<(Seq<char>, JsonView)>
    decreases members, n,
{
    if n == 0 || n > members.len() {
        Seq::empty()
    } else {
        members_view(members, (n - 1) as nat).push(
            (members[n - 1].0@, json_view(members[n - 1].1)),
        )
    }
}

/// The mathematical value of a [`Json`]: the same tree over sequences.
pub open spec fn json_view(j: Json) -> JsonView
    decreases j,
{
    match j {
        Json::Null => JsonView::Null,
        Json::Bool(b) => JsonView::Bool(b),
        Json::Number(n) => JsonView::Number(n@),
        Json::String(s) => JsonView::String(s@),
        Json::Array(items) => JsonView::Array(items_view(items@, items@.len())),
        Json::Object(members) => JsonView::Object(members_view(members@, members@.len())),
    }
}

impl View for Json {
    type V = JsonView;

    open spec fn view(&self) -> JsonView {
        json_view(*self)
    }
}

/// `items_view` keeps length and order.
pub proof fn lemma_items_view(items: Seq<Json>, n: nat)
    requires
        n <= items.len(),
    ensures
        items_view(items, n).len() == n,
        forall|k: int| 0 <= k < n ==> #[trigger] items_view(items, n)[k] == items[k]@,
    decreases n,
{
    if n > 0 {
        lemma_items_view(items, (n - 1) as nat);
    }
}

/// `members_view` keeps length and order.
pub proof fn lemma_members_view(members: Seq<(String, Json)>, n: nat)
    requires
        n <= members.len(),
    ensures
        members_view(members, n).len() == n,
        forall|k: int|
            0 <= k < n ==> #[trigger] members_view(members, n)[k] == (
                members[k].0@,
                members[k].1@,
            ),
    decreases n,
{
    if n > 0 {
        lemma_members_view(members, (n - 1) as nat);
    }
}

/// The value of the first member named `key`, if there is one.
pub open spec fn lookup(members: Seq<(Seq<char>, JsonView)>, key: Seq<char>) -> Option<JsonView>
    decreases members.len(),
{
    if members.len() == 0 {
        None
    } else if members[0].0 == key {
        Some(members[0].1)
    } else {
        lookup(members.drop_first(), key)
    }
}

/// The compact text of the first `n` items, separated by commas.
pub open spec fn items_text(items: Seq<JsonView>, n: nat) -> Seq<char>
    decreases items, n,
{
    if n == 0 || n > items.len() {
        Seq::empty()
    } else if n == 1 {
        items[0].text()
    } else {
        items_text(items, (n - 1) as nat) + ","@ + items[n - 1].text()
    }
}

/// The compact text of the first `n` members, each as `"key":value`,
/// separated by commas.
pub open spec fn members_text(members: Seq<(Seq<char>, JsonView)>, n: nat) -> Seq<char>
    decreases members, n,
{
    if n == 0 || n > members.len() {
        Seq::empty()
    } else if n == 1 {
        json_string_text(members[0].0) + ":"@ + members[0].1.text()
    } else {
        members_text(members, (n - 1) as nat) + ","@ + json_string_text(members[n - 1].0) + ":"@
            + members[n - 1].1.text()
    }
}

impl JsonView {
    /// Member lookup: the named member of an object, nothing for any other value.
    pub open spec fn get(self, key: Seq<char>) -> Option<JsonView> {
        match self {
            JsonView::Object(members) => lookup(members, key),
            _ => None,
        }
    }

    pub open spec fn as_str(self) -> Option<Seq<char>> {
        match self {
            JsonView::String(s) => Some(s),
            _ => None,
        }
    }

    pub open spec fn as_bool(self) -> Option<bool> {
        match self {
            JsonView::Bool(b) => Some(b),
            _ => None,
        }
    }

    pub open spec fn as_u64(self) -> Option<u64> {
        match self {
            JsonView::Number(n) => n.unsigned,
            _ => None,
        }
    }

    pub open spec fn float_text(self) -> Option<Seq<char>> {
        match self {
            JsonView::Number(n) => n.float_text,
            _ => None,
        }
    }

    pub open spec fn as_array(self) -> Option<Seq<JsonView>> {
        match self {
            JsonView::Array(items) => Some(items),
            _ => None,
        }
    }

    /// Whether the value is plain: every number in it is written without a
    /// newline.
    pub open spec fn plain(self) -> bool
        decreases self,
    {
        match self {
            JsonView::Number(n) => n.plain(),
            JsonView::Array(items) => forall|i: int|
                0 <= i < items.len() ==> (#[trigger] items[i]).plain(),
            JsonView::Object(members) => forall|i: int|
                0 <= i < members.len() ==> (#[trigger] members[i]).1.plain(),
            _ => true,
        }
    }

    /// The value written as compact JSON: no whitespace, members in their
    /// stored order.
    pub open spec fn text(self) -> Seq<char>
        decreases self,
    {
        match self {
            JsonView::Null => "null"@,
            JsonView::Bool(b) => if b {
                "true"@
            } else {
                "false"@
            },
            JsonView::Number(n) => n.text,
            JsonView::String(s) => json_string_text(s),
            JsonView::Array(items) => "["@ + items_text(items, items.len()) + "]"@,
            JsonView::Object(members) => "{"@ + members_text(members, members.len()) + "}"@,
        }
    }
}

/// The digit for a number below ten.
pub open spec fn digit(d: nat) -> char {
    seq!['0', '1', '2', '3', '4', '5', '6', '7', '8', '9'][d as int]
}

/// A number in decimal, without leading zeros.
pub open spec fn decimal(n: nat) -> Seq<char>
    decreases n,
{
    if n < 10 {
        seq![digit(n)]
    } else {
        decimal(n / 10).push(digit(n % 10))
    }
}

/// A number in decimal holds no newline.
pub proof fn lemma_decimal_single_line(n: nat)
    ensures
        single_line(decimal(n)),
    decreases n,
{
    if n >= 10 {
        lemma_decimal_single_line(n / 10);
    }
}

/// The marks and words of JSON hold no newline.
pub proof fn lemma_marks_single_line()
    ensures
        single_line("["@),
        single_line("]"@),
        single_line("{"@),
        single_line("}"@),
        single_line(","@),
        single_line(":"@),
        single_line("null"@),
        single_line("true"@),
        single_line("false"@),
{
    reveal_strlit("[");
    reveal_strlit("]");
    reveal_strlit("{");
    reveal_strlit("}");
    reveal_strlit(",");
    reveal_strlit(":");
    reveal_strlit("null");
    reveal_strlit("true");
    reveal_strlit("false");
}

/// Where every member's value is plain, so is the value that a lookup finds.
pub proof fn lemma_lookup_plain(members: Seq<(Seq<char>, JsonView)>, key: Seq<char>)
    requires
        forall|i: int| 0 <= i < members.len() ==> (#[trigger] members[i]).1.plain(),
    ensures
        lookup(members, key) matches Some(v) ==> v.plain(),
    decreases members.len(),
{
    if members.len() > 0 && members[0].0 != key {
        let rest = members.drop_first();
        assert forall|i: int| 0 <= i < rest.len() implies (#[trigger] rest[i]).1.plain() by {
            assert(rest[i] == members[i + 1]);
        }
        lemma_lookup_plain(rest, key);
    }
}

/// A member of a plain value is plain.
pub proof fn lemma_get_plain(j: JsonView, key: Seq<char>)
    requires
        j.plain(),
    ensures
        j.get(key) matches Some(v) ==> v.plain(),
{
    match j {
        JsonView::Object(members) => {
            assert(j->Object_0 == members);
            lemma_lookup_plain(members, key);
        },
        _ => {},
    }
}

/// The member `key` of `j` read as a string.
pub open spec fn str_field(j: JsonView, key: Seq<char>) -> Option<Seq<char>> {
    match j.get(key) {
        Some(v) => v.as_str(),
        None => None,
    }
}

/// The member `key` of `j` read as a boolean.
pub open spec fn bool_field(j: JsonView, key: Seq<char>) -> Option<bool> {
    match j.get(key) {
        Some(v) => v.as_bool(),
        None => None,
    }
}

/// The member `key` of `j` read as an unsigned integer.
pub open spec fn u64_field(j: JsonView, key: Seq<char>) -> Option<u64> {
    match j.get(key) {
        Some(v) => v.as_u64(),
        None => None,
    }
}

#[verifier::external_type_specification]
#[verifier::external_body]
pub struct ExValue(serde_json::Value);

/// What `serde_json::from_str` makes of `text`: the tree of the value it
/// returns, or nothing where it reports an error.
pub uninterp spec fn json_parse(text: Seq<char>) -> Option<JsonView>;

/// The tree that a `serde_json::Value` holds: its variant, its leaves and,
/// for an object, its members in the order in which its map yields them.
pub uninterp spec fn value_tree(v: serde_json::Value) -> JsonView;

/// What `serde_json::to_string` returns for a string: the JSON string
/// literal, quoted and escaped.
pub uninterp spec fn json_string_text(s: Seq<char>) -> Seq<char>;

/// Calls `serde_json::from_str` for a `serde_json::Value`. Nothing is claimed
/// about which texts parse; the outcome is only given its name.
#[verifier::external_body]
fn value_from_str(text: &str) -> (res: Option<serde_json::Value>)
    ensures
        match res {
            Some(v) => json_parse(text@) == Some(value_tree(v)),
            None => json_parse(text@) is None,
        },
{
    serde_json::from_str::<serde_json::Value>(text).ok()
}

/// Copies a `serde_json::Value` into a [`Json`], variant by variant. A number
/// is copied by `Number::to_string`, `Number::as_u64` and `Number::as_f64`
/// (the last one written out by `serde_json::to_string`). Beyond the name of
/// the result, one thing is claimed: `serde_json` writes a number with
/// digits, a sign, a point and an exponent, never with a newline.
#[verifier::external_body]
fn json_from_value(v: &serde_json::Value) -> (res: Json)
    ensures
        res@ == value_tree(*v),
        res@.plain(),
{
    match v {
        serde_json::Value::Null => Json::Null,
        serde_json::Value::Bool(b) => Json::Bool(*b),
        serde_json::Value::Number(n) => Json::Number(JsonNumber {
            text: n.to_string(),
            unsigned: n.as_u64(),
            float_text: n.as_f64().and_then(|x| serde_json::to_string(&x).ok()),
        }),
        serde_json::Value::String(s) => Json::String(s.clone()),
        serde_json::Value::Array(a) => Json::Array(a.iter().map(json_from_value).collect()),
        serde_json::Value::Object(m) => Json::Object(
            m.iter().map(|(k, x)| (k.clone(), json_from_value(x))).collect(),
        ),
    }
}

/// Calls `serde_json::to_string` on a string slice, which quotes and escapes
/// it. Beyond the name of the result, one thing is claimed: a newline in `s`
/// is written as a backslash and the letter n, so the result holds none.
#[verifier::external_body]
fn encode_string(s: &str) -> (res: String)
    ensures
        res@ == json_string_text(s@),
        single_line(res@),
{
    serde_json::to_string(s).unwrap_or_default()
}

/// Calls `serde_json::to_string` on a `u64`. The claim is that it writes the
/// number in decimal: its digits from the most significant on, and `0` for
/// zero.
#[verifier::external_body]
fn encode_unsigned(n: u64) -> (res: String)
    ensures
        res@ == decimal(n as nat),
{
    serde_json::to_string(&n).unwrap_or_default()
}

/// The JSON string literal for `s`.
pub fn string_literal(s: &str) -> (res: String)
    ensures
        res@ == json_string_text(s@),
        single_line(res@),
{
    encode_string(s)
}

/// The JSON number literal for `n`.
pub fn unsigned_literal(n: u64) -> (res: String)
    ensures
        res@ == decimal(n as nat),
        single_line(res@),
{
    proof {
        lemma_decimal_single_line(n as nat);
    }
    encode_unsigned(n)
}

impl Clone for Json {
    fn clone(&self) -> (res: Self)
        ensures
            res@ == self@,
        decreases self,
    {
        match self {
            Json::Null => Json::Null,
            Json::Bool(b) => Json::Bool(*b),
            Json::Number(n) => Json::Number(n.clone()),
            Json::String(s) => Json::String(s.clone()),
            Json::Array(items) => {
                let mut out: Vec<Json> = Vec::new();
                let mut i: usize = 0;
                while i < items.len()
                    invariant
                        i <= items.len(),
                        out@.len() == i,
                        forall|k: int| 0 <= k < i ==> out@[k]@ == items@[k]@,
                        forall|k: int|
                            0 <= k < items@.len() ==> decreases_to!(self => #[trigger] items@[k]),
                    decreases items.len() - i,
                {
                    out.push(items[i].clone());
                    i = i + 1;
                }
                let res = Json::Array(out);
                proof {
                    lemma_items_view(items@, items@.len());
                    lemma_items_view(out@, out@.len());
                    assert(res@->Array_0 =~= self@->Array_0);
                }
                res
            },
            Json::Object(members) => {
                let mut out: Vec<(String, Json)> = Vec::new();
                let mut i: usize = 0;
                while i < members.len()
                    invariant
                        i <= members.len(),
                        out@.len() == i,
                        forall|k: int|
                            0 <= k < i ==> out@[k].0@ == members@[k].0@ && out@[k].1@
                                == members@[k].1@,
                        forall|k: int|
                            0 <= k < members@.len() ==> decreases_to!(self => (
                                #[trigger] members@[k]
                            ).1),
                    decreases members.len() - i,
                {
                    out.push((members[i].0.clone(), members[i].1.clone()));
                    i = i + 1;
                }
                let res = Json::Object(out);
                proof {
                    lemma_members_view(members@, members@.len());
                    lemma_members_view(out@, out@.len());
                    assert(res@->Object_0 =~= self@->Object_0);
                }
                res
            },
        }
    }
}

impl Json {
    /// Parses one JSON text. Returns `None` where the text is not one JSON value.
    pub fn parse(text: &str) -> (res: Option<Json>)
        ensures
            match res {
                Some(j) => json_parse(text@) == Some(j@) && j@.plain(),
                None => json_parse(text@) is None,
            },
    {
        match value_from_str(text) {
            Some(v) => Some(json_from_value(&v)),
            None => None,
        }
    }

    /// The member named `key`, where this is an object that has one.
    pub fn get(&self, key: &str) -> (res: Option<&Json>)
        ensures
            match res {
                Some(j) => self@.get(key@) == Some(j@),
                None => self@.get(key@) is None,
            },
    {
        match self {
            Json::Object(members) => {
                let wanted = key.to_owned();
                let ghost all = self@->Object_0;
                proof {
                    lemma_members_view(members@, members@.len());
                    assert(all.skip(0) =~= all);
                }
                let mut i: usize = 0;
                while i < members.len()
                    invariant
                        i <= members.len(),
                        wanted@ == key@,
                        self@ == JsonView::Object(all),
                        all.len() == members@.len(),
                        forall|k: int|
                            0 <= k < members@.len() ==> all[k] == (
                                members@[k].0@,
                                members@[k].1@,
                            ),
                        lookup(all, key@) == lookup(all.skip(i as int), key@),
                    decreases members.len() - i,
                {
                    assert(all.skip(i as int).drop_first() =~= all.skip(i as int + 1));
                    assert(all.skip(i as int)[0] == all[i as int]);
                    if members[i].0 == wanted {
                        return Some(&members[i].1);
                    }
                    i = i + 1;
                }
                None
            },
            _ => None,
        }
    }

    pub fn as_str(&self) -> (res: Option<&str>)
        ensures
            match res {
                Some(s) => self@.as_str() == Some(s@),
                None => self@.as_str() is None,
            },
    {
        match self {
            Json::String(s) => Some(s.as_str()),
            _ => None,
        }
    }

    pub fn as_bool(&self) -> (res: Option<bool>)
        ensures
            res == self@.as_bool(),
    {
        match self {
            Json::Bool(b) => Some(*b),
            _ => None,
        }
    }

    pub fn as_u64(&self) -> (res: Option<u64>)
        ensures
            res == self@.as_u64(),
    {
        match self {
            Json::Number(n) => n.unsigned,
            _ => None,
        }
    }

    /// The number read as a double and written as a JSON number literal.
    pub fn float_text(&self) -> (res: Option<&str>)
        ensures
            match res {
                Some(s) => self@.float_text() == Some(s@),
                None => self@.float_text() is None,
            },
    {
        match self {
            Json::Number(n) => match &n.float_text {
                Some(t) => Some(t.as_str()),
                None => None,
            },
            _ => None,
        }
    }

    pub fn as_array(&self) -> (res: Option<&Vec<Json>>)
        ensures
            match res {
                Some(items) => self@.as_array() == Some(items_view(items@, items@.len())),
                None => self@.as_array() is None,
            },
    {
        match self {
            Json::Array(items) => Some(items),
            _ => None,
        }
    }

    /// Writes the value as compact JSON. The text of a plain value holds no
    /// newline.
    pub fn to_text(&self) -> (res: String)
        ensures
            res@ == self@.text(),
            self@.plain() ==> single_line(res@),
        decreases self,
    {
        proof {
            lemma_marks_single_line();
        }
        match self {
            Json::Null => String::from_str("null"),
            Json::Bool(b) => if *b {
                String::from_str("true")
            } else {
                String::from_str("false")
            },
            Json::Number(n) => n.text.clone(),
            Json::String(s) => encode_string(s.as_str()),
            Json::Array(items) => {
                let ghost all = self@->Array_0;
                proof {
                    lemma_items_view(items@, items@.len());
                }
                let mut out = String::from_str("[");
                let mut i: usize = 0;
                while i < items.len()
                    invariant
                        i <= items.len(),
                        self@ == JsonView::Array(all),
                        all.len() == items@.len(),
                        forall|k: int| 0 <= k < items@.len() ==> all[k] == items@[k]@,
                        forall|k: int|
                            0 <= k < items@.len() ==> decreases_to!(self => #[trigger] items@[k]),
                        out@ == "["@ + items_text(all, i as nat),
                        self@.plain() ==> single_line(out@),
                        single_line(","@),
                    decreases items.len() - i,
                {
                    if i > 0 {
                        append_piece(&mut out, ",");
                    }
                    let piece = items[i].to_text();
                    assert(self@->Array_0 == all);
                    assert(self@.plain() ==> all[i as int].plain());
                    append_piece(&mut out, piece.as_str());
                    i = i + 1;
                    assert(out@ =~= "["@ + items_text(all, i as nat));
                }
                append_piece(&mut out, "]");
                out
            },
            Json::Object(members) => {
                let ghost all = self@->Object_0;
                proof {
                    lemma_members_view(members@, members@.len());
                }
                let mut out = String::from_str("{");
                let mut i: usize = 0;
                while i < members.len()
                    invariant
                        i <= members.len(),
                        self@ == JsonView::Object(all),
                        all.len() == members@.len(),
                        forall|k: int|
                            0 <= k < members@.len() ==> all[k] == (
                                members@[k].0@,
                                members@[k].1@,
                            ),
                        forall|k: int|
                            0 <= k < members@.len() ==> decreases_to!(self => (
                                #[trigger] members@[k]
                            ).1),
                        out@ == "{"@ + members_text(all, i as nat),
                        self@.plain() ==> single_line(out@),
                        single_line(","@),
                        single_line(":"@),
                    decreases members.len() - i,
                {
                    if i > 0 {
                        append_piece(&mut out, ",");
                    }
                    let key = encode_string(members[i].0.as_str());
                    append_piece(&mut out, key.as_str());
                    append_piece(&mut out, ":");
                    let piece = members[i].1.to_text();
                    assert(self@->Object_0 == all);
                    assert(self@.plain() ==> all[i as int].1.plain());
                    append_piece(&mut out, piece.as_str());
                    i = i + 1;
                    assert(out@ =~= "{"@ + members_text(all, i as nat));
                }
                append_piece(&mut out, "}");
                out
            },
        }
    }
}

} // verus!
