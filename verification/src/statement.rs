//! The statements that a collection sends to the engine, and the names that
//! are safe to put into them.
use crate::scalar::{Bound, BoundView};
use crate::text::is_digit;
use vstd::prelude::*;
use vstd::string::*;
use vstd::utf8::*;

verus! {

/// A statement and the values of its numbered parameters, in order.
#[derive(Clone, Debug, PartialEq, Eq)]
pub struct Statement {
    pub text: String,
    pub params: Vec<Bound>,
}

/// What a [`Statement`] stands for.
pub ghost struct StatementView {
    pub text: Seq<char>,
    pub params: Seq<BoundView>,
}

impl View for Statement {
    type V = StatementView;

    open spec fn view(&self) -> StatementView {
        StatementView { text: self.text@, params: self.params.deep_view() }
    }
}

/// The text that creates the table `name`, unless it is there already, with
/// a unique text key `k` and a value `v` of no declared type.
pub open spec fn create_text(name: Seq<char>) -> Seq<char> {
    "CREATE TABLE IF NOT EXISTS "@ + name
        + " (k varchar(255) PRIMARY KEY UNIQUE NOT NULL, v)"@
}

/// The text that inserts a row of key and value into the table `name`.
pub open spec fn insert_text(name: Seq<char>) -> Seq<char> {
    "INSERT INTO "@ + name + " (k, v) VALUES(?1, ?2);"@
}

/// The text that selects the value of the first row with a key in the table
/// `name`.
pub open spec fn select_text(name: Seq<char>) -> Seq<char> {
    "SELECT v FROM "@ + name + " WHERE k = ?1 LIMIT 1"@
}

/// The text that deletes the rows with a key from the table `name`.
pub open spec fn delete_text(name: Seq<char>) -> Seq<char> {
    "DELETE FROM "@ + name + " WHERE k = ?1"@
}

/// Puts a name between the two parts of a statement.
fn splice(head: &str, name: &str, tail: &str) -> (text: String)
    ensures
        text@ == head@ + name@ + tail@,
{
    let mut text = String::from_str(head);
    text.append(name);
    text.append(tail);
    text
}

/// The statement that creates the table of the collection `name`.
pub fn create_statement(name: &str) -> (s: Statement)
    ensures
        s@.text == create_text(name@),
        s@.params == Seq::<BoundView>::empty(),
{
    let text = splice(
        "CREATE TABLE IF NOT EXISTS ",
        name,
        " (k varchar(255) PRIMARY KEY UNIQUE NOT NULL, v)",
    );
    let s = Statement { text, params: Vec::new() };
    assert(s@.params =~= Seq::<BoundView>::empty());
    s
}

/// The statement that inserts `value` under `key` into the collection `name`.
pub fn insert_statement(name: &str, key: &str, value: Bound) -> (s: Statement)
    ensures
        s@.text == insert_text(name@),
        s@.params == seq![BoundView::Text(key@), value@],
{
    let text = splice("INSERT INTO ", name, " (k, v) VALUES(?1, ?2);");
    let mut params: Vec<Bound> = Vec::new();
    params.push(Bound::Text(String::from_str(key)));
    params.push(value);
    let s = Statement { text, params };
    assert(s@.params =~= seq![BoundView::Text(key@), value@]);
    s
}

/// The statement that selects the value under `key` in the collection `name`.
pub fn select_statement(name: &str, key: &str) -> (s: Statement)
    ensures
        s@.text == select_text(name@),
        s@.params == seq![BoundView::Text(key@)],
{
    let text = splice("SELECT v FROM ", name, " WHERE k = ?1 LIMIT 1");
    let mut params: Vec<Bound> = Vec::new();
    params.push(Bound::Text(String::from_str(key)));
    let s = Statement { text, params };
    assert(s@.params =~= seq![BoundView::Text(key@)]);
    s
}

/// The statement that deletes `key` from the collection `name`.
pub fn delete_statement(name: &str, key: &str) -> (s: Statement)
    ensures
        s@.text == delete_text(name@),
        s@.params == seq![BoundView::Text(key@)],
{
    let text = splice("DELETE FROM ", name, " WHERE k = ?1");
    let mut params: Vec<Bound> = Vec::new();
    params.push(Bound::Text(String::from_str(key)));
    let s = Statement { text, params };
    assert(s@.params =~= seq![BoundView::Text(key@)]);
    s
}

/// The longest name that counts as plain.
pub const MAX_NAME_LENGTH: usize = 64;

/// Whether a plain name may begin with `c`: an ASCII letter or `_`.
pub open spec fn is_name_start(c: char) -> bool {
    'a' <= c <= 'z' || 'A' <= c <= 'Z' || c == '_'
}

/// Whether a plain name may hold `c`: an ASCII letter, a digit or `_`.
pub open spec fn is_name_char(c: char) -> bool {
    is_name_start(c) || is_digit(c)
}

/// Whether `s` is a plain name: between 1 and 64 letters, digits and
/// underscores, the first of them no digit. Such a name means the same in a
/// statement as it does alone.
pub open spec fn is_plain_name(s: Seq<char>) -> bool {
    &&& 1 <= s.len() <= MAX_NAME_LENGTH
    &&& is_name_start(s[0])
    &&& forall|i: int| 0 <= i < s.len() ==> is_name_char(#[trigger] s[i])
}

/// Tells whether `name` is a plain name. The statements take a name as it
/// is, so a caller who did not choose the name tests it with this first.
pub fn plain_name(name: &str) -> (r: bool)
    ensures
        r == is_plain_name(name@),
{
    if !name.is_ascii() {
        proof {
            let i = choose|i: int|
                0 <= i < name@.len() && !('\0' <= #[trigger] name@[i] <= '\u{7f}');
            assert(!is_name_char(name@[i]));
        }
        return false;
    }
    let bytes = name.as_bytes();
    let n: usize = bytes.len();
    proof {
        is_ascii_chars_encode_utf8(name@);
    }
    assert forall|i: int| 0 <= i < n implies name@[i] as int == #[trigger] bytes@[i] as int by {
        assert('\0' <= name@[i] <= '\u{7f}');
        assert(name@[i] as u8 == bytes@[i]);
    }
    if n == 0 || n > MAX_NAME_LENGTH {
        return false;
    }
    let first: u8 = bytes[0];
    assert(name@[0] as int == bytes@[0] as int);
    if 48u8 <= first && first <= 57u8 {
        return false;
    }
    let mut i: usize = 0;
    while i < n
        invariant
            i <= n,
            n == name@.len(),
            n == bytes@.len(),
            forall|j: int| 0 <= j < n ==> name@[j] as int == #[trigger] bytes@[j] as int,
            forall|j: int| 0 <= j < i ==> is_name_char(#[trigger] name@[j]),
        decreases n - i,
    {
        let b: u8 = bytes[i];
        assert(name@[i as int] as int == bytes@[i as int] as int);
        let letter: bool = (97u8 <= b && b <= 122u8) || (65u8 <= b && b <= 90u8) || b == 95u8;
        let digit: bool = 48u8 <= b && b <= 57u8;
        if !letter && !digit {
            assert(!is_name_char(name@[i as int]));
            return false;
        }
        assert(is_name_char(name@[i as int]));
        i = i + 1;
    }
    assert(is_name_char(name@[0]));
    true
}

} // verus!
