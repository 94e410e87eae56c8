//! The settings document of VS Code: a JSON object, read with comments allowed.
//!
//! The document is held by `serde_json`, read by `jsonc_parser` and written by
//! `serde_json`; what is said of the three here is taken on trust.

use vstd::prelude::*;

use crate::text::chars_of;

verus! {

/// A JSON value.
pub enum Json {
    Null,
    Bool(bool),
    /// A number, as it is written.
    Number(Seq<char>),
    Text(Seq<char>),
    List(Seq<Json>),
    Object(Map<Seq<char>, Json>),
}

/// A JSON object of `serde_json`.
#[verifier::external_type_specification]
#[verifier::external_body]
#[verifier::reject_recursive_types(K)]
#[verifier::reject_recursive_types(V)]
pub struct ExJsonMap<K, V>(serde_json::Map<K, V>);

/// A JSON value of `serde_json`.
#[verifier::external_type_specification]
#[verifier::external_body]
pub struct ExJsonValue(serde_json::Value);

/// A settings document.
pub type Object = serde_json::Map<String, serde_json::Value>;

/// What an object holds: the value of each of its keys.
pub uninterp spec fn entries(object: Object) -> Map<Seq<char>, Json>;

/// No key at all.
pub open spec fn no_entries() -> Map<Seq<char>, Json> {
    Map::empty()
}

/// What `jsonc_parser` reads in a text: a value, or nothing where there is only
/// white space and comments; else the message that tells why it reads neither.
pub uninterp spec fn jsonc_value(text: Seq<char>) -> Result<Option<Json>, Seq<char>>;

/// How many arrays and objects stand inside one another at most in an object, which
/// counts itself.
pub uninterp spec fn nesting(object: Object) -> nat;

/// How `serde_json` writes an object over several lines.
pub uninterp spec fn json_pretty(object: Map<Seq<char>, Json>) -> Seq<char>;

/// What a text holds.
pub enum Document {
    /// Nothing but white space and comments.
    Nothing,
    /// An object.
    Object(Object),
    /// A value that is no object.
    Other,
}

/// A value that Prist puts into a document.
pub enum Node {
    Text(String),
    Flag(bool),
    Object(Object),
}

/// What an object holds for a key.
pub enum Found {
    /// Nothing.
    Nothing,
    /// An object.
    Object(Object),
    /// A value that is no object.
    Other,
}

/// How deep arrays and objects may stand inside one another in a document, which is far
/// deeper than in settings. The parser and the printer call themselves once per level,
/// and the stack of a thread has room for that many.
pub const MAX_DEPTH: usize = 128;

/// What the characters of a document belong to.
#[derive(Debug, Clone, Copy, PartialEq, Eq, Structural)]
pub enum Within {
    /// The document itself.
    Code,
    /// The document itself, right behind a slash.
    Slash,
    /// A text in double quotes.
    Double,
    /// A text in double quotes, right behind a backslash.
    DoubleEscape,
    /// A text in single quotes.
    Single,
    /// A text in single quotes, right behind a backslash.
    SingleEscape,
    /// A comment up to the end of its line.
    Line,
    /// A comment up to `*/`.
    Block,
    /// A comment up to `*/`, right behind a star.
    Star,
}

/// What the character behind `c` belongs to.
pub open spec fn behind(w: Within, c: char) -> Within {
    match w {
        Within::Code => if c == '"' {
            Within::Double
        } else if c == '\'' {
            Within::Single
        } else if c == '/' {
            Within::Slash
        } else {
            Within::Code
        },
        Within::Slash => if c == '/' {
            Within::Line
        } else if c == '*' {
            Within::Block
        } else {
            Within::Code
        },
        Within::Double => if c == '"' {
            Within::Code
        } else if c == '\\' {
            Within::DoubleEscape
        } else {
            Within::Double
        },
        Within::DoubleEscape => Within::Double,
        Within::Single => if c == '\'' {
            Within::Code
        } else if c == '\\' {
            Within::SingleEscape
        } else {
            Within::Single
        },
        Within::SingleEscape => Within::Single,
        Within::Line => if c == '\n' {
            Within::Code
        } else {
            Within::Line
        },
        Within::Block => if c == '*' {
            Within::Star
        } else {
            Within::Block
        },
        Within::Star => if c == '/' {
            Within::Code
        } else if c == '*' {
            Within::Star
        } else {
            Within::Block
        },
    }
}

/// How far a document has been read: what the next character belongs to, how many arrays
/// and objects are open, and how many were at most.
pub struct Reading {
    pub within: Within,
    pub open: nat,
    pub deepest: nat,
}

/// The reading after one more character. Only brackets of the document itself count.
pub open spec fn read_char(before: Reading, c: char) -> Reading {
    let open = if before.within != Within::Code {
        before.open
    } else if c == '[' || c == '{' {
        before.open + 1
    } else if (c == ']' || c == '}') && before.open > 0 {
        (before.open - 1) as nat
    } else {
        before.open
    };
    Reading {
        within: behind(before.within, c),
        open,
        deepest: if open > before.deepest {
            open
        } else {
            before.deepest
        },
    }
}

/// The reading after a text.
pub open spec fn read_chars(text: Seq<char>) -> Reading
    decreases text.len(),
{
    if text.len() == 0 {
        Reading { within: Within::Code, open: 0, deepest: 0 }
    } else {
        read_char(read_chars(text.drop_last()), text.last())
    }
}

/// How deep arrays and objects stand inside one another in a document; what stands in
/// texts and comments does not count.
pub open spec fn depth(text: Seq<char>) -> nat {
    read_chars(text).deepest
}

/// What the character behind `c` belongs to.
fn within_next(w: Within, c: char) -> (r: Within)
    ensures
        r == behind(w, c),
{
    match w {
        Within::Code => if c == '"' {
            Within::Double
        } else if c == '\'' {
            Within::Single
        } else if c == '/' {
            Within::Slash
        } else {
            Within::Code
        },
        Within::Slash => if c == '/' {
            Within::Line
        } else if c == '*' {
            Within::Block
        } else {
            Within::Code
        },
        Within::Double => if c == '"' {
            Within::Code
        } else if c == '\\' {
            Within::DoubleEscape
        } else {
            Within::Double
        },
        Within::DoubleEscape => Within::Double,
        Within::Single => if c == '\'' {
            Within::Code
        } else if c == '\\' {
            Within::SingleEscape
        } else {
            Within::Single
        },
        Within::SingleEscape => Within::Single,
        Within::Line => if c == '\n' {
            Within::Code
        } else {
            Within::Line
        },
        Within::Block => if c == '*' {
            Within::Star
        } else {
            Within::Block
        },
        Within::Star => if c == '/' {
            Within::Code
        } else if c == '*' {
            Within::Star
        } else {
            Within::Block
        },
    }
}

/// How deep arrays and objects stand inside one another in a document.
pub fn depth_of(text: &str) -> (r: usize)
    ensures
        r == depth(text@),
{
    let v = chars_of(text);
    let mut within = Within::Code;
    let mut open: usize = 0;
    let mut deepest: usize = 0;
    let mut i: usize = 0;
    assert(text@.take(0) =~= seq![]);
    while i < v.len()
        invariant
            v@ == text@,
            i <= v@.len(),
            open <= i,
            deepest <= i,
            read_chars(text@.take(i as int)) == (Reading {
                within,
                open: open as nat,
                deepest: deepest as nat,
            }),
        decreases v@.len() - i,
    {
        let c = v[i];
        assert(text@.take(i + 1).drop_last() =~= text@.take(i as int));
        assert(text@.take(i + 1).last() == c);
        if within == Within::Code {
            if c == '[' || c == '{' {
                open += 1;
            } else if (c == ']' || c == '}') && open > 0 {
                open -= 1;
            }
        }
        if open > deepest {
            deepest = open;
        }
        within = within_next(within, c);
        i += 1;
    }
    assert(text@.take(i as int) =~= text@);
    deepest
}

/// The reading of a longer text is at least as deep.
proof fn lemma_depth_grows(text: Seq<char>, k: int)
    requires
        0 <= k <= text.len(),
    ensures
        depth(text.take(k)) <= depth(text),
    decreases text.len() - k,
{
    if k < text.len() {
        assert(text.take(k + 1).drop_last() =~= text.take(k));
        lemma_depth_grows(text, k + 1);
    } else {
        assert(text.take(k) =~= text);
    }
}

/// At no place of a document are more arrays and objects open than it is deep.
pub proof fn law_depth_covers_every_place(text: Seq<char>, k: int)
    requires
        0 <= k <= text.len(),
    ensures
        read_chars(text.take(k)).open <= depth(text),
{
    lemma_depth_grows(text, k);
    if k > 0 {
        let before = text.take(k).drop_last();
        assert(read_chars(text.take(k)) == read_char(read_chars(before), text.take(k).last()));
    }
}

impl Node {
    /// The value.
    pub open spec fn json(self) -> Json {
        match self {
            Node::Text(s) => Json::Text(s@),
            Node::Flag(b) => Json::Bool(b),
            Node::Object(o) => Json::Object(entries(o)),
        }
    }

    /// How many arrays and objects stand inside one another in the value.
    pub open spec fn levels(self) -> nat {
        match self {
            Node::Text(_) => 0,
            Node::Flag(_) => 0,
            Node::Object(o) => nesting(o),
        }
    }
}

/// The nesting of an object `levels` deep that gets a value `inner` deep.
pub open spec fn deeper(levels: nat, inner: nat) -> nat {
    if inner + 1 > levels {
        inner + 1
    } else {
        levels
    }
}

/// `jsonc_parser::parse_to_serde_value` with its default options: the value that
/// the text holds, told apart by whether it is an object, or the message of the
/// error. It calls itself once for each array or object that is open, so the text may
/// not be too deep; what it reads is nested no deeper than the text. What stands in
/// quotes, `'` or `"`, or in a comment opens nothing.
#[verifier::external_body]
pub(crate) fn parse(text: &str) -> (r: Result<Document, String>)
    requires
        depth(text@) <= MAX_DEPTH,
    ensures
        match r {
            Ok(Document::Nothing) => jsonc_value(text@) == Ok::<Option<Json>, Seq<char>>(None),
            Ok(Document::Object(o)) => nesting(o) <= depth(text@) && jsonc_value(text@) == Ok::<
                Option<Json>,
                Seq<char>,
            >(Some(Json::Object(entries(o)))),
            Ok(Document::Other) => jsonc_value(text@) matches Ok(Some(v)) && !(v is Object),
            Err(m) => jsonc_value(text@) == Err::<Option<Json>, Seq<char>>(m@),
        },
{
    match jsonc_parser::parse_to_serde_value(text, &jsonc_parser::ParseOptions::default()) {
        Ok(None) => Ok(Document::Nothing),
        Ok(Some(serde_json::Value::Object(o))) => Ok(Document::Object(o)),
        Ok(Some(_)) => Ok(Document::Other),
        Err(e) => Err(e.to_string()),
    }
}

/// `serde_json::Map::new`: an object without keys.
#[verifier::external_body]
pub(crate) fn empty() -> (r: Object)
    ensures
        entries(r) == no_entries(),
        nesting(r) == 1,
{
    serde_json::Map::new()
}

/// `serde_json::Map::insert`: the key has the value, whatever it had before; the
/// other keys keep theirs. What it had before is dropped, level by level.
#[verifier::external_body]
pub(crate) fn insert(object: &mut Object, key: &str, value: Node)
    requires
        nesting(*old(object)) <= MAX_DEPTH,
    ensures
        entries(*final(object)) == entries(*old(object)).insert(key@, value.json()),
        nesting(*final(object)) <= deeper(nesting(*old(object)), value.levels()),
{
    let v = match value {
        Node::Text(s) => serde_json::Value::String(s),
        Node::Flag(b) => serde_json::Value::Bool(b),
        Node::Object(o) => serde_json::Value::Object(o),
    };
    object.insert(key.to_string(), v);
}

/// `serde_json::Map::get`: what the object holds for a key, of which an object is
/// copied, level by level.
#[verifier::external_body]
pub(crate) fn object_at(object: &Object, key: &str) -> (r: Found)
    requires
        nesting(*object) <= MAX_DEPTH,
    ensures
        match r {
            Found::Nothing => !entries(*object).contains_key(key@),
            Found::Object(o) => entries(*object).contains_key(key@) && entries(*object)[key@]
                == Json::Object(entries(o)) && nesting(o) < nesting(*object),
            Found::Other => entries(*object).contains_key(key@) && !(entries(
                *object,
            )[key@] is Object),
        },
{
    match object.get(key) {
        None => Found::Nothing,
        Some(serde_json::Value::Object(o)) => Found::Object(o.clone()),
        Some(_) => Found::Other,
    }
}

/// `serde_json::Map::remove`: whether the key was there; it is gone, and the other
/// keys keep their values. What it had is dropped, level by level.
#[verifier::external_body]
pub(crate) fn remove(object: &mut Object, key: &str) -> (r: bool)
    requires
        nesting(*old(object)) <= MAX_DEPTH,
    ensures
        r == entries(*old(object)).contains_key(key@),
        entries(*final(object)) == entries(*old(object)).remove(key@),
        nesting(*final(object)) <= nesting(*old(object)),
{
    object.remove(key).is_some()
}

/// `serde_json::Map::is_empty`: whether there is no key.
#[verifier::external_body]
pub(crate) fn is_empty(object: &Object) -> (r: bool)
    ensures
        r == (entries(*object) == no_entries()),
{
    object.is_empty()
}

/// `serde_json::to_string_pretty` of an object. It cannot fail: all keys are
/// texts, and it writes to memory. It calls itself once per level of nesting.
#[verifier::external_body]
pub(crate) fn pretty(object: Object) -> (r: Result<String, String>)
    requires
        nesting(object) <= MAX_DEPTH,
    ensures
        r is Ok,
        r->Ok_0@ == json_pretty(entries(object)),
{
    serde_json::to_string_pretty(&serde_json::Value::Object(object)).map_err(|e| e.to_string())
}

/// In the document itself an opening bracket opens and a closing one closes; in texts and
/// comments neither does.
pub proof fn law_brackets_of_the_document_count(before: Reading, c: char)
    ensures
        before.within == Within::Code && (c == '[' || c == '{') ==> read_char(before, c).open
            == before.open + 1,
        before.within == Within::Code && (c == ']' || c == '}') && before.open > 0 ==> read_char(
            before,
            c,
        ).open == before.open - 1,
        before.within != Within::Code || !(c == '[' || c == '{' || c == ']' || c == '}')
            ==> read_char(before, c).open == before.open,
        read_char(before, c).deepest >= before.deepest,
        read_char(before, c).open <= read_char(before, c).deepest,
        read_char(before, c).deepest == before.deepest || read_char(before, c).deepest == read_char(
            before,
            c,
        ).open,
{
}

/// A text ends at its own quotation mark, unless a backslash stands before it; a comment ends
/// at the end of its line, or at a star and a slash.
pub proof fn law_texts_and_comments_end()
    ensures
        behind(Within::Code, '"') == Within::Double && behind(Within::Double, '"') == Within::Code,
        behind(Within::Code, '\'') == Within::Single && behind(Within::Single, '\'')
            == Within::Code,
        behind(Within::Double, '\'') == Within::Double && behind(Within::Single, '"')
            == Within::Single,
        behind(Within::Double, '\\') == Within::DoubleEscape && behind(Within::Single, '\\')
            == Within::SingleEscape,
        forall|c: char| #[trigger] behind(Within::DoubleEscape, c) == Within::Double,
        forall|c: char| #[trigger] behind(Within::SingleEscape, c) == Within::Single,
        behind(Within::Code, '/') == Within::Slash && behind(Within::Slash, '/') == Within::Line
            && behind(Within::Slash, '*') == Within::Block,
        forall|c: char| (#[trigger] behind(Within::Line, c) == Within::Code) == (c == '\n'),
        forall|c: char| (#[trigger] behind(Within::Block, c) == Within::Star) == (c == '*'),
        behind(Within::Star, '/') == Within::Code && behind(Within::Star, '*') == Within::Star,
{
}

} // verus!
