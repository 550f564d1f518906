//! JSON text in and out, by way of `rustc_serialize`.
//!
//! The parser and the printer of `rustc_serialize::json` are called here and
//! nowhere else. Both recurse once per level of nesting, and the parser
//! has limits of its own, so text is scanned before it is parsed, and what
//! is printed is known to be shallow.
//!
//! What was read is copied into a [`JsonValue`], which the decoders take
//! apart. What is to be sent is built as a `Json`, bottom up, and printed.
use vstd::prelude::*;
use vstd::slice::slice_index_get;
use rustc_serialize::json::Json;
use crate::json::{JsonValue, JsonView};
use crate::text::text_before;

verus! {

/// The deepest nesting of arrays and objects that is parsed or printed.
pub const MAX_DEPTH: usize = 128;

/// The longest key of an object that is parsed, in bytes of its literal.
pub const MAX_KEY_LENGTH: usize = 511;

/// The most digits that the exponent of a number may have to be parsed.
pub const MAX_EXPONENT_DIGITS: usize = 9;

/// The longest text that is parsed, in bytes.
pub const MAX_LENGTH: usize = 0xffff_ffff;

/// What a scan of JSON text has seen so far.
pub struct Scan {
    /// The brackets that stand open.
    pub open: nat,
    /// The most brackets that stood open at once.
    pub peak: nat,
    /// Whether the scan stands inside a string literal.
    pub in_string: bool,
    /// Whether the scan stands directly behind a backslash in a literal.
    pub escaped: bool,
    /// The bytes of the literal that is being read or was read last.
    pub string_length: nat,
    /// Whether a literal has ended and only white space has followed.
    pub pending: bool,
    /// The bytes of the longest literal that a colon followed: the longest
    /// key.
    pub longest_key: nat,
    /// Whether the scan stands in the exponent of a number.
    pub in_exponent: bool,
    /// Whether the sign of the exponent may still come.
    pub sign_allowed: bool,
    /// The digits of the exponent that is being read.
    pub exponent_digits: nat,
    /// The digits of the longest exponent.
    pub longest_exponent: nat,
    /// Whether a comma outside the literals has come and only white space
    /// has followed.
    pub after_comma: bool,
    /// Whether a closing brace has followed a comma, with nothing but white
    /// space between the two.
    pub comma_before_brace: bool,
}

/// The scan before the first byte.
pub open spec fn scan_start() -> Scan {
    Scan {
        open: 0,
        peak: 0,
        in_string: false,
        escaped: false,
        string_length: 0,
        pending: false,
        longest_key: 0,
        in_exponent: false,
        sign_allowed: false,
        exponent_digits: 0,
        longest_exponent: 0,
        after_comma: false,
        comma_before_brace: false,
    }
}

/// The greater of two numbers.
pub open spec fn greater(a: nat, b: nat) -> nat {
    if a > b {
        a
    } else {
        b
    }
}

/// The scan after one more byte that stands inside a string literal.
pub open spec fn scan_inside(s: Scan, byte: u8) -> Scan {
    if s.escaped {
        Scan { escaped: false, string_length: s.string_length + 1, ..s }
    } else if byte == 0x5c {
        Scan { escaped: true, string_length: s.string_length + 1, ..s }
    } else if byte == 0x22 {
        Scan { in_string: false, pending: true, ..s }
    } else {
        Scan { string_length: s.string_length + 1, ..s }
    }
}

/// The scan after one more byte that stands outside the string literals.
pub open spec fn scan_outside(s: Scan, byte: u8) -> Scan {
    if byte == 0x20 || byte == 0x09 || byte == 0x0a || byte == 0x0d {
        Scan { in_exponent: false, ..s }
    } else if byte == 0x22 {
        Scan {
            in_string: true,
            string_length: 0,
            pending: false,
            in_exponent: false,
            after_comma: false,
            ..s
        }
    } else if byte == 0x2c {
        Scan { pending: false, in_exponent: false, after_comma: true, ..s }
    } else if byte == 0x3a {
        Scan {
            longest_key: if s.pending {
                greater(s.longest_key, s.string_length)
            } else {
                s.longest_key
            },
            pending: false,
            in_exponent: false,
            after_comma: false,
            ..s
        }
    } else if byte == 0x5b || byte == 0x7b {
        Scan {
            open: s.open + 1,
            peak: greater(s.peak, s.open + 1),
            pending: false,
            in_exponent: false,
            after_comma: false,
            ..s
        }
    } else if byte == 0x5d || byte == 0x7d {
        Scan {
            open: if s.open > 0 {
                (s.open - 1) as nat
            } else {
                0
            },
            pending: false,
            in_exponent: false,
            after_comma: false,
            comma_before_brace: s.comma_before_brace || (byte == 0x7d && s.after_comma),
            ..s
        }
    } else if byte == 0x65 || byte == 0x45 {
        Scan {
            in_exponent: true,
            sign_allowed: true,
            exponent_digits: 0,
            pending: false,
            after_comma: false,
            ..s
        }
    } else if (byte == 0x2b || byte == 0x2d) && s.in_exponent && s.sign_allowed {
        Scan { sign_allowed: false, pending: false, after_comma: false, ..s }
    } else if 0x30 <= byte <= 0x39 && s.in_exponent {
        Scan {
            sign_allowed: false,
            exponent_digits: s.exponent_digits + 1,
            longest_exponent: greater(s.longest_exponent, s.exponent_digits + 1),
            pending: false,
            after_comma: false,
            ..s
        }
    } else {
        Scan { pending: false, in_exponent: false, after_comma: false, ..s }
    }
}

/// The scan after one more byte.
pub open spec fn scan_step(s: Scan, byte: u8) -> Scan {
    if s.in_string {
        scan_inside(s, byte)
    } else {
        scan_outside(s, byte)
    }
}

/// The scan after all of `bytes`.
pub open spec fn scan(bytes: Seq<u8>) -> Scan
    decreases bytes.len(),
{
    if bytes.len() == 0 {
        scan_start()
    } else {
        scan_step(scan(bytes.drop_last()), bytes.last())
    }
}

/// Whether `bytes` can be handed to the parser: the text is no longer than
/// [`MAX_LENGTH`], its brackets nest no deeper than [`MAX_DEPTH`], no
/// string literal followed by a colon is longer than [`MAX_KEY_LENGTH`], no
/// `e` or `E` outside the literals is followed by more than
/// [`MAX_EXPONENT_DIGITS`] digits, and no closing brace follows a comma.
/// Text in which one does is not JSON.
pub open spec fn within_limits(bytes: Seq<u8>) -> bool {
    &&& bytes.len() <= MAX_LENGTH
    &&& scan(bytes).peak <= MAX_DEPTH
    &&& scan(bytes).longest_key <= MAX_KEY_LENGTH
    &&& scan(bytes).longest_exponent <= MAX_EXPONENT_DIGITS
    &&& !scan(bytes).comma_before_brace
}

/// Tests whether `bytes` can be handed to the parser.
pub fn is_within_limits(bytes: &[u8]) -> (r: bool)
    ensures
        r == within_limits(bytes@),
{
    if bytes.len() > MAX_LENGTH {
        return false;
    }
    let mut open: usize = 0;
    let mut peak: usize = 0;
    let mut in_string = false;
    let mut escaped = false;
    let mut string_length: usize = 0;
    let mut pending = false;
    let mut longest_key: usize = 0;
    let mut in_exponent = false;
    let mut sign_allowed = false;
    let mut exponent_digits: usize = 0;
    let mut longest_exponent: usize = 0;
    let mut after_comma = false;
    let mut comma_before_brace = false;
    let mut i: usize = 0;
    while i < bytes.len()
        invariant
            i <= bytes.len(),
            open <= i,
            peak <= i,
            string_length <= i,
            longest_key <= i,
            exponent_digits <= i,
            longest_exponent <= i,
            scan(bytes@.take(i as int)) == (Scan {
                open: open as nat,
                peak: peak as nat,
                in_string,
                escaped,
                string_length: string_length as nat,
                pending,
                longest_key: longest_key as nat,
                in_exponent,
                sign_allowed,
                exponent_digits: exponent_digits as nat,
                longest_exponent: longest_exponent as nat,
                after_comma,
                comma_before_brace,
            }),
        decreases bytes.len() - i,
    {
        let byte = *slice_index_get(bytes, i);
        proof {
            assert(bytes@.take(i + 1).drop_last() =~= bytes@.take(i as int));
            assert(bytes@.take(i + 1).last() == byte);
        }
        if in_string {
            if escaped {
                escaped = false;
                string_length = string_length + 1;
            } else if byte == 0x5c {
                escaped = true;
                string_length = string_length + 1;
            } else if byte == 0x22 {
                in_string = false;
                pending = true;
            } else {
                string_length = string_length + 1;
            }
        } else if byte == 0x20 || byte == 0x09 || byte == 0x0a || byte == 0x0d {
            in_exponent = false;
        } else if byte == 0x22 {
            in_string = true;
            string_length = 0;
            pending = false;
            in_exponent = false;
            after_comma = false;
        } else if byte == 0x2c {
            pending = false;
            in_exponent = false;
            after_comma = true;
        } else if byte == 0x3a {
            if pending && string_length > longest_key {
                longest_key = string_length;
            }
            pending = false;
            in_exponent = false;
            after_comma = false;
        } else if byte == 0x5b || byte == 0x7b {
            open = open + 1;
            if open > peak {
                peak = open;
            }
            pending = false;
            in_exponent = false;
            after_comma = false;
        } else if byte == 0x5d || byte == 0x7d {
            if open > 0 {
                open = open - 1;
            }
            if byte == 0x7d && after_comma {
                comma_before_brace = true;
            }
            pending = false;
            in_exponent = false;
            after_comma = false;
        } else if byte == 0x65 || byte == 0x45 {
            in_exponent = true;
            sign_allowed = true;
            exponent_digits = 0;
            pending = false;
            after_comma = false;
        } else if (byte == 0x2b || byte == 0x2d) && in_exponent && sign_allowed {
            sign_allowed = false;
            pending = false;
            after_comma = false;
        } else if 0x30 <= byte && byte <= 0x39 && in_exponent {
            sign_allowed = false;
            exponent_digits = exponent_digits + 1;
            if exponent_digits > longest_exponent {
                longest_exponent = exponent_digits;
            }
            pending = false;
            after_comma = false;
        } else {
            pending = false;
            in_exponent = false;
            after_comma = false;
        }
        i = i + 1;
    }
    assert(bytes@.take(i as int) =~= bytes@);
    peak <= MAX_DEPTH && longest_key <= MAX_KEY_LENGTH && longest_exponent <= MAX_EXPONENT_DIGITS
        && !comma_before_brace
}

/// The value that `rustc_serialize` reads from `bytes`, and `None` where it
/// reports an error. Of a number with a fraction or an exponent it says
/// that the parser read a float, and not which.
pub uninterp spec fn json_document(bytes: Seq<u8>) -> Option<JsonView>;

/// What a `Json` of `rustc_serialize` holds. The members of an object come
/// in the order of their keys, as the `BTreeMap` that holds them has them; a
/// float comes without its value.
pub uninterp spec fn json_content(doc: Json) -> JsonView;

/// The compact text that `rustc_serialize` prints for a value that holds no
/// float.
pub uninterp spec fn json_text(value: JsonView) -> Seq<char>;

#[verifier::external_type_specification]
#[verifier::external_body]
pub struct ExJson(Json);

/// One level of a `Json`: which variant it is, with its fields. The items
/// of an array and the members of an object are still `Json`.
enum Node<'a> {
    Null,
    Boolean(bool),
    I64(i64),
    U64(u64),
    F64,
    String(&'a String),
    Array(&'a Vec<Json>),
    Object(Vec<(&'a String, &'a Json)>),
}

/// What each of `items` holds, in order.
pub open spec fn contents(items: Seq<Json>) -> Seq<JsonView> {
    Seq::new(items.len(), |i: int| json_content(items[i]))
}

/// The key of each of `members` with what its value holds, in order.
pub open spec fn member_contents(members: Seq<(String, Json)>) -> Seq<(Seq<char>, JsonView)> {
    Seq::new(members.len(), |i: int| (members[i].0@, json_content(members[i].1)))
}

/// What a `Json` holds, told from one level of it.
spec fn node_content(node: Node) -> JsonView {
    match node {
        Node::Null => JsonView::Null,
        Node::Boolean(b) => JsonView::Boolean(b),
        Node::I64(n) => JsonView::I64(n),
        Node::U64(n) => JsonView::U64(n),
        Node::F64 => JsonView::F64,
        Node::String(s) => JsonView::String(s@),
        Node::Array(items) => JsonView::Array(contents(items@)),
        Node::Object(members) => JsonView::Object(
            Seq::new(members@.len(), |i: int| (members@[i].0@, json_content(*members@[i].1))),
        ),
    }
}

/// Whether the keys of `members` stand in strictly ascending order.
pub open spec fn keys_ascend(members: Seq<(Seq<char>, JsonView)>) -> bool {
    forall|i: int, j: int|
        0 <= i < j < members.len() ==> text_before(
            (#[trigger] members[i]).0,
            (#[trigger] members[j]).0,
        )
}

/// `Json::from_reader` on a byte slice. The contract names what the parser
/// returns, says that it returns nothing exactly where it reports an error,
/// and that the tree it builds is no deeper than the brackets of the text.
///
/// Text beyond the limits of [`within_limits`] is kept away from the parser.
/// The parser recurses on every opening bracket; it keeps the keys of the
/// objects that stand open in one buffer, which it indexes with 16 bits; it
/// counts the items of an array in 32 bits; it adds up the digits of an
/// exponent without a test for overflow; and on a closing brace behind a
/// comma it loses its place in the document, and panics on the next key.
#[verifier::external_body]
fn read_document(bytes: &[u8]) -> (r: Option<Json>)
    requires
        within_limits(bytes@),
    ensures
        match r {
            Some(doc) => json_document(bytes@) == Some(json_content(doc)) && json_content(
                doc,
            ).nests_within(MAX_DEPTH as nat),
            None => json_document(bytes@) is None,
        },
{
    let mut reader = bytes;
    Json::from_reader(&mut reader).ok()
}

/// Tells the variants of a `Json` apart, one level deep. The contract says
/// that the level shown is the level that the `Json` holds: the same
/// variant, the same scalar, of a float that it is one, the items of an
/// array in order, and the members of an object in the order of its
/// `BTreeMap`.
#[verifier::external_body]
fn node_of<'a>(doc: &'a Json) -> (r: Node<'a>)
    ensures
        node_content(r) == json_content(*doc),
{
    match doc {
        Json::Null => Node::Null,
        Json::Boolean(b) => Node::Boolean(*b),
        Json::I64(n) => Node::I64(*n),
        Json::U64(n) => Node::U64(*n),
        Json::F64(_) => Node::F64,
        Json::String(s) => Node::String(s),
        Json::Array(items) => Node::Array(items),
        Json::Object(map) => Node::Object(map.iter().collect()),
    }
}

/// `Json::String` of a copy of `text`. The contract says what it holds.
#[verifier::external_body]
pub(crate) fn json_string(text: &str) -> (r: Json)
    ensures
        json_content(r) == JsonView::String(text@),
{
    Json::String(text.to_string())
}

/// `Json::Array` of `items`. The contract says that it holds what the items
/// hold, in order.
#[verifier::external_body]
pub(crate) fn json_array(items: Vec<Json>) -> (r: Json)
    ensures
        json_content(r) == JsonView::Array(contents(items@)),
{
    Json::Array(items)
}

/// `Json::Object` of the `BTreeMap` that `members` are collected into. The
/// map orders its members by key and keeps one member for each key, so the
/// members are asked to come in strictly ascending order of their keys: the
/// contract then says that the object holds them as they came.
#[verifier::external_body]
pub(crate) fn json_object(members: Vec<(String, Json)>) -> (r: Json)
    requires
        keys_ascend(member_contents(members@)),
    ensures
        json_content(r) == JsonView::Object(member_contents(members@)),
{
    Json::Object(members.into_iter().collect())
}

/// `to_string` of a `Json`, which prints it compactly. The contract names the
/// text. A `Json` nested deeper than [`MAX_DEPTH`] is kept away from the
/// printer, which recurses on every level; so is one that holds a float,
/// whose text what the `Json` is known to hold does not decide.
#[verifier::external_body]
pub(crate) fn write_document(doc: &Json) -> (r: String)
    requires
        json_content(*doc).nests_within(MAX_DEPTH as nat),
        json_content(*doc).float_free(),
    ensures
        r@ == json_text(json_content(*doc)),
{
    doc.to_string()
}

/// Copies what a `Json` holds into a [`JsonValue`]. `depth` bounds the
/// nesting of the `Json`, and with it the depth of the recursion.
fn lift(doc: &Json, depth: usize) -> (r: JsonValue)
    requires
        json_content(*doc).nests_within(depth as nat),
    ensures
        r@ == json_content(*doc),
    decreases depth,
{
    match node_of(doc) {
        Node::Null => JsonValue::Null,
        Node::Boolean(b) => JsonValue::Boolean(b),
        Node::I64(n) => JsonValue::I64(n),
        Node::U64(n) => JsonValue::U64(n),
        Node::F64 => JsonValue::F64,
        Node::String(s) => JsonValue::String(s.clone()),
        Node::Array(items) => {
            let ghost wanted = json_content(*doc)->Array_0;
            let mut copies: Vec<JsonValue> = Vec::new();
            let mut i: usize = 0;
            while i < items.len()
                invariant
                    i <= items.len(),
                    copies@.len() == i,
                    depth > 0,
                    wanted == contents(items@),
                    forall|j: int|
                        0 <= j < wanted.len() ==> (#[trigger] wanted[j]).nests_within(
                            (depth - 1) as nat,
                        ),
                    forall|j: int| 0 <= j < i ==> (#[trigger] copies@[j])@ == wanted[j],
                decreases items.len() - i,
            {
                assert(wanted[i as int] == json_content(items@[i as int]));
                copies.push(lift(&items[i], depth - 1));
                i = i + 1;
            }
            let r = JsonValue::Array(copies);
            assert(r@->Array_0 =~= wanted);
            r
        },
        Node::Object(members) => {
            let ghost wanted = json_content(*doc)->Object_0;
            let mut copies: Vec<(String, JsonValue)> = Vec::new();
            let mut i: usize = 0;
            while i < members.len()
                invariant
                    i <= members.len(),
                    copies@.len() == i,
                    depth > 0,
                    wanted.len() == members@.len(),
                    forall|j: int|
                        0 <= j < wanted.len() ==> (#[trigger] wanted[j]) == (
                            members@[j].0@,
                            json_content(*members@[j].1),
                        ),
                    forall|j: int|
                        0 <= j < wanted.len() ==> (#[trigger] wanted[j]).1.nests_within(
                            (depth - 1) as nat,
                        ),
                    forall|j: int|
                        0 <= j < i ==> (#[trigger] copies@[j]).0@ == wanted[j].0 && copies@[j].1@
                            == wanted[j].1,
                decreases members.len() - i,
            {
                assert(wanted[i as int].1 == json_content(*members@[i as int].1));
                let key = members[i].0.clone();
                let value = lift(members[i].1, depth - 1);
                copies.push((key, value));
                i = i + 1;
            }
            let r = JsonValue::Object(copies);
            assert(r@->Object_0 =~= wanted);
            r
        },
    }
}

/// What [`parse`] makes of `bytes`: the document that the parser reads,
/// unless the text is beyond the limits within which it is handed to it.
pub open spec fn parsed(bytes: Seq<u8>) -> Option<JsonView> {
    if within_limits(bytes) {
        json_document(bytes)
    } else {
        None
    }
}

/// Reads a JSON document.
pub fn parse(bytes: &[u8]) -> (r: Option<JsonValue>)
    ensures
        match r {
            Some(value) => parsed(bytes@) == Some(value@),
            None => parsed(bytes@) is None,
        },
{
    if !is_within_limits(bytes) {
        return None;
    }
    match read_document(bytes) {
        Some(doc) => Some(lift(&doc, MAX_DEPTH)),
        None => None,
    }
}

} // verus!
