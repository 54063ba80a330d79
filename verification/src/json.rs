//! JSON text, read and written by the `rustc_serialize` crate, and the scan
//! that decides which texts its parser is given.

use rustc_serialize::json::{Json, ParserError};
use vstd::prelude::*;

verus! {

/// How deep arrays and objects may nest in a text that is parsed.
pub const MAX_DEPTH: u8 = 64;

/// How many characters a string that stands before a colon may have in a
/// text that is parsed.
pub const MAX_KEY_LENGTH: u16 = 255;

/// How many digits may follow an `e` or `E` in a text that is parsed.
pub const MAX_EXPONENT_DIGITS: u8 = 9;

/// How many characters a text that is parsed may have.
pub const MAX_LENGTH: u64 = 0xFFFF_FFFF;

/// Where a scan of a text stands after some of its characters.
#[derive(Clone, Copy, Debug, PartialEq, Eq, Structural)]
pub struct Scan {
    /// The text went over a limit. Once set, nothing changes any more.
    pub refused: bool,
    /// The text has, outside strings, a comma and then a closing brace with
    /// nothing but white space between them, which is no JSON. Once set,
    /// nothing changes any more.
    pub trailing_comma: bool,
    /// The scan is outside strings, behind a comma and nothing but white
    /// space.
    pub after_comma: bool,
    /// The number of characters seen.
    pub length: u64,
    /// The scan is inside a string.
    pub in_string: bool,
    /// The scan is inside a string, just behind a backslash.
    pub escaped: bool,
    /// The number of `[` and `{` seen outside strings, less the `]` and `}`.
    pub depth: u8,
    /// The number of characters of the string that the scan is in, or was in
    /// last; it does not count beyond one over the limit.
    pub string_length: u16,
    /// The scan is behind an `e` or `E`, its sign and its digits, outside
    /// strings.
    pub in_exponent: bool,
    /// The number of digits seen behind that `e` or `E`.
    pub exponent_digits: u8,
}

/// The character is a decimal digit.
pub open spec fn spec_is_digit(c: char) -> bool {
    '0' <= c && c <= '9'
}

/// The character is white space between the tokens of JSON.
pub open spec fn spec_is_space(c: char) -> bool {
    c == ' ' || c == '\n' || c == '\t' || c == '\r'
}

impl Scan {
    /// The scan of no characters.
    pub open spec fn spec_start() -> Scan {
        Scan {
            refused: false,
            trailing_comma: false,
            after_comma: false,
            length: 0,
            in_string: false,
            escaped: false,
            depth: 0,
            string_length: 0,
            in_exponent: false,
            exponent_digits: 0,
        }
    }

    /// The scan of no characters.
    pub fn start() -> (scan: Scan)
        ensures
            scan == Self::spec_start(),
    {
        Scan {
            refused: false,
            trailing_comma: false,
            after_comma: false,
            length: 0,
            in_string: false,
            escaped: false,
            depth: 0,
            string_length: 0,
            in_exponent: false,
            exponent_digits: 0,
        }
    }

    /// The scan with the text refused.
    pub open spec fn spec_refuse(self) -> Scan {
        Scan { refused: true, ..self }
    }

    /// The scan one character further inside a string.
    pub open spec fn spec_in_string(self, escaped: bool) -> Scan {
        Scan {
            escaped,
            string_length: if self.string_length <= MAX_KEY_LENGTH {
                (self.string_length + 1) as u16
            } else {
                self.string_length
            },
            ..self
        }
    }

    /// The scan one character further. Inside a string only the backslash
    /// and the closing quote count. Outside, a quote opens a string; an
    /// opening bracket or brace nests one deeper, and the text is refused
    /// beyond `MAX_DEPTH`; a closing brace behind a comma and white space
    /// marks the trailing comma; a colon refuses the text where the last
    /// string has more than `MAX_KEY_LENGTH` characters; an `e` or `E`
    /// begins an exponent, and its digits refuse the text beyond
    /// `MAX_EXPONENT_DIGITS`. A character beyond `MAX_LENGTH` refuses the
    /// text.
    pub open spec fn spec_step(self, c: char) -> Scan {
        if self.refused || self.trailing_comma {
            self
        } else if self.length >= MAX_LENGTH {
            self.spec_refuse()
        } else {
            let counted = Scan { length: (self.length + 1) as u64, after_comma: false, ..self };
            if counted.in_string {
                if counted.escaped {
                    counted.spec_in_string(false)
                } else if c == '\\' {
                    counted.spec_in_string(true)
                } else if c == '"' {
                    Scan { in_string: false, ..counted }
                } else {
                    counted.spec_in_string(false)
                }
            } else if c == '"' {
                Scan { in_string: true, string_length: 0, in_exponent: false, ..counted }
            } else if c == '[' || c == '{' {
                if counted.depth >= MAX_DEPTH {
                    counted.spec_refuse()
                } else {
                    Scan { depth: (counted.depth + 1) as u8, in_exponent: false, ..counted }
                }
            } else if c == '}' && self.after_comma {
                Scan { trailing_comma: true, ..counted }
            } else if c == ']' || c == '}' {
                Scan {
                    depth: if counted.depth > 0 {
                        (counted.depth - 1) as u8
                    } else {
                        0
                    },
                    in_exponent: false,
                    ..counted
                }
            } else if c == ',' {
                Scan { after_comma: true, in_exponent: false, ..counted }
            } else if spec_is_space(c) {
                Scan { after_comma: self.after_comma, in_exponent: false, ..counted }
            } else if c == ':' {
                if counted.string_length > MAX_KEY_LENGTH {
                    counted.spec_refuse()
                } else {
                    Scan { in_exponent: false, ..counted }
                }
            } else if c == 'e' || c == 'E' {
                Scan { in_exponent: true, exponent_digits: 0, ..counted }
            } else if counted.in_exponent && spec_is_digit(c) {
                if counted.exponent_digits >= MAX_EXPONENT_DIGITS {
                    counted.spec_refuse()
                } else {
                    Scan { exponent_digits: (counted.exponent_digits + 1) as u8, ..counted }
                }
            } else if counted.in_exponent && counted.exponent_digits == 0 && (c == '+' || c
                == '-') {
                counted
            } else {
                Scan { in_exponent: false, ..counted }
            }
        }
    }

    /// Takes the scan one character further.
    pub fn step(self, c: char) -> (next: Scan)
        ensures
            next == self.spec_step(c),
    {
        if self.refused || self.trailing_comma {
            return self;
        }
        if self.length >= MAX_LENGTH {
            return Scan { refused: true, ..self };
        }
        let mut next = self;
        next.length = self.length + 1;
        next.after_comma = false;
        if self.in_string {
            if self.string_length <= MAX_KEY_LENGTH {
                next.string_length = self.string_length + 1;
            }
            if self.escaped {
                next.escaped = false;
            } else if c == '\\' {
                next.escaped = true;
            } else if c == '"' {
                next.in_string = false;
                next.string_length = self.string_length;
            }
        } else if c == '"' {
            next.in_string = true;
            next.string_length = 0;
            next.in_exponent = false;
        } else if c == '[' || c == '{' {
            if self.depth >= MAX_DEPTH {
                next.refused = true;
            } else {
                next.depth = self.depth + 1;
                next.in_exponent = false;
            }
        } else if c == '}' && self.after_comma {
            next.trailing_comma = true;
        } else if c == ']' || c == '}' {
            if self.depth > 0 {
                next.depth = self.depth - 1;
            }
            next.in_exponent = false;
        } else if c == ',' {
            next.after_comma = true;
            next.in_exponent = false;
        } else if c == ' ' || c == '\n' || c == '\t' || c == '\r' {
            next.after_comma = self.after_comma;
            next.in_exponent = false;
        } else if c == ':' {
            if self.string_length > MAX_KEY_LENGTH {
                next.refused = true;
            } else {
                next.in_exponent = false;
            }
        } else if c == 'e' || c == 'E' {
            next.in_exponent = true;
            next.exponent_digits = 0;
        } else if self.in_exponent && '0' <= c && c <= '9' {
            if self.exponent_digits >= MAX_EXPONENT_DIGITS {
                next.refused = true;
            } else {
                next.exponent_digits = self.exponent_digits + 1;
            }
        } else if self.in_exponent && self.exponent_digits == 0 && (c == '+' || c == '-') {
        } else {
            next.in_exponent = false;
        }
        next
    }
}

/// The scan of a whole text.
pub open spec fn spec_scanned(text: Seq<char>) -> Scan
    decreases text.len(),
{
    if text.len() == 0 {
        Scan::spec_start()
    } else {
        spec_scanned(text.drop_last()).spec_step(text.last())
    }
}

/// The text passes the scan: it has at most `MAX_LENGTH` characters, its
/// arrays and objects nest at most `MAX_DEPTH` deep, no string before a
/// colon has more than `MAX_KEY_LENGTH` characters, no exponent more than
/// `MAX_EXPONENT_DIGITS` digits, and no closing brace stands behind a comma.
/// Only such texts are handed to the parser.
pub open spec fn spec_parsable(text: Seq<char>) -> bool {
    !spec_scanned(text).refused && !spec_scanned(text).trailing_comma
}

/// Scans a text and says whether it passes.
pub fn parsable(text: &str) -> (ok: bool)
    ensures
        ok == spec_parsable(text@),
{
    let scan = scan_text(text);
    !scan.refused && !scan.trailing_comma
}

/// Scans a text.
pub fn scan_text(text: &str) -> (scan: Scan)
    ensures
        scan == spec_scanned(text@),
{
    let mut scan = Scan::start();
    for c in it: text.chars()
        invariant
            it.seq() == text@,
            scan == spec_scanned(text@.take(it.index() as int)),
    {
        proof {
            assert(text@.take(it.index() + 1).drop_last() =~= text@.take(it.index() as int));
        }
        scan = scan.step(c);
    }
    proof {
        assert(text@.take(text@.len() as int) =~= text@);
    }
    scan
}

/// A parsed JSON value of the `rustc_serialize` crate, `json::Json`. Nothing
/// is known of it but what `text_members` names.
#[verifier::external_type_specification]
#[verifier::external_body]
pub struct ExJson(Json);

/// The error of `Json::from_str`, `json::ParserError`, whose inside is not
/// looked into.
#[verifier::external_type_specification]
#[verifier::external_body]
pub struct ExParserError(ParserError);

/// The members of a JSON value that have a string for their value, by key.
/// A value that is no object has none.
pub uninterp spec fn text_members(document: Json) -> Map<Seq<char>, Seq<char>>;

/// The string-valued members of the document that `Json::from_str` reads
/// from a text, or `None` where it rejects the text. It says nothing of a
/// text that does not pass the scan.
pub uninterp spec fn json_document(text: Seq<char>) -> Option<Map<Seq<char>, Seq<char>>>;

/// The JSON string literal that `rustc_serialize::json::encode` writes for a
/// text, quotes included.
pub uninterp spec fn json_literal(text: Seq<char>) -> Seq<char>;

/// Calls `Json::from_str`, on a text that passes the scan only: its builder
/// calls itself for every array and object inside another, it keeps the
/// keys of the open objects in a buffer that it indexes with 16 bits, it
/// counts the items of an array in 32 bits, it adds up the digits of an
/// exponent unchecked, and at a closing brace behind a comma inside another
/// array or object it loses its place and panics. Trusted: the outcome is
/// the one that
/// `json_document` names for the text, the document taken by its
/// string-valued members.
#[verifier::external_body]
pub(crate) fn parse_document(text: &str) -> (parsed: Result<Json, ParserError>)
    requires
        spec_parsable(text@),
    ensures
        match parsed {
            Ok(document) => json_document(text@) == Some(text_members(document)),
            Err(_) => json_document(text@).is_none(),
        },
{
    Json::from_str(text)
}

/// Calls `Json::find` and hands back a copy of what it found where that is
/// a string. Trusted: the result is the entry of `text_members` for the
/// key, and `None` where there is no such entry.
#[verifier::external_body]
pub(crate) fn text_member(document: &Json, key: &str) -> (member: Option<String>)
    ensures
        match member {
            Some(text) => text_members(*document).contains_key(key@) && text_members(
                *document,
            )[key@] == text@,
            None => !text_members(*document).contains_key(key@),
        },
{
    match document.find(key) {
        Some(Json::String(text)) => Some(text.clone()),
        _ => None,
    }
}

/// Calls `rustc_serialize::json::encode` on a text. For a text it only
/// writes into a `String`, which does not fail. Trusted: the result is the
/// literal that `json_literal` names for the text.
#[verifier::external_body]
pub(crate) fn encode_text(text: &str) -> (literal: String)
    ensures
        literal@ == json_literal(text@),
{
    rustc_serialize::json::encode(&text).unwrap()
}

} // verus!
