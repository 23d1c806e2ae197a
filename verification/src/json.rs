//! JSON string literals: how a text is written as one, and how one is read
//! back.

use vstd::prelude::*;

verus! {

/// The digit that stands for `n` in base 16, in lower case.
pub open spec fn hex_digit(n: int) -> char {
    if n < 10 {
        (n + 0x30) as char
    } else {
        (n - 10 + 0x61) as char
    }
}

/// How one character is written inside a string literal. The quotation mark
/// and the backslash get a backslash in front; backspace, tab, line feed, form
/// feed and carriage return get their short forms; every other character below
/// U+0020 is written as `\u00` and two digits; all others stand for themselves.
pub open spec fn escaped(c: char) -> Seq<char> {
    if c == '"' {
        seq!['\\', '"']
    } else if c == '\\' {
        seq!['\\', '\\']
    } else if c == '\u{8}' {
        seq!['\\', 'b']
    } else if c == '\t' {
        seq!['\\', 't']
    } else if c == '\n' {
        seq!['\\', 'n']
    } else if c == '\u{c}' {
        seq!['\\', 'f']
    } else if c == '\r' {
        seq!['\\', 'r']
    } else if (c as int) < 0x20 {
        seq!['\\', 'u', '0', '0', hex_digit(c as int / 16), hex_digit(c as int % 16)]
    } else {
        seq![c]
    }
}

/// The characters of `text`, each written as inside a string literal.
pub open spec fn escaped_text(text: Seq<char>) -> Seq<char> {
    text.map_values(|c: char| escaped(c)).flatten()
}

/// The string literal for `text`: its escaped characters between quotation
/// marks.
pub open spec fn json_string(text: Seq<char>) -> Seq<char> {
    seq!['"'] + escaped_text(text) + seq!['"']
}

/// The value of a digit of base 16, in either case.
pub open spec fn hex_value(c: char) -> Option<int> {
    let n: int = c as int;
    if 0x30 <= n <= 0x39 {
        Some(n - 0x30)
    } else if 0x61 <= n <= 0x66 {
        Some(n - 0x61 + 10)
    } else if 0x41 <= n <= 0x46 {
        Some(n - 0x41 + 10)
    } else {
        None
    }
}

/// The character that a backslash and `c` stand for, where that is one of the
/// short forms.
pub open spec fn short_escape(c: char) -> Option<char> {
    if c == '"' || c == '\\' || c == '/' {
        Some(c)
    } else if c == 'b' {
        Some('\u{8}')
    } else if c == 't' {
        Some('\t')
    } else if c == 'n' {
        Some('\n')
    } else if c == 'f' {
        Some('\u{c}')
    } else if c == 'r' {
        Some('\r')
    } else {
        None
    }
}

/// The number that the four digits from position `at` on give in base 16.
pub open spec fn hex_quad(s: Seq<char>, at: int) -> Option<int> {
    if at + 4 <= s.len() {
        match (hex_value(s[at]), hex_value(s[at + 1]), hex_value(s[at + 2]), hex_value(s[at + 3])) {
            (Some(a), Some(b), Some(c), Some(d)) => Some(((a * 16 + b) * 16 + c) * 16 + d),
            _ => None,
        }
    } else {
        None
    }
}

/// Whether `n` is a code point that a `char` can hold.
pub open spec fn is_scalar(n: int) -> bool {
    0 <= n < 0xD800 || 0xE000 <= n <= 0x10FFFF
}

/// The text that the inside of a string literal stands for, or `None` where it
/// is not the inside of one: it holds a bare quotation mark or a bare character
/// below U+0020, or a backslash that no escape follows. A `\u` escape gives the
/// character of its number; two of them give one character where the first is
/// the upper and the second the lower half of a surrogate pair.
pub open spec fn unescaped(s: Seq<char>) -> Option<Seq<char>>
    decreases s.len(),
{
    if s.len() == 0 {
        Some(Seq::empty())
    } else if s[0] == '"' || (s[0] as int) < 0x20 {
        None
    } else if s[0] != '\\' {
        match unescaped(s.skip(1)) {
            Some(rest) => Some(seq![s[0]] + rest),
            None => None,
        }
    } else if s.len() < 2 {
        None
    } else if short_escape(s[1]) is Some {
        match unescaped(s.skip(2)) {
            Some(rest) => Some(seq![short_escape(s[1])->0] + rest),
            None => None,
        }
    } else if s[1] == 'u' && hex_quad(s, 2) is Some {
        let first: int = hex_quad(s, 2)->0;
        if is_scalar(first) {
            match unescaped(s.skip(6)) {
                Some(rest) => Some(seq![first as char] + rest),
                None => None,
            }
        } else if 0xD800 <= first <= 0xDBFF && s.len() >= 12 && s[6] == '\\' && s[7] == 'u'
            && hex_quad(s, 8) is Some && 0xDC00 <= hex_quad(s, 8)->0 <= 0xDFFF {
            let second: int = hex_quad(s, 8)->0;
            match unescaped(s.skip(12)) {
                Some(rest) => Some(
                    seq![(0x10000 + (first - 0xD800) * 0x400 + (second - 0xDC00)) as char] + rest,
                ),
                None => None,
            }
        } else {
            None
        }
    } else {
        None
    }
}

/// The text that the string literal `s` stands for, or `None` where `s` is no
/// string literal.
pub open spec fn json_text(s: Seq<char>) -> Option<Seq<char>> {
    if s.len() >= 2 && s.first() == '"' && s.last() == '"' {
        unescaped(s.subrange(1, s.len() - 1))
    } else {
        None
    }
}

/// Writing one more character adds its escaped form at the end.
pub proof fn escaped_text_push(text: Seq<char>, c: char)
    ensures
        escaped_text(text.push(c)) == escaped_text(text) + escaped(c),
{
    let pieces = text.map_values(|c: char| escaped(c));
    assert(text.push(c).map_values(|c: char| escaped(c)) =~= pieces.push(escaped(c)));
    pieces.lemma_flatten_push(escaped(c));
}

/// Reading what was written for one character, followed by more of the inside
/// of a literal, gives that character, followed by what the rest gives.
proof fn lemma_unescaped_one(c: char, more: Seq<char>)
    requires
        unescaped(more) is Some,
    ensures
        unescaped(escaped(c) + more) == Some(seq![c] + unescaped(more)->0),
{
    let s = escaped(c) + more;
    if c == '"' || c == '\\' || c == '\u{8}' || c == '\t' || c == '\n' || c == '\u{c}' || c
        == '\r' {
        assert(s.skip(2) =~= more);
    } else if (c as int) < 0x20 {
        let n: int = c as int;
        assert(s.skip(6) =~= more);
        assert(hex_value(s[2]) == Some(0int));
        assert(hex_value(s[3]) == Some(0int));
        assert(hex_value(s[4]) == Some(n / 16));
        assert(hex_value(s[5]) == Some(n % 16));
        assert(hex_quad(s, 2) == Some(n));
        assert(n as char == c);
    } else {
        assert(s.skip(1) =~= more);
    }
}

/// Reading what was written for a text gives the text.
proof fn lemma_unescaped_text(text: Seq<char>)
    ensures
        unescaped(escaped_text(text)) == Some(text),
    decreases text.len(),
{
    let pieces = text.map_values(|c: char| escaped(c));
    if text.len() == 0 {
        assert(pieces =~= Seq::<Seq<char>>::empty());
    } else {
        let rest = text.drop_first();
        assert(pieces.drop_first() =~= rest.map_values(|c: char| escaped(c)));
        assert(escaped_text(text) == escaped(text[0]) + escaped_text(rest));
        lemma_unescaped_text(rest);
        lemma_unescaped_one(text[0], escaped_text(rest));
        assert(seq![text[0]] + rest =~= text);
    }
}

/// Every text can be read back from its string literal: decoding what
/// [`json_string`] gives for a text gives that text.
pub proof fn json_string_decodes(text: Seq<char>)
    ensures
        json_text(json_string(text)) == Some(text),
{
    let s = json_string(text);
    assert(s.subrange(1, s.len() - 1) =~= escaped_text(text));
    lemma_unescaped_text(text);
}

/// Appends `c` to `text` with `String::push` of the standard library.
///
/// Trusted: `push` adds the given character at the end and leaves what stood
/// before it as it was.
#[verifier::external_body]
fn push_char(text: &mut String, c: char)
    ensures
        final(text)@ == old(text)@.push(c),
{
    text.push(c);
}

/// The digit for `n` in base 16.
fn hex(n: u8) -> (digit: char)
    requires
        n < 16,
    ensures
        digit == hex_digit(n as int),
{
    if n < 10 {
        (n + 0x30) as char
    } else {
        (n - 10 + 0x61) as char
    }
}

/// Appends the escaped form of `c` to `text`.
fn push_escaped(text: &mut String, c: char)
    ensures
        final(text)@ == old(text)@ + escaped(c),
{
    let n: u32 = c as u32;
    if c == '"' || c == '\\' {
        push_char(text, '\\');
        push_char(text, c);
    } else if c == '\u{8}' {
        push_char(text, '\\');
        push_char(text, 'b');
    } else if c == '\t' {
        push_char(text, '\\');
        push_char(text, 't');
    } else if c == '\n' {
        push_char(text, '\\');
        push_char(text, 'n');
    } else if c == '\u{c}' {
        push_char(text, '\\');
        push_char(text, 'f');
    } else if c == '\r' {
        push_char(text, '\\');
        push_char(text, 'r');
    } else if n < 0x20 {
        push_char(text, '\\');
        push_char(text, 'u');
        push_char(text, '0');
        push_char(text, '0');
        push_char(text, hex((n / 16) as u8));
        push_char(text, hex((n % 16) as u8));
    } else {
        push_char(text, c);
    }
    assert(text@ =~= old(text)@ + escaped(c));
}

/// Writes `text` as a JSON string literal.
pub fn quote(text: &str) -> (quoted: String)
    ensures
        quoted@ == json_string(text@),
{
    let mut quoted = String::new();
    push_char(&mut quoted, '"');
    assert(text@.take(0) =~= Seq::<char>::empty());
    assert(text@.take(0).map_values(|c: char| escaped(c)) =~= Seq::<Seq<char>>::empty());
    for c in it: text.chars()
        invariant
            it.seq() == text@,
            quoted@ == seq!['"'] + escaped_text(text@.take(it.index())),
    {
        proof {
            escaped_text_push(text@.take(it.index()), c);
            assert(text@.take(it.index() + 1) =~= text@.take(it.index()).push(c));
        }
        push_escaped(&mut quoted, c);
    }
    assert(text@.take(text@.len() as int) =~= text@);
    push_char(&mut quoted, '"');
    quoted
}

} // verus!
