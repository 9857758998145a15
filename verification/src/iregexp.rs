//! A checker for I-Regexp (RFC 9485), the interoperable subset of regular
//! expressions. The grammar is read as a recognizer that takes the first
//! alternative that matches and repeats for as long as it can.

use vstd::prelude::*;

verus! {

/// Whether the character at `pos` is `c`.
pub open spec fn at(s: Seq<char>, pos: int, c: char) -> bool {
    0 <= pos < s.len() && s[pos] == c
}

/// A character that stands for itself outside brackets.
pub open spec fn is_normal_char(c: char) -> bool {
    let n = c as u32;
    n <= 0x27 || c == ',' || c == '-' || (0x2F <= n && n <= 0x3E) || (0x40 <= n && n <= 0x5A) || (
    0x5E <= n && n <= 0x7A) || 0x7E <= n
}

/// A character that may follow a backslash to stand for one character.
pub open spec fn is_escapable(c: char) -> bool {
    let n = c as u32;
    (0x28 <= n && n <= 0x2B) || c == '-' || c == '.' || c == '?' || (0x5B <= n && n <= 0x5E) || c
        == 'n' || c == 'r' || c == 't' || (0x7B <= n && n <= 0x7D)
}

/// A character that stands for itself inside brackets.
pub open spec fn is_class_char(c: char) -> bool {
    let n = c as u32;
    n <= 0x2C || (0x2E <= n && n <= 0x5A) || 0x5E <= n
}

/// The first letter of a character category.
pub open spec fn is_major(c: char) -> bool {
    c == 'L' || c == 'M' || c == 'N' || c == 'P' || c == 'Z' || c == 'S' || c == 'C'
}

/// Whether `minor` names a subcategory of the category `major`.
pub open spec fn is_minor(major: char, minor: char) -> bool {
    if major == 'L' {
        minor == 'l' || minor == 'm' || minor == 'o' || minor == 't' || minor == 'u'
    } else if major == 'M' {
        minor == 'c' || minor == 'e' || minor == 'n'
    } else if major == 'N' {
        minor == 'd' || minor == 'l' || minor == 'o'
    } else if major == 'P' {
        minor == 'c' || minor == 'd' || minor == 'e' || minor == 'f' || minor == 'i' || minor
            == 'o' || minor == 's'
    } else if major == 'Z' {
        minor == 'l' || minor == 'p' || minor == 's'
    } else if major == 'S' {
        minor == 'c' || minor == 'k' || minor == 'm' || minor == 'o'
    } else if major == 'C' {
        minor == 'c' || minor == 'f' || minor == 'n' || minor == 'o'
    } else {
        false
    }
}

/// A decimal digit.
pub open spec fn is_digit(c: char) -> bool {
    let n = c as u32;
    0x30 <= n && n <= 0x39
}

/// Where an escaped single character that starts at `pos` ends.
pub open spec fn single_esc_end(s: Seq<char>, pos: int) -> Option<int> {
    if at(s, pos, '\\') && pos + 1 < s.len() && is_escapable(s[pos + 1]) {
        Some(pos + 2)
    } else {
        None
    }
}

/// Where a category escape (`\p{..}` or `\P{..}`) that starts at `pos` ends.
pub open spec fn class_esc_end(s: Seq<char>, pos: int) -> Option<int> {
    if at(s, pos, '\\') && (at(s, pos + 1, 'p') || at(s, pos + 1, 'P')) && at(s, pos + 2, '{')
        && pos + 3 < s.len() && is_major(s[pos + 3]) {
        let close = if pos + 4 < s.len() && is_minor(s[pos + 3], s[pos + 4]) {
            pos + 5
        } else {
            pos + 4
        };
        if at(s, close, '}') {
            Some(close + 1)
        } else {
            None
        }
    } else {
        None
    }
}

/// Where the run of digits that starts at `pos` ends.
pub open spec fn digits_end(s: Seq<char>, pos: int) -> int
    decreases s.len() - pos,
{
    if 0 <= pos < s.len() && is_digit(s[pos]) {
        digits_end(s, pos + 1)
    } else {
        pos
    }
}

/// Where a quantifier that starts at `pos` ends: `*`, `+`, `?`, or a count
/// in braces.
pub open spec fn quantifier_end(s: Seq<char>, pos: int) -> Option<int> {
    if at(s, pos, '*') || at(s, pos, '+') || at(s, pos, '?') {
        Some(pos + 1)
    } else if at(s, pos, '{') {
        let least = digits_end(s, pos + 1);
        if least > pos + 1 {
            let most = if at(s, least, ',') {
                digits_end(s, least + 1)
            } else {
                least
            };
            if at(s, most, '}') {
                Some(most + 1)
            } else {
                None
            }
        } else {
            None
        }
    } else {
        None
    }
}

/// Where a single character inside brackets that starts at `pos` ends.
pub open spec fn class_char_end(s: Seq<char>, pos: int) -> Option<int> {
    if 0 <= pos < s.len() && is_class_char(s[pos]) {
        Some(pos + 1)
    } else {
        single_esc_end(s, pos)
    }
}

/// Where an item inside brackets that starts at `pos` ends: a character, a
/// range of two characters, or a category escape.
pub open spec fn class_item_end(s: Seq<char>, pos: int) -> Option<int> {
    match class_char_end(s, pos) {
        Some(first) => if at(s, first, '-') && class_char_end(s, first + 1) is Some {
            class_char_end(s, first + 1)
        } else {
            Some(first)
        },
        None => class_esc_end(s, pos),
    }
}

/// Where the run of bracket items that starts at `pos` ends.
pub open spec fn class_items_end(s: Seq<char>, pos: int) -> int
    decreases s.len() - pos,
{
    match class_item_end(s, pos) {
        Some(next) => if pos < next <= s.len() {
            class_items_end(s, next)
        } else {
            pos
        },
        None => pos,
    }
}

/// Where a bracket expression that starts at `pos` ends.
pub open spec fn class_expr_end(s: Seq<char>, pos: int) -> Option<int> {
    if at(s, pos, '[') {
        let start = if at(s, pos + 1, '^') {
            pos + 2
        } else {
            pos + 1
        };
        let first = if at(s, start, '-') {
            Some(start + 1)
        } else {
            class_item_end(s, start)
        };
        match first {
            Some(next) => {
                let items = class_items_end(s, next);
                let close = if at(s, items, '-') {
                    items + 1
                } else {
                    items
                };
                if at(s, close, ']') {
                    Some(close + 1)
                } else {
                    None
                }
            },
            None => None,
        }
    } else {
        None
    }
}

/// Where a character class that starts at `pos` ends: a dot, an escape, or
/// a bracket expression.
pub open spec fn char_class_end(s: Seq<char>, pos: int) -> Option<int> {
    if at(s, pos, '.') {
        Some(pos + 1)
    } else if single_esc_end(s, pos) is Some {
        single_esc_end(s, pos)
    } else if class_esc_end(s, pos) is Some {
        class_esc_end(s, pos)
    } else {
        class_expr_end(s, pos)
    }
}

/// Where an atom that starts at `pos` ends: a normal character, a character
/// class, or an expression in parentheses.
pub open spec fn atom_end(s: Seq<char>, pos: int) -> Option<int>
    decreases s.len() - pos, 0int,
{
    if 0 <= pos < s.len() && is_normal_char(s[pos]) {
        Some(pos + 1)
    } else if char_class_end(s, pos) is Some {
        char_class_end(s, pos)
    } else if at(s, pos, '(') {
        let inner = regexp_end(s, pos + 1);
        if at(s, inner, ')') {
            Some(inner + 1)
        } else {
            None
        }
    } else {
        None
    }
}

/// Where a piece that starts at `pos` ends: an atom with the quantifier that
/// follows it, if one does.
pub open spec fn piece_end(s: Seq<char>, pos: int) -> Option<int>
    decreases s.len() - pos, 1int,
{
    match atom_end(s, pos) {
        Some(atom) => match quantifier_end(s, atom) {
            Some(quantified) => Some(quantified),
            None => Some(atom),
        },
        None => None,
    }
}

/// Where the branch that starts at `pos` ends: as many pieces as match.
pub open spec fn branch_end(s: Seq<char>, pos: int) -> int
    decreases s.len() - pos, 2int,
{
    match piece_end(s, pos) {
        Some(next) => if pos < next <= s.len() {
            branch_end(s, next)
        } else {
            pos
        },
        None => pos,
    }
}

/// Where the alternatives that continue an expression at `pos` end: each is
/// a bar and a branch.
pub open spec fn alternatives_end(s: Seq<char>, pos: int) -> int
    decreases s.len() - pos, 3int,
{
    if at(s, pos, '|') {
        let next = branch_end(s, pos + 1);
        if pos < next <= s.len() {
            alternatives_end(s, next)
        } else {
            pos
        }
    } else {
        pos
    }
}

/// Where the expression that starts at `pos` ends: a branch and the
/// alternatives that follow it.
pub open spec fn regexp_end(s: Seq<char>, pos: int) -> int
    decreases s.len() - pos, 4int,
{
    let first = branch_end(s, pos);
    if pos <= first <= s.len() {
        alternatives_end(s, first)
    } else {
        pos
    }
}

/// Whether the whole of `s` is one expression.
pub open spec fn is_iregexp(s: Seq<char>) -> bool {
    regexp_end(s, 0) == s.len()
}

fn is_at(s: &Vec<char>, pos: usize, c: char) -> (yes: bool)
    ensures
        yes == at(s@, pos as int, c),
        yes ==> pos < usize::MAX,
{
    pos < s.len() && s[pos] == c
}

fn normal_char(c: char) -> (yes: bool)
    ensures
        yes == is_normal_char(c),
{
    let n = c as u32;
    n <= 0x27 || c == ',' || c == '-' || (0x2F <= n && n <= 0x3E) || (0x40 <= n && n <= 0x5A) || (
    0x5E <= n && n <= 0x7A) || 0x7E <= n
}

fn escapable(c: char) -> (yes: bool)
    ensures
        yes == is_escapable(c),
{
    let n = c as u32;
    (0x28 <= n && n <= 0x2B) || c == '-' || c == '.' || c == '?' || (0x5B <= n && n <= 0x5E) || c
        == 'n' || c == 'r' || c == 't' || (0x7B <= n && n <= 0x7D)
}

fn class_char(c: char) -> (yes: bool)
    ensures
        yes == is_class_char(c),
{
    let n = c as u32;
    n <= 0x2C || (0x2E <= n && n <= 0x5A) || 0x5E <= n
}

fn major(c: char) -> (yes: bool)
    ensures
        yes == is_major(c),
{
    c == 'L' || c == 'M' || c == 'N' || c == 'P' || c == 'Z' || c == 'S' || c == 'C'
}

fn minor(first: char, second: char) -> (yes: bool)
    ensures
        yes == is_minor(first, second),
{
    if first == 'L' {
        second == 'l' || second == 'm' || second == 'o' || second == 't' || second == 'u'
    } else if first == 'M' {
        second == 'c' || second == 'e' || second == 'n'
    } else if first == 'N' {
        second == 'd' || second == 'l' || second == 'o'
    } else if first == 'P' {
        second == 'c' || second == 'd' || second == 'e' || second == 'f' || second == 'i' || second
            == 'o' || second == 's'
    } else if first == 'Z' {
        second == 'l' || second == 'p' || second == 's'
    } else if first == 'S' {
        second == 'c' || second == 'k' || second == 'm' || second == 'o'
    } else if first == 'C' {
        second == 'c' || second == 'f' || second == 'n' || second == 'o'
    } else {
        false
    }
}

fn digit(c: char) -> (yes: bool)
    ensures
        yes == is_digit(c),
{
    let n = c as u32;
    0x30 <= n && n <= 0x39
}

/// Whether `end`, a position in the text, is the outcome `expected`.
spec fn ends_at(end: Option<usize>, expected: Option<int>, len: int) -> bool {
    match end {
        Some(e) => expected == Some(e as int) && e <= len,
        None => expected is None,
    }
}

fn single_esc(s: &Vec<char>, pos: usize) -> (end: Option<usize>)
    ensures
        ends_at(end, single_esc_end(s@, pos as int), s@.len() as int),
{
    if is_at(s, pos, '\\') && pos + 1 < s.len() && escapable(s[pos + 1]) {
        Some(pos + 2)
    } else {
        None
    }
}

fn class_esc(s: &Vec<char>, pos: usize) -> (end: Option<usize>)
    ensures
        ends_at(end, class_esc_end(s@, pos as int), s@.len() as int),
{
    if is_at(s, pos, '\\') && (is_at(s, pos + 1, 'p') || is_at(s, pos + 1, 'P')) && is_at(
        s,
        pos + 2,
        '{',
    ) && pos + 3 < s.len() && major(s[pos + 3]) {
        let close = if pos + 4 < s.len() && minor(s[pos + 3], s[pos + 4]) {
            pos + 5
        } else {
            pos + 4
        };
        if is_at(s, close, '}') {
            Some(close + 1)
        } else {
            None
        }
    } else {
        None
    }
}

fn digits(s: &Vec<char>, pos: usize) -> (end: usize)
    requires
        pos <= s@.len(),
    ensures
        end == digits_end(s@, pos as int),
        pos <= end <= s@.len(),
{
    let mut p = pos;
    while p < s.len() && digit(s[p])
        invariant
            pos <= p <= s@.len(),
            digits_end(s@, p as int) == digits_end(s@, pos as int),
        decreases s@.len() - p,
    {
        p += 1;
    }
    p
}

fn quantifier(s: &Vec<char>, pos: usize) -> (end: Option<usize>)
    ensures
        ends_at(end, quantifier_end(s@, pos as int), s@.len() as int),
{
    if is_at(s, pos, '*') || is_at(s, pos, '+') || is_at(s, pos, '?') {
        Some(pos + 1)
    } else if is_at(s, pos, '{') {
        let least = digits(s, pos + 1);
        if least > pos + 1 {
            let most = if is_at(s, least, ',') {
                digits(s, least + 1)
            } else {
                least
            };
            if is_at(s, most, '}') {
                Some(most + 1)
            } else {
                None
            }
        } else {
            None
        }
    } else {
        None
    }
}

fn class_char_at(s: &Vec<char>, pos: usize) -> (end: Option<usize>)
    ensures
        ends_at(end, class_char_end(s@, pos as int), s@.len() as int),
{
    if pos < s.len() && class_char(s[pos]) {
        Some(pos + 1)
    } else {
        single_esc(s, pos)
    }
}

fn class_item(s: &Vec<char>, pos: usize) -> (end: Option<usize>)
    ensures
        ends_at(end, class_item_end(s@, pos as int), s@.len() as int),
{
    match class_char_at(s, pos) {
        Some(first) => {
            if is_at(s, first, '-') {
                match class_char_at(s, first + 1) {
                    Some(second) => Some(second),
                    None => Some(first),
                }
            } else {
                Some(first)
            }
        },
        None => class_esc(s, pos),
    }
}

fn class_items(s: &Vec<char>, pos: usize) -> (end: usize)
    requires
        pos <= s@.len(),
    ensures
        end == class_items_end(s@, pos as int),
        pos <= end <= s@.len(),
{
    let mut p = pos;
    let mut more = true;
    while more
        invariant
            pos <= p <= s@.len(),
            class_items_end(s@, p as int) == class_items_end(s@, pos as int),
            !more ==> class_items_end(s@, p as int) == p,
        decreases s@.len() - p + if more { 1int } else { 0int },
    {
        match class_item(s, p) {
            Some(next) => {
                if next > p {
                    p = next;
                } else {
                    more = false;
                }
            },
            None => {
                more = false;
            },
        }
    }
    p
}

fn class_expr(s: &Vec<char>, pos: usize) -> (end: Option<usize>)
    ensures
        ends_at(end, class_expr_end(s@, pos as int), s@.len() as int),
{
    if is_at(s, pos, '[') {
        let start = if is_at(s, pos + 1, '^') {
            pos + 2
        } else {
            pos + 1
        };
        let first = if is_at(s, start, '-') {
            Some(start + 1)
        } else {
            class_item(s, start)
        };
        match first {
            Some(next) => {
                let items = class_items(s, next);
                let close = if is_at(s, items, '-') {
                    items + 1
                } else {
                    items
                };
                if is_at(s, close, ']') {
                    Some(close + 1)
                } else {
                    None
                }
            },
            None => None,
        }
    } else {
        None
    }
}

fn char_class(s: &Vec<char>, pos: usize) -> (end: Option<usize>)
    ensures
        ends_at(end, char_class_end(s@, pos as int), s@.len() as int),
{
    if is_at(s, pos, '.') {
        return Some(pos + 1);
    }
    let escaped = single_esc(s, pos);
    if escaped.is_some() {
        return escaped;
    }
    let category = class_esc(s, pos);
    if category.is_some() {
        return category;
    }
    class_expr(s, pos)
}

fn atom(s: &Vec<char>, pos: usize) -> (end: Option<usize>)
    requires
        pos <= s@.len(),
    ensures
        ends_at(end, atom_end(s@, pos as int), s@.len() as int),
    decreases s@.len() - pos, 0int,
{
    if pos < s.len() && normal_char(s[pos]) {
        return Some(pos + 1);
    }
    let class = char_class(s, pos);
    if class.is_some() {
        return class;
    }
    if is_at(s, pos, '(') {
        let inner = regexp(s, pos + 1);
        if is_at(s, inner, ')') {
            Some(inner + 1)
        } else {
            None
        }
    } else {
        None
    }
}

fn piece(s: &Vec<char>, pos: usize) -> (end: Option<usize>)
    requires
        pos <= s@.len(),
    ensures
        ends_at(end, piece_end(s@, pos as int), s@.len() as int),
    decreases s@.len() - pos, 1int,
{
    match atom(s, pos) {
        Some(after) => match quantifier(s, after) {
            Some(quantified) => Some(quantified),
            None => Some(after),
        },
        None => None,
    }
}

fn branch(s: &Vec<char>, pos: usize) -> (end: usize)
    requires
        pos <= s@.len(),
    ensures
        end == branch_end(s@, pos as int),
        pos <= end <= s@.len(),
    decreases s@.len() - pos, 2int,
{
    match piece(s, pos) {
        Some(next) => {
            if next > pos {
                branch(s, next)
            } else {
                pos
            }
        },
        None => pos,
    }
}

fn alternatives(s: &Vec<char>, pos: usize) -> (end: usize)
    requires
        pos <= s@.len(),
    ensures
        end == alternatives_end(s@, pos as int),
        pos <= end <= s@.len(),
    decreases s@.len() - pos, 3int,
{
    if is_at(s, pos, '|') {
        let next = branch(s, pos + 1);
        if next > pos {
            alternatives(s, next)
        } else {
            pos
        }
    } else {
        pos
    }
}

fn regexp(s: &Vec<char>, pos: usize) -> (end: usize)
    requires
        pos <= s@.len(),
    ensures
        end == regexp_end(s@, pos as int),
        pos <= end <= s@.len(),
    decreases s@.len() - pos, 4int,
{
    let first = branch(s, pos);
    alternatives(s, first)
}

fn chars_of(text: &str) -> (chars: Vec<char>)
    ensures
        chars@ == text@,
{
    let n = text.unicode_len();
    let mut chars: Vec<char> = Vec::new();
    let mut i: usize = 0;
    while i < n
        invariant
            i <= n,
            n == text@.len(),
            chars@ == text@.take(i as int),
        decreases n - i,
    {
        chars.push(text.get_char(i));
        assert(chars@ =~= text@.take(i + 1));
        i += 1;
    }
    assert(text@.take(n as int) =~= text@);
    chars
}

/// Where recognition of a pattern stopped short of its end.
#[derive(Debug, PartialEq, Eq, Clone, Copy, Structural)]
pub struct SyntaxError {
    /// The number of characters that form an expression, counted from the
    /// start.
    pub position: usize,
}

/// The I-Regexp grammar.
pub struct IRegexp;

impl IRegexp {
    /// Recognizes `pattern` as a whole; where that fails, says how far an
    /// expression reaches.
    pub fn parse(pattern: &str) -> (outcome: Result<(), SyntaxError>)
        ensures
            outcome is Ok <==> is_iregexp(pattern@),
            outcome matches Err(e) ==> e.position == regexp_end(pattern@, 0),
    {
        let chars = chars_of(pattern);
        let end = regexp(&chars, 0);
        if end == chars.len() {
            Ok(())
        } else {
            Err(SyntaxError { position: end })
        }
    }
}

/// Whether `pattern` is a valid I-Regexp.
pub fn check(pattern: &str) -> (valid: bool)
    ensures
        valid == is_iregexp(pattern@),
{
    IRegexp::parse(pattern).is_ok()
}

} // verus!
