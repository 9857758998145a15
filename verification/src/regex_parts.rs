//! Building regular expressions out of parts: each part holds a pattern, and
//! the combinators put patterns together as text.

use vstd::prelude::*;
use crate::text::{decimal, joined, push_char, push_decimal, views};

verus! {

/// Whether `c` has a meaning of its own in a regular expression.
pub open spec fn is_special(c: char) -> bool {
    c == '.' || c == '+' || c == '*' || c == '?' || c == '^' || c == '$' || c == '(' || c == ')'
        || c == '[' || c == ']' || c == '{' || c == '}' || c == '|' || c == '\\'
}

/// The text with a backslash put before every special character.
pub open spec fn escaped(s: Seq<char>) -> Seq<char>
    decreases s.len(),
{
    if s.len() == 0 {
        Seq::empty()
    } else if is_special(s.last()) {
        escaped(s.drop_last()) + seq!['\\', s.last()]
    } else {
        escaped(s.drop_last()).push(s.last())
    }
}

fn special(c: char) -> (yes: bool)
    ensures
        yes == is_special(c),
{
    c == '.' || c == '+' || c == '*' || c == '?' || c == '^' || c == '$' || c == '(' || c == ')'
        || c == '[' || c == ']' || c == '{' || c == '}' || c == '|' || c == '\\'
}

/// Puts a backslash before every character of `s` that has a meaning of its
/// own in a regular expression, so that the result matches `s` literally.
pub fn escape_special_characters(s: &str) -> (out: String)
    ensures
        out@ == escaped(s@),
{
    let mut out = String::new();
    let n = s.unicode_len();
    let mut i: usize = 0;
    assert(s@.take(0) =~= Seq::<char>::empty());
    while i < n
        invariant
            i <= n,
            n == s@.len(),
            out@ == escaped(s@.take(i as int)),
        decreases n - i,
    {
        let c = s.get_char(i);
        proof {
            assert(s@.take(i + 1).drop_last() =~= s@.take(i as int));
            assert(s@.take(i + 1).last() == c);
        }
        let ghost before = out@;
        if special(c) {
            push_char(&mut out, '\\');
            push_char(&mut out, c);
            assert(out@ =~= before + seq!['\\', c]);
        } else {
            push_char(&mut out, c);
        }
        i += 1;
    }
    assert(s@.take(n as int) =~= s@);
    out
}

/// The patterns of the parts written one after another with `sep` between
/// neighbours.
pub open spec fn patterns_joined(parts: Seq<RegexPart>, sep: Seq<char>) -> Seq<char> {
    joined(Seq::new(parts.len(), |i: int| parts[i].pattern@), sep)
}

fn join_patterns(parts: &Vec<RegexPart>, sep: &str) -> (out: String)
    ensures
        out@ == patterns_joined(parts@, sep@),
{
    let mut out = String::new();
    let mut i: usize = 0;
    let ghost all = Seq::new(parts@.len(), |k: int| parts@[k].pattern@);
    while i < parts.len()
        invariant
            i <= parts.len(),
            all == Seq::new(parts@.len(), |k: int| parts@[k].pattern@),
            out@ == joined(all.take(i as int), sep@),
        decreases parts.len() - i,
    {
        if i > 0 {
            out.append(sep);
        }
        out.append(parts[i].pattern.as_str());
        proof {
            assert(all.take(i + 1).drop_last() =~= all.take(i as int));
            assert(all.take(i + 1).last() == parts@[i as int].pattern@);
        }
        i += 1;
    }
    assert(all.take(parts@.len() as int) =~= all);
    out
}

/// A piece of a regular expression.
#[derive(Debug, Clone, PartialEq, Eq)]
pub struct RegexPart {
    pub pattern: String,
}

impl RegexPart {
    /// A part with the given pattern, taken as it is.
    pub fn new(pattern: &str) -> (part: RegexPart)
        ensures
            part.pattern@ == pattern@,
    {
        RegexPart { pattern: String::from_str(pattern) }
    }

    /// The pattern repeated exactly `count` times.
    pub fn times(&self, count: usize) -> (part: RegexPart)
        ensures
            part.pattern@ == seq!['('] + self.pattern@ + seq![')', '{'] + decimal(count as nat)
                + seq!['}'],
    {
        let mut pattern = String::from_str("(");
        proof {
            reveal_strlit("(");
            assert(pattern@ =~= seq!['(']);
        }
        pattern.append(self.pattern.as_str());
        push_char(&mut pattern, ')');
        push_char(&mut pattern, '{');
        push_decimal(&mut pattern, count as u64);
        push_char(&mut pattern, '}');
        assert(pattern@ =~= seq!['('] + self.pattern@ + seq![')', '{'] + decimal(count as nat)
            + seq!['}']);
        RegexPart { pattern }
    }

    /// The pattern as a capture group called `name`.
    pub fn grouped_as(&self, name: &str) -> (part: RegexPart)
        ensures
            part.pattern@ == "(?P<"@ + name@ + seq!['>'] + self.pattern@ + seq![')'],
    {
        let mut pattern = String::from_str("(?P<");
        pattern.append(name);
        push_char(&mut pattern, '>');
        pattern.append(self.pattern.as_str());
        push_char(&mut pattern, ')');
        RegexPart { pattern }
    }

    /// The pattern followed by that of `other`.
    pub fn and(&self, other: &RegexPart) -> (part: RegexPart)
        ensures
            part.pattern@ == self.pattern@ + other.pattern@,
    {
        let mut pattern = self.pattern.clone();
        pattern.append(other.pattern.as_str());
        RegexPart { pattern }
    }

    /// The pattern followed by one that matches a single digit.
    pub fn digit(&self) -> (part: RegexPart)
        ensures
            part.pattern@ == self.pattern@ + seq!['\\', 'd'],
    {
        let mut pattern = self.pattern.clone();
        push_char(&mut pattern, '\\');
        push_char(&mut pattern, 'd');
        assert(pattern@ =~= self.pattern@ + seq!['\\', 'd']);
        RegexPart { pattern }
    }

    /// A non-capturing group that matches any one of `parts`.
    pub fn any_of(&self, parts: Vec<RegexPart>) -> (part: RegexPart)
        ensures
            part.pattern@ == "(?:"@ + patterns_joined(parts@, seq!['|']) + seq![')'],
    {
        let mut pattern = String::from_str("(?:");
        proof {
            reveal_strlit("|");
            assert("|"@ =~= seq!['|']);
        }
        pattern.append(join_patterns(&parts, "|").as_str());
        push_char(&mut pattern, ')');
        RegexPart { pattern }
    }

    /// The pattern followed by those of `parts`, one after another.
    pub fn exactly(&self, parts: Vec<RegexPart>) -> (part: RegexPart)
        ensures
            part.pattern@ == self.pattern@ + patterns_joined(parts@, Seq::empty()),
    {
        let mut pattern = self.pattern.clone();
        proof {
            reveal_strlit("");
            assert(""@ =~= Seq::<char>::empty());
        }
        pattern.append(join_patterns(&parts, "").as_str());
        RegexPart { pattern }
    }

    /// A part that matches any one character.
    pub fn any_character(&self) -> (part: RegexPart)
        ensures
            part.pattern@ == seq!['.'],
    {
        let mut pattern = String::new();
        push_char(&mut pattern, '.');
        assert(pattern@ =~= seq!['.']);
        RegexPart { pattern }
    }

    /// The pattern repeated once or more.
    pub fn infinity(&self) -> (part: RegexPart)
        ensures
            part.pattern@ == "(?:"@ + self.pattern@ + seq![')', '+'],
    {
        let mut pattern = String::from_str("(?:");
        pattern.append(self.pattern.as_str());
        push_char(&mut pattern, ')');
        push_char(&mut pattern, '+');
        assert(pattern@ =~= "(?:"@ + self.pattern@ + seq![')', '+']);
        RegexPart { pattern }
    }
}

/// A part that matches any single digit.
pub fn digit() -> (part: RegexPart)
    ensures
        part.pattern@ == seq!['\\', 'd'],
{
    let mut pattern = String::new();
    push_char(&mut pattern, '\\');
    push_char(&mut pattern, 'd');
    assert(pattern@ =~= seq!['\\', 'd']);
    RegexPart { pattern }
}

/// A part that matches `s` literally.
pub fn exactly(s: &str) -> (part: RegexPart)
    ensures
        part.pattern@ == escaped(s@),
{
    RegexPart { pattern: escape_special_characters(s) }
}

/// A capture group that matches any one of `parts`.
pub fn any_of(parts: Vec<RegexPart>) -> (part: RegexPart)
    ensures
        part.pattern@ == seq!['('] + patterns_joined(parts@, seq!['|']) + seq![')'],
{
    let mut pattern = String::new();
    push_char(&mut pattern, '(');
    proof {
        reveal_strlit("|");
        assert("|"@ =~= seq!['|']);
    }
    pattern.append(join_patterns(&parts, "|").as_str());
    push_char(&mut pattern, ')');
    assert(pattern@ =~= seq!['('] + patterns_joined(parts@, seq!['|']) + seq![')']);
    RegexPart { pattern }
}

/// A part that matches any word character.
pub fn alfanumeric() -> (part: RegexPart)
    ensures
        part.pattern@ == seq!['\\', 'w'],
{
    let mut pattern = String::new();
    push_char(&mut pattern, '\\');
    push_char(&mut pattern, 'w');
    assert(pattern@ =~= seq!['\\', 'w']);
    RegexPart { pattern }
}

/// A part that matches any letter of the basic alphabet.
pub fn alphabetic() -> (part: RegexPart)
    ensures
        part.pattern@ == "([a-zA-Z])"@,
{
    RegexPart { pattern: String::from_str("([a-zA-Z])") }
}

/// A regular expression put together from parts.
#[derive(Debug, Clone, PartialEq, Eq)]
pub struct RegExp {
    pub pattern: String,
}

impl RegExp {
    /// The expression that matches the parts one after another.
    pub fn new(parts: Vec<RegexPart>) -> (exp: RegExp)
        ensures
            exp.pattern@ == patterns_joined(parts@, Seq::empty()),
    {
        proof {
            reveal_strlit("");
            assert(""@ =~= Seq::<char>::empty());
        }
        RegExp { pattern: join_patterns(&parts, "") }
    }

    /// The expression's pattern as text.
    pub fn compile(&self) -> (pattern: String)
        ensures
            pattern@ == self.pattern@,
    {
        self.pattern.clone()
    }
}

} // verus!
