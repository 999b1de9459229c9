//! The lines of a settings script. A line reads `let <path> be <value>`: the
//! path is a list of keys joined by dots, and a value that starts like a number
//! may end in a unit of length.

use vstd::prelude::*;
use vstd::string::{StrSliceExecFns, StringExecFns};
use crate::city::settings::error::LineError;

verus! {

/// Whether `c` is a blank: a space, a tab or the end of a line.
pub open spec fn is_blank(c: char) -> bool {
    c == ' ' || c == '\t' || c == '\r' || c == '\n'
}

/// Whether `c` ends a piece: a dot where a path is split into keys, a blank
/// where a line is split into words.
pub open spec fn separates(dots: bool, c: char) -> bool {
    if dots {
        c == '.'
    } else {
        is_blank(c)
    }
}

/// Where the piece that is open after the first `n` characters of `s`
/// starts: behind the last separator among them, or at the start.
pub open spec fn piece_start(s: Seq<char>, dots: bool, n: int) -> int
    decreases n,
{
    if n <= 0 {
        0
    } else if separates(dots, s[n - 1]) {
        n
    } else {
        piece_start(s, dots, n - 1)
    }
}

/// Whether the piece `piece` counts: between dots every piece is a key, even
/// an empty one; between blanks only a piece with characters is a word.
pub open spec fn counts(dots: bool, piece: Seq<char>) -> bool {
    dots || piece.len() > 0
}

/// The pieces that separators close among the first `n` characters of `s`.
pub open spec fn pieces_before(s: Seq<char>, dots: bool, n: int) -> Seq<Seq<char>>
    decreases n,
{
    if n <= 0 {
        Seq::empty()
    } else {
        let earlier = pieces_before(s, dots, n - 1);
        let piece = s.subrange(piece_start(s, dots, n - 1), n - 1);
        if separates(dots, s[n - 1]) && counts(dots, piece) {
            earlier.push(piece)
        } else {
            earlier
        }
    }
}

/// The pieces of `s`: its keys if it is split at dots, its words if it is
/// split at blanks.
pub open spec fn pieces(s: Seq<char>, dots: bool) -> Seq<Seq<char>> {
    let closed = pieces_before(s, dots, s.len() as int);
    let last = s.subrange(piece_start(s, dots, s.len() as int), s.len() as int);
    if counts(dots, last) {
        closed.push(last)
    } else {
        closed
    }
}

/// The unit that a value is given in.
#[derive(Debug, PartialEq, Eq, Structural)]
pub enum Unit {
    /// No unit: the value is a word or a plain number.
    Plain,
    Metres,
    Kilometres,
}

/// What a line assigns: the value, less its unit, to the setting at the path.
#[derive(Debug)]
pub struct Assignment {
    pub path: Vec<String>,
    pub value: String,
    pub unit: Unit,
}

/// Whether `c` can start a number: a digit, a sign or a decimal point.
pub open spec fn starts_number(c: char) -> bool {
    c == '0' || c == '1' || c == '2' || c == '3' || c == '4' || c == '5' || c == '6' || c == '7'
        || c == '8' || c == '9' || c == '-' || c == '+' || c == '.'
}

/// The unit of the value `word`: a word that starts like a number and ends in
/// `km` is in kilometres, one that ends in `m` is in metres, and every other
/// word has no unit.
pub open spec fn unit_of(word: Seq<char>) -> Unit {
    if word.len() >= 2 && starts_number(word[0]) && word[word.len() - 2] == 'k' && word[word.len()
        - 1] == 'm' {
        Unit::Kilometres
    } else if word.len() >= 1 && starts_number(word[0]) && word[word.len() - 1] == 'm' {
        Unit::Metres
    } else {
        Unit::Plain
    }
}

/// The value `word` without its unit.
pub open spec fn value_of(word: Seq<char>) -> Seq<char> {
    match unit_of(word) {
        Unit::Kilometres => word.subrange(0, word.len() - 2),
        Unit::Metres => word.subrange(0, word.len() - 1),
        Unit::Plain => word,
    }
}

/// The characters of each string.
pub open spec fn texts(strings: Seq<String>) -> Seq<Seq<char>> {
    strings.map_values(|s: String| s@)
}

/// What the line `line` says, given its words. A line without words says
/// nothing. A line of four words, the first `let` and the third `be`, assigns
/// its fourth word to the path that its second word spells. Every other line is
/// an error: the wrong number of words, or the wrong words around the path.
pub open spec fn says(res: Result<Option<Assignment>, LineError>, line: Seq<char>) -> bool {
    let words = pieces(line, false);
    if words.len() == 0 {
        res matches Ok(None)
    } else if words.len() != 4 {
        res matches Err(LineError::WordCount)
    } else if words[0] != "let"@ || words[2] != "be"@ {
        res matches Err(LineError::Syntax)
    } else {
        res matches Ok(Some(assignment)) && texts(assignment.path@) == pieces(words[1], true)
            && assignment.value@ == value_of(words[3]) && assignment.unit == unit_of(words[3])
    }
}

fn ends_piece(dots: bool, c: char) -> (r: bool)
    ensures
        r == separates(dots, c),
{
    if dots {
        c == '.'
    } else {
        c == ' ' || c == '\t' || c == '\r' || c == '\n'
    }
}

/// The pieces of `text`: its keys if `dots` is set, else its words.
pub fn split(text: &str, dots: bool) -> (r: Vec<String>)
    ensures
        texts(r@) == pieces(text@, dots),
{
    let n = text.unicode_len();
    let mut out: Vec<String> = Vec::new();
    let mut start: usize = 0;
    let mut i: usize = 0;
    while i < n
        invariant
            n == text@.len(),
            start <= i <= n,
            start == piece_start(text@, dots, i as int),
            texts(out@) == pieces_before(text@, dots, i as int),
        decreases n - i,
    {
        let c = text.get_char(i);
        if ends_piece(dots, c) {
            if dots || start < i {
                let ghost before = out@;
                out.push(String::from_str(text.substring_char(start, i)));
                assert(texts(out@) =~= texts(before).push(text@.subrange(start as int, i as int)));
            }
            start = i + 1;
        }
        i = i + 1;
    }
    if dots || start < n {
        let ghost before = out@;
        out.push(String::from_str(text.substring_char(start, n)));
        assert(texts(out@) =~= texts(before).push(text@.subrange(start as int, n as int)));
    }
    out
}

fn begins_number(c: char) -> (r: bool)
    ensures
        r == starts_number(c),
{
    c == '0' || c == '1' || c == '2' || c == '3' || c == '4' || c == '5' || c == '6' || c == '7'
        || c == '8' || c == '9' || c == '-' || c == '+' || c == '.'
}

/// The unit of the value `word` and the value without it.
pub fn strip_unit(word: &str) -> (r: (String, Unit))
    ensures
        r.0@ == value_of(word@),
        r.1 == unit_of(word@),
{
    let n = word.unicode_len();
    if n >= 1 && begins_number(word.get_char(0)) && word.get_char(n - 1) == 'm' {
        if n >= 2 && word.get_char(n - 2) == 'k' {
            (String::from_str(word.substring_char(0, n - 2)), Unit::Kilometres)
        } else {
            (String::from_str(word.substring_char(0, n - 1)), Unit::Metres)
        }
    } else {
        assert(word@.subrange(0, n as int) =~= word@);
        (String::from_str(word), Unit::Plain)
    }
}

/// Reads one line of a script.
pub fn read_line(line: &str) -> (res: Result<Option<Assignment>, LineError>)
    ensures
        says(res, line@),
{
    let words = split(line, false);
    if words.len() == 0 {
        return Ok(None);
    }
    if words.len() != 4 {
        return Err(LineError::WordCount);
    }
    assert(texts(words@)[0] == words@[0]@);
    assert(texts(words@)[1] == words@[1]@);
    assert(texts(words@)[2] == words@[2]@);
    assert(texts(words@)[3] == words@[3]@);
    if words[0] != String::from_str("let") || words[2] != String::from_str("be") {
        return Err(LineError::Syntax);
    }
    let path = split(words[1].as_str(), true);
    let (value, unit) = strip_unit(words[3].as_str());
    Ok(Some(Assignment { path, value, unit }))
}

} // verus!
