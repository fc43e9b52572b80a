//! The output extractor: recovers the one prediction from the text that the
//! inference program printed.
//!
//! The program prints diagnostics and, on its last non-empty line, its result
//! as a single-quoted token: `<prefix>'<prediction>'<suffix>`. The model below
//! says what the prediction of a text is; `parse_py_output` computes it by one
//! backward and one forward scan, without building the lines.

use crate::text::chars_of;
use crate::text::lossy_text;
use crate::text::text_of_bytes_lossy;
use crate::text::text_of_utf8;
use vstd::prelude::*;
use vstd::string::StrSliceExecFns;
use vstd::utf8::decode_utf8;
use vstd::utf8::valid_utf8;

verus! {

pub const NEWLINE: char = '\n';

pub const QUOTE: char = '\'';

/// The pieces of `s` between occurrences of `sep`, in order. A text without
/// `sep` is one piece; the empty text is one empty piece; `n` separators give
/// `n + 1` pieces.
pub open spec fn split(s: Seq<char>, sep: char) -> Seq<Seq<char>>
    decreases s.len(),
{
    if s.len() == 0 {
        seq![Seq::<char>::empty()]
    } else {
        let before = split(s.drop_last(), sep);
        if s.last() == sep {
            before.push(Seq::<char>::empty())
        } else {
            before.drop_last().push(before.last().push(s.last()))
        }
    }
}

/// How often `c` occurs in `s`.
pub open spec fn occurrences(s: Seq<char>, c: char) -> nat
    decreases s.len(),
{
    if s.len() == 0 {
        0
    } else {
        occurrences(s.drop_last(), c) + if s.last() == c {
            1nat
        } else {
            0nat
        }
    }
}

/// The last piece that is not empty, if there is one.
pub open spec fn last_non_empty(pieces: Seq<Seq<char>>) -> Option<Seq<char>>
    decreases pieces.len(),
{
    if pieces.len() == 0 {
        None
    } else if pieces.last().len() > 0 {
        Some(pieces.last())
    } else {
        last_non_empty(pieces.drop_last())
    }
}

/// The result line of a text: its last non-empty line.
pub open spec fn result_line(text: Seq<char>) -> Option<Seq<char>> {
    last_non_empty(split(text, NEWLINE))
}

/// The token between the first and the second single quote of a line; none
/// where the line has fewer than two single quotes.
pub open spec fn quoted_token(line: Seq<char>) -> Option<Seq<char>> {
    let pieces = split(line, QUOTE);
    if pieces.len() >= 3 {
        Some(pieces[1])
    } else {
        None
    }
}

/// Why no prediction could be read from the program's output.
#[derive(Debug, Clone, Copy, PartialEq, Eq, Structural)]
pub enum ParseErrorKind {
    /// The output has no line with anything on it.
    NoResultLine,
    /// The result line has fewer than two single quotes.
    MalformedQuoting,
    /// The two quotes of the result line have nothing between them.
    EmptyPrediction,
    /// The output is not text: its bytes are not UTF-8.
    InvalidEncoding,
}

/// The output did not hold a prediction that could be read.
#[derive(Debug, Clone, PartialEq, Eq)]
pub struct ParseError {
    pub kind: ParseErrorKind,
    /// The output as it was received, for diagnosis.
    pub raw_output: String,
}

pub struct ParseErrorView {
    pub kind: ParseErrorKind,
    pub raw_output: Seq<char>,
}

impl View for ParseError {
    type V = ParseErrorView;

    open spec fn view(&self) -> ParseErrorView {
        ParseErrorView { kind: self.kind, raw_output: self.raw_output@ }
    }
}

/// The text that the inference program recognised. It is never empty.
#[derive(Debug, Clone, PartialEq, Eq)]
pub struct Prediction {
    text: String,
}

impl View for Prediction {
    type V = Seq<char>;

    closed spec fn view(&self) -> Seq<char> {
        self.text@
    }
}

impl Prediction {
    /// The invariant of the type: a prediction has at least one character.
    pub open spec fn wf(&self) -> bool {
        self@.len() > 0
    }

    /// A prediction with the given text; none for the empty text.
    pub fn new(text: String) -> (made: Option<Prediction>)
        ensures
            made is Some <==> text@.len() > 0,
            made matches Some(p) ==> p.wf() && p@ == text@,
    {
        if text.as_str().is_empty() {
            None
        } else {
            Some(Prediction { text })
        }
    }

    pub fn text(&self) -> (text: &str)
        ensures
            text@ == self@,
    {
        self.text.as_str()
    }

    pub fn into_text(self) -> (text: String)
        ensures
            text@ == self@,
    {
        self.text
    }
}

/// What the extractor makes of a text: the token between the first two single
/// quotes of the last non-empty line, or the reason why there is none.
pub open spec fn extraction(text: Seq<char>) -> Result<Seq<char>, ParseErrorKind> {
    match result_line(text) {
        None => Err(ParseErrorKind::NoResultLine),
        Some(line) => match quoted_token(line) {
            None => Err(ParseErrorKind::MalformedQuoting),
            Some(token) => if token.len() == 0 {
                Err(ParseErrorKind::EmptyPrediction)
            } else {
                Ok(token)
            },
        },
    }
}

/// What the extractor makes of the bytes that the program printed. Bytes that
/// are UTF-8 are read as the text they encode; others are an error of their
/// own kind, which carries the bytes as text with U+FFFD for what is no text.
pub open spec fn reading(stdout: Seq<u8>) -> Result<Seq<char>, ParseErrorView> {
    if valid_utf8(stdout) {
        let text = decode_utf8(stdout);
        match extraction(text) {
            Ok(token) => Ok(token),
            Err(kind) => Err(ParseErrorView { kind, raw_output: text }),
        }
    } else {
        Err(ParseErrorView { kind: ParseErrorKind::InvalidEncoding, raw_output: lossy_text(stdout) })
    }
}

/// The view of what the extractor returned.
pub open spec fn read_view(read: Result<Prediction, ParseError>) -> Result<
    Seq<char>,
    ParseErrorView,
> {
    match read {
        Ok(prediction) => Ok(prediction@),
        Err(error) => Err(error@),
    }
}

/// Every character of `text` is a newline: the text has no line with anything
/// on it.
pub open spec fn is_blank(text: Seq<char>) -> bool {
    forall|k: int| 0 <= k < text.len() ==> text[k] == NEWLINE
}

/// `text[start..end]` is a whole line, is not empty, and only newlines follow it.
pub open spec fn is_result_line_at(text: Seq<char>, start: int, end: int) -> bool {
    &&& 0 <= start < end <= text.len()
    &&& start == 0 || text[start - 1] == NEWLINE
    &&& forall|k: int| start <= k < end ==> text[k] != NEWLINE
    &&& forall|k: int| end <= k < text.len() ==> text[k] == NEWLINE
}

/// `c` does not occur in `s[from..to]`.
pub open spec fn absent_between(s: Seq<char>, c: char, from: int, to: int) -> bool {
    forall|k: int| from <= k < to ==> s[k] != c
}

/// Index of the first `c` in `text[from..to]`; `to` where there is none.
fn find_char(text: &Vec<char>, c: char, from: usize, to: usize) -> (at: usize)
    requires
        from <= to <= text.len(),
    ensures
        from <= at <= to,
        absent_between(text@, c, from as int, at as int),
        at < to ==> text@[at as int] == c,
{
    let mut at: usize = from;
    while at < to && text[at] != c
        invariant
            from <= at <= to <= text.len(),
            absent_between(text@, c, from as int, at as int),
        decreases to - at,
    {
        at += 1;
    }
    at
}

/// Where the last non-empty line of `text` starts and ends; none for a text
/// of newlines only.
fn result_line_bounds(text: &Vec<char>) -> (bounds: Option<(usize, usize)>)
    ensures
        match bounds {
            Some((start, end)) => is_result_line_at(text@, start as int, end as int),
            None => is_blank(text@),
        },
{
    let mut end: usize = text.len();
    while end > 0 && text[end - 1] == NEWLINE
        invariant
            end <= text.len(),
            forall|k: int| end <= k < text.len() ==> text@[k] == NEWLINE,
        decreases end,
    {
        end -= 1;
    }
    if end == 0 {
        return None;
    }
    let mut start: usize = end - 1;
    while start > 0 && text[start - 1] != NEWLINE
        invariant
            start < end <= text.len(),
            forall|k: int| start <= k < end ==> text@[k] != NEWLINE,
        decreases start,
    {
        start -= 1;
    }
    Some((start, end))
}

/// Reads the prediction from the text that the inference program printed.
///
/// The prediction is what stands between the first and the second single
/// quote of the last non-empty line. A text without such a line, a line with
/// fewer than two single quotes and an empty token are errors, each of its own
/// kind, and the error carries the text as it came.
pub fn parse_py_output(output: &str) -> (parsed: Result<Prediction, ParseError>)
    ensures
        match parsed {
            Ok(prediction) => prediction.wf() && extraction(output@) == Ok::<
                Seq<char>,
                ParseErrorKind,
            >(prediction@),
            Err(error) => error.raw_output@ == output@ && extraction(output@) == Err::<
                Seq<char>,
                ParseErrorKind,
            >(error.kind),
        },
{
    let text = chars_of(output);
    match result_line_bounds(&text) {
        None => {
            proof {
                lemma_blank_has_no_result_line(text@);
            }
            Err(ParseError { kind: ParseErrorKind::NoResultLine, raw_output: output.to_owned() })
        },
        Some((start, end)) => {
            let ghost line = text@.subrange(start as int, end as int);
            proof {
                lemma_result_line_at(text@, start as int, end as int);
            }
            let first = find_char(&text, QUOTE, start, end);
            if first == end {
                proof {
                    lemma_split_none(line, QUOTE);
                }
                return Err(
                    ParseError {
                        kind: ParseErrorKind::MalformedQuoting,
                        raw_output: output.to_owned(),
                    },
                );
            }
            let second = find_char(&text, QUOTE, first + 1, end);
            if second == end {
                proof {
                    lemma_split_one(line, QUOTE, first - start);
                }
                return Err(
                    ParseError {
                        kind: ParseErrorKind::MalformedQuoting,
                        raw_output: output.to_owned(),
                    },
                );
            }
            proof {
                lemma_split_second(line, QUOTE, first - start, second - start);
                assert(line.subrange(first - start + 1, second - start) =~= text@.subrange(
                    first + 1,
                    second as int,
                ));
            }
            if second == first + 1 {
                return Err(
                    ParseError {
                        kind: ParseErrorKind::EmptyPrediction,
                        raw_output: output.to_owned(),
                    },
                );
            }
            let token = output.substring_char(first + 1, second);
            Ok(Prediction { text: token.to_owned() })
        },
    }
}

/// Reads the prediction from the bytes that the inference program printed.
pub fn read_output(stdout: &[u8]) -> (read: Result<Prediction, ParseError>)
    ensures
        read_view(read) == reading(stdout@),
        read matches Ok(prediction) ==> prediction.wf(),
{
    match text_of_utf8(stdout) {
        Some(text) => parse_py_output(text),
        None => Err(
            ParseError {
                kind: ParseErrorKind::InvalidEncoding,
                raw_output: text_of_bytes_lossy(stdout),
            },
        ),
    }
}

pub proof fn lemma_split_len(s: Seq<char>, sep: char)
    ensures
        split(s, sep).len() == occurrences(s, sep) + 1,
    decreases s.len(),
{
    if s.len() > 0 {
        lemma_split_len(s.drop_last(), sep);
    }
}

/// The last piece starts behind the last separator.
pub proof fn lemma_split_last(s: Seq<char>, sep: char, start: int)
    requires
        0 <= start <= s.len(),
        start == 0 || s[start - 1] == sep,
        absent_between(s, sep, start, s.len() as int),
    ensures
        split(s, sep).last() == s.subrange(start, s.len() as int),
    decreases s.len(),
{
    lemma_split_len(s, sep);
    if s.len() == 0 {
        assert(s.subrange(0, 0) =~= Seq::<char>::empty());
    } else if start == s.len() {
        assert(s.subrange(start, s.len() as int) =~= Seq::<char>::empty());
    } else {
        let shorter = s.drop_last();
        lemma_split_len(shorter, sep);
        lemma_split_last(shorter, sep, start);
        assert(shorter.subrange(start, shorter.len() as int).push(s.last()) =~= s.subrange(
            start,
            s.len() as int,
        ));
    }
}

/// A text without the separator is one piece.
pub proof fn lemma_split_none(s: Seq<char>, sep: char)
    requires
        absent_between(s, sep, 0, s.len() as int),
    ensures
        split(s, sep) == seq![s],
        occurrences(s, sep) == 0,
    decreases s.len(),
{
    if s.len() == 0 {
        assert(s =~= Seq::<char>::empty());
    } else {
        let shorter = s.drop_last();
        lemma_split_none(shorter, sep);
        assert(shorter.push(s.last()) =~= s);
        assert(split(s, sep) =~= seq![s]);
    }
}

/// A text with one separator is two pieces: what stands before it and what
/// stands behind it.
pub proof fn lemma_split_one(s: Seq<char>, sep: char, at: int)
    requires
        0 <= at < s.len(),
        s[at] == sep,
        absent_between(s, sep, 0, at),
        absent_between(s, sep, at + 1, s.len() as int),
    ensures
        split(s, sep) == seq![s.subrange(0, at), s.subrange(at + 1, s.len() as int)],
        occurrences(s, sep) == 1,
    decreases s.len(),
{
    let shorter = s.drop_last();
    if at == s.len() - 1 {
        lemma_split_none(shorter, sep);
        assert(s.subrange(0, at) =~= shorter);
        assert(s.subrange(at + 1, s.len() as int) =~= Seq::<char>::empty());
        assert(split(s, sep) =~= seq![s.subrange(0, at), s.subrange(at + 1, s.len() as int)]);
    } else {
        lemma_split_one(shorter, sep, at);
        assert(shorter.subrange(0, at) =~= s.subrange(0, at));
        assert(shorter.subrange(at + 1, shorter.len() as int).push(s.last()) =~= s.subrange(
            at + 1,
            s.len() as int,
        ));
        assert(split(s, sep) =~= seq![s.subrange(0, at), s.subrange(at + 1, s.len() as int)]);
    }
}

/// With separators at `first` and `second` and none before or between them,
/// the second piece is what stands between the two.
pub proof fn lemma_split_second(s: Seq<char>, sep: char, first: int, second: int)
    requires
        0 <= first < second < s.len(),
        s[first] == sep,
        s[second] == sep,
        absent_between(s, sep, 0, first),
        absent_between(s, sep, first + 1, second),
    ensures
        split(s, sep).len() >= 3,
        split(s, sep)[1] == s.subrange(first + 1, second),
        occurrences(s, sep) >= 2,
    decreases s.len(),
{
    let shorter = s.drop_last();
    lemma_split_len(s, sep);
    if second == s.len() - 1 {
        lemma_split_one(shorter, sep, first);
        assert(shorter.subrange(first + 1, shorter.len() as int) =~= s.subrange(
            first + 1,
            second,
        ));
    } else {
        lemma_split_second(shorter, sep, first, second);
        lemma_split_len(shorter, sep);
        assert(shorter.subrange(first + 1, second) =~= s.subrange(first + 1, second));
    }
}

/// A text of newlines only has no result line.
pub proof fn lemma_blank_has_no_result_line(text: Seq<char>)
    requires
        is_blank(text),
    ensures
        result_line(text) is None,
    decreases text.len(),
{
    if text.len() == 0 {
        let pieces = split(text, NEWLINE);
        assert(pieces.drop_last() =~= Seq::<Seq<char>>::empty());
        assert(last_non_empty(pieces.drop_last()) is None);
    } else {
        let shorter = text.drop_last();
        lemma_blank_has_no_result_line(shorter);
        assert(split(text, NEWLINE).drop_last() =~= split(shorter, NEWLINE));
    }
}

/// A text with a character that is no newline has a result line.
pub proof fn lemma_result_line_none_is_blank(text: Seq<char>)
    requires
        result_line(text) is None,
    ensures
        is_blank(text),
    decreases text.len(),
{
    if text.len() > 0 {
        let shorter = text.drop_last();
        lemma_split_len(shorter, NEWLINE);
        if text.last() == NEWLINE {
            assert(split(text, NEWLINE).drop_last() =~= split(shorter, NEWLINE));
            lemma_result_line_none_is_blank(shorter);
            assert forall|k: int| 0 <= k < text.len() implies text[k] == NEWLINE by {
                if k < shorter.len() {
                    assert(text[k] == shorter[k]);
                }
            }
        } else {
            assert(split(text, NEWLINE).last().len() > 0);
        }
    }
}

/// The line that `is_result_line_at` describes is the result line.
pub proof fn lemma_result_line_at(text: Seq<char>, start: int, end: int)
    requires
        is_result_line_at(text, start, end),
    ensures
        result_line(text) == Some(text.subrange(start, end)),
    decreases text.len(),
{
    if end == text.len() {
        lemma_split_last(text, NEWLINE, start);
    } else {
        let shorter = text.drop_last();
        lemma_result_line_at(shorter, start, end);
        assert(shorter.subrange(start, end) =~= text.subrange(start, end));
        assert(split(text, NEWLINE).drop_last() =~= split(shorter, NEWLINE));
    }
}

/// Where a text ends in a line `<prefix>'<token>'<suffix>`, with newlines at
/// most behind it, the token is not empty, and neither the prefix nor the
/// token holds a single quote, the extractor returns exactly the token.
pub proof fn law_extracts_quoted_token(
    head: Seq<char>,
    prefix: Seq<char>,
    token: Seq<char>,
    suffix: Seq<char>,
    tail: Seq<char>,
)
    requires
        head.len() == 0 || head.last() == NEWLINE,
        absent_between(prefix, NEWLINE, 0, prefix.len() as int),
        absent_between(token, NEWLINE, 0, token.len() as int),
        absent_between(suffix, NEWLINE, 0, suffix.len() as int),
        absent_between(prefix, QUOTE, 0, prefix.len() as int),
        absent_between(token, QUOTE, 0, token.len() as int),
        token.len() > 0,
        is_blank(tail),
    ensures
        extraction(head + prefix + seq![QUOTE] + token + seq![QUOTE] + suffix + tail) == Ok::<
            Seq<char>,
            ParseErrorKind,
        >(token),
{
    let line = prefix + seq![QUOTE] + token + seq![QUOTE] + suffix;
    let text = head + prefix + seq![QUOTE] + token + seq![QUOTE] + suffix + tail;
    let start = head.len() as int;
    let end = start + line.len();
    let first = prefix.len() as int;
    let second = first + 1 + token.len();
    assert(text.subrange(start, end) =~= line);
    assert(is_result_line_at(text, start, end)) by {
        assert forall|k: int| start <= k < end implies text[k] != NEWLINE by {
            let j = k - start;
            if j < first {
                assert(text[k] == prefix[j]);
            } else if j == first {
            } else if j < second {
                assert(text[k] == token[j - first - 1]);
            } else if j == second {
            } else {
                assert(text[k] == suffix[j - second - 1]);
            }
        }
        assert forall|k: int| end <= k < text.len() implies text[k] == NEWLINE by {
            assert(text[k] == tail[k - end]);
        }
    }
    lemma_result_line_at(text, start, end);
    assert(absent_between(line, QUOTE, 0, first)) by {
        assert forall|k: int| 0 <= k < first implies line[k] != QUOTE by {
            assert(line[k] == prefix[k]);
        }
    }
    assert(absent_between(line, QUOTE, first + 1, second)) by {
        assert forall|k: int| first + 1 <= k < second implies line[k] != QUOTE by {
            assert(line[k] == token[k - first - 1]);
        }
    }
    lemma_split_second(line, QUOTE, first, second);
    assert(line.subrange(first + 1, second) =~= token);
}

/// A text consists of newlines only (the empty text too) exactly when the
/// extractor finds no result line in it.
pub proof fn law_blank_text_has_no_result_line(text: Seq<char>)
    ensures
        is_blank(text) <==> extraction(text) == Err::<Seq<char>, ParseErrorKind>(
            ParseErrorKind::NoResultLine,
        ),
{
    if is_blank(text) {
        lemma_blank_has_no_result_line(text);
    }
    if result_line(text) is None {
        lemma_result_line_none_is_blank(text);
    }
}

/// Where `text[start..end]` is the last non-empty line, the extractor reports
/// malformed quoting exactly when that line holds fewer than two single quotes.
pub proof fn law_fewer_than_two_quotes_is_malformed(text: Seq<char>, start: int, end: int)
    requires
        is_result_line_at(text, start, end),
    ensures
        occurrences(text.subrange(start, end), QUOTE) < 2 <==> extraction(text) == Err::<
            Seq<char>,
            ParseErrorKind,
        >(ParseErrorKind::MalformedQuoting),
{
    lemma_result_line_at(text, start, end);
    lemma_split_len(text.subrange(start, end), QUOTE);
}

} // verus!
