//! Finding the report file's path in what the analyzer wrote: the last token
//! of the last line of its output that is not empty.

use crate::error::{Failure, FailureView};
use vstd::prelude::*;
use vstd::utf8::{decode_utf8, valid_utf8};

verus! {

/// Whether a character is ASCII white space: space, tab, line feed, form feed
/// or carriage return.
pub open spec fn is_space(c: char) -> bool {
    c == ' ' || c == '\t' || c == '\n' || c == '\u{c}' || c == '\r'
}

/// Where the line begins that holds the characters just before `end`: behind
/// the last line feed before `end`, or at 0.
pub open spec fn line_start(text: Seq<char>, end: int) -> int
    decreases end,
{
    if end <= 0 {
        0
    } else if text[end - 1] == '\n' {
        end
    } else {
        line_start(text, end - 1)
    }
}

/// A text without the line endings at its end: without its last line ending
/// and without the empty lines before that. A line ends with a line feed, or
/// with a carriage return and a line feed.
pub open spec fn without_final_line_endings(text: Seq<char>) -> Seq<char>
    decreases text.len(),
{
    if text.len() > 0 && text.last() == '\n' {
        let rest = text.drop_last();
        if rest.len() > 0 && rest.last() == '\r' {
            without_final_line_endings(rest.drop_last())
        } else {
            without_final_line_endings(rest)
        }
    } else {
        text
    }
}

/// The last line of a text that is not empty, without its line ending; the
/// empty line where every line of the text is empty. A text of no characters
/// has no line.
pub open spec fn last_line(text: Seq<char>) -> Option<Seq<char>> {
    if text.len() == 0 {
        None
    } else {
        let filled = without_final_line_endings(text);
        Some(filled.subrange(line_start(filled, filled.len() as int), filled.len() as int))
    }
}

/// Where the white space begins that ends the first `end` characters of a line.
pub open spec fn trimmed_end(line: Seq<char>, end: int) -> int
    decreases end,
{
    if end <= 0 {
        0
    } else if is_space(line[end - 1]) {
        trimmed_end(line, end - 1)
    } else {
        end
    }
}

/// Where the token begins that ends just before `end`.
pub open spec fn token_start(line: Seq<char>, end: int) -> int
    decreases end,
{
    if end <= 0 {
        0
    } else if is_space(line[end - 1]) {
        end
    } else {
        token_start(line, end - 1)
    }
}

/// The last of the tokens that ASCII white space separates in a line; `None`
/// where the line holds white space only.
pub open spec fn last_token(line: Seq<char>) -> Option<Seq<char>> {
    let end = trimmed_end(line, line.len() as int);
    if end == 0 {
        None
    } else {
        Some(line.subrange(token_start(line, end), end))
    }
}

/// The path that the analyzer's output names: the last token of its last line
/// that is not empty.
pub open spec fn report_path_text(output: Seq<char>) -> Result<Seq<char>, FailureView> {
    match last_line(output) {
        None => Err(FailureView::EmptyOutput),
        Some(line) => match last_token(line) {
            None => Err(FailureView::NoPathToken { line }),
            Some(token) => Ok(token),
        },
    }
}

/// The line that `line_start` finds holds no line feed, and a line feed
/// stands before it unless it begins the text.
pub proof fn lemma_line_start_bounds(text: Seq<char>, end: int)
    requires
        0 <= end <= text.len(),
    ensures
        0 <= line_start(text, end) <= end,
        line_start(text, end) == 0 || text[line_start(text, end) - 1] == '\n',
        forall|i: int| line_start(text, end) <= i < end ==> text[i] != '\n',
    decreases end,
{
    if end > 0 && text[end - 1] != '\n' {
        lemma_line_start_bounds(text, end - 1);
    }
}

/// Where a line begins depends on what stands before its end alone.
pub proof fn lemma_line_start_of_prefix(text: Seq<char>, n: int, end: int)
    requires
        0 <= end <= n <= text.len(),
    ensures
        line_start(text.take(n), end) == line_start(text, end),
    decreases end,
{
    if end > 0 && text[end - 1] != '\n' {
        lemma_line_start_of_prefix(text, n, end - 1);
    }
}

/// What `without_final_line_endings` leaves is the beginning of the text, it
/// does not end with a line feed, and what it takes away are line feeds and
/// carriage returns only.
pub proof fn lemma_final_line_endings(text: Seq<char>)
    ensures
        without_final_line_endings(text).len() <= text.len(),
        without_final_line_endings(text) == text.take(
            without_final_line_endings(text).len() as int,
        ),
        without_final_line_endings(text).len() > 0 ==> without_final_line_endings(text).last()
            != '\n',
        forall|i: int|
            without_final_line_endings(text).len() <= i < text.len() ==> text[i] == '\n'
                || text[i] == '\r',
    decreases text.len(),
{
    let kept = without_final_line_endings(text);
    if text.len() > 0 && text.last() == '\n' {
        let rest = text.drop_last();
        let inner = if rest.len() > 0 && rest.last() == '\r' {
            rest.drop_last()
        } else {
            rest
        };
        lemma_final_line_endings(inner);
        assert(kept == without_final_line_endings(inner));
        assert(inner.take(kept.len() as int) =~= text.take(kept.len() as int));
        assert forall|i: int| kept.len() <= i < text.len() implies text[i] == '\n' || text[i]
            == '\r' by {
            if i < inner.len() {
                assert(inner[i] == text[i]);
            }
        }
    } else {
        assert(text.take(text.len() as int) =~= text);
    }
}

/// A text has a last line exactly when it is not empty. The last line holds
/// no line feed. It is empty only in a text of empty lines, which holds
/// nothing but line feeds and carriage returns.
pub proof fn lemma_last_line(text: Seq<char>)
    ensures
        last_line(text) is Some <==> text.len() > 0,
        last_line(text) matches Some(line) ==> {
            &&& forall|i: int| 0 <= i < line.len() ==> line[i] != '\n'
            &&& line.len() == 0 ==> forall|i: int|
                0 <= i < text.len() ==> text[i] == '\n' || text[i] == '\r'
        },
{
    if text.len() > 0 {
        let kept = without_final_line_endings(text);
        lemma_final_line_endings(text);
        lemma_line_start_bounds(kept, kept.len() as int);
        let start = line_start(kept, kept.len() as int);
        let line = kept.subrange(start, kept.len() as int);
        assert forall|i: int| 0 <= i < line.len() implies line[i] != '\n' by {
            assert(line[i] == kept[start + i]);
        }
        if kept.len() > 0 {
            assert(kept[kept.len() - 1] != '\n');
            assert(start < kept.len());
        }
    }
}

/// Only white space follows `trimmed_end`, and what stands before it is none.
pub proof fn lemma_trimmed_end_bounds(line: Seq<char>, end: int)
    requires
        0 <= end <= line.len(),
    ensures
        0 <= trimmed_end(line, end) <= end,
        trimmed_end(line, end) == 0 || !is_space(line[trimmed_end(line, end) - 1]),
        forall|i: int| trimmed_end(line, end) <= i < end ==> is_space(line[i]),
    decreases end,
{
    if end > 0 && is_space(line[end - 1]) {
        lemma_trimmed_end_bounds(line, end - 1);
    }
}

/// No white space stands between `token_start` and `end`, and what stands
/// before `token_start` is white space.
pub proof fn lemma_token_start_bounds(line: Seq<char>, end: int)
    requires
        0 <= end <= line.len(),
    ensures
        0 <= token_start(line, end) <= end,
        token_start(line, end) == 0 || is_space(line[token_start(line, end) - 1]),
        forall|i: int| token_start(line, end) <= i < end ==> !is_space(line[i]),
    decreases end,
{
    if end > 0 && !is_space(line[end - 1]) {
        lemma_token_start_bounds(line, end - 1);
    }
}

/// A line has no last token exactly when it holds white space only. The last
/// token is not empty and holds no white space; only white space follows it,
/// and white space or the line's beginning stands before it.
pub proof fn lemma_last_token_is_last(line: Seq<char>)
    ensures
        last_token(line) is None <==> forall|i: int| 0 <= i < line.len() ==> is_space(line[i]),
        last_token(line) matches Some(token) ==> {
            let end = trimmed_end(line, line.len() as int);
            let start = token_start(line, end);
            &&& 0 <= start < end <= line.len()
            &&& token == line.subrange(start, end)
            &&& forall|i: int| 0 <= i < token.len() ==> !is_space(#[trigger] token[i])
            &&& forall|i: int| end <= i < line.len() ==> is_space(line[i])
            &&& start == 0 || is_space(line[start - 1])
        },
{
    let end = trimmed_end(line, line.len() as int);
    lemma_trimmed_end_bounds(line, line.len() as int);
    lemma_token_start_bounds(line, end);
    if end > 0 {
        assert(!is_space(line[end - 1]));
        let start = token_start(line, end);
        let token = line.subrange(start, end);
        assert forall|i: int| 0 <= i < token.len() implies !is_space(#[trigger] token[i]) by {
            assert(token[i] == line[start + i]);
        }
    }
}

/// The text of bytes that are UTF-8, else `InvalidOutput`.
pub open spec fn decoded_output(bytes: Seq<u8>) -> Result<Seq<char>, FailureView> {
    if valid_utf8(bytes) {
        Ok(decode_utf8(bytes))
    } else {
        Err(FailureView::InvalidOutput)
    }
}

/// `String::from_utf8` of std: the string that the bytes encode where they
/// are valid UTF-8, else `None`.
#[verifier::external_body]
fn string_from_utf8(bytes: Vec<u8>) -> (text: Option<String>)
    ensures
        text.deep_view() == if valid_utf8(bytes@) {
            Some(decode_utf8(bytes@))
        } else {
            None
        },
{
    String::from_utf8(bytes).ok()
}

/// Reads the analyzer's output as text.
pub fn decode_output(bytes: Vec<u8>) -> (outcome: Result<String, Failure>)
    ensures
        match decoded_output(bytes@) {
            Ok(text) => outcome matches Ok(s) && s@ == text,
            Err(view) => outcome matches Err(failure) && failure@ == view,
        },
{
    match string_from_utf8(bytes) {
        Some(text) => Ok(text),
        None => Err(Failure::InvalidOutput),
    }
}

fn chars_of(text: &str) -> (chars: Vec<char>)
    ensures
        chars@ == text@,
{
    let mut chars: Vec<char> = Vec::new();
    for c in it: text.chars()
        invariant
            it.seq() == text@,
            chars@ == it.seq().take(it.index() as int),
    {
        chars.push(c);
        assert(it.seq().take(it.index() + 1) =~= it.seq().take(it.index() as int).push(c));
    }
    assert(chars@ =~= text@);
    chars
}

fn is_ascii_space(c: char) -> (space: bool)
    ensures
        space == is_space(c),
{
    c == ' ' || c == '\t' || c == '\n' || c == '\u{c}' || c == '\r'
}

/// Finds the report file's path in the analyzer's output: the last token of
/// the last line that is not empty. An empty output gives `EmptyOutput`, a
/// line without a token `NoPathToken`. Nothing but the text is looked at.
pub fn report_path(output: &str) -> (outcome: Result<String, Failure>)
    ensures
        match report_path_text(output@) {
            Ok(path) => outcome matches Ok(found) && found@ == path,
            Err(view) => outcome matches Err(failure) && failure@ == view,
        },
{
    let chars = chars_of(output);
    let n: usize = chars.len();
    if n == 0 {
        return Err(Failure::EmptyOutput);
    }
    let mut end: usize = n;
    assert(chars@.take(n as int) =~= chars@);
    while end > 0 && chars[end - 1] == '\n'
        invariant
            end <= n,
            n == chars.len(),
            without_final_line_endings(chars@) == without_final_line_endings(
                chars@.take(end as int),
            ),
        decreases end,
    {
        let ghost before = chars@.take(end as int);
        assert(before.last() == chars@[end - 1]);
        assert(before.drop_last() =~= chars@.take(end - 1));
        end -= 1;
        if end > 0 && chars[end - 1] == '\r' {
            assert(before.drop_last().last() == chars@[end - 1]);
            assert(before.drop_last().drop_last() =~= chars@.take(end - 1));
            end -= 1;
        }
    }
    let ghost kept = chars@.take(end as int);
    assert(without_final_line_endings(chars@) == kept) by {
        if end > 0 {
            assert(kept.last() == chars@[end - 1]);
        }
    }
    let mut start: usize = end;
    while start > 0 && chars[start - 1] != '\n'
        invariant
            start <= end <= n,
            n == chars.len(),
            line_start(chars@, end as int) == line_start(chars@, start as int),
        decreases start,
    {
        start -= 1;
    }
    assert(start == line_start(chars@, end as int));
    let ghost line = chars@.subrange(start as int, end as int);
    assert(last_line(output@) == Some(line)) by {
        lemma_line_start_of_prefix(chars@, end as int, end as int);
        assert(kept.subrange(start as int, end as int) =~= line);
    }
    let mut tail: usize = end;
    while tail > start && is_ascii_space(chars[tail - 1])
        invariant
            start <= tail <= end <= n,
            n == chars.len(),
            line == chars@.subrange(start as int, end as int),
            trimmed_end(line, line.len() as int) == trimmed_end(line, tail - start),
        decreases tail,
    {
        assert(line[tail - start - 1] == chars@[tail - 1]);
        tail -= 1;
    }
    assert(trimmed_end(line, line.len() as int) == tail - start) by {
        if tail > start {
            assert(line[tail - start - 1] == chars@[tail - 1]);
        }
    }
    if tail == start {
        let text = String::from_str(output.substring_char(start, end));
        return Err(Failure::NoPathToken { line: text });
    }
    let mut head: usize = tail;
    while head > start && !is_ascii_space(chars[head - 1])
        invariant
            start <= head <= tail <= end <= n,
            n == chars.len(),
            line == chars@.subrange(start as int, end as int),
            token_start(line, tail - start) == token_start(line, head - start),
        decreases head,
    {
        assert(line[head - start - 1] == chars@[head - 1]);
        head -= 1;
    }
    assert(token_start(line, tail - start) == head - start) by {
        if head > start {
            assert(line[head - start - 1] == chars@[head - 1]);
        }
    }
    let token = String::from_str(output.substring_char(head, tail));
    assert(token@ =~= line.subrange(head - start, tail - start));
    Ok(token)
}

} // verus!
