//! The credential file: one `username=password` pair per line.

use crate::text::{chars_of, string_of};
use vstd::prelude::*;

verus! {

/// Why the configuration cannot be loaded.
#[derive(Clone, Copy, Debug, PartialEq, Eq, Structural)]
pub enum ConfigError {
    /// The line with this index, counted from 0, holds no `=`.
    MissingSeparator { line: usize },
}

/// A username with its password, as one line of the file gives them.
#[derive(Debug, PartialEq, Eq)]
pub struct Credential {
    pub username: String,
    pub password: String,
}

impl View for Credential {
    type V = (Seq<char>, Seq<char>);

    open spec fn view(&self) -> (Seq<char>, Seq<char>) {
        (self.username@, self.password@)
    }
}

impl DeepView for Credential {
    type V = (Seq<char>, Seq<char>);

    open spec fn deep_view(&self) -> (Seq<char>, Seq<char>) {
        self@
    }
}

/// Where `c` first occurs in `s`; the length of `s` where it does not occur.
pub open spec fn index_of(s: Seq<char>, c: char) -> int
    decreases s.len(),
{
    if s.len() == 0 || s[0] == c {
        0
    } else {
        1 + index_of(s.drop_first(), c)
    }
}

/// A line without the carriage return that ends it, if one does.
pub open spec fn strip_carriage_return(line: Seq<char>) -> Seq<char> {
    if line.len() > 0 && line.last() == '\r' {
        line.drop_last()
    } else {
        line
    }
}

/// The lines of a text. A line ends with a line feed, or with a carriage
/// return and a line feed, which are not part of it; the last line may end
/// with the text. A text that ends with a line feed has no empty line after
/// it.
pub open spec fn lines_of(text: Seq<char>) -> Seq<Seq<char>>
    decreases text.len(),
{
    let end = index_of(text, '\n');
    if text.len() == 0 {
        Seq::empty()
    } else if 0 <= end < text.len() {
        seq![strip_carriage_return(text.take(end))] + lines_of(text.skip(end + 1))
    } else {
        seq![text]
    }
}

/// Whether a line holds a separator.
pub open spec fn has_separator(line: Seq<char>) -> bool {
    index_of(line, '=') < line.len()
}

/// The pair that a line with a separator stands for: the username is what
/// precedes the first `=`, the password all that follows it.
pub open spec fn spec_credential(line: Seq<char>) -> (Seq<char>, Seq<char>) {
    let at = index_of(line, '=');
    (line.take(at), line.skip(at + 1))
}

/// The lines before line `n` all hold a separator.
pub open spec fn well_formed_before(lines: Seq<Seq<char>>, n: int) -> bool {
    forall|i: int| 0 <= i < n ==> has_separator(#[trigger] lines[i])
}

/// Whether line `n` is the first that holds no separator.
pub open spec fn is_first_malformed(lines: Seq<Seq<char>>, n: int) -> bool {
    &&& 0 <= n < lines.len()
    &&& well_formed_before(lines, n)
    &&& !has_separator(lines[n])
}

/// Whether every line of a text holds a separator.
pub open spec fn is_well_formed(text: Seq<char>) -> bool {
    well_formed_before(lines_of(text), lines_of(text).len() as int)
}

/// The pairs that the lines of a text stand for, in the order of the lines.
pub open spec fn spec_credentials(text: Seq<char>) -> Seq<(Seq<char>, Seq<char>)> {
    lines_of(text).map_values(|line: Seq<char>| spec_credential(line))
}

/// `index_of` is within the sequence or at its end, finds `c` where it is
/// within, and passes over no `c`.
pub proof fn lemma_index_of(s: Seq<char>, c: char)
    ensures
        0 <= index_of(s, c) <= s.len(),
        index_of(s, c) < s.len() ==> s[index_of(s, c)] == c,
        forall|j: int| 0 <= j < index_of(s, c) ==> s[j] != c,
    decreases s.len(),
{
    if s.len() == 0 || s[0] == c {
    } else {
        let rest = s.drop_first();
        lemma_index_of(rest, c);
        assert forall|j: int| 0 <= j < index_of(s, c) implies s[j] != c by {
            if j > 0 {
                assert(s[j] == rest[j - 1]);
            }
        }
    }
}

/// A position that finds `c` or the end and passes over no `c` is the one
/// that `index_of` gives.
pub proof fn lemma_index_of_unique(s: Seq<char>, c: char, at: int)
    requires
        0 <= at <= s.len(),
        at < s.len() ==> s[at] == c,
        forall|j: int| 0 <= j < at ==> s[j] != c,
    ensures
        index_of(s, c) == at,
{
    lemma_index_of(s, c);
}

/// A line splits at its first `=` and nowhere else: it is the username, `=`
/// and the password, one after the other, exactly where the username holds
/// no `=` and the pair is the one that `spec_credential` gives.
pub proof fn lemma_credential_splits_line(
    line: Seq<char>,
    username: Seq<char>,
    password: Seq<char>,
)
    ensures
        (line == username + seq!['='] + password && !username.contains('=')) <==> (has_separator(
            line,
        ) && spec_credential(line) == (username, password)),
{
    lemma_index_of(line, '=');
    let at = index_of(line, '=');
    if line == username + seq!['='] + password && !username.contains('=') {
        let k = username.len() as int;
        assert forall|j: int| 0 <= j < k implies line[j] != '=' by {
            assert(line[j] == username[j]);
        }
        lemma_index_of_unique(line, '=', k);
        assert(line.take(k) == username);
        assert(line.skip(k + 1) == password);
    }
    if has_separator(line) && spec_credential(line) == (username, password) {
        assert(line == line.take(at) + seq!['='] + line.skip(at + 1));
        assert(!username.contains('=')) by {
            if username.contains('=') {
                let j = choose|j: int| 0 <= j < username.len() && username[j] == '=';
                assert(line[j] == '=');
            }
        }
    }
}

/// Where `c` first occurs in `chars` at or after `from` and before `to`; `to`
/// where it does not.
fn find_char(chars: &Vec<char>, from: usize, to: usize, c: char) -> (at: usize)
    requires
        from <= to <= chars.len(),
    ensures
        from <= at <= to,
        at - from == index_of(chars@.subrange(from as int, to as int), c),
{
    let mut at: usize = from;
    while at < to && chars[at] != c
        invariant
            from <= at <= to <= chars.len(),
            forall|j: int| from <= j < at ==> chars@[j] != c,
        decreases to - at,
    {
        at += 1;
    }
    proof {
        lemma_index_of_unique(chars@.subrange(from as int, to as int), c, at - from);
    }
    at
}

/// Reads the pairs of a credential file, line by line. A file is read whole
/// or not at all: the first line without `=`, an empty line too, fails the
/// file.
pub fn parse_credentials(text: &str) -> (parsed: Result<Vec<Credential>, ConfigError>)
    ensures
        match parsed {
            Ok(credentials) => is_well_formed(text@) && credentials.deep_view()
                == spec_credentials(text@),
            Err(ConfigError::MissingSeparator { line }) => is_first_malformed(
                lines_of(text@),
                line as int,
            ),
        },
{
    let chars = chars_of(text);
    let ghost lines = lines_of(text@);
    let mut credentials: Vec<Credential> = Vec::new();
    let mut start: usize = 0;
    assert(lines.skip(0) == lines && chars@.skip(0) == chars@);
    while start < chars.len()
        invariant
            chars@ == text@,
            lines == lines_of(text@),
            start <= chars.len(),
            credentials@.len() <= lines.len(),
            lines.skip(credentials@.len() as int) == lines_of(chars@.skip(start as int)),
            well_formed_before(lines, credentials@.len() as int),
            forall|i: int|
                0 <= i < credentials@.len() ==> (#[trigger] credentials@[i])@ == spec_credential(
                    lines[i],
                ),
        decreases chars.len() - start,
    {
        let ghost rest = chars@.skip(start as int);
        let ghost done = credentials@.len() as int;
        let newline = find_char(&chars, start, chars.len(), '\n');
        let mut end = newline;
        if newline < chars.len() && start < end && chars[end - 1] == '\r' {
            end = end - 1;
        }
        let next = if newline < chars.len() {
            newline + 1
        } else {
            newline
        };
        let ghost line = chars@.subrange(start as int, end as int);
        proof {
            // The text from `start` on begins with `line`, and goes on at `next`.
            if newline < chars.len() {
                assert(rest.skip(newline - start + 1) == chars@.skip(next as int));
                assert(strip_carriage_return(rest.take(newline - start)) == line);
            } else {
                assert(rest == line);
            }
            assert(lines_of(rest) == seq![line] + lines_of(chars@.skip(next as int)));
            assert(lines.skip(done)[0] == line);
            assert(lines.skip(done + 1) == lines.skip(done).skip(1));
        }
        let separator = find_char(&chars, start, end, '=');
        if separator == end {
            return Err(ConfigError::MissingSeparator { line: credentials.len() });
        }
        let username = string_of(&chars, start, separator);
        let password = string_of(&chars, separator + 1, end);
        proof {
            let at = separator - start;
            assert(line.take(at) == chars@.subrange(start as int, separator as int));
            assert(line.skip(at + 1) == chars@.subrange(separator + 1, end as int));
        }
        credentials.push(Credential { username, password });
        start = next;
    }
    assert(credentials.deep_view() == spec_credentials(text@));
    Ok(credentials)
}

} // verus!
