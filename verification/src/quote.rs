//! Text for other programs to read: POSIX shell words, AppleScript literals,
//! XML character data.

use vstd::prelude::*;
use crate::text::{cat3, matches_at, replace, replaced};

verus! {

// ---------------------------------------------------------------------
// Shell words
// ---------------------------------------------------------------------

/// `path` between single quotes, each quote in it written as a closing quote,
/// an escaped quote and an opening one.
pub open spec fn shell_quoted(path: Seq<char>) -> Seq<char> {
    "'"@ + replaced(path, "'"@, "'\\''"@) + "'"@
}

/// Quotes a path for safe interpolation into a POSIX shell command string.
pub fn shell_quote(path: &str) -> (r: String)
    ensures
        r@ == shell_quoted(path@),
{
    proof {
        reveal_strlit("'");
    }
    let inner = replace(path, "'", "'\\''");
    cat3("'", inner.as_str(), "'")
}

/// How a POSIX shell reads the rest of a word outside quotes: the characters
/// of the word and what follows it. `None` where an unquoted character other
/// than an escaped one turns up, or where a quote is left open.
pub open spec fn shell_word(s: Seq<char>) -> Option<(Seq<char>, Seq<char>)>
    decreases s.len(), 1int,
{
    if s.len() == 0 || s[0] == ' ' {
        Some((Seq::<char>::empty(), s))
    } else if s[0] == '\'' {
        shell_word_in_quotes(s.skip(1))
    } else if s[0] == '\\' && s.len() >= 2 && s[1] != '\n' {
        match shell_word(s.skip(2)) {
            Some((word, rest)) => Some((seq![s[1]] + word, rest)),
            None => None,
        }
    } else {
        None
    }
}

/// How a POSIX shell reads the rest of a word inside single quotes: every
/// character up to the next quote stands for itself.
pub open spec fn shell_word_in_quotes(s: Seq<char>) -> Option<(Seq<char>, Seq<char>)>
    decreases s.len(), 0int,
{
    if s.len() == 0 {
        None
    } else if s[0] == '\'' {
        shell_word(s.skip(1))
    } else {
        match shell_word_in_quotes(s.skip(1)) {
            Some((word, rest)) => Some((seq![s[0]] + word, rest)),
            None => None,
        }
    }
}

proof fn quoted_body_is_read_back(path: Seq<char>, rest: Seq<char>)
    requires
        rest.len() == 0 || rest[0] == ' ',
    ensures
        shell_word_in_quotes(replaced(path, "'"@, "'\\''"@) + "'"@ + rest) == Some((path, rest)),
    decreases path.len(),
{
    reveal_strlit("'");
    reveal_strlit("'\\''");
    let body = replaced(path, "'"@, "'\\''"@);
    let s = body + "'"@ + rest;
    if path.len() == 0 {
        assert(s.skip(1) =~= rest);
        assert(shell_word(rest) == Some((Seq::<char>::empty(), rest)));
        assert(path =~= Seq::<char>::empty());
    } else {
        let tail = path.skip(1);
        quoted_body_is_read_back(tail, rest);
        let read = replaced(tail, "'"@, "'\\''"@) + "'"@ + rest;
        assert(path.subrange(0, 1) =~= seq![path[0]]);
        assert(seq![path[0]] + tail =~= path);
        if path[0] == '\'' {
            assert(path.subrange(0, 1) =~= "'"@);
            assert(matches_at(path, "'"@, 0));
            assert(s =~= "'\\''"@ + read);
            let t = s.skip(1);
            assert(s[0] == '\'');
            assert(t[0] == '\\' && t[1] == '\'');
            assert(t.skip(2)[0] == '\'');
            assert(t.skip(2).skip(1) =~= read);
            assert(shell_word(t.skip(2)) == shell_word_in_quotes(read));
            assert(shell_word(t) == Some((seq!['\''] + tail, rest)));
        } else {
            assert(!matches_at(path, "'"@, 0)) by {
                if matches_at(path, "'"@, 0) {
                    assert("'"@[0] == path.subrange(0, 1)[0]);
                }
            }
            assert(s =~= seq![path[0]] + read);
            assert(s.skip(1) =~= read);
        }
    }
}

/// A shell reads a quoted path as one word whose characters are exactly those
/// of the path, whatever they are, and goes on right behind it.
pub proof fn shell_quote_is_read_back(path: Seq<char>, rest: Seq<char>)
    requires
        rest.len() == 0 || rest[0] == ' ',
    ensures
        shell_word(shell_quoted(path) + rest) == Some((path, rest)),
{
    reveal_strlit("'");
    quoted_body_is_read_back(path, rest);
    let s = shell_quoted(path) + rest;
    assert(s[0] == '\'');
    assert(s.skip(1) =~= replaced(path, "'"@, "'\\''"@) + "'"@ + rest);
}

/// A word of a shell command: a plain word or an operator that stands outside
/// quotes, or a quoted word.
pub enum ShellWord {
    Bare(Seq<char>),
    Quoted(Seq<char>),
}

/// A character of the plain words and operators that commands are made of.
pub open spec fn is_bare(c: char) -> bool {
    ||| 'a' <= c <= 'z'
    ||| 'A' <= c <= 'Z'
    ||| '0' <= c <= '9'
    ||| c == '-' || c == '+' || c == '&' || c == '{' || c == '}'
}

/// How many such characters a text begins with.
pub open spec fn bare_length(s: Seq<char>) -> int
    decreases s.len(),
{
    if s.len() == 0 || !is_bare(s[0]) {
        0
    } else {
        1 + bare_length(s.skip(1))
    }
}

/// How a POSIX shell splits a command into words. `None` where anything turns
/// up that is neither a plain word nor a word in single quotes.
pub open spec fn shell_words(s: Seq<char>) -> Option<Seq<ShellWord>>
    decreases s.len(),
{
    if s.len() == 0 {
        Some(Seq::<ShellWord>::empty())
    } else if s[0] == ' ' {
        shell_words(s.skip(1))
    } else if s[0] == '\'' {
        match shell_word(s) {
            Some((word, rest)) => if rest.len() < s.len() {
                match shell_words(rest) {
                    Some(words) => Some(seq![ShellWord::Quoted(word)] + words),
                    None => None,
                }
            } else {
                None
            },
            None => None,
        }
    } else {
        let n = bare_length(s);
        if 0 < n <= s.len() && (n == s.len() || s[n] == ' ') {
            match shell_words(s.skip(n)) {
                Some(words) => Some(seq![ShellWord::Bare(s.take(n))] + words),
                None => None,
            }
        } else {
            None
        }
    }
}

/// A word as it is written.
pub open spec fn written_word(w: ShellWord) -> Seq<char> {
    match w {
        ShellWord::Bare(text) => text,
        ShellWord::Quoted(text) => shell_quoted(text),
    }
}

/// Words as they are written, with a space between them.
pub open spec fn written_words(words: Seq<ShellWord>) -> Seq<char>
    decreases words.len(),
{
    if words.len() == 0 {
        Seq::<char>::empty()
    } else if words.len() == 1 {
        written_word(words[0])
    } else {
        written_word(words[0]) + " "@ + written_words(words.skip(1))
    }
}

/// The plain words are made of plain characters.
pub open spec fn are_words(words: Seq<ShellWord>) -> bool {
    forall|i: int|
        0 <= i < words.len() ==> ((#[trigger] words[i]) matches ShellWord::Bare(text) ==> {
            &&& text.len() > 0
            &&& forall|j: int| 0 <= j < text.len() ==> is_bare(#[trigger] text[j])
        })
}

proof fn bare_word_is_measured(word: Seq<char>, rest: Seq<char>)
    requires
        forall|j: int| 0 <= j < word.len() ==> is_bare(#[trigger] word[j]),
        rest.len() == 0 || rest[0] == ' ',
    ensures
        bare_length(word + rest) == word.len(),
    decreases word.len(),
{
    let s = word + rest;
    if word.len() > 0 {
        assert(s[0] == word[0]);
        assert(s.skip(1) =~= word.skip(1) + rest);
        bare_word_is_measured(word.skip(1), rest);
    }
}

/// A shell reads words that are written with spaces between them as just those
/// words, whatever the quoted ones hold.
pub proof fn words_are_read_back(words: Seq<ShellWord>)
    requires
        are_words(words),
    ensures
        shell_words(written_words(words)) == Some(words),
    decreases words.len(),
{
    reveal_strlit(" ");
    reveal_strlit("'");
    if words.len() == 0 {
        assert(words =~= Seq::<ShellWord>::empty());
    } else {
        let tail = words.skip(1);
        assert forall|i: int| 0 <= i < tail.len() implies (#[trigger] tail[i]) == words[
            i + 1
        ] by {}
        words_are_read_back(tail);
        let rest = if words.len() == 1 {
            Seq::<char>::empty()
        } else {
            " "@ + written_words(tail)
        };
        let s = written_words(words);
        assert(s =~= written_word(words[0]) + rest);
        if words.len() > 1 {
            assert(rest.skip(1) =~= written_words(tail));
        } else {
            assert(tail =~= Seq::<ShellWord>::empty());
        }
        assert(shell_words(rest) == Some(tail));
        assert(seq![words[0]] + tail =~= words);
        match words[0] {
            ShellWord::Quoted(path) => {
                shell_quote_is_read_back(path, rest);
                assert(s[0] == '\'');
            },
            ShellWord::Bare(text) => {
                bare_word_is_measured(text, rest);
                assert(s[0] == text[0]);
                assert(s.take(text.len() as int) =~= text);
                assert(s.skip(text.len() as int) =~= rest);
            },
        }
    }
}

// ---------------------------------------------------------------------
// AppleScript literals
// ---------------------------------------------------------------------

/// `s` with each backslash doubled, and then a backslash before each double
/// quote.
pub open spec fn applescript_escaped(s: Seq<char>) -> Seq<char> {
    replaced(replaced(s, "\\"@, "\\\\"@), "\""@, "\\\""@)
}

/// Escapes a string for interpolation into a double-quoted AppleScript
/// string literal (used to build the `do shell script "..."` command).
pub fn applescript_escape(s: &str) -> (r: String)
    ensures
        r@ == applescript_escaped(s@),
{
    proof {
        reveal_strlit("\\");
        reveal_strlit("\"");
    }
    let doubled = replace(s, "\\", "\\\\");
    replace(doubled.as_str(), "\"", "\\\"")
}

/// How AppleScript reads the rest of a string literal: its characters, and
/// what follows the closing quote. A backslash before a backslash or a double
/// quote stands for that character.
pub open spec fn applescript_literal(s: Seq<char>) -> Option<(Seq<char>, Seq<char>)>
    decreases s.len(),
{
    if s.len() == 0 {
        None
    } else if s[0] == '"' {
        Some((Seq::<char>::empty(), s.skip(1)))
    } else if s[0] == '\\' {
        if s.len() >= 2 && (s[1] == '\\' || s[1] == '"') {
            match applescript_literal(s.skip(2)) {
                Some((text, rest)) => Some((seq![s[1]] + text, rest)),
                None => None,
            }
        } else {
            None
        }
    } else {
        match applescript_literal(s.skip(1)) {
            Some((text, rest)) => Some((seq![s[0]] + text, rest)),
            None => None,
        }
    }
}

/// Replacing a single character goes through a text character by character.
proof fn replaced_one(c: char, s: Seq<char>, from: Seq<char>, to: Seq<char>)
    requires
        from.len() == 1,
    ensures
        replaced(seq![c] + s, from, to) == (if c == from[0] {
            to
        } else {
            seq![c]
        }) + replaced(s, from, to),
{
    let t = seq![c] + s;
    assert(t.skip(1) =~= s);
    assert(t.subrange(0, 1) =~= seq![c]);
    if c == from[0] {
        assert(seq![c] =~= from);
        assert(matches_at(t, from, 0));
    } else if matches_at(t, from, 0) {
        assert(t.subrange(0, 1)[0] == from[0]);
    }
}

/// The text of a string literal is read back from its escaped form, whatever
/// its characters are, and the literal ends where it was closed.
pub proof fn applescript_escape_is_read_back(s: Seq<char>, rest: Seq<char>)
    ensures
        applescript_literal(applescript_escaped(s) + "\""@ + rest) == Some((s, rest)),
    decreases s.len(),
{
    reveal_strlit("\\");
    reveal_strlit("\\\\");
    reveal_strlit("\"");
    reveal_strlit("\\\"");
    let whole = applescript_escaped(s) + "\""@ + rest;
    if s.len() == 0 {
        assert(whole[0] == '"');
        assert(whole.skip(1) =~= rest);
        assert(s =~= Seq::<char>::empty());
    } else {
        let c = s[0];
        let tail = s.skip(1);
        applescript_escape_is_read_back(tail, rest);
        let read = applescript_escaped(tail) + "\""@ + rest;
        let doubled = replaced(tail, "\\"@, "\\\\"@);
        assert(seq![c] + tail =~= s);
        replaced_one(c, tail, "\\"@, "\\\\"@);
        if c == '\\' {
            assert("\\\\"@ + doubled =~= seq!['\\'] + (seq!['\\'] + doubled));
            replaced_one('\\', seq!['\\'] + doubled, "\""@, "\\\""@);
            replaced_one('\\', doubled, "\""@, "\\\""@);
            assert(whole =~= seq!['\\'] + (seq!['\\'] + read));
            assert(whole.skip(2) =~= read);
        } else if c == '"' {
            replaced_one('"', doubled, "\""@, "\\\""@);
            assert(whole =~= "\\\""@ + read);
            assert(whole.skip(2) =~= read);
        } else {
            replaced_one(c, doubled, "\""@, "\\\""@);
            assert(whole =~= seq![c] + read);
            assert(whole.skip(1) =~= read);
        }
    }
}

} // verus!
