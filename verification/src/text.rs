//! Lines and tokens.
//!
//! A command line is a sequence of characters; its tokens are the maximal
//! runs of characters that are not white space, in the order in which they
//! stand in the line.

use vstd::prelude::*;
use vstd::std_specs::iter::IteratorSpec;

verus! {

/// The characters that separate tokens: those that Unicode marks as
/// `White_Space`.
pub open spec fn is_space(c: char) -> bool {
    ||| '\u{9}' <= c <= '\u{d}'
    ||| c == ' '
    ||| c == '\u{85}'
    ||| c == '\u{a0}'
    ||| c == '\u{1680}'
    ||| '\u{2000}' <= c <= '\u{200a}'
    ||| c == '\u{2028}'
    ||| c == '\u{2029}'
    ||| c == '\u{202f}'
    ||| c == '\u{205f}'
    ||| c == '\u{3000}'
}

/// The number of characters at the start of `line` before the first white
/// space, or before the end of the line.
pub open spec fn word_length(line: Seq<char>) -> nat
    decreases line.len(),
{
    if line.len() == 0 || is_space(line[0]) {
        0
    } else {
        1 + word_length(line.drop_first())
    }
}

/// The tokens of a line, from left to right.
pub open spec fn tokens(line: Seq<char>) -> Seq<Seq<char>>
    decreases line.len(),
{
    if line.len() == 0 {
        Seq::empty()
    } else if is_space(line[0]) {
        tokens(line.drop_first())
    } else {
        proof {
            word_length_is_a_run(line);
        }
        let n = word_length(line) as int;
        seq![line.take(n)] + tokens(line.skip(n))
    }
}

/// The characters counted by `word_length` are in the line and none of them
/// is white space; the count stops only at white space or at the end.
pub proof fn word_length_is_a_run(line: Seq<char>)
    ensures
        word_length(line) <= line.len(),
        line.len() > 0 && !is_space(line[0]) ==> word_length(line) >= 1,
        forall|i: int| 0 <= i < word_length(line) ==> !is_space(#[trigger] line[i]),
        word_length(line) < line.len() ==> is_space(line[word_length(line) as int]),
    decreases line.len(),
{
    if line.len() > 0 && !is_space(line[0]) {
        let rest = line.drop_first();
        word_length_is_a_run(rest);
        assert forall|i: int| 0 <= i < word_length(line) implies !is_space(#[trigger] line[i]) by {
            if i > 0 {
                assert(line[i] == rest[i - 1]);
            }
        }
        if word_length(line) < line.len() {
            assert(line[word_length(line) as int] == rest[word_length(rest) as int]);
        }
    }
}

/// A stretch without white space that ends at white space or at the end of
/// the line is exactly what `word_length` counts.
proof fn run_is_word_length(line: Seq<char>, n: int)
    requires
        0 <= n <= line.len(),
        forall|i: int| 0 <= i < n ==> !is_space(#[trigger] line[i]),
        n < line.len() ==> is_space(line[n]),
    ensures
        word_length(line) == n,
    decreases n,
{
    if n > 0 {
        let rest = line.drop_first();
        assert forall|i: int| 0 <= i < n - 1 implies !is_space(#[trigger] rest[i]) by {
            assert(rest[i] == line[i + 1]);
        }
        run_is_word_length(rest, n - 1);
    }
}

/// A word is a stretch of characters, at least one, without white space.
pub open spec fn is_word(text: Seq<char>) -> bool {
    text.len() > 0 && forall|i: int| 0 <= i < text.len() ==> !is_space(#[trigger] text[i])
}

/// Every token is a word: none is empty and none holds white space.
pub proof fn tokens_are_words(line: Seq<char>)
    ensures
        forall|k: int| 0 <= k < tokens(line).len() ==> is_word(#[trigger] tokens(line)[k]),
    decreases line.len(),
{
    if line.len() == 0 {
        assert(tokens(line).len() == 0);
    } else if is_space(line[0]) {
        tokens_are_words(line.drop_first());
        assert(tokens(line) == tokens(line.drop_first()));
    } else {
        word_length_is_a_run(line);
        let n = word_length(line) as int;
        tokens_are_words(line.skip(n));
        assert(tokens(line) == seq![line.take(n)] + tokens(line.skip(n)));
        let first = line.take(n);
        let rest = tokens(line.skip(n));
        assert(is_word(first)) by {
            assert forall|i: int| 0 <= i < first.len() implies !is_space(#[trigger] first[i]) by {
                assert(first[i] == line[i]);
            }
        }
        assert forall|k: int| 0 <= k < tokens(line).len() implies is_word(
            #[trigger] tokens(line)[k],
        ) by {
            if k == 0 {
                assert(tokens(line)[0] == first);
            } else {
                assert(tokens(line)[k] == rest[k - 1]);
            }
        }
    }
}

/// A line of white space alone, and the empty line, have no tokens.
pub proof fn blank_line_has_no_tokens(line: Seq<char>)
    requires
        forall|i: int| 0 <= i < line.len() ==> is_space(#[trigger] line[i]),
    ensures
        tokens(line).len() == 0,
    decreases line.len(),
{
    if line.len() > 0 {
        let rest = line.drop_first();
        assert forall|i: int| 0 <= i < rest.len() implies is_space(#[trigger] rest[i]) by {
            assert(rest[i] == line[i + 1]);
        }
        blank_line_has_no_tokens(rest);
    }
}

/// White space in front of a word does not change the tokens.
proof fn tokens_after_space(line: Seq<char>, at: int)
    requires
        0 <= at < line.len(),
        is_space(line[at]),
    ensures
        tokens(line.skip(at)) == tokens(line.skip(at + 1)),
{
    assert(line.skip(at).drop_first() == line.skip(at + 1));
}

/// A word that starts at `from` and ends before `to` is the next token.
proof fn tokens_after_word(line: Seq<char>, from: int, to: int)
    requires
        0 <= from < to <= line.len(),
        forall|i: int| from <= i < to ==> !is_space(#[trigger] line[i]),
        to < line.len() ==> is_space(line[to]),
    ensures
        tokens(line.skip(from)) == seq![line.subrange(from, to)] + tokens(line.skip(to)),
{
    let tail = line.skip(from);
    run_is_word_length(tail, to - from);
    assert(tail.take(to - from) == line.subrange(from, to));
    assert(tail.skip(to - from) == line.skip(to));
}

/// The texts that a vector of strings holds.
pub open spec fn texts(strings: Seq<String>) -> Seq<Seq<char>> {
    strings.map_values(|s: String| s@)
}

/// Tells whether `c` separates tokens.
pub fn is_whitespace(c: char) -> (r: bool)
    ensures
        r == is_space(c),
{
    ('\u{9}' <= c && c <= '\u{d}') || c == ' ' || c == '\u{85}' || c == '\u{a0}' || c
        == '\u{1680}' || ('\u{2000}' <= c && c <= '\u{200a}') || c == '\u{2028}' || c
        == '\u{2029}' || c == '\u{202f}' || c == '\u{205f}' || c == '\u{3000}'
}

/// Splits a line into its tokens.
pub fn split_tokens(line: &str) -> (r: Vec<String>)
    ensures
        texts(r@) == tokens(line@),
{
    let n: usize = line.unicode_len();
    let mut out: Vec<String> = Vec::new();
    let mut start: usize = 0;
    let mut at: usize = 0;
    assert(line@.skip(0) == line@);
    for c in it: line.chars()
        invariant
            it.seq() == line@,
            n == line@.len(),
            at == it.index(),
            start <= at <= n,
            forall|i: int| start <= i < at ==> !is_space(#[trigger] line@[i]),
            tokens(line@) == texts(out@) + tokens(line@.skip(start as int)),
    {
        if is_whitespace(c) {
            if start < at {
                proof {
                    tokens_after_word(line@, start as int, at as int);
                }
                let word: String = line.substring_char(start, at).to_owned();
                proof {
                    assert(texts(out@.push(word)) == texts(out@) + seq![word@]);
                }
                out.push(word);
            }
            proof {
                tokens_after_space(line@, at as int);
            }
            start = at + 1;
        }
        at = at + 1;
    }
    if start < n {
        proof {
            tokens_after_word(line@, start as int, n as int);
            assert(line@.skip(n as int).len() == 0);
        }
        let word: String = line.substring_char(start, n).to_owned();
        proof {
            assert(texts(out@.push(word)) == texts(out@) + seq![word@]);
        }
        out.push(word);
    } else {
        assert(line@.skip(start as int).len() == 0);
    }
    assert(texts(out@) + Seq::<Seq<char>>::empty() == texts(out@));
    out
}

/// Tells whether two strings hold the same characters.
pub fn same_text(a: &str, b: &str) -> (r: bool)
    ensures
        r == (a@ == b@),
{
    broadcast use vstd::string::group_string_axioms;

    let mut left = a.chars();
    let mut right = b.chars();
    let ghost mut done: int = 0;
    loop
        invariant
            0 <= done <= a@.len(),
            done <= b@.len(),
            left.remaining() == a@.skip(done),
            right.remaining() == b@.skip(done),
            a@.take(done) == b@.take(done),
        decreases a@.len() - done,
    {
        let x = left.next();
        let y = right.next();
        match (x, y) {
            (None, None) => {
                assert(a@.take(done) == a@);
                assert(b@.take(done) == b@);
                return true;
            },
            (Some(p), Some(q)) => {
                if p != q {
                    assert(a@[done] != b@[done]);
                    return false;
                }
                proof {
                    assert(a@.take(done + 1) == a@.take(done).push(a@[done]));
                    assert(b@.take(done + 1) == b@.take(done).push(b@[done]));
                    assert(a@.skip(done).drop_first() == a@.skip(done + 1));
                    assert(b@.skip(done).drop_first() == b@.skip(done + 1));
                    done = done + 1;
                }
            },
            _ => {
                assert(a@.len() != b@.len());
                return false;
            },
        }
    }
}

} // verus!
