//! Readable shell quoting: a word is left as it is when every character is
//! harmless, and wrapped in single quotes otherwise.

use vstd::prelude::*;
use crate::text::{chars_of, texts, AsText};

verus! {

/// Characters that need no quoting: ASCII letters and digits, and
/// `_ = - / + % . , :`.
pub open spec fn quote_safe(c: char) -> bool {
    ||| 'a' <= c <= 'z'
    ||| 'A' <= c <= 'Z'
    ||| '0' <= c <= '9'
    ||| c == '_'
    ||| c == '='
    ||| c == '-'
    ||| c == '/'
    ||| c == '+'
    ||| c == '%'
    ||| c == '.'
    ||| c == ','
    ||| c == ':'
}

/// Whether every character of `s` is safe.
pub open spec fn all_quote_safe(s: Seq<char>) -> bool {
    forall|i: int| 0 <= i < s.len() ==> quote_safe(#[trigger] s[i])
}

/// Whether `s` holds no single quote.
pub open spec fn quote_free(s: Seq<char>) -> bool {
    forall|i: int| 0 <= i < s.len() ==> #[trigger] s[i] != '\''
}

/// A piece without single quotes, quoted: itself when all of it is safe (the
/// empty piece too), else wrapped in single quotes.
pub open spec fn quoted_piece(s: Seq<char>) -> Seq<char> {
    if all_quote_safe(s) {
        s
    } else {
        seq!['\''] + s + seq!['\'']
    }
}

/// The position of the first single quote in `s`, or `s.len()` if it has none.
pub open spec fn first_quote(s: Seq<char>) -> int
    decreases s.len(),
{
    if s.len() == 0 || s[0] == '\'' {
        0
    } else {
        1 + first_quote(s.drop_first())
    }
}

/// The pieces of `s` between its single quotes, each quoted, joined by `\'`.
pub open spec fn quoted_pieces(s: Seq<char>) -> Seq<char>
    decreases s.len(),
{
    let i = first_quote(s);
    if 0 <= i < s.len() {
        quoted_piece(s.subrange(0, i)) + seq!['\\', '\''] + quoted_pieces(
            s.subrange(i + 1, s.len() as int),
        )
    } else {
        quoted_piece(s)
    }
}

/// The shell-quoted form of `s`. The empty string becomes `''`.
pub open spec fn shell_quoted(s: Seq<char>) -> Seq<char> {
    if s.len() == 0 {
        seq!['\'', '\'']
    } else {
        quoted_pieces(s)
    }
}

/// The shell-quoted forms of the words, separated by single spaces.
pub open spec fn shell_quoted_line(words: Seq<Seq<char>>) -> Seq<char>
    decreases words.len(),
{
    if words.len() == 0 {
        Seq::empty()
    } else if words.len() == 1 {
        shell_quoted(words[0])
    } else {
        shell_quoted_line(words.drop_last()) + seq![' '] + shell_quoted(words.last())
    }
}

pub fn is_quote_safe(c: char) -> (b: bool)
    ensures
        b == quote_safe(c),
{
    ('a' <= c && c <= 'z') || ('A' <= c && c <= 'Z') || ('0' <= c && c <= '9') || c == '_' || c
        == '=' || c == '-' || c == '/' || c == '+' || c == '%' || c == '.' || c == ',' || c == ':'
}

/// In a text whose first `k` characters hold no single quote, and which ends
/// or has a single quote at `k`, the first single quote is at `k`.
proof fn lemma_first_quote(t: Seq<char>, k: int)
    requires
        0 <= k <= t.len(),
        quote_free(t.subrange(0, k)),
        k == t.len() || t[k] == '\'',
    ensures
        first_quote(t) == k,
    decreases k,
{
    if k > 0 {
        assert(t.subrange(0, k)[0] == t[0]);
        let rest = t.drop_first();
        assert forall|i: int| 0 <= i < k - 1 implies #[trigger] rest.subrange(0, k - 1)[i]
            != '\'' by {
            assert(t.subrange(0, k)[i + 1] == t[i + 1]);
        }
        lemma_first_quote(rest, k - 1);
    }
}

/// Quotes a string that holds no single quote.
pub fn shell_quote_without_singlequote(s: &str) -> (quoted: String)
    requires
        quote_free(s@),
    ensures
        quoted@ == quoted_piece(s@),
{
    let chars = chars_of(s);
    let n = chars.len();
    let mut i: usize = 0;
    while i < n
        invariant
            chars@ == s@,
            n == chars@.len(),
            i <= n,
            forall|k: int| 0 <= k < i ==> quote_safe(#[trigger] s@[k]),
        decreases n - i,
    {
        if !is_quote_safe(chars[i]) {
            let mut out = String::from_str("'");
            out.append(s);
            out.append("'");
            proof {
                reveal_strlit("'");
                assert(!quote_safe(s@[i as int]));
                assert(out@ =~= quoted_piece(s@));
            }
            return out;
        }
        i = i + 1;
    }
    String::from_str(s)
}

/// Quotes one word for a human reader of a shell command line.
pub fn shell_quote(s: &str) -> (quoted: String)
    ensures
        quoted@ == shell_quoted(s@),
{
    let chars = chars_of(s);
    let n = chars.len();
    if n == 0 {
        proof {
            reveal_strlit("''");
            assert("''"@ =~= seq!['\'', '\'']);
        }
        return String::from_str("''");
    }
    let mut out = String::new();
    let mut start: usize = 0;
    let mut i: usize = 0;
    proof {
        assert(s@.subrange(0, n as int) =~= s@);
        assert(out@ + quoted_pieces(s@) =~= quoted_pieces(s@));
    }
    while i < n
        invariant
            chars@ == s@,
            n == chars@.len(),
            start <= i <= n,
            quote_free(s@.subrange(start as int, i as int)),
            out@ + quoted_pieces(s@.subrange(start as int, n as int)) == quoted_pieces(s@),
        decreases n - i,
    {
        if chars[i] == '\'' {
            let piece = s.substring_char(start, i);
            let q = shell_quote_without_singlequote(piece);
            let ghost before = out@;
            out.append(q.as_str());
            out.append("\\'");
            proof {
                reveal_strlit("\\'");
                assert("\\'"@ =~= seq!['\\', '\'']);
                let tail = s@.subrange(start as int, n as int);
                assert(tail.subrange(0, i - start) =~= s@.subrange(start as int, i as int));
                lemma_first_quote(tail, i - start);
                assert(tail.subrange(i - start + 1, tail.len() as int) =~= s@.subrange(
                    i + 1,
                    n as int,
                ));
                assert(out@ + quoted_pieces(s@.subrange(i + 1, n as int)) =~= before
                    + quoted_pieces(tail));
                assert(s@.subrange(i + 1, i + 1) =~= Seq::<char>::empty());
            }
            start = i + 1;
        } else {
            proof {
                assert forall|k: int| 0 <= k < i + 1 - start implies #[trigger] s@.subrange(
                    start as int,
                    i + 1,
                )[k] != '\'' by {
                    if k < i - start {
                        assert(s@.subrange(start as int, i as int)[k] == s@[start + k]);
                    }
                }
            }
        }
        i = i + 1;
    }
    let piece = s.substring_char(start, n);
    let q = shell_quote_without_singlequote(piece);
    let ghost before = out@;
    out.append(q.as_str());
    proof {
        let tail = s@.subrange(start as int, n as int);
        assert(tail.subrange(0, tail.len() as int) =~= tail);
        lemma_first_quote(tail, tail.len() as int);
        assert(out@ =~= before + quoted_pieces(tail));
    }
    out
}

/// Quotes each word and joins them with single spaces. No word gives the
/// empty string.
pub fn shell_quote_many<S: AsText>(ss: &[S]) -> (line: String)
    ensures
        line@ == shell_quoted_line(texts(ss@)),
{
    let mut out = String::new();
    let n = ss.len();
    let mut i: usize = 0;
    while i < n
        invariant
            n == ss@.len(),
            i <= n,
            out@ == shell_quoted_line(texts(ss@.subrange(0, i as int))),
        decreases n - i,
    {
        if i > 0 {
            out.append(" ");
        }
        let q = shell_quote(ss[i].as_text());
        out.append(q.as_str());
        proof {
            reveal_strlit(" ");
            let done = texts(ss@.subrange(0, i as int));
            let next = texts(ss@.subrange(0, i + 1));
            assert(next.drop_last() =~= done);
            assert(next.last() == ss@[i as int].text());
            assert(" "@ =~= seq![' ']);
        }
        i = i + 1;
    }
    assert(ss@.subrange(0, n as int) =~= ss@);
    out
}

} // verus!
