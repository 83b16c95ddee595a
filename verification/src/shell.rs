//! Quoting of text for POSIX shell scripts.

use vstd::prelude::*;
use crate::text::{chars_of, string_of};

verus! {

/// What one character of the input becomes inside the quoted word.
pub open spec fn quoted_piece(c: char) -> Seq<char> {
    if c == '\'' {
        seq!['\'', '\\', '\'', '\'']
    } else {
        seq![c]
    }
}

/// The quoted form of `s` without the enclosing quotes.
pub open spec fn quoted_body(s: Seq<char>) -> Seq<char>
    decreases s.len(),
{
    if s.len() == 0 {
        Seq::<char>::empty()
    } else {
        quoted_piece(s[0]) + quoted_body(s.drop_first())
    }
}

/// `s` wrapped in single quotes, each embedded single quote written as `'\''`.
pub open spec fn spec_shell_escape(s: Seq<char>) -> Seq<char> {
    seq!['\''] + quoted_body(s) + seq!['\'']
}

/// How a POSIX shell reads a word made only of quoted text. Inside single
/// quotes every character stands for itself up to the closing quote; outside
/// them a backslash makes the next character literal and a single quote opens
/// a quoted stretch. `None` when the word ends inside quotes or holds an
/// unquoted, unescaped character, which the shell would interpret.
pub open spec fn read_quoted_word(w: Seq<char>, in_quotes: bool) -> Option<Seq<char>>
    decreases w.len(),
{
    if w.len() == 0 {
        if in_quotes {
            None
        } else {
            Some(Seq::<char>::empty())
        }
    } else if in_quotes {
        if w[0] == '\'' {
            read_quoted_word(w.drop_first(), false)
        } else {
            match read_quoted_word(w.drop_first(), true) {
                Some(r) => Some(seq![w[0]] + r),
                None => None,
            }
        }
    } else if w[0] == '\'' {
        read_quoted_word(w.drop_first(), true)
    } else if w[0] == '\\' && w.len() >= 2 {
        match read_quoted_word(w.skip(2), false) {
            Some(r) => Some(seq![w[1]] + r),
            None => None,
        }
    } else {
        None
    }
}

proof fn lemma_read_quoted_body(t: Seq<char>)
    ensures
        read_quoted_word(quoted_body(t) + seq!['\''], true) == Some(t),
    decreases t.len(),
{
    let q = seq!['\''];
    let w = quoted_body(t) + q;
    if t.len() == 0 {
        assert(w =~= q);
        assert(w.drop_first() =~= Seq::<char>::empty());
        assert(read_quoted_word(w, true) == read_quoted_word(Seq::<char>::empty(), false));
    } else {
        let c = t[0];
        let rest = t.drop_first();
        let x = quoted_body(rest) + q;
        lemma_read_quoted_body(rest);
        if c == '\'' {
            assert(w =~= seq!['\'', '\\', '\'', '\''] + x);
            let w1 = w.drop_first();
            assert(w1 =~= seq!['\\', '\'', '\''] + x);
            assert(w1.skip(2) =~= seq!['\''] + x);
            assert(w1.skip(2).drop_first() =~= x);
            assert(read_quoted_word(w1.skip(2), false) == read_quoted_word(x, true));
            assert(read_quoted_word(w1, false) == Some(seq!['\''] + rest));
            assert(read_quoted_word(w, true) == read_quoted_word(w1, false));
            assert(seq![c] + rest =~= t);
        } else {
            assert(w =~= seq![c] + x);
            assert(w.drop_first() =~= x);
            assert(read_quoted_word(w, true) == Some(seq![c] + rest));
            assert(seq![c] + rest =~= t);
        }
    }
}

/// A shell reads the escaped word back as exactly the input text, with no
/// character left open to interpretation.
pub proof fn law_shell_escape_reads_back(s: Seq<char>)
    ensures
        read_quoted_word(spec_shell_escape(s), false) == Some(s),
{
    let w = spec_shell_escape(s);
    lemma_read_quoted_body(s);
    assert(w.drop_first() =~= quoted_body(s) + seq!['\'']);
}

/// Escape a string for safe interpolation into a POSIX shell script.
/// Wraps in single quotes; embedded single quotes become `'\''` (end quote,
/// escaped literal quote, restart quote).
pub fn shell_escape(s: &str) -> (r: String)
    ensures
        r@ == spec_shell_escape(s@),
{
    let cs = chars_of(s);
    let mut out: Vec<char> = Vec::new();
    out.push('\'');
    let mut i: usize = 0;
    proof {
        assert(s@.skip(0) =~= s@);
    }
    while i < cs.len()
        invariant
            cs@ == s@,
            0 <= i <= cs.len(),
            spec_shell_escape(s@) == out@ + quoted_body(s@.skip(i as int)) + seq!['\''],
        decreases cs.len() - i,
    {
        let c = cs[i];
        proof {
            assert(s@.skip(i as int).drop_first() =~= s@.skip(i + 1));
            assert(s@.skip(i as int)[0] == c);
        }
        if c == '\'' {
            out.push('\'');
            out.push('\\');
            out.push('\'');
            out.push('\'');
        } else {
            out.push(c);
        }
        i = i + 1;
    }
    proof {
        assert(s@.skip(i as int) =~= Seq::<char>::empty());
        assert(s@.skip(0) =~= s@);
    }
    out.push('\'');
    string_of(&out)
}

} // verus!
