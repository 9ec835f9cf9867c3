//! Quoting of arguments for a POSIX shell, and the proof that the shell
//! reads a quoted argument back as it was.

use crate::text::push_char;
use vstd::prelude::*;
use vstd::string::*;

verus! {

/// What stands for one character inside the quotes: the character itself,
/// or, for a single quote, `'"'"'`, which closes the quotes, gives one
/// single quote in double quotes, and opens the quotes again.
pub open spec fn quoted_char(c: char) -> Seq<char> {
    if c == '\'' {
        seq!['\'', '"', '\'', '"', '\'']
    } else {
        seq![c]
    }
}

/// What stands for `s` between the outer quotes.
pub open spec fn quoted_body(s: Seq<char>) -> Seq<char>
    decreases s.len(),
{
    if s.len() == 0 {
        Seq::empty()
    } else {
        quoted_char(s[0]) + quoted_body(s.drop_first())
    }
}

/// `s` as one word of a shell command line.
pub open spec fn quoted(s: Seq<char>) -> Seq<char> {
    seq!['\''] + quoted_body(s) + seq!['\'']
}

/// Where a shell stands while it reads a word.
pub enum Quoting {
    /// Outside any quotes.
    Bare,
    /// Inside single quotes.
    Single,
    /// Inside double quotes.
    Double,
}

pub open spec fn prepend(c: char, rest: Option<Seq<char>>) -> Option<Seq<char>> {
    match rest {
        Some(r) => Some(seq![c] + r),
        None => None,
    }
}

/// The text that a POSIX shell takes a word for, where the word is made of
/// quoted stretches only.
///
/// Inside single quotes every character stands for itself, up to the next
/// single quote. Inside double quotes every character but `$`, `` ` `` and
/// `\` stands for itself, up to the next double quote. Outside quotes only
/// an opening quote may stand. A word that is not of this shape, or that
/// ends inside quotes, has no reading here.
pub open spec fn shell_read(w: Seq<char>, mode: Quoting) -> Option<Seq<char>>
    decreases w.len(),
{
    if w.len() == 0 {
        match mode {
            Quoting::Bare => Some(Seq::empty()),
            _ => None,
        }
    } else {
        let c = w[0];
        let rest = w.drop_first();
        match mode {
            Quoting::Bare => if c == '\'' {
                shell_read(rest, Quoting::Single)
            } else if c == '"' {
                shell_read(rest, Quoting::Double)
            } else {
                None
            },
            Quoting::Single => if c == '\'' {
                shell_read(rest, Quoting::Bare)
            } else {
                prepend(c, shell_read(rest, Quoting::Single))
            },
            Quoting::Double => if c == '"' {
                shell_read(rest, Quoting::Bare)
            } else if c == '$' || c == '`' || c == '\\' {
                None
            } else {
                prepend(c, shell_read(rest, Quoting::Double))
            },
        }
    }
}

/// Quoting a text that ends in `c` is quoting what stands before `c`, then
/// `c`.
pub proof fn lemma_quoted_body_push(s: Seq<char>, c: char)
    ensures
        quoted_body(s.push(c)) == quoted_body(s) + quoted_char(c),
    decreases s.len(),
{
    if s.len() == 0 {
        assert(s.push(c).drop_first() == Seq::<char>::empty());
        assert(quoted_body(s.push(c)) == quoted_char(c) + quoted_body(Seq::<char>::empty()));
    } else {
        lemma_quoted_body_push(s.drop_first(), c);
        assert(s.push(c).drop_first() == s.drop_first().push(c));
        assert(s.push(c)[0] == s[0]);
        assert(quoted_char(s[0]) + (quoted_body(s.drop_first()) + quoted_char(c)) == quoted_char(
            s[0],
        ) + quoted_body(s.drop_first()) + quoted_char(c));
    }
}

proof fn lemma_read_body(s: Seq<char>)
    ensures
        shell_read(quoted_body(s) + seq!['\''], Quoting::Single) == Some(s),
    decreases s.len(),
{
    let close = seq!['\''];
    if s.len() == 0 {
        let w = quoted_body(s) + close;
        assert(w == close);
        assert(w.drop_first() == Seq::<char>::empty());
        assert(shell_read(w.drop_first(), Quoting::Bare) == Some(Seq::<char>::empty()));
        assert(s == Seq::<char>::empty());
    } else {
        let c = s[0];
        let r = s.drop_first();
        lemma_read_body(r);
        let tail = quoted_body(r) + close;
        let w = quoted_body(s) + close;
        assert(w == quoted_char(c) + tail);
        assert(seq![c] + r == s);
        if c == '\'' {
            let w1 = w.drop_first();
            let w2 = w1.drop_first();
            let w3 = w2.drop_first();
            let w4 = w3.drop_first();
            let w5 = w4.drop_first();
            assert(w[0] == '\'');
            assert(w1[0] == '"');
            assert(w2[0] == '\'');
            assert(w3[0] == '"');
            assert(w4[0] == '\'');
            assert(w5 == tail);
            assert(shell_read(w4, Quoting::Bare) == shell_read(w5, Quoting::Single));
            assert(shell_read(w3, Quoting::Double) == shell_read(w4, Quoting::Bare));
            assert(shell_read(w2, Quoting::Double) == prepend(
                '\'',
                shell_read(w3, Quoting::Double),
            ));
            assert(shell_read(w1, Quoting::Bare) == shell_read(w2, Quoting::Double));
            assert(shell_read(w, Quoting::Single) == shell_read(w1, Quoting::Bare));
        } else {
            assert(w[0] == c);
            assert(w.drop_first() == tail);
        }
    }
}

/// A POSIX shell reads a quoted text back as the text itself, whatever
/// characters it holds.
pub proof fn lemma_quote_round_trip(s: Seq<char>)
    ensures
        shell_read(quoted(s), Quoting::Bare) == Some(s),
{
    let w = quoted(s);
    lemma_read_body(s);
    assert(w[0] == '\'');
    assert(w.drop_first() == quoted_body(s) + seq!['\'']);
}

/// Quotes `s` as one word of a shell command line: in single quotes, each
/// single quote of `s` written as `'"'"'`.
pub fn sh_quote(s: &str) -> (out: String)
    ensures
        out@ == quoted(s@),
{
    let mut out = String::from_str("'");
    proof {
        reveal_strlit("'");
        assert(out@ == seq!['\''] + quoted_body(s@.take(0)));
    }
    for ch in it: s.chars()
        invariant
            it.seq() == s@,
            out@ == seq!['\''] + quoted_body(s@.take(it.index() as int)),
    {
        proof {
            reveal_strlit("'\"'\"'");
            let i = it.index() as int;
            assert(s@.take(i + 1) == s@.take(i).push(ch));
            lemma_quoted_body_push(s@.take(i), ch);
        }
        if ch == '\'' {
            out.append("'\"'\"'");
        } else {
            push_char(&mut out, ch);
        }
    }
    proof {
        assert(s@.take(s@.len() as int) == s@);
    }
    push_char(&mut out, '\'');
    out
}

/// The arguments, each quoted on its own, with one space between them.
pub open spec fn join_quoted(options: Seq<Seq<char>>) -> Seq<char>
    decreases options.len(),
{
    if options.len() == 0 {
        Seq::empty()
    } else if options.len() == 1 {
        quoted(options[0])
    } else {
        join_quoted(options.drop_last()) + " "@ + quoted(options.last())
    }
}

pub open spec fn with_word(word: Seq<char>, rest: Option<Seq<Seq<char>>>) -> Option<
    Seq<Seq<char>>,
> {
    match rest {
        Some(r) => Some(seq![word] + r),
        None => None,
    }
}

pub open spec fn with_words(words: Seq<Seq<char>>, rest: Option<Seq<Seq<char>>>) -> Option<
    Seq<Seq<char>>,
> {
    match rest {
        Some(r) => Some(words + r),
        None => None,
    }
}

/// The words that a POSIX shell splits the rest `w` of a text into, where
/// it stands in `mode`, has read `word` of the word under way, and that
/// word has begun or not.
///
/// A word is made of quoted stretches, read as `shell_read` reads them. A
/// space outside quotes ends the word that has begun. A text of another
/// shape has no reading here.
pub open spec fn shell_words(w: Seq<char>, mode: Quoting, word: Seq<char>, begun: bool) -> Option<
    Seq<Seq<char>>,
>
    decreases w.len(),
{
    if w.len() == 0 {
        match mode {
            Quoting::Bare => if begun {
                Some(seq![word])
            } else {
                None
            },
            _ => None,
        }
    } else {
        let c = w[0];
        let rest = w.drop_first();
        match mode {
            Quoting::Bare => if c == ' ' {
                if begun {
                    with_word(word, shell_words(rest, Quoting::Bare, Seq::empty(), false))
                } else {
                    None
                }
            } else if c == '\'' {
                shell_words(rest, Quoting::Single, word, true)
            } else if c == '"' {
                shell_words(rest, Quoting::Double, word, true)
            } else {
                None
            },
            Quoting::Single => if c == '\'' {
                shell_words(rest, Quoting::Bare, word, begun)
            } else {
                shell_words(rest, Quoting::Single, word.push(c), begun)
            },
            Quoting::Double => if c == '"' {
                shell_words(rest, Quoting::Bare, word, begun)
            } else if c == '$' || c == '`' || c == '\\' {
                None
            } else {
                shell_words(rest, Quoting::Double, word.push(c), begun)
            },
        }
    }
}

/// The arguments that a POSIX shell takes a text for: none for the empty
/// text, and else its words.
pub open spec fn shell_args(w: Seq<char>) -> Option<Seq<Seq<char>>> {
    if w.len() == 0 {
        Some(Seq::empty())
    } else {
        shell_words(w, Quoting::Bare, Seq::empty(), false)
    }
}

proof fn lemma_words_body(s: Seq<char>, tail: Seq<char>, word: Seq<char>)
    ensures
        shell_words(quoted_body(s) + seq!['\''] + tail, Quoting::Single, word, true)
            == shell_words(tail, Quoting::Bare, word + s, true),
    decreases s.len(),
{
    let close = seq!['\''];
    let w = quoted_body(s) + close + tail;
    if s.len() == 0 {
        assert(w == close + tail);
        assert(w[0] == '\'');
        assert(w.drop_first() == tail);
        assert(word + s == word);
    } else {
        let c = s[0];
        let r = s.drop_first();
        let rest = quoted_body(r) + close + tail;
        assert(w == quoted_char(c) + rest);
        if c == '\'' {
            lemma_words_body(r, tail, word.push('\''));
            let w1 = w.drop_first();
            let w2 = w1.drop_first();
            let w3 = w2.drop_first();
            let w4 = w3.drop_first();
            let w5 = w4.drop_first();
            assert(w[0] == '\'');
            assert(w1[0] == '"');
            assert(w2[0] == '\'');
            assert(w3[0] == '"');
            assert(w4[0] == '\'');
            assert(w5 == rest);
            assert(shell_words(w4, Quoting::Bare, word.push('\''), true) == shell_words(
                w5,
                Quoting::Single,
                word.push('\''),
                true,
            ));
            assert(shell_words(w3, Quoting::Double, word.push('\''), true) == shell_words(
                w4,
                Quoting::Bare,
                word.push('\''),
                true,
            ));
            assert(shell_words(w2, Quoting::Double, word, true) == shell_words(
                w3,
                Quoting::Double,
                word.push('\''),
                true,
            ));
            assert(shell_words(w1, Quoting::Bare, word, true) == shell_words(
                w2,
                Quoting::Double,
                word,
                true,
            ));
            assert(shell_words(w, Quoting::Single, word, true) == shell_words(
                w1,
                Quoting::Bare,
                word,
                true,
            ));
            assert(word.push('\'') + r == word + s);
        } else {
            lemma_words_body(r, tail, word.push(c));
            assert(w[0] == c);
            assert(w.drop_first() == rest);
            assert(word.push(c) + r == word + s);
        }
    }
}

proof fn lemma_words_quoted(o: Seq<char>, tail: Seq<char>, word: Seq<char>, begun: bool)
    ensures
        shell_words(quoted(o) + tail, Quoting::Bare, word, begun) == shell_words(
            tail,
            Quoting::Bare,
            word + o,
            true,
        ),
{
    let w = quoted(o) + tail;
    lemma_words_body(o, tail, word);
    assert(w[0] == '\'');
    assert(w.drop_first() == quoted_body(o) + seq!['\''] + tail);
}

proof fn lemma_words_joined(options: Seq<Seq<char>>, tail: Seq<char>)
    requires
        options.len() > 0,
    ensures
        shell_words(join_quoted(options) + tail, Quoting::Bare, Seq::empty(), false)
            == with_words(
            options.drop_last(),
            shell_words(tail, Quoting::Bare, options.last(), true),
        ),
    decreases options.len(),
{
    let none = Seq::<char>::empty();
    let last = options.last();
    let after = shell_words(tail, Quoting::Bare, last, true);
    if options.len() == 1 {
        lemma_words_quoted(options[0], tail, none, false);
        assert(none + options[0] == options[0]);
        assert(options.drop_last() == Seq::<Seq<char>>::empty());
        if after is Some {
            assert(options.drop_last() + after->0 == after->0);
        }
    } else {
        reveal_strlit(" ");
        let init = options.drop_last();
        let gap = " "@ + quoted(last) + tail;
        lemma_words_joined(init, gap);
        assert(join_quoted(options) + tail == join_quoted(init) + gap);
        assert(gap[0] == ' ');
        assert(gap.drop_first() == quoted(last) + tail);
        lemma_words_quoted(last, tail, none, false);
        assert(none + last == last);
        assert(shell_words(gap, Quoting::Bare, init.last(), true) == with_word(init.last(), after));
        if after is Some {
            assert(init.drop_last() + (seq![init.last()] + after->0) == init + after->0);
        }
    }
}

/// A POSIX shell splits the joined, quoted arguments into the arguments
/// themselves: as many, in their order, each as it was, whatever
/// characters they hold.
pub proof fn lemma_arguments_read_back(options: Seq<Seq<char>>)
    ensures
        shell_args(join_quoted(options)) == Some(options),
{
    if options.len() > 0 {
        let none = Seq::<char>::empty();
        lemma_words_joined(options, none);
        assert(join_quoted(options) + none == join_quoted(options));
        assert(shell_words(none, Quoting::Bare, options.last(), true) == Some(
            seq![options.last()],
        ));
        assert(options.drop_last() + seq![options.last()] == options);
        lemma_joined_not_empty(options);
    }
}

proof fn lemma_joined_not_empty(options: Seq<Seq<char>>)
    requires
        options.len() > 0,
    ensures
        join_quoted(options).len() > 0,
    decreases options.len(),
{
    if options.len() > 1 {
        lemma_joined_not_empty(options.drop_last());
    }
}

} // verus!
