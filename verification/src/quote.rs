//! Quoting of paths for the shell commands that the extension runs.

use vstd::prelude::*;

use crate::text::push_char;

verus! {

/// What one character of a path becomes inside a POSIX single-quoted word.
pub open spec fn sh_piece(c: char) -> Seq<char> {
    if c == '\'' {
        seq!['\'', '\\', '\'', '\'']
    } else {
        seq![c]
    }
}

/// The body of a POSIX single-quoted word for `p`: every `'` closes the quote,
/// is written as `\'`, and the quote opens again.
pub open spec fn sh_escape(p: Seq<char>) -> Seq<char>
    decreases p.len(),
{
    if p.len() == 0 {
        Seq::empty()
    } else {
        sh_piece(p[0]) + sh_escape(p.skip(1))
    }
}

/// `p` as one POSIX single-quoted word.
pub open spec fn sh_quoted(p: Seq<char>) -> Seq<char> {
    seq!['\''] + sh_escape(p) + seq!['\'']
}

/// How a POSIX shell reads a word made of single-quoted parts and `\`-escaped
/// characters; `in_quote` says whether a single quote is open.  `None` where
/// the word leaves a quote open or holds anything else outside quotes.
pub open spec fn sh_read(w: Seq<char>, in_quote: bool) -> Option<Seq<char>>
    decreases w.len(),
{
    if w.len() == 0 {
        if in_quote {
            None
        } else {
            Some(Seq::empty())
        }
    } else if in_quote {
        if w[0] == '\'' {
            sh_read(w.skip(1), false)
        } else {
            match sh_read(w.skip(1), true) {
                Some(r) => Some(seq![w[0]] + r),
                None => None,
            }
        }
    } else if w[0] == '\'' {
        sh_read(w.skip(1), true)
    } else if w[0] == '\\' && w.len() >= 2 {
        match sh_read(w.skip(2), false) {
            Some(r) => Some(seq![w[1]] + r),
            None => None,
        }
    } else {
        None
    }
}

/// What one character of a path becomes inside a PowerShell single-quoted string.
pub open spec fn ps_piece(c: char) -> Seq<char> {
    if c == '\'' {
        seq!['\'', '\'']
    } else {
        seq![c]
    }
}

/// `p` with every `'` doubled, the body of a PowerShell single-quoted string.
pub open spec fn ps_escape(p: Seq<char>) -> Seq<char>
    decreases p.len(),
{
    if p.len() == 0 {
        Seq::empty()
    } else {
        ps_piece(p[0]) + ps_escape(p.skip(1))
    }
}

/// How PowerShell reads the body of a single-quoted string: `''` stands for `'`;
/// `None` where a lone `'` would end the string early.
pub open spec fn ps_read(w: Seq<char>) -> Option<Seq<char>>
    decreases w.len(),
{
    if w.len() == 0 {
        Some(Seq::empty())
    } else if w[0] == '\'' {
        if w.len() >= 2 && w[1] == '\'' {
            match ps_read(w.skip(2)) {
                Some(r) => Some(seq!['\''] + r),
                None => None,
            }
        } else {
            None
        }
    } else {
        match ps_read(w.skip(1)) {
            Some(r) => Some(seq![w[0]] + r),
            None => None,
        }
    }
}

proof fn lemma_sh_escape_push(p: Seq<char>, c: char)
    ensures
        sh_escape(p.push(c)) == sh_escape(p) + sh_piece(c),
    decreases p.len(),
{
    if p.len() == 0 {
        assert(p.push(c).skip(1) =~= Seq::<char>::empty());
        assert(sh_escape(Seq::<char>::empty()) == Seq::<char>::empty());
        assert(sh_escape(p) == Seq::<char>::empty());
        assert(sh_escape(p.push(c)) =~= sh_piece(c));
    } else {
        lemma_sh_escape_push(p.skip(1), c);
        assert(p.push(c).skip(1) =~= p.skip(1).push(c));
        assert(sh_escape(p.push(c)) =~= sh_piece(p[0]) + (sh_escape(p.skip(1)) + sh_piece(c)));
    }
}

proof fn lemma_ps_escape_push(p: Seq<char>, c: char)
    ensures
        ps_escape(p.push(c)) == ps_escape(p) + ps_piece(c),
    decreases p.len(),
{
    if p.len() == 0 {
        assert(p.push(c).skip(1) =~= Seq::<char>::empty());
        assert(ps_escape(Seq::<char>::empty()) == Seq::<char>::empty());
        assert(ps_escape(p) == Seq::<char>::empty());
        assert(ps_escape(p.push(c)) =~= ps_piece(c));
    } else {
        lemma_ps_escape_push(p.skip(1), c);
        assert(p.push(c).skip(1) =~= p.skip(1).push(c));
        assert(ps_escape(p.push(c)) =~= ps_piece(p[0]) + (ps_escape(p.skip(1)) + ps_piece(c)));
    }
}

/// `path` as one POSIX single-quoted shell word, for `sh -c`.
pub fn shell_single_quote(path: &str) -> (r: String)
    ensures
        r@ == sh_quoted(path@),
{
    let n = path.unicode_len();
    let mut out = String::from_str("'");
    proof {
        reveal_strlit("'");
        assert(path@.take(0) =~= Seq::<char>::empty());
        assert(sh_escape(path@.take(0)) == Seq::<char>::empty());
        assert(out@ =~= seq!['\''] + sh_escape(path@.take(0)));
    }
    let mut i: usize = 0;
    while i < n
        invariant
            n == path@.len(),
            i <= n,
            out@ == seq!['\''] + sh_escape(path@.take(i as int)),
        decreases n - i,
    {
        let c = path.get_char(i);
        if c == '\'' {
            out.append("'\\''");
            proof {
                reveal_strlit("'\\''");
            }
        } else {
            push_char(&mut out, c);
        }
        proof {
            lemma_sh_escape_push(path@.take(i as int), c);
            assert(path@.take(i + 1) =~= path@.take(i as int).push(c));
        }
        assert(out@ =~= seq!['\''] + sh_escape(path@.take(i + 1)));
        i += 1;
    }
    push_char(&mut out, '\'');
    assert(path@.take(n as int) =~= path@);
    assert(out@ =~= sh_quoted(path@));
    out
}

/// `path` with every `'` doubled, for a PowerShell single-quoted string.
pub fn ps_single_quote_escape(path: &str) -> (r: String)
    ensures
        r@ == ps_escape(path@),
{
    let n = path.unicode_len();
    let mut out = String::new();
    proof {
        assert(path@.take(0) =~= Seq::<char>::empty());
        assert(ps_escape(path@.take(0)) == Seq::<char>::empty());
    }
    let mut i: usize = 0;
    while i < n
        invariant
            n == path@.len(),
            i <= n,
            out@ == ps_escape(path@.take(i as int)),
        decreases n - i,
    {
        let c = path.get_char(i);
        if c == '\'' {
            push_char(&mut out, '\'');
            push_char(&mut out, '\'');
        } else {
            push_char(&mut out, c);
        }
        proof {
            lemma_ps_escape_push(path@.take(i as int), c);
            assert(path@.take(i + 1) =~= path@.take(i as int).push(c));
        }
        assert(out@ =~= ps_escape(path@.take(i + 1)));
        i += 1;
    }
    assert(path@.take(n as int) =~= path@);
    out
}

proof fn lemma_sh_read_escape(p: Seq<char>)
    ensures
        sh_read(sh_escape(p) + seq!['\''], true) == Some(p),
    decreases p.len(),
{
    let tail = sh_escape(p) + seq!['\''];
    if p.len() == 0 {
        assert(sh_escape(p) == Seq::<char>::empty());
        assert(tail =~= seq!['\'']);
        assert(tail.skip(1) =~= Seq::<char>::empty());
        assert(sh_read(Seq::<char>::empty(), false) == Some(Seq::<char>::empty()));
        assert(p =~= Seq::<char>::empty());
    } else {
        lemma_sh_read_escape(p.skip(1));
        let rest = sh_escape(p.skip(1)) + seq!['\''];
        assert(tail =~= sh_piece(p[0]) + rest);
        if p[0] == '\'' {
            let t1 = tail.skip(1);
            let t2 = t1.skip(2);
            assert(t1 =~= seq!['\\', '\'', '\''] + rest);
            assert(t2 =~= seq!['\''] + rest);
            assert(t2.skip(1) =~= rest);
            assert(sh_read(t2, false) == sh_read(rest, true));
            assert(sh_read(t1, false) == Some(seq!['\''] + p.skip(1)));
            assert(sh_read(tail, true) == sh_read(t1, false));
        } else {
            assert(tail.skip(1) =~= rest);
            assert(sh_read(tail, true) == Some(seq![p[0]] + p.skip(1)));
        }
        assert(seq![p[0]] + p.skip(1) =~= p);
    }
}

/// A POSIX shell reads the word that [`shell_single_quote`] makes back as the
/// path it was given.
pub proof fn shell_single_quote_reads_back(path: Seq<char>)
    ensures
        sh_read(sh_quoted(path), false) == Some(path),
{
    lemma_sh_read_escape(path);
    assert(sh_quoted(path).skip(1) =~= sh_escape(path) + seq!['\'']);
}

/// PowerShell reads the string body that [`ps_single_quote_escape`] makes back
/// as the path it was given.
pub proof fn ps_single_quote_escape_reads_back(path: Seq<char>)
    ensures
        ps_read(ps_escape(path)) == Some(path),
    decreases path.len(),
{
    if path.len() > 0 {
        ps_single_quote_escape_reads_back(path.skip(1));
        let rest = ps_escape(path.skip(1));
        let w = ps_escape(path);
        assert(w =~= ps_piece(path[0]) + rest);
        if path[0] == '\'' {
            assert(w.skip(2) =~= rest);
        } else {
            assert(w.skip(1) =~= rest);
        }
        assert(seq![path[0]] + path.skip(1) =~= path);
    }
}

} // verus!
