//! Line tokenizer for the interactive session.
//!
//! One line of input is split into tokens, left to right: a double-quoted
//! run yields one token equal to its interior (quotes stripped, no escape
//! processing), a single-quoted run likewise, and otherwise a maximal run
//! of word characters (ASCII letters, digits, `_` and `-`) yields one
//! token. Every other character separates tokens and is discarded. An
//! unterminated quote yields no token for that run: the dangling remainder
//! of the line is silently dropped.

use vstd::prelude::*;
use vstd::string::StrSliceExecFns;
use vstd::string::StringExecFns;

verus! {

/// A character that may appear in an unquoted token.
pub open spec fn is_word_char(c: char) -> bool {
    (97 <= c as u32 && c as u32 <= 122)  // 'a'..'z'
    || (65 <= c as u32 && c as u32 <= 90)  // 'A'..'Z'
    || (48 <= c as u32 && c as u32 <= 57)  // '0'..'9'
    || c == '_'
    || c == '-'
}

/// A quote character, opening either kind of quoted run.
pub open spec fn is_quote(c: char) -> bool {
    c == '"' || c == '\''
}

/// ASCII whitespace, as recognized by the blank-line check.
pub open spec fn is_space(c: char) -> bool {
    c == ' ' || c == '\t' || c == '\r' || c == '\n'
}

/// A line that holds nothing but whitespace.
pub open spec fn is_blank(s: Seq<char>) -> bool {
    forall|k: int| 0 <= k < s.len() ==> is_space(s[k])
}

/// Index of the first occurrence of `c` in `s`, or `s.len()` if absent.
pub open spec fn find_char(s: Seq<char>, c: char) -> nat
    decreases s.len(),
{
    if s.len() == 0 {
        0
    } else if s[0] == c {
        0
    } else {
        1 + find_char(s.drop_first(), c)
    }
}

/// Length of the maximal run of word characters at the head of `s`.
pub open spec fn word_run_len(s: Seq<char>) -> nat
    decreases s.len(),
{
    if s.len() == 0 {
        0
    } else if !is_word_char(s[0]) {
        0
    } else {
        1 + word_run_len(s.drop_first())
    }
}

pub proof fn lemma_find_char(s: Seq<char>, c: char)
    ensures
        find_char(s, c) <= s.len(),
        find_char(s, c) < s.len() ==> s[find_char(s, c) as int] == c,
        forall|k: int| 0 <= k < find_char(s, c) ==> s[k] != c,
    decreases s.len(),
{
    if s.len() == 0 {
    } else if s[0] == c {
    } else {
        lemma_find_char(s.drop_first(), c);
        assert forall|k: int| 0 <= k < find_char(s, c) implies s[k] != c by {
            if k > 0 {
                assert(s.drop_first()[k - 1] == s[k]);
            }
        }
        if find_char(s, c) < s.len() {
            assert(s.drop_first()[find_char(s.drop_first(), c) as int]
                == s[find_char(s, c) as int]);
        }
    }
}

/// `find_char` is pinned down by the first-occurrence characterization.
pub proof fn lemma_find_char_is(s: Seq<char>, c: char, m: int)
    requires
        0 <= m <= s.len(),
        forall|k: int| 0 <= k < m ==> s[k] != c,
        m < s.len() ==> s[m] == c,
    ensures
        find_char(s, c) == m,
    decreases s.len(),
{
    if s.len() == 0 {
    } else if s[0] == c {
        assert(m == 0);
    } else {
        assert(m != 0);
        assert forall|k: int| 0 <= k < m - 1 implies s.drop_first()[k] != c by {
            assert(s.drop_first()[k] == s[k + 1]);
        }
        if m - 1 < s.drop_first().len() {
            assert(s.drop_first()[m - 1] == s[m]);
        }
        lemma_find_char_is(s.drop_first(), c, m - 1);
    }
}

pub proof fn lemma_word_run_len(s: Seq<char>)
    ensures
        word_run_len(s) <= s.len(),
        forall|k: int| 0 <= k < word_run_len(s) ==> is_word_char(s[k]),
        word_run_len(s) < s.len() ==> !is_word_char(s[word_run_len(s) as int]),
    decreases s.len(),
{
    if s.len() == 0 {
    } else if !is_word_char(s[0]) {
    } else {
        lemma_word_run_len(s.drop_first());
        assert forall|k: int| 0 <= k < word_run_len(s) implies is_word_char(s[k]) by {
            if k > 0 {
                assert(s.drop_first()[k - 1] == s[k]);
            }
        }
        if word_run_len(s) < s.len() {
            assert(s.drop_first()[word_run_len(s.drop_first()) as int]
                == s[word_run_len(s) as int]);
        }
    }
}

/// `word_run_len` is pinned down by the maximal-run characterization.
pub proof fn lemma_word_run_len_is(s: Seq<char>, m: int)
    requires
        0 <= m <= s.len(),
        forall|k: int| 0 <= k < m ==> is_word_char(s[k]),
        m < s.len() ==> !is_word_char(s[m]),
    ensures
        word_run_len(s) == m,
    decreases s.len(),
{
    if s.len() == 0 {
    } else if !is_word_char(s[0]) {
        assert(m == 0);
    } else {
        assert(m != 0);
        assert forall|k: int| 0 <= k < m - 1 implies is_word_char(s.drop_first()[k]) by {
            assert(s.drop_first()[k] == s[k + 1]);
        }
        if m - 1 < s.drop_first().len() {
            assert(s.drop_first()[m - 1] == s[m]);
        }
        lemma_word_run_len_is(s.drop_first(), m - 1);
    }
}

/// The token sequence a line denotes.
pub open spec fn tokens_of(s: Seq<char>) -> Seq<Seq<char>>
    decreases s.len(),
    via tokens_of_decreases
{
    if s.len() == 0 {
        Seq::empty()
    } else if is_quote(s[0]) {
        let j = find_char(s.drop_first(), s[0]);
        if j < s.len() - 1 {
            seq![s.subrange(1, 1 + j as int)] + tokens_of(
                s.subrange(2 + j as int, s.len() as int),
            )
        } else {
            Seq::empty()
        }
    } else if is_word_char(s[0]) {
        let k = word_run_len(s);
        seq![s.subrange(0, k as int)] + tokens_of(s.subrange(k as int, s.len() as int))
    } else {
        tokens_of(s.drop_first())
    }
}

#[via_fn]
proof fn tokens_of_decreases(s: Seq<char>) {
    lemma_word_run_len(s);
}

/// Whether `b` decides word-character membership for `c`.
pub fn word_char(c: char) -> (r: bool)
    ensures
        r == is_word_char(c),
{
    let u = c as u32;
    (97 <= u && u <= 122) || (65 <= u && u <= 90) || (48 <= u && u <= 57) || c == '_' || c == '-'
}

/// Whether the line holds nothing but whitespace.
pub fn blank_line(line: &str) -> (r: bool)
    ensures
        r == is_blank(line@),
{
    let n = line.unicode_len();
    let mut i: usize = 0;
    while i < n
        invariant
            n == line@.len(),
            i <= n,
            forall|k: int| 0 <= k < i ==> is_space(line@[k]),
        decreases n - i,
    {
        let c = line.get_char(i);
        if !(c == ' ' || c == '\t' || c == '\r' || c == '\n') {
            return false;
        }
        i = i + 1;
    }
    true
}

/// Split one line of input into its tokens.
pub fn tokenize(line: &str) -> (tokens: Vec<String>)
    ensures
        tokens.deep_view() == tokens_of(line@),
{
    let n = line.unicode_len();
    let mut i: usize = 0;
    let mut out: Vec<String> = Vec::new();
    proof {
        assert(line@.subrange(0, n as int) =~= line@);
        assert(out.deep_view() =~= Seq::<Seq<char>>::empty());
        assert(Seq::<Seq<char>>::empty() + tokens_of(line@) =~= tokens_of(line@));
    }
    while i < n
        invariant
            n == line@.len(),
            i <= n,
            tokens_of(line@) == out.deep_view() + tokens_of(
                line@.subrange(i as int, n as int),
            ),
        decreases n - i,
    {
        let ghost rest = line@.subrange(i as int, n as int);
        let ghost old_out = out.deep_view();
        let c = line.get_char(i);
        assert(rest[0] == line@[i as int]);
        if c == '"' || c == '\'' {
            let mut j = i + 1;
            while j < n && line.get_char(j) != c
                invariant
                    n == line@.len(),
                    i < n,
                    i + 1 <= j <= n,
                    c == line@[i as int],
                    forall|k: int| i + 1 <= k < j ==> line@[k] != c,
                decreases n - j,
            {
                j = j + 1;
            }
            proof {
                let t = rest.drop_first();
                assert(t =~= line@.subrange(i as int + 1, n as int));
                assert forall|k: int| 0 <= k < j - i - 1 implies t[k] != c by {
                    assert(t[k] == line@[k + i + 1]);
                }
                if j < n {
                    assert(t[j - i - 1] == line@[j as int]);
                }
                lemma_find_char_is(t, c, j - i - 1);
            }
            if j < n {
                let tok = line.substring_char(i + 1, j).to_owned();
                proof {
                    assert(rest.subrange(1, j - i) =~= line@.subrange(i as int + 1, j as int));
                    assert(rest.subrange(j - i + 1, rest.len() as int) =~= line@.subrange(
                        j as int + 1,
                        n as int,
                    ));
                    assert(tokens_of(rest) == seq![tok@] + tokens_of(
                        line@.subrange(j as int + 1, n as int),
                    ));
                }
                out.push(tok);
                proof {
                    assert(out.deep_view() =~= old_out.push(tok@));
                    assert(old_out + (seq![tok@] + tokens_of(
                        line@.subrange(j as int + 1, n as int),
                    )) =~= out.deep_view() + tokens_of(line@.subrange(j as int + 1, n as int)));
                }
                i = j + 1;
            } else {
                proof {
                    assert(tokens_of(rest) == Seq::<Seq<char>>::empty());
                    assert(line@.subrange(n as int, n as int) =~= Seq::<char>::empty());
                    assert(old_out + Seq::<Seq<char>>::empty() =~= old_out);
                    assert(old_out + tokens_of(line@.subrange(n as int, n as int)) =~= old_out
                        + tokens_of(rest));
                }
                i = n;
            }
        } else if word_char(c) {
            let mut j = i + 1;
            while j < n && word_char(line.get_char(j))
                invariant
                    n == line@.len(),
                    i < n,
                    i + 1 <= j <= n,
                    forall|k: int| i <= k < j ==> is_word_char(line@[k]),
                decreases n - j,
            {
                j = j + 1;
            }
            proof {
                assert forall|k: int| 0 <= k < j - i implies is_word_char(rest[k]) by {
                    assert(rest[k] == line@[k + i]);
                }
                if j < n {
                    assert(rest[j - i] == line@[j as int]);
                }
                lemma_word_run_len_is(rest, j - i);
            }
            let tok = line.substring_char(i, j).to_owned();
            proof {
                assert(rest.subrange(0, j - i) =~= line@.subrange(i as int, j as int));
                assert(rest.subrange(j - i, rest.len() as int) =~= line@.subrange(
                    j as int,
                    n as int,
                ));
                assert(tokens_of(rest) == seq![tok@] + tokens_of(
                    line@.subrange(j as int, n as int),
                ));
            }
            out.push(tok);
            proof {
                assert(out.deep_view() =~= old_out.push(tok@));
                assert(old_out + (seq![tok@] + tokens_of(line@.subrange(j as int, n as int)))
                    =~= out.deep_view() + tokens_of(line@.subrange(j as int, n as int)));
            }
            i = j;
        } else {
            proof {
                assert(rest.drop_first() =~= line@.subrange(i as int + 1, n as int));
                assert(tokens_of(rest) == tokens_of(line@.subrange(i as int + 1, n as int)));
            }
            i = i + 1;
        }
    }
    proof {
        assert(line@.subrange(n as int, n as int) =~= Seq::<char>::empty());
        assert(out.deep_view() + tokens_of(Seq::<char>::empty()) =~= out.deep_view());
    }
    out
}

/// A token that the renderer can write back onto a line: either a
/// non-empty run of word characters, or a token that lacks at least one
/// of the two quote characters, so that the other can delimit it.
pub open spec fn token_renderable(t: Seq<char>) -> bool {
    (t.len() > 0 && forall|k: int| 0 <= k < t.len() ==> is_word_char(t[k]))
    || !t.contains('"')
    || !t.contains('\'')
}

/// The canonical rendering of one token: bare if it is a non-empty word
/// run, else wrapped in whichever quote character it does not contain.
pub open spec fn render_token(t: Seq<char>) -> Seq<char> {
    if t.len() > 0 && (forall|k: int| 0 <= k < t.len() ==> is_word_char(t[k])) {
        t
    } else if !t.contains('"') {
        seq!['"'] + t + seq!['"']
    } else {
        seq!['\''] + t + seq!['\'']
    }
}

/// The canonical rendering of a token list: each token rendered and
/// followed by one space.
pub open spec fn render_tokens(ts: Seq<Seq<char>>) -> Seq<char>
    decreases ts.len(),
{
    if ts.len() == 0 {
        Seq::empty()
    } else {
        render_token(ts[0]) + seq![' '] + render_tokens(ts.drop_first())
    }
}

/// Every token the tokenizer emits can be rendered back onto a line.
pub proof fn lemma_tokens_renderable(s: Seq<char>)
    ensures
        forall|i: int| 0 <= i < tokens_of(s).len() ==> token_renderable(#[trigger] tokens_of(s)[i]),
    decreases s.len(),
{
    if s.len() == 0 {
    } else if is_quote(s[0]) {
        let d = s.drop_first();
        let j = find_char(d, s[0]);
        lemma_find_char(d, s[0]);
        if j < s.len() - 1 {
            let tok = s.subrange(1, 1 + j as int);
            let tail = s.subrange(2 + j as int, s.len() as int);
            assert forall|k: int| 0 <= k < tok.len() implies tok[k] != s[0] by {
                assert(tok[k] == d[k]);
            }
            assert(token_renderable(tok));
            lemma_tokens_renderable(tail);
            assert(tokens_of(s) == seq![tok] + tokens_of(tail));
            assert forall|i: int| 0 <= i < tokens_of(s).len() implies token_renderable(
                #[trigger] tokens_of(s)[i],
            ) by {
                if i == 0 {
                    assert(tokens_of(s)[0] == tok);
                } else {
                    assert(tokens_of(s)[i] == tokens_of(tail)[i - 1]);
                }
            }
        }
    } else if is_word_char(s[0]) {
        let k = word_run_len(s);
        lemma_word_run_len(s);
        let tok = s.subrange(0, k as int);
        let tail = s.subrange(k as int, s.len() as int);
        assert(k >= 1);
        assert forall|m: int| 0 <= m < tok.len() implies is_word_char(tok[m]) by {
            assert(tok[m] == s[m]);
        }
        assert(token_renderable(tok));
        lemma_tokens_renderable(tail);
        assert(tokens_of(s) == seq![tok] + tokens_of(tail));
        assert forall|i: int| 0 <= i < tokens_of(s).len() implies token_renderable(
            #[trigger] tokens_of(s)[i],
        ) by {
            if i == 0 {
                assert(tokens_of(s)[0] == tok);
            } else {
                assert(tokens_of(s)[i] == tokens_of(tail)[i - 1]);
            }
        }
    } else {
        lemma_tokens_renderable(s.drop_first());
        assert(tokens_of(s) == tokens_of(s.drop_first()));
    }
}

/// Tokenizing the canonical rendering of a renderable token list gives
/// back exactly that list.
pub proof fn lemma_render_tokens_round_trip(ts: Seq<Seq<char>>)
    requires
        forall|i: int| 0 <= i < ts.len() ==> token_renderable(#[trigger] ts[i]),
    ensures
        tokens_of(render_tokens(ts)) == ts,
    decreases ts.len(),
{
    if ts.len() == 0 {
        assert(tokens_of(render_tokens(ts)) =~= ts);
    } else {
        let t = ts[0];
        let rest = ts.drop_first();
        let rr = render_tokens(rest);
        let s = render_tokens(ts);
        assert(token_renderable(t));
        assert forall|i: int| 0 <= i < rest.len() implies token_renderable(#[trigger] rest[i]) by {
            assert(rest[i] == ts[i + 1]);
        }
        lemma_render_tokens_round_trip(rest);
        if t.len() > 0 && (forall|k: int| 0 <= k < t.len() ==> is_word_char(t[k])) {
            // bare word run, terminated by the following space
            assert(s =~= t + seq![' '] + rr);
            assert(s[0] == t[0]);
            assert(!is_quote(s[0]));
            assert forall|k: int| 0 <= k < t.len() implies is_word_char(s[k]) by {
                assert(s[k] == t[k]);
            }
            assert(s[t.len() as int] == ' ');
            assert(!is_word_char(' '));
            lemma_word_run_len_is(s, t.len() as int);
            assert(s.subrange(0, t.len() as int) =~= t);
            let tail = s.subrange(t.len() as int, s.len() as int);
            assert(tail =~= seq![' '] + rr);
            assert(!is_quote(tail[0]) && !is_word_char(tail[0]));
            assert(tail.drop_first() =~= rr);
            assert(tokens_of(tail) == tokens_of(rr));
            assert(tokens_of(s) == seq![t] + tokens_of(rr));
            assert(seq![t] + rest =~= ts);
        } else {
            let q: char = if !t.contains('"') { '"' } else { '\'' };
            assert(!t.contains(q));
            assert(render_token(t) == seq![q] + t + seq![q]);
            assert(s =~= seq![q] + t + seq![q] + seq![' '] + rr);
            assert(s[0] == q && is_quote(q));
            let d = s.drop_first();
            assert(d =~= t + seq![q] + seq![' '] + rr);
            assert forall|k: int| 0 <= k < t.len() implies d[k] != q by {
                assert(d[k] == t[k]);
            }
            assert(d[t.len() as int] == q);
            lemma_find_char_is(d, q, t.len() as int);
            assert(find_char(d, q) < s.len() - 1);
            assert(s.subrange(1, 1 + t.len() as int) =~= t);
            let tail = s.subrange(2 + t.len() as int, s.len() as int);
            assert(tail =~= seq![' '] + rr);
            assert(!is_quote(tail[0]) && !is_word_char(tail[0]));
            assert(tail.drop_first() =~= rr);
            assert(tokens_of(tail) == tokens_of(rr));
            assert(tokens_of(s) == seq![t] + tokens_of(rr));
            assert(seq![t] + rest =~= ts);
        }
    }
}

/// Law: tokenization is idempotent across rendering. Tokenizing any line,
/// rendering the token list back onto one line, and tokenizing again
/// yields the original token list.
pub proof fn lemma_tokenize_render_idempotent(line: Seq<char>)
    ensures
        tokens_of(render_tokens(tokens_of(line))) == tokens_of(line),
{
    lemma_tokens_renderable(line);
    lemma_render_tokens_round_trip(tokens_of(line));
}

/// Whether `t` contains the character `c`.
pub fn str_contains_char(t: &str, c: char) -> (r: bool)
    ensures
        r == t@.contains(c),
{
    let n = t.unicode_len();
    let mut i: usize = 0;
    while i < n
        invariant
            n == t@.len(),
            i <= n,
            forall|k: int| 0 <= k < i ==> t@[k] != c,
        decreases n - i,
    {
        if t.get_char(i) == c {
            proof {
                assert(t@[i as int] == c);
            }
            return true;
        }
        i = i + 1;
    }
    false
}

/// Whether `t` is a non-empty run of word characters.
pub fn all_word_chars(t: &str) -> (r: bool)
    ensures
        r == (t@.len() > 0 && forall|k: int| 0 <= k < t@.len() ==> is_word_char(t@[k])),
{
    let n = t.unicode_len();
    if n == 0 {
        return false;
    }
    let mut i: usize = 0;
    while i < n
        invariant
            n == t@.len(),
            i <= n,
            forall|k: int| 0 <= k < i ==> is_word_char(t@[k]),
        decreases n - i,
    {
        if !word_char(t.get_char(i)) {
            return false;
        }
        i = i + 1;
    }
    true
}

/// Render one token in its canonical form.
pub fn render_token_string(t: &str) -> (r: String)
    ensures
        r@ == render_token(t@),
{
    if all_word_chars(t) {
        t.to_owned()
    } else if !str_contains_char(t, '"') {
        let mut s = String::from_str("\"");
        s.append(t);
        s.append("\"");
        proof {
            reveal_strlit("\"");
            assert(s@ =~= seq!['"'] + t@ + seq!['"']);
        }
        s
    } else {
        let mut s = String::from_str("'");
        s.append(t);
        s.append("'");
        proof {
            reveal_strlit("'");
            assert(s@ =~= seq!['\''] + t@ + seq!['\'']);
        }
        s
    }
}

/// Render a token list back onto one line, each token in canonical form
/// and followed by one space.
pub fn render_line(tokens: &Vec<String>) -> (r: String)
    ensures
        r@ == render_tokens(tokens.deep_view()),
{
    let ghost dv = tokens.deep_view();
    let mut s = String::new();
    proof {
        assert(dv.skip(0) =~= dv);
        assert(s@ + render_tokens(dv) =~= render_tokens(dv));
    }
    let mut idx: usize = 0;
    while idx < tokens.len()
        invariant
            dv == tokens.deep_view(),
            dv.len() == tokens@.len(),
            idx <= tokens@.len(),
            render_tokens(dv) == s@ + render_tokens(dv.skip(idx as int)),
        decreases tokens@.len() - idx,
    {
        let ghost s_old = s@;
        let tok: &String = &tokens[idx];
        let piece = render_token_string(tok.as_str());
        s.append(piece.as_str());
        s.append(" ");
        proof {
            reveal_strlit(" ");
            let at = dv.skip(idx as int);
            assert(at[0] == dv[idx as int]);
            assert(dv[idx as int] == tokens@[idx as int]@);
            assert(at.drop_first() =~= dv.skip(idx as int + 1));
            assert(" "@ =~= seq![' ']);
            assert(render_tokens(at) == render_token(at[0]) + seq![' '] + render_tokens(
                dv.skip(idx as int + 1),
            ));
            assert(s@ =~= s_old + piece@ + seq![' ']);
            assert(s_old + (render_token(at[0]) + seq![' '] + render_tokens(
                dv.skip(idx as int + 1),
            )) =~= s@ + render_tokens(dv.skip(idx as int + 1)));
        }
        idx = idx + 1;
    }
    proof {
        assert(dv.skip(dv.len() as int) =~= Seq::<Seq<char>>::empty());
        assert(s@ + render_tokens(Seq::<Seq<char>>::empty()) =~= s@);
    }
    s
}

} // verus!
