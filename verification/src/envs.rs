//! Environment variables: key validation, shell quoting, `.env` parsing and
//! the merge/upsert rules the launcher applies to `KEY=value` lists.

use vstd::prelude::*;
use crate::text;

verus! {

/// `[A-Za-z_][A-Za-z0-9_]*`.
pub open spec fn env_key(s: Seq<char>) -> bool {
    &&& s.len() > 0
    &&& (text::is_ascii_alpha(s[0]) || s[0] == '_')
    &&& forall|i: int|
        1 <= i < s.len() ==> (text::is_ascii_alpha(#[trigger] s[i]) || text::is_ascii_digit(s[i]) || s[i]
            == '_')
}

pub fn is_env_key_chars(v: &Vec<char>) -> (r: bool)
    ensures
        r == env_key(v@),
{
    if v.len() == 0 {
        return false;
    }
    let c0 = v[0];
    if !(('a' <= c0 && c0 <= 'z') || ('A' <= c0 && c0 <= 'Z') || c0 == '_') {
        return false;
    }
    let mut i: usize = 1;
    while i < v.len()
        invariant
            1 <= i <= v@.len(),
            forall|j: int|
                1 <= j < i ==> (text::is_ascii_alpha(#[trigger] v@[j]) || text::is_ascii_digit(v@[j]) || v@[j]
                    == '_'),
        decreases v@.len() - i,
    {
        let c = v[i];
        if !(('a' <= c && c <= 'z') || ('A' <= c && c <= 'Z') || ('0' <= c && c <= '9') || c
            == '_') {
            return false;
        }
        i = i + 1;
    }
    true
}

/// Whether `s` is a valid shell variable name.
pub fn is_env_key(s: &str) -> (r: bool)
    ensures
        r == env_key(s@),
{
    let v = text::chars_of(s);
    is_env_key_chars(&v)
}

/// How one character is written inside a single-quoted shell word: a quote
/// closes the word, is escaped, and the word reopens.
pub open spec fn quote_char(c: char) -> Seq<char> {
    if c == '\'' {
        seq!['\'', '\\', '\'', '\'']
    } else {
        seq![c]
    }
}

pub open spec fn quote_body(v: Seq<char>) -> Seq<char>
    decreases v.len(),
{
    if v.len() == 0 {
        Seq::empty()
    } else {
        quote_char(v[0]) + quote_body(v.drop_first())
    }
}

/// The text `sh_squote` produces for `v`.
pub open spec fn squote(v: Seq<char>) -> Seq<char> {
    seq!['\''] + quote_body(v) + seq!['\'']
}

pub proof fn lemma_quote_body_push(v: Seq<char>, c: char)
    ensures
        quote_body(v.push(c)) == quote_body(v) + quote_char(c),
    decreases v.len(),
{
    if v.len() == 0 {
        assert(v.push(c).drop_first() =~= Seq::<char>::empty());
        assert(quote_body(Seq::<char>::empty()) =~= Seq::<char>::empty());
        assert(quote_body(v.push(c)) =~= quote_char(c));
        assert(quote_body(v) + quote_char(c) =~= quote_char(c));
    } else {
        assert(v.push(c).drop_first() =~= v.drop_first().push(c));
        lemma_quote_body_push(v.drop_first(), c);
        assert(quote_body(v.push(c)) =~= quote_char(v[0]) + (quote_body(v.drop_first())
            + quote_char(c)));
    }
}

/// Wraps `value` in single quotes so that a POSIX shell reads it back as one
/// literal word (every inner `'` becomes `'\''`).
pub fn sh_squote(value: &str) -> (r: String)
    ensures
        r@ == squote(value@),
{
    let v = text::chars_of(value);
    let mut out = String::new();
    text::push_char(&mut out, '\'');
    let mut i: usize = 0;
    while i < v.len()
        invariant
            i <= v@.len(),
            out@ == seq!['\''] + quote_body(v@.take(i as int)),
        decreases v@.len() - i,
    {
        let c = v[i];
        if c == '\'' {
            text::push_char(&mut out, '\'');
            text::push_char(&mut out, '\\');
            text::push_char(&mut out, '\'');
            text::push_char(&mut out, '\'');
        } else {
            text::push_char(&mut out, c);
        }
        proof {
            assert(v@.take(i + 1) =~= v@.take(i as int).push(c));
            lemma_quote_body_push(v@.take(i as int), c);
        }
        i = i + 1;
    }
    text::push_char(&mut out, '\'');
    assert(v@.take(v@.len() as int) =~= v@);
    out
}

/// Characters a POSIX shell treats specially outside quotes.
pub open spec fn sh_special(c: char) -> bool {
    ||| text::is_ws(c)
    ||| c == ';' || c == '&' || c == '|' || c == '<' || c == '>' || c == '(' || c == ')'
    ||| c == '$' || c == '`' || c == '"' || c == '*' || c == '?' || c == '[' || c == ']'
    ||| c == '#' || c == '~' || c == '{' || c == '}' || c == '!'
}

pub open spec fn prepend_opt(p: Seq<char>, o: Option<Seq<char>>) -> Option<Seq<char>> {
    match o {
        Some(x) => Some(p + x),
        None => None,
    }
}

/// The value a POSIX shell gives the word `w` (`quoted`: inside `'...'`), or
/// `None` when `w` is not a single literal word (an unquoted special character,
/// an unterminated quote, a trailing backslash).
pub open spec fn sh_word(w: Seq<char>, quoted: bool) -> Option<Seq<char>>
    decreases w.len(),
{
    if w.len() == 0 {
        if quoted {
            None
        } else {
            Some(Seq::empty())
        }
    } else if quoted {
        if w[0] == '\'' {
            sh_word(w.drop_first(), false)
        } else {
            prepend_opt(seq![w[0]], sh_word(w.drop_first(), true))
        }
    } else if w[0] == '\'' {
        sh_word(w.drop_first(), true)
    } else if w[0] == '\\' {
        if w.len() >= 2 {
            prepend_opt(seq![w[1]], sh_word(w.skip(2), false))
        } else {
            None
        }
    } else if sh_special(w[0]) {
        None
    } else {
        prepend_opt(seq![w[0]], sh_word(w.drop_first(), false))
    }
}

proof fn lemma_body_read_back(v: Seq<char>, rest: Seq<char>)
    ensures
        sh_word(quote_body(v) + rest, true) == prepend_opt(v, sh_word(rest, true)),
    decreases v.len(),
{
    if v.len() == 0 {
        assert(quote_body(v) =~= Seq::<char>::empty());
        assert(quote_body(v) + rest =~= rest);
        match sh_word(rest, true) {
            Some(x) => assert(v + x =~= x),
            None => {},
        }
    } else {
        let c = v[0];
        let t = v.drop_first();
        let x = quote_body(t) + rest;
        lemma_body_read_back(t, rest);
        assert(quote_body(v) == quote_char(c) + quote_body(t));
        assert(quote_body(v) + rest =~= quote_char(c) + x);
        let w = quote_char(c) + x;
        if c == '\'' {
            assert(w[0] == '\'');
            let w1 = w.drop_first();
            assert(w1 =~= seq!['\\', '\'', '\''] + x);
            assert(sh_word(w, true) == sh_word(w1, false));
            assert(w1[0] == '\\' && w1.len() >= 2 && w1[1] == '\'');
            assert(sh_word(w1, false) == prepend_opt(seq!['\''], sh_word(w1.skip(2), false)));
            let w2 = w1.skip(2);
            assert(w2 =~= seq!['\''] + x);
            assert(w2[0] == '\'');
            assert(w2.drop_first() =~= x);
            assert(sh_word(w2, false) == sh_word(x, true));
        } else {
            assert(w[0] == c);
            assert(w.drop_first() =~= x);
            assert(sh_word(w, true) == prepend_opt(seq![c], sh_word(x, true)));
        }
        assert(sh_word(w, true) == prepend_opt(seq![c], prepend_opt(t, sh_word(rest, true))));
        match sh_word(rest, true) {
            Some(y) => {
                assert(seq![c] + (t + y) =~= v + y);
            },
            None => {},
        }
    }
}

/// Injection safety of `sh_squote`: the shell reads the quoted text back as a
/// single literal word equal to the original value, whatever it contains.
pub proof fn lemma_squote_reads_back(v: Seq<char>)
    ensures
        sh_word(squote(v), false) == Some(v),
{
    let w = squote(v);
    assert(w[0] == '\'');
    assert(w.drop_first() =~= quote_body(v) + seq!['\'']);
    assert(sh_word(w, false) == sh_word(w.drop_first(), true));
    lemma_body_read_back(v, seq!['\'']);
    let q = seq!['\''];
    assert(q[0] == '\'');
    assert(q.drop_first() =~= Seq::<char>::empty());
    assert(sh_word(q, true) == sh_word(Seq::<char>::empty(), false));
    assert(sh_word(Seq::<char>::empty(), false) == Some(Seq::<char>::empty()));
    assert(v + Seq::<char>::empty() =~= v);
}

/// A `KEY=value` list seen as character sequences.
pub open spec fn pairs(v: Seq<(String, String)>) -> Seq<(Seq<char>, Seq<char>)> {
    v.map_values(|e: (String, String)| (e.0@, e.1@))
}

/// `s` without the entries whose key is `k` (order kept).
pub open spec fn without_key(s: Seq<(Seq<char>, Seq<char>)>, k: Seq<char>) -> Seq<
    (Seq<char>, Seq<char>),
>
    decreases s.len(),
{
    if s.len() == 0 {
        s
    } else if s.last().0 == k {
        without_key(s.drop_last(), k)
    } else {
        without_key(s.drop_last(), k).push(s.last())
    }
}

pub open spec fn has_key(s: Seq<(Seq<char>, Seq<char>)>, k: Seq<char>) -> bool {
    exists|i: int| 0 <= i < s.len() && (#[trigger] s[i]).0 == k
}

pub open spec fn no_dup_keys(s: Seq<(Seq<char>, Seq<char>)>) -> bool {
    forall|i: int, j: int| 0 <= i < j < s.len() ==> (#[trigger] s[i]).0 != (#[trigger] s[j]).0
}

pub open spec fn all_env_keys(s: Seq<(Seq<char>, Seq<char>)>) -> bool {
    forall|i: int| 0 <= i < s.len() ==> env_key((#[trigger] s[i]).0)
}

pub proof fn lemma_without_key(s: Seq<(Seq<char>, Seq<char>)>, k: Seq<char>)
    ensures
        !has_key(without_key(s, k), k),
        forall|k2: Seq<char>| has_key(without_key(s, k), k2) ==> #[trigger] has_key(s, k2),
        forall|k2: Seq<char>| k2 != k && has_key(s, k2) ==> #[trigger] has_key(without_key(s, k), k2),
        no_dup_keys(s) ==> no_dup_keys(without_key(s, k)),
        all_env_keys(s) ==> all_env_keys(without_key(s, k)),
        !has_key(s, k) ==> without_key(s, k) == s,
    decreases s.len(),
{
    if s.len() > 0 {
        let t = s.drop_last();
        let e = s.last();
        lemma_without_key(t, k);
        let w = without_key(t, k);
        assert forall|k2: Seq<char>| has_key(t, k2) implies #[trigger] has_key(s, k2) by {
            let i = choose|i: int| 0 <= i < t.len() && (#[trigger] t[i]).0 == k2;
            assert(s[i] == t[i]);
        }
        if no_dup_keys(s) {
            assert forall|i: int, j: int| 0 <= i < j < t.len() implies (#[trigger] t[i]).0 != (
            #[trigger] t[j]).0 by {
                assert(t[i] == s[i] && t[j] == s[j]);
            }
        }
        if all_env_keys(s) {
            assert forall|i: int| 0 <= i < t.len() implies env_key((#[trigger] t[i]).0) by {
                assert(t[i] == s[i]);
            }
        }
        if e.0 != k {
            let r = w.push(e);
            assert forall|k2: Seq<char>| has_key(r, k2) implies #[trigger] has_key(s, k2) by {
                let i = choose|i: int| 0 <= i < r.len() && (#[trigger] r[i]).0 == k2;
                if i == w.len() {
                    assert(s[s.len() - 1] == e);
                } else {
                    assert(r[i] == w[i]);
                    assert(has_key(w, k2));
                    assert(has_key(t, k2));
                }
            }
            assert forall|k2: Seq<char>| k2 != k && has_key(s, k2) implies #[trigger] has_key(r, k2) by {
                let i = choose|i: int| 0 <= i < s.len() && (#[trigger] s[i]).0 == k2;
                if i == s.len() - 1 {
                    assert(r[r.len() - 1] == e);
                } else {
                    assert(t[i] == s[i]);
                    assert(has_key(t, k2));
                    assert(has_key(w, k2));
                    let j = choose|j: int| 0 <= j < w.len() && (#[trigger] w[j]).0 == k2;
                    assert(r[j] == w[j]);
                }
            }
            assert(!has_key(r, k)) by {
                if has_key(r, k) {
                    let i = choose|i: int| 0 <= i < r.len() && (#[trigger] r[i]).0 == k;
                    if i < w.len() {
                        assert(r[i] == w[i]);
                    }
                }
            }
            if no_dup_keys(s) {
                assert(!has_key(t, e.0)) by {
                    if has_key(t, e.0) {
                        let i = choose|i: int| 0 <= i < t.len() && (#[trigger] t[i]).0 == e.0;
                        assert(s[i] == t[i]);
                        assert(s[s.len() - 1] == e);
                    }
                }
                assert(!has_key(w, e.0));
                assert forall|i: int, j: int| 0 <= i < j < r.len() implies (#[trigger] r[i]).0 != (
                #[trigger] r[j]).0 by {
                    if j == w.len() {
                        assert(r[i] == w[i]);
                        assert(r[j] == e);
                    } else {
                        assert(r[i] == w[i] && r[j] == w[j]);
                    }
                }
            }
            if all_env_keys(s) {
                assert forall|i: int| 0 <= i < r.len() implies env_key((#[trigger] r[i]).0) by {
                    if i == w.len() {
                        assert(s[s.len() - 1] == e);
                    } else {
                        assert(r[i] == w[i]);
                    }
                }
            }
            if !has_key(s, k) {
                assert(!has_key(t, k)) by {
                    if has_key(t, k) {
                        let i = choose|i: int| 0 <= i < t.len() && (#[trigger] t[i]).0 == k;
                        assert(s[i] == t[i]);
                    }
                }
                assert(r =~= s);
            }
        } else {
            assert forall|k2: Seq<char>| k2 != k && has_key(s, k2) implies #[trigger] has_key(w, k2) by {
                let i = choose|i: int| 0 <= i < s.len() && (#[trigger] s[i]).0 == k2;
                assert(i < s.len() - 1);
                assert(t[i] == s[i]);
                assert(has_key(t, k2));
            }
            assert(has_key(s, k)) by {
                assert(s[s.len() - 1].0 == k);
            }
        }
    }
}

/// The entries of `v` whose key is not `k`.
pub fn remove_key(v: &Vec<(String, String)>, k: &String) -> (r: Vec<(String, String)>)
    ensures
        pairs(r@) == without_key(pairs(v@), k@),
{
    let mut r: Vec<(String, String)> = Vec::new();
    let mut i: usize = 0;
    while i < v.len()
        invariant
            i <= v@.len(),
            pairs(r@) == without_key(pairs(v@.take(i as int)), k@),
        decreases v@.len() - i,
    {
        let ghost before = pairs(v@.take(i as int));
        let same = v[i].0 == *k;
        if !same {
            let e = (v[i].0.clone(), v[i].1.clone());
            r.push(e);
        }
        proof {
            let ps = pairs(v@.take(i + 1));
            assert(ps.drop_last() =~= before);
            assert(ps.last() == (v@[i as int].0@, v@[i as int].1@));
            assert(pairs(r@) =~= without_key(ps, k@));
        }
        i = i + 1;
    }
    assert(v@.take(v@.len() as int) =~= v@);
    r
}

/// `str::lines`: pieces split after each `\n`, with the `\n` (and a `\r`
/// right before it) removed; no empty piece after a final `\n`.
pub open spec fn lines(s: Seq<char>) -> Seq<Seq<char>>
    decreases s.len(),
{
    if s.len() == 0 {
        Seq::empty()
    } else {
        let i = text::find_char(s, '\n');
        if 0 <= i < s.len() {
            seq![strip_cr(s.take(i))] + lines(s.skip(i + 1))
        } else {
            seq![s]
        }
    }
}

pub open spec fn strip_cr(s: Seq<char>) -> Seq<char> {
    if s.len() > 0 && s.last() == '\r' {
        s.drop_last()
    } else {
        s
    }
}

/// `"a"`/`'a'` → `a`: one pair of surrounding quotes is removed.
pub open spec fn unwrap_quotes(v: Seq<char>) -> Seq<char> {
    if v.len() >= 2 && ((v[0] == '"' && v.last() == '"') || (v[0] == '\'' && v.last() == '\'')) {
        v.subrange(1, v.len() - 1)
    } else {
        v
    }
}

/// The `(key, value)` one `.env` line defines: blank lines, `#` comments,
/// lines without `=` and invalid keys define nothing; `export ` is allowed.
pub open spec fn dotenv_entry(raw: Seq<char>) -> Option<(Seq<char>, Seq<char>)> {
    let line = text::trim(raw);
    if line.len() == 0 || line[0] == '#' {
        None
    } else {
        let l2 = text::trim_start(
            if text::starts_with(line, "export "@) {
                line.skip("export "@.len() as int)
            } else {
                line
            },
        );
        let e = text::find_char(l2, '=');
        if e >= l2.len() {
            None
        } else {
            let key = text::trim(l2.take(e));
            if !env_key(key) {
                None
            } else {
                Some((key, unwrap_quotes(text::trim(l2.skip(e + 1)))))
            }
        }
    }
}

/// Puts `(k, v)` last, dropping any earlier entry for `k`.
pub open spec fn put_last(acc: Seq<(Seq<char>, Seq<char>)>, k: Seq<char>, v: Seq<char>) -> Seq<
    (Seq<char>, Seq<char>),
> {
    without_key(acc, k).push((k, v))
}

pub open spec fn dotenv_step(acc: Seq<(Seq<char>, Seq<char>)>, raw: Seq<char>) -> Seq<
    (Seq<char>, Seq<char>),
> {
    match dotenv_entry(raw) {
        Some(kv) => put_last(acc, kv.0, kv.1),
        None => acc,
    }
}

pub open spec fn dotenv_fold(acc: Seq<(Seq<char>, Seq<char>)>, ls: Seq<Seq<char>>) -> Seq<
    (Seq<char>, Seq<char>),
>
    decreases ls.len(),
{
    if ls.len() == 0 {
        acc
    } else {
        dotenv_fold(dotenv_step(acc, ls[0]), ls.drop_first())
    }
}

/// What a `.env` text defines: each key once, with the value of its last
/// definition, the keys in the order of their last definitions.
pub open spec fn dotenv(content: Seq<char>) -> Seq<(Seq<char>, Seq<char>)> {
    dotenv_fold(Seq::empty(), lines(content))
}

pub proof fn lemma_put_last(acc: Seq<(Seq<char>, Seq<char>)>, k: Seq<char>, v: Seq<char>)
    requires
        no_dup_keys(acc),
    ensures
        no_dup_keys(put_last(acc, k, v)),
        all_env_keys(acc) && env_key(k) ==> all_env_keys(put_last(acc, k, v)),
{
    lemma_without_key(acc, k);
    let w = without_key(acc, k);
    let r = w.push((k, v));
    assert forall|i: int, j: int| 0 <= i < j < r.len() implies (#[trigger] r[i]).0 != (
    #[trigger] r[j]).0 by {
        if j == w.len() {
            assert(r[i] == w[i]);
            assert(!has_key(w, k));
        } else {
            assert(r[i] == w[i] && r[j] == w[j]);
        }
    }
    if all_env_keys(acc) && env_key(k) {
        assert forall|i: int| 0 <= i < r.len() implies env_key((#[trigger] r[i]).0) by {
            if i < w.len() {
                assert(r[i] == w[i]);
            }
        }
    }
}

pub proof fn lemma_dotenv_fold_keys(acc: Seq<(Seq<char>, Seq<char>)>, ls: Seq<Seq<char>>)
    requires
        no_dup_keys(acc),
        all_env_keys(acc),
    ensures
        no_dup_keys(dotenv_fold(acc, ls)),
        all_env_keys(dotenv_fold(acc, ls)),
    decreases ls.len(),
{
    if ls.len() > 0 {
        match dotenv_entry(ls[0]) {
            Some(kv) => lemma_put_last(acc, kv.0, kv.1),
            None => {},
        }
        lemma_dotenv_fold_keys(dotenv_step(acc, ls[0]), ls.drop_first());
    }
}

/// One line of a `.env` file, as the list entry it defines.
fn dotenv_entry_of(raw: &Vec<char>) -> (r: Option<(String, String)>)
    ensures
        match r {
            Some(kv) => dotenv_entry(raw@) == Some((kv.0@, kv.1@)),
            None => dotenv_entry(raw@) is None,
        },
{
    let line = text::trim_vec(raw);
    if line.len() == 0 || line[0] == '#' {
        return None;
    }
    let l2 = if text::vec_starts_with(&line, "export ") {
        let m = "export ".unicode_len();
        let rest = text::slice_vec(&line, m, line.len());
        assert(rest@ =~= line@.skip("export "@.len() as int));
        text::trim_start_vec(&rest)
    } else {
        text::trim_start_vec(&line)
    };
    let e = text::find_from(&l2, 0, '=');
    assert(l2@.subrange(0, l2@.len() as int) =~= l2@);
    if e >= l2.len() {
        return None;
    }
    let k0 = text::slice_vec(&l2, 0, e);
    assert(k0@ =~= l2@.take(e as int));
    let key = text::trim_vec(&k0);
    if !is_env_key_chars(&key) {
        return None;
    }
    let v0 = text::slice_vec(&l2, e + 1, l2.len());
    assert(v0@ =~= l2@.skip(e + 1));
    let val = text::trim_vec(&v0);
    let n = val.len();
    let unq = if n >= 2 && ((val[0] == '"' && val[n - 1] == '"') || (val[0] == '\'' && val[n
        - 1] == '\'')) {
        text::slice_vec(&val, 1, n - 1)
    } else {
        text::slice_vec(&val, 0, n)
    };
    assert(val@.subrange(0, n as int) =~= val@);
    Some((text::string_of(&key), text::string_of(&unq)))
}

/// Reads `.env`-style text into `(key, value)` pairs: blank lines and `#`
/// comments are skipped, `export KEY=…` is accepted, one pair of surrounding
/// quotes is removed, and the last definition of a key wins.
pub fn parse_dotenv(content: &str) -> (r: Vec<(String, String)>)
    ensures
        pairs(r@) == dotenv(content@),
        no_dup_keys(pairs(r@)),
        all_env_keys(pairs(r@)),
{
    let v = text::chars_of(content);
    let n = v.len();
    let mut out: Vec<(String, String)> = Vec::new();
    let mut pos: usize = 0;
    assert(v@.skip(0) =~= v@);
    assert(pairs(out@) =~= Seq::<(Seq<char>, Seq<char>)>::empty());
    while pos < n
        invariant
            n == v@.len(),
            v@ == content@,
            pos <= n,
            dotenv_fold(pairs(out@), lines(v@.skip(pos as int))) == dotenv(content@),
        decreases n - pos,
    {
        let e = text::find_from(&v, pos, '\n');
        let ghost s = v@.skip(pos as int);
        assert(v@.subrange(pos as int, n as int) =~= s);
        let mut line = text::slice_vec(&v, pos, e);
        if e < n && line.len() > 0 && line[line.len() - 1] == '\r' {
            line.pop();
        }
        let next = if e < n { e + 1 } else { n };
        proof {
            if e < n {
                assert(s.take(e - pos) =~= v@.subrange(pos as int, e as int));
                assert(s.skip(e - pos + 1) =~= v@.skip(next as int));
                assert(lines(s) == seq![strip_cr(s.take(e - pos))] + lines(s.skip(e - pos + 1)));
            } else {
                assert(s =~= v@.subrange(pos as int, e as int));
                assert(lines(s) == seq![s]);
                assert(v@.skip(n as int) =~= Seq::<char>::empty());
                assert(lines(v@.skip(n as int)) =~= Seq::<Seq<char>>::empty());
            }
            assert(lines(s) =~= seq![line@] + lines(v@.skip(next as int)));
            assert((seq![line@] + lines(v@.skip(next as int))).drop_first() =~= lines(
                v@.skip(next as int),
            ));
        }
        match dotenv_entry_of(&line) {
            Some(kv) => {
                let k = kv.0;
                let val = kv.1;
                let mut w = remove_key(&out, &k);
                w.push((k, val));
                proof {
                    assert(pairs(w@) =~= put_last(pairs(out@), k@, val@));
                }
                out = w;
            },
            None => {},
        }
        pos = next;
    }
    assert(v@.skip(n as int) =~= Seq::<char>::empty());
    assert(lines(v@.skip(n as int)) =~= Seq::<Seq<char>>::empty());
    proof {
        assert(pairs(Seq::<(String, String)>::empty()) =~= Seq::empty());
        lemma_dotenv_fold_keys(Seq::empty(), lines(content@));
    }
    out
}

/// Index of the first entry with key `k`, or `s.len()`.
pub open spec fn key_index(s: Seq<(Seq<char>, Seq<char>)>, k: Seq<char>) -> int
    decreases s.len(),
{
    if s.len() == 0 {
        0
    } else if s[0].0 == k {
        0
    } else {
        1 + key_index(s.drop_first(), k)
    }
}

/// The value of the first entry with key `k`.
pub open spec fn lookup(s: Seq<(Seq<char>, Seq<char>)>, k: Seq<char>) -> Option<Seq<char>> {
    if key_index(s, k) < s.len() {
        Some(s[key_index(s, k)].1)
    } else {
        None
    }
}

/// The value of the last entry with key `k`.
pub open spec fn last_value(s: Seq<(Seq<char>, Seq<char>)>, k: Seq<char>) -> Option<Seq<char>>
    decreases s.len(),
{
    if s.len() == 0 {
        None
    } else if s.last().0 == k {
        Some(s.last().1)
    } else {
        last_value(s.drop_last(), k)
    }
}

pub proof fn lemma_key_index(s: Seq<(Seq<char>, Seq<char>)>, k: Seq<char>)
    ensures
        0 <= key_index(s, k) <= s.len(),
        forall|j: int| 0 <= j < key_index(s, k) ==> (#[trigger] s[j]).0 != k,
        key_index(s, k) < s.len() ==> s[key_index(s, k)].0 == k,
    decreases s.len(),
{
    if s.len() > 0 && s[0].0 != k {
        lemma_key_index(s.drop_first(), k);
        assert forall|j: int| 0 <= j < key_index(s, k) implies (#[trigger] s[j]).0 != k by {
            if j > 0 {
                assert(s[j] == s.drop_first()[j - 1]);
            }
        }
    }
}

pub proof fn lemma_key_index_at(s: Seq<(Seq<char>, Seq<char>)>, k: Seq<char>, i: int)
    requires
        0 <= i <= s.len(),
        forall|j: int| 0 <= j < i ==> (#[trigger] s[j]).0 != k,
        i == s.len() || s[i].0 == k,
    ensures
        key_index(s, k) == i,
    decreases i,
{
    if i > 0 {
        let t = s.drop_first();
        assert forall|j: int| 0 <= j < i - 1 implies (#[trigger] t[j]).0 != k by {
            assert(t[j] == s[j + 1]);
        }
        if i - 1 < t.len() {
            assert(t[i - 1] == s[i]);
        }
        lemma_key_index_at(t, k, i - 1);
    } else {
        if s.len() > 0 {
            assert(s[0].0 == k);
        }
    }
}

/// Sets the value of the first entry with key `k`, or appends `(k, v)`.
pub open spec fn set_or_push(acc: Seq<(Seq<char>, Seq<char>)>, k: Seq<char>, v: Seq<char>) -> Seq<
    (Seq<char>, Seq<char>),
> {
    let i = key_index(acc, k);
    if i < acc.len() {
        acc.update(i, (k, v))
    } else {
        acc.push((k, v))
    }
}

pub open spec fn merge_fold(acc: Seq<(Seq<char>, Seq<char>)>, o: Seq<(Seq<char>, Seq<char>)>) -> Seq<
    (Seq<char>, Seq<char>),
>
    decreases o.len(),
{
    if o.len() == 0 {
        acc
    } else {
        merge_fold(set_or_push(acc, o[0].0, o[0].1), o.drop_first())
    }
}

pub proof fn lemma_lookup_set_or_push(
    acc: Seq<(Seq<char>, Seq<char>)>,
    k0: Seq<char>,
    v0: Seq<char>,
    k: Seq<char>,
)
    ensures
        lookup(set_or_push(acc, k0, v0), k) == if k == k0 {
            Some(v0)
        } else {
            lookup(acc, k)
        },
        set_or_push(acc, k0, v0).len() >= acc.len(),
        forall|j: int| 0 <= j < acc.len() ==> (#[trigger] set_or_push(acc, k0, v0)[j]).0 == acc[j].0,
{
    lemma_key_index(acc, k0);
    lemma_key_index(acc, k);
    let i0 = key_index(acc, k0);
    let r = set_or_push(acc, k0, v0);
    if i0 < acc.len() {
        assert forall|j: int| 0 <= j < acc.len() implies (#[trigger] r[j]).0 == acc[j].0 by {}
        if k == k0 {
            lemma_key_index_at(r, k, i0);
        } else {
            let i = key_index(acc, k);
            assert forall|j: int| 0 <= j < i implies (#[trigger] r[j]).0 != k by {
                assert(r[j].0 == acc[j].0);
            }
            if i < acc.len() {
                assert(r[i].0 == acc[i].0);
            }
            lemma_key_index_at(r, k, i);
        }
    } else {
        assert forall|j: int| 0 <= j < acc.len() implies (#[trigger] r[j]).0 == acc[j].0 by {}
        if k == k0 {
            assert forall|j: int| 0 <= j < i0 implies (#[trigger] r[j]).0 != k by {
                assert(r[j] == acc[j]);
            }
            lemma_key_index_at(r, k, i0);
        } else {
            let i = key_index(acc, k);
            assert forall|j: int| 0 <= j < i implies (#[trigger] r[j]).0 != k by {
                assert(r[j] == acc[j]);
            }
            if i < acc.len() {
                assert(r[i] == acc[i]);
                lemma_key_index_at(r, k, i);
            } else {
                assert(r[acc.len() as int].0 == k0);
                lemma_key_index_at(r, k, r.len() as int);
            }
        }
    }
}

/// Merging an override into a list: for every key, the result holds the
/// override's last value for it when the override defines it, and the base
/// list's value otherwise; a key defined in neither is absent.
pub proof fn lemma_merge_override_wins(
    base: Seq<(Seq<char>, Seq<char>)>,
    o: Seq<(Seq<char>, Seq<char>)>,
    k: Seq<char>,
)
    ensures
        lookup(merge_fold(base, o), k) == match last_value(o, k) {
            Some(v) => Some(v),
            None => lookup(base, k),
        },
    decreases o.len(),
{
    if o.len() > 0 {
        let b2 = set_or_push(base, o[0].0, o[0].1);
        let t = o.drop_first();
        lemma_merge_override_wins(b2, t, k);
        lemma_lookup_set_or_push(base, o[0].0, o[0].1, k);
        lemma_last_value_front(o, k);
    }
}

proof fn lemma_last_value_front(o: Seq<(Seq<char>, Seq<char>)>, k: Seq<char>)
    requires
        o.len() > 0,
    ensures
        last_value(o, k) == match last_value(o.drop_first(), k) {
            Some(v) => Some(v),
            None => if o[0].0 == k {
                Some(o[0].1)
            } else {
                None
            },
        },
    decreases o.len(),
{
    if o.len() > 1 {
        let t = o.drop_last();
        assert(t.drop_first() =~= o.drop_first().drop_last());
        assert(o.drop_first().last() == o.last());
        assert(t[0] == o[0]);
        lemma_last_value_front(t, k);
    } else {
        assert(o.drop_first() =~= Seq::<(Seq<char>, Seq<char>)>::empty());
        assert(o.last() == o[0]);
        assert(o.drop_last() =~= Seq::<(Seq<char>, Seq<char>)>::empty());
    }
}

/// Merging never reorders or drops the base list's keys: the base keys stay
/// first, in place; new keys can only follow them.
pub proof fn lemma_merge_keeps_base_keys(
    base: Seq<(Seq<char>, Seq<char>)>,
    o: Seq<(Seq<char>, Seq<char>)>,
)
    ensures
        merge_fold(base, o).len() >= base.len(),
        forall|j: int| 0 <= j < base.len() ==> (#[trigger] merge_fold(base, o)[j]).0 == base[j].0,
    decreases o.len(),
{
    if o.len() > 0 {
        let b2 = set_or_push(base, o[0].0, o[0].1);
        lemma_lookup_set_or_push(base, o[0].0, o[0].1, o[0].0);
        lemma_merge_keeps_base_keys(b2, o.drop_first());
        assert forall|j: int| 0 <= j < base.len() implies (#[trigger] merge_fold(base, o)[j]).0
            == base[j].0 by {
            assert(b2[j].0 == base[j].0);
            assert(merge_fold(b2, o.drop_first())[j].0 == b2[j].0);
        }
    }
}

/// Index of the first entry of `v` with key `k`, or `v.len()`.
fn find_key(v: &Vec<(String, String)>, k: &String) -> (r: usize)
    ensures
        r == key_index(pairs(v@), k@),
{
    let mut i: usize = 0;
    while i < v.len() && !(v[i].0 == *k)
        invariant
            i <= v@.len(),
            forall|j: int| 0 <= j < i ==> (#[trigger] pairs(v@)[j]).0 != k@,
        decreases v@.len() - i,
    {
        i = i + 1;
    }
    proof {
        lemma_key_index_at(pairs(v@), k@, i as int);
    }
    i
}

/// Lays the override's entries over `base`: a key already present gets the
/// override's value in place (the override wins), a new key is appended.
pub fn merge_envs(base: Vec<(String, String)>, ovr: &[(String, String)]) -> (r: Vec<(String, String)>)
    ensures
        pairs(r@) == merge_fold(pairs(base@), pairs(ovr@)),
{
    let mut out = base;
    let mut i: usize = 0;
    assert(ovr@.skip(0) =~= ovr@);
    while i < ovr.len()
        invariant
            i <= ovr@.len(),
            merge_fold(pairs(out@), pairs(ovr@.skip(i as int))) == merge_fold(pairs(base@), pairs(ovr@)),
        decreases ovr@.len() - i,
    {
        let k = ovr[i].0.clone();
        let v = ovr[i].1.clone();
        let j = find_key(&out, &k);
        let ghost before = pairs(out@);
        if j < out.len() {
            let key = out[j].0.clone();
            out.set(j, (key, v));
            proof {
                lemma_key_index(before, k@);
                assert(pairs(out@) =~= set_or_push(before, k@, v@));
            }
        } else {
            out.push((k, v));
            proof {
                assert(pairs(out@) =~= set_or_push(before, k@, v@));
            }
        }
        proof {
            let o = pairs(ovr@.skip(i as int));
            assert(o[0] == (k@, v@));
            assert(o.drop_first() =~= pairs(ovr@.skip(i + 1)));
        }
        i = i + 1;
    }
    assert(pairs(ovr@.skip(ovr@.len() as int)) =~= Seq::<(Seq<char>, Seq<char>)>::empty());
    out
}

pub open spec fn maps_to(s: Seq<(Seq<char>, Seq<char>)>, k: Seq<char>, v: Seq<char>) -> bool {
    exists|i: int| 0 <= i < s.len() && #[trigger] s[i] == (k, v)
}

pub proof fn lemma_without_key_members(s: Seq<(Seq<char>, Seq<char>)>, k: Seq<char>)
    ensures
        forall|k2: Seq<char>, v2: Seq<char>|
            k2 != k ==> (#[trigger] maps_to(without_key(s, k), k2, v2) <==> maps_to(s, k2, v2)),
        forall|v2: Seq<char>| !#[trigger] maps_to(without_key(s, k), k, v2),
    decreases s.len(),
{
    if s.len() == 0 {
        assert(without_key(s, k) == s);
    } else {
        let t = s.drop_last();
        let e = s.last();
        lemma_without_key_members(t, k);
        let w = without_key(t, k);
        assert forall|k2: Seq<char>, v2: Seq<char>| #[trigger] maps_to(s, k2, v2) <==> (maps_to(t, k2, v2) || (k2, v2) == e) by {
            if maps_to(t, k2, v2) {
                let i = choose|i: int| 0 <= i < t.len() && #[trigger] t[i] == (k2, v2);
                assert(s[i] == t[i]);
            }
            if (k2, v2) == e {
                assert(s[s.len() - 1] == e);
            }
            if maps_to(s, k2, v2) && (k2, v2) != e {
                let i = choose|i: int| 0 <= i < s.len() && #[trigger] s[i] == (k2, v2);
                assert(i != s.len() - 1);
                assert(t[i] == s[i]);
            }
        }
        if e.0 == k {
            assert(without_key(s, k) == w);
            assert forall|k2: Seq<char>, v2: Seq<char>| k2 != k implies (#[trigger] maps_to(without_key(s, k), k2, v2) <==> maps_to(s, k2, v2)) by {
                assert(maps_to(w, k2, v2) == maps_to(t, k2, v2));
            }
        } else {
            let r = w.push(e);
            assert(without_key(s, k) == r);
            assert forall|k2: Seq<char>, v2: Seq<char>| #[trigger] maps_to(r, k2, v2) <==> (maps_to(w, k2, v2) || (k2, v2) == e) by {
                if maps_to(w, k2, v2) {
                    let i = choose|i: int| 0 <= i < w.len() && #[trigger] w[i] == (k2, v2);
                    assert(r[i] == w[i]);
                }
                if (k2, v2) == e {
                    assert(r[r.len() - 1] == e);
                }
                if maps_to(r, k2, v2) && (k2, v2) != e {
                    let i = choose|i: int| 0 <= i < r.len() && #[trigger] r[i] == (k2, v2);
                    assert(i < w.len());
                    assert(r[i] == w[i]);
                }
            }
            assert forall|k2: Seq<char>, v2: Seq<char>| k2 != k implies (#[trigger] maps_to(without_key(s, k), k2, v2) <==> maps_to(s, k2, v2)) by {
                assert(maps_to(w, k2, v2) == maps_to(t, k2, v2));
            }
            assert forall|v2: Seq<char>| !#[trigger] maps_to(without_key(s, k), k, v2) by {
                assert(!maps_to(w, k, v2));
            }
        }
    }
}

/// The `(key, value)` a `KEY=value` line assigns, when its key is valid.
pub open spec fn env_assignment(line: Seq<char>) -> Option<(Seq<char>, Seq<char>)> {
    let l = text::trim(line);
    let e = text::find_char(l, '=');
    if e >= l.len() {
        None
    } else {
        let key = text::trim(l.take(e));
        if env_key(key) {
            Some((key, text::trim(l.skip(e + 1))))
        } else {
            None
        }
    }
}

/// The list after assigning `val` to `key`: an empty value removes the key.
pub open spec fn upserted(envs: Seq<(Seq<char>, Seq<char>)>, key: Seq<char>, val: Seq<char>) -> Seq<
    (Seq<char>, Seq<char>),
> {
    if val.len() == 0 {
        without_key(envs, key)
    } else {
        without_key(envs, key).push((key, val))
    }
}

/// Applying `KEY=value` to a list without duplicate keys: the key ends up
/// with exactly that value (or is gone when the value is empty), every other
/// key keeps its entries, and keys stay unique.
pub proof fn lemma_upsert_sets_key(envs: Seq<(Seq<char>, Seq<char>)>, key: Seq<char>, val: Seq<char>)
    requires
        no_dup_keys(envs),
    ensures
        no_dup_keys(upserted(envs, key, val)),
        forall|v2: Seq<char>| #[trigger] maps_to(upserted(envs, key, val), key, v2) <==> (val.len() > 0 && v2 == val),
        forall|k2: Seq<char>, v2: Seq<char>|
            k2 != key ==> (#[trigger] maps_to(upserted(envs, key, val), k2, v2) <==> maps_to(envs, k2, v2)),
{
    lemma_without_key(envs, key);
    lemma_without_key_members(envs, key);
    let w = without_key(envs, key);
    if val.len() > 0 {
        lemma_put_last(envs, key, val);
        let r = w.push((key, val));
        assert(r[r.len() - 1] == (key, val));
        assert forall|k2: Seq<char>, v2: Seq<char>| maps_to(w, k2, v2) implies #[trigger] maps_to(r, k2, v2) by {
            let i = choose|i: int| 0 <= i < w.len() && #[trigger] w[i] == (k2, v2);
            assert(r[i] == w[i]);
        }
        assert forall|k2: Seq<char>, v2: Seq<char>| maps_to(r, k2, v2) && (k2 != key || v2 != val) implies #[trigger] maps_to(w, k2, v2) by {
            let i = choose|i: int| 0 <= i < r.len() && #[trigger] r[i] == (k2, v2);
            if i < w.len() {
                assert(r[i] == w[i]);
            }
        }
        assert(maps_to(r, key, val));
        assert forall|k2: Seq<char>, v2: Seq<char>| #[trigger] maps_to(r, k2, v2) <==> (maps_to(w, k2, v2) || (k2, v2) == (key, val)) by {}
        assert forall|k2: Seq<char>, v2: Seq<char>| k2 != key implies (#[trigger] maps_to(upserted(envs, key, val), k2, v2) <==> maps_to(envs, k2, v2)) by {
            assert(maps_to(w, k2, v2) == maps_to(envs, k2, v2));
        }
        assert forall|v2: Seq<char>| #[trigger] maps_to(upserted(envs, key, val), key, v2) <==> (val.len() > 0 && v2 == val) by {
            assert(!maps_to(w, key, v2));
        }
    }
}

/// Applies a `KEY=value` line to `envs` (add, update, or remove with an
/// empty value); returns false, leaving `envs` unchanged, when the line has
/// no `=` or its key is invalid.
pub fn upsert_env_line(envs: &mut Vec<(String, String)>, line: &str) -> (r: bool)
    ensures
        r == env_assignment(line@) is Some,
        match env_assignment(line@) {
            Some(kv) => pairs(final(envs)@) == upserted(pairs(old(envs)@), kv.0, kv.1),
            None => final(envs)@ == old(envs)@,
        },
{
    let raw = text::chars_of(line);
    let l = text::trim_vec(&raw);
    let e = text::find_from(&l, 0, '=');
    assert(l@.subrange(0, l@.len() as int) =~= l@);
    if e >= l.len() {
        return false;
    }
    let k0 = text::slice_vec(&l, 0, e);
    assert(k0@ =~= l@.take(e as int));
    let kc = text::trim_vec(&k0);
    if !is_env_key_chars(&kc) {
        return false;
    }
    let v0 = text::slice_vec(&l, e + 1, l.len());
    assert(v0@ =~= l@.skip(e + 1));
    let vc = text::trim_vec(&v0);
    let key = text::string_of(&kc);
    let val = text::string_of(&vc);
    let mut w = remove_key(envs, &key);
    if vc.len() > 0 {
        w.push((key, val));
        assert(pairs(w@) =~= without_key(pairs(old(envs)@), kc@).push((kc@, vc@)));
    }
    *envs = w;
    true
}


/// The `(key, value)` definitions made by `ls`, line by line.
pub open spec fn definitions(ls: Seq<Seq<char>>) -> Seq<(Seq<char>, Seq<char>)>
    decreases ls.len(),
{
    if ls.len() == 0 {
        Seq::empty()
    } else {
        match dotenv_entry(ls[0]) {
            Some(kv) => seq![kv] + definitions(ls.drop_first()),
            None => definitions(ls.drop_first()),
        }
    }
}

proof fn lemma_last_value_concat(a: Seq<(Seq<char>, Seq<char>)>, b: Seq<(Seq<char>, Seq<char>)>, k: Seq<char>)
    ensures
        last_value(a + b, k) == match last_value(b, k) {
            Some(v) => Some(v),
            None => last_value(a, k),
        },
    decreases b.len(),
{
    if b.len() > 0 {
        assert((a + b).drop_last() =~= a + b.drop_last());
        lemma_last_value_concat(a, b.drop_last(), k);
    } else {
        assert(a + b =~= a);
    }
}

proof fn lemma_last_value_without(s: Seq<(Seq<char>, Seq<char>)>, j: Seq<char>, k: Seq<char>)
    requires
        j != k,
    ensures
        last_value(without_key(s, j), k) == last_value(s, k),
    decreases s.len(),
{
    if s.len() > 0 {
        lemma_last_value_without(s.drop_last(), j, k);
        if s.last().0 != j {
            assert(without_key(s.drop_last(), j).push(s.last()).drop_last() =~= without_key(
                s.drop_last(),
                j,
            ));
        }
    }
}

proof fn lemma_fold_last_definition(acc: Seq<(Seq<char>, Seq<char>)>, ls: Seq<Seq<char>>, k: Seq<char>)
    ensures
        last_value(dotenv_fold(acc, ls), k) == match last_value(definitions(ls), k) {
            Some(v) => Some(v),
            None => last_value(acc, k),
        },
    decreases ls.len(),
{
    if ls.len() > 0 {
        let step = dotenv_step(acc, ls[0]);
        lemma_fold_last_definition(step, ls.drop_first(), k);
        match dotenv_entry(ls[0]) {
            Some(kv) => {
                let d = definitions(ls.drop_first());
                assert(definitions(ls) == seq![kv] + d);
                lemma_last_value_concat(seq![kv], d, k);
                assert(step == put_last(acc, kv.0, kv.1));
                assert(step.drop_last() =~= without_key(acc, kv.0));
                assert(step.last() == kv);
                assert(seq![kv].drop_last() =~= Seq::<(Seq<char>, Seq<char>)>::empty());
                if kv.0 != k {
                    lemma_last_value_without(acc, kv.0, k);
                    assert(last_value(step, k) == last_value(acc, k));
                    assert(last_value(Seq::<(Seq<char>, Seq<char>)>::empty(), k) == None::<Seq<char>>);
                    assert(last_value(seq![kv], k) == None::<Seq<char>>);
                } else {
                    assert(last_value(step, k) == Some(kv.1));
                    assert(last_value(seq![kv], k) == Some(kv.1));
                }
            },
            None => {},
        }
    }
}

/// The last definition of a key wins: the value `.env` text gives a key is
/// that of the last line defining it, and a key no line defines is absent.
pub proof fn lemma_dotenv_last_definition_wins(content: Seq<char>, k: Seq<char>)
    ensures
        last_value(dotenv(content), k) == last_value(definitions(lines(content)), k),
{
    lemma_fold_last_definition(Seq::empty(), lines(content), k);
}


/// A line `K=V` with a valid key `K` defines `K` with the value `V`: the
/// line is split at its first `=`, so the value keeps any `=` it holds
/// (surrounding white space aside; one pair of enclosing quotes is dropped).
pub proof fn lemma_line_splits_at_first_eq(k: Seq<char>, v: Seq<char>)
    requires
        env_key(k),
        text::trim(v) == v,
    ensures
        dotenv_entry(k + "="@ + v) == Some((k, unwrap_quotes(v))),
        !(v.len() >= 2 && ((v[0] == '"' && v.last() == '"') || (v[0] == '\'' && v.last() == '\'')))
            ==> dotenv_entry(k + "="@ + v) == Some((k, v)),
{
    reveal_strlit("=");
    reveal_strlit("export ");
    let line = k + "="@ + v;
    let n: int = k.len() as int;
    assert(line[n] == '=');
    assert forall|j: int| 0 <= j < n implies line[j] == k[j] by {}
    assert(!text::is_ws(k[0]));
    text::lemma_trim_ends(v);
    if v.len() > 0 {
        assert(line.last() == v.last());
    } else {
        assert(line.last() == '=');
    }
    text::lemma_trim_fixed(line);
    assert(!text::starts_with(line, "export "@)) by {
        if text::starts_with(line, "export "@) {
            let e = "export "@;
            assert(line.take(7) == e);
            if n < 6 {
                assert(line.take(7)[n] == '=');
            } else if n == 6 {
                assert(line.take(7)[6] == '=');
            } else {
                assert(line.take(7)[6] == k[6]);
            }
        }
    }
    assert(line.len() > 0 && line[0] == k[0]);
    assert(text::trim_start(line) == line);
    assert forall|j: int| 0 <= j < n implies line[j] != '=' by {
        assert(line[j] == k[j]);
        if j > 0 {
            assert(text::is_ascii_alpha(k[j]) || text::is_ascii_digit(k[j]) || k[j] == '_');
        }
    }
    text::lemma_find_char_at(line, '=', n);
    assert(line.take(n) =~= k);
    assert(!text::is_ws(k.last())) by {
        if n > 1 {
            assert(text::is_ascii_alpha(k[n - 1]) || text::is_ascii_digit(k[n - 1]) || k[n - 1] == '_');
        }
    }
    text::lemma_trim_fixed(k);
    assert(line.skip(n + 1) =~= v);
}

} // verus!
