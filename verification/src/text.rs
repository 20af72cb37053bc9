//! Tokenization of message text: splitting on runs of whitespace and
//! joining tokens back with single spaces.

use vstd::prelude::*;

verus! {

/// A whitespace character for the purposes of command tokenization.
pub open spec fn is_space(c: char) -> bool {
    c == ' ' || c == '\t' || c == '\n' || c == '\r'
}

/// Length of the maximal run of non-space characters at the front of `s`.
pub open spec fn token_len(s: Seq<char>) -> nat
    decreases s.len(),
{
    if s.len() == 0 || is_space(s[0]) {
        0
    } else {
        (1 + token_len(s.skip(1))) as nat
    }
}

pub proof fn lemma_token_len(s: Seq<char>)
    ensures
        token_len(s) <= s.len(),
        forall|j: int| 0 <= j < token_len(s) ==> !is_space(#[trigger] s[j]),
        token_len(s) < s.len() ==> is_space(s[token_len(s) as int]),
    decreases s.len(),
{
    if s.len() == 0 || is_space(s[0]) {
    } else {
        lemma_token_len(s.skip(1));
        assert forall|j: int| 0 <= j < token_len(s) implies !is_space(#[trigger] s[j]) by {
            if j >= 1 {
                assert(s.skip(1)[j - 1] == s[j]);
                assert(!is_space(s.skip(1)[j - 1]));
            }
        }
        if token_len(s) < s.len() {
            assert(s.skip(1)[token_len(s) - 1] == s[token_len(s) as int]);
        }
    }
}

/// The front token run has length `k` exactly when the first `k` characters
/// are non-space and the run stops there (end of string or a space).
pub proof fn lemma_token_len_is(s: Seq<char>, k: int)
    requires
        0 <= k <= s.len(),
        forall|j: int| 0 <= j < k ==> !is_space(#[trigger] s[j]),
        k < s.len() ==> is_space(s[k]),
    ensures
        token_len(s) == k,
    decreases s.len(),
{
    if k == 0 {
    } else {
        assert(!is_space(s[0]));
        assert forall|j: int| 0 <= j < k - 1 implies !is_space(#[trigger] s.skip(1)[j]) by {
            assert(s.skip(1)[j] == s[j + 1]);
        }
        if k - 1 < s.skip(1).len() {
            assert(s.skip(1)[k - 1] == s[k]);
        }
        lemma_token_len_is(s.skip(1), k - 1);
    }
}

/// The whitespace-separated tokens of `s`: the maximal runs of non-space
/// characters, in order. Runs of consecutive spaces produce no tokens.
pub open spec fn spec_tokens(s: Seq<char>) -> Seq<Seq<char>>
    decreases s.len(),
    via spec_tokens_decreases
{
    if s.len() == 0 {
        Seq::empty()
    } else if is_space(s[0]) {
        spec_tokens(s.skip(1))
    } else {
        seq![s.take(token_len(s) as int)] + spec_tokens(s.skip(token_len(s) as int))
    }
}

#[via_fn]
proof fn spec_tokens_decreases(s: Seq<char>) {
    lemma_token_len(s);
}

/// Every token is non-empty and contains no whitespace.
pub proof fn lemma_tokens_wf(s: Seq<char>)
    ensures
        forall|i: int| 0 <= i < spec_tokens(s).len() ==> (#[trigger] spec_tokens(s)[i]).len() > 0,
        forall|i: int, j: int|
            0 <= i < spec_tokens(s).len() && 0 <= j < spec_tokens(s)[i].len()
                ==> !is_space(#[trigger] spec_tokens(s)[i][j]),
    decreases s.len(),
{
    lemma_token_len(s);
    if s.len() == 0 {
    } else if is_space(s[0]) {
        lemma_tokens_wf(s.skip(1));
        assert(spec_tokens(s) == spec_tokens(s.skip(1)));
    } else {
        let k = token_len(s) as int;
        let head = s.take(k);
        let rest = spec_tokens(s.skip(k));
        lemma_tokens_wf(s.skip(k));
        assert forall|i: int| 0 <= i < spec_tokens(s).len() implies (#[trigger] spec_tokens(s)[i]).len()
            > 0 by {
            if i == 0 {
                assert(spec_tokens(s)[0] == head);
            } else {
                assert(spec_tokens(s)[i] == rest[i - 1]);
            }
        }
        assert forall|i: int, j: int|
            0 <= i < spec_tokens(s).len() && 0 <= j < spec_tokens(s)[i].len() implies !is_space(
            #[trigger] spec_tokens(s)[i][j],
        ) by {
            if i == 0 {
                assert(spec_tokens(s)[0] == head);
                assert(head[j] == s[j]);
            } else {
                assert(spec_tokens(s)[i] == rest[i - 1]);
            }
        }
    }
}

/// The tokens joined back into one string with a single space between
/// consecutive tokens.
pub open spec fn spec_join(toks: Seq<Seq<char>>) -> Seq<char>
    decreases toks.len(),
{
    if toks.len() == 0 {
        Seq::empty()
    } else if toks.len() == 1 {
        toks[0]
    } else {
        toks[0] + seq![' '] + spec_join(toks.skip(1))
    }
}

/// Splitting is a left inverse of joining: joining non-empty, space-free
/// tokens with single spaces and tokenizing the result yields the same
/// token sequence.
pub proof fn lemma_tokens_of_join(toks: Seq<Seq<char>>)
    requires
        forall|i: int| 0 <= i < toks.len() ==> (#[trigger] toks[i]).len() > 0,
        forall|i: int, j: int|
            0 <= i < toks.len() && 0 <= j < toks[i].len() ==> !is_space(#[trigger] toks[i][j]),
    ensures
        spec_tokens(spec_join(toks)) == toks,
    decreases toks.len(),
{
    let s = spec_join(toks);
    if toks.len() == 0 {
        assert(spec_tokens(s) =~= toks);
    } else if toks.len() == 1 {
        let t = toks[0];
        assert(t.len() > 0);
        assert forall|j: int| 0 <= j < t.len() implies !is_space(#[trigger] t[j]) by {
            assert(!is_space(toks[0][j]));
        }
        lemma_token_len_is(t, t.len() as int);
        assert(s == t);
        assert(!is_space(s[0]));
        assert(t.take(t.len() as int) =~= t);
        assert(t.skip(t.len() as int) =~= Seq::<char>::empty());
        assert(spec_tokens(Seq::<char>::empty()) =~= Seq::<Seq<char>>::empty());
        assert(spec_tokens(s) == seq![s.take(token_len(s) as int)] + spec_tokens(
            s.skip(token_len(s) as int),
        ));
        assert(s.take(token_len(s) as int) == t.take(t.len() as int));
        assert(spec_tokens(s) =~= toks);
    } else {
        let t = toks[0];
        let k = t.len() as int;
        let rest = toks.skip(1);
        assert(s == t + seq![' '] + spec_join(rest));
        assert forall|j: int| 0 <= j < k implies !is_space(#[trigger] s[j]) by {
            assert(s[j] == t[j]);
        }
        assert(s[k] == ' ');
        lemma_token_len_is(s, k);
        assert(s.take(k) =~= t);
        assert(s.skip(k)[0] == ' ');
        assert(s.skip(k).skip(1) =~= spec_join(rest));
        assert(spec_tokens(s.skip(k)) == spec_tokens(spec_join(rest)));
        assert forall|i: int, j: int|
            0 <= i < rest.len() && 0 <= j < rest[i].len() implies !is_space(
            #[trigger] rest[i][j],
        ) by {
            assert(rest[i] == toks[i + 1]);
        }
        lemma_tokens_of_join(rest);
        assert(spec_tokens(s) =~= seq![t] + rest);
        assert(seq![t] + rest =~= toks);
    }
}

pub fn is_space_char(c: char) -> (b: bool)
    ensures
        b == is_space(c),
{
    c == ' ' || c == '\t' || c == '\n' || c == '\r'
}

/// Character-for-character string equality.
pub fn str_eq(a: &str, b: &str) -> (r: bool)
    ensures
        r == (a@ == b@),
{
    let n = a.unicode_len();
    let m = b.unicode_len();
    if n != m {
        return false;
    }
    let mut i: usize = 0;
    while i < n
        invariant
            n == a@.len(),
            n == b@.len(),
            0 <= i <= n,
            forall|k: int| 0 <= k < i ==> a@[k] == b@[k],
        decreases n - i,
    {
        if a.get_char(i) != b.get_char(i) {
            return false;
        }
        i += 1;
    }
    proof {
        assert(a@ =~= b@);
    }
    true
}

/// Splits `s` into its whitespace-separated tokens.
pub fn tokenize(s: &str) -> (toks: Vec<String>)
    ensures
        toks@.map_values(|t: String| t@) == spec_tokens(s@),
{
    let n = s.unicode_len();
    let mut toks: Vec<String> = Vec::new();
    let mut i: usize = 0;
    proof {
        assert(toks@.map_values(|t: String| t@) =~= Seq::<Seq<char>>::empty());
        assert(s@.skip(0) =~= s@);
    }
    while i < n
        invariant
            n == s@.len(),
            0 <= i <= n,
            spec_tokens(s@) == toks@.map_values(|t: String| t@) + spec_tokens(s@.skip(i as int)),
        decreases n - i,
    {
        let c = s.get_char(i);
        if is_space_char(c) {
            proof {
                assert(s@.skip(i as int)[0] == s@[i as int]);
                assert(s@.skip(i as int).skip(1) =~= s@.skip(i as int + 1));
            }
            i += 1;
        } else {
            let start = i;
            let mut j = i + 1;
            while j < n
                invariant
                    n == s@.len(),
                    start < j <= n,
                    forall|m: int| start <= m < j ==> !is_space(#[trigger] s@[m]),
                ensures
                    start < j <= n,
                    forall|m: int| start <= m < j ==> !is_space(#[trigger] s@[m]),
                    j == n || is_space(s@[j as int]),
                decreases n - j,
            {
                if is_space_char(s.get_char(j)) {
                    break ;
                }
                j += 1;
            }
            let ghost pre = s@.skip(start as int);
            proof {
                assert forall|m: int| 0 <= m < j - start implies !is_space(#[trigger] pre[m]) by {
                    assert(pre[m] == s@[m + start]);
                }
                if j < n {
                    assert(pre[j - start] == s@[j as int]);
                }
                lemma_token_len_is(pre, j as int - start as int);
            }
            let tok_str = s.substring_char(start, j);
            let tok = tok_str.to_owned();
            let ghost toks_pre = toks@;
            toks.push(tok);
            proof {
                let f = |t: String| t@;
                assert(toks@.map_values(f) =~= toks_pre.map_values(f).push(tok@));
                assert(pre.take(j as int - start as int) =~= s@.subrange(
                    start as int,
                    j as int,
                ));
                assert(pre.skip(j as int - start as int) =~= s@.skip(j as int));
                assert(spec_tokens(pre) == seq![pre.take(token_len(pre) as int)] + spec_tokens(
                    pre.skip(token_len(pre) as int),
                ));
                assert(toks@.map_values(f) + spec_tokens(s@.skip(j as int)) =~= toks_pre.map_values(
                    f,
                ) + spec_tokens(pre));
            }
            i = j;
        }
    }
    proof {
        assert(spec_tokens(s@.skip(n as int)) =~= Seq::<Seq<char>>::empty());
        assert(toks@.map_values(|t: String| t@) + Seq::<Seq<char>>::empty() =~= toks@.map_values(
            |t: String| t@,
        ));
    }
    toks
}

/// Appending one more token joins it after a single space, unless it is the
/// first token.
pub proof fn lemma_join_push(ts: Seq<Seq<char>>, t: Seq<char>)
    ensures
        spec_join(ts.push(t)) == if ts.len() == 0 {
            t
        } else {
            spec_join(ts) + seq![' '] + t
        },
    decreases ts.len(),
{
    if ts.len() == 0 {
        assert(ts.push(t)[0] == t);
    } else if ts.len() == 1 {
        assert(ts.push(t).skip(1) =~= seq![t]);
        assert(spec_join(seq![t]) == t);
        assert(ts.push(t)[0] == ts[0]);
    } else {
        assert(ts.push(t).skip(1) =~= ts.skip(1).push(t));
        lemma_join_push(ts.skip(1), t);
        assert(ts.push(t)[0] == ts[0]);
        assert(spec_join(ts.push(t)) == ts[0] + seq![' '] + spec_join(ts.skip(1).push(t)));
        assert(spec_join(ts) + seq![' '] + t =~= ts[0] + seq![' '] + (spec_join(ts.skip(1))
            + seq![' '] + t));
    }
}

/// Joins the tokens with single spaces between consecutive tokens.
pub fn join_spaces(toks: &Vec<String>) -> (r: String)
    ensures
        r@ == spec_join(toks@.map_values(|t: String| t@)),
{
    let ghost vs = toks@.map_values(|t: String| t@);
    let mut r = String::new();
    let mut i: usize = 0;
    proof {
        assert(vs.take(0) =~= Seq::<Seq<char>>::empty());
    }
    while i < toks.len()
        invariant
            toks@.map_values(|t: String| t@) == vs,
            0 <= i <= toks.len(),
            r@ == spec_join(vs.take(i as int)),
        decreases toks.len() - i,
    {
        if i > 0 {
            r.append(" ");
            proof {
                reveal_strlit(" ");
            }
        }
        r.append(toks[i].as_str());
        proof {
            assert(vs.take(i as int).push(vs[i as int]) =~= vs.take(i as int + 1));
            lemma_join_push(vs.take(i as int), vs[i as int]);
            if i > 0 {
                assert(r@ =~= spec_join(vs.take(i as int)) + seq![' '] + vs[i as int]);
            }
        }
        i += 1;
    }
    proof {
        assert(vs.take(toks@.len() as int) =~= vs);
    }
    r
}

} // verus!
