use vstd::prelude::*;

verus! {

/// Characters with the Unicode `White_Space` property.
pub open spec fn is_white_space(c: char) -> bool {
    let u = c as u32;
    (0x09 <= u && u <= 0x0d) || u == 0x20 || u == 0x85 || u == 0xa0 || u == 0x1680 || (0x2000
        <= u && u <= 0x200a) || u == 0x2028 || u == 0x2029 || u == 0x202f || u == 0x205f || u
        == 0x3000
}

/// Whether `c` has the Unicode `White_Space` property.
fn char_is_white_space(c: char) -> (r: bool)
    ensures
        r == is_white_space(c),
{
    let u = c as u32;
    (0x09 <= u && u <= 0x0d) || u == 0x20 || u == 0x85 || u == 0xa0 || u == 0x1680 || (0x2000
        <= u && u <= 0x200a) || u == 0x2028 || u == 0x2029 || u == 0x202f || u == 0x205f || u
        == 0x3000
}

/// Relies on str::chars, collected: the characters of the string in order.
#[verifier::external_body]
pub(crate) fn chars_of(s: &str) -> (r: Vec<char>)
    ensures
        r@ == s@,
{
    s.chars().collect()
}

/// Relies on String::push: appends one character.
#[verifier::external_body]
pub(crate) fn push_char(s: &mut String, c: char)
    ensures
        final(s)@ == old(s)@.push(c),
{
    s.push(c)
}

/// Whether `s` starts with the line-break markup `<br>`.
pub open spec fn starts_with_break(s: Seq<char>) -> bool {
    s.len() >= 4 && s[0] == '<' && s[1] == 'b' && s[2] == 'r' && s[3] == '>'
}

/// Length of the separator that `s` starts with: 4 for `<br>`, 1 for a
/// whitespace character, 0 when `s` starts with neither.
pub open spec fn sep_len(s: Seq<char>) -> nat {
    if starts_with_break(s) {
        4
    } else if s.len() > 0 && is_white_space(s[0]) {
        1
    } else {
        0
    }
}

/// `s` with every double-quote character removed.
pub open spec fn strip_quotes(s: Seq<char>) -> Seq<char>
    decreases s.len(),
{
    if s.len() == 0 {
        s
    } else if s[0] == '"' {
        strip_quotes(s.skip(1))
    } else {
        seq![s[0]] + strip_quotes(s.skip(1))
    }
}

/// `s` with each maximal run of separators replaced by one space.
pub open spec fn collapse(s: Seq<char>) -> Seq<char>
    decreases s.len(),
{
    if s.len() == 0 {
        s
    } else if sep_len(s) > 0 {
        let t = s.skip(sep_len(s) as int);
        if sep_len(t) > 0 {
            collapse(t)
        } else {
            seq![' '] + collapse(t)
        }
    } else {
        seq![s[0]] + collapse(s.skip(1))
    }
}

/// `t` without one leading and one trailing space.
pub open spec fn trim_space(t: Seq<char>) -> Seq<char> {
    let a = if t.len() > 0 && t[0] == ' ' {
        t.skip(1)
    } else {
        t
    };
    if a.len() > 0 && a.last() == ' ' {
        a.drop_last()
    } else {
        a
    }
}

/// The canonical form of a review text: quotes removed, separator runs
/// collapsed to one space, no space at either end.
pub open spec fn normalize_spec(s: Seq<char>) -> Seq<char> {
    trim_space(collapse(strip_quotes(s)))
}

/// No character of `s` is a double quote.
pub open spec fn quote_free(s: Seq<char>) -> bool {
    forall|i: int| 0 <= i < s.len() ==> s[i] != '"'
}

/// Every separator of `s` is a single space followed by a non-separator,
/// and `s` holds no double quote.
pub open spec fn spaced(s: Seq<char>) -> bool
    decreases s.len(),
{
    if s.len() == 0 {
        true
    } else if sep_len(s) == 0 {
        s[0] != '"' && spaced(s.skip(1))
    } else {
        s[0] == ' ' && sep_len(s.skip(1)) == 0 && spaced(s.skip(1))
    }
}

/// A text in canonical form: separators are single spaces between other
/// characters, with none at either end, and no double quote.
pub open spec fn is_normalized(s: Seq<char>) -> bool {
    spaced(s) && (s.len() > 0 ==> s[0] != ' ' && s.last() != ' ')
}

/// Length of the separator at position `j` of `v`.
fn sep_len_at(v: &Vec<char>, j: usize) -> (k: usize)
    requires
        j <= v@.len(),
    ensures
        k as nat == sep_len(v@.skip(j as int)),
{
    let n = v.len();
    if n >= 4 && j <= n - 4 && v[j] == '<' && v[j + 1] == 'b' && v[j + 2] == 'r' && v[j + 3] == '>' {
        4
    } else if j < n && char_is_white_space(v[j]) {
        1
    } else {
        0
    }
}

/// Brings raw review text to its canonical form: double quotes are removed,
/// each run of whitespace and `<br>` markup becomes one space, and spaces at
/// either end are dropped.
pub fn normalize(raw: &str) -> (r: String)
    ensures
        r@ == normalize_spec(raw@),
        is_normalized(r@),
        quote_free(r@),
{
    let s = chars_of(raw);
    let mut q: Vec<char> = Vec::new();
    let mut i: usize = 0;
    assert(s@.skip(0) =~= s@);
    assert(q@ + strip_quotes(s@) =~= strip_quotes(s@));
    while i < s.len()
        invariant
            i <= s@.len(),
            q@ + strip_quotes(s@.skip(i as int)) == strip_quotes(s@),
        decreases s@.len() - i,
    {
        let ghost rest = s@.skip(i as int);
        assert(rest.skip(1) =~= s@.skip(i + 1));
        if s[i] != '"' {
            assert(q@.push(s[i as int]) + strip_quotes(s@.skip(i + 1)) =~= q@ + strip_quotes(rest));
            q.push(s[i]);
        }
        i += 1;
    }
    assert(s@.skip(i as int) =~= Seq::<char>::empty());
    assert(q@ + Seq::<char>::empty() =~= q@);
    let mut c: Vec<char> = Vec::new();
    let mut j: usize = 0;
    assert(q@.skip(0) =~= q@);
    assert(c@ + collapse(q@) =~= collapse(q@));
    while j < q.len()
        invariant
            j <= q@.len(),
            c@ + collapse(q@.skip(j as int)) == collapse(q@),
        decreases q@.len() - j,
    {
        let ghost rest = q@.skip(j as int);
        let k = sep_len_at(&q, j);
        if k > 0 {
            let next = j + k;
            assert(rest.skip(k as int) =~= q@.skip(next as int));
            if sep_len_at(&q, next) == 0 {
                assert(c@.push(' ') + collapse(q@.skip(next as int)) =~= c@ + (seq![' ']
                    + collapse(q@.skip(next as int))));
                c.push(' ');
            }
            j = next;
        } else {
            assert(rest.skip(1) =~= q@.skip(j + 1));
            assert(c@.push(q[j as int]) + collapse(q@.skip(j + 1)) =~= c@ + (seq![q[j as int]]
                + collapse(q@.skip(j + 1))));
            c.push(q[j]);
            j += 1;
        }
    }
    assert(q@.skip(j as int) =~= Seq::<char>::empty());
    assert(c@ + Seq::<char>::empty() =~= c@);
    let n = c.len();
    let start: usize = if n > 0 && c[0] == ' ' {
        1
    } else {
        0
    };
    let end: usize = if n > start && c[n - 1] == ' ' {
        n - 1
    } else {
        n
    };
    let mut r = String::new();
    let mut m: usize = start;
    while m < end
        invariant
            start <= m <= end <= n == c@.len(),
            r@ == c@.subrange(start as int, m as int),
        decreases end - m,
    {
        assert(c@.subrange(start as int, m + 1) =~= c@.subrange(start as int, m as int).push(
            c@[m as int],
        ));
        push_char(&mut r, c[m]);
        m += 1;
    }
    assert(r@ =~= trim_space(c@));
    proof {
        lemma_normalize_is_normalized(raw@);
        lemma_spaced_quote_free(r@);
    }
    r
}

proof fn lemma_strip_quotes_quote_free(s: Seq<char>)
    ensures
        quote_free(strip_quotes(s)),
    decreases s.len(),
{
    if s.len() > 0 {
        lemma_strip_quotes_quote_free(s.skip(1));
        let t = strip_quotes(s.skip(1));
        if s[0] != '"' {
            assert forall|i: int| 0 <= i < 1 + t.len() implies (seq![s[0]] + t)[i] != '"' by {
                if i > 0 {
                    assert((seq![s[0]] + t)[i] == t[i - 1]);
                }
            }
        }
    }
}

proof fn lemma_spaced_quote_free(s: Seq<char>)
    requires
        spaced(s),
    ensures
        quote_free(s),
    decreases s.len(),
{
    if s.len() > 0 {
        lemma_spaced_quote_free(s.skip(1));
        assert forall|i: int| 0 <= i < s.len() implies s[i] != '"' by {
            if i > 0 {
                assert(s[i] == s.skip(1)[i - 1]);
            }
        }
    }
}

proof fn lemma_collapse_sep_head(t: Seq<char>)
    requires
        sep_len(t) > 0,
    ensures
        collapse(t).len() > 0,
        collapse(t)[0] == ' ',
    decreases t.len(),
{
    let u = t.skip(sep_len(t) as int);
    if sep_len(u) > 0 {
        lemma_collapse_sep_head(u);
    }
}

proof fn lemma_collapse_head(t: Seq<char>)
    requires
        collapse(t).len() > 0,
        collapse(t)[0] != ' ',
    ensures
        t.len() > 0,
        sep_len(t) == 0,
        collapse(t)[0] == t[0],
        collapse(t).skip(1) == collapse(t.skip(1)),
{
    if t.len() == 0 {
    } else if sep_len(t) > 0 {
        lemma_collapse_sep_head(t);
    } else {
        assert(collapse(t).skip(1) =~= collapse(t.skip(1)));
    }
}

/// Collapsing a quote-free text yields a spaced one, and it starts with a
/// separator only where the text does.
proof fn lemma_collapse_spaced(s: Seq<char>)
    requires
        quote_free(s),
    ensures
        spaced(collapse(s)),
        sep_len(collapse(s)) > 0 ==> sep_len(s) > 0,
    decreases s.len(),
{
    if s.len() == 0 {
    } else if sep_len(s) > 0 {
        let t = s.skip(sep_len(s) as int);
        assert(quote_free(t)) by {
            assert forall|i: int| 0 <= i < t.len() implies t[i] != '"' by {
                assert(t[i] == s[i + sep_len(s)]);
            }
        }
        lemma_collapse_spaced(t);
        if sep_len(t) == 0 {
            let c = seq![' '] + collapse(t);
            assert(c.skip(1) =~= collapse(t));
            if collapse(t).len() > 0 {
                assert(c[1] == collapse(t)[0]);
            }
        }
    } else {
        let t = s.skip(1);
        assert(quote_free(t)) by {
            assert forall|i: int| 0 <= i < t.len() implies t[i] != '"' by {
                assert(t[i] == s[i + 1]);
            }
        }
        lemma_collapse_spaced(t);
        let c = seq![s[0]] + collapse(t);
        assert(c.skip(1) =~= collapse(t));
        if starts_with_break(c) {
            lemma_collapse_head(t);
            lemma_collapse_head(t.skip(1));
            assert(collapse(t.skip(1))[0] == c[2]);
            assert(collapse(t.skip(1)).skip(1) == collapse(t.skip(1).skip(1)));
            assert(collapse(t.skip(1).skip(1))[0] == c[3]);
            lemma_collapse_head(t.skip(1).skip(1));
            assert(starts_with_break(s));
        }
    }
}

/// A spaced text is left as it is by quote removal and collapsing.
proof fn lemma_spaced_fixed(s: Seq<char>)
    requires
        spaced(s),
    ensures
        strip_quotes(s) == s,
        collapse(s) == s,
    decreases s.len(),
{
    if s.len() > 0 {
        lemma_spaced_fixed(s.skip(1));
        assert(seq![s[0]] + s.skip(1) =~= s);
    }
}

/// The last two characters of a spaced text are not both spaces.
proof fn lemma_spaced_no_double_end(s: Seq<char>)
    requires
        spaced(s),
        s.len() >= 2,
        s.last() == ' ',
    ensures
        s[s.len() - 2] != ' ',
    decreases s.len(),
{
    if s.len() > 2 {
        lemma_spaced_no_double_end(s.skip(1));
        assert(s.skip(1)[s.len() - 3] == s[s.len() - 2]);
    } else if s[0] == ' ' {
        assert(s.skip(1)[0] == ' ');
    }
}

proof fn lemma_spaced_drop_last(s: Seq<char>)
    requires
        spaced(s),
        s.len() > 0,
    ensures
        spaced(s.drop_last()),
    decreases s.len(),
{
    let d = s.drop_last();
    if s.len() > 1 {
        lemma_spaced_drop_last(s.skip(1));
        assert(d.skip(1) =~= s.skip(1).drop_last());
        assert(d[0] == s[0]);
        if sep_len(s) == 0 {
            assert(sep_len(d) == 0);
        } else {
            let e = s.skip(1).drop_last();
            if e.len() > 0 {
                assert(e[0] == s.skip(1)[0]);
                assert(sep_len(e) == 0);
            }
        }
    }
}

/// The result of normalization is in canonical form.
pub proof fn lemma_normalize_is_normalized(s: Seq<char>)
    ensures
        is_normalized(normalize_spec(s)),
{
    let q = strip_quotes(s);
    lemma_strip_quotes_quote_free(s);
    let c = collapse(q);
    lemma_collapse_spaced(q);
    let a = if c.len() > 0 && c[0] == ' ' {
        c.skip(1)
    } else {
        c
    };
    assert(spaced(a));
    assert(a.len() > 0 ==> a[0] != ' ');
    let r = trim_space(c);
    if a.len() > 0 && a.last() == ' ' {
        lemma_spaced_drop_last(a);
        if a.len() >= 2 {
            lemma_spaced_no_double_end(a);
        }
    }
    assert(r.len() > 0 ==> r[0] == a[0]);
}

/// A text in canonical form is its own normalization.
pub proof fn lemma_normalized_fixed(s: Seq<char>)
    requires
        is_normalized(s),
    ensures
        normalize_spec(s) == s,
{
    lemma_spaced_fixed(s);
}

/// Normalization is idempotent: normalizing a normalized text changes nothing.
pub proof fn lemma_normalize_idempotent(s: Seq<char>)
    ensures
        normalize_spec(normalize_spec(s)) == normalize_spec(s),
{
    lemma_normalize_is_normalized(s);
    lemma_normalized_fixed(normalize_spec(s));
}

} // verus!
