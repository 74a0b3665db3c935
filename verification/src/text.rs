//! Plain-text building blocks: pluralization and decimal rendering.
use vstd::prelude::*;
use vstd::multiset::Multiset;
use vstd::string::*;

verus! {

/// The decimal digit character for a value below ten.
pub open spec fn digit_char(d: int) -> char {
    if d == 0 {
        '0'
    } else if d == 1 {
        '1'
    } else if d == 2 {
        '2'
    } else if d == 3 {
        '3'
    } else if d == 4 {
        '4'
    } else if d == 5 {
        '5'
    } else if d == 6 {
        '6'
    } else if d == 7 {
        '7'
    } else if d == 8 {
        '8'
    } else {
        '9'
    }
}

/// The usual decimal rendering of a natural number, most significant digit first,
/// with no leading zeros (a single `'0'` for zero).
pub open spec fn dec_str(n: nat) -> Seq<char>
    decreases n,
{
    if n < 10 {
        seq![digit_char(n as int)]
    } else {
        dec_str(n / 10).push(digit_char((n % 10) as int))
    }
}

fn digit_str(d: u64) -> (s: &'static str)
    requires
        d < 10,
    ensures
        s@ =~= seq![digit_char(d as int)],
{
    proof {
        reveal_strlit("0");
        reveal_strlit("1");
        reveal_strlit("2");
        reveal_strlit("3");
        reveal_strlit("4");
        reveal_strlit("5");
        reveal_strlit("6");
        reveal_strlit("7");
        reveal_strlit("8");
        reveal_strlit("9");
    }
    match d {
        0 => "0",
        1 => "1",
        2 => "2",
        3 => "3",
        4 => "4",
        5 => "5",
        6 => "6",
        7 => "7",
        8 => "8",
        _ => "9",
    }
}

/// Renders a number in decimal.
pub fn u64_to_string(n: u64) -> (s: String)
    ensures
        s@ == dec_str(n as nat),
    decreases n,
{
    if n < 10 {
        String::from_str(digit_str(n))
    } else {
        let mut s = u64_to_string(n / 10);
        s.append(digit_str(n % 10));
        proof {
            assert(s@ =~= dec_str((n / 10) as nat).push(digit_char((n % 10) as int)));
        }
        s
    }
}

/// What `strip_str` returns: the input unchanged when it fits within the limit;
/// otherwise a truncation, with a trailing `...` marker when one was asked for.
/// With a marker, a limit below four admits no safe truncation, so nothing comes back.
pub open spec fn strip_spec(s: Seq<char>, lim: int, add_ellipsis: bool) -> Option<Seq<char>> {
    if add_ellipsis {
        if lim < 4 {
            None
        } else if s.len() <= lim {
            Some(s)
        } else {
            Some(s.take(lim - 3) + "..."@)
        }
    } else {
        if s.len() <= lim {
            Some(s)
        } else {
            Some(s.take(lim))
        }
    }
}

/// Caps a string at `lim` characters, optionally marking the cut with `...`
/// (the marker counts against the limit).
pub fn strip_str(s: &str, lim: usize, add_ellipsis: bool) -> (r: Option<String>)
    ensures
        match r {
            Some(t) => strip_spec(s@, lim as int, add_ellipsis) == Some(t@),
            None => strip_spec(s@, lim as int, add_ellipsis) is None,
        },
{
    if add_ellipsis {
        if lim < 4 {
            return None;
        }
        let n = s.unicode_len();
        if n <= lim {
            Some(s.to_owned())
        } else {
            let mut t = s.substring_char(0, lim - 3).to_owned();
            t.append("...");
            proof {
                assert(t@ =~= s@.take(lim - 3) + "..."@);
            }
            Some(t)
        }
    } else {
        let n = s.unicode_len();
        if n <= lim {
            Some(s.to_owned())
        } else {
            proof {
                assert(s@.subrange(0, lim as int) =~= s@.take(lim as int));
            }
            Some(s.substring_char(0, lim).to_owned())
        }
    }
}

/// ASCII case folding of one character: an upper-case letter becomes its
/// lower-case counterpart; everything else stays as it is.
pub open spec fn lower_char(c: char) -> char {
    if c == 'A' {
        'a'
    } else if c == 'B' {
        'b'
    } else if c == 'C' {
        'c'
    } else if c == 'D' {
        'd'
    } else if c == 'E' {
        'e'
    } else if c == 'F' {
        'f'
    } else if c == 'G' {
        'g'
    } else if c == 'H' {
        'h'
    } else if c == 'I' {
        'i'
    } else if c == 'J' {
        'j'
    } else if c == 'K' {
        'k'
    } else if c == 'L' {
        'l'
    } else if c == 'M' {
        'm'
    } else if c == 'N' {
        'n'
    } else if c == 'O' {
        'o'
    } else if c == 'P' {
        'p'
    } else if c == 'Q' {
        'q'
    } else if c == 'R' {
        'r'
    } else if c == 'S' {
        's'
    } else if c == 'T' {
        't'
    } else if c == 'U' {
        'u'
    } else if c == 'V' {
        'v'
    } else if c == 'W' {
        'w'
    } else if c == 'X' {
        'x'
    } else if c == 'Y' {
        'y'
    } else if c == 'Z' {
        'z'
    } else {
        c
    }
}

/// ASCII case folding of a whole string, character by character.
pub open spec fn lower_seq(s: Seq<char>) -> Seq<char> {
    s.map_values(|c: char| lower_char(c))
}

/// A string is folded when case folding would not change it.
pub open spec fn is_lower(s: Seq<char>) -> bool {
    lower_seq(s) == s
}

fn lower_char_str(c: char) -> (s: &'static str)
    ensures
        lower_char(c) != c ==> s@ =~= seq![lower_char(c)],
        lower_char(c) == c ==> s@ =~= Seq::<char>::empty(),
{
    proof {
        reveal_strlit("");
        reveal_strlit("a");
        reveal_strlit("b");
        reveal_strlit("c");
        reveal_strlit("d");
        reveal_strlit("e");
        reveal_strlit("f");
        reveal_strlit("g");
        reveal_strlit("h");
        reveal_strlit("i");
        reveal_strlit("j");
        reveal_strlit("k");
        reveal_strlit("l");
        reveal_strlit("m");
        reveal_strlit("n");
        reveal_strlit("o");
        reveal_strlit("p");
        reveal_strlit("q");
        reveal_strlit("r");
        reveal_strlit("s");
        reveal_strlit("t");
        reveal_strlit("u");
        reveal_strlit("v");
        reveal_strlit("w");
        reveal_strlit("x");
        reveal_strlit("y");
        reveal_strlit("z");
    }
    match c {
        'A' => "a",
        'B' => "b",
        'C' => "c",
        'D' => "d",
        'E' => "e",
        'F' => "f",
        'G' => "g",
        'H' => "h",
        'I' => "i",
        'J' => "j",
        'K' => "k",
        'L' => "l",
        'M' => "m",
        'N' => "n",
        'O' => "o",
        'P' => "p",
        'Q' => "q",
        'R' => "r",
        'S' => "s",
        'T' => "t",
        'U' => "u",
        'V' => "v",
        'W' => "w",
        'X' => "x",
        'Y' => "y",
        'Z' => "z",
        _ => "",
    }
}

/// Folds a string to lower case, ASCII letters only.
pub fn lower_str(s: &str) -> (r: String)
    ensures
        r@ == lower_seq(s@),
{
    let n = s.unicode_len();
    let mut r = String::new();
    let mut i: usize = 0;
    while i < n
        invariant
            n == s@.len(),
            0 <= i <= n,
            r@ =~= lower_seq(s@.take(i as int)),
        decreases n - i,
    {
        let c = s.get_char(i);
        let lowered = lower_char_str(c);
        if lowered.is_empty() {
            // not an upper-case ASCII letter: keep the character as it is
            r.append(s.substring_char(i, i + 1));
            proof {
                assert(s@.subrange(i as int, i + 1) =~= seq![s@[i as int]]);
                assert(lower_char(c) == c);
            }
        } else {
            r.append(lowered);
        }
        proof {
            assert(lower_seq(s@.take(i + 1)) =~= lower_seq(s@.take(i as int)).push(
                lower_char(s@[i as int]),
            ));
        }
        i = i + 1;
    }
    proof {
        assert(s@.take(n as int) =~= s@);
    }
    r
}

/// Folding is idempotent: a second pass changes nothing. The registry lookup
/// folds its token, so any two spellings with the same folded form resolve alike.
pub proof fn lemma_lower_idempotent(s: Seq<char>)
    ensures
        lower_seq(lower_seq(s)) == lower_seq(s),
{
    assert forall|i: int| 0 <= i < s.len() implies lower_char(lower_char(s[i])) == lower_char(
        s[i],
    ) by {}
    assert(lower_seq(lower_seq(s)) =~= lower_seq(s));
}

/// The parts joined with the separator between each neighbouring pair.
pub open spec fn join_with(parts: Seq<Seq<char>>, sep: Seq<char>) -> Seq<char>
    decreases parts.len(),
{
    if parts.len() == 0 {
        Seq::empty()
    } else if parts.len() == 1 {
        parts[0]
    } else {
        parts[0] + sep + join_with(parts.drop_first(), sep)
    }
}

pub proof fn lemma_join_with_push(parts: Seq<Seq<char>>, sep: Seq<char>, x: Seq<char>)
    requires
        parts.len() >= 1,
    ensures
        join_with(parts.push(x), sep) == join_with(parts, sep) + sep + x,
    decreases parts.len(),
{
    if parts.len() == 1 {
        let p = parts.push(x);
        assert(p.len() == 2);
        assert(p.drop_first() =~= seq![x]);
        assert(seq![x].len() == 1 && seq![x][0] == x);
        assert(join_with(p.drop_first(), sep) == x);
        assert(p[0] == parts[0]);
        assert(join_with(p, sep) == parts[0] + sep + x);
        assert(join_with(parts, sep) == parts[0]);
    } else {
        assert(parts.push(x).drop_first() =~= parts.drop_first().push(x));
        lemma_join_with_push(parts.drop_first(), sep, x);
        assert(join_with(parts.push(x), sep) =~= join_with(parts, sep) + sep + x);
    }
}

/// Joins the strings with the separator.
pub fn join_with_sep(parts: &Vec<String>, sep: &str) -> (r: String)
    ensures
        r@ == join_with(parts.deep_view(), sep@),
{
    if parts.len() == 0 {
        return String::new();
    }
    let mut r = parts[0].clone();
    let mut i: usize = 1;
    proof {
        assert(parts.deep_view().take(1) =~= seq![parts.deep_view()[0]]);
    }
    while i < parts.len()
        invariant
            1 <= i <= parts.len(),
            parts.deep_view().len() == parts.len(),
            r@ == join_with(parts.deep_view().take(i as int), sep@),
        decreases parts.len() - i,
    {
        r.append(sep);
        r.append(parts[i].as_str());
        proof {
            let dv = parts.deep_view();
            lemma_join_with_push(dv.take(i as int), sep@, dv[i as int]);
            assert(dv.take(i + 1) =~= dv.take(i as int).push(dv[i as int]));
        }
        i = i + 1;
    }
    proof {
        assert(parts.deep_view().take(parts.len() as int) =~= parts.deep_view());
    }
    r
}

/// Lexicographic order on character sequences, by code point; the order in
/// which command names and aliases are listed.
pub open spec fn lex_le(a: Seq<char>, b: Seq<char>) -> bool
    decreases a.len(),
{
    if a.len() == 0 {
        true
    } else if b.len() == 0 {
        false
    } else if a[0] == b[0] {
        lex_le(a.drop_first(), b.drop_first())
    } else {
        (a[0] as int) < (b[0] as int)
    }
}

pub proof fn lemma_lex_le_common_prefix(a: Seq<char>, b: Seq<char>, i: int)
    requires
        0 <= i <= a.len(),
        i <= b.len(),
        forall|k: int| 0 <= k < i ==> a[k] == b[k],
    ensures
        lex_le(a, b) == lex_le(a.skip(i), b.skip(i)),
    decreases i,
{
    if i == 0 {
        assert(a.skip(0) =~= a);
        assert(b.skip(0) =~= b);
    } else {
        assert(a[0] == b[0]);
        assert(a.len() > 0 && b.len() > 0);
        assert(lex_le(a, b) == lex_le(a.drop_first(), b.drop_first()));
        assert forall|k: int| 0 <= k < i - 1 implies a.drop_first()[k] == b.drop_first()[k] by {
            assert(a[k + 1] == b[k + 1]);
        }
        lemma_lex_le_common_prefix(a.drop_first(), b.drop_first(), i - 1);
        assert(a.drop_first().skip(i - 1) =~= a.skip(i));
        assert(b.drop_first().skip(i - 1) =~= b.skip(i));
    }
}

/// Compares two strings lexicographically by code point, as `lex_le` states.
pub fn str_le(a: &str, b: &str) -> (r: bool)
    ensures
        r == lex_le(a@, b@),
{
    let na = a.unicode_len();
    let nb = b.unicode_len();
    let mut i: usize = 0;
    while i < na && i < nb
        invariant
            0 <= i <= na,
            i <= nb,
            na == a@.len(),
            nb == b@.len(),
            forall|k: int| 0 <= k < i ==> a@[k] == b@[k],
        decreases na - i,
    {
        let ca = a.get_char(i);
        let cb = b.get_char(i);
        if ca != cb {
            proof {
                lemma_lex_le_common_prefix(a@, b@, i as int);
                assert(a@.skip(i as int)[0] == ca && b@.skip(i as int)[0] == cb);
            }
            return (ca as u32) < (cb as u32);
        }
        i = i + 1;
    }
    proof {
        lemma_lex_le_common_prefix(a@, b@, i as int);
        if i == na {
            assert(a@.skip(i as int).len() == 0);
        } else {
            assert(b@.skip(i as int).len() == 0);
            assert(a@.skip(i as int).len() > 0);
        }
    }
    na <= nb
}

/// Where insertion sort puts a new element: before the first element it
/// compares less-or-equal to.
pub open spec fn insert_le(x: Seq<char>, s: Seq<Seq<char>>) -> Seq<Seq<char>>
    decreases s.len(),
{
    if s.len() == 0 {
        seq![x]
    } else if lex_le(x, s[0]) {
        seq![x] + s
    } else {
        seq![s[0]] + insert_le(x, s.drop_first())
    }
}

/// Insertion sort of a list of strings, defined from the back.
pub open spec fn sort_strings_spec(s: Seq<Seq<char>>) -> Seq<Seq<char>>
    decreases s.len(),
{
    if s.len() == 0 {
        s
    } else {
        insert_le(s[0], sort_strings_spec(s.drop_first()))
    }
}

pub proof fn lemma_insert_le_at(x: Seq<char>, s: Seq<Seq<char>>, i: int)
    requires
        0 <= i <= s.len(),
        forall|k: int| 0 <= k < i ==> !lex_le(x, s[k]),
        i < s.len() ==> lex_le(x, s[i]),
    ensures
        insert_le(x, s) == s.take(i) + seq![x] + s.skip(i),
    decreases i,
{
    if i == 0 {
        if s.len() == 0 {
            assert(insert_le(x, s) =~= s.take(0) + seq![x] + s.skip(0));
        } else {
            assert(lex_le(x, s[0]));
            assert(insert_le(x, s) =~= s.take(0) + seq![x] + s.skip(0));
        }
    } else {
        assert(!lex_le(x, s[0]));
        assert forall|k: int| 0 <= k < i - 1 implies !lex_le(x, s.drop_first()[k]) by {
            assert(s.drop_first()[k] == s[k + 1]);
        }
        if i - 1 < s.drop_first().len() {
            assert(s.drop_first()[i - 1] == s[i]);
        }
        lemma_insert_le_at(x, s.drop_first(), i - 1);
        assert(insert_le(x, s) =~= s.take(i) + seq![x] + s.skip(i));
    }
}

/// Inserts a string into an already-sorted list, keeping it sorted.
fn insert_string(v: &mut Vec<String>, x: String)
    ensures
        final(v).deep_view() == insert_le(x@, old(v).deep_view()),
{
    let n = v.len();
    let mut i: usize = 0;
    while i < n && !str_le(x.as_str(), v[i].as_str())
        invariant
            0 <= i <= n,
            n == v.len(),
            *v == *old(v),
            forall|k: int| 0 <= k < i ==> !lex_le(x@, v.deep_view()[k]),
        decreases n - i,
    {
        i = i + 1;
    }
    proof {
        lemma_insert_le_at(x@, v.deep_view(), i as int);
    }
    let ghost pre = v.deep_view();
    v.insert(i, x);
    proof {
        assert(v.deep_view() =~~= pre.take(i as int) + seq![x@] + pre.skip(i as int));
    }
}

/// Non-decreasing lexicographic order throughout.
pub open spec fn sorted_le(s: Seq<Seq<char>>) -> bool {
    forall|i: int, j: int| 0 <= i < j < s.len() ==> lex_le(#[trigger] s[i], #[trigger] s[j])
}

/// `lex_le` is total: of any two strings, one compares less-or-equal.
pub proof fn lemma_lex_le_total(a: Seq<char>, b: Seq<char>)
    ensures
        lex_le(a, b) || lex_le(b, a),
    decreases a.len(),
{
    if a.len() == 0 {
    } else if b.len() == 0 {
    } else if a[0] == b[0] {
        lemma_lex_le_total(a.drop_first(), b.drop_first());
    } else {
        assert((a[0] as int) != (b[0] as int));
    }
}

/// `lex_le` is transitive.
pub proof fn lemma_lex_le_trans(a: Seq<char>, b: Seq<char>, c: Seq<char>)
    requires
        lex_le(a, b),
        lex_le(b, c),
    ensures
        lex_le(a, c),
    decreases a.len(),
{
    if a.len() == 0 {
    } else if b.len() == 0 {
    } else if c.len() == 0 {
    } else if a[0] == b[0] && b[0] == c[0] {
        lemma_lex_le_trans(a.drop_first(), b.drop_first(), c.drop_first());
    } else {
        assert((a[0] as int) <= (b[0] as int) && (b[0] as int) <= (c[0] as int));
        assert(a[0] != c[0]);
    }
}

pub proof fn lemma_insert_le_multiset(x: Seq<char>, s: Seq<Seq<char>>)
    ensures
        insert_le(x, s).to_multiset() == s.to_multiset().insert(x),
    decreases s.len(),
{
    broadcast use vstd::seq_lib::group_to_multiset_ensures;

    if s.len() == 0 {
        assert(seq![x] =~= s.push(x));
    } else if lex_le(x, s[0]) {
        vstd::seq_lib::lemma_multiset_commutative(seq![x], s);
        assert(seq![x] =~= Seq::<Seq<char>>::empty().push(x));
        assert(Seq::<Seq<char>>::empty().to_multiset() =~= Multiset::<Seq<char>>::empty());
        assert(seq![x].to_multiset().add(s.to_multiset()) =~= s.to_multiset().insert(x));
    } else {
        let rest = insert_le(x, s.drop_first());
        lemma_insert_le_multiset(x, s.drop_first());
        vstd::seq_lib::lemma_multiset_commutative(seq![s[0]], rest);
        vstd::seq_lib::lemma_multiset_commutative(seq![s[0]], s.drop_first());
        assert(s =~= seq![s[0]] + s.drop_first());
        assert(seq![s[0]].to_multiset().add(rest.to_multiset()) =~= s.to_multiset().insert(x));
    }
}

/// Law: sorting a list of strings keeps exactly the strings of the input,
/// with their multiplicities.
pub proof fn lemma_sort_strings_permutes(s: Seq<Seq<char>>)
    ensures
        sort_strings_spec(s).to_multiset() == s.to_multiset(),
    decreases s.len(),
{
    broadcast use vstd::seq_lib::group_to_multiset_ensures;

    if s.len() == 0 {
    } else {
        lemma_sort_strings_permutes(s.drop_first());
        lemma_insert_le_multiset(s[0], sort_strings_spec(s.drop_first()));
        vstd::seq_lib::lemma_multiset_commutative(seq![s[0]], s.drop_first());
        assert(s =~= seq![s[0]] + s.drop_first());
        assert(seq![s[0]] =~= Seq::<Seq<char>>::empty().push(s[0]));
        assert(Seq::<Seq<char>>::empty().to_multiset() =~= Multiset::<Seq<char>>::empty());
        assert(sort_strings_spec(s).to_multiset() =~= s.to_multiset());
    }
}

pub proof fn lemma_insert_le_sorted(x: Seq<char>, s: Seq<Seq<char>>)
    requires
        sorted_le(s),
    ensures
        sorted_le(insert_le(x, s)),
    decreases s.len(),
{
    broadcast use vstd::seq_lib::group_to_multiset_ensures;

    if s.len() == 0 {
    } else if lex_le(x, s[0]) {
        let r = seq![x] + s;
        assert forall|i: int, j: int| 0 <= i < j < r.len() implies lex_le(
            #[trigger] r[i],
            #[trigger] r[j],
        ) by {
            if i == 0 {
                if j == 1 {
                } else {
                    lemma_lex_le_trans(x, s[0], s[j - 1]);
                }
            }
        }
    } else {
        let rest = insert_le(x, s.drop_first());
        assert forall|i: int, j: int|
            0 <= i < j < s.drop_first().len() implies lex_le(
            #[trigger] s.drop_first()[i],
            #[trigger] s.drop_first()[j],
        ) by {
            assert(s.drop_first()[i] == s[i + 1] && s.drop_first()[j] == s[j + 1]);
        }
        lemma_insert_le_sorted(x, s.drop_first());
        lemma_lex_le_total(x, s[0]);
        let r = seq![s[0]] + rest;
        assert forall|i: int, j: int| 0 <= i < j < r.len() implies lex_le(
            #[trigger] r[i],
            #[trigger] r[j],
        ) by {
            if i == 0 {
                // r[j] is in the inserted tail: it is x itself or an element
                // of the tail of s, and s[0] compares below either
                let e = rest[j - 1];
                lemma_insert_le_multiset(x, s.drop_first());
                assert(rest.to_multiset().count(e) > 0);
                if e == x {
                } else {
                    assert(s.drop_first().to_multiset().count(e) > 0);
                    assert(s.drop_first().contains(e));
                    let k = choose|k: int| 0 <= k < s.drop_first().len() && s.drop_first()[k] == e;
                    assert(s[k + 1] == e);
                    assert(lex_le(s[0], s[k + 1]));
                }
            }
        }
    }
}

/// Law: sorting a list of strings leaves every neighbouring pair in
/// non-decreasing lexicographic order.
pub proof fn lemma_sort_strings_sorted(s: Seq<Seq<char>>)
    ensures
        sorted_le(sort_strings_spec(s)),
    decreases s.len(),
{
    if s.len() == 0 {
    } else {
        lemma_sort_strings_sorted(s.drop_first());
        lemma_insert_le_sorted(s[0], sort_strings_spec(s.drop_first()));
    }
}

/// Sorts a list of strings lexicographically, as `sort_strings_spec` states.
pub fn sort_strings(v: &Vec<String>) -> (r: Vec<String>)
    ensures
        r.deep_view() == sort_strings_spec(v.deep_view()),
{
    let mut r: Vec<String> = Vec::new();
    let n = v.len();
    let mut i: usize = n;
    proof {
        assert(v.deep_view().skip(n as int) =~= Seq::<Seq<char>>::empty());
        assert(r.deep_view() =~= Seq::<Seq<char>>::empty());
    }
    while i > 0
        invariant
            0 <= i <= n,
            n == v.len(),
            v.deep_view().len() == n,
            r.deep_view() == sort_strings_spec(v.deep_view().skip(i as int)),
        decreases i,
    {
        i = i - 1;
        let x = v[i].clone();
        insert_string(&mut r, x);
        proof {
            let dv = v.deep_view();
            assert(dv.skip(i as int).drop_first() =~= dv.skip(i + 1));
            assert(dv.skip(i as int)[0] == dv[i as int]);
        }
    }
    proof {
        assert(v.deep_view().skip(0) =~= v.deep_view());
    }
    r
}

/// Appends a plural `s` to the unit name unless the count is exactly one.
pub fn singular_or_plural(s: &str, n: i64) -> (r: String)
    ensures
        n == 1 ==> r@ == s@,
        n != 1 ==> r@ == s@ + "s"@,
{
    if n == 1 {
        s.to_owned()
    } else {
        let mut r = s.to_owned();
        r.append("s");
        r
    }
}

/// Appends a plural `s` to the unit name unless the count is exactly one.
pub fn singular_or_plural_u64(s: &str, n: u64) -> (r: String)
    ensures
        n == 1 ==> r@ == s@,
        n != 1 ==> r@ == s@ + "s"@,
{
    if n == 1 {
        s.to_owned()
    } else {
        let mut r = s.to_owned();
        r.append("s");
        r
    }
}

} // verus!

