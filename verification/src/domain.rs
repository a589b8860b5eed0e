//! Domain names: the hostname rule every site, alias and mail domain must
//! meet, and the two ways a parent zone is derived from a name.

use vstd::prelude::*;

use crate::text::{ascii_alnum, chars_of, is_ascii_alnum, string_from_chars};

verus! {

/// A char allowed in a hostname label.
pub open spec fn is_label_char(c: char) -> bool {
    is_ascii_alnum(c) || c == '-'
}

/// A label: 1 to 63 letters, digits or hyphens, not starting or ending
/// with a hyphen.
pub open spec fn is_label(l: Seq<char>) -> bool {
    &&& 1 <= l.len() <= 63
    &&& forall|i: int| 0 <= i < l.len() ==> is_label_char(#[trigger] l[i])
    &&& l[0] != '-'
    &&& l.last() != '-'
}

/// The labels of a name, split at its dots.
pub open spec fn labels(s: Seq<char>) -> Seq<Seq<char>>
    decreases s.len(),
{
    if s.len() == 0 {
        seq![Seq::empty()]
    } else {
        let p = labels(s.drop_last());
        if s.last() == '.' {
            p.push(Seq::empty())
        } else {
            p.update(p.len() - 1, p.last().push(s.last()))
        }
    }
}

/// A hostname: at most 253 chars, at least two labels, every label valid.
pub open spec fn is_domain(s: Seq<char>) -> bool {
    &&& 1 <= s.len() <= 253
    &&& labels(s).len() >= 2
    &&& forall|i: int| 0 <= i < labels(s).len() ==> is_label(#[trigger] labels(s)[i])
}

/// Checks one label given as a char vector.
fn label_ok(l: &Vec<char>) -> (b: bool)
    ensures
        b == is_label(l@),
{
    let n = l.len();
    if n < 1 || n > 63 {
        return false;
    }
    if l[0] == '-' || l[n - 1] == '-' {
        return false;
    }
    let mut i: usize = 0;
    while i < n
        invariant
            n == l@.len(),
            i <= n,
            forall|j: int| 0 <= j < i ==> is_label_char(#[trigger] l@[j]),
        decreases n - i,
    {
        if !(ascii_alnum(l[i]) || l[i] == '-') {
            assert(!is_label_char(l@[i as int]));
            return false;
        }
        i = i + 1;
    }
    true
}

/// Whether a name is a valid hostname.
pub fn is_valid_domain(s: &str) -> (b: bool)
    ensures
        b == is_domain(s@),
{
    let cs = chars_of(s);
    if cs.len() < 1 || cs.len() > 253 {
        return false;
    }
    let mut parts: Vec<Vec<char>> = Vec::new();
    parts.push(Vec::new());
    assert(parts@.map_values(|v: Vec<char>| v@) =~= labels(cs@.take(0)));
    let mut i: usize = 0;
    while i < cs.len()
        invariant
            cs@ == s@,
            i <= cs@.len(),
            parts@.len() >= 1,
            parts@.map_values(|v: Vec<char>| v@) == labels(cs@.take(i as int)),
        decreases cs@.len() - i,
    {
        assert(cs@.take(i + 1).drop_last() =~= cs@.take(i as int));
        let ghost model = labels(cs@.take(i as int));
        let c = cs[i];
        if c == '.' {
            parts.push(Vec::new());
            assert(parts@.map_values(|v: Vec<char>| v@) =~= model.push(Seq::empty()));
        } else {
            let last = parts.len() - 1;
            let mut cur = parts.pop().unwrap();
            let ghost before = cur@;
            assert(before == model.last());
            cur.push(c);
            parts.push(cur);
            assert(parts@.map_values(|v: Vec<char>| v@) =~= model.update(last as int, before.push(c)));
        }
        i = i + 1;
    }
    assert(cs@.take(cs@.len() as int) =~= cs@);
    let ghost model = parts@.map_values(|v: Vec<char>| v@);
    if parts.len() < 2 {
        return false;
    }
    let mut k: usize = 0;
    while k < parts.len()
        invariant
            k <= parts@.len(),
            model == parts@.map_values(|v: Vec<char>| v@),
            model == labels(s@),
            forall|j: int| 0 <= j < k ==> is_label(#[trigger] model[j]),
        decreases parts@.len() - k,
    {
        if !label_ok(&parts[k]) {
            assert(!is_label(model[k as int]));
            return false;
        }
        k = k + 1;
    }
    true
}

/// The number of dots in `s`.
pub open spec fn dot_count(s: Seq<char>) -> nat
    decreases s.len(),
{
    if s.len() == 0 {
        0
    } else {
        dot_count(s.drop_last()) + if s.last() == '.' { 1nat } else { 0nat }
    }
}

/// Index of the first dot (the length if there is none).
pub open spec fn first_dot(s: Seq<char>) -> int
    decreases s.len(),
{
    if s.len() == 0 {
        0
    } else if s[0] == '.' {
        0
    } else {
        1 + first_dot(s.drop_first())
    }
}

/// The zone a site's DNS record goes in: with two or more dots, everything
/// after the first dot (`splitn(3, '.')` then the last two pieces), else
/// the name itself.
pub open spec fn site_parent(s: Seq<char>) -> Seq<char> {
    if dot_count(s) >= 2 {
        s.skip(first_dot(s) + 1)
    } else {
        s
    }
}

/// Index of the last dot before position `end` (-1 if there is none).
pub open spec fn last_dot_before(s: Seq<char>, end: int) -> int
    decreases end,
{
    if end <= 0 {
        -1
    } else if s[end - 1] == '.' {
        end - 1
    } else {
        last_dot_before(s, end - 1)
    }
}

/// The zone of a mail domain: with more than two labels, the last two
/// labels (`split('.')` then the last two joined), else the name itself.
pub open spec fn mail_parent(s: Seq<char>) -> Seq<char> {
    if dot_count(s) >= 2 {
        s.skip(last_dot_before(s, last_dot_before(s, s.len() as int)) + 1)
    } else {
        s
    }
}

proof fn lemma_dot_count_prefix(s: Seq<char>, i: int)
    requires
        0 <= i <= s.len(),
        forall|j: int| 0 <= j < i ==> s[j] != '.',
    ensures
        dot_count(s.take(i)) == 0,
    decreases i,
{
    if i > 0 {
        assert(s.take(i).drop_last() =~= s.take(i - 1));
        lemma_dot_count_prefix(s, i - 1);
    }
}

proof fn lemma_first_dot(s: Seq<char>, i: int)
    requires
        0 <= i <= s.len(),
        forall|j: int| 0 <= j < i ==> s[j] != '.',
        i < s.len() ==> s[i] == '.',
    ensures
        first_dot(s) == i,
    decreases i,
{
    if i > 0 {
        lemma_first_dot(s.drop_first(), i - 1);
    }
}

/// Copies `s[from..]` into a string.
fn suffix_string(cs: &Vec<char>, from: usize) -> (r: String)
    requires
        from <= cs@.len(),
    ensures
        r@ == cs@.skip(from as int),
{
    let mut v: Vec<char> = Vec::new();
    let mut i: usize = from;
    while i < cs.len()
        invariant
            from <= i <= cs@.len(),
            v@ == cs@.subrange(from as int, i as int),
        decreases cs@.len() - i,
    {
        v.push(cs[i]);
        assert(cs@.subrange(from as int, i + 1) =~= cs@.subrange(from as int, i as int).push(cs@[i as int]));
        i = i + 1;
    }
    assert(cs@.subrange(from as int, cs@.len() as int) =~= cs@.skip(from as int));
    string_from_chars(v.as_slice())
}

/// Counts the dots of a char vector.
fn count_dots(cs: &Vec<char>) -> (n: usize)
    ensures
        n == dot_count(cs@),
{
    let mut n: usize = 0;
    let mut i: usize = 0;
    while i < cs.len()
        invariant
            i <= cs@.len(),
            n == dot_count(cs@.take(i as int)),
            n <= i,
        decreases cs@.len() - i,
    {
        assert(cs@.take(i + 1).drop_last() =~= cs@.take(i as int));
        if cs[i] == '.' {
            n = n + 1;
        }
        i = i + 1;
    }
    assert(cs@.take(cs@.len() as int) =~= cs@);
    n
}

/// The zone a site's automatic DNS record goes in.
pub fn site_parent_domain(domain: &str) -> (r: String)
    ensures
        r@ == site_parent(domain@),
{
    let cs = chars_of(domain);
    let dots = count_dots(&cs);
    if dots < 2 {
        return String::from_str(domain);
    }
    let mut i: usize = 0;
    while i < cs.len() && cs[i] != '.'
        invariant
            cs@ == domain@,
            i <= cs@.len(),
            forall|j: int| 0 <= j < i ==> cs@[j] != '.',
        decreases cs@.len() - i,
    {
        i = i + 1;
    }
    proof {
        lemma_first_dot(cs@, i as int);
        if i == cs@.len() {
            lemma_dot_count_prefix(cs@, i as int);
            assert(cs@.take(i as int) =~= cs@);
        }
    }
    suffix_string(&cs, i + 1)
}

proof fn lemma_last_dot_scan(s: Seq<char>, end: int, k: int)
    requires
        0 <= k <= end <= s.len(),
        forall|j: int| k <= j < end ==> s[j] != '.',
        k > 0 ==> s[k - 1] == '.',
    ensures
        last_dot_before(s, end) == k - 1,
    decreases end - k,
{
    if end > k {
        lemma_last_dot_scan(s, end - 1, k);
    }
}

proof fn lemma_no_dot_before(s: Seq<char>, end: int)
    requires
        0 <= end <= s.len(),
        last_dot_before(s, end) == -1,
    ensures
        forall|j: int| 0 <= j < end ==> s[j] != '.',
    decreases end,
{
    if end > 0 {
        lemma_no_dot_before(s, end - 1);
    }
}

/// Position just after the last dot before `end` (0 if none).
fn after_last_dot(cs: &Vec<char>, end: usize) -> (k: usize)
    requires
        end <= cs@.len(),
    ensures
        k as int == last_dot_before(cs@, end as int) + 1,
        k <= end,
{
    let mut k: usize = end;
    while k > 0 && cs[k - 1] != '.'
        invariant
            k <= end <= cs@.len(),
            forall|j: int| k <= j < end ==> cs@[j] != '.',
        decreases k,
    {
        k = k - 1;
    }
    proof {
        lemma_last_dot_scan(cs@, end as int, k as int);
    }
    k
}

/// The zone of a mail domain: "mail.example.com" gives "example.com",
/// "example.com" gives itself.
pub fn extract_parent_domain(domain: &str) -> (r: String)
    ensures
        r@ == mail_parent(domain@),
{
    let cs = chars_of(domain);
    let dots = count_dots(&cs);
    if dots < 2 {
        return String::from_str(domain);
    }
    let k1 = after_last_dot(&cs, cs.len());
    if k1 == 0 {
        proof {
            lemma_no_dot_before(cs@, cs@.len() as int);
            lemma_dot_count_prefix(cs@, cs@.len() as int);
            assert(cs@.take(cs@.len() as int) =~= cs@);
        }
        return String::from_str(domain);
    }
    let k2 = after_last_dot(&cs, k1 - 1);
    suffix_string(&cs, k2)
}

proof fn lemma_dot_count_concat(a: Seq<char>, b: Seq<char>)
    ensures
        dot_count(a + b) == dot_count(a) + dot_count(b),
    decreases b.len(),
{
    if b.len() > 0 {
        lemma_dot_count_concat(a, b.drop_last());
        assert((a + b).drop_last() =~= a + b.drop_last());
    } else {
        assert(a + b =~= a);
    }
}

proof fn lemma_dot_count_none(s: Seq<char>)
    ensures
        !s.contains('.') <==> dot_count(s) == 0,
    decreases s.len(),
{
    if s.len() > 0 {
        lemma_dot_count_none(s.drop_last());
        if s.drop_last().contains('.') {
            let j = choose|j: int| 0 <= j < s.drop_last().len() && s.drop_last()[j] == '.';
            assert(s[j] == '.');
        }
        if s.last() == '.' {
            assert(s[s.len() - 1] == '.');
        }
        if s.contains('.') && !s.drop_last().contains('.') {
            let j = choose|j: int| 0 <= j < s.len() && s[j] == '.';
            if j < s.len() - 1 {
                assert(s.drop_last()[j] == '.');
            }
        }
    }
}

/// The zone a site's record goes in drops the site's first label when at
/// least two labels remain after it: for a first label without dots and a
/// rest that holds a dot, the zone of `label.rest` is `rest`
/// (`www.example.com` goes in `example.com`).
pub proof fn law_site_parent_drops_first_label(label: Seq<char>, rest: Seq<char>)
    requires
        !label.contains('.'),
        rest.contains('.'),
    ensures
        site_parent(label + seq!['.'] + rest) == rest,
{
    let s = label + seq!['.'] + rest;
    lemma_dot_count_none(label);
    lemma_dot_count_none(rest);
    lemma_dot_count_concat(label, seq!['.']);
    lemma_dot_count_concat(label + seq!['.'], rest);
    assert(dot_count(seq!['.']) == 1) by {
        let d = seq!['.'];
        assert(d.drop_last() =~= Seq::<char>::empty());
        assert(dot_count(d.drop_last()) == 0);
        assert(d.last() == '.');
    }
    assert forall|j: int| 0 <= j < label.len() implies s[j] != '.' by {
        assert(s[j] == label[j]);
    }
    lemma_first_dot(s, label.len() as int);
    assert(s.skip(label.len() as int + 1) =~= rest);
}

/// A name with at most one dot (one or two labels) is its own zone.
pub proof fn law_short_name_is_own_zone(label: Seq<char>, rest: Seq<char>)
    requires
        !label.contains('.'),
        !rest.contains('.'),
    ensures
        site_parent(label) == label,
        site_parent(label + seq!['.'] + rest) == label + seq!['.'] + rest,
{
    lemma_dot_count_none(label);
    lemma_dot_count_none(rest);
    lemma_dot_count_concat(label, seq!['.']);
    lemma_dot_count_concat(label + seq!['.'], rest);
    assert(dot_count(seq!['.']) == 1) by {
        let d = seq!['.'];
        assert(d.drop_last() =~= Seq::<char>::empty());
        assert(dot_count(d.drop_last()) == 0);
        assert(d.last() == '.');
    }
}

} // verus!
