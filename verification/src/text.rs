//! Character-level helpers on strings, used by the parsers of the library.
use vstd::prelude::*;

verus! {

/// `String::push` appends the given character to the end of the string (std documentation).
pub assume_specification[ std::string::String::push ](s: &mut std::string::String, ch: char)
    ensures
        final(s)@ == old(s)@.push(ch),
;

/// Collects the characters of a string slice.
pub fn chars_of(s: &str) -> (r: Vec<char>)
    ensures
        r@ == s@,
{
    let mut r: Vec<char> = Vec::new();
    for c in it: s.chars()
        invariant
            r@ == it.seq().take(it.index() as int),
    {
        r.push(c);
    }
    r
}

/// Builds a string out of a slice of characters.
pub fn string_of(cs: &[char]) -> (r: String)
    ensures
        r@ == cs@,
{
    let mut r = String::new();
    let mut i: usize = 0;
    while i < cs.len()
        invariant
            i <= cs@.len(),
            r@ == cs@.take(i as int),
        decreases cs@.len() - i,
    {
        r.push(cs[i]);
        i += 1;
        assert(cs@.take(i as int) == cs@.take((i - 1) as int).push(cs@[i - 1]));
    }
    assert(cs@.take(cs@.len() as int) == cs@);
    r
}


/// The index `i` holds the first occurrence of `c` in `s`.
pub open spec fn is_first_index<T>(s: Seq<T>, c: T, i: int) -> bool {
    &&& 0 <= i < s.len()
    &&& s[i] == c
    &&& forall|j: int| 0 <= j < i ==> s[j] != c
}

/// Splits `s` at the first occurrence of `c`: the part before it and the part after it,
/// or `None` where `c` does not occur (as `str::split_once` and `splitn(2, c)` do).
pub open spec fn split_once<T>(s: Seq<T>, c: T) -> Option<(Seq<T>, Seq<T>)> {
    if s.contains(c) {
        let i = choose|i: int| is_first_index(s, c, i);
        Some((s.take(i), s.skip(i + 1)))
    } else {
        None
    }
}

/// Two first occurrences are the same occurrence.
pub(crate) proof fn lemma_first_index_unique<T>(s: Seq<T>, c: T, i: int, k: int)
    requires
        is_first_index(s, c, i),
        is_first_index(s, c, k),
    ensures
        i == k,
{
}

/// The first occurrence exists exactly where the character occurs.
pub(crate) proof fn lemma_first_index_exists<T>(s: Seq<T>, c: T)
    requires
        s.contains(c),
    ensures
        exists|i: int| is_first_index(s, c, i),
    decreases s.len(),
{
    let k = choose|k: int| 0 <= k < s.len() && s[k] == c;
    if s[0] == c {
        assert(is_first_index(s, c, 0));
    } else {
        let t = s.drop_first();
        assert(t[k - 1] == c);
        lemma_first_index_exists(t, c);
        let i = choose|i: int| is_first_index(t, c, i);
        assert forall|j: int| 0 <= j < i + 1 implies s[j] != c by {
            if j > 0 {
                assert(s[j] == t[j - 1]);
            }
        }
        assert(is_first_index(s, c, i + 1));
    }
}

/// Finds the first occurrence of `c` in `cs`.
pub fn find_char(cs: &[char], c: char) -> (r: Option<usize>)
    ensures
        match r {
            Some(i) => is_first_index(cs@, c, i as int),
            None => !cs@.contains(c),
        },
{
    let mut i: usize = 0;
    while i < cs.len()
        invariant
            i <= cs@.len(),
            forall|j: int| 0 <= j < i ==> cs@[j] != c,
        decreases cs@.len() - i,
    {
        if cs[i] == c {
            return Some(i);
        }
        i += 1;
    }
    None
}

/// Copies the characters `cs[from..to]`.
pub fn slice_chars<T: Copy>(cs: &[T], from: usize, to: usize) -> (r: Vec<T>)
    requires
        from <= to <= cs@.len(),
    ensures
        r@ == cs@.subrange(from as int, to as int),
{
    let mut r: Vec<T> = Vec::new();
    let mut i: usize = from;
    while i < to
        invariant
            from <= i <= to <= cs@.len(),
            r@ == cs@.subrange(from as int, i as int),
        decreases to - i,
    {
        r.push(cs[i]);
        i += 1;
        assert(r@ == cs@.subrange(from as int, i as int));
    }
    r
}

/// Splits `cs` at the first occurrence of `c`.
pub fn split_once_chars(cs: &[char], c: char) -> (r: Option<(Vec<char>, Vec<char>)>)
    ensures
        match r {
            Some((a, b)) => split_once(cs@, c) == Some((a@, b@)),
            None => split_once(cs@, c) is None,
        },
{
    match find_char(cs, c) {
        Some(i) => {
            proof {
                let k = choose|k: int| is_first_index(cs@, c, k);
                lemma_first_index_unique(cs@, c, i as int, k);
            }
            let n = cs.len();
            assert(i < n);
            let a = slice_chars(cs, 0, i);
            let b = slice_chars(cs, i + 1, n);
            assert(a@ == cs@.take(i as int));
            assert(b@ == cs@.skip(i + 1));
            Some((a, b))
        },
        None => None,
    }
}

/// Finds the first occurrence of the byte `c` in `bs`.
pub fn find_byte(bs: &[u8], c: u8) -> (r: Option<usize>)
    ensures
        match r {
            Some(i) => is_first_index(bs@, c, i as int),
            None => !bs@.contains(c),
        },
{
    let mut i: usize = 0;
    while i < bs.len()
        invariant
            i <= bs@.len(),
            forall|j: int| 0 <= j < i ==> bs@[j] != c,
        decreases bs@.len() - i,
    {
        if bs[i] == c {
            return Some(i);
        }
        i += 1;
    }
    None
}

/// Splits `bs` at the first occurrence of the byte `c`.
pub fn split_once_bytes(bs: &[u8], c: u8) -> (r: Option<(Vec<u8>, Vec<u8>)>)
    ensures
        match r {
            Some((a, b)) => split_once(bs@, c) == Some((a@, b@)),
            None => split_once(bs@, c) is None,
        },
{
    match find_byte(bs, c) {
        Some(i) => {
            proof {
                let k = choose|k: int| is_first_index(bs@, c, k);
                lemma_first_index_unique(bs@, c, i as int, k);
            }
            let n = bs.len();
            assert(i < n);
            let a = slice_chars(bs, 0, i);
            let b = slice_chars(bs, i + 1, n);
            assert(a@ == bs@.take(i as int));
            assert(b@ == bs@.skip(i + 1));
            Some((a, b))
        },
        None => None,
    }
}

/// Reads bytes as characters, one character per byte.
pub open spec fn latin1_text(bs: Seq<u8>) -> Seq<char> {
    bs.map_values(|b: u8| b as char)
}

/// Builds a string holding one character per byte.
pub fn string_of_bytes(bs: &[u8]) -> (r: String)
    ensures
        r@ == latin1_text(bs@),
{
    let mut r = String::new();
    let mut i: usize = 0;
    while i < bs.len()
        invariant
            i <= bs@.len(),
            r@ == latin1_text(bs@.take(i as int)),
        decreases bs@.len() - i,
    {
        r.push(bs[i] as char);
        i += 1;
        assert(latin1_text(bs@.take(i as int)) =~= latin1_text(bs@.take((i - 1) as int)).push(
            bs@[i - 1] as char,
        ));
    }
    assert(bs@.take(bs@.len() as int) == bs@);
    r
}

/// Appends the characters of `s` to `r`.
pub fn append_str(r: &mut String, s: &str)
    ensures
        final(r)@ == old(r)@ + s@,
{
    let cs = chars_of(s);
    let ghost base = r@;
    let mut i: usize = 0;
    while i < cs.len()
        invariant
            i <= cs@.len(),
            cs@ == s@,
            r@ == base + cs@.take(i as int),
        decreases cs@.len() - i,
    {
        r.push(cs[i]);
        i += 1;
        assert(cs@.take(i as int) == cs@.take((i - 1) as int).push(cs@[i - 1]));
    }
    assert(cs@.take(cs@.len() as int) == cs@);
}

/// Joins two strings with a separator character between them.
pub fn join2(a: &str, sep: char, b: &str) -> (r: String)
    ensures
        r@ == a@ + seq![sep] + b@,
{
    let mut r = String::new();
    append_str(&mut r, a);
    r.push(sep);
    append_str(&mut r, b);
    assert(r@ =~= a@ + seq![sep] + b@);
    r
}

/// Concatenates two strings.
pub fn concat(a: &str, b: &str) -> (r: String)
    ensures
        r@ == a@ + b@,
{
    let mut r = String::new();
    append_str(&mut r, a);
    append_str(&mut r, b);
    assert(r@ =~= a@ + b@);
    r
}

/// The string `s` is the same as the literal `lit`.
pub fn str_is(s: &str, lit: &str) -> (r: bool)
    ensures
        r == (s@ == lit@),
{
    chars_eq(&chars_of(s), &chars_of(lit))
}

/// The characters `a` and `b` are the same sequence.
pub fn chars_eq(a: &[char], b: &[char]) -> (r: bool)
    ensures
        r == (a@ == b@),
{
    if a.len() != b.len() {
        return false;
    }
    let mut i: usize = 0;
    while i < a.len()
        invariant
            a@.len() == b@.len(),
            i <= a@.len(),
            forall|j: int| 0 <= j < i ==> a@[j] == b@[j],
        decreases a@.len() - i,
    {
        if a[i] != b[i] {
            return false;
        }
        i += 1;
    }
    assert(a@ =~= b@);
    true
}

/// `p` is a prefix of `s`.
pub open spec fn has_prefix<T>(s: Seq<T>, p: Seq<T>) -> bool {
    p.len() <= s.len() && s.take(p.len() as int) == p
}

/// `p` is a suffix of `s`.
pub open spec fn has_suffix<T>(s: Seq<T>, p: Seq<T>) -> bool {
    p.len() <= s.len() && s.skip(s.len() - p.len()) == p
}

/// `s` starts with `p` (as `str::starts_with`).
pub fn starts_with(s: &[char], p: &[char]) -> (r: bool)
    ensures
        r == has_prefix(s@, p@),
{
    if p.len() > s.len() {
        return false;
    }
    let mut i: usize = 0;
    while i < p.len()
        invariant
            p@.len() <= s@.len(),
            i <= p@.len(),
            forall|j: int| 0 <= j < i ==> s@[j] == p@[j],
        decreases p@.len() - i,
    {
        if s[i] != p[i] {
            assert(s@.take(p@.len() as int)[i as int] != p@[i as int]);
            return false;
        }
        i += 1;
    }
    assert(s@.take(p@.len() as int) =~= p@);
    true
}

/// `s` ends with `p` (as `str::ends_with`).
pub fn ends_with(s: &[char], p: &[char]) -> (r: bool)
    ensures
        r == has_suffix(s@, p@),
{
    if p.len() > s.len() {
        return false;
    }
    let n = s.len();
    let off = n - p.len();
    let mut i: usize = 0;
    while i < p.len()
        invariant
            n == s@.len(),
            p@.len() <= s@.len(),
            off == s@.len() - p@.len(),
            i <= p@.len(),
            forall|j: int| 0 <= j < i ==> s@[off + j] == p@[j],
        decreases p@.len() - i,
    {
        assert(off + i < s@.len());
        if s[off + i] != p[i] {
            assert(s@.skip(off as int)[i as int] != p@[i as int]);
            return false;
        }
        i += 1;
    }
    assert(s@.skip(off as int) =~= p@);
    true
}

/// `s` starts with `p`.
pub fn str_starts_with(s: &str, p: &str) -> (r: bool)
    ensures
        r == has_prefix(s@, p@),
{
    starts_with(&chars_of(s), &chars_of(p))
}

/// `s` ends with `p`.
pub fn str_ends_with(s: &str, p: &str) -> (r: bool)
    ensures
        r == has_suffix(s@, p@),
{
    ends_with(&chars_of(s), &chars_of(p))
}

/// The decimal digit for `d` (`d < 10`).
pub open spec fn digit_char(d: nat) -> char {
    if d == 0 {
        '0'
    } else if d == 1 {
        '1'
    } else if d == 2 {
        '2'
    } else if d == 3 {
        '3'
    } else if d == 4 {
        '4'
    } else if d == 5 {
        '5'
    } else if d == 6 {
        '6'
    } else if d == 7 {
        '7'
    } else if d == 8 {
        '8'
    } else {
        '9'
    }
}

/// The decimal text of a natural number, without leading zeros.
pub open spec fn decimal(n: nat) -> Seq<char>
    decreases n,
{
    if n < 10 {
        seq![digit_char(n)]
    } else {
        decimal(n / 10).push(digit_char(n % 10))
    }
}

/// The decimal digit for `d`.
fn digit(d: u64) -> (c: char)
    requires
        d < 10,
    ensures
        c == digit_char(d as nat),
{
    if d == 0 {
        '0'
    } else if d == 1 {
        '1'
    } else if d == 2 {
        '2'
    } else if d == 3 {
        '3'
    } else if d == 4 {
        '4'
    } else if d == 5 {
        '5'
    } else if d == 6 {
        '6'
    } else if d == 7 {
        '7'
    } else if d == 8 {
        '8'
    } else {
        '9'
    }
}

/// The decimal text of `n`, as `Display` writes it.
pub fn decimal_text(n: u64) -> (r: String)
    ensures
        r@ == decimal(n as nat),
    decreases n,
{
    if n < 10 {
        let mut r = String::new();
        r.push(digit(n));
        assert(r@ =~= seq![digit_char(n as nat)]);
        r
    } else {
        let mut r = decimal_text(n / 10);
        r.push(digit(n % 10));
        r
    }
}

/// `s` with every occurrence of `p` (`p` not empty), from left to right and not
/// overlapping, replaced by `q` (as `str::replace`).
pub open spec fn replaced(s: Seq<char>, p: Seq<char>, q: Seq<char>) -> Seq<char>
    decreases s.len(),
{
    if s.len() == 0 || p.len() == 0 {
        s
    } else if has_prefix(s, p) {
        q + replaced(s.skip(p.len() as int), p, q)
    } else {
        seq![s[0]] + replaced(s.skip(1), p, q)
    }
}

/// Whether `ps` occurs in `cs` at position `i`.
fn matches_at(cs: &Vec<char>, i: usize, ps: &Vec<char>) -> (r: bool)
    requires
        i <= cs@.len(),
    ensures
        r == has_prefix(cs@.skip(i as int), ps@),
{
    let ghost rest = cs@.skip(i as int);
    if ps.len() > cs.len() - i {
        return false;
    }
    let mut j: usize = 0;
    while j < ps.len()
        invariant
            i <= cs@.len(),
            cs@.len() <= usize::MAX,
            ps@.len() <= cs@.len() - i,
            rest == cs@.skip(i as int),
            j <= ps@.len(),
            forall|k: int| 0 <= k < j ==> rest[k] == ps@[k],
        decreases ps@.len() - j,
    {
        if cs[i + j] != ps[j] {
            assert(rest.take(ps@.len() as int)[j as int] != ps@[j as int]);
            return false;
        }
        j += 1;
    }
    assert(rest.take(ps@.len() as int) =~= ps@);
    true
}

/// Replaces every occurrence of `p` in `s` by `q`.
pub fn replace_all(s: &str, p: &str, q: &str) -> (r: String)
    requires
        p@.len() > 0,
    ensures
        r@ == replaced(s@, p@, q@),
{
    let cs = chars_of(s);
    let ps = chars_of(p);
    let mut r = String::new();
    let mut i: usize = 0;
    assert(cs@.skip(0) =~= cs@);
    assert(r@ + replaced(cs@, ps@, q@) =~= replaced(cs@, ps@, q@));
    while i < cs.len()
        invariant
            cs@ == s@,
            ps@ == p@,
            ps@.len() > 0,
            i <= cs@.len(),
            r@ + replaced(cs@.skip(i as int), ps@, q@) == replaced(cs@, ps@, q@),
        decreases cs@.len() - i,
    {
        let ghost rest = cs@.skip(i as int);
        let ghost before = r@;
        if matches_at(&cs, i, &ps) {
            append_str(&mut r, q);
            proof {
                assert(rest.skip(ps@.len() as int) =~= cs@.skip(i + ps@.len()));
                assert(r@ + replaced(cs@.skip(i + ps@.len()), ps@, q@) =~= before + (q@
                    + replaced(rest.skip(ps@.len() as int), ps@, q@)));
            }
            i += ps.len();
        } else {
            r.push(cs[i]);
            proof {
                assert(rest.skip(1) =~= cs@.skip(i + 1));
                assert(r@ + replaced(cs@.skip(i + 1), ps@, q@) =~= before + (seq![cs@[i as int]]
                    + replaced(rest.skip(1), ps@, q@)));
            }
            i += 1;
        }
    }
    assert(r@ + replaced(cs@.skip(i as int), ps@, q@) =~= r@);
    r
}


/// The parts joined, with `sep` between each two of them (as `join` on a slice of strings).
pub open spec fn joined(parts: Seq<Seq<char>>, sep: char) -> Seq<char>
    decreases parts.len(),
{
    if parts.len() == 0 {
        Seq::empty()
    } else if parts.len() == 1 {
        parts[0]
    } else {
        joined(parts.drop_last(), sep) + seq![sep] + parts.last()
    }
}

/// Joins strings with a separator character.
pub fn join_strings(parts: &Vec<String>, sep: char) -> (r: String)
    ensures
        r@ == joined(parts@.map_values(|s: String| s@), sep),
{
    let ghost all = parts@.map_values(|s: String| s@);
    let mut r = String::new();
    let mut i: usize = 0;
    assert(all.take(0) =~= Seq::<Seq<char>>::empty());
    while i < parts.len()
        invariant
            all == parts@.map_values(|s: String| s@),
            i <= parts@.len(),
            r@ == joined(all.take(i as int), sep),
        decreases parts@.len() - i,
    {
        assert(all.take(i + 1).drop_last() =~= all.take(i as int));
        if i > 0 {
            r.push(sep);
        }
        append_str(&mut r, parts[i].as_str());
        proof {
            if i == 0 {
                assert(r@ =~= all.take(1)[0]);
            } else {
                assert(r@ =~= joined(all.take(i as int), sep) + seq![sep] + all.take(i + 1).last());
            }
        }
        i += 1;
    }
    assert(all.take(i as int) =~= all);
    r
}

} // verus!
