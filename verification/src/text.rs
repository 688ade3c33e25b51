//! Character-level text helpers shared by the key-name splitter and the
//! figure formatting: Unicode white space, ASCII case, trimming, splitting on
//! white space, and joining. Every operation works on the character sequence a
//! string views as, so no step can land inside a multi-byte character.
use vstd::prelude::*;

verus! {

/// The characters with the Unicode `White_Space` property, which is the set
/// `char::is_whitespace` accepts and `str::trim` / `str::split_whitespace`
/// cut on.
pub open spec fn is_white_space(c: char) -> bool {
    let v = c as u32;
    ||| (0x9 <= v && v <= 0xd)
    ||| v == 0x20
    ||| v == 0x85
    ||| v == 0xa0
    ||| v == 0x1680
    ||| (0x2000 <= v && v <= 0x200a)
    ||| v == 0x2028
    ||| v == 0x2029
    ||| v == 0x202f
    ||| v == 0x205f
    ||| v == 0x3000
}

/// `char::is_whitespace`.
pub fn white_space(c: char) -> (r: bool)
    ensures
        r == is_white_space(c),
{
    let v = c as u32;
    (0x9 <= v && v <= 0xd) || v == 0x20 || v == 0x85 || v == 0xa0 || v == 0x1680 || (0x2000 <= v
        && v <= 0x200a) || v == 0x2028 || v == 0x2029 || v == 0x202f || v == 0x205f || v == 0x3000
}

pub open spec fn is_ascii_lower(c: char) -> bool {
    'a' <= c && c <= 'z'
}

pub open spec fn is_ascii_digit(c: char) -> bool {
    '0' <= c && c <= '9'
}

/// `char::to_ascii_uppercase`: `a..=z` move to `A..=Z`, everything else stays.
pub open spec fn upper_char(c: char) -> char {
    if is_ascii_lower(c) {
        ((c as u32) - 32) as char
    } else {
        c
    }
}

/// `str::to_ascii_uppercase`, character by character.
pub open spec fn ascii_upper(s: Seq<char>) -> Seq<char> {
    Seq::new(s.len(), |i: int| upper_char(s[i]))
}

/// The sequence without its leading white space.
pub open spec fn trim_start(s: Seq<char>) -> Seq<char>
    decreases s.len(),
{
    if s.len() > 0 && is_white_space(s[0]) {
        trim_start(s.drop_first())
    } else {
        s
    }
}

/// The sequence without its trailing white space.
pub open spec fn trim_end(s: Seq<char>) -> Seq<char>
    decreases s.len(),
{
    if s.len() > 0 && is_white_space(s.last()) {
        trim_end(s.drop_last())
    } else {
        s
    }
}

/// `str::trim`: both ends, white space only.
pub open spec fn trim(s: Seq<char>) -> Seq<char> {
    trim_end(trim_start(s))
}

/// Whether `p` is a prefix of `s`.
pub open spec fn starts_with(s: Seq<char>, p: Seq<char>) -> bool {
    p.len() <= s.len() && s.take(p.len() as int) == p
}

/// The scan behind `str::split_whitespace`, read left to right: the words
/// already closed, and the word still being read.
pub open spec fn split_scan(s: Seq<char>) -> (Seq<Seq<char>>, Seq<char>)
    decreases s.len(),
{
    if s.len() == 0 {
        (Seq::empty(), Seq::empty())
    } else {
        let (done, cur) = split_scan(s.drop_last());
        let c = s.last();
        if is_white_space(c) {
            if cur.len() > 0 {
                (done.push(cur), Seq::empty())
            } else {
                (done, Seq::empty())
            }
        } else {
            (done, cur.push(c))
        }
    }
}

/// `str::split_whitespace`: the maximal runs of characters that are not white
/// space, in order.
pub open spec fn words(s: Seq<char>) -> Seq<Seq<char>> {
    let (done, cur) = split_scan(s);
    if cur.len() > 0 {
        done.push(cur)
    } else {
        done
    }
}

/// `[T]::join(" ")` over character sequences.
pub open spec fn join_space(parts: Seq<Seq<char>>) -> Seq<char>
    decreases parts.len(),
{
    if parts.len() == 0 {
        Seq::empty()
    } else if parts.len() == 1 {
        parts[0]
    } else {
        join_space(parts.drop_last()) + seq![' '] + parts.last()
    }
}

/// The character views of a list of character lists.
pub open spec fn views(v: Seq<Vec<char>>) -> Seq<Seq<char>> {
    Seq::new(v.len(), |i: int| v[i]@)
}

/// The character views of a list of strings.
pub open spec fn string_views(v: Seq<String>) -> Seq<Seq<char>> {
    Seq::new(v.len(), |i: int| v[i]@)
}

/// `str == str`: whether two string slices hold the same characters.
pub fn same_text(a: &str, b: &str) -> (r: bool)
    ensures
        r == (a@ == b@),
{
    a.to_owned() == b.to_owned()
}

/// The characters of a string slice, in order.
pub fn chars_of(s: &str) -> (r: Vec<char>)
    ensures
        r@ == s@,
{
    let mut v: Vec<char> = Vec::new();
    for c in it: s.chars()
        invariant
            v@ == it.seq().take(it.index() as int),
    {
        v.push(c);
    }
    v
}

/// `String::from_iter` over characters.
#[verifier::external_body]
pub fn string_of(chars: &[char]) -> (r: String)
    ensures
        r@ == chars@,
{
    chars.iter().collect()
}

/// One string per character list, in order.
pub fn strings_of(lines: &Vec<Vec<char>>) -> (r: Vec<String>)
    ensures
        string_views(r@) == views(lines@),
{
    let mut out: Vec<String> = Vec::new();
    let mut i: usize = 0;
    while i < lines.len()
        invariant
            i <= lines.len(),
            out@.len() == i,
            forall|j: int| 0 <= j < i ==> #[trigger] out@[j]@ == lines@[j]@,
        decreases lines.len() - i,
    {
        out.push(string_of(lines[i].as_slice()));
        i += 1;
    }
    assert(string_views(out@) =~= views(lines@));
    out
}

/// `char::to_ascii_uppercase`.
pub fn upper(c: char) -> (r: char)
    ensures
        r == upper_char(c),
{
    if 'a' <= c && c <= 'z' {
        ((c as u8) - 32) as char
    } else {
        c
    }
}

/// `str::to_ascii_uppercase` over a character list.
pub fn to_ascii_upper(s: &Vec<char>) -> (r: Vec<char>)
    ensures
        r@ == ascii_upper(s@),
{
    let mut out: Vec<char> = Vec::new();
    let mut i: usize = 0;
    while i < s.len()
        invariant
            i <= s.len(),
            out@.len() == i,
            forall|j: int| 0 <= j < i ==> #[trigger] out@[j] == upper_char(s@[j]),
        decreases s.len() - i,
    {
        out.push(upper(s[i]));
        i += 1;
    }
    assert(out@ =~= ascii_upper(s@));
    out
}

proof fn lemma_trim_start_step(s: Seq<char>, i: int)
    requires
        0 <= i < s.len(),
        is_white_space(s[i]),
    ensures
        trim_start(s.skip(i)) == trim_start(s.skip(i + 1)),
{
    assert(s.skip(i).drop_first() =~= s.skip(i + 1));
}

proof fn lemma_trim_end_step(s: Seq<char>, j: int)
    requires
        0 < j <= s.len(),
        is_white_space(s[j - 1]),
    ensures
        trim_end(s.take(j)) == trim_end(s.take(j - 1)),
{
    assert(s.take(j).drop_last() =~= s.take(j - 1));
}

/// `s[lo..hi].trim()`.
pub fn trimmed(s: &Vec<char>, lo: usize, hi: usize) -> (r: Vec<char>)
    requires
        lo <= hi <= s.len(),
    ensures
        r@ == trim(s@.subrange(lo as int, hi as int)),
{
    let ghost t = s@.subrange(lo as int, hi as int);
    let mut i: usize = lo;
    assert(t.skip(0) =~= t);
    while i < hi && white_space(s[i])
        invariant
            lo <= i <= hi <= s.len(),
            t == s@.subrange(lo as int, hi as int),
            trim_start(t) == trim_start(t.skip(i - lo)),
        decreases hi - i,
    {
        proof {
            lemma_trim_start_step(t, i - lo);
        }
        i += 1;
    }
    let ghost u = t.skip(i - lo);
    assert(trim_start(t) == u) by {
        if i < hi {
            assert(u[0] == s@[i as int]);
        } else {
            assert(u.len() == 0);
        }
    }
    let mut j: usize = hi;
    assert(u.take(hi - i) =~= u);
    while j > i && white_space(s[j - 1])
        invariant
            lo <= i <= j <= hi <= s.len(),
            u == s@.subrange(i as int, hi as int),
            trim_end(u) == trim_end(u.take(j - i)),
        decreases j - i,
    {
        proof {
            lemma_trim_end_step(u, j - i);
        }
        j -= 1;
    }
    let ghost w = u.take(j - i);
    assert(trim_end(u) == w) by {
        if j > i {
            assert(w.last() == s@[j - 1]);
        } else {
            assert(w.len() == 0);
        }
    }
    let mut out: Vec<char> = Vec::new();
    let mut k: usize = i;
    while k < j
        invariant
            i <= k <= j <= s.len(),
            out@ == s@.subrange(i as int, k as int),
        decreases j - k,
    {
        out.push(s[k]);
        k += 1;
        assert(out@ =~= s@.subrange(i as int, k as int));
    }
    assert(w =~= s@.subrange(i as int, j as int));
    out
}

/// Whether `s` starts with `p`.
pub fn has_prefix(s: &Vec<char>, p: &[char]) -> (r: bool)
    ensures
        r == starts_with(s@, p@),
{
    if p.len() > s.len() {
        return false;
    }
    let mut i: usize = 0;
    while i < p.len()
        invariant
            p@.len() <= s@.len(),
            i <= p@.len(),
            forall|j: int| 0 <= j < i ==> s@[j] == p@[j],
        decreases p.len() - i,
    {
        if s[i] != p[i] {
            assert(s@.take(p@.len() as int)[i as int] != p@[i as int]);
            return false;
        }
        i += 1;
    }
    assert(s@.take(p@.len() as int) =~= p@);
    true
}

/// Whether two character lists are equal.
pub fn same_chars(a: &Vec<char>, b: &[char]) -> (r: bool)
    ensures
        r == (a@ == b@),
{
    if a.len() != b.len() {
        return false;
    }
    let r = has_prefix(a, b);
    assert(a@ =~= a@.take(b@.len() as int));
    r
}

/// Whether `s` holds `c`.
pub fn holds(s: &Vec<char>, c: char) -> (r: bool)
    ensures
        r == s@.contains(c),
{
    let mut i: usize = 0;
    while i < s.len()
        invariant
            i <= s.len(),
            forall|j: int| 0 <= j < i ==> s@[j] != c,
        decreases s.len() - i,
    {
        if s[i] == c {
            assert(s@[i as int] == c);
            return true;
        }
        i += 1;
    }
    false
}

proof fn lemma_split_scan_step(s: Seq<char>, i: int)
    requires
        0 <= i < s.len(),
    ensures
        s.take(i + 1).drop_last() == s.take(i),
        s.take(i + 1).last() == s[i],
{
    assert(s.take(i + 1).drop_last() =~= s.take(i));
}

/// `str::split_whitespace`, collected.
pub fn split_words(s: &Vec<char>) -> (r: Vec<Vec<char>>)
    ensures
        views(r@) == words(s@),
{
    let mut done: Vec<Vec<char>> = Vec::new();
    let mut cur: Vec<char> = Vec::new();
    let mut i: usize = 0;
    while i < s.len()
        invariant
            i <= s.len(),
            split_scan(s@.take(i as int)) == (views(done@), cur@),
        decreases s.len() - i,
    {
        proof {
            lemma_split_scan_step(s@, i as int);
        }
        let c = s[i];
        if white_space(c) {
            if cur.len() > 0 {
                let ghost before = views(done@);
                let word = cur;
                done.push(word);
                cur = Vec::new();
                assert(views(done@) =~= before.push(word@));
            } else {
                cur = Vec::new();
            }
        } else {
            cur.push(c);
        }
        i += 1;
    }
    assert(s@.take(s@.len() as int) =~= s@);
    if cur.len() > 0 {
        let ghost before = views(done@);
        let word = cur;
        done.push(word);
        assert(views(done@) =~= before.push(word@));
    }
    done
}

proof fn lemma_join_step(parts: Seq<Seq<char>>, k: int)
    requires
        1 <= k < parts.len(),
    ensures
        join_space(parts.take(k + 1)) == join_space(parts.take(k)) + seq![' '] + parts[k],
{
    assert(parts.take(k + 1).drop_last() =~= parts.take(k));
}

/// `parts[from..].join(" ")`.
pub fn join_words(parts: &Vec<Vec<char>>, from: usize) -> (r: Vec<char>)
    requires
        from < parts.len(),
    ensures
        r@ == join_space(views(parts@).skip(from as int)),
{
    let ghost rest = views(parts@).skip(from as int);
    let mut out: Vec<char> = Vec::new();
    let mut k: usize = from;
    while k < parts.len()
        invariant
            from <= k <= parts.len(),
            rest == views(parts@).skip(from as int),
            k > from ==> out@ == join_space(rest.take(k - from)),
            k == from ==> out@.len() == 0,
        decreases parts.len() - k,
    {
        let ghost prev = out@;
        if k > from {
            out.push(' ');
        }
        let word = &parts[k];
        let mut m: usize = 0;
        let ghost base = out@;
        while m < word.len()
            invariant
                m <= word.len(),
                out@ == base + word@.take(m as int),
            decreases word.len() - m,
        {
            out.push(word[m]);
            m += 1;
            assert(out@ =~= base + word@.take(m as int));
        }
        proof {
            assert(word@.take(word@.len() as int) =~= word@);
            assert(rest[k - from] == word@);
            if k > from {
                lemma_join_step(rest, k - from);
                assert(out@ =~= prev + seq![' '] + word@);
            } else {
                assert(rest.take(1).drop_last() =~= Seq::<Seq<char>>::empty());
                assert(out@ =~= word@);
                assert(join_space(rest.take(1)) == rest.take(1)[0]);
            }
        }
        k += 1;
    }
    assert(rest.take(parts@.len() - from) =~= rest);
    out
}

/// Trimming the front keeps a sequence's last character when that character
/// is not white space, and so leaves something behind.
pub proof fn lemma_trim_start_keeps_last(s: Seq<char>)
    requires
        s.len() > 0,
        !is_white_space(s.last()),
    ensures
        trim_start(s).len() > 0,
        trim_start(s).last() == s.last(),
        !is_white_space(trim_start(s)[0]),
    decreases s.len(),
{
    if is_white_space(s[0]) {
        lemma_trim_start_keeps_last(s.drop_first());
    }
}

/// Trimming the back keeps a sequence's first character when that
/// character is not white space.
pub proof fn lemma_trim_end_keeps_first(s: Seq<char>)
    requires
        s.len() > 0,
        !is_white_space(s[0]),
    ensures
        trim_end(s).len() > 0,
        trim_end(s)[0] == s[0],
        !is_white_space(trim_end(s).last()),
    decreases s.len(),
{
    if is_white_space(s.last()) {
        lemma_trim_end_keeps_first(s.drop_last());
    }
}

/// A sequence whose last character is not white space trims to something
/// that starts and ends with a character that is not white space.
pub proof fn lemma_trim_nonempty(s: Seq<char>)
    requires
        s.len() > 0,
        !is_white_space(s.last()),
    ensures
        trim(s).len() > 0,
        !is_white_space(trim(s)[0]),
        !is_white_space(trim(s).last()),
{
    lemma_trim_start_keeps_last(s);
    lemma_trim_end_keeps_first(trim_start(s));
}

/// Whatever a trim leaves starts and ends with a character that is not
/// white space.
pub proof fn lemma_trim_ends(s: Seq<char>)
    requires
        trim(s).len() > 0,
    ensures
        !is_white_space(trim(s)[0]),
        !is_white_space(trim(s).last()),
    decreases s.len(),
{
    lemma_trim_start_front(s);
    let t = trim_start(s);
    lemma_trim_end_back(t);
    if t.len() > 0 {
        lemma_trim_end_keeps_first(t);
    }
}

proof fn lemma_trim_start_front(s: Seq<char>)
    ensures
        trim_start(s).len() > 0 ==> !is_white_space(trim_start(s)[0]),
    decreases s.len(),
{
    if s.len() > 0 && is_white_space(s[0]) {
        lemma_trim_start_front(s.drop_first());
    }
}

proof fn lemma_trim_end_back(s: Seq<char>)
    ensures
        trim_end(s).len() > 0 ==> !is_white_space(trim_end(s).last()),
    decreases s.len(),
{
    if s.len() > 0 && is_white_space(s.last()) {
        lemma_trim_end_back(s.drop_last());
    }
}

/// Upper-casing keeps a character's white-space class.
pub proof fn lemma_upper_keeps_space(c: char)
    ensures
        is_white_space(upper_char(c)) == is_white_space(c),
{
}

/// Trimming a sequence that holds no white space leaves it as it is.
pub proof fn lemma_trim_solid(s: Seq<char>)
    requires
        forall|i: int| 0 <= i < s.len() ==> !is_white_space(#[trigger] s[i]),
    ensures
        trim(s) == s,
{
    assert(trim_start(s) == s);
    assert(trim_end(s) == s);
}

/// The split only ever closes a word that holds something.
pub proof fn lemma_words_nonempty(s: Seq<char>)
    ensures
        forall|i: int| 0 <= i < words(s).len() ==> #[trigger] words(s)[i].len() > 0,
{
    lemma_scan_nonempty(s);
    let (done, cur) = split_scan(s);
    if cur.len() > 0 {
        assert forall|i: int| 0 <= i < done.push(cur).len() implies #[trigger] done.push(cur)[i].len()
            > 0 by {
            if i < done.len() {
                assert(done.push(cur)[i] == done[i]);
            }
        }
    }
}

proof fn lemma_scan_nonempty(s: Seq<char>)
    ensures
        forall|i: int| 0 <= i < split_scan(s).0.len() ==> #[trigger] split_scan(s).0[i].len() > 0,
    decreases s.len(),
{
    if s.len() > 0 {
        lemma_scan_nonempty(s.drop_last());
        let (done, cur) = split_scan(s.drop_last());
        if is_white_space(s.last()) && cur.len() > 0 {
            assert forall|i: int| 0 <= i < done.push(cur).len() implies #[trigger] done.push(cur)[i].len()
                > 0 by {
                if i < done.len() {
                    assert(done.push(cur)[i] == done[i]);
                }
            }
        }
    }
}

/// Joining keeps the last part, so joining parts that end in something
/// yields something.
pub proof fn lemma_join_nonempty(parts: Seq<Seq<char>>)
    requires
        parts.len() > 0,
        parts.last().len() > 0,
    ensures
        join_space(parts).len() > 0,
{
}


/// Whether `s` holds no white space at all.
pub open spec fn no_space(s: Seq<char>) -> bool {
    forall|i: int| 0 <= i < s.len() ==> !is_white_space(#[trigger] s[i])
}

/// The characters of `s` that are not white space, in order.
pub open spec fn solid(s: Seq<char>) -> Seq<char>
    decreases s.len(),
{
    if s.len() == 0 {
        Seq::empty()
    } else {
        let rest = solid(s.drop_last());
        if is_white_space(s.last()) {
            rest
        } else {
            rest.push(s.last())
        }
    }
}

/// Dropping white space distributes over concatenation.
pub proof fn lemma_solid_concat(a: Seq<char>, b: Seq<char>)
    ensures
        solid(a + b) == solid(a) + solid(b),
    decreases b.len(),
{
    if b.len() == 0 {
        assert(a + b =~= a);
        assert(solid(a) + solid(b) =~= solid(a));
    } else {
        lemma_solid_concat(a, b.drop_last());
        assert((a + b).drop_last() =~= a + b.drop_last());
        assert((a + b).last() == b.last());
        if !is_white_space(b.last()) {
            assert(solid(a) + solid(b.drop_last()).push(b.last()) =~= (solid(a) + solid(
                b.drop_last(),
            )).push(b.last()));
        }
    }
}

/// A sequence with no white space is its own solid part.
pub proof fn lemma_solid_keeps(s: Seq<char>)
    requires
        no_space(s),
    ensures
        solid(s) == s,
    decreases s.len(),
{
    if s.len() > 0 {
        lemma_solid_keeps(s.drop_last());
        assert(!is_white_space(s[s.len() - 1]));
        assert(s.drop_last().push(s.last()) =~= s);
    }
}

proof fn lemma_solid_trim_start(s: Seq<char>)
    ensures
        solid(trim_start(s)) == solid(s),
    decreases s.len(),
{
    if s.len() > 0 && is_white_space(s[0]) {
        lemma_solid_trim_start(s.drop_first());
        lemma_solid_concat(seq![s[0]], s.drop_first());
        assert(seq![s[0]] + s.drop_first() =~= s);
        assert(seq![s[0]].drop_last() =~= Seq::<char>::empty());
        assert(solid(Seq::<char>::empty()) =~= Seq::<char>::empty());
        assert(seq![s[0]].last() == s[0]);
        assert(solid(seq![s[0]]) =~= Seq::<char>::empty());
        assert(Seq::<char>::empty() + solid(s.drop_first()) =~= solid(s.drop_first()));
    }
}

proof fn lemma_solid_trim_end(s: Seq<char>)
    ensures
        solid(trim_end(s)) == solid(s),
    decreases s.len(),
{
    if s.len() > 0 && is_white_space(s.last()) {
        lemma_solid_trim_end(s.drop_last());
    }
}

/// Trimming only ever removes white space.
pub proof fn lemma_solid_trim(s: Seq<char>)
    ensures
        solid(trim(s)) == solid(s),
{
    lemma_solid_trim_start(s);
    lemma_solid_trim_end(trim_start(s));
}

proof fn lemma_scan_solid(s: Seq<char>)
    ensures
        split_scan(s).0.flatten() + split_scan(s).1 == solid(s),
        no_space(split_scan(s).1),
        forall|i: int| 0 <= i < split_scan(s).0.len() ==> no_space(#[trigger] split_scan(s).0[i]),
    decreases s.len(),
{
    if s.len() > 0 {
        lemma_scan_solid(s.drop_last());
        let (done, cur) = split_scan(s.drop_last());
        let c = s.last();
        if is_white_space(c) {
            if cur.len() > 0 {
                done.lemma_flatten_push(cur);
                assert(done.push(cur).flatten() + Seq::<char>::empty() =~= done.flatten() + cur);
                assert forall|i: int| 0 <= i < done.push(cur).len() implies no_space(#[trigger] done.push(cur)[i]) by {
                    if i < done.len() {
                        assert(done.push(cur)[i] == done[i]);
                    }
                }
            } else {
                assert(done.flatten() + Seq::<char>::empty() =~= done.flatten() + cur);
            }
        } else {
            assert(done.flatten() + cur.push(c) =~= (done.flatten() + cur).push(c));
            assert forall|i: int| 0 <= i < cur.push(c).len() implies !is_white_space(#[trigger] cur.push(c)[i]) by {
                if i < cur.len() {
                    assert(cur.push(c)[i] == cur[i]);
                }
            }
        }
    }
}

/// The words, read one after the other, are the sequence without its white
/// space, and no word holds white space.
pub proof fn lemma_solid_words(s: Seq<char>)
    ensures
        words(s).flatten() == solid(s),
        forall|i: int| 0 <= i < words(s).len() ==> no_space(#[trigger] words(s)[i]),
{
    lemma_scan_solid(s);
    let (done, cur) = split_scan(s);
    if cur.len() > 0 {
        done.lemma_flatten_push(cur);
        assert forall|i: int| 0 <= i < done.push(cur).len() implies no_space(#[trigger] done.push(cur)[i]) by {
            if i < done.len() {
                assert(done.push(cur)[i] == done[i]);
            }
        }
    } else {
        assert(done.flatten() + cur =~= done.flatten());
    }
}

/// Joining space-free parts with spaces and then dropping the white space
/// reads the parts one after the other.
pub proof fn lemma_solid_join(parts: Seq<Seq<char>>)
    requires
        forall|i: int| 0 <= i < parts.len() ==> no_space(#[trigger] parts[i]),
    ensures
        solid(join_space(parts)) == parts.flatten(),
    decreases parts.len(),
{
    if parts.len() == 0 {
        assert(parts.flatten() =~= Seq::<char>::empty());
    } else if parts.len() == 1 {
        assert(no_space(parts[0]));
        lemma_solid_keeps(parts[0]);
        parts.lemma_flatten_singleton();
    } else {
        let head = parts.drop_last();
        assert forall|i: int| 0 <= i < head.len() implies no_space(#[trigger] head[i]) by {
            assert(head[i] == parts[i]);
        }
        lemma_solid_join(head);
        let last = parts.last();
        assert(no_space(parts[parts.len() - 1]));
        lemma_solid_keeps(last);
        lemma_solid_concat(join_space(head) + seq![' '], last);
        lemma_solid_concat(join_space(head), seq![' ']);
        assert(seq![' '].drop_last() =~= Seq::<char>::empty());
        assert(solid(Seq::<char>::empty()) =~= Seq::<char>::empty());
        assert(seq![' '].last() == ' ');
        assert(is_white_space(' '));
        assert(solid(seq![' ']) =~= Seq::<char>::empty());
        assert(solid(join_space(head)) + Seq::<char>::empty() =~= solid(join_space(head)));
        head.lemma_flatten_push(last);
        assert(head.push(last) =~= parts);
    }
}

} // verus!
