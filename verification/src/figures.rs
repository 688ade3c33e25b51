//! How the measurement card writes its counts: decimal digits grouped in
//! threes with thousands separators, as `toLocaleString` writes them for
//! every language this window ships.
use vstd::prelude::*;

use crate::text::string_of;

verus! {

/// The character of one decimal digit.
pub open spec fn digit_char(d: nat) -> char {
    (d + 48) as char
}

/// `n` written in decimal, most significant digit first, with no leading
/// zero.
pub open spec fn decimal(n: nat) -> Seq<char>
    decreases n,
{
    if n < 10 {
        seq![digit_char(n)]
    } else {
        decimal(n / 10).push(digit_char(n % 10))
    }
}

/// The digits with a comma before every full group of three, counted from
/// the right (`1072` -> `1,072`).
pub open spec fn group_thousands(d: Seq<char>) -> Seq<char>
    decreases d.len(),
{
    if d.len() <= 3 {
        d
    } else {
        group_thousands(d.take(d.len() - 3)) + seq![','] + d.skip(d.len() - 3)
    }
}

/// What the left-to-right scan has written after reading `i` digits of `d`:
/// each digit, preceded by a comma where a whole number of groups of three
/// still follows it.
pub open spec fn scanned(d: Seq<char>, i: int) -> Seq<char>
    decreases i,
{
    if i <= 0 {
        Seq::empty()
    } else {
        let k = i - 1;
        let sep: Seq<char> = if k > 0 && (d.len() - k) % 3 == 0 {
            seq![',']
        } else {
            Seq::empty()
        };
        scanned(d, k) + sep + seq![d[k]]
    }
}

proof fn lemma_scan_ignores_the_tail(d: Seq<char>, i: int)
    requires
        d.len() > 3,
        0 <= i <= d.len() - 3,
    ensures
        scanned(d, i) == scanned(d.take(d.len() - 3), i),
    decreases i,
{
    if i > 0 {
        lemma_scan_ignores_the_tail(d, i - 1);
        let k = i - 1;
        assert((d.len() - k) % 3 == (d.len() - 3 - k) % 3);
        assert(d.take(d.len() - 3)[k] == d[k]);
    }
}

proof fn lemma_scan_without_commas(d: Seq<char>, i: int)
    requires
        d.len() <= 3,
        0 <= i <= d.len(),
    ensures
        scanned(d, i) == d.take(i),
    decreases i,
{
    if i > 0 {
        lemma_scan_without_commas(d, i - 1);
        assert(d.take(i) =~= d.take(i - 1) + seq![d[i - 1]]);
    }
}

/// The left-to-right scan writes exactly the grouped digits.
proof fn lemma_scan_groups(d: Seq<char>)
    ensures
        scanned(d, d.len() as int) == group_thousands(d),
    decreases d.len(),
{
    let n = d.len() as int;
    if n <= 3 {
        lemma_scan_without_commas(d, n);
        assert(d.take(n) =~= d);
    } else {
        let head = d.take(n - 3);
        lemma_scan_groups(head);
        lemma_scan_ignores_the_tail(d, n - 3);
        assert(head.len() == n - 3);
        assert(scanned(d, n - 2) == scanned(d, n - 3) + seq![','] + seq![d[n - 3]]);
        assert(scanned(d, n - 1) == scanned(d, n - 2) + seq![d[n - 2]]);
        assert(scanned(d, n) == scanned(d, n - 1) + seq![d[n - 1]]);
        assert(d.skip(n - 3) =~= seq![d[n - 3], d[n - 2], d[n - 1]]);
        assert(scanned(d, n) =~= group_thousands(head) + seq![','] + d.skip(n - 3));
    }
}

/// The decimal digits of `value`.
fn decimal_digits(value: u32) -> (r: Vec<char>)
    ensures
        r@ == decimal(value as nat),
    decreases value,
{
    let last = ((value % 10) as u8 + 48) as char;
    assert(last == digit_char((value % 10) as nat));
    if value < 10 {
        vec![last]
    } else {
        let mut digits = decimal_digits(value / 10);
        digits.push(last);
        digits
    }
}

/// Groups an integer count with thousands separators (`1072` -> `1,072`).
pub fn grouped(value: u32) -> (r: String)
    ensures
        r@ == group_thousands(decimal(value as nat)),
{
    let digits = decimal_digits(value);
    let len = digits.len();
    let mut out: Vec<char> = Vec::new();
    let mut index: usize = 0;
    while index < len
        invariant
            len == digits@.len(),
            index <= len,
            out@ == scanned(digits@, index as int),
        decreases len - index,
    {
        if index > 0 && (len - index) % 3 == 0 {
            out.push(',');
        }
        out.push(digits[index]);
        index += 1;
        assert(out@ =~= scanned(digits@, index as int));
    }
    proof {
        lemma_scan_groups(digits@);
    }
    string_of(out.as_slice())
}

/// The characters other than commas, in order.
pub open spec fn strip_commas(s: Seq<char>) -> Seq<char>
    decreases s.len(),
{
    if s.len() == 0 {
        Seq::empty()
    } else {
        let rest = strip_commas(s.drop_last());
        if s.last() == ',' {
            rest
        } else {
            rest.push(s.last())
        }
    }
}

proof fn lemma_strip_concat(a: Seq<char>, b: Seq<char>)
    ensures
        strip_commas(a + b) == strip_commas(a) + strip_commas(b),
    decreases b.len(),
{
    if b.len() == 0 {
        assert(a + b =~= a);
        assert(strip_commas(a) + strip_commas(b) =~= strip_commas(a));
    } else {
        lemma_strip_concat(a, b.drop_last());
        assert((a + b).drop_last() =~= a + b.drop_last());
        assert((a + b).last() == b.last());
        if b.last() != ',' {
            assert(strip_commas(a) + strip_commas(b.drop_last()).push(b.last()) =~= (strip_commas(a)
                + strip_commas(b.drop_last())).push(b.last()));
        }
    }
}

proof fn lemma_strip_digits(d: Seq<char>)
    requires
        !d.contains(','),
    ensures
        strip_commas(d) == d,
    decreases d.len(),
{
    if d.len() > 0 {
        assert(!d.drop_last().contains(',')) by {
            if d.drop_last().contains(',') {
                let i = choose|i: int| 0 <= i < d.drop_last().len() && d.drop_last()[i] == ',';
                assert(d[i] == ',');
            }
        }
        lemma_strip_digits(d.drop_last());
        assert(d[d.len() - 1] != ',');
        assert(d.drop_last().push(d.last()) =~= d);
    }
}

proof fn lemma_group_strips(d: Seq<char>)
    requires
        !d.contains(','),
    ensures
        strip_commas(group_thousands(d)) == d,
    decreases d.len(),
{
    if d.len() <= 3 {
        lemma_strip_digits(d);
    } else {
        let n = d.len() as int;
        let head = d.take(n - 3);
        let tail = d.skip(n - 3);
        assert(!head.contains(',')) by {
            if head.contains(',') {
                let i = choose|i: int| 0 <= i < head.len() && head[i] == ',';
                assert(d[i] == ',');
            }
        }
        assert(!tail.contains(',')) by {
            if tail.contains(',') {
                let i = choose|i: int| 0 <= i < tail.len() && tail[i] == ',';
                assert(d[n - 3 + i] == ',');
            }
        }
        lemma_group_strips(head);
        lemma_strip_digits(tail);
        lemma_strip_concat(group_thousands(head) + seq![','], tail);
        lemma_strip_concat(group_thousands(head), seq![',']);
        assert(strip_commas(seq![',']) =~= Seq::<char>::empty()) by {
            assert(seq![','].drop_last() =~= Seq::<char>::empty());
            assert(strip_commas(Seq::<char>::empty()) =~= Seq::<char>::empty());
            assert(seq![','].last() == ',');
        }
        assert(head + tail =~= d);
    }
}

proof fn lemma_decimal_has_no_comma(n: nat)
    ensures
        !decimal(n).contains(','),
        forall|i: int| 0 <= i < decimal(n).len() ==> '0' <= #[trigger] decimal(n)[i] <= '9',
    decreases n,
{
    if n >= 10 {
        lemma_decimal_has_no_comma(n / 10);
    }
    assert forall|i: int| 0 <= i < decimal(n).len() implies '0' <= #[trigger] decimal(n)[i] <= '9' by {
        if n >= 10 {
            if i < decimal(n / 10).len() {
                assert(decimal(n)[i] == decimal(n / 10)[i]);
            }
        }
    }
}

/// The separators are the only thing grouping adds: dropping the commas
/// from a grouped count gives back its plain decimal digits.
pub proof fn grouping_only_adds_separators(n: nat)
    ensures
        strip_commas(group_thousands(decimal(n))) == decimal(n),
{
    lemma_decimal_has_no_comma(n);
    lemma_group_strips(decimal(n));
}


/// The shape of a grouped count, read from the right: `r` characters from the
/// end, every fourth place (`r % 4 == 3`) is a comma and every other place is
/// the next digit, so the digits fall into threes behind the comma and the
/// count gains one comma per full group of three after the first digit.
pub open spec fn grouped_shape(d: Seq<char>, g: Seq<char>) -> bool {
    &&& g.len() == d.len() + (d.len() - 1) / 3
    &&& forall|r: int|
        0 <= r < g.len() ==> #[trigger] g[g.len() - 1 - r] == if r % 4 == 3 {
            ','
        } else {
            d[d.len() - 1 - (r - r / 4)]
        }
}

proof fn lemma_group_shape(d: Seq<char>)
    requires
        d.len() > 0,
    ensures
        grouped_shape(d, group_thousands(d)),
    decreases d.len(),
{
    let n = d.len() as int;
    let g = group_thousands(d);
    if n > 3 {
        let head = d.take(n - 3);
        let h = group_thousands(head);
        lemma_group_shape(head);
        assert(g == h + seq![','] + d.skip(n - 3));
        assert(g.len() == n + (n - 1) / 3);
        assert forall|r: int| 0 <= r < g.len() implies #[trigger] g[g.len() - 1 - r] == if r % 4 == 3 {
            ','
        } else {
            d[n - 1 - (r - r / 4)]
        } by {
            if r < 3 {
                assert(g[g.len() - 1 - r] == d.skip(n - 3)[2 - r]);
            } else if r == 3 {
                assert(g[g.len() - 1 - r] == ',');
            } else {
                let q = r - 4;
                assert(g[g.len() - 1 - r] == h[h.len() - 1 - q]);
                assert(q % 4 == r % 4);
                assert(q / 4 == r / 4 - 1);
                if r % 4 != 3 {
                    assert(head[head.len() - 1 - (q - q / 4)] == d[n - 1 - (r - r / 4)]);
                }
            }
        }
    }
}

proof fn lemma_decimal_length(n: nat)
    ensures
        decimal(n).len() >= 1,
        n < 1000 ==> decimal(n).len() <= 3,
        n >= 1000 ==> decimal(n).len() >= 4,
    decreases n,
{
    if n >= 10 {
        lemma_decimal_length(n / 10);
        if n >= 100 {
            lemma_decimal_length(n / 100);
            assert(decimal(n / 10).len() >= 2) by {
                assert((n / 10) / 10 == n / 100);
            }
        }
        if n >= 1000 {
            assert(decimal(n / 10).len() >= 3) by {
                assert((n / 10) / 10 == n / 100);
                lemma_decimal_length(n / 1000);
                assert((n / 100) / 10 == n / 1000);
                assert(decimal(n / 100).len() >= 2);
            }
        }
        if n < 1000 {
            assert(n / 10 < 100);
            if n / 10 >= 10 {
                assert((n / 10) / 10 < 10);
                assert(decimal(n / 10).len() == decimal((n / 10) / 10).len() + 1);
            }
        }
    }
}

/// Grouping cuts the digits into threes from the right, behind a lead group
/// of one to three digits: the count opens with a digit, and it holds a comma
/// exactly when it is 1000 or more.
pub proof fn grouping_cuts_threes_from_the_right(v: nat)
    ensures
        grouped_shape(decimal(v), group_thousands(decimal(v))),
        group_thousands(decimal(v))[0] != ',',
        group_thousands(decimal(v)).contains(',') <==> v >= 1000,
{
    let d = decimal(v);
    let g = group_thousands(d);
    lemma_decimal_length(v);
    lemma_decimal_has_no_comma(v);
    lemma_group_shape(d);
    let n = d.len() as int;
    let top = g.len() - 1;
    assert(top % 4 != 3) by {
        assert(g.len() == n + (n - 1) / 3);
    }
    assert(g[g.len() - 1 - top] != ',') by {
        assert(d[n - 1 - (top - top / 4)] != ',');
    }
    if v >= 1000 {
        assert(g[g.len() - 1 - 3] == ',');
    } else {
        assert(g.len() == n);
        assert(!g.contains(',')) by {
            if g.contains(',') {
                let i = choose|i: int| 0 <= i < g.len() && g[i] == ',';
                let r = g.len() - 1 - i;
                assert(g[g.len() - 1 - r] == ',');
                assert(d[n - 1 - (r - r / 4)] != ',');
            }
        }
    }
}

} // verus!
