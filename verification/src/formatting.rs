//! Human-readable rendering of integers and integer lists, verified against
//! a mathematical description of decimal notation: a pair type rendered as
//! `(first, last)` and a list type rendered as `[v0, v1, ...]`.

use vstd::prelude::*;
use vstd::string::StringExecFns;

verus! {

/// The decimal digit character for `d`, defined for `0 <= d <= 9`.
pub open spec fn spec_digit_char(d: int) -> char {
    if d == 0 {
        '0'
    } else if d == 1 {
        '1'
    } else if d == 2 {
        '2'
    } else if d == 3 {
        '3'
    } else if d == 4 {
        '4'
    } else if d == 5 {
        '5'
    } else if d == 6 {
        '6'
    } else if d == 7 {
        '7'
    } else if d == 8 {
        '8'
    } else {
        '9'
    }
}

/// Decimal digits of `n`, most significant first, without sign or leading
/// zeros (zero itself is the single character '0').
pub open spec fn spec_udec(n: nat) -> Seq<char>
    decreases n,
{
    if n < 10 {
        seq![spec_digit_char(n as int)]
    } else {
        spec_udec(n / 10) + seq![spec_digit_char((n % 10) as int)]
    }
}

/// Decimal notation of an integer: a leading '-' for negative values.
pub open spec fn spec_dec(v: int) -> Seq<char> {
    if v < 0 {
        seq!['-'] + spec_udec((-v) as nat)
    } else {
        spec_udec(v as nat)
    }
}

/// The single-character string for one decimal digit.
fn digit_str(d: u64) -> (r: &'static str)
    requires
        d < 10,
    ensures
        r@ == seq![spec_digit_char(d as int)],
{
    let r = match d {
        0 => "0",
        1 => "1",
        2 => "2",
        3 => "3",
        4 => "4",
        5 => "5",
        6 => "6",
        7 => "7",
        8 => "8",
        _ => "9",
    };
    proof {
        reveal_strlit("0");
        reveal_strlit("1");
        reveal_strlit("2");
        reveal_strlit("3");
        reveal_strlit("4");
        reveal_strlit("5");
        reveal_strlit("6");
        reveal_strlit("7");
        reveal_strlit("8");
        reveal_strlit("9");
        assert(r@ =~= seq![spec_digit_char(d as int)]);
    }
    r
}

/// The digit characters of a digit stack read from top to bottom: the
/// digits were pushed least significant first, so reading them back to
/// front yields the most significant digit first.
spec fn spec_rev_digits(ds: Seq<u64>) -> Seq<char>
    decreases ds.len(),
{
    if ds.len() == 0 {
        Seq::empty()
    } else {
        seq![spec_digit_char(ds.last() as int)] + spec_rev_digits(ds.drop_last())
    }
}

/// Reading the stack down to position `j` equals reading it down to
/// position `j + 1` followed by the digit at `j`.
proof fn lemma_rev_digits_step(ds: Seq<u64>, j: int, k: int)
    requires
        0 <= j < k <= ds.len(),
    ensures
        spec_rev_digits(ds.subrange(j, k)) =~= spec_rev_digits(ds.subrange(j + 1, k)) + seq![
            spec_digit_char(ds[j] as int),
        ],
    decreases k - j,
{
    if k == j + 1 {
        assert(ds.subrange(j, k) =~= seq![ds[j]]);
        assert(ds.subrange(j + 1, k) =~= Seq::<u64>::empty());
        assert(seq![ds[j]].drop_last() =~= Seq::<u64>::empty());
        assert(spec_rev_digits(seq![ds[j]]) =~= seq![spec_digit_char(ds[j] as int)]);
    } else {
        lemma_rev_digits_step(ds, j, k - 1);
        assert(ds.subrange(j, k).drop_last() =~= ds.subrange(j, k - 1));
        assert(ds.subrange(j + 1, k).drop_last() =~= ds.subrange(j + 1, k - 1));
        assert(ds.subrange(j, k).last() == ds[k - 1]);
        assert(ds.subrange(j + 1, k).last() == ds[k - 1]);
        assert(spec_rev_digits(ds.subrange(j, k)) =~= seq![spec_digit_char(ds[k - 1] as int)]
            + spec_rev_digits(ds.subrange(j, k - 1)));
        assert(spec_rev_digits(ds.subrange(j + 1, k)) =~= seq![spec_digit_char(ds[k - 1] as int)]
            + spec_rev_digits(ds.subrange(j + 1, k - 1)));
    }
}

/// Renders `n` in decimal notation.
pub fn dec_u64(n: u64) -> (s: String)
    ensures
        s@ == spec_udec(n as nat),
{
    let mut digits: Vec<u64> = Vec::new();
    let mut m: u64 = n;
    while m >= 10
        invariant
            spec_udec(n as nat) =~= spec_udec(m as nat) + spec_rev_digits(digits@),
            forall|k: int| 0 <= k < digits@.len() ==> digits@[k] < 10,
        decreases m,
    {
        let d: u64 = m % 10;
        let ghost prev = digits@;
        digits.push(d);
        proof {
            assert(digits@.drop_last() =~= prev);
        }
        m = m / 10;
    }
    let ghost prev = digits@;
    digits.push(m);
    proof {
        assert(digits@.drop_last() =~= prev);
        assert(spec_udec(n as nat) =~= spec_rev_digits(digits@));
        assert(digits@.subrange(0, digits@.len() as int) =~= digits@);
    }
    let mut s: String = String::new();
    let mut i: usize = digits.len();
    while i > 0
        invariant
            i <= digits.len(),
            forall|k: int| 0 <= k < digits@.len() ==> digits@[k] < 10,
            s@ =~= spec_rev_digits(digits@.subrange(i as int, digits@.len() as int)),
        decreases i,
    {
        let d = digit_str(digits[i - 1]);
        s.append(d);
        proof {
            lemma_rev_digits_step(digits@, i - 1, digits@.len() as int);
        }
        i = i - 1;
    }
    proof {
        assert(digits@.subrange(0, digits@.len() as int) =~= digits@);
    }
    s
}

/// Renders `v` in decimal notation, with a leading '-' when negative.
pub fn dec_i64(v: i64) -> (s: String)
    ensures
        s@ == spec_dec(v as int),
{
    if v >= 0 {
        dec_u64(v as u64)
    } else {
        let mag: u64 = if v == i64::MIN {
            9223372036854775808u64
        } else {
            (-v) as u64
        };
        let mut s: String = "-".to_owned();
        let rest = dec_u64(mag);
        s.append(rest.as_str());
        proof {
            reveal_strlit("-");
            assert(s@ =~= spec_dec(v as int));
        }
        s
    }
}

/// An ordered pair of integers, rendered as `(first, last)`.
pub struct MinMax(pub i64, pub i64);

/// The rendering of a pair: the two values in decimal, comma separated,
/// inside parentheses.
pub open spec fn spec_pair_display(x: int, y: int) -> Seq<char> {
    seq!['('] + spec_dec(x) + seq![',', ' '] + spec_dec(y) + seq![')']
}

impl MinMax {
    /// Stores the pair exactly as given.
    pub fn new(x: i64, y: i64) -> (r: MinMax)
        ensures
            r.0 == x,
            r.1 == y,
    {
        MinMax(x, y)
    }

    /// Renders the pair as `(first, last)`.
    pub fn to_display_string(&self) -> (s: String)
        ensures
            s@ == spec_pair_display(self.0 as int, self.1 as int),
    {
        let mut s: String = "(".to_owned();
        let first = dec_i64(self.0);
        s.append(first.as_str());
        s.append(", ");
        let last = dec_i64(self.1);
        s.append(last.as_str());
        s.append(")");
        proof {
            reveal_strlit("(");
            reveal_strlit(", ");
            reveal_strlit(")");
            assert(s@ =~= spec_pair_display(self.0 as int, self.1 as int));
        }
        s
    }
}

/// A list of integers, rendered as `[v0, v1, ...]`.
pub struct List(pub Vec<i32>);

/// The comma-separated rendering of the list elements, without brackets.
pub open spec fn spec_join(v: Seq<i32>) -> Seq<char>
    decreases v.len(),
{
    if v.len() == 0 {
        Seq::empty()
    } else if v.len() == 1 {
        spec_dec(v[0] as int)
    } else {
        spec_join(v.drop_last()) + seq![',', ' '] + spec_dec(v.last() as int)
    }
}

/// The rendering of the whole list: the joined elements inside brackets.
pub open spec fn spec_list_display(v: Seq<i32>) -> Seq<char> {
    seq!['['] + spec_join(v) + seq![']']
}

impl List {
    /// Renders the list as `[v0, v1, ...]`: elements in decimal, comma
    /// separated, inside square brackets.
    pub fn to_display_string(&self) -> (s: String)
        ensures
            s@ == spec_list_display(self.0@),
    {
        proof {
            reveal_strlit("[");
            reveal_strlit("]");
            reveal_strlit(", ");
        }
        let v = &self.0;
        let mut s: String = "[".to_owned();
        let mut count: usize = 0;
        while count < v.len()
            invariant
                count <= v@.len(),
                s@ =~= seq!['['] + spec_join(v@.take(count as int)),
            decreases v@.len() - count,
        {
            proof {
                reveal_strlit(", ");
            }
            if count != 0 {
                s.append(", ");
            }
            let e = dec_i64(v[count] as i64);
            s.append(e.as_str());
            proof {
                assert(v@.take(count + 1 as int).drop_last() =~= v@.take(count as int));
                assert(v@.take(count + 1 as int).last() == v@[count as int]);
                assert(s@ =~= seq!['['] + spec_join(v@.take(count + 1 as int)));
            }
            count = count + 1;
        }
        s.append("]");
        proof {
            assert(v@.take(v@.len() as int) =~= v@);
            assert(s@ =~= spec_list_display(self.0@));
        }
        s
    }
}

} // verus!
