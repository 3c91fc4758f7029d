//! Small verified text helpers shared by the registry, the protocol and
//! the segment producers.

use vstd::prelude::*;

verus! {

/// Whether two string slices hold the same characters.
pub fn str_eq(a: &str, b: &str) -> (r: bool)
    ensures
        r == (a@ == b@),
{
    let la = a.unicode_len();
    let lb = b.unicode_len();
    if la != lb {
        return false;
    }
    let mut i: usize = 0;
    while i < la
        invariant
            i <= la,
            la == a@.len(),
            lb == b@.len(),
            la == lb,
            forall|j: int| 0 <= j < i ==> a@[j] == b@[j],
        decreases la - i,
    {
        if a.get_char(i) != b.get_char(i) {
            return false;
        }
        i = i + 1;
    }
    proof {
        assert(a@ =~= b@);
    }
    true
}

/// The decimal digit `d` as a character.
pub open spec fn digit_char(d: int) -> char {
    ((48 + d) as u8) as char
}

/// The decimal numeral of `n`, most significant digit first, no sign and
/// no padding.
pub open spec fn dec_of(n: int) -> Seq<char>
    decreases n,
{
    if n < 10 {
        seq![digit_char(n)]
    } else {
        dec_of(n / 10).push(digit_char(n % 10))
    }
}

/// The one-character numeral of a single decimal digit.
fn digit_str(d: u8) -> (r: &'static str)
    requires
        d < 10,
    ensures
        r@ == seq![digit_char(d as int)],
{
    proof {
        reveal_strlit("0");
        reveal_strlit("1");
        reveal_strlit("2");
        reveal_strlit("3");
        reveal_strlit("4");
        reveal_strlit("5");
        reveal_strlit("6");
        reveal_strlit("7");
        reveal_strlit("8");
        reveal_strlit("9");
    }
    let r = match d {
        0 => "0",
        1 => "1",
        2 => "2",
        3 => "3",
        4 => "4",
        5 => "5",
        6 => "6",
        7 => "7",
        8 => "8",
        _ => "9",
    };
    proof {
        assert(r@ =~= seq![digit_char(d as int)]);
    }
    r
}

/// Writes `n` in decimal.
pub fn dec_u8(n: u8) -> (r: String)
    ensures
        r@ == dec_of(n as int),
{
    let mut r = String::new();
    if n >= 100 {
        r.append(digit_str(n / 100));
        r.append(digit_str((n / 10) % 10));
        r.append(digit_str(n % 10));
        proof {
            reveal_with_fuel(dec_of, 3);
            assert(n as int / 10 / 10 == n as int / 100) by (nonlinear_arith);
            assert(n as int / 10 >= 10 && n as int / 100 < 10);
            assert(r@ =~= dec_of(n as int));
        }
    } else if n >= 10 {
        r.append(digit_str(n / 10));
        r.append(digit_str(n % 10));
        proof {
            reveal_with_fuel(dec_of, 2);
            assert(r@ =~= dec_of(n as int));
        }
    } else {
        r.append(digit_str(n));
        proof {
            assert(r@ =~= dec_of(n as int));
        }
    }
    r
}

/// The characters a probe's answer is stripped of at its ends.
pub open spec fn is_line_space(c: char) -> bool {
    c == ' ' || c == '\n' || c == '\r' || c == '\t'
}

/// `s` with its leading line spaces dropped.
pub open spec fn trim_front(s: Seq<char>) -> Seq<char>
    decreases s.len(),
{
    if s.len() > 0 && is_line_space(s[0]) {
        trim_front(s.drop_first())
    } else {
        s
    }
}

/// `s` with its trailing line spaces dropped.
pub open spec fn trim_back(s: Seq<char>) -> Seq<char>
    decreases s.len(),
{
    if s.len() > 0 && is_line_space(s.last()) {
        trim_back(s.drop_last())
    } else {
        s
    }
}

/// Whether `c` is one of the characters `trim_front` and `trim_back`
/// strip.
pub fn line_space(c: char) -> (r: bool)
    ensures
        r == is_line_space(c),
{
    c == ' ' || c == '\n' || c == '\r' || c == '\t'
}

/// `s` with its trailing line spaces stripped.
pub fn trim_end(s: &str) -> (r: String)
    ensures
        r@ == trim_back(s@),
{
    let n = s.unicode_len();
    let mut hi: usize = n;
    proof {
        assert(s@.take(n as int) =~= s@);
    }
    while hi > 0 && line_space(s.get_char(hi - 1))
        invariant
            hi <= n,
            n == s@.len(),
            trim_back(s@) == trim_back(s@.take(hi as int)),
        decreases hi,
    {
        proof {
            let w = s@.take(hi as int);
            assert(w.last() == s@[hi as int - 1]);
            assert(w.drop_last() =~= s@.take(hi as int - 1));
        }
        hi = hi - 1;
    }
    proof {
        if hi == 0 {
            assert(s@.take(0) =~= Seq::<char>::empty());
        }
        assert(trim_back(s@) == s@.take(hi as int));
        assert(s@.take(hi as int) =~= s@.subrange(0, hi as int));
    }
    s.substring_char(0, hi).to_owned()
}

/// The colon-separated fields of `s` after the ones already collected in
/// `acc`, with `cur` the partial field read so far: every separator
/// splits, and empty fields are kept.
pub open spec fn split_acc(s: Seq<char>, cur: Seq<char>, acc: Seq<Seq<char>>) -> Seq<Seq<char>>
    decreases s.len(),
{
    if s.len() == 0 {
        acc.push(cur)
    } else if s[0] == ':' {
        split_acc(s.drop_first(), Seq::empty(), acc.push(cur))
    } else {
        split_acc(s.drop_first(), cur.push(s[0]), acc)
    }
}

/// The fields of `s` split on every colon, empty fields kept; there is
/// always at least the one field before the first separator.
pub open spec fn colon_fields(s: Seq<char>) -> Seq<Seq<char>> {
    split_acc(s, Seq::empty(), Seq::empty())
}

/// The number of fields only ever grows along `split_acc`.
proof fn lemma_split_acc_len(s: Seq<char>, cur: Seq<char>, acc: Seq<Seq<char>>)
    ensures
        split_acc(s, cur, acc).len() > acc.len(),
    decreases s.len(),
{
    if s.len() != 0 {
        if s[0] == ':' {
            lemma_split_acc_len(s.drop_first(), Seq::empty(), acc.push(cur));
        } else {
            lemma_split_acc_len(s.drop_first(), cur.push(s[0]), acc);
        }
    }
}

/// Splits `s` on every colon, keeping empty fields, as the probes'
/// colon-separated answers are read.
pub fn split_colon(s: &str) -> (r: Vec<String>)
    ensures
        Seq::new(r@.len(), |i: int| r@[i]@) == colon_fields(s@),
        r@.len() >= 1,
{
    let n = s.unicode_len();
    let mut r: Vec<String> = Vec::new();
    let mut st: usize = 0;
    let mut k: usize = 0;
    proof {
        assert(s@.skip(0) =~= s@);
        assert(s@.subrange(0, 0) =~= Seq::<char>::empty());
        assert(Seq::new(r@.len(), |i: int| r@[i]@) =~= Seq::<Seq<char>>::empty());
    }
    while k < n
        invariant
            st <= k <= n,
            n == s@.len(),
            colon_fields(s@) == split_acc(
                s@.skip(k as int),
                s@.subrange(st as int, k as int),
                Seq::new(r@.len(), |i: int| r@[i]@),
            ),
        decreases n - k,
    {
        proof {
            assert(s@.skip(k as int)[0] == s@[k as int]);
            assert(s@.skip(k as int).drop_first() =~= s@.skip(k as int + 1));
        }
        if s.get_char(k) == ':' {
            let ghost st0 = st as int;
            let field = s.substring_char(st, k).to_owned();
            let ghost acc0 = Seq::new(r@.len(), |i: int| r@[i]@);
            r.push(field);
            st = k + 1;
            proof {
                assert(Seq::new(r@.len(), |i: int| r@[i]@) =~= acc0.push(
                    s@.subrange(st0, k as int),
                ));
                assert(s@.subrange(st as int, k as int + 1) =~= Seq::<char>::empty());
            }
        } else {
            proof {
                assert(s@.subrange(st as int, k as int + 1) =~= s@.subrange(
                    st as int,
                    k as int,
                ).push(s@[k as int]));
            }
        }
        k = k + 1;
    }
    let last = s.substring_char(st, n).to_owned();
    let ghost acc0 = Seq::new(r@.len(), |i: int| r@[i]@);
    r.push(last);
    proof {
        assert(s@.skip(n as int) =~= Seq::<char>::empty());
        assert(Seq::new(r@.len(), |i: int| r@[i]@) =~= acc0.push(
            s@.subrange(st as int, n as int),
        ));
        lemma_split_acc_len(s@, Seq::empty(), Seq::empty());
    }
    r
}

} // verus!
