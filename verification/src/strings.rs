//! Small verified string utilities shared by the template engine and the
//! variable providers: equality of string slices and character search.

use vstd::prelude::*;

verus! {

/// Character-by-character equality of two string slices.
pub fn str_eq(a: &str, b: &str) -> (r: bool)
    ensures
        r == (a@ == b@),
{
    let alen = a.unicode_len();
    let blen = b.unicode_len();
    if alen != blen {
        assert(a@ != b@) by {
            assert(a@.len() != b@.len());
        }
        return false;
    }
    let mut i: usize = 0;
    while i < alen
        invariant
            alen == a@.len(),
            alen == b@.len(),
            i <= alen,
            forall|j: int| 0 <= j < i ==> a@[j] == b@[j],
        decreases alen - i,
    {
        if a.get_char(i) != b.get_char(i) {
            assert(a@ != b@);
            return false;
        }
        i += 1;
    }
    assert(a@ =~= b@);
    true
}

/// The index of the last occurrence of `c` in `s`, or `-1` when `c` does not
/// occur in `s`.
pub open spec fn last_index_of(s: Seq<char>, c: char) -> int
    decreases s.len(),
{
    if s.len() == 0 {
        -1
    } else if s[s.len() - 1] == c {
        s.len() - 1
    } else {
        last_index_of(s.drop_last(), c)
    }
}

pub proof fn lemma_last_index_of_bounds(s: Seq<char>, c: char)
    ensures
        -1 <= last_index_of(s, c) < s.len(),
        last_index_of(s, c) >= 0 ==> s[last_index_of(s, c)] == c,
    decreases s.len(),
{
    if s.len() > 0 && s[s.len() - 1] != c {
        lemma_last_index_of_bounds(s.drop_last(), c);
    }
}

/// Finds the last occurrence of `c` in `s`.
pub fn find_last_char(s: &str, c: char) -> (r: Option<usize>)
    ensures
        match r {
            Some(i) => last_index_of(s@, c) == i as int && i < s@.len(),
            None => last_index_of(s@, c) == -1,
        },
{
    let n = s.unicode_len();
    let mut i: usize = n;
    assert(s@.take(n as int) =~= s@);
    while i > 0
        invariant
            i <= n,
            n == s@.len(),
            last_index_of(s@, c) == last_index_of(s@.take(i as int), c),
        decreases i,
    {
        let ghost pre = s@.take(i as int);
        if s.get_char(i - 1) == c {
            assert(last_index_of(pre, c) == i - 1) by {
                assert(pre.len() == i);
                assert(pre[i - 1] == c);
            }
            return Some(i - 1);
        }
        assert(pre[pre.len() - 1] != c);
        assert(pre.drop_last() =~= s@.take(i - 1));
        i -= 1;
    }
    assert(s@.take(0) =~= Seq::<char>::empty());
    None
}

/// Element-by-element equality of two vectors of strings.
pub fn str_vec_eq(a: &Vec<String>, b: &Vec<String>) -> (r: bool)
    ensures
        r == (a.deep_view() == b.deep_view()),
{
    let n = a.len();
    if n != b.len() {
        assert(a.deep_view().len() != b.deep_view().len());
        return false;
    }
    let mut i: usize = 0;
    while i < n
        invariant
            i <= n,
            n == a@.len(),
            n == b@.len(),
            forall|j: int| 0 <= j < i ==> a.deep_view()[j] == b.deep_view()[j],
        decreases n - i,
    {
        if !str_eq(a[i].as_str(), b[i].as_str()) {
            assert(a.deep_view()[i as int] != b.deep_view()[i as int]);
            return false;
        }
        i += 1;
    }
    assert(a.deep_view() =~= b.deep_view());
    true
}

/// The character for one decimal digit.
pub open spec fn digit_char(d: int) -> char {
    ((48 + d) as u8) as char
}

/// The decimal digits of `n`, most significant first.
pub open spec fn spec_digits(n: nat) -> Seq<char>
    decreases n,
{
    if n < 10 {
        seq![digit_char(n as int)]
    } else {
        spec_digits(n / 10) + seq![digit_char((n % 10) as int)]
    }
}

pub open spec fn spec_zeros(k: nat) -> Seq<char>
    decreases k,
{
    if k == 0 {
        Seq::<char>::empty()
    } else {
        spec_zeros((k - 1) as nat) + seq!['0']
    }
}

/// The decimal digits of `n`, left-padded with zeros to at least `w`
/// characters.
pub open spec fn spec_padded(n: nat, w: nat) -> Seq<char> {
    if spec_digits(n).len() >= w {
        spec_digits(n)
    } else {
        spec_zeros((w - spec_digits(n).len()) as nat) + spec_digits(n)
    }
}

fn digit_str(d: u32) -> (r: &'static str)
    requires
        d < 10,
    ensures
        r@ == seq![digit_char(d as int)],
{
    let r: &'static str = match d {
        0 => "0",
        1 => "1",
        2 => "2",
        3 => "3",
        4 => "4",
        5 => "5",
        6 => "6",
        7 => "7",
        8 => "8",
        _ => "9",
    };
    proof {
        reveal_strlit("0");
        reveal_strlit("1");
        reveal_strlit("2");
        reveal_strlit("3");
        reveal_strlit("4");
        reveal_strlit("5");
        reveal_strlit("6");
        reveal_strlit("7");
        reveal_strlit("8");
        reveal_strlit("9");
    }
    r
}

fn push_digits(n: u32, out: &mut String)
    ensures
        final(out)@ == old(out)@ + spec_digits(n as nat),
    decreases n,
{
    if n < 10 {
        out.append(digit_str(n));
    } else {
        push_digits(n / 10, out);
        out.append(digit_str(n % 10));
        assert(final(out)@ =~= old(out)@ + spec_digits(n as nat));
    }
}

fn count_digits(n: u32) -> (r: usize)
    ensures
        r == spec_digits(n as nat).len(),
    decreases n,
{
    if n < 10 {
        1
    } else {
        let c = count_digits(n / 10);
        assert(spec_digits(n as nat).len() == spec_digits(n as nat / 10).len() + 1);
        assert(c < usize::MAX) by {
            crate::strings::lemma_digits_len_bound(n as nat / 10);
        }
        1 + c
    }
}

pub proof fn lemma_digits_len_bound(n: nat)
    ensures
        spec_digits(n).len() <= n + 1,
    decreases n,
{
    if n >= 10 {
        lemma_digits_len_bound(n / 10);
        assert(n / 10 <= n - 1) by (nonlinear_arith)
            requires
                n >= 10,
        ;
    }
}

/// The decimal representation of `n`, zero-padded to at least `width`
/// characters.
pub fn u32_padded(n: u32, width: usize) -> (r: String)
    ensures
        r@ == spec_padded(n as nat, width as nat),
{
    let d = count_digits(n);
    let mut s = String::new();
    let mut k: usize = d;
    assert(s@ =~= spec_zeros(0));
    while k < width
        invariant
            d <= k,
            k <= width || k == d,
            d == spec_digits(n as nat).len(),
            s@ == spec_zeros((k - d) as nat),
        decreases width - k,
    {
        proof {
            reveal_strlit("0");
        }
        s.append("0");
        assert(s@ =~= spec_zeros((k + 1 - d) as nat));
        k += 1;
    }
    push_digits(n, &mut s);
    assert(s@ == spec_padded(n as nat, width as nat)) by {
        if d >= width {
            assert(k == d);
            assert(spec_zeros(0) + spec_digits(n as nat) =~= spec_digits(n as nat));
        } else {
            assert(k == width);
        }
    }
    s
}

} // verus!
