use vstd::prelude::*;

verus! {

/// The lower-case hexadecimal digit for `d` (`d < 16`).
pub open spec fn hex_char(d: nat) -> char {
    seq!['0', '1', '2', '3', '4', '5', '6', '7', '8', '9', 'a', 'b', 'c', 'd', 'e', 'f'][d as int]
}

/// The lower-case hexadecimal rendering of `n`, without leading zeros
/// (`"0"` for zero).
pub open spec fn hex_digits(n: nat) -> Seq<char>
    decreases n,
{
    if n < 16 {
        seq![hex_char(n)]
    } else {
        hex_digits(n / 16).push(hex_char(n % 16))
    }
}

/// `s` with every `'0'` removed.
pub open spec fn strip_zeros(s: Seq<char>) -> Seq<char> {
    s.filter(|c: char| c != '0')
}

/// `needle` occurs in `hay` as a contiguous run.
pub open spec fn occurs_in(needle: Seq<char>, hay: Seq<char>) -> bool {
    exists|i: int|
        0 <= i && i + needle.len() <= hay.len() && #[trigger] hay.subrange(i, i + needle.len())
            == needle
}

/// Appends the hexadecimal digits of `n`, leaving out every zero digit.
pub fn push_hex_nonzero(n: u64, out: &mut String)
    ensures
        final(out)@ == old(out)@ + strip_zeros(hex_digits(n as nat)),
    decreases n,
{
    let d: u64 = n % 16;
    if n >= 16 {
        push_hex_nonzero(n / 16, out);
    }
    let ghost before = out@;
    if d != 0 {
        proof {
            reveal_strlit("0123456789abcdef");
        }
        let digit = "0123456789abcdef".substring_char(d as usize, d as usize + 1);
        out.append(digit);
    }
    proof {
        let c = hex_char(d as nat);
        let pred = |c: char| c != '0';
        reveal_strlit("0123456789abcdef");
        assert("0123456789abcdef"@ =~= seq![
            '0', '1', '2', '3', '4', '5', '6', '7', '8', '9', 'a', 'b', 'c', 'd', 'e', 'f'
        ]);
        if n >= 16 {
            let hs = hex_digits((n / 16) as nat);
            assert(hex_digits(n as nat) == hs.push(c));
            assert(hs.push(c).drop_last() =~= hs);
            reveal(Seq::filter);
            assert(strip_zeros(hs.push(c)) == if pred(c) {
                strip_zeros(hs).push(c)
            } else {
                strip_zeros(hs)
            });
        } else {
            assert(hex_digits(n as nat) == seq![c]);
            assert(seq![c].drop_last() =~= Seq::<char>::empty());
            reveal_with_fuel(Seq::filter, 2);
        }
        if d != 0 {
            assert(out@ =~= before + seq![c]);
        }
        assert(final(out)@ =~= old(out)@ + strip_zeros(hex_digits(n as nat)));
    }
}

/// Whether `s` starts with `prefix`.
pub fn has_prefix(s: &str, prefix: &str) -> (r: bool)
    ensures
        r == prefix@.is_prefix_of(s@),
{
    let n = prefix.unicode_len();
    let m = s.unicode_len();
    if n > m {
        return false;
    }
    let mut i: usize = 0;
    while i < n
        invariant
            n == prefix@.len(),
            m == s@.len(),
            n <= m,
            i <= n,
            forall|k: int| 0 <= k < i ==> prefix@[k] == s@[k],
        decreases n - i,
    {
        if prefix.get_char(i) != s.get_char(i) {
            assert(prefix@ != s@.subrange(0, n as int)) by {
                assert(s@.subrange(0, n as int)[i as int] == s@[i as int]);
            }
            return false;
        }
        i = i + 1;
    }
    assert(prefix@ =~= s@.subrange(0, n as int));
    true
}

/// Whether `needle` occurs in `hay`.
pub fn contains_chars(hay: &str, needle: &str) -> (r: bool)
    ensures
        r == occurs_in(needle@, hay@),
{
    let n = needle.unicode_len();
    let m = hay.unicode_len();
    if n > m {
        return false;
    }
    let mut i: usize = 0;
    while i <= m - n
        invariant
            n == needle@.len(),
            m == hay@.len(),
            n <= m,
            i <= m - n + 1,
            forall|k: int|
                0 <= k < i ==> #[trigger] hay@.subrange(k, k + needle@.len()) != needle@,
        decreases m - n + 1 - i,
    {
        let mut j: usize = 0;
        while j < n
            invariant
                n == needle@.len(),
                m == hay@.len(),
                i + n <= m,
                j <= n,
                forall|k: int| 0 <= k < j ==> needle@[k] == hay@[i + k],
            ensures
                j <= n,
                forall|k: int| 0 <= k < j ==> needle@[k] == hay@[i + k],
                j < n ==> needle@[j as int] != hay@[i + j],
            decreases n - j,
        {
            if needle.get_char(j) != hay.get_char(i + j) {
                break;
            }
            j = j + 1;
        }
        if j == n {
            assert(hay@.subrange(i as int, i + n) =~= needle@);
            return true;
        }
        assert(hay@.subrange(i as int, i + n)[j as int] == hay@[i + j]);
        i = i + 1;
    }
    assert(!occurs_in(needle@, hay@)) by {
        if occurs_in(needle@, hay@) {
            let k = choose|k: int|
                0 <= k && k + needle@.len() <= hay@.len() && #[trigger] hay@.subrange(
                    k,
                    k + needle@.len(),
                ) == needle@;
            assert(hay@.subrange(k, k + needle@.len()) != needle@);
        }
    }
    false
}

} // verus!
