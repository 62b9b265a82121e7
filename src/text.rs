use vstd::prelude::*;

verus! {

/// `s` with every occurrence of `from` replaced by `to`, matching from left to
/// right without overlap. An empty `from` matches before each character and
/// at the end.
pub open spec fn replaced(s: Seq<char>, from: Seq<char>, to: Seq<char>) -> Seq<char>
    decreases s.len(),
{
    if from.len() == 0 {
        if s.len() == 0 {
            to
        } else {
            to + seq![s[0]] + replaced(s.skip(1), from, to)
        }
    } else if s.len() < from.len() {
        s
    } else if s.take(from.len() as int) == from {
        to + replaced(s.skip(from.len() as int), from, to)
    } else {
        seq![s[0]] + replaced(s.skip(1), from, to)
    }
}

/// The characters of `s`, in order.
fn chars_of(s: &str) -> (r: Vec<char>)
    ensures
        r@ == s@,
{
    let n = s.unicode_len();
    let mut r: Vec<char> = Vec::new();
    let mut i: usize = 0;
    while i < n
        invariant
            n == s@.len(),
            i <= n,
            r@ == s@.take(i as int),
        decreases n - i,
    {
        r.push(s.get_char(i));
        i += 1;
        assert(r@ =~= s@.take(i as int));
    }
    assert(r@ =~= s@);
    r
}

/// Whether `pat` occurs in `s` at position `at`.
fn occurs_at(s: &Vec<char>, pat: &Vec<char>, at: usize) -> (r: bool)
    requires
        at + pat@.len() <= s@.len(),
    ensures
        r == (s@.subrange(at as int, at + pat@.len()) == pat@),
{
    let m = pat.len();
    let n = s.len();
    let mut j: usize = 0;
    while j < m
        invariant
            m == pat@.len(),
            n == s@.len(),
            at + m <= s@.len(),
            j <= m,
            forall|k: int| 0 <= k < j ==> s@[at + k] == pat@[k],
        decreases m - j,
    {
        if s[at + j] != pat[j] {
            assert(s@.subrange(at as int, at + m)[j as int] != pat@[j as int]);
            return false;
        }
        j += 1;
    }
    assert(s@.subrange(at as int, at + m) =~= pat@);
    true
}

proof fn lemma_replaced_empty_step(s: Seq<char>, from: Seq<char>, to: Seq<char>, i: int)
    requires
        from.len() == 0,
        0 <= i < s.len(),
    ensures
        replaced(s.skip(i), from, to) == to + seq![s[i]] + replaced(s.skip(i + 1), from, to),
{
    assert(s.skip(i).skip(1) =~= s.skip(i + 1));
}

proof fn lemma_replaced_match_step(s: Seq<char>, from: Seq<char>, to: Seq<char>, i: int)
    requires
        from.len() > 0,
        0 <= i,
        i + from.len() <= s.len(),
        s.subrange(i, i + from.len()) == from,
    ensures
        replaced(s.skip(i), from, to) == to + replaced(s.skip(i + from.len()), from, to),
{
    assert(s.skip(i).take(from.len() as int) =~= s.subrange(i, i + from.len()));
    assert(s.skip(i).skip(from.len() as int) =~= s.skip(i + from.len()));
}

proof fn lemma_replaced_miss_step(s: Seq<char>, from: Seq<char>, to: Seq<char>, i: int)
    requires
        from.len() > 0,
        0 <= i,
        i + from.len() <= s.len(),
        s.subrange(i, i + from.len()) != from,
    ensures
        replaced(s.skip(i), from, to) == seq![s[i]] + replaced(s.skip(i + 1), from, to),
{
    assert(s.skip(i).take(from.len() as int) =~= s.subrange(i, i + from.len()));
    assert(s.skip(i).skip(1) =~= s.skip(i + 1));
}

/// Returns `s` with every occurrence of `from` replaced by `to`.
pub fn replace_all(s: &str, from: &str, to: &str) -> (r: String)
    ensures
        r@ == replaced(s@, from@, to@),
{
    let sv = chars_of(s);
    let fv = chars_of(from);
    let n = sv.len();
    let m = fv.len();
    let mut out = String::new();
    assert(s@.skip(0) =~= s@);
    assert(out@ + replaced(s@.skip(0), from@, to@) =~= replaced(s@, from@, to@));
    if m == 0 {
        let mut i: usize = 0;
        while i < n
            invariant
                n == s@.len(),
                from@.len() == 0,
                i <= n,
                out@ + replaced(s@.skip(i as int), from@, to@) == replaced(s@, from@, to@),
            decreases n - i,
        {
            proof {
                lemma_replaced_empty_step(s@, from@, to@, i as int);
            }
            out.append(to);
            out.append(s.substring_char(i, i + 1));
            assert(s@.subrange(i as int, i + 1) =~= seq![s@[i as int]]);
            i += 1;
            assert(out@ + replaced(s@.skip(i as int), from@, to@) =~= replaced(s@, from@, to@));
        }
        assert(s@.skip(n as int) =~= Seq::<char>::empty());
        out.append(to);
        return out;
    }
    let mut i: usize = 0;
    let mut start: usize = 0;
    assert(out@ + s@.subrange(0, 0) + replaced(s@.skip(0), from@, to@) =~= replaced(s@, from@, to@));
    while m <= n - i
        invariant
            sv@ == s@,
            fv@ == from@,
            n == s@.len(),
            m == from@.len(),
            m > 0,
            start <= i <= n,
            out@ + s@.subrange(start as int, i as int) + replaced(s@.skip(i as int), from@, to@)
                == replaced(s@, from@, to@),
        decreases n - i,
    {
        if occurs_at(&sv, &fv, i) {
            proof {
                lemma_replaced_match_step(s@, from@, to@, i as int);
            }
            out.append(s.substring_char(start, i));
            out.append(to);
            i += m;
            start = i;
            assert(s@.subrange(start as int, i as int) =~= Seq::<char>::empty());
            assert(out@ + s@.subrange(start as int, i as int) + replaced(s@.skip(i as int), from@, to@)
                =~= replaced(s@, from@, to@));
        } else {
            proof {
                lemma_replaced_miss_step(s@, from@, to@, i as int);
            }
            assert(s@.subrange(start as int, i + 1) =~= s@.subrange(start as int, i as int) + seq![s@[i as int]]);
            i += 1;
            assert(out@ + s@.subrange(start as int, i as int) + replaced(s@.skip(i as int), from@, to@)
                =~= replaced(s@, from@, to@));
        }
    }
    assert(replaced(s@.skip(i as int), from@, to@) == s@.skip(i as int));
    assert(s@.subrange(start as int, i as int) + s@.skip(i as int) =~= s@.subrange(start as int, n as int));
    out.append(s.substring_char(start, n));
    out
}

} // verus!
