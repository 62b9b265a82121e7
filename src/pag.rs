use crate::doc::{Elm, Par};
use vstd::prelude::*;

verus! {

/// The state of the page splitter after it has read `elms`: the pages that it
/// has completed, and the page that it is filling.
pub open spec fn split_state(elms: Seq<Elm>) -> (Seq<Seq<Par>>, Seq<Par>)
    decreases elms.len(),
{
    if elms.len() == 0 {
        (Seq::empty(), Seq::empty())
    } else {
        let (done, cur) = split_state(elms.drop_last());
        match elms.last() {
            Elm::Par(p) => (done, cur.push(p)),
            Elm::PagBrk => if cur.len() > 0 {
                (done.push(cur), Seq::empty())
            } else {
                (done, cur)
            },
        }
    }
}

/// The pages of paragraphs that `elms` is cut into: a page break ends the page
/// being filled, and a page is kept only where it holds a paragraph.
pub open spec fn pages_of(elms: Seq<Elm>) -> Seq<Seq<Par>> {
    let (done, cur) = split_state(elms);
    if cur.len() > 0 {
        done.push(cur)
    } else {
        done
    }
}

/// The paragraphs of `elms`, in order.
pub open spec fn pars_of(elms: Seq<Elm>) -> Seq<Par>
    decreases elms.len(),
{
    if elms.len() == 0 {
        Seq::empty()
    } else {
        match elms.last() {
            Elm::Par(p) => pars_of(elms.drop_last()).push(p),
            Elm::PagBrk => pars_of(elms.drop_last()),
        }
    }
}

/// The number of page breaks in `elms`.
pub open spec fn breaks_of(elms: Seq<Elm>) -> nat
    decreases elms.len(),
{
    if elms.len() == 0 {
        0
    } else {
        match elms.last() {
            Elm::Par(_) => breaks_of(elms.drop_last()),
            Elm::PagBrk => breaks_of(elms.drop_last()) + 1,
        }
    }
}

proof fn lemma_split_state(elms: Seq<Elm>)
    ensures
        split_state(elms).0.len() <= breaks_of(elms),
        forall|i: int| 0 <= i < split_state(elms).0.len() ==> #[trigger] split_state(elms).0[i].len() > 0,
        split_state(elms).0.flatten() + split_state(elms).1 == pars_of(elms),
    decreases elms.len(),
{
    if elms.len() > 0 {
        let init = elms.drop_last();
        lemma_split_state(init);
        let (done, cur) = split_state(init);
        match elms.last() {
            Elm::Par(p) => {
                assert(done.flatten() + cur.push(p) =~= (done.flatten() + cur).push(p));
            },
            Elm::PagBrk => {
                if cur.len() > 0 {
                    done.lemma_flatten_push(cur);
                    assert(done.push(cur).flatten() + Seq::<Par>::empty() =~= done.flatten() + cur);
                }
            },
        }
    } else {
        assert(Seq::<Seq<Par>>::empty().flatten() + Seq::<Par>::empty() =~= Seq::<Par>::empty());
    }
}

/// Pagination keeps the paragraphs and their order: it emits no more pages
/// than there are page breaks plus one, no page that is empty, and pages whose
/// paragraphs, read in order, are exactly the paragraphs of the elements.
pub proof fn lemma_pages_of(elms: Seq<Elm>)
    ensures
        pages_of(elms).len() <= breaks_of(elms) + 1,
        forall|i: int| 0 <= i < pages_of(elms).len() ==> #[trigger] pages_of(elms)[i].len() > 0,
        pages_of(elms).flatten() == pars_of(elms),
{
    lemma_split_state(elms);
    let (done, cur) = split_state(elms);
    if cur.len() > 0 {
        done.lemma_flatten_push(cur);
    } else {
        assert(done.flatten() + cur =~= done.flatten());
    }
}

/// Elements that hold no paragraph give no page, however many page breaks
/// they hold.
pub proof fn lemma_no_pars_no_pages(elms: Seq<Elm>)
    requires
        pars_of(elms).len() == 0,
    ensures
        pages_of(elms).len() == 0,
{
    lemma_pages_of(elms);
    if pages_of(elms).len() > 0 {
        let pages = pages_of(elms);
        pages.drop_last().lemma_flatten_push(pages.last());
        assert(pages.drop_last().push(pages.last()) =~= pages);
    }
}

/// A page break before any paragraph adds no page boundary.
pub proof fn lemma_leading_break_absorbed(elms: Seq<Elm>)
    ensures
        split_state(seq![Elm::PagBrk] + elms) == split_state(elms),
        pages_of(seq![Elm::PagBrk] + elms) == pages_of(elms),
    decreases elms.len(),
{
    let front = seq![Elm::PagBrk] + elms;
    if elms.len() > 0 {
        assert(front.drop_last() =~= seq![Elm::PagBrk] + elms.drop_last());
        assert(front.last() == elms.last());
        lemma_leading_break_absorbed(elms.drop_last());
    } else {
        assert(front.drop_last() =~= Seq::<Elm>::empty());
        assert(front.last() == Elm::PagBrk);
        assert(split_state(Seq::<Elm>::empty()) == (Seq::<Seq<Par>>::empty(), Seq::<Par>::empty()));
    }
}

/// Two element lists that leave the splitter in the same state keep doing so
/// under any common continuation.
proof fn lemma_same_state_extends(x: Seq<Elm>, y: Seq<Elm>, b: Seq<Elm>)
    requires
        split_state(x) == split_state(y),
    ensures
        split_state(x + b) == split_state(y + b),
    decreases b.len(),
{
    if b.len() == 0 {
        assert(x + b =~= x);
        assert(y + b =~= y);
    } else {
        lemma_same_state_extends(x, y, b.drop_last());
        assert((x + b).drop_last() =~= x + b.drop_last());
        assert((y + b).drop_last() =~= y + b.drop_last());
        assert((x + b).last() == b.last());
        assert((y + b).last() == b.last());
    }
}

/// A page break right after another adds no page boundary, wherever the
/// two stand.
pub proof fn lemma_double_break_absorbed(a: Seq<Elm>, b: Seq<Elm>)
    ensures
        pages_of(a + seq![Elm::PagBrk, Elm::PagBrk] + b) == pages_of(a + seq![Elm::PagBrk] + b),
{
    let one = a.push(Elm::PagBrk);
    let two = one.push(Elm::PagBrk);
    assert(two.drop_last() =~= one);
    assert(one.drop_last() =~= a);
    lemma_same_state_extends(two, one, b);
    assert(a + seq![Elm::PagBrk, Elm::PagBrk] + b =~= two + b);
    assert(a + seq![Elm::PagBrk] + b =~= one + b);
}

} // verus!
