use vstd::prelude::*;

verus! {

/// The values that are present in `s`, in order.
pub open spec fn present<T>(s: Seq<Option<T>>) -> Seq<T>
    decreases s.len(),
{
    if s.len() == 0 {
        Seq::empty()
    } else {
        match s.last() {
            Some(v) => present(s.drop_last()).push(v),
            None => present(s.drop_last()),
        }
    }
}

/// Keeps the values that are present, in order; `None` when there are none, so that
/// no overlay is shown.
pub fn collect_attributions<T>(items: Vec<Option<T>>) -> (r: Option<Vec<T>>)
    ensures
        present(items@).len() == 0 ==> r is None,
        present(items@).len() > 0 ==> (r matches Some(v) && v@ == present(items@)),
{
    let mut rest = items;
    let mut out: Vec<T> = Vec::new();
    let ghost all = rest@;
    let ghost mut i: int = 0;
    while rest.len() > 0
        invariant
            0 <= i,
            i + rest@.len() == all.len(),
            rest@ == all.subrange(i, all.len() as int),
            out@ == present(all.take(i)),
        decreases rest.len(),
    {
        let item = rest.remove(0);
        proof {
            assert(all.take(i + 1).drop_last() =~= all.take(i as int));
            assert(all.take(i + 1).last() == item);
            assert(rest@ =~= all.subrange(i + 1, all.len() as int));
        }
        match item {
            Some(v) => out.push(v),
            None => {},
        }
        proof {
            i = i + 1;
        }
    }
    proof {
        assert(all.take(i) =~= all);
    }
    if out.len() == 0 {
        None
    } else {
        Some(out)
    }
}

/// One piece of the attribution overlay: the entry at an index, or the delimiter.
#[derive(Clone, Copy, Debug, PartialEq, Eq, Structural)]
pub enum OverlayItem {
    Entry(usize),
    Separator,
}

/// The entries `0..n` in order, with one delimiter between each two of them.
pub open spec fn overlay_of(n: nat) -> Seq<OverlayItem>
    decreases n,
{
    if n == 0 {
        Seq::empty()
    } else if n == 1 {
        seq![OverlayItem::Entry(0)]
    } else {
        overlay_of((n - 1) as nat).push(OverlayItem::Separator).push(
            OverlayItem::Entry((n - 1) as usize),
        )
    }
}

/// The order in which `n` attributions and their delimiters are laid out.
pub fn overlay_layout(n: usize) -> (r: Vec<OverlayItem>)
    ensures
        r@ == overlay_of(n as nat),
{
    let mut out: Vec<OverlayItem> = Vec::new();
    let mut k: usize = 0;
    while k < n
        invariant
            k <= n,
            out@ == overlay_of(k as nat),
        decreases n - k,
    {
        if k > 0 {
            out.push(OverlayItem::Separator);
        }
        out.push(OverlayItem::Entry(k));
        k = k + 1;
    }
    out
}

} // verus!
