use crate::camera::{role_name, role_text, Camera, LAYER_COUNT};
use crate::registry::cameras_wf;
use vstd::prelude::*;

verus! {

/// Camera `i` composites before camera `j`: lower priority first, and on equal
/// priority the one created first.
pub open spec fn composites_before(cams: Seq<Camera>, i: int, j: int) -> bool {
    cams[i].priority < cams[j].priority || (cams[i].priority == cams[j].priority && i < j)
}

/// `order` lists exactly the active cameras of `cams`, by position, sorted
/// ascending by priority and stable on ties.
pub open spec fn is_composite_order(cams: Seq<Camera>, order: Seq<usize>) -> bool {
    &&& forall|k: int|
        0 <= k < order.len() ==> #[trigger] order[k] < cams.len() && cams[order[k] as int].is_active
    &&& forall|i: int| 0 <= i < cams.len() && #[trigger] cams[i].is_active ==> order.contains(i as usize)
    &&& forall|k: int, l: int|
        0 <= k < l < order.len() ==> composites_before(cams, #[trigger] order[k] as int, #[trigger] order[l] as int)
}

/// The digit that shows a layer.
pub open spec fn layer_text(layer: u8) -> Seq<char> {
    if layer == 0 {
        "0"@
    } else if layer == 1 {
        "1"@
    } else if layer == 2 {
        "2"@
    } else if layer == 3 {
        "3"@
    } else if layer == 4 {
        "4"@
    } else {
        "5"@
    }
}

/// `Role(layer)`.
pub open spec fn entry_text(c: Camera) -> Seq<char> {
    role_text(c.role) + "("@ + layer_text(c.layer) + ")"@
}

/// The entries of the cameras listed by `order`, joined by ` -> `.
pub open spec fn order_text(cams: Seq<Camera>, order: Seq<usize>) -> Seq<char>
    decreases order.len(),
{
    if order.len() == 0 {
        Seq::empty()
    } else if order.len() == 1 {
        entry_text(cams[order[0] as int])
    } else {
        order_text(cams, order.drop_last()) + " -> "@ + entry_text(cams[order.last() as int])
    }
}

/// Two sequences strictly sorted by `composites_before` that hold the same
/// positions are equal.
proof fn lemma_sorted_unique(cams: Seq<Camera>, a: Seq<usize>, b: Seq<usize>)
    requires
        forall|k: int, l: int|
            0 <= k < l < a.len() ==> composites_before(cams, #[trigger] a[k] as int, #[trigger] a[l] as int),
        forall|k: int, l: int|
            0 <= k < l < b.len() ==> composites_before(cams, #[trigger] b[k] as int, #[trigger] b[l] as int),
        forall|x: usize| a.contains(x) <==> b.contains(x),
    ensures
        a == b,
    decreases a.len(),
{
    if a.len() == 0 {
        if b.len() > 0 {
            assert(b.contains(b[0]));
        }
        assert(a =~= b);
    } else {
        assert(a.contains(a[0]));
        let l = choose|l: int| 0 <= l < b.len() && b[l] == a[0];
        assert(b.contains(b[0]));
        let m = choose|m: int| 0 <= m < a.len() && a[m] == b[0];
        if l > 0 {
            assert(composites_before(cams, b[0] as int, b[l] as int));
            if m > 0 {
                assert(composites_before(cams, a[0] as int, a[m] as int));
            }
            assert(false);
        }
        let ta = a.drop_first();
        let tb = b.drop_first();
        assert forall|x: usize| ta.contains(x) <==> tb.contains(x) by {
            if ta.contains(x) {
                let k = choose|k: int| 0 <= k < ta.len() && ta[k] == x;
                assert(composites_before(cams, a[0] as int, a[k + 1] as int));
                assert(a.contains(x));
                let j = choose|j: int| 0 <= j < b.len() && b[j] == x;
                assert(j != 0);
                assert(tb[j - 1] == x);
            }
            if tb.contains(x) {
                let k = choose|k: int| 0 <= k < tb.len() && tb[k] == x;
                assert(composites_before(cams, b[0] as int, b[k + 1] as int));
                assert(b.contains(x));
                let j = choose|j: int| 0 <= j < a.len() && a[j] == x;
                assert(j != 0);
                assert(ta[j - 1] == x);
            }
        }
        assert forall|k: int, l: int| 0 <= k < l < ta.len() implies composites_before(cams, #[trigger] ta[k] as int, #[trigger] ta[l] as int) by {
            assert(ta[k] == a[k + 1] && ta[l] == a[l + 1]);
        }
        assert forall|k: int, l: int| 0 <= k < l < tb.len() implies composites_before(cams, #[trigger] tb[k] as int, #[trigger] tb[l] as int) by {
            assert(tb[k] == b[k + 1] && tb[l] == b[l + 1]);
        }
        lemma_sorted_unique(cams, ta, tb);
        assert(b[0] == a[0]);
        assert forall|k: int| 0 <= k < a.len() implies a[k] == b[k] by {
            if k > 0 {
                assert(a[k] == ta[k - 1] && b[k] == tb[k - 1]);
            }
        }
        assert(a =~= b);
    }
}

/// The composite order of a set of cameras is unique.
pub proof fn lemma_composite_order_unique(cams: Seq<Camera>, a: Seq<usize>, b: Seq<usize>)
    requires
        is_composite_order(cams, a),
        is_composite_order(cams, b),
    ensures
        a == b,
{
    assert forall|x: usize| a.contains(x) <==> b.contains(x) by {
        if a.contains(x) {
            let k = choose|k: int| 0 <= k < a.len() && a[k] == x;
            assert(cams[x as int].is_active);
        }
        if b.contains(x) {
            let k = choose|k: int| 0 <= k < b.len() && b[k] == x;
            assert(cams[x as int].is_active);
        }
    }
    lemma_sorted_unique(cams, a, b);
}

/// Positions of the active cameras, sorted ascending by priority; cameras of
/// equal priority keep their creation order.
pub fn composite_order(cams: &Vec<Camera>) -> (r: Vec<usize>)
    ensures
        is_composite_order(cams@, r@),
{
    let mut r: Vec<usize> = Vec::new();
    let mut i: usize = 0;
    while i < cams.len()
        invariant
            i <= cams@.len(),
            forall|k: int| 0 <= k < r@.len() ==> #[trigger] r@[k] < i && cams@[r@[k] as int].is_active,
            forall|j: int| 0 <= j < i && #[trigger] cams@[j].is_active ==> r@.contains(j as usize),
            forall|k: int, l: int|
                0 <= k < l < r@.len() ==> composites_before(cams@, #[trigger] r@[k] as int, #[trigger] r@[l] as int),
        decreases cams@.len() - i,
    {
        if cams[i].is_active {
            let p = cams[i].priority;
            let mut pos: usize = 0;
            while pos < r.len() && cams[r[pos]].priority <= p
                invariant
                    pos <= r@.len(),
                    forall|k: int| 0 <= k < r@.len() ==> #[trigger] r@[k] < i,
                    i < cams@.len(),
                    forall|k: int| 0 <= k < pos ==> cams@[#[trigger] r@[k] as int].priority <= p,
                decreases r@.len() - pos,
            {
                pos = pos + 1;
            }
            let ghost before = r@;
            r.insert(pos, i);
            assert forall|k: int, l: int|
                0 <= k < l < r@.len() implies composites_before(cams@, #[trigger] r@[k] as int, #[trigger] r@[l] as int) by {
                if l < pos {
                    assert(r@[k] == before[k] && r@[l] == before[l]);
                } else if l == pos {
                    assert(r@[k] == before[k]);
                } else if k == pos {
                    assert(r@[l] == before[l - 1]);
                    assert(cams@[before[pos as int] as int].priority > p);
                    if l - 1 > pos {
                        assert(composites_before(cams@, before[pos as int] as int, before[l - 1] as int));
                    }
                } else if k < pos {
                    assert(r@[k] == before[k] && r@[l] == before[l - 1]);
                } else {
                    assert(r@[k] == before[k - 1] && r@[l] == before[l - 1]);
                }
            }
            assert forall|j: int| 0 <= j <= i && #[trigger] cams@[j].is_active implies r@.contains(j as usize) by {
                if j < i {
                    assert(before.contains(j as usize));
                    let k = choose|k: int| 0 <= k < before.len() && before[k] == j as usize;
                    if k < pos {
                        assert(r@[k] == j as usize);
                    } else {
                        assert(r@[k + 1] == j as usize);
                    }
                } else {
                    assert(r@[pos as int] == i);
                }
            }
        }
        i = i + 1;
    }
    r
}

pub fn layer_digit(layer: u8) -> (r: &'static str)
    requires
        layer < LAYER_COUNT,
    ensures
        r@ == layer_text(layer),
{
    if layer == 0 {
        "0"
    } else if layer == 1 {
        "1"
    } else if layer == 2 {
        "2"
    } else if layer == 3 {
        "3"
    } else if layer == 4 {
        "4"
    } else {
        "5"
    }
}

/// `Role(layer) -> Role(layer) -> ...` for the cameras listed by `order`.
pub fn format_order(cams: &Vec<Camera>, order: &Vec<usize>) -> (r: String)
    requires
        cameras_wf(cams@),
        forall|k: int| 0 <= k < order@.len() ==> #[trigger] order@[k] < cams@.len(),
    ensures
        r@ == order_text(cams@, order@),
{
    let mut text = String::new();
    let mut k: usize = 0;
    while k < order.len()
        invariant
            k <= order@.len(),
            cameras_wf(cams@),
            forall|j: int| 0 <= j < order@.len() ==> #[trigger] order@[j] < cams@.len(),
            text@ == order_text(cams@, order@.subrange(0, k as int)),
        decreases order@.len() - k,
    {
        let c = cams[order[k]];
        assert(c.wf());
        if k > 0 {
            text.append(" -> ");
        }
        text.append(role_name(c.role));
        text.append("(");
        text.append(layer_digit(c.layer));
        text.append(")");
        let ghost next = order@.subrange(0, k + 1);
        assert(next.drop_last() =~= order@.subrange(0, k as int));
        k = k + 1;
    }
    assert(order@.subrange(0, order@.len() as int) =~= order@);
    text
}

/// The composite order of the active cameras, as `Role(layer) -> ...`.
pub fn report_order(cams: &Vec<Camera>) -> (r: String)
    requires
        cameras_wf(cams@),
    ensures
        exists|order: Seq<usize>| is_composite_order(cams@, order) && r@ == order_text(cams@, order),
{
    let order = composite_order(cams);
    format_order(cams, &order)
}

} // verus!
