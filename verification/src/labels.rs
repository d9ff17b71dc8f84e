use vstd::prelude::*;

use crate::error::StoreError;
use crate::notes::is_random_uuid_text;
use crate::text::same_text;

verus! {

/// A text with every `-` removed.
pub open spec fn without_hyphens(s: Seq<char>) -> Seq<char>
    decreases s.len(),
{
    if s.len() == 0 {
        Seq::empty()
    } else if s.last() == '-' {
        without_hyphens(s.drop_last())
    } else {
        without_hyphens(s.drop_last()).push(s.last())
    }
}

/// The label shared by the windows of a note's sticky: `sticky-` and the
/// note id without its hyphens.
pub open spec fn sticky_base_label_text(id: Seq<char>) -> Seq<char> {
    "sticky-"@ + without_hyphens(id)
}

/// The label of a note's expanded sticky window.
pub open spec fn sticky_expanded_label_text(id: Seq<char>) -> Seq<char> {
    sticky_base_label_text(id) + "-expanded"@
}

/// The label of a note's compact chip window.
pub open spec fn sticky_chip_label_text(id: Seq<char>) -> Seq<char> {
    sticky_base_label_text(id) + "-chip"@
}

/// Whether a window label names a sticky window: it starts with `sticky-`.
pub open spec fn is_sticky_label_text(label: Seq<char>) -> bool {
    label.len() >= 7 && label.subrange(0, 7) == "sticky-"@
}

/// The label shared by the windows of a note's sticky.
pub fn sticky_base_label(id: &str) -> (label: String)
    ensures
        label@ == sticky_base_label_text(id@),
{
    let mut label = String::new();
    label.append("sticky-");
    let ghost prefix = label@;
    let n = id.unicode_len();
    let mut i: usize = 0;
    assert(id@.subrange(0, 0) =~= Seq::<char>::empty());
    while i < n
        invariant
            n == id@.len(),
            i <= n,
            prefix == "sticky-"@,
            label@ == prefix + without_hyphens(id@.subrange(0, i as int)),
        decreases n - i,
    {
        let c = id.get_char(i);
        assert(id@.subrange(0, i as int + 1).drop_last() =~= id@.subrange(0, i as int));
        if c != '-' {
            let piece = id.substring_char(i, i + 1);
            assert(piece@ =~= seq![c]);
            label.append(piece);
            assert(label@ =~= prefix + without_hyphens(id@.subrange(0, i as int + 1)));
        }
        i = i + 1;
    }
    assert(id@.subrange(0, n as int) =~= id@);
    label
}

/// The label of a note's expanded sticky window.
pub fn sticky_expanded_label(id: &str) -> (label: String)
    ensures
        label@ == sticky_expanded_label_text(id@),
{
    let mut label = sticky_base_label(id);
    label.append("-expanded");
    label
}

/// The label of a note's compact chip window.
pub fn sticky_chip_label(id: &str) -> (label: String)
    ensures
        label@ == sticky_chip_label_text(id@),
{
    let mut label = sticky_base_label(id);
    label.append("-chip");
    label
}

/// Whether a window label names a sticky window.
pub fn is_sticky_window_label(label: &str) -> (b: bool)
    ensures
        b == is_sticky_label_text(label@),
{
    if label.unicode_len() < 7 {
        return false;
    }
    same_text(label.substring_char(0, 7), "sticky-")
}

/// The label of a note's sticky window in the given mode, `chip` or
/// `expanded`.
pub fn sticky_label_for_mode(id: &str, mode: &str) -> (r: Result<String, StoreError>)
    ensures
        mode@ == "chip"@ ==> (r matches Ok(label) && label@ == sticky_chip_label_text(id@)),
        mode@ == "expanded"@ ==> (r matches Ok(label) && label@ == sticky_expanded_label_text(
            id@,
        )),
        mode@ != "chip"@ && mode@ != "expanded"@ ==> r matches Err(StoreError::InvalidStickyMode),
{
    proof {
        reveal_strlit("chip");
        reveal_strlit("expanded");
        assert("chip"@.len() != "expanded"@.len());
    }
    if same_text(mode, "chip") {
        Ok(sticky_chip_label(id))
    } else if same_text(mode, "expanded") {
        Ok(sticky_expanded_label(id))
    } else {
        Err(StoreError::InvalidStickyMode)
    }
}

/// Both windows of every note's sticky carry sticky labels, so locking the
/// session closes them and the window-state store leaves them alone; and the
/// two windows of one note never share a label.
pub proof fn lemma_sticky_labels(id: Seq<char>)
    ensures
        is_sticky_label_text(sticky_expanded_label_text(id)),
        is_sticky_label_text(sticky_chip_label_text(id)),
        sticky_expanded_label_text(id) != sticky_chip_label_text(id),
{
    reveal_strlit("sticky-");
    reveal_strlit("-expanded");
    reveal_strlit("-chip");
    let base = sticky_base_label_text(id);
    assert(sticky_expanded_label_text(id).subrange(0, 7) =~= "sticky-"@);
    assert(sticky_chip_label_text(id).subrange(0, 7) =~= "sticky-"@);
    assert(sticky_expanded_label_text(id).len() == base.len() + 9);
    assert(sticky_chip_label_text(id).len() == base.len() + 5);
}

proof fn lemma_without_hyphens_concat(x: Seq<char>, y: Seq<char>)
    ensures
        without_hyphens(x + y) == without_hyphens(x) + without_hyphens(y),
    decreases y.len(),
{
    if y.len() == 0 {
        assert(x + y =~= x);
        assert(without_hyphens(x) + without_hyphens(y) =~= without_hyphens(x));
    } else {
        let z = x + y;
        assert(z.drop_last() =~= x + y.drop_last());
        assert(z.last() == y.last());
        lemma_without_hyphens_concat(x, y.drop_last());
        if y.last() != '-' {
            assert(without_hyphens(x) + without_hyphens(y) =~= (without_hyphens(x) + without_hyphens(
                y.drop_last(),
            )).push(y.last()));
        }
    }
}

proof fn lemma_same_hyphen_layout(a: Seq<char>, b: Seq<char>, k: int)
    requires
        a.len() == b.len(),
        0 <= k <= a.len(),
        forall|i: int| 0 <= i < a.len() ==> (a[i] == '-') == (b[i] == '-'),
    ensures
        without_hyphens(a.subrange(0, k)).len() == without_hyphens(b.subrange(0, k)).len(),
    decreases k,
{
    if k > 0 {
        lemma_same_hyphen_layout(a, b, k - 1);
        assert(a.subrange(0, k).drop_last() =~= a.subrange(0, k - 1));
        assert(b.subrange(0, k).drop_last() =~= b.subrange(0, k - 1));
    }
}

/// Texts with hyphens at the same places and the same text once the hyphens
/// are removed are equal.
proof fn lemma_without_hyphens_injective(a: Seq<char>, b: Seq<char>)
    requires
        a.len() == b.len(),
        forall|i: int| 0 <= i < a.len() ==> (a[i] == '-') == (b[i] == '-'),
        without_hyphens(a) == without_hyphens(b),
    ensures
        a == b,
{
    assert forall|k: int| 0 <= k < a.len() implies a[k] == b[k] by {
        if a[k] != '-' {
            let ak = a.subrange(0, k + 1);
            let bk = b.subrange(0, k + 1);
            lemma_same_hyphen_layout(a, b, k + 1);
            lemma_without_hyphens_concat(ak, a.subrange(k + 1, a.len() as int));
            lemma_without_hyphens_concat(bk, b.subrange(k + 1, b.len() as int));
            assert(ak + a.subrange(k + 1, a.len() as int) =~= a);
            assert(bk + b.subrange(k + 1, b.len() as int) =~= b);
            let len = without_hyphens(ak).len() as int;
            assert(without_hyphens(ak) =~= without_hyphens(a).subrange(0, len));
            assert(without_hyphens(bk) =~= without_hyphens(b).subrange(0, len));
            assert(ak.drop_last() =~= a.subrange(0, k));
            assert(bk.drop_last() =~= b.subrange(0, k));
            assert(without_hyphens(ak).last() == a[k]);
            assert(without_hyphens(bk).last() == b[k]);
        }
    }
    assert(a =~= b);
}

/// Distinct note ids of the generated form give distinct sticky labels, so
/// the windows of two notes never collide.
pub proof fn lemma_distinct_ids_distinct_labels(a: Seq<char>, b: Seq<char>)
    requires
        is_random_uuid_text(a),
        is_random_uuid_text(b),
        a != b,
    ensures
        sticky_base_label_text(a) != sticky_base_label_text(b),
        sticky_expanded_label_text(a) != sticky_expanded_label_text(b),
        sticky_chip_label_text(a) != sticky_chip_label_text(b),
{
    assert forall|i: int| 0 <= i < a.len() implies (a[i] == '-') == (b[i] == '-') by {
        assert(a[i] == a[i] && b[i] == b[i]);
    }
    lemma_same_hyphen_layout(a, b, a.len() as int);
    assert(a.subrange(0, a.len() as int) =~= a);
    assert(b.subrange(0, b.len() as int) =~= b);
    let ba = sticky_base_label_text(a);
    let bb = sticky_base_label_text(b);
    assert(ba.len() == bb.len());
    if ba == bb {
        assert(ba.subrange(7, ba.len() as int) =~= without_hyphens(a)) by {
            reveal_strlit("sticky-");
        }
        assert(bb.subrange(7, bb.len() as int) =~= without_hyphens(b)) by {
            reveal_strlit("sticky-");
        }
        lemma_without_hyphens_injective(a, b);
    }
    let ea = sticky_expanded_label_text(a);
    let eb = sticky_expanded_label_text(b);
    if ea == eb {
        assert(ea.subrange(0, ba.len() as int) =~= ba);
        assert(eb.subrange(0, bb.len() as int) =~= bb);
    }
    let ca = sticky_chip_label_text(a);
    let cb = sticky_chip_label_text(b);
    if ca == cb {
        assert(ca.subrange(0, ba.len() as int) =~= ba);
        assert(cb.subrange(0, bb.len() as int) =~= bb);
    }
}

} // verus!
