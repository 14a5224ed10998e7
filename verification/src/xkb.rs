//! Resolution of X11 keysym names to the keycodes of the keymap the
//! compositor delivers: the search over the keymap's keycodes.

use vstd::prelude::*;

verus! {

/// The keycodes, in increasing order, among `min`, `min + 1`, ... whose
/// level-0 symbols `syms[kc - min]` include `keysym`.
pub open spec fn keycodes_matching(keysym: u32, min: u32, syms: Seq<Seq<u32>>) -> Seq<u32>
    decreases syms.len(),
{
    if syms.len() == 0 {
        Seq::empty()
    } else {
        keycodes_matching(keysym, min, syms.drop_last()) + (if syms.last().contains(keysym) {
            seq![(min + syms.len() - 1) as u32]
        } else {
            Seq::empty()
        })
    }
}

/// The keycodes bound to `keysym`: for each keycode `min + i` of the
/// keymap, `syms[i]` are its level-0 symbols. The keysym 0 (a name the
/// keymap does not know) is bound to nothing.
pub fn keycodes_for_keysym(keysym: u32, min: u32, syms: &Vec<Vec<u32>>) -> (r: Vec<u32>)
    requires
        min as int + syms@.len() <= u32::MAX as int + 1,
    ensures
        keysym == 0 ==> r@.len() == 0,
        keysym != 0 ==> r@ == keycodes_matching(keysym, min, syms.deep_view()),
{
    let mut out: Vec<u32> = Vec::new();
    if keysym == 0 {
        return out;
    }
    let n: usize = syms.len();
    for i in 0..n
        invariant
            n == syms@.len(),
            min as int + n <= u32::MAX as int + 1,
            out@ == keycodes_matching(keysym, min, syms.deep_view().subrange(0, i as int)),
    {
        let row = &syms[i];
        let mut found = false;
        for j in 0..row.len()
            invariant
                found == (exists|k: int| 0 <= k < j && row@[k] == keysym),
        {
            if row[j] == keysym {
                found = true;
            }
        }
        let ghost prefix = syms.deep_view().subrange(0, i + 1);
        assert(prefix.drop_last() == syms.deep_view().subrange(0, i as int));
        assert(prefix.last() == row@);
        assert(found == row@.contains(keysym));
        if found {
            out.push(min + i as u32);
        }
        assert(out@ =~= keycodes_matching(keysym, min, prefix));
    }
    assert(syms.deep_view().subrange(0, n as int) == syms.deep_view());
    out
}

/// The level-0 keysym of a key whose level-0 symbols are `syms`: the first
/// one, unless there is none or it is the keysym 0, which names nothing.
pub fn level0_keysym(syms: &Vec<u32>) -> (r: Option<u32>)
    ensures
        r == (if syms@.len() > 0 && syms@[0] != 0 { Some(syms@[0]) } else { None }),
{
    if syms.len() > 0 && syms[0] != 0 {
        Some(syms[0])
    } else {
        None
    }
}

/// The length of a keysym name from what `xkb_keysym_get_name` returned:
/// nothing for a failure (zero or negative), otherwise the count written.
pub fn keysym_name_len(written: i32) -> (r: Option<usize>)
    ensures
        r == (if written <= 0 { None } else { Some(written as usize) }),
{
    if written <= 0 {
        None
    } else {
        Some(written as usize)
    }
}

/// The keycodes found are strictly increasing, lie in the keymap's range,
/// and are exactly those whose symbols include the keysym.
pub proof fn lemma_keycodes_matching(keysym: u32, min: u32, syms: Seq<Seq<u32>>)
    requires
        min as int + syms.len() <= u32::MAX as int + 1,
    ensures
        ({
            let r = keycodes_matching(keysym, min, syms);
            &&& forall|a: int, b: int| 0 <= a < b < r.len() ==> r[a] < r[b]
            &&& forall|a: int| 0 <= a < r.len() ==> min <= r[a] < min + syms.len()
                && syms[r[a] - min].contains(keysym)
            &&& forall|i: int| 0 <= i < syms.len() && #[trigger] syms[i].contains(keysym) ==> r.contains(
                (min + i) as u32,
            )
        }),
    decreases syms.len(),
{
    if syms.len() > 0 {
        let prev = syms.drop_last();
        lemma_keycodes_matching(keysym, min, prev);
        let r0 = keycodes_matching(keysym, min, prev);
        let r = keycodes_matching(keysym, min, syms);
        assert forall|i: int| 0 <= i < syms.len() && #[trigger] syms[i].contains(keysym) implies r.contains(
            (min + i) as u32,
        ) by {
            if i < prev.len() {
                assert(prev[i] == syms[i]);
                assert(prev[i].contains(keysym));
                let k = choose|k: int| 0 <= k < r0.len() && r0[k] == (min + i) as u32;
                assert(r[k] == r0[k]);
            } else {
                assert(r[r.len() - 1] == (min + i) as u32);
            }
        }
        assert forall|a: int| 0 <= a < r.len() implies min <= r[a] < min + syms.len()
            && syms[r[a] - min].contains(keysym) by {
            if a < r0.len() {
                assert(r[a] == r0[a]);
                assert(prev[r0[a] - min] == syms[r0[a] - min]);
            }
        }
    }
}

} // verus!
