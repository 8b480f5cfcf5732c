use vstd::prelude::*;

verus! {

/// The index of the first selected object, if any.
pub open spec fn first_true(s: Seq<bool>) -> Option<int> {
    if exists|i: int| 0 <= i < s.len() && s[i] {
        Some(choose|i: int| 0 <= i < s.len() && s[i] && forall|j: int| 0 <= j < i ==> !s[j])
    } else {
        None
    }
}

/// The first selected index is well defined: it is selected and nothing before it is.
pub proof fn lemma_first_true(s: Seq<bool>)
    ensures
        first_true(s) is None <==> forall|i: int| 0 <= i < s.len() ==> !s[i],
        first_true(s) matches Some(k) ==> 0 <= k < s.len() && s[k] && forall|j: int| 0 <= j < k ==> !s[j],
        forall|k: int|
            0 <= k < s.len() && s[k] && (forall|j: int| 0 <= j < k ==> !s[j]) ==> first_true(s) == Some(k),
{
    if exists|i: int| 0 <= i < s.len() && s[i] {
        let w = choose|i: int| 0 <= i < s.len() && s[i];
        lemma_least_true(s, w);
    }
}

proof fn lemma_least_true(s: Seq<bool>, w: int)
    requires
        0 <= w < s.len(),
        s[w],
    ensures
        exists|i: int| 0 <= i < s.len() && s[i] && forall|j: int| 0 <= j < i ==> !s[j],
    decreases w,
{
    if exists|j: int| 0 <= j < w && s[j] {
        let j = choose|j: int| 0 <= j < w && s[j];
        lemma_least_true(s, j);
    }
}

/// The indices of the selected objects, in order.
pub open spec fn true_indices(s: Seq<bool>) -> Seq<int>
    decreases s.len(),
{
    if s.len() == 0 {
        Seq::empty()
    } else {
        let rest = true_indices(s.drop_last());
        if s.last() {
            rest.push(s.len() - 1)
        } else {
            rest
        }
    }
}

/// Finds the first selected object: the one representative that gizmo alignment
/// follows.
pub fn first_selected(selected: &Vec<bool>) -> (r: Option<usize>)
    ensures
        r is None <==> forall|i: int| 0 <= i < selected@.len() ==> !selected@[i],
        r matches Some(k) ==> k < selected@.len() && selected@[k as int]
            && forall|j: int| 0 <= j < k ==> !selected@[j],
{
    let mut i: usize = 0;
    while i < selected.len()
        invariant
            i <= selected@.len(),
            forall|j: int| 0 <= j < i ==> !selected@[j],
        decreases selected@.len() - i,
    {
        if selected[i] {
            return Some(i);
        }
        i = i + 1;
    }
    None
}

/// The indices of all selected objects, in order.
pub fn selected_indices(selected: &Vec<bool>) -> (r: Vec<usize>)
    ensures
        r@.map_values(|k: usize| k as int) == true_indices(selected@),
{
    let mut r: Vec<usize> = Vec::new();
    let mut i: usize = 0;
    while i < selected.len()
        invariant
            i <= selected@.len(),
            r@.map_values(|k: usize| k as int) == true_indices(selected@.subrange(0, i as int)),
        decreases selected@.len() - i,
    {
        let ghost before = r@;
        assert(selected@.subrange(0, i + 1).drop_last() == selected@.subrange(0, i as int));
        if selected[i] {
            r.push(i);
            assert(r@.map_values(|k: usize| k as int) == before.map_values(|k: usize| k as int).push(i as int));
        }
        i = i + 1;
    }
    assert(selected@.subrange(0, selected@.len() as int) == selected@);
    r
}

/// Decides a recenter: only when the recenter key was released this frame and
/// at least one object is selected. Returns the selected objects whose mean
/// translation becomes the new focus; `None` is the silent no-op.
pub fn recenter_targets(selected: &Vec<bool>, key_released: bool) -> (r: Option<Vec<usize>>)
    ensures
        r is None <==> (!key_released || forall|i: int| 0 <= i < selected@.len() ==> !selected@[i]),
        r matches Some(v) ==> v@.len() > 0 && v@.map_values(|k: usize| k as int) == true_indices(selected@),
{
    if !key_released {
        return None;
    }
    match first_selected(selected) {
        None => None,
        Some(k) => {
            let v = selected_indices(selected);
            proof {
                lemma_true_indices_contains(selected@, k as int);
            }
            Some(v)
        },
    }
}

/// Every selected index occurs among the selected indices.
pub proof fn lemma_true_indices_contains(s: Seq<bool>, k: int)
    requires
        0 <= k < s.len(),
        s[k],
    ensures
        true_indices(s).contains(k),
    decreases s.len(),
{
    let rest = s.drop_last();
    if k == s.len() - 1 {
        assert(true_indices(s).last() == k);
    } else {
        assert(rest[k] == s[k]);
        lemma_true_indices_contains(rest, k);
        let j = choose|j: int| 0 <= j < true_indices(rest).len() && true_indices(rest)[j] == k;
        if s.last() {
            assert(true_indices(s)[j] == k);
        }
    }
}

} // verus!
