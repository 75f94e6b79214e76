use vstd::prelude::*;

verus! {

/// The names, as character sequences.
pub open spec fn names(v: Seq<String>) -> Seq<Seq<char>> {
    v.map_values(|s: String| s@)
}

/// Positions in `available` of the layers whose name is in `requested`, in
/// increasing order.
pub open spec fn selected_layers(available: Seq<Seq<char>>, requested: Seq<Seq<char>>) -> Seq<usize>
    decreases available.len(),
{
    if available.len() == 0 {
        Seq::empty()
    } else {
        let rest = selected_layers(available.drop_last(), requested);
        if requested.contains(available.last()) {
            rest.push((available.len() - 1) as usize)
        } else {
            rest
        }
    }
}

/// Whether `name` is one of `list`.
pub fn contains_name(list: &Vec<String>, name: &String) -> (r: bool)
    ensures
        r == names(list@).contains(name@),
{
    let mut i: usize = 0;
    while i < list.len()
        invariant
            i <= list@.len(),
            forall|j: int| 0 <= j < i ==> list@[j]@ != name@,
        decreases list@.len() - i,
    {
        if list[i] == *name {
            assert(names(list@)[i as int] == name@);
            return true;
        }
        i = i + 1;
    }
    assert forall|j: int| 0 <= j < names(list@).len() implies names(list@)[j] != name@ by {}
    false
}

/// Positions of the available layers that were asked to be enabled, in the
/// order in which they are available.
pub fn enabled_layers(available: &Vec<String>, requested: &Vec<String>) -> (r: Vec<usize>)
    ensures
        r@ == selected_layers(names(available@), names(requested@)),
{
    let mut out: Vec<usize> = Vec::new();
    let mut i: usize = 0;
    while i < available.len()
        invariant
            i <= available@.len(),
            out@ == selected_layers(names(available@).subrange(0, i as int), names(requested@)),
        decreases available@.len() - i,
    {
        let ghost prefix = names(available@).subrange(0, i as int + 1);
        assert(prefix.drop_last() =~= names(available@).subrange(0, i as int));
        assert(prefix.last() == available@[i as int]@);
        if contains_name(requested, &available[i]) {
            out.push(i);
        }
        i = i + 1;
    }
    assert(names(available@).subrange(0, available@.len() as int) =~= names(available@));
    out
}

} // verus!
