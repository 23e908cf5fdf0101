use vstd::prelude::*;

verus! {

/// The character sequences of a list of strings.
pub open spec fn names_view(v: Seq<String>) -> Seq<Seq<char>> {
    v.map_values(|s: String| s@)
}

/// Every name of `a` occurs in `b`.
pub open spec fn all_named_in(a: Seq<Seq<char>>, b: Seq<Seq<char>>) -> bool {
    forall|i: int| 0 <= i < a.len() ==> b.contains(#[trigger] a[i])
}

/// The two lists name the same set of names.
pub open spec fn same_name_set(a: Seq<Seq<char>>, b: Seq<Seq<char>>) -> bool {
    all_named_in(a, b) && all_named_in(b, a)
}

/// Whether `n` occurs in `names`.
pub fn contains_name(names: &Vec<String>, n: &String) -> (r: bool)
    ensures
        r == names_view(names@).contains(n@),
{
    let ghost nv = names_view(names@);
    let mut i: usize = 0;
    while i < names.len()
        invariant
            nv == names_view(names@),
            i <= names@.len(),
            forall|j: int| 0 <= j < i ==> nv[j] != n@,
        decreases names@.len() - i,
    {
        if names[i] == *n {
            assert(nv[i as int] == n@);
            return true;
        }
        i = i + 1;
    }
    false
}

/// Whether every name of `a` occurs in `b`.
pub fn all_in(a: &Vec<String>, b: &Vec<String>) -> (r: bool)
    ensures
        r == all_named_in(names_view(a@), names_view(b@)),
{
    let ghost av = names_view(a@);
    let mut i: usize = 0;
    while i < a.len()
        invariant
            av == names_view(a@),
            i <= a@.len(),
            forall|j: int| 0 <= j < i ==> names_view(b@).contains(#[trigger] av[j]),
        decreases a@.len() - i,
    {
        if !contains_name(b, &a[i]) {
            assert(av[i as int] == a@[i as int]@);
            return false;
        }
        i = i + 1;
    }
    true
}

/// Whether the two lists name the same set of names.
pub fn same_names(a: &Vec<String>, b: &Vec<String>) -> (r: bool)
    ensures
        r == same_name_set(names_view(a@), names_view(b@)),
{
    all_in(a, b) && all_in(b, a)
}

} // verus!
