//! Environment blocks: a run of zero-terminated `NAME=value` strings,
//! ended by an empty string.
use vstd::prelude::*;

verus! {

/// The unit `=`.
pub const EQUALS: u16 = 0x3D;

/// The unit at `k`, zero past the end of the block.
pub open spec fn unit_at(u: Seq<u16>, k: int) -> u16 {
    if 0 <= k < u.len() { u[k] } else { 0 }
}

/// The first position at or after `i` that holds a zero (or lies past
/// the end).
pub open spec fn zero_from(u: Seq<u16>, i: int) -> int
    decreases u.len() - i,
{
    if i >= u.len() || unit_at(u, i) == 0 { i } else { zero_from(u, i + 1) }
}

/// The first position at or after `i` that holds a zero or `=` (or lies
/// past the end).
pub open spec fn name_end(u: Seq<u16>, i: int) -> int
    decreases u.len() - i,
{
    if i >= u.len() || unit_at(u, i) == 0 || unit_at(u, i) == EQUALS { i } else { name_end(u, i + 1) }
}

/// The variable names of the strings from position `i` on: each string's
/// units before its first `=`. The list ends at the empty string. A string
/// without `=` is taken whole, and the string after it is passed over, as
/// the list box of the environment program does.
pub open spec fn names_from(u: Seq<u16>, i: int) -> Seq<Seq<u16>>
    decreases u.len() + 1 - i,
{
    if i < 0 || unit_at(u, i) == 0 {
        seq![]
    } else {
        let j = name_end(u, i);
        proof {
            lemma_name_end(u, i);
        }
        if j >= u.len() {
            seq![u.subrange(i, j)]
        } else {
            proof {
                lemma_zero_from(u, j + 1);
            }
            seq![u.subrange(i, j)] + names_from(u, zero_from(u, j + 1) + 1)
        }
    }
}

/// The strings of the block from position `i` on, up to the empty string.
pub open spec fn strings_from(u: Seq<u16>, i: int) -> Seq<Seq<u16>>
    decreases u.len() + 1 - i,
{
    if i < 0 || unit_at(u, i) == 0 {
        seq![]
    } else {
        let k = zero_from(u, i);
        proof {
            lemma_zero_from(u, i);
        }
        seq![u.subrange(i, k)] + strings_from(u, k + 1)
    }
}

/// The zero found from `i` is the first one: every unit before it is
/// nonzero.
pub proof fn lemma_zero_from(u: Seq<u16>, i: int)
    requires
        0 <= i,
    ensures
        i <= zero_from(u, i),
        zero_from(u, i) <= u.len() || zero_from(u, i) == i,
        forall|k: int| i <= k < zero_from(u, i) ==> #[trigger] unit_at(u, k) != 0,
        unit_at(u, zero_from(u, i)) == 0,
    decreases u.len() - i,
{
    if !(i >= u.len() || unit_at(u, i) == 0) {
        lemma_zero_from(u, i + 1);
    }
}

/// The end of a name found from `i` is the first zero or `=`.
pub proof fn lemma_name_end(u: Seq<u16>, i: int)
    requires
        0 <= i,
    ensures
        i <= name_end(u, i),
        name_end(u, i) <= u.len() || name_end(u, i) == i,
        forall|k: int| i <= k < name_end(u, i) ==> #[trigger] unit_at(u, k) != 0 && unit_at(u, k) != EQUALS,
        unit_at(u, name_end(u, i)) == 0 || unit_at(u, name_end(u, i)) == EQUALS,
    decreases u.len() - i,
{
    if !(i >= u.len() || unit_at(u, i) == 0 || unit_at(u, i) == EQUALS) {
        lemma_name_end(u, i + 1);
    }
}

/// Scans from `i` to the first zero or (when `stop_at_equals`) `=`.
fn scan(block: &[u16], i: usize, stop_at_equals: bool) -> (r: usize)
    requires
        i <= block@.len(),
    ensures
        !stop_at_equals ==> r == zero_from(block@, i as int),
        stop_at_equals ==> r == name_end(block@, i as int),
        i <= r <= block@.len(),
    decreases block@.len() - i,
{
    if i >= block.len() || block[i] == 0 || (stop_at_equals && block[i] == EQUALS) {
        i
    } else {
        scan(block, i + 1, stop_at_equals)
    }
}

/// The contents of each vector.
pub open spec fn views(v: Seq<Vec<u16>>) -> Seq<Seq<u16>> {
    v.map_values(|x: Vec<u16>| x@)
}

/// The units from `i` up to `j`.
fn copy_range(block: &[u16], i: usize, j: usize) -> (r: Vec<u16>)
    requires
        i <= j <= block@.len(),
    ensures
        r@ == block@.subrange(i as int, j as int),
{
    let mut r: Vec<u16> = Vec::new();
    let mut k = i;
    while k < j
        invariant
            i <= k <= j,
            j <= block@.len(),
            r@ == block@.subrange(i as int, k as int),
        decreases j - k,
    {
        r.push(block[k]);
        k = k + 1;
        assert(r@ =~= block@.subrange(i as int, k as int));
    }
    r
}

/// The names of the environment variables in a block, in order, as the
/// list box of the environment program shows them.
pub fn environment_names(block: &[u16]) -> (names: Vec<Vec<u16>>)
    ensures
        views(names@) == names_from(block@, 0),
{
    let ghost u = block@;
    let len = block.len();
    let mut names: Vec<Vec<u16>> = Vec::new();
    let mut i: usize = 0;
    let mut done = false;
    while !done
        invariant
            u == block@,
            len == u.len(),
            i <= len,
            !done ==> views(names@) + names_from(u, i as int) == names_from(u, 0),
            done ==> views(names@) == names_from(u, 0),
        decreases len + 1 - i, (if done { 0int } else { 1 }),
    {
        if i >= len || block[i] == 0 {
            done = true;
            assert(names_from(u, i as int) =~= Seq::<Seq<u16>>::empty());
            assert(views(names@) =~= names_from(u, 0));
        } else {
            let j = scan(block, i, true);
            let name = copy_range(block, i, j);
            proof {
                assert(name@ == u.subrange(i as int, j as int));
                lemma_name_end(u, i as int);
            }
            let ghost before = views(names@);
            names.push(name);
            assert(views(names@) =~= before.push(u.subrange(i as int, j as int)));
            if j >= len {
                done = true;
                assert(names_from(u, i as int) == seq![u.subrange(i as int, j as int)]);
                assert(views(names@) =~= names_from(u, 0));
            } else {
                let k = scan(block, j + 1, false);
                assert(names_from(u, i as int) == seq![u.subrange(i as int, j as int)] + names_from(u, k + 1));
                assert(views(names@) + names_from(u, k + 1) =~= before + names_from(u, i as int));
                if k >= len {
                    done = true;
                    assert(names_from(u, k + 1) =~= Seq::<Seq<u16>>::empty());
                    assert(views(names@) =~= names_from(u, 0));
                } else {
                    i = k + 1;
                }
            }
        }
    }
    names
}

/// The strings of an environment block, in order, up to the empty string
/// that ends it.
pub fn environment_strings(block: &[u16]) -> (strings: Vec<Vec<u16>>)
    ensures
        views(strings@) == strings_from(block@, 0),
{
    let ghost u = block@;
    let len = block.len();
    let mut strings: Vec<Vec<u16>> = Vec::new();
    let mut i: usize = 0;
    let mut done = false;
    while !done && i < len && block[i] != 0
        invariant
            u == block@,
            len == u.len(),
            i <= len,
            !done ==> views(strings@) + strings_from(u, i as int) == strings_from(u, 0),
            done ==> views(strings@) == strings_from(u, 0),
        decreases len + 1 - i, (if done { 0int } else { 1 }),
    {
        let k = scan(block, i, false);
        let s = copy_range(block, i, k);
        let ghost before = views(strings@);
        strings.push(s);
        assert(views(strings@) =~= before.push(u.subrange(i as int, k as int)));
        assert(views(strings@) + strings_from(u, k + 1) =~= before + strings_from(u, i as int));
        if k >= len {
            done = true;
            assert(strings_from(u, k + 1) =~= Seq::<Seq<u16>>::empty());
            assert(views(strings@) =~= strings_from(u, 0));
        } else {
            i = k + 1;
        }
    }
    if !done {
        assert(strings_from(u, i as int) =~= Seq::<Seq<u16>>::empty());
        assert(views(strings@) =~= strings_from(u, 0));
    }
    strings
}

/// Every string of the block from position `i` on holds an `=`.
pub open spec fn all_have_equals(u: Seq<u16>, i: int) -> bool
    decreases u.len() + 1 - i,
{
    if i < 0 || unit_at(u, i) == 0 {
        true
    } else {
        proof {
            lemma_zero_from(u, i);
        }
        unit_at(u, name_end(u, i)) == EQUALS && all_have_equals(u, zero_from(u, i) + 1)
    }
}

proof fn lemma_zero_skip(u: Seq<u16>, i: int, m: int)
    requires
        0 <= i <= m,
        forall|k: int| i <= k < m ==> #[trigger] unit_at(u, k) != 0,
    ensures
        zero_from(u, i) == zero_from(u, m),
    decreases m - i,
{
    if i < m {
        assert(unit_at(u, i) != 0);
        lemma_zero_skip(u, i + 1, m);
    }
}

/// When every string holds an `=`, the list of names and the list of
/// strings match one for one: each name is the part of its string before
/// the string's first `=`.
pub proof fn law_names_prefix_strings(u: Seq<u16>, i: int)
    requires
        0 <= i,
        all_have_equals(u, i),
    ensures
        names_from(u, i).len() == strings_from(u, i).len(),
        forall|k: int| 0 <= k < names_from(u, i).len() ==> {
            let n = #[trigger] names_from(u, i)[k];
            let s = strings_from(u, i)[k];
            &&& n.len() < s.len()
            &&& n == s.subrange(0, n.len() as int)
            &&& s[n.len() as int] == EQUALS
        },
    decreases u.len() + 1 - i,
{
    if unit_at(u, i) != 0 {
        let j = name_end(u, i);
        lemma_name_end(u, i);
        lemma_zero_from(u, i);
        assert(unit_at(u, j) == EQUALS);
        assert(j < u.len());
        lemma_zero_skip(u, i, j + 1);
        let z = zero_from(u, i);
        lemma_zero_from(u, j + 1);
        assert(z >= j + 1);
        law_names_prefix_strings(u, z + 1);
        let names = names_from(u, i);
        let strings = strings_from(u, i);
        assert(names == seq![u.subrange(i, j)] + names_from(u, z + 1));
        assert(strings == seq![u.subrange(i, z)] + strings_from(u, z + 1));
        assert forall|k: int| 0 <= k < names.len() implies {
            let n = #[trigger] names[k];
            let s = strings[k];
            &&& n.len() < s.len()
            &&& n == s.subrange(0, n.len() as int)
            &&& s[n.len() as int] == EQUALS
        } by {
            if k == 0 {
                assert(names[0] =~= u.subrange(i, j));
                assert(strings[0] =~= u.subrange(i, z));
                assert(u.subrange(i, j) =~= u.subrange(i, z).subrange(0, j - i));
                assert(u.subrange(i, z)[j - i] == u[j]);
                assert(unit_at(u, j) == u[j]);
            } else {
                assert(names[k] == names_from(u, z + 1)[k - 1]);
                assert(strings[k] == strings_from(u, z + 1)[k - 1]);
            }
        }
    }
}

} // verus!
