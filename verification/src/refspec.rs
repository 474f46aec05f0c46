//! Refspecs for pushing branches.
use vstd::prelude::*;

verus! {

/// The refspec that pushes local branch `name` to the branch of the same name
/// on the remote.
pub open spec fn branch_refspec(name: Seq<char>) -> Seq<char> {
    "refs/heads/"@ + name + ":refs/heads/"@ + name
}

/// Refspecs that push each named branch to the branch of the same name on
/// the remote, in the order of `ref_names`.
pub fn push_refspecs(ref_names: &[&str]) -> (res: Vec<String>)
    ensures
        res.len() == ref_names.len(),
        forall|i: int| 0 <= i < ref_names.len() ==> #[trigger] res[i]@ == branch_refspec(ref_names[i]@),
        forall|i: int| 0 <= i < ref_names.len() ==> {
            let r = #[trigger] res[i]@;
            let n = ref_names[i]@;
            let k = n.len() as int;
            &&& r.len() == 2 * n.len() + 23
            &&& r.subrange(0, 11) == "refs/heads/"@
            &&& r.subrange(11, 11 + k) == n
            &&& r.subrange(11 + k, 23 + k) == ":refs/heads/"@
            &&& r.subrange(23 + k, r.len() as int) == n
        },
{
    let mut res: Vec<String> = Vec::new();
    let mut i: usize = 0;
    while i < ref_names.len()
        invariant
            i <= ref_names.len(),
            res.len() == i,
            forall|j: int| 0 <= j < i ==> #[trigger] res[j]@ == branch_refspec(ref_names[j]@),
        decreases ref_names.len() - i,
    {
        let name: &str = ref_names[i];
        let mut spec = String::from_str("refs/heads/");
        spec.append(name);
        spec.append(":refs/heads/");
        spec.append(name);
        res.push(spec);
        i = i + 1;
    }
    proof {
        assert forall|i: int| 0 <= i < ref_names.len() implies {
            let r = #[trigger] res[i]@;
            let n = ref_names[i]@;
            let k = n.len() as int;
            &&& r.len() == 2 * n.len() + 23
            &&& r.subrange(0, 11) == "refs/heads/"@
            &&& r.subrange(11, 11 + k) == n
            &&& r.subrange(11 + k, 23 + k) == ":refs/heads/"@
            &&& r.subrange(23 + k, r.len() as int) == n
        } by {
            lemma_refspec_pushes_branch_to_same_name(ref_names[i]@);
        }
    }
    res
}

/// The refspec for a branch has source `refs/heads/<name>` and destination
/// `refs/heads/<name>`: both name the branch exactly, character for
/// character, so the branch is pushed to the remote branch of the same name.
pub proof fn lemma_refspec_pushes_branch_to_same_name(name: Seq<char>)
    ensures
        ({
            let r = branch_refspec(name);
            let k = name.len() as int;
            &&& r.len() == 2 * name.len() + 23
            &&& r.subrange(0, 11) == "refs/heads/"@
            &&& r.subrange(11, 11 + k) == name
            &&& r.subrange(11 + k, 23 + k) == ":refs/heads/"@
            &&& r.subrange(23 + k, r.len() as int) == name
        }),
{
    reveal_strlit("refs/heads/");
    reveal_strlit(":refs/heads/");
    let r = branch_refspec(name);
    let n = name.len() as int;
    assert(r.len() == 2 * n + 23);
    assert(r.subrange(0, 11) =~= "refs/heads/"@);
    assert(r.subrange(11, 11 + n) =~= name);
    assert(r.subrange(11 + n, 23 + n) =~= ":refs/heads/"@);
    assert(r.subrange(23 + n, r.len() as int) =~= name);
}

/// Distinct branch names give distinct refspecs.
pub proof fn lemma_refspec_injective(a: Seq<char>, b: Seq<char>)
    requires
        branch_refspec(a) == branch_refspec(b),
    ensures
        a == b,
{
    reveal_strlit("refs/heads/");
    reveal_strlit(":refs/heads/");
    assert(branch_refspec(a).len() == 2 * a.len() + 23);
    assert(branch_refspec(b).len() == 2 * b.len() + 23);
    assert(a.len() == b.len());
    assert forall|i: int| 0 <= i < a.len() implies a[i] == b[i] by {
        assert(branch_refspec(a)[11 + i] == a[i]);
        assert(branch_refspec(b)[11 + i] == b[i]);
    }
    assert(a =~= b);
}

} // verus!
