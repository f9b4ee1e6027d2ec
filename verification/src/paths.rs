use vstd::prelude::*;
use vstd::string::*;

verus! {

/// Index of the last `/` in `p`, or -1 when `p` holds none.
pub open spec fn last_sep(p: Seq<char>) -> int
    decreases p.len(),
{
    if p.len() == 0 {
        -1
    } else if p[p.len() - 1] == '/' {
        p.len() - 1
    } else {
        last_sep(p.drop_last())
    }
}

/// The folder part of a `/`-separated path: everything before the last
/// separator, the single separator itself when the path names a child of the
/// root, and the empty string when the path has no separator at all.
pub open spec fn parent_of(p: Seq<char>) -> Seq<char> {
    let j = last_sep(p);
    if j == -1 {
        Seq::empty()
    } else if j == 0 {
        p.subrange(0, 1)
    } else {
        p.subrange(0, j)
    }
}

proof fn lemma_last_sep_ge(p: Seq<char>)
    ensures
        last_sep(p) >= -1,
        last_sep(p) < p.len(),
    decreases p.len(),
{
    if p.len() > 0 && p[p.len() - 1] != '/' {
        lemma_last_sep_ge(p.drop_last());
    }
}

proof fn lemma_last_sep_below(p: Seq<char>, i: int)
    requires
        0 <= i <= p.len(),
        forall|k: int| i <= k < p.len() ==> p[k] != '/',
    ensures
        last_sep(p) < i,
    decreases p.len(),
{
    lemma_last_sep_ge(p);
    if p.len() > 0 && p[p.len() - 1] != '/' {
        let q = p.drop_last();
        let i2 = if i <= q.len() { i } else { q.len() as int };
        assert forall|k: int| i2 <= k < q.len() implies q[k] != '/' by {
            assert(q[k] == p[k]);
        }
        lemma_last_sep_below(q, i2);
    }
}

proof fn lemma_last_sep_at(p: Seq<char>, j: int)
    requires
        0 <= j < p.len(),
        p[j] == '/',
        forall|k: int| j < k < p.len() ==> p[k] != '/',
    ensures
        last_sep(p) == j,
    decreases p.len(),
{
    if j == p.len() - 1 {
    } else {
        assert(p[p.len() - 1] != '/');
        let q = p.drop_last();
        assert(q[j] == p[j]);
        assert forall|k: int| j < k < q.len() implies q[k] != '/' by {
            assert(q[k] == p[k]);
        }
        lemma_last_sep_at(q, j);
    }
}

/// The folder that holds the program, given the canonical `/`-separated path
/// of its executable: the path up to, and not including, the last separator.
pub fn get_program_folder(program_path: &str) -> (r: String)
    ensures
        r@ == parent_of(program_path@),
{
    let n = program_path.unicode_len();
    let mut i: usize = n;
    while i > 0
        invariant
            i <= n,
            n == program_path@.len(),
            forall|k: int| i <= k < n ==> program_path@[k] != '/',
        decreases i,
    {
        if program_path.get_char(i - 1) == '/' {
            proof {
                lemma_last_sep_at(program_path@, i - 1);
            }
            if i == 1 {
                let root = program_path.substring_char(0, 1);
                return root.to_owned();
            } else {
                let folder = program_path.substring_char(0, i - 1);
                return folder.to_owned();
            }
        }
        i = i - 1;
    }
    proof {
        lemma_last_sep_below(program_path@, 0);
        lemma_last_sep_ge(program_path@);
        assert(parent_of(program_path@) =~= Seq::<char>::empty());
    }
    String::new()
}

} // verus!
