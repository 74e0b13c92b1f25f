//! The ordered, cyclically navigable list of named shader bytecode pairs.
//!
//! Discovery walks the file system and is platform plumbing; it hands each
//! qualifying entry to `push_shader`. The core needs only `get`, `next` and
//! `prev`: navigation cycles through the list, `prev` being the exact
//! inverse of `next`.

use vstd::prelude::*;

verus! {

use vstd::arithmetic::div_mod::{
    lemma_small_mod,
    lemma_mod_self_0,
    lemma_add_mod_noop,
    lemma_mod_twice,
};

/// One discovered shader: its display name and the paths of its two
/// compiled bytecode stages.
#[derive(Clone, Debug)]
pub struct ShaderInfo {
    pub name: String,
    pub vert_path: String,
    pub frag_path: String,
}

/// The shader list, in discovery order.
pub struct ShaderManager {
    pub shaders: Vec<ShaderInfo>,
}

/// The index `next` moves to from `i` in a list of length `k`.
pub open spec fn nav_next(i: int, k: int) -> int {
    (i + 1) % k
}

/// The index `prev` moves to from `i` in a list of length `k`.
pub open spec fn nav_prev(i: int, k: int) -> int {
    if i == 0 {
        k - 1
    } else {
        i - 1
    }
}

/// `next` applied `n` times from `i`.
pub open spec fn nav_next_n(i: int, n: nat, k: int) -> int
    decreases n,
{
    if n == 0 {
        i
    } else {
        nav_next_n(nav_next(i, k), (n - 1) as nat, k)
    }
}

impl ShaderManager {
    pub open spec fn spec_shaders(self) -> Seq<ShaderInfo> {
        self.shaders@
    }

    /// An empty list.
    pub fn new() -> (m: Self)
        ensures
            m.spec_shaders().len() == 0,
    {
        ShaderManager { shaders: Vec::new() }
    }

    /// Appends one discovered shader. Discovery itself (reading
    /// directories, checking that both compiled stages exist) happens in
    /// the platform layer, which calls this for each qualifying entry.
    pub fn push_shader(&mut self, info: ShaderInfo)
        ensures
            final(self).spec_shaders() == old(self).spec_shaders().push(info),
    {
        self.shaders.push(info);
    }

    /// Clears the list, as a rescan does before re-adding entries.
    pub fn clear(&mut self)
        ensures
            final(self).spec_shaders().len() == 0,
    {
        self.shaders.clear();
    }

    pub fn is_empty(&self) -> (r: bool)
        ensures
            r == (self.spec_shaders().len() == 0),
    {
        self.shaders.len() == 0
    }

    pub fn len(&self) -> (r: usize)
        ensures
            r == self.spec_shaders().len(),
    {
        self.shaders.len()
    }

    /// The entry at `index`, if the index is in range.
    pub fn get(&self, index: usize) -> (r: Option<&ShaderInfo>)
        ensures
            match r {
                Some(info) => index < self.spec_shaders().len() && *info == self.spec_shaders()[index as int],
                None => index >= self.spec_shaders().len(),
            },
    {
        if index < self.shaders.len() {
            Some(&self.shaders[index])
        } else {
            None
        }
    }

    /// The first index whose entry bears `name`, if any.
    pub fn find_by_name(&self, name: &String) -> (r: Option<usize>)
        ensures
            match r {
                Some(i) => {
                    &&& (i as int) < self.spec_shaders().len()
                    &&& self.spec_shaders()[i as int].name@ == name@
                    &&& forall|j: int|
                        0 <= j < i ==> #[trigger] self.spec_shaders()[j].name@ != name@
                },
                None => forall|j: int|
                    0 <= j < self.spec_shaders().len()
                        ==> #[trigger] self.spec_shaders()[j].name@ != name@,
            },
    {
        let n = self.shaders.len();
        let mut i: usize = 0;
        while i < n
            invariant
                n == self.spec_shaders().len(),
                i <= n,
                forall|j: int| 0 <= j < i ==> #[trigger] self.spec_shaders()[j].name@ != name@,
            decreases n - i,
        {
            if self.shaders[i].name.eq(name) {
                return Some(i);
            }
            i = i + 1;
        }
        None
    }

    /// The index after `current`, wrapping past the end of the list.
    pub fn next(&self, current: usize) -> (r: usize)
        requires
            self.spec_shaders().len() > 0,
            current < usize::MAX,
        ensures
            r as int == nav_next(current as int, self.spec_shaders().len() as int),
    {
        (current + 1) % self.shaders.len()
    }

    /// The index before `current`, wrapping from the front to the end.
    pub fn prev(&self, current: usize) -> (r: usize)
        requires
            self.spec_shaders().len() > 0,
        ensures
            r as int == nav_prev(current as int, self.spec_shaders().len() as int),
    {
        if current == 0 {
            self.shaders.len() - 1
        } else {
            current - 1
        }
    }
}

/// `prev` is the exact inverse of `next`: over a list of length `k`, each
/// undoes the other from every index.
pub proof fn lemma_nav_inverse(i: int, k: int)
    requires
        0 <= i < k,
    ensures
        nav_prev(nav_next(i, k), k) == i,
        nav_next(nav_prev(i, k), k) == i,
{
    if i + 1 < k {
        lemma_small_mod((i + 1) as nat, k as nat);
    } else {
        lemma_mod_self_0(k);
    }
    if i == 0 {
        lemma_mod_self_0(k);
    } else {
        lemma_small_mod(i as nat, k as nat);
    }
}

/// Applying `next` `n` times from `i` lands on `(i + n) % k`.
proof fn lemma_nav_next_n_adds(i: int, n: nat, k: int)
    requires
        0 < k,
        0 <= i < k,
    ensures
        nav_next_n(i, n, k) == (i + n) % k,
    decreases n,
{
    if n == 0 {
        lemma_small_mod(i as nat, k as nat);
    } else {
        let i1 = nav_next(i, k);
        if i + 1 < k {
            lemma_small_mod((i + 1) as nat, k as nat);
        } else {
            lemma_mod_self_0(k);
        }
        assert(0 <= i1 < k);
        lemma_nav_next_n_adds(i1, (n - 1) as nat, k);
        lemma_small_mod(i1 as nat, k as nat);
        lemma_add_mod_noop(i1, n - 1, k);
        lemma_add_mod_noop(i + 1, n - 1, k);
        assert(i1 == (i + 1) % k);
    }
}

/// Navigation cycles: `next` applied `k` times over a list of length `k`
/// returns to the starting index, from every index.
pub proof fn lemma_nav_cycle(i: int, k: int)
    requires
        0 <= i < k,
    ensures
        nav_next_n(i, k as nat, k) == i,
{
    lemma_nav_next_n_adds(i, k as nat, k);
    lemma_add_mod_noop(i, k, k);
    lemma_small_mod(i as nat, k as nat);
    lemma_mod_self_0(k);
    assert((i + k) % k == ((i % k) + (k % k)) % k);
    assert((i + k) % k == i);
}

} // verus!
