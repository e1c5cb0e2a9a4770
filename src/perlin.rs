use vstd::prelude::*;
use rand::Rng;

verus! {

/// Number of lattice cells along each axis before the noise repeats.
pub const LATTICE: usize = 256;

/// `s` with the entries at `i` and `j` exchanged.
pub open spec fn swap_at(s: Seq<usize>, i: int, j: int) -> Seq<usize> {
    s.update(i, s[j]).update(j, s[i])
}

/// Fisher-Yates over the first `n` entries of `s`: from the last position
/// down to the first, position `i` is exchanged with position `picks[i]`.
pub open spec fn shuffled(s: Seq<usize>, picks: Seq<usize>, n: nat) -> Seq<usize>
    decreases n,
{
    if n == 0 {
        s
    } else {
        shuffled(swap_at(s, n - 1, picks[n - 1] as int), picks, (n - 1) as nat)
    }
}

/// Each pick may only reach positions at or before its own.
pub open spec fn valid_picks(picks: Seq<usize>, n: nat) -> bool {
    &&& picks.len() == n
    &&& forall|i: int| 0 <= i < n ==> #[trigger] picks[i] <= i
}

/// `s` holds each of `0..n` exactly once.
pub open spec fn is_permutation(s: Seq<usize>, n: nat) -> bool {
    &&& s.len() == n
    &&& forall|i: int| 0 <= i < n ==> #[trigger] s[i] < n
    &&& forall|i: int, j: int| 0 <= i < n && 0 <= j < n && i != j ==> #[trigger] s[i] != #[trigger] s[j]
}

proof fn lemma_swap_keeps_permutation(s: Seq<usize>, n: nat, i: int, j: int)
    requires
        is_permutation(s, n),
        0 <= i < n,
        0 <= j < n,
    ensures
        is_permutation(swap_at(s, i, j), n),
{
    let t = swap_at(s, i, j);
    assert forall|a: int, b: int| 0 <= a < n && 0 <= b < n && a != b implies t[a] != t[b] by {
        let sa = if a == j { i } else if a == i { j } else { a };
        let sb = if b == j { i } else if b == i { j } else { b };
        assert(t[a] == s[sa]);
        assert(t[b] == s[sb]);
    }
}

/// Fisher-Yates keeps a permutation a permutation, whatever picks it is
/// given within bounds.
pub proof fn lemma_shuffled_keeps_permutation(s: Seq<usize>, picks: Seq<usize>, n: nat, m: nat)
    requires
        is_permutation(s, n),
        m <= n,
        m <= picks.len(),
        forall|i: int| 0 <= i < m ==> #[trigger] picks[i] <= i,
    ensures
        is_permutation(shuffled(s, picks, m), n),
    decreases m,
{
    if m > 0 {
        assert(picks[m - 1] <= m - 1);
        lemma_swap_keeps_permutation(s, n, m - 1, picks[m - 1] as int);
        lemma_shuffled_keeps_permutation(
            swap_at(s, m - 1, picks[m - 1] as int),
            picks,
            n,
            (m - 1) as nat,
        );
    }
}

/// Relies on rand's `Rng::gen_range` on the thread-local generator: a value
/// in `[0, bound)`; it panics only when the range is empty.
#[verifier::external_body]
fn random_below(bound: usize) -> (r: usize)
    requires
        bound > 0,
    ensures
        r < bound,
{
    rand::thread_rng().gen_range(0, bound)
}

/// Shuffles the first `picks.len()` entries of `p` by the given Fisher-Yates
/// picks.
pub fn permute_with(p: &mut Vec<usize>, picks: &Vec<usize>)
    requires
        picks@.len() <= old(p)@.len(),
        valid_picks(picks@, picks@.len()),
    ensures
        final(p)@ == shuffled(old(p)@, picks@, picks@.len()),
{
    let n = picks.len();
    let mut i: usize = n;
    while i > 0
        invariant
            i <= n,
            n == picks@.len(),
            n <= p@.len(),
            valid_picks(picks@, n as nat),
            shuffled(p@, picks@, i as nat) == shuffled(old(p)@, picks@, n as nat),
        decreases i,
    {
        let target = picks[i - 1];
        assert(target <= i - 1);
        let a = p[i - 1];
        let b = p[target];
        p.set(i - 1, b);
        p.set(target, a);
        i = i - 1;
    }
}

/// Shuffles the first `n` entries of `p` in place, uniformly at random:
/// from the last position down to the first, each is exchanged with a
/// position drawn at or before it.
pub fn permute(p: &mut Vec<usize>, n: usize)
    requires
        n <= old(p)@.len(),
    ensures
        exists|picks: Seq<usize>|
            valid_picks(picks, n as nat) && final(p)@ == #[trigger] shuffled(old(p)@, picks, n as nat),
        is_permutation(old(p)@, old(p)@.len()) ==> is_permutation(final(p)@, old(p)@.len()),
{
    let mut picks: Vec<usize> = vec![0; n];
    let mut i: usize = n;
    while i > 0
        invariant
            i <= n,
            picks@.len() == n,
            forall|k: int| 0 <= k < n ==> #[trigger] picks@[k] <= k,
        decreases i,
    {
        let target = random_below(i);
        picks.set(i - 1, target);
        i = i - 1;
    }
    permute_with(p, &picks);
    proof {
        if is_permutation(old(p)@, old(p)@.len()) {
            lemma_shuffled_keeps_permutation(old(p)@, picks@, old(p)@.len(), n as nat);
        }
    }
}

/// A random permutation of `0..LATTICE`.
pub fn perlin_generate_perm() -> (r: Vec<usize>)
    ensures
        is_permutation(r@, LATTICE as nat),
{
    let mut p: Vec<usize> = Vec::with_capacity(LATTICE);
    let mut i: usize = 0;
    while i < LATTICE
        invariant
            i <= LATTICE,
            p@.len() == i,
            forall|k: int| 0 <= k < i ==> #[trigger] p@[k] == k,
        decreases LATTICE - i,
    {
        p.push(i);
        i = i + 1;
    }
    assert(is_permutation(p@, LATTICE as nat));
    permute(&mut p, LATTICE);
    p
}

/// The three independent permutations that hash an integer lattice point to
/// one of `LATTICE` gradient slots.
#[derive(Clone, Debug)]
pub struct LatticeHash {
    perm_x: Vec<usize>,
    perm_y: Vec<usize>,
    perm_z: Vec<usize>,
}

impl LatticeHash {
    pub closed spec fn perm_x(&self) -> Seq<usize> {
        self.perm_x@
    }

    pub closed spec fn perm_y(&self) -> Seq<usize> {
        self.perm_y@
    }

    pub closed spec fn perm_z(&self) -> Seq<usize> {
        self.perm_z@
    }

    /// Each table is a permutation of `0..LATTICE`.
    pub open spec fn wf(&self) -> bool {
        &&& is_permutation(self.perm_x(), LATTICE as nat)
        &&& is_permutation(self.perm_y(), LATTICE as nat)
        &&& is_permutation(self.perm_z(), LATTICE as nat)
    }

    /// The slot of lattice point `(i, j, k)`: the exclusive or of the three
    /// tables' entries at each coordinate modulo `LATTICE`.
    pub open spec fn slot(&self, i: usize, j: usize, k: usize) -> usize {
        self.perm_x()[(i % LATTICE) as int] ^ self.perm_y()[(j % LATTICE) as int]
            ^ self.perm_z()[(k % LATTICE) as int]
    }

    /// Three fresh random permutations.
    pub fn new() -> (r: Self)
        ensures
            r.wf(),
    {
        LatticeHash {
            perm_x: perlin_generate_perm(),
            perm_y: perlin_generate_perm(),
            perm_z: perlin_generate_perm(),
        }
    }

    /// The tables given, in the order x, y, z.
    pub fn from_perms(perm_x: Vec<usize>, perm_y: Vec<usize>, perm_z: Vec<usize>) -> (r: Self)
        requires
            is_permutation(perm_x@, LATTICE as nat),
            is_permutation(perm_y@, LATTICE as nat),
            is_permutation(perm_z@, LATTICE as nat),
        ensures
            r.wf(),
            r.perm_x() == perm_x@,
            r.perm_y() == perm_y@,
            r.perm_z() == perm_z@,
    {
        LatticeHash { perm_x, perm_y, perm_z }
    }

    /// The gradient slot of lattice point `(i, j, k)`; always below `LATTICE`.
    pub fn hash(&self, i: usize, j: usize, k: usize) -> (r: usize)
        requires
            self.wf(),
        ensures
            r == self.slot(i, j, k),
            r < LATTICE,
    {
        // LATTICE is a power of two: masking with LATTICE - 1 takes the remainder
        let ii = i & 255;
        let jj = j & 255;
        let kk = k & 255;
        assert(ii == i % 256 && jj == j % 256 && kk == k % 256) by (bit_vector)
            requires
                ii == i & 255,
                jj == j & 255,
                kk == k & 255,
        ;
        let a = self.perm_x[ii];
        let b = self.perm_y[jj];
        let c = self.perm_z[kk];
        assert(a ^ b ^ c < 256) by (bit_vector)
            requires
                a < 256,
                b < 256,
                c < 256,
        ;
        a ^ b ^ c
    }
}

} // verus!
