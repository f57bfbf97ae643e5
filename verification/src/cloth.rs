//! The layout of the cloth that the physics demonstration simulates: seven lines of
//! eight moving particles, then a line of eight fixed ones, joined by springs.
use vstd::prelude::*;

verus! {

/// How many particles a line of the cloth holds.
pub const CLOTH_WIDTH: usize = 8;
/// How many particles move; they come first.
pub const UNFROZEN_PARTICLE_COUNT: usize = 56;
/// How many particles stay where they are; they come after the moving ones.
pub const FROZEN_PARTICLE_COUNT: usize = 8;

/// The springs that particle `i` is the first end of: a moving particle is joined to the
/// next one on its line (unless it ends the line) and to the one below it (unless it is
/// on the last moving line); a fixed particle is joined to the particle in the same
/// column of the second line.
pub open spec fn springs_of(i: int) -> Seq<(usize, usize)> {
    if i < 56 {
        (if (i + 1) % 8 != 0 {
            seq![(i as usize, (i + 1) as usize)]
        } else {
            Seq::empty()
        }) + (if i + 8 < 56 {
            seq![(i as usize, (i + 8) as usize)]
        } else {
            Seq::empty()
        })
    } else {
        seq![(i as usize, (i % 8 + 8) as usize)]
    }
}

/// The springs of particles `0..n`, in order.
pub open spec fn springs_upto(n: int) -> Seq<(usize, usize)>
    decreases n,
{
    if n <= 0 {
        Seq::empty()
    } else {
        springs_upto(n - 1) + springs_of(n - 1)
    }
}

/// Every spring of particles `0..n` joins two different particles of the cloth.
proof fn lemma_springs_join_cloth_particles(n: int)
    requires
        0 <= n <= 64,
    ensures
        forall|k: int| 0 <= k < springs_upto(n).len() ==> {
            let (a, b) = #[trigger] springs_upto(n)[k];
            a < 64 && b < 64 && a != b
        },
    decreases n,
{
    if n > 0 {
        lemma_springs_join_cloth_particles(n - 1);
        let prev = springs_upto(n - 1);
        let add = springs_of(n - 1);
        assert forall|k: int| 0 <= k < springs_upto(n).len() implies {
            let (a, b) = #[trigger] springs_upto(n)[k];
            a < 64 && b < 64 && a != b
        } by {
            if k >= prev.len() {
                assert(springs_upto(n)[k] == add[k - prev.len()]);
            } else {
                assert(springs_upto(n)[k] == prev[k]);
            }
        }
    }
}

/// The springs of the cloth, as pairs of particle indices, in the order they are made.
pub fn cloth_springs() -> (r: Vec<(usize, usize)>)
    ensures
        r@ == springs_upto(64),
        forall|k: int| 0 <= k < r@.len() ==> {
            let (a, b) = #[trigger] r@[k];
            a < UNFROZEN_PARTICLE_COUNT + FROZEN_PARTICLE_COUNT && b < UNFROZEN_PARTICLE_COUNT
                + FROZEN_PARTICLE_COUNT && a != b
        },
{
    let mut springs: Vec<(usize, usize)> = Vec::new();
    let mut i: usize = 0;
    while i < UNFROZEN_PARTICLE_COUNT
        invariant
            0 <= i <= 56,
            springs@ == springs_upto(i as int),
        decreases 56 - i,
    {
        let ghost before = springs@;
        if (i + 1) % CLOTH_WIDTH != 0 {
            springs.push((i, i + 1));
        }
        if i + CLOTH_WIDTH < UNFROZEN_PARTICLE_COUNT {
            springs.push((i, i + CLOTH_WIDTH));
        }
        assert(springs@ =~= before + springs_of(i as int));
        i += 1;
    }
    while i < UNFROZEN_PARTICLE_COUNT + FROZEN_PARTICLE_COUNT
        invariant
            56 <= i <= 64,
            springs@ == springs_upto(i as int),
        decreases 64 - i,
    {
        let ghost before = springs@;
        springs.push((i, i % CLOTH_WIDTH + CLOTH_WIDTH));
        assert(springs@ =~= before + springs_of(i as int));
        i += 1;
    }
    proof {
        lemma_springs_join_cloth_particles(64);
    }
    springs
}

} // verus!
