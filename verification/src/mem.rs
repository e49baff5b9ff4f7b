//! Bump allocation over a fixed arena, modelled by its cursor arithmetic.
//! The arena hands out non-overlapping, aligned byte ranges and never
//! reclaims them; the surrounding program owns the actual backing buffer.

use vstd::prelude::*;

verus! {

/// `n` rounded up to the nearest multiple of `m`.
pub open spec fn rounded_up(n: int, m: int) -> int
    recommends
        m > 0,
{
    if n % m == 0 {
        n
    } else {
        n + m - n % m
    }
}

/// Round `n` up to the nearest multiple of `m`.
pub fn round_up(n: usize, m: usize) -> (r: usize)
    requires
        m > 0,
        rounded_up(n as int, m as int) <= usize::MAX,
    ensures
        r == rounded_up(n as int, m as int),
        r % m == 0,
        n <= r < n + m,
{
    let rem = n % m;
    if rem == 0 {
        n
    } else {
        proof {
            let ni = n as int;
            let mi = m as int;
            let q = ni / mi;
            vstd::arithmetic::div_mod::lemma_fundamental_div_mod(ni, mi);
            assert(ni + mi - (ni % mi) == (q + 1) * mi) by (nonlinear_arith)
                requires
                    ni == mi * q + (ni % mi),
            ;
            vstd::arithmetic::div_mod::lemma_mod_multiples_basic(q + 1, mi);
        }
        (n - rem) + m
    }
}

/// A monotonic one-shot allocator over a buffer of `len` bytes; `pos` is
/// the number of bytes handed out so far.
pub struct Allocator {
    pub len: usize,
    pub pos: usize,
}

impl Allocator {
    pub open spec fn wf(self) -> bool {
        self.pos <= self.len
    }

    pub fn new(len: usize) -> (a: Allocator)
        ensures
            a.wf(),
            a.len == len,
            a.pos == 0,
    {
        Allocator { len, pos: 0 }
    }

    /// Reserve `size` bytes aligned to `align`; returns the offset of the
    /// reservation.  Exhaustion is fatal in the firmware, so callers must
    /// show the aligned request fits.
    pub fn reserve(&mut self, size: usize, align: usize) -> (offset: usize)
        requires
            old(self).wf(),
            align > 0,
            rounded_up(old(self).pos as int, align as int) + size < old(self).len,
        ensures
            final(self).wf(),
            offset % align == 0,
            old(self).pos <= offset < old(self).pos + align,
            offset + size < old(self).len,
            final(self).pos == offset + size,
            final(self).len == old(self).len,
    {
        let new_pos = round_up(self.pos, align);
        self.pos = new_pos + size;
        new_pos
    }
}

} // verus!
