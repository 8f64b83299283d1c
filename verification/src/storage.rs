//! The backing storage of the native resource: one region of memory at a fixed
//! address, created once and never moved.

use vstd::arithmetic::power2::is_pow2;
use vstd::layout::valid_layout;
use vstd::prelude::*;
use crate::error::Error;

verus! {

/// Whether a region of `size` bytes with alignment `align` can stand at the
/// address `base`: the size and the alignment make a valid layout, the address
/// is not null and is a multiple of the alignment, and the region ends within
/// the address space.
pub open spec fn region_fits(base: usize, size: usize, align: usize) -> bool {
    &&& valid_layout(size, align)
    &&& base != 0
    &&& base % align == 0
    &&& base + size <= usize::MAX
}

/// Decides whether `n` is a power of two.
pub fn power_of_two(n: usize) -> (yes: bool)
    ensures
        yes == is_pow2(n as int),
        yes ==> n > 0,
{
    if n == 0 {
        proof {
            reveal(is_pow2);
        }
        return false;
    }
    let mut rest: usize = n;
    while rest % 2 == 0
        invariant
            rest >= 1,
            is_pow2(rest as int) == is_pow2(n as int),
        decreases rest,
    {
        proof {
            reveal(is_pow2);
        }
        rest = rest / 2;
    }
    proof {
        reveal(is_pow2);
    }
    rest == 1
}

/// Decides whether `size` and `align` make a valid layout: the alignment is a
/// power of two, and the size, rounded up to the alignment, is at most
/// `isize::MAX`.
pub fn layout_is_valid(size: usize, align: usize) -> (yes: bool)
    ensures
        yes == valid_layout(size, align),
        yes ==> align > 0,
{
    if !power_of_two(align) {
        return false;
    }
    let most: usize = isize::MAX as usize;
    assert(most % align <= most) by (nonlinear_arith)
        requires
            align > 0,
    ;
    size <= most - most % align
}

/// The region of memory that backs one native resource.
///
/// The region is described, never read or written: it exists so that the
/// resource has somewhere to live. The description cannot be copied, and no
/// operation changes it, so whoever holds it holds the one region at its one
/// address.
#[derive(Debug)]
pub struct PinnedStorage {
    base: usize,
    size: usize,
    align: usize,
}

impl PinnedStorage {
    #[verifier::type_invariant]
    spec fn well_formed(self) -> bool {
        region_fits(self.base, self.size, self.align)
    }

    /// The address at which the region starts.
    pub closed spec fn spec_base(&self) -> usize {
        self.base
    }

    /// The number of bytes in the region.
    pub closed spec fn spec_size(&self) -> usize {
        self.size
    }

    /// The alignment of the region.
    pub closed spec fn spec_align(&self) -> usize {
        self.align
    }

    /// Records a freshly allocated region of `size` bytes aligned to `align`.
    ///
    /// `base` is the address that the allocator answered with, 0 if it had no
    /// memory to give. The region is accepted exactly when it fits at that
    /// address; anything else is an allocation failure.
    pub fn allocate(size: usize, align: usize, base: usize) -> (slot: Result<PinnedStorage, Error>)
        ensures
            region_fits(base, size, align) ==> slot is Ok,
            !region_fits(base, size, align) ==> slot == Err::<PinnedStorage, Error>(
                Error::AllocationFailure,
            ),
            slot matches Ok(s) ==> s.spec_base() == base && s.spec_size() == size && s.spec_align()
                == align,
    {
        if !layout_is_valid(size, align) || base == 0 || base % align != 0 || size > usize::MAX
            - base {
            return Err(Error::AllocationFailure);
        }
        Ok(PinnedStorage { base, size, align })
    }

    /// The address at which the region starts. Every recorded region fits at
    /// its address.
    #[verifier::when_used_as_spec(spec_base)]
    pub fn base(&self) -> (base: usize)
        ensures
            base == self.spec_base(),
            region_fits(base, self.spec_size(), self.spec_align()),
    {
        proof {
            use_type_invariant(self);
        }
        self.base
    }

    /// The number of bytes in the region.
    #[verifier::when_used_as_spec(spec_size)]
    pub fn size(&self) -> (size: usize)
        ensures
            size == self.spec_size(),
    {
        self.size
    }

    /// The alignment of the region.
    #[verifier::when_used_as_spec(spec_align)]
    pub fn align(&self) -> (align: usize)
        ensures
            align == self.spec_align(),
    {
        self.align
    }
}

} // verus!
