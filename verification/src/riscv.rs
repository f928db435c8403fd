//! What the kernel knows of a RISC-V machine before any device is found.

use vstd::prelude::*;

verus! {

/// The number of stack pages of each hardware thread.
pub const STACK_PAGES_PER_HART: usize = 32;

/// The largest number of hardware threads that run the kernel together.
pub const MAX_HART_NUM: usize = 5;

/// The cause code of the supervisor's timer interrupt.
pub const SUPERVISOR_TIMER_INT_VEC: usize = 5;

/// The interrupt number of the timer.
pub fn timer_interrupt_vector() -> (vector: usize)
    ensures
        vector == SUPERVISOR_TIMER_INT_VEC,
{
    SUPERVISOR_TIMER_INT_VEC
}

/// Where the kernel lies.
#[derive(Clone, Copy, Debug, PartialEq, Eq, Structural)]
pub struct KernelMemInfo {
    /// Where the kernel starts in the physical address space.
    pub paddr_base: usize,
    /// Where the kernel starts in its virtual address space: as set at link
    /// time, in the last GiB page, and as far into its 2 MiB page as the
    /// physical start is.
    pub vaddr_base: usize,
    /// The length of the kernel's linked region.
    pub size: usize,
}

impl KernelMemInfo {
    /// The offset from the physical address space to the kernel's virtual
    /// one. The kernel lies higher in the virtual space than in the
    /// physical one.
    pub fn offset(&self) -> (offset: usize)
        requires
            self.paddr_base <= self.vaddr_base,
        ensures
            offset == self.vaddr_base - self.paddr_base,
    {
        self.vaddr_base - self.paddr_base
    }
}

/// The offset between the kernel's virtual addresses and the physical ones.
pub fn phys_to_virt_offset(info: &KernelMemInfo) -> (offset: usize)
    requires
        info.paddr_base <= info.vaddr_base,
    ensures
        offset == info.vaddr_base - info.paddr_base,
{
    info.offset()
}

} // verus!
