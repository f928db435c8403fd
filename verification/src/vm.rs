//! Virtual memory: page sizes, pages, and what every page table offers.

use vstd::prelude::*;

verus! {

/// A physical address.
pub type PhysAddr = usize;

/// A virtual address.
pub type VirtAddr = usize;

/// The size of the smallest page.
pub const PAGE_SIZE: usize = 0x1000;

/// Whether `addr` is a multiple of the smallest page size.
pub open spec fn spec_is_aligned(addr: usize) -> bool {
    addr % PAGE_SIZE == 0
}

/// Whether `addr` is a multiple of the smallest page size.
#[verifier::when_used_as_spec(spec_is_aligned)]
pub fn is_aligned(addr: usize) -> (aligned: bool)
    ensures
        aligned == spec_is_aligned(addr),
{
    PageSize::Size4K.page_offset(addr) == 0
}

/// Generic memory flags.
#[derive(Clone, Copy, Debug, PartialEq, Eq, Structural)]
pub struct MMUFlags {
    pub bits: usize,
}

impl MMUFlags {
    /// Whether every flag of `other` is set in `self`.
    pub open spec fn spec_contains(self, other: MMUFlags) -> bool {
        self.bits & other.bits == other.bits
    }

    /// No flag.
    pub fn empty() -> (flags: MMUFlags)
        ensures
            flags.bits == 0,
    {
        MMUFlags { bits: 0 }
    }

    pub fn read() -> (flags: MMUFlags)
        ensures
            flags.bits == 0x04,
    {
        MMUFlags { bits: 0x04 }
    }

    pub fn write() -> (flags: MMUFlags)
        ensures
            flags.bits == 0x08,
    {
        MMUFlags { bits: 0x08 }
    }

    pub fn execute() -> (flags: MMUFlags)
        ensures
            flags.bits == 0x10,
    {
        MMUFlags { bits: 0x10 }
    }

    pub fn user() -> (flags: MMUFlags)
        ensures
            flags.bits == 0x20,
    {
        MMUFlags { bits: 0x20 }
    }

    /// Pages larger than the smallest may be used.
    pub fn huge_page() -> (flags: MMUFlags)
        ensures
            flags.bits == 0x40,
    {
        MMUFlags { bits: 0x40 }
    }

    pub fn device() -> (flags: MMUFlags)
        ensures
            flags.bits == 0x80,
    {
        MMUFlags { bits: 0x80 }
    }

    /// The flags of either.
    pub fn union(self, other: MMUFlags) -> (flags: MMUFlags)
        ensures
            flags.bits == self.bits | other.bits,
    {
        MMUFlags { bits: self.bits | other.bits }
    }

    #[verifier::when_used_as_spec(spec_contains)]
    pub fn contains(self, other: MMUFlags) -> (held: bool)
        ensures
            held == self.spec_contains(other),
    {
        self.bits & other.bits == other.bits
    }
}

/// Errors may occur during address translation.
#[derive(Clone, Copy, Debug, PartialEq, Eq, Structural)]
pub enum PagingError {
    NoMemory,
    NotMapped,
    AlreadyMapped,
}

/// Address translation result.
pub type PagingResult<T = ()> = Result<T, PagingError>;

/// The [`PagingError::NotMapped`] can be ignored.
pub trait IgnoreNotMappedErr: Sized {
    /// What `ignore` makes of `self`.
    spec fn ignored(self) -> PagingResult;

    /// If self is `Err(PagingError::NotMapped`, ignores the error and returns
    /// `Ok(())`, otherwise remain unchanged.
    fn ignore(self) -> (result: PagingResult)
        ensures
            result == self.ignored(),
    ;
}

impl<T> IgnoreNotMappedErr for PagingResult<T> {
    open spec fn ignored(self) -> PagingResult {
        match self {
            Ok(_) => Ok(()),
            Err(PagingError::NotMapped) => Ok(()),
            Err(e) => Err(e),
        }
    }

    fn ignore(self) -> (result: PagingResult) {
        match self {
            Ok(_) | Err(PagingError::NotMapped) => Ok(()),
            Err(e) => Err(e),
        }
    }
}

/// Possible page size (4K, 2M, 1G).
#[derive(Clone, Copy, Debug, PartialEq, Eq, Structural)]
pub enum PageSize {
    Size4K,
    Size2M,
    Size1G,
}

/// A 4K, 2M or 1G size page.
#[derive(Clone, Copy, Debug, PartialEq, Eq, Structural)]
pub struct Page {
    pub vaddr: VirtAddr,
    pub size: PageSize,
}

impl PageSize {
    /// The number of bytes in a page of this size.
    pub open spec fn spec_bytes(self) -> usize {
        match self {
            PageSize::Size4K => 0x1000,
            PageSize::Size2M => 0x20_0000,
            PageSize::Size1G => 0x4000_0000,
        }
    }

    /// The number of bytes in a page of this size.
    #[verifier::when_used_as_spec(spec_bytes)]
    pub fn bytes(self) -> (bytes: usize)
        ensures
            bytes == self.spec_bytes(),
    {
        match self {
            PageSize::Size4K => 0x1000,
            PageSize::Size2M => 0x20_0000,
            PageSize::Size1G => 0x4000_0000,
        }
    }

    /// Whether `addr` is a multiple of the page size.
    pub open spec fn spec_is_aligned(self, addr: usize) -> bool {
        addr % self.spec_bytes() == 0
    }

    /// Whether `addr` is the address of a page of this size.
    #[verifier::when_used_as_spec(spec_is_aligned)]
    pub fn is_aligned(self, addr: usize) -> (aligned: bool)
        ensures
            aligned == self.spec_is_aligned(addr),
    {
        self.page_offset(addr) == 0
    }

    /// The address of the page of this size that holds `addr`: the largest
    /// multiple of the page size that is not above `addr`.
    pub fn align_down(self, addr: usize) -> (base: usize)
        ensures
            base == addr - addr % self.spec_bytes(),
            base <= addr < base + self.spec_bytes(),
            self.spec_is_aligned(base),
    {
        let base = match self {
            PageSize::Size4K => {
                assert(addr & !0xfffusize == addr - addr % 0x1000usize) by (bit_vector);
                addr & !0xfffusize
            },
            PageSize::Size2M => {
                assert(addr & !0x1f_ffffusize == addr - addr % 0x20_0000usize) by (bit_vector);
                addr & !0x1f_ffffusize
            },
            PageSize::Size1G => {
                assert(addr & !0x3fff_ffffusize == addr - addr % 0x4000_0000usize) by (bit_vector);
                addr & !0x3fff_ffffusize
            },
        };
        assert((addr - addr % self.spec_bytes()) % (self.spec_bytes() as int) == 0) by {
            vstd::arithmetic::div_mod::lemma_fundamental_div_mod(
                addr as int,
                self.spec_bytes() as int,
            );
            vstd::arithmetic::div_mod::lemma_mod_multiples_basic(
                addr as int / self.spec_bytes() as int,
                self.spec_bytes() as int,
            );
        }
        base
    }

    /// How far `addr` lies into its page of this size.
    pub fn page_offset(self, addr: usize) -> (offset: usize)
        ensures
            offset == addr % self.spec_bytes(),
    {
        match self {
            PageSize::Size4K => {
                assert(addr & 0xfffusize == addr % 0x1000usize) by (bit_vector);
                addr & 0xfffusize
            },
            PageSize::Size2M => {
                assert(addr & 0x1f_ffffusize == addr % 0x20_0000usize) by (bit_vector);
                addr & 0x1f_ffffusize
            },
            PageSize::Size1G => {
                assert(addr & 0x3fff_ffffusize == addr % 0x4000_0000usize) by (bit_vector);
                addr & 0x3fff_ffffusize
            },
        }
    }

    /// Whether pages of this size are huge pages: all but the smallest.
    pub fn is_huge(self) -> (huge: bool)
        ensures
            huge == (self != PageSize::Size4K),
    {
        matches!(self, PageSize::Size1G | PageSize::Size2M)
    }
}

impl Page {
    /// The page of the given size at `vaddr`, which is the address of such a
    /// page.
    pub fn new_aligned(vaddr: VirtAddr, size: PageSize) -> (page: Page)
        requires
            size.is_aligned(vaddr),
        ensures
            page == (Page { vaddr, size }),
    {
        Page { vaddr, size }
    }
}

/// What a page is mapped to.
#[derive(Clone, Copy, Debug, PartialEq, Eq, Structural)]
pub struct Mapping {
    /// The frame that the page is mapped to.
    pub paddr: PhysAddr,
    pub flags: MMUFlags,
    pub size: PageSize,
}

/// What a page table holds: the mapped pages, each under its first address.
pub type PageMap = Map<VirtAddr, Mapping>;

/// The size of the page that `map_cont` maps next, with `remains` bytes
/// still to map from `vaddr` to `paddr`: without huge pages always the
/// smallest; with them the largest that fits into what remains and that
/// both addresses are multiples of.
pub open spec fn next_page_size(vaddr: usize, paddr: usize, remains: usize, huge: bool) -> PageSize {
    if huge && remains >= PageSize::Size1G.spec_bytes() && PageSize::Size1G.spec_is_aligned(vaddr)
        && PageSize::Size1G.spec_is_aligned(paddr) {
        PageSize::Size1G
    } else if huge && remains >= PageSize::Size2M.spec_bytes() && PageSize::Size2M.spec_is_aligned(
        vaddr,
    ) && PageSize::Size2M.spec_is_aligned(paddr) {
        PageSize::Size2M
    } else {
        PageSize::Size4K
    }
}

/// The pages that `map_cont` maps for the `remains` bytes from `vaddr`, each
/// with its frame, in the order in which it maps them.
pub open spec fn cont_pages(vaddr: usize, paddr: usize, remains: usize, huge: bool) -> Seq<
    (Page, PhysAddr),
>
    decreases remains,
{
    let size = next_page_size(vaddr, paddr, remains, huge);
    if remains == 0 || remains < size.spec_bytes() || vaddr + size.spec_bytes() > usize::MAX
        || paddr + size.spec_bytes() > usize::MAX {
        Seq::empty()
    } else {
        seq![(Page { vaddr, size }, paddr)] + cont_pages(
            (vaddr + size.spec_bytes()) as usize,
            (paddr + size.spec_bytes()) as usize,
            (remains - size.spec_bytes()) as usize,
            huge,
        )
    }
}

/// `mappings` after each page of `pages` was mapped to its frame with
/// `flags`, one after the other.
pub open spec fn with_pages(
    mappings: PageMap,
    pages: Seq<(Page, PhysAddr)>,
    flags: MMUFlags,
) -> PageMap
    decreases pages.len(),
{
    if pages.len() == 0 {
        mappings
    } else {
        let (page, paddr) = pages.last();
        with_pages(mappings, pages.drop_last(), flags).insert(
            page.vaddr,
            Mapping { paddr, flags, size: page.size },
        )
    }
}

/// Whether the page at `base` with `size` bytes holds `vaddr`.
pub open spec fn page_holds(base: VirtAddr, size: PageSize, vaddr: VirtAddr) -> bool {
    base <= vaddr < base + size.spec_bytes()
}

/// Whether some page of `mappings` holds `vaddr`.
pub open spec fn is_mapped(mappings: PageMap, vaddr: VirtAddr) -> bool {
    exists|base: VirtAddr| #[trigger]
        mappings.contains_key(base) && page_holds(base, mappings[base].size, vaddr)
}

/// `mappings` without the pages that lie in `start..end`.
pub open spec fn without_range(
    mappings: PageMap,
    start: VirtAddr,
    end: VirtAddr,
) -> PageMap {
    mappings.remove_keys(Set::new(|base: VirtAddr| start <= base < end))
}

/// Every page of `mappings` starts at a multiple of its size, and no two
/// pages overlap.
pub open spec fn pages_well_formed(mappings: PageMap) -> bool {
    &&& forall|base: VirtAddr| #[trigger]
        mappings.contains_key(base) ==> mappings[base].size.spec_is_aligned(base)
    &&& forall|a: VirtAddr, b: VirtAddr|
        #![trigger mappings.contains_key(a), mappings.contains_key(b)]
        mappings.contains_key(a) && mappings.contains_key(b) && a != b ==> a
            + mappings[a].size.spec_bytes() <= b || b + mappings[b].size.spec_bytes() <= a
}

/// No page of `mappings` lies partly in `start..end` and partly outside.
pub open spec fn range_cuts_no_page(
    mappings: PageMap,
    start: VirtAddr,
    end: VirtAddr,
) -> bool {
    forall|base: VirtAddr| #[trigger]
        mappings.contains_key(base) ==> {
            ||| base + mappings[base].size.spec_bytes() <= start
            ||| end <= base
            ||| start <= base && base + mappings[base].size.spec_bytes() <= end
        }
}

/// A generic page table abstraction.
///
/// `mappings` is what the table holds: the mapped pages, each under its first
/// address. An implementation keeps to what the four operations below
/// promise of it; `map_cont` and `unmap_cont` are built on them.
pub trait GenericPageTable: Sync + Send {
    /// The mapped pages, each under its first address.
    spec fn mappings(&self) -> PageMap;

    /// Get the physical address of root page table.
    fn table_phys(&self) -> PhysAddr;

    /// Map the `page` to the frame of `paddr` with `flags`. A call that fails
    /// maps nothing.
    fn map(&mut self, page: Page, paddr: PhysAddr, flags: MMUFlags) -> (result: PagingResult)
        ensures
            result is Ok ==> final(self).mappings() == old(self).mappings().insert(
                page.vaddr,
                Mapping { paddr, flags, size: page.size },
            ),
            result is Err ==> final(self).mappings() == old(self).mappings(),
    ;

    /// Unmap the page of `vaddr`, and give its frame and size. A call that
    /// fails unmaps nothing, and it fails with `NotMapped` where no page
    /// holds `vaddr`.
    fn unmap(&mut self, vaddr: VirtAddr) -> (result: PagingResult<(PhysAddr, PageSize)>)
        ensures
            match result {
                Ok((paddr, size)) => {
                    let base = (vaddr - vaddr % size.spec_bytes()) as usize;
                    &&& old(self).mappings().contains_key(base)
                    &&& old(self).mappings()[base].paddr == paddr
                    &&& old(self).mappings()[base].size == size
                    &&& final(self).mappings() == old(self).mappings().remove(base)
                },
                Err(e) => {
                    &&& final(self).mappings() == old(self).mappings()
                    &&& e == PagingError::NotMapped ==> !is_mapped(old(self).mappings(), vaddr)
                },
            },
    ;

    /// Change the `flags` of the page of `vaddr`.
    fn update(&mut self, vaddr: VirtAddr, paddr: Option<PhysAddr>, flags: Option<MMUFlags>) -> (result:
        PagingResult<PageSize>)
        ensures
            final(self).mappings().dom() == old(self).mappings().dom(),
            result is Err ==> final(self).mappings() == old(self).mappings(),
    ;

    /// Query the physical address which the page of `vaddr` maps to.
    fn query(&self, vaddr: VirtAddr) -> (result: PagingResult<(PhysAddr, MMUFlags, PageSize)>)
        ensures
            result is Ok ==> is_mapped(self.mappings(), vaddr),
    ;

    /// Maps the `size` bytes from `start_vaddr` to those from `start_paddr`,
    /// page by page from the lowest address up.
    ///
    /// With the huge page flag each page is the largest that fits into what
    /// remains and that both addresses are multiples of; without it every
    /// page is of the smallest size. The first page that cannot be mapped
    /// ends the call with its error, and the pages before it stay mapped.
    fn map_cont(&mut self, start_vaddr: VirtAddr, size: usize, start_paddr: PhysAddr, flags: MMUFlags) -> (result:
        PagingResult)
        requires
            spec_is_aligned(start_vaddr),
            spec_is_aligned(size),
            start_vaddr + size <= usize::MAX,
            start_paddr + size <= usize::MAX,
        ensures
            ({
                let pages = cont_pages(
                    start_vaddr,
                    start_paddr,
                    size,
                    flags.spec_contains(MMUFlags { bits: 0x40 }),
                );
                match result {
                    Ok(_) => final(self).mappings() == with_pages(
                        old(self).mappings(),
                        pages,
                        flags,
                    ),
                    Err(_) => exists|mapped: int|
                        0 <= mapped < pages.len() && final(self).mappings() == with_pages(
                            old(self).mappings(),
                            #[trigger] pages.take(mapped),
                            flags,
                        ),
                }
            }),
    {
        let huge = flags.contains(MMUFlags::huge_page());
        let ghost pages = cont_pages(start_vaddr, start_paddr, size, huge);
        let mut vaddr = start_vaddr;
        let mut paddr = start_paddr;
        let end_vaddr = vaddr + size;
        let ghost mut mapped: int = 0;
        while vaddr < end_vaddr
            invariant
                huge == flags.spec_contains(MMUFlags { bits: 0x40 }),
                pages == cont_pages(start_vaddr, start_paddr, size, huge),
                end_vaddr == start_vaddr + size,
                start_vaddr <= vaddr <= end_vaddr,
                paddr - start_paddr == vaddr - start_vaddr,
                start_paddr + size <= usize::MAX,
                spec_is_aligned(vaddr),
                spec_is_aligned((end_vaddr - vaddr) as usize),
                0 <= mapped <= pages.len(),
                pages.skip(mapped) == cont_pages(vaddr, paddr, (end_vaddr - vaddr) as usize, huge),
                self.mappings() == with_pages(old(self).mappings(), pages.take(mapped), flags),
            decreases end_vaddr - vaddr,
        {
            let remains = end_vaddr - vaddr;
            let page_size = if huge && remains >= PageSize::Size1G.bytes()
                && PageSize::Size1G.is_aligned(vaddr) && PageSize::Size1G.is_aligned(paddr) {
                PageSize::Size1G
            } else if huge && remains >= PageSize::Size2M.bytes() && PageSize::Size2M.is_aligned(
                vaddr,
            ) && PageSize::Size2M.is_aligned(paddr) {
                PageSize::Size2M
            } else {
                PageSize::Size4K
            };
            proof {
                assert(page_size == next_page_size(vaddr, paddr, remains, huge));
                lemma_aligned_step(vaddr, remains, page_size);
                let rest = cont_pages(vaddr, paddr, remains, huge);
                assert(rest.len() > 0);
                assert(rest[0] == (Page { vaddr, size: page_size }, paddr));
                assert(pages.skip(mapped)[0] == pages[mapped]);
                assert(pages.take(mapped + 1).drop_last() == pages.take(mapped));
                assert(pages.take(mapped + 1).last() == pages[mapped]);
                assert(pages.skip(mapped + 1) == pages.skip(mapped).skip(1));
                assert(rest.skip(1) == cont_pages(
                    (vaddr + page_size.spec_bytes()) as usize,
                    (paddr + page_size.spec_bytes()) as usize,
                    (remains - page_size.spec_bytes()) as usize,
                    huge,
                ));
            }
            let page = Page::new_aligned(vaddr, page_size);
            match self.map(page, paddr, flags) {
                Ok(_) => {},
                Err(e) => {
                    return Err(e);
                },
            }
            vaddr += page_size.bytes();
            paddr += page_size.bytes();
            proof {
                mapped = mapped + 1;
            }
        }
        proof {
            assert(cont_pages(vaddr, paddr, 0, huge) == Seq::<(Page, PhysAddr)>::empty());
            assert(pages.skip(mapped).len() == 0);
            assert(pages.take(mapped) == pages);
        }
        Ok(())
    }

    /// Unmaps the pages that lie in the `size` bytes from `start_vaddr`,
    /// from the lowest address up; where none is mapped it goes on by the
    /// smallest page size.
    ///
    /// The pages of the table start at multiples of their sizes and do not
    /// overlap, and none of them lies partly in the range and partly
    /// outside. The first page that cannot be unmapped, for another reason
    /// than that it is not mapped, ends the call with its error, and the
    /// pages before it stay unmapped.
    fn unmap_cont(&mut self, start_vaddr: VirtAddr, size: usize) -> (result: PagingResult)
        requires
            spec_is_aligned(start_vaddr),
            spec_is_aligned(size),
            start_vaddr + size <= usize::MAX,
            pages_well_formed(old(self).mappings()),
            range_cuts_no_page(
                old(self).mappings(),
                start_vaddr,
                (start_vaddr + size) as usize,
            ),
        ensures
            match result {
                Ok(_) => final(self).mappings() == without_range(
                    old(self).mappings(),
                    start_vaddr,
                    (start_vaddr + size) as usize,
                ),
                Err(e) => e != PagingError::NotMapped && exists|reached: VirtAddr|
                    start_vaddr <= reached < start_vaddr + size && final(self).mappings()
                        == #[trigger] without_range(old(self).mappings(), start_vaddr, reached),
            },
    {
        let mut vaddr = start_vaddr;
        let end_vaddr = vaddr + size;
        let ghost before = self.mappings();
        assert(without_range(before, start_vaddr, vaddr) =~= before);
        while vaddr < end_vaddr
            invariant
                before == old(self).mappings(),
                end_vaddr == start_vaddr + size,
                start_vaddr <= vaddr <= end_vaddr,
                spec_is_aligned(vaddr),
                spec_is_aligned(end_vaddr),
                pages_well_formed(before),
                range_cuts_no_page(before, start_vaddr, end_vaddr),
                self.mappings() == without_range(before, start_vaddr, vaddr),
            decreases end_vaddr - vaddr,
        {
            let ghost current = self.mappings();
            let page_size = match self.unmap(vaddr) {
                Ok((_, s)) => {
                    proof {
                        let base = (vaddr - vaddr % s.spec_bytes()) as usize;
                        assert(current.contains_key(base));
                        assert(before.contains_key(base));
                        assert(current[base] == before[base]);
                        assert(vaddr % s.spec_bytes() < s.spec_bytes());
                        assert(base <= vaddr < base + s.spec_bytes());
                        assert(!(start_vaddr <= base < vaddr));
                        assert(base == vaddr);
                        assert(without_range(before, start_vaddr, (vaddr + s.spec_bytes()) as usize)
                            =~= current.remove(vaddr)) by {
                            assert forall|k: VirtAddr|
                                before.contains_key(k) && vaddr <= k < vaddr
                                    + s.spec_bytes() implies k == vaddr by {
                                if k != vaddr {
                                    assert(before.contains_key(vaddr) && before.contains_key(k));
                                }
                            }
                        }
                    }
                    s.bytes()
                },
                Err(PagingError::NotMapped) => {
                    proof {
                        assert(without_range(before, start_vaddr, (vaddr + 0x1000) as usize)
                            =~= current) by {
                            assert forall|k: VirtAddr|
                                before.contains_key(k) && vaddr <= k < vaddr
                                    + 0x1000 implies false by {
                                if k == vaddr {
                                    assert(current.contains_key(k));
                                    assert(page_holds(k, current[k].size, vaddr));
                                } else {
                                    lemma_page_start_is_aligned(before[k].size, k);
                                }
                            }
                        }
                    }
                    PageSize::Size4K.bytes()
                },
                Err(e) => {
                    return Err(e);
                },
            };
            vaddr += page_size;
        }
        Ok(())
    }
}

/// A multiple of a page size is a multiple of the smallest page size.
proof fn lemma_page_start_is_aligned(size: PageSize, addr: usize)
    requires
        size.spec_is_aligned(addr),
    ensures
        spec_is_aligned(addr),
{
    assert(addr % 0x20_0000usize == 0 ==> addr % 0x1000usize == 0) by (bit_vector);
    assert(addr % 0x4000_0000usize == 0 ==> addr % 0x1000usize == 0) by (bit_vector);
}

/// A step of the smallest page size, or of a larger one that the address is
/// a multiple of, leads from a multiple of the smallest page size to
/// another, and leaves a multiple of it to go.
proof fn lemma_aligned_step(vaddr: usize, remains: usize, size: PageSize)
    requires
        spec_is_aligned(vaddr),
        spec_is_aligned(remains),
        remains > 0,
        remains >= size.spec_bytes() || size == PageSize::Size4K,
    ensures
        remains >= size.spec_bytes(),
        (vaddr + size.spec_bytes()) % 0x1000 == 0,
        (remains - size.spec_bytes()) % 0x1000 == 0,
        size.spec_is_aligned(vaddr) || size != PageSize::Size4K,
{
}

/// The pages of `map_cont` tile the range: the first starts where the range
/// starts, each starts where the one before ends and is mapped as far from
/// `paddr` as it lies from `vaddr`, each lies in the range, and together
/// they are as long as the range. Each page starts at a multiple of its
/// size, and so does the frame of each page above the smallest size.
pub proof fn lemma_cont_pages_tile(vaddr: usize, paddr: usize, remains: usize, huge: bool, i: int)
    requires
        spec_is_aligned(vaddr),
        spec_is_aligned(remains),
        vaddr + remains <= usize::MAX,
        paddr + remains <= usize::MAX,
        0 <= i < cont_pages(vaddr, paddr, remains, huge).len(),
    ensures
        ({
            let pages = cont_pages(vaddr, paddr, remains, huge);
            let (page, frame) = pages[i];
            &&& pages[0].0.vaddr == vaddr
            &&& page.size.spec_is_aligned(page.vaddr)
            &&& page.size != PageSize::Size4K ==> page.size.spec_is_aligned(frame)
            &&& !huge ==> page.size == PageSize::Size4K
            &&& frame - paddr == page.vaddr - vaddr
            &&& vaddr <= page.vaddr
            &&& page.vaddr + page.size.spec_bytes() <= vaddr + remains
            &&& i + 1 < pages.len() ==> pages[i + 1].0.vaddr == page.vaddr + page.size.spec_bytes()
            &&& i + 1 == pages.len() ==> page.vaddr + page.size.spec_bytes() == vaddr + remains
        }),
    decreases remains,
{
    let size = next_page_size(vaddr, paddr, remains, huge);
    lemma_aligned_step(vaddr, remains, size);
    let next_vaddr = (vaddr + size.spec_bytes()) as usize;
    let next_paddr = (paddr + size.spec_bytes()) as usize;
    let next_remains = (remains - size.spec_bytes()) as usize;
    let rest = cont_pages(next_vaddr, next_paddr, next_remains, huge);
    let pages = cont_pages(vaddr, paddr, remains, huge);
    assert(pages == seq![(Page { vaddr, size }, paddr)] + rest);
    if i > 0 {
        lemma_cont_pages_tile(next_vaddr, next_paddr, next_remains, huge, i - 1);
        assert(pages[i] == rest[i - 1]);
        if i + 1 < pages.len() {
            assert(pages[i + 1] == rest[i]);
        }
    } else {
        if rest.len() > 0 {
            lemma_cont_pages_tile(next_vaddr, next_paddr, next_remains, huge, 0);
            assert(pages[1] == rest[0]);
        } else {
            assert(next_remains == 0);
        }
    }
}

} // verus!
