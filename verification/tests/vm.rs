use std::collections::BTreeMap;

use zcore::vm::{
    is_aligned, GenericPageTable, IgnoreNotMappedErr, MMUFlags, Page, PageMap, PageSize,
    PagingError, PagingResult, PhysAddr, VirtAddr, PAGE_SIZE,
};

/// A page table that keeps its pages in a map, and can be told to run out
/// of memory after some pages.
struct TestTable {
    pages: BTreeMap<VirtAddr, (PhysAddr, MMUFlags, PageSize)>,
    room: usize,
    pinned: Option<VirtAddr>,
}

impl TestTable {
    fn new() -> Self {
        TestTable { pages: BTreeMap::new(), room: usize::MAX, pinned: None }
    }

    fn page_of(&self, vaddr: VirtAddr) -> Option<VirtAddr> {
        self.pages
            .iter()
            .find(|(base, entry)| **base <= vaddr && vaddr - **base < entry.2.bytes())
            .map(|(base, _)| *base)
    }

    fn layout(&self) -> Vec<(VirtAddr, PhysAddr, PageSize)> {
        self.pages.iter().map(|(base, entry)| (*base, entry.0, entry.2)).collect()
    }
}

impl GenericPageTable for TestTable {
    fn mappings(&self) -> PageMap {
        unreachable!()
    }

    fn table_phys(&self) -> PhysAddr {
        0x8000_0000
    }

    fn map(&mut self, page: Page, paddr: PhysAddr, flags: MMUFlags) -> PagingResult {
        if self.pages.contains_key(&page.vaddr) {
            return Err(PagingError::AlreadyMapped);
        }
        if self.room == 0 {
            return Err(PagingError::NoMemory);
        }
        self.room -= 1;
        self.pages.insert(page.vaddr, (paddr, flags, page.size));
        Ok(())
    }

    fn unmap(&mut self, vaddr: VirtAddr) -> PagingResult<(PhysAddr, PageSize)> {
        if self.pinned == Some(vaddr) {
            return Err(PagingError::NoMemory);
        }
        match self.page_of(vaddr) {
            Some(base) => {
                let (paddr, _, size) = self.pages.remove(&base).unwrap();
                Ok((paddr, size))
            }
            None => Err(PagingError::NotMapped),
        }
    }

    fn update(
        &mut self,
        vaddr: VirtAddr,
        paddr: Option<PhysAddr>,
        flags: Option<MMUFlags>,
    ) -> PagingResult<PageSize> {
        let base = self.page_of(vaddr).ok_or(PagingError::NotMapped)?;
        let entry = self.pages.get_mut(&base).unwrap();
        if let Some(paddr) = paddr {
            entry.0 = paddr;
        }
        if let Some(flags) = flags {
            entry.1 = flags;
        }
        Ok(entry.2)
    }

    fn query(&self, vaddr: VirtAddr) -> PagingResult<(PhysAddr, MMUFlags, PageSize)> {
        let base = self.page_of(vaddr).ok_or(PagingError::NotMapped)?;
        let entry = self.pages[&base];
        Ok((entry.0 + (vaddr - base), entry.1, entry.2))
    }
}

const M2: usize = 0x20_0000;
const G1: usize = 0x4000_0000;

#[test]
fn page_size_arithmetic() {
    assert_eq!(PageSize::Size4K.bytes(), 0x1000);
    assert_eq!(PageSize::Size2M.bytes(), 0x20_0000);
    assert_eq!(PageSize::Size1G.bytes(), 0x4000_0000);
    assert_eq!(PageSize::Size4K.page_offset(0x1234_5678), 0x678);
    assert_eq!(PageSize::Size2M.page_offset(0x1234_5678), 0x14_5678);
    assert_eq!(PageSize::Size1G.page_offset(0x5234_5678), 0x1234_5678);
    assert_eq!(PageSize::Size4K.align_down(0x1234_5678), 0x1234_5000);
    assert_eq!(PageSize::Size2M.align_down(0x1234_5678), 0x1220_0000);
    assert_eq!(PageSize::Size1G.align_down(0x5234_5678), 0x4000_0000);
    assert_eq!(PageSize::Size4K.align_down(0), 0);
    assert_eq!(PageSize::Size1G.align_down(usize::MAX), usize::MAX - (G1 - 1));
    assert!(PageSize::Size4K.is_aligned(0x3000));
    assert!(!PageSize::Size4K.is_aligned(0x3001));
    assert!(PageSize::Size2M.is_aligned(0x40_0000));
    assert!(!PageSize::Size2M.is_aligned(0x30_0000));
    assert!(PageSize::Size1G.is_aligned(0));
    assert!(!PageSize::Size1G.is_aligned(M2));
    assert!(!PageSize::Size4K.is_huge());
    assert!(PageSize::Size2M.is_huge());
    assert!(PageSize::Size1G.is_huge());
    assert_eq!(PAGE_SIZE, 0x1000);
    assert!(is_aligned(0x7000));
    assert!(!is_aligned(0x7008));
}

#[test]
fn new_aligned_page() {
    let page = Page::new_aligned(0x40_0000, PageSize::Size2M);
    assert_eq!(page, Page { vaddr: 0x40_0000, size: PageSize::Size2M });
}

#[test]
fn ignore_not_mapped() {
    let ok: PagingResult<u8> = Ok(3);
    assert_eq!(ok.ignore(), Ok(()));
    let not_mapped: PagingResult<u8> = Err(PagingError::NotMapped);
    assert_eq!(not_mapped.ignore(), Ok(()));
    let no_memory: PagingResult<u8> = Err(PagingError::NoMemory);
    assert_eq!(no_memory.ignore(), Err(PagingError::NoMemory));
    let already: PagingResult<u8> = Err(PagingError::AlreadyMapped);
    assert_eq!(already.ignore(), Err(PagingError::AlreadyMapped));
}

#[test]
fn flags() {
    let flags = MMUFlags::read().union(MMUFlags::write()).union(MMUFlags::huge_page());
    assert_eq!(flags.bits, 0x4c);
    assert!(flags.contains(MMUFlags::huge_page()));
    assert!(flags.contains(MMUFlags::read().union(MMUFlags::write())));
    assert!(!flags.contains(MMUFlags::execute()));
    assert!(!flags.contains(MMUFlags::user().union(MMUFlags::read())));
    assert!(flags.contains(MMUFlags::empty()));
    assert_eq!(MMUFlags::device().bits, 0x80);
}

#[test]
fn map_cont_without_huge_pages_uses_small_pages() {
    let mut table = TestTable::new();
    let flags = MMUFlags::read();
    assert_eq!(table.map_cont(M2, 3 * PAGE_SIZE, 4 * M2, flags), Ok(()));
    assert_eq!(
        table.layout(),
        vec![
            (M2, 4 * M2, PageSize::Size4K),
            (M2 + 0x1000, 4 * M2 + 0x1000, PageSize::Size4K),
            (M2 + 0x2000, 4 * M2 + 0x2000, PageSize::Size4K),
        ]
    );
}

#[test]
fn map_cont_with_huge_pages_picks_the_largest_that_fits() {
    let mut table = TestTable::new();
    let flags = MMUFlags::read().union(MMUFlags::huge_page());
    // Two small pages up to a 2M boundary, one 2M page, one small page.
    let start = M2 - 2 * PAGE_SIZE;
    let size = 2 * PAGE_SIZE + M2 + PAGE_SIZE;
    assert_eq!(table.map_cont(start, size, 5 * M2 + start, flags), Ok(()));
    assert_eq!(
        table.layout(),
        vec![
            (start, 5 * M2 + start, PageSize::Size4K),
            (start + 0x1000, 5 * M2 + start + 0x1000, PageSize::Size4K),
            (M2, 6 * M2, PageSize::Size2M),
            (2 * M2, 7 * M2, PageSize::Size4K),
        ]
    );
}

#[test]
fn map_cont_needs_both_addresses_at_a_huge_boundary() {
    let mut table = TestTable::new();
    let flags = MMUFlags::huge_page();
    assert_eq!(table.map_cont(M2, 2 * PAGE_SIZE, M2 + PAGE_SIZE, flags), Ok(()));
    let mut other = TestTable::new();
    // The frame is not at a 2M boundary, so no 2M page is used.
    other.room = 3;
    assert_eq!(other.map_cont(M2, M2, M2 + PAGE_SIZE, flags), Err(PagingError::NoMemory));
    assert_eq!(
        other.layout(),
        vec![
            (M2, M2 + 0x1000, PageSize::Size4K),
            (M2 + 0x1000, M2 + 0x2000, PageSize::Size4K),
            (M2 + 0x2000, M2 + 0x3000, PageSize::Size4K),
        ]
    );
}

#[test]
fn map_cont_uses_gigabyte_pages() {
    let mut table = TestTable::new();
    let flags = MMUFlags::huge_page();
    assert_eq!(table.map_cont(G1, G1 + M2, 3 * G1, flags), Ok(()));
    assert_eq!(
        table.layout(),
        vec![(G1, 3 * G1, PageSize::Size1G), (2 * G1, 4 * G1, PageSize::Size2M)]
    );
}

#[test]
fn map_cont_of_nothing_maps_nothing() {
    let mut table = TestTable::new();
    assert_eq!(table.map_cont(M2, 0, M2, MMUFlags::huge_page()), Ok(()));
    assert!(table.layout().is_empty());
}

#[test]
fn map_cont_stops_at_the_first_error() {
    let mut table = TestTable::new();
    assert_eq!(table.map(Page::new_aligned(0x2000, PageSize::Size4K), 0x9000, MMUFlags::read()), Ok(()));
    assert_eq!(
        table.map_cont(0, 4 * PAGE_SIZE, 0x10_0000, MMUFlags::read()),
        Err(PagingError::AlreadyMapped)
    );
    assert_eq!(
        table.layout(),
        vec![
            (0, 0x10_0000, PageSize::Size4K),
            (0x1000, 0x10_1000, PageSize::Size4K),
            (0x2000, 0x9000, PageSize::Size4K),
        ]
    );
}

#[test]
fn unmap_cont_takes_the_pages_of_the_range() {
    let mut table = TestTable::new();
    let flags = MMUFlags::huge_page();
    assert_eq!(
        table.map_cont(M2 - PAGE_SIZE, PAGE_SIZE + M2 + PAGE_SIZE, 3 * M2 - PAGE_SIZE, flags),
        Ok(())
    );
    assert_eq!(table.map_cont(4 * M2, PAGE_SIZE, 0, flags), Ok(()));
    assert_eq!(table.layout().len(), 4);
    // A range with a hole at its start and its end.
    assert_eq!(table.unmap_cont(M2 - 2 * PAGE_SIZE, 2 * PAGE_SIZE + M2 + 2 * PAGE_SIZE), Ok(()));
    assert_eq!(table.layout(), vec![(4 * M2, 0, PageSize::Size4K)]);
    assert_eq!(table.unmap_cont(0, 0), Ok(()));
    assert_eq!(table.layout().len(), 1);
}

#[test]
fn unmap_cont_stops_at_the_first_error() {
    let mut table = TestTable::new();
    assert_eq!(table.map_cont(0, 4 * PAGE_SIZE, M2, MMUFlags::read()), Ok(()));
    table.pinned = Some(2 * PAGE_SIZE);
    assert_eq!(table.unmap_cont(0, 4 * PAGE_SIZE), Err(PagingError::NoMemory));
    assert_eq!(
        table.layout(),
        vec![
            (2 * PAGE_SIZE, M2 + 2 * PAGE_SIZE, PageSize::Size4K),
            (3 * PAGE_SIZE, M2 + 3 * PAGE_SIZE, PageSize::Size4K),
        ]
    );
}

#[test]
fn query_and_update_of_the_test_table() {
    let mut table = TestTable::new();
    assert_eq!(table.table_phys(), 0x8000_0000);
    assert_eq!(table.query(0x3008), Err(PagingError::NotMapped));
    assert_eq!(table.map(Page::new_aligned(0x3000, PageSize::Size4K), 0x7000, MMUFlags::read()), Ok(()));
    assert_eq!(table.query(0x3008), Ok((0x7008, MMUFlags::read(), PageSize::Size4K)));
    assert_eq!(table.update(0x3000, None, Some(MMUFlags::write())), Ok(PageSize::Size4K));
    assert_eq!(table.query(0x3000), Ok((0x7000, MMUFlags::write(), PageSize::Size4K)));
    assert_eq!(table.unmap(0x3000), Ok((0x7000, PageSize::Size4K)));
    assert_eq!(table.unmap(0x3000), Err(PagingError::NotMapped));
}
