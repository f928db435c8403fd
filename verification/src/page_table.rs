//! The entries of the boot loader's page tables, in the VMSAv8-64
//! translation table format with 4 KiB granules.

use vstd::prelude::*;

verus! {

/// What a mapping allows, as the boot loader's callers say it.
#[derive(Clone, Copy, Debug, PartialEq, Eq, Structural)]
pub struct MemFlags {
    pub bits: usize,
}

pub const MEM_READ: usize = 0x01;

pub const MEM_WRITE: usize = 0x02;

pub const MEM_EXECUTE: usize = 0x04;

pub const MEM_USER: usize = 0x08;

pub const MEM_DEVICE: usize = 0x10;

/// Every flag that has a meaning.
pub const MEM_ALL: usize = 0x1f;

/// Memory attribute fields in the VMSAv8-64 translation table format
/// descriptors.
#[derive(Clone, Copy, Debug, PartialEq, Eq, Structural)]
pub struct DescriptorAttr {
    pub bits: u64,
}

/// Whether the descriptor is valid.
pub const ATTR_VALID: u64 = 0x1;

/// The descriptor gives the address of the next level of translation table
/// or 4KB page (not a 2M, 1G block).
pub const ATTR_NON_BLOCK: u64 = 0x2;

/// Memory attributes index field.
pub const ATTR_INDX: u64 = 0x1c;

/// Non-secure bit.
pub const ATTR_NS: u64 = 0x20;

/// Access permission: accessable at EL0.
pub const ATTR_AP_EL0: u64 = 0x40;

/// Access permission: read-only.
pub const ATTR_AP_RO: u64 = 0x80;

/// Shareability: Inner Shareable (otherwise Outer Shareable).
pub const ATTR_INNER: u64 = 0x100;

/// Shareability: Inner or Outer Shareable (otherwise Non-shareable).
pub const ATTR_SHAREABLE: u64 = 0x200;

/// The Access flag.
pub const ATTR_AF: u64 = 0x400;

/// The not global bit.
pub const ATTR_NG: u64 = 0x800;

/// Indicates that 16 adjacent translation table entries point to contiguous
/// memory regions.
pub const ATTR_CONTIGUOUS: u64 = 0x0010_0000_0000_0000;

/// The Privileged execute-never field.
pub const ATTR_PXN: u64 = 0x0020_0000_0000_0000;

/// The Execute-never or Unprivileged execute-never field.
pub const ATTR_UXN: u64 = 0x0040_0000_0000_0000;

/// PXN limit for subsequent levels of lookup.
pub const ATTR_PXN_TABLE: u64 = 0x0800_0000_0000_0000;

/// XN limit for subsequent levels of lookup.
pub const ATTR_XN_TABLE: u64 = 0x1000_0000_0000_0000;

/// Access permissions limit for subsequent levels of lookup: access at EL0
/// not permitted.
pub const ATTR_AP_NO_EL0_TABLE: u64 = 0x2000_0000_0000_0000;

/// Access permissions limit for subsequent levels of lookup: write access
/// not permitted.
pub const ATTR_AP_NO_WRITE_TABLE: u64 = 0x4000_0000_0000_0000;

/// For memory accesses from Secure state, specifies the Security state for
/// subsequent levels of lookup.
pub const ATTR_NS_TABLE: u64 = 0x8000_0000_0000_0000;

/// Every attribute bit that has a meaning.
pub const ATTR_ALL: u64 = 0xf870_0000_0000_0fff;

/// The kind of memory behind a mapping.
#[derive(Clone, Copy, Debug, PartialEq, Eq, Structural)]
pub enum MemType {
    Device,
    Normal,
}

impl MemFlags {
    /// The flags with the given bits; bits without a meaning are dropped.
    pub fn from_bits_truncate(bits: usize) -> (flags: MemFlags)
        ensures
            flags.bits == bits & MEM_ALL,
    {
        MemFlags { bits: bits & MEM_ALL }
    }

    /// Whether every bit of `bits` is set.
    pub open spec fn has(self, bits: usize) -> bool {
        self.bits & bits == bits
    }

    /// Whether every bit of `bits` is set.
    #[verifier::when_used_as_spec(has)]
    pub fn contains(self, bits: usize) -> (held: bool)
        ensures
            held == self.has(bits),
    {
        self.bits & bits == bits
    }

    /// What the attributes of a descriptor allow: reading where the
    /// descriptor is valid, writing where it is not read-only, execution by
    /// the level that the mapping is for where that level's execute-never
    /// bit is clear.
    pub open spec fn spec_from_attr(attr: DescriptorAttr) -> MemFlags {
        MemFlags {
            bits: (if attr.has(ATTR_VALID) {
                MEM_READ
            } else {
                0
            }) | (if !attr.has(ATTR_AP_RO) {
                MEM_WRITE
            } else {
                0
            }) | (if attr.has(ATTR_AP_EL0) {
                MEM_USER
            } else {
                0
            }) | (if (attr.has(ATTR_AP_EL0) && !attr.has(ATTR_UXN)) || (!attr.has(ATTR_AP_EL0)
                && !attr.has(ATTR_PXN)) {
                MEM_EXECUTE
            } else {
                0
            }) | (if attr.spec_mem_type() == Some(MemType::Device) {
                MEM_DEVICE
            } else {
                0
            }),
        }
    }

    /// What the attributes of a descriptor allow. The descriptor's memory
    /// attribute index is one of the two that are in use.
    pub fn from_attr(attr: DescriptorAttr) -> (flags: MemFlags)
        requires
            attr.spec_mem_type() is Some,
        ensures
            flags == Self::spec_from_attr(attr),
    {
        let user = attr.contains(ATTR_AP_EL0);
        let read: usize = if attr.contains(ATTR_VALID) {
            MEM_READ
        } else {
            0
        };
        let write: usize = if !attr.contains(ATTR_AP_RO) {
            MEM_WRITE
        } else {
            0
        };
        let level: usize = if user {
            MEM_USER
        } else {
            0
        };
        let execute: usize = if user {
            if !attr.contains(ATTR_UXN) {
                MEM_EXECUTE
            } else {
                0
            }
        } else if !attr.intersects(ATTR_PXN) {
            MEM_EXECUTE
        } else {
            0
        };
        let device: usize = if attr.mem_type() == MemType::Device {
            MEM_DEVICE
        } else {
            0
        };
        proof {
            let b = attr.bits;
            assert(b & 0x0020_0000_0000_0000u64 != 0 <==> b & 0x0020_0000_0000_0000u64
                == 0x0020_0000_0000_0000u64) by (bit_vector);
        }
        MemFlags { bits: read | write | level | execute | device }
    }
}

impl DescriptorAttr {
    /// The two bits of the memory attribute index that tell the memory types
    /// apart; the field begins at bit 2.
    pub open spec fn spec_attr_index(self) -> u64 {
        (self.bits & 0x1c) >> 2
    }

    /// The kind of memory that the attribute index names, if it names one.
    pub open spec fn spec_mem_type(self) -> Option<MemType> {
        if self.spec_attr_index() == 0 {
            Some(MemType::Device)
        } else if self.spec_attr_index() == 1 {
            Some(MemType::Normal)
        } else {
            None
        }
    }

    /// Whether every bit of `bits` is set.
    pub open spec fn has(self, bits: u64) -> bool {
        self.bits & bits == bits
    }

    /// Whether some bit of `bits` is set.
    pub open spec fn meets(self, bits: u64) -> bool {
        self.bits & bits != 0
    }

    /// The attributes with the given bits; bits without a meaning are
    /// dropped.
    pub fn from_bits_truncate(bits: u64) -> (attr: DescriptorAttr)
        ensures
            attr.bits == bits & ATTR_ALL,
    {
        DescriptorAttr { bits: bits & ATTR_ALL }
    }

    /// Whether every bit of `bits` is set.
    #[verifier::when_used_as_spec(has)]
    pub fn contains(self, bits: u64) -> (held: bool)
        ensures
            held == self.has(bits),
    {
        self.bits & bits == bits
    }

    /// Whether some bit of `bits` is set.
    #[verifier::when_used_as_spec(meets)]
    pub fn intersects(self, bits: u64) -> (met: bool)
        ensures
            met == self.meets(bits),
    {
        self.bits & bits != 0
    }

    /// The attributes of memory of the given kind: its attribute index, and
    /// for normal memory inner shareability.
    pub fn from_mem_type(mem_type: MemType) -> (attr: DescriptorAttr)
        ensures
            attr.bits == match mem_type {
                MemType::Device => 0,
                MemType::Normal => 0x304u64,
            },
            attr.spec_mem_type() == Some(mem_type),
    {
        assert((0u64 & 0x1c) >> 2 == 0) by (bit_vector);
        assert((0x304u64 & 0x1c) >> 2 == 1) by (bit_vector);
        match mem_type {
            MemType::Device => DescriptorAttr { bits: 0 },
            MemType::Normal => DescriptorAttr { bits: 0x304 },
        }
    }

    /// The kind of memory that the attribute index names. The index is one
    /// of the two that are in use.
    pub fn mem_type(&self) -> (mem_type: MemType)
        requires
            self.spec_mem_type() is Some,
        ensures
            self.spec_mem_type() == Some(mem_type),
    {
        let idx = (self.bits & 0x1c) >> 2;
        if idx == 0 {
            MemType::Device
        } else {
            MemType::Normal
        }
    }

    /// The attributes that allow what `flags` allow.
    pub open spec fn spec_from_flags(flags: MemFlags) -> DescriptorAttr {
        DescriptorAttr {
            bits: (if flags.has(MEM_DEVICE) {
                0
            } else {
                0x304u64
            }) | (if flags.has(MEM_READ) {
                ATTR_VALID
            } else {
                0
            }) | (if !flags.has(MEM_WRITE) {
                ATTR_AP_RO
            } else {
                0
            }) | (if flags.has(MEM_USER) {
                ATTR_AP_EL0 | ATTR_PXN
            } else {
                ATTR_UXN
            }) | (if !flags.has(MEM_EXECUTE) {
                if flags.has(MEM_USER) {
                    ATTR_UXN
                } else {
                    ATTR_PXN
                }
            } else {
                0
            }),
        }
    }

    /// The attributes that allow what `flags` allow: a mapping for the user
    /// level is never executable by the kernel, and one for the kernel never
    /// by the user level.
    pub fn from_flags(flags: MemFlags) -> (attr: DescriptorAttr)
        ensures
            attr == Self::spec_from_flags(flags),
    {
        let mut bits: u64 = if flags.contains(MEM_DEVICE) {
            DescriptorAttr::from_mem_type(MemType::Device).bits
        } else {
            DescriptorAttr::from_mem_type(MemType::Normal).bits
        };
        let ghost kind = bits;
        let mut valid: u64 = 0;
        let mut read_only: u64 = 0;
        let mut level: u64 = ATTR_UXN;
        let mut never: u64 = 0;
        if flags.contains(MEM_READ) {
            valid = ATTR_VALID;
        }
        if !flags.contains(MEM_WRITE) {
            read_only = ATTR_AP_RO;
        }
        if flags.contains(MEM_USER) {
            level = ATTR_AP_EL0 | ATTR_PXN;
            if !flags.contains(MEM_EXECUTE) {
                never = ATTR_UXN;
            }
        } else if !flags.contains(MEM_EXECUTE) {
            never = ATTR_PXN;
        }
        bits = bits | valid | read_only | level | never;
        DescriptorAttr { bits }
    }
}

/// The largest physical address: 40 bits.
pub const PHYSADDR_MAX: u64 = 0xff_ffff_ffff;

/// The bits of an entry that hold the address of a page or table.
pub const PHYS_ADDR_MASK: u64 = 0xff_ffff_f000;

/// An entry of a translation table.
#[derive(Clone, Copy, Debug, PartialEq, Eq, Structural)]
pub struct PageTableEntry(pub u64);

impl PageTableEntry {
    /// The entry for a page or block at `paddr` that allows what `flags`
    /// allow: the attributes for the flags with the access flag, marked as
    /// no block unless `is_block`, and the page's address bits of `paddr`.
    pub open spec fn spec_new_page(paddr: u64, flags: MemFlags, is_block: bool) -> PageTableEntry {
        PageTableEntry(
            (DescriptorAttr::spec_from_flags(flags).bits | ATTR_AF | (if is_block {
                0
            } else {
                ATTR_NON_BLOCK
            })) | (paddr & PHYS_ADDR_MASK),
        )
    }

    /// The entry for the next level's table at `paddr`: valid, no block, and
    /// the table's address bits of `paddr`.
    pub open spec fn spec_new_table(paddr: u64) -> PageTableEntry {
        PageTableEntry((ATTR_NON_BLOCK | ATTR_VALID) | (paddr & PHYS_ADDR_MASK))
    }

    /// The entry that maps nothing.
    pub fn empty() -> (entry: PageTableEntry)
        ensures
            entry.0 == 0,
    {
        PageTableEntry(0)
    }

    /// The entry for a page or block at `paddr` that allows what `flags`
    /// allow.
    pub fn new_page(paddr: u64, flags: MemFlags, is_block: bool) -> (entry: PageTableEntry)
        ensures
            entry == Self::spec_new_page(paddr, flags, is_block),
    {
        let mut attr = DescriptorAttr::from_flags(flags).bits | ATTR_AF;
        if !is_block {
            attr = attr | ATTR_NON_BLOCK;
        } else {
            assert(attr | 0 == attr) by (bit_vector);
        }
        PageTableEntry(attr | (paddr & PHYS_ADDR_MASK))
    }

    /// The entry for the next level's table at `paddr`.
    pub fn new_table(paddr: u64) -> (entry: PageTableEntry)
        ensures
            entry == Self::spec_new_table(paddr),
    {
        PageTableEntry((ATTR_NON_BLOCK | ATTR_VALID) | (paddr & PHYS_ADDR_MASK))
    }

    /// Makes the entry map nothing.
    pub fn clear(&mut self)
        ensures
            final(self).0 == 0,
    {
        self.0 = 0;
    }
}

/// The number of entries of a translation table.
pub const TABLE_ENTRIES: usize = 512;

/// The first four entries of the boot loader's second table, each for one
/// block of 1 GiB, and the rest of the table as it was.
pub open spec fn with_blocks(
    table: Seq<PageTableEntry>,
    blocks: Seq<(u64, MemFlags)>,
) -> Seq<PageTableEntry> {
    Seq::new(
        table.len(),
        |i: int|
            if i < blocks.len() {
                PageTableEntry::spec_new_page(blocks[i].0, blocks[i].1, true)
            } else {
                table[i]
            },
    )
}

/// The blocks that the boot loader maps on the emulated machine: the first
/// GiB as device memory, then normal memory that may be executed at 1 GiB,
/// at 2 GiB and at 0xb000_0000.
pub open spec fn qemu_blocks() -> Seq<(u64, MemFlags)> {
    seq![
        (0u64, MemFlags { bits: MEM_READ | MEM_WRITE | MEM_DEVICE }),
        (0x4000_0000u64, MemFlags { bits: MEM_READ | MEM_WRITE | MEM_EXECUTE }),
        (0x8000_0000u64, MemFlags { bits: MEM_READ | MEM_WRITE | MEM_EXECUTE }),
        (0xb000_0000u64, MemFlags { bits: MEM_READ | MEM_WRITE | MEM_EXECUTE }),
    ]
}

/// The blocks that the boot loader maps on the Raspberry Pi 4: three GiB of
/// normal memory that may be executed, then one of device memory, which may
/// be executed too.
pub open spec fn raspi4_blocks() -> Seq<(u64, MemFlags)> {
    seq![
        (0u64, MemFlags { bits: MEM_READ | MEM_WRITE | MEM_EXECUTE }),
        (0x4000_0000u64, MemFlags { bits: MEM_READ | MEM_WRITE | MEM_EXECUTE }),
        (0x8000_0000u64, MemFlags { bits: MEM_READ | MEM_WRITE | MEM_EXECUTE }),
        (0xc000_0000u64, MemFlags { bits: MEM_READ | MEM_WRITE | MEM_EXECUTE | MEM_DEVICE }),
    ]
}

/// Fills the boot page tables for the emulated machine: the first entry of
/// `pt0` leads to `pt1`, which lies at `pt1_addr`, and the first four
/// entries of `pt1` map one block each.
pub fn init_qemu_boot_page_table(
    pt0: &mut [PageTableEntry; TABLE_ENTRIES],
    pt1: &mut [PageTableEntry; TABLE_ENTRIES],
    pt1_addr: u64,
)
    ensures
        final(pt0)@ == old(pt0)@.update(0, PageTableEntry::spec_new_table(pt1_addr)),
        final(pt1)@ == with_blocks(old(pt1)@, qemu_blocks()),
{
    pt0.set(0, PageTableEntry::new_table(pt1_addr));
    pt1.set(
        0,
        PageTableEntry::new_page(0, MemFlags { bits: MEM_READ | MEM_WRITE | MEM_DEVICE }, true),
    );
    pt1.set(
        1,
        PageTableEntry::new_page(
            0x4000_0000,
            MemFlags { bits: MEM_READ | MEM_WRITE | MEM_EXECUTE },
            true,
        ),
    );
    pt1.set(
        2,
        PageTableEntry::new_page(
            0x8000_0000,
            MemFlags { bits: MEM_READ | MEM_WRITE | MEM_EXECUTE },
            true,
        ),
    );
    pt1.set(
        3,
        PageTableEntry::new_page(
            0xb000_0000,
            MemFlags { bits: MEM_READ | MEM_WRITE | MEM_EXECUTE },
            true,
        ),
    );
    assert(pt1@ =~= with_blocks(old(pt1)@, qemu_blocks()));
}

/// Fills the boot page tables for the Raspberry Pi 4: the first entry of
/// `pt0` leads to `pt1`, which lies at `pt1_addr`, and the first four
/// entries of `pt1` map one block each.
pub fn init_raspi4_boot_page_table(
    pt0: &mut [PageTableEntry; TABLE_ENTRIES],
    pt1: &mut [PageTableEntry; TABLE_ENTRIES],
    pt1_addr: u64,
)
    ensures
        final(pt0)@ == old(pt0)@.update(0, PageTableEntry::spec_new_table(pt1_addr)),
        final(pt1)@ == with_blocks(old(pt1)@, raspi4_blocks()),
{
    pt0.set(0, PageTableEntry::new_table(pt1_addr));
    pt1.set(
        0,
        PageTableEntry::new_page(0, MemFlags { bits: MEM_READ | MEM_WRITE | MEM_EXECUTE }, true),
    );
    pt1.set(
        1,
        PageTableEntry::new_page(
            0x4000_0000,
            MemFlags { bits: MEM_READ | MEM_WRITE | MEM_EXECUTE },
            true,
        ),
    );
    pt1.set(
        2,
        PageTableEntry::new_page(
            0x8000_0000,
            MemFlags { bits: MEM_READ | MEM_WRITE | MEM_EXECUTE },
            true,
        ),
    );
    pt1.set(
        3,
        PageTableEntry::new_page(
            0xc000_0000,
            MemFlags { bits: MEM_READ | MEM_WRITE | MEM_EXECUTE | MEM_DEVICE },
            true,
        ),
    );
    assert(pt1@ =~= with_blocks(old(pt1)@, raspi4_blocks()));
}

/// Turning flags into attributes and back gives the flags again, for flags
/// that all have a meaning.
pub proof fn lemma_flags_round_trip(flags: MemFlags)
    requires
        flags.bits & MEM_ALL == flags.bits,
    ensures
        DescriptorAttr::spec_from_flags(flags).spec_mem_type() is Some,
        MemFlags::spec_from_attr(DescriptorAttr::spec_from_flags(flags)) == flags,
{
    let f = flags.bits;
    let kind: u64 = if flags.has(MEM_DEVICE) { 0 } else { 0x304 };
    let valid: u64 = if flags.has(MEM_READ) { 0x1 } else { 0 };
    let read_only: u64 = if !flags.has(MEM_WRITE) { 0x80 } else { 0 };
    let level: u64 = if flags.has(MEM_USER) {
        0x0020_0000_0000_0040
    } else {
        0x0040_0000_0000_0000
    };
    let never: u64 = if !flags.has(MEM_EXECUTE) {
        if flags.has(MEM_USER) {
            0x0040_0000_0000_0000
        } else {
            0x0020_0000_0000_0000
        }
    } else {
        0
    };
    assert(0x40u64 | 0x0020_0000_0000_0000u64 == 0x0020_0000_0000_0040u64) by (bit_vector);
    let a = kind | valid | read_only | level | never;
    assert(a == DescriptorAttr::spec_from_flags(flags).bits);
    assert({
        &&& (a & 0x1 == 0x1 <==> valid == 0x1)
        &&& (a & 0x80 == 0x80 <==> read_only == 0x80)
        &&& (a & 0x40 == 0x40 <==> level == 0x0020_0000_0000_0040)
        &&& (a & 0x0040_0000_0000_0000 == 0x0040_0000_0000_0000 <==> level
            == 0x0040_0000_0000_0000 || never == 0x0040_0000_0000_0000)
        &&& (a & 0x0020_0000_0000_0000 == 0x0020_0000_0000_0000 <==> level
            == 0x0020_0000_0000_0040 || never == 0x0020_0000_0000_0000)
        &&& (a & 0x1c) >> 2 == (if kind == 0 {
            0u64
        } else {
            1u64
        })
    }) by (bit_vector)
        requires
            a == kind | valid | read_only | level | never,
            kind == 0 || kind == 0x304,
            valid == 0 || valid == 0x1,
            read_only == 0 || read_only == 0x80,
            level == 0x0020_0000_0000_0040 || level == 0x0040_0000_0000_0000,
            never == 0 || never == 0x0040_0000_0000_0000 || never == 0x0020_0000_0000_0000,
    ;
    assert(f == (if f & 0x01 == 0x01 {
        0x01usize
    } else {
        0
    }) | (if f & 0x02 == 0x02 {
        0x02usize
    } else {
        0
    }) | (if f & 0x08 == 0x08 {
        0x08usize
    } else {
        0
    }) | (if f & 0x04 == 0x04 {
        0x04usize
    } else {
        0
    }) | (if f & 0x10 == 0x10 {
        0x10usize
    } else {
        0
    })) by (bit_vector)
        requires
            f & 0x1f == f,
    ;
}

} // verus!
