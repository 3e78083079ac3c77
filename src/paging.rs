//! Page tables for the boot stage.
//!
//! The stage identity-maps the first GiB of physical memory with a tree of
//! three tables: one level-4 root, one level-3 table and one level-2 table
//! whose 512 entries are 2 MiB large pages.

use vstd::prelude::*;

use crate::error::BootError;

verus! {

/// Number of 64-bit entries in one 4 KiB table.
pub const PAGE_TABLE_SIZE: usize = 512;

/// The size of a large page in bytes: 2 MiB.
pub const LARGE_PAGE_SIZE: u64 = 0x200000;

/// The span that the identity tree maps: 1 GiB.
pub const IDENTITY_SPAN: u64 = 0x4000_0000;

/// Bits 21..52 of a large-page entry: the physical base of the page.
pub const LARGE_PAGE_BASE_MASK: u64 = 0x000F_FFFF_FFE0_0000;

/// Bits 12..52 of a table entry: the physical address of the next table.
pub const TABLE_ADDRESS_MASK: u64 = 0x000F_FFFF_FFFF_F000;

/// Flags of a page-table entry.
#[derive(Clone, Copy, Debug, PartialEq, Eq, Structural)]
pub enum Flags {
    Present,
    Writable,
    User,
    WriteThrough,
    CacheDisabled,
    Accessed,
    Dirty,
    LargePage,
    Global,
    NoExecute,
}

impl Flags {
    /// The bit of the entry that the flag occupies.
    pub open spec fn spec_bits(self) -> u64 {
        match self {
            Flags::Present => 0x1,
            Flags::Writable => 0x2,
            Flags::User => 0x4,
            Flags::WriteThrough => 0x8,
            Flags::CacheDisabled => 0x10,
            Flags::Accessed => 0x20,
            Flags::Dirty => 0x40,
            Flags::LargePage => 0x80,
            Flags::Global => 0x100,
            Flags::NoExecute => 0x8000_0000_0000_0000,
        }
    }

    pub fn bits(self) -> (r: u64)
        ensures
            r == self.spec_bits(),
    {
        match self {
            Flags::Present => 0x1,
            Flags::Writable => 0x2,
            Flags::User => 0x4,
            Flags::WriteThrough => 0x8,
            Flags::CacheDisabled => 0x10,
            Flags::Accessed => 0x20,
            Flags::Dirty => 0x40,
            Flags::LargePage => 0x80,
            Flags::Global => 0x100,
            Flags::NoExecute => 0x8000_0000_0000_0000,
        }
    }
}

/// Present and writable: the flags of an entry that points to a lower table.
pub const TABLE_FLAGS: u64 = 0x3;

/// Present, writable and large page: the flags of a 2 MiB mapping.
pub const LARGE_PAGE_FLAGS: u64 = 0x83;

/// The largest value that the 32-bit write path can store.
pub const MAX_ENTRY_VALUE: u64 = 0xFFFF_FFFF;

/// A value fits the 32-bit write path exactly when it has no bit set at
/// position 32 or above.
pub proof fn lemma_fits_iff_no_high_bits(v: u64)
    ensures
        v <= MAX_ENTRY_VALUE <==> v >> 32 == 0,
{
    assert(v <= 0xFFFF_FFFF <==> v >> 32 == 0) by (bit_vector);
}

pub open spec fn is_present(e: u64) -> bool {
    e & 0x1 == 0x1
}

pub open spec fn is_writable(e: u64) -> bool {
    e & 0x2 == 0x2
}

pub open spec fn is_large_page(e: u64) -> bool {
    e & 0x80 == 0x80
}

pub open spec fn large_page_base(e: u64) -> u64 {
    e & LARGE_PAGE_BASE_MASK
}

/// Physical address and flags that map large page `i` onto itself.
pub open spec fn identity_pair(i: int) -> (u64, u64) {
    ((i * LARGE_PAGE_SIZE) as u64, LARGE_PAGE_FLAGS)
}

/// The entry that maps large page `i` of the identity span onto itself.
pub open spec fn identity_entry(i: int) -> u64 {
    ((i * LARGE_PAGE_SIZE) as u64) | LARGE_PAGE_FLAGS
}

/// `e` is the combined value of a pair that `f` may return for index `i`.
pub open spec fn produced_by<F: Fn(usize) -> (u64, u64)>(f: F, i: usize, e: u64) -> bool {
    exists|p: (u64, u64)| #[trigger] f.ensures((i,), p) && e == (p.0 | p.1)
}

/// One 4 KiB table of 512 entries.
pub struct PageTable {
    pub entries: [u64; PAGE_TABLE_SIZE],
}

impl PageTable {
    pub open spec fn is_blank(&self) -> bool {
        forall|i: int| 0 <= i < PAGE_TABLE_SIZE ==> #[trigger] self.entries[i] == 0
    }

    /// A table whose entries are all zero: nothing is present.
    pub fn new() -> (r: Self)
        ensures
            r.is_blank(),
    {
        PageTable { entries: [0u64; PAGE_TABLE_SIZE] }
    }

    /// Writes `phys_addr | flags` into entry `entry`.
    ///
    /// The write path still runs with 32-bit addressing, so a combined value
    /// with a bit set at position 32 or above is refused and the table is
    /// left as it was.
    pub fn map_page(&mut self, entry: usize, phys_addr: u64, flags: u64) -> (r: Result<(), BootError>)
        requires
            entry < PAGE_TABLE_SIZE,
        ensures
            r is Ok <==> (phys_addr | flags) <= MAX_ENTRY_VALUE,
            r is Ok ==> final(self).entries@ == old(self).entries@.update(
                entry as int,
                phys_addr | flags,
            ),
            r is Err ==> r == Err::<(), BootError>(BootError::PhysicalAddressOverflow),
            r is Err ==> final(self).entries@ == old(self).entries@,
    {
        let full_value = phys_addr | flags;
        if full_value > MAX_ENTRY_VALUE {
            return Err(BootError::PhysicalAddressOverflow);
        }
        self.entries[entry] = full_value;
        Ok(())
    }

    /// Maps every entry `i` of the table to `map_fn(i)`, a pair of physical
    /// address and flags, in index order.
    ///
    /// Stops at the first pair whose combined value does not fit in 32 bits.
    pub fn map_entries<F: Fn(usize) -> (u64, u64)>(&mut self, map_fn: F) -> (r: Result<(), BootError>)
        requires
            forall|i: usize| i < PAGE_TABLE_SIZE ==> #[trigger] map_fn.requires((i,)),
        ensures
            r is Ok ==> forall|i: int|
                0 <= i < PAGE_TABLE_SIZE ==> produced_by(map_fn, i as usize, #[trigger] final(self).entries[i]),
            r is Ok ==> forall|i: int| 0 <= i < PAGE_TABLE_SIZE ==> #[trigger] final(self).entries[i] <= MAX_ENTRY_VALUE,
            (forall|i: usize, p: (u64, u64)|
                i < PAGE_TABLE_SIZE && #[trigger] map_fn.ensures((i,), p) ==> (p.0 | p.1) <= MAX_ENTRY_VALUE)
                ==> r is Ok,
            r is Err ==> r == Err::<(), BootError>(BootError::PhysicalAddressOverflow),
            r is Err ==> exists|k: usize, p: (u64, u64)|
                #![trigger map_fn.ensures((k,), p)]
                k < PAGE_TABLE_SIZE && map_fn.ensures((k,), p) && (p.0 | p.1) > MAX_ENTRY_VALUE
                && (forall|i: int| 0 <= i < k ==> produced_by(map_fn, i as usize, #[trigger] final(self).entries[i]))
                && (forall|i: int| 0 <= i < k ==> #[trigger] final(self).entries[i] <= MAX_ENTRY_VALUE)
                && (forall|i: int| k <= i < PAGE_TABLE_SIZE ==> #[trigger] final(self).entries[i] == old(self).entries[i]),
    {
        let mut entry: usize = 0;
        while entry < PAGE_TABLE_SIZE
            invariant
                entry <= PAGE_TABLE_SIZE,
                forall|i: usize| i < PAGE_TABLE_SIZE ==> #[trigger] map_fn.requires((i,)),
                forall|i: int| 0 <= i < entry ==> produced_by(map_fn, i as usize, #[trigger] self.entries[i]),
                forall|i: int| 0 <= i < entry ==> #[trigger] self.entries[i] <= MAX_ENTRY_VALUE,
                forall|i: int| entry <= i < PAGE_TABLE_SIZE ==> #[trigger] self.entries[i] == old(self).entries[i],
            decreases PAGE_TABLE_SIZE - entry,
        {
            let (phys_addr, flags) = map_fn(entry);
            let ghost pair = (phys_addr, flags);
            let ghost before = self.entries;
            let res = self.map_page(entry, phys_addr, flags);
            if res.is_err() {
                assert(map_fn.ensures((entry,), pair));
                assert(self.entries@ == before@);
                return res;
            }
            assert forall|i: int| 0 <= i < entry + 1 implies produced_by(map_fn, i as usize, #[trigger] self.entries[i]) by {
                if i == entry {
                    assert(map_fn.ensures((i as usize,), pair));
                } else {
                    assert(self.entries[i] == before[i]);
                }
            }
            entry = entry + 1;
        }
        Ok(())
    }
}

/// The three tables of the boot stage's identity tree.
pub struct IdentityPaging {
    pub level_4: PageTable,
    pub level_3: PageTable,
    pub level_2: PageTable,
}

/// Index into the level-4 table for a virtual address.
pub open spec fn level_4_index(addr: u64) -> int {
    (addr as int / 0x80_0000_0000) % 512
}

/// Index into the level-3 table for a virtual address.
pub open spec fn level_3_index(addr: u64) -> int {
    (addr as int / 0x4000_0000) % 512
}

/// Index into the level-2 table for a virtual address.
pub open spec fn level_2_index(addr: u64) -> int {
    (addr as int / 0x20_0000) % 512
}

impl IdentityPaging {
    pub open spec fn is_blank(&self) -> bool {
        self.level_4.is_blank() && self.level_3.is_blank() && self.level_2.is_blank()
    }

    /// The tree maps the first GiB onto itself with large pages: level-4
    /// entry 0 points to the level-3 table at `level_3_addr`, level-3 entry 0
    /// points to the level-2 table at `level_2_addr`, level-2 entry `i` maps
    /// `i * 2 MiB`, and every other entry is zero.
    pub open spec fn is_identity_tree(&self, level_3_addr: u64, level_2_addr: u64) -> bool {
        &&& self.level_4.entries[0] == level_3_addr | TABLE_FLAGS
        &&& self.level_3.entries[0] == level_2_addr | TABLE_FLAGS
        &&& forall|i: int| 0 < i < PAGE_TABLE_SIZE ==> #[trigger] self.level_4.entries[i] == 0
        &&& forall|i: int| 0 < i < PAGE_TABLE_SIZE ==> #[trigger] self.level_3.entries[i] == 0
        &&& forall|i: int|
            0 <= i < PAGE_TABLE_SIZE ==> #[trigger] self.level_2.entries[i] == identity_entry(i)
    }

    /// The entry that ends the walk for `addr` when every level on the way is
    /// present, following the tree's fixed shape (level 4, then this tree's
    /// level-3 table, then its level-2 table).
    pub open spec fn resolve(&self, addr: u64) -> Option<u64> {
        let e4 = self.level_4.entries[level_4_index(addr)];
        let e3 = self.level_3.entries[level_3_index(addr)];
        let e2 = self.level_2.entries[level_2_index(addr)];
        if is_present(e4) && is_present(e3) && is_present(e2) {
            Some(e2)
        } else {
            None
        }
    }

    /// Three blank tables.
    pub fn new() -> (r: Self)
        ensures
            r.is_blank(),
    {
        IdentityPaging { level_4: PageTable::new(), level_3: PageTable::new(), level_2: PageTable::new() }
    }
}

proof fn lemma_identity_entry(i: u64)
    requires
        i < 512,
    ensures
        identity_entry(i as int) <= MAX_ENTRY_VALUE,
        is_present(identity_entry(i as int)),
        is_writable(identity_entry(i as int)),
        is_large_page(identity_entry(i as int)),
        large_page_base(identity_entry(i as int)) == i * LARGE_PAGE_SIZE,
{
    let b: u64 = (i * 0x200000) as u64;
    let e: u64 = b | 0x83;
    assert(e <= 0xFFFF_FFFF && e & 0x1 == 0x1 && e & 0x2 == 0x2 && e & 0x80 == 0x80
        && e & 0x000F_FFFF_FFE0_0000 == b) by (bit_vector)
        requires
            i < 512,
            b == i * 0x200000,
            e == b | 0x83,
    ;
}

proof fn lemma_table_entry_present(a: u64)
    ensures
        is_present(a | 0x3),
        is_writable(a | 0x3),
{
    assert((a | 0x3) & 0x1 == 0x1) by (bit_vector);
    assert((a | 0x3) & 0x2 == 0x2) by (bit_vector);
}

/// Physical address and flags of level-2 entry `entry` of the identity
/// tree: the 2 MiB page at `entry * 2 MiB`, present, writable and large.
fn identity_large_page(entry: usize) -> (p: (u64, u64))
    requires
        entry < PAGE_TABLE_SIZE,
    ensures
        p == identity_pair(entry as int),
{
    let flags = Flags::Present.bits() | Flags::Writable.bits() | Flags::LargePage.bits();
    assert(0x1u64 | 0x2u64 | 0x80u64 == 0x83u64) by (bit_vector);
    ((entry as u64) * LARGE_PAGE_SIZE, flags)
}

proof fn lemma_table_entry_address(a: u64)
    ensures
        a & 0xFFF == 0 ==> (a | 0x3) & !0xFFFu64 == a,
{
    assert(a & 0xFFF == 0 ==> (a | 0x3) & !0xFFFu64 == a) by (bit_vector);
}

/// Builds the identity tree in `paging`, given the physical addresses of its
/// level-3 and level-2 tables.
///
/// Fails with `PhysicalAddressOverflow` when a table address with its flags
/// does not fit in 32 bits. Started from blank tables, a success leaves the
/// identity tree.
pub fn setup_identity_paging(paging: &mut IdentityPaging, level_3_addr: u64, level_2_addr: u64) -> (r: Result<(), BootError>)
    ensures
        r is Ok <==> (level_3_addr | TABLE_FLAGS) <= MAX_ENTRY_VALUE
            && (level_2_addr | TABLE_FLAGS) <= MAX_ENTRY_VALUE,
        r is Err ==> r == Err::<(), BootError>(BootError::PhysicalAddressOverflow),
        r is Ok ==> final(paging).level_4.entries@ == old(paging).level_4.entries@.update(0, level_3_addr | TABLE_FLAGS),
        r is Ok ==> final(paging).level_3.entries@ == old(paging).level_3.entries@.update(0, level_2_addr | TABLE_FLAGS),
        r is Ok ==> forall|i: int|
            0 <= i < PAGE_TABLE_SIZE ==> #[trigger] final(paging).level_2.entries[i] == identity_entry(i),
        r is Ok && old(paging).is_blank() ==> final(paging).is_identity_tree(level_3_addr, level_2_addr),
        r is Err && (level_3_addr | TABLE_FLAGS) > MAX_ENTRY_VALUE ==> final(paging).level_4.entries@ == old(paging).level_4.entries@,
        r is Err && (level_3_addr | TABLE_FLAGS) <= MAX_ENTRY_VALUE ==> final(paging).level_4.entries@ == old(paging).level_4.entries@.update(0, level_3_addr | TABLE_FLAGS),
        r is Err ==> final(paging).level_3.entries@ == old(paging).level_3.entries@,
        r is Err ==> final(paging).level_2.entries@ == old(paging).level_2.entries@,
{
    let table_flags = Flags::Present.bits() | Flags::Writable.bits();
    assert(0x1u64 | 0x2u64 == 0x3u64) by (bit_vector);
    let res = paging.level_4.map_page(0, level_3_addr, table_flags);
    if res.is_err() {
        return res;
    }
    let res = paging.level_3.map_page(0, level_2_addr, table_flags);
    if res.is_err() {
        return res;
    }
    let res = paging.level_2.map_entries(identity_large_page);
    assert forall|i: usize, p: (u64, u64)|
        i < PAGE_TABLE_SIZE && p == identity_pair(i as int) implies (p.0
        | p.1) <= MAX_ENTRY_VALUE by {
        lemma_identity_entry(i as u64);
    }
    assert(res is Ok);
    assert forall|i: int| 0 <= i < PAGE_TABLE_SIZE implies #[trigger] paging.level_2.entries[i] == identity_entry(i) by {
        assert(produced_by(identity_large_page, i as usize, paging.level_2.entries[i]));
    }
    Ok(())
}

/// Coverage of the identity tree: every address below 1 GiB resolves through
/// level-4 entry 0, level-3 entry 0 and level-2 entry `addr / 2 MiB` to a
/// present, writable large page whose base is `addr` rounded down to 2 MiB;
/// every address from 1 GiB up to the 48-bit limit of a four-level walk
/// resolves to nothing. A 4 KiB-aligned table address is read back from
/// the entry that points to it.
pub proof fn lemma_identity_coverage(paging: IdentityPaging, level_3_addr: u64, level_2_addr: u64, addr: u64)
    requires
        paging.is_identity_tree(level_3_addr, level_2_addr),
    ensures
        addr < IDENTITY_SPAN ==> {
            &&& level_4_index(addr) == 0
            &&& level_3_index(addr) == 0
            &&& level_2_index(addr) == addr as int / LARGE_PAGE_SIZE as int
            &&& paging.resolve(addr) == Some(paging.level_2.entries[addr as int / LARGE_PAGE_SIZE as int])
            &&& is_present(paging.level_2.entries[addr as int / LARGE_PAGE_SIZE as int])
            &&& is_writable(paging.level_2.entries[addr as int / LARGE_PAGE_SIZE as int])
            &&& is_large_page(paging.level_2.entries[addr as int / LARGE_PAGE_SIZE as int])
            &&& large_page_base(paging.level_2.entries[addr as int / LARGE_PAGE_SIZE as int]) == addr - addr % LARGE_PAGE_SIZE
        },
        IDENTITY_SPAN <= addr < 0x1_0000_0000_0000 ==> paging.resolve(addr) is None,
        level_3_addr & 0xFFF == 0 ==> paging.level_4.entries[0] & !0xFFFu64 == level_3_addr,
        level_2_addr & 0xFFF == 0 ==> paging.level_3.entries[0] & !0xFFFu64 == level_2_addr,
{
    lemma_table_entry_present(level_3_addr);
    lemma_table_entry_present(level_2_addr);
    lemma_table_entry_address(level_3_addr);
    lemma_table_entry_address(level_2_addr);
    if addr < IDENTITY_SPAN {
        let i: u64 = addr / LARGE_PAGE_SIZE;
        assert(i < 512);
        assert(i * LARGE_PAGE_SIZE == addr - addr % LARGE_PAGE_SIZE);
        lemma_identity_entry(i);
        assert(paging.level_2.entries[i as int] == identity_entry(i as int));
    } else if addr < 0x1_0000_0000_0000 {
        assert(!is_present(0)) by (bit_vector);
        if level_4_index(addr) == 0 {
            assert(level_3_index(addr) != 0);
            assert(paging.level_3.entries[level_3_index(addr)] == 0);
        } else {
            assert(paging.level_4.entries[level_4_index(addr)] == 0);
        }
    }
}

} // verus!
