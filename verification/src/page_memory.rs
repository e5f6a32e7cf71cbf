//! Memory contents collected page by page, from pieces of any size.

use std::collections::BTreeMap;
use vstd::prelude::*;

verus! {

/// Size of a page in bytes.
pub const PAGE_SIZE: u64 = 4096;

/// The pages that something was written to, by their first address.
pub type Pages = Map<u64, Seq<u8>>;

/// First address of the page that `address` lies in.
pub open spec fn page_of(address: int) -> int {
    address - address % (PAGE_SIZE as int)
}

/// The byte at `address`, zero where nothing was written.
pub open spec fn byte_at(pages: Pages, address: int) -> u8 {
    if pages.contains_key(page_of(address) as u64) {
        pages[page_of(address) as u64][address % (PAGE_SIZE as int)]
    } else {
        0
    }
}

/// Whether `page` holds one of the `count` addresses from `start` on.
pub open spec fn touches(page: int, start: int, count: int) -> bool {
    exists|address: int|
        start <= address < start + count && page == #[trigger] page_of(address)
}

/// Whether writing `bytes` at `start` turns `before` into `after`: the bytes are
/// there, all others are as they were, and only pages that hold one of them were
/// added.
pub open spec fn writes(before: Pages, start: u64, bytes: Seq<u8>, after: Pages) -> bool {
    &&& forall|address: int|
        0 <= address <= u64::MAX ==> #[trigger] byte_at(after, address) == (if start <= address
            < start + bytes.len() {
            bytes[address - start]
        } else {
            byte_at(before, address)
        })
    &&& forall|page: u64| #[trigger]
        after.contains_key(page) <==> before.contains_key(page) || touches(
            page as int,
            start as int,
            bytes.len() as int,
        )
}

/// The pages of `full` that `pages` has not, or has with other contents.
pub open spec fn differing(pages: Pages, full: Pages) -> Set<u64> {
    full.dom().filter(|page: u64| !(pages.contains_key(page) && pages[page] == full[page]))
}

/// Memory contents by page.
pub struct PageMemory {
    pages: BTreeMap<u64, Vec<u8>>,
}

impl View for PageMemory {
    type V = Pages;

    closed spec fn view(&self) -> Pages {
        self.pages@.map_values(|page: Vec<u8>| page@)
    }
}

impl PageMemory {
    /// Whether every page starts at a page boundary and is complete.
    pub open spec fn complete(self) -> bool {
        forall|page: u64| #[trigger]
            self@.contains_key(page) ==> page % PAGE_SIZE == 0 && self@[page].len() == PAGE_SIZE
    }

    /// Nothing was written.
    pub fn new() -> (memory: PageMemory)
        ensures
            memory.complete(),
            memory@ == Pages::empty(),
    {
        PageMemory { pages: BTreeMap::new() }
    }

    /// The page that starts at `page`, if something was written to it.
    pub fn page(&self, page: u64) -> (bytes: Option<&Vec<u8>>)
        ensures
            match bytes {
                Some(bytes) => self@.contains_key(page) && bytes@ == self@[page],
                None => !self@.contains_key(page),
            },
    {
        self.pages.get(&page)
    }

    /// Number of pages that something was written to.
    pub fn len(&self) -> (n: usize)
        ensures
            n == self@.dom().len(),
    {
        assert(self@.dom() =~= self.pages@.dom());
        self.pages.len()
    }

    /// First addresses of the pages that something was written to, each once.
    fn addresses(&self) -> (pages: Vec<u64>)
        ensures
            pages@.no_duplicates(),
            pages@.to_set() == self@.dom(),
    {
        let mut pages: Vec<u64> = Vec::new();
        for page in it: self.pages.keys()
            invariant
                pages@ =~= it.seq().unref().take(it.index() as int),
                it.index() == it.seq().len() ==> pages@ =~= it.seq().unref(),
                it.seq().no_duplicates(),
                it.seq().unref().to_set() == self@.dom(),
        {
            pages.push(*page);
        }
        pages
    }

    /// How many pages of `full` are missing here or have other contents.
    pub fn mismatches(&self, full: &PageMemory) -> (count: usize)
        ensures
            count == differing(self@, full@).len(),
    {
        let pages: Vec<u64> = full.addresses();
        let mut count: usize = 0;
        let ghost differ = differing(self@, full@);
        assert(pages@.take(0).to_set().intersect(differ) =~= Set::empty());
        for n in 0..pages.len()
            invariant
                pages@.no_duplicates(),
                pages@.to_set() == full@.dom(),
                differ == differing(self@, full@),
                count <= n,
                count == pages@.take(n as int).to_set().intersect(differ).len(),
        {
            let page: u64 = pages[n];
            assert(pages@.to_set().contains(page));
            let same: bool = match (self.pages.get(&page), full.pages.get(&page)) {
                (Some(bytes), Some(expected)) => *bytes == *expected,
                _ => false,
            };
            let ghost before = pages@.take(n as int);
            assert(pages@.take(n + 1) =~= before.push(page));
            assert(!before.contains(page));
            assert(before.push(page).to_set() =~= before.to_set().insert(page)) by {
                assert forall|p: u64| before.push(page).contains(p) == (before.contains(p) || p
                    == page) by {
                    vstd::seq_lib::lemma_seq_contains_after_push(before, page, p);
                }
            }
            if same {
                assert(self@[page] == full@[page]);
                assert(before.to_set().insert(page).intersect(differ) =~= before.to_set().intersect(
                    differ,
                ));
            } else {
                assert(before.to_set().insert(page).intersect(differ) =~= before.to_set().intersect(
                    differ,
                ).insert(page));
                count = count + 1;
            }
        }
        assert(pages@.take(pages@.len() as int) =~= pages@);
        assert(pages@.to_set().intersect(differ) =~= differ);
        count
    }

    /// Writes the bytes of `bytes` from `from` up to `to`, which lie in one page, the
    /// first of them at `address`.
    fn write_piece(&mut self, address: u64, bytes: &[u8], from: usize, to: usize)
        requires
            old(self).complete(),
            from <= to <= bytes@.len(),
            address % PAGE_SIZE + (to - from) <= PAGE_SIZE,
            from < to,
            address + (to - from) <= u64::MAX,
        ensures
            final(self).complete(),
            writes(
                old(self)@,
                address,
                bytes@.subrange(from as int, to as int),
                final(self)@,
            ),
    {
        let offset: usize = (address % PAGE_SIZE) as usize;
        let start: u64 = address - address % PAGE_SIZE;
        let piece: Ghost<Seq<u8>> = Ghost(bytes@.subrange(from as int, to as int));
        let ghost before = old(self)@;
        let mut page: Vec<u8> = match self.pages.remove(&start) {
            Some(page) => {
                assert(before.contains_key(start) && page@ == before[start]);
                page
            },
            None => {
                vec![0u8; 4096]
            },
        };
        let ghost was = page@;
        for i in from..to
            invariant
                from <= to <= bytes@.len(),
                offset + (to - from) <= PAGE_SIZE == page@.len(),
                was.len() == PAGE_SIZE,
                forall|k: int|
                    0 <= k < PAGE_SIZE ==> #[trigger] page@[k] == (if offset <= k < offset + (i
                        - from) {
                        bytes@[k - offset + from]
                    } else {
                        was[k]
                    }),
        {
            page[offset + (i - from)] = bytes[i];
        }
        self.pages.insert(start, page);
        assert forall|p: u64| #[trigger] self@.contains_key(p) <==> before.contains_key(p)
            || touches(p as int, address as int, piece@.len() as int) by {
            assert(page_of(address as int) == start);
        }
    }

    /// Writes `bytes` from the address `start` on. What lies beside them in their
    /// pages stays as it is.
    pub fn write_bytes(&mut self, start: u64, bytes: &[u8])
        requires
            old(self).complete(),
            start + bytes@.len() <= u64::MAX,
        ensures
            final(self).complete(),
            writes(old(self)@, start, bytes@, final(self)@),
    {
        let mut done: usize = 0;
        while done < bytes.len()
            invariant
                self.complete(),
                done <= bytes@.len(),
                start + bytes@.len() <= u64::MAX,
                writes(old(self)@, start, bytes@.subrange(0, done as int), self@),
            decreases bytes@.len() - done,
        {
            let address: u64 = start + done as u64;
            let room: usize = (PAGE_SIZE - address % PAGE_SIZE) as usize;
            let left: usize = bytes.len() - done;
            let count: usize = if left <= room {
                left
            } else {
                room
            };
            let ghost middle = self@;
            self.write_piece(address, bytes, done, done + count);
            proof {
                let first = bytes@.subrange(0, done as int);
                let second = bytes@.subrange(done as int, done + count);
                lemma_writes_compose(old(self)@, start, first, middle, second, self@);
            }
            done = done + count;
        }
    }

    /// Writes `count` zeros from the address `start` on.
    pub fn write_zero(&mut self, start: u64, count: usize)
        requires
            old(self).complete(),
            start + count <= u64::MAX,
        ensures
            final(self).complete(),
            writes(old(self)@, start, Seq::new(count as nat, |i: int| 0u8), final(self)@),
    {
        let zeros: Vec<u8> = vec![0u8; count];
        self.write_bytes(start, zeros.as_slice());
    }
}

/// Contents have no mismatch with the full contents if and only if every byte of a page
/// of those is the same in both.
pub proof fn agreement_is_without_mismatch(pages: Pages, full: Pages)
    requires
        full.dom().finite(),
    ensures
        differing(pages, full).len() == 0 <==> forall|page: u64| #[trigger]
            full.contains_key(page) ==> pages.contains_key(page) && pages[page] == full[page],
{
    let differ = differing(pages, full);
    assert(forall|page: u64| #[trigger]
        full.contains_key(page) ==> differ.contains(page) || pages.contains_key(page)
            && pages[page] == full[page]);
    if forall|page: u64| !differ.contains(page) {
        assert(differ =~= Set::empty());
    }
}

/// Writing one piece and then the next is writing both at once.
proof fn lemma_writes_compose(
    before: Pages,
    start: u64,
    first: Seq<u8>,
    middle: Pages,
    second: Seq<u8>,
    after: Pages,
)
    requires
        start + first.len() + second.len() <= u64::MAX,
        writes(before, start, first, middle),
        writes(middle, (start + first.len()) as u64, second, after),
    ensures
        writes(before, start, first + second, after),
{
}

/// Bytes that are written are in the pages of 4096 bytes that hold their addresses, each at
/// its place. Every other byte of a page that was there is as it was, every other byte of a
/// page that was not is zero, and no other page is added.
pub proof fn written_bytes_are_in_their_pages(
    start: u64,
    bytes: &[u8],
    address: int,
    page: u64,
    k: int,
)
    requires
        start <= address < start + bytes@.len() <= u64::MAX,
        0 <= k < 4096,
    ensures
        forall|memory: &mut PageMemory, done: ()| #[trigger]
            call_ensures(PageMemory::write_bytes, (memory, start, bytes), done)
                && memory.complete() ==> {
                let after = final(memory)@;
                let home = (address - address % 4096) as u64;
                let inside = start <= page + k < start + bytes@.len();
                &&& after.contains_key(home)
                &&& after[home].len() == 4096
                &&& after[home][address % 4096] == bytes@[address - start]
                &&& memory@.contains_key(page) ==> after.contains_key(page) && after[page].len()
                    == 4096
                &&& memory@.contains_key(page) && !inside ==> after[page][k] == memory@[page][k]
                &&& after.contains_key(page) && !memory@.contains_key(page) && !inside
                    ==> after[page][k] == 0
                &&& after.contains_key(page) ==> page % 4096 == 0 && (memory@.contains_key(page)
                    || start < page + 4096 && page < start + bytes@.len())
            },
{
    assert forall|memory: &mut PageMemory, done: ()| #[trigger]
        call_ensures(PageMemory::write_bytes, (memory, start, bytes), done)
            && memory.complete() implies {
        let after = final(memory)@;
        let home = (address - address % 4096) as u64;
        let inside = start <= page + k < start + bytes@.len();
        &&& after.contains_key(home)
        &&& after[home].len() == 4096
        &&& after[home][address % 4096] == bytes@[address - start]
        &&& memory@.contains_key(page) ==> after.contains_key(page) && after[page].len() == 4096
        &&& memory@.contains_key(page) && !inside ==> after[page][k] == memory@[page][k]
        &&& after.contains_key(page) && !memory@.contains_key(page) && !inside ==> after[page][k]
            == 0
        &&& after.contains_key(page) ==> page % 4096 == 0 && (memory@.contains_key(page) || start
            < page + 4096 && page < start + bytes@.len())
    } by {
        let after = final(memory)@;
        let home = (address - address % 4096) as u64;
        assert(final(memory).complete());
        assert(page_of(address) == home);
        assert(touches(home as int, start as int, bytes@.len() as int));
        assert(byte_at(after, address) == bytes@[address - start]);
        if after.contains_key(page) {
            assert(page % PAGE_SIZE == 0);
            let here = page + k;
            assert(page_of(here) == page && here % 4096 == k);
            assert(here <= u64::MAX);
            if memory@.contains_key(page) || !(start <= here < start + bytes@.len()) {
                assert(byte_at(after, here) == after[page][k]);
            }
            if !memory@.contains_key(page) {
                let a = choose|a: int|
                    start <= a < start + bytes@.len() && page as int == #[trigger] page_of(a);
                assert(page <= a < page + 4096);
            }
        }
    }
}

/// A page is given out as it is, and pages are counted. New memory has none, and zeros are
/// written as bytes are.
pub proof fn pages_are_given_out(memory: &PageMemory, page: u64, start: u64, count: usize)
    ensures
        PAGE_SIZE == 4096,
        forall|bytes: Option<&Vec<u8>>| #[trigger]
            call_ensures(PageMemory::page, (memory, page), bytes) ==> {
                &&& bytes is Some <==> memory@.contains_key(page)
                &&& bytes is Some ==> bytes->0@ == memory@[page]
            },
        forall|n: usize| #[trigger] call_ensures(PageMemory::len, (memory,), n) ==> n
            == memory@.dom().len(),
        forall|new: PageMemory| #[trigger] call_ensures(PageMemory::new, (), new) ==> new.complete()
            && new@.dom().is_empty(),
        forall|m: &mut PageMemory, done: ()| #[trigger]
            call_ensures(PageMemory::write_zero, (m, start, count), done) ==> final(m).complete()
                && writes(m@, start, Seq::new(count as nat, |i: int| 0u8), final(m)@),
        forall|m: &mut PageMemory, bytes: &[u8], done: ()| #[trigger]
            call_ensures(PageMemory::write_bytes, (m, start, bytes), done) ==> final(m).complete()
                && writes(m@, start, bytes@, final(m)@),
        memory.complete() <==> forall|p: u64| #[trigger]
            memory@.contains_key(p) ==> p % 4096 == 0 && memory@[p].len() == 4096,
{
}

/// A page counts as a mismatch if the full contents have it, and the contents have not or
/// with another byte.
pub proof fn mismatches_are_pages_that_differ(pages: Pages, full: Pages, page: u64)
    ensures
        differing(pages, full).contains(page) <==> full.contains_key(page) && !(
        pages.contains_key(page) && pages[page].len() == full[page].len() && forall|i: int|
            0 <= i < full[page].len() ==> #[trigger] pages[page][i] == full[page][i]),
        forall|a: &PageMemory, b: &PageMemory, count: usize| #[trigger]
            call_ensures(PageMemory::mismatches, (a, b), count) ==> count == differing(
                a@,
                b@,
            ).len(),
{
    if full.contains_key(page) && pages.contains_key(page) && pages[page].len() == full[page].len()
        && (forall|i: int| 0 <= i < full[page].len() ==> #[trigger] pages[page][i]
        == full[page][i]) {
        assert(pages[page] =~= full[page]);
    }
}

} // verus!
