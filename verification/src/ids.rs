//! The identifiers of the objects that a plugin creates.
use vstd::prelude::*;

verus! {

/// Hands out object identifiers in increasing order, and takes back the latest.
pub struct IdAllocator {
    next: usize,
}

/// The identifier that an allocator hands out when its counter stands at `next`: the counter's
/// lower 32 bits.
pub open spec fn id_at(next: usize) -> u32 {
    (next as int % 0x1_0000_0000) as u32
}

/// The counter after one more identifier was handed out.
pub open spec fn after_alloc(next: usize) -> usize {
    if next == usize::MAX {
        0
    } else {
        (next + 1) as usize
    }
}

/// The counter after `id` was given back: only the identifier handed out last is taken back.
pub open spec fn after_free(next: usize, id: u32) -> usize {
    if next == id + 1 {
        id as usize
    } else {
        next
    }
}

impl View for IdAllocator {
    type V = usize;

    /// The counter: how many identifiers were handed out and not taken back.
    closed spec fn view(&self) -> usize {
        self.next
    }
}

impl Default for IdAllocator {
    /// An allocator that has handed out nothing yet.
    fn default() -> (r: IdAllocator)
        ensures
            r@ == 0,
    {
        IdAllocator { next: 0 }
    }
}

impl IdAllocator {
    /// Hands out an identifier.
    pub fn allocate(&mut self) -> (id: u32)
        ensures
            id == id_at(old(self)@),
            id == old(self)@ as int % 0x1_0000_0000,
            final(self)@ == after_alloc(old(self)@),
            old(self)@ < usize::MAX ==> final(self)@ == old(self)@ + 1,
            old(self)@ == usize::MAX ==> final(self)@ == 0,
    {
        let next: usize = self.next;
        self.next = next.wrapping_add(1);
        let wide: u64 = next as u64;
        assert(wide as u32 == wide % 0x1_0000_0000) by (bit_vector);
        wide as u32
    }

    /// Gives the identifier `id` back.
    pub fn free(&mut self, id: u32)
        ensures
            final(self)@ == after_free(old(self)@, id),
            old(self)@ == id + 1 ==> final(self)@ == id,
            old(self)@ != id + 1 ==> final(self)@ == old(self)@,
    {
        if self.next > 0 && self.next - 1 == id as usize {
            self.next = id as usize;
        }
    }
}

/// An identifier that is given back before another is handed out leaves the allocator as it was,
/// as long as the counter fits in an identifier: an object that could not be created, or that is
/// destroyed first, takes up no identifier.
pub proof fn law_free_undoes_alloc(next: usize)
    requires
        next <= u32::MAX,
        next < usize::MAX,
    ensures
        after_free(after_alloc(next), id_at(next)) == next,
{
}

/// Giving back any identifier but the one handed out last changes nothing.
pub proof fn law_only_the_latest_is_taken_back(next: usize, id: u32)
    requires
        id + 1 != next,
    ensures
        after_free(next, id) == next,
{
}

/// Whether all of `live`, the identifiers in use, lie below the counter.
pub open spec fn all_below(live: Set<u32>, next: usize) -> bool {
    forall|id: u32| #[trigger] live.contains(id) ==> id < next
}

/// An identifier that is handed out is not in use, and all that are then in use lie below the
/// counter again, as long as the counter fits in an identifier.
pub proof fn law_alloc_hands_out_unused(next: usize, live: Set<u32>)
    requires
        all_below(live, next),
        next <= u32::MAX,
        next < usize::MAX,
    ensures
        !live.contains(id_at(next)),
        all_below(live.insert(id_at(next)), after_alloc(next)),
{
}

/// After an identifier in use was given back, those still in use lie below the counter.
pub proof fn law_free_keeps_the_others(next: usize, live: Set<u32>, id: u32)
    requires
        all_below(live, next),
        live.contains(id),
    ensures
        all_below(live.remove(id), after_free(next, id)),
{
}

/// Identifiers are the numbers from zero on, each once, in order: the counter goes up by one with
/// each, and is itself the identifier as long as it fits in one. Beyond that the identifier and the
/// counter agree in their lower 32 bits.
pub proof fn law_identifiers_count_up(next: usize)
    ensures
        next <= u32::MAX ==> id_at(next) == next,
        (next - id_at(next)) % 0x1_0000_0000 == 0,
        next < usize::MAX ==> after_alloc(next) == next + 1,
        next < usize::MAX && next < u32::MAX ==> id_at(after_alloc(next)) == id_at(next) + 1,
        after_alloc(usize::MAX) == 0,
{
}

/// Giving an identifier back lowers the counter by one if it is the latest, and by nothing
/// otherwise.
pub proof fn law_free_lowers_by_at_most_one(next: usize, id: u32)
    ensures
        next - after_free(next, id) == 0 || next - after_free(next, id) == 1,
        next - after_free(next, id) == 1 <==> next - id == 1,
{
}

/// An identifier that is given back right after it was taken is the next to be taken.
pub proof fn law_identifier_comes_again(
    taken: &mut IdAllocator,
    given_back: &mut IdAllocator,
    taken_again: &mut IdAllocator,
    id: u32,
    again: u32,
)
    requires
        call_ensures(IdAllocator::allocate, (taken,), id),
        *old(given_back) == *final(taken),
        call_ensures(IdAllocator::free, (given_back, id), ()),
        *old(taken_again) == *final(given_back),
        call_ensures(IdAllocator::allocate, (taken_again,), again),
        old(taken)@ < u32::MAX,
    ensures
        id == old(taken)@,
        again == id,
        final(taken)@ == id + 1,
{
}

} // verus!
