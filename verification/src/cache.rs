use vstd::prelude::*;

verus! {

/// What a single write leaves in the slot: the whole new text, with nothing of
/// the previous content surviving.
pub open spec fn write_model(slot: Seq<char>, new_text: Seq<char>) -> Seq<char> {
    new_text
}

/// The slot after a sequence of complete writes, applied oldest first.
pub open spec fn apply_writes(slot: Seq<char>, writes: Seq<Seq<char>>) -> Seq<char>
    decreases writes.len(),
{
    if writes.len() == 0 {
        slot
    } else {
        apply_writes(write_model(slot, writes[0]), writes.drop_first())
    }
}

/// A single-slot store holding the most recent text snapshot of the watched
/// file. Writes replace the slot wholesale; reads hand back an independent
/// copy of the current content.
pub struct SharedTextCache {
    slot: String,
}

impl View for SharedTextCache {
    type V = Seq<char>;

    closed spec fn view(&self) -> Seq<char> {
        self.slot@
    }
}

impl SharedTextCache {
    /// A cache holding the given initial snapshot.
    pub fn new(initial: String) -> (c: SharedTextCache)
        ensures
            c@ == initial@,
    {
        SharedTextCache { slot: initial }
    }

    /// Replaces the slot's content with the new text in one step.
    pub fn write(&mut self, new_text: String)
        ensures
            final(self)@ == write_model(old(self)@, new_text@),
    {
        self.slot = new_text;
    }

    /// Hands back an independent copy of the current slot content.
    pub fn read_copy(&self) -> (r: String)
        ensures
            r@ == self@,
    {
        self.slot.clone()
    }
}

/// Law: last-writer-wins. After two writes with nothing in between, the slot
/// holds exactly the second text, whatever stood in it before.
pub proof fn lemma_last_writer_wins(slot: Seq<char>, a: Seq<char>, b: Seq<char>)
    ensures
        write_model(write_model(slot, a), b) == b,
{
}

/// Law: no torn reads. After any sequence of complete writes the slot holds
/// exactly one of the written texts (the last), or the initial content when
/// nothing was written; never a mixture.
pub proof fn lemma_read_is_one_write(slot: Seq<char>, writes: Seq<Seq<char>>)
    ensures
        writes.len() == 0 ==> apply_writes(slot, writes) == slot,
        writes.len() > 0 ==> apply_writes(slot, writes) == writes.last(),
        writes.len() > 0 ==> writes.contains(apply_writes(slot, writes)),
    decreases writes.len(),
{
    if writes.len() > 0 {
        lemma_read_is_one_write(write_model(slot, writes[0]), writes.drop_first());
        if writes.len() == 1 {
            assert(apply_writes(slot, writes) == writes[0]);
        } else {
            assert(writes.drop_first().last() == writes.last());
        }
        assert(writes[writes.len() - 1] == writes.last());
    }
}

} // verus!
