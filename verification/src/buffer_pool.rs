//! A pool of reusable render textures. Textures handed back after a frame are
//! "dirty" until they are cleaned; only clean textures are handed out again.

use vstd::prelude::*;

verus! {

/// A pool of reusable textures of type `T`.
pub struct TextureBufferPool<T> {
    buffers: Vec<T>,
    dirty_buffers: Vec<T>,
}

/// The state of a pool: its clean textures and its dirty textures, each in the
/// order in which they are stacked (the last is taken first).
pub struct PoolState<T> {
    pub clean: Seq<T>,
    pub dirty: Seq<T>,
}

/// The clean stack after cleaning: the dirty textures are moved over one by one
/// from the top of the dirty stack.
pub open spec fn after_clean<T>(clean: Seq<T>, dirty: Seq<T>) -> Seq<T> {
    clean + dirty.reverse()
}

impl<T> View for TextureBufferPool<T> {
    type V = PoolState<T>;

    closed spec fn view(&self) -> PoolState<T> {
        PoolState { clean: self.buffers@, dirty: self.dirty_buffers@ }
    }
}

impl<T> TextureBufferPool<T> {
    /// An empty pool.
    pub fn new() -> (pool: Self)
        ensures
            pool@.clean == Seq::<T>::empty(),
            pool@.dirty == Seq::<T>::empty(),
    {
        TextureBufferPool { buffers: Vec::new(), dirty_buffers: Vec::new() }
    }

    /// Takes the clean texture on top of the stack; `None` when there is no
    /// clean texture, in which case the caller makes a new one.
    pub fn get_buffer(&mut self) -> (texture: Option<T>)
        ensures
            old(self)@.clean.len() == 0 ==> texture is None && final(self)@ == old(self)@,
            old(self)@.clean.len() > 0 ==> texture == Some(old(self)@.clean.last())
                && final(self)@.clean == old(self)@.clean.drop_last()
                && final(self)@.dirty == old(self)@.dirty,
    {
        self.buffers.pop()
    }

    /// Hands a used texture back; it stays dirty until the next cleaning.
    pub fn return_buffer(&mut self, texture: T)
        ensures
            final(self)@.clean == old(self)@.clean,
            final(self)@.dirty == old(self)@.dirty.push(texture),
    {
        self.dirty_buffers.push(texture);
    }

    /// The dirty textures, which the caller clears before calling `clean_buffers`.
    pub fn dirty(&self) -> (d: &Vec<T>)
        ensures
            d@ == self@.dirty,
    {
        &self.dirty_buffers
    }

    /// Moves every dirty texture, top first, onto the clean stack.
    pub fn clean_buffers(&mut self)
        ensures
            final(self)@.clean == after_clean(old(self)@.clean, old(self)@.dirty),
            final(self)@.dirty == Seq::<T>::empty(),
    {
        let ghost clean0 = self.buffers@;
        let ghost dirty0 = self.dirty_buffers@;
        while self.dirty_buffers.len() != 0
            invariant
                self.buffers@ + self.dirty_buffers@.reverse() == clean0 + dirty0.reverse(),
            decreases self.dirty_buffers.len(),
        {
            let ghost d = self.dirty_buffers@;
            let ghost c = self.buffers@;
            let texture = self.dirty_buffers.pop().unwrap();
            self.buffers.push(texture);
            assert(d.reverse() =~= seq![d.last()] + d.drop_last().reverse());
            assert(self.buffers@ + self.dirty_buffers@.reverse() =~= c + d.reverse());
        }
        assert(self.buffers@ =~= self.buffers@ + self.dirty_buffers@.reverse());
    }

    /// Drops every texture, clean or dirty, so that new ones of the new size get made.
    pub fn resize_buffers(&mut self)
        ensures
            final(self)@.clean == Seq::<T>::empty(),
            final(self)@.dirty == Seq::<T>::empty(),
    {
        self.buffers = Vec::new();
        self.dirty_buffers = Vec::new();
    }
}

/// Law: cleaning loses no texture and makes none up: the textures of the pool,
/// counted with their multiplicity, are the same before and after.
pub proof fn law_clean_keeps_textures<T>(clean: Seq<T>, dirty: Seq<T>)
    ensures
        after_clean(clean, dirty).to_multiset() == clean.to_multiset().add(dirty.to_multiset()),
{
    vstd::seq_lib::lemma_multiset_commutative(clean, dirty.reverse());
    lemma_reverse_multiset(dirty);
}

proof fn lemma_reverse_multiset<T>(s: Seq<T>)
    ensures
        s.reverse().to_multiset() == s.to_multiset(),
    decreases s.len(),
{
    broadcast use vstd::seq_lib::group_to_multiset_ensures;
    if s.len() > 0 {
        lemma_reverse_multiset(s.drop_last());
        assert(s.reverse() =~= seq![s.last()] + s.drop_last().reverse());
        vstd::seq_lib::lemma_multiset_commutative(seq![s.last()], s.drop_last().reverse());
        assert(s =~= s.drop_last().push(s.last()));
    }
}

/// Law: in a pool with nothing dirty, a texture that is handed back and then
/// cleaned is the one the next request gets.
pub proof fn law_returned_texture_is_reused<T>(clean: Seq<T>, texture: T)
    ensures
        after_clean(clean, Seq::<T>::empty().push(texture)).last() == texture,
        after_clean(clean, Seq::<T>::empty().push(texture)).drop_last() == clean,
{
    let d = Seq::<T>::empty().push(texture);
    assert(d.reverse() =~= d);
    assert(after_clean(clean, d).drop_last() =~= clean);
}

/// Law: in a pool with no clean texture, the textures handed back and then
/// cleaned are handed out again in the order they came back: the `i`-th request
/// after cleaning gets the `i`-th texture returned.
pub proof fn law_reuse_in_return_order<T>(dirty: Seq<T>, i: int)
    requires
        0 <= i < dirty.len(),
    ensures
        after_clean(Seq::<T>::empty(), dirty)[dirty.len() - 1 - i] == dirty[i],
{
    assert(after_clean(Seq::<T>::empty(), dirty) =~= dirty.reverse());
}

} // verus!
