//! The engine: the shared head, the table of links, and the publish and retire
//! protocols.

use vstd::prelude::*;
use allocator_api2::alloc::{AllocError, Global};
use core::sync::atomic::Ordering;
use portable_atomic::{AtomicU64, AtomicUsize};
use std::sync::OnceLock;

use crate::capability::Allocator;
use crate::consumer::Consumer;
use crate::layout::{
    chunk_length,
    free_index,
    free_tag,
    lemma_free_word_round_trip,
    locate,
    next_tag,
    pack_free,
    CHUNKS,
    NIL,
};
use crate::node::{new_chunk, Node};
use crate::primitives::cell_replace;
use crate::producer::Producer;

verus! {

/// A lock-free stack of links with many producers and one consumer. Links are
/// numbered; `NIL` stands for none. Each link's forward reference names the
/// link that was the head when it was published, so the most recently
/// published link comes out first.
///
/// Held alone, through `&mut`, the queue keeps its links in `held`, and its
/// view is its whole content. `split` moves them onto the shared list, where
/// the producers and the consumer work with compare-and-swap; the next
/// operation through `&mut` takes them back.
#[verifier::reject_recursive_types(T)]
pub struct Queue<T, A: Allocator = Global> {
    alloc: A,
    /// The links that the queue holds alone, oldest first. While the queue is
    /// not split, every link is here.
    held: Vec<(T, A::Grant)>,
    /// Whether links may have been published on the shared list since the
    /// queue was last held alone.
    shared: bool,
    /// The most recently published link, or `NIL`.
    head: AtomicUsize,
    /// The first link number that was never handed out.
    fresh: AtomicUsize,
    /// The top of the list of retired links, as a `free_word`.
    free: AtomicU64,
    /// Chunk `k` holds the links from `chunk_start(k)` on.
    chunks: Vec<OnceLock<Vec<Node<(T, A::Grant)>>>>,
}

impl<T, A: Allocator> Queue<T, A> {
    /// The allocation capability of the queue.
    pub closed spec fn allocator(&self) -> A {
        self.alloc
    }

    /// Whether the queue holds all its links alone, so that its view is its
    /// whole content. A split ends that; the next operation through `&mut`
    /// takes the links back and restores it.
    pub closed spec fn settled(&self) -> bool {
        !self.shared
    }
}

impl<T, A: Allocator> View for Queue<T, A> {
    /// The payloads, most recently published first.
    type V = Seq<T>;

    closed spec fn view(&self) -> Seq<T> {
        Seq::new(self.held@.len(), |i: int| self.held@[self.held@.len() - 1 - i].0)
    }
}

impl<T> Queue<T, Global> {
    /// An empty queue on the ambient heap.
    pub fn new() -> (r: Self)
        ensures
            r.allocator() == Global,
            r.settled(),
            r@ == Seq::<T>::empty(),
    {
        Self::new_in(Global)
    }
}

impl<T> Default for Queue<T, Global> {
    fn default() -> (r: Self)
        ensures
            r.allocator() == Global,
            r.settled(),
            r@ == Seq::<T>::empty(),
    {
        Self::new()
    }
}

impl<T, A: Allocator> Queue<T, A> {
    /// An empty queue that asks `alloc` for room for each link.
    pub fn new_in(alloc: A) -> (r: Self)
        ensures
            r.allocator() == alloc,
            r.settled(),
            r@ == Seq::<T>::empty(),
    {
        let mut chunks: Vec<OnceLock<Vec<Node<(T, A::Grant)>>>> = Vec::with_capacity(CHUNKS);
        while chunks.len() < CHUNKS
            invariant
                chunks@.len() <= CHUNKS,
            decreases CHUNKS - chunks@.len(),
        {
            chunks.push(OnceLock::new());
        }
        let r = Queue {
            alloc,
            held: Vec::new(),
            shared: false,
            head: AtomicUsize::new(NIL),
            fresh: AtomicUsize::new(0),
            free: AtomicU64::new(pack_free(NIL, 0)),
            chunks,
        };
        assert(r@ =~= Seq::<T>::empty());
        r
    }

    /// A producer and the consumer, both on this queue. The links that the
    /// queue holds are published on the shared list first, so that the
    /// consumer sees them.
    pub fn split(&mut self) -> (r: (Producer<'_, T, A>, Consumer<'_, T, A>))
        ensures
            r.0.target() == r.1.target(),
            *r.0.target() == *final(self),
            final(self).allocator() == old(self).allocator(),
    {
        self.settle();
        self.publish_held();
        self.shared = true;
        let queue = &*self;
        (Producer { queue }, Consumer { queue })
    }

    /// Whether the queue holds no payload.
    pub fn is_empty(&self) -> (r: bool)
        ensures
            self.settled() ==> r == (self@.len() == 0),
    {
        self.held.len() == 0 && (!self.shared || self.head.load(Ordering::Acquire) == NIL)
    }

    /// Pushes `elem` on top. The capability must grant every request.
    pub fn push(&mut self, elem: T)
        requires
            old(self).allocator().infallible(),
        ensures
            final(self).settled(),
            final(self).allocator() == old(self).allocator(),
            old(self).settled() ==> final(self)@ == seq![elem] + old(self)@,
    {
        let grant = self.alloc.allocate();
        let _ = self.publish_granted(elem, grant);
    }

    /// Pushes `elem` on top, or hands it back with the capability's error
    /// where no room is granted.
    pub fn try_push(&mut self, elem: T) -> (r: Result<(), (T, AllocError)>)
        ensures
            r is Err ==> r->Err_0.0 == elem,
            old(self).allocator().infallible() ==> r is Ok,
            final(self).settled(),
            final(self).allocator() == old(self).allocator(),
            old(self).settled() && r is Ok ==> final(self)@ == seq![elem] + old(self)@,
            old(self).settled() && r is Err ==> final(self)@ == old(self)@,
    {
        let grant = self.alloc.allocate();
        self.publish_granted(elem, grant)
    }

    /// Pushes `elem` on top with the capability's answer `grant`: where it
    /// granted room, `elem` goes on top; where it refused, `elem` comes back
    /// with its error and nothing changes.
    pub fn publish_granted(&mut self, elem: T, grant: Result<A::Grant, AllocError>) -> (r: Result<
        (),
        (T, AllocError),
    >)
        ensures
            r is Ok <==> grant is Ok,
            grant matches Err(e) ==> r == Err::<(), (T, AllocError)>((elem, e)),
            final(self).settled(),
            final(self).allocator() == old(self).allocator(),
            old(self).settled() && grant is Ok ==> final(self)@ == seq![elem] + old(self)@,
            old(self).settled() && grant is Err ==> final(self)@ == old(self)@,
    {
        self.settle();
        match grant {
            Ok(g) => {
                let ghost before = self@;
                self.held.push((elem, g));
                assert(self@ =~= seq![elem] + before);
                Ok(())
            },
            Err(e) => Err((elem, e)),
        }
    }

    /// Takes the most recent payload off, or `None` where the queue is empty.
    pub fn pop(&mut self) -> (r: Option<T>)
        ensures
            final(self).settled(),
            final(self).allocator() == old(self).allocator(),
            old(self).settled() && old(self)@.len() == 0 ==> r is None
                && final(self)@ == old(self)@,
            old(self).settled() && old(self)@.len() > 0 ==> r == Some(old(self)@[0])
                && final(self)@ == old(self)@.drop_first(),
    {
        self.settle();
        let ghost before = self@;
        match self.held.pop() {
            Some((data, _grant)) => {
                assert(self@ =~= before.drop_first());
                Some(data)
            },
            None => None,
        }
    }

    /// Takes back every link of the shared list: the queue then holds all its
    /// links alone. Nothing changes where it already does.
    fn settle(&mut self)
        ensures
            final(self).settled(),
            final(self).alloc == old(self).alloc,
            old(self).settled() ==> final(self).held == old(self).held,
    {
        if self.shared {
            let mut newest_first: Vec<(T, A::Grant)> = Vec::new();
            // No list is longer than the number of links ever handed out.
            let bound = self.fresh.load(Ordering::Acquire);
            let mut n: usize = 0;
            while n < bound
                invariant
                    n <= bound,
                decreases bound - n,
            {
                match self.pop_link() {
                    Some(link) => newest_first.push(link),
                    None => break,
                }
                n = n + 1;
            }
            self.head.store(NIL, Ordering::Relaxed);
            while newest_first.len() > 0
                invariant
                    self.alloc == old(self).alloc,
                decreases newest_first@.len(),
            {
                match newest_first.pop() {
                    Some(link) => self.held.push(link),
                    None => {},
                }
            }
            self.shared = false;
        }
    }

    /// Moves the held links onto the shared list, the oldest deepest, where
    /// link numbers for all of them are free; else they stay held.
    fn publish_held(&mut self)
        requires
            old(self).settled(),
        ensures
            final(self).alloc == old(self).alloc,
            final(self).shared == old(self).shared,
    {
        let mut items: Vec<(T, A::Grant)> = Vec::new();
        core::mem::swap(&mut items, &mut self.held);
        let n = items.len();
        let mut moved = false;
        {
            let this = &*self;
            let mut slots: Vec<usize> = Vec::new();
            let mut nodes: Vec<&Node<(T, A::Grant)>> = Vec::new();
            while slots.len() < n
                invariant
                    slots@.len() == nodes@.len(),
                    slots@.len() <= n,
                    forall|j: int| 0 <= j < slots@.len() ==> slots@[j] < NIL,
                decreases n - slots@.len(),
            {
                match this.take_slot() {
                    Some(s) => match this.node(s) {
                        Some(nd) => {
                            slots.push(s);
                            nodes.push(nd);
                        },
                        None => {
                            this.give_back_slot(s);
                            break;
                        },
                    },
                    None => break,
                }
            }
            if slots.len() == n {
                // Link `i` holds `items[i]`, and refers to link `i - 1`.
                let mut i: usize = n;
                while i > 0
                    invariant
                        i <= n,
                        items@.len() == i,
                        slots@.len() == n,
                        nodes@.len() == n,
                    decreases i,
                {
                    i = i - 1;
                    let next = if i > 0 {
                        slots[i - 1]
                    } else {
                        NIL
                    };
                    nodes[i].next.store(next, Ordering::Relaxed);
                    match items.pop() {
                        Some(item) => {
                            let _ = cell_replace(&nodes[i].data, Some(item));
                        },
                        None => {},
                    }
                }
                if n > 0 {
                    this.head.store(slots[n - 1], Ordering::Release);
                }
                moved = true;
            } else {
                while slots.len() > 0
                    invariant
                        forall|j: int| 0 <= j < slots@.len() ==> slots@[j] < NIL,
                    decreases slots@.len(),
                {
                    match slots.pop() {
                        Some(s) => this.give_back_slot(s),
                        None => {},
                    }
                }
            }
        }
        if !moved {
            self.held = items;
        }
    }

    /// The link numbered `i`, where its chunk is there.
    fn node(&self, i: usize) -> (r: Option<&Node<(T, A::Grant)>>)
        ensures
            i >= NIL ==> r is None,
    {
        if i >= NIL {
            return None;
        }
        let (k, offset) = locate(i);
        if k >= self.chunks.len() {
            return None;
        }
        match self.chunks[k].get() {
            Some(chunk) => {
                if offset < chunk.len() {
                    Some(&chunk[offset])
                } else {
                    None
                }
            },
            None => None,
        }
    }

    /// Makes sure that the chunk of link `i` is there.
    fn ensure_chunk(&self, i: usize)
        requires
            i < NIL,
    {
        let (k, _offset) = locate(i);
        if k >= self.chunks.len() {
            return;
        }
        let cell = &self.chunks[k];
        if cell.get().is_none() {
            // Where another thread set the chunk first, ours is dropped.
            let _ = cell.set(new_chunk(chunk_length(k)));
        }
    }

    /// The forward reference of link `h`, or `None` where `h` names no link.
    fn next_of(&self, h: usize) -> (r: Option<usize>)
        ensures
            h >= NIL ==> r is None,
    {
        match self.node(h) {
            Some(n) => Some(n.next.load(Ordering::Acquire)),
            None => None,
        }
    }

    /// The step of taking a link off the free list whose top word is `w`: the
    /// word that names its successor, at the next version. Since every removal
    /// moves the version on, a removal that saw an older word cannot succeed.
    fn free_pop_step(&self, w: u64) -> (r: Option<u64>)
        ensures
            w % 4294967296 >= NIL ==> r is None,
            r matches Some(v) ==> v % 4294967296 <= NIL && v / 4294967296 == (w / 4294967296
                + 1) % 4294967296,
    {
        let i = free_index(w);
        if i >= NIL {
            return None;
        }
        match self.next_of(i) {
            Some(next) => {
                let next = if next <= NIL {
                    next
                } else {
                    NIL
                };
                let tag = next_tag(free_tag(w));
                proof {
                    lemma_free_word_round_trip(next as nat, tag as nat);
                }
                Some(pack_free(next, tag))
            },
            None => None,
        }
    }

    /// A link number that nobody else holds: a retired one, else a new one.
    fn take_slot(&self) -> (r: Option<usize>)
        ensures
            r matches Some(i) ==> i < NIL,
    {
        let step = |w: u64| -> (r: Option<u64>)
            ensures
                w % 4294967296 >= NIL ==> r is None,
            { self.free_pop_step(w) };
        let popped = self.free.fetch_update(Ordering::AcqRel, Ordering::Acquire, step);
        if let Ok(w) = popped {
            return Some(free_index(w));
        }
        let step = |f: usize| -> (r: Option<usize>)
            ensures
                r is Some ==> f < NIL,
            {
                if f < NIL {
                    Some(f + 1)
                } else {
                    None
                }
            };
        let fresh = self.fresh.fetch_update(Ordering::Relaxed, Ordering::Relaxed, step);
        match fresh {
            Ok(i) => {
                self.ensure_chunk(i);
                Some(i)
            },
            Err(_) => None,
        }
    }

    /// Puts the retired link `i` on top of the free list.
    fn give_back_slot(&self, i: usize)
        requires
            i < NIL,
    {
        let node = match self.node(i) {
            Some(n) => n,
            None => return ,
        };
        let step = |w: u64| -> (r: Option<u64>)
            {
                let top = free_index(w);
                let top = if top <= NIL {
                    top
                } else {
                    NIL
                };
                node.next.store(top, Ordering::Relaxed);
                Some(pack_free(i, free_tag(w)))
            };
        let _ = self.free.fetch_update(Ordering::AcqRel, Ordering::Acquire, step);
    }

    /// Takes a link that nobody else holds and puts `elem` and its grant in
    /// it: the link is ready to publish. Where every link number is in use,
    /// `elem` comes back with `AllocError`.
    fn fill_link(&self, elem: T, grant: A::Grant) -> (r: Result<
        (usize, &Node<(T, A::Grant)>),
        (T, AllocError),
    >)
        ensures
            r matches Ok((slot, _)) ==> slot < NIL,
            r is Err ==> r->Err_0.0 == elem,
    {
        let slot = match self.take_slot() {
            Some(s) => s,
            None => return Err((elem, AllocError)),
        };
        let node = match self.node(slot) {
            Some(n) => n,
            None => return Err((elem, AllocError)),
        };
        let _ = cell_replace(&node.data, Some((elem, grant)));
        Ok((slot, node))
    }

    /// Takes the payload and its grant out of the retired link `h`, and puts
    /// the link on the free list.
    fn take_link(&self, h: usize) -> Option<(T, A::Grant)>
        requires
            h < NIL,
    {
        let taken = match self.node(h) {
            Some(n) => cell_replace(&n.data, None),
            None => None,
        };
        self.give_back_slot(h);
        taken
    }

    /// Publishes `elem`: asks for room, fills a link, and makes it the head
    /// with a compare-and-swap, retried while other threads change the head.
    /// Where no room is granted, `elem` comes back with the error.
    pub(crate) fn try_push_atomic(&self, elem: T) -> (r: Result<(), (T, AllocError)>)
        ensures
            r is Err ==> r->Err_0.0 == elem,
    {
        let grant = self.alloc.allocate();
        self.publish_shared(elem, grant)
    }

    /// Publishes `elem` on the shared list with the capability's answer
    /// `grant`. Where it refused, `elem` comes back with its error; where every
    /// link number is in use, with `AllocError`.
    pub(crate) fn publish_shared(&self, elem: T, grant: Result<A::Grant, AllocError>) -> (r: Result<
        (),
        (T, AllocError),
    >)
        ensures
            r is Err ==> r->Err_0.0 == elem,
            grant matches Err(e) ==> r == Err::<(), (T, AllocError)>((elem, e)),
    {
        let grant = match grant {
            Ok(g) => g,
            Err(e) => return Err((elem, e)),
        };
        let (slot, node) = match self.fill_link(elem, grant) {
            Ok(filled) => filled,
            Err(e) => return Err(e),
        };
        let step = |h: usize| -> (r: Option<usize>)
            ensures
                r == Some(slot),
            {
                node.next.store(h, Ordering::Relaxed);
                Some(slot)
            };
        let _ = self.head.fetch_update(Ordering::Release, Ordering::Acquire, step);
        Ok(())
    }

    /// Retires the head: swaps it for its forward reference with a
    /// compare-and-swap, retried while producers change the head, then takes
    /// the payload and its grant out and releases the link. `None` where the
    /// head is `NIL`. Only one retire may run at a time.
    fn pop_link(&self) -> Option<(T, A::Grant)> {
        let step = |h: usize| -> (r: Option<usize>)
            ensures
                h >= NIL ==> r is None,
            { self.next_of(h) };
        let swapped = self.head.fetch_update(Ordering::Release, Ordering::Acquire, step);
        match swapped {
            Err(_) => None,
            Ok(h) => self.take_link(h),
        }
    }

    /// Retires the head as `pop_link` does, and gives the link's room back.
    pub(crate) fn pop_atomic(&self) -> Option<T> {
        match self.pop_link() {
            // The grant is dropped here, which gives the room back.
            Some((data, _grant)) => Some(data),
            None => None,
        }
    }
}

} // verus!
