//! What follows from the contracts of `Queue::push`, `Queue::try_push` and
//! `Queue::pop` on a settled queue, stated over its view: a push puts its
//! payload in front (`seq![x] + s`), a pop takes the front off.

use vstd::prelude::*;

verus! {

/// Last in, first out: publishing `a`, then `b`, then `c` on contents `s` and
/// retiring three times gives `c`, `b`, `a`, and leaves `s`.
pub proof fn lemma_retire_reverses_publish<T>(s: Seq<T>, a: T, b: T, c: T)
    ensures
        ({
            let t = seq![c] + (seq![b] + (seq![a] + s));
            &&& t.len() > 0 && t[0] == c
            &&& t.drop_first().len() > 0 && t.drop_first()[0] == b
            &&& t.drop_first().drop_first().len() > 0 && t.drop_first().drop_first()[0] == a
            &&& t.drop_first().drop_first().drop_first() == s
        }),
{
    let t = seq![c] + (seq![b] + (seq![a] + s));
    assert(t.drop_first() =~= seq![b] + (seq![a] + s));
    assert(t.drop_first().drop_first() =~= seq![a] + s);
    assert(t.drop_first().drop_first().drop_first() =~= s);
}

/// A push followed by a pop gives the pushed payload back and leaves the
/// contents as they were; and after a push the queue is not empty.
pub proof fn lemma_push_then_pop<T>(s: Seq<T>, x: T)
    ensures
        (seq![x] + s).len() > 0,
        (seq![x] + s)[0] == x,
        (seq![x] + s).drop_first() == s,
{
    assert((seq![x] + s).drop_first() =~= s);
}

} // verus!
