use vstd::arithmetic::div_mod::{
    lemma_add_mod_noop_right, lemma_mod_pos_bound, lemma_mod_self_0, lemma_small_mod,
};
use vstd::prelude::*;

verus! {

/// A source of 32-bit draws, replayed in a cycle from a non-empty script.
///
/// The draws a host hands in (from a chain's randomness, or a fixed script
/// in a test) are read back one per call of `next_u32`.
pub struct RandomSource {
    values: Vec<u32>,
    next: usize,
}

impl RandomSource {
    /// The script of draws, in order.
    pub closed spec fn script(&self) -> Seq<u32> {
        self.values@
    }

    /// Index in the script of the next draw.
    pub closed spec fn position(&self) -> nat {
        self.next as nat
    }

    pub open spec fn wf(&self) -> bool {
        &&& self.script().len() > 0
        &&& self.position() < self.script().len()
    }

    /// The draw that the `i`-th call from now returns.
    pub open spec fn draw(&self, i: nat) -> u32
        recommends
            self.wf(),
    {
        self.script()[((self.position() + i) % self.script().len()) as int]
    }

    /// `after` is this source once `n` draws have been taken from it.
    pub open spec fn advanced_to(&self, after: &RandomSource, n: nat) -> bool {
        &&& after.script() == self.script()
        &&& after.position() == (self.position() + n) % self.script().len()
    }

    /// A source that replays `values` in a cycle; `None` when `values` is empty.
    pub fn new(values: Vec<u32>) -> (r: Option<RandomSource>)
        ensures
            values@.len() == 0 <==> r is None,
            r matches Some(src) ==> src.wf() && src.script() == values@ && src.position() == 0,
    {
        if values.len() == 0 {
            None
        } else {
            Some(RandomSource { values, next: 0 })
        }
    }

    /// A source that always returns `value`.
    pub fn fixed(value: u32) -> (r: RandomSource)
        ensures
            r.wf(),
            r.script() == seq![value],
            r.position() == 0,
    {
        let mut values: Vec<u32> = Vec::new();
        values.push(value);
        RandomSource { values, next: 0 }
    }

    /// Takes the next draw.
    pub fn next_u32(&mut self) -> (r: u32)
        requires
            old(self).wf(),
        ensures
            final(self).wf(),
            r == old(self).draw(0),
            old(self).advanced_to(final(self), 1),
    {
        proof {
            lemma_small_mod(self.position(), self.script().len());
        }
        let r = self.values[self.next];
        if self.next < self.values.len() - 1 {
            proof {
                lemma_small_mod(self.position() + 1, self.script().len());
            }
            self.next = self.next + 1;
        } else {
            proof {
                lemma_mod_self_0(self.script().len() as int);
            }
            self.next = 0;
        }
        r
    }
}

/// Taking `m` draws and then `n` more is taking `m + n`, and the source in
/// between returns the draws of the first one, shifted by `m`.
pub proof fn lemma_advance_then(a: &RandomSource, b: &RandomSource, c: &RandomSource, m: nat, n: nat)
    requires
        a.wf(),
        a.advanced_to(b, m),
        b.advanced_to(c, n),
    ensures
        b.wf(),
        c.wf(),
        a.advanced_to(c, m + n),
        forall|i: nat| #[trigger] b.draw(i) == a.draw(m + i),
{
    let len = a.script().len() as int;
    let p = a.position() as int;
    lemma_mod_pos_bound(p + m, len);
    lemma_mod_pos_bound((b.position() + n) as int, len);
    lemma_add_mod_noop_right(n as int, p + m, len);
    assert(n as int + p + m == p + (m + n) as int);
    assert forall|i: nat| #[trigger] b.draw(i) == a.draw(m + i) by {
        lemma_add_mod_noop_right(i as int, p + m, len);
        assert(i as int + (p + m) == p + (m + i) as int);
    }
}

} // verus!
