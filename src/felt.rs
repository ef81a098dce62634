use vstd::arithmetic::div_mod::{lemma_mod_add_multiples_vanish, lemma_small_mod};
use vstd::prelude::*;

verus! {

/// Top 64-bit limb of the field prime `P = 2^251 + 17 * 2^192 + 1`; its lower limbs are `1, 0, 0`.
pub const PRIME_HIGH_LIMB: u64 = 0x0800_0000_0000_0011;

/// `2^64`, the base of the limbs.
pub open spec fn limb_base() -> int {
    0x1_0000_0000_0000_0000
}

/// The field prime.
pub open spec fn prime() -> int {
    limb_base() * (limb_base() * (limb_base() * PRIME_HIGH_LIMB as int)) + 1
}

/// The representative in `[0, P)` of an integer.
pub open spec fn reduce(x: int) -> int {
    x % prime()
}

/// Reduction leaves a number in `[0, P)` unchanged and lifts one in `(-P, 0)` by `P`.
pub proof fn lemma_reduce_small(x: int)
    requires
        -prime() < x < prime(),
    ensures
        reduce(x) == if x >= 0 {
            x
        } else {
            x + prime()
        },
{
    if x >= 0 {
        lemma_small_mod(x as nat, prime() as nat);
    } else {
        lemma_mod_add_multiples_vanish(x, prime());
        lemma_small_mod((x + prime()) as nat, prime() as nat);
    }
}

/// The number that four little-endian limbs spell.
pub open spec fn limbs_value(l0: u64, l1: u64, l2: u64, l3: u64) -> int {
    l0 + limb_base() * (l1 + limb_base() * (l2 + limb_base() * l3))
}

/// A number below `2^256`, as four little-endian 64-bit limbs.
struct Wide {
    l0: u64,
    l1: u64,
    l2: u64,
    l3: u64,
}

impl Wide {
    spec fn value(&self) -> int {
        limbs_value(self.l0, self.l1, self.l2, self.l3)
    }
}

/// `a + b`, when it fits in four limbs.
fn wide_add(a: &Wide, b: &Wide) -> (r: Wide)
    requires
        a.value() + b.value() < limb_base() * (limb_base() * (limb_base() * limb_base())),
    ensures
        r.value() == a.value() + b.value(),
{
    let base: u128 = 0x1_0000_0000_0000_0000;
    let s0: u128 = a.l0 as u128 + b.l0 as u128;
    let c0: u128 = s0 / base;
    let s1: u128 = a.l1 as u128 + b.l1 as u128 + c0;
    let c1: u128 = s1 / base;
    let s2: u128 = a.l2 as u128 + b.l2 as u128 + c1;
    let c2: u128 = s2 / base;
    let s3: u128 = a.l3 as u128 + b.l3 as u128 + c2;
    assert(s3 < base);
    Wide { l0: (s0 % base) as u64, l1: (s1 % base) as u64, l2: (s2 % base) as u64, l3: s3 as u64 }
}

/// `a - b`, when `b <= a`.
fn wide_sub(a: &Wide, b: &Wide) -> (r: Wide)
    requires
        b.value() <= a.value(),
    ensures
        r.value() == a.value() - b.value(),
{
    let base: i128 = 0x1_0000_0000_0000_0000;
    let d0: i128 = a.l0 as i128 - b.l0 as i128;
    let w0: i128 = if d0 < 0 { 1 } else { 0 };
    let d1: i128 = a.l1 as i128 - b.l1 as i128 - w0;
    let w1: i128 = if d1 < 0 { 1 } else { 0 };
    let d2: i128 = a.l2 as i128 - b.l2 as i128 - w1;
    let w2: i128 = if d2 < 0 { 1 } else { 0 };
    let d3: i128 = a.l3 as i128 - b.l3 as i128 - w2;
    assert(d3 >= 0);
    Wide {
        l0: (d0 + w0 * base) as u64,
        l1: (d1 + w1 * base) as u64,
        l2: (d2 + w2 * base) as u64,
        l3: d3 as u64,
    }
}

/// Whether `a >= b`.
fn wide_ge(a: &Wide, b: &Wide) -> (r: bool)
    ensures
        r == (a.value() >= b.value()),
{
    if a.l3 != b.l3 {
        a.l3 > b.l3
    } else if a.l2 != b.l2 {
        a.l2 > b.l2
    } else if a.l1 != b.l1 {
        a.l1 > b.l1
    } else {
        a.l0 >= b.l0
    }
}

fn prime_wide() -> (r: Wide)
    ensures
        r.value() == prime(),
{
    Wide { l0: 1, l1: 0, l2: 0, l3: PRIME_HIGH_LIMB }
}

/// The element whose representative is the machine word `n`.
pub open spec fn felt_of(n: u64) -> Felt {
    Felt { limb0: n, limb1: 0, limb2: 0, limb3: 0 }
}

/// An element of the prime field, stored as its canonical representative in four
/// little-endian 64-bit limbs.
#[derive(Clone, Copy, Debug, PartialEq, Eq, Structural)]
pub struct Felt {
    pub limb0: u64,
    pub limb1: u64,
    pub limb2: u64,
    pub limb3: u64,
}

impl Felt {
    /// The integer that the limbs spell.
    pub open spec fn value(&self) -> int {
        self.limb0 + limb_base() * (self.limb1 + limb_base() * (self.limb2 + limb_base()
            * self.limb3))
    }

    /// The limbs spell a number below the prime.
    pub open spec fn wf(&self) -> bool {
        ||| self.limb3 < PRIME_HIGH_LIMB
        ||| (self.limb3 == PRIME_HIGH_LIMB && self.limb2 == 0 && self.limb1 == 0
            && self.limb0 == 0)
    }

    /// The zero element.
    pub fn zero() -> (r: Felt)
        ensures
            r == felt_of(0),
            r.wf(),
            r.value() == 0,
    {
        Felt { limb0: 0, limb1: 0, limb2: 0, limb3: 0 }
    }

    /// The unit element.
    pub fn one() -> (r: Felt)
        ensures
            r == felt_of(1),
            r.wf(),
            r.value() == 1,
    {
        Felt { limb0: 1, limb1: 0, limb2: 0, limb3: 0 }
    }

    /// The element that an unsigned machine word stands for.
    pub fn new(n: u64) -> (r: Felt)
        ensures
            r == felt_of(n),
            r.wf(),
            r.value() == n,
    {
        Felt { limb0: n, limb1: 0, limb2: 0, limb3: 0 }
    }

    /// The element that a word count stands for.
    pub fn from_usize(n: usize) -> (r: Felt)
        requires
            n <= u64::MAX,
        ensures
            r == felt_of(n as u64),
            r.wf(),
            r.value() == n,
    {
        Felt::new(n as u64)
    }

    /// The element that a signed machine word stands for, reduced modulo the prime.
    pub fn from_i64(x: i64) -> (r: Felt)
        ensures
            r.wf(),
            r.value() == reduce(x as int),
    {
        proof {
            lemma_reduce_small(x as int);
        }
        if x >= 0 {
            Felt::new(x as u64)
        } else if x == -1 {
            Felt { limb0: 0, limb1: 0, limb2: 0, limb3: PRIME_HIGH_LIMB }
        } else {
            let k: u64 = (-(x + 1)) as u64;
            // P - (k + 1) with k >= 1: borrow through the two zero limbs.
            let low: u64 = (u64::MAX - k) + 1;
            Felt { limb0: low, limb1: u64::MAX, limb2: u64::MAX, limb3: PRIME_HIGH_LIMB - 1 }
        }
    }

    pub fn is_zero(&self) -> (r: bool)
        ensures
            r == (self.value() == 0),
    {
        self.limb0 == 0 && self.limb1 == 0 && self.limb2 == 0 && self.limb3 == 0
    }

    pub fn is_one(&self) -> (r: bool)
        ensures
            r == (self.value() == 1),
    {
        self.limb0 == 1 && self.limb1 == 0 && self.limb2 == 0 && self.limb3 == 0
    }

    /// The representative as a word count, when it fits in one.
    pub fn to_usize(&self) -> (r: Option<usize>)
        ensures
            match r {
                Some(n) => n as int == self.value(),
                None => self.value() > usize::MAX,
            },
    {
        if self.limb1 == 0 && self.limb2 == 0 && self.limb3 == 0 && self.limb0
            <= usize::MAX as u64 {
            Some(self.limb0 as usize)
        } else {
            None
        }
    }

    fn to_wide(&self) -> (r: Wide)
        ensures
            r.value() == self.value(),
    {
        Wide { l0: self.limb0, l1: self.limb1, l2: self.limb2, l3: self.limb3 }
    }

    fn from_wide(w: &Wide) -> (r: Felt)
        requires
            0 <= w.value() < prime(),
        ensures
            r.wf(),
            r.value() == w.value(),
    {
        Felt { limb0: w.l0, limb1: w.l1, limb2: w.l2, limb3: w.l3 }
    }

    /// The element that four little-endian limbs spell, reduced modulo the prime.
    pub fn from_limbs(limb0: u64, limb1: u64, limb2: u64, limb3: u64) -> (r: Felt)
        ensures
            r.wf(),
            r.value() == reduce(limbs_value(limb0, limb1, limb2, limb3)),
    {
        let p = prime_wide();
        let mut w = Wide { l0: limb0, l1: limb1, l2: limb2, l3: limb3 };
        let ghost x = w.value();
        while wide_ge(&w, &p)
            invariant
                p.value() == prime(),
                0 <= w.value() <= x,
                reduce(w.value()) == reduce(x),
            decreases w.value(),
        {
            let next = wide_sub(&w, &p);
            proof {
                lemma_mod_add_multiples_vanish(next.value(), prime());
            }
            w = next;
        }
        proof {
            lemma_small_mod(w.value() as nat, prime() as nat);
        }
        Felt::from_wide(&w)
    }

    /// Field addition.
    pub fn add(&self, other: &Felt) -> (r: Felt)
        requires
            self.wf(),
            other.wf(),
        ensures
            r.wf(),
            r.value() == reduce(self.value() + other.value()),
    {
        let p = prime_wide();
        let s = wide_add(&self.to_wide(), &other.to_wide());
        if wide_ge(&s, &p) {
            let d = wide_sub(&s, &p);
            proof {
                lemma_mod_add_multiples_vanish(d.value(), prime());
                lemma_small_mod(d.value() as nat, prime() as nat);
            }
            Felt::from_wide(&d)
        } else {
            proof {
                lemma_small_mod(s.value() as nat, prime() as nat);
            }
            Felt::from_wide(&s)
        }
    }

    /// Field negation.
    pub fn neg(&self) -> (r: Felt)
        requires
            self.wf(),
        ensures
            r.wf(),
            r.value() == reduce(-self.value()),
    {
        proof {
            lemma_reduce_small(-self.value());
        }
        if self.is_zero() {
            Felt::zero()
        } else {
            Felt::from_wide(&wide_sub(&prime_wide(), &self.to_wide()))
        }
    }

    /// Field subtraction.
    pub fn sub(&self, other: &Felt) -> (r: Felt)
        requires
            self.wf(),
            other.wf(),
        ensures
            r.wf(),
            r.value() == reduce(self.value() - other.value()),
    {
        let a = self.to_wide();
        let b = other.to_wide();
        if wide_ge(&a, &b) {
            proof {
                lemma_small_mod((self.value() - other.value()) as nat, prime() as nat);
            }
            Felt::from_wide(&wide_sub(&a, &b))
        } else {
            let d = wide_sub(&wide_add(&a, &prime_wide()), &b);
            proof {
                lemma_reduce_small(self.value() - other.value());
            }
            Felt::from_wide(&d)
        }
    }
}

} // verus!
