//! Random sources. A source hands out integers from half-open ranges and
//! keeps, as a ghost record, every integer it has handed out: the scripts
//! are functions of that record.
use rand::Rng;
use vstd::prelude::*;

verus! {

#[verifier::external_type_specification]
#[verifier::external_body]
pub struct ExThreadRng(rand::rngs::ThreadRng);

/// Relies on rand::thread_rng: a handle on the generator of this thread.
pub assume_specification[ rand::thread_rng ]() -> rand::rngs::ThreadRng;

/// Relies on rand::Rng::gen_range: a uniform draw from `lo..hi`, which it
/// refuses (panics) only when the range is empty.
#[verifier::external_body]
fn gen_range(rng: &mut rand::rngs::ThreadRng, lo: usize, hi: usize) -> (r: usize)
    requires
        lo < hi,
    ensures
        lo <= r < hi,
{
    rng.gen_range(lo..hi)
}

/// A source of draws from half-open ranges.
pub trait Fuente {
    /// Every draw handed out so far, oldest first.
    spec fn sacadas(&self) -> Seq<usize>;

    /// A draw from `lo..hi`, which is appended to the record.
    fn entre(&mut self, lo: usize, hi: usize) -> (r: usize)
        requires
            lo < hi,
        ensures
            lo <= r < hi,
            final(self).sacadas() == old(self).sacadas().push(r),
    ;
}

/// The thread-local generator of rand, seeded from the operating system.
pub struct Sistema {
    rng: rand::rngs::ThreadRng,
    registro: Ghost<Seq<usize>>,
}

impl Sistema {
    pub fn new() -> (r: Sistema)
        ensures
            r.sacadas() == Seq::<usize>::empty(),
    {
        Sistema { rng: rand::thread_rng(), registro: Ghost(Seq::empty()) }
    }
}

impl Fuente for Sistema {
    closed spec fn sacadas(&self) -> Seq<usize> {
        self.registro@
    }

    fn entre(&mut self, lo: usize, hi: usize) -> (r: usize) {
        let r = gen_range(&mut self.rng, lo, hi);
        self.registro = Ghost(self.registro@.push(r));
        r
    }
}

/// A fixed tape of numbers, read in a cycle: the draw from `lo..hi` is
/// `lo` plus the next number modulo the width of the range (`lo` when the
/// tape is empty).
pub struct Cinta {
    numeros: Vec<usize>,
    pos: usize,
    registro: Ghost<Seq<usize>>,
}

/// The draw that a tape gives from `lo..hi` when its next number is `x`.
pub open spec fn de_cinta(x: usize, lo: usize, hi: usize) -> usize {
    (lo + x % ((hi - lo) as usize)) as usize
}

impl Cinta {
    /// The numbers on the tape.
    pub closed spec fn numeros(&self) -> Seq<usize> {
        self.numeros@
    }

    /// Where the next draw reads.
    pub closed spec fn posicion(&self) -> int {
        self.pos as int
    }

    #[verifier::type_invariant]
    spec fn en_rango(&self) -> bool {
        self.numeros@.len() == 0 || self.pos < self.numeros@.len()
    }

    pub fn new(numeros: Vec<usize>) -> (r: Cinta)
        ensures
            r.numeros() == numeros@,
            r.posicion() == 0,
            r.sacadas() == Seq::<usize>::empty(),
    {
        Cinta { numeros, pos: 0, registro: Ghost(Seq::empty()) }
    }

    /// The next draw from `lo..hi`, read from the tape.
    pub fn sacar(&mut self, lo: usize, hi: usize) -> (r: usize)
        requires
            lo < hi,
        ensures
            lo <= r < hi,
            final(self).numeros() == old(self).numeros(),
            old(self).numeros().len() == 0 ==> r == lo,
            old(self).numeros().len() > 0 ==> r == de_cinta(
                old(self).numeros()[old(self).posicion()],
                lo,
                hi,
            ) && final(self).posicion() == if old(self).posicion() + 1 == old(self).numeros().len() {
                0
            } else {
                old(self).posicion() + 1
            },
            final(self).sacadas() == old(self).sacadas().push(r),
    {
        proof {
            use_type_invariant(&*self);
        }
        let r = if self.numeros.len() == 0 {
            lo
        } else {
            let x = self.numeros[self.pos];
            self.pos = if self.pos + 1 == self.numeros.len() {
                0
            } else {
                self.pos + 1
            };
            lo + x % (hi - lo)
        };
        self.registro = Ghost(self.registro@.push(r));
        r
    }
}

impl Fuente for Cinta {
    closed spec fn sacadas(&self) -> Seq<usize> {
        self.registro@
    }

    fn entre(&mut self, lo: usize, hi: usize) -> (r: usize) {
        self.sacar(lo, hi)
    }
}

} // verus!
