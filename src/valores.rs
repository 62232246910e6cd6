//! The values that commands carry, their word lists, and their samplers.
use vstd::prelude::*;

use crate::azar::Fuente;
use crate::fecha::{dias_mes, fecha_valida, Fecha, PRIMER_ANIO, ULTIMO_ANIO};

verus! {

/// Number of given names in the name list.
pub const CANTIDAD_NOMBRES: usize = 2000;

/// Number of surnames in the surname list.
pub const CANTIDAD_APELLIDOS: usize = 1000;

/// Smallest identifier that the sampler draws.
pub const MIN_CEDULA: u32 = 100;

/// One past the largest identifier that the sampler draws.
pub const FIN_CEDULA: u32 = 150;

/// A person's identifier.
#[derive(Debug, Clone, Copy, PartialEq, Eq, Structural)]
pub struct Cedula(pub u32);

/// A given name.
#[derive(Debug, Clone, PartialEq, Eq)]
pub struct Nombre(pub String);

/// A surname.
#[derive(Debug, Clone, PartialEq, Eq)]
pub struct Apellido(pub String);

/// An identifier that the sampler may produce.
pub open spec fn cedula_valida(c: Cedula) -> bool {
    MIN_CEDULA <= c.0 < FIN_CEDULA
}

/// The two word lists that names and surnames are drawn from.
pub struct Corpus {
    nombres: Vec<String>,
    apellidos: Vec<String>,
}

impl Corpus {
    /// The given names, in order.
    pub closed spec fn nombres(&self) -> Seq<String> {
        self.nombres@
    }

    /// The surnames, in order.
    pub closed spec fn apellidos(&self) -> Seq<String> {
        self.apellidos@
    }

    /// Both lists have the fixed sizes that sampling relies on.
    pub open spec fn wf(&self) -> bool {
        self.nombres().len() == CANTIDAD_NOMBRES && self.apellidos().len() == CANTIDAD_APELLIDOS
    }

    /// Takes the two lists, or refuses them (`None`) unless they hold
    /// exactly the expected number of entries.
    pub fn new(nombres: Vec<String>, apellidos: Vec<String>) -> (r: Option<Corpus>)
        ensures
            r is Some <==> (nombres@.len() == CANTIDAD_NOMBRES && apellidos@.len()
                == CANTIDAD_APELLIDOS),
            r matches Some(c) ==> c.wf() && c.nombres() == nombres@ && c.apellidos()
                == apellidos@,
    {
        if nombres.len() == CANTIDAD_NOMBRES && apellidos.len() == CANTIDAD_APELLIDOS {
            Some(Corpus { nombres, apellidos })
        } else {
            None
        }
    }
}

/// The name at position `x` of the list.
pub open spec fn nombre_en(corpus: Corpus, x: usize) -> Nombre {
    Nombre(corpus.nombres()[x as int])
}

/// The surname at position `x` of the list.
pub open spec fn apellido_en(corpus: Corpus, x: usize) -> Apellido {
    Apellido(corpus.apellidos()[x as int])
}

/// Draws a year in the script range, then a month, then a day of that month.
pub fn sample_fecha<S: Fuente>(src: &mut S) -> (r: Fecha)
    ensures
        fecha_valida(r),
        final(src).sacadas() == old(src).sacadas() + seq![
            r.anio as usize,
            r.mes as usize,
            r.dia as usize,
        ],
{
    let anio = src.entre(PRIMER_ANIO as usize, ULTIMO_ANIO as usize + 1) as u32;
    let mes = src.entre(1, 13) as u32;
    let dia = src.entre(1, dias_mes(mes, anio) as usize + 1) as u32;
    let r = Fecha { anio, mes, dia };
    assert(src.sacadas() =~= old(src).sacadas() + seq![
        r.anio as usize,
        r.mes as usize,
        r.dia as usize,
    ]);
    r
}

/// Draws an identifier.
pub fn sample_cedula<S: Fuente>(src: &mut S) -> (r: Cedula)
    ensures
        cedula_valida(r),
        final(src).sacadas() == old(src).sacadas().push(r.0 as usize),
{
    Cedula(src.entre(MIN_CEDULA as usize, FIN_CEDULA as usize) as u32)
}

/// Draws a given name from the list: the draw is its position.
pub fn sample_nombre<S: Fuente>(src: &mut S, corpus: &Corpus) -> (r: Nombre)
    requires
        corpus.wf(),
    ensures
        corpus.nombres().contains(r.0),
        final(src).sacadas() == old(src).sacadas().push(final(src).sacadas().last()),
        final(src).sacadas().last() < CANTIDAD_NOMBRES,
        r == nombre_en(*corpus, final(src).sacadas().last()),
{
    let i = src.entre(0, CANTIDAD_NOMBRES);
    Nombre(corpus.nombres[i].clone())
}

/// Draws a surname from the list: the draw is its position.
pub fn sample_apellido<S: Fuente>(src: &mut S, corpus: &Corpus) -> (r: Apellido)
    requires
        corpus.wf(),
    ensures
        corpus.apellidos().contains(r.0),
        final(src).sacadas() == old(src).sacadas().push(final(src).sacadas().last()),
        final(src).sacadas().last() < CANTIDAD_APELLIDOS,
        r == apellido_en(*corpus, final(src).sacadas().last()),
{
    let i = src.entre(0, CANTIDAD_APELLIDOS);
    Apellido(corpus.apellidos[i].clone())
}

} // verus!
