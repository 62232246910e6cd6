//! Calendar dates in the range that the scripts use, and their text form.
use vstd::prelude::*;

use crate::texto::{decimal, push_decimal};

verus! {

/// First year that a sampled date may have.
pub const PRIMER_ANIO: u32 = 1999;

/// Last year that a sampled date may have.
pub const ULTIMO_ANIO: u32 = 2009;

/// A calendar date.
#[derive(Debug, Clone, Copy, PartialEq, Eq, Structural)]
pub struct Fecha {
    pub anio: u32,
    pub mes: u32,
    pub dia: u32,
}

/// Gregorian leap years: divisible by 4 and not by 100, or divisible by 400.
pub open spec fn leap(year: int) -> bool {
    (year % 4 == 0 && year % 100 != 0) || year % 400 == 0
}

/// Number of days in `mes` of `anio`.
pub open spec fn days_in(mes: int, anio: int) -> int {
    if mes == 2 {
        if leap(anio) {
            29
        } else {
            28
        }
    } else if mes == 4 || mes == 6 || mes == 9 || mes == 11 {
        30
    } else {
        31
    }
}

/// A date that the samplers may produce.
pub open spec fn fecha_valida(f: Fecha) -> bool {
    PRIMER_ANIO <= f.anio <= ULTIMO_ANIO && 1 <= f.mes <= 12 && 1 <= f.dia <= days_in(
        f.mes as int,
        f.anio as int,
    )
}

/// The text of a date: `day/month/year`, without padding.
pub open spec fn fecha_texto(f: Fecha) -> Seq<char> {
    decimal(f.dia as nat) + "/"@ + decimal(f.mes as nat) + "/"@ + decimal(f.anio as nat)
}

pub fn is_leap_year(year: u32) -> (r: bool)
    ensures
        r == leap(year as int),
{
    (year % 4 == 0 && year % 100 != 0) || year % 400 == 0
}

pub fn dias_mes(mes: u32, anio: u32) -> (r: u32)
    ensures
        r == days_in(mes as int, anio as int),
        28 <= r <= 31,
{
    match mes {
        2 => if is_leap_year(anio) {
            29
        } else {
            28
        },
        4 | 6 | 9 | 11 => 30,
        _ => 31,
    }
}

impl Fecha {
    /// Appends the text of this date to `s`.
    pub fn escribir(&self, s: &mut String)
        ensures
            final(s)@ == old(s)@ + fecha_texto(*self),
    {
        push_decimal(s, self.dia);
        s.append("/");
        push_decimal(s, self.mes);
        s.append("/");
        push_decimal(s, self.anio);
        assert(final(s)@ =~= old(s)@ + fecha_texto(*self));
    }
}

} // verus!
