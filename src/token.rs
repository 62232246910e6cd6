//! The commands of the interpreter's protocol and their one-line text form.
use vstd::prelude::*;

use crate::fecha::{fecha_texto, Fecha};
use crate::texto::{decimal, push_decimal};
use crate::valores::{Apellido, Cedula, Nombre};

verus! {

/// One command of the protocol; `Fin` ends a script.
#[derive(Debug, Clone)]
pub enum Token {
    CrearFecha(Fecha),
    ImprimirFecha,
    LiberarFecha,
    AumentarDias(u32),
    CompararFechas(Fecha, Fecha),
    CrearPersona(Cedula, Nombre, Apellido),
    ImprimirCIPersona,
    ImprimirFechaPersona,
    ImprimirNombreYApellidoPersona,
    ImprimirPersona,
    LiberarPersona,
    EsMasJovenPersona(Fecha, Cedula, Nombre, Apellido),
    CrearGrupo,
    AgregarAGrupo,
    ImprimirGrupo,
    LiberarGrupo,
    EstaEnGrupo(Cedula),
    HayPersonasFecha(Fecha),
    RemoverDeGrupo(Cedula),
    Fin,
}

/// The text of a person's identifier, name and surname, space separated.
pub open spec fn persona_texto(c: Cedula, n: Nombre, a: Apellido) -> Seq<char> {
    decimal(c.0 as nat) + " "@ + n.0@ + " "@ + a.0@
}

/// The protocol line of a command, newline included.
pub open spec fn linea(t: Token) -> Seq<char> {
    let cuerpo = match t {
        Token::CrearFecha(f) => "crearFecha "@ + fecha_texto(f),
        Token::ImprimirFecha => "imprimirFecha"@,
        Token::LiberarFecha => "liberarFecha"@,
        Token::AumentarDias(x) => "aumentarDias "@ + decimal(x as nat),
        Token::CompararFechas(f1, f2) => "compararFechas "@ + fecha_texto(f1) + " "@
            + fecha_texto(f2),
        Token::CrearPersona(c, n, a) => "crearPersona "@ + persona_texto(c, n, a),
        Token::ImprimirCIPersona => "imprimirCiPersona"@,
        Token::ImprimirFechaPersona => "imprimirFechaPersona"@,
        Token::ImprimirNombreYApellidoPersona => "imprimirNombreYApellidoPersona"@,
        Token::ImprimirPersona => "imprimirPersona"@,
        Token::LiberarPersona => "liberarPersona"@,
        Token::EsMasJovenPersona(f, c, n, a) => "esMasJovenPersona "@ + fecha_texto(f) + " "@
            + persona_texto(c, n, a),
        Token::CrearGrupo => "crearGrupo"@,
        Token::AgregarAGrupo => "agregarAGrupo"@,
        Token::ImprimirGrupo => "imprimirGrupo"@,
        Token::LiberarGrupo => "liberarGrupo"@,
        Token::EstaEnGrupo(c) => "estaEnGrupo "@ + decimal(c.0 as nat),
        Token::HayPersonasFecha(f) => "hayPersonasFecha "@ + fecha_texto(f),
        Token::RemoverDeGrupo(c) => "removerDeGrupo "@ + decimal(c.0 as nat),
        Token::Fin => "Fin"@,
    };
    cuerpo + "\n"@
}

/// Appends the identifier, name and surname of a person to `s`.
fn escribir_persona(s: &mut String, c: &Cedula, n: &Nombre, a: &Apellido)
    ensures
        final(s)@ == old(s)@ + persona_texto(*c, *n, *a),
{
    push_decimal(s, c.0);
    s.append(" ");
    s.append(n.0.as_str());
    s.append(" ");
    s.append(a.0.as_str());
    assert(final(s)@ =~= old(s)@ + persona_texto(*c, *n, *a));
}

impl Token {
    /// The protocol line of this command, newline included.
    pub fn to_string(&self) -> (r: String)
        ensures
            r@ == linea(*self),
    {
        let mut s: String;
        match self {
            Token::CrearFecha(f) => {
                s = String::from_str("crearFecha ");
                f.escribir(&mut s);
            },
            Token::ImprimirFecha => {
                s = String::from_str("imprimirFecha");
            },
            Token::LiberarFecha => {
                s = String::from_str("liberarFecha");
            },
            Token::AumentarDias(x) => {
                s = String::from_str("aumentarDias ");
                push_decimal(&mut s, *x);
            },
            Token::CompararFechas(f1, f2) => {
                s = String::from_str("compararFechas ");
                f1.escribir(&mut s);
                s.append(" ");
                f2.escribir(&mut s);
            },
            Token::CrearPersona(c, n, a) => {
                s = String::from_str("crearPersona ");
                escribir_persona(&mut s, c, n, a);
            },
            Token::ImprimirCIPersona => {
                s = String::from_str("imprimirCiPersona");
            },
            Token::ImprimirFechaPersona => {
                s = String::from_str("imprimirFechaPersona");
            },
            Token::ImprimirNombreYApellidoPersona => {
                s = String::from_str("imprimirNombreYApellidoPersona");
            },
            Token::ImprimirPersona => {
                s = String::from_str("imprimirPersona");
            },
            Token::LiberarPersona => {
                s = String::from_str("liberarPersona");
            },
            Token::EsMasJovenPersona(f, c, n, a) => {
                s = String::from_str("esMasJovenPersona ");
                f.escribir(&mut s);
                s.append(" ");
                escribir_persona(&mut s, c, n, a);
            },
            Token::CrearGrupo => {
                s = String::from_str("crearGrupo");
            },
            Token::AgregarAGrupo => {
                s = String::from_str("agregarAGrupo");
            },
            Token::ImprimirGrupo => {
                s = String::from_str("imprimirGrupo");
            },
            Token::LiberarGrupo => {
                s = String::from_str("liberarGrupo");
            },
            Token::EstaEnGrupo(c) => {
                s = String::from_str("estaEnGrupo ");
                push_decimal(&mut s, c.0);
            },
            Token::HayPersonasFecha(f) => {
                s = String::from_str("hayPersonasFecha ");
                f.escribir(&mut s);
            },
            Token::RemoverDeGrupo(c) => {
                s = String::from_str("removerDeGrupo ");
                push_decimal(&mut s, c.0);
            },
            Token::Fin => {
                s = String::from_str("Fin");
            },
        }
        s.append("\n");
        assert(s@ =~= linea(*self));
        s
    }
}

/// The text of a script: the lines of its commands, in order.
pub open spec fn guion_texto(s: Seq<Token>) -> Seq<char>
    decreases s.len(),
{
    if s.len() == 0 {
        Seq::empty()
    } else {
        guion_texto(s.drop_last()) + linea(s.last())
    }
}

/// The text of a script: each command's line, in order, with nothing
/// between them.
pub fn render(tokens: &Vec<Token>) -> (r: String)
    ensures
        r@ == guion_texto(tokens@),
{
    let mut s = String::new();
    let mut i: usize = 0;
    while i < tokens.len()
        invariant
            i <= tokens.len(),
            s@ == guion_texto(tokens@.take(i as int)),
        decreases tokens.len() - i,
    {
        let linea_i = tokens[i].to_string();
        s.append(linea_i.as_str());
        assert(tokens@.take(i + 1 as int).drop_last() =~= tokens@.take(i as int));
        i = i + 1;
    }
    assert(tokens@.take(tokens.len() as int) =~= tokens@);
    s
}

} // verus!
