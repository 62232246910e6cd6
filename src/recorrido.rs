//! Each walk as a function of the draws it consumes: the commands that a
//! run emits are determined by the draws that its source handed out.
use vstd::prelude::*;

use crate::fecha::Fecha;
use crate::token::Token;
use crate::valores::{apellido_en, nombre_en, Cedula, Corpus};

verus! {

/// The four commands that close every script.
pub open spec fn trailer() -> Seq<Token> {
    seq![Token::LiberarFecha, Token::LiberarPersona, Token::LiberarGrupo, Token::Fin]
}

/// The date drawn at `k`: year, month and day, in that order.
pub open spec fn fecha_en(d: Seq<usize>, k: int) -> Fecha {
    Fecha { anio: d[k] as u32, mes: d[k + 1] as u32, dia: d[k + 2] as u32 }
}

/// One step of the date walk whose draws start at `k`: its commands, and
/// how many draws it takes.
pub open spec fn paso_fecha_de(d: Seq<usize>, k: int) -> (Seq<Token>, int) {
    if d[k] == 0 {
        (seq![Token::AumentarDias(d[k + 1] as u32), Token::ImprimirFecha], 2)
    } else if d[k] == 1 {
        (seq![Token::CompararFechas(fecha_en(d, k + 1), fecha_en(d, k + 4))], 7)
    } else {
        (seq![Token::LiberarFecha, Token::CrearFecha(fecha_en(d, k + 1))], 4)
    }
}

/// The date walk of `n` steps on the draws `d`: the commands before the
/// trailer, and how many draws they take.
pub open spec fn recorrido_fecha(d: Seq<usize>, n: nat) -> (Seq<Token>, int)
    decreases n,
{
    if n == 0 {
        (seq![Token::CrearFecha(fecha_en(d, 0))], 3)
    } else {
        let (s, k) = recorrido_fecha(d, (n - 1) as nat);
        let (t, m) = paso_fecha_de(d, k);
        (s + t, k + m)
    }
}

/// `s` is the date script of `n` steps that the draws `d`, all of them, give.
pub open spec fn produce_fecha(d: Seq<usize>, n: nat, s: Seq<Token>) -> bool {
    recorrido_fecha(d, n).1 == d.len() && s == recorrido_fecha(d, n).0 + trailer()
}

/// The commands that create the date and the person drawn at `k` (date,
/// identifier, name position, surname position).
pub open spec fn persona_de(d: Seq<usize>, k: int, corpus: Corpus) -> Seq<Token> {
    seq![
        Token::CrearFecha(fecha_en(d, k)),
        Token::CrearPersona(
            Cedula(d[k + 3] as u32),
            nombre_en(corpus, d[k + 4]),
            apellido_en(corpus, d[k + 5]),
        ),
    ]
}

/// One step of the person walk whose draws start at `k`: its commands, how
/// many draws it takes, and whether it printed.
pub open spec fn paso_persona_de(d: Seq<usize>, k: int, corpus: Corpus) -> (Seq<Token>, int, bool) {
    if d[k] == 0 {
        (seq![Token::ImprimirPersona], 1, true)
    } else if d[k] == 1 {
        (
            seq![
                Token::EsMasJovenPersona(
                    fecha_en(d, k + 1),
                    Cedula(d[k + 4] as u32),
                    nombre_en(corpus, d[k + 5]),
                    apellido_en(corpus, d[k + 6]),
                ),
            ],
            7,
            false,
        )
    } else {
        (seq![Token::LiberarPersona] + persona_de(d, k + 1, corpus), 7, false)
    }
}

/// The person walk of `n` steps on the draws `d`: the commands before the
/// trailer, how many draws they take, and whether the last step printed.
pub open spec fn recorrido_persona(d: Seq<usize>, n: nat, corpus: Corpus) -> (Seq<Token>, int, bool)
    decreases n,
{
    if n == 0 {
        (persona_de(d, 0, corpus), 6, false)
    } else {
        let (s, k, _) = recorrido_persona(d, (n - 1) as nat, corpus);
        let (t, m, b) = paso_persona_de(d, k, corpus);
        (s + t, k + m, b)
    }
}

/// `s` is the person script of `n` steps that the draws `d`, all of them,
/// give.
pub open spec fn produce_persona(d: Seq<usize>, n: nat, corpus: Corpus, s: Seq<Token>) -> bool {
    recorrido_persona(d, n, corpus).1 == d.len() && s == recorrido_persona(d, n, corpus).0
        + trailer()
}

/// One step of the group walk whose draws start at `k`, given the known
/// identifiers `cs` and dates `fs`: its commands, how many draws it takes,
/// and the known identifiers and dates after it.
pub open spec fn paso_grupo_de(
    d: Seq<usize>,
    k: int,
    corpus: Corpus,
    cs: Seq<Cedula>,
    fs: Seq<Fecha>,
) -> (Seq<Token>, int, Seq<Cedula>, Seq<Fecha>) {
    if d[k] < 4 {
        let c = Cedula(d[k + 1] as u32);
        let f = fecha_en(d, k + 2);
        (
            seq![
                Token::CrearFecha(f),
                Token::CrearPersona(c, nombre_en(corpus, d[k + 5]), apellido_en(corpus, d[k + 6])),
                Token::AgregarAGrupo,
            ],
            7,
            cs.push(c),
            fs.push(f),
        )
    } else if d[k] == 4 {
        (seq![Token::ImprimirGrupo], 1, cs, fs)
    } else if d[k] < 7 {
        (seq![Token::EstaEnGrupo(cs[d[k + 1] as int])], 2, cs, fs)
    } else if d[k] < 9 {
        (seq![Token::RemoverDeGrupo(cs[d[k + 1] as int])], 2, cs, fs)
    } else {
        (seq![Token::HayPersonasFecha(fs[d[k + 1] as int])], 2, cs, fs)
    }
}

/// The group walk of `n` steps on the draws `d`: the commands before the
/// trailer, how many draws they take, and the known identifiers and dates.
pub open spec fn recorrido_grupo(d: Seq<usize>, n: nat, corpus: Corpus) -> (
    Seq<Token>,
    int,
    Seq<Cedula>,
    Seq<Fecha>,
)
    decreases n,
{
    if n == 0 {
        (seq![Token::CrearGrupo], 4, seq![Cedula(d[0] as u32)], seq![fecha_en(d, 1)])
    } else {
        let (s, k, cs, fs) = recorrido_grupo(d, (n - 1) as nat, corpus);
        let (t, m, cs2, fs2) = paso_grupo_de(d, k, corpus, cs, fs);
        (s + t, k + m, cs2, fs2)
    }
}

/// `s` is the group script of `n` steps that the draws `d`, all of them,
/// give.
pub open spec fn produce_grupo(d: Seq<usize>, n: nat, corpus: Corpus, s: Seq<Token>) -> bool {
    recorrido_grupo(d, n, corpus).1 == d.len() && s == recorrido_grupo(d, n, corpus).0 + trailer()
}

/// A date walk takes at least the three draws of its first date.
pub proof fn lema_pos_fecha(d: Seq<usize>, n: nat)
    ensures
        recorrido_fecha(d, n).1 >= 3,
    decreases n,
{
    if n > 0 {
        lema_pos_fecha(d, (n - 1) as nat);
    }
}

/// A person walk takes at least the six draws of its first person.
pub proof fn lema_pos_persona(d: Seq<usize>, n: nat, corpus: Corpus)
    ensures
        recorrido_persona(d, n, corpus).1 >= 6,
    decreases n,
{
    if n > 0 {
        lema_pos_persona(d, (n - 1) as nat, corpus);
    }
}

/// A group walk takes at least the four draws of its first identifier and
/// date.
pub proof fn lema_pos_grupo(d: Seq<usize>, n: nat, corpus: Corpus)
    ensures
        recorrido_grupo(d, n, corpus).1 >= 4,
    decreases n,
{
    if n > 0 {
        lema_pos_grupo(d, (n - 1) as nat, corpus);
    }
}

/// More draws after those that a date walk took leave it unchanged.
pub proof fn lema_prefijo_fecha(d1: Seq<usize>, d2: Seq<usize>, n: nat)
    requires
        d1.len() <= d2.len(),
        d1 == d2.take(d1.len() as int),
        recorrido_fecha(d1, n).1 <= d1.len(),
    ensures
        recorrido_fecha(d2, n) == recorrido_fecha(d1, n),
    decreases n,
{
    assert forall|j: int| 0 <= j < d1.len() implies d1[j] == d2[j] by {
        assert(d2.take(d1.len() as int)[j] == d2[j]);
    }
    if n == 0 {
        assert(d1[0] == d2[0] && d1[1] == d2[1] && d1[2] == d2[2]);
    } else {
        let k = recorrido_fecha(d1, (n - 1) as nat).1;
        lema_pos_fecha(d1, (n - 1) as nat);
        assert(recorrido_fecha(d1, n).1 == k + paso_fecha_de(d1, k).1);
        lema_prefijo_fecha(d1, d2, (n - 1) as nat);
        assert(d1[k] == d2[k]);
        if d1[k] == 0 {
            assert(d1[k + 1] == d2[k + 1]);
        } else {
            assert(d1[k + 1] == d2[k + 1] && d1[k + 2] == d2[k + 2] && d1[k + 3] == d2[k + 3]);
            if d1[k] == 1 {
                assert(d1[k + 4] == d2[k + 4] && d1[k + 5] == d2[k + 5] && d1[k + 6] == d2[k + 6]);
            }
        }
        assert(paso_fecha_de(d1, k) == paso_fecha_de(d2, k));
    }
}

/// More draws after those that a person walk took leave it unchanged.
pub proof fn lema_prefijo_persona(d1: Seq<usize>, d2: Seq<usize>, n: nat, corpus: Corpus)
    requires
        d1.len() <= d2.len(),
        d1 == d2.take(d1.len() as int),
        recorrido_persona(d1, n, corpus).1 <= d1.len(),
    ensures
        recorrido_persona(d2, n, corpus) == recorrido_persona(d1, n, corpus),
    decreases n,
{
    assert forall|j: int| 0 <= j < d1.len() implies d1[j] == d2[j] by {
        assert(d2.take(d1.len() as int)[j] == d2[j]);
    }
    if n == 0 {
        assert(d1[0] == d2[0] && d1[1] == d2[1] && d1[2] == d2[2]);
        assert(d1[3] == d2[3] && d1[4] == d2[4] && d1[5] == d2[5]);
        assert(persona_de(d1, 0, corpus) == persona_de(d2, 0, corpus));
    } else {
        let k = recorrido_persona(d1, (n - 1) as nat, corpus).1;
        lema_pos_persona(d1, (n - 1) as nat, corpus);
        assert(recorrido_persona(d1, n, corpus).1 == k + paso_persona_de(d1, k, corpus).1);
        lema_prefijo_persona(d1, d2, (n - 1) as nat, corpus);
        assert(d1[k] == d2[k]);
        if d1[k] != 0 {
            assert(d1[k + 1] == d2[k + 1] && d1[k + 2] == d2[k + 2] && d1[k + 3] == d2[k + 3]);
            assert(d1[k + 4] == d2[k + 4] && d1[k + 5] == d2[k + 5] && d1[k + 6] == d2[k + 6]);
            assert(persona_de(d1, k + 1, corpus) == persona_de(d2, k + 1, corpus));
        }
        assert(paso_persona_de(d1, k, corpus) == paso_persona_de(d2, k, corpus));
    }
}

/// More draws after those that a group walk took leave it unchanged.
pub proof fn lema_prefijo_grupo(d1: Seq<usize>, d2: Seq<usize>, n: nat, corpus: Corpus)
    requires
        d1.len() <= d2.len(),
        d1 == d2.take(d1.len() as int),
        recorrido_grupo(d1, n, corpus).1 <= d1.len(),
    ensures
        recorrido_grupo(d2, n, corpus) == recorrido_grupo(d1, n, corpus),
    decreases n,
{
    assert forall|j: int| 0 <= j < d1.len() implies d1[j] == d2[j] by {
        assert(d2.take(d1.len() as int)[j] == d2[j]);
    }
    if n == 0 {
        assert(d1[0] == d2[0] && d1[1] == d2[1] && d1[2] == d2[2] && d1[3] == d2[3]);
        assert(fecha_en(d1, 1) == fecha_en(d2, 1));
    } else {
        let (s, k, cs, fs) = recorrido_grupo(d1, (n - 1) as nat, corpus);
        lema_pos_grupo(d1, (n - 1) as nat, corpus);
        assert(recorrido_grupo(d1, n, corpus).1 == k + paso_grupo_de(d1, k, corpus, cs, fs).1);
        lema_prefijo_grupo(d1, d2, (n - 1) as nat, corpus);
        assert(d1[k] == d2[k]);
        if d1[k] != 4 {
            assert(d1[k + 1] == d2[k + 1]);
        }
        if d1[k] < 4 {
            assert(d1[k + 2] == d2[k + 2] && d1[k + 3] == d2[k + 3] && d1[k + 4] == d2[k + 4]);
            assert(d1[k + 5] == d2[k + 5] && d1[k + 6] == d2[k + 6]);
            assert(fecha_en(d1, k + 2) == fecha_en(d2, k + 2));
        }
        assert(paso_grupo_de(d1, k, corpus, cs, fs) == paso_grupo_de(d2, k, corpus, cs, fs));
    }
}

/// The same draws give the same date script.
pub proof fn fecha_determinista(d: Seq<usize>, n: nat, s1: Seq<Token>, s2: Seq<Token>)
    requires
        produce_fecha(d, n, s1),
        produce_fecha(d, n, s2),
    ensures
        s1 == s2,
{
}

/// The same draws and word lists give the same person script.
pub proof fn persona_determinista(
    d: Seq<usize>,
    n: nat,
    corpus: Corpus,
    s1: Seq<Token>,
    s2: Seq<Token>,
)
    requires
        produce_persona(d, n, corpus, s1),
        produce_persona(d, n, corpus, s2),
    ensures
        s1 == s2,
{
}

/// The same draws and word lists give the same group script.
pub proof fn grupo_determinista(
    d: Seq<usize>,
    n: nat,
    corpus: Corpus,
    s1: Seq<Token>,
    s2: Seq<Token>,
)
    requires
        produce_grupo(d, n, corpus, s1),
        produce_grupo(d, n, corpus, s2),
    ensures
        s1 == s2,
{
}

} // verus!
