//! The three random walks, one per interpreter module, and what holds of
//! every script that they produce.
use vstd::prelude::*;

use crate::azar::Fuente;
use crate::recorrido::{
    lema_prefijo_fecha, lema_prefijo_grupo, lema_prefijo_persona, paso_fecha_de, paso_grupo_de,
    paso_persona_de, persona_de, fecha_en, produce_fecha, produce_grupo, produce_persona, recorrido_fecha,
    recorrido_grupo, recorrido_persona, trailer,
};
use crate::fecha::{fecha_valida, Fecha};
use crate::token::Token;
use crate::valores::{
    cedula_valida, sample_apellido, sample_cedula, sample_fecha, sample_nombre, Cedula, Corpus,
};

verus! {

/// Largest day count that an `AumentarDias` command carries, plus one.
pub const FIN_DIAS: u32 = 300;

/// Ends with the trailer, and `Fin` stands nowhere else.
pub open spec fn termina_bien(s: Seq<Token>) -> bool {
    &&& s.len() >= 4
    &&& s.skip(s.len() - 4) == trailer()
    &&& forall|k: int| 0 <= k < s.len() - 1 ==> !(#[trigger] s[k] is Fin)
}

/// Every date, identifier and day count that the command carries lies in
/// the range its sampler draws from.
pub open spec fn token_valido(t: Token) -> bool {
    match t {
        Token::CrearFecha(f) => fecha_valida(f),
        Token::AumentarDias(x) => x < FIN_DIAS,
        Token::CompararFechas(f1, f2) => fecha_valida(f1) && fecha_valida(f2),
        Token::CrearPersona(c, _, _) => cedula_valida(c),
        Token::EsMasJovenPersona(f, c, _, _) => fecha_valida(f) && cedula_valida(c),
        Token::EstaEnGrupo(c) => cedula_valida(c),
        Token::HayPersonasFecha(f) => fecha_valida(f),
        Token::RemoverDeGrupo(c) => cedula_valida(c),
        _ => true,
    }
}

/// Every name and surname that the command carries comes from the lists.
pub open spec fn nombres_de(t: Token, corpus: Corpus) -> bool {
    match t {
        Token::CrearPersona(_, n, a) => corpus.nombres().contains(n.0)
            && corpus.apellidos().contains(a.0),
        Token::EsMasJovenPersona(_, _, n, a) => corpus.nombres().contains(n.0)
            && corpus.apellidos().contains(a.0),
        _ => true,
    }
}

/// A command that the date walk emits before the trailer.
pub open spec fn de_fecha(t: Token) -> bool {
    t is CrearFecha || t is ImprimirFecha || t is LiberarFecha || t is AumentarDias
        || t is CompararFechas
}

/// A command that the person walk emits before the trailer.
pub open spec fn de_persona(t: Token) -> bool {
    t is CrearFecha || t is CrearPersona || t is ImprimirPersona || t is EsMasJovenPersona
        || t is LiberarPersona
}

/// A command that the group walk emits before the trailer.
pub open spec fn de_grupo(t: Token) -> bool {
    t is CrearGrupo || t is CrearFecha || t is CrearPersona || t is AgregarAGrupo
        || t is ImprimirGrupo || t is EstaEnGrupo || t is RemoverDeGrupo || t is HayPersonasFecha
}

/// No two consecutive commands both print the person.
pub open spec fn sin_impresion_doble(s: Seq<Token>) -> bool {
    forall|k: int|
        0 <= k < s.len() - 1 ==> !(#[trigger] s[k] is ImprimirPersona && s[k + 1] is ImprimirPersona)
}

/// What the date walk produces for `size` steps.
pub open spec fn guion_fecha(s: Seq<Token>, size: nat) -> bool {
    &&& termina_bien(s)
    &&& size + 5 <= s.len() <= 2 * size + 5
    &&& s[0] is CrearFecha
    &&& forall|k: int| 0 <= k < s.len() ==> token_valido(#[trigger] s[k])
    &&& forall|k: int|
        0 <= k < s.len() - 4 ==> {
            &&& de_fecha(#[trigger] s[k])
            &&& s[k] is AumentarDias ==> s[k + 1] is ImprimirFecha
            &&& s[k] is LiberarFecha ==> s[k + 1] is CrearFecha
        }
}

/// What the person walk produces for `size` steps.
pub open spec fn guion_persona(s: Seq<Token>, size: nat, corpus: Corpus) -> bool {
    &&& termina_bien(s)
    &&& size + 6 <= s.len() <= 3 * size + 6
    &&& s[0] is CrearFecha
    &&& s[1] is CrearPersona
    &&& sin_impresion_doble(s)
    &&& forall|k: int| 0 <= k < s.len() ==> token_valido(#[trigger] s[k]) && nombres_de(s[k], corpus)
    &&& forall|k: int|
        0 <= k < s.len() - 4 ==> {
            &&& de_persona(#[trigger] s[k])
            &&& s[k] is LiberarPersona ==> s[k + 1] is CrearFecha && s[k + 2] is CrearPersona
        }
}

/// Appends the trailer to a script body.
fn cerrar(v: &mut Vec<Token>)
    ensures
        final(v)@ == old(v)@ + trailer(),
{
    v.push(Token::LiberarFecha);
    v.push(Token::LiberarPersona);
    v.push(Token::LiberarGrupo);
    v.push(Token::Fin);
    assert(final(v)@ =~= old(v)@ + trailer());
}

/// The command at `k` of a date script body is one that the walk emits,
/// with values from their ranges; an advance is followed by a print, and a
/// free by a creation.
pub open spec fn paso_fecha_ok(s: Seq<Token>, k: int) -> bool {
    &&& token_valido(s[k])
    &&& de_fecha(s[k])
    &&& s[k] is AumentarDias ==> k + 1 < s.len() && s[k + 1] is ImprimirFecha
    &&& s[k] is LiberarFecha ==> k + 1 < s.len() && s[k + 1] is CrearFecha
}

/// Every command of a date script body is in order.
pub open spec fn cuerpo_fecha(s: Seq<Token>) -> bool {
    forall|k: int| 0 <= k < s.len() ==> #[trigger] paso_fecha_ok(s, k)
}

proof fn lema_extender_fecha(s: Seq<Token>, t: Seq<Token>)
    requires
        cuerpo_fecha(s),
        forall|j: int| 0 <= j < t.len() ==> #[trigger] paso_fecha_ok(s + t, s.len() + j),
    ensures
        cuerpo_fecha(s + t),
{
    let u = s + t;
    assert forall|k: int| 0 <= k < u.len() implies #[trigger] paso_fecha_ok(u, k) by {
        if k < s.len() {
            assert(paso_fecha_ok(s, k));
            assert(u[k] == s[k]);
            if k + 1 < s.len() {
                assert(u[k + 1] == s[k + 1]);
            }
        } else {
            assert(paso_fecha_ok(u, s.len() + (k - s.len())));
        }
    }
}

/// One step of the date walk: an advance of the date by a drawn number of
/// days and a print, a comparison of two fresh dates, or a free and the
/// creation of a fresh date. The draws that it takes are those after
/// `base` in the source's record.
fn paso_fecha<S: Fuente>(src: &mut S, v: &mut Vec<Token>, base: Ghost<int>)
    requires
        0 <= base@ <= old(src).sacadas().len(),
        cuerpo_fecha(old(v)@),
    ensures
        final(src).sacadas().len() >= old(src).sacadas().len(),
        final(src).sacadas().skip(base@).take(old(src).sacadas().len() - base@) == old(src).sacadas().skip(base@),
        final(v)@.len() <= old(v)@.len() + 2,
        final(v)@ == old(v)@ + paso_fecha_de(final(src).sacadas().skip(base@), old(src).sacadas().len() - base@).0,
        paso_fecha_de(final(src).sacadas().skip(base@), old(src).sacadas().len() - base@).1
            == final(src).sacadas().len() - old(src).sacadas().len(),
        cuerpo_fecha(final(v)@),
{
    let ghost d1 = src.sacadas().skip(base@);
    let ghost s = v@;
    let rama = src.entre(0, 3);
    let ghost t: Seq<Token>;
    if rama == 0 {
        let x = src.entre(0, FIN_DIAS as usize);
        v.push(Token::AumentarDias(x as u32));
        v.push(Token::ImprimirFecha);
        proof {
            assert(src.sacadas().skip(base@) =~= d1 + seq![rama, x]);
            t = seq![Token::AumentarDias(x as u32), Token::ImprimirFecha];
        }
    } else if rama == 1 {
        let f1 = sample_fecha(src);
        let f2 = sample_fecha(src);
        v.push(Token::CompararFechas(f1, f2));
        proof {
            assert(src.sacadas().skip(base@) =~= d1 + seq![
                rama,
                f1.anio as usize,
                f1.mes as usize,
                f1.dia as usize,
                f2.anio as usize,
                f2.mes as usize,
                f2.dia as usize,
            ]);
            t = seq![Token::CompararFechas(f1, f2)];
        }
    } else {
        let f = sample_fecha(src);
        v.push(Token::LiberarFecha);
        v.push(Token::CrearFecha(f));
        proof {
            assert(src.sacadas().skip(base@) =~= d1 + seq![
                rama,
                f.anio as usize,
                f.mes as usize,
                f.dia as usize,
            ]);
            t = seq![Token::LiberarFecha, Token::CrearFecha(f)];
        }
    }
    proof {
        let d2 = src.sacadas().skip(base@);
        assert(d2.take(d1.len() as int) =~= d1);
        assert(v@ =~= s + t);
        assert forall|j: int| 0 <= j < t.len() implies #[trigger] paso_fecha_ok(s + t, s.len() + j) by {
            assert(paso_fecha_ok(s + t, s.len() as int + 0));
        }
        lema_extender_fecha(s, t);
    }
}

/// A script for the date module: one date is created, then each step either
/// advances and prints it, compares two fresh dates, or frees it and
/// creates another. The script is the date walk of the draws it took.
pub fn generate_date_test_cases<S: Fuente>(size: usize, src: &mut S) -> (r: Vec<Token>)
    ensures
        guion_fecha(r@, size as nat),
        final(src).sacadas().len() >= old(src).sacadas().len(),
        produce_fecha(final(src).sacadas().skip(old(src).sacadas().len() as int), size as nat, r@),
{
    let ghost base = src.sacadas().len() as int;
    let f = sample_fecha(src);
    let mut v: Vec<Token> = Vec::new();
    v.push(Token::CrearFecha(f));
    assert(src.sacadas().skip(base) =~= seq![f.anio as usize, f.mes as usize, f.dia as usize]);
    assert(paso_fecha_ok(v@, 0));
    let mut i: usize = 0;
    while i < size
        invariant
            0 <= base <= src.sacadas().len(),
            i <= size,
            i + 1 <= v.len() <= 2 * i + 1,
            v@[0] is CrearFecha,
            cuerpo_fecha(v@),
            recorrido_fecha(src.sacadas().skip(base), i as nat) == (v@, src.sacadas().skip(base).len() as int),
        decreases size - i,
    {
        let ghost d1 = src.sacadas().skip(base);
        let ghost antes = v@;
        paso_fecha(src, &mut v, Ghost(base));
        proof {
            let d2 = src.sacadas().skip(base);
            lema_prefijo_fecha(d1, d2, i as nat);
        }
        assert(v@[0] == antes[0]);
        i = i + 1;
    }
    let ghost cuerpo = v@;
    cerrar(&mut v);
    assert(v@.skip(v@.len() - 4) =~= trailer());
    assert forall|k: int| 0 <= k < v@.len() implies {
        &&& token_valido(#[trigger] v@[k])
        &&& k < v@.len() - 1 ==> !(v@[k] is Fin)
        &&& k < v@.len() - 4 ==> {
            &&& de_fecha(v@[k])
            &&& v@[k] is AumentarDias ==> v@[k + 1] is ImprimirFecha
            &&& v@[k] is LiberarFecha ==> v@[k + 1] is CrearFecha
        }
    } by {
        if k < cuerpo.len() {
            assert(paso_fecha_ok(cuerpo, k));
            assert(v@[k] == cuerpo[k]);
            if k + 1 < cuerpo.len() {
                assert(v@[k + 1] == cuerpo[k + 1]);
            }
        } else {
            assert(v@[k] == trailer()[k - cuerpo.len()]);
        }
    }
    v
}

/// The command at `k` of a person script body is one that the walk emits,
/// with values from their ranges and lists; a free is followed by the
/// creation of a date and a person, and a print is not followed by a print.
pub open spec fn paso_persona_ok(s: Seq<Token>, k: int, corpus: Corpus) -> bool {
    &&& token_valido(s[k])
    &&& nombres_de(s[k], corpus)
    &&& de_persona(s[k])
    &&& s[k] is LiberarPersona ==> k + 2 < s.len() && s[k + 1] is CrearFecha && s[k + 2] is CrearPersona
    &&& k + 1 < s.len() ==> !(s[k] is ImprimirPersona && s[k + 1] is ImprimirPersona)
}

/// Every command of a person script body is in order.
pub open spec fn cuerpo_persona(s: Seq<Token>, corpus: Corpus) -> bool {
    forall|k: int| 0 <= k < s.len() ==> #[trigger] paso_persona_ok(s, k, corpus)
}

proof fn lema_extender_persona(s: Seq<Token>, t: Seq<Token>, corpus: Corpus)
    requires
        cuerpo_persona(s, corpus),
        s.len() > 0,
        t.len() > 0,
        !(s.last() is ImprimirPersona && t[0] is ImprimirPersona),
        forall|j: int| 0 <= j < t.len() ==> #[trigger] paso_persona_ok(s + t, s.len() + j, corpus),
    ensures
        cuerpo_persona(s + t, corpus),
{
    let u = s + t;
    assert forall|k: int| 0 <= k < u.len() implies #[trigger] paso_persona_ok(u, k, corpus) by {
        if k < s.len() {
            assert(paso_persona_ok(s, k, corpus));
            assert(u[k] == s[k]);
            if k + 1 < s.len() {
                assert(u[k + 1] == s[k + 1]);
            } else {
                assert(u[k + 1] == t[0]);
            }
            if k + 2 < s.len() {
                assert(u[k + 2] == s[k + 2]);
            }
        } else {
            assert(paso_persona_ok(u, s.len() + (k - s.len()), corpus));
        }
    }
}

/// One step of the person walk: a print (never right after a print), an
/// age question on fresh values, or a free followed by a fresh date and
/// person. Returns whether this step printed. The draws that it takes are
/// those after `base` in the source's record.
#[verifier::rlimit(40)]
fn paso_persona<S: Fuente>(
    src: &mut S,
    corpus: &Corpus,
    v: &mut Vec<Token>,
    impreso: bool,
    base: Ghost<int>,
) -> (nuevo: bool)
    requires
        corpus.wf(),
        0 <= base@ <= old(src).sacadas().len(),
        old(v)@.len() > 0,
        cuerpo_persona(old(v)@, *corpus),
        impreso == (old(v)@.last() is ImprimirPersona),
    ensures
        old(v)@.len() + 1 <= final(v)@.len() <= old(v)@.len() + 3,
        cuerpo_persona(final(v)@, *corpus),
        nuevo == (final(v)@.last() is ImprimirPersona),
        final(src).sacadas().len() >= old(src).sacadas().len(),
        final(src).sacadas().skip(base@).take(old(src).sacadas().len() - base@) == old(src).sacadas().skip(base@),
        final(v)@ == old(v)@ + paso_persona_de(
            final(src).sacadas().skip(base@),
            old(src).sacadas().len() - base@,
            *corpus,
        ).0,
        paso_persona_de(final(src).sacadas().skip(base@), old(src).sacadas().len() - base@, *corpus).1
            == final(src).sacadas().len() - old(src).sacadas().len(),
{
    let ghost d1 = src.sacadas().skip(base@);
    let desde: usize = if impreso {
        1
    } else {
        0
    };
    let rama = src.entre(desde, 3);
    let ghost s = v@;
    if rama == 0 {
        v.push(Token::ImprimirPersona);
        proof {
            let t = seq![Token::ImprimirPersona];
            assert(src.sacadas().skip(base@) =~= d1 + seq![rama]);
            assert(src.sacadas().skip(base@).take(d1.len() as int) =~= d1);
            assert(v@ =~= s + t);
            assert(paso_persona_ok(s + t, s.len() as int + 0, *corpus));
            lema_extender_persona(s, t, *corpus);
        }
        true
    } else {
        let f = sample_fecha(src);
        let c = sample_cedula(src);
        let n = sample_nombre(src, corpus);
        let ghost xn = src.sacadas().last();
        let a = sample_apellido(src, corpus);
        let ghost xa = src.sacadas().last();
        proof {
            assert(src.sacadas().skip(base@) =~= d1 + seq![
                rama,
                f.anio as usize,
                f.mes as usize,
                f.dia as usize,
                c.0 as usize,
                xn,
                xa,
            ]);
            assert(src.sacadas().skip(base@).take(d1.len() as int) =~= d1);
        }
        if rama == 1 {
            let tok = Token::EsMasJovenPersona(f, c, n, a);
            let ghost t = seq![tok];
            v.push(tok);
            proof {
                assert(v@ =~= s + t);
                assert(paso_persona_ok(s + t, s.len() as int + 0, *corpus));
                lema_extender_persona(s, t, *corpus);
            }
        } else {
            let t1 = Token::CrearFecha(f);
            let t2 = Token::CrearPersona(c, n, a);
            let ghost t = seq![Token::LiberarPersona, t1, t2];
            v.push(Token::LiberarPersona);
            v.push(t1);
            v.push(t2);
            proof {
                assert(v@ =~= s + t);
                assert(t =~= seq![Token::LiberarPersona] + persona_de(
                    src.sacadas().skip(base@),
                    d1.len() + 1 as int,
                    *corpus,
                ));
                assert(paso_persona_ok(s + t, s.len() as int + 0, *corpus));
                assert(paso_persona_ok(s + t, s.len() as int + 1, *corpus));
                assert(paso_persona_ok(s + t, s.len() as int + 2, *corpus));
                lema_extender_persona(s, t, *corpus);
            }
        }
        false
    }
}

/// A script for the person module: a date and a person are created, then
/// each step prints the person, asks whether a fresh person is younger
/// than a fresh date, or frees the person and creates another. A step
/// right after a print never prints. The script is the person walk of the
/// draws it took.
pub fn generate_person_test_cases<S: Fuente>(size: usize, corpus: &Corpus, src: &mut S) -> (r: Vec<Token>)
    requires
        corpus.wf(),
    ensures
        guion_persona(r@, size as nat, *corpus),
        final(src).sacadas().len() >= old(src).sacadas().len(),
        produce_persona(
            final(src).sacadas().skip(old(src).sacadas().len() as int),
            size as nat,
            *corpus,
            r@,
        ),
{
    let ghost base = src.sacadas().len() as int;
    let f = sample_fecha(src);
    let c = sample_cedula(src);
    let n = sample_nombre(src, corpus);
    let ghost xn = src.sacadas().last();
    let a = sample_apellido(src, corpus);
    let ghost xa = src.sacadas().last();
    let mut v: Vec<Token> = Vec::new();
    v.push(Token::CrearFecha(f));
    v.push(Token::CrearPersona(c, n, a));
    assert(src.sacadas().skip(base) =~= seq![
        f.anio as usize,
        f.mes as usize,
        f.dia as usize,
        c.0 as usize,
        xn,
        xa,
    ]);
    assert(v@ =~= persona_de(src.sacadas().skip(base), 0, *corpus));
    assert(paso_persona_ok(v@, 0, *corpus));
    assert(paso_persona_ok(v@, 1, *corpus));
    let mut impreso = false;
    let mut i: usize = 0;
    while i < size
        invariant
            corpus.wf(),
            0 <= base <= src.sacadas().len(),
            i <= size,
            i + 2 <= v.len() <= 3 * i + 2,
            v@[0] is CrearFecha,
            v@[1] is CrearPersona,
            impreso == (v@.last() is ImprimirPersona),
            cuerpo_persona(v@, *corpus),
            recorrido_persona(src.sacadas().skip(base), i as nat, *corpus).0 == v@,
            recorrido_persona(src.sacadas().skip(base), i as nat, *corpus).1 == src.sacadas().skip(
                base,
            ).len(),
        decreases size - i,
    {
        let ghost d1 = src.sacadas().skip(base);
        let ghost antes = v@;
        impreso = paso_persona(src, corpus, &mut v, impreso, Ghost(base));
        proof {
            lema_prefijo_persona(d1, src.sacadas().skip(base), i as nat, *corpus);
        }
        assert(v@[0] == antes[0]);
        assert(v@[1] == antes[1]);
        i = i + 1;
    }
    let ghost cuerpo = v@;
    cerrar(&mut v);
    assert(v@.skip(v@.len() - 4) =~= trailer());
    assert forall|k: int| 0 <= k < v@.len() implies {
        &&& token_valido(#[trigger] v@[k])
        &&& nombres_de(v@[k], *corpus)
        &&& k < v@.len() - 1 ==> !(v@[k] is Fin)
        &&& k < v@.len() - 1 ==> !(v@[k] is ImprimirPersona && v@[k + 1] is ImprimirPersona)
        &&& k < v@.len() - 4 ==> de_persona(v@[k]) && (v@[k] is LiberarPersona ==> v@[k + 1] is CrearFecha && v@[k + 2] is CrearPersona)
    } by {
        if k < cuerpo.len() {
            assert(paso_persona_ok(cuerpo, k, *corpus));
            assert(v@[k] == cuerpo[k]);
            if k + 1 < cuerpo.len() {
                assert(v@[k + 1] == cuerpo[k + 1]);
            } else {
                assert(v@[k + 1] == trailer()[0]);
            }
            if k + 2 < cuerpo.len() {
                assert(v@[k + 2] == cuerpo[k + 2]);
            }
        } else {
            assert(v@[k] == trailer()[k - cuerpo.len()]);
        }
    }
    v
}

/// Some command before position `k` creates a person with identifier `c`.
pub open spec fn persona_creada(s: Seq<Token>, c: Cedula, k: int) -> bool {
    exists|j: int| 0 <= j < k && #[trigger] s[j] is CrearPersona && s[j]->CrearPersona_0 == c
}

/// Some command before position `k` creates the date `f`.
pub open spec fn fecha_creada(s: Seq<Token>, f: Fecha, k: int) -> bool {
    exists|j: int| 0 <= j < k && #[trigger] s[j] is CrearFecha && s[j]->CrearFecha_0 == f
}

/// The identifier or date that the command at `k` asks about is the first
/// one sampled (`c0`, `f0`) or was created earlier in the script.
pub open spec fn referencia_ok(s: Seq<Token>, k: int, c0: Cedula, f0: Fecha) -> bool {
    match s[k] {
        Token::EstaEnGrupo(c) => c == c0 || persona_creada(s, c, k),
        Token::RemoverDeGrupo(c) => c == c0 || persona_creada(s, c, k),
        Token::HayPersonasFecha(f) => f == f0 || fecha_creada(s, f, k),
        _ => true,
    }
}

/// The command at `k` of a group script body is one that the walk emits,
/// with values from their ranges and lists; a date creation is followed by
/// a person creation and an addition to the group; any reference is known.
pub open spec fn paso_grupo_ok(s: Seq<Token>, k: int, corpus: Corpus, c0: Cedula, f0: Fecha) -> bool {
    &&& token_valido(s[k])
    &&& nombres_de(s[k], corpus)
    &&& de_grupo(s[k])
    &&& s[k] is CrearFecha ==> k + 2 < s.len() && s[k + 1] is CrearPersona && s[k + 2] is AgregarAGrupo
    &&& referencia_ok(s, k, c0, f0)
}

/// Every command of a group script body is in order.
pub open spec fn cuerpo_grupo(s: Seq<Token>, corpus: Corpus, c0: Cedula, f0: Fecha) -> bool {
    forall|k: int| 0 <= k < s.len() ==> #[trigger] paso_grupo_ok(s, k, corpus, c0, f0)
}

/// Every reference in the body of `s` is to an identifier or a date that
/// an earlier command created, or to the first sampled one, `c0` or `f0`.
pub open spec fn referencias_desde(s: Seq<Token>, c0: Cedula, f0: Fecha) -> bool {
    &&& cedula_valida(c0)
    &&& fecha_valida(f0)
    &&& forall|k: int| 0 <= k < s.len() - 4 ==> #[trigger] referencia_ok(s, k, c0, f0)
}

/// What the group walk produces for `size` steps.
pub open spec fn guion_grupo(s: Seq<Token>, size: nat, corpus: Corpus) -> bool {
    &&& termina_bien(s)
    &&& size + 5 <= s.len() <= 3 * size + 5
    &&& s[0] is CrearGrupo
    &&& forall|k: int| 0 <= k < s.len() ==> token_valido(#[trigger] s[k]) && nombres_de(s[k], corpus)
    &&& forall|k: int|
        0 <= k < s.len() - 4 ==> {
            &&& de_grupo(#[trigger] s[k])
            &&& s[k] is CrearFecha ==> s[k + 1] is CrearPersona && s[k + 2] is AgregarAGrupo
        }
    &&& exists|c0: Cedula, f0: Fecha| #[trigger] referencias_desde(s, c0, f0)
}

/// What was created before `k` stays created when commands are appended.
proof fn lema_creadas(s: Seq<Token>, t: Seq<Token>)
    ensures
        forall|c: Cedula, k: int|
            0 <= k <= s.len() && persona_creada(s, c, k) ==> #[trigger] persona_creada(s + t, c, k),
        forall|f: Fecha, k: int|
            0 <= k <= s.len() && fecha_creada(s, f, k) ==> #[trigger] fecha_creada(s + t, f, k),
{
    assert forall|c: Cedula, k: int|
        0 <= k <= s.len() && persona_creada(s, c, k) implies #[trigger] persona_creada(s + t, c, k) by {
        let j = choose|j: int| 0 <= j < k && #[trigger] s[j] is CrearPersona && s[j]->CrearPersona_0 == c;
        assert((s + t)[j] == s[j]);
    }
    assert forall|f: Fecha, k: int|
        0 <= k <= s.len() && fecha_creada(s, f, k) implies #[trigger] fecha_creada(s + t, f, k) by {
        let j = choose|j: int| 0 <= j < k && #[trigger] s[j] is CrearFecha && s[j]->CrearFecha_0 == f;
        assert((s + t)[j] == s[j]);
    }
}

proof fn lema_extender_grupo(s: Seq<Token>, t: Seq<Token>, corpus: Corpus, c0: Cedula, f0: Fecha)
    requires
        cuerpo_grupo(s, corpus, c0, f0),
        forall|j: int| 0 <= j < t.len() ==> #[trigger] paso_grupo_ok(s + t, s.len() + j, corpus, c0, f0),
    ensures
        cuerpo_grupo(s + t, corpus, c0, f0),
{
    let u = s + t;
    lema_creadas(s, t);
    assert forall|k: int| 0 <= k < u.len() implies #[trigger] paso_grupo_ok(u, k, corpus, c0, f0) by {
        if k < s.len() {
            assert(paso_grupo_ok(s, k, corpus, c0, f0));
            assert(u[k] == s[k]);
            if k + 2 < s.len() {
                assert(u[k + 1] == s[k + 1]);
                assert(u[k + 2] == s[k + 2]);
            }
        } else {
            assert(paso_grupo_ok(u, s.len() + (k - s.len()), corpus, c0, f0));
        }
    }
}

/// The identifiers and dates that the group walk may refer to: each is the
/// first sampled one or was created in `s`, and lies in its range.
pub open spec fn conocidos(s: Seq<Token>, cs: Seq<Cedula>, fs: Seq<Fecha>, c0: Cedula, f0: Fecha) -> bool {
    &&& forall|i: int| 0 <= i < cs.len() ==> cedula_valida(#[trigger] cs[i]) && (cs[i] == c0
        || persona_creada(s, cs[i], s.len() as int))
    &&& forall|i: int| 0 <= i < fs.len() ==> fecha_valida(#[trigger] fs[i]) && (fs[i] == f0
        || fecha_creada(s, fs[i], s.len() as int))
}

/// What is known stays known when commands are appended.
proof fn lema_conocidos(s: Seq<Token>, t: Seq<Token>, cs: Seq<Cedula>, fs: Seq<Fecha>, c0: Cedula, f0: Fecha)
    requires
        conocidos(s, cs, fs, c0, f0),
    ensures
        conocidos(s + t, cs, fs, c0, f0),
{
    let u = s + t;
    assert forall|i: int| 0 <= i < cs.len() implies cedula_valida(#[trigger] cs[i]) && (cs[i] == c0
        || persona_creada(u, cs[i], u.len() as int)) by {
        if cs[i] != c0 {
            let j = choose|j: int| 0 <= j < s.len() && #[trigger] s[j] is CrearPersona && s[j]->CrearPersona_0 == cs[i];
            assert(u[j] == s[j]);
        }
    }
    assert forall|i: int| 0 <= i < fs.len() implies fecha_valida(#[trigger] fs[i]) && (fs[i] == f0
        || fecha_creada(u, fs[i], u.len() as int)) by {
        if fs[i] != f0 {
            let j = choose|j: int| 0 <= j < s.len() && #[trigger] s[j] is CrearFecha && s[j]->CrearFecha_0 == fs[i];
            assert(u[j] == s[j]);
        }
    }
}

/// One step of the group walk, drawn by tenths: four in ten create a date
/// and a person and add it, one prints the group, two ask whether a known
/// identifier is in it, two remove a known identifier, one asks about a
/// known date. The draws that it takes are those after `base` in the
/// source's record.
#[verifier::rlimit(60)]
fn paso_grupo<S: Fuente>(
    src: &mut S,
    corpus: &Corpus,
    v: &mut Vec<Token>,
    cedulas: &mut Vec<Cedula>,
    fechas: &mut Vec<Fecha>,
    c0: Ghost<Cedula>,
    f0: Ghost<Fecha>,
    base: Ghost<int>,
)
    requires
        corpus.wf(),
        0 <= base@ <= old(src).sacadas().len(),
        old(cedulas).len() > 0,
        old(fechas).len() > 0,
        cuerpo_grupo(old(v)@, *corpus, c0@, f0@),
        conocidos(old(v)@, old(cedulas)@, old(fechas)@, c0@, f0@),
    ensures
        old(v)@.len() + 1 <= final(v)@.len() <= old(v)@.len() + 3,
        final(cedulas).len() > 0,
        final(fechas).len() > 0,
        cuerpo_grupo(final(v)@, *corpus, c0@, f0@),
        conocidos(final(v)@, final(cedulas)@, final(fechas)@, c0@, f0@),
        final(src).sacadas().len() >= old(src).sacadas().len(),
        final(src).sacadas().skip(base@).take(old(src).sacadas().len() - base@) == old(src).sacadas().skip(base@),
        ({
            let (t, m, cs, fs) = paso_grupo_de(
                final(src).sacadas().skip(base@),
                old(src).sacadas().len() - base@,
                *corpus,
                old(cedulas)@,
                old(fechas)@,
            );
            &&& final(v)@ == old(v)@ + t
            &&& m == final(src).sacadas().len() - old(src).sacadas().len()
            &&& cs == final(cedulas)@
            &&& fs == final(fechas)@
        }),
{
    let ghost d1 = src.sacadas().skip(base@);
    let d = src.entre(0, 10);
    let ghost s = v@;
    let ghost cs = cedulas@;
    let ghost fs = fechas@;
    if d < 4 {
        let c = sample_cedula(src);
        let f = sample_fecha(src);
        cedulas.push(c);
        fechas.push(f);
        let n = sample_nombre(src, corpus);
        let ghost xn = src.sacadas().last();
        let a = sample_apellido(src, corpus);
        let ghost xa = src.sacadas().last();
        v.push(Token::CrearFecha(f));
        v.push(Token::CrearPersona(c, n, a));
        v.push(Token::AgregarAGrupo);
        proof {
            assert(src.sacadas().skip(base@) =~= d1 + seq![
                d,
                c.0 as usize,
                f.anio as usize,
                f.mes as usize,
                f.dia as usize,
                xn,
                xa,
            ]);
            assert(src.sacadas().skip(base@).take(d1.len() as int) =~= d1);
            let t = v@.skip(s.len() as int);
            assert(v@ =~= s + t);
            lema_creadas(s, t);
            assert(paso_grupo_ok(s + t, s.len() as int + 0, *corpus, c0@, f0@));
            assert(paso_grupo_ok(s + t, s.len() as int + 1, *corpus, c0@, f0@));
            assert(paso_grupo_ok(s + t, s.len() as int + 2, *corpus, c0@, f0@));
            lema_extender_grupo(s, t, *corpus, c0@, f0@);
            assert(v@[s.len() + 1 as int] is CrearPersona);
            assert(persona_creada(v@, c, v@.len() as int));
            assert(v@[s.len() as int] is CrearFecha);
            assert(fecha_creada(v@, f, v@.len() as int));
            lema_conocidos(s, t, cs, fs, c0@, f0@);
            assert forall|i: int| 0 <= i < cedulas@.len() implies cedula_valida(#[trigger] cedulas@[i])
                && (cedulas@[i] == c0@ || persona_creada(v@, cedulas@[i], v@.len() as int)) by {
                if i < cs.len() {
                    assert(cedulas@[i] == cs[i]);
                }
            }
            assert forall|i: int| 0 <= i < fechas@.len() implies fecha_valida(#[trigger] fechas@[i])
                && (fechas@[i] == f0@ || fecha_creada(v@, fechas@[i], v@.len() as int)) by {
                if i < fs.len() {
                    assert(fechas@[i] == fs[i]);
                }
            }
            assert(t =~= seq![
                Token::CrearFecha(f),
                Token::CrearPersona(c, n, a),
                Token::AgregarAGrupo,
            ]);
        }
    } else if d == 4 {
        let tok = Token::ImprimirGrupo;
        let ghost t = seq![tok];
        v.push(tok);
        proof {
            assert(src.sacadas().skip(base@) =~= d1 + seq![d]);
            assert(src.sacadas().skip(base@).take(d1.len() as int) =~= d1);
            assert(v@ =~= s + t);
            lema_creadas(s, t);
            assert(paso_grupo_ok(s + t, s.len() as int + 0, *corpus, c0@, f0@));
            lema_extender_grupo(s, t, *corpus, c0@, f0@);
            lema_conocidos(s, t, cs, fs, c0@, f0@);
        }
    } else {
        let j = if d < 9 {
            src.entre(0, cedulas.len())
        } else {
            src.entre(0, fechas.len())
        };
        let tok = if d < 7 {
            Token::EstaEnGrupo(cedulas[j])
        } else if d < 9 {
            Token::RemoverDeGrupo(cedulas[j])
        } else {
            Token::HayPersonasFecha(fechas[j])
        };
        let ghost t = seq![tok];
        v.push(tok);
        proof {
            assert(src.sacadas().skip(base@) =~= d1 + seq![d, j]);
            assert(src.sacadas().skip(base@).take(d1.len() as int) =~= d1);
            assert(v@ =~= s + t);
            lema_creadas(s, t);
            assert(paso_grupo_ok(s + t, s.len() as int + 0, *corpus, c0@, f0@));
            lema_extender_grupo(s, t, *corpus, c0@, f0@);
            lema_conocidos(s, t, cs, fs, c0@, f0@);
        }
    }
}

/// A script for the group module: a group is created, then each step is
/// drawn by tenths (see `paso_grupo`). The identifiers and dates that later
/// steps refer to are the ones created so far, together with one of each
/// sampled before the walk starts; a removed identifier stays known. The
/// script is the group walk of the draws it took.
pub fn generate_group_test_cases<S: Fuente>(size: usize, corpus: &Corpus, src: &mut S) -> (r: Vec<Token>)
    requires
        corpus.wf(),
    ensures
        guion_grupo(r@, size as nat, *corpus),
        final(src).sacadas().len() >= old(src).sacadas().len(),
        produce_grupo(
            final(src).sacadas().skip(old(src).sacadas().len() as int),
            size as nat,
            *corpus,
            r@,
        ),
{
    let ghost base = src.sacadas().len() as int;
    let mut v: Vec<Token> = Vec::new();
    v.push(Token::CrearGrupo);
    let c = sample_cedula(src);
    let f = sample_fecha(src);
    let ghost c0 = c;
    let ghost f0 = f;
    let mut cedulas: Vec<Cedula> = Vec::new();
    cedulas.push(c);
    let mut fechas: Vec<Fecha> = Vec::new();
    fechas.push(f);
    assert(src.sacadas().skip(base) =~= seq![
        c.0 as usize,
        f.anio as usize,
        f.mes as usize,
        f.dia as usize,
    ]);
    assert(cedulas@ =~= seq![Cedula(src.sacadas().skip(base)[0] as u32)]);
    assert(fechas@ =~= seq![fecha_en(src.sacadas().skip(base), 1)]);
    assert(paso_grupo_ok(v@, 0, *corpus, c0, f0));
    let mut i: usize = 0;
    while i < size
        invariant
            corpus.wf(),
            0 <= base <= src.sacadas().len(),
            i <= size,
            i + 1 <= v.len() <= 3 * i + 1,
            v@[0] is CrearGrupo,
            cedulas.len() > 0,
            fechas.len() > 0,
            cedula_valida(c0),
            fecha_valida(f0),
            cuerpo_grupo(v@, *corpus, c0, f0),
            conocidos(v@, cedulas@, fechas@, c0, f0),
            recorrido_grupo(src.sacadas().skip(base), i as nat, *corpus) == (
                v@,
                src.sacadas().skip(base).len() as int,
                cedulas@,
                fechas@,
            ),
        decreases size - i,
    {
        let ghost d1 = src.sacadas().skip(base);
        let ghost antes = v@;
        paso_grupo(
            src,
            corpus,
            &mut v,
            &mut cedulas,
            &mut fechas,
            Ghost(c0),
            Ghost(f0),
            Ghost(base),
        );
        proof {
            lema_prefijo_grupo(d1, src.sacadas().skip(base), i as nat, *corpus);
        }
        assert(v@[0] == antes[0]);
        i = i + 1;
    }
    let ghost cuerpo = v@;
    cerrar(&mut v);
    proof {
        lema_creadas(cuerpo, trailer());
    }
    assert(v@.skip(v@.len() - 4) =~= trailer());
    assert forall|k: int| 0 <= k < v@.len() implies {
        &&& token_valido(#[trigger] v@[k])
        &&& nombres_de(v@[k], *corpus)
        &&& k < v@.len() - 1 ==> !(v@[k] is Fin)
        &&& k < v@.len() - 4 ==> de_grupo(v@[k]) && (v@[k] is CrearFecha ==> v@[k + 1] is CrearPersona && v@[k + 2] is AgregarAGrupo)
        &&& k < v@.len() - 4 ==> referencia_ok(v@, k, c0, f0)
    } by {
        if k < cuerpo.len() {
            assert(paso_grupo_ok(cuerpo, k, *corpus, c0, f0));
            assert(v@[k] == cuerpo[k]);
            if k + 2 < cuerpo.len() {
                assert(v@[k + 1] == cuerpo[k + 1]);
                assert(v@[k + 2] == cuerpo[k + 2]);
            }
        } else {
            assert(v@[k] == trailer()[k - cuerpo.len()]);
        }
    }
    assert(referencias_desde(v@, c0, f0));
    v
}

/// The module that a script exercises.
#[derive(Debug, Clone, Copy, PartialEq, Eq, Structural)]
pub enum TestCase {
    Fecha,
    Persona,
    Grupo,
}

impl TestCase {
    /// A script of `size` steps for this module.
    pub fn to_tokens<S: Fuente>(&self, size: usize, corpus: &Corpus, src: &mut S) -> (r: Vec<Token>)
        requires
            corpus.wf(),
        ensures
            termina_bien(r@),
            *self == TestCase::Fecha ==> guion_fecha(r@, size as nat),
            *self == TestCase::Persona ==> guion_persona(r@, size as nat, *corpus),
            *self == TestCase::Grupo ==> guion_grupo(r@, size as nat, *corpus),
            final(src).sacadas().len() >= old(src).sacadas().len(),
            *self == TestCase::Fecha ==> produce_fecha(
                final(src).sacadas().skip(old(src).sacadas().len() as int),
                size as nat,
                r@,
            ),
            *self == TestCase::Persona ==> produce_persona(
                final(src).sacadas().skip(old(src).sacadas().len() as int),
                size as nat,
                *corpus,
                r@,
            ),
            *self == TestCase::Grupo ==> produce_grupo(
                final(src).sacadas().skip(old(src).sacadas().len() as int),
                size as nat,
                *corpus,
                r@,
            ),
    {
        match self {
            TestCase::Fecha => generate_date_test_cases(size, src),
            TestCase::Grupo => generate_group_test_cases(size, corpus, src),
            TestCase::Persona => generate_person_test_cases(size, corpus, src),
        }
    }
}

/// A date script of no steps is the created date followed by the trailer:
/// five commands.
pub proof fn fecha_sin_pasos(s: Seq<Token>)
    requires
        guion_fecha(s, 0),
    ensures
        s.len() == 5,
        s[0] is CrearFecha,
        s.skip(1) == trailer(),
{
    assert(s.skip(1) =~= s.skip(s.len() - 4));
}

} // verus!
