use guion::azar::{Cinta, Sistema};
use guion::fecha::{dias_mes, is_leap_year, Fecha};
use guion::generar::{
    generate_date_test_cases, generate_group_test_cases, generate_person_test_cases, TestCase,
};
use guion::token::{render, Token};
use guion::valores::{sample_cedula, sample_fecha, Apellido, Cedula, Corpus, Nombre};

fn corpus() -> Corpus {
    let nombres: Vec<String> = (0..2000).map(|i| format!("Nombre{}", i)).collect();
    let apellidos: Vec<String> = (0..1000).map(|i| format!("Apellido{}", i)).collect();
    Corpus::new(nombres, apellidos).unwrap()
}

fn fecha_ok(f: &Fecha) -> bool {
    (1999..=2009).contains(&f.anio)
        && (1..=12).contains(&f.mes)
        && f.dia >= 1
        && f.dia <= dias_mes(f.mes, f.anio)
}

fn cedula_ok(c: &Cedula) -> bool {
    (100..150).contains(&c.0)
}

fn valores_ok(t: &Token) -> bool {
    match t {
        Token::CrearFecha(f) | Token::HayPersonasFecha(f) => fecha_ok(f),
        Token::CompararFechas(a, b) => fecha_ok(a) && fecha_ok(b),
        Token::AumentarDias(x) => *x < 300,
        Token::CrearPersona(c, _, _) | Token::EstaEnGrupo(c) | Token::RemoverDeGrupo(c) => {
            cedula_ok(c)
        }
        Token::EsMasJovenPersona(f, c, _, _) => fecha_ok(f) && cedula_ok(c),
        _ => true,
    }
}

fn trailer_ok(v: &[Token]) -> bool {
    let n = v.len();
    n >= 4
        && matches!(v[n - 4], Token::LiberarFecha)
        && matches!(v[n - 3], Token::LiberarPersona)
        && matches!(v[n - 2], Token::LiberarGrupo)
        && matches!(v[n - 1], Token::Fin)
        && v[..n - 1].iter().all(|t| !matches!(t, Token::Fin))
}

#[test]
fn leap_years_follow_the_gregorian_rule() {
    assert!(is_leap_year(2000));
    assert!(is_leap_year(2004));
    assert!(!is_leap_year(1900));
    assert!(!is_leap_year(2003));
}

#[test]
fn month_lengths() {
    assert_eq!(dias_mes(2, 2004), 29);
    assert_eq!(dias_mes(2, 2000), 29);
    assert_eq!(dias_mes(2, 2003), 28);
    assert_eq!(dias_mes(2, 2100), 28);
    assert_eq!(dias_mes(4, 2003), 30);
    assert_eq!(dias_mes(6, 2003), 30);
    assert_eq!(dias_mes(9, 2003), 30);
    assert_eq!(dias_mes(11, 2003), 30);
    assert_eq!(dias_mes(1, 2003), 31);
    assert_eq!(dias_mes(12, 2003), 31);
}

#[test]
fn create_date_line() {
    let t = Token::CrearFecha(Fecha { anio: 2003, mes: 3, dia: 5 });
    assert_eq!(t.to_string(), "crearFecha 5/3/2003\n");
}

#[test]
fn end_line() {
    assert_eq!(Token::Fin.to_string(), "Fin\n");
}

#[test]
fn lines_with_payload() {
    let f = Fecha { anio: 1999, mes: 12, dia: 31 };
    let g = Fecha { anio: 2008, mes: 2, dia: 29 };
    let n = Nombre("Ana".to_string());
    let a = Apellido("Perez".to_string());
    assert_eq!(Token::AumentarDias(0).to_string(), "aumentarDias 0\n");
    assert_eq!(Token::AumentarDias(299).to_string(), "aumentarDias 299\n");
    assert_eq!(
        Token::CompararFechas(f, g).to_string(),
        "compararFechas 31/12/1999 29/2/2008\n"
    );
    assert_eq!(
        Token::CrearPersona(Cedula(120), n.clone(), a.clone()).to_string(),
        "crearPersona 120 Ana Perez\n"
    );
    assert_eq!(
        Token::EsMasJovenPersona(g, Cedula(149), n, a).to_string(),
        "esMasJovenPersona 29/2/2008 149 Ana Perez\n"
    );
    assert_eq!(Token::EstaEnGrupo(Cedula(100)).to_string(), "estaEnGrupo 100\n");
    assert_eq!(Token::RemoverDeGrupo(Cedula(101)).to_string(), "removerDeGrupo 101\n");
    assert_eq!(Token::HayPersonasFecha(f).to_string(), "hayPersonasFecha 31/12/1999\n");
}

#[test]
fn lines_without_payload() {
    let casos = [
        (Token::ImprimirFecha, "imprimirFecha\n"),
        (Token::LiberarFecha, "liberarFecha\n"),
        (Token::ImprimirCIPersona, "imprimirCiPersona\n"),
        (Token::ImprimirFechaPersona, "imprimirFechaPersona\n"),
        (Token::ImprimirNombreYApellidoPersona, "imprimirNombreYApellidoPersona\n"),
        (Token::ImprimirPersona, "imprimirPersona\n"),
        (Token::LiberarPersona, "liberarPersona\n"),
        (Token::CrearGrupo, "crearGrupo\n"),
        (Token::AgregarAGrupo, "agregarAGrupo\n"),
        (Token::ImprimirGrupo, "imprimirGrupo\n"),
        (Token::LiberarGrupo, "liberarGrupo\n"),
    ];
    for (t, s) in casos.iter() {
        assert_eq!(t.to_string(), *s);
    }
}

#[test]
fn render_concatenates_lines() {
    let v = vec![Token::CrearGrupo, Token::EstaEnGrupo(Cedula(130)), Token::Fin];
    assert_eq!(render(&v), "crearGrupo\nestaEnGrupo 130\nFin\n");
    assert_eq!(render(&Vec::new()), "");
}

#[test]
fn corpus_sizes_are_checked() {
    let n: Vec<String> = (0..2000).map(|i| i.to_string()).collect();
    let a: Vec<String> = (0..1000).map(|i| i.to_string()).collect();
    let corto: Vec<String> = (0..999).map(|i| i.to_string()).collect();
    assert!(Corpus::new(n.clone(), corto).is_none());
    assert!(Corpus::new(a.clone(), a.clone()).is_none());
    assert!(Corpus::new(Vec::new(), Vec::new()).is_none());
    assert!(Corpus::new(n, a).is_some());
}

#[test]
fn sampled_dates_are_valid_and_vary() {
    let mut rng = Sistema::new();
    let mut anios = std::collections::BTreeSet::new();
    let mut dias = std::collections::BTreeSet::new();
    for _ in 0..2000 {
        let f = sample_fecha(&mut rng);
        assert!(fecha_ok(&f));
        anios.insert(f.anio);
        dias.insert(f.dia);
    }
    assert!(anios.len() > 1);
    assert!(dias.len() > 1);
}

#[test]
fn sampled_identifiers_are_in_range_and_vary() {
    let mut rng = Sistema::new();
    let mut vistos = std::collections::BTreeSet::new();
    for _ in 0..1000 {
        let c = sample_cedula(&mut rng);
        assert!(cedula_ok(&c));
        vistos.insert(c.0);
    }
    assert!(vistos.len() > 1);
}

#[test]
fn date_script_without_steps() {
    let v = generate_date_test_cases(0, &mut Sistema::new());
    assert_eq!(v.len(), 5);
    assert!(matches!(v[0], Token::CrearFecha(_)));
    assert!(trailer_ok(&v));
    assert_eq!(render(&v).lines().count(), 5);
    assert!(render(&v).ends_with("liberarFecha\nliberarPersona\nliberarGrupo\nFin\n"));
}

#[test]
fn every_script_ends_with_the_trailer() {
    let c = corpus();
    for size in 0..30 {
        for caso in [TestCase::Fecha, TestCase::Persona, TestCase::Grupo] {
            let v = caso.to_tokens(size, &c, &mut Sistema::new());
            assert!(trailer_ok(&v));
            assert!(v.iter().all(valores_ok));
        }
    }
}

#[test]
fn date_script_shape() {
    for size in [1usize, 5, 40] {
        let v = generate_date_test_cases(size, &mut Sistema::new());
        assert!(v.len() >= size + 5 && v.len() <= 2 * size + 5);
        let cuerpo = &v[..v.len() - 4];
        for (k, t) in cuerpo.iter().enumerate() {
            match t {
                Token::AumentarDias(_) => assert!(matches!(cuerpo[k + 1], Token::ImprimirFecha)),
                Token::LiberarFecha => assert!(matches!(cuerpo[k + 1], Token::CrearFecha(_))),
                Token::CrearFecha(_) | Token::ImprimirFecha | Token::CompararFechas(_, _) => {}
                _ => panic!("unexpected command in a date script"),
            }
        }
    }
}

#[test]
fn person_script_never_prints_twice_in_a_row() {
    let c = corpus();
    for _ in 0..50 {
        let v = generate_person_test_cases(60, &c, &mut Sistema::new());
        assert!(v.len() >= 66 && v.len() <= 186);
        assert!(matches!(v[0], Token::CrearFecha(_)));
        assert!(matches!(v[1], Token::CrearPersona(_, _, _)));
        for w in v.windows(2) {
            assert!(!(matches!(w[0], Token::ImprimirPersona)
                && matches!(w[1], Token::ImprimirPersona)));
        }
    }
}

#[test]
fn person_names_come_from_the_lists() {
    let c = corpus();
    let v = generate_person_test_cases(40, &c, &mut Sistema::new());
    for t in v.iter() {
        if let Token::CrearPersona(_, n, a) | Token::EsMasJovenPersona(_, _, n, a) = t {
            assert!(n.0.starts_with("Nombre"));
            assert!(a.0.starts_with("Apellido"));
        }
    }
}

#[test]
fn group_references_are_known() {
    let c = corpus();
    for _ in 0..50 {
        let v = generate_group_test_cases(60, &c, &mut Sistema::new());
        assert!(matches!(v[0], Token::CrearGrupo));
        let cuerpo = &v[..v.len() - 4];
        let mut ids_sueltos = std::collections::BTreeSet::new();
        let mut fechas_sueltas = std::collections::BTreeSet::new();
        for (k, t) in cuerpo.iter().enumerate() {
            match t {
                Token::CrearFecha(_) => {
                    assert!(matches!(cuerpo[k + 1], Token::CrearPersona(_, _, _)));
                    assert!(matches!(cuerpo[k + 2], Token::AgregarAGrupo));
                }
                Token::EstaEnGrupo(x) | Token::RemoverDeGrupo(x) => {
                    let creado = cuerpo[..k]
                        .iter()
                        .any(|p| matches!(p, Token::CrearPersona(y, _, _) if y == x));
                    if !creado {
                        ids_sueltos.insert(x.0);
                    }
                }
                Token::HayPersonasFecha(f) => {
                    let creada = cuerpo[..k]
                        .iter()
                        .any(|p| matches!(p, Token::CrearFecha(g) if g == f));
                    if !creada {
                        fechas_sueltas.insert((f.anio, f.mes, f.dia));
                    }
                }
                _ => {}
            }
        }
        assert!(ids_sueltos.len() <= 1);
        assert!(fechas_sueltas.len() <= 1);
    }
}

#[test]
fn tape_draws_are_reduced_into_the_range() {
    let mut t = Cinta::new(vec![4, 25, 0]);
    assert_eq!(t.sacar(1999, 2010), 2003);
    assert_eq!(t.sacar(1, 13), 2);
    assert_eq!(t.sacar(100, 150), 100);
    assert_eq!(t.sacar(0, 3), 1);
    let mut vacia = Cinta::new(Vec::new());
    assert_eq!(vacia.sacar(7, 9), 7);
}

#[test]
fn date_script_from_a_fixed_tape() {
    // year 1999 + 4, month 1 + 2, day 1 + 4
    let mut t = Cinta::new(vec![4, 2, 4]);
    let v = generate_date_test_cases(0, &mut t);
    assert_eq!(
        render(&v),
        "crearFecha 5/3/2003\nliberarFecha\nliberarPersona\nliberarGrupo\nFin\n"
    );
}

#[test]
fn date_steps_from_a_fixed_tape() {
    // seed 5/3/2003; step 0: advance by 17 and print; step 1: compare;
    // step 2: free and create
    let tape = vec![
        4, 2, 4, // seed
        0, 17, // advance 17
        1, 0, 0, 0, 10, 11, 27, // compare 1/1/1999 with 28/12/2009
        2, 1, 1, 28, // free, create 29/2/2000
    ];
    let v = generate_date_test_cases(3, &mut Cinta::new(tape));
    assert_eq!(
        render(&v),
        "crearFecha 5/3/2003\naumentarDias 17\nimprimirFecha\ncompararFechas 1/1/1999 28/12/2009\nliberarFecha\ncrearFecha 29/2/2000\nliberarFecha\nliberarPersona\nliberarGrupo\nFin\n"
    );
}

#[test]
fn person_script_from_a_fixed_tape() {
    let c = corpus();
    // seed: 1/1/1999, id 100, name 0, surname 1; step: print; step: the
    // print branch is closed, so 0 reads as the age question (1 + 0 % 2)
    let tape = vec![0, 0, 0, 0, 0, 1, 0, 0, 0, 0, 0, 7, 3, 4];
    let v = generate_person_test_cases(2, &c, &mut Cinta::new(tape));
    assert_eq!(
        render(&v),
        "crearFecha 1/1/1999\ncrearPersona 100 Nombre0 Apellido1\nimprimirPersona\nesMasJovenPersona 1/1/1999 107 Nombre3 Apellido4\nliberarFecha\nliberarPersona\nliberarGrupo\nFin\n"
    );
}

#[test]
fn group_script_from_a_fixed_tape() {
    let c = corpus();
    // seed: id 120, date 1/1/1999; then create (id 130, date 2/2/2000,
    // name 5, surname 6), print, remove the known id at 1, ask about the
    // known date at 0
    let tape = vec![
        20, 0, 0, 0, // seed
        0, 30, 1, 1, 1, 5, 6, // create
        4, // print
        7, 1, // remove
        9, 0, // date question
    ];
    let v = generate_group_test_cases(4, &c, &mut Cinta::new(tape));
    assert_eq!(
        render(&v),
        "crearGrupo\ncrearFecha 2/2/2000\ncrearPersona 130 Nombre5 Apellido6\nagregarAGrupo\nimprimirGrupo\nremoverDeGrupo 130\nhayPersonasFecha 1/1/1999\nliberarFecha\nliberarPersona\nliberarGrupo\nFin\n"
    );
}

#[test]
fn same_tape_same_script() {
    let c = corpus();
    let tape: Vec<usize> = (0..500).map(|i| (i * 7919 + 13) % 1009).collect();
    for caso in [TestCase::Fecha, TestCase::Persona, TestCase::Grupo] {
        let a = caso.to_tokens(25, &c, &mut Cinta::new(tape.clone()));
        let b = caso.to_tokens(25, &c, &mut Cinta::new(tape.clone()));
        assert_eq!(render(&a), render(&b));
        assert!(trailer_ok(&a));
    }
}
