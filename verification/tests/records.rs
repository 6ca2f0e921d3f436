use sgo_email::chunks::{date_to_str, keep_ok, maybe_str, soe_from_rows, Ocorrencia, OcorrenciaSoe};
use sgo_email::datetime::DateTime;

fn dt(y: i32, mo: u32, d: u32, h: u32, mi: u32, s: u32, ns: u32) -> DateTime {
    DateTime::new(y, mo, d, h, mi, s, ns).unwrap()
}

fn ocorrencia(inicio: DateTime, fim: DateTime) -> Ocorrencia {
    Ocorrencia::new(
        7,
        "SE01".to_string(),
        "AL02".to_string(),
        "DJ-52".to_string(),
        inicio,
        fim,
        "Desligamento".to_string(),
    )
}

#[test]
fn datetime_accepts_valid_days_only() {
    assert!(DateTime::new(2024, 2, 29, 0, 0, 0, 0).is_some());
    assert!(DateTime::new(2023, 2, 29, 0, 0, 0, 0).is_none());
    assert!(DateTime::new(1900, 2, 29, 0, 0, 0, 0).is_none());
    assert!(DateTime::new(2000, 2, 29, 0, 0, 0, 0).is_some());
    assert!(DateTime::new(2024, 4, 31, 0, 0, 0, 0).is_none());
    assert!(DateTime::new(2024, 13, 1, 0, 0, 0, 0).is_none());
    assert!(DateTime::new(2024, 0, 1, 0, 0, 0, 0).is_none());
    assert!(DateTime::new(2024, 1, 0, 0, 0, 0, 0).is_none());
    assert!(DateTime::new(2024, 1, 1, 24, 0, 0, 0).is_none());
    assert!(DateTime::new(2024, 1, 1, 0, 60, 0, 0).is_none());
    assert!(DateTime::new(2024, 1, 1, 0, 0, 60, 0).is_none());
    assert!(DateTime::new(2024, 1, 1, 0, 0, 59, 1_000_000_000).is_none());
    assert!(DateTime::new(262142, 12, 31, 23, 59, 59, 999_999_999).is_some());
    assert!(DateTime::new(262143, 1, 1, 0, 0, 0, 0).is_none());
    assert!(DateTime::new(-262143, 1, 1, 0, 0, 0, 0).is_some());
    assert!(DateTime::new(-262144, 12, 31, 0, 0, 0, 0).is_none());
    let d = dt(2024, 3, 5, 7, 8, 9, 10);
    assert_eq!((d.year(), d.month(), d.day()), (2024, 3, 5));
    assert_eq!((d.hour(), d.minute(), d.second(), d.nanosecond()), (7, 8, 9, 10));
}

#[test]
fn duration_within_a_day() {
    let o = ocorrencia(dt(2024, 3, 10, 8, 15, 0, 0), dt(2024, 3, 10, 9, 45, 30, 0));
    assert_eq!(o.calculate_duration(), "01:30:30ms");
}

#[test]
fn duration_of_zero() {
    let o = ocorrencia(dt(2024, 3, 10, 8, 15, 0, 0), dt(2024, 3, 10, 8, 15, 0, 0));
    assert_eq!(o.calculate_duration(), "00:00:00ms");
}

#[test]
fn duration_wraps_around_days() {
    let o = ocorrencia(dt(2024, 2, 28, 23, 0, 0, 0), dt(2024, 3, 1, 1, 30, 0, 250_000_000));
    assert_eq!(o.calculate_duration(), "02:30:00.250ms");
    let o = ocorrencia(dt(2023, 12, 31, 12, 0, 0, 0), dt(2024, 1, 1, 12, 0, 0, 0));
    assert_eq!(o.calculate_duration(), "00:00:00ms");
}

#[test]
fn duration_of_negative_span() {
    let o = ocorrencia(dt(2024, 3, 10, 10, 0, 0, 0), dt(2024, 3, 10, 9, 0, 0, 0));
    assert_eq!(o.calculate_duration(), "23:00:00ms");
    let o = ocorrencia(dt(2024, 3, 10, 10, 0, 0, 500), dt(2024, 3, 10, 10, 0, 0, 0));
    assert_eq!(o.calculate_duration(), "23:59:59.999999500ms");
}

#[test]
fn duration_fraction_digits() {
    let o = ocorrencia(dt(2024, 3, 10, 0, 0, 0, 0), dt(2024, 3, 10, 0, 0, 1, 1_500));
    assert_eq!(o.calculate_duration(), "00:00:01.000001500ms");
    let o = ocorrencia(dt(2024, 3, 10, 0, 0, 0, 0), dt(2024, 3, 10, 0, 0, 1, 1_000));
    assert_eq!(o.calculate_duration(), "00:00:01.000001ms");
    let o = ocorrencia(dt(2024, 3, 10, 0, 0, 0, 0), dt(2024, 3, 10, 0, 0, 1, 30_000_000));
    assert_eq!(o.calculate_duration(), "00:00:01.030ms");
}

#[test]
fn duration_across_centuries() {
    let o = ocorrencia(dt(-5000, 1, 1, 0, 0, 0, 0), dt(262142, 12, 31, 23, 59, 59, 999_999_999));
    assert_eq!(o.calculate_duration(), "23:59:59.999999999ms");
}

#[test]
fn title_and_fields() {
    let o = ocorrencia(dt(2024, 3, 10, 8, 15, 0, 0), dt(2024, 3, 10, 9, 45, 30, 0));
    assert_eq!(o.make_title(), "Desligamento:SE01 AL02 DJ-52");
    assert_eq!(o.id(), 7);
    assert_eq!(o.eqp(), ("SE01", "AL02", "DJ-52"));
    assert_eq!(o.tipo(), "Desligamento");
    assert_eq!(o.inicio().hour(), 8);
    assert_eq!(o.fim().minute(), 45);
}

#[test]
fn date_text_pattern() {
    assert_eq!(date_to_str(&dt(2024, 3, 5, 7, 8, 9, 0)), "07:08:09  05-03-2024");
    assert_eq!(date_to_str(&dt(2024, 12, 25, 23, 59, 1, 999)), "23:59:01  25-12-2024");
    assert_eq!(date_to_str(&dt(5, 1, 2, 0, 0, 0, 0)), "00:00:00  02-01-0005");
    assert_eq!(date_to_str(&dt(0, 1, 2, 0, 0, 0, 0)), "00:00:00  02-01-0000");
    assert_eq!(date_to_str(&dt(-44, 3, 15, 12, 0, 0, 0)), "12:00:00  15-03--0044");
    assert_eq!(date_to_str(&dt(12345, 6, 7, 1, 2, 3, 0)), "01:02:03  07-06-+12345");
}

#[test]
fn optional_text() {
    assert_eq!(maybe_str(&Some("agente".to_string())), "agente");
    assert_eq!(maybe_str(&None), "");
}

#[test]
fn rows_with_errors_are_skipped() {
    assert_eq!(keep_ok(vec![Some(1), None, Some(3), None]), vec![1, 3]);
    assert_eq!(keep_ok::<i32>(vec![None, None]), Vec::<i32>::new());
    assert_eq!(keep_ok(keep_ok(vec![Some(Some("A")), Some(None), None, Some(Some("B"))])), vec!["A", "B"]);
}

#[test]
fn events_from_rows() {
    let rows = vec![
        Some((dt(2024, 1, 1, 0, 0, 0, 0), dt(2024, 1, 1, 0, 0, 1, 0), Some("abriu".to_string()), None)),
        None,
        Some((dt(2024, 1, 2, 0, 0, 0, 0), dt(2024, 1, 2, 0, 0, 1, 0), None, Some("op".to_string()))),
    ];
    let soes: Vec<OcorrenciaSoe> = soe_from_rows(rows);
    assert_eq!(soes.len(), 2);
    assert_eq!(soes[0].mensagem(), &Some("abriu".to_string()));
    assert_eq!(soes[0].agente(), &None);
    assert_eq!(soes[1].inicio().day(), 2);
    assert_eq!(soes[1].fim().second(), 1);
    assert_eq!(soes[1].agente(), &Some("op".to_string()));
}
