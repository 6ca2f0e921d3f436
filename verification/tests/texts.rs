use sgo_email::report::{
    emails_log_line, error_log_line, failure_message, log_file_name, no_occurrences_message,
    oracle_fallback_message, success_message,
};
use sgo_email::text::{decimal_text, ids_debug_text, int_text};

#[test]
fn decimal_texts() {
    assert_eq!(decimal_text(0), "0");
    assert_eq!(decimal_text(907), "907");
    assert_eq!(decimal_text(u64::MAX), u64::MAX.to_string());
    assert_eq!(int_text(-42), "-42");
    assert_eq!(int_text(i64::MIN), i64::MIN.to_string());
    assert_eq!(int_text(0), "0");
}

#[test]
fn ids_as_debug_list() {
    assert_eq!(ids_debug_text(&vec![3, -7, 12]), "[3, -7, 12]");
    assert_eq!(ids_debug_text(&vec![3, -7, 12]), format!("{:?}", vec![3, -7, 12]));
    assert_eq!(ids_debug_text(&Vec::new()), "[]");
    assert_eq!(ids_debug_text(&vec![i32::MIN]), format!("{:?}", vec![i32::MIN]));
}

#[test]
fn printed_messages() {
    assert_eq!(success_message("CERIM"), "Tabela CERIM acessada com sucesso");
    assert_eq!(failure_message("CERIM"), "Falha na tabela CERIM");
    assert_eq!(no_occurrences_message("CERIM"), "Nenhum resultado da tabela SGO_CERIM");
    assert_eq!(
        oracle_fallback_message("CERIM"),
        "não foi encontrado nenhu valor de soe na tabela da empresa CERIM, procurando na ORACLE"
    );
}

#[test]
fn log_lines() {
    assert_eq!(
        error_log_line("2024-03-10 08:00:00 UTC", "CERIM", "Missing field email_addrs"),
        "2024-03-10 08:00:00 UTC at CERIM: Missing field email_addrs\n"
    );
    assert_eq!(
        emails_log_line("2024-03-10 08:00:00 UTC", "CERIM", &vec![1, 2]),
        "2024-03-10 08:00:00 UTC: CERIM enviou emails com ids: [1, 2]\n"
    );
}

#[test]
fn log_file_names() {
    assert_eq!(log_file_name(2024, 3, "err"), "2024-3_err.txt");
    assert_eq!(log_file_name(2023, 12, "log"), "2023-12_log.txt");
}
