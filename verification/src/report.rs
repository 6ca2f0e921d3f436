//! The lines the mailer prints and appends to its log files.
use vstd::prelude::*;
use crate::text::{decimal, decimal_text, int_text, ids_debug_text, debug_list, signed_decimal};

verus! {

/// Printed when a company's table was processed without error.
pub fn success_message(empresa: &str) -> (res: String)
    ensures
        res@ == "Tabela "@ + empresa@ + " acessada com sucesso"@,
{
    let mut s = "Tabela ".to_string();
    s.append(empresa);
    s.append(" acessada com sucesso");
    s
}

/// Printed when a company's table failed.
pub fn failure_message(empresa: &str) -> (res: String)
    ensures
        res@ == "Falha na tabela "@ + empresa@,
{
    let mut s = "Falha na tabela ".to_string();
    s.append(empresa);
    s
}

/// Printed when a company's table has no pending occurrence.
pub fn no_occurrences_message(empresa: &str) -> (res: String)
    ensures
        res@ == "Nenhum resultado da tabela SGO_"@ + empresa@,
{
    let mut s = "Nenhum resultado da tabela SGO_".to_string();
    s.append(empresa);
    s
}

/// Printed when an occurrence has no events in MariaDB and Oracle is asked.
pub fn oracle_fallback_message(empresa: &str) -> (res: String)
    ensures
        res@ == "não foi encontrado nenhu valor de soe na tabela da empresa "@ + empresa@
            + ", procurando na ORACLE"@,
{
    let mut s = "não foi encontrado nenhu valor de soe na tabela da empresa ".to_string();
    s.append(empresa);
    s.append(", procurando na ORACLE");
    s
}

/// The line of the error log: `<now> at <empresa>: <description>` and a newline.
pub fn error_log_line(now: &str, empresa: &str, description: &str) -> (res: String)
    ensures
        res@ == now@ + " at "@ + empresa@ + ": "@ + description@ + "\n"@,
{
    let mut s = now.to_string();
    s.append(" at ");
    s.append(empresa);
    s.append(": ");
    s.append(description);
    s.append("\n");
    s
}

/// The line of the e-mail log: `<now>: <empresa> enviou emails com ids: [..]`
/// and a newline, the ids as `Debug` writes a list.
pub fn emails_log_line(now: &str, empresa: &str, ids: &Vec<i32>) -> (res: String)
    ensures
        res@ == now@ + ": "@ + empresa@ + " enviou emails com ids: "@ + debug_list(ids@) + "\n"@,
{
    let mut s = now.to_string();
    s.append(": ");
    s.append(empresa);
    s.append(" enviou emails com ids: ");
    s.append(ids_debug_text(ids).as_str());
    s.append("\n");
    s
}

/// The name of a monthly log file: `<year>-<month>_<kind>.txt`.
pub fn log_file_name(year: i32, month: u32, kind: &str) -> (res: String)
    ensures
        res@ == signed_decimal(year as int) + "-"@ + decimal(month as nat) + "_"@ + kind@ + ".txt"@,
{
    let mut s = int_text(year as i64);
    s.append("-");
    s.append(decimal_text(month as u64).as_str());
    s.append("_");
    s.append(kind);
    s.append(".txt");
    s
}

} // verus!
