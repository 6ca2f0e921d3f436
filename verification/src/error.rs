use vstd::prelude::*;
use vstd::std_specs::convert::FromSpecImpl;

verus! {

/// `lettre::error::Error`: a message that could not be assembled.
#[verifier::external_type_specification]
#[verifier::external_body]
pub struct ExLettreError(lettre::error::Error);

/// `lettre::transport::smtp::Error`: a failure of the SMTP transport.
#[verifier::external_type_specification]
#[verifier::external_body]
pub struct ExSmtpError(lettre::transport::smtp::Error);

/// `lettre::address::AddressError`: a text that is no valid address.
#[verifier::external_type_specification]
#[verifier::external_body]
pub struct ExAddressError(lettre::address::AddressError);

/// `tera::Error`: a template that could not be rendered.
#[verifier::external_type_specification]
#[verifier::external_body]
pub struct ExTeraError(tera::Error);

/// `oracle::Error`: a failure of the Oracle client.
#[verifier::external_type_specification]
#[verifier::external_body]
pub struct ExOracleError(oracle::Error);

/// `std::io::Error` (re-exported by tokio as `tokio::io::Error`).
#[verifier::external_type_specification]
#[verifier::external_body]
pub struct ExIoError(std::io::Error);

/// `tokio::task::JoinError`: a task that panicked or was cancelled.
#[verifier::external_type_specification]
#[verifier::external_body]
pub struct ExJoinError(tokio::task::JoinError);

/// `sqlx::Error`: a failure of the MySQL driver.
#[verifier::external_type_specification]
#[verifier::external_body]
pub struct ExSqlxError(sqlx::Error);

/// A required value (a configuration key, a recipient address) was absent.
#[derive(Debug)]
pub struct MissignFieldError(pub String);

impl MissignFieldError {
    pub fn new(w: &str) -> (res: Self)
        ensures
            res.0@ == w@,
    {
        MissignFieldError(w.to_string())
    }

    /// The message of this error: `Missing field <name>`.
    pub fn describe(&self) -> (res: String)
        ensures
            res@ == missing_field_text(self.0@),
    {
        let mut s = "Missing field ".to_string();
        s.append(self.0.as_str());
        s
    }
}

pub open spec fn missing_field_text(name: Seq<char>) -> Seq<char> {
    "Missing field "@ + name
}

/// Everything that can stop the processing of one company's table.
#[derive(Debug)]
pub enum TableProcessError {
    MissingData(MissignFieldError),
    EmailFormError(lettre::error::Error),
    EmailSendError(lettre::transport::smtp::Error),
    EmailParseError(lettre::address::AddressError),
    TemplatingError(tera::Error),
    OracleDbError(oracle::Error),
    TokioIoError(std::io::Error),
    TokioJoinError(tokio::task::JoinError),
    SqlxError(sqlx::Error),
}

/// The fixed text that the message of an error starts with; the message of
/// `MissingData` is given whole by `missing_field_text`.
pub open spec fn error_prefix(e: &TableProcessError) -> Seq<char> {
    match e {
        TableProcessError::MissingData(_) => Seq::empty(),
        TableProcessError::EmailFormError(_) => "Email form is configured incorrectly:\n\t"@,
        TableProcessError::EmailSendError(_) => "Failed to send email:\n\t"@,
        TableProcessError::EmailParseError(_) => "Email Adress is malformed:\n\t"@,
        TableProcessError::TemplatingError(_) => "Falha no processamento do template:\n\t"@,
        TableProcessError::OracleDbError(_) => "Falha na Oracle Db:\n\t"@,
        TableProcessError::TokioIoError(_) => "Falha na escrita dos arquvios:\n\t"@,
        TableProcessError::TokioJoinError(_) => "Na junção das tasks:\n\t"@,
        TableProcessError::SqlxError(_) => "Falha em Sqlx:\n\t"@,
    }
}

pub open spec fn starts_with(s: Seq<char>, p: Seq<char>) -> bool {
    p.len() <= s.len() && s.subrange(0, p.len() as int) == p
}

/// `Display` of `lettre::error::Error`; nothing is stated of the text.
#[verifier::external_body]
fn lettre_error_text(e: &lettre::error::Error) -> String {
    e.to_string()
}

/// `Display` of `lettre::transport::smtp::Error`; nothing is stated of the text.
#[verifier::external_body]
fn smtp_error_text(e: &lettre::transport::smtp::Error) -> String {
    e.to_string()
}

/// `Display` of `lettre::address::AddressError`; nothing is stated of the text.
#[verifier::external_body]
fn address_error_text(e: &lettre::address::AddressError) -> String {
    e.to_string()
}

/// `Display` of `tera::Error`; nothing is stated of the text.
#[verifier::external_body]
fn tera_error_text(e: &tera::Error) -> String {
    e.to_string()
}

/// `Display` of `oracle::Error`; nothing is stated of the text.
#[verifier::external_body]
fn oracle_error_text(e: &oracle::Error) -> String {
    e.to_string()
}

/// `Display` of `std::io::Error`; nothing is stated of the text.
#[verifier::external_body]
fn io_error_text(e: &std::io::Error) -> String {
    e.to_string()
}

/// `Display` of `tokio::task::JoinError`; nothing is stated of the text.
#[verifier::external_body]
fn join_error_text(e: &tokio::task::JoinError) -> String {
    e.to_string()
}

/// `Display` of `sqlx::Error`; nothing is stated of the text.
#[verifier::external_body]
fn sqlx_error_text(e: &sqlx::Error) -> String {
    e.to_string()
}

fn prefixed(prefix: &str, text: String) -> (res: String)
    ensures
        res@ == prefix@ + text@,
        starts_with(res@, prefix@),
{
    let mut s = prefix.to_string();
    s.append(text.as_str());
    assert(s@.subrange(0, prefix@.len() as int) =~= prefix@);
    s
}

impl TableProcessError {
    /// The message of this error, as it is written to the error log: a fixed
    /// prefix naming the failing stage, then the text of the underlying error.
    pub fn describe(&self) -> (res: String)
        ensures
            self matches TableProcessError::MissingData(m) ==> res@ == missing_field_text(m.0@),
            starts_with(res@, error_prefix(self)),
    {
        match self {
            TableProcessError::MissingData(e) => {
                let s = e.describe();
                assert(s@.subrange(0, 0) =~= Seq::<char>::empty());
                s
            },
            TableProcessError::EmailFormError(e) => prefixed(
                "Email form is configured incorrectly:\n\t",
                lettre_error_text(e),
            ),
            TableProcessError::EmailSendError(e) => prefixed(
                "Failed to send email:\n\t",
                smtp_error_text(e),
            ),
            TableProcessError::EmailParseError(e) => prefixed(
                "Email Adress is malformed:\n\t",
                address_error_text(e),
            ),
            TableProcessError::TemplatingError(e) => prefixed(
                "Falha no processamento do template:\n\t",
                tera_error_text(e),
            ),
            TableProcessError::OracleDbError(e) => prefixed(
                "Falha na Oracle Db:\n\t",
                oracle_error_text(e),
            ),
            TableProcessError::TokioIoError(e) => prefixed(
                "Falha na escrita dos arquvios:\n\t",
                io_error_text(e),
            ),
            TableProcessError::TokioJoinError(e) => prefixed(
                "Na junção das tasks:\n\t",
                join_error_text(e),
            ),
            TableProcessError::SqlxError(e) => prefixed("Falha em Sqlx:\n\t", sqlx_error_text(e)),
        }
    }
}

impl From<MissignFieldError> for TableProcessError {
    fn from(e: MissignFieldError) -> (res: Self) {
        TableProcessError::MissingData(e)
    }
}

impl FromSpecImpl<MissignFieldError> for TableProcessError {
    open spec fn obeys_from_spec() -> bool {
        true
    }

    open spec fn from_spec(e: MissignFieldError) -> Self {
        TableProcessError::MissingData(e)
    }
}

impl From<lettre::error::Error> for TableProcessError {
    fn from(e: lettre::error::Error) -> (res: Self) {
        TableProcessError::EmailFormError(e)
    }
}

impl FromSpecImpl<lettre::error::Error> for TableProcessError {
    open spec fn obeys_from_spec() -> bool {
        true
    }

    open spec fn from_spec(e: lettre::error::Error) -> Self {
        TableProcessError::EmailFormError(e)
    }
}

impl From<lettre::transport::smtp::Error> for TableProcessError {
    fn from(e: lettre::transport::smtp::Error) -> (res: Self) {
        TableProcessError::EmailSendError(e)
    }
}

impl FromSpecImpl<lettre::transport::smtp::Error> for TableProcessError {
    open spec fn obeys_from_spec() -> bool {
        true
    }

    open spec fn from_spec(e: lettre::transport::smtp::Error) -> Self {
        TableProcessError::EmailSendError(e)
    }
}

impl From<lettre::address::AddressError> for TableProcessError {
    fn from(e: lettre::address::AddressError) -> (res: Self) {
        TableProcessError::EmailParseError(e)
    }
}

impl FromSpecImpl<lettre::address::AddressError> for TableProcessError {
    open spec fn obeys_from_spec() -> bool {
        true
    }

    open spec fn from_spec(e: lettre::address::AddressError) -> Self {
        TableProcessError::EmailParseError(e)
    }
}

impl From<tera::Error> for TableProcessError {
    fn from(e: tera::Error) -> (res: Self) {
        TableProcessError::TemplatingError(e)
    }
}

impl FromSpecImpl<tera::Error> for TableProcessError {
    open spec fn obeys_from_spec() -> bool {
        true
    }

    open spec fn from_spec(e: tera::Error) -> Self {
        TableProcessError::TemplatingError(e)
    }
}

impl From<oracle::Error> for TableProcessError {
    fn from(e: oracle::Error) -> (res: Self) {
        TableProcessError::OracleDbError(e)
    }
}

impl FromSpecImpl<oracle::Error> for TableProcessError {
    open spec fn obeys_from_spec() -> bool {
        true
    }

    open spec fn from_spec(e: oracle::Error) -> Self {
        TableProcessError::OracleDbError(e)
    }
}

impl From<std::io::Error> for TableProcessError {
    fn from(e: std::io::Error) -> (res: Self) {
        TableProcessError::TokioIoError(e)
    }
}

impl FromSpecImpl<std::io::Error> for TableProcessError {
    open spec fn obeys_from_spec() -> bool {
        true
    }

    open spec fn from_spec(e: std::io::Error) -> Self {
        TableProcessError::TokioIoError(e)
    }
}

impl From<tokio::task::JoinError> for TableProcessError {
    fn from(e: tokio::task::JoinError) -> (res: Self) {
        TableProcessError::TokioJoinError(e)
    }
}

impl FromSpecImpl<tokio::task::JoinError> for TableProcessError {
    open spec fn obeys_from_spec() -> bool {
        true
    }

    open spec fn from_spec(e: tokio::task::JoinError) -> Self {
        TableProcessError::TokioJoinError(e)
    }
}

impl From<sqlx::Error> for TableProcessError {
    fn from(e: sqlx::Error) -> (res: Self) {
        TableProcessError::SqlxError(e)
    }
}

impl FromSpecImpl<sqlx::Error> for TableProcessError {
    open spec fn obeys_from_spec() -> bool {
        true
    }

    open spec fn from_spec(e: sqlx::Error) -> Self {
        TableProcessError::SqlxError(e)
    }
}

} // verus!
