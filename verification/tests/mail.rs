use sgo_email::email::build_email;
use sgo_email::{MissignFieldError, TableProcessError};

fn dest(name: Option<&str>, addr: Option<&str>) -> (Option<String>, Option<String>) {
    (name.map(|s| s.to_string()), addr.map(|s| s.to_string()))
}

const SENDER: &str = "Alertas SGO <alertas@example.com>";

#[test]
fn email_with_valid_recipients() {
    let ds = vec![dest(Some("Ana"), Some("ana@example.com")), dest(None, Some("bruno@example.org"))];
    let m = build_email(SENDER, &ds, "Desligamento:SE01 AL02 DJ-52".to_string(), "<p>x</p>".to_string());
    let m = match m {
        Ok(m) => m.into_message(),
        Err(e) => panic!("{}", e.describe()),
    };
    let text = String::from_utf8(m.formatted()).unwrap();
    assert!(text.contains("Subject: Desligamento:SE01 AL02 DJ-52"));
    assert!(text.contains("To: Ana <ana@example.com>, bruno@example.org"));
    let plain = text.find("Content-Type: text/plain").unwrap();
    let html = text.find("Content-Type: text/html").unwrap();
    assert!(plain < html);
    assert!(text.contains("multipart/alternative"));
    assert!(text.contains("From: \"Alertas SGO\" <alertas@example.com>") || text.contains("From: Alertas SGO <alertas@example.com>"));
    assert!(text.contains("ana@example.com"));
    assert!(text.contains("bruno@example.org"));
    assert!(text.contains("Falha em carregar a tabela"));
    assert!(text.contains("<p>x</p>"));
    let to: Vec<String> = m.envelope().to().iter().map(|a| a.to_string()).collect();
    assert_eq!(to, vec!["ana@example.com".to_string(), "bruno@example.org".to_string()]);
}

#[test]
fn email_recipient_without_address() {
    let ds = vec![dest(Some("Ana"), Some("ana@example.com")), dest(Some("Sem"), None), dest(None, Some("bad"))];
    match build_email(SENDER, &ds, "t".to_string(), "h".to_string()) {
        Err(TableProcessError::MissingData(MissignFieldError(w))) => assert_eq!(w, "email_addrs"),
        _ => panic!("expected a missing address"),
    }
}

#[test]
fn email_recipient_malformed() {
    let ds = vec![dest(None, Some("not an address")), dest(Some("Sem"), None)];
    match build_email(SENDER, &ds, "t".to_string(), "h".to_string()) {
        Err(e @ TableProcessError::EmailParseError(_)) => {
            assert!(e.describe().starts_with("Email Adress is malformed:\n\t"));
        },
        _ => panic!("expected a malformed address"),
    }
}

#[test]
fn email_sender_malformed() {
    let ds = vec![dest(None, Some("ana@example.com"))];
    assert!(matches!(
        build_email("Alertas <no-at-sign>", &ds, "t".to_string(), "h".to_string()),
        Err(TableProcessError::EmailParseError(_))
    ));
    let ds = vec![dest(None, None)];
    assert!(matches!(
        build_email("", &ds, "t".to_string(), "h".to_string()),
        Err(TableProcessError::EmailParseError(_))
    ));
}

#[test]
fn email_without_recipients() {
    match build_email(SENDER, &Vec::new(), "t".to_string(), "h".to_string()) {
        Err(e @ TableProcessError::EmailFormError(_)) => {
            assert!(e.describe().starts_with("Email form is configured incorrectly:\n\t"));
        },
        _ => panic!("expected a form error"),
    }
}

#[test]
fn error_descriptions() {
    let e = TableProcessError::MissingData(MissignFieldError::new("email_addrs"));
    assert_eq!(e.describe(), "Missing field email_addrs");
    assert_eq!(MissignFieldError::new("x").describe(), "Missing field x");
    let io = std::io::Error::new(std::io::ErrorKind::Other, "disco cheio");
    assert_eq!(TableProcessError::TokioIoError(io).describe(), "Falha na escrita dos arquvios:\n\tdisco cheio");
    let e: TableProcessError = MissignFieldError::new("k").into();
    assert!(matches!(e, TableProcessError::MissingData(_)));
    let t = tera::Error::msg("sem template");
    assert_eq!(TableProcessError::from(t).describe(), "Falha no processamento do template:\n\tsem template");
    let s = sqlx::Error::RowNotFound;
    assert!(TableProcessError::from(s).describe().starts_with("Falha em Sqlx:\n\t"));
}
