//! The mailer's configuration, read from an INI file.
use vstd::prelude::*;
use crate::error::MissignFieldError;

verus! {

/// `configparser::ini::Ini`, a parsed INI file.
#[verifier::external_type_specification]
#[verifier::external_body]
pub struct ExIni(configparser::ini::Ini);

/// What `Ini::get` answers for each (section, key) pair that has a value:
/// the stored value of the key (after the section and key are case-folded as
/// the `Ini` was configured, and with its default-section fallback).
pub uninterp spec fn ini_entries(ini: configparser::ini::Ini) -> Map<(Seq<char>, Seq<char>), Seq<char>>;

/// `configparser::ini::Ini::get`: the value stored for the key, `None` when
/// the section or the key is absent or the key has no value.
#[verifier::external_body]
fn ini_get(ini: &configparser::ini::Ini, section: &str, key: &str) -> (res: Option<String>)
    ensures
        res is Some <==> ini_entries(*ini).contains_key((section@, key@)),
        res matches Some(v) ==> v@ == ini_entries(*ini)[(section@, key@)],
{
    ini.get(section, key)
}

/// The connection and credential values of the mailer.
pub struct IniVals {
    pub maria_url: String,
    pub maria_emaildb: String,
    pub oracle_url: String,
    pub oracle_port: String,
    pub oracle_user: String,
    pub oracle_senha: String,
    pub email_nome: String,
    pub email_addrs: String,
    pub email_senha: String,
}

/// The (section, key) pairs that the configuration must hold, in the order
/// in which they are read.
pub open spec fn config_keys() -> Seq<(Seq<char>, Seq<char>)> {
    seq![
        ("chaves_db_maria"@, "user"@),
        ("chaves_db_maria"@, "senha"@),
        ("chaves_db_maria"@, "url"@),
        ("chaves_db_maria"@, "emaildb"@),
        ("chaves_db_oracle"@, "url"@),
        ("chaves_db_oracle"@, "port"@),
        ("chaves_db_oracle"@, "user"@),
        ("chaves_db_oracle"@, "senha"@),
        ("email_creds"@, "nome"@),
        ("email_creds"@, "email"@),
        ("email_creds"@, "senha"@),
    ]
}

/// How a missing key is named in the error: `section.key`.
pub open spec fn key_path(k: (Seq<char>, Seq<char>)) -> Seq<char> {
    k.0 + "."@ + k.1
}

/// The first of the required keys, from position `i` on, that has no value.
pub open spec fn first_missing_from(ini: configparser::ini::Ini, i: int) -> Option<Seq<char>>
    decreases config_keys().len() - i,
{
    if i < 0 || i >= config_keys().len() {
        None
    } else if !ini_entries(ini).contains_key(config_keys()[i]) {
        Some(key_path(config_keys()[i]))
    } else {
        first_missing_from(ini, i + 1)
    }
}

/// The value of the `i`-th required key.
pub open spec fn config_value(ini: configparser::ini::Ini, i: int) -> Seq<char> {
    ini_entries(ini)[config_keys()[i]]
}

/// `mysql://<user>:<senha>@<url>/`.
pub open spec fn maria_url_text(user: Seq<char>, senha: Seq<char>, url: Seq<char>) -> Seq<char> {
    "mysql://"@ + user + ":"@ + senha + "@"@ + url + "/"@
}

/// The configuration that a complete INI file gives.
pub open spec fn config_of(ini: configparser::ini::Ini, v: IniVals) -> bool {
    &&& v.maria_url@ == maria_url_text(config_value(ini, 0), config_value(ini, 1), config_value(ini, 2))
    &&& v.maria_emaildb@ == config_value(ini, 3)
    &&& v.oracle_url@ == config_value(ini, 4)
    &&& v.oracle_port@ == config_value(ini, 5)
    &&& v.oracle_user@ == config_value(ini, 6)
    &&& v.oracle_senha@ == config_value(ini, 7)
    &&& v.email_nome@ == config_value(ini, 8)
    &&& v.email_addrs@ == config_value(ini, 9)
    &&& v.email_senha@ == config_value(ini, 10)
}

fn config_key(i: usize) -> (res: (&'static str, &'static str))
    requires
        i < 11,
    ensures
        (res.0@, res.1@) == config_keys()[i as int],
{
    if i == 0 {
        ("chaves_db_maria", "user")
    } else if i == 1 {
        ("chaves_db_maria", "senha")
    } else if i == 2 {
        ("chaves_db_maria", "url")
    } else if i == 3 {
        ("chaves_db_maria", "emaildb")
    } else if i == 4 {
        ("chaves_db_oracle", "url")
    } else if i == 5 {
        ("chaves_db_oracle", "port")
    } else if i == 6 {
        ("chaves_db_oracle", "user")
    } else if i == 7 {
        ("chaves_db_oracle", "senha")
    } else if i == 8 {
        ("email_creds", "nome")
    } else if i == 9 {
        ("email_creds", "email")
    } else {
        ("email_creds", "senha")
    }
}

/// The configuration held by a parsed INI file that has every required key:
/// the values of the keys, the MariaDB ones joined into a connection URL.
pub fn load_config(ini: &configparser::ini::Ini) -> (res: IniVals)
    requires
        first_missing_from(*ini, 0) is None,
    ensures
        config_of(*ini, res),
{
    let mut values: Vec<String> = Vec::new();
    let mut i: usize = 0;
    while i < 11
        invariant
            i <= 11,
            values@.len() == i,
            config_keys().len() == 11,
            first_missing_from(*ini, i as int) is None,
            forall|j: int| 0 <= j < i ==> #[trigger] values@[j]@ == config_value(*ini, j),
        decreases 11 - i,
    {
        let (section, key) = config_key(i);
        assert((section@, key@) == config_keys()[i as int]);
        match ini_get(ini, section, key) {
            Some(v) => {
                let ghost before = values@;
                values.push(v);
                assert forall|j: int| 0 <= j < i + 1 implies #[trigger] values@[j]@ == config_value(*ini, j) by {
                    if j < i {
                        assert(values@[j] == before[j]);
                    }
                }
            },
            None => {
                return vstd::pervasive::unreached();
            },
        }
        i = i + 1;
    }
    let mut maria_url = "mysql://".to_string();
    maria_url.append(values[0].as_str());
    maria_url.append(":");
    maria_url.append(values[1].as_str());
    maria_url.append("@");
    maria_url.append(values[2].as_str());
    maria_url.append("/");
    IniVals {
        maria_url,
        maria_emaildb: values[3].clone(),
        oracle_url: values[4].clone(),
        oracle_port: values[5].clone(),
        oracle_user: values[6].clone(),
        oracle_senha: values[7].clone(),
        email_nome: values[8].clone(),
        email_addrs: values[9].clone(),
        email_senha: values[10].clone(),
    }
}

/// The configuration held by a parsed INI file; when a key has no value the
/// error names the first such key as `section.key`.
pub fn try_load_config(ini: &configparser::ini::Ini) -> (res: Result<IniVals, MissignFieldError>)
    ensures
        match res {
            Ok(v) => first_missing_from(*ini, 0) is None && config_of(*ini, v),
            Err(e) => first_missing_from(*ini, 0) == Some(e.0@),
        },
{
    let mut i: usize = 0;
    while i < 11
        invariant
            i <= 11,
            config_keys().len() == 11,
            first_missing_from(*ini, 0) == first_missing_from(*ini, i as int),
        decreases 11 - i,
    {
        let (section, key) = config_key(i);
        assert((section@, key@) == config_keys()[i as int]);
        if ini_get(ini, section, key).is_none() {
            let mut path = section.to_string();
            path.append(".");
            path.append(key);
            return Err(MissignFieldError(path));
        }
        i = i + 1;
    }
    Ok(load_config(ini))
}

impl IniVals {
    /// The URL of the database that lists the recipients:
    /// `maria_url` followed by `maria_emaildb`.
    pub fn email_db_url(&self) -> (res: String)
        ensures
            res@ == self.maria_url@ + self.maria_emaildb@,
    {
        let mut s = self.maria_url.clone();
        s.append(self.maria_emaildb.as_str());
        s
    }

    /// The URL of a company's occurrence database: `maria_url`, `SGO_`, the company.
    pub fn company_db_url(&self, empresa: &str) -> (res: String)
        ensures
            res@ == self.maria_url@ + "SGO_"@ + empresa@,
    {
        let mut s = self.maria_url.clone();
        s.append("SGO_");
        s.append(empresa);
        s
    }

    /// The sender of the e-mails: `<nome> <<address>>`.
    pub fn sender(&self) -> (res: String)
        ensures
            res@ == self.email_nome@ + " <"@ + self.email_addrs@ + ">"@,
    {
        let mut s = self.email_nome.clone();
        s.append(" <");
        s.append(self.email_addrs.as_str());
        s.append(">");
        s
    }
}

} // verus!
