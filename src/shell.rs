use vstd::prelude::*;
use crate::config::Config;
use crate::error::Error;
use crate::keys::opt_view;
use crate::records::SecretValue;

verus! {

pub open spec fn digit_char(d: nat) -> char {
    seq!['0', '1', '2', '3', '4', '5', '6', '7', '8', '9'][d as int]
}

/// The decimal digits of `n`, without leading zeros.
pub open spec fn digits_of(n: nat) -> Seq<char>
    decreases n,
{
    if n < 10 {
        seq![digit_char(n)]
    } else {
        digits_of(n / 10).push(digit_char(n % 10))
    }
}

/// `n` written in decimal, with a leading `-` when negative.
pub open spec fn decimal_of(n: int) -> Seq<char> {
    if n < 0 {
        seq!['-'] + digits_of((-n) as nat)
    } else {
        digits_of(n as nat)
    }
}

fn digits(n: u32) -> (r: String)
    ensures
        r@ == digits_of(n as nat),
    decreases n,
{
    let table = "0123456789";
    proof {
        reveal_strlit("0123456789");
    }
    if n < 10 {
        let d = n as usize;
        let r = String::from_str(table.substring_char(d, d + 1));
        proof {
            assert(r@ =~= seq![digit_char(n as nat)]);
        }
        r
    } else {
        let mut r = digits(n / 10);
        let d = (n % 10) as usize;
        r.append(table.substring_char(d, d + 1));
        proof {
            assert(r@ =~= digits_of((n / 10) as nat).push(digit_char((n % 10) as nat)));
        }
        r
    }
}

/// Returns `n` in decimal.
pub fn decimal(n: i32) -> (r: String)
    ensures
        r@ == decimal_of(n as int),
{
    if n < 0 {
        let m = (0i64 - n as i64) as u32;
        let mut r = String::from_str("-");
        let d = digits(m);
        r.append(d.as_str());
        proof {
            reveal_strlit("-");
        }
        r
    } else {
        digits(n as u32)
    }
}

/// The connection settings of a Postgres database, as a secret holds them.
#[derive(Debug)]
pub struct Postgres {
    pub host: String,
    pub port: i32,
    pub dbname: String,
    pub username: String,
    pub password: String,
    pub engine: String,
    pub db_instance_identifier: String,
}

pub open spec fn pg_host_name() -> Seq<char> {
    seq!['P', 'G', 'H', 'O', 'S', 'T']
}

pub open spec fn pg_port_name() -> Seq<char> {
    seq!['P', 'G', 'P', 'O', 'R', 'T']
}

pub open spec fn pg_database_name() -> Seq<char> {
    seq!['P', 'G', 'D', 'A', 'T', 'A', 'B', 'A', 'S', 'E']
}

pub open spec fn pg_user_name() -> Seq<char> {
    seq!['P', 'G', 'U', 'S', 'E', 'R']
}

pub open spec fn pg_password_name() -> Seq<char> {
    seq!['P', 'G', 'P', 'A', 'S', 'S', 'W', 'O', 'R', 'D']
}

impl Postgres {
    /// The environment of a database client connecting with these settings.
    pub open spec fn env_spec(&self) -> Seq<(Seq<char>, Seq<char>)> {
        seq![
            (pg_host_name(), self.host@),
            (pg_port_name(), decimal_of(self.port as int)),
            (pg_database_name(), self.dbname@),
            (pg_user_name(), self.username@),
            (pg_password_name(), self.password@),
        ]
    }

    /// Returns `PGHOST`, `PGPORT`, `PGDATABASE`, `PGUSER` and `PGPASSWORD`
    /// with their values, in that order.
    pub fn env_pairs(self) -> (r: Vec<(String, String)>)
        ensures
            r.deep_view() == self.env_spec(),
    {
        proof {
            reveal_strlit("PGHOST");
            reveal_strlit("PGPORT");
            reveal_strlit("PGDATABASE");
            reveal_strlit("PGUSER");
            reveal_strlit("PGPASSWORD");
        }
        let ghost old_self = self;
        let port = decimal(self.port);
        let k_host = String::from_str("PGHOST");
        let k_port = String::from_str("PGPORT");
        let k_db = String::from_str("PGDATABASE");
        let k_user = String::from_str("PGUSER");
        let k_pass = String::from_str("PGPASSWORD");
        proof {
            assert(k_host@ =~= pg_host_name());
            assert(k_port@ =~= pg_port_name());
            assert(k_db@ =~= pg_database_name());
            assert(k_user@ =~= pg_user_name());
            assert(k_pass@ =~= pg_password_name());
        }
        let r = vec![
            (k_host, self.host),
            (k_port, port),
            (k_db, self.dbname),
            (k_user, self.username),
            (k_pass, self.password),
        ];
        proof {
            assert(r.deep_view() =~= old_self.env_spec());
        }
        r
    }
}

/// The name reported when the secret for the shell holds no value:
/// `{namespace}{key}`.
pub open spec fn shell_key_path(path: Seq<char>, key: Seq<char>) -> Seq<char> {
    path + key
}

/// Returns the text of the secret that configures the shell, or `InvalidKey`
/// carrying `{namespace}{key}` where the secret holds no value.
pub fn shell_config_text(config: &Config, key: &str, secret: SecretValue) -> (r: Result<String, Error>)
    ensures
        match r {
            Ok(t) => opt_view(secret.secret_string) == Some(t@),
            Err(Error::InvalidKey(k)) => secret.secret_string is None && k@ == shell_key_path(
                config.path(),
                key@,
            ),
            Err(_) => false,
        },
{
    match secret.secret_string {
        Some(t) => Ok(t),
        None => {
            let mut k = config.as_path();
            k.append(key);
            Err(Error::InvalidKey(k))
        },
    }
}

} // verus!
