//! Getting the database ready before the catalog is served: where the server
//! is, and whether the catalog's database has to be created first.

use vstd::prelude::*;
use vstd::string::{StrSliceExecFns, StringExecFns};

verus! {

/// The value of a decimal digit; 0 for every other character.
pub open spec fn digit(c: char) -> nat {
    if '0' <= c <= '9' {
        (c as u32 - '0' as u32) as nat
    } else {
        0
    }
}

/// Every character of `text` is a decimal digit.
pub open spec fn is_digits(text: Seq<char>) -> bool {
    forall|i: int| 0 <= i < text.len() ==> '0' <= #[trigger] text[i] <= '9'
}

/// The number that the digits of `text` write in base ten.
pub open spec fn digits_value(text: Seq<char>) -> nat
    decreases text.len(),
{
    if text.len() == 0 {
        0
    } else {
        digits_value(text.drop_last()) * 10 + digit(text.last())
    }
}

/// `text` without the plus sign that may stand in front of it.
pub open spec fn unsigned(text: Seq<char>) -> Seq<char> {
    if text.len() > 0 && text[0] == '+' {
        text.drop_first()
    } else {
        text
    }
}

/// The port that `text` names: one or more decimal digits, with or without a
/// plus sign in front, that write a number of at most 65535. Leading zeros do
/// not count; blanks, a minus sign and an empty text name no port.
pub open spec fn port_of(text: Seq<char>) -> Option<u16> {
    let digits = unsigned(text);
    if digits.len() > 0 && is_digits(digits) && digits_value(digits) <= u16::MAX {
        Some(digits_value(digits) as u16)
    } else {
        None
    }
}

/// More digits never write a smaller number.
proof fn lemma_value_grows(text: Seq<char>, upto: int)
    requires
        0 <= upto <= text.len(),
    ensures
        digits_value(text.take(upto)) <= digits_value(text),
    decreases text.len(),
{
    if upto == text.len() {
        assert(text.take(upto) =~= text);
    } else {
        lemma_value_grows(text.drop_last(), upto);
        assert(text.drop_last().take(upto) =~= text.take(upto));
    }
}

/// Reads a port number.
pub fn parse_port(text: &str) -> (port: Option<u16>)
    ensures
        port == port_of(text@),
{
    let length = text.unicode_len();
    let mut at: usize = 0;
    if length > 0 && text.get_char(0) == '+' {
        at = 1;
    }
    let first = at;
    let ghost digits = text@.subrange(first as int, length as int);
    assert(digits =~= unsigned(text@));
    if at == length {
        return None;
    }
    let mut value: u32 = 0;
    while at < length
        invariant
            length == text@.len(),
            first <= at <= length,
            digits == text@.subrange(first as int, length as int),
            digits == unsigned(text@),
            is_digits(digits.take(at - first)),
            value == digits_value(digits.take(at - first)),
            value <= u16::MAX,
        decreases length - at,
    {
        let c = text.get_char(at);
        assert(c == digits[at - first]);
        if c < '0' || c > '9' {
            return None;
        }
        let ghost seen = digits.take(at - first + 1);
        assert(seen.drop_last() =~= digits.take(at - first));
        value = value * 10 + (c as u32 - '0' as u32);
        if value > 65535 {
            proof {
                lemma_value_grows(digits, at - first + 1);
            }
            return None;
        }
        at += 1;
    }
    assert(digits.take(at - first) =~= digits);
    Some(value as u16)
}

/// Where the database server is and how to log in to it.
#[derive(Debug, PartialEq, Eq)]
pub struct ServerSettings {
    pub host: String,
    pub port: u16,
    pub user: String,
    pub password: String,
    /// The name of the catalog's database.
    pub db_name: String,
}

/// The text that was given, or else the fallback.
pub open spec fn text_or(given: Option<String>, fallback: &str) -> Seq<char> {
    match given {
        Some(text) => text@,
        None => fallback@,
    }
}

/// The port that was given, or else 5432; `None` where what was given names
/// no port.
pub open spec fn port_or_default(given: Option<String>) -> Option<u16> {
    match given {
        Some(text) => port_of(text@),
        None => Some(5432u16),
    }
}

fn or_fallback(given: Option<String>, fallback: &str) -> (text: String)
    ensures
        text@ == text_or(given, fallback),
{
    match given {
        Some(text) => text,
        None => fallback.to_owned(),
    }
}

impl ServerSettings {
    /// The settings from the five values that the environment may hold. A
    /// missing value is replaced: the host by the local address, the port by
    /// 5432, user and password by `postgres`, the database by `rust_sqlx`.
    /// There are no settings only where a port was given that names none.
    pub fn from_values(
        host: Option<String>,
        port: Option<String>,
        user: Option<String>,
        password: Option<String>,
        db_name: Option<String>,
    ) -> (settings: Option<Self>)
        ensures
            match settings {
                Some(chosen) => {
                    &&& chosen.host@ == text_or(host, "127.0.0.1")
                    &&& port_or_default(port) == Some(chosen.port)
                    &&& chosen.user@ == text_or(user, "postgres")
                    &&& chosen.password@ == text_or(password, "postgres")
                    &&& chosen.db_name@ == text_or(db_name, "rust_sqlx")
                },
                None => port_or_default(port) is None,
            },
    {
        let port = match port {
            Some(text) => parse_port(text.as_str()),
            None => Some(5432),
        };
        match port {
            Some(port) => Some(
                ServerSettings {
                    host: or_fallback(host, "127.0.0.1"),
                    port,
                    user: or_fallback(user, "postgres"),
                    password: or_fallback(password, "postgres"),
                    db_name: or_fallback(db_name, "rust_sqlx"),
                },
            ),
            None => None,
        }
    }
}

/// What is left to do once the server has said whether the catalog's
/// database exists.
#[derive(Debug, PartialEq, Eq)]
pub enum Provision {
    /// Run `statement`, and say `notice` when it has succeeded.
    Create { statement: String, notice: String },
    /// Nothing to run; say `notice`.
    Keep { notice: String },
}

/// The statement that creates the database `db_name`. The name goes in as it
/// is, unquoted.
pub open spec fn create_statement(db_name: Seq<char>) -> Seq<char> {
    "CREATE DATABASE "@ + db_name
}

/// What is said once the database `db_name` has been created.
pub open spec fn created_notice(db_name: Seq<char>) -> Seq<char> {
    "Database '"@ + db_name + "' created successfully!"@
}

/// What is said when the database `db_name` was there already.
pub open spec fn exists_notice(db_name: Seq<char>) -> Seq<char> {
    "Database '"@ + db_name + "' already exists."@
}

/// Decides what to do about the database `db_name`: create it when the
/// server does not have it, leave it alone when it does.
pub fn create_db_if_not_exists(db_name: &str, exists: bool) -> (step: Provision)
    ensures
        match step {
            Provision::Create { statement, notice } => {
                &&& !exists
                &&& statement@ == create_statement(db_name@)
                &&& notice@ == created_notice(db_name@)
            },
            Provision::Keep { notice } => exists && notice@ == exists_notice(db_name@),
        },
{
    let mut notice = "Database '".to_owned();
    notice.append(db_name);
    if exists {
        notice.append("' already exists.");
        Provision::Keep { notice }
    } else {
        let mut statement = "CREATE DATABASE ".to_owned();
        statement.append(db_name);
        notice.append("' created successfully!");
        Provision::Create { statement, notice }
    }
}

} // verus!
