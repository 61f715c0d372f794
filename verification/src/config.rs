//! Process configuration assembled from raw environment text: defaults are
//! applied for absent values, and numeric ports fall back to their defaults
//! when the text does not parse as a port number.

use vstd::prelude::*;
use vstd::string::StringExecFns;

use crate::decimal::dec_val;
use crate::decimal::digits_part;
use crate::decimal::is_dec_numeral;
use crate::decimal::parse_dec_saturating;

verus! {

/// The connection and server settings the process starts with.
pub struct Settings {
    pub mysql_host: String,
    pub mysql_port: u16,
    pub mysql_user: String,
    pub mysql_password: String,
    pub mysql_db: String,
    pub app_port: u16,
}

/// The port encoded by raw text: its decimal value when the text is a
/// well-formed numeral fitting a port number, the default otherwise.
pub open spec fn port_of(raw: Option<Seq<char>>, default: u16) -> u16 {
    match raw {
        Option::None => default,
        Option::Some(s) => if is_dec_numeral(s) && dec_val(digits_part(s)) <= 0xffff {
            dec_val(digits_part(s)) as u16
        } else {
            default
        },
    }
}

/// Parses a port number from optional raw text, falling back to the default
/// when the text is absent, malformed, or out of range.
pub fn port_or_default(raw: &Option<String>, default: u16) -> (r: u16)
    ensures
        r == port_of(raw.deep_view(), default),
{
    match raw {
        Option::None => default,
        Option::Some(s) => {
            match parse_dec_saturating(s.as_str(), 0xffff) {
                Option::None => default,
                Option::Some(v) => if v > 0xffff {
                    default
                } else {
                    v as u16
                },
            }
        },
    }
}

impl Settings {
    /// Assembles the settings from raw environment values: the host defaults
    /// to `localhost`, the ports to 3306 and 8080; user, password and
    /// database name are required and taken as given.
    pub fn new(
        host: Option<String>,
        port: Option<String>,
        user: String,
        password: String,
        db: String,
        app_port: Option<String>,
    ) -> (r: Settings)
        ensures
            r.mysql_host@ == match host {
                Option::Some(h) => h@,
                Option::None => "localhost"@,
            },
            r.mysql_port == port_of(port.deep_view(), 3306),
            r.mysql_user@ == user@,
            r.mysql_password@ == password@,
            r.mysql_db@ == db@,
            r.app_port == port_of(app_port.deep_view(), 8080),
    {
        let mysql_host = match host {
            Option::Some(h) => h,
            Option::None => String::from_str("localhost"),
        };
        let mysql_port = port_or_default(&port, 3306);
        let app_port_v = port_or_default(&app_port, 8080);
        Settings {
            mysql_host,
            mysql_port,
            mysql_user: user,
            mysql_password: password,
            mysql_db: db,
            app_port: app_port_v,
        }
    }
}

} // verus!
