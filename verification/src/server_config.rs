//! The configuration of the servers and of the item store.
use vstd::prelude::*;

verus! {

/// The decimal digit `d`.
pub open spec fn digit_char(d: int) -> char {
    if d == 0 { '0' }
    else if d == 1 { '1' }
    else if d == 2 { '2' }
    else if d == 3 { '3' }
    else if d == 4 { '4' }
    else if d == 5 { '5' }
    else if d == 6 { '6' }
    else if d == 7 { '7' }
    else if d == 8 { '8' }
    else { '9' }
}

/// The decimal numeral of `n`, without leading zeros.
pub open spec fn decimal(n: nat) -> Seq<char>
    decreases n,
{
    if n < 10 {
        seq![digit_char(n as int)]
    } else {
        decimal(n / 10) + seq![digit_char((n % 10) as int)]
    }
}

/// The text of one decimal digit.
fn digit_str(d: u16) -> (r: &'static str)
    requires
        d < 10,
    ensures
        r@ == seq![digit_char(d as int)],
{
    proof {
        reveal_strlit("0");
        reveal_strlit("1");
        reveal_strlit("2");
        reveal_strlit("3");
        reveal_strlit("4");
        reveal_strlit("5");
        reveal_strlit("6");
        reveal_strlit("7");
        reveal_strlit("8");
        reveal_strlit("9");
    }
    if d == 0 { "0" }
    else if d == 1 { "1" }
    else if d == 2 { "2" }
    else if d == 3 { "3" }
    else if d == 4 { "4" }
    else if d == 5 { "5" }
    else if d == 6 { "6" }
    else if d == 7 { "7" }
    else if d == 8 { "8" }
    else { "9" }
}

/// The decimal numeral of a port number.
pub fn decimal_string(n: u16) -> (r: String)
    ensures
        r@ == decimal(n as nat),
    decreases n,
{
    if n < 10 {
        digit_str(n).to_owned()
    } else {
        let mut r = decimal_string(n / 10);
        r.append(digit_str(n % 10));
        r
    }
}

/// The configuration of the feed server.
#[derive(Debug)]
pub struct ServerConfig {
    pub settings_file: String,
    pub history_file: String,
    pub address: String,
    pub port: u16,
}

impl Default for ServerConfig {
    fn default() -> (r: Self)
        ensures
            r.settings_file@ == "fixerss.toml"@,
            r.history_file@ == ":memory:"@,
            r.address@ == "0.0.0.0"@,
            r.port == 8080,
    {
        ServerConfig {
            settings_file: "fixerss.toml".to_owned(),
            history_file: ":memory:".to_owned(),
            address: "0.0.0.0".to_owned(),
            port: 8080,
        }
    }
}

impl ServerConfig {
    /// The socket address to listen on, as `address:port`.
    pub fn socket_address(&self) -> (r: String)
        ensures
            r@ == self.address@ + seq![':'] + decimal(self.port as nat),
    {
        proof {
            reveal_strlit(":");
        }
        let mut r = self.address.clone();
        r.append(":");
        let port = decimal_string(self.port);
        r.append(port.as_str());
        r
    }
}

/// The configuration of the launcher: where the feed specification and the
/// item history are kept.
#[derive(Debug)]
pub struct Config {
    pub feeds: String,
    pub history_file: String,
}

impl Default for Config {
    fn default() -> (r: Self)
        ensures
            r.feeds@ == "fixerss.toml"@,
            r.history_file@ == ":memory:"@,
    {
        Config { feeds: "fixerss.toml".to_owned(), history_file: ":memory:".to_owned() }
    }
}

/// Whether the item store lives in memory rather than in a file.
pub fn is_in_memory(filename: &str) -> (r: bool)
    ensures
        r == (filename@ == ":memory:"@),
{
    filename.to_owned() == ":memory:".to_owned()
}

/// The connection URI of the SQLite item store kept in `filename`.
pub fn sqlite_uri(filename: &str) -> (r: String)
    ensures
        r@ == "sqlite:"@ + filename@,
{
    let mut r = "sqlite:".to_owned();
    r.append(filename);
    r
}

} // verus!
