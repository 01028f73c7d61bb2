use vstd::prelude::*;
use secrecy::ExposeSecret;

verus! {

/// A sensitive string (a credential, or text that embeds one). It is held by
/// `secrecy::Secret`, which keeps it out of debug output and wipes it on drop.
#[verifier::external_body]
pub struct SecretText {
    inner: secrecy::Secret<String>,
}

/// The text held inside a secret.
pub uninterp spec fn secret_text(s: SecretText) -> Seq<char>;

impl SecretText {
    /// Relies on `secrecy::Secret::new`: the secret takes ownership of the text
    /// and holds it unchanged.
    #[verifier::external_body]
    pub fn new(s: String) -> (r: SecretText)
        ensures
            secret_text(r) == s@,
    {
        SecretText { inner: secrecy::Secret::new(s) }
    }

    /// Relies on `ExposeSecret::expose_secret` of `secrecy::Secret`: it lends
    /// the text held inside.
    #[verifier::external_body]
    pub fn expose_secret(&self) -> (r: &String)
        ensures
            r@ == secret_text(*self),
    {
        self.inner.expose_secret()
    }
}

/// The decimal digit `d` as a character.
pub open spec fn digit_char(d: nat) -> char
    recommends
        d < 10,
{
    seq!['0', '1', '2', '3', '4', '5', '6', '7', '8', '9'][d as int]
}

/// `n` written in decimal, without leading zeros.
pub open spec fn decimal(n: nat) -> Seq<char>
    decreases n,
{
    if n < 10 {
        seq![digit_char(n)]
    } else {
        decimal(n / 10) + seq![digit_char(n % 10)]
    }
}

/// The URL that locates a Postgres database.
pub open spec fn connection_url(
    username: Seq<char>,
    password: Seq<char>,
    host: Seq<char>,
    port: u16,
    database_name: Seq<char>,
) -> Seq<char> {
    "postgres://"@ + username + ":"@ + password + "@"@ + host + ":"@ + decimal(port as nat) + "/"@
        + database_name
}

/// The address that the server listens on for a given port.
pub open spec fn listen_address(port: u16) -> Seq<char> {
    "127.0.0.1:"@ + decimal(port as nat)
}

fn digit_str(d: u16) -> (r: &'static str)
    requires
        d < 10,
    ensures
        r@ == seq![digit_char(d as nat)],
{
    proof {
        reveal_strlit("0");
        reveal_strlit("1");
        reveal_strlit("2");
        reveal_strlit("3");
        reveal_strlit("4");
        reveal_strlit("5");
        reveal_strlit("6");
        reveal_strlit("7");
        reveal_strlit("8");
        reveal_strlit("9");
    }
    if d == 0 {
        "0"
    } else if d == 1 {
        "1"
    } else if d == 2 {
        "2"
    } else if d == 3 {
        "3"
    } else if d == 4 {
        "4"
    } else if d == 5 {
        "5"
    } else if d == 6 {
        "6"
    } else if d == 7 {
        "7"
    } else if d == 8 {
        "8"
    } else {
        "9"
    }
}

/// Appends `n` in decimal to `out`.
pub fn push_decimal(out: &mut String, n: u16)
    ensures
        final(out)@ == old(out)@ + decimal(n as nat),
    decreases n,
{
    if n >= 10 {
        push_decimal(out, n / 10);
    }
    out.append(digit_str(n % 10));
    assert(final(out)@ =~= old(out)@ + decimal(n as nat));
}

/// Where the subscriber table lives, and the credentials that open it.
pub struct DatabaseSettings {
    pub username: String,
    pub password: SecretText,
    pub port: u16,
    pub host: String,
    pub database_name: String,
}

impl DatabaseSettings {
    /// The connection URL for these settings. It embeds the password, so it
    /// comes back as a secret too.
    pub fn connection_string(&self) -> (r: SecretText)
        ensures
            secret_text(r) == connection_url(
                self.username@,
                secret_text(self.password),
                self.host@,
                self.port,
                self.database_name@,
            ),
    {
        let mut s = String::from_str("postgres://");
        s.append(self.username.as_str());
        s.append(":");
        s.append(self.password.expose_secret().as_str());
        s.append("@");
        s.append(self.host.as_str());
        s.append(":");
        push_decimal(&mut s, self.port);
        s.append("/");
        s.append(self.database_name.as_str());
        assert(s@ =~= connection_url(
            self.username@,
            secret_text(self.password),
            self.host@,
            self.port,
            self.database_name@,
        ));
        SecretText::new(s)
    }
}

/// Everything the service reads at start-up.
pub struct Settings {
    pub database: DatabaseSettings,
    pub application_port: u16,
}

impl Settings {
    /// The local address that the HTTP server binds to.
    pub fn address(&self) -> (r: String)
        ensures
            r@ == listen_address(self.application_port),
    {
        let mut s = String::from_str("127.0.0.1:");
        push_decimal(&mut s, self.application_port);
        s
    }
}

} // verus!
