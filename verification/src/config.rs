use vstd::prelude::*;

use crate::text::{
    parse_u16, parse_u16_spec, push_decimal, decimal, same_text, trim, trimmed,
};

verus! {

/// The parts of `s` between the separators `sep`, as `str::split` yields
/// them: `n` separators give `n + 1` parts, empty ones included.
pub open spec fn split_on(s: Seq<char>, sep: char) -> Seq<Seq<char>>
    decreases s.len(),
{
    if s.len() == 0 {
        seq![Seq::empty()]
    } else {
        let r = split_on(s.drop_last(), sep);
        if s.last() == sep {
            r.push(Seq::empty())
        } else {
            r.drop_last().push(r.last().push(s.last()))
        }
    }
}

/// The parts, each trimmed, with the empty ones left out.
pub open spec fn nonempty_trimmed(parts: Seq<Seq<char>>) -> Seq<Seq<char>>
    decreases parts.len(),
{
    if parts.len() == 0 {
        Seq::empty()
    } else {
        let r = nonempty_trimmed(parts.drop_last());
        if trimmed(parts.last()).len() == 0 {
            r
        } else {
            r.push(trimmed(parts.last()))
        }
    }
}

/// The origins that a comma-separated list names: the trimmed, non-empty
/// parts between the commas.
pub open spec fn origins_from(s: Seq<char>) -> Seq<Seq<char>> {
    nonempty_trimmed(split_on(s, ','))
}

/// Appends to `out` the trimmed `part` when it is not empty.
fn push_trimmed(out: &mut Vec<String>, part: &str)
    ensures
        final(out).deep_view() == (if trimmed(part@).len() == 0 {
            old(out).deep_view()
        } else {
            old(out).deep_view().push(trimmed(part@))
        }),
{
    let t = trim(part);
    if !t.is_empty() {
        out.push(t.to_owned());
        assert(final(out).deep_view() =~= old(out).deep_view().push(trimmed(part@)));
    }
}

/// The origins named by the comma-separated list `s`.
pub fn parse_origins(s: &str) -> (r: Vec<String>)
    ensures
        r.deep_view() == origins_from(s@),
{
    let v = crate::text::chars_of(s);
    let n = v.len();
    let mut out: Vec<String> = Vec::new();
    let mut start: usize = 0;
    let mut i: usize = 0;
    assert(s@.take(0) =~= Seq::<char>::empty());
    assert(s@.subrange(0, 0) =~= Seq::<char>::empty());
    while i < n
        invariant
            v@ == s@,
            n == v@.len(),
            start <= i <= n,
            split_on(s@.take(i as int), ',').len() >= 1,
            split_on(s@.take(i as int), ',').last() == s@.subrange(start as int, i as int),
            out.deep_view() == nonempty_trimmed(split_on(s@.take(i as int), ',').drop_last()),
        decreases n - i,
    {
        let ghost r = split_on(s@.take(i as int), ',');
        assert(s@.take(i + 1).drop_last() =~= s@.take(i as int));
        assert(s@.take(i + 1).last() == v@[i as int]);
        if v[i] == ',' {
            let part = s.substring_char(start, i);
            push_trimmed(&mut out, part);
            assert(r =~= r.drop_last().push(r.last()));
            start = i + 1;
            assert(split_on(s@.take(i + 1), ',').drop_last() =~= r);
            assert(s@.subrange(start as int, i + 1) =~= Seq::<char>::empty());
        } else {
            assert(split_on(s@.take(i + 1), ',').drop_last() =~= r.drop_last());
            assert(s@.subrange(start as int, i + 1) =~= s@.subrange(start as int, i as int).push(
                v@[i as int],
            ));
        }
        i = i + 1;
    }
    let ghost r = split_on(s@.take(n as int), ',');
    assert(s@.take(n as int) =~= s@);
    let part = s.substring_char(start, n);
    push_trimmed(&mut out, part);
    assert(r =~= r.drop_last().push(r.last()));
    out
}

/// Settings of the service, read from its environment.
#[derive(Debug, Clone)]
pub struct Config {
    pub host: String,
    pub port: u16,
    pub database_url: String,
    pub auth_token: String,
    pub cors_origins: Vec<String>,
    pub resend_api_key: String,
    pub resend_domain: String,
    pub resend_from_user: String,
    pub contact_to_email: String,
}

/// The settings as plain values.
pub struct ConfigView {
    pub host: Seq<char>,
    pub port: u16,
    pub database_url: Seq<char>,
    pub auth_token: Seq<char>,
    pub cors_origins: Seq<Seq<char>>,
    pub resend_api_key: Seq<char>,
    pub resend_domain: Seq<char>,
    pub resend_from_user: Seq<char>,
    pub contact_to_email: Seq<char>,
}

impl View for Config {
    type V = ConfigView;

    open spec fn view(&self) -> ConfigView {
        ConfigView {
            host: self.host@,
            port: self.port,
            database_url: self.database_url@,
            auth_token: self.auth_token@,
            cors_origins: self.cors_origins.deep_view(),
            resend_api_key: self.resend_api_key@,
            resend_domain: self.resend_domain@,
            resend_from_user: self.resend_from_user@,
            contact_to_email: self.contact_to_email@,
        }
    }
}

/// Why the settings could not be read.
#[derive(Debug, Clone)]
pub enum ConfigError {
    /// A required variable is not set; it carries the variable's name.
    Missing(&'static str),
    /// `PORT` is set but is not a port number.
    InvalidPort,
}

/// A settings error as plain values.
pub enum ConfigErrorView {
    Missing(Seq<char>),
    InvalidPort,
}

impl View for ConfigError {
    type V = ConfigErrorView;

    open spec fn view(&self) -> ConfigErrorView {
        match self {
            ConfigError::Missing(name) => ConfigErrorView::Missing(name@),
            ConfigError::InvalidPort => ConfigErrorView::InvalidPort,
        }
    }
}

impl ConfigError {
    /// The text of this error: the missing variable's name, or that the port is invalid.
    pub fn message(&self) -> (r: String)
        ensures
            r@ == match self@ {
                ConfigErrorView::Missing(name) => name,
                ConfigErrorView::InvalidPort => "invalid PORT value"@,
            },
    {
        match self {
            ConfigError::Missing(name) => (*name).to_owned(),
            ConfigError::InvalidPort => "invalid PORT value".to_owned(),
        }
    }
}

/// The environment variables that the settings are read from; `None` where
/// a variable is not set (or does not hold valid Unicode).
#[derive(Debug, Clone)]
pub struct EnvValues {
    pub host: Option<String>,
    pub port: Option<String>,
    pub turso_database_url: Option<String>,
    pub database_url: Option<String>,
    pub turso_auth_token: Option<String>,
    pub cors_origins: Option<String>,
    pub resend_api_key: Option<String>,
    pub resend_domain: Option<String>,
    pub resend_from_user: Option<String>,
    pub contact_to_email: Option<String>,
}

/// The environment variables as plain values.
pub struct EnvValuesView {
    pub host: Option<Seq<char>>,
    pub port: Option<Seq<char>>,
    pub turso_database_url: Option<Seq<char>>,
    pub database_url: Option<Seq<char>>,
    pub turso_auth_token: Option<Seq<char>>,
    pub cors_origins: Option<Seq<char>>,
    pub resend_api_key: Option<Seq<char>>,
    pub resend_domain: Option<Seq<char>>,
    pub resend_from_user: Option<Seq<char>>,
    pub contact_to_email: Option<Seq<char>>,
}

impl View for EnvValues {
    type V = EnvValuesView;

    open spec fn view(&self) -> EnvValuesView {
        EnvValuesView {
            host: self.host.deep_view(),
            port: self.port.deep_view(),
            turso_database_url: self.turso_database_url.deep_view(),
            database_url: self.database_url.deep_view(),
            turso_auth_token: self.turso_auth_token.deep_view(),
            cors_origins: self.cors_origins.deep_view(),
            resend_api_key: self.resend_api_key.deep_view(),
            resend_domain: self.resend_domain.deep_view(),
            resend_from_user: self.resend_from_user.deep_view(),
            contact_to_email: self.contact_to_email.deep_view(),
        }
    }
}

/// Whether mail goes unsent with this Resend key: none, or the test key.
pub open spec fn skips_mail(resend_api_key: Seq<char>) -> bool {
    resend_api_key.len() == 0 || resend_api_key == "re_test"@
}

/// The sender of outgoing mail: `Voidreg <user@domain>`.
pub open spec fn sender_of(c: ConfigView) -> Seq<char> {
    "Voidreg <"@ + c.resend_from_user + "@"@ + c.resend_domain + ">"@
}

/// The origins allowed when `CORS_ORIGINS` is not set.
pub open spec fn default_cors_origins() -> Seq<char> {
    "http://localhost:3000,http://localhost:5173"@
}

/// The port that `PORT` gives: the parsed value, 8080 when unset, `None` when invalid.
pub open spec fn port_from(port: Option<Seq<char>>) -> Option<u16> {
    match port {
        Some(p) => parse_u16_spec(p),
        None => Some(8080u16),
    }
}

/// The settings that the variables `e` give, or the first error, checked in
/// the order: port, database URL, Resend key, Resend domain, sender, recipient.
pub open spec fn config_from(e: EnvValuesView) -> Result<ConfigView, ConfigErrorView> {
    if port_from(e.port) is None {
        Err(ConfigErrorView::InvalidPort)
    } else if e.turso_database_url is None && e.database_url is None {
        Err(ConfigErrorView::Missing("TURSO_DATABASE_URL"@))
    } else if e.resend_api_key is None {
        Err(ConfigErrorView::Missing("RESEND_API_KEY"@))
    } else if e.resend_domain is None {
        Err(ConfigErrorView::Missing("RESEND_DOMAIN"@))
    } else if e.resend_from_user is None {
        Err(ConfigErrorView::Missing("RESEND_FROM_USER"@))
    } else if e.contact_to_email is None {
        Err(ConfigErrorView::Missing("CONTACT_TO_EMAIL"@))
    } else {
        Ok(
            ConfigView {
                host: match e.host {
                    Some(h) => h,
                    None => "0.0.0.0"@,
                },
                port: port_from(e.port)->0,
                database_url: match e.turso_database_url {
                    Some(u) => u,
                    None => e.database_url->0,
                },
                auth_token: match e.turso_auth_token {
                    Some(t) => t,
                    None => Seq::empty(),
                },
                cors_origins: origins_from(
                    match e.cors_origins {
                        Some(c) => c,
                        None => default_cors_origins(),
                    },
                ),
                resend_api_key: e.resend_api_key->0,
                resend_domain: e.resend_domain->0,
                resend_from_user: e.resend_from_user->0,
                contact_to_email: e.contact_to_email->0,
            },
        )
    }
}

/// The settings take their values from the environment: whenever the
/// variables give settings, the recipient of contact mail is
/// `CONTACT_TO_EMAIL`, the Resend key, domain and sender user are
/// `RESEND_API_KEY`, `RESEND_DOMAIN` and `RESEND_FROM_USER`, the database
/// URL is `TURSO_DATABASE_URL` or else `DATABASE_URL`, and the host is
/// `HOST` or else `0.0.0.0`.
pub proof fn lemma_settings_take_the_environment(e: EnvValuesView)
    requires
        config_from(e) is Ok,
    ensures
        e.contact_to_email matches Some(v) && config_from(e)->Ok_0.contact_to_email == v,
        e.resend_api_key matches Some(v) && config_from(e)->Ok_0.resend_api_key == v,
        e.resend_domain matches Some(v) && config_from(e)->Ok_0.resend_domain == v,
        e.resend_from_user matches Some(v) && config_from(e)->Ok_0.resend_from_user == v,
        e.turso_database_url matches Some(u) ==> config_from(e)->Ok_0.database_url == u,
        e.turso_database_url is None ==> (e.database_url matches Some(u)
            && config_from(e)->Ok_0.database_url == u),
        e.host matches Some(h) ==> config_from(e)->Ok_0.host == h,
        e.host is None ==> config_from(e)->Ok_0.host == "0.0.0.0"@,
        port_from(e.port) == Some(config_from(e)->Ok_0.port),
{
}

/// A settings result as plain values.
pub open spec fn config_result_view(r: Result<Config, ConfigError>) -> Result<
    ConfigView,
    ConfigErrorView,
> {
    match r {
        Ok(c) => Ok(c@),
        Err(e) => Err(e@),
    }
}

/// The cross-origin rules of the service: any origin when the list holds
/// `*`, else the listed origins with the methods and headers the site uses.
#[derive(Debug, Clone)]
pub enum CorsPolicy {
    AnyOrigin { max_age: usize },
    Listed { origins: Vec<String>, methods: Vec<String>, headers: Vec<String>, max_age: usize },
}

/// Whether `*` is one of `origins`.
pub open spec fn allows_any(origins: Seq<Seq<char>>) -> bool {
    exists|i: int| 0 <= i < origins.len() && #[trigger] origins[i] == "*"@
}

/// The cross-origin rules for the allowed `origins`.
pub fn cors_policy(origins: &Vec<String>) -> (r: CorsPolicy)
    ensures
        if allows_any(origins.deep_view()) {
            r matches CorsPolicy::AnyOrigin { max_age } && max_age == 3600
        } else {
            r matches CorsPolicy::Listed { origins: o, methods: m, headers: h, max_age }
                && o.deep_view() == origins.deep_view()
                && m.deep_view() == seq!["GET"@, "POST"@, "OPTIONS"@]
                && h.deep_view() == seq!["authorization"@, "accept"@, "content-type"@]
                && max_age == 3600
        },
{
    let mut i: usize = 0;
    while i < origins.len()
        invariant
            i <= origins@.len(),
            forall|k: int| 0 <= k < i ==> #[trigger] origins@[k]@ != "*"@,
        decreases origins@.len() - i,
    {
        if same_text(origins[i].as_str(), "*") {
            assert(origins.deep_view()[i as int] == "*"@);
            return CorsPolicy::AnyOrigin { max_age: 3600 };
        }
        i = i + 1;
    }
    assert(!allows_any(origins.deep_view())) by {
        assert forall|k: int| 0 <= k < origins.deep_view().len() implies #[trigger] origins.deep_view()[k] != "*"@ by {
            assert(origins.deep_view()[k] == origins@[k]@);
        }
    }
    let mut methods: Vec<String> = Vec::new();
    methods.push("GET".to_owned());
    methods.push("POST".to_owned());
    methods.push("OPTIONS".to_owned());
    let mut headers: Vec<String> = Vec::new();
    headers.push("authorization".to_owned());
    headers.push("accept".to_owned());
    headers.push("content-type".to_owned());
    assert(methods.deep_view() =~= seq!["GET"@, "POST"@, "OPTIONS"@]);
    assert(headers.deep_view() =~= seq!["authorization"@, "accept"@, "content-type"@]);
    CorsPolicy::Listed {
        origins: crate::text::copy_strings(origins),
        methods,
        headers,
        max_age: 3600,
    }
}

impl Config {
    /// Reads the settings from the environment variables `env`.
    pub fn from_values(env: EnvValues) -> (r: Result<Config, ConfigError>)
        ensures
            config_result_view(r) == config_from(env@),
            r is Ok <==> {
                &&& port_from(env@.port) is Some
                &&& (env.turso_database_url is Some || env.database_url is Some)
                &&& env.resend_api_key is Some
                &&& env.resend_domain is Some
                &&& env.resend_from_user is Some
                &&& env.contact_to_email is Some
            },
            r matches Ok(c) ==> {
                &&& env.contact_to_email matches Some(v) && c.contact_to_email@ == v@
                &&& env.resend_api_key matches Some(v) && c.resend_api_key@ == v@
                &&& env.resend_domain matches Some(v) && c.resend_domain@ == v@
                &&& env.resend_from_user matches Some(v) && c.resend_from_user@ == v@
                &&& port_from(env@.port) == Some(c.port)
                &&& (env.host matches Some(h) ==> c.host@ == h@)
                &&& (env.host is None ==> c.host@ == "0.0.0.0"@)
                &&& (env.turso_database_url matches Some(u) ==> c.database_url@ == u@)
                &&& (env.turso_database_url is None ==> (env.database_url matches Some(u)
                    && c.database_url@ == u@))
                &&& (env.turso_auth_token matches Some(t) ==> c.auth_token@ == t@)
                &&& (env.turso_auth_token is None ==> c.auth_token@.len() == 0)
            },
    {
        let ghost e = env@;
        let host = match env.host {
            Some(h) => h,
            None => "0.0.0.0".to_owned(),
        };
        let port: u16 = match env.port {
            Some(p) => match parse_u16(p.as_str()) {
                Some(v) => v,
                None => {
                    return Err(ConfigError::InvalidPort);
                },
            },
            None => 8080,
        };
        let database_url = match env.turso_database_url {
            Some(u) => u,
            None => match env.database_url {
                Some(u) => u,
                None => {
                    return Err(ConfigError::Missing("TURSO_DATABASE_URL"));
                },
            },
        };
        let auth_token = match env.turso_auth_token {
            Some(t) => t,
            None => String::new(),
        };
        let cors_origins = match env.cors_origins {
            Some(c) => parse_origins(c.as_str()),
            None => parse_origins("http://localhost:3000,http://localhost:5173"),
        };
        let resend_api_key = match env.resend_api_key {
            Some(v) => v,
            None => {
                return Err(ConfigError::Missing("RESEND_API_KEY"));
            },
        };
        let resend_domain = match env.resend_domain {
            Some(v) => v,
            None => {
                return Err(ConfigError::Missing("RESEND_DOMAIN"));
            },
        };
        let resend_from_user = match env.resend_from_user {
            Some(v) => v,
            None => {
                return Err(ConfigError::Missing("RESEND_FROM_USER"));
            },
        };
        let contact_to_email = match env.contact_to_email {
            Some(v) => v,
            None => {
                return Err(ConfigError::Missing("CONTACT_TO_EMAIL"));
            },
        };
        Ok(
            Config {
                host,
                port,
                database_url,
                auth_token,
                cors_origins,
                resend_api_key,
                resend_domain,
                resend_from_user,
                contact_to_email,
            },
        )
    }

    /// The settings that the tests run with.
    pub fn for_test() -> (r: Config)
        ensures
            r@ == (ConfigView {
                host: "127.0.0.1"@,
                port: 8080,
                database_url: "memory"@,
                auth_token: Seq::empty(),
                cors_origins: seq!["http://localhost:5173"@],
                resend_api_key: "re_test"@,
                resend_domain: "mail.example.com"@,
                resend_from_user: "form"@,
                contact_to_email: "admin@example.com"@,
            }),
    {
        let mut cors_origins: Vec<String> = Vec::new();
        cors_origins.push("http://localhost:5173".to_owned());
        assert(cors_origins.deep_view() =~= seq!["http://localhost:5173"@]);
        Config {
            host: "127.0.0.1".to_owned(),
            port: 8080,
            database_url: "memory".to_owned(),
            auth_token: String::new(),
            cors_origins,
            resend_api_key: "re_test".to_owned(),
            resend_domain: "mail.example.com".to_owned(),
            resend_from_user: "form".to_owned(),
            contact_to_email: "admin@example.com".to_owned(),
        }
    }

    /// Whether mail is not really sent: no Resend key, or the test key.
    pub fn skips_outbound_mail(&self) -> (r: bool)
        ensures
            r == skips_mail(self.resend_api_key@),
    {
        self.resend_api_key.as_str().is_empty() || same_text(self.resend_api_key.as_str(), "re_test")
    }

    /// The sender of outgoing mail: `Voidreg <user@domain>`.
    pub fn resend_from(&self) -> (r: String)
        ensures
            r@ == sender_of(self@),
    {
        let mut r = "Voidreg <".to_owned();
        r.append(self.resend_from_user.as_str());
        r.append("@");
        r.append(self.resend_domain.as_str());
        r.append(">");
        r
    }

    /// The address the server binds: `host:port`.
    pub fn bind_address(&self) -> (r: String)
        ensures
            r@ == self.host@ + ":"@ + decimal(self.port as nat),
    {
        let mut r = self.host.clone();
        r.append(":");
        push_decimal(&mut r, self.port);
        r
    }
}

} // verus!
