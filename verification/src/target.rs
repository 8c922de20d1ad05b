//! The target descriptor of a reverse-proxy location: scheme, domain, port
//! and path of a destination such as `https://name:port`.

use vstd::prelude::*;

verus! {

/// The scheme of a target.
#[derive(Debug)]
pub enum Scheme {
    Absent,
    Http,
    Https,
    Ws,
    Wss,
    Ftp,
    Extension(String),
}

/// Mathematical model of a [`Scheme`].
pub enum SchemeModel {
    Absent,
    Http,
    Https,
    Ws,
    Wss,
    Ftp,
    Extension(Seq<char>),
}

impl View for Scheme {
    type V = SchemeModel;

    open spec fn view(&self) -> SchemeModel {
        match self {
            Scheme::Absent => SchemeModel::Absent,
            Scheme::Http => SchemeModel::Http,
            Scheme::Https => SchemeModel::Https,
            Scheme::Ws => SchemeModel::Ws,
            Scheme::Wss => SchemeModel::Wss,
            Scheme::Ftp => SchemeModel::Ftp,
            Scheme::Extension(name) => SchemeModel::Extension(name@),
        }
    }
}

impl Clone for Scheme {
    fn clone(&self) -> (copy: Self)
        ensures
            copy@ == self@,
    {
        match self {
            Scheme::Absent => Scheme::Absent,
            Scheme::Http => Scheme::Http,
            Scheme::Https => Scheme::Https,
            Scheme::Ws => Scheme::Ws,
            Scheme::Wss => Scheme::Wss,
            Scheme::Ftp => Scheme::Ftp,
            Scheme::Extension(name) => Scheme::Extension(name.clone()),
        }
    }
}

impl Scheme {
    /// No scheme was written.
    pub fn is_absent(&self) -> (absent: bool)
        ensures
            absent == (self@ == SchemeModel::Absent),
    {
        match self {
            Scheme::Absent => true,
            _ => false,
        }
    }

    /// The scheme is plain `http`.
    pub fn is_http(&self) -> (http: bool)
        ensures
            http == (self@ == SchemeModel::Http),
    {
        match self {
            Scheme::Http => true,
            _ => false,
        }
    }

    /// The scheme is `https`.
    pub fn is_https(&self) -> (https: bool)
        ensures
            https == (self@ == SchemeModel::Https),
    {
        match self {
            Scheme::Https => true,
            _ => false,
        }
    }
}

/// Parsed form of a reverse-proxy destination.
#[derive(Debug)]
pub struct Target {
    pub scheme: Scheme,
    pub domain: Option<String>,
    pub port: Option<u16>,
    pub path: String,
}

/// Mathematical model of a [`Target`].
pub struct TargetModel {
    pub scheme: SchemeModel,
    pub domain: Option<Seq<char>>,
    pub port: Option<u16>,
    pub path: Seq<char>,
}

/// Model of an optional string.
pub open spec fn text_option_view(text: Option<String>) -> Option<Seq<char>> {
    match text {
        Some(t) => Some(t@),
        None => None,
    }
}

/// Model of an optional target.
pub open spec fn target_option_view(target: Option<Target>) -> Option<TargetModel> {
    match target {
        Some(t) => Some(t@),
        None => None,
    }
}

impl View for Target {
    type V = TargetModel;

    open spec fn view(&self) -> TargetModel {
        TargetModel {
            scheme: self.scheme@,
            domain: text_option_view(self.domain),
            port: self.port,
            path: self.path@,
        }
    }
}

/// Copies an optional string.
pub fn clone_text_option(text: &Option<String>) -> (copy: Option<String>)
    ensures
        text_option_view(copy) == text_option_view(*text),
{
    match text {
        Some(t) => Some(t.clone()),
        None => None,
    }
}

impl Clone for Target {
    fn clone(&self) -> (copy: Self)
        ensures
            copy@ == self@,
    {
        Target {
            scheme: self.scheme.clone(),
            domain: clone_text_option(&self.domain),
            port: self.port,
            path: self.path.clone(),
        }
    }
}

/// What `webparse` makes of a target text: the descriptor it parses the
/// text into, or `None` where it rejects the text.
pub uninterp spec fn url_parse(text: Seq<char>) -> Option<TargetModel>;

/// Calls `webparse::Url::try_from` on the text. Trusted: the outcome is a
/// function of the text alone, and the empty text is rejected (the parser
/// fails on its first read when no byte is there).
#[verifier::external_body]
fn parse_url(text: String) -> (parsed: Option<Target>)
    ensures
        target_option_view(parsed) == url_parse(text@),
        text@.len() == 0 ==> parsed is None,
{
    let url = webparse::Url::try_from(text).ok()?;
    let scheme = match url.scheme {
        webparse::Scheme::None => Scheme::Absent,
        webparse::Scheme::Http => Scheme::Http,
        webparse::Scheme::Https => Scheme::Https,
        webparse::Scheme::Ws => Scheme::Ws,
        webparse::Scheme::Wss => Scheme::Wss,
        webparse::Scheme::Ftp => Scheme::Ftp,
        webparse::Scheme::Extension(name) => Scheme::Extension(name),
    };
    Some(Target { scheme, domain: url.domain, port: url.port, path: url.path })
}

/// The character of a decimal digit.
pub open spec fn digit_char(d: nat) -> char {
    if d == 0 {
        '0'
    } else if d == 1 {
        '1'
    } else if d == 2 {
        '2'
    } else if d == 3 {
        '3'
    } else if d == 4 {
        '4'
    } else if d == 5 {
        '5'
    } else if d == 6 {
        '6'
    } else if d == 7 {
        '7'
    } else if d == 8 {
        '8'
    } else {
        '9'
    }
}

/// A number written in decimal, without sign or leading zeros.
pub open spec fn decimal(n: nat) -> Seq<char>
    decreases n,
{
    if n < 10 {
        seq![digit_char(n)]
    } else {
        decimal(n / 10).push(digit_char(n % 10))
    }
}

/// The address text handed to the connection layer: `domain:port`, where
/// both are known.
pub open spec fn connect_text(domain: Option<Seq<char>>, port: Option<u16>) -> Option<Seq<char>> {
    if domain is Some && port is Some {
        Some(domain->0 + seq![':'] + decimal(port->0 as nat))
    } else {
        None
    }
}

/// Calls `webparse::Url::get_connect_url` on a descriptor with this domain
/// and port. Trusted: the result is the domain, a colon and the port in
/// decimal, and is absent where either part is.
#[verifier::external_body]
fn connect_url(domain: &Option<String>, port: Option<u16>) -> (address: Option<String>)
    ensures
        text_option_view(address) == connect_text(text_option_view(*domain), port),
{
    let mut url = webparse::Url::new();
    url.domain = domain.clone();
    url.port = port;
    url.get_connect_url()
}

impl Target {
    /// Parses a destination text such as `https://name:port`.
    pub fn parse(text: &String) -> (parsed: Option<Target>)
        ensures
            target_option_view(parsed) == url_parse(text@),
            text@.len() == 0 ==> parsed is None,
    {
        parse_url(text.clone())
    }

    /// The address to connect to, `domain:port`, or `None` where the
    /// descriptor lacks one of the two.
    pub fn get_connect_url(&self) -> (address: Option<String>)
        ensures
            text_option_view(address) == connect_text(self@.domain, self@.port),
    {
        connect_url(&self.domain, self.port)
    }
}

} // verus!
