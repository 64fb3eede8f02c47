//! Registry targets: credentials, registry URLs and image references.
use vstd::prelude::*;
use vstd::string::{StrSliceExecFns, StringExecFns};

use crate::text::{contains_char, decimal, free_of, push_char, push_decimal};

verus! {

/// `user` and `pass` are the two fields of `s` around its first `:`: the
/// user name is what precedes it, the password all that follows it.
pub open spec fn userpass_fields(s: Seq<char>, user: Seq<char>, pass: Seq<char>) -> bool {
    let u = user.len() as int;
    &&& free_of(user, ':')
    &&& u < s.len()
    &&& s.subrange(0, u) == user
    &&& s[u] == ':'
    &&& s.subrange(u + 1, s.len() as int) == pass
}

/// Splits `user:password` text into its two fields at the first `:`; the
/// password may itself hold `:`.
pub fn parse_userpass(userpass: &str) -> (r: (String, String))
    requires
        !free_of(userpass@, ':'),
    ensures
        userpass_fields(userpass@, r.0@, r.1@),
{
    let n = userpass.unicode_len();
    let mut user = String::new();
    let mut i: usize = 0;
    while i < n && userpass.get_char(i) != ':'
        invariant
            i <= n,
            n == userpass@.len(),
            user@ == userpass@.subrange(0, i as int),
            free_of(user@, ':'),
        decreases n - i,
    {
        let c = userpass.get_char(i);
        push_char(&mut user, c);
        i = i + 1;
    }
    if i == n {
        assert(userpass@.subrange(0, n as int) =~= userpass@);
    }
    let mut pass = String::new();
    let mut j: usize = i + 1;
    while j < n
        invariant
            i < j <= n,
            n == userpass@.len(),
            pass@ == userpass@.subrange(i + 1, j as int),
        decreases n - j,
    {
        let c = userpass.get_char(j);
        push_char(&mut pass, c);
        j = j + 1;
    }
    (user, pass)
}

/// How a registry is reached: plain HTTP or HTTP over TLS.
#[derive(Clone, Copy, Debug, PartialEq, Eq, Structural)]
pub enum TransportMode {
    Plaintext,
    Tls,
}

/// How the registry is authenticated against.
#[derive(Clone, Debug)]
pub enum Credentials {
    Anonymous,
    Basic(String, String),
}

/// A configuration that no load test can start from.
#[derive(Clone, Debug)]
pub enum ConfigError {
    /// The registry URL does not parse as a URL.
    InvalidUrl,
    /// The registry URL names no host.
    MissingHost,
    /// The registry URL's scheme is neither `http` nor `https`; it is held here.
    UnknownProtocol(String),
    /// The credentials hold no `:` between user name and password.
    MalformedCredentials,
    /// The image reference does not parse.
    InvalidReference,
}

/// What a URL parser reports of a URL: its scheme, its host if any, and its
/// port if one is given that differs from the scheme's default.
struct UrlParts {
    pub scheme: String,
    pub host: Option<String>,
    pub port: Option<u16>,
}

/// What `url::Url::parse` reports of the text `s`, read through `scheme`,
/// `host_str` and `port`; `None` where it does not parse.
pub uninterp spec fn url_parts_of(s: Seq<char>) -> Option<(Seq<char>, Option<Seq<char>>, Option<u16>)>;

pub open spec fn opt_view(o: Option<String>) -> Option<Seq<char>> {
    match o {
        Some(s) => Some(s@),
        None => None,
    }
}

/// Relies on `url::Url::parse` to parse a URL, and on `Url::scheme`,
/// `Url::host_str` and `Url::port` to read the parsed value.
#[verifier::external_body]
fn parse_url(s: &str) -> (r: Option<UrlParts>)
    ensures
        match r {
            None => url_parts_of(s@) is None,
            Some(p) => url_parts_of(s@) == Some((p.scheme@, opt_view(p.host), p.port)),
        },
{
    match url::Url::parse(s) {
        Ok(u) => Some(UrlParts {
            scheme: u.scheme().to_string(),
            host: match u.host_str() {
                Some(h) => Some(h.to_string()),
                None => None,
            },
            port: u.port(),
        }),
        Err(_) => None,
    }
}

/// The registry address made of a host and an optional port.
pub open spec fn host_with_port(host: Seq<char>, port: Option<u16>) -> Seq<char> {
    match port {
        Some(p) => host.push(':') + decimal(p as nat),
        None => host,
    }
}

/// The registry address and transport mode that the URL `url` names, if it
/// names one.
pub open spec fn reg_of(url: Seq<char>) -> Option<(Seq<char>, TransportMode)> {
    match url_parts_of(url) {
        Some((scheme, Some(h), port)) => if scheme == "http"@ {
            Some((host_with_port(h, port), TransportMode::Plaintext))
        } else if scheme == "https"@ {
            Some((host_with_port(h, port), TransportMode::Tls))
        } else {
            None
        },
        _ => None,
    }
}

/// The error that reading the registry URL `url` ends in, where it names no
/// registry.
pub open spec fn reg_error(url: Seq<char>, e: ConfigError) -> bool {
    match url_parts_of(url) {
        None => e is InvalidUrl,
        Some((scheme, None, _)) => e is MissingHost,
        Some((scheme, Some(_), _)) => e matches ConfigError::UnknownProtocol(s) && s@ == scheme,
    }
}

/// `r` is what reading the registry URL `url` gives.
pub open spec fn reg_outcome(url: Seq<char>, r: Result<(String, TransportMode), ConfigError>) -> bool {
    match r {
        Ok((reg, mode)) => reg_of(url) == Some((reg@, mode)),
        Err(e) => reg_of(url) is None && reg_error(url, e),
    }
}

/// Reads a registry URL: its host (with the port, where the URL gives one)
/// and its transport mode, which the scheme decides (`http` is plain,
/// `https` is TLS, any other scheme is refused).
pub fn parse_reg(registry_url: &str) -> (r: Result<(String, TransportMode), ConfigError>)
    ensures
        reg_outcome(registry_url@, r),
{
    let parts = match parse_url(registry_url) {
        Some(p) => p,
        None => {
            return Err(ConfigError::InvalidUrl);
        },
    };
    let mut reg = match parts.host {
        Some(h) => h,
        None => {
            return Err(ConfigError::MissingHost);
        },
    };
    if let Some(port) = parts.port {
        push_char(&mut reg, ':');
        push_decimal(&mut reg, port as u64);
    }
    let http = "http".to_string();
    let https = "https".to_string();
    if parts.scheme == http {
        Ok((reg, TransportMode::Plaintext))
    } else if parts.scheme == https {
        Ok((reg, TransportMode::Tls))
    } else {
        Err(ConfigError::UnknownProtocol(parts.scheme))
    }
}

/// The credentials that `userpass` gives, where it gives any: none at all is
/// anonymous access, and `user:password` text is a user name and password.
pub open spec fn credentials_of(userpass: Option<Seq<char>>, c: Credentials) -> bool {
    match userpass {
        None => c is Anonymous,
        Some(u) => !free_of(u, ':') && (c matches Credentials::Basic(user, pass) && userpass_fields(
            u,
            user@,
            pass@,
        )),
    }
}

/// True when `userpass` is text that holds no `:`, which names no credentials.
pub open spec fn credentials_malformed(userpass: Option<Seq<char>>) -> bool {
    userpass matches Some(u) && free_of(u, ':')
}

pub open spec fn opt_str_view(o: Option<&str>) -> Option<Seq<char>> {
    match o {
        Some(s) => Some(s@),
        None => None,
    }
}

/// Reads optional `user:password` text into credentials.
pub fn credentials_from_userpass(userpass: Option<&str>) -> (r: Result<Credentials, ConfigError>)
    ensures
        match r {
            Ok(c) => credentials_of(opt_str_view(userpass), c),
            Err(e) => credentials_malformed(opt_str_view(userpass)) && e is MalformedCredentials,
        },
{
    match userpass {
        None => Ok(Credentials::Anonymous),
        Some(u) => {
            if contains_char(u, ':') {
                let (user, pass) = parse_userpass(u);
                Ok(Credentials::Basic(user, pass))
            } else {
                Err(ConfigError::MalformedCredentials)
            }
        },
    }
}

/// An image reference: registry, repository, and a tag, a digest or both.
#[derive(Clone, Debug)]
pub struct ImageRef {
    pub registry: String,
    pub repository: String,
    pub tag: Option<String>,
    pub digest: Option<String>,
}

impl ImageRef {
    pub open spec fn parts(&self) -> (Seq<char>, Seq<char>, Option<Seq<char>>, Option<Seq<char>>) {
        (self.registry@, self.repository@, opt_view(self.tag), opt_view(self.digest))
    }
}

/// What `oci_distribution::Reference` parses the text `s` into, read through
/// `registry`, `repository`, `tag` and `digest`; `None` where it does not parse.
pub uninterp spec fn reference_parts_of(s: Seq<char>) -> Option<
    (Seq<char>, Seq<char>, Option<Seq<char>>, Option<Seq<char>>),
>;

/// Relies on `oci_distribution::Reference::try_from` to parse an image
/// reference, and on its `registry`, `repository`, `tag` and `digest`
/// accessors to read it. The parser gives the tag `latest` where the text
/// names neither tag nor digest.
#[verifier::external_body]
fn parse_reference(s: &str) -> (r: Option<ImageRef>)
    ensures
        match r {
            None => reference_parts_of(s@) is None,
            Some(p) => reference_parts_of(s@) == Some(p.parts()) && (p.tag is Some
                || p.digest is Some),
        },
{
    match oci_distribution::Reference::try_from(s) {
        Ok(p) => Some(ImageRef {
            registry: p.registry().to_string(),
            repository: p.repository().to_string(),
            tag: p.tag().map(str::to_string),
            digest: p.digest().map(str::to_string),
        }),
        Err(_) => None,
    }
}

/// Parses `image` as a reference to an image on the registry `reg`.
pub fn image_reference(reg: &str, image: &str) -> (r: Result<ImageRef, ConfigError>)
    ensures
        match r {
            Ok(p) => reference_parts_of(reg@.push('/') + image@) == Some(p.parts()),
            Err(e) => reference_parts_of(reg@.push('/') + image@) is None && e is InvalidReference,
        },
{
    let mut whole = reg.to_string();
    push_char(&mut whole, '/');
    whole.append(image);
    match parse_reference(whole.as_str()) {
        Some(p) => Ok(p),
        None => Err(ConfigError::InvalidReference),
    }
}

/// The reference text for the `i`-th image that a push load test pushes:
/// `<reg>/<namespace>/<image>-<i>:<tag>`.
pub open spec fn push_reference(
    reg: Seq<char>,
    namespace: Seq<char>,
    image: Seq<char>,
    i: nat,
    tag: Seq<char>,
) -> Seq<char> {
    (((reg.push('/') + namespace).push('/') + image).push('-') + decimal(i)).push(':') + tag
}

/// Parses the reference of the `i`-th image that a push load test pushes.
pub fn push_image_reference(reg: &str, namespace: &str, image: &str, i: usize, tag: &str) -> (r:
    Result<ImageRef, ConfigError>)
    ensures
        match r {
            Ok(p) => reference_parts_of(push_reference(reg@, namespace@, image@, i as nat, tag@))
                == Some(p.parts()),
            Err(e) => reference_parts_of(
                push_reference(reg@, namespace@, image@, i as nat, tag@),
            ) is None && e is InvalidReference,
        },
{
    let mut whole = reg.to_string();
    push_char(&mut whole, '/');
    whole.append(namespace);
    push_char(&mut whole, '/');
    whole.append(image);
    push_char(&mut whole, '-');
    push_decimal(&mut whole, i as u64);
    push_char(&mut whole, ':');
    whole.append(tag);
    match parse_reference(whole.as_str()) {
        Some(p) => Ok(p),
        None => Err(ConfigError::InvalidReference),
    }
}

/// One image on a registry, with how to reach it.
#[derive(Clone, Debug)]
pub struct Target {
    pub reference: ImageRef,
    pub credentials: Credentials,
    pub mode: TransportMode,
}

/// Reads the configuration of a load test on one image: the registry URL,
/// optional `user:password` text, and the image's reference relative to the
/// registry. Fails before any work is done where one of them is unusable.
pub fn prepare_target(reg_url: &str, userpass: Option<&str>, image: &str) -> (r: Result<
    Target,
    ConfigError,
>)
    ensures
        match r {
            Ok(t) => reg_of(reg_url@) matches Some((reg, mode)) && t.mode == mode
                && reference_parts_of(reg.push('/') + image@) == Some(t.reference.parts())
                && credentials_of(opt_str_view(userpass), t.credentials),
            Err(e) => match reg_of(reg_url@) {
                None => reg_error(reg_url@, e),
                Some((reg, _)) => if reference_parts_of(reg.push('/') + image@) is None {
                    e is InvalidReference
                } else {
                    credentials_malformed(opt_str_view(userpass)) && e is MalformedCredentials
                },
            },
        },
{
    let (reg, mode) = match parse_reg(reg_url) {
        Ok(x) => x,
        Err(e) => {
            return Err(e);
        },
    };
    let reference = match image_reference(reg.as_str(), image) {
        Ok(p) => p,
        Err(e) => {
            return Err(e);
        },
    };
    let credentials = match credentials_from_userpass(userpass) {
        Ok(c) => c,
        Err(e) => {
            return Err(e);
        },
    };
    Ok(Target { reference, credentials, mode })
}

/// The configuration of a push load test: one reference per image to push.
#[derive(Clone, Debug)]
pub struct PushSetup {
    pub references: Vec<ImageRef>,
    pub credentials: Credentials,
    pub mode: TransportMode,
}

/// Reads the configuration of a push load test of `count` images, the `i`-th
/// of which goes to `<registry>/<namespace>/<image>-<i>:<tag>`. Fails before
/// any image is pushed where the registry URL, the credentials or any of the
/// references is unusable.
pub fn prepare_push(
    reg_url: &str,
    userpass: Option<&str>,
    count: usize,
    namespace: &str,
    image: &str,
    tag: &str,
) -> (r: Result<PushSetup, ConfigError>)
    ensures
        match r {
            Ok(p) => reg_of(reg_url@) matches Some((reg, mode)) && p.mode == mode
                && credentials_of(opt_str_view(userpass), p.credentials) && p.references.len()
                == count && forall|i: int|
                0 <= i < count ==> reference_parts_of(
                    #[trigger] push_reference(reg, namespace@, image@, i as nat, tag@),
                ) == Some(p.references[i].parts()),
            Err(e) => match reg_of(reg_url@) {
                None => reg_error(reg_url@, e),
                Some((reg, _)) => if credentials_malformed(opt_str_view(userpass)) {
                    e is MalformedCredentials
                } else {
                    e is InvalidReference && exists|i: int|
                        0 <= i < count && reference_parts_of(
                            #[trigger] push_reference(reg, namespace@, image@, i as nat, tag@),
                        ) is None
                },
            },
        },
{
    let (reg, mode) = match parse_reg(reg_url) {
        Ok(x) => x,
        Err(e) => {
            return Err(e);
        },
    };
    let credentials = match credentials_from_userpass(userpass) {
        Ok(c) => c,
        Err(e) => {
            return Err(e);
        },
    };
    let mut references: Vec<ImageRef> = Vec::new();
    for i in 0..count
        invariant
            references.len() == i,
            reg_of(reg_url@) == Some((reg@, mode)),
            credentials_of(opt_str_view(userpass), credentials),
            forall|k: int|
                0 <= k < i ==> reference_parts_of(
                    #[trigger] push_reference(reg@, namespace@, image@, k as nat, tag@),
                ) == Some(references[k].parts()),
    {
        match push_image_reference(reg.as_str(), namespace, image, i, tag) {
            Ok(p) => references.push(p),
            Err(e) => {
                let ghost k: int = i as int;
                assert(reference_parts_of(push_reference(reg@, namespace@, image@, k as nat, tag@))
                    is None);
                return Err(e);
            },
        }
    }
    Ok(PushSetup { references, credentials, mode })
}

} // verus!
