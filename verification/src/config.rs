//! The text of the files that a deployment writes: the configuration
//! rendered from a request, and the fixed settings and templates.
use vstd::prelude::*;

use crate::text::{
    ends_with, has_line, lemma_lines_text_push, lines_text, occurs_at, same_text, starts_with,
};

verus! {

/// The lifetime of the certificate of every route.
pub const ROUTE_CERT_DURATION: &'static str = "12h";

/// The RSA key size of the certificate of every route.
pub const ROUTE_CERT_KEY_SIZE: &'static str = "4096";

/// The DNS domain of the external profiles.
pub const EXTERNAL_DOMAIN: &'static str = "fiduciaedge.internal";

/// The DNS domain of the internal profiles.
pub const INTERNAL_DOMAIN: &'static str = "cluster.local";

/// Whether `profile` is one of the two profiles of the external domain.
pub open spec fn is_external_profile(profile: Seq<char>) -> bool {
    profile == "external-domain-server-cert"@ || profile == "external-domain-client-cert"@
}

/// Whether `profile` is one of the two profiles of the internal domain.
pub open spec fn is_internal_profile(profile: Seq<char>) -> bool {
    profile == "internal-domain-server-cert"@ || profile == "internal-domain-client-cert"@
}

/// The DNS domain of a profile; empty for a profile that is not known.
pub open spec fn domain_for(profile: Seq<char>) -> Seq<char> {
    if is_external_profile(profile) {
        EXTERNAL_DOMAIN@
    } else if is_internal_profile(profile) {
        INTERNAL_DOMAIN@
    } else {
        Seq::empty()
    }
}

/// The DNS domain under which routes and certificates of `profile` live.
pub fn domain_name(profile: &str) -> (d: &'static str)
    ensures
        d@ == domain_for(profile@),
{
    if same_text(profile, "external-domain-server-cert") || same_text(
        profile,
        "external-domain-client-cert",
    ) {
        EXTERNAL_DOMAIN
    } else if same_text(profile, "internal-domain-server-cert") || same_text(
        profile,
        "internal-domain-client-cert",
    ) {
        INTERNAL_DOMAIN
    } else {
        proof {
            reveal_strlit("");
        }
        ""
    }
}

/// The route configuration: the certificate settings of the ingress and
/// the one route, whose host name is the DNS name under the domain of the
/// profile, and whose certificate issuer is the profile.
pub open spec fn route_config_text(
    profile: Seq<char>,
    dns_name: Seq<char>,
    backend_service_name: Seq<char>,
    backend_service_port: Seq<char>,
    backend_service_scheme: Seq<char>,
) -> Seq<char> {
    let domain = domain_for(profile);
    "ingress:\n  certDuration: "@ + ROUTE_CERT_DURATION@ + "\n  certKeySize: "@
        + ROUTE_CERT_KEY_SIZE@ + "\n  domainName: "@ + domain + "\n  certIssuer: "@ + profile
        + "\n\n\n  routes:\n  - hostname: "@ + dns_name + "."@ + domain
        + "\n    backendServiceName: "@ + backend_service_name + "\n    backendServicePort: "@
        + backend_service_port + "\n    backendServiceScheme: "@ + backend_service_scheme
        + "\n    namespace: default\n\n"@
}

/// Renders the route configuration of a route request.
pub fn route_config(
    profile: &str,
    dns_name: &str,
    backend_service_name: &str,
    backend_service_port: &str,
    backend_service_scheme: &str,
) -> (s: String)
    ensures
        s@ == route_config_text(
            profile@,
            dns_name@,
            backend_service_name@,
            backend_service_port@,
            backend_service_scheme@,
        ),
{
    let domain = domain_name(profile);
    let mut s = String::from_str("ingress:\n  certDuration: ");
    s.append(ROUTE_CERT_DURATION);
    s.append("\n  certKeySize: ");
    s.append(ROUTE_CERT_KEY_SIZE);
    s.append("\n  domainName: ");
    s.append(domain);
    s.append("\n  certIssuer: ");
    s.append(profile);
    s.append("\n\n\n  routes:\n  - hostname: ");
    s.append(dns_name);
    s.append(".");
    s.append(domain);
    s.append("\n    backendServiceName: ");
    s.append(backend_service_name);
    s.append("\n    backendServicePort: ");
    s.append(backend_service_port);
    s.append("\n    backendServiceScheme: ");
    s.append(backend_service_scheme);
    s.append("\n    namespace: default\n\n");
    s
}

/// The certificate configuration: the four values of the request, in the
/// default namespace.
pub open spec fn certificate_config_text(
    profile: Seq<char>,
    common_name: Seq<char>,
    duration: Seq<char>,
    key_size: Seq<char>,
) -> Seq<char> {
    "certificate:\n    profile: "@ + profile + "\n    commonName: "@ + common_name
        + "\n    duration: "@ + duration + "\n    keysize: "@ + key_size
        + "\n    namespace: default\n\n"@
}

/// Renders the certificate configuration of a certificate request.
pub fn certificate_config(profile: &str, common_name: &str, duration: &str, key_size: &str) -> (s:
    String)
    ensures
        s@ == certificate_config_text(profile@, common_name@, duration@, key_size@),
{
    let mut s = String::from_str("certificate:\n    profile: ");
    s.append(profile);
    s.append("\n    commonName: ");
    s.append(common_name);
    s.append("\n    duration: ");
    s.append(duration);
    s.append("\n    keysize: ");
    s.append(key_size);
    s.append("\n    namespace: default\n\n");
    s
}

/// The two internal profiles live in `cluster.local`, the two external
/// ones in `fiduciaedge.internal`, and any other profile in no domain.
pub proof fn lemma_domain_of_profile(profile: Seq<char>)
    ensures
        profile == "internal-domain-server-cert"@ ==> domain_for(profile) == "cluster.local"@,
        profile == "internal-domain-client-cert"@ ==> domain_for(profile) == "cluster.local"@,
        profile == "external-domain-server-cert"@ ==> domain_for(profile)
            == "fiduciaedge.internal"@,
        profile == "external-domain-client-cert"@ ==> domain_for(profile)
            == "fiduciaedge.internal"@,
        profile != "internal-domain-server-cert"@ && profile != "internal-domain-client-cert"@
            && profile != "external-domain-server-cert"@ && profile
            != "external-domain-client-cert"@ ==> domain_for(profile).len() == 0,
{
    reveal_strlit("internal-domain-server-cert");
    reveal_strlit("internal-domain-client-cert");
    reveal_strlit("external-domain-server-cert");
    reveal_strlit("external-domain-client-cert");
    assert("internal-domain-server-cert"@[0] != "external-domain-server-cert"@[0]);
    assert("internal-domain-server-cert"@[0] != "external-domain-client-cert"@[0]);
    assert("internal-domain-client-cert"@[0] != "external-domain-server-cert"@[0]);
    assert("internal-domain-client-cert"@[0] != "external-domain-client-cert"@[0]);
}

/// The route configuration holds each value of the request on its own
/// line: the profile's domain, the profile as issuer, the host name made
/// of the DNS name under that domain, and the backend's name, port and
/// scheme. It opens with the fixed certificate settings and closes with the
/// default namespace, and holds nothing else.
pub proof fn lemma_route_config_lines(
    profile: Seq<char>,
    dns_name: Seq<char>,
    backend_service_name: Seq<char>,
    backend_service_port: Seq<char>,
    backend_service_scheme: Seq<char>,
)
    ensures
        ({
            let text = route_config_text(
                profile,
                dns_name,
                backend_service_name,
                backend_service_port,
                backend_service_scheme,
            );
            let domain = domain_for(profile);
            &&& starts_with(text, "ingress:\n  certDuration: 12h\n  certKeySize: 4096\n"@)
            &&& has_line(text, "  domainName: "@ + domain)
            &&& has_line(text, "  certIssuer: "@ + profile)
            &&& has_line(text, "  - hostname: "@ + dns_name + "."@ + domain)
            &&& has_line(text, "    backendServiceName: "@ + backend_service_name)
            &&& has_line(text, "    backendServicePort: "@ + backend_service_port)
            &&& has_line(text, "    backendServiceScheme: "@ + backend_service_scheme)
            &&& ends_with(text, "\n    namespace: default\n\n"@)
            &&& text.len() == 208 + 2 * domain.len() + profile.len() + dns_name.len()
                + backend_service_name.len() + backend_service_port.len()
                + backend_service_scheme.len()
        }),
{
    reveal_strlit("ingress:\n  certDuration: ");
    reveal_strlit("12h");
    reveal_strlit("\n  certKeySize: ");
    reveal_strlit("4096");
    reveal_strlit("\n  domainName: ");
    reveal_strlit("\n  certIssuer: ");
    reveal_strlit("\n\n\n  routes:\n  - hostname: ");
    reveal_strlit(".");
    reveal_strlit("\n    backendServiceName: ");
    reveal_strlit("\n    backendServicePort: ");
    reveal_strlit("\n    backendServiceScheme: ");
    reveal_strlit("\n    namespace: default\n\n");
    reveal_strlit("ingress:\n  certDuration: 12h\n  certKeySize: 4096\n");
    reveal_strlit("\n");
    reveal_strlit("  domainName: ");
    reveal_strlit("  certIssuer: ");
    reveal_strlit("  - hostname: ");
    reveal_strlit("    backendServiceName: ");
    reveal_strlit("    backendServicePort: ");
    reveal_strlit("    backendServiceScheme: ");
    let text = route_config_text(
        profile,
        dns_name,
        backend_service_name,
        backend_service_port,
        backend_service_scheme,
    );
    let domain = domain_for(profile);
    let nl = "\n"@;
    assert(text.take(49) =~= "ingress:\n  certDuration: 12h\n  certKeySize: 4096\n"@);

    let at_domain: int = 48;
    let line = nl + ("  domainName: "@ + domain) + nl;
    assert(text.subrange(at_domain, at_domain + line.len()) =~= line);
    assert(occurs_at(text, at_domain, line));

    let at_issuer: int = at_domain + 15 + domain.len();
    let line = nl + ("  certIssuer: "@ + profile) + nl;
    assert(text.subrange(at_issuer, at_issuer + line.len()) =~= line);
    assert(occurs_at(text, at_issuer, line));

    let at_host: int = at_issuer + 15 + profile.len() + 12;
    let line = nl + ("  - hostname: "@ + dns_name + "."@ + domain) + nl;
    assert(text.subrange(at_host, at_host + line.len()) =~= line);
    assert(occurs_at(text, at_host, line));

    let at_name: int = at_host + 15 + dns_name.len() + 1 + domain.len();
    let line = nl + ("    backendServiceName: "@ + backend_service_name) + nl;
    assert(text.subrange(at_name, at_name + line.len()) =~= line);
    assert(occurs_at(text, at_name, line));

    let at_port: int = at_name + 25 + backend_service_name.len();
    let line = nl + ("    backendServicePort: "@ + backend_service_port) + nl;
    assert(text.subrange(at_port, at_port + line.len()) =~= line);
    assert(occurs_at(text, at_port, line));

    let at_scheme: int = at_port + 25 + backend_service_port.len();
    let line = nl + ("    backendServiceScheme: "@ + backend_service_scheme) + nl;
    assert(text.subrange(at_scheme, at_scheme + line.len()) =~= line);
    assert(occurs_at(text, at_scheme, line));

    assert(text.skip(text.len() - 25) =~= "\n    namespace: default\n\n"@);
}

/// Two profiles of one domain give route configurations that differ only
/// in the issuer line: everything before the profile and everything after
/// it is the same.
pub proof fn lemma_route_config_same_domain(
    profile: Seq<char>,
    other_profile: Seq<char>,
    dns_name: Seq<char>,
    backend_service_name: Seq<char>,
    backend_service_port: Seq<char>,
    backend_service_scheme: Seq<char>,
)
    requires
        domain_for(profile) == domain_for(other_profile),
    ensures
        exists|head: Seq<char>, tail: Seq<char>|
            {
                &&& route_config_text(
                    profile,
                    dns_name,
                    backend_service_name,
                    backend_service_port,
                    backend_service_scheme,
                ) == head + profile + tail
                &&& route_config_text(
                    other_profile,
                    dns_name,
                    backend_service_name,
                    backend_service_port,
                    backend_service_scheme,
                ) == head + other_profile + tail
            },
{
    let domain = domain_for(profile);
    let head = "ingress:\n  certDuration: "@ + ROUTE_CERT_DURATION@ + "\n  certKeySize: "@
        + ROUTE_CERT_KEY_SIZE@ + "\n  domainName: "@ + domain + "\n  certIssuer: "@;
    let tail = "\n\n\n  routes:\n  - hostname: "@ + dns_name + "."@ + domain
        + "\n    backendServiceName: "@ + backend_service_name + "\n    backendServicePort: "@
        + backend_service_port + "\n    backendServiceScheme: "@ + backend_service_scheme
        + "\n    namespace: default\n\n"@;
    assert(route_config_text(
        profile,
        dns_name,
        backend_service_name,
        backend_service_port,
        backend_service_scheme,
    ) =~= head + profile + tail);
    assert(route_config_text(
        other_profile,
        dns_name,
        backend_service_name,
        backend_service_port,
        backend_service_scheme,
    ) =~= head + other_profile + tail);
}

/// The route configuration, line by line: the fixed certificate settings,
/// the profile's domain, the profile as issuer, two blank lines, the routes
/// with the one host name under the profile's domain and the backend's
/// name, port and scheme, the default namespace, and a blank line.
pub proof fn lemma_route_config_as_lines(
    profile: Seq<char>,
    dns_name: Seq<char>,
    backend_service_name: Seq<char>,
    backend_service_port: Seq<char>,
    backend_service_scheme: Seq<char>,
)
    ensures
        route_config_text(
            profile,
            dns_name,
            backend_service_name,
            backend_service_port,
            backend_service_scheme,
        ) == lines_text(
            seq![
                "ingress:"@,
                "  certDuration: 12h"@,
                "  certKeySize: 4096"@,
                "  domainName: "@ + domain_for(profile),
                "  certIssuer: "@ + profile,
                Seq::empty(),
                Seq::empty(),
                "  routes:"@,
                "  - hostname: "@ + dns_name + "."@ + domain_for(profile),
                "    backendServiceName: "@ + backend_service_name,
                "    backendServicePort: "@ + backend_service_port,
                "    backendServiceScheme: "@ + backend_service_scheme,
                "    namespace: default"@,
                Seq::empty(),
            ],
        ),
{
    reveal_strlit("ingress:\n  certDuration: ");
    reveal_strlit("12h");
    reveal_strlit("\n  certKeySize: ");
    reveal_strlit("4096");
    reveal_strlit("\n  domainName: ");
    reveal_strlit("\n  certIssuer: ");
    reveal_strlit("\n\n\n  routes:\n  - hostname: ");
    reveal_strlit(".");
    reveal_strlit("\n    backendServiceName: ");
    reveal_strlit("\n    backendServicePort: ");
    reveal_strlit("\n    backendServiceScheme: ");
    reveal_strlit("\n    namespace: default\n\n");
    reveal_strlit("\n");
    reveal_strlit("ingress:");
    reveal_strlit("  certDuration: 12h");
    reveal_strlit("  certKeySize: 4096");
    reveal_strlit("  domainName: ");
    reveal_strlit("  certIssuer: ");
    reveal_strlit("  routes:");
    reveal_strlit("  - hostname: ");
    reveal_strlit("    backendServiceName: ");
    reveal_strlit("    backendServicePort: ");
    reveal_strlit("    backendServiceScheme: ");
    reveal_strlit("    namespace: default");
    let domain = domain_for(profile);
    let empty = Seq::<char>::empty();
    let l0 = Seq::<Seq<char>>::empty();
    let l1 = l0.push("ingress:"@);
    let l2 = l1.push("  certDuration: 12h"@);
    let l3 = l2.push("  certKeySize: 4096"@);
    let l4 = l3.push("  domainName: "@ + domain);
    let l5 = l4.push("  certIssuer: "@ + profile);
    let l6 = l5.push(empty);
    let l7 = l6.push(empty);
    let l8 = l7.push("  routes:"@);
    let l9 = l8.push("  - hostname: "@ + dns_name + "."@ + domain);
    let l10 = l9.push("    backendServiceName: "@ + backend_service_name);
    let l11 = l10.push("    backendServicePort: "@ + backend_service_port);
    let l12 = l11.push("    backendServiceScheme: "@ + backend_service_scheme);
    let l13 = l12.push("    namespace: default"@);
    let l14 = l13.push(empty);
    lemma_lines_text_push(l0, "ingress:"@);
    lemma_lines_text_push(l1, "  certDuration: 12h"@);
    lemma_lines_text_push(l2, "  certKeySize: 4096"@);
    lemma_lines_text_push(l3, "  domainName: "@ + domain);
    lemma_lines_text_push(l4, "  certIssuer: "@ + profile);
    lemma_lines_text_push(l5, empty);
    lemma_lines_text_push(l6, empty);
    lemma_lines_text_push(l7, "  routes:"@);
    lemma_lines_text_push(l8, "  - hostname: "@ + dns_name + "."@ + domain);
    lemma_lines_text_push(l9, "    backendServiceName: "@ + backend_service_name);
    lemma_lines_text_push(l10, "    backendServicePort: "@ + backend_service_port);
    lemma_lines_text_push(l11, "    backendServiceScheme: "@ + backend_service_scheme);
    lemma_lines_text_push(l12, "    namespace: default"@);
    lemma_lines_text_push(l13, empty);
    assert(lines_text(l0) =~= empty);
    assert(l14 =~= seq![
        "ingress:"@,
        "  certDuration: 12h"@,
        "  certKeySize: 4096"@,
        "  domainName: "@ + domain_for(profile),
        "  certIssuer: "@ + profile,
        Seq::empty(),
        Seq::empty(),
        "  routes:"@,
        "  - hostname: "@ + dns_name + "."@ + domain_for(profile),
        "    backendServiceName: "@ + backend_service_name,
        "    backendServicePort: "@ + backend_service_port,
        "    backendServiceScheme: "@ + backend_service_scheme,
        "    namespace: default"@,
        Seq::empty(),
    ]);
    assert(route_config_text(
        profile,
        dns_name,
        backend_service_name,
        backend_service_port,
        backend_service_scheme,
    ) =~= lines_text(l14));
}

/// The certificate configuration holds each value of the request on its
/// own line, under its own key: profile, common name, duration and key
/// size, in the default namespace, and holds nothing else.
pub proof fn lemma_certificate_config_lines(
    profile: Seq<char>,
    common_name: Seq<char>,
    duration: Seq<char>,
    key_size: Seq<char>,
)
    ensures
        ({
            let text = certificate_config_text(profile, common_name, duration, key_size);
            &&& starts_with(text, "certificate:\n"@)
            &&& has_line(text, "    profile: "@ + profile)
            &&& has_line(text, "    commonName: "@ + common_name)
            &&& has_line(text, "    duration: "@ + duration)
            &&& has_line(text, "    keysize: "@ + key_size)
            &&& ends_with(text, "\n    namespace: default\n\n"@)
            &&& text.len() == 97 + profile.len() + common_name.len() + duration.len()
                + key_size.len()
        }),
{
    reveal_strlit("certificate:\n    profile: ");
    reveal_strlit("\n    commonName: ");
    reveal_strlit("\n    duration: ");
    reveal_strlit("\n    keysize: ");
    reveal_strlit("\n    namespace: default\n\n");
    reveal_strlit("certificate:\n");
    reveal_strlit("\n");
    reveal_strlit("    profile: ");
    reveal_strlit("    commonName: ");
    reveal_strlit("    duration: ");
    reveal_strlit("    keysize: ");
    let text = certificate_config_text(profile, common_name, duration, key_size);
    let nl = "\n"@;
    assert(text.take(13) =~= "certificate:\n"@);

    let at_profile: int = 12;
    let line = nl + ("    profile: "@ + profile) + nl;
    assert(text.subrange(at_profile, at_profile + line.len()) =~= line);
    assert(occurs_at(text, at_profile, line));

    let at_name: int = at_profile + 14 + profile.len();
    let line = nl + ("    commonName: "@ + common_name) + nl;
    assert(text.subrange(at_name, at_name + line.len()) =~= line);
    assert(occurs_at(text, at_name, line));

    let at_duration: int = at_name + 17 + common_name.len();
    let line = nl + ("    duration: "@ + duration) + nl;
    assert(text.subrange(at_duration, at_duration + line.len()) =~= line);
    assert(occurs_at(text, at_duration, line));

    let at_key_size: int = at_duration + 15 + duration.len();
    let line = nl + ("    keysize: "@ + key_size) + nl;
    assert(text.subrange(at_key_size, at_key_size + line.len()) =~= line);
    assert(occurs_at(text, at_key_size, line));

    assert(text.skip(text.len() - 25) =~= "\n    namespace: default\n\n"@);
}

/// The certificate configuration, line by line: the header, the profile,
/// the common name, the duration, the key size, the default namespace, and
/// a blank line.
pub proof fn lemma_certificate_config_as_lines(
    profile: Seq<char>,
    common_name: Seq<char>,
    duration: Seq<char>,
    key_size: Seq<char>,
)
    ensures
        certificate_config_text(profile, common_name, duration, key_size) == lines_text(
            seq![
                "certificate:"@,
                "    profile: "@ + profile,
                "    commonName: "@ + common_name,
                "    duration: "@ + duration,
                "    keysize: "@ + key_size,
                "    namespace: default"@,
                Seq::empty(),
            ],
        ),
{
    reveal_strlit("certificate:\n    profile: ");
    reveal_strlit("\n    commonName: ");
    reveal_strlit("\n    duration: ");
    reveal_strlit("\n    keysize: ");
    reveal_strlit("\n    namespace: default\n\n");
    reveal_strlit("\n");
    reveal_strlit("certificate:");
    reveal_strlit("    profile: ");
    reveal_strlit("    commonName: ");
    reveal_strlit("    duration: ");
    reveal_strlit("    keysize: ");
    reveal_strlit("    namespace: default");
    let empty = Seq::<char>::empty();
    let l0 = Seq::<Seq<char>>::empty();
    let l1 = l0.push("certificate:"@);
    let l2 = l1.push("    profile: "@ + profile);
    let l3 = l2.push("    commonName: "@ + common_name);
    let l4 = l3.push("    duration: "@ + duration);
    let l5 = l4.push("    keysize: "@ + key_size);
    let l6 = l5.push("    namespace: default"@);
    let l7 = l6.push(empty);
    lemma_lines_text_push(l0, "certificate:"@);
    lemma_lines_text_push(l1, "    profile: "@ + profile);
    lemma_lines_text_push(l2, "    commonName: "@ + common_name);
    lemma_lines_text_push(l3, "    duration: "@ + duration);
    lemma_lines_text_push(l4, "    keysize: "@ + key_size);
    lemma_lines_text_push(l5, "    namespace: default"@);
    lemma_lines_text_push(l6, empty);
    assert(lines_text(l0) =~= empty);
    assert(l7 =~= seq![
        "certificate:"@,
        "    profile: "@ + profile,
        "    commonName: "@ + common_name,
        "    duration: "@ + duration,
        "    keysize: "@ + key_size,
        "    namespace: default"@,
        Seq::empty(),
    ]);
    assert(certificate_config_text(profile, common_name, duration, key_size) =~= lines_text(l7));
}

/// The certificate configuration does not depend on the profile apart from
/// the profile line: for two profiles, everything before the profile and
/// everything after it is the same.
pub proof fn lemma_certificate_config_profile_line_only(
    profile: Seq<char>,
    other_profile: Seq<char>,
    common_name: Seq<char>,
    duration: Seq<char>,
    key_size: Seq<char>,
)
    ensures
        exists|head: Seq<char>, tail: Seq<char>|
            {
                &&& certificate_config_text(profile, common_name, duration, key_size) == head
                    + profile + tail
                &&& certificate_config_text(other_profile, common_name, duration, key_size)
                    == head + other_profile + tail
            },
{
    let head = "certificate:\n    profile: "@;
    let tail = "\n    commonName: "@ + common_name + "\n    duration: "@ + duration
        + "\n    keysize: "@ + key_size + "\n    namespace: default\n\n"@;
    assert(certificate_config_text(profile, common_name, duration, key_size) =~= head + profile
        + tail);
    assert(certificate_config_text(other_profile, common_name, duration, key_size) =~= head
        + other_profile + tail);
}

/// The shared settings that a route deployment appends to its route
/// configuration.
pub const ROUTE_FECBCTL_CONFIG: &'static str = r##"ingressRoute:
    profile:
        externalDomain:
            serverCert:
              certIssuerName: vault-issuer-servercert-external-domain
              domainName: fiduciaedge.internal
            clientCert:
              certIssuerName: vault-issuer-clientcert-external-domain
              domainName: fiduciaedge.internal
        internalDomain:
            serverCert:
              certIssuerName: vault-issuer-servercert-internal-domain
              domainName: cluster.local
            clientCert:
              certIssuerName: vault-issuer-clientcert-internal-domain
              domainName: cluster.local"##;

/// The shared settings that a certificate deployment appends to its
/// certificate configuration.
pub const CERTIFICATE_FECBCTL_CONFIG: &'static str = r##"ingressRoute:
    profile:
        externalDomain:
            serverCert:
                certIssuerName: vault-issuer-servercert-external-domain
                domainName: fiduciaedge.internal
            clientCert:
                certIssuerName: vault-issuer-clientcert-external-domain
                domainName: fiduciaedge.internal
        internalDomain:
            serverCert:
                certIssuerName: vault-issuer-servercert-internal-domain
                domainName: cluster.local
            clientCert:
                certIssuerName: vault-issuer-clientcert-internal-domain
                domainName: cluster.local"##;

/// The j2 template that turns the merged route configuration into the
/// Certificate, ServersTransport and IngressRoute resources of each route.
pub const INGRESS_ROUTE_TEMPLATE: &'static str = r##"{% for item in ingress.routes %}
---
apiVersion: cert-manager.io/v1
kind: Certificate
metadata:
  name: ingress-{{ item.hostname | replace('.','-')  }}
  namespace: {{ item.namespace }}
spec:
  secretName: ingress-{{ item.hostname | replace('.','-') }}
  duration: {{ ingress.certDuration }}
  issuerRef:
    name: {{ ingress.certIssuer }}
    kind: ClusterIssuer
  commonName: {{ item.hostname }}
  dnsNames:
  - {{ item.hostname }}
  privateKey:
    algorithm: RSA
    size: {{ ingress.certKeySize }}

---

{% if item.backendServiceScheme == 'https' %}
apiVersion: traefik.containo.us/v1alpha1
kind: ServersTransport
metadata:
  name: {{ item.backendServiceName }}-server-transport
  namespace: {{ item.namespace }}


spec:
  serverName: {{ item.backendServiceName }}
  insecureSkipVerify: true
  forwardingTimeouts:
    dialTimeout: 42s
    responseHeaderTimeout: 42s
    idleConnTimeout: 42s
{% endif %}


---


apiVersion: traefik.containo.us/v1alpha1
kind: IngressRoute
metadata:
  name: ingress-{{ item.hostname | replace('.','-') }}
  namespace: {{ item.namespace }}
  labels:
    app.kubernetes.io/name: traefik
    app.kubernetes.io/instance: traefik
spec:
  entryPoints:
    - websecure
  routes:
  - match: Host("{{ item.hostname }}")
    kind: Rule
    services:
    - name: {{ item.backendServiceName }}
      port: {{ item.backendServicePort }}
      scheme: {{ item. backendServiceScheme }}
      passHostHeader: true
      {% if item.backendServiceScheme == 'https' %}serversTransport: {{ item.backendServiceName }}-server-transport{% endif %}
  tls:
    secretName: ingress-{{ item.hostname | replace('.','-') }}
    domains:
    - main: {{ ingress.domainName }}
      sans:
      - {{ item.hostname }}
    # mtls
    # options:
    #   name: traefik-client-auth
    #   namespace: $NAMESPACE_TLS_OPTION


{% endfor %}"##;

/// The j2 template that turns the merged configuration of a client
/// certificate into a Certificate resource.
pub const CLIENT_CERTIFICATE_TEMPLATE: &'static str = r##"apiVersion: cert-manager.io/v1
kind: Certificate
metadata:
  name: {{ certificate.commonName | replace('.','-') | replace('@','-') }}
  namespace: {{ certificate.namespace }}
spec:
  secretName: ingress-{{ certificate.commonName | replace('.','-') | replace('@','-') }}
  duration: {{ certificate.duration }}
  issuerRef:
    name: {%- if certificate.profile == 'external-domain-server-cert' %} ingressRoute.profile.externalDomain.serverCert.certIssuerName
          {%- elif certificate.profile == 'external-domain-client-cert' %} ingressRoute.profile.externalDomain.clientCert.certIssuerName
          {%- elif certificate.profile == 'internal-domain-server-cert' %} ingressRoute.profile.internalDomain.serverCert.certIssuerName
          {%- elif certificate.profile == 'internal-domain-client-cert' %} ingressRoute.profile.internalDomain.clientCert.certIssuerName
          {%- endif %}
    kind: ClusterIssuer
  commonName: {{ certificate.commonName }}
  dnsNames:
  - {{ certificate.commonName }}
  privateKey:
    algorithm: RSA
    size: {{ certificate.keysize }}
  "##;

/// The j2 template that turns the merged configuration of a server
/// certificate into a Certificate resource.
pub const SERVER_CERTIFICATE_TEMPLATE: &'static str = r##"apiVersion: cert-manager.io/v1
kind: Certificate
metadata:
  name: {{ certificate.commonName | replace('.','-')  }}
  namespace: {{ certificate.namespace }}
spec:
  secretName: ingress-{{ certificate.commonName | replace('.','-') }}
  duration: {{ certificate.duration }}
  issuerRef:
    name: {%- if certificate.profile == 'external-domain-server-cert' %} ingressRoute.profile.externalDomain.serverCert.certIssuerName
          {%- elif certificate.profile == 'external-domain-client-cert' %} ingressRoute.profile.externalDomain.clientCert.certIssuerName
          {%- elif certificate.profile == 'internal-domain-server-cert' %} ingressRoute.profile.internalDomain.serverCert.certIssuerName
          {%- elif certificate.profile == 'internal-domain-client-cert' %} ingressRoute.profile.internalDomain.clientCert.certIssuerName
          {%- endif %}
    kind: ClusterIssuer
  commonName: {{ certificate.commonName }}
  dnsNames:
  - {{ certificate.commonName }}
  privateKey:
    algorithm: RSA
    size: {{ certificate.keysize }}
  "##;

} // verus!
