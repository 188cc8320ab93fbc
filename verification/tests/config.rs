use fecbctl::config::{
    certificate_config, domain_name, route_config, CERTIFICATE_FECBCTL_CONFIG,
    CLIENT_CERTIFICATE_TEMPLATE, INGRESS_ROUTE_TEMPLATE, ROUTE_FECBCTL_CONFIG,
    SERVER_CERTIFICATE_TEMPLATE,
};

#[test]
fn domain_of_external_profiles() {
    assert_eq!(domain_name("external-domain-server-cert"), "fiduciaedge.internal");
    assert_eq!(domain_name("external-domain-client-cert"), "fiduciaedge.internal");
}

#[test]
fn domain_of_internal_profiles() {
    assert_eq!(domain_name("internal-domain-server-cert"), "cluster.local");
    assert_eq!(domain_name("internal-domain-client-cert"), "cluster.local");
}

#[test]
fn domain_of_unknown_profiles_is_empty() {
    assert_eq!(domain_name(""), "");
    assert_eq!(domain_name("external-domain-server-cert "), "");
    assert_eq!(domain_name("External-domain-server-cert"), "");
    assert_eq!(domain_name("internal-domain"), "");
}

#[test]
fn route_config_of_external_profile() {
    let text = route_config("external-domain-server-cert", "api", "svc", "8443", "https");
    let expected = format!(
        r##"ingress:
  certDuration: {}
  certKeySize: {}
  domainName: {}
  certIssuer: {}


  routes:
  - hostname: {}.{}
    backendServiceName: {}
    backendServicePort: {}
    backendServiceScheme: {}
    namespace: default

"##,
        "12h", "4096", "fiduciaedge.internal", "external-domain-server-cert", "api",
        "fiduciaedge.internal", "svc", "8443", "https"
    );
    assert_eq!(text, expected);
    assert!(text.contains("  - hostname: api.fiduciaedge.internal\n"));
}

#[test]
fn route_config_of_internal_profile() {
    let text = route_config("internal-domain-client-cert", "web.team", "backend", "80", "http");
    assert_eq!(
        text,
        "ingress:\n  certDuration: 12h\n  certKeySize: 4096\n  domainName: cluster.local\n  certIssuer: internal-domain-client-cert\n\n\n  routes:\n  - hostname: web.team.cluster.local\n    backendServiceName: backend\n    backendServicePort: 80\n    backendServiceScheme: http\n    namespace: default\n\n"
    );
}

#[test]
fn route_config_of_unknown_profile_has_empty_domain() {
    let text = route_config("custom", "api", "svc", "1", "https");
    assert!(text.contains("  domainName: \n  certIssuer: custom\n"));
    assert!(text.contains("  - hostname: api.\n"));
}

#[test]
fn certificate_config_lists_the_four_values() {
    let text = certificate_config("external-domain-client-cert", "user@example.org", "24h", "2048");
    let expected = format!(
        r##"certificate:
    profile: {}
    commonName: {}
    duration: {}
    keysize: {}
    namespace: default

"##,
        "external-domain-client-cert", "user@example.org", "24h", "2048"
    );
    assert_eq!(text, expected);
    assert_eq!(
        text,
        "certificate:\n    profile: external-domain-client-cert\n    commonName: user@example.org\n    duration: 24h\n    keysize: 2048\n    namespace: default\n\n"
    );
}

#[test]
fn certificate_config_of_empty_values() {
    assert_eq!(
        certificate_config("", "", "", ""),
        "certificate:\n    profile: \n    commonName: \n    duration: \n    keysize: \n    namespace: default\n\n"
    );
}

#[test]
fn route_shared_settings() {
    assert_eq!(ROUTE_FECBCTL_CONFIG, format!(r##"ingressRoute:
    profile:
        externalDomain:
            serverCert:
              certIssuerName: vault-issuer-servercert-external-domain
              domainName: fiduciaedge.internal
            clientCert:
              certIssuerName: vault-issuer-clientcert-external-domain
              domainName: fiduciaedge.internal
        internalDomain:
            serverCert:
              certIssuerName: vault-issuer-servercert-internal-domain
              domainName: cluster.local
            clientCert:
              certIssuerName: vault-issuer-clientcert-internal-domain
              domainName: cluster.local"##));
}

#[test]
fn certificate_shared_settings() {
    assert_eq!(CERTIFICATE_FECBCTL_CONFIG, format!(r##"ingressRoute:
    profile:
        externalDomain:
            serverCert:
                certIssuerName: vault-issuer-servercert-external-domain
                domainName: fiduciaedge.internal
            clientCert:
                certIssuerName: vault-issuer-clientcert-external-domain
                domainName: fiduciaedge.internal
        internalDomain:
            serverCert:
                certIssuerName: vault-issuer-servercert-internal-domain
                domainName: cluster.local
            clientCert:
                certIssuerName: vault-issuer-clientcert-internal-domain
                domainName: cluster.local"##));
    assert_ne!(CERTIFICATE_FECBCTL_CONFIG, ROUTE_FECBCTL_CONFIG);
}

#[test]
fn ingress_route_template() {
    assert_eq!(INGRESS_ROUTE_TEMPLATE, format!(r##"{{% for item in ingress.routes %}}
---
apiVersion: cert-manager.io/v1
kind: Certificate
metadata:
  name: ingress-{{{{ item.hostname | replace('.','-')  }}}}
  namespace: {{{{ item.namespace }}}}
spec:
  secretName: ingress-{{{{ item.hostname | replace('.','-') }}}}
  duration: {{{{ ingress.certDuration }}}}
  issuerRef:
    name: {{{{ ingress.certIssuer }}}}
    kind: ClusterIssuer
  commonName: {{{{ item.hostname }}}}
  dnsNames:
  - {{{{ item.hostname }}}}
  privateKey:
    algorithm: RSA
    size: {{{{ ingress.certKeySize }}}}

---

{{% if item.backendServiceScheme == 'https' %}}
apiVersion: traefik.containo.us/v1alpha1
kind: ServersTransport
metadata:
  name: {{{{ item.backendServiceName }}}}-server-transport
  namespace: {{{{ item.namespace }}}}


spec:
  serverName: {{{{ item.backendServiceName }}}}
  insecureSkipVerify: true
  forwardingTimeouts:
    dialTimeout: 42s
    responseHeaderTimeout: 42s
    idleConnTimeout: 42s
{{% endif %}}


---


apiVersion: traefik.containo.us/v1alpha1
kind: IngressRoute
metadata:
  name: ingress-{{{{ item.hostname | replace('.','-') }}}}
  namespace: {{{{ item.namespace }}}}
  labels:
    app.kubernetes.io/name: traefik
    app.kubernetes.io/instance: traefik
spec:
  entryPoints:
    - websecure
  routes:
  - match: Host("{{{{ item.hostname }}}}")
    kind: Rule
    services:
    - name: {{{{ item.backendServiceName }}}}
      port: {{{{ item.backendServicePort }}}}
      scheme: {{{{ item. backendServiceScheme }}}}
      passHostHeader: true
      {{% if item.backendServiceScheme == 'https' %}}serversTransport: {{{{ item.backendServiceName }}}}-server-transport{{% endif %}}
  tls:
    secretName: ingress-{{{{ item.hostname | replace('.','-') }}}}
    domains:
    - main: {{{{ ingress.domainName }}}}
      sans:
      - {{{{ item.hostname }}}}
    # mtls
    # options:
    #   name: traefik-client-auth
    #   namespace: $NAMESPACE_TLS_OPTION


{{% endfor %}}"##));
}

#[test]
fn client_certificate_template() {
    assert_eq!(CLIENT_CERTIFICATE_TEMPLATE, format!(r##"apiVersion: cert-manager.io/v1
kind: Certificate
metadata:
  name: {{{{ certificate.commonName | replace('.','-') | replace('@','-') }}}}
  namespace: {{{{ certificate.namespace }}}}
spec:
  secretName: ingress-{{{{ certificate.commonName | replace('.','-') | replace('@','-') }}}}
  duration: {{{{ certificate.duration }}}}
  issuerRef:
    name: {{%- if certificate.profile == 'external-domain-server-cert' %}} ingressRoute.profile.externalDomain.serverCert.certIssuerName
          {{%- elif certificate.profile == 'external-domain-client-cert' %}} ingressRoute.profile.externalDomain.clientCert.certIssuerName
          {{%- elif certificate.profile == 'internal-domain-server-cert' %}} ingressRoute.profile.internalDomain.serverCert.certIssuerName
          {{%- elif certificate.profile == 'internal-domain-client-cert' %}} ingressRoute.profile.internalDomain.clientCert.certIssuerName
          {{%- endif %}}
    kind: ClusterIssuer
  commonName: {{{{ certificate.commonName }}}}
  dnsNames:
  - {{{{ certificate.commonName }}}}
  privateKey:
    algorithm: RSA
    size: {{{{ certificate.keysize }}}}
  "##));
}

#[test]
fn server_certificate_template() {
    assert_eq!(SERVER_CERTIFICATE_TEMPLATE, format!(r##"apiVersion: cert-manager.io/v1
kind: Certificate
metadata:
  name: {{{{ certificate.commonName | replace('.','-')  }}}}
  namespace: {{{{ certificate.namespace }}}}
spec:
  secretName: ingress-{{{{ certificate.commonName | replace('.','-') }}}}
  duration: {{{{ certificate.duration }}}}
  issuerRef:
    name: {{%- if certificate.profile == 'external-domain-server-cert' %}} ingressRoute.profile.externalDomain.serverCert.certIssuerName
          {{%- elif certificate.profile == 'external-domain-client-cert' %}} ingressRoute.profile.externalDomain.clientCert.certIssuerName
          {{%- elif certificate.profile == 'internal-domain-server-cert' %}} ingressRoute.profile.internalDomain.serverCert.certIssuerName
          {{%- elif certificate.profile == 'internal-domain-client-cert' %}} ingressRoute.profile.internalDomain.clientCert.certIssuerName
          {{%- endif %}}
    kind: ClusterIssuer
  commonName: {{{{ certificate.commonName }}}}
  dnsNames:
  - {{{{ certificate.commonName }}}}
  privateKey:
    algorithm: RSA
    size: {{{{ certificate.keysize }}}}
  "##));
    assert_ne!(SERVER_CERTIFICATE_TEMPLATE, CLIENT_CERTIFICATE_TEMPLATE);
}
