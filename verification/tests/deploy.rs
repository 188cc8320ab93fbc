use fecbctl::deploy::{
    certificate_deployment, route_deployment, select_mode, CertificateKind, Mode, Step,
};
use fecbctl::config::{
    certificate_config, route_config, CERTIFICATE_FECBCTL_CONFIG, CLIENT_CERTIFICATE_TEMPLATE,
    INGRESS_ROUTE_TEMPLATE, ROUTE_FECBCTL_CONFIG, SERVER_CERTIFICATE_TEMPLATE,
};

fn words(items: &[&str]) -> Vec<String> {
    items.iter().map(|s| s.to_string()).collect()
}

fn write(step: &Step) -> (&str, &str) {
    match step {
        Step::WriteFile { path, contents } => (path, contents),
        other => panic!("expected a file to write, got {:?}", other),
    }
}

fn spawn(step: &Step) -> (&str, Vec<&str>, Option<&str>, bool) {
    match step {
        Step::Spawn { program, args, stdout, must_start } => (
            program,
            args.iter().map(|a| a.as_str()).collect(),
            stdout.as_deref(),
            *must_start,
        ),
        other => panic!("expected a command to start, got {:?}", other),
    }
}

fn exec(step: &Step) -> (&str, Vec<&str>) {
    match step {
        Step::Exec { program, args } => (program, args.iter().map(|a| a.as_str()).collect()),
        other => panic!("expected a command to run in place, got {:?}", other),
    }
}

#[test]
fn route_deployment_steps() {
    let steps = route_deployment("internal-domain-server-cert", "api", "svc", "8080", "http");
    assert_eq!(steps.len(), 6);
    assert_eq!(
        write(&steps[0]),
        (
            "../../route_config.yaml",
            route_config("internal-domain-server-cert", "api", "svc", "8080", "http").as_str()
        )
    );
    assert_eq!(write(&steps[1]), ("../../fecbctl.config", ROUTE_FECBCTL_CONFIG));
    assert_eq!(
        spawn(&steps[2]),
        (
            "/bin/sh",
            vec!["-c", "cat ../../route_config.yaml ../../fecbctl.config > ../../config.yaml"],
            None,
            true
        )
    );
    assert_eq!(write(&steps[3]), ("../../ingressroute.yaml.j2", INGRESS_ROUTE_TEMPLATE));
    assert_eq!(
        spawn(&steps[4]),
        (
            "j2",
            vec!["-f", "yaml", "../../ingressroute.yaml.j2", "../../config.yaml"],
            Some("../../ingressroute.yaml"),
            false
        )
    );
    assert_eq!(exec(&steps[5]), ("kubectl", vec!["apply", "-f", "../../ingressroute.yaml"]));
}

#[test]
fn route_deployment_writes_rendered_route_config() {
    let steps = route_deployment("external-domain-client-cert", "a.b", "n", "1", "https");
    let (_, contents) = write(&steps[0]);
    assert!(contents.contains("  - hostname: a.b.fiduciaedge.internal\n"));
    assert!(contents.contains("  certIssuer: external-domain-client-cert\n"));
}

#[test]
fn client_certificate_deployment_steps() {
    let steps = certificate_deployment(
        CertificateKind::Client,
        "external-domain-client-cert",
        "bob@example.org",
        "12h",
        "4096",
    );
    assert_eq!(steps.len(), 6);
    assert_eq!(
        write(&steps[0]),
        (
            "../../client_config.yaml",
            certificate_config("external-domain-client-cert", "bob@example.org", "12h", "4096")
                .as_str()
        )
    );
    assert_eq!(write(&steps[1]), ("../../fecbctl.config", CERTIFICATE_FECBCTL_CONFIG));
    assert_eq!(
        spawn(&steps[2]),
        (
            "/bin/sh",
            vec!["-c", "cat ../../client_config.yaml ../../fecbctl.config > ../../config.yaml"],
            None,
            true
        )
    );
    assert_eq!(write(&steps[3]), ("../../certificate.yaml.j2", CLIENT_CERTIFICATE_TEMPLATE));
    assert_eq!(
        spawn(&steps[4]),
        (
            "j2",
            vec!["-f", "yaml", "../../certificate.yaml.j2", "../../config.yaml"],
            Some("../../certificate.yaml"),
            false
        )
    );
    assert_eq!(exec(&steps[5]), ("kubectl", vec!["apply", "-f", "../../certificate.yaml"]));
}

#[test]
fn server_certificate_deployment_steps() {
    let steps = certificate_deployment(
        CertificateKind::Server,
        "internal-domain-server-cert",
        "api.cluster.local",
        "48h",
        "2048",
    );
    assert_eq!(steps.len(), 6);
    assert_eq!(
        write(&steps[0]),
        (
            "../../server_config.yaml",
            certificate_config("internal-domain-server-cert", "api.cluster.local", "48h", "2048")
                .as_str()
        )
    );
    assert_eq!(
        spawn(&steps[2]).1,
        vec!["-c", "cat ../../server_config.yaml ../../fecbctl.config > ../../config.yaml"]
    );
    assert_eq!(write(&steps[3]), ("../../certificate.yaml.j2", SERVER_CERTIFICATE_TEMPLATE));
    assert_eq!(exec(&steps[5]), ("kubectl", vec!["apply", "-f", "../../certificate.yaml"]));
}

#[test]
fn deployments_are_connected() {
    let plans = vec![
        route_deployment("p", "d", "n", "1", "s"),
        certificate_deployment(CertificateKind::Client, "p", "c", "d", "k"),
        certificate_deployment(CertificateKind::Server, "p", "c", "d", "k"),
    ];
    for steps in &plans {
        let (config_path, _) = write(&steps[0]);
        let (settings_path, _) = write(&steps[1]);
        let (_, merge_args, _, _) = spawn(&steps[2]);
        let (template_path, _) = write(&steps[3]);
        let (_, render_args, rendered, _) = spawn(&steps[4]);
        let (_, apply_args) = exec(&steps[5]);
        assert_eq!(
            merge_args[1],
            format!("cat {} {} > {}", config_path, settings_path, render_args[3])
        );
        assert_eq!(render_args[2], template_path);
        assert_eq!(Some(apply_args[2]), rendered);
    }
}

#[test]
fn certificate_kinds_share_configuration() {
    let client = certificate_deployment(CertificateKind::Client, "p", "c", "d", "k");
    let server = certificate_deployment(CertificateKind::Server, "p", "c", "d", "k");
    assert_eq!(write(&client[0]).1, write(&server[0]).1);
    assert_ne!(write(&client[0]).0, write(&server[0]).0);
    assert_eq!(write(&client[1]), write(&server[1]));
    assert_eq!(write(&client[3]).0, write(&server[3]).0);
    assert_eq!(spawn(&client[4]), spawn(&server[4]));
    assert_eq!(exec(&client[5]), exec(&server[5]));
}

#[test]
fn mode_route() {
    assert_eq!(select_mode(&words(&["fecbctl", "route"])), Mode::Route);
    assert_eq!(
        select_mode(&words(&["fecbctl", "route", "create", "--profile", "x"])),
        Mode::Route
    );
}

#[test]
fn mode_certificates() {
    assert_eq!(
        select_mode(&words(&["fecbctl", "cert", "client", "create"])),
        Mode::Certificate(CertificateKind::Client)
    );
    assert_eq!(
        select_mode(&words(&["fecbctl", "cert", "server"])),
        Mode::Certificate(CertificateKind::Server)
    );
}

#[test]
fn mode_nothing() {
    assert_eq!(select_mode(&words(&["fecbctl", "cert", "user"])), Mode::Nothing);
    assert_eq!(select_mode(&words(&["fecbctl", "routes"])), Mode::Nothing);
    assert_eq!(select_mode(&words(&["fecbctl", "Route"])), Mode::Nothing);
    assert_eq!(select_mode(&words(&["fecbctl", ""])), Mode::Nothing);
    assert_eq!(select_mode(&words(&["fecbctl", "client", "cert"])), Mode::Nothing);
}
