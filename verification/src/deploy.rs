//! What a deployment does, as a list of steps: the files it writes and the
//! commands it starts, in order. Carrying the steps out is left to the
//! caller.
use vstd::prelude::*;

use crate::config::{
    certificate_config, certificate_config_text, route_config, route_config_text,
    CERTIFICATE_FECBCTL_CONFIG, CLIENT_CERTIFICATE_TEMPLATE, INGRESS_ROUTE_TEMPLATE,
    ROUTE_FECBCTL_CONFIG, SERVER_CERTIFICATE_TEMPLATE,
};
use crate::text::same_text;

verus! {

/// Where the shared settings are written.
pub const FECBCTL_CONFIG_PATH: &'static str = "../../fecbctl.config";

/// Where the request's configuration and the shared settings are merged.
pub const MERGED_CONFIG_PATH: &'static str = "../../config.yaml";

/// Where a route request's configuration is written.
pub const ROUTE_CONFIG_PATH: &'static str = "../../route_config.yaml";

/// Where the ingress route template is written.
pub const INGRESS_ROUTE_TEMPLATE_PATH: &'static str = "../../ingressroute.yaml.j2";

/// Where the rendered ingress route resources are written.
pub const INGRESS_ROUTE_PATH: &'static str = "../../ingressroute.yaml";

/// Where a client certificate request's configuration is written.
pub const CLIENT_CONFIG_PATH: &'static str = "../../client_config.yaml";

/// Where a server certificate request's configuration is written.
pub const SERVER_CONFIG_PATH: &'static str = "../../server_config.yaml";

/// Where the certificate template is written.
pub const CERTIFICATE_TEMPLATE_PATH: &'static str = "../../certificate.yaml.j2";

/// Where the rendered certificate resource is written.
pub const CERTIFICATE_PATH: &'static str = "../../certificate.yaml";

/// The shell that merges the two configuration files.
pub const SHELL: &'static str = "/bin/sh";

/// The template renderer.
pub const RENDERER: &'static str = "j2";

/// The cluster client that applies the rendered resources.
pub const KUBECTL: &'static str = "kubectl";

/// One step of a deployment.
#[derive(Debug)]
pub enum Step {
    /// Create (or truncate) the file at `path` and write `contents` to it.
    WriteFile { path: String, contents: String },
    /// Start `program` with `args` and go on without waiting for it. With
    /// `stdout`, its standard output goes to that file, created first.
    /// With `must_start`, failing to start it ends the deployment.
    Spawn { program: String, args: Vec<String>, stdout: Option<String>, must_start: bool },
    /// Replace the running process by `program` with `args`.
    Exec { program: String, args: Vec<String> },
}

/// A step, with its strings taken as character sequences.
pub enum Action {
    WriteFile { path: Seq<char>, contents: Seq<char> },
    Spawn {
        program: Seq<char>,
        args: Seq<Seq<char>>,
        stdout: Option<Seq<char>>,
        must_start: bool,
    },
    Exec { program: Seq<char>, args: Seq<Seq<char>> },
}

/// The character sequences of a list of strings.
pub open spec fn texts(v: Seq<String>) -> Seq<Seq<char>> {
    v.map_values(|s: String| s@)
}

impl View for Step {
    type V = Action;

    open spec fn view(&self) -> Action {
        match self {
            Step::WriteFile { path, contents } => Action::WriteFile {
                path: path@,
                contents: contents@,
            },
            Step::Spawn { program, args, stdout, must_start } => Action::Spawn {
                program: program@,
                args: texts(args@),
                stdout: match stdout {
                    Some(out) => Some(out@),
                    None => None,
                },
                must_start: *must_start,
            },
            Step::Exec { program, args } => Action::Exec {
                program: program@,
                args: texts(args@),
            },
        }
    }
}

/// The actions of a list of steps.
pub open spec fn actions(steps: Seq<Step>) -> Seq<Action> {
    steps.map_values(|s: Step| s@)
}

/// The shell command that writes `first` followed by `second` to `target`.
pub open spec fn merge_command(first: Seq<char>, second: Seq<char>, target: Seq<char>) -> Seq<
    char,
> {
    "cat "@ + first + " "@ + second + " > "@ + target
}

/// A deployment: write the request's configuration and the shared
/// settings, merge them in the background, write the template, render it
/// with the merged configuration in the background, and hand the rendered
/// resources to the cluster.
pub open spec fn deployment_plan(
    config_path: Seq<char>,
    config: Seq<char>,
    shared_settings: Seq<char>,
    template_path: Seq<char>,
    template: Seq<char>,
    output_path: Seq<char>,
) -> Seq<Action> {
    seq![
        Action::WriteFile { path: config_path, contents: config },
        Action::WriteFile { path: FECBCTL_CONFIG_PATH@, contents: shared_settings },
        Action::Spawn {
            program: SHELL@,
            args: seq!["-c"@, merge_command(config_path, FECBCTL_CONFIG_PATH@, MERGED_CONFIG_PATH@)],
            stdout: None,
            must_start: true,
        },
        Action::WriteFile { path: template_path, contents: template },
        Action::Spawn {
            program: RENDERER@,
            args: seq!["-f"@, "yaml"@, template_path, MERGED_CONFIG_PATH@],
            stdout: Some(output_path),
            must_start: false,
        },
        Action::Exec { program: KUBECTL@, args: seq!["apply"@, "-f"@, output_path] },
    ]
}

fn owned(s: &str) -> (r: String)
    ensures
        r@ == s@,
{
    String::from_str(s)
}

fn merge_command_text(first: &str, second: &str, target: &str) -> (r: String)
    ensures
        r@ == merge_command(first@, second@, target@),
{
    let mut r = String::from_str("cat ");
    r.append(first);
    r.append(" ");
    r.append(second);
    r.append(" > ");
    r.append(target);
    r
}

/// The steps of a deployment; see `deployment_plan`.
pub fn deployment(
    config_path: &str,
    config: String,
    shared_settings: &str,
    template_path: &str,
    template: &str,
    output_path: &str,
) -> (steps: Vec<Step>)
    ensures
        actions(steps@) == deployment_plan(
            config_path@,
            config@,
            shared_settings@,
            template_path@,
            template@,
            output_path@,
        ),
{
    let mut steps: Vec<Step> = Vec::new();
    steps.push(Step::WriteFile { path: owned(config_path), contents: config });
    steps.push(Step::WriteFile { path: owned(FECBCTL_CONFIG_PATH), contents: owned(shared_settings) });

    let mut merge_args: Vec<String> = Vec::new();
    merge_args.push(owned("-c"));
    merge_args.push(merge_command_text(config_path, FECBCTL_CONFIG_PATH, MERGED_CONFIG_PATH));
    assert(texts(merge_args@) =~= seq![
        "-c"@,
        merge_command(config_path@, FECBCTL_CONFIG_PATH@, MERGED_CONFIG_PATH@),
    ]);
    steps.push(Step::Spawn { program: owned(SHELL), args: merge_args, stdout: None, must_start: true });

    steps.push(Step::WriteFile { path: owned(template_path), contents: owned(template) });

    let mut render_args: Vec<String> = Vec::new();
    render_args.push(owned("-f"));
    render_args.push(owned("yaml"));
    render_args.push(owned(template_path));
    render_args.push(owned(MERGED_CONFIG_PATH));
    assert(texts(render_args@) =~= seq!["-f"@, "yaml"@, template_path@, MERGED_CONFIG_PATH@]);
    steps.push(
        Step::Spawn {
            program: owned(RENDERER),
            args: render_args,
            stdout: Some(owned(output_path)),
            must_start: false,
        },
    );

    let mut apply_args: Vec<String> = Vec::new();
    apply_args.push(owned("apply"));
    apply_args.push(owned("-f"));
    apply_args.push(owned(output_path));
    assert(texts(apply_args@) =~= seq!["apply"@, "-f"@, output_path@]);
    steps.push(Step::Exec { program: owned(KUBECTL), args: apply_args });

    assert(actions(steps@) =~= deployment_plan(
        config_path@,
        config@,
        shared_settings@,
        template_path@,
        template@,
        output_path@,
    ));
    steps
}

/// The deployment of a route request.
pub open spec fn route_plan(
    profile: Seq<char>,
    dns_name: Seq<char>,
    backend_service_name: Seq<char>,
    backend_service_port: Seq<char>,
    backend_service_scheme: Seq<char>,
) -> Seq<Action> {
    deployment_plan(
        ROUTE_CONFIG_PATH@,
        route_config_text(
            profile,
            dns_name,
            backend_service_name,
            backend_service_port,
            backend_service_scheme,
        ),
        ROUTE_FECBCTL_CONFIG@,
        INGRESS_ROUTE_TEMPLATE_PATH@,
        INGRESS_ROUTE_TEMPLATE@,
        INGRESS_ROUTE_PATH@,
    )
}

/// The steps that deploy a route: its configuration, the shared settings
/// and the ingress route template are written, merged, rendered and
/// applied.
pub fn route_deployment(
    profile: &str,
    dns_name: &str,
    backend_service_name: &str,
    backend_service_port: &str,
    backend_service_scheme: &str,
) -> (steps: Vec<Step>)
    ensures
        actions(steps@) == route_plan(
            profile@,
            dns_name@,
            backend_service_name@,
            backend_service_port@,
            backend_service_scheme@,
        ),
{
    let config = route_config(
        profile,
        dns_name,
        backend_service_name,
        backend_service_port,
        backend_service_scheme,
    );
    deployment(
        ROUTE_CONFIG_PATH,
        config,
        ROUTE_FECBCTL_CONFIG,
        INGRESS_ROUTE_TEMPLATE_PATH,
        INGRESS_ROUTE_TEMPLATE,
        INGRESS_ROUTE_PATH,
    )
}

/// Whether a certificate is asked for by a client or a server.
#[derive(Debug, Clone, Copy, PartialEq, Eq, Structural)]
pub enum CertificateKind {
    Client,
    Server,
}

/// Where the configuration of a certificate request of `kind` is written.
pub open spec fn certificate_config_path(kind: CertificateKind) -> Seq<char> {
    match kind {
        CertificateKind::Client => CLIENT_CONFIG_PATH@,
        CertificateKind::Server => SERVER_CONFIG_PATH@,
    }
}

/// The template of a certificate of `kind`.
pub open spec fn certificate_template(kind: CertificateKind) -> Seq<char> {
    match kind {
        CertificateKind::Client => CLIENT_CERTIFICATE_TEMPLATE@,
        CertificateKind::Server => SERVER_CERTIFICATE_TEMPLATE@,
    }
}

/// The deployment of a certificate request of `kind`.
pub open spec fn certificate_plan(
    kind: CertificateKind,
    profile: Seq<char>,
    common_name: Seq<char>,
    duration: Seq<char>,
    key_size: Seq<char>,
) -> Seq<Action> {
    deployment_plan(
        certificate_config_path(kind),
        certificate_config_text(profile, common_name, duration, key_size),
        CERTIFICATE_FECBCTL_CONFIG@,
        CERTIFICATE_TEMPLATE_PATH@,
        certificate_template(kind),
        CERTIFICATE_PATH@,
    )
}

/// The steps that deploy a certificate of `kind`: its configuration, the
/// shared settings and the certificate template are written, merged,
/// rendered and applied.
pub fn certificate_deployment(
    kind: CertificateKind,
    profile: &str,
    common_name: &str,
    duration: &str,
    key_size: &str,
) -> (steps: Vec<Step>)
    ensures
        actions(steps@) == certificate_plan(kind, profile@, common_name@, duration@, key_size@),
{
    let config = certificate_config(profile, common_name, duration, key_size);
    let (config_path, template) = match kind {
        CertificateKind::Client => (CLIENT_CONFIG_PATH, CLIENT_CERTIFICATE_TEMPLATE),
        CertificateKind::Server => (SERVER_CONFIG_PATH, SERVER_CERTIFICATE_TEMPLATE),
    };
    deployment(
        config_path,
        config,
        CERTIFICATE_FECBCTL_CONFIG,
        CERTIFICATE_TEMPLATE_PATH,
        template,
        CERTIFICATE_PATH,
    )
}

/// What the command line asks for.
#[derive(Debug, Clone, Copy, PartialEq, Eq, Structural)]
pub enum Mode {
    /// `route ...`: deploy a route.
    Route,
    /// `cert client ...` or `cert server ...`: deploy a certificate.
    Certificate(CertificateKind),
    /// Anything else: do nothing.
    Nothing,
}

/// The mode that the command-line words `args` select: the first word
/// after the program name picks a route or a certificate, and for a
/// certificate the next word picks the client or the server kind.
pub open spec fn mode_of(args: Seq<Seq<char>>) -> Mode {
    if args[1] == "route"@ {
        Mode::Route
    } else if args[1] == "cert"@ {
        if args[2] == "client"@ {
            Mode::Certificate(CertificateKind::Client)
        } else if args[2] == "server"@ {
            Mode::Certificate(CertificateKind::Server)
        } else {
            Mode::Nothing
        }
    } else {
        Mode::Nothing
    }
}

/// Picks the mode from the command-line words, the program name first.
pub fn select_mode(args: &Vec<String>) -> (m: Mode)
    requires
        args.len() >= 2,
        args[1]@ == "cert"@ ==> args.len() >= 3,
    ensures
        m == mode_of(texts(args@)),
{
    let first = args[1].as_str();
    if same_text(first, "route") {
        Mode::Route
    } else if same_text(first, "cert") {
        let second = args[2].as_str();
        if same_text(second, "client") {
            Mode::Certificate(CertificateKind::Client)
        } else if same_text(second, "server") {
            Mode::Certificate(CertificateKind::Server)
        } else {
            Mode::Nothing
        }
    } else {
        Mode::Nothing
    }
}

/// A list of strings is taken as the list of their character sequences,
/// one for one, in order.
pub proof fn lemma_texts_one_for_one(v: Seq<String>)
    ensures
        texts(v).len() == v.len(),
        forall|i: int| 0 <= i < v.len() ==> #[trigger] texts(v)[i] == v[i]@,
{
}

/// A list of steps is taken as the list of their actions, one for one, in
/// order; and each step's action carries the step's own fields.
pub proof fn lemma_actions_one_for_one(steps: Seq<Step>)
    ensures
        actions(steps).len() == steps.len(),
        forall|i: int| 0 <= i < steps.len() ==> #[trigger] actions(steps)[i] == steps[i]@,
        forall|i: int|
            0 <= i < steps.len() ==> match #[trigger] steps[i] {
                Step::WriteFile { path, contents } => {
                    &&& steps[i]@ is WriteFile
                    &&& steps[i]@->WriteFile_path == path@
                    &&& steps[i]@->WriteFile_contents == contents@
                },
                Step::Spawn { program, args, stdout, must_start } => {
                    &&& steps[i]@ is Spawn
                    &&& steps[i]@->Spawn_program == program@
                    &&& steps[i]@->Spawn_args.len() == args@.len()
                    &&& forall|j: int|
                        0 <= j < args@.len() ==> steps[i]@->Spawn_args[j] == args@[j]@
                    &&& (steps[i]@->Spawn_stdout is Some <==> stdout is Some)
                    &&& (stdout is Some ==> steps[i]@->Spawn_stdout->0 == stdout->0@)
                    &&& steps[i]@->Spawn_must_start == must_start
                },
                Step::Exec { program, args } => {
                    &&& steps[i]@ is Exec
                    &&& steps[i]@->Exec_program == program@
                    &&& steps[i]@->Exec_args.len() == args@.len()
                    &&& forall|j: int|
                        0 <= j < args@.len() ==> steps[i]@->Exec_args[j] == args@[j]@
                },
            },
{
}

/// Whether each command of a deployment reads what the steps before it
/// wrote: the shell merges the first two files written into the file that
/// the renderer reads along with the template written third, and the
/// cluster client applies the file that the renderer's output went to.
pub open spec fn is_connected(plan: Seq<Action>) -> bool {
    &&& plan.len() == 6
    &&& plan[0] matches Action::WriteFile { path: config_path, .. }
    &&& plan[1] matches Action::WriteFile { path: settings_path, .. }
    &&& plan[2] matches Action::Spawn { args: merge_args, .. }
    &&& plan[3] matches Action::WriteFile { path: template_path, .. }
    &&& plan[4] matches Action::Spawn { args: render_args, stdout: Some(rendered), .. }
    &&& plan[5] matches Action::Exec { args: apply_args, .. }
    &&& render_args.len() == 4
    &&& apply_args.len() == 3
    &&& merge_args == seq!["-c"@, merge_command(config_path, settings_path, render_args[3])]
    &&& render_args[2] == template_path
    &&& apply_args[2] == rendered
}

/// Every deployment is connected: its commands read the files that its
/// earlier steps wrote.
pub proof fn lemma_deployment_connected(
    config_path: Seq<char>,
    config: Seq<char>,
    shared_settings: Seq<char>,
    template_path: Seq<char>,
    template: Seq<char>,
    output_path: Seq<char>,
)
    ensures
        is_connected(
            deployment_plan(
                config_path,
                config,
                shared_settings,
                template_path,
                template,
                output_path,
            ),
        ),
{
}

/// A route deployment is connected: the ingress route template is rendered
/// with the merged route configuration, and the rendered resources are the
/// ones applied.
pub proof fn lemma_route_deployment_connected(
    profile: Seq<char>,
    dns_name: Seq<char>,
    backend_service_name: Seq<char>,
    backend_service_port: Seq<char>,
    backend_service_scheme: Seq<char>,
)
    ensures
        is_connected(
            route_plan(
                profile,
                dns_name,
                backend_service_name,
                backend_service_port,
                backend_service_scheme,
            ),
        ),
{
}

/// A certificate deployment of either kind is connected: the certificate
/// template is rendered with the merged certificate configuration, and the
/// rendered certificate is the one applied.
pub proof fn lemma_certificate_deployment_connected(
    kind: CertificateKind,
    profile: Seq<char>,
    common_name: Seq<char>,
    duration: Seq<char>,
    key_size: Seq<char>,
)
    ensures
        is_connected(certificate_plan(kind, profile, common_name, duration, key_size)),
{
}

/// A client and a server certificate asked for with the same values get
/// the same certificate configuration, the same shared settings, the same
/// template file name, the same rendering and the same applied file, and
/// keep their configurations in different files.
pub proof fn lemma_certificate_kinds_share_configuration(
    profile: Seq<char>,
    common_name: Seq<char>,
    duration: Seq<char>,
    key_size: Seq<char>,
)
    ensures
        ({
            let client = certificate_plan(
                CertificateKind::Client,
                profile,
                common_name,
                duration,
                key_size,
            );
            let server = certificate_plan(
                CertificateKind::Server,
                profile,
                common_name,
                duration,
                key_size,
            );
            &&& client[0]->WriteFile_contents == server[0]->WriteFile_contents
            &&& client[0]->WriteFile_path != server[0]->WriteFile_path
            &&& client[1] == server[1]
            &&& client[3]->WriteFile_path == server[3]->WriteFile_path
            &&& client[4] == server[4]
            &&& client[5] == server[5]
        }),
{
    reveal_strlit("../../client_config.yaml");
    reveal_strlit("../../server_config.yaml");
    assert(CLIENT_CONFIG_PATH@[6] != SERVER_CONFIG_PATH@[6]);
}

/// A deployment, step by step: write the request's configuration where it
/// is asked to and the shared settings to `../../fecbctl.config`; start
/// `/bin/sh` on `cat <configuration> ../../fecbctl.config >
/// ../../config.yaml`, which must start; write the template; start `j2` on
/// the template and `../../config.yaml` with its output going to the output
/// file; and replace the process by `kubectl apply -f <output file>`.
pub proof fn lemma_deployment_steps(
    config_path: Seq<char>,
    config: Seq<char>,
    shared_settings: Seq<char>,
    template_path: Seq<char>,
    template: Seq<char>,
    output_path: Seq<char>,
)
    ensures
        ({
            let plan = deployment_plan(
                config_path,
                config,
                shared_settings,
                template_path,
                template,
                output_path,
            );
            &&& plan.len() == 6
            &&& plan[0] == (Action::WriteFile { path: config_path, contents: config })
            &&& plan[1] == (Action::WriteFile {
                path: "../../fecbctl.config"@,
                contents: shared_settings,
            })
            &&& plan[2] == (Action::Spawn {
                program: "/bin/sh"@,
                args: seq![
                    "-c"@,
                    "cat "@ + config_path + " ../../fecbctl.config > ../../config.yaml"@,
                ],
                stdout: None,
                must_start: true,
            })
            &&& plan[3] == (Action::WriteFile { path: template_path, contents: template })
            &&& plan[4] == (Action::Spawn {
                program: "j2"@,
                args: seq!["-f"@, "yaml"@, template_path, "../../config.yaml"@],
                stdout: Some(output_path),
                must_start: false,
            })
            &&& plan[5] == (Action::Exec {
                program: "kubectl"@,
                args: seq!["apply"@, "-f"@, output_path],
            })
        }),
{
    reveal_strlit("cat ");
    reveal_strlit(" ");
    reveal_strlit(" > ");
    reveal_strlit("../../fecbctl.config");
    reveal_strlit("../../config.yaml");
    reveal_strlit(" ../../fecbctl.config > ../../config.yaml");
    assert(merge_command(config_path, FECBCTL_CONFIG_PATH@, MERGED_CONFIG_PATH@) =~= "cat "@
        + config_path + " ../../fecbctl.config > ../../config.yaml"@);
}

/// A route deployment writes the route configuration to
/// `../../route_config.yaml` and the route's shared settings to
/// `../../fecbctl.config`, merges them into `../../config.yaml` with
/// `/bin/sh`, writes the ingress route template to
/// `../../ingressroute.yaml.j2`, renders it with `j2` into
/// `../../ingressroute.yaml`, and applies that file with `kubectl`.
pub proof fn lemma_route_plan_steps(
    profile: Seq<char>,
    dns_name: Seq<char>,
    backend_service_name: Seq<char>,
    backend_service_port: Seq<char>,
    backend_service_scheme: Seq<char>,
)
    ensures
        ({
            let plan = route_plan(
                profile,
                dns_name,
                backend_service_name,
                backend_service_port,
                backend_service_scheme,
            );
            &&& plan.len() == 6
            &&& plan[0] == (Action::WriteFile {
                path: "../../route_config.yaml"@,
                contents: route_config_text(
                    profile,
                    dns_name,
                    backend_service_name,
                    backend_service_port,
                    backend_service_scheme,
                ),
            })
            &&& plan[1] == (Action::WriteFile {
                path: "../../fecbctl.config"@,
                contents: ROUTE_FECBCTL_CONFIG@,
            })
            &&& plan[2] == (Action::Spawn {
                program: "/bin/sh"@,
                args: seq![
                    "-c"@,
                    "cat ../../route_config.yaml ../../fecbctl.config > ../../config.yaml"@,
                ],
                stdout: None,
                must_start: true,
            })
            &&& plan[3] == (Action::WriteFile {
                path: "../../ingressroute.yaml.j2"@,
                contents: INGRESS_ROUTE_TEMPLATE@,
            })
            &&& plan[4] == (Action::Spawn {
                program: "j2"@,
                args: seq!["-f"@, "yaml"@, "../../ingressroute.yaml.j2"@, "../../config.yaml"@],
                stdout: Some("../../ingressroute.yaml"@),
                must_start: false,
            })
            &&& plan[5] == (Action::Exec {
                program: "kubectl"@,
                args: seq!["apply"@, "-f"@, "../../ingressroute.yaml"@],
            })
        }),
{
    reveal_strlit("cat ");
    reveal_strlit(" ");
    reveal_strlit(" > ");
    reveal_strlit("../../route_config.yaml");
    reveal_strlit("../../fecbctl.config");
    reveal_strlit("../../config.yaml");
    reveal_strlit("cat ../../route_config.yaml ../../fecbctl.config > ../../config.yaml");
    assert(merge_command(ROUTE_CONFIG_PATH@, FECBCTL_CONFIG_PATH@, MERGED_CONFIG_PATH@)
        =~= "cat ../../route_config.yaml ../../fecbctl.config > ../../config.yaml"@);
}

/// The values of a route request reach only the route configuration: two
/// route deployments write their configurations to the same file, and all
/// their other steps are the same.
pub proof fn lemma_route_plan_values_only_in_config(
    profile: Seq<char>,
    dns_name: Seq<char>,
    backend_service_name: Seq<char>,
    backend_service_port: Seq<char>,
    backend_service_scheme: Seq<char>,
    other_profile: Seq<char>,
    other_dns_name: Seq<char>,
    other_backend_service_name: Seq<char>,
    other_backend_service_port: Seq<char>,
    other_backend_service_scheme: Seq<char>,
)
    ensures
        ({
            let plan = route_plan(
                profile,
                dns_name,
                backend_service_name,
                backend_service_port,
                backend_service_scheme,
            );
            let other = route_plan(
                other_profile,
                other_dns_name,
                other_backend_service_name,
                other_backend_service_port,
                other_backend_service_scheme,
            );
            &&& plan.len() == other.len()
            &&& plan[0]->WriteFile_path == other[0]->WriteFile_path
            &&& forall|i: int| 1 <= i < plan.len() ==> plan[i] == other[i]
        }),
{
}

/// A certificate deployment writes the certificate configuration to
/// `../../client_config.yaml` for a client and `../../server_config.yaml`
/// for a server, and the certificates' shared settings to
/// `../../fecbctl.config`, merges them into `../../config.yaml` with
/// `/bin/sh`, writes the template of its kind (the client's or the
/// server's, whatever the request's values) to `../../certificate.yaml.j2`,
/// renders it with `j2` into `../../certificate.yaml`, and applies that
/// file with `kubectl`.
pub proof fn lemma_certificate_plan_steps(
    kind: CertificateKind,
    profile: Seq<char>,
    common_name: Seq<char>,
    duration: Seq<char>,
    key_size: Seq<char>,
)
    ensures
        ({
            let plan = certificate_plan(kind, profile, common_name, duration, key_size);
            let config_path = if kind == CertificateKind::Client {
                "../../client_config.yaml"@
            } else {
                "../../server_config.yaml"@
            };
            let merge = if kind == CertificateKind::Client {
                "cat ../../client_config.yaml ../../fecbctl.config > ../../config.yaml"@
            } else {
                "cat ../../server_config.yaml ../../fecbctl.config > ../../config.yaml"@
            };
            let template = if kind == CertificateKind::Client {
                CLIENT_CERTIFICATE_TEMPLATE@
            } else {
                SERVER_CERTIFICATE_TEMPLATE@
            };
            &&& plan.len() == 6
            &&& plan[0] == (Action::WriteFile {
                path: config_path,
                contents: certificate_config_text(profile, common_name, duration, key_size),
            })
            &&& plan[1] == (Action::WriteFile {
                path: "../../fecbctl.config"@,
                contents: CERTIFICATE_FECBCTL_CONFIG@,
            })
            &&& plan[2] == (Action::Spawn {
                program: "/bin/sh"@,
                args: seq!["-c"@, merge],
                stdout: None,
                must_start: true,
            })
            &&& plan[3] == (Action::WriteFile {
                path: "../../certificate.yaml.j2"@,
                contents: template,
            })
            &&& plan[4] == (Action::Spawn {
                program: "j2"@,
                args: seq!["-f"@, "yaml"@, "../../certificate.yaml.j2"@, "../../config.yaml"@],
                stdout: Some("../../certificate.yaml"@),
                must_start: false,
            })
            &&& plan[5] == (Action::Exec {
                program: "kubectl"@,
                args: seq!["apply"@, "-f"@, "../../certificate.yaml"@],
            })
        }),
{
    reveal_strlit("cat ");
    reveal_strlit(" ");
    reveal_strlit(" > ");
    reveal_strlit("../../client_config.yaml");
    reveal_strlit("../../server_config.yaml");
    reveal_strlit("../../fecbctl.config");
    reveal_strlit("../../config.yaml");
    reveal_strlit("cat ../../client_config.yaml ../../fecbctl.config > ../../config.yaml");
    reveal_strlit("cat ../../server_config.yaml ../../fecbctl.config > ../../config.yaml");
    assert(merge_command(CLIENT_CONFIG_PATH@, FECBCTL_CONFIG_PATH@, MERGED_CONFIG_PATH@)
        =~= "cat ../../client_config.yaml ../../fecbctl.config > ../../config.yaml"@);
    assert(merge_command(SERVER_CONFIG_PATH@, FECBCTL_CONFIG_PATH@, MERGED_CONFIG_PATH@)
        =~= "cat ../../server_config.yaml ../../fecbctl.config > ../../config.yaml"@);
}

/// The values of a certificate request reach only the certificate
/// configuration: two deployments of one kind write their configurations
/// to the same file, and all their other steps, the template among them,
/// are the same.
pub proof fn lemma_certificate_plan_values_only_in_config(
    kind: CertificateKind,
    profile: Seq<char>,
    common_name: Seq<char>,
    duration: Seq<char>,
    key_size: Seq<char>,
    other_profile: Seq<char>,
    other_common_name: Seq<char>,
    other_duration: Seq<char>,
    other_key_size: Seq<char>,
)
    ensures
        ({
            let plan = certificate_plan(kind, profile, common_name, duration, key_size);
            let other = certificate_plan(
                kind,
                other_profile,
                other_common_name,
                other_duration,
                other_key_size,
            );
            &&& plan.len() == other.len()
            &&& plan[0]->WriteFile_path == other[0]->WriteFile_path
            &&& forall|i: int| 1 <= i < plan.len() ==> plan[i] == other[i]
        }),
{
}

/// The first word after the program name picks the mode: `route` a route,
/// `cert` a certificate whose kind the next word picks (`client` or
/// `server`); any other word, or any other kind, picks nothing. The words
/// after those are not read.
pub proof fn lemma_mode_of_words(args: Seq<Seq<char>>)
    requires
        args.len() >= 2,
        args[1] == "cert"@ ==> args.len() >= 3,
    ensures
        args[1] == "route"@ ==> mode_of(args) == Mode::Route,
        args[1] == "cert"@ && args[2] == "client"@ ==> mode_of(args) == Mode::Certificate(
            CertificateKind::Client,
        ),
        args[1] == "cert"@ && args[2] == "server"@ ==> mode_of(args) == Mode::Certificate(
            CertificateKind::Server,
        ),
        args[1] == "cert"@ && args[2] != "client"@ && args[2] != "server"@ ==> mode_of(args)
            == Mode::Nothing,
        args[1] != "route"@ && args[1] != "cert"@ ==> mode_of(args) == Mode::Nothing,
{
    reveal_strlit("route");
    reveal_strlit("cert");
    reveal_strlit("client");
    reveal_strlit("server");
    assert("route"@[0] != "cert"@[0]);
    assert("client"@[0] != "server"@[0]);
}

/// The mode depends on the first word, and after `cert` on the second,
/// and on nothing else: command lines that agree on those words select the
/// same mode.
pub proof fn lemma_mode_reads_two_words(args: Seq<Seq<char>>, other: Seq<Seq<char>>)
    requires
        args.len() >= 2,
        other.len() >= 2,
        args[1] == other[1],
        args[1] == "cert"@ ==> args.len() >= 3 && other.len() >= 3 && args[2] == other[2],
    ensures
        mode_of(args) == mode_of(other),
{
}

} // verus!
