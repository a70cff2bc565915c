//! Deploying ferrishost-web into the cluster with Helm.
use vstd::prelude::*;

use crate::k3s::exited_successfully;
use crate::text::{
    concat_str, decimal, decimal_string, decode_utf8_lossy, owned, string_views, utf8_lossy,
};

verus! {

/// The version of the ferrishost-web image to deploy: the version of this
/// command line, so that it always deploys a matching web image.
pub const VERSION: &'static str = "0.1.0";

/// The default Helm chart (OCI).
pub const CHART_REF: &'static str = "oci://ghcr.io/dinosath/charts/ferrishost-web";

/// The Helm release and deployment name of the web service.
pub const RELEASE_NAME: &'static str = "ferrishost-web";

/// Deploys ferrishost-web into a k3s cluster via Helm.
#[derive(Debug)]
pub struct WebDeployer {
    image_tag: String,
    namespace: String,
    ingress_host: String,
    chart_ref: String,
    web_port: u16,
}

/// The port the web service is exposed on unless another is asked for.
pub const DEFAULT_WEB_PORT: u16 = 443;

/// A deployer's settings as plain values.
pub struct WebDeployerView {
    pub image_tag: Seq<char>,
    pub namespace: Seq<char>,
    pub ingress_host: Seq<char>,
    pub chart_ref: Seq<char>,
    pub web_port: u16,
}

impl View for WebDeployer {
    type V = WebDeployerView;

    closed spec fn view(&self) -> WebDeployerView {
        WebDeployerView {
            image_tag: self.image_tag@,
            namespace: self.namespace@,
            ingress_host: self.ingress_host@,
            chart_ref: self.chart_ref@,
            web_port: self.web_port,
        }
    }
}

/// The arguments of `helm` that install or upgrade the release: the chart
/// with the image tag, the ingress host, and the port of the web service's
/// `Service` (the chart's `service.port` value).
pub open spec fn helm_install_args(d: WebDeployerView) -> Seq<Seq<char>> {
    seq![
        "upgrade"@,
        "--install"@,
        RELEASE_NAME@,
        d.chart_ref,
        "--namespace"@,
        d.namespace,
        "--create-namespace"@,
        "--set"@,
        "image.tag="@ + d.image_tag,
        "--set"@,
        "ingress.host="@ + d.ingress_host,
        "--set"@,
        "service.port="@ + decimal(d.web_port as nat),
        "--wait"@,
        "--timeout"@,
        "5m"@,
    ]
}

/// The arguments of `kubectl` that wait for the deployment's rollout.
pub open spec fn rollout_status_args(d: WebDeployerView) -> Seq<Seq<char>> {
    seq![
        "rollout"@,
        "status"@,
        "deployment/"@ + RELEASE_NAME@,
        "-n"@,
        d.namespace,
        "--timeout=300s"@,
    ]
}

/// Why a deployment failed.
#[derive(Debug)]
pub enum DeployError {
    /// `helm upgrade --install` failed; what it printed on stderr.
    HelmFailed { stderr: String },
    /// The rollout did not finish; what `kubectl` printed on stderr.
    RolloutFailed { stderr: String },
}

/// The text of a deployment error, as the command line prints it.
pub open spec fn deploy_error_message(e: DeployError) -> Seq<char> {
    match e {
        DeployError::HelmFailed { stderr } => "helm upgrade --install failed: "@ + stderr@,
        DeployError::RolloutFailed { stderr } => "kubectl rollout status failed: "@ + stderr@,
    }
}

impl DeployError {
    /// The text of the error, as the command line prints it.
    pub fn message(&self) -> (m: String)
        ensures
            m@ == deploy_error_message(*self),
    {
        match self {
            DeployError::HelmFailed { stderr } => concat_str(
                "helm upgrade --install failed: ",
                stderr.as_str(),
            ),
            DeployError::RolloutFailed { stderr } => concat_str(
                "kubectl rollout status failed: ",
                stderr.as_str(),
            ),
        }
    }
}

impl WebDeployer {
    /// A deployer that installs or upgrades the web service at
    /// `ingress_host` (e.g. "ferrishost.homelab.local"), with the image of
    /// this version, in namespace `ferrishost`, from the default chart, on
    /// the default port.
    pub fn new(ingress_host: &str) -> (d: WebDeployer)
        ensures
            d@ == (WebDeployerView {
                image_tag: VERSION@,
                namespace: "ferrishost"@,
                ingress_host: ingress_host@,
                chart_ref: CHART_REF@,
                web_port: DEFAULT_WEB_PORT,
            }),
    {
        WebDeployer {
            image_tag: owned(VERSION),
            namespace: owned("ferrishost"),
            ingress_host: owned(ingress_host),
            chart_ref: owned(CHART_REF),
            web_port: DEFAULT_WEB_PORT,
        }
    }

    /// The same deployer, exposing the web service on another port.
    pub fn with_web_port(self, port: u16) -> (d: WebDeployer)
        ensures
            d@ == (WebDeployerView { web_port: port, ..self@ }),
    {
        WebDeployer { web_port: port, ..self }
    }

    /// The port the web service is exposed on.
    pub fn web_port(&self) -> (p: u16)
        ensures
            p == self@.web_port,
    {
        self.web_port
    }

    /// The same deployer with another image tag.
    pub fn with_image_tag(self, tag: &str) -> (d: WebDeployer)
        ensures
            d@ == (WebDeployerView { image_tag: tag@, ..self@ }),
    {
        WebDeployer { image_tag: owned(tag), ..self }
    }

    /// The same deployer with another Helm chart.
    pub fn with_chart_ref(self, chart: &str) -> (d: WebDeployer)
        ensures
            d@ == (WebDeployerView { chart_ref: chart@, ..self@ }),
    {
        WebDeployer { chart_ref: owned(chart), ..self }
    }

    /// The image tag to deploy.
    pub fn image_tag(&self) -> (s: &str)
        ensures
            s@ == self@.image_tag,
    {
        self.image_tag.as_str()
    }

    /// The namespace to deploy into.
    pub fn namespace(&self) -> (s: &str)
        ensures
            s@ == self@.namespace,
    {
        self.namespace.as_str()
    }

    /// The DNS name the service will be reachable at.
    pub fn ingress_host(&self) -> (s: &str)
        ensures
            s@ == self@.ingress_host,
    {
        self.ingress_host.as_str()
    }

    /// The Helm chart to install.
    pub fn chart_ref(&self) -> (s: &str)
        ensures
            s@ == self@.chart_ref,
    {
        self.chart_ref.as_str()
    }

    /// The arguments of `helm` that install or upgrade the release and
    /// wait up to five minutes for it.
    pub fn helm_install_args(&self) -> (args: Vec<String>)
        ensures
            string_views(args@) == helm_install_args(self@),
    {
        let mut args: Vec<String> = Vec::new();
        args.push(owned("upgrade"));
        args.push(owned("--install"));
        args.push(owned(RELEASE_NAME));
        args.push(self.chart_ref.clone());
        args.push(owned("--namespace"));
        args.push(self.namespace.clone());
        args.push(owned("--create-namespace"));
        args.push(owned("--set"));
        args.push(concat_str("image.tag=", self.image_tag.as_str()));
        args.push(owned("--set"));
        args.push(concat_str("ingress.host=", self.ingress_host.as_str()));
        args.push(owned("--set"));
        let port = decimal_string(self.web_port as u64);
        args.push(concat_str("service.port=", port.as_str()));
        args.push(owned("--wait"));
        args.push(owned("--timeout"));
        args.push(owned("5m"));
        assert(string_views(args@) =~= helm_install_args(self@));
        args
    }

    /// The arguments of `kubectl` that wait for the rollout.
    pub fn rollout_status_args(&self) -> (args: Vec<String>)
        ensures
            string_views(args@) == rollout_status_args(self@),
    {
        let mut args: Vec<String> = Vec::new();
        args.push(owned("rollout"));
        args.push(owned("status"));
        args.push(concat_str("deployment/", RELEASE_NAME));
        args.push(owned("-n"));
        args.push(self.namespace.clone());
        args.push(owned("--timeout=300s"));
        assert(string_views(args@) =~= rollout_status_args(self@));
        args
    }

    /// Helm succeeded, or what it printed on stderr.
    pub fn helm_outcome(exit_code: Option<i32>, stderr: &[u8]) -> (r: Result<(), DeployError>)
        ensures
            r is Ok <==> exited_successfully(exit_code),
            r matches Err(e) ==> (e matches DeployError::HelmFailed { stderr: s } && s@
                == utf8_lossy(stderr@)),
    {
        if exit_code == Some(0i32) {
            Ok(())
        } else {
            Err(DeployError::HelmFailed { stderr: decode_utf8_lossy(stderr) })
        }
    }

    /// The rollout finished, or what `kubectl` printed on stderr.
    pub fn rollout_outcome(exit_code: Option<i32>, stderr: &[u8]) -> (r: Result<(), DeployError>)
        ensures
            r is Ok <==> exited_successfully(exit_code),
            r matches Err(e) ==> (e matches DeployError::RolloutFailed { stderr: s } && s@
                == utf8_lossy(stderr@)),
    {
        if exit_code == Some(0i32) {
            Ok(())
        } else {
            Err(DeployError::RolloutFailed { stderr: decode_utf8_lossy(stderr) })
        }
    }
}

/// Each builder changes only its own setting, so the builders commute.
pub proof fn law_builders_commute(d: WebDeployerView, tag: Seq<char>, chart: Seq<char>, port: u16)
    ensures
        (WebDeployerView { chart_ref: chart, ..(WebDeployerView { image_tag: tag, ..d }) })
            == (WebDeployerView { image_tag: tag, ..(WebDeployerView { chart_ref: chart, ..d }) }),
        (WebDeployerView { web_port: port, ..(WebDeployerView { image_tag: tag, ..d }) })
            == (WebDeployerView { image_tag: tag, ..(WebDeployerView { web_port: port, ..d }) }),
        (WebDeployerView { web_port: port, ..(WebDeployerView { chart_ref: chart, ..d }) })
            == (WebDeployerView { chart_ref: chart, ..(WebDeployerView { web_port: port, ..d }) }),
{
}

/// Helm installs or upgrades the release `ferrishost-web` from the
/// deployer's chart into its namespace (creating it), with each setting
/// passed as a `--set` value: the image tag, the ingress host and the
/// service port; it waits up to five minutes.
pub proof fn law_helm_install_args(d: WebDeployerView)
    ensures
        ({
            let a = helm_install_args(d);
            &&& a.len() == 16
            &&& a[0] == "upgrade"@ && a[1] == "--install"@
            &&& a[2] == "ferrishost-web"@
            &&& a[3] == d.chart_ref
            &&& a[4] == "--namespace"@ && a[5] == d.namespace
            &&& a[6] == "--create-namespace"@
            &&& a[7] == "--set"@ && a[8] == "image.tag="@ + d.image_tag
            &&& a[9] == "--set"@ && a[10] == "ingress.host="@ + d.ingress_host
            &&& a[11] == "--set"@ && a[12] == "service.port="@ + decimal(d.web_port as nat)
            &&& a[13] == "--wait"@ && a[14] == "--timeout"@ && a[15] == "5m"@
        }),
        rollout_status_args(d) == seq![
            "rollout"@,
            "status"@,
            "deployment/ferrishost-web"@,
            "-n"@,
            d.namespace,
            "--timeout=300s"@,
        ],
{
    reveal_strlit("ferrishost-web");
    reveal_strlit("deployment/");
    reveal_strlit("deployment/ferrishost-web");
    assert("deployment/"@ + RELEASE_NAME@ =~= "deployment/ferrishost-web"@);
}

} // verus!
