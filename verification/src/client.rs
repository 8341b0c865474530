//! Errors of the Kubernetes side, and where the kubeconfig of a client
//! came from.

use vstd::prelude::*;
use vstd::string::*;

verus! {

/// Error type for Kubernetes operations; each variant holds the text of
/// the underlying error.
#[derive(Debug, Clone)]
pub enum K8sError {
    KubeconfigFetch(String),
    KubeconfigParse(String),
    ClientCreate(String),
    ApiError(String),
}

/// What a `K8sError` holds, every text taken as its characters.
pub enum K8sErrorView {
    KubeconfigFetch(Seq<char>),
    KubeconfigParse(Seq<char>),
    ClientCreate(Seq<char>),
    ApiError(Seq<char>),
}

impl View for K8sError {
    type V = K8sErrorView;

    open spec fn view(&self) -> K8sErrorView {
        match self {
            K8sError::KubeconfigFetch(detail) => K8sErrorView::KubeconfigFetch(detail@),
            K8sError::KubeconfigParse(detail) => K8sErrorView::KubeconfigParse(detail@),
            K8sError::ClientCreate(detail) => K8sErrorView::ClientCreate(detail@),
            K8sError::ApiError(detail) => K8sErrorView::ApiError(detail@),
        }
    }
}

/// The message of an error: what failed, a colon, and the detail.
pub open spec fn k8s_error_message(error: K8sErrorView) -> Seq<char> {
    match error {
        K8sErrorView::KubeconfigFetch(detail) => "Failed to get kubeconfig from Talos: "@ + detail,
        K8sErrorView::KubeconfigParse(detail) => "Failed to parse kubeconfig: "@ + detail,
        K8sErrorView::ClientCreate(detail) => "Failed to create K8s client: "@ + detail,
        K8sErrorView::ApiError(detail) => "K8s API error: "@ + detail,
    }
}

impl K8sError {
    /// The message of the error.
    pub fn message(&self) -> (text: String)
        ensures
            text@ == k8s_error_message(self@),
    {
        let (mut text, detail) = match self {
            K8sError::KubeconfigFetch(detail) => (
                "Failed to get kubeconfig from Talos: ".to_string(),
                detail,
            ),
            K8sError::KubeconfigParse(detail) => ("Failed to parse kubeconfig: ".to_string(), detail),
            K8sError::ClientCreate(detail) => ("Failed to create K8s client: ".to_string(), detail),
            K8sError::ApiError(detail) => ("K8s API error: ".to_string(), detail),
        };
        text.append(detail.as_str());
        text
    }

    /// The error of a pod listing that failed with `detail`.
    pub fn list_pods_failed(detail: &str) -> (error: K8sError)
        ensures
            error@ == K8sErrorView::ApiError("Failed to list pods: "@ + detail@),
    {
        let mut text = "Failed to list pods: ".to_string();
        text.append(detail);
        K8sError::ApiError(text)
    }

    /// The error of a node read that failed with `detail`.
    pub fn get_node_failed(detail: &str) -> (error: K8sError)
        ensures
            error@ == K8sErrorView::ApiError("Failed to get node: "@ + detail@),
    {
        let mut text = "Failed to get node: ".to_string();
        text.append(detail);
        K8sError::ApiError(text)
    }
}

/// Source of the kubeconfig used to create the Kubernetes client.
#[derive(Debug, Clone)]
pub enum KubeconfigSource {
    /// From the `KUBECONFIG` environment variable or the default path.
    Environment,
    /// Fetched from a Talos control plane node, named here.
    TalosNode(String),
    /// Source unknown or unavailable, with the reason.
    Unavailable(String),
}

/// A way to come by a kubeconfig.
#[derive(Debug, Clone, Copy, PartialEq, Eq, Structural)]
pub enum KubeconfigAttempt {
    /// Infer it from the environment.
    Environment,
    /// Fetch it from the control plane node whose address was given.
    GivenNode,
    /// Fetch it through the client that was handed over for the purpose.
    GivenClient,
    /// Fetch it through the main client.
    MainClient,
}

/// The ways to come by a kubeconfig, in the order in which they are
/// tried: the environment first, then the given node and the given
/// client where there is one, the main client last.
pub open spec fn kubeconfig_attempts(has_node: bool, has_client: bool) -> Seq<KubeconfigAttempt> {
    seq![KubeconfigAttempt::Environment] + (if has_node {
        seq![KubeconfigAttempt::GivenNode]
    } else {
        Seq::empty()
    }) + (if has_client {
        seq![KubeconfigAttempt::GivenClient]
    } else {
        Seq::empty()
    }) + seq![KubeconfigAttempt::MainClient]
}

/// Lists the ways to come by a kubeconfig in the order of their trial.
pub fn plan_kubeconfig_attempts(has_node: bool, has_client: bool) -> (attempts: Vec<
    KubeconfigAttempt,
>)
    ensures
        attempts@ == kubeconfig_attempts(has_node, has_client),
{
    let mut attempts: Vec<KubeconfigAttempt> = Vec::new();
    attempts.push(KubeconfigAttempt::Environment);
    if has_node {
        attempts.push(KubeconfigAttempt::GivenNode);
    }
    if has_client {
        attempts.push(KubeconfigAttempt::GivenClient);
    }
    attempts.push(KubeconfigAttempt::MainClient);
    assert(attempts@ =~= kubeconfig_attempts(has_node, has_client));
    attempts
}

/// The source that a successful attempt stands for; `node` is the address
/// that was given for the control plane node.
pub fn source_of_attempt(attempt: KubeconfigAttempt, node: &str) -> (source: KubeconfigSource)
    ensures
        match attempt {
            KubeconfigAttempt::Environment => source is Environment,
            KubeconfigAttempt::GivenNode => source is TalosNode && source->TalosNode_0@ == node@,
            KubeconfigAttempt::GivenClient => source is TalosNode && source->TalosNode_0@
                == "control-plane"@,
            KubeconfigAttempt::MainClient => source is TalosNode && source->TalosNode_0@ == "vip"@,
        },
{
    match attempt {
        KubeconfigAttempt::Environment => KubeconfigSource::Environment,
        KubeconfigAttempt::GivenNode => KubeconfigSource::TalosNode(node.to_string()),
        KubeconfigAttempt::GivenClient => KubeconfigSource::TalosNode("control-plane".to_string()),
        KubeconfigAttempt::MainClient => KubeconfigSource::TalosNode("vip".to_string()),
    }
}

} // verus!
