//! The bootstrap wizard for a node in maintenance mode: generate the
//! machine configuration, apply it, wait for the reboot, bootstrap the
//! cluster, wait until it is healthy.
//!
//! The wizard decides; running `talosctl` and reading the clock is the
//! caller's part.

use crate::slicing::{split_on, split_text};
use crate::talosctl::{
    GenConfigResult, GenConfigView, InsecureApplyResult, InsecureApplyView,
};
use vstd::prelude::*;
use vstd::string::*;

verus! {

/// Where the wizard stands.
#[derive(Debug, Clone, Copy, PartialEq, Eq, Structural)]
pub enum WizardState {
    /// The configuration has not been generated yet.
    Setup,
    ConfigReady,
    Applying,
    WaitingReboot,
    ReadyToBootstrap,
    Bootstrapping,
    WaitingHealthy,
    Complete,
    /// A step failed; the wizard holds the message.
    Failed,
}

/// The kind of node that is set up.
#[derive(Debug, Clone, Copy, PartialEq, Eq, Structural)]
pub enum NodeType {
    Controlplane,
    Worker,
}

/// How a run of `talosctl` ended.
#[derive(Debug, Clone)]
pub enum CommandEnd {
    /// It ran and succeeded.
    Succeeded,
    /// It ran and failed; `stderr` is what it complained of.
    Failed { stderr: String },
    /// It could not be run; `error` says why.
    NotRun { error: String },
}

/// What a `CommandEnd` holds, every text taken as its characters.
pub enum CommandEndView {
    Succeeded,
    Failed { stderr: Seq<char> },
    NotRun { error: Seq<char> },
}

impl View for CommandEnd {
    type V = CommandEndView;

    open spec fn view(&self) -> CommandEndView {
        match self {
            CommandEnd::Succeeded => CommandEndView::Succeeded,
            CommandEnd::Failed { stderr } => CommandEndView::Failed { stderr: stderr@ },
            CommandEnd::NotRun { error } => CommandEndView::NotRun { error: error@ },
        }
    }
}

/// Seconds after which a wait of the wizard is given up.
pub const WAIT_TIMEOUT_SECS: u64 = 300;

/// The wizard: the node it sets up, and how far it has come.
#[derive(Debug, Clone)]
pub struct Wizard {
    /// Address of the node in maintenance mode.
    pub endpoint: String,
    pub cluster_name: String,
    pub k8s_endpoint: String,
    pub output_dir: String,
    pub node_type: NodeType,
    pub state: WizardState,
    /// The generated files, once there are any.
    pub config_result: Option<GenConfigResult>,
    /// The context of the new cluster, once it is known.
    pub context_name: Option<String>,
    /// How often a wait has polled.
    pub poll_attempts: u64,
    /// What the last poll complained of.
    pub last_poll_error: Option<String>,
    /// Why the wizard failed.
    pub error: Option<String>,
}

/// What a `Wizard` holds, every text taken as its characters.
pub struct WizardView {
    pub endpoint: Seq<char>,
    pub cluster_name: Seq<char>,
    pub k8s_endpoint: Seq<char>,
    pub output_dir: Seq<char>,
    pub node_type: NodeType,
    pub state: WizardState,
    pub config_result: Option<GenConfigView>,
    pub context_name: Option<Seq<char>>,
    pub poll_attempts: u64,
    pub last_poll_error: Option<Seq<char>>,
    pub error: Option<Seq<char>>,
}

impl View for Wizard {
    type V = WizardView;

    open spec fn view(&self) -> WizardView {
        WizardView {
            endpoint: self.endpoint@,
            cluster_name: self.cluster_name@,
            k8s_endpoint: self.k8s_endpoint@,
            output_dir: self.output_dir@,
            node_type: self.node_type,
            state: self.state,
            config_result: match self.config_result {
                Some(result) => Some(result@),
                None => None,
            },
            context_name: self.context_name.deep_view(),
            poll_attempts: self.poll_attempts,
            last_poll_error: self.last_poll_error.deep_view(),
            error: self.error.deep_view(),
        }
    }
}

/// The wizard has failed with `message`.
pub open spec fn failed_with(w: WizardView, message: Seq<char>) -> WizardView {
    WizardView { state: WizardState::Failed, error: Some(message), ..w }
}

/// The names that the generated certificates are to hold besides the
/// cluster's own: the node's address and the loopback address.
pub open spec fn additional_sans_of(w: WizardView) -> Seq<Seq<char>> {
    seq![w.endpoint, "127.0.0.1"@]
}

/// The wizard after the configuration was generated and merged into the
/// user's configuration: it is ready where both went well.
pub open spec fn after_generation(
    w: WizardView,
    generated: Result<GenConfigView, Seq<char>>,
    merged: bool,
) -> WizardView {
    match generated {
        Ok(result) => if merged {
            WizardView {
                config_result: Some(result),
                context_name: Some(w.cluster_name),
                state: WizardState::ConfigReady,
                ..w
            }
        } else {
            failed_with(w, "Failed to merge talosconfig"@)
        },
        Err(error) => failed_with(w, "Failed to generate config: "@ + error),
    }
}

/// The file that is applied to the node: the generated configuration
/// for its type.
pub open spec fn config_path_of(w: WizardView) -> Option<Seq<char>> {
    match w.config_result {
        Some(result) => Some(
            match w.node_type {
                NodeType::Controlplane => result.controlplane_path,
                NodeType::Worker => result.worker_path,
            },
        ),
        None => None,
    }
}

/// The wizard as it sets out to apply the configuration: it fails where
/// none was generated.
pub open spec fn before_apply(w: WizardView) -> WizardView {
    match config_path_of(w) {
        Some(_) => WizardView { state: WizardState::Applying, ..w },
        None => failed_with(
            WizardView { state: WizardState::Applying, ..w },
            "No config generated"@,
        ),
    }
}

/// The wizard after the configuration was applied: it waits for the
/// reboot where the node took it.
pub open spec fn after_apply(w: WizardView, applied: Result<InsecureApplyView, Seq<char>>) -> WizardView {
    match applied {
        Ok(result) => if result.success {
            WizardView {
                context_name: Some(w.cluster_name),
                state: WizardState::WaitingReboot,
                ..w
            }
        } else {
            failed_with(w, result.message)
        },
        Err(error) => failed_with(w, "Failed to apply config: "@ + error),
    }
}

/// The wizard as it sets out to bootstrap the cluster: it fails without
/// a context.
pub open spec fn before_bootstrap(w: WizardView) -> WizardView {
    match w.context_name {
        Some(_) => WizardView { state: WizardState::Bootstrapping, ..w },
        None => failed_with(
            WizardView { state: WizardState::Bootstrapping, ..w },
            "No context available for bootstrap"@,
        ),
    }
}

/// The wizard after the bootstrap command has ended.
pub open spec fn after_bootstrap(w: WizardView, end: CommandEndView) -> WizardView {
    match end {
        CommandEndView::Succeeded => WizardView { state: WizardState::WaitingHealthy, ..w },
        CommandEndView::Failed { stderr } => failed_with(w, "Bootstrap failed: "@ + stderr),
        CommandEndView::NotRun { error } => failed_with(w, "Failed to run bootstrap: "@ + error),
    }
}

/// The first line of `text`: what stands before its first line feed,
/// without the carriage return before that line feed; none where the
/// text is empty.
pub open spec fn first_line(text: Seq<char>) -> Option<Seq<char>> {
    let head = split_on(text, "\n"@)[0];
    if text.len() == 0 {
        None
    } else if head.len() < text.len() && head.len() > 0 && head.last() == '\r' {
        Some(head.drop_last())
    } else {
        Some(head)
    }
}

/// What a poll that did not succeed is remembered by: the first line of
/// the complaint, `Unknown error` where there is none, or why the
/// command could not be run.
pub open spec fn poll_complaint(end: CommandEndView) -> Option<Seq<char>> {
    match end {
        CommandEndView::Succeeded => None,
        CommandEndView::Failed { stderr } => Some(
            match first_line(stderr) {
                Some(line) => line,
                None => "Unknown error"@,
            },
        ),
        CommandEndView::NotRun { error } => Some(error),
    }
}

/// The state that a successful poll leads to, and the message with which
/// the wait is given up; none in a state that does not wait.
pub open spec fn wait_of(state: WizardState) -> Option<(WizardState, Seq<char>)> {
    match state {
        WizardState::WaitingReboot => Some(
            (WizardState::ReadyToBootstrap, "Timeout waiting for node to reboot"@),
        ),
        WizardState::WaitingHealthy => Some(
            (WizardState::Complete, "Timeout waiting for cluster to become healthy"@),
        ),
        _ => None,
    }
}

/// The poll count after one more poll; it stays at its highest value.
pub open spec fn next_poll_count(count: u64) -> u64 {
    if count < u64::MAX {
        (count + 1) as u64
    } else {
        count
    }
}

/// The wizard after a poll of a wait. `end` is how the poll command
/// ended, none where no context is known and nothing was run;
/// `waited_secs` is how long the wait has lasted. A wait that has lasted
/// more than five minutes is given up, whatever the poll said.
pub open spec fn after_poll(w: WizardView, end: Option<CommandEndView>, waited_secs: u64) -> WizardView {
    match wait_of(w.state) {
        None => w,
        Some((next, timeout_message)) => {
            let counted = WizardView { poll_attempts: next_poll_count(w.poll_attempts), ..w };
            let polled = match end {
                Some(CommandEndView::Succeeded) => WizardView {
                    last_poll_error: None,
                    state: next,
                    ..counted
                },
                Some(other) => WizardView { last_poll_error: poll_complaint(other), ..counted },
                None => counted,
            };
            if waited_secs > WAIT_TIMEOUT_SECS {
                failed_with(polled, timeout_message)
            } else {
                polled
            }
        },
    }
}

fn prefixed(head: &str, tail: &str) -> (text: String)
    ensures
        text@ == head@ + tail@,
{
    let mut text = head.to_string();
    text.append(tail);
    text
}

fn push_arg(args: &mut Vec<String>, arg: &str)
    ensures
        final(args).deep_view() == old(args).deep_view().push(arg@),
{
    args.push(arg.to_string());
    assert(args.deep_view() =~= old(args).deep_view().push(arg@));
}

/// The first line of a text.
pub fn first_line_of(text: &str) -> (line: Option<String>)
    ensures
        line.deep_view() == first_line(text@),
{
    proof {
        reveal_strlit("\n");
    }
    let total = text.unicode_len();
    if total == 0 {
        return None;
    }
    let pieces = split_text(text, "\n");
    assert(pieces.deep_view()[0] == pieces[0]@);
    let head = pieces[0].as_str();
    let length = head.unicode_len();
    if length < total && length > 0 && head.get_char(length - 1) == '\r' {
        let line = head.substring_char(0, length - 1).to_string();
        assert(line@ =~= head@.drop_last());
        Some(line)
    } else {
        Some(head.to_string())
    }
}

impl Wizard {
    /// A wizard for the node at `endpoint`.
    pub fn new(
        endpoint: &str,
        cluster_name: &str,
        k8s_endpoint: &str,
        output_dir: &str,
        node_type: NodeType,
    ) -> (wizard: Wizard)
        ensures
            wizard@ == (WizardView {
                endpoint: endpoint@,
                cluster_name: cluster_name@,
                k8s_endpoint: k8s_endpoint@,
                output_dir: output_dir@,
                node_type,
                state: WizardState::Setup,
                config_result: None,
                context_name: None,
                poll_attempts: 0,
                last_poll_error: None,
                error: None,
            }),
    {
        Wizard {
            endpoint: endpoint.to_string(),
            cluster_name: cluster_name.to_string(),
            k8s_endpoint: k8s_endpoint.to_string(),
            output_dir: output_dir.to_string(),
            node_type,
            state: WizardState::Setup,
            config_result: None,
            context_name: None,
            poll_attempts: 0,
            last_poll_error: None,
            error: None,
        }
    }

    /// Fails the wizard with `message`.
    pub fn set_error(&mut self, message: String)
        ensures
            final(self)@ == failed_with(old(self)@, message@),
    {
        self.state = WizardState::Failed;
        self.error = Some(message);
    }

    /// The additional names for the generated certificates.
    pub fn additional_sans(&self) -> (sans: Vec<String>)
        ensures
            sans.deep_view() == additional_sans_of(self@),
    {
        let mut sans: Vec<String> = Vec::new();
        assert(sans.deep_view() =~= Seq::empty());
        push_arg(&mut sans, self.endpoint.as_str());
        push_arg(&mut sans, "127.0.0.1");
        assert(sans.deep_view() =~= additional_sans_of(self@));
        sans
    }

    /// Takes the outcome of generating the configuration (`Err` holds
    /// the error's message) and of merging it into the user's
    /// configuration.
    pub fn on_generated(&mut self, generated: Result<GenConfigResult, String>, merged: bool)
        ensures
            final(self)@ == after_generation(
                old(self)@,
                match generated {
                    Ok(result) => Ok(result@),
                    Err(error) => Err(error@),
                },
                merged,
            ),
    {
        match generated {
            Ok(result) => {
                if merged {
                    self.config_result = Some(result);
                    self.context_name = Some(self.cluster_name.clone());
                    self.state = WizardState::ConfigReady;
                } else {
                    self.set_error("Failed to merge talosconfig".to_string());
                }
            },
            Err(error) => {
                self.set_error(prefixed("Failed to generate config: ", error.as_str()));
            },
        }
    }

    /// Sets out to apply the configuration and names the file to apply.
    pub fn begin_apply(&mut self) -> (path: Option<String>)
        ensures
            final(self)@ == before_apply(old(self)@),
            path.deep_view() == config_path_of(old(self)@),
    {
        self.state = WizardState::Applying;
        let path = match &self.config_result {
            Some(result) => Some(
                match self.node_type {
                    NodeType::Controlplane => result.controlplane_path.clone(),
                    NodeType::Worker => result.worker_path.clone(),
                },
            ),
            None => None,
        };
        match &path {
            Some(_) => {},
            None => {
                self.set_error("No config generated".to_string());
            },
        }
        path
    }

    /// Takes the outcome of applying the configuration (`Err` holds the
    /// error's message).
    pub fn on_applied(&mut self, applied: Result<InsecureApplyResult, String>)
        ensures
            final(self)@ == after_apply(
                old(self)@,
                match applied {
                    Ok(result) => Ok(result@),
                    Err(error) => Err(error@),
                },
            ),
    {
        match applied {
            Ok(result) => {
                if result.success {
                    self.context_name = Some(self.cluster_name.clone());
                    self.state = WizardState::WaitingReboot;
                } else {
                    self.set_error(result.message);
                }
            },
            Err(error) => {
                self.set_error(prefixed("Failed to apply config: ", error.as_str()));
            },
        }
    }

    /// Sets out to bootstrap the cluster and names the context to
    /// bootstrap.
    pub fn begin_bootstrap(&mut self) -> (context: Option<String>)
        ensures
            final(self)@ == before_bootstrap(old(self)@),
            context.deep_view() == old(self)@.context_name,
    {
        self.state = WizardState::Bootstrapping;
        let context = match &self.context_name {
            Some(name) => Some(name.clone()),
            None => None,
        };
        match &context {
            Some(_) => {},
            None => {
                self.set_error("No context available for bootstrap".to_string());
            },
        }
        context
    }

    /// Takes the end of the bootstrap command.
    pub fn on_bootstrapped(&mut self, end: &CommandEnd)
        ensures
            final(self)@ == after_bootstrap(old(self)@, end@),
    {
        match end {
            CommandEnd::Succeeded => {
                self.state = WizardState::WaitingHealthy;
            },
            CommandEnd::Failed { stderr } => {
                self.set_error(prefixed("Bootstrap failed: ", stderr.as_str()));
            },
            CommandEnd::NotRun { error } => {
                self.set_error(prefixed("Failed to run bootstrap: ", error.as_str()));
            },
        }
    }

    /// The arguments of the command that a wait polls with: `version`
    /// while waiting for the reboot, `etcd status` while waiting for the
    /// cluster, both under the context; none in any other state or
    /// without a context.
    pub fn poll_args(&self) -> (args: Option<Vec<String>>)
        ensures
            match args {
                Some(list) => self@.context_name is Some && (match self@.state {
                    WizardState::WaitingReboot => list.deep_view() == seq![
                        "--context"@,
                        self@.context_name->0,
                        "version"@,
                    ],
                    WizardState::WaitingHealthy => list.deep_view() == seq![
                        "--context"@,
                        self@.context_name->0,
                        "etcd"@,
                        "status"@,
                    ],
                    _ => false,
                }),
                None => self@.context_name is None || wait_of(self@.state) is None,
            },
    {
        let context = match &self.context_name {
            Some(name) => name,
            None => {
                return None;
            },
        };
        let mut args: Vec<String> = Vec::new();
        assert(args.deep_view() =~= Seq::empty());
        match self.state {
            WizardState::WaitingReboot => {
                push_arg(&mut args, "--context");
                push_arg(&mut args, context.as_str());
                push_arg(&mut args, "version");
                assert(args.deep_view() =~= seq!["--context"@, context@, "version"@]);
                Some(args)
            },
            WizardState::WaitingHealthy => {
                push_arg(&mut args, "--context");
                push_arg(&mut args, context.as_str());
                push_arg(&mut args, "etcd");
                push_arg(&mut args, "status");
                assert(args.deep_view() =~= seq!["--context"@, context@, "etcd"@, "status"@]);
                Some(args)
            },
            _ => None,
        }
    }

    /// Takes the end of a poll (`None` where nothing was run) and the
    /// seconds that the wait has lasted.
    pub fn on_polled(&mut self, end: Option<&CommandEnd>, waited_secs: u64)
        ensures
            final(self)@ == after_poll(
                old(self)@,
                match end {
                    Some(e) => Some(e@),
                    None => None,
                },
                waited_secs,
            ),
    {
        let (next, timeout_message) = match self.state {
            WizardState::WaitingReboot => (
                WizardState::ReadyToBootstrap,
                "Timeout waiting for node to reboot",
            ),
            WizardState::WaitingHealthy => (
                WizardState::Complete,
                "Timeout waiting for cluster to become healthy",
            ),
            _ => {
                return ;
            },
        };
        if self.poll_attempts < u64::MAX {
            self.poll_attempts = self.poll_attempts + 1;
        }
        match end {
            Some(CommandEnd::Succeeded) => {
                self.last_poll_error = None;
                self.state = next;
            },
            Some(CommandEnd::Failed { stderr }) => {
                self.last_poll_error = Some(
                    match first_line_of(stderr.as_str()) {
                        Some(line) => line,
                        None => "Unknown error".to_string(),
                    },
                );
            },
            Some(CommandEnd::NotRun { error }) => {
                self.last_poll_error = Some(error.clone());
            },
            None => {},
        }
        if waited_secs > WAIT_TIMEOUT_SECS {
            self.set_error(timeout_message.to_string());
        }
    }
}

/// Whether the merge of the generated configuration went well, by the
/// ends of its three commands: the merge itself must succeed; setting the
/// endpoint and the node must only have been run.
pub fn merge_went_well(merge: &CommandEnd, set_endpoint: &CommandEnd, set_node: &CommandEnd) -> (well:
    bool)
    ensures
        well == (merge@ is Succeeded && !(set_endpoint@ is NotRun) && !(set_node@ is NotRun)),
{
    let merged = match merge {
        CommandEnd::Succeeded => true,
        _ => false,
    };
    let endpoint_set = match set_endpoint {
        CommandEnd::NotRun { .. } => false,
        _ => true,
    };
    let node_set = match set_node {
        CommandEnd::NotRun { .. } => false,
        _ => true,
    };
    merged && endpoint_set && node_set
}

/// A wait that has lasted more than five minutes fails the wizard,
/// whatever the poll said; within the five minutes only a successful
/// poll moves the wizard on.
pub proof fn waits_are_bounded(w: WizardView, end: Option<CommandEndView>, waited_secs: u64)
    requires
        wait_of(w.state) is Some,
    ensures
        waited_secs > WAIT_TIMEOUT_SECS ==> after_poll(w, end, waited_secs).state
            == WizardState::Failed && after_poll(w, end, waited_secs).error == Some(
            (wait_of(w.state)->0).1,
        ),
        waited_secs <= WAIT_TIMEOUT_SECS ==> (after_poll(w, end, waited_secs).state != w.state
            <==> end == Some(CommandEndView::Succeeded)),
        waited_secs <= WAIT_TIMEOUT_SECS && end == Some(CommandEndView::Succeeded) ==> after_poll(
            w,
            end,
            waited_secs,
        ).state == (wait_of(w.state)->0).0,
{
}

} // verus!
