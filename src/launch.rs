use vstd::prelude::*;
use vstd::string::*;
use crate::error::{ErrorKind, ExtensionError};
use crate::layout::{
    helper_binary_path, helper_binary_spec, manifest_path, manifest_spec, HELPER_PACKAGE,
    HELPER_VERSION_RANGE, MANIFEST_CONTENT,
};
use crate::settings::{env_view, strings_view, UserSettings};

verus! {

/// How the host is to spawn the helper: the Node runtime, its arguments and
/// the environment, in order.
pub struct LaunchDescriptor {
    pub command: String,
    pub args: Vec<String>,
    pub env: Vec<(String, String)>,
}

/// A launch descriptor as character sequences.
pub struct DescriptorView {
    pub command: Seq<char>,
    pub args: Seq<Seq<char>>,
    pub env: Seq<(Seq<char>, Seq<char>)>,
}

impl View for LaunchDescriptor {
    type V = DescriptorView;

    open spec fn view(&self) -> DescriptorView {
        DescriptorView {
            command: self.command@,
            args: strings_view(self.args@),
            env: env_view(self.env@),
        }
    }
}

/// Where a launch stands: which answer from the outside it waits for.
#[derive(Clone, Copy, Debug, PartialEq, Eq, Structural)]
pub enum Stage {
    /// Waits to learn whether the helper binary exists.
    ProbeBinary,
    /// Waits to learn whether the manifest exists.
    ProbeManifest,
    /// Waits for the manifest to be written.
    WriteManifest,
    /// Waits for the package installer.
    Install,
    /// Waits to learn whether the helper binary exists after the install.
    ReprobeBinary,
    /// Waits for the host to report the Node runtime's path.
    AwaitNodePath,
    /// Finished: launched or failed.
    Done,
}

/// The outcome of the last action, handed back by the caller.
pub enum Event {
    /// The probed file exists or not.
    Exists(bool),
    /// The manifest was written, or the write failed with a diagnostic.
    Written(Result<(), String>),
    /// The installer succeeded, or failed with a diagnostic.
    Installed(Result<(), String>),
    /// The host's Node path, or its diagnostic.
    NodePath(Result<String, String>),
}

/// What the caller is to do next.
pub enum Action {
    /// Check whether the file at this path exists; answer with `Exists`.
    Probe(String),
    /// Write this content at this path; answer with `Written`.
    WriteManifest { path: String, content: String },
    /// Install this package at this version range; answer with `Installed`.
    Install { package: String, version: String },
    /// Ask the host for the Node runtime's path; answer with `NodePath`.
    QueryNodePath,
    /// Spawn the helper as described; the launch is over.
    Launch(LaunchDescriptor),
    /// Report this error; the launch is over.
    Fail(ExtensionError),
}

/// An action as plain values.
pub enum ActionView {
    Probe(Seq<char>),
    WriteManifest(Seq<char>, Seq<char>),
    Install(Seq<char>, Seq<char>),
    QueryNodePath,
    Launch(DescriptorView),
    Fail((ErrorKind, Seq<char>)),
}

impl View for Action {
    type V = ActionView;

    open spec fn view(&self) -> ActionView {
        match self {
            Action::Probe(p) => ActionView::Probe(p@),
            Action::WriteManifest { path, content } => ActionView::WriteManifest(path@, content@),
            Action::Install { package, version } => ActionView::Install(package@, version@),
            Action::QueryNodePath => ActionView::QueryNodePath,
            Action::Launch(d) => ActionView::Launch(d@),
            Action::Fail(e) => ActionView::Fail(e@),
        }
    }
}

/// Whether a launch at `stage` takes `e` as the answer to its last action.
pub open spec fn accepts(stage: Stage, e: Event) -> bool {
    match stage {
        Stage::ProbeBinary | Stage::ProbeManifest | Stage::ReprobeBinary => e is Exists,
        Stage::WriteManifest => e is Written,
        Stage::Install => e is Installed,
        Stage::AwaitNodePath => e is NodePath,
        Stage::Done => false,
    }
}

/// The installer request for the helper package at its declared range.
pub open spec fn install_action() -> ActionView {
    ActionView::Install(HELPER_PACKAGE@, HELPER_VERSION_RANGE@)
}

/// One launch of the helper, from the settings to a descriptor or an error.
pub struct Resolver {
    pub stage: Stage,
    pub settings: UserSettings,
    /// The install site's root directory.
    pub root: String,
    /// Where the helper binary is expected.
    pub binary: String,
    /// Where the manifest is.
    pub manifest: String,
}

impl Resolver {
    /// The paths are those of the install site's layout under `root`.
    pub open spec fn wf(&self) -> bool {
        &&& self.binary@ == helper_binary_spec(self.root@)
        &&& self.manifest@ == manifest_spec(self.root@)
    }

    /// The descriptor for a launch with the Node runtime at `node`.
    pub open spec fn descriptor_spec(&self, node: Seq<char>) -> DescriptorView {
        DescriptorView { command: node, args: seq![self.binary@], env: self.settings.env_spec() }
    }

    /// Where a launch at `stage` goes on the answer `e`, and what it asks next.
    pub open spec fn transition(&self, stage: Stage, e: Event) -> (Stage, ActionView) {
        match (stage, e) {
            (Stage::ProbeBinary, Event::Exists(true)) => (
                Stage::AwaitNodePath,
                ActionView::QueryNodePath,
            ),
            (Stage::ProbeBinary, Event::Exists(false)) => (
                Stage::ProbeManifest,
                ActionView::Probe(self.manifest@),
            ),
            (Stage::ProbeManifest, Event::Exists(true)) => (Stage::Install, install_action()),
            (Stage::ProbeManifest, Event::Exists(false)) => (
                Stage::WriteManifest,
                ActionView::WriteManifest(self.manifest@, MANIFEST_CONTENT@),
            ),
            (Stage::WriteManifest, Event::Written(Ok(_))) => (Stage::Install, install_action()),
            (Stage::WriteManifest, Event::Written(Err(m))) => (
                Stage::Done,
                ActionView::Fail((ErrorKind::ManifestWrite, m@)),
            ),
            (Stage::Install, Event::Installed(Ok(_))) => (
                Stage::ReprobeBinary,
                ActionView::Probe(self.binary@),
            ),
            (Stage::Install, Event::Installed(Err(m))) => (
                Stage::Done,
                ActionView::Fail((ErrorKind::Install, m@)),
            ),
            (Stage::ReprobeBinary, Event::Exists(true)) => (
                Stage::AwaitNodePath,
                ActionView::QueryNodePath,
            ),
            (Stage::ReprobeBinary, Event::Exists(false)) => (
                Stage::Done,
                ActionView::Fail((ErrorKind::PostInstallMissingBinary, self.binary@)),
            ),
            (Stage::AwaitNodePath, Event::NodePath(Ok(p))) => (
                Stage::Done,
                ActionView::Launch(self.descriptor_spec(p@)),
            ),
            (Stage::AwaitNodePath, Event::NodePath(Err(m))) => (
                Stage::Done,
                ActionView::Fail((ErrorKind::HostRuntimePath, m@)),
            ),
            _ => (Stage::Done, ActionView::QueryNodePath),
        }
    }

    /// The actions asked for when the answers `events` are fed in turn to a
    /// launch at `stage`, up to the first answer it does not take.
    pub open spec fn run(&self, stage: Stage, events: Seq<Event>) -> Seq<ActionView>
        decreases events.len(),
    {
        if events.len() == 0 || !accepts(stage, events[0]) {
            Seq::empty()
        } else {
            let (next, a) = self.transition(stage, events[0]);
            seq![a] + self.run(next, events.drop_first())
        }
    }
    /// The settings a launch works with: the parsed ones, or none set when the
    /// project has no settings for the helper.
    pub open spec fn settings_from(parsed: Option<UserSettings>) -> UserSettings {
        match parsed {
            Some(s) => s,
            None => UserSettings { preferred_theme: None, component_filter: None },
        }
    }

    /// Begins a launch with the install site rooted at `root`. `settings` is
    /// what reading the project settings gave: their parsed value, `None` when
    /// there are none, or the parser's diagnostic. The launch then fails with a
    /// settings error, or first asks whether the helper binary exists.
    pub fn start(settings: Result<Option<UserSettings>, String>, root: &str) -> (r: (
        Resolver,
        Action,
    ))
        ensures
            r.0.wf(),
            r.0.root@ == root@,
            match settings {
                Ok(parsed) => {
                    &&& r.0.stage == Stage::ProbeBinary
                    &&& r.0.settings == Self::settings_from(parsed)
                    &&& r.1@ == ActionView::Probe(helper_binary_spec(root@))
                },
                Err(m) => {
                    &&& r.0.stage == Stage::Done
                    &&& r.1@ == ActionView::Fail((ErrorKind::SettingsParse, m@))
                },
            },
    {
        let binary = helper_binary_path(root);
        let manifest = manifest_path(root);
        let (stage, settings, action) = match settings {
            Ok(Some(s)) => (Stage::ProbeBinary, s, Action::Probe(binary.clone())),
            Ok(None) => (Stage::ProbeBinary, UserSettings::empty(), Action::Probe(binary.clone())),
            Err(m) => (
                Stage::Done,
                UserSettings::empty(),
                Action::Fail(ExtensionError::new(ErrorKind::SettingsParse, m)),
            ),
        };
        let r = Resolver { stage, settings, root: String::from_str(root), binary, manifest };
        (r, action)
    }

    /// Whether this launch takes `e` as the answer to its last action.
    pub fn accepts_event(&self, e: &Event) -> (r: bool)
        ensures
            r == accepts(self.stage, *e),
    {
        match self.stage {
            Stage::ProbeBinary | Stage::ProbeManifest | Stage::ReprobeBinary => matches!(e, Event::Exists(_)),
            Stage::WriteManifest => matches!(e, Event::Written(_)),
            Stage::Install => matches!(e, Event::Installed(_)),
            Stage::AwaitNodePath => matches!(e, Event::NodePath(_)),
            Stage::Done => false,
        }
    }

    /// Feeds the answer to the last action and returns the next action.
    pub fn step(&mut self, e: Event) -> (a: Action)
        requires
            old(self).wf(),
            accepts(old(self).stage, e),
        ensures
            final(self).wf(),
            final(self).settings == old(self).settings,
            final(self).root == old(self).root,
            final(self).binary == old(self).binary,
            final(self).manifest == old(self).manifest,
            (final(self).stage, a@) == old(self).transition(old(self).stage, e),
    {
        let (next, a) = match (self.stage, e) {
            (Stage::ProbeBinary, Event::Exists(true)) => (Stage::AwaitNodePath, Action::QueryNodePath),
            (Stage::ProbeBinary, Event::Exists(false)) => (
                Stage::ProbeManifest,
                Action::Probe(self.manifest.clone()),
            ),
            (Stage::ProbeManifest, Event::Exists(true)) => (Stage::Install, install_request()),
            (Stage::ProbeManifest, Event::Exists(false)) => (
                Stage::WriteManifest,
                Action::WriteManifest {
                    path: self.manifest.clone(),
                    content: String::from_str(MANIFEST_CONTENT),
                },
            ),
            (Stage::WriteManifest, Event::Written(Ok(_))) => (Stage::Install, install_request()),
            (Stage::WriteManifest, Event::Written(Err(m))) => (
                Stage::Done,
                Action::Fail(ExtensionError::new(ErrorKind::ManifestWrite, m)),
            ),
            (Stage::Install, Event::Installed(Ok(_))) => (
                Stage::ReprobeBinary,
                Action::Probe(self.binary.clone()),
            ),
            (Stage::Install, Event::Installed(Err(m))) => (
                Stage::Done,
                Action::Fail(ExtensionError::new(ErrorKind::Install, m)),
            ),
            (Stage::ReprobeBinary, Event::Exists(true)) => (Stage::AwaitNodePath, Action::QueryNodePath),
            (Stage::ReprobeBinary, Event::Exists(false)) => (
                Stage::Done,
                Action::Fail(
                    ExtensionError::new(ErrorKind::PostInstallMissingBinary, self.binary.clone()),
                ),
            ),
            (Stage::AwaitNodePath, Event::NodePath(Ok(p))) => {
                let d = self.descriptor(p);
                (Stage::Done, Action::Launch(d))
            },
            (Stage::AwaitNodePath, Event::NodePath(Err(m))) => (
                Stage::Done,
                Action::Fail(ExtensionError::new(ErrorKind::HostRuntimePath, m)),
            ),
            (_, _) => (Stage::Done, Action::QueryNodePath),
        };
        self.stage = next;
        a
    }

    /// The descriptor that launches the helper with the Node runtime at `node`.
    pub fn descriptor(&self, node: String) -> (r: LaunchDescriptor)
        ensures
            r@ == self.descriptor_spec(node@),
    {
        let mut args: Vec<String> = Vec::new();
        args.push(self.binary.clone());
        let env = self.settings.env();
        let r = LaunchDescriptor { command: node, args, env };
        assert(r@.args =~= seq![self.binary@]);
        r
    }
}

/// The request to install the helper package at its declared range.
fn install_request() -> (a: Action)
    ensures
        a@ == install_action(),
{
    Action::Install {
        package: String::from_str(HELPER_PACKAGE),
        version: String::from_str(HELPER_VERSION_RANGE),
    }
}

/// A launch that succeeds hands the host the Node path it reported as the
/// command, exactly one argument, the helper binary's path under the install
/// site, and the environment that the settings give.
pub proof fn lemma_launch_shape(r: Resolver, stage: Stage, e: Event)
    requires
        r.wf(),
        accepts(stage, e),
        r.transition(stage, e).1 is Launch,
    ensures
        e matches Event::NodePath(Ok(p)) && ({
            let d = r.transition(stage, e).1->Launch_0;
            &&& d.command == p@
            &&& d.args == seq![helper_binary_spec(r.root@)]
            &&& d.args.len() == 1
            &&& d.env == r.settings.env_spec()
        }),
{
}

/// Once the helper binary is on disk, a launch writes no manifest and calls no
/// installer, whatever answers follow.
pub proof fn lemma_installed_no_disk_change(r: Resolver, events: Seq<Event>)
    requires
        events.len() > 0,
        events[0] == Event::Exists(true),
    ensures
        r.run(Stage::ProbeBinary, events).len() <= 2,
        forall|i: int|
            0 <= i < r.run(Stage::ProbeBinary, events).len() ==> {
                &&& !(#[trigger] r.run(Stage::ProbeBinary, events)[i] is WriteManifest)
                &&& !(r.run(Stage::ProbeBinary, events)[i] is Install)
            },
{
    let rest = events.drop_first();
    assert(r.run(Stage::ProbeBinary, events) == seq![ActionView::QueryNodePath] + r.run(
        Stage::AwaitNodePath,
        rest,
    ));
    if rest.len() > 0 && accepts(Stage::AwaitNodePath, rest[0]) {
        let (next, a) = r.transition(Stage::AwaitNodePath, rest[0]);
        assert(next == Stage::Done);
        assert(r.run(Stage::Done, rest.drop_first()) == Seq::<ActionView>::empty());
        assert(r.run(Stage::AwaitNodePath, rest) == seq![a]);
        assert(!(a is WriteManifest) && !(a is Install));
    } else {
        assert(r.run(Stage::AwaitNodePath, rest) == Seq::<ActionView>::empty());
    }
}

/// Once the helper binary is on disk, a launch depends on nothing but the
/// settings, the install site and the Node path: it asks for the Node path and
/// then launches, so two launches with the same inputs ask and return the same.
pub proof fn lemma_installed_launch(r: Resolver, node: String)
    ensures
        r.run(Stage::ProbeBinary, seq![Event::Exists(true), Event::NodePath(Ok(node))]) == seq![
            ActionView::QueryNodePath,
            ActionView::Launch(r.descriptor_spec(node@)),
        ],
{
    let events = seq![Event::Exists(true), Event::NodePath(Ok(node))];
    let rest = events.drop_first();
    assert(rest.drop_first() =~= Seq::<Event>::empty());
    assert(r.run(Stage::Done, rest.drop_first()) == Seq::<ActionView>::empty());
    assert(r.run(Stage::AwaitNodePath, rest) =~= seq![ActionView::Launch(r.descriptor_spec(node@))]);
    assert(r.run(Stage::ProbeBinary, events) =~= seq![
        ActionView::QueryNodePath,
        ActionView::Launch(r.descriptor_spec(node@)),
    ]);
}

} // verus!
