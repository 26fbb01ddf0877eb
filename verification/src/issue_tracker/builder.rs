//! Choosing the tracker of a remote.

use vstd::prelude::*;
use secure_string::SecureString;
use crate::command::CommandOutcome;
use crate::config::{first_matching, Remote, RemoteView, User};
use crate::credentials::{
    credential_resolved, resolve_credentials, secret_text, CredentialOutcome,
    CredentialOutcomeView,
};
use crate::healthcheck::{
    filing, ComponentState, ComponentStateView, HealthEventView, HealthReport,
};
use crate::issue_tracker::azure::AzureDevops;
use crate::issue_tracker::demo::DemoAdapter;
use crate::issue_tracker::github::Github;
use crate::issue_tracker::gitlab::Gitlab;
use crate::issue_tracker::{
    error_text, Adapter, IssueTracker, TicketView, UpstreamError, UpstreamErrorView,
};
use crate::remote::{opt_text, remote_parsed, RemoteDescriptor, RemoteDescriptorView};
use crate::text::{contains, is_substring, join_from, joined, owned, same_text, texts};

verus! {

/// The trackers that can be asked.
#[derive(Copy, Clone, Debug, PartialEq, Eq)]
pub enum IssueTrackerType {
    /// Tickets from files in a local directory.
    Demo,
    Gitlab,
    Github,
    AzureDevOps,
}

/// The name that a tracker is shown under.
pub open spec fn tracker_name(kind: IssueTrackerType) -> Seq<char> {
    match kind {
        IssueTrackerType::Demo => "<DEMO>"@,
        IssueTrackerType::Gitlab => "Gitlab"@,
        IssueTrackerType::Github => "Github"@,
        IssueTrackerType::AzureDevOps => "Azure DevOps"@,
    }
}

/// The tracker that a host name points to. With `demo` set it is always the
/// local one; without a host, and for a host that none of the rules knows,
/// there is none.
pub open spec fn guessed_tracker(host: Option<Seq<char>>, demo: bool) -> Option<IssueTrackerType> {
    if demo {
        Some(IssueTrackerType::Demo)
    } else {
        match host {
            None => None,
            Some(h) => if h == "ssh.dev.azure.com"@ || h == "dev.azure.com"@ {
                Some(IssueTrackerType::AzureDevOps)
            } else if h == "github.com"@ {
                Some(IssueTrackerType::Github)
            } else if is_substring(h, "gitlab"@) {
                Some(IssueTrackerType::Gitlab)
            } else {
                None
            },
        }
    }
}

/// A text in which no `g` stands so that `gitlab` could follow does not hold
/// `gitlab`.
proof fn lemma_without_gitlab(host: Seq<char>)
    requires
        forall|i: int|
            0 <= i && i + 6 <= host.len() ==> #[trigger] host[i] != 'g' || host[i + 1] != 'i',
    ensures
        !is_substring(host, "gitlab"@),
{
    reveal_strlit("gitlab");
    assert forall|i: int| !crate::text::occurs_at(host, "gitlab"@, i) by {
        if 0 <= i && i + 6 <= host.len() {
            let part = host.subrange(i, i + 6);
            assert(part[0] == host[i]);
            assert(part[1] == host[i + 1]);
            assert("gitlab"@[0] == 'g');
            assert("gitlab"@[1] == 'i');
        }
    }
}

/// The hosts that are known by their names are guessed as their trackers,
/// every host that holds `gitlab` is guessed as GitLab, and `bitbucket.org`
/// is not guessed at all.
pub proof fn lemma_guess_by_host(host: Seq<char>)
    ensures
        guessed_tracker(Some("dev.azure.com"@), false) == Some(IssueTrackerType::AzureDevOps),
        guessed_tracker(Some("ssh.dev.azure.com"@), false) == Some(IssueTrackerType::AzureDevOps),
        guessed_tracker(Some("github.com"@), false) == Some(IssueTrackerType::Github),
        is_substring(host, "gitlab"@) ==> guessed_tracker(Some(host), false) == Some(
            IssueTrackerType::Gitlab,
        ),
        guessed_tracker(Some("bitbucket.org"@), false) is None,
{
    reveal_strlit("dev.azure.com");
    reveal_strlit("ssh.dev.azure.com");
    reveal_strlit("github.com");
    reveal_strlit("bitbucket.org");
    assert("dev.azure.com"@.len() == 13);
    assert("ssh.dev.azure.com"@.len() == 17);
    assert("github.com"@.len() == 10);
    assert("bitbucket.org"@.len() == 13);
    lemma_without_gitlab("dev.azure.com"@);
    lemma_without_gitlab("ssh.dev.azure.com"@);
    lemma_without_gitlab("bitbucket.org"@);
    assert(!is_substring("github.com"@, "gitlab"@)) by {
        reveal_strlit("gitlab");
        assert forall|i: int| !crate::text::occurs_at("github.com"@, "gitlab"@, i) by {
            if 0 <= i && i + 6 <= 10 {
                let part = "github.com"@.subrange(i, i + 6);
                assert(part[0] == "github.com"@[i]);
                assert(part[3] == "github.com"@[i + 3]);
                assert("gitlab"@[0] == 'g');
                assert("gitlab"@[3] == 'l');
            }
        }
    }
    assert("bitbucket.org"@[0] == 'b');
    assert("github.com"@[0] == 'g');
    assert("dev.azure.com"@[0] == 'd');
    assert("ssh.dev.azure.com"@[0] == 's');
}

impl IssueTrackerType {
    /// The name that the tracker is shown under.
    pub fn name(&self) -> (r: String)
        ensures
            r@ == tracker_name(*self),
    {
        match self {
            IssueTrackerType::Demo => owned("<DEMO>"),
            IssueTrackerType::Gitlab => owned("Gitlab"),
            IssueTrackerType::Github => owned("Github"),
            IssueTrackerType::AzureDevOps => owned("Azure DevOps"),
        }
    }

    /// Guesses the tracker from the host of a remote. `demo` says that the
    /// local tracker is forced.
    pub fn guess_from_url(url: &RemoteDescriptor, demo: bool) -> (r: Option<Self>)
        ensures
            r == guessed_tracker(url@.host, demo),
    {
        if demo {
            return Some(Self::Demo);
        }
        match &url.host {
            None => None,
            Some(h) => {
                let host = h.as_str();
                if same_text(host, "ssh.dev.azure.com") || same_text(host, "dev.azure.com") {
                    Some(Self::AzureDevOps)
                } else if same_text(host, "github.com") {
                    Some(Self::Github)
                } else if contains(host, "gitlab") {
                    Some(Self::Gitlab)
                } else {
                    None
                }
            },
        }
    }
}

/// What an adapter is made from.
pub struct TrackerConfig {
    pub url: RemoteDescriptor,
    pub secret: Option<SecureString>,
}

/// The characters of an optional secret.
pub open spec fn opt_secret(secret: Option<SecureString>) -> Option<Seq<char>> {
    match secret {
        Some(s) => Some(secret_text(&s)),
        None => None,
    }
}

/// The command line of an optional command, as characters.
pub open spec fn opt_command(command: Option<Vec<String>>) -> Option<Seq<Seq<char>>> {
    match command {
        Some(c) => Some(texts(c@)),
        None => None,
    }
}

/// What a tracker is built from.
pub struct Builder {
    /// The tracker to build; none if it is neither configured nor guessed.
    pub tracker_type: Option<IssueTrackerType>,
    url: RemoteDescriptor,
    credential_command: Option<Vec<String>>,
    demo_folder: Option<String>,
}

pub struct BuilderView {
    pub tracker_type: Option<IssueTrackerType>,
    pub url: RemoteDescriptorView,
    pub credential_command: Option<Seq<Seq<char>>>,
    pub demo_folder: Option<Seq<char>>,
}

impl View for Builder {
    type V = BuilderView;

    closed spec fn view(&self) -> BuilderView {
        BuilderView {
            tracker_type: self.tracker_type,
            url: self.url@,
            credential_command: opt_command(self.credential_command),
            demo_folder: opt_text(self.demo_folder),
        }
    }
}

/// How a remote is named in a report: host and full name, without anything
/// that a URL may carry to log in.
pub open spec fn remote_summary(d: RemoteDescriptorView) -> Seq<char> {
    match d.host {
        Some(h) => h + "/"@ + d.fullname,
        None => d.fullname,
    }
}

/// What is filed when the configured address of the tracker is applied.
pub open spec fn override_events(url_override: Option<Seq<char>>) -> Seq<HealthEventView> {
    match url_override {
        Some(u) => seq![
            HealthEventView::Checked(
                "Apply url overwrite"@,
                match remote_parsed(u) {
                    Ok(d) => ComponentStateView::Pass(Some(remote_summary(d))),
                    Err(e) => ComponentStateView::Error(error_text(e)),
                },
            ),
        ],
        None => Seq::<HealthEventView>::empty(),
    }
}

/// The remote after the configured address of the tracker is applied: the
/// one that the address names, and the one before if there is no address or
/// it cannot be read.
pub open spec fn overridden(url: RemoteDescriptorView, url_override: Option<Seq<char>>) -> RemoteDescriptorView {
    match url_override {
        Some(u) => match remote_parsed(u) {
            Ok(d) => d,
            Err(_) => url,
        },
        None => url,
    }
}

/// The secret in what asking for the credential came to.
pub open spec fn secret_of(credential: CredentialOutcomeView) -> Option<Seq<char>> {
    match credential {
        CredentialOutcomeView::Secret(s) => Some(s),
        _ => None,
    }
}

/// What is filed about the credential when a tracker is built.
pub open spec fn credential_events(
    command: Option<Seq<Seq<char>>>,
    credential: CredentialOutcomeView,
) -> Seq<HealthEventView> {
    match command {
        Some(c) => seq![
            HealthEventView::Checked(
                "Check for credentials command"@,
                ComponentStateView::Pass(Some(joined(c, " "@))),
            ),
            HealthEventView::Checked(
                "Get credentials"@,
                if credential is Secret {
                    ComponentStateView::Pass(None)
                } else {
                    ComponentStateView::Error(Seq::<char>::empty())
                },
            ),
        ],
        None => seq![
            HealthEventView::Checked(
                "Check for credentials command"@,
                ComponentStateView::Info("None configured"@),
            ),
        ],
    }
}

/// Whether an adapter can be made: the tracker is known and the remote and
/// the credential give what it needs.
pub open spec fn buildable(b: BuilderView, secret: Option<Seq<char>>) -> bool {
    match b.tracker_type {
        None => false,
        Some(IssueTrackerType::Demo) => b.demo_folder is Some,
        Some(IssueTrackerType::Gitlab) => secret is Some && b.url.host is Some,
        Some(IssueTrackerType::Github) => b.url.owner is Some,
        Some(IssueTrackerType::AzureDevOps) => secret is Some && b.url.organization is Some
            && b.url.owner is Some,
    }
}

/// Whether `adapter` is the one that is made from the builder and the secret.
pub open spec fn adapter_built(b: BuilderView, secret: Option<Seq<char>>, adapter: Adapter) -> bool {
    match (b.tracker_type, adapter) {
        (Some(IssueTrackerType::Demo), Adapter::Demo(d)) => Some(d.folder()) == b.demo_folder,
        (Some(IssueTrackerType::Gitlab), Adapter::Gitlab(g)) => {
            &&& Some(g@.token) == secret
            &&& Some(g@.host) == b.url.host
            &&& g@.project == b.url.fullname
        },
        (Some(IssueTrackerType::Github), Adapter::Github(g)) => {
            &&& g@.token == secret
            &&& Some(g@.owner) == b.url.owner
            &&& g@.repo == b.url.name
            &&& g@.username is None
        },
        (Some(IssueTrackerType::AzureDevOps), Adapter::AzureDevops(a)) => {
            &&& Some(a@.pat) == secret
            &&& Some(a@.organization) == b.url.organization
            &&& Some(a@.project) == b.url.owner
        },
        _ => false,
    }
}

impl Builder {
    /// A builder for the tracker of the remote `url`, guessed from its host.
    /// With a `demo_folder` the tracker is the one made of the files there.
    pub fn new(url: RemoteDescriptor, demo_folder: Option<String>) -> (r: Self)
        ensures
            r@ == (BuilderView {
                tracker_type: guessed_tracker(url@.host, demo_folder is Some),
                url: url@,
                credential_command: None,
                demo_folder: opt_text(demo_folder),
            }),
    {
        let tracker_type = IssueTrackerType::guess_from_url(&url, demo_folder.is_some());
        Self { tracker_type, url, credential_command: None, demo_folder }
    }

    /// The command to run for the credential, if one is configured.
    pub fn credential_command(&self) -> (r: Option<&Vec<String>>)
        ensures
            match r {
                Some(c) => self@.credential_command == Some(texts(c@)),
                None => self@.credential_command is None,
            },
    {
        self.credential_command.as_ref()
    }

    /// Takes over what the user configures for the remote: the command for
    /// the credential and, where it can be read, the address of the tracker.
    pub fn add_remote_config(&mut self, health: &mut HealthReport, config: Remote)
        ensures
            final(self)@ == (BuilderView {
                url: overridden(old(self)@.url, opt_text(config.issue_tracker_url)),
                credential_command: opt_command(config.credentials_command),
                ..old(self)@
            }),
            filing(*old(health), *final(health), override_events(opt_text(config.issue_tracker_url))),
    {
        let Remote { host, credentials_command, issue_tracker_type, issue_tracker_url } = config;
        self.credential_command = credentials_command;
        match issue_tracker_url {
            Some(url_override) => {
                let ghost before = health.pending();
                match RemoteDescriptor::parse(url_override.as_str()) {
                    Ok(url) => {
                        let summary = match &url.host {
                            Some(h) => {
                                let mut text = h.clone();
                                text.append("/");
                                text.append(url.fullname.as_str());
                                text
                            },
                            None => url.fullname.clone(),
                        };
                        self.url = url;
                        health.report(
                            "Apply url overwrite",
                            ComponentState::Pass(Some(summary)),
                        );
                    },
                    Err(err) => {
                        health.report("Apply url overwrite", ComponentState::Error(err.message()));
                    },
                }
                assert(health.pending() =~= if old(health).is_quiet() {
                    before
                } else {
                    before + override_events(Some(url_override@))
                });
            },
            None => {
                assert(health.pending() =~= health.pending() + Seq::<HealthEventView>::empty());
            },
        }
    }

    /// Builds the tracker, given the outcome of the command for the
    /// credential if one was run. There is none where the tracker is not
    /// known or lacks what it needs.
    pub fn build(self, health: &mut HealthReport, outcome: Option<&CommandOutcome>) -> (r: Option<
        IssueTracker,
    >)
        ensures
            ({
                let credential = credential_resolved(
                    self@.credential_command,
                    match outcome {
                        Some(o) => Some(*o),
                        None => None,
                    },
                );
                &&& filing(
                    *old(health),
                    *final(health),
                    credential_events(self@.credential_command, credential),
                )
                &&& match r {
                    Some(tracker) => {
                        &&& buildable(self@, secret_of(credential))
                        &&& adapter_built(self@, secret_of(credential), tracker.remote())
                        &&& tracker.cache() == Seq::<TicketView>::empty()
                        &&& tracker.well_formed()
                    },
                    None => !buildable(self@, secret_of(credential)),
                }
            }),
    {
        let Builder { tracker_type, url, credential_command, demo_folder } = self;
        let ghost before = health.pending();
        let mut secret: Option<SecureString> = None;
        match &credential_command {
            Some(cmd) => {
                let shown = join_from(cmd, 0, " ");
                assert(texts(cmd@).skip(0) =~= texts(cmd@));
                health.report("Check for credentials command", ComponentState::Pass(Some(shown)));
                match resolve_credentials(Some(cmd), outcome) {
                    CredentialOutcome::Secret(s) => {
                        secret = Some(s);
                        health.report("Get credentials", ComponentState::Pass(None));
                    },
                    _ => {
                        health.report("Get credentials", ComponentState::Error(String::new()));
                    },
                }
            },
            None => {
                health.report(
                    "Check for credentials command",
                    ComponentState::Info(owned("None configured")),
                );
            },
        }
        proof {
            let credential = credential_resolved(
                self@.credential_command,
                match outcome {
                    Some(o) => Some(*o),
                    None => None,
                },
            );
            assert(health.pending() =~= if old(health).is_quiet() {
                before
            } else {
                before + credential_events(self@.credential_command, credential)
            });
        }
        let kind = match tracker_type {
            Some(kind) => kind,
            None => {
                return None;
            },
        };
        let cfg = TrackerConfig { url, secret };
        let adapter = match kind {
            IssueTrackerType::Demo => match demo_folder {
                Some(folder) => Adapter::Demo(DemoAdapter::new(folder)),
                None => {
                    return None;
                },
            },
            IssueTrackerType::Gitlab => match Gitlab::from_config(cfg) {
                Some(g) => Adapter::Gitlab(g),
                None => {
                    return None;
                },
            },
            IssueTrackerType::Github => match Github::new(cfg) {
                Some(g) => Adapter::Github(g),
                None => {
                    return None;
                },
            },
            IssueTrackerType::AzureDevOps => match AzureDevops::new(cfg) {
                Some(a) => Adapter::AzureDevops(a),
                None => {
                    return None;
                },
            },
        };
        Some(IssueTracker::new(adapter))
    }
}


/// What the user configures for the remote with the URL `text`: the first
/// entry whose host occurs in it.
pub open spec fn configured_remote(config: User, text: Seq<char>) -> Option<RemoteView> {
    match first_matching(config.remotes@, text, 0) {
        Some(i) => Some(config.remotes@[i]@),
        None => None,
    }
}

/// The tracker to build: the configured one, and the guessed one where none
/// is configured.
pub open spec fn chosen_tracker(
    configured: Option<RemoteView>,
    guess: Option<IssueTrackerType>,
) -> Option<IssueTrackerType> {
    match configured {
        Some(RemoteView { issue_tracker_type: Some(kind), .. }) => Some(kind),
        _ => guess,
    }
}

/// The builder for the tracker of a remote, with what the user configures
/// for it taken over.
pub open spec fn initialized(
    config: User,
    text: Seq<char>,
    remote: RemoteDescriptorView,
    demo_folder: Option<Seq<char>>,
) -> BuilderView {
    let configured = configured_remote(config, text);
    BuilderView {
        tracker_type: chosen_tracker(
            configured,
            guessed_tracker(remote.host, demo_folder is Some),
        ),
        url: match configured {
            Some(rc) => overridden(remote, rc.issue_tracker_url),
            None => remote,
        },
        credential_command: match configured {
            Some(rc) => rc.credentials_command,
            None => None,
        },
        demo_folder,
    }
}

/// What is filed about the choice of the tracker.
pub open spec fn choice_events(
    configured: Option<RemoteView>,
    guess: Option<IssueTrackerType>,
) -> Seq<HealthEventView> {
    let found = seq![
        HealthEventView::Checked(
            "Check for remote specific user config"@,
            if configured is Some {
                ComponentStateView::Pass(None)
            } else {
                ComponentStateView::Info("None found"@)
            },
        ),
    ];
    let guessed = seq![
        HealthEventView::Checked(
            "Guess used issue tracker"@,
            match guess {
                Some(kind) => ComponentStateView::Pass(Some(tracker_name(kind))),
                None => ComponentStateView::Error(Seq::<char>::empty()),
            },
        ),
    ];
    match configured {
        Some(rc) => match rc.issue_tracker_type {
            Some(kind) => found + seq![
                HealthEventView::Checked(
                    "Check for configured issue tracker"@,
                    ComponentStateView::Pass(Some(tracker_name(kind))),
                ),
            ] + override_events(rc.issue_tracker_url),
            None => found + seq![
                HealthEventView::Checked(
                    "Check for configured issue tracker"@,
                    ComponentStateView::Info("None configured, continue to guess"@),
                ),
            ] + guessed + override_events(rc.issue_tracker_url),
        },
        None => found + guessed,
    }
}

/// What is filed while the builder for the tracker of a remote is made.
pub open spec fn initialization_events(
    config: User,
    remote: Result<(Seq<char>, RemoteDescriptorView), UpstreamErrorView>,
    demo_folder: Option<Seq<char>>,
) -> Seq<HealthEventView> {
    match remote {
        Err(_) => seq![
            HealthEventView::Section("Issue Tracker"@),
            HealthEventView::Checked(
                "retrieve repo url"@,
                ComponentStateView::Error("Failed to get remote url"@),
            ),
        ],
        Ok((text, d)) => seq![
            HealthEventView::Section("Issue Tracker"@),
            HealthEventView::Checked("retrieve repo url"@, ComponentStateView::Pass(Some(text))),
        ] + choice_events(
            configured_remote(config, text),
            guessed_tracker(d.host, demo_folder is Some),
        ),
    }
}

/// The URL of the remote and what it says, as plain values.
pub open spec fn remote_views(remote: Result<(String, RemoteDescriptor), UpstreamError>) -> Result<
    (Seq<char>, RemoteDescriptorView),
    UpstreamErrorView,
> {
    match remote {
        Ok((text, d)) => Ok((text@, d@)),
        Err(e) => Err(e@),
    }
}

/// Makes the builder for the tracker of the remote, given what the query for
/// the remote's URL told: the tracker is the one that the user configures
/// for the remote, or else the one guessed from the host; the command for
/// the credential and the address of the tracker are taken from what the
/// user configures. There is none where the URL is not known.
pub fn initialize_issue_tracker(
    config: &User,
    health: &mut HealthReport,
    remote: Result<(String, RemoteDescriptor), UpstreamError>,
    demo_folder: Option<String>,
) -> (r: Option<Builder>)
    ensures
        match (remote, r) {
            (Ok((text, d)), Some(builder)) => builder@ == initialized(
                *config,
                text@,
                d@,
                opt_text(demo_folder),
            ),
            (Err(_), None) => true,
            _ => false,
        },
        final(health).context() == "Issue Tracker"@,
        final(health).is_quiet() == old(health).is_quiet(),
        final(health).pending() == if old(health).is_quiet() {
            old(health).pending()
        } else {
            old(health).pending() + initialization_events(
                *config,
                remote_views(remote),
                opt_text(demo_folder),
            )
        },
{
    let ghost before = health.pending();
    let ghost quiet = health.is_quiet();
    health.set_context("Issue Tracker");
    let (text, url) = match remote {
        Ok(found) => found,
        Err(_) => {
            health.report("retrieve repo url", ComponentState::Error(owned("Failed to get remote url")));
            assert(health.pending() =~= if quiet {
                before
            } else {
                before + initialization_events(
                    *config,
                    remote_views(remote),
                    opt_text(demo_folder),
                )
            });
            return None;
        },
    };
    health.report("retrieve repo url", ComponentState::Pass(Some(text.clone())));
    let ghost head = seq![
        HealthEventView::Section("Issue Tracker"@),
        HealthEventView::Checked("retrieve repo url"@, ComponentStateView::Pass(Some(text@))),
    ];
    assert(health.pending() =~= if quiet {
        before
    } else {
        before + head
    });
    let ghost guess = guessed_tracker(url@.host, demo_folder is Some);
    let ghost configured = configured_remote(*config, text@);
    let mut builder = Builder::new(url, demo_folder);
    let remote_config = config.remote_specific_configuration(text.as_str());
    let found_state = if remote_config.is_some() {
        ComponentState::Pass(None)
    } else {
        ComponentState::Info(owned("None found"))
    };
    health.report("Check for remote specific user config", found_state);
    let mut do_guess = true;
    match remote_config {
        Some(rc) => {
            match rc.issue_tracker_type {
                Some(tracker) => {
                    health.report(
                        "Check for configured issue tracker",
                        ComponentState::Pass(Some(tracker.name())),
                    );
                    builder.tracker_type = Some(tracker);
                    do_guess = false;
                },
                None => {
                    health.report(
                        "Check for configured issue tracker",
                        ComponentState::Info(owned("None configured, continue to guess")),
                    );
                },
            }
        },
        None => {},
    }
    if do_guess {
        let state = match builder.tracker_type {
            Some(kind) => ComponentState::Pass(Some(kind.name())),
            None => ComponentState::Error(String::new()),
        };
        health.report("Guess used issue tracker", state);
    }
    match remote_config {
        Some(rc) => {
            builder.add_remote_config(health, rc.clone());
            assert(health.pending() =~= if quiet {
                before
            } else {
                before + head + choice_events(configured, guess)
            });
        },
        None => {
            assert(health.pending() =~= if quiet {
                before
            } else {
                before + head + choice_events(configured, guess)
            });
        },
    }
    assert(before + head + choice_events(configured, guess) =~= before + (head + choice_events(
        configured,
        guess,
    )));
    Some(builder)
}


} // verus!
