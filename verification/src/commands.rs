//! The commands: load and save the configuration, add, list and remove
//! profiles, and prepare a connection.
//!
//! Nothing here touches the file system or starts a process. Each command
//! takes what was read and hands back what is to be written, printed or
//! launched.

use crate::config::{Config, ConfigView};
use crate::failure::{Failure, FailureView};
use crate::profile::{optional_text, HostConfig, HostConfigView};
use crate::resolver::{is_reserved_name, routing, Action, Route};
use crate::schema::{decode_text, encode_text};
use crate::store::{lemma_sorted_holds, sorted};
use crate::text::texts;
use vstd::prelude::*;

verus! {

/// What reading the configuration file gave.
#[derive(Debug, PartialEq, Eq)]
pub enum Found {
    /// The file is there, with this content.
    Content(String),
    /// There is no such file.
    Missing,
    /// The file could not be read; the text says why.
    Unreadable(String),
}

/// A loaded configuration, and the content to write to the configuration
/// file at once where the file was missing.
#[derive(Debug)]
pub struct Loaded {
    pub masuk: Masuk,
    pub write: Option<String>,
}

/// The mathematical content of a [`Loaded`].
pub struct LoadedView {
    pub config: ConfigView,
    pub write: Option<Seq<char>>,
}

impl View for Loaded {
    type V = LoadedView;

    open spec fn view(&self) -> LoadedView {
        LoadedView { config: self.masuk@, write: optional_text(self.write) }
    }
}

/// The outcome of a command that changed the store: the new content of the
/// configuration file, and the message to show once it is written.
#[derive(Debug, PartialEq, Eq)]
pub struct Saved {
    pub content: String,
    pub message: String,
}

/// The mathematical content of a [`Saved`].
pub struct SavedView {
    pub content: Seq<char>,
    pub message: Seq<char>,
}

impl View for Saved {
    type V = SavedView;

    open spec fn view(&self) -> SavedView {
        SavedView { content: self.content@, message: self.message@ }
    }
}

/// A connection to make: the program to run with its arguments, and the
/// line to show before it runs.
#[derive(Debug, PartialEq, Eq)]
pub struct Launch {
    pub program: String,
    pub arguments: Vec<String>,
    pub banner: String,
}

/// The mathematical content of a [`Launch`].
pub struct LaunchView {
    pub program: Seq<char>,
    pub arguments: Seq<Seq<char>>,
    pub banner: Seq<char>,
}

impl View for Launch {
    type V = LaunchView;

    open spec fn view(&self) -> LaunchView {
        LaunchView {
            program: self.program@,
            arguments: texts(self.arguments@),
            banner: self.banner@,
        }
    }
}

/// What is left to do once an action has been decided on.
#[derive(Debug, PartialEq, Eq)]
pub enum Effect {
    /// Write the configuration file, then show the message.
    Write(Saved),
    /// Show these lines.
    Print(Vec<String>),
    /// Show the banner, run the remote-login client and wait for it.
    Run(Launch),
}

/// The mathematical content of an [`Effect`].
pub enum EffectView {
    Write(SavedView),
    Print(Seq<Seq<char>>),
    Run(LaunchView),
}

impl View for Effect {
    type V = EffectView;

    open spec fn view(&self) -> EffectView {
        match self {
            Effect::Write(saved) => EffectView::Write(saved@),
            Effect::Print(lines) => EffectView::Print(texts(lines@)),
            Effect::Run(launch) => EffectView::Run(launch@),
        }
    }
}

/// How the run of the remote-login client ended.
#[derive(Debug, Clone, Copy, PartialEq, Eq)]
pub enum Exit {
    /// The client could not be started.
    NotStarted,
    /// The client ran and ended, with success or not, and with this exit
    /// code if it gave one.
    Ended { success: bool, code: Option<i32> },
}

/// Whether an outcome is the expected one: the same success or the same
/// failure.
pub open spec fn agrees<T: View>(got: Result<T, Failure>, expected: Result<T::V, FailureView>) -> bool {
    match (got, expected) {
        (Ok(value), Ok(view)) => value@ == view,
        (Err(failure), Err(view)) => failure@ == view,
        _ => false,
    }
}

/// The hint shown where no profile is stored.
pub open spec fn empty_hint() -> Seq<char> {
    "No profiles configured yet. Use 'masuk add <profile> -h <host>' to add one."@
}

/// The line of one profile in the list: its name, an arrow, its display
/// form.
pub open spec fn profile_line(name: Seq<char>, host: HostConfigView) -> Seq<char> {
    "  "@ + name + " → "@ + host.display()
}

/// The lines of the list: the hint where no profile is stored, else a
/// heading, the profiles in ascending order of their names, and an empty
/// line.
pub open spec fn list_lines(profiles: Map<Seq<char>, HostConfigView>) -> Seq<Seq<char>> {
    let list = sorted(profiles);
    if list.len() == 0 {
        seq![empty_hint()]
    } else {
        seq!["\nConfigured profiles:\n"@] + Seq::new(
            list.len(),
            |i: int| profile_line(list[i].0, list[i].1),
        ) + seq![Seq::<char>::empty()]
    }
}

/// The message after a profile was added.
pub open spec fn added_message(name: Seq<char>, host: HostConfigView) -> Seq<char> {
    "✓ Added profile '"@ + name + "' → "@ + host.display()
}

/// The message after a profile was removed.
pub open spec fn removed_message(name: Seq<char>) -> Seq<char> {
    "✓ Removed profile '"@ + name + "'"@
}

/// The line shown before a connection is made.
pub open spec fn banner(name: Seq<char>, host: HostConfigView) -> Seq<char> {
    "Connecting to "@ + name + " ("@ + host.display() + ")..."@
}

/// Saving: the time of the last save becomes `now`, and the configuration
/// is written as text.
pub open spec fn saving(config: ConfigView, now: i64) -> (ConfigView, Result<Seq<char>, FailureView>) {
    let stamped = ConfigView { profiles: config.profiles, updated_at: now };
    (
        stamped,
        match encode_text(stamped) {
            Some(text) => Ok(text),
            None => Err(FailureView::ConfigIo("Failed to serialize config"@)),
        },
    )
}

/// Saving after a change, with the message to show.
pub open spec fn saving_with(config: ConfigView, now: i64, message: Seq<char>) -> (
    ConfigView,
    Result<SavedView, FailureView>,
) {
    let (stamped, written) = saving(config, now);
    (
        stamped,
        match written {
            Ok(content) => Ok(SavedView { content, message }),
            Err(failure) => Err(failure),
        },
    )
}

/// Loading: a file that is there is read as a configuration, and nothing
/// is written; a missing file gives an empty configuration, which is
/// written at once; a file that cannot be read is a failure.
pub open spec fn loading(found: Found, now: i64) -> Result<LoadedView, FailureView> {
    match found {
        Found::Content(text) => match decode_text(text@) {
            Some(config) => Ok(LoadedView { config, write: None }),
            None => Err(FailureView::ConfigParse),
        },
        Found::Missing => {
            let (config, written) = saving(ConfigView { profiles: Map::empty(), updated_at: now }, now);
            match written {
                Ok(text) => Ok(LoadedView { config, write: Some(text) }),
                Err(failure) => Err(failure),
            }
        },
        Found::Unreadable(detail) => Err(FailureView::ConfigIo(detail@)),
    }
}

/// Adding: an empty host is refused and nothing changes. Otherwise the
/// profile is stored under the name, in place of any profile stored under
/// it before, and the configuration is saved.
pub open spec fn adding(
    config: ConfigView,
    name: Seq<char>,
    host: Seq<char>,
    user: Option<Seq<char>>,
    port: Option<u16>,
    now: i64,
) -> (ConfigView, Result<SavedView, FailureView>) {
    if host.len() == 0 {
        (config, Err(FailureView::InvalidArguments("Host must not be empty"@)))
    } else {
        let profile = HostConfigView { host, user, port };
        saving_with(
            ConfigView { profiles: config.profiles.insert(name, profile), updated_at: config.updated_at },
            now,
            added_message(name, profile),
        )
    }
}

/// Removing: a name that is not stored is a failure and nothing changes.
/// Otherwise the name leaves the store, and the configuration is saved.
pub open spec fn removing(config: ConfigView, name: Seq<char>, now: i64) -> (
    ConfigView,
    Result<SavedView, FailureView>,
) {
    if config.profiles.contains_key(name) {
        saving_with(
            ConfigView { profiles: config.profiles.remove(name), updated_at: config.updated_at },
            now,
            removed_message(name),
        )
    } else {
        (config, Err(FailureView::ProfileNotFound(name)))
    }
}

/// Connecting: a name that is not stored is a failure. Otherwise the
/// remote-login client is to run with the arguments of the profile.
pub open spec fn connecting(config: ConfigView, name: Seq<char>) -> Result<LaunchView, FailureView> {
    if config.profiles.contains_key(name) {
        let profile = config.profiles[name];
        Ok(LaunchView { program: "ssh"@, arguments: profile.arguments(), banner: banner(name, profile) })
    } else {
        Err(FailureView::ProfileNotFound(name))
    }
}

/// Performing an action: adding and removing change the store and ask for
/// a write, listing asks for lines to be shown, connecting asks for the
/// remote-login client to be run. Listing and connecting change nothing.
pub open spec fn performing(config: ConfigView, action: Action, now: i64) -> (
    ConfigView,
    Result<EffectView, FailureView>,
) {
    match action {
        Action::Add { profile, host, user, port } => {
            let (after, added) = adding(config, profile@, host@, optional_text(user), port, now);
            (
                after,
                match added {
                    Ok(saved) => Ok(EffectView::Write(saved)),
                    Err(failure) => Err(failure),
                },
            )
        },
        Action::List => (config, Ok(EffectView::Print(list_lines(config.profiles)))),
        Action::Remove { profile } => {
            let (after, removed) = removing(config, profile@, now);
            (
                after,
                match removed {
                    Ok(saved) => Ok(EffectView::Write(saved)),
                    Err(failure) => Err(failure),
                },
            )
        },
        Action::Connect { profile } => (
            config,
            match connecting(config, profile@) {
                Ok(launch) => Ok(EffectView::Run(launch)),
                Err(failure) => Err(failure),
            },
        ),
    }
}

/// What the end of the remote session means: a client that did not start
/// and a session that failed are failures.
pub open spec fn finishing(exit: Exit) -> Result<(), Failure> {
    match exit {
        Exit::NotStarted => Err(Failure::SubprocessLaunch),
        Exit::Ended { success, code } => if success {
            Ok(())
        } else {
            Err(Failure::RemoteSessionFailed(code))
        },
    }
}

/// The configuration in memory, on which the commands work.
#[derive(Debug)]
pub struct Masuk {
    pub config: Config,
}

impl View for Masuk {
    type V = ConfigView;

    open spec fn view(&self) -> ConfigView {
        self.config@
    }
}

impl Masuk {
    /// Starts from what reading the configuration file gave.
    pub fn load(found: Found, now: i64) -> (loaded: Result<Loaded, Failure>)
        ensures
            agrees(loaded, loading(found, now)),
    {
        match found {
            Found::Content(text) => match Config::parse(text.as_str()) {
                Ok(config) => Ok(Loaded { masuk: Masuk { config }, write: None }),
                Err(failure) => Err(failure),
            },
            Found::Missing => {
                let mut masuk = Masuk { config: Config::new(now) };
                match masuk.save(now) {
                    Ok(text) => Ok(Loaded { masuk, write: Some(text) }),
                    Err(failure) => Err(failure),
                }
            },
            Found::Unreadable(detail) => Err(Failure::ConfigIo(detail)),
        }
    }

    /// Sets the time of the last save and writes the configuration as the
    /// new content of the configuration file.
    pub fn save(&mut self, now: i64) -> (written: Result<String, Failure>)
        ensures
            final(self)@ == saving(old(self)@, now).0,
            agrees(written, saving(old(self)@, now).1),
    {
        self.config.updated_at = now;
        self.config.render()
    }

    /// Saves after a change and hands back the message with the content.
    fn save_with(&mut self, now: i64, message: String) -> (saved: Result<Saved, Failure>)
        ensures
            final(self)@ == saving_with(old(self)@, now, message@).0,
            agrees(saved, saving_with(old(self)@, now, message@).1),
    {
        match self.save(now) {
            Ok(content) => Ok(Saved { content, message }),
            Err(failure) => Err(failure),
        }
    }

    /// Adds a profile, or replaces the one of that name, and saves.
    pub fn add(&mut self, name: &str, host: &str, user: Option<String>, port: Option<u16>, now: i64) -> (added:
        Result<Saved, Failure>)
        ensures
            final(self)@ == adding(old(self)@, name@, host@, optional_text(user), port, now).0,
            agrees(added, adding(old(self)@, name@, host@, optional_text(user), port, now).1),
    {
        match HostConfig::new(host, user, port) {
            None => Err(Failure::InvalidArguments(String::from_str("Host must not be empty"))),
            Some(profile) => {
                let mut message = String::from_str("✓ Added profile '");
                message.append(name);
                message.append("' → ");
                let display = profile.display();
                message.append(display.as_str());
                self.config.profiles.insert(name, profile);
                self.save_with(now, message)
            },
        }
    }

    /// The lines of the list of profiles. Nothing is changed or written.
    pub fn list(&self) -> (lines: Vec<String>)
        ensures
            texts(lines@) == list_lines(self@.profiles),
    {
        let ghost list = sorted(self@.profiles);
        let count = self.config.profiles.len();
        let mut lines: Vec<String> = Vec::new();
        if count == 0 {
            lines.push(String::from_str("No profiles configured yet. Use 'masuk add <profile> -h <host>' to add one."));
            return lines;
        }
        lines.push(String::from_str("\nConfigured profiles:\n"));
        let mut at: usize = 0;
        while at < count
            invariant
                at <= count,
                count == list.len(),
                list == sorted(self@.profiles),
                lines@.len() == at + 1,
                lines@[0]@ == "\nConfigured profiles:\n"@,
                forall|i: int| 0 <= i < at ==> (#[trigger] lines@[i + 1])@ == profile_line(list[i].0, list[i].1),
            decreases count - at,
        {
            let mut line = String::from_str("  ");
            line.append(self.config.profiles.name_at(at));
            line.append(" → ");
            let display = self.config.profiles.config_at(at).display();
            line.append(display.as_str());
            lines.push(line);
            at = at + 1;
        }
        lines.push(String::new());
        proof {
            let expected = list_lines(self@.profiles);
            assert forall|i: int| 0 <= i < count + 2 implies texts(lines@)[i] == expected[i] by {
                if 0 < i <= count {
                    assert(lines@[(i - 1) + 1]@ == expected[i]);
                }
            }
        }
        lines
    }

    /// Removes the profile of that name and saves.
    pub fn remove(&mut self, name: &str, now: i64) -> (removed: Result<Saved, Failure>)
        ensures
            final(self)@ == removing(old(self)@, name@, now).0,
            agrees(removed, removing(old(self)@, name@, now).1),
    {
        match self.config.profiles.remove(name) {
            None => {
                assert(self@.profiles =~= old(self)@.profiles);
                Err(Failure::ProfileNotFound(String::from_str(name)))
            },
            Some(_) => {
                let mut message = String::from_str("✓ Removed profile '");
                message.append(name);
                message.append("'");
                self.save_with(now, message)
            },
        }
    }

    /// Prepares the connection to the profile of that name.
    pub fn connect(&self, name: &str) -> (launch: Result<Launch, Failure>)
        ensures
            agrees(launch, connecting(self@, name@)),
    {
        match self.config.profiles.get(name) {
            None => Err(Failure::ProfileNotFound(String::from_str(name))),
            Some(profile) => {
                let mut line = String::from_str("Connecting to ");
                line.append(name);
                line.append(" (");
                let display = profile.display();
                line.append(display.as_str());
                line.append(")...");
                let arguments = profile.arguments();
                Ok(Launch { program: String::from_str("ssh"), arguments, banner: line })
            },
        }
    }

    /// Performs an action on the configuration and says what is left to
    /// do.
    pub fn perform(&mut self, action: Action, now: i64) -> (effect: Result<Effect, Failure>)
        ensures
            final(self)@ == performing(old(self)@, action, now).0,
            agrees(effect, performing(old(self)@, action, now).1),
    {
        match action {
            Action::Add { profile, host, user, port } => {
                match self.add(profile.as_str(), host.as_str(), user, port, now) {
                    Ok(saved) => Ok(Effect::Write(saved)),
                    Err(failure) => Err(failure),
                }
            },
            Action::List => Ok(Effect::Print(self.list())),
            Action::Remove { profile } => match self.remove(profile.as_str(), now) {
                Ok(saved) => Ok(Effect::Write(saved)),
                Err(failure) => Err(failure),
            },
            Action::Connect { profile } => match self.connect(profile.as_str()) {
                Ok(launch) => Ok(Effect::Run(launch)),
                Err(failure) => Err(failure),
            },
        }
    }

    /// Judges how the remote session ended.
    pub fn finish(exit: Exit) -> (finished: Result<(), Failure>)
        ensures
            finished == finishing(exit),
    {
        match exit {
            Exit::NotStarted => Err(Failure::SubprocessLaunch),
            Exit::Ended { success, code } => if success {
                Ok(())
            } else {
                Err(Failure::RemoteSessionFailed(code))
            },
        }
    }
}

/// Whether every stored profile names a host.
pub open spec fn hosts_named(config: ConfigView) -> bool {
    forall|name: Seq<char>| config.profiles.contains_key(name) ==> (#[trigger] config.profiles[name]).valid()
}

/// A stored host is never empty: adding and removing keep it so.
pub proof fn lemma_hosts_stay_named(
    config: ConfigView,
    name: Seq<char>,
    host: Seq<char>,
    user: Option<Seq<char>>,
    port: Option<u16>,
    now: i64,
)
    requires
        hosts_named(config),
    ensures
        hosts_named(adding(config, name, host, user, port, now).0),
        hosts_named(removing(config, name, now).0),
{
}

/// Loading a file that is there depends on its content alone and writes
/// nothing: as long as nothing is written, loading it again gives the same
/// configuration.
pub proof fn lemma_load_repeats(content: String, first: i64, second: i64)
    ensures
        loading(Found::Content(content), first) == loading(Found::Content(content), second),
        loading(Found::Content(content), first) matches Ok(loaded) ==> loaded.write is None,
{
}

/// Removing a name that is not stored fails with `ProfileNotFound` and
/// leaves the configuration as it was.
pub proof fn lemma_remove_missing(config: ConfigView, name: Seq<char>, now: i64)
    requires
        !config.profiles.contains_key(name),
    ensures
        removing(config, name, now) == (config, Err::<SavedView, FailureView>(FailureView::ProfileNotFound(name))),
{
}

/// After a profile is added, connecting to its name runs the remote-login
/// client on the target `user@host`, or `host` where no user was given,
/// behind the port flag exactly where a port was given.
pub proof fn lemma_add_then_connect(
    config: ConfigView,
    name: Seq<char>,
    host: Seq<char>,
    user: Option<Seq<char>>,
    port: Option<u16>,
    now: i64,
)
    requires
        host.len() > 0,
    ensures
        ({
            let target = match user {
                Some(user) => user + "@"@ + host,
                None => host,
            };
            let arguments = match port {
                Some(port) => seq!["-p"@, crate::text::decimal(port as nat), target],
                None => seq![target],
            };
            connecting(adding(config, name, host, user, port, now).0, name) matches Ok(launch)
                && launch.program == "ssh"@ && launch.arguments == arguments
        }),
{
    let profile = HostConfigView { host, user, port };
    assert(profile.target() =~= match user {
        Some(user) => user + "@"@ + host,
        None => host,
    });
}

/// The list of an empty store is the hint alone.
pub proof fn lemma_list_empty()
    ensures
        list_lines(Map::empty()) == seq![empty_hint()],
{
    let none = Seq::<(Seq<char>, HostConfigView)>::empty();
    assert(crate::store::as_map(none) =~= Map::<Seq<char>, HostConfigView>::empty());
    lemma_sorted_holds(Map::empty());
}

/// A single word that is no reserved name and names no stored profile
/// resolves to a connection, which fails with `ProfileNotFound`.
pub proof fn lemma_unknown_word_is_not_found(words: Seq<String>, config: ConfigView)
    requires
        words.len() == 2,
        !is_reserved_name(words[1]@),
        !config.profiles.contains_key(words[1]@),
    ensures
        routing(words) == Route::Connect(words[1]),
        connecting(config, words[1]@) == Err::<LaunchView, FailureView>(
            FailureView::ProfileNotFound(words[1]@),
        ),
{
}

} // verus!
