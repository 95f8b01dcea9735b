//! The child process a terminal screen starts.
//!
//! A screen decides three things before VTE forks: which file to execute, the
//! argument vector that file receives, and the environment it inherits. None
//! of those need a widget: the widget layer passes what it knows, the command
//! the option parser produced for the tab, the preference values, the
//! inherited variables, and the display of a realized toplevel.

use vstd::prelude::*;
use vstd::string::StringSliceAdditionalSpecFns;

use crate::bytes::{append_bytes, bytes_equal, copy_bytes, push_signed_decimal, signed_decimal_bytes};
use crate::paths::{byte_basename, path_basename};
use vstd::utf8::encode_utf8;

verus! {

/// Shells tried when neither the environment nor the password database names
/// an executable one, in the order they are tried.
pub const FALLBACK_SHELLS: [&'static str; 13] = [
    "/bin/sh",
    "/bin/bash",
    "/usr/bin/bash",
    "/bin/dash",
    "/usr/bin/dash",
    "/bin/zsh",
    "/usr/bin/zsh",
    "/bin/tcsh",
    "/usr/bin/tcsh",
    "/bin/csh",
    "/usr/bin/csh",
    "/bin/ksh",
    "/usr/bin/ksh",
];

/// Milliseconds a spawn may take before it is given up.
pub const SPAWN_TIMEOUT_MS: i32 = 30000;

/// The name the terminal reports itself under to its children.
pub const COLORTERM_VALUE: &'static str = "xfce4-terminal";

/// The preferences a child command depends on.
#[derive(Clone, Debug, PartialEq)]
pub struct CommandPreferences {
    /// Whether a shell is started as a login shell.
    pub login_shell: bool,
    /// Whether the custom command replaces the login shell.
    pub run_custom_command: bool,
    /// The command line the custom command setting holds.
    pub custom_command: String,
}

/// The file a screen executes and the argument vector it passes.
#[derive(Clone, Debug, PartialEq)]
pub struct ChildCommand {
    /// The file to execute, which may be a bare name for a path search.
    pub command: Vec<u8>,
    /// The argument vector, whose first entry is the name the child sees.
    pub argv: Vec<Vec<u8>>,
}

/// A reason a screen cannot decide which child to start.
#[derive(Clone, Debug, PartialEq)]
pub enum ChildCommandError {
    /// The custom command preference holds no words.
    EmptyCustomCommand,
    /// The custom command preference cannot be split; the message says why.
    UnsplittableCustomCommand(String),
    /// Nothing on this host looked like an executable login shell.
    NoLoginShell,
}

/// Why a command line could not be split into words with shell quoting.
#[derive(Clone, Debug, PartialEq)]
pub enum CommandSplitError {
    /// The line holds no words at all.
    Empty,
    /// The line is malformed; the message says how.
    Malformed(String),
}

/// The display a realized toplevel lends to the child environment.
#[derive(Clone, Debug, PartialEq)]
pub enum Toplevel {
    /// No toplevel is realized, so the child learns of no display.
    Unrealized,
    /// An X11 toplevel names both its window and its display.
    X11 {
        /// The X window identifier of the toplevel.
        window: i64,
        /// The name of the display the toplevel is on.
        display: String,
    },
    /// A Wayland toplevel names only its display.
    Wayland {
        /// The name of the display the toplevel is on.
        display: String,
    },
}

/// The value of a child command.
pub struct CommandModel {
    pub command: Seq<u8>,
    pub argv: Seq<Seq<u8>>,
}

/// The value of a [`ChildCommandError`].
pub enum ErrorModel {
    EmptyCustomCommand,
    UnsplittableCustomCommand(Seq<char>),
    NoLoginShell,
}

pub open spec fn words_of(words: Seq<Vec<u8>>) -> Seq<Seq<u8>> {
    words.map_values(|w: Vec<u8>| w@)
}

impl View for ChildCommand {
    type V = CommandModel;

    open spec fn view(&self) -> CommandModel {
        CommandModel { command: self.command@, argv: words_of(self.argv@) }
    }
}

impl View for ChildCommandError {
    type V = ErrorModel;

    open spec fn view(&self) -> ErrorModel {
        match self {
            ChildCommandError::EmptyCustomCommand => ErrorModel::EmptyCustomCommand,
            ChildCommandError::UnsplittableCustomCommand(m) => ErrorModel::UnsplittableCustomCommand(m@),
            ChildCommandError::NoLoginShell => ErrorModel::NoLoginShell,
        }
    }
}

pub open spec fn outcome_of(r: Result<ChildCommand, ChildCommandError>) -> Result<CommandModel, ErrorModel> {
    match r {
        Ok(c) => Ok(c@),
        Err(e) => Err(e@),
    }
}

pub open spec fn split_of(r: Result<Vec<Vec<u8>>, CommandSplitError>) -> Result<Seq<Seq<u8>>, Option<Seq<char>>> {
    match r {
        Ok(words) => Ok(words_of(words@)),
        Err(CommandSplitError::Empty) => Err(None),
        Err(CommandSplitError::Malformed(m)) => Err(Some(m@)),
    }
}

pub open spec fn shell_of(r: Result<Vec<u8>, ChildCommandError>) -> Result<Seq<u8>, ErrorModel> {
    match r {
        Ok(shell) => Ok(shell@),
        Err(e) => Err(e@),
    }
}

/// The message an error is shown with in the C locale.
pub open spec fn error_message(e: ErrorModel) -> Seq<char> {
    match e {
        ErrorModel::EmptyCustomCommand => "Empty custom command in the terminal preferences"@,
        ErrorModel::UnsplittableCustomCommand(m) => m,
        ErrorModel::NoLoginShell => "Unable to determine your login shell."@,
    }
}

impl ChildCommandError {
    /// Returns the message shown in the C locale.
    pub fn message(&self) -> (m: String)
        ensures
            m@ == error_message(self@),
    {
        match self {
            ChildCommandError::EmptyCustomCommand => String::from_str(
                "Empty custom command in the terminal preferences",
            ),
            ChildCommandError::UnsplittableCustomCommand(message) => String::from_str(message.as_str()),
            ChildCommandError::NoLoginShell => String::from_str("Unable to determine your login shell."),
        }
    }
}

/// The vector VTE receives: the file, then the argument vector.
pub open spec fn spawn_vector(c: CommandModel) -> Seq<Seq<u8>> {
    seq![c.command] + c.argv
}

fn copy_words(words: &[Vec<u8>], from: usize) -> (copy: Vec<Vec<u8>>)
    requires
        from <= words@.len(),
    ensures
        words_of(copy@) == words_of(words@).skip(from as int),
{
    let mut copy: Vec<Vec<u8>> = Vec::new();
    let mut i: usize = from;
    while i < words.len()
        invariant
            from <= i <= words@.len(),
            words_of(copy@) == words_of(words@).subrange(from as int, i as int),
        decreases words@.len() - i,
    {
        let item = copy_bytes(words[i].as_slice());
        assert(item@ == words_of(words@)[i as int]);
        let ghost prev = copy@;
        copy.push(item);
        assert(words_of(copy@) =~= words_of(prev).push(item@));
        i = i + 1;
        assert(words_of(copy@) =~= words_of(words@).subrange(from as int, i as int));
    }
    assert(words_of(words@).subrange(from as int, words@.len() as int) =~= words_of(words@).skip(from as int));
    copy
}

impl ChildCommand {
    /// Returns the vector VTE receives, which repeats the file in front of
    /// the argument vector.
    pub fn spawn_argv(&self) -> (arguments: Vec<Vec<u8>>)
        ensures
            words_of(arguments@) == spawn_vector(self@),
    {
        let mut arguments: Vec<Vec<u8>> = Vec::new();
        arguments.push(copy_bytes(self.command.as_slice()));
        let rest = copy_words(self.argv.as_slice(), 0);
        let mut i: usize = 0;
        while i < rest.len()
            invariant
                words_of(rest@) == words_of(self.argv@),
                i <= rest@.len(),
                words_of(arguments@) == seq![self.command@] + words_of(rest@).take(i as int),
            decreases rest@.len() - i,
        {
            let item = copy_bytes(rest[i].as_slice());
            assert(item@ == words_of(rest@)[i as int]);
            let ghost prev = arguments@;
            arguments.push(item);
            assert(words_of(arguments@) =~= words_of(prev).push(item@));
            i = i + 1;
            assert(words_of(arguments@) =~= seq![self.command@] + words_of(rest@).take(i as int));
        }
        assert(words_of(rest@).take(rest@.len() as int) =~= words_of(rest@));
        arguments
    }
}

/// The first argument a file runs under: its base name, after a dash for a
/// login shell.
pub open spec fn argument_zero(login_shell: bool, file: Seq<u8>) -> Seq<u8> {
    (if login_shell { seq![45u8] } else { Seq::empty() }) + byte_basename(file)
}

/// The command a split custom command line stands for.
pub open spec fn custom_outcome(login_shell: bool, split: Result<Seq<Seq<u8>>, Option<Seq<char>>>) -> Result<CommandModel, ErrorModel> {
    match split {
        Ok(words) => if words.len() == 0 {
            Err(ErrorModel::EmptyCustomCommand)
        } else {
            Ok(CommandModel {
                command: words[0],
                argv: seq![argument_zero(login_shell, words[0])] + words.skip(1),
            })
        },
        Err(None) => Err(ErrorModel::EmptyCustomCommand),
        Err(Some(message)) => Err(ErrorModel::UnsplittableCustomCommand(message)),
    }
}

/// The command a resolved login shell stands for.
pub open spec fn shell_outcome(login_shell: bool, shell: Result<Seq<u8>, ErrorModel>) -> Result<CommandModel, ErrorModel> {
    match shell {
        Ok(file) => Ok(CommandModel { command: file, argv: seq![argument_zero(login_shell, file)] }),
        Err(e) => Err(e),
    }
}

/// Whether a tab names a command of its own: an empty vector counts as none.
pub open spec fn names_command(screen_command: Option<&[Vec<u8>]>) -> bool {
    match screen_command {
        Some(c) => c@.len() > 0,
        None => false,
    }
}

fn login_argument(login_shell: bool, file: &[u8]) -> (name: Vec<u8>)
    ensures
        name@ == argument_zero(login_shell, file@),
{
    let mut name: Vec<u8> = Vec::new();
    if login_shell {
        name.push(45u8);
    }
    let base = path_basename(file);
    append_bytes(&mut name, base.as_slice());
    assert(name@ =~= argument_zero(login_shell, file@));
    name
}

/// Decides which child a screen starts.
///
/// A tab that was asked for a command runs it unchanged. Otherwise the
/// preferences decide between their own command line and a login shell, and
/// either way the first argument becomes the base name of the file, prefixed
/// with a dash for a login shell.
///
/// `custom_words` is the custom command line of `preferences` split into
/// words with shell quoting (GLib's `g_shell_parse_argv`); a split with no
/// words counts as an empty command line. `resolve_shell` runs at most once,
/// and never when the tab or the preferences already name a command, so a
/// host without a usable shell can still start one.
pub fn child_command_with(
    screen_command: Option<&[Vec<u8>]>,
    preferences: &CommandPreferences,
    custom_words: Result<Vec<Vec<u8>>, CommandSplitError>,
    resolve_shell: impl FnOnce() -> Result<Vec<u8>, ChildCommandError>,
) -> (r: Result<ChildCommand, ChildCommandError>)
    requires
        call_requires(resolve_shell, ()),
    ensures
        names_command(screen_command) ==> outcome_of(r) == Ok::<CommandModel, ErrorModel>(
            CommandModel {
                command: words_of(screen_command->0@)[0],
                argv: words_of(screen_command->0@),
            },
        ),
        !names_command(screen_command) && preferences.run_custom_command ==> outcome_of(r)
            == custom_outcome(preferences.login_shell, split_of(custom_words)),
        !names_command(screen_command) && !preferences.run_custom_command ==> exists|shell: Result<Vec<u8>, ChildCommandError>|
            call_ensures(resolve_shell, (), shell) && outcome_of(r) == shell_outcome(
                preferences.login_shell,
                shell_of(shell),
            ),
{
    match screen_command {
        Some(command) => {
            if command.len() > 0 {
                let file = copy_bytes(command[0].as_slice());
                let argv = copy_words(command, 0);
                let result = ChildCommand { command: file, argv };
                assert(words_of(command@).skip(0) =~= words_of(command@));
                return Ok(result);
            }
        },
        None => {},
    }
    if preferences.run_custom_command {
        match custom_words {
            Ok(words) => {
                if words.len() == 0 {
                    return Err(ChildCommandError::EmptyCustomCommand);
                }
                let file = copy_bytes(words[0].as_slice());
                let rest = copy_words(words.as_slice(), 1);
                let mut argv: Vec<Vec<u8>> = Vec::new();
                argv.push(login_argument(preferences.login_shell, file.as_slice()));
                let mut i: usize = 0;
                while i < rest.len()
                    invariant
                        i <= rest@.len(),
                        words_of(argv@) == seq![argument_zero(preferences.login_shell, file@)] + words_of(rest@).take(i as int),
                    decreases rest@.len() - i,
                {
                    let item = copy_bytes(rest[i].as_slice());
                    assert(item@ == words_of(rest@)[i as int]);
                    let ghost prev = argv@;
                    argv.push(item);
                    assert(words_of(argv@) =~= words_of(prev).push(item@));
                    i = i + 1;
                    assert(words_of(argv@) =~= seq![argument_zero(preferences.login_shell, file@)] + words_of(rest@).take(i as int));
                }
                assert(words_of(rest@).take(rest@.len() as int) =~= words_of(rest@));
                Ok(ChildCommand { command: file, argv })
            },
            Err(CommandSplitError::Empty) => Err(ChildCommandError::EmptyCustomCommand),
            Err(CommandSplitError::Malformed(message)) => Err(ChildCommandError::UnsplittableCustomCommand(message)),
        }
    } else {
        let shell = resolve_shell();
        let ghost returned = shell;
        let r = match shell {
            Ok(file) => {
                let name = login_argument(preferences.login_shell, file.as_slice());
                let mut argv: Vec<Vec<u8>> = Vec::new();
                argv.push(name);
                assert(words_of(argv@) =~= seq![argument_zero(preferences.login_shell, file@)]);
                Ok(ChildCommand { command: file, argv })
            },
            Err(e) => Err(e),
        };
        assert(call_ensures(resolve_shell, (), returned) && outcome_of(r) == shell_outcome(
            preferences.login_shell,
            shell_of(returned),
        ));
        r
    }
}

/// The variables a child never inherits: a size, a window and a display
/// belong to this terminal rather than to the one the parent process ran in,
/// and the terminal names itself.
pub open spec fn withheld(name: Seq<u8>) -> bool {
    ||| name == "COLUMNS".spec_bytes()
    ||| name == "LINES".spec_bytes()
    ||| name == "WINDOWID".spec_bytes()
    ||| name == "GNOME_DESKTOP_ICON".spec_bytes()
    ||| name == "COLORTERM".spec_bytes()
    ||| name == "DISPLAY".spec_bytes()
    ||| name == "WAYLAND_DISPLAY".spec_bytes()
    ||| name == "TERM".spec_bytes()
}

fn is_withheld(name: &[u8]) -> (r: bool)
    ensures
        r == withheld(name@),
{
    bytes_equal(name, "COLUMNS".as_bytes()) || bytes_equal(name, "LINES".as_bytes())
        || bytes_equal(name, "WINDOWID".as_bytes()) || bytes_equal(name, "GNOME_DESKTOP_ICON".as_bytes())
        || bytes_equal(name, "COLORTERM".as_bytes()) || bytes_equal(name, "DISPLAY".as_bytes())
        || bytes_equal(name, "WAYLAND_DISPLAY".as_bytes()) || bytes_equal(name, "TERM".as_bytes())
}

/// `NAME=VALUE`.
pub open spec fn env_entry(name: Seq<u8>, value: Seq<u8>) -> Seq<u8> {
    name + "=".spec_bytes() + value
}

fn entry(name: &[u8], value: &[u8]) -> (e: Vec<u8>)
    ensures
        e@ == env_entry(name@, value@),
{
    let mut e = copy_bytes(name);
    append_bytes(&mut e, "=".as_bytes());
    append_bytes(&mut e, value);
    e
}

/// The inherited variables a child keeps, as entries, in their order.
pub open spec fn kept_entries(inherited: Seq<(Seq<u8>, Seq<u8>)>) -> Seq<Seq<u8>>
    decreases inherited.len(),
{
    if inherited.len() == 0 {
        Seq::empty()
    } else {
        let (name, value) = inherited.last();
        kept_entries(inherited.drop_last()) + if withheld(name) {
            Seq::empty()
        } else {
            seq![env_entry(name, value)]
        }
    }
}

/// The entries a realized toplevel adds.
pub open spec fn toplevel_entries(toplevel: Toplevel) -> Seq<Seq<u8>> {
    match toplevel {
        Toplevel::Unrealized => Seq::empty(),
        Toplevel::X11 { window, display } => seq![
            env_entry("WINDOWID".spec_bytes(), signed_decimal_bytes(window as int)),
            env_entry("DISPLAY".spec_bytes(), encode_utf8(display@)),
        ],
        Toplevel::Wayland { display } => seq![
            env_entry("WAYLAND_DISPLAY".spec_bytes(), encode_utf8(display@)),
        ],
    }
}

pub open spec fn pairs_of(inherited: Seq<(Vec<u8>, Vec<u8>)>) -> Seq<(Seq<u8>, Seq<u8>)> {
    inherited.map_values(|p: (Vec<u8>, Vec<u8>)| (p.0@, p.1@))
}

/// The environment a child inherits: the kept variables, then the terminal's
/// own name, then what a realized toplevel adds.
pub open spec fn environment_of(inherited: Seq<(Seq<u8>, Seq<u8>)>, toplevel: Toplevel) -> Seq<Seq<u8>> {
    kept_entries(inherited) + seq![env_entry("COLORTERM".spec_bytes(), COLORTERM_VALUE.spec_bytes())]
        + toplevel_entries(toplevel)
}

/// Returns the environment a child inherits.
///
/// `inherited` holds the process environment as name and value pairs in the
/// order the process lists them. The variables this terminal owns are left
/// out, then the terminal names itself, and a realized toplevel adds the
/// display the child is shown on.
pub fn child_environment(inherited: &[(Vec<u8>, Vec<u8>)], toplevel: &Toplevel) -> (environment: Vec<Vec<u8>>)
    ensures
        words_of(environment@) == environment_of(pairs_of(inherited@), *toplevel),
{
    let ghost pairs = pairs_of(inherited@);
    let mut environment: Vec<Vec<u8>> = Vec::new();
    let mut i: usize = 0;
    while i < inherited.len()
        invariant
            pairs == pairs_of(inherited@),
            i <= inherited@.len(),
            words_of(environment@) == kept_entries(pairs.take(i as int)),
        decreases inherited@.len() - i,
    {
        let name = inherited[i].0.as_slice();
        let value = inherited[i].1.as_slice();
        assert(pairs.take(i + 1).drop_last() =~= pairs.take(i as int));
        assert(pairs.take(i + 1).last() == (name@, value@));
        if !is_withheld(name) {
            environment.push(entry(name, value));
        }
        i = i + 1;
        assert(words_of(environment@) =~= kept_entries(pairs.take(i as int)));
    }
    assert(pairs.take(inherited@.len() as int) =~= pairs);
    let ghost kept = words_of(environment@);
    environment.push(entry("COLORTERM".as_bytes(), COLORTERM_VALUE.as_bytes()));
    match toplevel {
        Toplevel::Unrealized => {},
        Toplevel::X11 { window, display } => {
            let mut number: Vec<u8> = Vec::new();
            push_signed_decimal(&mut number, *window);
            assert(number@ =~= signed_decimal_bytes(*window as int));
            environment.push(entry("WINDOWID".as_bytes(), number.as_slice()));
            environment.push(entry("DISPLAY".as_bytes(), display.as_str().as_bytes()));
        },
        Toplevel::Wayland { display } => {
            environment.push(entry("WAYLAND_DISPLAY".as_bytes(), display.as_str().as_bytes()));
        },
    }
    assert(words_of(environment@) =~= environment_of(pairs, *toplevel));
    environment
}


/// A tab's own command reaches the child exactly as the option parser gave
/// it: the file is its first word and the argument vector is the whole
/// command, whatever the preferences say.
pub proof fn lemma_screen_command_runs_unchanged(words: Seq<Seq<u8>>)
    requires
        words.len() > 0,
    ensures
        spawn_vector(CommandModel { command: words[0], argv: words }) == seq![words[0]] + words,
{
}

/// A login shell's first argument is its base name after a dash; without a
/// login shell it is the bare base name.
pub proof fn lemma_login_dash(file: Seq<u8>)
    ensures
        argument_zero(true, file) == seq![45u8] + byte_basename(file),
        argument_zero(false, file) == byte_basename(file),
{
    assert(Seq::<u8>::empty() + byte_basename(file) =~= byte_basename(file));
}

proof fn lemma_kept_entries_are_not_withheld(inherited: Seq<(Seq<u8>, Seq<u8>)>)
    ensures
        forall|i: int| 0 <= i < kept_entries(inherited).len() ==> exists|k: int|
            0 <= k < inherited.len() && !withheld(#[trigger] inherited[k].0)
                && #[trigger] kept_entries(inherited)[i] == env_entry(inherited[k].0, inherited[k].1),
    decreases inherited.len(),
{
    if inherited.len() > 0 {
        let rest = inherited.drop_last();
        lemma_kept_entries_are_not_withheld(rest);
        assert forall|i: int| 0 <= i < kept_entries(inherited).len() implies exists|k: int|
            0 <= k < inherited.len() && !withheld(#[trigger] inherited[k].0)
                && #[trigger] kept_entries(inherited)[i] == env_entry(inherited[k].0, inherited[k].1) by {
            if i < kept_entries(rest).len() {
                let k = choose|k: int| 0 <= k < rest.len() && !withheld(#[trigger] rest[k].0)
                    && #[trigger] kept_entries(rest)[i] == env_entry(rest[k].0, rest[k].1);
                assert(inherited[k] == rest[k]);
            } else {
                let k = inherited.len() - 1;
                assert(!withheld(inherited[k].0));
            }
        }
    }
}

/// The variables the terminal owns never reach a child from the parent's
/// environment: every entry before the terminal's own is an inherited
/// variable that is not withheld, with its value.
pub proof fn lemma_owned_variables_are_hidden(inherited: Seq<(Seq<u8>, Seq<u8>)>, toplevel: Toplevel)
    ensures
        forall|i: int| 0 <= i < kept_entries(inherited).len() ==> exists|k: int|
            0 <= k < inherited.len() && !withheld(#[trigger] inherited[k].0)
                && #[trigger] environment_of(inherited, toplevel)[i] == env_entry(inherited[k].0, inherited[k].1),
{
    lemma_kept_entries_are_not_withheld(inherited);
    assert forall|i: int| 0 <= i < kept_entries(inherited).len() implies exists|k: int|
        0 <= k < inherited.len() && !withheld(#[trigger] inherited[k].0)
            && #[trigger] environment_of(inherited, toplevel)[i] == env_entry(inherited[k].0, inherited[k].1) by {
        assert(environment_of(inherited, toplevel)[i] == kept_entries(inherited)[i]);
        let k = choose|k: int| 0 <= k < inherited.len() && !withheld(#[trigger] inherited[k].0)
            && #[trigger] kept_entries(inherited)[i] == env_entry(inherited[k].0, inherited[k].1);
        assert(!withheld(inherited[k].0));
    }
}

/// Without a realized toplevel the terminal names itself last.
pub proof fn lemma_terminal_named_last(inherited: Seq<(Seq<u8>, Seq<u8>)>)
    ensures
        environment_of(inherited, Toplevel::Unrealized).last()
            == env_entry("COLORTERM".spec_bytes(), COLORTERM_VALUE.spec_bytes()),
        environment_of(inherited, Toplevel::Unrealized).len() == kept_entries(inherited).len() + 1,
{
}

/// The inherited variables keep their order: dropping the withheld ones from
/// a longer listing extends the kept entries of its beginning.
pub proof fn lemma_inherited_order_kept(
    inherited: Seq<(Seq<u8>, Seq<u8>)>,
    more: Seq<(Seq<u8>, Seq<u8>)>,
)
    ensures
        kept_entries(inherited + more) == kept_entries(inherited) + kept_entries(more),
    decreases more.len(),
{
    if more.len() == 0 {
        assert(inherited + more =~= inherited);
        assert(kept_entries(inherited) + kept_entries(more) =~= kept_entries(inherited));
    } else {
        lemma_inherited_order_kept(inherited, more.drop_last());
        assert((inherited + more).drop_last() =~= inherited + more.drop_last());
        assert((inherited + more).last() == more.last());
        let (name, value) = more.last();
        let tail: Seq<Seq<u8>> = if withheld(name) { Seq::empty() } else { seq![env_entry(name, value)] };
        assert(kept_entries(inherited) + kept_entries(more.drop_last()) + tail
            =~= kept_entries(inherited) + (kept_entries(more.drop_last()) + tail));
    }
}


/// The shells a login shell is looked for among, in order: the `SHELL`
/// variable, trusted only while the process runs with the privileges of the
/// user who started it, then the password database entry, then the fallback
/// shells.
pub open spec fn shell_candidates(
    privileges_unchanged: bool,
    environment_shell: Option<Seq<u8>>,
    database_shell: Option<Seq<u8>>,
) -> Seq<Seq<u8>> {
    (match environment_shell {
        Some(shell) => if privileges_unchanged { seq![shell] } else { Seq::empty() },
        None => Seq::empty(),
    }) + (match database_shell {
        Some(shell) => seq![shell],
        None => Seq::empty(),
    }) + FALLBACK_SHELLS@.map_values(|s: &'static str| s.spec_bytes())
}

pub open spec fn opt_bytes(value: Option<&[u8]>) -> Option<Seq<u8>> {
    match value {
        Some(v) => Some(v@),
        None => None,
    }
}

/// Lists the shells a login shell is looked for among, in the order they are
/// tried.
pub fn login_shell_candidates(
    privileges_unchanged: bool,
    environment_shell: Option<&[u8]>,
    database_shell: Option<&[u8]>,
) -> (candidates: Vec<Vec<u8>>)
    ensures
        words_of(candidates@) == shell_candidates(
            privileges_unchanged,
            opt_bytes(environment_shell),
            opt_bytes(database_shell),
        ),
{
    let mut candidates: Vec<Vec<u8>> = Vec::new();
    match environment_shell {
        Some(shell) => if privileges_unchanged {
            candidates.push(copy_bytes(shell));
        },
        None => {},
    }
    match database_shell {
        Some(shell) => {
            let ghost prev = candidates@;
            let item = copy_bytes(shell);
            candidates.push(item);
            assert(words_of(candidates@) =~= words_of(prev).push(item@));
        },
        None => {},
    }
    let ghost head = words_of(candidates@);
    let ghost fallbacks = FALLBACK_SHELLS@.map_values(|s: &'static str| s.spec_bytes());
    let mut i: usize = 0;
    while i < 13
        invariant
            i <= 13,
            fallbacks == FALLBACK_SHELLS@.map_values(|s: &'static str| s.spec_bytes()),
            words_of(candidates@) == head + fallbacks.take(i as int),
        decreases 13 - i,
    {
        let ghost prev = candidates@;
        let item = copy_bytes(FALLBACK_SHELLS[i].as_bytes());
        assert(item@ == fallbacks[i as int]);
        candidates.push(item);
        assert(words_of(candidates@) =~= words_of(prev).push(item@));
        i = i + 1;
        assert(words_of(candidates@) =~= head + fallbacks.take(i as int));
    }
    assert(fallbacks.take(13) =~= fallbacks);
    assert(words_of(candidates@) =~= shell_candidates(
        privileges_unchanged,
        opt_bytes(environment_shell),
        opt_bytes(database_shell),
    ));
    candidates
}

/// The first candidate that may be executed, given for each candidate in
/// order whether it may; none at all means this host has no login shell.
pub open spec fn first_executable_shell(candidates: Seq<Seq<u8>>, executable: Seq<bool>, n: int) -> Result<Seq<u8>, ErrorModel>
    decreases n,
{
    if n <= 0 {
        Err(ErrorModel::NoLoginShell)
    } else {
        match first_executable_shell(candidates, executable, n - 1) {
            Ok(shell) => Ok(shell),
            Err(_) => if executable[n - 1] { Ok(candidates[n - 1]) } else { Err(ErrorModel::NoLoginShell) },
        }
    }
}

/// Picks the login shell: the first candidate that may be executed. Entries
/// of `executable` past the candidates, and candidates past its end, are
/// ignored.
pub fn pick_login_shell(candidates: &[Vec<u8>], executable: &[bool]) -> (shell: Result<Vec<u8>, ChildCommandError>)
    ensures
        shell_of(shell) == first_executable_shell(
            words_of(candidates@),
            executable@,
            if candidates@.len() < executable@.len() { candidates@.len() as int } else { executable@.len() as int },
        ),
{
    let n: usize = if candidates.len() < executable.len() { candidates.len() } else { executable.len() };
    let mut i: usize = 0;
    while i < n
        invariant
            n == (if candidates@.len() < executable@.len() { candidates@.len() } else { executable@.len() }),
            i <= n,
            first_executable_shell(words_of(candidates@), executable@, i as int) is Err,
            first_executable_shell(words_of(candidates@), executable@, i as int) == Err::<Seq<u8>, ErrorModel>(ErrorModel::NoLoginShell),
        decreases n - i,
    {
        if executable[i] {
            let shell = copy_bytes(candidates[i].as_slice());
            proof { lemma_first_executable_settled(words_of(candidates@), executable@, i + 1, n as int); }
            return Ok(shell);
        }
        i = i + 1;
    }
    Err(ChildCommandError::NoLoginShell)
}

proof fn lemma_first_executable_settled(candidates: Seq<Seq<u8>>, executable: Seq<bool>, m: int, n: int)
    requires
        0 <= m <= n,
        first_executable_shell(candidates, executable, m) is Ok,
    ensures
        first_executable_shell(candidates, executable, n) == first_executable_shell(candidates, executable, m),
    decreases n - m,
{
    if m < n {
        lemma_first_executable_settled(candidates, executable, m, n - 1);
    }
}

/// The fallback shells, in the order they are tried.
pub open spec fn fallback_shells() -> Seq<Seq<u8>> {
    FALLBACK_SHELLS@.map_values(|s: &'static str| s.spec_bytes())
}

/// The first of `shells`, from the front, that `executable` admits; no login
/// shell when none is.
pub open spec fn first_admitted(shells: Seq<Seq<u8>>, executable: spec_fn(Seq<u8>) -> bool) -> Result<Seq<u8>, ErrorModel>
    decreases shells.len(),
{
    if shells.len() == 0 {
        Err(ErrorModel::NoLoginShell)
    } else if executable(shells[0]) {
        Ok(shells[0])
    } else {
        first_admitted(shells.skip(1), executable)
    }
}

proof fn lemma_first_admitted_push(shells: Seq<Seq<u8>>, executable: spec_fn(Seq<u8>) -> bool, last: Seq<u8>)
    ensures
        first_admitted(shells.push(last), executable) == (match first_admitted(shells, executable) {
            Ok(shell) => Ok(shell),
            Err(_) => if executable(last) { Ok(last) } else { Err(ErrorModel::NoLoginShell) },
        }),
    decreases shells.len(),
{
    if shells.len() > 0 {
        assert(shells.push(last)[0] == shells[0]);
        assert(shells.push(last).skip(1) =~= shells.skip(1).push(last));
        lemma_first_admitted_push(shells.skip(1), executable, last);
    } else {
        assert(shells.push(last)[0] == last);
        assert(shells.push(last).skip(1) =~= Seq::<Seq<u8>>::empty());
        assert(first_admitted(shells, executable) == Err::<Seq<u8>, ErrorModel>(ErrorModel::NoLoginShell));
        assert(first_admitted(Seq::<Seq<u8>>::empty(), executable) == Err::<Seq<u8>, ErrorModel>(ErrorModel::NoLoginShell));
        assert(first_admitted(shells.push(last), executable) == (if executable(last) { Ok(last) } else { Err(ErrorModel::NoLoginShell) }));
    }
}

proof fn lemma_first_executable_is_first_admitted(
    candidates: Seq<Seq<u8>>,
    answers: Seq<bool>,
    executable: spec_fn(Seq<u8>) -> bool,
    n: int,
)
    requires
        0 <= n <= candidates.len(),
        n <= answers.len(),
        forall|k: int| 0 <= k < n ==> #[trigger] answers[k] == executable(candidates[k]),
    ensures
        first_executable_shell(candidates, answers, n) == first_admitted(candidates.take(n), executable),
    decreases n,
{
    if n > 0 {
        lemma_first_executable_is_first_admitted(candidates, answers, executable, n - 1);
        assert(candidates.take(n) =~= candidates.take(n - 1).push(candidates[n - 1]));
        lemma_first_admitted_push(candidates.take(n - 1), executable, candidates[n - 1]);
        assert(answers[n - 1] == executable(candidates[n - 1]));
    } else {
        assert(candidates.take(0) =~= Seq::<Seq<u8>>::empty());
    }
}

/// The login shell: `SHELL` when the process runs with the privileges it was
/// started with and that shell may be executed; else the shell the password
/// database records, when it may be executed; else the first fallback shell
/// that may be executed; else no login shell. Here `executable` says which
/// paths may be executed, and `answers` gives its answer for each candidate
/// that `login_shell_candidates` lists, as `pick_login_shell` takes them.
pub proof fn lemma_login_shell(
    privileges_unchanged: bool,
    environment_shell: Option<Seq<u8>>,
    database_shell: Option<Seq<u8>>,
    executable: spec_fn(Seq<u8>) -> bool,
    answers: Seq<bool>,
)
    requires
        answers.len() == shell_candidates(privileges_unchanged, environment_shell, database_shell).len(),
        forall|k: int| 0 <= k < answers.len() ==> #[trigger] answers[k] == executable(
            shell_candidates(privileges_unchanged, environment_shell, database_shell)[k],
        ),
    ensures
        first_executable_shell(
            shell_candidates(privileges_unchanged, environment_shell, database_shell),
            answers,
            answers.len() as int,
        ) == (if privileges_unchanged && environment_shell is Some && executable(environment_shell->0) {
            Ok(environment_shell->0)
        } else if database_shell is Some && executable(database_shell->0) {
            Ok(database_shell->0)
        } else {
            first_admitted(fallback_shells(), executable)
        }),
{
    let c = shell_candidates(privileges_unchanged, environment_shell, database_shell);
    let fb = fallback_shells();
    lemma_first_executable_is_first_admitted(c, answers, executable, answers.len() as int);
    assert(c.take(answers.len() as int) =~= c);
    let tail = (match database_shell {
        Some(shell) => seq![shell],
        None => Seq::empty(),
    }) + fb;
    match database_shell {
        Some(shell) => {
            assert(tail[0] == shell);
            assert(tail.skip(1) =~= fb);
            assert(first_admitted(tail, executable) == (if executable(shell) { Ok(shell) } else { first_admitted(fb, executable) }));
        },
        None => {
            assert(tail =~= fb);
        },
    }
    if privileges_unchanged && environment_shell is Some {
        let shell = environment_shell->0;
        assert(c =~= seq![shell] + tail);
        assert(c[0] == shell);
        assert(c.skip(1) =~= tail);
        assert(first_admitted(c, executable) == (if executable(shell) { Ok(shell) } else { first_admitted(tail, executable) }));
    } else {
        assert(c =~= tail);
    }
}
} // verus!
