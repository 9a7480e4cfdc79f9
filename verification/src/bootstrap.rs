//! Process start-up: what to do, in which order, and when to give up.
//!
//! Start-up alternates work that only the platform can do (installing a
//! crash handler, asking the application for its data directory, loading the
//! engine's library, patching the compile entry point) with decisions. The
//! decisions are here, as one step function over a [`Process`] that is
//! created once and lives as long as the host does. Every failure is fatal:
//! without the hook there is nothing for the extension to do.

use vstd::prelude::*;
use crate::text::{append_one_line, one_line, single_line};
use crate::symbols::{
    init_lua_library, init_lua_library_spec, library_name, library_name_spec, library_view,
    InitError, LuaLib, SetOnce, TargetOs,
};

verus! {

/// The version of the native interface that start-up reports to the Java
/// runtime.
pub const JNI_VERSION_1_4: i32 = 0x0001_0004;

/// The run-time configuration: read-only once start-up has assembled it.
#[derive(Debug, PartialEq, Eq)]
pub struct Config {
    /// Whether every buffer that the host compiles is dumped for diagnosis.
    pub dump_all: bool,
    /// Whether buffers are passed on unmodified.
    pub vanilla: bool,
    /// The directory that holds the user's mods.
    pub mod_dir: Option<String>,
}

/// What a [`Config`] is in specifications.
pub struct ConfigView {
    pub dump_all: bool,
    pub vanilla: bool,
    pub mod_dir: Option<Seq<char>>,
}

impl View for Config {
    type V = ConfigView;

    open spec fn view(&self) -> ConfigView {
        ConfigView {
            dump_all: self.dump_all,
            vanilla: self.vanilla,
            mod_dir: match self.mod_dir {
                Some(dir) => Some(dir@),
                None => None,
            },
        }
    }
}

/// The directory `mods` below `data_dir`, with one `/` between the two
/// unless `data_dir` is empty or ends in one.
pub open spec fn mod_directory_spec(data_dir: Seq<char>) -> Seq<char> {
    if data_dir.len() == 0 || data_dir.last() == '/' {
        data_dir + "mods"@
    } else {
        data_dir + seq!['/'] + "mods"@
    }
}

/// The directory that holds the user's mods, given the application's data
/// directory.
pub fn mod_directory(data_dir: &str) -> (dir: String)
    ensures
        dir@ == mod_directory_spec(data_dir@),
{
    let length = data_dir.unicode_len();
    let mut dir = data_dir.to_owned();
    if length > 0 && data_dir.get_char(length - 1) != '/' {
        dir.append("/");
        proof {
            reveal_strlit("/");
            assert("/"@ =~= seq!['/']);
        }
    }
    dir.append("mods");
    dir
}

/// The configuration with which the extension starts: nothing is dumped,
/// buffers are patched, and mods are looked for below `data_dir`.
pub open spec fn start_config(data_dir: Seq<char>) -> ConfigView {
    ConfigView { dump_all: false, vanilla: false, mod_dir: Some(mod_directory_spec(data_dir)) }
}

impl Config {
    /// The configuration with which the extension starts, given the
    /// application's data directory.
    pub fn at_start(data_dir: &str) -> (config: Config)
        ensures
            config@ == start_config(data_dir@),
    {
        Config { dump_all: false, vanilla: false, mod_dir: Some(mod_directory(data_dir)) }
    }
}

/// The record that the crash handler logs for a fault described by `info`:
/// one line, which is a prefix that names the extension and then the
/// description with a space in place of each line break.
pub open spec fn crash_message_spec(info: Seq<char>) -> Seq<char> {
    "lovely-injector has crashed: "@ + one_line(info)
}

/// The record that the crash handler logs for a fault described by `info`.
/// It is a single line, however many lines the description has.
pub fn crash_message(info: &str) -> (message: String)
    ensures
        message@ == crash_message_spec(info@),
        single_line(message@),
{
    let mut message = "lovely-injector has crashed: ".to_owned();
    proof {
        reveal_strlit("lovely-injector has crashed: ");
    }
    append_one_line(&mut message, info);
    message
}

/// The symbol of the compile entry point that is patched: the one that
/// takes the buffer with its length, the chunk name and an optional compile
/// mode.
pub open spec fn hook_target_spec() -> Seq<char> {
    "luaL_loadbufferx"@
}

/// The symbol of the compile entry point that is patched.
pub fn hook_target() -> (name: &'static str)
    ensures
        name@ == hook_target_spec(),
{
    "luaL_loadbufferx"
}

/// The number by which the Java runtime knows version 1.4 of its native
/// interface, from `jni::JNIVersion::V4`.
///
/// Trusted: the conversion of `JNIVersion::V4` to an integer gives the
/// constant `JNI_VERSION_1_4` of the interface, `0x00010004`.
#[verifier::external_body]
fn jni_version() -> (version: i32)
    ensures
        version == JNI_VERSION_1_4,
{
    jni::JNIVersion::V4.into()
}

/// How far start-up has come.
#[derive(Debug, Clone, Copy, PartialEq, Eq, Structural)]
pub enum BootPhase {
    /// Start-up has not begun.
    Idle,
    /// The crash handler is being installed.
    CrashHandler,
    /// The application is being asked for its data directory.
    DataDir,
    /// The engine's library is being loaded and its symbols looked up.
    Library,
    /// The compile entry point is being patched.
    Hook,
    /// The hook is in place.
    Ready,
    /// Start-up has failed.
    Failed,
}

/// Why start-up gave up.
#[derive(Debug, Clone, Copy, PartialEq, Eq, Structural)]
pub enum Fatal {
    /// Start-up had begun before.
    AlreadyInitialized,
    /// The application gave no data directory.
    NoDataDir,
    /// The engine's library could not be loaded.
    LibraryNotLoaded,
    /// The library does not export the symbol at this position of the table.
    MissingSymbol(usize),
    /// The library does not export the compile entry point.
    HookTargetMissing,
    /// The platform refused the patch.
    HookRejected,
    /// An event came that the step before did not ask for.
    OutOfOrder,
}

/// What the engine's library gave when its symbols were looked up.
#[derive(Debug, PartialEq, Eq)]
pub struct Lookup {
    /// The address of each symbol of the table, in its order.
    pub symbols: Vec<Option<usize>>,
    /// The address of the compile entry point.
    pub hook_target: Option<usize>,
}

/// What a [`Lookup`] is in specifications.
pub struct LookupView {
    pub symbols: Seq<Option<usize>>,
    pub hook_target: Option<usize>,
}

impl View for Lookup {
    type V = LookupView;

    open spec fn view(&self) -> LookupView {
        LookupView { symbols: self.symbols@, hook_target: self.hook_target }
    }
}

/// What the platform reports back to start-up.
#[derive(Debug, PartialEq, Eq)]
pub enum BootEvent {
    /// The host has loaded the extension.
    Begin,
    /// The crash handler is installed.
    Done,
    /// The application's data directory, if it gave one.
    DataDir(Option<String>),
    /// The symbols of the engine's library, if it could be loaded.
    Library(Option<Lookup>),
    /// The address through which the unpatched compile entry point can still
    /// be called, if the patch was accepted.
    Hooked(Option<usize>),
}

/// What a [`BootEvent`] is in specifications.
pub enum BootEventView {
    Begin,
    Done,
    DataDir(Option<Seq<char>>),
    Library(Option<LookupView>),
    Hooked(Option<usize>),
}

impl View for BootEvent {
    type V = BootEventView;

    open spec fn view(&self) -> BootEventView {
        match self {
            BootEvent::Begin => BootEventView::Begin,
            BootEvent::Done => BootEventView::Done,
            BootEvent::DataDir(dir) => BootEventView::DataDir(
                match dir {
                    Some(dir) => Some(dir@),
                    None => None,
                },
            ),
            BootEvent::Library(lookup) => BootEventView::Library(
                match lookup {
                    Some(lookup) => Some(lookup@),
                    None => None,
                },
            ),
            BootEvent::Hooked(trampoline) => BootEventView::Hooked(*trampoline),
        }
    }
}

/// What start-up asks the platform to do next.
#[derive(Debug, PartialEq, Eq)]
pub enum BootAction {
    /// Install the handler that logs an unrecoverable fault.
    InstallCrashHandler,
    /// Ask the application for its data directory.
    QueryDataDir,
    /// Load the engine's library `name`, and look up the symbols of the table
    /// and the compile entry point `hook_target`.
    LoadLibrary { name: String, hook_target: String },
    /// Patch the compile entry point at `target`.
    InstallHook { target: usize },
    /// Start-up is done: report this version to the Java runtime.
    Return { version: i32 },
    /// Start-up has failed: the process should not go on.
    Abort { reason: Fatal },
}

/// What a [`BootAction`] is in specifications.
pub enum BootActionView {
    InstallCrashHandler,
    QueryDataDir,
    LoadLibrary { name: Seq<char>, hook_target: Seq<char> },
    InstallHook { target: usize },
    Return { version: int },
    Abort { reason: Fatal },
}

impl View for BootAction {
    type V = BootActionView;

    open spec fn view(&self) -> BootActionView {
        match self {
            BootAction::InstallCrashHandler => BootActionView::InstallCrashHandler,
            BootAction::QueryDataDir => BootActionView::QueryDataDir,
            BootAction::LoadLibrary { name, hook_target } => BootActionView::LoadLibrary {
                name: name@,
                hook_target: hook_target@,
            },
            BootAction::InstallHook { target } => BootActionView::InstallHook { target: *target },
            BootAction::Return { version } => BootActionView::Return { version: *version as int },
            BootAction::Abort { reason } => BootActionView::Abort { reason: *reason },
        }
    }
}

/// The state of the extension in one host process: created once, before
/// start-up, and read-only once start-up is over.
pub struct Process {
    phase: BootPhase,
    os: TargetOs,
    config: Option<Config>,
    lua: SetOnce<LuaLib>,
    trampoline: Option<usize>,
}

/// What a [`Process`] is in specifications.
pub struct ProcessView {
    pub phase: BootPhase,
    /// The operating system that the host runs on.
    pub os: TargetOs,
    /// The configuration, once it is assembled.
    pub config: Option<ConfigView>,
    /// The table of entry points, once it is installed.
    pub lua: Option<LuaLib>,
    /// The address through which the unpatched compile entry point is
    /// called, once the hook is in place.
    pub trampoline: Option<usize>,
}

impl View for Process {
    type V = ProcessView;

    closed spec fn view(&self) -> ProcessView {
        ProcessView {
            phase: self.phase,
            os: self.os,
            config: match self.config {
                Some(config) => Some(config@),
                None => None,
            },
            lua: self.lua.value(),
            trampoline: self.trampoline,
        }
    }
}

/// The state of a process in which start-up has not begun.
pub open spec fn idle(os: TargetOs) -> ProcessView {
    ProcessView { phase: BootPhase::Idle, os, config: None, lua: None, trampoline: None }
}

/// The reason for which start-up gives up when the table of entry points
/// cannot be installed.
pub open spec fn fatal_of(error: InitError) -> Fatal {
    match error {
        InitError::LibraryNotLoaded => Fatal::LibraryNotLoaded,
        InitError::MissingSymbol(index) => Fatal::MissingSymbol(index),
        InitError::AlreadyInitialized => Fatal::AlreadyInitialized,
    }
}

/// Start-up gives up for `reason`.
pub open spec fn fail(p: ProcessView, reason: Fatal) -> (ProcessView, BootActionView) {
    (ProcessView { phase: BootPhase::Failed, ..p }, BootActionView::Abort { reason })
}

/// The symbols of a lookup that may be absent.
pub open spec fn symbols_of(lookup: Option<LookupView>) -> Option<Seq<Option<usize>>> {
    match lookup {
        Some(lookup) => Some(lookup.symbols),
        None => None,
    }
}

/// What follows the lookup of the engine's symbols: the table is installed
/// and the hook asked for, or start-up gives up.
pub open spec fn after_lookup(p: ProcessView, lookup: Option<LookupView>) -> (
    ProcessView,
    BootActionView,
) {
    let (lua, outcome) = init_lua_library_spec(p.lua, symbols_of(lookup));
    match outcome {
        Err(error) => fail(p, fatal_of(error)),
        Ok(_) => match lookup->0.hook_target {
            Some(target) => (
                ProcessView { phase: BootPhase::Hook, lua, ..p },
                BootActionView::InstallHook { target },
            ),
            None => fail(ProcessView { lua, ..p }, Fatal::HookTargetMissing),
        },
    }
}

/// One step of start-up: from the state and what the platform reports, the
/// next state and what to ask of the platform next.
///
/// `Begin` starts an idle process and is fatal for any other, which it
/// leaves as it is. Every other event is accepted only in the phase that
/// asked for it.
pub open spec fn bootstrap_spec(p: ProcessView, event: BootEventView) -> (
    ProcessView,
    BootActionView,
) {
    match event {
        BootEventView::Begin => if p.phase == BootPhase::Idle {
            (
                ProcessView { phase: BootPhase::CrashHandler, ..p },
                BootActionView::InstallCrashHandler,
            )
        } else {
            (p, BootActionView::Abort { reason: Fatal::AlreadyInitialized })
        },
        _ => match p.phase {
            BootPhase::Idle | BootPhase::Ready | BootPhase::Failed => (
                p,
                BootActionView::Abort { reason: Fatal::OutOfOrder },
            ),
            BootPhase::CrashHandler => match event {
                BootEventView::Done => (
                    ProcessView { phase: BootPhase::DataDir, ..p },
                    BootActionView::QueryDataDir,
                ),
                _ => fail(p, Fatal::OutOfOrder),
            },
            BootPhase::DataDir => match event {
                BootEventView::DataDir(Some(dir)) => (
                    ProcessView {
                        phase: BootPhase::Library,
                        config: Some(start_config(dir)),
                        ..p
                    },
                    BootActionView::LoadLibrary {
                        name: library_name_spec(p.os),
                        hook_target: hook_target_spec(),
                    },
                ),
                BootEventView::DataDir(None) => fail(p, Fatal::NoDataDir),
                _ => fail(p, Fatal::OutOfOrder),
            },
            BootPhase::Library => match event {
                BootEventView::Library(lookup) => after_lookup(p, lookup),
                _ => fail(p, Fatal::OutOfOrder),
            },
            BootPhase::Hook => match event {
                BootEventView::Hooked(Some(trampoline)) => (
                    ProcessView { phase: BootPhase::Ready, trampoline: Some(trampoline), ..p },
                    BootActionView::Return { version: JNI_VERSION_1_4 as int },
                ),
                BootEventView::Hooked(None) => fail(p, Fatal::HookRejected),
                _ => fail(p, Fatal::OutOfOrder),
            },
        },
    }
}

/// The reason for which start-up gives up when the table of entry points
/// cannot be installed.
fn fatal_from(error: InitError) -> (reason: Fatal)
    ensures
        reason == fatal_of(error),
{
    match error {
        InitError::LibraryNotLoaded => Fatal::LibraryNotLoaded,
        InitError::MissingSymbol(index) => Fatal::MissingSymbol(index),
        InitError::AlreadyInitialized => Fatal::AlreadyInitialized,
    }
}

impl Process {
    /// The state of a process on `os` in which start-up has not begun.
    pub fn new(os: TargetOs) -> (process: Process)
        ensures
            process@ == idle(os),
    {
        Process { phase: BootPhase::Idle, os, config: None, lua: SetOnce::new(), trampoline: None }
    }

    /// How far start-up has come.
    pub fn phase(&self) -> (phase: BootPhase)
        ensures
            phase == self@.phase,
    {
        self.phase
    }

    /// The configuration, once it is assembled.
    pub fn config(&self) -> (config: Option<&Config>)
        ensures
            config is Some <==> self@.config is Some,
            config matches Some(held) ==> self@.config == Some(held@),
    {
        self.config.as_ref()
    }

    /// The table of entry points, once it is installed.
    pub fn lua(&self) -> (lua: Option<LuaLib>)
        ensures
            lua == self@.lua,
    {
        match self.lua.get() {
            Some(table) => Some(*table),
            None => None,
        }
    }

    /// The address through which the unpatched compile entry point is
    /// called, once the hook is in place.
    pub fn trampoline(&self) -> (trampoline: Option<usize>)
        ensures
            trampoline == self@.trampoline,
    {
        self.trampoline
    }

    /// Installs the table of entry points of this process apart from
    /// start-up, from the result of looking each symbol up, or from nothing
    /// if the library could not be loaded. The table goes to the one place
    /// that start-up uses too, so it is installed once at most, whichever of
    /// the two comes first; nothing else of the process changes.
    pub fn install_table(&mut self, library: Option<&Vec<Option<usize>>>) -> (outcome: Result<
        (),
        InitError,
    >)
        ensures
            (final(self)@.lua, outcome) == init_lua_library_spec(
                old(self)@.lua,
                library_view(library),
            ),
            final(self)@ == (ProcessView { lua: final(self)@.lua, ..old(self)@ }),
    {
        init_lua_library(&mut self.lua, library)
    }

    fn fail(&mut self, reason: Fatal) -> (action: BootAction)
        ensures
            (final(self)@, action@) == fail(old(self)@, reason),
    {
        self.phase = BootPhase::Failed;
        BootAction::Abort { reason }
    }

    fn after_lookup(&mut self, lookup: Option<Lookup>) -> (action: BootAction)
        ensures
            (final(self)@, action@) == after_lookup(
                old(self)@,
                match lookup {
                    Some(lookup) => Some(lookup@),
                    None => None,
                },
            ),
    {
        let outcome = match &lookup {
            Some(lookup) => init_lua_library(&mut self.lua, Some(&lookup.symbols)),
            None => init_lua_library(&mut self.lua, None),
        };
        match outcome {
            Err(error) => self.fail(fatal_from(error)),
            Ok(()) => match lookup {
                Some(Lookup { symbols: _, hook_target: Some(target) }) => {
                    self.phase = BootPhase::Hook;
                    BootAction::InstallHook { target }
                },
                _ => self.fail(Fatal::HookTargetMissing),
            },
        }
    }
}

/// Takes one step of start-up: given what the platform reports, updates the
/// process and returns what to ask of the platform next.
pub fn bootstrap(process: &mut Process, event: BootEvent) -> (action: BootAction)
    ensures
        (final(process)@, action@) == bootstrap_spec(old(process)@, event@),
{
    match event {
        BootEvent::Begin => {
            if process.phase == BootPhase::Idle {
                process.phase = BootPhase::CrashHandler;
                BootAction::InstallCrashHandler
            } else {
                BootAction::Abort { reason: Fatal::AlreadyInitialized }
            }
        },
        event => match process.phase {
            BootPhase::Idle | BootPhase::Ready | BootPhase::Failed => BootAction::Abort {
                reason: Fatal::OutOfOrder,
            },
            BootPhase::CrashHandler => match event {
                BootEvent::Done => {
                    process.phase = BootPhase::DataDir;
                    BootAction::QueryDataDir
                },
                _ => process.fail(Fatal::OutOfOrder),
            },
            BootPhase::DataDir => match event {
                BootEvent::DataDir(Some(dir)) => {
                    process.config = Some(Config::at_start(dir.as_str()));
                    process.phase = BootPhase::Library;
                    BootAction::LoadLibrary {
                        name: library_name(process.os).to_owned(),
                        hook_target: hook_target().to_owned(),
                    }
                },
                BootEvent::DataDir(None) => process.fail(Fatal::NoDataDir),
                _ => process.fail(Fatal::OutOfOrder),
            },
            BootPhase::Library => match event {
                BootEvent::Library(lookup) => process.after_lookup(lookup),
                _ => process.fail(Fatal::OutOfOrder),
            },
            BootPhase::Hook => match event {
                BootEvent::Hooked(Some(trampoline)) => {
                    process.trampoline = Some(trampoline);
                    process.phase = BootPhase::Ready;
                    BootAction::Return { version: jni_version() }
                },
                BootEvent::Hooked(None) => process.fail(Fatal::HookRejected),
                _ => process.fail(Fatal::OutOfOrder),
            },
        },
    }
}

/// How far a phase is from the beginning of start-up.
pub open spec fn progress(phase: BootPhase) -> int {
    match phase {
        BootPhase::Idle => 0,
        BootPhase::CrashHandler => 1,
        BootPhase::DataDir => 2,
        BootPhase::Library => 3,
        BootPhase::Hook => 4,
        BootPhase::Ready => 5,
        BootPhase::Failed => 6,
    }
}

/// Whether a process holds what its phase says it does: the configuration
/// from the lookup of the library on, the table of entry points from the
/// patch on, the trampoline once the hook is in place, and neither
/// configuration nor trampoline before start-up.
pub open spec fn consistent(p: ProcessView) -> bool {
    &&& p.phase == BootPhase::Idle ==> p.config is None && p.trampoline is None
    &&& p.phase == BootPhase::Library || p.phase == BootPhase::Hook || p.phase == BootPhase::Ready
        ==> p.config is Some
    &&& p.phase == BootPhase::Hook || p.phase == BootPhase::Ready ==> p.lua is Some
    &&& p.phase == BootPhase::Ready <==> p.trampoline is Some
}

/// Single initialization: once start-up has begun, beginning it again is
/// fatal and leaves the process as it is, the installed hook and its
/// trampoline included.
pub proof fn lemma_second_start_is_fatal(p: ProcessView)
    requires
        p.phase != BootPhase::Idle,
    ensures
        bootstrap_spec(p, BootEventView::Begin) == (
            p,
            BootActionView::Abort { reason: Fatal::AlreadyInitialized },
        ),
{
}

/// Two starts in a row: the first begins start-up, the second is fatal and
/// changes nothing.
pub proof fn lemma_start_twice(os: TargetOs)
    ensures
        ({
            let (first, begun) = bootstrap_spec(idle(os), BootEventView::Begin);
            let (second, refused) = bootstrap_spec(first, BootEventView::Begin);
            &&& begun == BootActionView::InstallCrashHandler
            &&& refused == BootActionView::Abort { reason: Fatal::AlreadyInitialized }
            &&& second == first
        }),
{
}

/// Start-up never goes back: a step leaves the phase where it is or moves it
/// on, and a process that is ready or has failed stays as it is.
pub proof fn lemma_start_up_moves_on(p: ProcessView, event: BootEventView)
    ensures
        progress(bootstrap_spec(p, event).0.phase) >= progress(p.phase),
        p.phase == BootPhase::Ready || p.phase == BootPhase::Failed ==> bootstrap_spec(p, event).0
            == p,
{
}

/// The hook is asked for once at most, and only after the table of entry
/// points is installed: the step that asks for it leaves the phase in which
/// the library is looked up, to which no step returns.
pub proof fn lemma_hook_follows_symbols(p: ProcessView, event: BootEventView)
    requires
        bootstrap_spec(p, event).1 is InstallHook,
    ensures
        p.phase == BootPhase::Library,
        bootstrap_spec(p, event).0.phase == BootPhase::Hook,
        bootstrap_spec(p, event).0.lua is Some,
        event matches BootEventView::Library(Some(lookup)) && lookup.hook_target == Some(
            bootstrap_spec(p, event).1->InstallHook_target,
        ),
{
}

/// Every step keeps a process consistent, so a process that is ready holds
/// its configuration, the table of entry points and the trampoline.
pub proof fn lemma_start_up_is_consistent(p: ProcessView, event: BootEventView)
    requires
        consistent(p),
    ensures
        consistent(bootstrap_spec(p, event).0),
{
}

} // verus!
