//! Start-up of the extension in a host process.

use lovely_core::bootstrap::{
    bootstrap, crash_message, hook_target, mod_directory, BootAction, BootEvent, BootPhase,
    Config, Fatal, Lookup, Process, JNI_VERSION_1_4,
};
use lovely_core::symbols::{InitError, TargetOs, SYMBOL_COUNT};

fn symbols() -> Vec<Option<usize>> {
    (0..SYMBOL_COUNT).map(|i| Some(0x4000 + 16 * i)).collect()
}

fn lookup() -> Lookup {
    Lookup { symbols: symbols(), hook_target: Some(0x7000) }
}

/// A process that has come as far as asking for the library.
fn at_library(os: TargetOs) -> Process {
    let mut process = Process::new(os);
    bootstrap(&mut process, BootEvent::Begin);
    bootstrap(&mut process, BootEvent::Done);
    bootstrap(&mut process, BootEvent::DataDir(Some("/data".to_string())));
    assert_eq!(process.phase(), BootPhase::Library);
    process
}

/// A process in which the hook is in place.
fn ready() -> Process {
    let mut process = at_library(TargetOs::Android);
    bootstrap(&mut process, BootEvent::Library(Some(lookup())));
    bootstrap(&mut process, BootEvent::Hooked(Some(0x7700)));
    assert_eq!(process.phase(), BootPhase::Ready);
    process
}

#[test]
fn start_up_runs_in_order() {
    let mut process = Process::new(TargetOs::Android);
    assert_eq!(process.phase(), BootPhase::Idle);
    assert_eq!(process.config(), None);
    assert_eq!(process.lua(), None);
    assert_eq!(process.trampoline(), None);

    assert_eq!(bootstrap(&mut process, BootEvent::Begin), BootAction::InstallCrashHandler);
    assert_eq!(process.phase(), BootPhase::CrashHandler);

    assert_eq!(bootstrap(&mut process, BootEvent::Done), BootAction::QueryDataDir);
    assert_eq!(process.phase(), BootPhase::DataDir);

    let dir = "/storage/emulated/0/Android/data/game/files".to_string();
    assert_eq!(
        bootstrap(&mut process, BootEvent::DataDir(Some(dir))),
        BootAction::LoadLibrary {
            name: "liblove.so".to_string(),
            hook_target: "luaL_loadbufferx".to_string(),
        }
    );
    assert_eq!(process.phase(), BootPhase::Library);
    assert_eq!(
        process.config(),
        Some(&Config {
            dump_all: false,
            vanilla: false,
            mod_dir: Some("/storage/emulated/0/Android/data/game/files/mods".to_string()),
        })
    );
    assert_eq!(process.lua(), None);

    assert_eq!(
        bootstrap(&mut process, BootEvent::Library(Some(lookup()))),
        BootAction::InstallHook { target: 0x7000 }
    );
    assert_eq!(process.phase(), BootPhase::Hook);
    let table = process.lua().expect("the table is installed before the hook");
    assert_eq!(table.lua_call, 0x4000);
    assert_eq!(table.lua_isstring, 0x4000 + 16 * 13);
    assert_eq!(process.trampoline(), None);

    assert_eq!(
        bootstrap(&mut process, BootEvent::Hooked(Some(0x7700))),
        BootAction::Return { version: 0x0001_0004 }
    );
    assert_eq!(process.phase(), BootPhase::Ready);
    assert_eq!(process.trampoline(), Some(0x7700));
    assert_eq!(JNI_VERSION_1_4, 65540);
}

#[test]
fn a_second_start_is_fatal_and_changes_nothing() {
    let mut process = ready();
    let config = process.config().map(|c| c.mod_dir.clone());
    let table = process.lua();
    assert_eq!(
        bootstrap(&mut process, BootEvent::Begin),
        BootAction::Abort { reason: Fatal::AlreadyInitialized }
    );
    assert_eq!(process.phase(), BootPhase::Ready);
    assert_eq!(process.trampoline(), Some(0x7700));
    assert_eq!(process.lua(), table);
    assert_eq!(process.config().map(|c| c.mod_dir.clone()), config);

    // Not even a start that has only just begun can begin again.
    let mut fresh = Process::new(TargetOs::Linux);
    assert_eq!(bootstrap(&mut fresh, BootEvent::Begin), BootAction::InstallCrashHandler);
    assert_eq!(
        bootstrap(&mut fresh, BootEvent::Begin),
        BootAction::Abort { reason: Fatal::AlreadyInitialized }
    );
    assert_eq!(fresh.phase(), BootPhase::CrashHandler);
    assert_eq!(bootstrap(&mut fresh, BootEvent::Done), BootAction::QueryDataDir);
}

#[test]
fn a_ready_process_takes_no_further_events() {
    let mut process = ready();
    for event in [
        BootEvent::Done,
        BootEvent::DataDir(Some("/x".to_string())),
        BootEvent::Library(Some(lookup())),
        BootEvent::Hooked(Some(1)),
        BootEvent::Hooked(None),
    ] {
        assert_eq!(
            bootstrap(&mut process, event),
            BootAction::Abort { reason: Fatal::OutOfOrder }
        );
        assert_eq!(process.phase(), BootPhase::Ready);
        assert_eq!(process.trampoline(), Some(0x7700));
    }
}

#[test]
fn an_idle_process_waits_for_its_start() {
    let mut process = Process::new(TargetOs::Android);
    assert_eq!(
        bootstrap(&mut process, BootEvent::Hooked(Some(1))),
        BootAction::Abort { reason: Fatal::OutOfOrder }
    );
    assert_eq!(process.phase(), BootPhase::Idle);
    assert_eq!(bootstrap(&mut process, BootEvent::Begin), BootAction::InstallCrashHandler);
}

#[test]
fn the_library_is_named_after_the_system() {
    for (os, name) in [
        (TargetOs::Windows, "lua51.dll"),
        (TargetOs::MacOs, "../Frameworks/Lua.framework/Versions/A/Lua"),
        (TargetOs::Linux, "libluajit-5.1.so.2"),
        (TargetOs::Android, "liblove.so"),
        (TargetOs::Other, "liblua5.1.so"),
    ] {
        let mut process = Process::new(os);
        bootstrap(&mut process, BootEvent::Begin);
        bootstrap(&mut process, BootEvent::Done);
        assert_eq!(
            bootstrap(&mut process, BootEvent::DataDir(Some(String::new()))),
            BootAction::LoadLibrary {
                name: name.to_string(),
                hook_target: "luaL_loadbufferx".to_string(),
            }
        );
    }
    assert_eq!(hook_target(), "luaL_loadbufferx");
}

#[test]
fn no_data_directory_is_fatal() {
    let mut process = Process::new(TargetOs::Android);
    bootstrap(&mut process, BootEvent::Begin);
    bootstrap(&mut process, BootEvent::Done);
    assert_eq!(
        bootstrap(&mut process, BootEvent::DataDir(None)),
        BootAction::Abort { reason: Fatal::NoDataDir }
    );
    assert_eq!(process.phase(), BootPhase::Failed);
    assert_eq!(process.config(), None);
}

#[test]
fn a_library_that_does_not_load_is_fatal() {
    let mut process = at_library(TargetOs::Android);
    assert_eq!(
        bootstrap(&mut process, BootEvent::Library(None)),
        BootAction::Abort { reason: Fatal::LibraryNotLoaded }
    );
    assert_eq!(process.phase(), BootPhase::Failed);
    assert_eq!(process.lua(), None);
}

#[test]
fn a_missing_symbol_is_fatal() {
    let mut process = at_library(TargetOs::Android);
    let mut found = symbols();
    found[8] = None;
    found[11] = None;
    assert_eq!(
        bootstrap(
            &mut process,
            BootEvent::Library(Some(Lookup { symbols: found, hook_target: Some(0x7000) }))
        ),
        BootAction::Abort { reason: Fatal::MissingSymbol(8) }
    );
    assert_eq!(process.phase(), BootPhase::Failed);
    assert_eq!(process.lua(), None);
}

#[test]
fn a_missing_hook_target_is_fatal() {
    let mut process = at_library(TargetOs::Android);
    assert_eq!(
        bootstrap(
            &mut process,
            BootEvent::Library(Some(Lookup { symbols: symbols(), hook_target: None }))
        ),
        BootAction::Abort { reason: Fatal::HookTargetMissing }
    );
    assert_eq!(process.phase(), BootPhase::Failed);
    assert_eq!(process.trampoline(), None);
}

#[test]
fn a_rejected_hook_is_fatal() {
    let mut process = at_library(TargetOs::Android);
    bootstrap(&mut process, BootEvent::Library(Some(lookup())));
    assert_eq!(
        bootstrap(&mut process, BootEvent::Hooked(None)),
        BootAction::Abort { reason: Fatal::HookRejected }
    );
    assert_eq!(process.phase(), BootPhase::Failed);
    assert_eq!(process.trampoline(), None);
}

#[test]
fn an_event_out_of_order_is_fatal() {
    let mut process = Process::new(TargetOs::Android);
    bootstrap(&mut process, BootEvent::Begin);
    assert_eq!(
        bootstrap(&mut process, BootEvent::Hooked(Some(3))),
        BootAction::Abort { reason: Fatal::OutOfOrder }
    );
    assert_eq!(process.phase(), BootPhase::Failed);

    let mut process = at_library(TargetOs::Android);
    assert_eq!(
        bootstrap(&mut process, BootEvent::Done),
        BootAction::Abort { reason: Fatal::OutOfOrder }
    );
    assert_eq!(process.phase(), BootPhase::Failed);

    // The hook is never asked for before the symbols are there.
    let mut process = Process::new(TargetOs::Android);
    bootstrap(&mut process, BootEvent::Begin);
    bootstrap(&mut process, BootEvent::Done);
    assert_eq!(
        bootstrap(&mut process, BootEvent::Library(Some(lookup()))),
        BootAction::Abort { reason: Fatal::OutOfOrder }
    );
    assert_eq!(process.lua(), None);
}

#[test]
fn a_failed_process_stays_failed() {
    let mut process = at_library(TargetOs::Android);
    bootstrap(&mut process, BootEvent::Library(None));
    assert_eq!(
        bootstrap(&mut process, BootEvent::Begin),
        BootAction::Abort { reason: Fatal::AlreadyInitialized }
    );
    assert_eq!(
        bootstrap(&mut process, BootEvent::Library(Some(lookup()))),
        BootAction::Abort { reason: Fatal::OutOfOrder }
    );
    assert_eq!(process.phase(), BootPhase::Failed);
    assert_eq!(process.lua(), None);
}

#[test]
fn mods_live_below_the_data_directory() {
    assert_eq!(mod_directory("/data/files"), "/data/files/mods");
    assert_eq!(mod_directory("/data/files/"), "/data/files/mods");
    assert_eq!(mod_directory("/"), "/mods");
    assert_eq!(mod_directory(""), "mods");
    assert_eq!(mod_directory("rel"), "rel/mods");
    assert_eq!(mod_directory("/donn\u{e9}es"), "/donn\u{e9}es/mods");
    let config = Config::at_start("/sdcard/app");
    assert!(!config.dump_all);
    assert!(!config.vanilla);
    assert_eq!(config.mod_dir, Some("/sdcard/app/mods".to_string()));
}

#[test]
fn the_crash_record_names_the_extension() {
    assert_eq!(
        crash_message("panicked at src/lib.rs:1:1"),
        "lovely-injector has crashed: panicked at src/lib.rs:1:1"
    );
    assert_eq!(crash_message(""), "lovely-injector has crashed: ");
}

#[test]
fn the_crash_record_is_one_line() {
    assert_eq!(
        crash_message("panicked at src/lib.rs:1:1:\nindex out of bounds"),
        "lovely-injector has crashed: panicked at src/lib.rs:1:1: index out of bounds"
    );
    assert_eq!(crash_message("a\r\nb"), "lovely-injector has crashed: a  b");
    assert_eq!(crash_message("\n"), "lovely-injector has crashed:  ");
    assert_eq!(crash_message("\n\nx\n"), "lovely-injector has crashed:   x ");
    assert_eq!(crash_message("caf\u{e9}\nna\u{ef}ve\r"), "lovely-injector has crashed: caf\u{e9} na\u{ef}ve ");
    for info in ["", "one", "two\nlines", "\r\n\r\n", "tab\tstays\n"] {
        let record = crash_message(info);
        assert!(!record.contains('\n'));
        assert!(!record.contains('\r'));
        assert!(record.starts_with("lovely-injector has crashed: "));
        assert_eq!(record.chars().count(), 29 + info.chars().count());
    }
    assert_eq!(crash_message("tab\tstays"), "lovely-injector has crashed: tab\tstays");
}

#[test]
fn the_table_has_one_place() {
    // Installed apart from start-up, the table is the one that the process
    // holds, and nothing else of the process changes.
    let mut process = Process::new(TargetOs::Linux);
    assert_eq!(process.install_table(None), Err(InitError::LibraryNotLoaded));
    assert_eq!(process.lua(), None);
    let mut short = symbols();
    short[2] = None;
    assert_eq!(process.install_table(Some(&short)), Err(InitError::MissingSymbol(2)));
    assert_eq!(process.lua(), None);
    assert_eq!(process.install_table(Some(&symbols())), Ok(()));
    assert_eq!(process.lua().map(|table| table.lua_call), Some(0x4000));
    assert_eq!(process.phase(), BootPhase::Idle);
    assert_eq!(process.config(), None);
    assert_eq!(process.trampoline(), None);
    assert_eq!(process.install_table(Some(&symbols())), Err(InitError::AlreadyInitialized));

    // Start-up finds the table installed and does not install a second one.
    bootstrap(&mut process, BootEvent::Begin);
    bootstrap(&mut process, BootEvent::Done);
    bootstrap(&mut process, BootEvent::DataDir(Some("/data".to_string())));
    let other: Vec<Option<usize>> = (0..SYMBOL_COUNT).map(|i| Some(0x9000 + i)).collect();
    assert_eq!(
        bootstrap(
            &mut process,
            BootEvent::Library(Some(Lookup { symbols: other, hook_target: Some(0x7000) }))
        ),
        BootAction::Abort { reason: Fatal::AlreadyInitialized }
    );
    assert_eq!(process.lua().map(|table| table.lua_call), Some(0x4000));

    // After start-up the table stays the one that start-up installed.
    let mut process = ready();
    let table = process.lua();
    let other: Vec<Option<usize>> = (0..SYMBOL_COUNT).map(|i| Some(0x9000 + i)).collect();
    assert_eq!(process.install_table(Some(&other)), Err(InitError::AlreadyInitialized));
    assert_eq!(process.lua(), table);
    assert_eq!(process.phase(), BootPhase::Ready);
    assert_eq!(process.trampoline(), Some(0x7700));
}
