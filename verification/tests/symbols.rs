//! The table of entry points and its one-time installation.

use lovely_core::symbols::{
    init_lua_library, library_name, symbol_name, InitError, LuaLib, MissingSymbol, SetOnce,
    TargetOs, SYMBOL_COUNT,
};

fn complete() -> Vec<Option<usize>> {
    (0..SYMBOL_COUNT).map(|i| Some(0x1000 + 8 * i)).collect()
}

#[test]
fn symbols_are_named_in_table_order() {
    let names: Vec<&str> = (0..SYMBOL_COUNT).map(symbol_name).collect();
    assert_eq!(
        names,
        vec![
            "lua_call",
            "lua_pcall",
            "lua_getfield",
            "lua_setfield",
            "lua_gettop",
            "lua_settop",
            "lua_pushvalue",
            "lua_pushcclosure",
            "lua_tolstring",
            "lua_toboolean",
            "lua_topointer",
            "lua_type",
            "lua_typename",
            "lua_isstring",
        ]
    );
    assert_eq!(SYMBOL_COUNT, 14);
}

#[test]
fn a_complete_lookup_gives_the_table() {
    let table = LuaLib::from_library(&complete()).unwrap();
    assert_eq!(table.lua_call, 0x1000);
    assert_eq!(table.lua_pcall, 0x1008);
    assert_eq!(table.lua_getfield, 0x1010);
    assert_eq!(table.lua_setfield, 0x1018);
    assert_eq!(table.lua_gettop, 0x1020);
    assert_eq!(table.lua_settop, 0x1028);
    assert_eq!(table.lua_pushvalue, 0x1030);
    assert_eq!(table.lua_pushcclosure, 0x1038);
    assert_eq!(table.lua_tolstring, 0x1040);
    assert_eq!(table.lua_toboolean, 0x1048);
    assert_eq!(table.lua_topointer, 0x1050);
    assert_eq!(table.lua_type, 0x1058);
    assert_eq!(table.lua_typename, 0x1060);
    assert_eq!(table.lua_isstring, 0x1068);
    for i in 0..SYMBOL_COUNT {
        assert_eq!(table.entry(i), 0x1000 + 8 * i);
    }
}

#[test]
fn further_answers_are_ignored() {
    let mut found = complete();
    found.push(None);
    found.push(Some(1));
    assert_eq!(LuaLib::from_library(&found), LuaLib::from_library(&complete()));
}

#[test]
fn the_first_missing_symbol_is_named() {
    let mut found = complete();
    found[9] = None;
    found[3] = None;
    assert_eq!(LuaLib::from_library(&found), Err(MissingSymbol { index: 3 }));
    found[3] = Some(5);
    assert_eq!(LuaLib::from_library(&found), Err(MissingSymbol { index: 9 }));
    let mut last = complete();
    last[13] = None;
    assert_eq!(LuaLib::from_library(&last), Err(MissingSymbol { index: 13 }));
}

#[test]
fn a_short_lookup_misses_its_first_absent_symbol() {
    assert_eq!(LuaLib::from_library(&Vec::new()), Err(MissingSymbol { index: 0 }));
    let mut found = complete();
    found.truncate(13);
    assert_eq!(LuaLib::from_library(&found), Err(MissingSymbol { index: 13 }));
    found.truncate(4);
    assert_eq!(LuaLib::from_library(&found), Err(MissingSymbol { index: 4 }));
}

#[test]
fn each_system_has_its_library() {
    assert_eq!(library_name(TargetOs::Windows), "lua51.dll");
    assert_eq!(library_name(TargetOs::MacOs), "../Frameworks/Lua.framework/Versions/A/Lua");
    assert_eq!(library_name(TargetOs::Linux), "libluajit-5.1.so.2");
    assert_eq!(library_name(TargetOs::Android), "liblove.so");
    assert_eq!(library_name(TargetOs::Other), "liblua5.1.so");
}

#[test]
fn a_place_is_set_once() {
    let mut place: SetOnce<u32> = SetOnce::new();
    assert!(!place.is_set());
    assert_eq!(place.get(), None);
    assert_eq!(place.set(7), Ok(()));
    assert!(place.is_set());
    assert_eq!(place.get(), Some(&7));
    assert_eq!(place.set(8), Err(8));
    assert_eq!(place.get(), Some(&7));
    assert_eq!(place.set(7), Err(7));
    assert_eq!(place.get(), Some(&7));
}

#[test]
fn the_table_is_installed_once() {
    let mut place = SetOnce::new();
    let first = complete();
    assert_eq!(init_lua_library(&mut place, Some(&first)), Ok(()));
    let installed = *place.get().unwrap();
    assert_eq!(installed.lua_call, 0x1000);

    let second: Vec<Option<usize>> = (0..SYMBOL_COUNT).map(|i| Some(0x9000 + i)).collect();
    assert_eq!(init_lua_library(&mut place, Some(&second)), Err(InitError::AlreadyInitialized));
    assert_eq!(place.get(), Some(&installed));
    assert_eq!(init_lua_library(&mut place, Some(&first)), Err(InitError::AlreadyInitialized));
    assert_eq!(place.get(), Some(&installed));
}

#[test]
fn a_failed_installation_leaves_the_place_as_it_was() {
    let mut place = SetOnce::new();
    assert_eq!(init_lua_library(&mut place, None), Err(InitError::LibraryNotLoaded));
    assert!(!place.is_set());
    let mut found = complete();
    found[6] = None;
    assert_eq!(init_lua_library(&mut place, Some(&found)), Err(InitError::MissingSymbol(6)));
    assert!(!place.is_set());
    assert_eq!(init_lua_library(&mut place, Some(&complete())), Ok(()));
    let installed = *place.get().unwrap();

    // A library that cannot be loaded, or that lacks a symbol, is reported as
    // such even when a table is installed, and does not disturb it.
    assert_eq!(init_lua_library(&mut place, None), Err(InitError::LibraryNotLoaded));
    assert_eq!(init_lua_library(&mut place, Some(&found)), Err(InitError::MissingSymbol(6)));
    assert_eq!(place.get(), Some(&installed));
}
