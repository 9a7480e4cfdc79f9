//! The table of engine entry points, and its one-time installation.
//!
//! Looking a symbol up in the engine's library is done by the caller; this
//! module says which library and which symbols to look for, turns the answers
//! into a complete table or names the first symbol that is missing, and
//! guards the process-wide table so that it is set exactly once.

use vstd::prelude::*;

verus! {

/// The number of entry points in the table.
pub const SYMBOL_COUNT: usize = 14;

/// The addresses of the engine's entry points, each under the name of its
/// symbol. There is no partial table: a value of this type holds them all.
#[derive(Debug, Clone, Copy, PartialEq, Eq, Structural)]
pub struct LuaLib {
    pub lua_call: usize,
    pub lua_pcall: usize,
    pub lua_getfield: usize,
    pub lua_setfield: usize,
    pub lua_gettop: usize,
    pub lua_settop: usize,
    pub lua_pushvalue: usize,
    pub lua_pushcclosure: usize,
    pub lua_tolstring: usize,
    pub lua_toboolean: usize,
    pub lua_topointer: usize,
    pub lua_type: usize,
    pub lua_typename: usize,
    pub lua_isstring: usize,
}

/// The names of the symbols, in the order of the table.
pub open spec fn symbol_names() -> Seq<Seq<char>> {
    seq![
        "lua_call"@,
        "lua_pcall"@,
        "lua_getfield"@,
        "lua_setfield"@,
        "lua_gettop"@,
        "lua_settop"@,
        "lua_pushvalue"@,
        "lua_pushcclosure"@,
        "lua_tolstring"@,
        "lua_toboolean"@,
        "lua_topointer"@,
        "lua_type"@,
        "lua_typename"@,
        "lua_isstring"@,
    ]
}

/// The name of the symbol at `index` of the table.
pub fn symbol_name(index: usize) -> (name: &'static str)
    requires
        index < SYMBOL_COUNT,
    ensures
        name@ == symbol_names()[index as int],
{
    match index {
        0 => "lua_call",
        1 => "lua_pcall",
        2 => "lua_getfield",
        3 => "lua_setfield",
        4 => "lua_gettop",
        5 => "lua_settop",
        6 => "lua_pushvalue",
        7 => "lua_pushcclosure",
        8 => "lua_tolstring",
        9 => "lua_toboolean",
        10 => "lua_topointer",
        11 => "lua_type",
        12 => "lua_typename",
        _ => "lua_isstring",
    }
}

/// Whether the lookup of symbol `index` gave an address.
pub open spec fn found_at(found: Seq<Option<usize>>, index: int) -> bool {
    0 <= index < found.len() && found[index] is Some
}

/// Whether every symbol of the table was found.
pub open spec fn all_found(found: Seq<Option<usize>>) -> bool {
    forall|i: int| 0 <= i < SYMBOL_COUNT ==> found_at(found, i)
}

/// Whether `index` is the first symbol of the table that was not found.
pub open spec fn first_missing(found: Seq<Option<usize>>, index: int) -> bool {
    &&& 0 <= index < SYMBOL_COUNT
    &&& !found_at(found, index)
    &&& forall|i: int| 0 <= i < index ==> found_at(found, i)
}

/// The position of the first symbol that was not found.
pub open spec fn first_missing_index(found: Seq<Option<usize>>) -> int {
    choose|index: int| first_missing(found, index)
}

/// The table that a complete lookup gives.
pub open spec fn table_of(found: Seq<Option<usize>>) -> LuaLib {
    LuaLib {
        lua_call: found[0]->0,
        lua_pcall: found[1]->0,
        lua_getfield: found[2]->0,
        lua_setfield: found[3]->0,
        lua_gettop: found[4]->0,
        lua_settop: found[5]->0,
        lua_pushvalue: found[6]->0,
        lua_pushcclosure: found[7]->0,
        lua_tolstring: found[8]->0,
        lua_toboolean: found[9]->0,
        lua_topointer: found[10]->0,
        lua_type: found[11]->0,
        lua_typename: found[12]->0,
        lua_isstring: found[13]->0,
    }
}

/// What a lookup gives: the table if it is complete, else the first symbol
/// that is missing.
pub open spec fn from_library_spec(found: Seq<Option<usize>>) -> Result<LuaLib, MissingSymbol> {
    if all_found(found) {
        Ok(table_of(found))
    } else {
        Err(MissingSymbol { index: first_missing_index(found) as usize })
    }
}

/// A symbol that the engine's library does not export: the engine is of a
/// version that this crate cannot drive.
#[derive(Debug, Clone, Copy, PartialEq, Eq, Structural)]
pub struct MissingSymbol {
    /// The position of the symbol in the table.
    pub index: usize,
}

impl LuaLib {
    /// The addresses in the order of the table.
    pub open spec fn addresses(self) -> Seq<usize> {
        seq![
            self.lua_call,
            self.lua_pcall,
            self.lua_getfield,
            self.lua_setfield,
            self.lua_gettop,
            self.lua_settop,
            self.lua_pushvalue,
            self.lua_pushcclosure,
            self.lua_tolstring,
            self.lua_toboolean,
            self.lua_topointer,
            self.lua_type,
            self.lua_typename,
            self.lua_isstring,
        ]
    }

    /// Builds the table from the result of looking each symbol up, in the
    /// order of the table: `found[i]` is the address of the symbol
    /// `symbol_name(i)`, or nothing if the library does not export it. The
    /// table is built exactly when all are there; otherwise the first that is
    /// missing is named.
    pub fn from_library(found: &Vec<Option<usize>>) -> (table: Result<LuaLib, MissingSymbol>)
        ensures
            table == from_library_spec(found@),
    {
        let mut index: usize = 0;
        while index < SYMBOL_COUNT
            invariant
                index <= SYMBOL_COUNT,
                forall|i: int| 0 <= i < index ==> found_at(found@, i),
            decreases SYMBOL_COUNT - index,
        {
            if index >= found.len() || found[index].is_none() {
                proof {
                    lemma_first_missing_is_unique(found@, index as int);
                }
                return Err(MissingSymbol { index });
            }
            index += 1;
        }
        Ok(
            LuaLib {
                lua_call: Self::address(found, 0),
                lua_pcall: Self::address(found, 1),
                lua_getfield: Self::address(found, 2),
                lua_setfield: Self::address(found, 3),
                lua_gettop: Self::address(found, 4),
                lua_settop: Self::address(found, 5),
                lua_pushvalue: Self::address(found, 6),
                lua_pushcclosure: Self::address(found, 7),
                lua_tolstring: Self::address(found, 8),
                lua_toboolean: Self::address(found, 9),
                lua_topointer: Self::address(found, 10),
                lua_type: Self::address(found, 11),
                lua_typename: Self::address(found, 12),
                lua_isstring: Self::address(found, 13),
            },
        )
    }

    fn address(found: &Vec<Option<usize>>, index: usize) -> (address: usize)
        requires
            all_found(found@),
            index < SYMBOL_COUNT,
        ensures
            address == found@[index as int]->0,
    {
        assert(found_at(found@, index as int));
        match found[index] {
            Some(address) => address,
            None => 0,
        }
    }

    /// The address of the entry point at `index` of the table.
    pub fn entry(&self, index: usize) -> (address: usize)
        requires
            index < SYMBOL_COUNT,
        ensures
            address == self.addresses()[index as int],
    {
        match index {
            0 => self.lua_call,
            1 => self.lua_pcall,
            2 => self.lua_getfield,
            3 => self.lua_setfield,
            4 => self.lua_gettop,
            5 => self.lua_settop,
            6 => self.lua_pushvalue,
            7 => self.lua_pushcclosure,
            8 => self.lua_tolstring,
            9 => self.lua_toboolean,
            10 => self.lua_topointer,
            11 => self.lua_type,
            12 => self.lua_typename,
            _ => self.lua_isstring,
        }
    }
}

/// The operating system that the host runs on.
#[derive(Debug, Clone, Copy, PartialEq, Eq, Structural)]
pub enum TargetOs {
    Windows,
    MacOs,
    Linux,
    Android,
    /// Any other system.
    Other,
}

/// The name under which the engine's library is loaded on `os`.
pub open spec fn library_name_spec(os: TargetOs) -> Seq<char> {
    match os {
        TargetOs::Windows => "lua51.dll"@,
        TargetOs::MacOs => "../Frameworks/Lua.framework/Versions/A/Lua"@,
        TargetOs::Linux => "libluajit-5.1.so.2"@,
        TargetOs::Android => "liblove.so"@,
        TargetOs::Other => "liblua5.1.so"@,
    }
}

/// The name under which the engine's library is loaded on `os`.
pub fn library_name(os: TargetOs) -> (name: &'static str)
    ensures
        name@ == library_name_spec(os),
{
    match os {
        TargetOs::Windows => "lua51.dll",
        TargetOs::MacOs => "../Frameworks/Lua.framework/Versions/A/Lua",
        TargetOs::Linux => "libluajit-5.1.so.2",
        TargetOs::Android => "liblove.so",
        TargetOs::Other => "liblua5.1.so",
    }
}

/// A place for a value that is set exactly once and never changed after.
///
/// The place is a plain value that its owner hands on. Whoever shares it
/// between threads keeps it behind a lock, so that finding it empty and
/// setting it are one step.
pub struct SetOnce<T> {
    value: Option<T>,
}

impl<T> SetOnce<T> {
    /// What the place holds.
    pub closed spec fn value(&self) -> Option<T> {
        self.value
    }

    /// An empty place.
    pub fn new() -> (place: Self)
        ensures
            place.value() is None,
    {
        SetOnce { value: None }
    }

    /// What the place holds.
    pub fn get(&self) -> (held: Option<&T>)
        ensures
            held is Some <==> self.value() is Some,
            held matches Some(value) ==> self.value() == Some(*value),
    {
        self.value.as_ref()
    }

    /// Whether the place holds a value.
    pub fn is_set(&self) -> (set: bool)
        ensures
            set == self.value() is Some,
    {
        self.value.is_some()
    }

    /// Sets the place if it is empty. A place that is set stays as it is, and
    /// the value comes back.
    pub fn set(&mut self, value: T) -> (outcome: Result<(), T>)
        ensures
            old(self).value() is None ==> outcome is Ok && final(self).value() == Some(value),
            old(self).value() is Some ==> outcome == Err::<(), T>(value) && final(self).value()
                == old(self).value(),
    {
        if self.value.is_some() {
            Err(value)
        } else {
            self.value = Some(value);
            Ok(())
        }
    }
}

/// Why the table of entry points was not installed.
#[derive(Debug, Clone, Copy, PartialEq, Eq, Structural)]
pub enum InitError {
    /// The engine's library could not be loaded.
    LibraryNotLoaded,
    /// The library does not export the symbol at this position of the table.
    MissingSymbol(usize),
    /// The table was installed before.
    AlreadyInitialized,
}

/// What installing the table does: the place afterwards, and the outcome.
/// `library` is the result of looking each symbol up, or nothing if the
/// library could not be loaded.
pub open spec fn init_lua_library_spec(
    held: Option<LuaLib>,
    library: Option<Seq<Option<usize>>>,
) -> (Option<LuaLib>, Result<(), InitError>) {
    match library {
        None => (held, Err(InitError::LibraryNotLoaded)),
        Some(found) => match from_library_spec(found) {
            Err(missing) => (held, Err(InitError::MissingSymbol(missing.index))),
            Ok(table) => if held is Some {
                (held, Err(InitError::AlreadyInitialized))
            } else {
                (Some(table), Ok(()))
            },
        },
    }
}

/// The view of a lookup result that may be absent.
pub open spec fn library_view(library: Option<&Vec<Option<usize>>>) -> Option<Seq<Option<usize>>> {
    match library {
        Some(found) => Some(found@),
        None => None,
    }
}

/// Installs the process-wide table of entry points. `library` is the result
/// of looking each symbol up in the engine's library, or nothing if the
/// library could not be loaded. The table is installed exactly when the
/// library was loaded, exports every symbol, and no table was installed
/// before; in every other case the place is left as it was.
pub fn init_lua_library(place: &mut SetOnce<LuaLib>, library: Option<&Vec<Option<usize>>>) -> (outcome:
    Result<(), InitError>)
    ensures
        (final(place).value(), outcome) == init_lua_library_spec(
            old(place).value(),
            library_view(library),
        ),
{
    match library {
        None => Err(InitError::LibraryNotLoaded),
        Some(found) => match LuaLib::from_library(found) {
            Err(missing) => Err(InitError::MissingSymbol(missing.index)),
            Ok(table) => match place.set(table) {
                Ok(()) => Ok(()),
                Err(_) => Err(InitError::AlreadyInitialized),
            },
        },
    }
}

/// There is one first missing symbol at most.
proof fn lemma_first_missing_is_unique(found: Seq<Option<usize>>, index: int)
    requires
        first_missing(found, index),
    ensures
        first_missing_index(found) == index,
        !all_found(found),
{
    let chosen = first_missing_index(found);
    assert(first_missing(found, chosen));
    if chosen < index {
        assert(found_at(found, chosen));
    } else if index < chosen {
        assert(found_at(found, index));
    }
}

/// Single initialization: once the table is installed, every further attempt
/// to install one fails and leaves the installed table as it is.
pub proof fn lemma_table_is_installed_once(
    held: Option<LuaLib>,
    first: Option<Seq<Option<usize>>>,
    second: Option<Seq<Option<usize>>>,
)
    requires
        init_lua_library_spec(held, first).1 is Ok,
    ensures
        ({
            let (after_first, _) = init_lua_library_spec(held, first);
            let (after_second, outcome) = init_lua_library_spec(after_first, second);
            &&& after_first is Some
            &&& outcome is Err
            &&& after_second == after_first
        }),
{
}

} // verus!
