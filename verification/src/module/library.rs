//! An opened Lean library: the classification of its exported symbols, and the
//! verdicts on symbol lookups.
//!
//! Lean compiles a nullary constant to a global variable and everything else to
//! a function. The two are told apart by the kind of the section that holds the
//! symbol, before the dynamic loader sees the file.

use vstd::prelude::*;
use vstd::string::*;

use crate::error::io::io_outcome;
use crate::error::{
    LeanError, LeanErrorView, LeanResult, linking_error, module_init_error, symbol_lookup_error,
};
use crate::module::initializer::{
    InitializerName, InitializerNameView, InitializerRun, call_initializer, initializer_name,
    initializer_outcome, lake_names_error,
};
use crate::module::loaded::LeanModule;
use crate::module::symbols::{
    SymbolEntry, SymbolEntryView, SymbolSet, distinct_names,
    distinct_names_keep_each_once, entries, normalise_symbol_name,
    normalised, object_format, object_refusal, object_symbols, prefixes_underscore,
    read_object_format, read_object_symbols, refused_object, strips_underscore,
};
use crate::text::{cat4, cat6, same_text};

verus! {

/// Whether a section of the kind holds data rather than code.
pub open spec fn data_section(kind: Seq<char>) -> bool {
    ||| kind == "Data"@
    ||| kind == "ReadOnlyData"@
    ||| kind == "ReadOnlyDataWithRel"@
    ||| kind == "UninitializedData"@
    ||| kind == "Common"@
    ||| kind == "Tls"@
    ||| kind == "UninitializedTls"@
}

/// Whether a section of the kind holds data rather than code.
pub fn is_data_section(kind: &str) -> (r: bool)
    ensures
        r == data_section(kind@),
{
    same_text(kind, "Data") || same_text(kind, "ReadOnlyData") || same_text(
        kind,
        "ReadOnlyDataWithRel",
    ) || same_text(kind, "UninitializedData") || same_text(kind, "Common") || same_text(
        kind,
        "Tls",
    ) || same_text(kind, "UninitializedTls")
}

/// The name of the global variable that a symbol table entry defines.
pub open spec fn global_name(entry: SymbolEntryView, strip: bool) -> Option<Seq<char>> {
    match (entry.section_kind, entry.name) {
        (Some(kind), Some(name)) => if entry.global && !entry.undefined && data_section(kind)
            && normalised(name, strip).len() > 0 {
            Some(normalised(name, strip))
        } else {
            None
        },
        _ => None,
    }
}

/// The names of the global variables that a symbol table defines.
pub open spec fn global_names(table: Seq<SymbolEntryView>, strip: bool) -> Seq<Seq<char>> {
    distinct_names(table.map_values(|e: SymbolEntryView| global_name(e, strip)))
}

/// The outcome of classifying the symbols of a library, given the outcome of
/// reading its file.
pub open spec fn classified_globals(path: Seq<char>, read: Result<Seq<u8>, Seq<char>>) -> Result<
    Seq<Seq<char>>,
    Seq<char>,
> {
    match read {
        Err(text) => Err("failed to read Lean library '"@ + path + "': "@ + text),
        Ok(bytes) => match object_refusal(bytes) {
            Some(text) => Err("failed to parse object file '"@ + path + "': "@ + text),
            None => Ok(
                global_names(object_symbols(bytes), prefixes_underscore(object_format(bytes))),
            ),
        },
    }
}

/// The mathematical value of the outcome of reading a file.
pub open spec fn bytes_or_text(read: Result<Vec<u8>, String>) -> Result<Seq<u8>, Seq<char>> {
    match read {
        Ok(bytes) => Ok(bytes@),
        Err(text) => Err(text@),
    }
}

/// Gathers the global variables that a symbol table of the given file format
/// defines.
pub fn classify_symbols(format: &str, table: &Vec<SymbolEntry>) -> (r: SymbolSet)
    ensures
        r@ == global_names(entries(table@), prefixes_underscore(format@)),
{
    let strip: bool = strips_underscore(format);
    let ghost name_of = |e: SymbolEntryView| global_name(e, strip);
    let ghost views = entries(table@);
    let mut globals: SymbolSet = SymbolSet::new();
    let mut i: usize = 0;
    assert(views.take(0).map_values(name_of) =~= Seq::empty());
    while i < table.len()
        invariant
            i <= table@.len(),
            views == entries(table@),
            name_of == (|e: SymbolEntryView| global_name(e, strip)),
            globals@ == global_names(views.take(i as int), strip),
        decreases table@.len() - i,
    {
        let entry: &SymbolEntry = &table[i];
        proof {
            let now = views.take(i as int);
            let next = views.take(i as int + 1);
            assert(next.map_values(name_of).drop_last() =~= now.map_values(name_of));
            assert(next.map_values(name_of).last() == global_name(entry@, strip));
        }
        if entry.global && !entry.undefined {
            match (&entry.section_kind, &entry.name) {
                (Some(kind), Some(name)) => {
                    if is_data_section(kind.as_str()) {
                        let clean: String = normalise_symbol_name(name.as_str(), strip);
                        if !clean.as_str().is_empty() {
                            globals.insert(clean.as_str());
                        }
                    }
                },
                _ => {},
            }
        }
        i = i + 1;
    }
    assert(views.take(views.len() as int) =~= views);
    globals
}

/// Builds the error for a library whose bytes are no object file.
pub fn unparsable_library(path: &str, text: &str) -> (r: LeanError)
    ensures
        r@ == module_init_error("failed to parse object file '"@ + path@ + "': "@ + text@),
{
    LeanError::module_init(cat4("failed to parse object file '", path, "': ", text))
}

/// Gathers the global variables that a library defines, given the outcome of
/// reading its file.
pub fn classify_globals(path: &str, read: &Result<Vec<u8>, String>) -> (r: LeanResult<SymbolSet>)
    ensures
        match classified_globals(path@, bytes_or_text(*read)) {
            Ok(names) => r matches Ok(set) && set@ == names,
            Err(message) => r matches Err(err) && err@ == module_init_error(message),
        },
{
    let bytes: &[u8] = match read {
        Err(text) => {
            return Err(
                LeanError::module_init(
                    cat4("failed to read Lean library '", path, "': ", text.as_str()),
                ),
            );
        },
        Ok(bytes) => bytes.as_slice(),
    };
    match refused_object(bytes) {
        Some(text) => Err(unparsable_library(path, text.as_str())),
        None => {
            let format: String = read_object_format(bytes);
            let table: Vec<SymbolEntry> = read_object_symbols(bytes);
            Ok(classify_symbols(format.as_str(), &table))
        },
    }
}

/// A name is classified as a global variable exactly when the table has a
/// global, defined entry of that name in a data section.
pub proof fn globals_are_defined_data_symbols(
    table: Seq<SymbolEntryView>,
    strip: bool,
    name: Seq<char>,
)
    ensures
        global_names(table, strip).contains(name) <==> exists|i: int|
            0 <= i < table.len() && global_name(#[trigger] table[i], strip) == Some(name),
        global_names(table, strip).no_duplicates(),
{
    let names = table.map_values(|e: SymbolEntryView| global_name(e, strip));
    distinct_names_keep_each_once(names);
    assert(distinct_names(names).contains(name) <==> names.contains(Some(name)));
    if names.contains(Some(name)) {
        let i = choose|i: int| 0 <= i < names.len() && names[i] == Some(name);
        assert(global_name(table[i], strip) == Some(name));
    }
    if exists|i: int| 0 <= i < table.len() && global_name(#[trigger] table[i], strip) == Some(name) {
        let i = choose|i: int|
            0 <= i < table.len() && global_name(#[trigger] table[i], strip) == Some(name);
        assert(names[i] == Some(name));
    }
}

/// Mathematical value of a [`LeanLibrary`].
pub struct LeanLibraryView {
    pub path: Seq<char>,
    pub globals: Seq<Seq<char>>,
}

/// A library that the dynamic loader has opened.
#[derive(Debug)]
pub struct LeanLibrary {
    path: String,
    globals: SymbolSet,
}

impl View for LeanLibrary {
    type V = LeanLibraryView;

    closed spec fn view(&self) -> LeanLibraryView {
        LeanLibraryView { path: self.path@, globals: self.globals@ }
    }
}

impl LeanLibrary {
    /// Records a library whose symbols were classified, given whether the
    /// dynamic loader opened it.
    pub fn open(path: String, globals: SymbolSet, opened: Result<(), String>) -> (r: LeanResult<
        LeanLibrary,
    >)
        ensures
            match opened {
                Ok(()) => r matches Ok(library) && library@ == (LeanLibraryView {
                    path: path@,
                    globals: globals@,
                }),
                Err(text) => r matches Err(err) && err@ == module_init_error(
                    "failed to open Lean library '"@ + path@ + "': "@ + text@,
                ),
            },
    {
        match opened {
            Ok(()) => Ok(LeanLibrary { path, globals }),
            Err(text) => Err(
                LeanError::module_init(
                    cat4("failed to open Lean library '", path.as_str(), "': ", text.as_str()),
                ),
            ),
        }
    }

    /// Where the library lies.
    pub fn path(&self) -> (r: &str)
        ensures
            r@ == self@.path,
    {
        self.path.as_str()
    }

    /// The global variables that the library defines.
    pub fn globals(&self) -> (r: &SymbolSet)
        ensures
            r@ == self@.globals,
    {
        &self.globals
    }

    /// Judges the loader's answer to the lookup of a function.
    pub fn resolve_function_symbol(&self, name: &str, found: Result<usize, String>) -> (r:
        LeanResult<usize>)
        ensures
            match found {
                Ok(address) => r == Ok::<usize, LeanError>(address),
                Err(text) => r matches Err(err) && err@ == unknown_function_error(
                    name@,
                    self@.path,
                    text@,
                ),
            },
    {
        match found {
            Ok(address) => Ok(address),
            Err(text) => Err(
                LeanError::symbol_lookup(
                    cat6(
                        "unknown exported symbol '",
                        name,
                        "' in '",
                        self.path.as_str(),
                        "': ",
                        text.as_str(),
                    ),
                ),
            ),
        }
    }

    /// Judges the loader's answer to the lookup of a function that may be
    /// absent.
    pub fn resolve_optional_function_symbol(&self, found: Result<usize, String>) -> (r: Option<
        usize,
    >)
        ensures
            r == (match found {
                Ok(address) => Some(address),
                Err(_) => None,
            }),
    {
        match found {
            Ok(address) => Some(address),
            Err(_) => None,
        }
    }

    /// Judges the loader's answer to the lookup of a global variable.
    pub fn resolve_global_symbol(&self, name: &str, found: Result<usize, String>) -> (r: LeanResult<
        usize,
    >)
        ensures
            match found {
                Ok(address) => r == Ok::<usize, LeanError>(address),
                Err(text) => r matches Err(err) && err@ == unknown_global_error(
                    name@,
                    self@.path,
                    text@,
                ),
            },
    {
        match found {
            Ok(address) => Ok(address),
            Err(text) => Err(
                LeanError::symbol_lookup(
                    cat6(
                        "unknown global symbol '",
                        name,
                        "' in '",
                        self.path.as_str(),
                        "': ",
                        text.as_str(),
                    ),
                ),
            ),
        }
    }

    /// Judges the loader's answer to the lookup of a module initializer.
    pub fn lookup_initializer(&self, name: &InitializerName, found: Result<usize, String>) -> (r:
        LeanResult<usize>)
        ensures
            match found {
                Ok(address) => r == Ok::<usize, LeanError>(address),
                Err(text) => r matches Err(err) && err@ == missing_initializer_error(
                    name@.symbol,
                    self@.path,
                    text@,
                ),
            },
    {
        match found {
            Ok(address) => Ok(address),
            Err(text) => Err(
                LeanError::linking(
                    cat6(
                        "missing initializer symbol '",
                        name.symbol_str(),
                        "' in '",
                        self.path.as_str(),
                        "': ",
                        text.as_str(),
                    ),
                ),
            ),
        }
    }
}

/// What the initialization of a module came to outside: the loader's answer, and
/// how the initializer's call ended.
#[derive(Debug)]
pub enum InitializerCall {
    /// The loader did not find the initializer.
    Missing(String),
    /// The initializer was called.
    Ran(InitializerRun),
}

/// What the initialization of a module comes to.
pub open spec fn initialized(
    path: Seq<char>,
    package: Seq<char>,
    module: Seq<char>,
    call: InitializerCall,
) -> Result<InitializerNameView, LeanErrorView> {
    match lake_names_error(package, module) {
        Some(message) => Err(linking_error(message)),
        None => {
            let name = initializer_name(package, module);
            match call {
                InitializerCall::Missing(text) => Err(
                    missing_initializer_error(name.symbol, path, text@),
                ),
                InitializerCall::Ran(run) => match initializer_outcome(name.display, run) {
                    Ok(()) => Ok(name),
                    Err(err) => Err(err),
                },
            }
        },
    }
}

impl LeanLibrary {
    /// Judges the initialization of a module: its names, the lookup of its
    /// initializer, and the initializer's call, in that order.
    pub fn initialize_module<'lib>(
        &'lib self,
        package: &str,
        module: &str,
        call: InitializerCall,
    ) -> (r: LeanResult<LeanModule<'lib>>)
        ensures
            match initialized(self@.path, package@, module@, call) {
                Ok(name) => r matches Ok(m) && m.spec_library() == *self && m.spec_initializer()
                    == name,
                Err(err) => r matches Err(e) && e@ == err,
            },
    {
        let name: InitializerName = match InitializerName::from_lake_names(package, module) {
            Ok(name) => name,
            Err(err) => {
                return Err(err);
            },
        };
        let run: InitializerRun = match call {
            InitializerCall::Missing(text) => {
                return match self.lookup_initializer(&name, Err(text)) {
                    Ok(_) => Ok(LeanModule::new(self, name)),
                    Err(err) => Err(err),
                };
            },
            InitializerCall::Ran(run) => run,
        };
        match call_initializer(&name, run) {
            Ok(()) => Ok(LeanModule::new(self, name)),
            Err(err) => Err(err),
        }
    }
}

/// The error of a function that the library does not export.
pub open spec fn unknown_function_error(
    name: Seq<char>,
    path: Seq<char>,
    text: Seq<char>,
) -> LeanErrorView {
    symbol_lookup_error("unknown exported symbol '"@ + name + "' in '"@ + path + "': "@ + text)
}

/// The error of a global variable that the library does not export.
pub open spec fn unknown_global_error(
    name: Seq<char>,
    path: Seq<char>,
    text: Seq<char>,
) -> LeanErrorView {
    symbol_lookup_error("unknown global symbol '"@ + name + "' in '"@ + path + "': "@ + text)
}

/// The error of a module initializer that the library does not export.
pub open spec fn missing_initializer_error(
    symbol: Seq<char>,
    path: Seq<char>,
    text: Seq<char>,
) -> LeanErrorView {
    linking_error("missing initializer symbol '"@ + symbol + "' in '"@ + path + "': "@ + text)
}

/// A global, defined symbol with a readable name in a data section is a global
/// variable: initialised data, read-only data with or without relocations,
/// uninitialised data, common data and both kinds of thread-local data count as
/// such. It is found by the name that the source gave it, which is the name without
/// the underscore that Mach-O and Wasm put in front.
pub proof fn data_symbols_are_global_variables(
    table: Seq<SymbolEntryView>,
    format: Seq<char>,
    i: int,
    name: Seq<char>,
)
    requires
        0 <= i < table.len(),
        table[i].global,
        !table[i].undefined,
        name.len() > 0,
        table[i].section_kind == Some("Data"@) || table[i].section_kind == Some("ReadOnlyData"@)
            || table[i].section_kind == Some("ReadOnlyDataWithRel"@) || table[i].section_kind
            == Some("UninitializedData"@) || table[i].section_kind == Some("Common"@)
            || table[i].section_kind == Some("Tls"@) || table[i].section_kind == Some(
            "UninitializedTls"@,
        ),
        source_name_of(table[i].name, format) == Some(name),
    ensures
        global_names(table, prefixes_underscore(format)).contains(name),
{
    let strip = prefixes_underscore(format);
    assert(global_name(table[i], strip) == Some(name));
    globals_are_defined_data_symbols(table, strip, name);
}

/// Nothing else is a global variable: behind every name that is found stands such a
/// symbol, and no name is found twice.
pub proof fn global_variables_are_data_symbols(
    table: Seq<SymbolEntryView>,
    format: Seq<char>,
    name: Seq<char>,
)
    requires
        global_names(table, prefixes_underscore(format)).contains(name),
    ensures
        name.len() > 0,
        global_names(table, prefixes_underscore(format)).no_duplicates(),
        exists|i: int|
            {
                &&& 0 <= i < table.len()
                &&& (#[trigger] table[i]).global
                &&& !table[i].undefined
                &&& source_name_of(table[i].name, format) == Some(name)
                &&& (table[i].section_kind == Some("Data"@) || table[i].section_kind == Some(
                    "ReadOnlyData"@,
                ) || table[i].section_kind == Some("ReadOnlyDataWithRel"@)
                    || table[i].section_kind == Some("UninitializedData"@)
                    || table[i].section_kind == Some("Common"@) || table[i].section_kind == Some(
                    "Tls"@,
                ) || table[i].section_kind == Some("UninitializedTls"@))
            },
{
    globals_are_defined_data_symbols(table, prefixes_underscore(format), name);
}

/// The name that the source gave a symbol: Mach-O and Wasm put an underscore in
/// front of it.
pub open spec fn source_name_of(name: Option<Seq<char>>, format: Seq<char>) -> Option<Seq<char>> {
    match name {
        Some(symbol) => if (format == "MachO"@ || format == "Wasm"@) && symbol.len() > 0
            && symbol[0] == '_' {
            Some(symbol.subrange(1, symbol.len() as int))
        } else {
            Some(symbol)
        },
        None => None,
    }
}

/// A library is classified by the symbols of the file's own format, and is refused
/// exactly where the file cannot be read or is no object file.
pub proof fn classification_follows_the_file(path: Seq<char>, read: Result<Vec<u8>, String>)
    ensures
        classified_globals(path, bytes_or_text(read)) is Ok <==> (read matches Ok(bytes)
            && object_refusal(bytes@) is None),
        read matches Ok(bytes) ==> (classified_globals(path, bytes_or_text(read)) matches Ok(
            names,
        ) ==> names == global_names(
            object_symbols(bytes@),
            prefixes_underscore(object_format(bytes@)),
        )),
{
}

/// A module counts as initialized exactly when its names are accepted, its
/// initializer was found, and the initializer's `IO` action came back with success;
/// rejected names are reported whatever happened outside.
pub proof fn initialization_needs_every_step(
    path: Seq<char>,
    package: Seq<char>,
    module: Seq<char>,
    call: InitializerCall,
)
    ensures
        initialized(path, package, module, call) is Ok <==> lake_names_error(package, module) is None
            && (call matches InitializerCall::Ran(InitializerRun::Returned(result)) && io_outcome(
            result,
        ) is Ok),
        initialized(path, package, module, call) matches Ok(name) ==> name == initializer_name(
            package,
            module,
        ),
        lake_names_error(package, module) matches Some(message) ==> initialized(
            path,
            package,
            module,
            call,
        ) == Err::<InitializerNameView, LeanErrorView>(linking_error(message)),
{
}

/// A symbol that the loader does not find is reported by its name, its library and the
/// loader's message: functions and global variables as failed lookups, initializers as
/// failures to link.
pub proof fn missing_symbols_are_named(name: Seq<char>, path: Seq<char>, text: Seq<char>)
    ensures
        unknown_function_error(name, path, text) == symbol_lookup_error(
            "unknown exported symbol '"@ + name + "' in '"@ + path + "': "@ + text,
        ),
        unknown_global_error(name, path, text) == symbol_lookup_error(
            "unknown global symbol '"@ + name + "' in '"@ + path + "': "@ + text,
        ),
        missing_initializer_error(name, path, text) == linking_error(
            "missing initializer symbol '"@ + name + "' in '"@ + path + "': "@ + text,
        ),
{
}

/// The kinds of sections that hold data are exactly these seven.
pub proof fn seven_kinds_of_sections_hold_data(kind: Seq<char>)
    ensures
        data_section("Data"@),
        data_section("ReadOnlyData"@),
        data_section("ReadOnlyDataWithRel"@),
        data_section("UninitializedData"@),
        data_section("Common"@),
        data_section("Tls"@),
        data_section("UninitializedTls"@),
        data_section(kind) ==> kind == "Data"@ || kind == "ReadOnlyData"@ || kind
            == "ReadOnlyDataWithRel"@ || kind == "UninitializedData"@ || kind == "Common"@ || kind
            == "Tls"@ || kind == "UninitializedTls"@,
{
}

/// A library that cannot be classified is reported by its path and by why: what came of
/// reading it, or why it is no object file.
pub proof fn unclassified_libraries_say_why(path: Seq<char>, read: Result<Vec<u8>, String>)
    ensures
        read matches Err(text) ==> classified_globals(path, bytes_or_text(read)) == Err::<
            Seq<Seq<char>>,
            Seq<char>,
        >("failed to read Lean library '"@ + path + "': "@ + text@),
        read matches Ok(bytes) ==> (object_refusal(bytes@) matches Some(text)
            ==> classified_globals(path, bytes_or_text(read)) == Err::<Seq<Seq<char>>, Seq<char>>(
            "failed to parse object file '"@ + path + "': "@ + text,
        )),
{
}

} // verus!
