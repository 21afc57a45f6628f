//! Names of Lean module initializers.
//!
//! Lake exports one initializer function per module. Its symbol is formed
//! from the package name and the dotted module name: every literal `_` of a
//! component is doubled, the components are joined by a single `_`, and
//! `initialize_` is put in front. Toolchains up to Lean 4.26 leave the package
//! out; that form is the legacy symbol.
//!
//! Names are validated before they are mangled, so that only identifiers ever
//! reach the dynamic loader.

use vstd::prelude::*;
use vstd::string::*;
use vstd::utf8::*;

use crate::error::io::{decode_io, io_outcome};
use crate::error::{
    LeanError, LeanErrorView, LeanResult, PanicPayload, linking_error, module_init_error,
};
use crate::runtime::obj::Obj;
use crate::text::{
    cat3, cat4, cat5, chars_of, lemma_split_nonempty, separator_parts_the_pieces, split_on,
    split_text, text_without_separator_is_one_piece, texts,
};

verus! {

/// Whether a component may start with `ch`.
pub open spec fn ident_start(ch: char) -> bool {
    ch == '_' || 'a' <= ch <= 'z' || 'A' <= ch <= 'Z'
}

/// Whether a component may hold `ch` behind its first character.
pub open spec fn ident_continue(ch: char) -> bool {
    ident_start(ch) || '0' <= ch <= '9'
}

/// Whether `component` is an identifier.
pub open spec fn valid_component(component: Seq<char>) -> bool {
    &&& component.len() > 0
    &&& ident_start(component[0])
    &&& forall|i: int| 0 < i < component.len() ==> ident_continue(#[trigger] component[i])
}

/// How Rust's `Debug` formatting renders a character.
pub uninterp spec fn char_debug(ch: char) -> Seq<char>;

/// Formats a character with std's `impl Debug for char`. The rendering depends
/// on the character alone; nothing more is claimed of it.
#[verifier::external_body]
fn debug_char(ch: char) -> (r: String)
    ensures
        r@ == char_debug(ch),
{
    format!("{ch:?}")
}

/// The first position at or after `from` that holds no identifier character.
pub open spec fn first_bad_char(component: Seq<char>, from: int) -> int
    decreases component.len() - from,
{
    if from >= component.len() || !ident_continue(component[from]) {
        from
    } else {
        first_bad_char(component, from + 1)
    }
}

/// Why `component` is rejected as a `kind`; `None` where it is accepted.
pub open spec fn component_error(component: Seq<char>, kind: Seq<char>) -> Option<Seq<char>> {
    if component.len() == 0 {
        Some("invalid "@ + kind + ": empty component"@)
    } else if !ident_start(component[0]) {
        Some(
            "invalid "@ + kind + " '"@ + component
                + "': first character must be ASCII letter or underscore"@,
        )
    } else if first_bad_char(component, 1) < component.len() {
        Some(
            "invalid "@ + kind + " '"@ + component + "': character "@ + char_debug(
                component[first_bad_char(component, 1)],
            ) + " is not in [A-Za-z0-9_]"@,
        )
    } else {
        None
    }
}

/// `first_bad_char` finds the first offending position, or the end.
proof fn lemma_first_bad_char(component: Seq<char>, from: int)
    requires
        0 <= from <= component.len(),
    ensures
        from <= first_bad_char(component, from) <= component.len(),
        forall|i: int|
            from <= i < first_bad_char(component, from) ==> ident_continue(#[trigger] component[i]),
        first_bad_char(component, from) < component.len() ==> !ident_continue(
            component[first_bad_char(component, from)],
        ),
    decreases component.len() - from,
{
    if from < component.len() && ident_continue(component[from]) {
        lemma_first_bad_char(component, from + 1);
    }
}

/// A component is accepted exactly when it is an identifier.
pub proof fn component_accepted_iff_identifier(component: Seq<char>, kind: Seq<char>)
    ensures
        component_error(component, kind) is None <==> valid_component(component),
{
    if component.len() > 0 {
        lemma_first_bad_char(component, 1);
    }
}

fn is_ident_start(ch: char) -> (r: bool)
    ensures
        r == ident_start(ch),
{
    ch == '_' || ('a' <= ch && ch <= 'z') || ('A' <= ch && ch <= 'Z')
}

fn is_ident_continue(ch: char) -> (r: bool)
    ensures
        r == ident_continue(ch),
{
    is_ident_start(ch) || ('0' <= ch && ch <= '9')
}

/// Builds the error for a component that holds a character, shown as `shown`,
/// that no identifier holds.
pub fn bad_character(component: &str, kind: &str, shown: &str) -> (r: LeanError)
    ensures
        r@ == linking_error(
            "invalid "@ + kind@ + " '"@ + component@ + "': character "@ + shown@
                + " is not in [A-Za-z0-9_]"@,
        ),
{
    let head: String = cat5("invalid ", kind, " '", component, "': character ");
    LeanError::linking(cat3(head.as_str(), shown, " is not in [A-Za-z0-9_]"))
}

/// Rejects a component that is no identifier.
fn validate_component(component: &str, kind: &str) -> (r: LeanResult<()>)
    ensures
        match component_error(component@, kind@) {
            None => r is Ok,
            Some(message) => r matches Err(err) && err@ == linking_error(message),
        },
{
    let chars: Vec<char> = chars_of(component);
    if chars.len() == 0 {
        return Err(LeanError::linking(cat3("invalid ", kind, ": empty component")));
    }
    if !is_ident_start(chars[0]) {
        return Err(
            LeanError::linking(
                cat5(
                    "invalid ",
                    kind,
                    " '",
                    component,
                    "': first character must be ASCII letter or underscore",
                ),
            ),
        );
    }
    let mut i: usize = 1;
    while i < chars.len()
        invariant
            1 <= i <= chars@.len(),
            chars@ == component@,
            ident_start(chars@[0]),
            first_bad_char(component@, 1) == first_bad_char(component@, i as int),
        decreases chars@.len() - i,
    {
        if !is_ident_continue(chars[i]) {
            return Err(bad_character(component, kind, debug_char(chars[i]).as_str()));
        }
        i = i + 1;
    }
    Ok(())
}

/// `component` with every `_` doubled.
pub open spec fn mangled(component: Seq<char>) -> Seq<char>
    decreases component.len(),
{
    if component.len() == 0 {
        Seq::empty()
    } else if component.last() == '_' {
        mangled(component.drop_last()).push('_').push('_')
    } else {
        mangled(component.drop_last()).push(component.last())
    }
}

/// Appends `component` to `out` with every `_` doubled.
pub fn push_mangled(out: &mut String, component: &str)
    ensures
        final(out)@ == old(out)@ + mangled(component@),
{
    let chars: Vec<char> = chars_of(component);
    let mut i: usize = 0;
    let ghost start = out@;
    assert(out@ =~= start + mangled(chars@.take(0)));
    while i < chars.len()
        invariant
            i <= chars@.len(),
            out@ == start + mangled(chars@.take(i as int)),
        decreases chars@.len() - i,
    {
        let ch: char = chars[i];
        proof {
            assert(chars@.take(i as int + 1).drop_last() =~= chars@.take(i as int));
        }
        if ch == '_' {
            out.push('_');
            out.push('_');
        } else {
            out.push(ch);
        }
        i = i + 1;
        assert(out@ =~= start + mangled(chars@.take(i as int)));
    }
    assert(chars@.take(chars@.len() as int) =~= component@);
}

/// The mangled components, each behind a `_`.
pub open spec fn mangled_path(components: Seq<Seq<char>>) -> Seq<char>
    decreases components.len(),
{
    if components.len() == 0 {
        Seq::empty()
    } else {
        mangled_path(components.drop_last()).push('_') + mangled(components.last())
    }
}

/// Why the first rejected component at or after `from` is rejected.
pub open spec fn path_error(components: Seq<Seq<char>>, from: int) -> Option<Seq<char>>
    decreases components.len() - from,
{
    if from >= components.len() {
        None
    } else {
        match component_error(components[from], "module component"@) {
            Some(message) => Some(message),
            None => path_error(components, from + 1),
        }
    }
}

/// Why the pair of a package and a dotted module name is rejected.
pub open spec fn lake_names_error(package: Seq<char>, module: Seq<char>) -> Option<Seq<char>> {
    match component_error(package, "package name"@) {
        Some(message) => Some(message),
        None => path_error(split_on(module, '.'), 0),
    }
}

/// The initializer symbol of a module.
pub open spec fn initializer_symbol(package: Seq<char>, module: Seq<char>) -> Seq<char> {
    "initialize_"@ + mangled(package) + mangled_path(split_on(module, '.'))
}

/// The initializer symbol of a module on toolchains that leave the package out.
pub open spec fn legacy_initializer_symbol(module: Seq<char>) -> Seq<char> {
    "initialize"@ + mangled_path(split_on(module, '.'))
}

/// How a module is shown in diagnostics.
pub open spec fn module_display(package: Seq<char>, module: Seq<char>) -> Seq<char> {
    package + "::"@ + module
}

/// Mathematical value of an [`InitializerName`].
pub struct InitializerNameView {
    pub symbol: Seq<char>,
    pub legacy_symbol: Seq<char>,
    pub display: Seq<char>,
}

/// The validated and mangled name of a pair of a package and a module.
pub open spec fn initializer_name(package: Seq<char>, module: Seq<char>) -> InitializerNameView {
    InitializerNameView {
        symbol: initializer_symbol(package, module),
        legacy_symbol: legacy_initializer_symbol(module),
        display: module_display(package, module),
    }
}

/// The symbol of a module initializer, with its form for diagnostics.
#[derive(Debug, PartialEq, Eq, Hash)]
pub struct InitializerName {
    symbol: String,
    symbol_bytes: Vec<u8>,
    legacy_symbol: String,
    display: String,
}

impl View for InitializerName {
    type V = InitializerNameView;

    closed spec fn view(&self) -> InitializerNameView {
        InitializerNameView {
            symbol: self.symbol@,
            legacy_symbol: self.legacy_symbol@,
            display: self.display@,
        }
    }
}

impl Clone for InitializerName {
    fn clone(&self) -> (r: InitializerName)
        ensures
            r@ == self@,
    {
        let mut symbol_bytes: Vec<u8> = self.symbol.as_str().as_bytes_vec();
        symbol_bytes.push(0);
        InitializerName {
            symbol: self.symbol.clone(),
            symbol_bytes,
            legacy_symbol: self.legacy_symbol.clone(),
            display: self.display.clone(),
        }
    }
}

impl InitializerName {
    #[verifier::type_invariant]
    spec fn well_formed(self) -> bool {
        self.symbol_bytes@ == encode_utf8(self.symbol@).push(0)
    }

    /// Validates and mangles a package name and a dotted module name.
    pub fn from_lake_names(package: &str, module: &str) -> (r: LeanResult<InitializerName>)
        ensures
            match lake_names_error(package@, module@) {
                Some(message) => r matches Err(err) && err@ == linking_error(message),
                None => r matches Ok(name) && name@ == initializer_name(package@, module@),
            },
    {
        match validate_component(package, "package name") {
            Err(err) => {
                return Err(err);
            },
            Ok(()) => {},
        }
        let display: String = cat3(package, "::", module);
        let mut symbol: String = "initialize_".to_owned();
        push_mangled(&mut symbol, package);
        let mut legacy_symbol: String = "initialize".to_owned();
        let components: Vec<String> = split_text(module, '.');
        let ghost pieces = texts(components@);
        let ghost head = symbol@;
        let ghost legacy_head = legacy_symbol@;
        let mut i: usize = 0;
        assert(symbol@ =~= head + mangled_path(pieces.take(0)));
        assert(legacy_symbol@ =~= legacy_head + mangled_path(pieces.take(0)));
        while i < components.len()
            invariant
                i <= components@.len(),
                pieces == texts(components@),
                pieces == split_on(module@, '.'),
                path_error(pieces, 0) == path_error(pieces, i as int),
                component_error(package@, "package name"@) is None,
                symbol@ == head + mangled_path(pieces.take(i as int)),
                legacy_symbol@ == legacy_head + mangled_path(pieces.take(i as int)),
            decreases components@.len() - i,
        {
            let component: &str = components[i].as_str();
            assert(pieces[i as int] == component@);
            match validate_component(component, "module component") {
                Err(err) => {
                    return Err(err);
                },
                Ok(()) => {},
            }
            symbol.push('_');
            push_mangled(&mut symbol, component);
            legacy_symbol.push('_');
            push_mangled(&mut legacy_symbol, component);
            proof {
                assert(pieces.take(i as int + 1).drop_last() =~= pieces.take(i as int));
            }
            i = i + 1;
            assert(symbol@ =~= head + mangled_path(pieces.take(i as int)));
            assert(legacy_symbol@ =~= legacy_head + mangled_path(pieces.take(i as int)));
        }
        assert(pieces.take(pieces.len() as int) =~= pieces);
        let mut symbol_bytes: Vec<u8> = symbol.as_str().as_bytes_vec();
        symbol_bytes.push(0);
        Ok(InitializerName { symbol, symbol_bytes, legacy_symbol, display })
    }

    /// The symbol's bytes with a terminating NUL, as the loader takes them.
    pub fn symbol_bytes(&self) -> (r: &[u8])
        ensures
            r@ == encode_utf8(self@.symbol).push(0),
    {
        proof {
            use_type_invariant(&*self);
        }
        self.symbol_bytes.as_slice()
    }

    /// The symbol.
    pub fn symbol_str(&self) -> (r: &str)
        ensures
            r@ == self@.symbol,
    {
        self.symbol.as_str()
    }

    /// The symbol on toolchains that leave the package out.
    pub fn legacy_symbol_str(&self) -> (r: &str)
        ensures
            r@ == self@.legacy_symbol,
    {
        self.legacy_symbol.as_str()
    }

    /// The form `package::Module.Path` for diagnostics.
    pub fn display(&self) -> (r: &str)
        ensures
            r@ == self@.display,
    {
        self.display.as_str()
    }
}

/// Whether every character of `s` may stand in an identifier.
pub open spec fn identifier_chars(s: Seq<char>) -> bool {
    forall|i: int| 0 <= i < s.len() ==> ident_continue(#[trigger] s[i])
}

proof fn lemma_mangled_chars(component: Seq<char>)
    requires
        identifier_chars(component),
    ensures
        identifier_chars(mangled(component)),
    decreases component.len(),
{
    if component.len() > 0 {
        lemma_mangled_chars(component.drop_last());
        assert(ident_continue(component[component.len() - 1]));
    }
}

proof fn lemma_mangled_path_chars(components: Seq<Seq<char>>)
    requires
        forall|i: int| 0 <= i < components.len() ==> valid_component(#[trigger] components[i]),
    ensures
        identifier_chars(mangled_path(components)),
    decreases components.len(),
{
    if components.len() > 0 {
        let front = components.drop_last();
        assert forall|i: int| 0 <= i < front.len() implies valid_component(#[trigger] front[i]) by {
            assert(front[i] == components[i]);
        }
        lemma_mangled_path_chars(front);
        assert(valid_component(components[components.len() - 1]));
        lemma_mangled_chars(components.last());
    }
}

proof fn lemma_path_error(components: Seq<Seq<char>>, from: int)
    requires
        0 <= from <= components.len(),
    ensures
        path_error(components, from) is None <==> forall|i: int|
            from <= i < components.len() ==> valid_component(#[trigger] components[i]),
    decreases components.len() - from,
{
    if from < components.len() {
        component_accepted_iff_identifier(components[from], "module component"@);
        lemma_path_error(components, from + 1);
        if path_error(components, from) is None {
            assert forall|i: int| from <= i < components.len() implies valid_component(
                #[trigger] components[i],
            ) by {
                if i > from {
                    assert(path_error(components, from + 1) is None);
                }
            }
        } else if component_error(components[from], "module component"@) is None {
            let i = choose|i: int|
                from + 1 <= i < components.len() && !valid_component(#[trigger] components[i]);
            assert(!valid_component(components[i]));
        }
    }
}

/// A package and a module name are accepted exactly when the package name and
/// every dot-separated component of the module name are identifiers.
pub proof fn lake_names_accepted_iff_identifiers(package: Seq<char>, module: Seq<char>)
    ensures
        lake_names_error(package, module) is None <==> valid_component(package) && forall|i: int|
            0 <= i < split_on(module, '.').len() ==> valid_component(
                #[trigger] split_on(module, '.')[i],
            ),
{
    component_accepted_iff_identifier(package, "package name"@);
    lemma_path_error(split_on(module, '.'), 0);
}

/// Only identifiers reach the loader: the symbols of an accepted name start
/// with `initialize_` and hold identifier characters alone, hence no NUL.
pub proof fn initializer_symbols_are_identifiers(package: Seq<char>, module: Seq<char>)
    requires
        lake_names_error(package, module) is None,
    ensures
        valid_component(initializer_symbol(package, module)),
        valid_component(legacy_initializer_symbol(module)),
        "initialize_"@.is_prefix_of(initializer_symbol(package, module)),
        "initialize_"@.is_prefix_of(legacy_initializer_symbol(module)),
        forall|i: int|
            0 <= i < encode_utf8(initializer_symbol(package, module)).len() ==> #[trigger] encode_utf8(
                initializer_symbol(package, module),
            )[i] != 0,
{
    let symbol = initializer_symbol(package, module);
    let legacy = legacy_initializer_symbol(module);
    let pieces = split_on(module, '.');
    lake_names_accepted_iff_identifiers(package, module);
    lemma_split_nonempty(module, '.');
    lemma_mangled_chars(package);
    lemma_mangled_path_chars(pieces);
    reveal_strlit("initialize_");
    reveal_strlit("initialize");
    assert("initialize_"@ =~= "initialize"@.push('_'));
    assert("initialize_"@ =~= symbol.take("initialize_"@.len() as int));
    lemma_mangled_path_starts(pieces);
    assert("initialize_"@ =~= legacy.take("initialize_"@.len() as int));
    assert(identifier_chars(symbol));
    assert(identifier_chars(legacy));
    assert(is_ascii_chars(symbol)) by {
        assert forall|i| 0 <= i < symbol.len() implies '\0' <= #[trigger] symbol[i] <= '\u{7f}' by {
            assert(ident_continue(symbol[i]));
        }
    }
    is_ascii_chars_encode_utf8(symbol);
    assert forall|i: int| 0 <= i < encode_utf8(symbol).len() implies #[trigger] encode_utf8(
        symbol,
    )[i] != 0 by {
        assert(ident_continue(symbol[i]));
    }
}

proof fn lemma_mangled_path_starts(components: Seq<Seq<char>>)
    requires
        components.len() > 0,
    ensures
        mangled_path(components).len() > 0,
        mangled_path(components)[0] == '_',
    decreases components.len(),
{
    let front = mangled_path(components.drop_last());
    if components.len() > 1 {
        lemma_mangled_path_starts(components.drop_last());
        assert(mangled_path(components)[0] == front[0]);
    } else {
        assert(front.len() == 0);
        assert(front.push('_')[0] == '_');
        assert(mangled_path(components)[0] == front.push('_')[0]);
    }
}

/// Distinct components have distinct manglings.
pub proof fn mangling_is_injective(a: Seq<char>, b: Seq<char>)
    requires
        mangled(a) == mangled(b),
    ensures
        a == b,
    decreases a.len(),
{
    if a.len() == 0 {
        assert(b.len() == 0) by {
            if b.len() > 0 {
                assert(mangled(b).len() > 0);
            }
        }
        assert(a =~= b);
    } else if b.len() == 0 {
        assert(mangled(a).len() > 0);
    } else {
        let m = mangled(a);
        assert(m.last() == a.last());
        assert(m.last() == b.last());
        if a.last() == '_' {
            assert(m.drop_last().drop_last() =~= mangled(a.drop_last()));
            assert(m.drop_last().drop_last() =~= mangled(b.drop_last()));
        } else {
            assert(m.drop_last() =~= mangled(a.drop_last()));
            assert(m.drop_last() =~= mangled(b.drop_last()));
        }
        mangling_is_injective(a.drop_last(), b.drop_last());
        assert(a =~= a.drop_last().push(a.last()));
        assert(b =~= b.drop_last().push(b.last()));
    }
}

/// The flag that initializers are called with: install the module's persistent
/// objects and runtime tables, as an embedder of compiled code does.
pub const BUILTIN_RUNTIME: u8 = 1;

/// How the call of a module initializer ended.
#[derive(Debug)]
pub enum InitializerRun {
    /// The call panicked.
    Panicked(PanicPayload),
    /// The initializer returned a null pointer.
    Null,
    /// The initializer returned the result of its `IO` action.
    Returned(Obj),
}

/// What the call of an initializer comes to.
pub open spec fn initializer_outcome(display: Seq<char>, run: InitializerRun) -> Result<
    (),
    LeanErrorView,
> {
    match run {
        InitializerRun::Panicked(payload) => Err(module_init_error(payload.rendered())),
        InitializerRun::Null => Err(
            module_init_error(
                "module '"@ + display + "' initializer returned a null IO result pointer"@,
            ),
        ),
        InitializerRun::Returned(result) => match io_outcome(result) {
            Ok(_) => Ok(()),
            Err(LeanErrorView::LeanException { message, .. }) => Err(
                module_init_error("module '"@ + display + "' initializer raised: "@ + message),
            ),
            Err(other) => Err(other),
        },
    }
}

/// Judges the call of an initializer: an exception that Lean raised becomes a
/// failure to load the module.
pub fn call_initializer(name: &InitializerName, run: InitializerRun) -> (r: LeanResult<()>)
    ensures
        match initializer_outcome(name@.display, run) {
            Ok(()) => r is Ok,
            Err(err) => r matches Err(e) && e@ == err,
        },
{
    match run {
        InitializerRun::Panicked(payload) => Err(LeanError::module_init_panic(&payload)),
        InitializerRun::Null => Err(
            LeanError::module_init(
                cat3(
                    "module '",
                    name.display(),
                    "' initializer returned a null IO result pointer",
                ),
            ),
        ),
        InitializerRun::Returned(result) => match decode_io(result) {
            Ok(_) => Ok(()),
            Err(LeanError::LeanException(exc)) => Err(
                LeanError::module_init(
                    cat4("module '", name.display(), "' initializer raised: ", exc.message()),
                ),
            ),
            Err(other) => Err(other),
        },
    }
}

/// Mangling goes character by character: an underscore becomes two, every other
/// character stays as it is, and a text is mangled part by part.
pub proof fn mangling_doubles_underscores(a: Seq<char>, b: Seq<char>, ch: char)
    ensures
        mangled(a + b) == mangled(a) + mangled(b),
        mangled(Seq::empty()) == Seq::<char>::empty(),
        mangled(seq!['_']) == seq!['_', '_'],
        ch != '_' ==> mangled(seq![ch]) == seq![ch],
    decreases b.len(),
{
    assert(seq!['_'].drop_last() =~= Seq::empty());
    assert(seq![ch].drop_last() =~= Seq::empty());
    assert(mangled(Seq::<char>::empty()).push('_').push('_') =~= seq!['_', '_']);
    assert(mangled(Seq::<char>::empty()).push(ch) =~= seq![ch]);
    if b.len() == 0 {
        assert(a + b =~= a);
        assert(mangled(a) + mangled(b) =~= mangled(a));
    } else {
        mangling_doubles_underscores(a, b.drop_last(), ch);
        assert((a + b).drop_last() =~= a + b.drop_last());
        assert(mangled(a + b) =~= mangled(a) + mangled(b));
    }
}

/// The number of underscores in a text.
pub open spec fn underscores(s: Seq<char>) -> nat {
    s.filter(|ch: char| ch == '_').len()
}

/// A mangled component is longer than the component by one character for each
/// underscore in it.
pub proof fn mangling_adds_one_for_each_underscore(component: Seq<char>)
    ensures
        mangled(component).len() == component.len() + underscores(component),
    decreases component.len(),
{
    reveal(Seq::filter);
    if component.len() > 0 {
        mangling_adds_one_for_each_underscore(component.drop_last());
    }
}

/// The initializer symbol of a module without a dot is `initialize_`, the mangled
/// package, an underscore and the mangled module. The legacy symbol is the same
/// without the package and its underscore.
pub proof fn undotted_module_symbols(package: Seq<char>, module: Seq<char>)
    requires
        forall|i: int| 0 <= i < module.len() ==> #[trigger] module[i] != '.',
    ensures
        initializer_symbol(package, module) == "initialize_"@ + mangled(package) + seq!['_']
            + mangled(module),
        legacy_initializer_symbol(module) == "initialize_"@ + mangled(module),
        module_display(package, module) == package + "::"@ + module,
{
    text_without_separator_is_one_piece(module, '.');
    lemma_mangled_single(module);
    reveal_strlit("initialize");
    reveal_strlit("initialize_");
    assert("initialize_"@ =~= "initialize"@ + seq!['_']);
    assert(initializer_symbol(package, module) =~= "initialize_"@ + mangled(package) + seq!['_']
        + mangled(module));
    assert(legacy_initializer_symbol(module) =~= "initialize_"@ + mangled(module));
}

proof fn lemma_mangled_single(component: Seq<char>)
    ensures
        mangled_path(seq![component]) == seq!['_'] + mangled(component),
{
    assert(seq![component].drop_last() =~= Seq::empty());
    assert(mangled_path(seq![component].drop_last()) =~= Seq::empty());
    assert(mangled_path(seq![component]) =~= seq!['_'] + mangled(component));
}

proof fn lemma_mangled_path_concat(a: Seq<Seq<char>>, b: Seq<Seq<char>>)
    ensures
        mangled_path(a + b) == mangled_path(a) + mangled_path(b),
    decreases b.len(),
{
    if b.len() == 0 {
        assert(a + b =~= a);
        assert(mangled_path(a) + mangled_path(b) =~= mangled_path(a));
    } else {
        lemma_mangled_path_concat(a, b.drop_last());
        assert((a + b).drop_last() =~= a + b.drop_last());
        assert(mangled_path(a + b) =~= mangled_path(a) + mangled_path(b));
    }
}

/// Every component counts, however many there are: behind a module name, a dot and
/// another component add an underscore and that component, mangled, to both symbols,
/// and are shown as they are.
pub proof fn another_component_extends_the_symbols(
    package: Seq<char>,
    module: Seq<char>,
    component: Seq<char>,
)
    requires
        forall|i: int| 0 <= i < component.len() ==> #[trigger] component[i] != '.',
    ensures
        initializer_symbol(package, module + seq!['.'] + component) == initializer_symbol(
            package,
            module,
        ) + seq!['_'] + mangled(component),
        legacy_initializer_symbol(module + seq!['.'] + component) == legacy_initializer_symbol(
            module,
        ) + seq!['_'] + mangled(component),
        module_display(package, module + seq!['.'] + component) == module_display(package, module)
            + seq!['.'] + component,
{
    let longer = module + seq!['.'] + component;
    separator_parts_the_pieces(module, component, '.');
    text_without_separator_is_one_piece(component, '.');
    lemma_mangled_path_concat(split_on(module, '.'), seq![component]);
    lemma_mangled_single(component);
    assert(initializer_symbol(package, longer) =~= initializer_symbol(package, module) + seq!['_']
        + mangled(component));
    assert(legacy_initializer_symbol(longer) =~= legacy_initializer_symbol(module) + seq!['_']
        + mangled(component));
    assert(module_display(package, longer) =~= module_display(package, module) + seq!['.']
        + component);
}

/// The symbol's length: `initialize_`, the package, and for every component one
/// character and the component, each underscore of the names counted twice. A dot
/// of the module name gives way to one underscore, and one more stands in front of
/// the first component.
pub proof fn symbol_length_counts_every_component(package: Seq<char>, module: Seq<char>)
    ensures
        initializer_symbol(package, module).len() == "initialize_"@.len() + package.len()
            + underscores(package) + 1 + module.len() + underscores(module),
        legacy_initializer_symbol(module).len() == "initialize_"@.len() + module.len()
            + underscores(module),
{
    mangling_adds_one_for_each_underscore(package);
    lemma_path_length(module);
    reveal_strlit("initialize");
    reveal_strlit("initialize_");
}

proof fn lemma_path_length(module: Seq<char>)
    ensures
        mangled_path(split_on(module, '.')).len() == 1 + module.len() + underscores(module),
    decreases module.len(),
{
    reveal(Seq::filter);
    if module.len() == 0 {
        assert(split_on(module, '.') =~= seq![Seq::<char>::empty()]);
        lemma_mangled_single(Seq::empty());
    } else {
        let front = module.drop_last();
        let before = split_on(front, '.');
        let last = module.last();
        lemma_path_length(front);
        lemma_split_nonempty(front, '.');
        if last == '.' {
            lemma_mangled_path_concat(before, seq![Seq::empty()]);
            lemma_mangled_single(Seq::empty());
            assert(before.push(Seq::empty()) =~= before + seq![Seq::<char>::empty()]);
        } else {
            let tail = before.last();
            mangling_doubles_underscores(tail, seq![last], last);
            assert(tail.push(last) =~= tail + seq![last]);
            assert(before.drop_last().push(tail.push(last)).drop_last() =~= before.drop_last());
        }
    }
}

/// Which package names are accepted, character by character: a name holds ASCII
/// letters, digits and underscores alone, starts with no digit, and is not empty.
/// A module name is accepted on the same terms between its dots.
pub proof fn accepted_names_hold_identifiers(package: Seq<char>, module: Seq<char>)
    ensures
        lake_names_error(package, module) is None <==> {
            &&& identifier_so_far(package)
            &&& package.len() > 0
            &&& forall|i: int| 0 <= i < package.len() ==> #[trigger] package[i] != '.'
            &&& identifier_so_far(module)
            &&& module.len() > 0
            &&& module.last() != '.'
        },
{
    lake_names_accepted_iff_identifiers(package, module);
    lemma_pieces_so_far(module);
    let pieces = split_on(module, '.');
    lemma_split_nonempty(module, '.');
    if lake_names_error(package, module) is None {
        assert(valid_component(pieces[pieces.len() - 1]));
        assert forall|i: int| 0 <= i < package.len() implies #[trigger] package[i] != '.' by {
            if i > 0 {
                assert(ident_continue(package[i]));
            }
        }
    }
    if identifier_so_far(package) && package.len() > 0 && forall|i: int|
        0 <= i < package.len() ==> #[trigger] package[i] != '.' {
        assert(fits_behind(package, 0));
        assert forall|i: int| 0 < i < package.len() implies ident_continue(
            #[trigger] package[i],
        ) by {
            assert(fits_behind(package, i) && package[i] != '.');
        }
        assert(valid_component(package));
    }
    if valid_component(package) {
        assert(identifier_so_far(package)) by {
            assert forall|i: int| 0 <= i < package.len() implies #[trigger] fits_behind(
                package,
                i,
            ) by {
                if i > 0 {
                    assert(ident_continue(package[i]));
                    assert(i == 1 || ident_continue(package[i - 1]));
                }
            }
        }
    }
}

/// ASCII letters and the underscore.
pub open spec fn letter_or_underscore(ch: char) -> bool {
    ||| ch as int == 0x5f
    ||| 0x41 <= ch as int <= 0x5a
    ||| 0x61 <= ch as int <= 0x7a
}

/// Whether the character at `i` may stand behind the one in front of it: a letter or
/// an underscore anywhere, a digit behind an identifier character, a dot behind an
/// identifier character.
pub open spec fn fits_behind(s: Seq<char>, i: int) -> bool {
    ||| letter_or_underscore(s[i])
    ||| (0x30 <= s[i] as int <= 0x39 || s[i] as int == 0x2e) && i > 0 && s[i - 1] as int != 0x2e
}

/// Whether every character of a dotted name may stand where it stands.
pub open spec fn identifier_so_far(s: Seq<char>) -> bool {
    forall|i: int| 0 <= i < s.len() ==> #[trigger] fits_behind(s, i)
}

proof fn lemma_pieces_so_far(module: Seq<char>)
    ensures
        ({
            let pieces = split_on(module, '.');
            let last = pieces.last();
            &&& identifier_so_far(module) <==> (forall|i: int|
                0 <= i < pieces.len() - 1 ==> valid_component(#[trigger] pieces[i])) && (last.len()
                == 0 || valid_component(last))
            &&& last.len() == 0 <==> module.len() == 0 || module.last() == '.'
        }),
    decreases module.len(),
{
    let pieces = split_on(module, '.');
    if module.len() > 0 {
        let front = module.drop_last();
        let before = split_on(front, '.');
        let ch = module.last();
        let n = front.len() as int;
        lemma_pieces_so_far(front);
        lemma_split_nonempty(front, '.');
        assert(identifier_so_far(module) <==> identifier_so_far(front) && fits_behind(module, n))
            by {
            assert forall|i: int| 0 <= i < n implies fits_behind(module, i) == #[trigger] fits_behind(
                front,
                i,
            ) by {
                assert(front[i] == module[i]);
                if i > 0 {
                    assert(front[i - 1] == module[i - 1]);
                }
            }
            if identifier_so_far(module) {
                assert forall|i: int| 0 <= i < n implies #[trigger] fits_behind(front, i) by {
                    assert(fits_behind(module, i));
                }
            }
            if identifier_so_far(front) && fits_behind(module, n) {
                assert forall|i: int| 0 <= i < module.len() implies #[trigger] fits_behind(
                    module,
                    i,
                ) by {
                    if i < n {
                        assert(fits_behind(front, i));
                    }
                }
            }
        }
        if n > 0 {
            assert(front.last() == module[n - 1]);
        }
        if ch == '.' {
            assert(pieces =~= before.push(Seq::empty()));
            assert(pieces[before.len() - 1] == before.last());
            assert forall|i: int| 0 <= i < before.len() - 1 implies pieces[i] == #[trigger] before[i] by {
            }
            if identifier_so_far(module) {
                assert forall|i: int| 0 <= i < pieces.len() - 1 implies valid_component(
                    #[trigger] pieces[i],
                ) by {
                    if i < before.len() - 1 {
                        assert(valid_component(before[i]));
                    }
                }
            }
            if forall|i: int| 0 <= i < pieces.len() - 1 ==> valid_component(#[trigger] pieces[i]) {
                assert forall|i: int| 0 <= i < before.len() - 1 implies valid_component(
                    #[trigger] before[i],
                ) by {
                    assert(valid_component(pieces[i]));
                }
                assert(valid_component(pieces[before.len() - 1]));
            }
        } else {
            let tail = before.last();
            let longer = tail.push(ch);
            assert(pieces =~= before.drop_last().push(longer));
            assert(pieces.last() == longer);
            assert(forall|i: int| 0 <= i < pieces.len() - 1 ==> #[trigger] pieces[i] == before[i]);
            assert(forall|i: int| 0 <= i < before.len() - 1 ==> #[trigger] before[i] == pieces[i]);
            if valid_component(longer) {
                if tail.len() > 0 {
                    assert(tail[0] == longer[0]);
                    assert forall|i: int| 0 < i < tail.len() implies ident_continue(
                        #[trigger] tail[i],
                    ) by {
                        assert(longer[i] == tail[i]);
                    }
                    assert(ident_continue(longer[tail.len() as int]));
                } else {
                    assert(longer[0] == ch);
                }
            }
            if (tail.len() == 0 || valid_component(tail)) && fits_behind(module, n) {
                if tail.len() > 0 {
                    assert(longer[0] == tail[0]);
                    assert forall|i: int| 0 < i < longer.len() implies ident_continue(
                        #[trigger] longer[i],
                    ) by {
                        if i < tail.len() {
                            assert(longer[i] == tail[i]);
                        }
                    }
                } else {
                    assert(longer[0] == ch);
                }
                assert(valid_component(longer));
            }
        }
    }
}

/// An accepted name carries the symbol, the legacy symbol and the form for diagnostics,
/// which is the package, two colons and the module. Initializers are called with the
/// flag one.
pub proof fn names_carry_both_symbols(package: Seq<char>, module: Seq<char>)
    ensures
        initializer_name(package, module).symbol == initializer_symbol(package, module),
        initializer_name(package, module).legacy_symbol == legacy_initializer_symbol(module),
        initializer_name(package, module).display == package + "::"@ + module,
        BUILTIN_RUNTIME == 1,
{
}

/// Names are judged from the left: a rejected package is reported before any component
/// of the module, and a rejected component before any behind it.
pub proof fn first_rejected_name_is_reported(
    package: Seq<char>,
    first: Seq<char>,
    others: Seq<char>,
)
    ensures
        component_error(package, "package name"@) matches Some(message) ==> lake_names_error(
            package,
            first,
        ) == Some(message),
        lake_names_error(package, first) is Some ==> lake_names_error(
            package,
            first + seq!['.'] + others,
        ) == lake_names_error(package, first),
        lake_names_error(package, first) is None ==> lake_names_error(
            package,
            first + seq!['.'] + others,
        ) == lake_names_error(package, others),
{
    separator_parts_the_pieces(first, others, '.');
    lemma_path_error_concat(split_on(first, '.'), split_on(others, '.'), 0);
}

proof fn lemma_path_error_concat(a: Seq<Seq<char>>, b: Seq<Seq<char>>, from: int)
    requires
        0 <= from <= a.len(),
    ensures
        path_error(a + b, from) == (match path_error(a, from) {
            Some(message) => Some(message),
            None => path_error(b, 0),
        }),
    decreases a.len() - from,
{
    if from < a.len() {
        assert((a + b)[from] == a[from]);
        lemma_path_error_concat(a, b, from + 1);
    } else {
        lemma_path_error_shift(a, b, 0);
    }
}

proof fn lemma_path_error_shift(a: Seq<Seq<char>>, b: Seq<Seq<char>>, i: int)
    requires
        0 <= i <= b.len(),
    ensures
        path_error(a + b, a.len() + i) == path_error(b, i),
    decreases b.len() - i,
{
    if i < b.len() {
        assert((a + b)[a.len() + i] == b[i]);
        lemma_path_error_shift(a, b, i + 1);
    }
}

/// A rejected component is reported with what it was to be and, unless it is empty,
/// with itself: that it is empty, that it starts with another character than a letter
/// or an underscore, or the first character in it that no identifier holds.
pub proof fn rejections_say_what_is_wrong(component: Seq<char>, what: Seq<char>, bad: int)
    requires
        0 < bad <= component.len() || component.len() == 0,
        forall|i: int|
            0 < i < bad ==> letter_or_underscore(#[trigger] component[i]) || 0x30
                <= component[i] as int <= 0x39,
        0 < bad < component.len() ==> !(letter_or_underscore(component[bad]) || 0x30
            <= component[bad] as int <= 0x39),
    ensures
        component.len() == 0 ==> component_error(component, what) == Some(
            "invalid "@ + what + ": empty component"@,
        ),
        component.len() > 0 && !letter_or_underscore(component[0]) ==> component_error(
            component,
            what,
        ) == Some(
            "invalid "@ + what + " '"@ + component
                + "': first character must be ASCII letter or underscore"@,
        ),
        component.len() > 0 && letter_or_underscore(component[0]) && bad < component.len()
            ==> component_error(component, what) == Some(
            "invalid "@ + what + " '"@ + component + "': character "@ + char_debug(component[bad])
                + " is not in [A-Za-z0-9_]"@,
        ),
        component.len() > 0 && letter_or_underscore(component[0]) && bad == component.len()
            ==> component_error(component, what) is None,
{
    if component.len() > 0 {
        let found = first_bad_char(component, 1);
        lemma_first_bad_char(component, 1);
        if found < bad {
            assert(!ident_continue(component[found]));
        } else if bad < found {
            assert(ident_continue(component[bad]));
        }
    }
}

/// An initializer succeeded exactly when it returned the result of an `IO` action that
/// did. A panic, a null pointer and an exception are failures to load the module; the
/// last two name the module, and what was raised is kept.
pub proof fn initializer_runs_are_judged(display: Seq<char>, run: InitializerRun)
    ensures
        initializer_outcome(display, run) is Ok <==> (run matches InitializerRun::Returned(result)
            && io_outcome(result) is Ok),
        run matches InitializerRun::Panicked(payload) ==> initializer_outcome(display, run) == Err::<
            (),
            LeanErrorView,
        >(module_init_error(payload.rendered())),
        run is Null ==> initializer_outcome(display, run) == Err::<(), LeanErrorView>(
            module_init_error(
                "module '"@ + display + "' initializer returned a null IO result pointer"@,
            ),
        ),
        run matches InitializerRun::Returned(result) ==> (io_outcome(result) matches Err(
            LeanErrorView::LeanException { message, .. },
        ) ==> initializer_outcome(display, run) == Err::<(), LeanErrorView>(
            module_init_error("module '"@ + display + "' initializer raised: "@ + message),
        )),
        run matches InitializerRun::Returned(result) ==> (io_outcome(result) matches Err(err)
            ==> err is Host ==> initializer_outcome(display, run) == Err::<(), LeanErrorView>(err)),
{
}

} // verus!
