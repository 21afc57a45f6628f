//! Symbol names of object files and sets of them.

use object::{Object, ObjectSection, ObjectSymbol};
use std::collections::HashMap;
use vstd::prelude::*;
use vstd::string::*;

use crate::text::{chars_of, optional_text, same_text, text_between, texts};

verus! {

broadcast use vstd::std_specs::hash::group_hash_axioms;

/// Mathematical value of a [`SymbolEntry`].
pub struct SymbolEntryView {
    pub name: Option<Seq<char>>,
    pub undefined: bool,
    pub global: bool,
    pub section_kind: Option<Seq<char>>,
}

/// One entry of an object file's symbol table.
#[derive(Debug)]
pub struct SymbolEntry {
    /// The symbol's name, where it is valid text.
    pub name: Option<String>,
    /// Whether the symbol is imported rather than defined.
    pub undefined: bool,
    /// Whether the symbol is visible outside its compilation unit.
    pub global: bool,
    /// Name of the kind of the section that holds the symbol, where it lies in
    /// an ordinary section, such as `Text` or `Data`.
    pub section_kind: Option<String>,
}

impl View for SymbolEntry {
    type V = SymbolEntryView;

    open spec fn view(&self) -> SymbolEntryView {
        SymbolEntryView {
            name: optional_text(self.name),
            undefined: self.undefined,
            global: self.global,
            section_kind: optional_text(self.section_kind),
        }
    }
}

/// The contents of a sequence of symbol table entries.
pub open spec fn entries(v: Seq<SymbolEntry>) -> Seq<SymbolEntryView> {
    Seq::new(v.len(), |i: int| v[i]@)
}

/// The message with which the `object` crate refuses to take `bytes` for an
/// object file; `None` where it takes them for one.
pub uninterp spec fn object_refusal(bytes: Seq<u8>) -> Option<Seq<char>>;

/// The name of the file format that the `object` crate sees in an object file.
pub uninterp spec fn object_format(bytes: Seq<u8>) -> Seq<char>;

/// The name of the architecture that the `object` crate sees in an object file.
pub uninterp spec fn object_architecture(bytes: Seq<u8>) -> Seq<char>;

/// The symbol table that the `object` crate reads from an object file.
pub uninterp spec fn object_symbols(bytes: Seq<u8>) -> Seq<SymbolEntryView>;

/// The dynamic symbol table that the `object` crate reads from an object file.
pub uninterp spec fn object_dynamic_symbols(bytes: Seq<u8>) -> Seq<SymbolEntryView>;

/// Calls `object::File::parse`: where it fails, hands out the error's message.
/// The outcome depends on the bytes alone.
#[verifier::external_body]
pub(crate) fn refused_object(bytes: &[u8]) -> (r: Option<String>)
    ensures
        optional_text(r) == object_refusal(bytes@),
{
    object::File::parse(bytes).err().map(|err| err.to_string())
}

/// Calls `object::File::format` on a file that parses, and hands out the name of
/// the variant, such as `Elf` or `MachO`. The outcome depends on the bytes alone.
#[verifier::external_body]
pub(crate) fn read_object_format(bytes: &[u8]) -> (r: String)
    requires
        object_refusal(bytes@) is None,
    ensures
        r@ == object_format(bytes@),
{
    object::File::parse(bytes).map_or_else(|err| err.to_string(), |file| format!("{:?}", file.format()))
}

/// Calls `object::File::architecture` on a file that parses, and hands out the
/// name of the variant, such as `X86_64`. The outcome depends on the bytes alone.
#[verifier::external_body]
pub(crate) fn read_object_architecture(bytes: &[u8]) -> (r: String)
    requires
        object_refusal(bytes@) is None,
    ensures
        r@ == object_architecture(bytes@),
{
    object::File::parse(bytes).map_or_else(|err| err.to_string(), |file| format!("{:?}", file.architecture()))
}

/// Calls `object::File::symbols` on a file that parses, and hands out each
/// symbol's name, its undefined and global flags, and the kind of its section.
/// The outcome depends on the bytes alone.
#[verifier::external_body]
pub(crate) fn read_object_symbols(bytes: &[u8]) -> (r: Vec<SymbolEntry>)
    requires
        object_refusal(bytes@) is None,
    ensures
        entries(r@) == object_symbols(bytes@),
{
    let Ok(file) = object::File::parse(bytes) else { return Vec::new() };
    file.symbols().map(|s| SymbolEntry {
        name: s.name().ok().map(str::to_owned),
        undefined: s.is_undefined(),
        global: s.is_global(),
        section_kind: s.section_index().and_then(|i| file.section_by_index(i).ok())
            .map(|section| format!("{:?}", section.kind())),
    }).collect()
}

/// Calls `object::File::dynamic_symbols` on a file that parses, and hands out
/// each symbol's name, its undefined and global flags, and the kind of its
/// section. The outcome depends on the bytes alone.
#[verifier::external_body]
pub(crate) fn read_object_dynamic_symbols(bytes: &[u8]) -> (r: Vec<SymbolEntry>)
    requires
        object_refusal(bytes@) is None,
    ensures
        entries(r@) == object_dynamic_symbols(bytes@),
{
    let Ok(file) = object::File::parse(bytes) else { return Vec::new() };
    file.dynamic_symbols().map(|s| SymbolEntry {
        name: s.name().ok().map(str::to_owned),
        undefined: s.is_undefined(),
        global: s.is_global(),
        section_kind: s.section_index().and_then(|i| file.section_by_index(i).ok())
            .map(|section| format!("{:?}", section.kind())),
    }).collect()
}

/// Whether symbols of the format carry a leading underscore.
pub open spec fn prefixes_underscore(format: Seq<char>) -> bool {
    format == "MachO"@ || format == "Wasm"@
}

/// Whether symbols of the format carry a leading underscore.
pub fn strips_underscore(format: &str) -> (r: bool)
    ensures
        r == prefixes_underscore(format@),
{
    same_text(format, "MachO") || same_text(format, "Wasm")
}

/// A symbol name without the underscore that its format puts in front.
pub open spec fn normalised(name: Seq<char>, strip_underscore: bool) -> Seq<char> {
    if strip_underscore && name.len() > 0 && name[0] == '_' {
        name.skip(1)
    } else {
        name
    }
}

/// Takes away the underscore that the file format puts in front of a name.
pub fn normalise_symbol_name(name: &str, strip_underscore: bool) -> (r: String)
    ensures
        r@ == normalised(name@, strip_underscore),
{
    let chars: Vec<char> = chars_of(name);
    if strip_underscore && chars.len() > 0 && chars[0] == '_' {
        let r: String = text_between(&chars, 1, chars.len());
        assert(r@ =~= name@.skip(1));
        r
    } else {
        name.to_owned()
    }
}

/// The distinct names among `names`, in the order of their first occurrence.
pub open spec fn distinct_names(names: Seq<Option<Seq<char>>>) -> Seq<Seq<char>>
    decreases names.len(),
{
    if names.len() == 0 {
        Seq::empty()
    } else {
        let before = distinct_names(names.drop_last());
        match names.last() {
            Some(name) => with_name(before, name),
            None => before,
        }
    }
}

/// `names` with `name` behind the others, unless it is there already.
pub open spec fn with_name(names: Seq<Seq<char>>, name: Seq<char>) -> Seq<Seq<char>> {
    if names.contains(name) {
        names
    } else {
        names.push(name)
    }
}

/// Collecting distinct names keeps exactly the names that occur, each once.
pub proof fn distinct_names_keep_each_once(names: Seq<Option<Seq<char>>>)
    ensures
        distinct_names(names).no_duplicates(),
        forall|name: Seq<char>|
            #![trigger distinct_names(names).contains(name)]
            distinct_names(names).contains(name) <==> names.contains(Some(name)),
    decreases names.len(),
{
    if names.len() > 0 {
        let front = names.drop_last();
        let before = distinct_names(front);
        distinct_names_keep_each_once(front);
        assert forall|name: Seq<char>|
            #![trigger distinct_names(names).contains(name)]
            distinct_names(names).contains(name) <==> names.contains(Some(name)) by {
            assert(names =~= front.push(names.last()));
            if names.contains(Some(name)) {
                let i = choose|i: int| 0 <= i < names.len() && names[i] == Some(name);
                if i < front.len() {
                    assert(front[i] == Some(name));
                    assert(before.contains(name));
                    let j = choose|j: int| 0 <= j < before.len() && before[j] == name;
                    assert(distinct_names(names)[j] == name);
                } else if !before.contains(name) {
                    assert(distinct_names(names)[before.len() as int] == name);
                }
            }
            if distinct_names(names).contains(name) {
                let j = choose|j: int|
                    0 <= j < distinct_names(names).len() && distinct_names(names)[j] == name;
                if j < before.len() {
                    assert(before[j] == name);
                    assert(before.contains(name));
                    let i = choose|i: int| 0 <= i < front.len() && front[i] == Some(name);
                    assert(names[i] == Some(name));
                } else {
                    assert(names[front.len() as int] == Some(name));
                }
            }
        }
    }
}

/// A bucket number for a name.
spec fn bucket_of(name: Seq<char>) -> int
    decreases name.len(),
{
    if name.len() == 0 {
        0
    } else {
        (bucket_of(name.drop_last()) * 31 + (name.last() as u32) as int) % 0x1_0000_0000
    }
}

fn bucket(name: &str) -> (r: u64)
    ensures
        r == bucket_of(name@),
{
    let chars: Vec<char> = chars_of(name);
    let mut r: u64 = 0;
    let mut i: usize = 0;
    while i < chars.len()
        invariant
            i <= chars@.len(),
            r == bucket_of(chars@.take(i as int)),
            r < 0x1_0000_0000,
        decreases chars@.len() - i,
    {
        proof {
            assert(chars@.take(i as int + 1).drop_last() =~= chars@.take(i as int));
        }
        let ch: char = chars[i];
        r = (r * 31 + (ch as u32) as u64) % 0x1_0000_0000;
        assert(chars@.take(i as int + 1).last() == ch);
        i = i + 1;
    }
    assert(chars@.take(chars@.len() as int) =~= name@);
    r
}

/// A set of symbol names that remembers the order in which they came.
#[derive(Debug)]
pub struct SymbolSet {
    names: Vec<String>,
    buckets: HashMap<u64, Vec<usize>>,
}

impl View for SymbolSet {
    type V = Seq<Seq<char>>;

    closed spec fn view(&self) -> Seq<Seq<char>> {
        texts(self.names@)
    }
}

impl SymbolSet {
    /// No name occurs twice, and every name is found through its bucket.
    #[verifier::type_invariant]
    spec fn well_formed(self) -> bool {
        &&& texts(self.names@).no_duplicates()
        &&& forall|i: int| 0 <= i < self.names@.len() ==> self.indexed(i)
        &&& forall|b: u64, k: int|
            self.buckets@.contains_key(b) && 0 <= k < self.buckets@[b]@.len()
                ==> (#[trigger] self.buckets@[b]@[k]) < self.names@.len()
    }

    spec fn indexed(self, i: int) -> bool {
        let b = bucket_of(self.names@[i]@) as u64;
        self.buckets@.contains_key(b) && self.buckets@[b]@.contains(i as usize)
    }

    /// Makes an empty set.
    pub fn new() -> (r: SymbolSet)
        ensures
            r@ == Seq::<Seq<char>>::empty(),
    {
        let r: SymbolSet = SymbolSet { names: Vec::new(), buckets: HashMap::new() };
        assert(r@ =~= Seq::<Seq<char>>::empty());
        r
    }

    /// The number of names.
    pub fn len(&self) -> (r: usize)
        ensures
            r == self@.len(),
    {
        self.names.len()
    }

    /// The name that came at position `i`.
    pub fn get(&self, i: usize) -> (r: &str)
        requires
            i < self@.len(),
        ensures
            r@ == self@[i as int],
    {
        self.names[i].as_str()
    }

    /// Whether the set holds `name`.
    pub fn contains(&self, name: &str) -> (r: bool)
        ensures
            r == self@.contains(name@),
    {
        proof {
            use_type_invariant(&*self);
        }
        let total: usize = self.names.len();
        let b: u64 = bucket(name);
        match self.buckets.get(&b) {
            None => {
                proof {
                    if self@.contains(name@) {
                        let i = choose|i: int| 0 <= i < self@.len() && self@[i] == name@;
                        assert(self.indexed(i));
                    }
                }
                false
            },
            Some(positions) => {
                let mut k: usize = 0;
                while k < positions.len()
                    invariant
                        k <= positions@.len(),
                        total == self.names@.len(),
                        forall|j: int|
                            0 <= j < positions@.len() ==> (#[trigger] positions@[j])
                                < self.names@.len(),
                        forall|j: int|
                            0 <= j < k ==> self.names@[(#[trigger] positions@[j]) as int]@ != name@,
                    decreases positions@.len() - k,
                {
                    let p: usize = positions[k];
                    if same_text(self.names[p].as_str(), name) {
                        assert(self@[p as int] == name@);
                        return true;
                    }
                    k = k + 1;
                }
                proof {
                    if self@.contains(name@) {
                        let i = choose|i: int| 0 <= i < self@.len() && self@[i] == name@;
                        assert(self.indexed(i));
                        let j = choose|j: int|
                            0 <= j < positions@.len() && positions@[j] == i as usize;
                        assert(self.names@[positions@[j] as int]@ == name@);
                    }
                }
                false
            },
        }
    }

    /// Adds `name` behind the others, unless it is there already.
    pub fn insert(&mut self, name: &str)
        ensures
            final(self)@ == with_name(old(self)@, name@),
    {
        if self.contains(name) {
            return;
        }
        proof {
            use_type_invariant(&*self);
        }
        let b: u64 = bucket(name);
        let ghost before = *self;
        let mut current: SymbolSet = SymbolSet::new();
        std::mem::swap(self, &mut current);
        let SymbolSet { mut names, mut buckets } = current;
        let position: usize = names.len();
        let mut positions: Vec<usize> = match buckets.remove(&b) {
            Some(positions) => positions,
            None => Vec::new(),
        };
        let ghost kept = positions@;
        positions.push(position);
        buckets.insert(b, positions);
        names.push(name.to_owned());
        proof {
            let after = SymbolSet { names, buckets };
            assert(texts(names@) =~= texts(before.names@).push(name@));
            assert forall|i: int| 0 <= i < names@.len() implies after.indexed(i) by {
                let c = bucket_of(names@[i]@) as u64;
                if i < position {
                    assert(before.indexed(i));
                    if c == b {
                        let k = choose|k: int| 0 <= k < kept.len() && kept[k] == i as usize;
                        assert(buckets@[b]@[k] == i as usize);
                    }
                } else {
                    assert(buckets@[b]@[kept.len() as int] == position);
                }
            }
        }
        *self = SymbolSet { names, buckets };
    }
}

/// A symbol table is viewed entry by entry, and an entry field by field.
pub proof fn tables_are_viewed_entry_by_entry(table: Seq<SymbolEntry>, i: int)
    requires
        0 <= i < table.len(),
    ensures
        entries(table).len() == table.len(),
        entries(table)[i].undefined == table[i].undefined,
        entries(table)[i].global == table[i].global,
        match table[i].name {
            Some(name) => entries(table)[i].name == Some(name@),
            None => entries(table)[i].name is None,
        },
        match table[i].section_kind {
            Some(kind) => entries(table)[i].section_kind == Some(kind@),
            None => entries(table)[i].section_kind is None,
        },
{
}

/// Mach-O and Wasm put one underscore in front of every name. That one is taken
/// away, and no other: a second one stays, as does any underscore in a name of
/// another format.
pub proof fn one_underscore_is_taken_away(format: Seq<char>, name: Seq<char>)
    ensures
        format == "MachO"@ || format == "Wasm"@ ==> normalised(
            seq!['_'] + name,
            prefixes_underscore(format),
        ) == name,
        name.len() == 0 || name[0] != '_' ==> normalised(name, prefixes_underscore(format)) == name,
        format != "MachO"@ && format != "Wasm"@ ==> normalised(name, prefixes_underscore(format))
            == name,
{
    assert((seq!['_'] + name).skip(1) =~= name);
}

/// Names are collected in the order of their first occurrence: what more names add
/// comes behind what the first ones gave.
pub proof fn later_names_come_behind(first: Seq<Option<Seq<char>>>, more: Seq<Option<Seq<char>>>)
    ensures
        distinct_names(first).is_prefix_of(distinct_names(first + more)),
    decreases more.len(),
{
    if more.len() == 0 {
        assert(first + more =~= first);
    } else {
        later_names_come_behind(first, more.drop_last());
        assert((first + more).drop_last() =~= first + more.drop_last());
        assert(distinct_names(first) =~= distinct_names(first + more).take(
            distinct_names(first).len() as int,
        ));
    }
}

/// Adding a name keeps the others in their order; a name that is there already is not
/// added again, and another comes last.
pub proof fn added_names_come_last(names: Seq<Seq<char>>, name: Seq<char>)
    ensures
        with_name(names, name).contains(name),
        names.contains(name) ==> with_name(names, name) == names,
        !names.contains(name) ==> with_name(names, name).drop_last() == names && with_name(
            names,
            name,
        ).last() == name,
{
    assert(names.push(name)[names.len() as int] == name);
    assert(names.push(name).drop_last() =~= names);
}

} // verus!
