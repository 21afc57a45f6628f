//! A library whose module has been initialized.

use vstd::prelude::*;

use crate::module::initializer::{InitializerName, InitializerNameView};
use crate::module::library::LeanLibrary;

verus! {

/// An initialized module of an opened library.
#[derive(Debug)]
pub struct LeanModule<'lib> {
    library: &'lib LeanLibrary,
    initializer: InitializerName,
}

impl<'lib> LeanModule<'lib> {
    /// The library that holds the module.
    pub closed spec fn spec_library(self) -> LeanLibrary {
        *self.library
    }

    /// The name of the module's initializer.
    pub closed spec fn spec_initializer(self) -> InitializerNameView {
        self.initializer@
    }

    /// Names an initialized module.
    pub(crate) fn new(library: &'lib LeanLibrary, initializer: InitializerName) -> (r: LeanModule<
        'lib,
    >)
        ensures
            r.spec_library() == *library,
            r.spec_initializer() == initializer@,
    {
        LeanModule { library, initializer }
    }

    /// The form `package::Module.Path` of the module's name.
    #[must_use]
    pub fn module_name(&self) -> (r: &str)
        ensures
            r@ == self.spec_initializer().display,
    {
        self.initializer.display()
    }

    /// The library that holds the module.
    pub fn library(&self) -> (r: &'lib LeanLibrary)
        ensures
            *r == self.spec_library(),
    {
        self.library
    }

    /// The name of the module's initializer.
    pub fn initializer(&self) -> (r: &InitializerName)
        ensures
            r@ == self.spec_initializer(),
    {
        &self.initializer
    }
}

} // verus!
