//! Layout of a Lake project on disk.

use vstd::prelude::*;
use vstd::string::*;

use crate::error::{LeanError, LeanResult, module_init_error};
use crate::module::initializer::{mangled, push_mangled};
use crate::text::{cat2, cat3, cat6, chars_of};

verus! {

/// `path` with the relative `part` below it.
pub open spec fn joined_path(path: Seq<char>, part: Seq<char>) -> Seq<char> {
    if path.len() == 0 {
        part
    } else if path.last() == '/' {
        path + part
    } else {
        path + "/"@ + part
    }
}

/// Appends a relative part to a path.
pub fn join_path(path: &str, part: &str) -> (r: String)
    ensures
        r@ == joined_path(path@, part@),
{
    let chars: Vec<char> = chars_of(path);
    if chars.len() == 0 {
        part.to_owned()
    } else if chars[chars.len() - 1] == '/' {
        cat2(path, part)
    } else {
        cat3(path, "/", part)
    }
}

/// The directory that Lake puts libraries in.
pub open spec fn library_dir(root: Seq<char>) -> Seq<char> {
    joined_path(joined_path(joined_path(root, ".lake"@), "build"@), "lib"@)
}

/// The file extension of dylibs.
pub open spec fn dylib_extension(macos: bool) -> Seq<char> {
    if macos {
        "dylib"@
    } else {
        "so"@
    }
}

/// The file name of a package's shared library.
pub open spec fn dylib_name(package: Seq<char>, lib_name: Seq<char>, macos: bool) -> Seq<char> {
    "lib"@ + mangled(package) + "_"@ + lib_name + "."@ + dylib_extension(macos)
}

/// A Lake project.
#[derive(Debug)]
pub struct LakeProject {
    root: String,
}

impl LakeProject {
    /// The root directory.
    pub closed spec fn spec_root(self) -> Seq<char> {
        self.root@
    }

    /// Names the project with the given root, given whether that is a directory.
    pub fn new(root: &str, is_dir: bool) -> (r: LeanResult<LakeProject>)
        ensures
            if is_dir {
                r matches Ok(project) && project.spec_root() == root@
            } else {
                r matches Err(err) && err@ == module_init_error(
                    "Lake project root '"@ + root@ + "' does not exist or is not a directory"@,
                )
            },
    {
        if is_dir {
            Ok(LakeProject { root: root.to_owned() })
        } else {
            Err(
                LeanError::module_init(
                    cat3(
                        "Lake project root '",
                        root,
                        "' does not exist or is not a directory",
                    ),
                ),
            )
        }
    }

    fn library_dir(&self) -> (r: String)
        ensures
            r@ == library_dir(self.spec_root()),
    {
        let lake: String = join_path(self.root.as_str(), ".lake");
        let build: String = join_path(lake.as_str(), "build");
        join_path(build.as_str(), "lib")
    }

    /// Where Lake puts the shared library of a package.
    pub fn capability_dylib(&self, package: &str, lib_name: &str, macos: bool) -> (r: String)
        ensures
            r@ == joined_path(
                library_dir(self.spec_root()),
                dylib_name(package@, lib_name@, macos),
            ),
    {
        let extension: &'static str = if macos {
            "dylib"
        } else {
            "so"
        };
        let mut escaped: String = String::new();
        push_mangled(&mut escaped, package);
        assert(escaped@ =~= mangled(package@));
        let name: String = cat6("lib", escaped.as_str(), "_", lib_name, ".", extension);
        join_path(self.library_dir().as_str(), name.as_str())
    }

    /// Where Lean looks for the project's compiled modules.
    pub fn olean_search_path(&self) -> (r: String)
        ensures
            r@ == joined_path(library_dir(self.spec_root()), "lean"@),
    {
        join_path(self.library_dir().as_str(), "lean")
    }
}

/// One separator stands between a path and a part below it, whether or not the path
/// ends with one; below nothing, the part stands alone.
pub proof fn one_separator_joins_paths(path: Seq<char>, part: Seq<char>)
    ensures
        joined_path(Seq::empty(), part) == part,
        path.len() > 0 ==> joined_path(path + seq!['/'], part) == path + seq!['/'] + part,
        path.len() > 0 && path[path.len() - 1] != '/' ==> joined_path(path, part) == path
            + seq!['/'] + part,
{
    reveal_strlit("/");
    assert("/"@ =~= seq!['/']);
}

/// Below the root of a project libraries lie in `.lake/build/lib`, and the compiled
/// modules in `lean` below that. The dylib of a package is named `lib`, the package with
/// its underscores doubled, an underscore, the library and the extension of the system.
pub proof fn lake_layout(
    root: Seq<char>,
    package: Seq<char>,
    lib_name: Seq<char>,
    macos: bool,
)
    requires
        root.len() > 0,
        root[root.len() - 1] != '/',
    ensures
        library_dir(root) == root + "/.lake/build/lib"@,
        joined_path(library_dir(root), "lean"@) == root + "/.lake/build/lib/lean"@,
        joined_path(library_dir(root), dylib_name(package, lib_name, macos)) == root
            + "/.lake/build/lib/lib"@ + mangled(package) + seq!['_'] + lib_name + (if macos {
            ".dylib"@
        } else {
            ".so"@
        }),
{
    reveal_strlit("/");
    reveal_strlit(".lake");
    reveal_strlit("build");
    reveal_strlit("lib");
    reveal_strlit("lean");
    reveal_strlit("_");
    reveal_strlit(".");
    reveal_strlit("so");
    reveal_strlit("dylib");
    reveal_strlit(".so");
    reveal_strlit(".dylib");
    reveal_strlit("/.lake/build/lib");
    reveal_strlit("/.lake/build/lib/lean");
    reveal_strlit("/.lake/build/lib/lib");
    let lake = joined_path(root, ".lake"@);
    let build = joined_path(lake, "build"@);
    assert(lake.last() == 'e');
    assert(build.last() == 'd');
    assert(library_dir(root) =~= root + "/.lake/build/lib"@);
    assert(library_dir(root).last() == 'b');
    assert(joined_path(library_dir(root), "lean"@) =~= root + "/.lake/build/lib/lean"@);
    let extension = if macos {
        ".dylib"@
    } else {
        ".so"@
    };
    assert("."@ + dylib_extension(macos) =~= extension);
    let file = dylib_name(package, lib_name, macos);
    assert(file =~= "lib"@ + mangled(package) + seq!['_'] + lib_name + extension);
    assert(joined_path(library_dir(root), file) =~= root + "/.lake/build/lib/lib"@ + mangled(
        package,
    ) + seq!['_'] + lib_name + extension);
}

} // verus!
