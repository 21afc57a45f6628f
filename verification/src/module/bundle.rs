//! A capability's library together with the libraries that it depends on.
//!
//! Dependencies are opened in order, each followed by its initializer where it
//! has one; the primary library comes last. The first failure ends the loading.
//! The loader below decides what to do next; opening libraries and running
//! initializers happens outside.

use vstd::prelude::*;
use vstd::string::*;

use crate::error::{LeanErrorView, LeanResult};
use crate::module::library::{InitializerCall, LeanLibrary, LeanLibraryView, initialized};
use crate::module::loaded::LeanModule;
use crate::module::manifest::{
    LeanLibraryDependency, LeanLibraryDependencyView, dependency_views,
};

verus! {

/// Mathematical value of a [`BundleAction`].
pub enum BundleActionView {
    Open { path: Seq<char>, globally: bool },
    Initialize { package: Seq<char>, module: Seq<char> },
}

/// What is to be done next.
#[derive(Debug)]
pub enum BundleAction {
    /// Open the library at a path, with its symbols visible to the libraries
    /// opened later where asked for.
    Open { path: String, globally: bool },
    /// Initialize a module of the library that was opened last.
    Initialize { package: String, module: String },
}

impl View for BundleAction {
    type V = BundleActionView;

    open spec fn view(&self) -> BundleActionView {
        match *self {
            BundleAction::Open { path, globally } => BundleActionView::Open {
                path: path@,
                globally,
            },
            BundleAction::Initialize { package, module } => BundleActionView::Initialize {
                package: package@,
                module: module@,
            },
        }
    }
}

/// What an action came to.
#[derive(Debug)]
pub enum BundleEvent {
    /// A library was to be opened.
    Opened(LeanResult<LeanLibrary>),
    /// A module of the library that was opened last was to be initialized.
    Initialized(InitializerCall),
}

/// The actions that the dependency calls for.
pub open spec fn dependency_plan(dependency: LeanLibraryDependencyView) -> Seq<BundleActionView> {
    let open = seq![
        BundleActionView::Open {
            path: dependency.path,
            globally: dependency.exports_symbols,
        },
    ];
    match dependency.initializer {
        Some(initializer) => open.push(
            BundleActionView::Initialize {
                package: initializer.package,
                module: initializer.module,
            },
        ),
        None => open,
    }
}

/// The actions that the dependencies from position `from` on and the primary
/// library call for, in order.
pub open spec fn load_plan(
    dependencies: Seq<LeanLibraryDependencyView>,
    primary_path: Seq<char>,
    from: int,
) -> Seq<BundleActionView>
    decreases dependencies.len() - from,
{
    if from >= dependencies.len() {
        seq![BundleActionView::Open { path: primary_path, globally: false }]
    } else {
        dependency_plan(dependencies[from]) + load_plan(dependencies, primary_path, from + 1)
    }
}

/// The contents of a sequence of libraries.
pub open spec fn library_views(libraries: Seq<LeanLibrary>) -> Seq<LeanLibraryView> {
    Seq::new(libraries.len(), |i: int| libraries[i]@)
}

/// A primary library and the libraries that it depends on.
#[derive(Debug)]
pub struct LeanLibraryBundle {
    primary: LeanLibrary,
    dependencies: Vec<LeanLibrary>,
}

impl LeanLibraryBundle {
    /// The primary library.
    pub closed spec fn spec_primary(self) -> LeanLibraryView {
        self.primary@
    }

    /// The dependencies, in the order in which they were opened.
    pub closed spec fn spec_dependencies(self) -> Seq<LeanLibraryView> {
        library_views(self.dependencies@)
    }

    /// Starts the loading of a primary library and the libraries that it depends
    /// on.
    pub fn open(primary_path: String, dependencies: Vec<LeanLibraryDependency>) -> (r: BundleLoader)
        ensures
            r@.dependencies == dependency_views(dependencies@),
            r@.primary_path == primary_path@,
            r@.opened.len() == 0,
            r@.pending is None,
            r@.remaining() == load_plan(dependency_views(dependencies@), primary_path@, 0),
    {
        BundleLoader { dependencies, primary_path, opened: Vec::new(), pending: None }
    }

    /// Judges the initialization of a module of the primary library.
    pub fn initialize_module<'bundle>(
        &'bundle self,
        package: &str,
        module: &str,
        call: InitializerCall,
    ) -> (r: LeanResult<LeanModule<'bundle>>)
        ensures
            match initialized(self.spec_primary().path, package@, module@, call) {
                Ok(name) => r matches Ok(m) && m.spec_library()@ == self.spec_primary()
                    && m.spec_initializer() == name,
                Err(err) => r matches Err(e) && e@ == err,
            },
    {
        self.primary.initialize_module(package, module, call)
    }

    /// The primary library.
    #[must_use]
    pub fn library(&self) -> (r: &LeanLibrary)
        ensures
            r@ == self.spec_primary(),
    {
        &self.primary
    }

    /// Number of libraries that the primary one depends on.
    #[must_use]
    pub fn dependency_count(&self) -> (r: usize)
        ensures
            r == self.spec_dependencies().len(),
    {
        self.dependencies.len()
    }
}

/// The loading of a bundle.
#[derive(Debug)]
pub struct BundleLoader {
    dependencies: Vec<LeanLibraryDependency>,
    primary_path: String,
    opened: Vec<LeanLibrary>,
    pending: Option<LeanLibrary>,
}

/// Mathematical value of a [`BundleLoader`].
pub struct BundleLoaderView {
    pub dependencies: Seq<LeanLibraryDependencyView>,
    pub primary_path: Seq<char>,
    pub opened: Seq<LeanLibraryView>,
    pub pending: Option<LeanLibraryView>,
}

impl BundleLoaderView {
    /// A library only waits for its initializer where it has one.
    pub open spec fn well_formed(self) -> bool {
        &&& self.opened.len() <= self.dependencies.len()
        &&& self.pending is Some ==> self.opened.len() < self.dependencies.len()
            && self.dependencies[self.opened.len() as int].initializer is Some
    }

    /// The actions that are still to be done, in order.
    pub open spec fn remaining(self) -> Seq<BundleActionView> {
        let n = self.opened.len() as int;
        if self.pending is Some {
            dependency_plan(self.dependencies[n]).skip(1) + load_plan(
                self.dependencies,
                self.primary_path,
                n + 1,
            )
        } else {
            load_plan(self.dependencies, self.primary_path, n)
        }
    }

    /// What the initialization that is due comes to.
    pub open spec fn judged(self, call: InitializerCall) -> Result<(), LeanErrorView> {
        let initializer = self.dependencies[self.opened.len() as int].initializer->0;
        match initialized(
            (self.pending->0).path,
            initializer.package,
            initializer.module,
            call,
        ) {
            Ok(_) => Ok(()),
            Err(err) => Err(err),
        }
    }

    /// Whether an event answers the next action.
    pub open spec fn answers(self, event: BundleEvent) -> bool {
        event is Initialized <==> self.pending is Some
    }
}

impl View for BundleLoader {
    type V = BundleLoaderView;

    closed spec fn view(&self) -> BundleLoaderView {
        BundleLoaderView {
            dependencies: dependency_views(self.dependencies@),
            primary_path: self.primary_path@,
            opened: library_views(self.opened@),
            pending: match self.pending {
                Some(library) => Some(library@),
                None => None,
            },
        }
    }
}

/// What a step of the loading came to.
#[derive(Debug)]
pub enum BundleStep {
    /// The next action is due.
    Next(BundleAction),
    /// The loading is over.
    Done(LeanResult<LeanLibraryBundle>),
}

impl BundleLoader {
    #[verifier::type_invariant]
    spec fn consistent(self) -> bool {
        self@.well_formed()
    }

    /// The action that is due.
    pub fn next_action(&self) -> (r: BundleAction)
        ensures
            self@.remaining().len() > 0,
            r@ == self@.remaining()[0],
            r is Initialize <==> self@.pending is Some,
    {
        proof {
            use_type_invariant(&*self);
        }
        let n: usize = self.opened.len();
        if n < self.dependencies.len() {
            let dependency: &LeanLibraryDependency = &self.dependencies[n];
            assert(self@.dependencies[n as int] == dependency@);
            if self.pending.is_some() {
                match dependency.module_initializer() {
                    Some(initializer) => {
                        return BundleAction::Initialize {
                            package: initializer.package_name().to_owned(),
                            module: initializer.module_name().to_owned(),
                        };
                    },
                    None => {},
                }
            }
            BundleAction::Open {
                path: dependency.path_ref().to_owned(),
                globally: dependency.exports_symbols_for_dependents(),
            }
        } else {
            BundleAction::Open { path: self.primary_path.clone(), globally: false }
        }
    }

    /// Takes the event that answers the action that was due.
    ///
    /// A failure ends the loading with its error. A success leads on to the next
    /// action of the plan; behind the last one stands the bundle.
    pub fn resume(self, event: BundleEvent) -> (r: (BundleStep, Option<BundleLoader>))
        requires
            self@.answers(event),
        ensures
            match event {
                BundleEvent::Opened(Err(err)) => r.1 is None && fails_with(r.0, err@),
                BundleEvent::Opened(Ok(library)) => if self@.opened.len()
                    == self@.dependencies.len() {
                    &&& r.1 is None
                    &&& self@.remaining().len() == 1
                    &&& r.0 matches BundleStep::Done(Ok(bundle)) && bundle.spec_primary()
                        == library@ && bundle.spec_dependencies() == self@.opened
                } else {
                    leads_on(self@, r) && ({
                        let after = (r.1->0)@;
                        let dependency = self@.dependencies[self@.opened.len() as int];
                        if dependency.initializer is Some {
                            after.pending == Some(library@) && after.opened == self@.opened
                        } else {
                            after.pending is None && after.opened == self@.opened.push(library@)
                        }
                    })
                },
                BundleEvent::Initialized(call) => match self@.judged(call) {
                    Err(err) => r.1 is None && fails_with(r.0, err),
                    Ok(()) => leads_on(self@, r) && ({
                        let after = (r.1->0)@;
                        after.pending is None && after.opened == self@.opened.push(self@.pending->0)
                    }),
                },
            },
    {
        proof {
            use_type_invariant(&self);
        }
        let ghost before = self@;
        let BundleLoader { dependencies, primary_path, opened, pending } = self;
        let n: usize = opened.len();
        let loader: BundleLoader = match event {
            BundleEvent::Opened(Err(err)) => {
                return (BundleStep::Done(Err(err)), None);
            },
            BundleEvent::Opened(Ok(library)) => {
                if n == dependencies.len() {
                    return (
                        BundleStep::Done(
                            Ok(LeanLibraryBundle { primary: library, dependencies: opened }),
                        ),
                        None,
                    );
                }
                assert(before.dependencies[n as int] == dependencies@[n as int]@);
                if dependencies[n].module_initializer().is_some() {
                    BundleLoader { dependencies, primary_path, opened, pending: Some(library) }
                } else {
                    let mut opened: Vec<LeanLibrary> = opened;
                    opened.push(library);
                    assert(library_views(opened@) =~= before.opened.push(library@));
                    BundleLoader { dependencies, primary_path, opened, pending: None }
                }
            },
            BundleEvent::Initialized(call) => {
                let mut opened: Vec<LeanLibrary> = opened;
                match pending {
                    Some(library) => {
                        assert(before.dependencies[n as int] == dependencies@[n as int]@);
                        match initialize_dependency(&library, &dependencies[n], call) {
                            Ok(()) => {},
                            Err(err) => {
                                return (BundleStep::Done(Err(err)), None);
                            },
                        }
                        opened.push(library);
                        assert(library_views(opened@) =~= before.opened.push(library@));
                    },
                    None => {},
                }
                BundleLoader { dependencies, primary_path, opened, pending: None }
            },
        };
        proof {
            let after = loader@;
            let plan = dependency_plan(before.dependencies[n as int]);
            let rest = load_plan(before.dependencies, before.primary_path, n as int + 1);
            assert(after.dependencies =~= before.dependencies);
            if before.pending is Some {
                assert(plan.skip(1).skip(1) =~= Seq::empty());
                assert((plan.skip(1) + rest).skip(1) =~= rest);
            } else if after.pending is Some {
                assert((plan + rest).skip(1) =~= plan.skip(1) + rest);
            } else {
                assert((plan + rest).skip(1) =~= rest);
            }
            assert(after.remaining() =~= before.remaining().skip(1));
        }
        let action: BundleAction = loader.next_action();
        (BundleStep::Next(action), Some(loader))
    }
}

/// Judges the initialization of a dependency's module.
fn initialize_dependency(
    library: &LeanLibrary,
    dependency: &LeanLibraryDependency,
    call: InitializerCall,
) -> (r: LeanResult<()>)
    ensures
        match dependency@.initializer {
            None => r is Ok,
            Some(initializer) => match initialized(
                library@.path,
                initializer.package,
                initializer.module,
                call,
            ) {
                Ok(_) => r is Ok,
                Err(err) => r matches Err(e) && e@ == err,
            },
        },
{
    match dependency.module_initializer() {
        None => Ok(()),
        Some(initializer) => match library.initialize_module(
            initializer.package_name(),
            initializer.module_name(),
            call,
        ) {
            Ok(_) => Ok(()),
            Err(err) => Err(err),
        },
    }
}

/// Whether a step ends the loading with the given error.
pub open spec fn fails_with(step: BundleStep, err: LeanErrorView) -> bool {
    step matches BundleStep::Done(Err(e)) && e@ == err
}

/// Whether a step leads from `before` to the next action of the plan.
pub open spec fn leads_on(
    before: BundleLoaderView,
    r: (BundleStep, Option<BundleLoader>),
) -> bool {
    &&& r.1 is Some
    &&& (r.1->0)@.dependencies == before.dependencies
    &&& (r.1->0)@.primary_path == before.primary_path
    &&& before.remaining().len() > 1
    &&& (r.1->0)@.remaining() == before.remaining().skip(1)
    &&& r.0 matches BundleStep::Next(action) && action@ == before.remaining()[1]
}

proof fn lemma_plan_len(dependencies: Seq<LeanLibraryDependencyView>, primary: Seq<char>, from: int)
    requires
        0 <= from <= dependencies.len(),
    ensures
        load_plan(dependencies, primary, from).len() >= 1,
        load_plan(dependencies, primary, from).last() == (BundleActionView::Open {
            path: primary,
            globally: false,
        }),
    decreases dependencies.len() - from,
{
    if from < dependencies.len() {
        lemma_plan_len(dependencies, primary, from + 1);
    }
}

/// The position in the plan at which the dependency at `i` is opened.
pub open spec fn plan_position(dependencies: Seq<LeanLibraryDependencyView>, i: int) -> int
    decreases i,
{
    if i <= 0 {
        0
    } else {
        plan_position(dependencies, i - 1) + dependency_plan(dependencies[i - 1]).len()
    }
}

proof fn lemma_plan_split(
    dependencies: Seq<LeanLibraryDependencyView>,
    primary: Seq<char>,
    i: int,
)
    requires
        0 <= i <= dependencies.len(),
    ensures
        0 <= plan_position(dependencies, i) <= load_plan(dependencies, primary, 0).len(),
        load_plan(dependencies, primary, 0).skip(plan_position(dependencies, i)) == load_plan(
            dependencies,
            primary,
            i,
        ),
    decreases i,
{
    let whole = load_plan(dependencies, primary, 0);
    if i > 0 {
        lemma_plan_split(dependencies, primary, i - 1);
        let before = load_plan(dependencies, primary, i - 1);
        let plan = dependency_plan(dependencies[i - 1]);
        let rest = load_plan(dependencies, primary, i);
        assert(before == plan + rest);
        assert(before.skip(plan.len() as int) =~= rest);
        assert(whole.skip(plan_position(dependencies, i)) =~= before.skip(plan.len() as int));
    } else {
        assert(whole.skip(0) =~= whole);
    }
}

/// The loading follows the plan: the primary library is opened last; every
/// dependency is opened at its position, in order, and its initializer runs right
/// after it was opened and before the next library is.
pub proof fn dependencies_come_first_and_in_order(
    dependencies: Seq<LeanLibraryDependencyView>,
    primary: Seq<char>,
    i: int,
)
    requires
        0 <= i < dependencies.len(),
    ensures
        ({
            let plan = load_plan(dependencies, primary, 0);
            let at = plan_position(dependencies, i);
            let next = plan_position(dependencies, i + 1);
            &&& plan.len() > next
            &&& plan.last() == (BundleActionView::Open { path: primary, globally: false })
            &&& plan[at] == (BundleActionView::Open {
                path: dependencies[i].path,
                globally: dependencies[i].exports_symbols,
            })
            &&& at < next
            &&& dependencies[i].initializer matches Some(init) ==> next == at + 2 && plan[at + 1]
                == (BundleActionView::Initialize { package: init.package, module: init.module })
            &&& dependencies[i].initializer is None ==> next == at + 1
        }),
{
    let plan = load_plan(dependencies, primary, 0);
    let at = plan_position(dependencies, i);
    lemma_plan_len(dependencies, primary, 0);
    lemma_plan_len(dependencies, primary, i + 1);
    lemma_plan_split(dependencies, primary, i);
    lemma_plan_split(dependencies, primary, i + 1);
    let tail = load_plan(dependencies, primary, i);
    assert(plan.skip(at) == tail);
    assert(tail == dependency_plan(dependencies[i]) + load_plan(dependencies, primary, i + 1));
    assert(plan[at] == tail[0]);
    if dependencies[i].initializer is Some {
        assert(plan[at + 1] == tail[1]);
    }
}

/// The plan for a list of dependencies starts with the first of them: it is opened,
/// with its symbols visible where it exports them, then initialized where it has an
/// initializer, and then the plan for the others follows. Without dependencies only
/// the primary library is opened, and its symbols stay its own.
pub proof fn plans_start_with_the_first_dependency(
    first: LeanLibraryDependencyView,
    others: Seq<LeanLibraryDependencyView>,
    primary: Seq<char>,
)
    ensures
        load_plan(Seq::empty(), primary, 0) == seq![
            BundleActionView::Open { path: primary, globally: false },
        ],
        load_plan(seq![first] + others, primary, 0) == seq![
            BundleActionView::Open { path: first.path, globally: first.exports_symbols },
        ] + (match first.initializer {
            Some(initializer) => seq![
                BundleActionView::Initialize {
                    package: initializer.package,
                    module: initializer.module,
                },
            ],
            None => Seq::empty(),
        }) + load_plan(others, primary, 0),
{
    let all = seq![first] + others;
    assert(all[0] == first);
    lemma_plan_shift(first, others, primary, 0);
    assert(load_plan(all, primary, 0) =~= dependency_plan(first) + load_plan(others, primary, 0));
}

proof fn lemma_plan_shift(
    first: LeanLibraryDependencyView,
    others: Seq<LeanLibraryDependencyView>,
    primary: Seq<char>,
    from: int,
)
    requires
        0 <= from <= others.len(),
    ensures
        load_plan(seq![first] + others, primary, from + 1) == load_plan(others, primary, from),
    decreases others.len() - from,
{
    if from < others.len() {
        lemma_plan_shift(first, others, primary, from + 1);
        assert((seq![first] + others)[from + 1] == others[from]);
    }
}

/// What is due goes by how far the loading has come: a library that waits for its
/// initializer is initialized, else the next dependency is opened, and behind the last
/// one the primary library, which ends the plan.
pub proof fn due_action_goes_by_progress(view: BundleLoaderView)
    requires
        view.well_formed(),
    ensures
        ({
            let n = view.opened.len() as int;
            &&& view.pending is Some ==> (view.dependencies[n].initializer matches Some(initializer)
                && view.remaining()[0] == (BundleActionView::Initialize {
                package: initializer.package,
                module: initializer.module,
            }))
            &&& view.pending is None && n < view.dependencies.len() ==> view.remaining()[0] == (
            BundleActionView::Open {
                path: view.dependencies[n].path,
                globally: view.dependencies[n].exports_symbols,
            })
            &&& n == view.dependencies.len() ==> view.remaining() == seq![
                BundleActionView::Open { path: view.primary_path, globally: false },
            ]
            &&& view.remaining().len() >= 1
        }),
{
    let n = view.opened.len() as int;
    lemma_plan_len(view.dependencies, view.primary_path, n);
    if n < view.dependencies.len() {
        lemma_plan_len(view.dependencies, view.primary_path, n + 1);
    }
}

/// A dependency's initialization is judged by the names of its own initializer and by
/// how that initializer's call ended.
pub proof fn dependencies_are_judged_by_their_own_names(
    view: BundleLoaderView,
    call: InitializerCall,
)
    requires
        view.well_formed(),
        view.pending is Some,
    ensures
        ({
            let initializer = view.dependencies[view.opened.len() as int].initializer->0;
            view.judged(call) is Ok <==> initialized(
                (view.pending->0).path,
                initializer.package,
                initializer.module,
                call,
            ) is Ok
        }),
{
}

/// A step that leads on does what comes next in the plan, and leaves the rest of the
/// plan as it is; a step that fails hands out the error.
pub proof fn steps_follow_the_plan(
    before: BundleLoaderView,
    r: (BundleStep, Option<BundleLoader>),
    err: LeanErrorView,
)
    ensures
        leads_on(before, r) ==> (r.0 matches BundleStep::Next(action) && r.1 matches Some(after)
            && seq![before.remaining()[0], action@] + after@.remaining().skip(1)
            == before.remaining() && after@.dependencies == before.dependencies
            && after@.primary_path == before.primary_path),
        fails_with(r.0, err) ==> (r.0 matches BundleStep::Done(Err(e)) && e@ == err),
{
    if leads_on(before, r) {
        let after = r.1->0;
        assert(seq![before.remaining()[0], before.remaining()[1]] + after@.remaining().skip(1)
            =~= before.remaining());
    }
}

/// An action is viewed with its path or its names, and libraries are viewed one by one,
/// in order. An event answers an initialization exactly where a library waits for one.
pub proof fn actions_are_viewed_part_by_part(
    action: BundleAction,
    libraries: Seq<LeanLibrary>,
    i: int,
    view: BundleLoaderView,
    event: BundleEvent,
)
    requires
        0 <= i < libraries.len(),
    ensures
        action matches BundleAction::Open { path, globally } ==> action@ == (
        BundleActionView::Open { path: path@, globally }),
        action matches BundleAction::Initialize { package, module } ==> action@ == (
        BundleActionView::Initialize { package: package@, module: module@ }),
        library_views(libraries).len() == libraries.len(),
        library_views(libraries)[i] == libraries[i]@,
        event is Initialized ==> (view.answers(event) <==> view.pending is Some),
        event is Opened ==> (view.answers(event) <==> view.pending is None),
{
}

} // verus!
