//! The sandbox and the exceptions to it.
use vstd::prelude::*;

use crate::container::{AppContainerProfile, ProfileView};
use crate::error::{Error, ErrorView};
use crate::grant::{grant_access, Grant, GrantPhase, GrantPhaseView, GrantReply, GrantView};
use crate::path_name::{PathName, PathNameView};
use crate::path_type::{PathType, PathTypeView, RegistryView};
use crate::sid::SidView;
use crate::spawn::{CapabilityView, SpawnPlan, SpawnState};
use crate::wide::WideString;

verus! {

/// Sandboxing exception rule.
///
/// An exception excludes certain resources from the sandbox, allowing sandboxed applications to
/// still access these resources.
#[derive(Debug)]
pub enum Exception {
    /// Allow read access to the path and anything beneath it.
    Read(PathName),
    /// Allow writing and reading the path and anything beneath it.
    WriteAndRead(PathName),
    /// Allow executing and reading the path and anything beneath it.
    ///
    /// This is grouped with reading as a convenience, since execution will always also require
    /// read access.
    ExecuteAndRead(PathName),
    /// Allow reading an environment variable.
    Environment(String),
    /// Allow reading **all** environment variables.
    FullEnvironment,
    /// Allow networking.
    Networking,
}

/// What an `Exception` says.
pub enum ExceptionView {
    Read(PathNameView),
    WriteAndRead(PathNameView),
    ExecuteAndRead(PathNameView),
    Environment(Seq<char>),
    FullEnvironment,
    Networking,
}

impl View for Exception {
    type V = ExceptionView;

    open spec fn view(&self) -> ExceptionView {
        match self {
            Exception::Read(path) => ExceptionView::Read(path@),
            Exception::WriteAndRead(path) => ExceptionView::WriteAndRead(path@),
            Exception::ExecuteAndRead(path) => ExceptionView::ExecuteAndRead(path@),
            Exception::Environment(name) => ExceptionView::Environment(name@),
            Exception::FullEnvironment => ExceptionView::FullEnvironment,
            Exception::Networking => ExceptionView::Networking,
        }
    }
}

impl Clone for Exception {
    fn clone(&self) -> (r: Self)
        ensures
            r@ == self@,
    {
        match self {
            Exception::Read(path) => Exception::Read(path.clone()),
            Exception::WriteAndRead(path) => Exception::WriteAndRead(path.clone()),
            Exception::ExecuteAndRead(path) => Exception::ExecuteAndRead(path.clone()),
            Exception::Environment(name) => Exception::Environment(name.clone()),
            Exception::FullEnvironment => Exception::FullEnvironment,
            Exception::Networking => Exception::Networking,
        }
    }
}

/// What may be done with a path besides reading.
#[derive(Debug, Clone, Copy, PartialEq, Eq, Structural)]
pub struct PathException {
    pub write: bool,
    pub execute: bool,
}

/// What may be done with a path once `more` is allowed besides.
pub open spec fn joined(exception: PathException, more: PathException) -> PathException {
    PathException {
        write: exception.write || more.write,
        execute: exception.execute || more.execute,
    }
}

/// Whether everything that `smaller` allows is allowed by `larger`.
pub open spec fn allows(larger: PathException, smaller: PathException) -> bool {
    &&& smaller.write ==> larger.write
    &&& smaller.execute ==> larger.execute
}

/// A path, as it was given, with what it was found to name and what may be done with it.
#[derive(Debug)]
pub struct PathEntry {
    pub name: PathName,
    pub path_type: PathType,
    pub exception: PathException,
}

/// What a `PathEntry` says.
#[verifier::ext_equal]
pub struct PathEntryView {
    pub name: PathNameView,
    pub path_type: PathTypeView,
    pub exception: PathException,
}

impl View for PathEntry {
    type V = PathEntryView;

    open spec fn view(&self) -> PathEntryView {
        PathEntryView {
            name: self.name@,
            path_type: self.path_type@,
            exception: self.exception,
        }
    }
}

/// The name by which access to a path is granted to the container of a program: that of a
/// registry key without the prefix, and the path as it was given in the file system.
pub open spec fn launch_name(name: PathNameView, registry: Option<RegistryView>) -> Seq<u16> {
    match registry {
        Some(view) => crate::path_type::registry_key_name(name.units, view),
        None => name.units,
    }
}

/// Whether an entry is the one of a path: by its components, or by the name that access to it is
/// granted by.
pub open spec fn is_entry_of(
    entry: PathEntryView,
    name: PathNameView,
    registry: Option<RegistryView>,
) -> bool {
    &&& entry.path_type.registry == registry
    &&& entry.name.components == name.components || launch_name(entry.name, registry)
        == launch_name(name, registry)
}

impl PathEntry {
    /// The name by which access to the path is granted to the container of a program.
    pub fn launch_name(&self) -> (r: WideString)
        ensures
            r@ == launch_name(self@.name, self@.path_type.registry),
    {
        match self.path_type.registry() {
            Some(view) => view.key_name(&self.name.units),
            None => self.name.units.clone(),
        }
    }

    /// Whether two entries are of the same path.
    fn same_path(&self, other: &PathEntry) -> (r: bool)
        ensures
            r == is_entry_of(self@, other@.name, other@.path_type.registry),
    {
        if self.path_type.object_type() != other.path_type.object_type() {
            return false;
        }
        self.name.same_components(&other.name) || self.launch_name().same(&other.launch_name())
    }
}

/// What each entry says.
pub open spec fn entry_views(entries: Seq<PathEntry>) -> Seq<PathEntryView> {
    entries.map_values(|entry: PathEntry| entry@)
}

/// Windows sandboxing.
#[derive(Debug)]
pub struct WindowsSandbox {
    env_exceptions: Vec<String>,
    path_exceptions: Vec<PathEntry>,
    allow_networking: bool,
    full_env: bool,
    app_container_name: WideString,
    app_container_profile: AppContainerProfile,
}

/// What a `WindowsSandbox` holds.
#[verifier::ext_equal]
pub struct SandboxView {
    pub env_exceptions: Seq<Seq<char>>,
    pub path_exceptions: Seq<PathEntryView>,
    pub allow_networking: bool,
    pub full_env: bool,
    pub app_container_name: Seq<u16>,
    pub app_container_profile: ProfileView,
}

impl WindowsSandbox {
    /// No path has two entries.
    #[verifier::type_invariant]
    spec fn no_path_twice(self) -> bool {
        paths_distinct(entry_views(self.path_exceptions@))
    }
}

impl View for WindowsSandbox {
    type V = SandboxView;

    closed spec fn view(&self) -> SandboxView {
        SandboxView {
            env_exceptions: crate::environment::text_views(self.env_exceptions@),
            path_exceptions: entry_views(self.path_exceptions@),
            allow_networking: self.allow_networking,
            full_env: self.full_env,
            app_container_name: self.app_container_name@,
            app_container_profile: self.app_container_profile@,
        }
    }
}

/// A sandbox is shown with all that it holds.
proof fn sandboxes_are_shown_in_full(sandbox: WindowsSandbox)
    ensures
        sandbox@.env_exceptions == crate::environment::text_views(sandbox.env_exceptions@),
        sandbox@.path_exceptions == entry_views(sandbox.path_exceptions@),
        sandbox@.allow_networking == sandbox.allow_networking,
        sandbox@.full_env == sandbox.full_env,
        sandbox@.app_container_name == sandbox.app_container_name@,
        sandbox@.app_container_profile == sandbox.app_container_profile@,
{
}

/// Whether there is an entry of a path.
pub open spec fn has_path(
    entries: Seq<PathEntryView>,
    name: PathNameView,
    registry: Option<RegistryView>,
) -> bool {
    exists|i: int| 0 <= i < entries.len() && is_entry_of(#[trigger] entries[i], name, registry)
}

/// No path has two entries.
pub open spec fn paths_distinct(entries: Seq<PathEntryView>) -> bool {
    forall|i: int, j: int|
        0 <= i < j < entries.len() ==> !is_entry_of(
            #[trigger] entries[i],
            (#[trigger] entries[j]).name,
            entries[j].path_type.registry,
        )
}

/// The entries with a new one: where there is an entry of its path already, that one stays, allows
/// what the new one does besides, and names what the path was found to name last; a new path goes
/// to the end.
pub open spec fn insert_entry(entries: Seq<PathEntryView>, new: PathEntryView) -> Seq<
    PathEntryView,
> {
    if has_path(entries, new.name, new.path_type.registry) {
        entries.map_values(
            |entry: PathEntryView|
                if is_entry_of(entry, new.name, new.path_type.registry) {
                    PathEntryView {
                        name: entry.name,
                        path_type: new.path_type,
                        exception: joined(entry.exception, new.exception),
                    }
                } else {
                    entry
                },
        )
    } else {
        entries.push(new)
    }
}

/// A new entry leaves no path with two.
pub proof fn insert_keeps_paths_distinct(entries: Seq<PathEntryView>, new: PathEntryView)
    requires
        paths_distinct(entries),
    ensures
        paths_distinct(insert_entry(entries, new)),
{
    let after = insert_entry(entries, new);
    if has_path(entries, new.name, new.path_type.registry) {
        assert forall|i: int| 0 <= i < entries.len() implies (#[trigger] after[i]).name
            == entries[i].name && after[i].path_type.registry
            == entries[i].path_type.registry by {}
        assert forall|i: int, j: int| 0 <= i < j < after.len() implies !is_entry_of(
            #[trigger] after[i],
            (#[trigger] after[j]).name,
            after[j].path_type.registry,
        ) by {
            assert(!is_entry_of(entries[i], entries[j].name, entries[j].path_type.registry));
        }
    } else {
        assert forall|i: int, j: int| 0 <= i < j < after.len() implies !is_entry_of(
            #[trigger] after[i],
            (#[trigger] after[j]).name,
            after[j].path_type.registry,
        ) by {
            assert(after[i] == entries[i]);
            if j < entries.len() {
                assert(after[j] == entries[j]);
            }
        }
    }
}

/// Adds an entry.
fn insert_path_exception(entries: Vec<PathEntry>, new: PathEntry) -> (r: Vec<PathEntry>)
    ensures
        entry_views(r@) == insert_entry(entry_views(entries@), new@),
{
    let ghost before = entry_views(entries@);
    let ghost registry = new@.path_type.registry;
    let mut entries: Vec<PathEntry> = entries;
    let mut found: bool = false;
    let mut i: usize = 0;
    while i < entries.len()
        invariant
            i <= entries@.len(),
            before.len() == entries@.len(),
            registry == new@.path_type.registry,
            found <==> exists|j: int|
                0 <= j < i && is_entry_of(#[trigger] before[j], new@.name, registry),
            forall|j: int|
                0 <= j < entries@.len() ==> #[trigger] entries@[j]@ == (if j < i && is_entry_of(
                    before[j],
                    new@.name,
                    registry,
                ) {
                    PathEntryView {
                        name: before[j].name,
                        path_type: new@.path_type,
                        exception: joined(before[j].exception, new.exception),
                    }
                } else {
                    before[j]
                }),
        decreases entries@.len() - i,
    {
        assert(entries@[i as int]@ == before[i as int]);
        if entries[i].same_path(&new) {
            assert(is_entry_of(before[i as int], new@.name, registry));
            found = true;
            let ghost old_entries = entries@;
            let had: PathException = entries[i].exception;
            entries[i].exception = PathException {
                write: had.write || new.exception.write,
                execute: had.execute || new.exception.execute,
            };
            entries[i].path_type = new.path_type.clone();
            assert(forall|j: int|
                0 <= j < entries@.len() && j != i ==> entries@[j] == old_entries[j]);
        }
        i = i + 1;
    }
    if !found {
        entries.push(new);
        assert(entry_views(entries@) =~= before.push(new@));
    } else {
        assert(has_path(before, new@.name, registry));
        assert(entry_views(entries@) =~= insert_entry(before, new@));
    }
    entries
}

/// What all exceptions together allow to the object that a path was found to name.
pub open spec fn shared_exception(
    entries: Seq<PathEntryView>,
    path_type: PathTypeView,
) -> PathException {
    PathException {
        write: exists|j: int|
            {
                &&& 0 <= j < entries.len()
                &&& (#[trigger] entries[j]).path_type == path_type
                &&& entries[j].exception.write
            },
        execute: exists|j: int|
            {
                &&& 0 <= j < entries.len()
                &&& (#[trigger] entries[j]).path_type == path_type
                &&& entries[j].exception.execute
            },
    }
}

/// The entries that access is granted by when a program is started: each path allows what all
/// exceptions to the object that it names allow together, so that no grant takes from another.
pub open spec fn launch_entries(entries: Seq<PathEntryView>) -> Seq<PathEntryView> {
    entries.map_values(
        |entry: PathEntryView|
            PathEntryView { exception: shared_exception(entries, entry.path_type), ..entry },
    )
}

/// What all exceptions together allow to an object.
fn share_exceptions(entries: &Vec<PathEntry>, path_type: &PathType) -> (r: PathException)
    ensures
        r == shared_exception(entry_views(entries@), path_type@),
{
    let ghost views = entry_views(entries@);
    let mut write: bool = false;
    let mut execute: bool = false;
    let mut i: usize = 0;
    while i < entries.len()
        invariant
            i <= entries@.len(),
            views == entry_views(entries@),
            write <==> exists|j: int|
                {
                    &&& 0 <= j < i
                    &&& (#[trigger] views[j]).path_type == path_type@
                    &&& views[j].exception.write
                },
            execute <==> exists|j: int|
                {
                    &&& 0 <= j < i
                    &&& (#[trigger] views[j]).path_type == path_type@
                    &&& views[j].exception.execute
                },
        decreases entries@.len() - i,
    {
        assert(views[i as int] == entries@[i as int]@);
        if entries[i].path_type.same(path_type) {
            write = write || entries[i].exception.write;
            execute = execute || entries[i].exception.execute;
        }
        i = i + 1;
    }
    PathException { write, execute }
}

/// The entries that access is granted by when a program is started.
fn entries_to_launch(entries: Vec<PathEntry>) -> (r: Vec<PathEntry>)
    ensures
        entry_views(r@) == launch_entries(entry_views(entries@)),
{
    let ghost views = entry_views(entries@);
    let mut shared: Vec<PathException> = Vec::new();
    let mut i: usize = 0;
    while i < entries.len()
        invariant
            i <= entries@.len(),
            views == entry_views(entries@),
            shared@.len() == i,
            forall|j: int|
                0 <= j < i ==> #[trigger] shared@[j] == shared_exception(views, views[j].path_type),
        decreases entries@.len() - i,
    {
        assert(views[i as int] == entries@[i as int]@);
        shared.push(share_exceptions(&entries, &entries[i].path_type));
        i = i + 1;
    }
    let mut entries: Vec<PathEntry> = entries;
    let mut k: usize = 0;
    while k < entries.len()
        invariant
            k <= entries@.len(),
            entries@.len() == views.len() == shared@.len(),
            forall|j: int|
                0 <= j < views.len() ==> #[trigger] shared@[j] == shared_exception(
                    views,
                    views[j].path_type,
                ),
            forall|j: int|
                0 <= j < entries@.len() ==> #[trigger] entries@[j]@ == (if j < k {
                    PathEntryView { exception: shared@[j], ..views[j] }
                } else {
                    views[j]
                }),
        decreases entries@.len() - k,
    {
        let ghost old_entries = entries@;
        assert(entries@[k as int]@ == views[k as int]);
        entries[k].exception = shared[k];
        assert(forall|j: int|
            0 <= j < entries@.len() && j != k ==> entries@[j] == old_entries[j]);
        k = k + 1;
    }
    assert(entry_views(entries@) =~= launch_entries(views));
    entries
}

/// An exception to a path that is being added.
#[derive(Debug)]
pub struct PathRequest {
    pub path: PathName,
    pub exception: PathException,
}

/// What a `PathRequest` says.
pub struct PathRequestView {
    pub path: PathNameView,
    pub exception: PathException,
}

impl View for PathRequest {
    type V = PathRequestView;

    open spec fn view(&self) -> PathRequestView {
        PathRequestView { path: self.path@, exception: self.exception }
    }
}

/// Where the path of an exception leads to.
#[derive(Debug)]
pub struct Destination {
    /// What the path names.
    pub path_type: PathType,
    /// The target, where the path is a symlink.
    pub link_target: Option<PathName>,
}

/// What a `Destination` says.
pub struct DestinationView {
    pub path_type: PathTypeView,
    pub link_target: Option<PathNameView>,
}

impl View for Destination {
    type V = DestinationView;

    open spec fn view(&self) -> DestinationView {
        DestinationView {
            path_type: self.path_type@,
            link_target: crate::path_name::optional_path(self.link_target),
        }
    }
}

/// Where a path leads to, where `canonical` is its canonical form in the file system, if it has
/// one.
pub open spec fn destination(
    path: PathNameView,
    canonical: Option<PathNameView>,
    is_symlink: bool,
) -> DestinationView {
    DestinationView {
        path_type: crate::path_type::exception_path_type(
            path.units,
            match canonical {
                Some(canonical) => Some(canonical.units),
                None => None,
            },
        ),
        link_target: if is_symlink && crate::path_type::path_registry_view(path.units) is None {
            canonical
        } else {
            None
        },
    }
}

/// Where adding an exception stands.
#[derive(Debug)]
pub enum AddState {
    /// Where a path in the file system leads to is being looked up.
    Resolving(PathRequest),
    /// Whether a path is a directory is being looked up.
    Inspecting(PathRequest, Destination),
    /// The container is being granted access to what the path names.
    Granting(PathRequest, Destination, Grant),
    /// The exception has been added.
    Added,
    /// The exception could not be added.
    Failed(Error),
}

/// Where adding an exception stands.
pub enum AddStateView {
    Resolving(PathRequestView),
    Inspecting(PathRequestView, DestinationView),
    Granting(PathRequestView, DestinationView, GrantView),
    Added,
    Failed(ErrorView),
}

impl View for AddState {
    type V = AddStateView;

    open spec fn view(&self) -> AddStateView {
        match self {
            AddState::Resolving(request) => AddStateView::Resolving(request@),
            AddState::Inspecting(request, destination) => AddStateView::Inspecting(
                request@,
                destination@,
            ),
            AddState::Granting(request, destination, grant) => AddStateView::Granting(
                request@,
                destination@,
                grant@,
            ),
            AddState::Added => AddStateView::Added,
            AddState::Failed(err) => AddStateView::Failed(err@),
        }
    }
}

/// What was found out or done for an exception that is being added.
#[derive(Debug)]
pub enum AddReply {
    /// The canonical form of the path, if it has one, and whether the path is a symlink.
    Resolved(Option<PathName>, bool),
    /// Whether the path is a directory.
    IsDirectory(bool),
    /// A system call on the way to granting access.
    Grant(GrantReply),
}

/// What an `AddReply` says.
pub enum AddReplyView {
    Resolved(Option<PathNameView>, bool),
    IsDirectory(bool),
    Grant(GrantReply),
}

impl View for AddReply {
    type V = AddReplyView;

    open spec fn view(&self) -> AddReplyView {
        match self {
            AddReply::Resolved(path, is_symlink) => AddReplyView::Resolved(
                crate::path_name::optional_path(*path),
                *is_symlink,
            ),
            AddReply::IsDirectory(is_dir) => AddReplyView::IsDirectory(*is_dir),
            AddReply::Grant(reply) => AddReplyView::Grant(*reply),
        }
    }
}

/// What has to be done next to add an exception.
pub enum AddAction<'a> {
    /// Look up the canonical form of this path, and whether it is a symlink.
    Resolve(&'a PathName),
    /// Look up whether this path is a directory.
    IsDirectory(WideString),
    /// Go on granting access.
    Grant(&'a Grant),
    /// The exception has been added: nothing.
    Finish,
    /// The exception could not be added: nothing.
    Fail(&'a Error),
}

/// What is granted for an exception: the rights to what its path names, and to everything
/// beneath it.
pub open spec fn exception_grant(
    sid: SidView,
    path_type: PathTypeView,
    exception: PathException,
    is_dir: bool,
) -> GrantView {
    GrantView {
        target: crate::grant::grant_target(
            sid,
            path_type.path,
            crate::path_type::view_object_type(path_type.registry),
            crate::path_type::object_access_mask(
                path_type.registry,
                exception.write,
                exception.execute,
                is_dir,
            ),
            true,
        ),
        phase: GrantPhaseView::Reading,
    }
}

/// Where adding an exception to a path begins: for a registry key with granting access, for the
/// file system with looking up where the path leads to.
pub open spec fn first_add_state(sid: SidView, request: PathRequestView) -> AddStateView {
    match crate::path_type::path_registry_view(request.path.units) {
        Some(_) => {
            let to = destination(request.path, None, false);
            AddStateView::Granting(
                request,
                to,
                exception_grant(sid, to.path_type, request.exception, false),
            )
        },
        None => AddStateView::Resolving(request),
    }
}

/// Where adding an exception stands after a reply. A reply to another question changes nothing.
pub open spec fn next_add_state(
    sid: SidView,
    state: AddStateView,
    reply: AddReplyView,
) -> AddStateView {
    match (state, reply) {
        (AddStateView::Resolving(request), AddReplyView::Resolved(canonical, is_symlink)) => {
            AddStateView::Inspecting(request, destination(request.path, canonical, is_symlink))
        },
        (AddStateView::Inspecting(request, to), AddReplyView::IsDirectory(is_dir)) => {
            AddStateView::Granting(
                request,
                to,
                exception_grant(sid, to.path_type, request.exception, is_dir),
            )
        },
        (AddStateView::Granting(request, to, grant), AddReplyView::Grant(reply)) => {
            let next = crate::grant::next_grant(grant, reply);
            match next.phase {
                GrantPhaseView::Granted => AddStateView::Added,
                GrantPhaseView::Failed(err) => AddStateView::Failed(err),
                _ => AddStateView::Granting(request, to, next),
            }
        },
        _ => state,
    }
}

/// The entries with an exception: one of its path as it was given, and, where that is a symlink,
/// also one of the target.
pub open spec fn with_entries(
    entries: Seq<PathEntryView>,
    request: PathRequestView,
    to: DestinationView,
) -> Seq<PathEntryView> {
    let own = insert_entry(
        entries,
        PathEntryView {
            name: request.path,
            path_type: to.path_type,
            exception: request.exception,
        },
    );
    match to.link_target {
        Some(target) => insert_entry(own, target_entry(target, request.exception)),
        None => own,
    }
}

/// The entry of the target of a symlink.
pub open spec fn target_entry(target: PathNameView, exception: PathException) -> PathEntryView {
    PathEntryView {
        name: target,
        path_type: PathTypeView { registry: None, path: target.units },
        exception,
    }
}

/// The sandbox once access to what a path names has been granted: the exception is kept for when
/// a program is started.
pub open spec fn with_path_exception(
    sandbox: SandboxView,
    request: PathRequestView,
    to: DestinationView,
) -> SandboxView {
    SandboxView {
        path_exceptions: with_entries(sandbox.path_exceptions, request, to),
        ..sandbox
    }
}

/// The sandbox after a reply that took adding an exception from `before` to `after`: it changes
/// with the reply that completes the exception, and with no other.
pub open spec fn next_sandbox(
    sandbox: SandboxView,
    before: AddStateView,
    after: AddStateView,
) -> SandboxView {
    match (before, after) {
        (AddStateView::Granting(request, to, _), AddStateView::Added) => {
            with_path_exception(sandbox, request, to)
        },
        _ => sandbox,
    }
}

/// The request of an exception to a path.
pub open spec fn path_request(exception: ExceptionView) -> Option<PathRequestView> {
    match exception {
        ExceptionView::Read(path) => Some(
            PathRequestView {
                path,
                exception: PathException { write: false, execute: false },
            },
        ),
        ExceptionView::WriteAndRead(path) => Some(
            PathRequestView {
                path,
                exception: PathException { write: true, execute: false },
            },
        ),
        ExceptionView::ExecuteAndRead(path) => Some(
            PathRequestView {
                path,
                exception: PathException { write: false, execute: true },
            },
        ),
        _ => None,
    }
}

/// The sandbox with an exception that is not to a path.
pub open spec fn with_plain_exception(sandbox: SandboxView, exception: ExceptionView) -> SandboxView {
    match exception {
        ExceptionView::Environment(name) => SandboxView {
            env_exceptions: sandbox.env_exceptions.push(name),
            ..sandbox
        },
        ExceptionView::FullEnvironment => SandboxView { full_env: true, ..sandbox },
        ExceptionView::Networking => SandboxView { allow_networking: true, ..sandbox },
        _ => sandbox,
    }
}

/// A sandbox to which nothing is an exception.
pub open spec fn fresh_sandbox(name: Seq<u16>, sid: usize) -> SandboxView {
    SandboxView {
        env_exceptions: Seq::empty(),
        path_exceptions: Seq::empty(),
        allow_networking: false,
        full_env: false,
        app_container_name: name,
        app_container_profile: ProfileView { name, sid: SidView::Raw(sid) },
    }
}

/// Whether an action is what has to be done next to add an exception.
pub open spec fn is_add_action(state: AddState, action: AddAction<'_>) -> bool {
    match state {
        AddState::Resolving(request) => {
            &&& action matches AddAction::Resolve(path)
            &&& *path == request.path
        },
        AddState::Inspecting(_, destination) => {
            &&& action matches AddAction::IsDirectory(path)
            &&& path@ == destination@.path_type.path
        },
        AddState::Granting(_, _, grant) => {
            &&& action matches AddAction::Grant(going_on)
            &&& *going_on == grant
        },
        AddState::Added => action is Finish,
        AddState::Failed(err) => {
            &&& action matches AddAction::Fail(failure)
            &&& *failure == err
        },
    }
}

impl AddState {
    /// What has to be done next.
    pub fn action(&self) -> (r: AddAction<'_>)
        ensures
            is_add_action(*self, r),
    {
        match self {
            AddState::Resolving(request) => AddAction::Resolve(&request.path),
            AddState::Inspecting(_, destination) => AddAction::IsDirectory(
                destination.path_type.path(),
            ),
            AddState::Granting(_, _, grant) => AddAction::Grant(grant),
            AddState::Added => AddAction::Finish,
            AddState::Failed(err) => AddAction::Fail(err),
        }
    }
}

/// What a sandbox can do.
pub trait Sandbox: Sized {
    /// Setup the sandboxing environment. `created` is what creating the container
    /// `app_container_name` gave: the address of its identifier, or the result code of the
    /// failure.
    fn try_new(app_container_name: WideString, created: Result<usize, i32>) -> Result<Self, Error>;

    /// Add a new exception to the sandbox.
    ///
    /// Exceptions added for symlinks will also automatically apply to the symlink's target.
    ///
    /// Access is granted to the container of the sandbox, and the exception is kept for the
    /// container that a program is launched in. An exception to a path that there is one to
    /// already is added to it.
    fn add_exception(&mut self, exception: Exception) -> AddState;

    /// Go on adding an exception after a reply.
    fn resume_exception(&mut self, state: AddState, reply: AddReply) -> AddState;

    /// Setup sandbox and spawn a new process.
    ///
    /// A new container is made for the process, and granted all exceptions. The calling process
    /// itself is not restricted.
    ///
    /// # Errors
    ///
    /// Sandboxing will fail if the calling process is not single-threaded: `threads` is the
    /// number of its threads.
    fn spawn(self, threads: usize) -> SpawnState;
}

/// Where a path leads to.
fn find_destination(
    path: &PathName,
    canonical: Option<PathName>,
    is_symlink: bool,
) -> (r: Destination)
    ensures
        r@ == destination(path@, crate::path_name::optional_path(canonical), is_symlink),
{
    match canonical {
        Some(canonical) => {
            let path_type = PathType::from_exception(
                &path.units,
                Some(canonical.units.clone()),
            );
            let is_link: bool = is_symlink && RegistryView::of_path(&path.units).is_none();
            Destination {
                path_type,
                link_target: if is_link {
                    Some(canonical)
                } else {
                    None
                },
            }
        },
        None => Destination {
            path_type: PathType::from_exception(&path.units, None),
            link_target: None,
        },
    }
}

impl WindowsSandbox {
    /// The grant for an exception that is being added.
    fn exception_grant(
        &self,
        path_type: &PathType,
        exception: PathException,
        is_dir: bool,
    ) -> (r: Grant)
        ensures
            r@ == exception_grant(self@.app_container_profile.sid, path_type@, exception, is_dir),
    {
        grant_access(
            self.app_container_profile.sid(),
            path_type.path(),
            path_type.object_type(),
            path_type.access_mask(exception.write, exception.execute, is_dir),
            true,
        )
    }

    /// Begins to add an exception to a path.
    fn add_path_exception(&self, path: PathName, exception: PathException) -> (r: AddState)
        ensures
            r@ == first_add_state(
                self@.app_container_profile.sid,
                PathRequestView { path: path@, exception },
            ),
    {
        match RegistryView::of_path(&path.units) {
            Some(_) => {
                let path_type = PathType::from_exception(&path.units, None);
                let grant = self.exception_grant(&path_type, exception, false);
                AddState::Granting(
                    PathRequest { path, exception },
                    Destination { path_type, link_target: None },
                    grant,
                )
            },
            None => AddState::Resolving(PathRequest { path, exception }),
        }
    }

    /// Keeps an exception for when a program is started.
    fn keep_exception(&mut self, request: PathRequest, destination: Destination)
        ensures
            final(self)@ == with_path_exception(old(self)@, request@, destination@),
            paths_distinct(final(self)@.path_exceptions),
    {
        proof {
            use_type_invariant(&*self);
        }
        let mut entries: Vec<PathEntry> = Vec::new();
        std::mem::swap(&mut entries, &mut self.path_exceptions);
        let ghost before = entry_views(entries@);
        let exception = request.exception;
        let own = PathEntry { name: request.path, path_type: destination.path_type, exception };
        proof {
            insert_keeps_paths_distinct(before, own@);
        }
        let mut entries: Vec<PathEntry> = insert_path_exception(entries, own);
        if let Some(target) = destination.link_target {
            let path_type = PathType::Filesystem(target.units.clone());
            let linked = PathEntry { name: target, path_type, exception };
            proof {
                insert_keeps_paths_distinct(entry_views(entries@), linked@);
            }
            entries = insert_path_exception(entries, linked);
        }
        self.path_exceptions = entries;
    }
}

impl Sandbox for WindowsSandbox {
    fn try_new(app_container_name: WideString, created: Result<usize, i32>) -> (r: Result<
        Self,
        Error,
    >)
        ensures
            match created {
                Ok(sid) => {
                    &&& r is Ok
                    &&& r->Ok_0@ == fresh_sandbox(app_container_name@, sid)
                    &&& paths_distinct(r->Ok_0@.path_exceptions)
                },
                Err(code) => r == Err::<WindowsSandbox, Error>(Error::Io(code)),
            },
    {
        match AppContainerProfile::new(&app_container_name, created) {
            Ok(app_container_profile) => {
                let sandbox = WindowsSandbox {
                    env_exceptions: Vec::new(),
                    path_exceptions: Vec::new(),
                    allow_networking: false,
                    full_env: false,
                    app_container_name,
                    app_container_profile,
                };
                assert(sandbox@ =~= fresh_sandbox(app_container_name@, created->Ok_0));
                Ok(sandbox)
            },
            Err(err) => Err(err),
        }
    }

    fn add_exception(&mut self, exception: Exception) -> (r: AddState)
        ensures
            match path_request(exception@) {
                Some(request) => {
                    &&& r@ == first_add_state(old(self)@.app_container_profile.sid, request)
                    &&& final(self)@ == old(self)@
                },
                None => {
                    &&& r@ == AddStateView::Added
                    &&& final(self)@ == with_plain_exception(old(self)@, exception@)
                },
            },
            paths_distinct(final(self)@.path_exceptions),
    {
        proof {
            use_type_invariant(&*self);
        }
        match exception {
            Exception::Read(path) => self.add_path_exception(
                path,
                PathException { write: false, execute: false },
            ),
            Exception::WriteAndRead(path) => self.add_path_exception(
                path,
                PathException { write: true, execute: false },
            ),
            Exception::ExecuteAndRead(path) => self.add_path_exception(
                path,
                PathException { write: false, execute: true },
            ),
            Exception::Environment(name) => {
                let mut names: Vec<String> = Vec::new();
                std::mem::swap(&mut names, &mut self.env_exceptions);
                names.push(name);
                self.env_exceptions = names;
                assert(crate::environment::text_views(self.env_exceptions@)
                    =~= crate::environment::text_views(old(self).env_exceptions@).push(name@));
                AddState::Added
            },
            Exception::FullEnvironment => {
                self.full_env = true;
                AddState::Added
            },
            Exception::Networking => {
                self.allow_networking = true;
                AddState::Added
            },
        }
    }

    fn resume_exception(&mut self, state: AddState, reply: AddReply) -> (r: AddState)
        ensures
            r@ == next_add_state(old(self)@.app_container_profile.sid, state@, reply@),
            final(self)@ == next_sandbox(old(self)@, state@, r@),
            paths_distinct(final(self)@.path_exceptions),
    {
        proof {
            use_type_invariant(&*self);
        }
        match (state, reply) {
            (AddState::Resolving(request), AddReply::Resolved(canonical, is_symlink)) => {
                let destination = find_destination(&request.path, canonical, is_symlink);
                AddState::Inspecting(request, destination)
            },
            (AddState::Inspecting(request, destination), AddReply::IsDirectory(is_dir)) => {
                let grant = self.exception_grant(
                    &destination.path_type,
                    request.exception,
                    is_dir,
                );
                AddState::Granting(request, destination, grant)
            },
            (AddState::Granting(request, destination, grant), AddReply::Grant(reply)) => {
                let next: Grant = grant.resume(reply);
                match next.phase {
                    GrantPhase::Granted => {
                        self.keep_exception(request, destination);
                        AddState::Added
                    },
                    GrantPhase::Failed(err) => AddState::Failed(err),
                    _ => AddState::Granting(request, destination, next),
                }
            },
            (state, _) => state,
        }
    }

    fn spawn(self, threads: usize) -> (r: SpawnState)
        ensures
            r@ == crate::spawn::first_spawn_state(self@, threads as nat),
            paths_distinct(self@.path_exceptions),
    {
        proof {
            use_type_invariant(&self);
        }
        if threads > 1 {
            return SpawnState::Failed(Error::NotSingleThreaded);
        }
        let plan = SpawnPlan {
            env_exceptions: self.env_exceptions,
            full_env: self.full_env,
            remaining: entries_to_launch(self.path_exceptions),
            capabilities: Vec::new(),
        };
        assert(plan@.capabilities =~= Seq::<CapabilityView>::empty());
        if self.allow_networking {
            SpawnState::Sizing(plan)
        } else {
            SpawnState::Naming(plan)
        }
    }
}

} // verus!
