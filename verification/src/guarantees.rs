//! What holds of the sandbox as a whole, whatever the system replies.
use vstd::prelude::*;

use crate::container::ProfileView;
use crate::grant::{GrantPhaseView, GrantReply, GrantTarget};
use crate::path_name::PathNameView;
use crate::path_type::{PathTypeView, RegistryView};
use crate::sandbox::{
    AddReplyView, AddStateView, DestinationView, ExceptionView, PathEntryView, PathException,
    PathRequestView, SandboxView,
};
use crate::security::SecurityDescriptor;
use crate::sid::SidView;
use crate::spawn::{CapabilityView, LaunchView, SpawnPlanView, SpawnReplyView, SpawnStateView};

verus! {

/// A sandbox and an exception that is being added to it.
pub struct Adding {
    pub sandbox: SandboxView,
    pub state: AddStateView,
}

/// The sandbox and the exception after a reply.
pub open spec fn next_adding(adding: Adding, reply: AddReplyView) -> Adding {
    let state = crate::sandbox::next_add_state(
        adding.sandbox.app_container_profile.sid,
        adding.state,
        reply,
    );
    Adding { sandbox: crate::sandbox::next_sandbox(adding.sandbox, adding.state, state), state }
}

/// The sandbox and the exception after several replies.
pub open spec fn run_adding(adding: Adding, replies: Seq<AddReplyView>) -> Adding
    decreases replies.len(),
{
    if replies.len() == 0 {
        adding
    } else {
        run_adding(next_adding(adding, replies[0]), replies.skip(1))
    }
}

/// The beginning of adding an exception to a path.
pub open spec fn begin_adding(sandbox: SandboxView, request: PathRequestView) -> Adding {
    Adding {
        sandbox,
        state: crate::sandbox::first_add_state(sandbox.app_container_profile.sid, request),
    }
}

/// Whether an exception that is being added is this one.
spec fn is_adding(state: AddStateView, request: PathRequestView) -> bool {
    match state {
        AddStateView::Resolving(r) => r == request,
        AddStateView::Inspecting(r, _) => r == request,
        AddStateView::Granting(r, _, _) => r == request,
        _ => false,
    }
}

/// Where a path leads to, by the first of the replies that says it.
pub open spec fn led_to(path: PathNameView, replies: Seq<AddReplyView>) -> DestinationView
    decreases replies.len(),
{
    if replies.len() == 0 {
        crate::sandbox::destination(path, None, false)
    } else {
        match replies[0] {
            AddReplyView::Resolved(canonical, is_symlink) => crate::sandbox::destination(
                path,
                canonical,
                is_symlink,
            ),
            _ => led_to(path, replies.skip(1)),
        }
    }
}

/// Where the path of an exception that is added with these replies leads to. A registry path
/// stands for itself.
pub open spec fn reached(path: PathNameView, replies: Seq<AddReplyView>) -> DestinationView {
    match crate::path_type::path_registry_view(path.units) {
        Some(_) => crate::sandbox::destination(path, None, false),
        None => led_to(path, replies),
    }
}

/// Where the path of an exception that is being added leads to.
spec fn adding_destination(state: AddStateView, replies: Seq<AddReplyView>) -> DestinationView {
    match state {
        AddStateView::Resolving(request) => led_to(request.path, replies),
        AddStateView::Inspecting(_, to) => to,
        AddStateView::Granting(_, to, _) => to,
        _ => arbitrary(),
    }
}

proof fn lemma_all_or_nothing(adding: Adding, request: PathRequestView, replies: Seq<AddReplyView>)
    requires
        is_adding(adding.state, request),
    ensures
        run_adding(adding, replies).sandbox == (if run_adding(adding, replies).state is Added {
            crate::sandbox::with_path_exception(
                adding.sandbox,
                request,
                adding_destination(adding.state, replies),
            )
        } else {
            adding.sandbox
        }),
    decreases replies.len(),
{
    if replies.len() > 0 {
        let next = next_adding(adding, replies[0]);
        if is_adding(next.state, request) {
            lemma_all_or_nothing(next, request, replies.skip(1));
        } else {
            lemma_settled_adding(next, replies.skip(1));
        }
    }
}

proof fn lemma_settled_adding(adding: Adding, replies: Seq<AddReplyView>)
    requires
        adding.state is Added || adding.state is Failed,
    ensures
        run_adding(adding, replies) == adding,
    decreases replies.len(),
{
    if replies.len() > 0 {
        lemma_settled_adding(next_adding(adding, replies[0]), replies.skip(1));
    }
}

/// An exception to a path is added as a whole or not at all: the sandbox changes if and only if
/// access was granted, by exactly that exception to its path and, where that is a symlink, to its
/// target; a failure leaves it as it was.
pub proof fn exception_is_all_or_nothing(
    sandbox: SandboxView,
    request: PathRequestView,
    replies: Seq<AddReplyView>,
)
    ensures
        ({
            let end = run_adding(begin_adding(sandbox, request), replies);
            end.sandbox == (if end.state is Added {
                crate::sandbox::with_path_exception(
                    sandbox,
                    request,
                    reached(request.path, replies),
                )
            } else {
                sandbox
            })
        }),
{
    lemma_all_or_nothing(begin_adding(sandbox, request), request, replies);
}

/// The replies to system calls on the way to granting access.
pub open spec fn grant_replies(replies: Seq<AddReplyView>) -> Seq<GrantReply>
    decreases replies.len(),
{
    if replies.len() == 0 {
        Seq::empty()
    } else {
        match replies[0] {
            AddReplyView::Grant(reply) => seq![reply] + grant_replies(replies.skip(1)),
            _ => grant_replies(replies.skip(1)),
        }
    }
}

/// The phase in which the grant of an exception is.
spec fn adding_phase(state: AddStateView) -> GrantPhaseView {
    match state {
        AddStateView::Granting(_, _, grant) => grant.phase,
        AddStateView::Added => GrantPhaseView::Granted,
        AddStateView::Failed(err) => GrantPhaseView::Failed(err),
        _ => GrantPhaseView::Reading,
    }
}

proof fn lemma_added_after_grant(adding: Adding, replies: Seq<AddReplyView>)
    requires
        run_adding(adding, replies).state is Added,
    ensures
        crate::grant::owed_calls_succeeded(adding_phase(adding.state), grant_replies(replies)),
    decreases replies.len(),
{
    if replies.len() > 0 {
        let next = next_adding(adding, replies[0]);
        let rest = grant_replies(replies.skip(1));
        lemma_added_after_grant(next, replies.skip(1));
        match (adding.state, replies[0]) {
            (AddStateView::Granting(_, _, grant), AddReplyView::Grant(reply)) => {
                crate::grant::lemma_owed_step(grant, reply, rest);
            },
            (_, AddReplyView::Grant(reply)) => {
                crate::grant::lemma_owed_earlier(adding_phase(adding.state), reply, rest);
            },
            _ => {},
        }
    }
}

/// No exception to a path is added unless reading, merging and writing the access control list
/// of what it names all succeeded.
pub proof fn exception_added_only_after_grant(
    sandbox: SandboxView,
    request: PathRequestView,
    replies: Seq<AddReplyView>,
)
    requires
        run_adding(begin_adding(sandbox, request), replies).state is Added,
    ensures
        crate::grant::all_calls_succeeded(grant_replies(replies)),
{
    lemma_added_after_grant(begin_adding(sandbox, request), replies);
}

/// The state after the three calls of a grant.
pub open spec fn add_end(phase: GrantPhaseView) -> AddStateView {
    match phase {
        GrantPhaseView::Failed(err) => AddStateView::Failed(err),
        _ => AddStateView::Added,
    }
}

/// The three replies of a grant.
pub open spec fn three_replies(
    read: u32,
    descriptor: SecurityDescriptor,
    merged: u32,
    acl: usize,
    written: u32,
) -> Seq<AddReplyView> {
    seq![
        AddReplyView::Grant(GrantReply::SecurityInfo(read, descriptor)),
        AddReplyView::Grant(GrantReply::Entries(merged, acl)),
        AddReplyView::Grant(GrantReply::Written(written)),
    ]
}

proof fn lemma_three_replies(
    adding: Adding,
    read: u32,
    descriptor: SecurityDescriptor,
    merged: u32,
    acl: usize,
    written: u32,
)
    requires
        adding.state is Granting,
        adding.state->Granting_2.phase is Reading,
    ensures
        run_adding(adding, three_replies(read, descriptor, merged, acl, written)).state == add_end(
            crate::grant::grant_end(adding.state->Granting_2.target.name, read, merged, written),
        ),
{
    let replies = three_replies(read, descriptor, merged, acl, written);
    reveal_with_fuel(run_adding, 4);
    assert(replies.skip(1)[0] == replies[1]);
    assert(replies.skip(1).skip(1)[0] == replies[2]);
    assert(replies.skip(1).skip(1).skip(1).len() == 0);
}

/// An exception to a registry key ends as the three calls on its path say.
pub proof fn registry_exception_runs_to_its_end(
    sandbox: SandboxView,
    request: PathRequestView,
    read: u32,
    descriptor: SecurityDescriptor,
    merged: u32,
    acl: usize,
    written: u32,
)
    requires
        crate::path_type::path_registry_view(request.path.units) is Some,
    ensures
        run_adding(
            begin_adding(sandbox, request),
            three_replies(read, descriptor, merged, acl, written),
        ).state == add_end(
            crate::grant::grant_end(request.path.units, read, merged, written),
        ),
{
    lemma_three_replies(begin_adding(sandbox, request), read, descriptor, merged, acl, written);
}

/// The state in which an exception to a file or directory has its access granted, once the
/// canonical form of the path and whether it is a directory are known.
pub open spec fn file_granting(
    sandbox: SandboxView,
    request: PathRequestView,
    canonical: Option<PathNameView>,
    is_symlink: bool,
    is_dir: bool,
) -> Adding {
    run_adding(
        begin_adding(sandbox, request),
        seq![
            AddReplyView::Resolved(canonical, is_symlink),
            AddReplyView::IsDirectory(is_dir),
        ],
    )
}

/// An exception to a path in the file system applies to what the path leads to: access is
/// granted to its canonical form, where it has one, so that a symlink stands for its target.
/// The rights are those that were asked for, and everything beneath is included.
pub proof fn exception_applies_to_link_target(
    sandbox: SandboxView,
    request: PathRequestView,
    canonical: Option<PathNameView>,
    is_symlink: bool,
    is_dir: bool,
)
    requires
        crate::path_type::path_registry_view(request.path.units) is None,
    ensures
        ({
            let name = match canonical {
                Some(target) => target.units,
                None => request.path.units,
            };
            file_granting(sandbox, request, canonical, is_symlink, is_dir) == (Adding {
                sandbox,
                state: AddStateView::Granting(
                    request,
                    crate::sandbox::destination(request.path, canonical, is_symlink),
                    crate::spawn::new_grant(
                        crate::grant::grant_target(
                            sandbox.app_container_profile.sid,
                            name,
                            crate::path_type::ObjectType::FileObject,
                            crate::access::file_access_mask(
                                request.exception.write,
                                request.exception.execute,
                                is_dir,
                            ),
                            true,
                        ),
                    ),
                ),
            })
        }),
{
    let replies = seq![
        AddReplyView::Resolved(canonical, is_symlink),
        AddReplyView::IsDirectory(is_dir),
    ];
    reveal_with_fuel(run_adding, 3);
    assert(replies.skip(1)[0] == replies[1]);
    assert(replies.skip(1).skip(1).len() == 0);
}

/// An exception to a path in the file system ends as the three calls on its canonical form say:
/// that the path is invalid where nothing was found, with the number of any other error, or
/// with success.
pub proof fn file_exception_runs_to_its_end(
    sandbox: SandboxView,
    request: PathRequestView,
    canonical: Option<PathNameView>,
    is_symlink: bool,
    is_dir: bool,
    read: u32,
    descriptor: SecurityDescriptor,
    merged: u32,
    acl: usize,
    written: u32,
)
    requires
        crate::path_type::path_registry_view(request.path.units) is None,
    ensures
        ({
            let name = match canonical {
                Some(target) => target.units,
                None => request.path.units,
            };
            run_adding(
                file_granting(sandbox, request, canonical, is_symlink, is_dir),
                three_replies(read, descriptor, merged, acl, written),
            ).state == add_end(crate::grant::grant_end(name, read, merged, written))
        }),
{
    exception_applies_to_link_target(sandbox, request, canonical, is_symlink, is_dir);
    lemma_three_replies(
        file_granting(sandbox, request, canonical, is_symlink, is_dir),
        read,
        descriptor,
        merged,
        acl,
        written,
    );
}

/// Whatever an exception to a path allows, the container may read what it names and everything
/// beneath it.
pub proof fn exception_grants_reading_beneath(
    sid: SidView,
    path_type: PathTypeView,
    exception: PathException,
    is_dir: bool,
)
    ensures
        ({
            let entry = crate::sandbox::exception_grant(
                sid,
                path_type,
                exception,
                is_dir,
            ).target.entry;
            &&& entry.sid == sid
            &&& entry.inheritance == crate::win32::entry_codes().inherit_all
            &&& crate::access::mask_includes(
                entry.access_permissions,
                match path_type.registry {
                    Some(_) => crate::win32::registry_rights().read,
                    None => crate::win32::file_rights().generic_read,
                },
            )
        }),
{
    crate::access::every_mask_allows_reading(exception.write, exception.execute, is_dir);
}

/// Whether everything that the entries `before` allow, those of `after` do, each in its place and
/// by its name.
pub open spec fn entries_include(after: Seq<PathEntryView>, before: Seq<PathEntryView>) -> bool {
    &&& before.len() <= after.len()
    &&& forall|i: int|
        0 <= i < before.len() ==> {
            &&& (#[trigger] after[i]).name == before[i].name
            &&& after[i].path_type.registry == before[i].path_type.registry
            &&& crate::sandbox::allows(after[i].exception, before[i].exception)
        }
}

/// Whether there is an entry of a path that allows what an exception does.
pub open spec fn path_allows(
    entries: Seq<PathEntryView>,
    name: PathNameView,
    registry: Option<RegistryView>,
    exception: PathException,
) -> bool {
    exists|i: int|
        {
            &&& 0 <= i < entries.len()
            &&& crate::sandbox::is_entry_of(#[trigger] entries[i], name, registry)
            &&& crate::sandbox::allows(entries[i].exception, exception)
        }
}

/// Adding an entry leaves no path with two. Its path then allows what the entry does and what it
/// allowed before, and no more; no other entry changes.
pub proof fn insert_adds_to_its_path_only(entries: Seq<PathEntryView>, new: PathEntryView)
    requires
        crate::sandbox::paths_distinct(entries),
    ensures
        ({
            let after = crate::sandbox::insert_entry(entries, new);
            let registry = new.path_type.registry;
            &&& crate::sandbox::paths_distinct(after)
            &&& entries_include(after, entries)
            &&& path_allows(after, new.name, registry, new.exception)
            &&& crate::sandbox::has_path(entries, new.name, registry) ==> after.len()
                == entries.len()
            &&& !crate::sandbox::has_path(entries, new.name, registry) ==> after == entries.push(
                new,
            )
            &&& forall|i: int|
                0 <= i < entries.len() ==> (#[trigger] after[i]).exception == (
                if crate::sandbox::is_entry_of(entries[i], new.name, registry) {
                    crate::sandbox::joined(entries[i].exception, new.exception)
                } else {
                    entries[i].exception
                })
        }),
{
    let after = crate::sandbox::insert_entry(entries, new);
    let registry = new.path_type.registry;
    crate::sandbox::insert_keeps_paths_distinct(entries, new);
    if crate::sandbox::has_path(entries, new.name, registry) {
        let i = choose|i: int|
            0 <= i < entries.len() && crate::sandbox::is_entry_of(
                #[trigger] entries[i],
                new.name,
                registry,
            );
        assert(crate::sandbox::is_entry_of(after[i], new.name, registry));
    } else {
        assert(after.last() == new);
        assert(crate::sandbox::is_entry_of(after[entries.len() as int], new.name, registry));
    }
}

proof fn lemma_entries_include(
    last: Seq<PathEntryView>,
    middle: Seq<PathEntryView>,
    first: Seq<PathEntryView>,
)
    requires
        entries_include(last, middle),
        entries_include(middle, first),
    ensures
        entries_include(last, first),
{
    assert forall|i: int| 0 <= i < first.len() implies {
        &&& (#[trigger] last[i]).name == first[i].name
        &&& last[i].path_type.registry == first[i].path_type.registry
        &&& crate::sandbox::allows(last[i].exception, first[i].exception)
    } by {
        assert(middle[i].name == first[i].name);
    }
}

proof fn lemma_path_still_allows(
    after: Seq<PathEntryView>,
    before: Seq<PathEntryView>,
    name: PathNameView,
    registry: Option<RegistryView>,
    exception: PathException,
)
    requires
        entries_include(after, before),
        path_allows(before, name, registry, exception),
    ensures
        path_allows(after, name, registry, exception),
{
    let i = choose|i: int|
        {
            &&& 0 <= i < before.len()
            &&& crate::sandbox::is_entry_of(#[trigger] before[i], name, registry)
            &&& crate::sandbox::allows(before[i].exception, exception)
        };
    assert(after[i].name == before[i].name);
    assert(crate::sandbox::is_entry_of(after[i], name, registry));
}

/// What an exception that is added does to the entries: nothing is lost, and its path and the
/// target of a symlink allow it.
proof fn lemma_with_entries(
    entries: Seq<PathEntryView>,
    request: PathRequestView,
    to: DestinationView,
)
    requires
        crate::sandbox::paths_distinct(entries),
    ensures
        ({
            let after = crate::sandbox::with_entries(entries, request, to);
            &&& crate::sandbox::paths_distinct(after)
            &&& entries_include(after, entries)
            &&& path_allows(after, request.path, to.path_type.registry, request.exception)
            &&& to.link_target matches Some(target) ==> path_allows(
                after,
                target,
                None,
                request.exception,
            )
        }),
{
    let own = PathEntryView {
        name: request.path,
        path_type: to.path_type,
        exception: request.exception,
    };
    insert_adds_to_its_path_only(entries, own);
    if let Some(target) = to.link_target {
        let middle = crate::sandbox::insert_entry(entries, own);
        let linked = crate::sandbox::target_entry(target, request.exception);
        insert_adds_to_its_path_only(middle, linked);
        let after = crate::sandbox::insert_entry(middle, linked);
        lemma_entries_include(after, middle, entries);
        lemma_path_still_allows(
            after,
            middle,
            request.path,
            to.path_type.registry,
            request.exception,
        );
    }
}

/// An exception that is added to a sandbox, with the replies on the way.
pub struct Addition {
    pub exception: ExceptionView,
    pub replies: Seq<AddReplyView>,
}

/// The sandbox and where the exception stands after the replies.
pub open spec fn after_addition(sandbox: SandboxView, addition: Addition) -> Adding {
    match crate::sandbox::path_request(addition.exception) {
        Some(request) => run_adding(begin_adding(sandbox, request), addition.replies),
        None => Adding {
            sandbox: crate::sandbox::with_plain_exception(sandbox, addition.exception),
            state: AddStateView::Added,
        },
    }
}

/// The sandbox after several exceptions were added, or failed to be.
pub open spec fn after_additions(sandbox: SandboxView, additions: Seq<Addition>) -> SandboxView
    decreases additions.len(),
{
    if additions.len() == 0 {
        sandbox
    } else {
        after_additions(after_addition(sandbox, additions[0]).sandbox, additions.skip(1))
    }
}

/// Whether everything that is an exception to the sandbox `before` is one to `after`, which is a
/// sandbox with the same container.
pub open spec fn includes(after: SandboxView, before: SandboxView) -> bool {
    &&& before.env_exceptions.is_prefix_of(after.env_exceptions)
    &&& before.full_env ==> after.full_env
    &&& before.allow_networking ==> after.allow_networking
    &&& entries_include(after.path_exceptions, before.path_exceptions)
    &&& after.app_container_name == before.app_container_name
    &&& after.app_container_profile == before.app_container_profile
}

/// One exception, added or failed, takes none away, and keeps the paths distinct.
proof fn lemma_addition_grows(sandbox: SandboxView, addition: Addition)
    requires
        crate::sandbox::paths_distinct(sandbox.path_exceptions),
    ensures
        includes(after_addition(sandbox, addition).sandbox, sandbox),
        crate::sandbox::paths_distinct(after_addition(sandbox, addition).sandbox.path_exceptions),
{
    match crate::sandbox::path_request(addition.exception) {
        Some(request) => {
            exception_is_all_or_nothing(sandbox, request, addition.replies);
            lemma_with_entries(
                sandbox.path_exceptions,
                request,
                reached(request.path, addition.replies),
            );
            assert(sandbox.env_exceptions.is_prefix_of(sandbox.env_exceptions));
        },
        None => {
            plain_exceptions_accumulate(sandbox, addition.exception);
        },
    }
}

/// Exceptions only grow: whatever is added to a sandbox, and whatever of it fails, nothing that
/// was allowed before is taken away.
pub proof fn exceptions_only_grow(sandbox: SandboxView, additions: Seq<Addition>)
    requires
        crate::sandbox::paths_distinct(sandbox.path_exceptions),
    ensures
        includes(after_additions(sandbox, additions), sandbox),
    decreases additions.len(),
{
    if additions.len() > 0 {
        let next = after_addition(sandbox, additions[0]).sandbox;
        lemma_addition_grows(sandbox, additions[0]);
        exceptions_only_grow(next, additions.skip(1));
        lemma_includes_transitive(after_additions(sandbox, additions), next, sandbox);
    }
}

proof fn lemma_includes_transitive(last: SandboxView, middle: SandboxView, first: SandboxView)
    requires
        includes(last, middle),
        includes(middle, first),
    ensures
        includes(last, first),
{
    lemma_entries_include(last.path_exceptions, middle.path_exceptions, first.path_exceptions);
    let (a, b, c) = (first.env_exceptions, middle.env_exceptions, last.env_exceptions);
    assert(c.subrange(0, a.len() as int) =~= b.subrange(0, a.len() as int)) by {
        assert forall|i: int| 0 <= i < b.len() implies b[i] == #[trigger] c[i] by {
            assert(c.subrange(0, b.len() as int)[i] == c[i]);
        }
    }
}

/// No path ever has two entries in a sandbox: a new sandbox has none, and no addition changes
/// that.
pub proof fn paths_stay_distinct(sandbox: SandboxView, additions: Seq<Addition>)
    requires
        crate::sandbox::paths_distinct(sandbox.path_exceptions),
    ensures
        crate::sandbox::paths_distinct(after_additions(sandbox, additions).path_exceptions),
        forall|name: Seq<u16>, sid: usize|
            crate::sandbox::paths_distinct(
                (#[trigger] crate::sandbox::fresh_sandbox(name, sid)).path_exceptions,
            ),
    decreases additions.len(),
{
    if additions.len() > 0 {
        lemma_addition_grows(sandbox, additions[0]);
        paths_stay_distinct(after_addition(sandbox, additions[0]).sandbox, additions.skip(1));
    }
}

/// Starting a program after several replies.
pub open spec fn run_spawn(state: SpawnStateView, replies: Seq<SpawnReplyView>) -> SpawnStateView
    decreases replies.len(),
{
    if replies.len() == 0 {
        state
    } else {
        run_spawn(crate::spawn::next_spawn_state(state, replies[0]), replies.skip(1))
    }
}

/// What the container has been granted, one after the other, by the replies.
pub open spec fn completed_grants(state: SpawnStateView, replies: Seq<SpawnReplyView>) -> Seq<
    GrantTarget,
>
    decreases replies.len(),
{
    if replies.len() == 0 {
        Seq::empty()
    } else {
        let rest = completed_grants(
            crate::spawn::next_spawn_state(state, replies[0]),
            replies.skip(1),
        );
        match (state, replies[0]) {
            (SpawnStateView::Granting(_, _, grant), SpawnReplyView::Grant(reply)) => {
                if crate::grant::next_phase(grant, reply) is Granted {
                    seq![grant.target] + rest
                } else {
                    rest
                }
            },
            _ => rest,
        }
    }
}

/// A program that can be launched, or that cannot be started, stays that way: after a failure
/// nothing is ever launched.
pub proof fn spawn_end_is_final(state: SpawnStateView, replies: Seq<SpawnReplyView>)
    requires
        state is Ready || state is Failed,
    ensures
        run_spawn(state, replies) == state,
        completed_grants(state, replies).len() == 0,
    decreases replies.len(),
{
    if replies.len() > 0 {
        spawn_end_is_final(crate::spawn::next_spawn_state(state, replies[0]), replies.skip(1));
    }
}

/// What was replied, one after the other, to whether the path of an entry is a directory.
pub open spec fn directory_answers(state: SpawnStateView, replies: Seq<SpawnReplyView>) -> Seq<
    (PathEntryView, bool),
>
    decreases replies.len(),
{
    if replies.len() == 0 {
        Seq::empty()
    } else {
        let rest = directory_answers(
            crate::spawn::next_spawn_state(state, replies[0]),
            replies.skip(1),
        );
        match (state, replies[0]) {
            (SpawnStateView::Inspecting(_, _, entry), SpawnReplyView::IsDirectory(is_dir)) => {
                seq![(entry, is_dir)] + rest
            },
            _ => rest,
        }
    }
}

/// Whether the grants are those for the entries, in their order, where each entry in the file
/// system has its answer to whether its path is a directory.
pub open spec fn grants_cover(
    grants: Seq<GrantTarget>,
    sid: SidView,
    entries: Seq<PathEntryView>,
    answers: Seq<(PathEntryView, bool)>,
) -> bool
    decreases entries.len(),
{
    if entries.len() == 0 {
        grants.len() == 0 && answers.len() == 0
    } else {
        match entries[0].path_type.registry {
            Some(_) => {
                &&& grants.len() > 0
                &&& grants[0] == crate::spawn::entry_target(sid, entries[0], false)
                &&& grants_cover(grants.skip(1), sid, entries.skip(1), answers)
            },
            None => {
                &&& grants.len() > 0
                &&& answers.len() > 0
                &&& answers[0].0 == entries[0]
                &&& grants[0] == crate::spawn::entry_target(sid, entries[0], answers[0].1)
                &&& grants_cover(grants.skip(1), sid, entries.skip(1), answers.skip(1))
            },
        }
    }
}

/// What the rest of starting a program owes, where it comes to launching.
spec fn spawn_owes(
    state: SpawnStateView,
    grants: Seq<GrantTarget>,
    answers: Seq<(PathEntryView, bool)>,
    launch: LaunchView,
) -> bool {
    match state {
        SpawnStateView::Inspecting(plan, profile, entry) => {
            &&& launch.profile == profile
            &&& grants.len() > 0
            &&& answers.len() > 0
            &&& answers[0].0 == entry
            &&& grants[0] == crate::spawn::entry_target(profile.sid, entry, answers[0].1)
            &&& grants_cover(grants.skip(1), profile.sid, plan.remaining, answers.skip(1))
        },
        SpawnStateView::Granting(plan, profile, grant) => {
            &&& launch.profile == profile
            &&& grants.len() > 0
            &&& grants[0] == grant.target
            &&& grants_cover(grants.skip(1), profile.sid, plan.remaining, answers)
        },
        SpawnStateView::ReadingEnvironment(_, profile) => {
            &&& launch.profile == profile
            &&& grants.len() == 0
            &&& answers.len() == 0
        },
        SpawnStateView::Ready(ready) => {
            &&& launch == ready
            &&& grants.len() == 0
            &&& answers.len() == 0
        },
        SpawnStateView::Failed(_) => false,
        _ => grants_cover(grants, launch.profile.sid, state_plan(state)->0.remaining, answers),
    }
}

/// What is owed once everything before the remaining exceptions is done.
proof fn lemma_owes_after_grants(
    plan: SpawnPlanView,
    profile: ProfileView,
    grants: Seq<GrantTarget>,
    answers: Seq<(PathEntryView, bool)>,
    launch: LaunchView,
)
    requires
        spawn_owes(crate::spawn::after_grants(plan, profile), grants, answers, launch),
    ensures
        launch.profile == profile,
        grants_cover(grants, profile.sid, plan.remaining, answers),
{
}

proof fn lemma_spawn_owes(state: SpawnStateView, replies: Seq<SpawnReplyView>, launch: LaunchView)
    requires
        run_spawn(state, replies) == SpawnStateView::Ready(launch),
    ensures
        spawn_owes(
            state,
            completed_grants(state, replies),
            directory_answers(state, replies),
            launch,
        ),
    decreases replies.len(),
{
    if replies.len() > 0 {
        let next = crate::spawn::next_spawn_state(state, replies[0]);
        let rest = completed_grants(next, replies.skip(1));
        let answers = directory_answers(next, replies.skip(1));
        lemma_spawn_owes(next, replies.skip(1), launch);
        match (state, replies[0]) {
            (
                SpawnStateView::CreatingProfile(plan, name),
                SpawnReplyView::ProfileCreated(Ok(sid)),
            ) => {
                lemma_owes_after_grants(
                    plan,
                    ProfileView { name, sid: SidView::Raw(sid) },
                    rest,
                    answers,
                    launch,
                );
            },
            (
                SpawnStateView::Inspecting(_, _, entry),
                SpawnReplyView::IsDirectory(is_dir),
            ) => {
                assert((seq![(entry, is_dir)] + answers).skip(1) =~= answers);
            },
            (SpawnStateView::Granting(plan, profile, grant), SpawnReplyView::Grant(reply)) => {
                if crate::grant::next_phase(grant, reply) is Granted {
                    lemma_owes_after_grants(plan, profile, rest, answers, launch);
                    assert((seq![grant.target] + rest).skip(1) =~= rest);
                }
            },
            _ => {},
        }
    }
}

/// Nothing is launched before its container has been granted access to every exception of the
/// sandbox, each once and in their order, with the rights that were asked for and by what was
/// replied to whether its path is a directory.
pub proof fn launch_only_after_every_grant(
    sandbox: SandboxView,
    threads: nat,
    replies: Seq<SpawnReplyView>,
    launch: LaunchView,
)
    requires
        run_spawn(crate::spawn::first_spawn_state(sandbox, threads), replies)
            == SpawnStateView::Ready(launch),
    ensures
        grants_cover(
            completed_grants(crate::spawn::first_spawn_state(sandbox, threads), replies),
            launch.profile.sid,
            crate::sandbox::launch_entries(sandbox.path_exceptions),
            directory_answers(crate::spawn::first_spawn_state(sandbox, threads), replies),
        ),
{
    lemma_spawn_owes(crate::spawn::first_spawn_state(sandbox, threads), replies, launch);
}

/// From a process of more than one thread nothing is launched, and nothing is granted.
pub proof fn no_launch_unless_single_threaded(
    sandbox: SandboxView,
    threads: nat,
    replies: Seq<SpawnReplyView>,
)
    requires
        threads > 1,
    ensures
        run_spawn(crate::spawn::first_spawn_state(sandbox, threads), replies)
            == SpawnStateView::Failed(crate::error::ErrorView::NotSingleThreaded),
        completed_grants(
            crate::spawn::first_spawn_state(sandbox, threads),
            replies,
        ).len() == 0,
{
    spawn_end_is_final(crate::spawn::first_spawn_state(sandbox, threads), replies);
}

/// The grant for each entry, and the answer that it goes by.
proof fn lemma_cover_index(
    grants: Seq<GrantTarget>,
    sid: SidView,
    entries: Seq<PathEntryView>,
    answers: Seq<(PathEntryView, bool)>,
    i: int,
) -> (is_dir: bool)
    requires
        grants_cover(grants, sid, entries, answers),
        0 <= i < entries.len(),
    ensures
        grants.len() == entries.len(),
        grants[i] == crate::spawn::entry_target(sid, entries[i], is_dir),
        entries[i].path_type.registry is None ==> answers.contains((entries[i], is_dir)),
    decreases entries.len(),
{
    lemma_cover_len(grants, sid, entries, answers);
    let later = match entries[0].path_type.registry {
        Some(_) => answers,
        None => answers.skip(1),
    };
    if i == 0 {
        if entries[0].path_type.registry is None {
            assert(answers[0] == (entries[0], answers[0].1));
            answers[0].1
        } else {
            false
        }
    } else {
        let is_dir = lemma_cover_index(grants.skip(1), sid, entries.skip(1), later, i - 1);
        if later.contains((entries[i], is_dir)) {
            let k = choose|k: int| 0 <= k < later.len() && later[k] == (entries[i], is_dir);
            if entries[0].path_type.registry is None {
                assert(answers[k + 1] == later[k]);
            }
        }
        is_dir
    }
}

proof fn lemma_cover_len(
    grants: Seq<GrantTarget>,
    sid: SidView,
    entries: Seq<PathEntryView>,
    answers: Seq<(PathEntryView, bool)>,
)
    requires
        grants_cover(grants, sid, entries, answers),
    ensures
        grants.len() == entries.len(),
    decreases entries.len(),
{
    if entries.len() > 0 {
        let later = match entries[0].path_type.registry {
            Some(_) => answers,
            None => answers.skip(1),
        };
        lemma_cover_len(grants.skip(1), sid, entries.skip(1), later);
    }
}

/// Only of entries it was replied whether they are directories.
proof fn lemma_answers_for_entries(
    grants: Seq<GrantTarget>,
    sid: SidView,
    entries: Seq<PathEntryView>,
    answers: Seq<(PathEntryView, bool)>,
    k: int,
)
    requires
        grants_cover(grants, sid, entries, answers),
        0 <= k < answers.len(),
    ensures
        exists|i: int| 0 <= i < entries.len() && #[trigger] entries[i] == answers[k].0,
    decreases entries.len(),
{
    if entries[0].path_type.registry is None && k == 0 {
        assert(entries[0] == answers[0].0);
    } else {
        let (later, at) = match entries[0].path_type.registry {
            Some(_) => (answers, k),
            None => (answers.skip(1), k - 1),
        };
        lemma_answers_for_entries(grants.skip(1), sid, entries.skip(1), later, at);
        let i = choose|i: int|
            0 <= i < entries.skip(1).len() && #[trigger] entries.skip(1)[i] == later[at].0;
        assert(entries[i + 1] == answers[k].0);
    }
}

/// Of each entry it was replied once at most.
proof fn lemma_answered_once(
    grants: Seq<GrantTarget>,
    sid: SidView,
    entries: Seq<PathEntryView>,
    answers: Seq<(PathEntryView, bool)>,
    j: int,
    k: int,
)
    requires
        grants_cover(grants, sid, entries, answers),
        crate::sandbox::paths_distinct(entries),
        0 <= j < k < answers.len(),
    ensures
        answers[j].0 != answers[k].0,
    decreases entries.len(),
{
    let rest = entries.skip(1);
    assert(crate::sandbox::paths_distinct(rest)) by {
        assert forall|a: int, b: int| 0 <= a < b < rest.len() implies !crate::sandbox::is_entry_of(
            #[trigger] rest[a],
            (#[trigger] rest[b]).name,
            rest[b].path_type.registry,
        ) by {
            assert(!crate::sandbox::is_entry_of(
                entries[a + 1],
                entries[b + 1].name,
                entries[b + 1].path_type.registry,
            ));
        }
    }
    match entries[0].path_type.registry {
        Some(_) => lemma_answered_once(grants.skip(1), sid, rest, answers, j, k),
        None => {
            let later = answers.skip(1);
            if j == 0 {
                lemma_answers_for_entries(grants.skip(1), sid, rest, later, k - 1);
                let i = choose|i: int| 0 <= i < rest.len() && #[trigger] rest[i] == later[k - 1].0;
                assert(entries[i + 1] == answers[k].0);
                assert(!crate::sandbox::is_entry_of(
                    entries[0],
                    entries[i + 1].name,
                    entries[i + 1].path_type.registry,
                ));
            } else {
                lemma_answered_once(grants.skip(1), sid, rest, later, j - 1, k - 1);
                assert(later[j - 1] == answers[j] && later[k - 1] == answers[k]);
            }
        },
    }
}

/// Whether it was replied of the path of an entry that it is a directory, or that it is none, and
/// not the opposite as well.
pub open spec fn was_answered(
    answers: Seq<(PathEntryView, bool)>,
    entry: PathEntryView,
    is_dir: bool,
) -> bool {
    answers.contains((entry, is_dir)) && !answers.contains((entry, !is_dir))
}

/// Whether a grant gives the rights of an exception: reading, and what was asked for besides.
pub open spec fn gives_rights(grant: GrantTarget, exception: PathException) -> bool {
    let mask = grant.entry.access_permissions;
    if grant.object_type == crate::path_type::ObjectType::FileObject {
        let rights = crate::win32::file_rights();
        &&& crate::access::mask_includes(mask, rights.generic_read)
        &&& exception.write ==> crate::access::mask_includes(mask, rights.generic_write)
        &&& exception.execute ==> crate::access::mask_includes(mask, rights.generic_execute)
    } else {
        let rights = crate::win32::registry_rights();
        &&& crate::access::mask_includes(mask, rights.read)
        &&& exception.write ==> crate::access::mask_includes(mask, rights.write)
        &&& exception.execute ==> crate::access::mask_includes(mask, rights.execute)
    }
}

/// Whether a grant reaches what is beneath its object.
pub open spec fn reaches_beneath(grant: GrantTarget) -> bool {
    grant.entry.inheritance == crate::win32::entry_codes().inherit_all
}

/// Whether a grant lets the container `sid` do what an exception allows, with the object of a
/// path and, unless the path is in the file system and no directory, with what is beneath it.
pub open spec fn grant_fulfils(
    grant: GrantTarget,
    sid: SidView,
    entry: PathEntryView,
    is_dir: bool,
) -> bool {
    let registry = entry.path_type.registry;
    &&& grant.name == crate::sandbox::launch_name(entry.name, registry)
    &&& grant.object_type == crate::path_type::view_object_type(registry)
    &&& grant.entry.sid == sid
    &&& gives_rights(grant, entry.exception)
    &&& (registry is Some || is_dir ==> reaches_beneath(grant))
}

/// The grant for an entry lets the container do what its exception allows.
pub proof fn entry_grant_fulfils_exception(sid: SidView, entry: PathEntryView, is_dir: bool)
    ensures
        grant_fulfils(crate::spawn::entry_target(sid, entry, is_dir), sid, entry, is_dir),
{
    let (write, execute) = (entry.exception.write, entry.exception.execute);
    crate::access::every_mask_allows_reading(write, execute, is_dir);
    crate::access::masks_allow_what_was_asked(write, execute, is_dir);
}

/// Whether the container `sid` was granted what the `i`-th entry of a sandbox allows, and what
/// all exceptions to the same object do, with what is beneath it where its path was replied to be
/// a directory.
pub open spec fn exception_holds(
    sandbox: SandboxView,
    threads: nat,
    replies: Seq<SpawnReplyView>,
    sid: SidView,
    i: int,
    is_dir: bool,
) -> bool {
    let first = crate::spawn::first_spawn_state(sandbox, threads);
    let entry = crate::sandbox::launch_entries(sandbox.path_exceptions)[i];
    let grants = completed_grants(first, replies);
    &&& 0 <= i < sandbox.path_exceptions.len() == grants.len()
    &&& grant_fulfils(grants[i], sid, entry, is_dir)
    &&& entry.path_type.registry is None ==> was_answered(
        directory_answers(first, replies),
        entry,
        is_dir,
    )
    &&& forall|j: int|
        0 <= j < sandbox.path_exceptions.len() && (#[trigger] sandbox.path_exceptions[j]).path_type
            == entry.path_type ==> gives_rights(grants[i], sandbox.path_exceptions[j].exception)
}

/// What the entries that access is granted by say: the names and objects of those that were kept,
/// with at least their rights, and no path twice.
proof fn lemma_launch_entries(entries: Seq<PathEntryView>)
    requires
        crate::sandbox::paths_distinct(entries),
    ensures
        ({
            let shared = crate::sandbox::launch_entries(entries);
            &&& shared.len() == entries.len()
            &&& crate::sandbox::paths_distinct(shared)
            &&& forall|i: int|
                0 <= i < entries.len() ==> (#[trigger] shared[i]).name == entries[i].name
                    && shared[i].path_type == entries[i].path_type
            &&& forall|i: int, j: int|
                0 <= i < entries.len() && 0 <= j < entries.len() && entries[j].path_type
                    == entries[i].path_type ==> crate::sandbox::allows(
                    (#[trigger] shared[i]).exception,
                    (#[trigger] entries[j]).exception,
                )
        }),
{
    let shared = crate::sandbox::launch_entries(entries);
    assert forall|i: int, j: int| 0 <= i < j < shared.len() implies !crate::sandbox::is_entry_of(
        #[trigger] shared[i],
        (#[trigger] shared[j]).name,
        shared[j].path_type.registry,
    ) by {
        assert(!crate::sandbox::is_entry_of(
            entries[i],
            entries[j].name,
            entries[j].path_type.registry,
        ));
    }
}

/// Every exception to a path is there when a program is launched: the container of the program
/// has been granted what it allows, with what is beneath a directory. No grant takes from another:
/// each gives what all exceptions to its object allow.
pub proof fn kept_exceptions_hold_at_launch(
    sandbox: SandboxView,
    threads: nat,
    replies: Seq<SpawnReplyView>,
    launch: LaunchView,
    i: int,
)
    requires
        crate::sandbox::paths_distinct(sandbox.path_exceptions),
        0 <= i < sandbox.path_exceptions.len(),
        run_spawn(crate::spawn::first_spawn_state(sandbox, threads), replies)
            == SpawnStateView::Ready(launch),
    ensures
        exists|is_dir: bool| #[trigger]
            exception_holds(sandbox, threads, replies, launch.profile.sid, i, is_dir),
{
    let first = crate::spawn::first_spawn_state(sandbox, threads);
    let grants = completed_grants(first, replies);
    let answers = directory_answers(first, replies);
    let sid = launch.profile.sid;
    let entries = crate::sandbox::launch_entries(sandbox.path_exceptions);
    lemma_launch_entries(sandbox.path_exceptions);
    launch_only_after_every_grant(sandbox, threads, replies, launch);
    let is_dir = lemma_cover_index(grants, sid, entries, answers, i);
    entry_grant_fulfils_exception(sid, entries[i], is_dir);
    if answers.contains((entries[i], is_dir)) && answers.contains((entries[i], !is_dir)) {
        let j = choose|j: int| 0 <= j < answers.len() && answers[j] == (entries[i], is_dir);
        let k = choose|k: int| 0 <= k < answers.len() && answers[k] == (entries[i], !is_dir);
        if j < k {
            lemma_answered_once(grants, sid, entries, answers, j, k);
        } else {
            lemma_answered_once(grants, sid, entries, answers, k, j);
        }
    }
    assert(exception_holds(sandbox, threads, replies, sid, i, is_dir));
}

/// No two grants of one launch are to the same object: their names or the kinds of their objects
/// differ.
pub proof fn launch_grants_differ(
    sandbox: SandboxView,
    threads: nat,
    replies: Seq<SpawnReplyView>,
    launch: LaunchView,
    i: int,
    j: int,
)
    requires
        crate::sandbox::paths_distinct(sandbox.path_exceptions),
        run_spawn(crate::spawn::first_spawn_state(sandbox, threads), replies)
            == SpawnStateView::Ready(launch),
        0 <= i < j < completed_grants(
            crate::spawn::first_spawn_state(sandbox, threads),
            replies,
        ).len(),
    ensures
        ({
            let grants = completed_grants(
                crate::spawn::first_spawn_state(sandbox, threads),
                replies,
            );
            (grants[i].name, grants[i].object_type) != (grants[j].name, grants[j].object_type)
        }),
{
    let first = crate::spawn::first_spawn_state(sandbox, threads);
    let grants = completed_grants(first, replies);
    let answers = directory_answers(first, replies);
    let entries = crate::sandbox::launch_entries(sandbox.path_exceptions);
    lemma_launch_entries(sandbox.path_exceptions);
    launch_only_after_every_grant(sandbox, threads, replies, launch);
    lemma_cover_len(grants, launch.profile.sid, entries, answers);
    lemma_cover_index(grants, launch.profile.sid, entries, answers, i);
    lemma_cover_index(grants, launch.profile.sid, entries, answers, j);
    assert(!crate::sandbox::is_entry_of(
        entries[i],
        entries[j].name,
        entries[j].path_type.registry,
    ));
}

/// Whether the container `sid` was granted what an exception to a path allows, by the name of an
/// entry of that path.
pub open spec fn path_holds(
    sandbox: SandboxView,
    threads: nat,
    replies: Seq<SpawnReplyView>,
    sid: SidView,
    name: PathNameView,
    registry: Option<RegistryView>,
    exception: PathException,
) -> bool {
    exists|i: int, is_dir: bool|
        {
            &&& #[trigger] exception_holds(sandbox, threads, replies, sid, i, is_dir)
            &&& crate::sandbox::is_entry_of(sandbox.path_exceptions[i], name, registry)
            &&& gives_rights(
                completed_grants(
                    crate::spawn::first_spawn_state(sandbox, threads),
                    replies,
                )[i],
                exception,
            )
        }
}

proof fn lemma_path_holds(
    sandbox: SandboxView,
    threads: nat,
    replies: Seq<SpawnReplyView>,
    launch: LaunchView,
    name: PathNameView,
    registry: Option<RegistryView>,
    exception: PathException,
)
    requires
        crate::sandbox::paths_distinct(sandbox.path_exceptions),
        path_allows(sandbox.path_exceptions, name, registry, exception),
        run_spawn(crate::spawn::first_spawn_state(sandbox, threads), replies)
            == SpawnStateView::Ready(launch),
    ensures
        path_holds(sandbox, threads, replies, launch.profile.sid, name, registry, exception),
{
    let entries = sandbox.path_exceptions;
    let i = choose|i: int|
        {
            &&& 0 <= i < entries.len()
            &&& crate::sandbox::is_entry_of(#[trigger] entries[i], name, registry)
            &&& crate::sandbox::allows(entries[i].exception, exception)
        };
    kept_exceptions_hold_at_launch(sandbox, threads, replies, launch, i);
    let is_dir = choose|is_dir: bool| #[trigger]
        exception_holds(sandbox, threads, replies, launch.profile.sid, i, is_dir);
    assert(exception_holds(sandbox, threads, replies, launch.profile.sid, i, is_dir));
    assert(entries[i].path_type == crate::sandbox::launch_entries(entries)[i].path_type);
}

/// An exception to a path that has been added is there when a program is launched, whatever was
/// added since: the container of the program has been granted what the exception allows to the
/// path, and, where that was a symlink, also to its target, each with everything beneath it where
/// it is a directory.
pub proof fn added_exception_holds_at_launch(
    sandbox: SandboxView,
    request: PathRequestView,
    addition: Addition,
    later: Seq<Addition>,
    threads: nat,
    replies: Seq<SpawnReplyView>,
    launch: LaunchView,
)
    requires
        crate::sandbox::paths_distinct(sandbox.path_exceptions),
        crate::sandbox::path_request(addition.exception) == Some(request),
        after_addition(sandbox, addition).state is Added,
        run_spawn(
            crate::spawn::first_spawn_state(
                after_additions(after_addition(sandbox, addition).sandbox, later),
                threads,
            ),
            replies,
        ) == SpawnStateView::Ready(launch),
    ensures
        ({
            let last = after_additions(after_addition(sandbox, addition).sandbox, later);
            let sid = launch.profile.sid;
            &&& path_holds(
                last,
                threads,
                replies,
                sid,
                request.path,
                crate::path_type::path_registry_view(request.path.units),
                request.exception,
            )
            &&& reached(request.path, addition.replies).link_target matches Some(target)
                ==> path_holds(last, threads, replies, sid, target, None, request.exception)
        }),
{
    let after = after_addition(sandbox, addition).sandbox;
    let last = after_additions(after, later);
    let to = reached(request.path, addition.replies);
    let registry = crate::path_type::path_registry_view(request.path.units);
    exception_is_all_or_nothing(sandbox, request, addition.replies);
    lemma_reached_kind(request.path, addition.replies);
    lemma_with_entries(sandbox.path_exceptions, request, to);
    exceptions_only_grow(after, later);
    paths_stay_distinct(after, later);
    lemma_path_still_allows(
        last.path_exceptions,
        after.path_exceptions,
        request.path,
        registry,
        request.exception,
    );
    lemma_path_holds(last, threads, replies, launch, request.path, registry, request.exception);
    if let Some(target) = to.link_target {
        lemma_path_still_allows(
            last.path_exceptions,
            after.path_exceptions,
            target,
            None,
            request.exception,
        );
        lemma_path_holds(last, threads, replies, launch, target, None, request.exception);
    }
}

/// What kind of object a path names does not depend on the replies.
proof fn lemma_reached_kind(path: PathNameView, replies: Seq<AddReplyView>)
    ensures
        reached(path, replies).path_type.registry == crate::path_type::path_registry_view(
            path.units,
        ),
    decreases replies.len(),
{
    if crate::path_type::path_registry_view(path.units) is None && replies.len() > 0 {
        lemma_reached_kind(path, replies.skip(1));
    }
}

/// Two exceptions to one path join, whatever was added between them and wherever the path led to
/// each time: one entry of the path allows what both do.
pub proof fn exceptions_to_a_path_join(
    sandbox: SandboxView,
    first: Addition,
    between: Seq<Addition>,
    second: Addition,
    one: PathRequestView,
    two: PathRequestView,
)
    requires
        crate::sandbox::paths_distinct(sandbox.path_exceptions),
        crate::sandbox::path_request(first.exception) == Some(one),
        crate::sandbox::path_request(second.exception) == Some(two),
        one.path == two.path,
        after_addition(sandbox, first).state is Added,
        after_addition(
            after_additions(after_addition(sandbox, first).sandbox, between),
            second,
        ).state is Added,
    ensures
        path_allows(
            after_addition(
                after_additions(after_addition(sandbox, first).sandbox, between),
                second,
            ).sandbox.path_exceptions,
            one.path,
            crate::path_type::path_registry_view(one.path.units),
            crate::sandbox::joined(one.exception, two.exception),
        ),
{
    let after = after_addition(sandbox, first).sandbox;
    let before = after_additions(after, between);
    let registry = crate::path_type::path_registry_view(one.path.units);
    exception_is_all_or_nothing(sandbox, one, first.replies);
    lemma_reached_kind(one.path, first.replies);
    lemma_with_entries(sandbox.path_exceptions, one, reached(one.path, first.replies));
    exceptions_only_grow(after, between);
    paths_stay_distinct(after, between);
    lemma_path_still_allows(
        before.path_exceptions,
        after.path_exceptions,
        one.path,
        registry,
        one.exception,
    );
    exception_is_all_or_nothing(before, two, second.replies);
    lemma_reached_kind(two.path, second.replies);
    let to = reached(two.path, second.replies);
    let own = PathEntryView {
        name: two.path,
        path_type: to.path_type,
        exception: two.exception,
    };
    insert_adds_to_its_path_only(before.path_exceptions, own);
    let middle = crate::sandbox::insert_entry(before.path_exceptions, own);
    let i = choose|i: int|
        {
            &&& 0 <= i < before.path_exceptions.len()
            &&& crate::sandbox::is_entry_of(
                #[trigger] before.path_exceptions[i],
                one.path,
                registry,
            )
            &&& crate::sandbox::allows(before.path_exceptions[i].exception, one.exception)
        };
    assert(middle[i].name == before.path_exceptions[i].name);
    assert(crate::sandbox::is_entry_of(middle[i], one.path, registry));
    let both = crate::sandbox::joined(one.exception, two.exception);
    assert(path_allows(middle, one.path, registry, both));
    if let Some(target) = to.link_target {
        let linked = crate::sandbox::target_entry(target, two.exception);
        insert_adds_to_its_path_only(middle, linked);
        lemma_path_still_allows(
            crate::sandbox::insert_entry(middle, linked),
            middle,
            one.path,
            registry,
            both,
        );
    }
}

/// An exception that is not to a path takes none away that was there before.
pub proof fn plain_exceptions_accumulate(
    sandbox: SandboxView,
    exception: ExceptionView,
)
    ensures
        ({
            let after = crate::sandbox::with_plain_exception(sandbox, exception);
            &&& sandbox.env_exceptions.is_prefix_of(after.env_exceptions)
            &&& exception matches ExceptionView::Environment(name)
                ==> after.env_exceptions.contains(name)
            &&& sandbox.full_env ==> after.full_env
            &&& sandbox.allow_networking ==> after.allow_networking
            &&& after.path_exceptions == sandbox.path_exceptions
            &&& after.app_container_name == sandbox.app_container_name
            &&& after.app_container_profile == sandbox.app_container_profile
        }),
{
    let after = crate::sandbox::with_plain_exception(sandbox, exception);
    match exception {
        ExceptionView::Environment(new) => {
            assert(after.env_exceptions.last() == new);
            assert(after.env_exceptions.subrange(0, sandbox.env_exceptions.len() as int)
                =~= sandbox.env_exceptions);
        },
        _ => {
            assert(sandbox.env_exceptions.is_prefix_of(sandbox.env_exceptions));
        },
    }
}

/// The plan that a state carries on.
spec fn state_plan(state: SpawnStateView) -> Option<SpawnPlanView> {
    match state {
        SpawnStateView::Sizing(plan) => Some(plan),
        SpawnStateView::WritingSid(plan, _) => Some(plan),
        SpawnStateView::Naming(plan) => Some(plan),
        SpawnStateView::CreatingProfile(plan, _) => Some(plan),
        SpawnStateView::Inspecting(plan, _, _) => Some(plan),
        SpawnStateView::Granting(plan, _, _) => Some(plan),
        SpawnStateView::ReadingEnvironment(plan, _) => Some(plan),
        SpawnStateView::Ready(_) => None,
        SpawnStateView::Failed(_) => None,
    }
}

/// Whether the variables to remove are those of some names that were replied.
pub open spec fn removed_from_reply(
    removed: Seq<Seq<u16>>,
    exceptions: Seq<Seq<char>>,
    replies: Seq<SpawnReplyView>,
) -> bool {
    exists|i: int|
        {
            &&& 0 <= i < replies.len()
            &&& #[trigger] replies[i] matches SpawnReplyView::Environment(command, process)
            &&& removed == crate::environment::removed_variables(command + process, exceptions)
        }
}

/// Whether a capability is that of networking, with an identifier that the system wrote.
pub open spec fn is_network_capability(
    capability: CapabilityView,
    replies: Seq<SpawnReplyView>,
) -> bool {
    &&& capability.attributes == crate::win32::network_capability().attributes
    &&& exists|i: int|
        {
            &&& 0 <= i < replies.len()
            &&& #[trigger] replies[i] matches SpawnReplyView::SidWritten(Ok(data))
            &&& capability.sid == SidView::WellKnown(data)
        }
}

/// Whether the capabilities are those that a state has, with the one for networking added where
/// the state still owes it.
spec fn adds_owed_capability(
    capabilities: Seq<CapabilityView>,
    state: SpawnStateView,
    replies: Seq<SpawnReplyView>,
) -> bool {
    let had = state_plan(state)->0.capabilities;
    if state is Sizing || state is WritingSid {
        &&& capabilities.len() == had.len() + 1
        &&& capabilities.drop_last() == had
        &&& is_network_capability(capabilities.last(), replies)
    } else {
        capabilities == had
    }
}

proof fn lemma_network_capability_earlier(
    capability: CapabilityView,
    replies: Seq<SpawnReplyView>,
)
    requires
        replies.len() > 0,
        is_network_capability(capability, replies.skip(1)),
    ensures
        is_network_capability(capability, replies),
{
    let rest = replies.skip(1);
    let i = choose|i: int|
        {
            &&& 0 <= i < rest.len()
            &&& #[trigger] rest[i] matches SpawnReplyView::SidWritten(Ok(data))
            &&& capability.sid == SidView::WellKnown(data)
        };
    assert(replies[i + 1] == rest[i]);
}

proof fn lemma_launch(state: SpawnStateView, replies: Seq<SpawnReplyView>, launch: LaunchView)
    requires
        run_spawn(state, replies) == SpawnStateView::Ready(launch),
        state_plan(state) is Some,
    ensures
        state_plan(state)->0.full_env ==> launch.removed.len() == 0 || state is ReadingEnvironment,
        !state_plan(state)->0.full_env ==> removed_from_reply(
            launch.removed,
            state_plan(state)->0.env_exceptions,
            replies,
        ),
        adds_owed_capability(launch.capabilities, state, replies),
    decreases replies.len(),
{
    if replies.len() > 0 {
        let next = crate::spawn::next_spawn_state(state, replies[0]);
        let rest = replies.skip(1);
        if state_plan(next) is Some {
            lemma_launch(next, rest, launch);
            let plan = state_plan(state)->0;
            if next is Sizing || next is WritingSid {
                lemma_network_capability_earlier(launch.capabilities.last(), replies);
            } else if state is WritingSid {
                assert(replies[0] is SidWritten);
                assert(launch.capabilities.drop_last() =~= plan.capabilities);
            }
            if !plan.full_env {
                let i = choose|i: int|
                    {
                        &&& 0 <= i < rest.len()
                        &&& #[trigger] rest[i] matches SpawnReplyView::Environment(command, process)
                        &&& launch.removed == crate::environment::removed_variables(
                            command + process,
                            plan.env_exceptions,
                        )
                    };
                assert(replies[i + 1] == rest[i]);
            }
        } else {
            spawn_end_is_final(next, rest);
        }
    }
}

/// A launched program keeps of its environment what the exceptions allow: all of it where that
/// is an exception, and otherwise the variables named by exceptions and `LOCALAPPDATA`, whatever
/// variables there are.
pub proof fn launch_removes_the_rest_of_the_environment(
    sandbox: SandboxView,
    threads: nat,
    replies: Seq<SpawnReplyView>,
    launch: LaunchView,
)
    requires
        run_spawn(crate::spawn::first_spawn_state(sandbox, threads), replies)
            == SpawnStateView::Ready(launch),
    ensures
        sandbox.full_env ==> launch.removed.len() == 0,
        !sandbox.full_env ==> removed_from_reply(launch.removed, sandbox.env_exceptions, replies),
        forall|name: Seq<char>| #[trigger]
            sandbox.env_exceptions.contains(name) ==> !launch.removed.contains(
                crate::wide::encode_utf16(name),
            ),
        !launch.removed.contains(crate::wide::encode_utf16("LOCALAPPDATA"@)),
{
    if threads > 1 {
        no_launch_unless_single_threaded(sandbox, threads, replies);
    }
    lemma_launch(crate::spawn::first_spawn_state(sandbox, threads), replies, launch);
    if !sandbox.full_env {
        let exceptions = sandbox.env_exceptions;
        let i = choose|i: int|
            {
                &&& 0 <= i < replies.len()
                &&& #[trigger] replies[i] matches SpawnReplyView::Environment(command, process)
                &&& launch.removed == crate::environment::removed_variables(
                    command + process,
                    exceptions,
                )
            };
        let names = replies[i]->Environment_0 + replies[i]->Environment_1;
        crate::environment::removed_exactly_the_rest(
            names,
            exceptions,
            crate::wide::encode_utf16("LOCALAPPDATA"@),
        );
        assert forall|name: Seq<char>| #[trigger]
            exceptions.contains(name) implies !launch.removed.contains(
            crate::wide::encode_utf16(name),
        ) by {
            let k = choose|k: int| 0 <= k < exceptions.len() && exceptions[k] == name;
            assert(crate::wide::encode_utf16(exceptions[k]) == crate::wide::encode_utf16(name));
            crate::environment::removed_exactly_the_rest(
                names,
                exceptions,
                crate::wide::encode_utf16(name),
            );
        }
    }
}

/// A launched program has the network capability if and only if networking is an exception, and
/// no other capability.
pub proof fn launch_allows_networking_only_if_asked(
    sandbox: SandboxView,
    threads: nat,
    replies: Seq<SpawnReplyView>,
    launch: LaunchView,
)
    requires
        run_spawn(crate::spawn::first_spawn_state(sandbox, threads), replies)
            == SpawnStateView::Ready(launch),
    ensures
        sandbox.allow_networking ==> launch.capabilities.len() == 1 && is_network_capability(
            launch.capabilities[0],
            replies,
        ),
        !sandbox.allow_networking ==> launch.capabilities.len() == 0,
{
    if threads > 1 {
        no_launch_unless_single_threaded(sandbox, threads, replies);
    }
    lemma_launch(crate::spawn::first_spawn_state(sandbox, threads), replies, launch);
}

/// An exception that is not to a path is there when a program is launched, whatever was added
/// since: a variable named by one is not removed, none is where all are allowed, and networking
/// is a capability.
pub proof fn added_plain_exception_holds_at_launch(
    sandbox: SandboxView,
    addition: Addition,
    later: Seq<Addition>,
    threads: nat,
    replies: Seq<SpawnReplyView>,
    launch: LaunchView,
)
    requires
        crate::sandbox::paths_distinct(sandbox.path_exceptions),
        run_spawn(
            crate::spawn::first_spawn_state(
                after_additions(after_addition(sandbox, addition).sandbox, later),
                threads,
            ),
            replies,
        ) == SpawnStateView::Ready(launch),
    ensures
        match addition.exception {
            ExceptionView::Environment(name) => !launch.removed.contains(
                crate::wide::encode_utf16(name),
            ),
            ExceptionView::FullEnvironment => launch.removed.len() == 0,
            ExceptionView::Networking => launch.capabilities.len() == 1 && is_network_capability(
                launch.capabilities[0],
                replies,
            ),
            _ => true,
        },
{
    let after = after_addition(sandbox, addition).sandbox;
    let last = after_additions(after, later);
    lemma_addition_grows(sandbox, addition);
    exceptions_only_grow(after, later);
    launch_removes_the_rest_of_the_environment(last, threads, replies, launch);
    launch_allows_networking_only_if_asked(last, threads, replies, launch);
    if let ExceptionView::Environment(name) = addition.exception {
        plain_exceptions_accumulate(sandbox, addition.exception);
        let k = choose|k: int| 0 <= k < after.env_exceptions.len() && after.env_exceptions[k] == name;
        assert(last.env_exceptions.subrange(0, after.env_exceptions.len() as int)[k] == name);
        assert(last.env_exceptions[k] == name);
    }
}

/// By default everything is prohibited: from a new sandbox a program is launched without any
/// access granted and without capabilities, and of all its environment it keeps `LOCALAPPDATA`
/// alone.
pub proof fn everything_is_prohibited_by_default(
    name: Seq<u16>,
    sid: usize,
    threads: nat,
    replies: Seq<SpawnReplyView>,
    launch: LaunchView,
)
    requires
        run_spawn(
            crate::spawn::first_spawn_state(crate::sandbox::fresh_sandbox(name, sid), threads),
            replies,
        ) == SpawnStateView::Ready(launch),
    ensures
        completed_grants(
            crate::spawn::first_spawn_state(crate::sandbox::fresh_sandbox(name, sid), threads),
            replies,
        ).len() == 0,
        launch.capabilities.len() == 0,
        exists|i: int|
            {
                &&& 0 <= i < replies.len()
                &&& #[trigger] replies[i] matches SpawnReplyView::Environment(command, process)
                &&& forall|variable: Seq<u16>| #[trigger]
                    launch.removed.contains(variable) <==> (command + process).contains(variable)
                        && variable != crate::wide::encode_utf16("LOCALAPPDATA"@)
            },
{
    let sandbox = crate::sandbox::fresh_sandbox(name, sid);
    launch_only_after_every_grant(sandbox, threads, replies, launch);
    launch_allows_networking_only_if_asked(sandbox, threads, replies, launch);
    launch_removes_the_rest_of_the_environment(sandbox, threads, replies, launch);
    let i = choose|i: int|
        {
            &&& 0 <= i < replies.len()
            &&& #[trigger] replies[i] matches SpawnReplyView::Environment(command, process)
            &&& launch.removed == crate::environment::removed_variables(
                command + process,
                sandbox.env_exceptions,
            )
        };
    let names = replies[i]->Environment_0 + replies[i]->Environment_1;
    assert forall|variable: Seq<u16>| #[trigger]
        launch.removed.contains(variable) <==> names.contains(variable) && variable
            != crate::wide::encode_utf16("LOCALAPPDATA"@) by {
        crate::environment::removed_exactly_the_rest(names, sandbox.env_exceptions, variable);
    }
}

/// The container of a launched program is granted exactly what the exceptions allow: one grant
/// for each entry, to its object and by its name, with reading, with writing if and only if an
/// exception to the object allows it, and with executing if and only if one does. What is beneath
/// is included for a registry key, and for a path that was replied to be a directory; there, and
/// there alone, listing, passing through and, with writing, deleting come with it.
pub proof fn launch_grants_exactly_what_was_allowed(
    sandbox: SandboxView,
    threads: nat,
    replies: Seq<SpawnReplyView>,
    launch: LaunchView,
    i: int,
) -> (is_dir: bool)
    requires
        crate::sandbox::paths_distinct(sandbox.path_exceptions),
        0 <= i < sandbox.path_exceptions.len(),
        run_spawn(crate::spawn::first_spawn_state(sandbox, threads), replies)
            == SpawnStateView::Ready(launch),
    ensures
        ({
            let first = crate::spawn::first_spawn_state(sandbox, threads);
            let grants = completed_grants(first, replies);
            let answers = directory_answers(first, replies);
            let kept = sandbox.path_exceptions;
            let (name, object) = (kept[i].name, kept[i].path_type);
            let entry = grants[i].entry;
            let write = exists|j: int|
                {
                    &&& 0 <= j < kept.len()
                    &&& (#[trigger] kept[j]).path_type == object
                    &&& kept[j].exception.write
                };
            let execute = exists|j: int|
                {
                    &&& 0 <= j < kept.len()
                    &&& (#[trigger] kept[j]).path_type == object
                    &&& kept[j].exception.execute
                };
            &&& grants.len() == kept.len()
            &&& entry.sid == launch.profile.sid
            &&& entry.access_mode == 2
            &&& object.registry is None ==> {
                &&& exists|k: int|
                    {
                        &&& 0 <= k < answers.len()
                        &&& (#[trigger] answers[k]).0.name == name
                        &&& answers[k].0.path_type == object
                        &&& answers[k].1 == is_dir
                    }
                &&& grants[i].name == name.units
                &&& grants[i].object_type == crate::path_type::ObjectType::FileObject
                &&& entry.inheritance == (if is_dir {
                    3u32
                } else {
                    0
                })
                &&& entry.access_permissions == 0x12_0089u32 | (if write {
                    0x12_0116u32
                } else {
                    0
                }) | (if execute {
                    0x12_00A0u32
                } else {
                    0
                }) | (if is_dir {
                    0x01u32 | 0x20u32
                } else {
                    0
                }) | (if is_dir && write {
                    0x40u32
                } else {
                    0
                })
                &&& !write ==> entry.access_permissions & (0x12_0116u32 & !0x12_0089u32) == 0
                    && entry.access_permissions & 0x40 == 0
                &&& !execute && !is_dir ==> entry.access_permissions & (0x12_00A0u32 & !(
                0x12_0089u32 | 0x12_0116u32)) == 0
            }
            &&& object.registry is Some ==> {
                &&& grants[i].name == crate::path_type::registry_key_name(
                    name.units,
                    object.registry->0,
                )
                &&& grants[i].object_type == (match object.registry->0 {
                    RegistryView::Native => crate::path_type::ObjectType::RegistryKey,
                    RegistryView::Wow64_32 => crate::path_type::ObjectType::RegistryWow64_32Key,
                    RegistryView::Wow64_64 => crate::path_type::ObjectType::RegistryWow64_64Key,
                })
                &&& entry.inheritance == 3
                &&& entry.access_permissions == 0x2_0019u32 | (if write {
                    0x2_0006u32
                } else {
                    0
                }) | (if execute {
                    0x2_0019u32
                } else {
                    0
                })
                &&& !write ==> entry.access_permissions & (0x2_0006u32 & !0x2_0019u32) == 0
            }
        }),
{
    let first = crate::spawn::first_spawn_state(sandbox, threads);
    let grants = completed_grants(first, replies);
    let answers = directory_answers(first, replies);
    let sid = launch.profile.sid;
    let entries = crate::sandbox::launch_entries(sandbox.path_exceptions);
    lemma_launch_entries(sandbox.path_exceptions);
    launch_only_after_every_grant(sandbox, threads, replies, launch);
    let is_dir = lemma_cover_index(grants, sid, entries, answers, i);
    let (write, execute) = (entries[i].exception.write, entries[i].exception.execute);
    crate::behaviour::entries_are_granted_exactly(sid, entries[i], is_dir);
    crate::behaviour::rights_are_those_asked_for(write, execute, is_dir);
    crate::behaviour::entries_share_the_rights_to_their_object(sandbox.path_exceptions);
    crate::access::no_writing_unless_asked(execute, is_dir);
    crate::access::no_executing_unless_asked(write);
    if entries[i].path_type.registry is None {
        let k = choose|k: int| 0 <= k < answers.len() && answers[k] == (entries[i], is_dir);
        assert(answers[k].0.name == sandbox.path_exceptions[i].name);
    }
    is_dir
}

/// An exception to a path that has been added is granted at the launch to the path itself, whatever
/// was added since: a completed grant to an object of its kind, to the container of the program, is
/// by the name of the path, or by that of a spelling of it with the same components in full, and
/// gives at least reading and what was asked for.
pub proof fn added_path_is_granted_itself(
    sandbox: SandboxView,
    request: PathRequestView,
    addition: Addition,
    later: Seq<Addition>,
    threads: nat,
    replies: Seq<SpawnReplyView>,
    launch: LaunchView,
) -> (i: int)
    requires
        crate::sandbox::paths_distinct(sandbox.path_exceptions),
        crate::sandbox::path_request(addition.exception) == Some(request),
        after_addition(sandbox, addition).state is Added,
        run_spawn(
            crate::spawn::first_spawn_state(
                after_additions(after_addition(sandbox, addition).sandbox, later),
                threads,
            ),
            replies,
        ) == SpawnStateView::Ready(launch),
    ensures
        ({
            let last = after_additions(after_addition(sandbox, addition).sandbox, later);
            let grants = completed_grants(
                crate::spawn::first_spawn_state(last, threads),
                replies,
            );
            let registry = crate::path_type::path_registry_view(request.path.units);
            let spelling = last.path_exceptions[i].name;
            let (name, other) = match registry {
                Some(view) => (
                    crate::path_type::registry_key_name(request.path.units, view),
                    crate::path_type::registry_key_name(spelling.units, view),
                ),
                None => (request.path.units, spelling.units),
            };
            let mask = grants[i].entry.access_permissions;
            &&& 0 <= i < grants.len()
            &&& grants[i].name == name || (grants[i].name == other && spelling.components
                == request.path.components)
            &&& grants[i].object_type == crate::path_type::view_object_type(registry)
            &&& grants[i].entry.sid == launch.profile.sid
            &&& registry is None ==> {
                &&& mask & 0x12_0089 == 0x12_0089
                &&& request.exception.write ==> mask & 0x12_0116 == 0x12_0116
                &&& request.exception.execute ==> mask & 0x12_00A0 == 0x12_00A0
            }
            &&& registry is Some ==> {
                &&& mask & 0x2_0019 == 0x2_0019
                &&& request.exception.write ==> mask & 0x2_0006 == 0x2_0006
            }
        }),
{
    let last = after_additions(after_addition(sandbox, addition).sandbox, later);
    let registry = crate::path_type::path_registry_view(request.path.units);
    added_exception_holds_at_launch(
        sandbox,
        request,
        addition,
        later,
        threads,
        replies,
        launch,
    );
    let grants = completed_grants(crate::spawn::first_spawn_state(last, threads), replies);
    let (i, is_dir) = choose|i: int, is_dir: bool|
        {
            &&& #[trigger] exception_holds(last, threads, replies, launch.profile.sid, i, is_dir)
            &&& crate::sandbox::is_entry_of(last.path_exceptions[i], request.path, registry)
            &&& gives_rights(grants[i], request.exception)
        };
    let entry = last.path_exceptions[i];
    crate::behaviour::same_paths_agree_in_full(entry, request.path, registry);
    crate::behaviour::entries_share_the_rights_to_their_object(last.path_exceptions);
    assert(entry.path_type == crate::sandbox::launch_entries(last.path_exceptions)[i].path_type);
    if entry.name.components.len() == request.path.components.len() && forall|k: int|
        0 <= k < request.path.components.len() ==> entry.name.components[k]
            == #[trigger] request.path.components[k] {
        assert(entry.name.components =~= request.path.components);
    }
    i
}

/// What the exceptions that are not to a path come from: the variables named, the whole
/// environment and networking are exceptions if and only if they were, or were added since.
pub proof fn plain_exceptions_come_from_additions(sandbox: SandboxView, additions: Seq<Addition>)
    ensures
        ({
            let after = after_additions(sandbox, additions);
            &&& after.full_env <==> sandbox.full_env || exists|k: int|
                0 <= k < additions.len() && (#[trigger] additions[k]).exception is FullEnvironment
            &&& after.allow_networking <==> sandbox.allow_networking || exists|k: int|
                0 <= k < additions.len() && (#[trigger] additions[k]).exception is Networking
            &&& forall|name: Seq<char>| #[trigger]
                after.env_exceptions.contains(name) <==> sandbox.env_exceptions.contains(name)
                    || exists|k: int|
                    0 <= k < additions.len() && (#[trigger] additions[k]).exception
                        == ExceptionView::Environment(name)
        }),
    decreases additions.len(),
{
    if additions.len() > 0 {
        let first = additions[0];
        let next = after_addition(sandbox, first).sandbox;
        let rest = additions.skip(1);
        plain_exceptions_come_from_additions(next, rest);
        match crate::sandbox::path_request(first.exception) {
            Some(request) => {
                exception_is_all_or_nothing(sandbox, request, first.replies);
            },
            None => {},
        }
        let after = after_additions(sandbox, additions);
        assert forall|k: int| 0 <= k < rest.len() implies #[trigger] rest[k] == additions[k
            + 1] by {}
        assert forall|k: int| 0 < k < additions.len() implies #[trigger] additions[k] == rest[k
            - 1] by {}
        assert forall|name: Seq<char>| #[trigger]
            after.env_exceptions.contains(name) <==> sandbox.env_exceptions.contains(name)
                || exists|k: int|
                0 <= k < additions.len() && (#[trigger] additions[k]).exception
                    == ExceptionView::Environment(name) by {
            lemma_env_step(sandbox, first, name);
            if exists|k: int|
                0 <= k < rest.len() && (#[trigger] rest[k]).exception == ExceptionView::Environment(
                    name,
                ) {
                let k = choose|k: int|
                    0 <= k < rest.len() && (#[trigger] rest[k]).exception
                        == ExceptionView::Environment(name);
                assert(additions[k + 1].exception == ExceptionView::Environment(name));
            }
            if exists|k: int|
                0 <= k < additions.len() && (#[trigger] additions[k]).exception
                    == ExceptionView::Environment(name) {
                let k = choose|k: int|
                    0 <= k < additions.len() && (#[trigger] additions[k]).exception
                        == ExceptionView::Environment(name);
                if k > 0 {
                    assert(rest[k - 1].exception == ExceptionView::Environment(name));
                }
            }
        }
        lemma_kind_among(additions);
    } else {
        assert forall|name: Seq<char>| #[trigger]
            sandbox.env_exceptions.contains(name) || !(exists|k: int|
                0 <= k < additions.len() && (#[trigger] additions[k]).exception
                    == ExceptionView::Environment(name)) by {}
    }
}

/// A variable is an exception after an addition if and only if it was one before, or was added.
proof fn lemma_env_step(sandbox: SandboxView, addition: Addition, name: Seq<char>)
    ensures
        after_addition(sandbox, addition).sandbox.env_exceptions.contains(name) <==> (
        sandbox.env_exceptions.contains(name) || addition.exception == ExceptionView::Environment(
            name,
        )),
{
    let next = after_addition(sandbox, addition).sandbox.env_exceptions;
    let before = sandbox.env_exceptions;
    match addition.exception {
        ExceptionView::Environment(new) => {
            assert(next == before.push(new));
            assert(next.last() == new);
            if before.contains(name) {
                let j = choose|j: int| 0 <= j < before.len() && before[j] == name;
                assert(next[j] == name);
            }
            if next.contains(name) && new != name {
                let j = choose|j: int| 0 <= j < next.len() && next[j] == name;
                assert(before[j] == name);
            }
        },
        ExceptionView::FullEnvironment => {},
        ExceptionView::Networking => {},
        _ => {
            let request = crate::sandbox::path_request(addition.exception)->0;
            exception_is_all_or_nothing(sandbox, request, addition.replies);
        },
    }
}

/// What is among some additions is the first of them or among the rest.
proof fn lemma_kind_among(additions: Seq<Addition>)
    requires
        additions.len() > 0,
    ensures
        ({
            let rest = additions.skip(1);
            &&& (exists|k: int|
                0 <= k < additions.len() && (#[trigger] additions[k]).exception is FullEnvironment)
                <==> additions[0].exception is FullEnvironment || (exists|k: int|
                0 <= k < rest.len() && (#[trigger] rest[k]).exception is FullEnvironment)
            &&& (exists|k: int|
                0 <= k < additions.len() && (#[trigger] additions[k]).exception is Networking)
                <==> additions[0].exception is Networking || (exists|k: int|
                0 <= k < rest.len() && (#[trigger] rest[k]).exception is Networking)
        }),
{
    let rest = additions.skip(1);
    assert forall|k: int| 0 <= k < rest.len() implies #[trigger] rest[k] == additions[k + 1] by {}
    if exists|k: int|
        0 <= k < rest.len() && (#[trigger] rest[k]).exception is FullEnvironment {
        let k = choose|k: int|
            0 <= k < rest.len() && (#[trigger] rest[k]).exception is FullEnvironment;
        assert(additions[k + 1].exception is FullEnvironment);
    }
    if exists|k: int|
        0 <= k < additions.len() && (#[trigger] additions[k]).exception is FullEnvironment {
        let k = choose|k: int|
            0 <= k < additions.len() && (#[trigger] additions[k]).exception is FullEnvironment;
        if k > 0 {
            assert(rest[k - 1].exception is FullEnvironment);
        }
    }
    if exists|k: int| 0 <= k < rest.len() && (#[trigger] rest[k]).exception is Networking {
        let k = choose|k: int| 0 <= k < rest.len() && (#[trigger] rest[k]).exception is Networking;
        assert(additions[k + 1].exception is Networking);
    }
    if exists|k: int|
        0 <= k < additions.len() && (#[trigger] additions[k]).exception is Networking {
        let k = choose|k: int|
            0 <= k < additions.len() && (#[trigger] additions[k]).exception is Networking;
        if k > 0 {
            assert(rest[k - 1].exception is Networking);
        }
    }
}

/// A program launched from a new sandbox to which some exceptions were added sees of its
/// environment what they allow and no more: unless the whole environment was added, a variable is
/// removed if and only if it is there, is not `LOCALAPPDATA`, and was named by no exception. It has
/// a capability only if networking was added.
pub proof fn launch_allows_only_what_was_added(
    name: Seq<u16>,
    sid: usize,
    additions: Seq<Addition>,
    threads: nat,
    replies: Seq<SpawnReplyView>,
    launch: LaunchView,
)
    requires
        run_spawn(
            crate::spawn::first_spawn_state(
                after_additions(crate::sandbox::fresh_sandbox(name, sid), additions),
                threads,
            ),
            replies,
        ) == SpawnStateView::Ready(launch),
    ensures
        (forall|k: int|
            0 <= k < additions.len() ==> (#[trigger] additions[k]).exception !is FullEnvironment)
            ==> exists|i: int|
            {
                &&& 0 <= i < replies.len()
                &&& #[trigger] replies[i] matches SpawnReplyView::Environment(command, process)
                &&& forall|variable: Seq<u16>| #[trigger]
                    launch.removed.contains(variable) <==> {
                        &&& (command + process).contains(variable)
                        &&& variable != crate::wide::encode_utf16("LOCALAPPDATA"@)
                        &&& forall|k: int|
                            0 <= k < additions.len() ==> ((
                            #[trigger] additions[k]).exception matches ExceptionView::Environment(
                                text,
                            ) ==> variable != crate::wide::encode_utf16(text))
                    }
            },
        (exists|k: int|
            0 <= k < additions.len() && (#[trigger] additions[k]).exception is FullEnvironment)
            ==> launch.removed.len() == 0,
        (forall|k: int|
            0 <= k < additions.len() ==> (#[trigger] additions[k]).exception !is Networking)
            ==> launch.capabilities.len() == 0,
        (exists|k: int|
            0 <= k < additions.len() && (#[trigger] additions[k]).exception is Networking)
            ==> launch.capabilities.len() == 1 && launch.capabilities[0].attributes == 4,
{
    let fresh = crate::sandbox::fresh_sandbox(name, sid);
    let last = after_additions(fresh, additions);
    plain_exceptions_come_from_additions(fresh, additions);
    launch_removes_the_rest_of_the_environment(last, threads, replies, launch);
    launch_allows_networking_only_if_asked(last, threads, replies, launch);
    if !last.full_env {
        let texts = last.env_exceptions;
        let i = choose|i: int|
            {
                &&& 0 <= i < replies.len()
                &&& #[trigger] replies[i] matches SpawnReplyView::Environment(command, process)
                &&& launch.removed == crate::environment::removed_variables(
                    command + process,
                    texts,
                )
            };
        let names = replies[i]->Environment_0 + replies[i]->Environment_1;
        assert forall|variable: Seq<u16>| #[trigger]
            launch.removed.contains(variable) <==> {
                &&& names.contains(variable)
                &&& variable != crate::wide::encode_utf16("LOCALAPPDATA"@)
                &&& forall|k: int|
                    0 <= k < additions.len() ==> ((
                    #[trigger] additions[k]).exception matches ExceptionView::Environment(text)
                        ==> variable != crate::wide::encode_utf16(text))
            } by {
            crate::behaviour::variables_go_unless_allowed(names, variable, texts);
            assert forall|k: int| 0 <= k < additions.len() implies ((
            #[trigger] additions[k]).exception matches ExceptionView::Environment(text)
                ==> texts.contains(text)) by {}
            assert forall|j: int| 0 <= j < texts.len() implies fresh.env_exceptions.contains(
                #[trigger] texts[j],
            ) || exists|k: int|
                0 <= k < additions.len() && (#[trigger] additions[k]).exception
                    == ExceptionView::Environment(texts[j]) by {
                assert(texts.contains(texts[j]));
            }
            if launch.removed.contains(variable) {
                assert forall|k: int| 0 <= k < additions.len() implies ((
                #[trigger] additions[k]).exception matches ExceptionView::Environment(text)
                    ==> variable != crate::wide::encode_utf16(text)) by {
                    if let ExceptionView::Environment(text) = additions[k].exception {
                        assert(texts.contains(text));
                        let j = choose|j: int| 0 <= j < texts.len() && texts[j] == text;
                        assert(variable != crate::wide::encode_utf16(texts[j]));
                    }
                }
            } else if names.contains(variable) && variable != crate::wide::encode_utf16(
                "LOCALAPPDATA"@,
            ) {
                let j = choose|j: int|
                    0 <= j < texts.len() && variable == #[trigger] crate::wide::encode_utf16(
                        texts[j],
                    );
                assert(texts.contains(texts[j]));
                let k = choose|k: int|
                    0 <= k < additions.len() && (#[trigger] additions[k]).exception
                        == ExceptionView::Environment(texts[j]);
                assert(additions[k].exception == ExceptionView::Environment(texts[j]));
            }
        }
    }
}

/// No entry allows writing.
spec fn none_writes(entries: Seq<PathEntryView>) -> bool {
    forall|i: int| 0 <= i < entries.len() ==> !(#[trigger] entries[i]).exception.write
}

/// No entry allows executing.
spec fn none_executes(entries: Seq<PathEntryView>) -> bool {
    forall|i: int| 0 <= i < entries.len() ==> !(#[trigger] entries[i]).exception.execute
}

proof fn lemma_insert_rights(entries: Seq<PathEntryView>, new: PathEntryView)
    ensures
        none_writes(entries) && !new.exception.write ==> none_writes(
            crate::sandbox::insert_entry(entries, new),
        ),
        none_executes(entries) && !new.exception.execute ==> none_executes(
            crate::sandbox::insert_entry(entries, new),
        ),
{
    crate::behaviour::adding_touches_the_same_path_only(entries, new);
    let after = crate::sandbox::insert_entry(entries, new);
    assert forall|i: int| 0 <= i < after.len() implies {
        &&& (#[trigger] after[i]).exception.write ==> new.exception.write || (i < entries.len()
            && entries[i].exception.write)
        &&& after[i].exception.execute ==> new.exception.execute || (i < entries.len()
            && entries[i].exception.execute)
    } by {
        if i == entries.len() {
            assert(after[i] == after.last());
        }
    }
}

proof fn lemma_rights_step(sandbox: SandboxView, addition: Addition)
    ensures
        none_writes(sandbox.path_exceptions) && addition.exception !is WriteAndRead ==> none_writes(
            after_addition(sandbox, addition).sandbox.path_exceptions,
        ),
        none_executes(sandbox.path_exceptions) && addition.exception !is ExecuteAndRead
            ==> none_executes(after_addition(sandbox, addition).sandbox.path_exceptions),
{
    match crate::sandbox::path_request(addition.exception) {
        Some(request) => {
            let to = reached(request.path, addition.replies);
            exception_is_all_or_nothing(sandbox, request, addition.replies);
            let own = PathEntryView {
                name: request.path,
                path_type: to.path_type,
                exception: request.exception,
            };
            let middle = crate::sandbox::insert_entry(sandbox.path_exceptions, own);
            lemma_insert_rights(sandbox.path_exceptions, own);
            if to.link_target is Some {
                lemma_insert_rights(
                    middle,
                    crate::sandbox::target_entry(to.link_target->0, request.exception),
                );
            }
        },
        None => {},
    }
}

/// No exception to a path allows what none that was added asked for.
proof fn lemma_rights_from_additions(sandbox: SandboxView, additions: Seq<Addition>)
    ensures
        none_writes(sandbox.path_exceptions) && (forall|k: int|
            0 <= k < additions.len() ==> (#[trigger] additions[k]).exception !is WriteAndRead)
            ==> none_writes(after_additions(sandbox, additions).path_exceptions),
        none_executes(sandbox.path_exceptions) && (forall|k: int|
            0 <= k < additions.len() ==> (#[trigger] additions[k]).exception !is ExecuteAndRead)
            ==> none_executes(after_additions(sandbox, additions).path_exceptions),
    decreases additions.len(),
{
    if additions.len() > 0 {
        let rest = additions.skip(1);
        lemma_rights_step(sandbox, additions[0]);
        lemma_rights_from_additions(after_addition(sandbox, additions[0]).sandbox, rest);
        assert forall|k: int| 0 <= k < rest.len() implies #[trigger] rest[k] == additions[k
            + 1] by {}
    }
}

/// Nothing is granted for writing where no exception for writing was added, and no file is for
/// executing where none for executing was, whatever else was added.
pub proof fn nothing_is_granted_unasked(
    name: Seq<u16>,
    sid: usize,
    additions: Seq<Addition>,
    threads: nat,
    replies: Seq<SpawnReplyView>,
    launch: LaunchView,
    i: int,
)
    requires
        run_spawn(
            crate::spawn::first_spawn_state(
                after_additions(crate::sandbox::fresh_sandbox(name, sid), additions),
                threads,
            ),
            replies,
        ) == SpawnStateView::Ready(launch),
        0 <= i < completed_grants(
            crate::spawn::first_spawn_state(
                after_additions(crate::sandbox::fresh_sandbox(name, sid), additions),
                threads,
            ),
            replies,
        ).len(),
    ensures
        ({
            let last = after_additions(crate::sandbox::fresh_sandbox(name, sid), additions);
            let grant = completed_grants(
                crate::spawn::first_spawn_state(last, threads),
                replies,
            )[i];
            let mask = grant.entry.access_permissions;
            &&& (forall|k: int|
                0 <= k < additions.len() ==> (#[trigger] additions[k]).exception !is WriteAndRead)
                ==> {
                &&& grant.object_type == crate::path_type::ObjectType::FileObject ==> mask & (
                0x12_0116u32 & !0x12_0089u32) == 0 && mask & 0x40 == 0
                &&& grant.object_type != crate::path_type::ObjectType::FileObject ==> mask & (
                0x2_0006u32 & !0x2_0019u32) == 0
            }
            &&& (forall|k: int|
                0 <= k < additions.len() ==> (#[trigger] additions[k]).exception !is ExecuteAndRead)
                ==> grant.object_type == crate::path_type::ObjectType::FileObject
                && grant.entry.inheritance == 0 ==> mask & (0x12_00A0u32 & !(0x12_0089u32
                | 0x12_0116u32)) == 0
        }),
{
    let fresh = crate::sandbox::fresh_sandbox(name, sid);
    let last = after_additions(fresh, additions);
    let first = crate::spawn::first_spawn_state(last, threads);
    paths_stay_distinct(fresh, additions);
    lemma_rights_from_additions(fresh, additions);
    launch_only_after_every_grant(last, threads, replies, launch);
    lemma_cover_len(
        completed_grants(first, replies),
        launch.profile.sid,
        crate::sandbox::launch_entries(last.path_exceptions),
        directory_answers(first, replies),
    );
    crate::behaviour::entries_share_the_rights_to_their_object(last.path_exceptions);
    let is_dir = launch_grants_exactly_what_was_allowed(last, threads, replies, launch, i);
}

/// What is said of the container of a program that is being started.
spec fn container_comes(
    state: SpawnStateView,
    replies: Seq<SpawnReplyView>,
    profile: ProfileView,
) -> bool {
    match state {
        SpawnStateView::CreatingProfile(_, name) => profile.name == name && was_created(
            replies,
            profile.sid,
        ),
        SpawnStateView::Inspecting(_, made, _) => profile == made,
        SpawnStateView::Granting(_, made, _) => profile == made,
        SpawnStateView::ReadingEnvironment(_, made) => profile == made,
        SpawnStateView::Ready(launch) => profile == launch.profile,
        SpawnStateView::Failed(_) => false,
        _ => was_named(replies, profile.name) && was_created(replies, profile.sid),
    }
}

/// Whether a reply says that a container with this identifier was created.
pub open spec fn was_created(replies: Seq<SpawnReplyView>, sid: SidView) -> bool {
    exists|i: int|
        {
            &&& 0 <= i < replies.len()
            &&& #[trigger] replies[i] matches SpawnReplyView::ProfileCreated(Ok(address))
            &&& sid == SidView::Raw(address)
        }
}

/// Whether a reply gives this name.
pub open spec fn was_named(replies: Seq<SpawnReplyView>, name: Seq<u16>) -> bool {
    exists|i: int|
        0 <= i < replies.len() && #[trigger] replies[i] == SpawnReplyView::NameParts(name)
}

proof fn lemma_container_comes(
    state: SpawnStateView,
    replies: Seq<SpawnReplyView>,
    launch: LaunchView,
)
    requires
        run_spawn(state, replies) == SpawnStateView::Ready(launch),
    ensures
        container_comes(state, replies, launch.profile),
    decreases replies.len(),
{
    if replies.len() > 0 {
        let next = crate::spawn::next_spawn_state(state, replies[0]);
        let rest = replies.skip(1);
        lemma_container_comes(next, rest, launch);
        if was_created(rest, launch.profile.sid) {
            let i = choose|i: int|
                {
                    &&& 0 <= i < rest.len()
                    &&& #[trigger] rest[i] matches SpawnReplyView::ProfileCreated(Ok(address))
                    &&& launch.profile.sid == SidView::Raw(address)
                };
            assert(replies[i + 1] == rest[i]);
        }
        if was_named(rest, launch.profile.name) {
            let i = choose|i: int|
                0 <= i < rest.len() && #[trigger] rest[i] == SpawnReplyView::NameParts(
                    launch.profile.name,
                );
            assert(replies[i + 1] == rest[i]);
        }
        match (state, replies[0]) {
            (SpawnStateView::Naming(_), SpawnReplyView::NameParts(name)) => {
                assert(replies[0] == SpawnReplyView::NameParts(name));
            },
            (
                SpawnStateView::CreatingProfile(_, _),
                SpawnReplyView::ProfileCreated(Ok(address)),
            ) => {
                assert(replies[0] matches SpawnReplyView::ProfileCreated(Ok(a)) && a == address);
            },
            _ => {},
        }
    }
}

/// A program is launched in the container that the system made for it, under the name that was
/// made for it.
pub proof fn launch_is_in_the_container_made_for_it(
    sandbox: SandboxView,
    threads: nat,
    replies: Seq<SpawnReplyView>,
    launch: LaunchView,
)
    requires
        run_spawn(crate::spawn::first_spawn_state(sandbox, threads), replies)
            == SpawnStateView::Ready(launch),
    ensures
        was_created(replies, launch.profile.sid),
        was_named(replies, launch.profile.name),
{
    if threads > 1 {
        no_launch_unless_single_threaded(sandbox, threads, replies);
    }
    lemma_container_comes(crate::spawn::first_spawn_state(sandbox, threads), replies, launch);
}

/// How many calls a grant has left.
pub open spec fn calls_left(phase: GrantPhaseView) -> nat {
    match phase {
        GrantPhaseView::Reading => 3,
        GrantPhaseView::Merging(_) => 2,
        GrantPhaseView::Writing(_) => 1,
        _ => 0,
    }
}

/// How many replies are left, at most, until a program can be launched.
pub open spec fn spawn_steps_left(state: SpawnStateView) -> nat {
    match state {
        SpawnStateView::Sizing(plan) => 4 * plan.remaining.len() + 5,
        SpawnStateView::WritingSid(plan, _) => 4 * plan.remaining.len() + 4,
        SpawnStateView::Naming(plan) => 4 * plan.remaining.len() + 3,
        SpawnStateView::CreatingProfile(plan, _) => 4 * plan.remaining.len() + 2,
        SpawnStateView::Inspecting(plan, _, _) => 4 * plan.remaining.len() + 5,
        SpawnStateView::Granting(plan, _, grant) => 4 * plan.remaining.len() + 1 + calls_left(
            grant.phase,
        ),
        SpawnStateView::ReadingEnvironment(_, _) => 1,
        SpawnStateView::Ready(_) => 0,
        SpawnStateView::Failed(_) => 0,
    }
}

/// The result that a reply to the pending call of a grant reports: `None` where it answers
/// another question, and otherwise whether the call succeeded.
pub open spec fn grant_answer(phase: GrantPhaseView, reply: GrantReply) -> Option<bool> {
    match (phase, reply) {
        (GrantPhaseView::Reading, GrantReply::SecurityInfo(status, _)) => Some(status == 0),
        (GrantPhaseView::Merging(_), GrantReply::Entries(status, _)) => Some(status == 0),
        (GrantPhaseView::Writing(_), GrantReply::Written(status)) => Some(status == 0),
        _ => None,
    }
}

/// The result that a reply to the pending question reports: `None` where it answers another
/// one, and otherwise whether it is a success.
pub open spec fn spawn_answer(state: SpawnStateView, reply: SpawnReplyView) -> Option<bool> {
    match (state, reply) {
        (SpawnStateView::Sizing(_), SpawnReplyView::SidSize(_)) => Some(true),
        (SpawnStateView::WritingSid(_, _), SpawnReplyView::SidWritten(written)) => Some(
            written is Ok,
        ),
        (SpawnStateView::Naming(_), SpawnReplyView::NameParts(_)) => Some(true),
        (SpawnStateView::CreatingProfile(_, _), SpawnReplyView::ProfileCreated(created)) => Some(
            created is Ok,
        ),
        (SpawnStateView::Inspecting(_, _, _), SpawnReplyView::IsDirectory(_)) => Some(true),
        (SpawnStateView::Granting(_, _, grant), SpawnReplyView::Grant(reply)) => grant_answer(
            grant.phase,
            reply,
        ),
        (SpawnStateView::ReadingEnvironment(_, _), SpawnReplyView::Environment(_, _)) => Some(true),
        _ => None,
    }
}

/// Whether a state that waits for a grant waits for one that has not come to its end. Starting
/// a program begins in such a state and goes from one to the next.
pub open spec fn waits_for_open_grant(state: SpawnStateView) -> bool {
    state matches SpawnStateView::Granting(_, _, grant) ==> !crate::grant::is_settled(grant.phase)
}

/// Every success brings the launch nearer, a failure ends the start at once, and a reply to
/// another question changes nothing.
pub proof fn spawn_makes_progress(state: SpawnStateView, reply: SpawnReplyView)
    requires
        waits_for_open_grant(state),
    ensures
        waits_for_open_grant(crate::spawn::next_spawn_state(state, reply)),
        ({
            let next = crate::spawn::next_spawn_state(state, reply);
            match spawn_answer(state, reply) {
                Some(true) => next !is Failed && spawn_steps_left(next) < spawn_steps_left(state),
                Some(false) => next is Failed,
                None => next == state,
            }
        }),
{
    match (state, reply) {
        (SpawnStateView::Granting(plan, profile, grant), SpawnReplyView::Grant(grant_reply)) => {
            let next = crate::grant::next_grant(grant, grant_reply);
            if grant_answer(grant.phase, grant_reply) is None {
                assert(next.phase == grant.phase);
                assert(next == grant);
            }
        },
        _ => {},
    }
}

} // verus!
