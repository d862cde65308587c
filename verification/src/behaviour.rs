//! What each operation does with its inputs, whatever they are: the rights, names, entries and
//! calls that come out, in numbers and values.
use vstd::prelude::*;

use crate::access::ExplicitAccess;
use crate::container::{AppContainerProfile, NameParts, ProfileView};
use crate::error::{Error, ErrorView};
use crate::grant::{Grant, GrantAction, GrantPhase, GrantPhaseView, GrantReply, GrantView};
use crate::path_name::{PathName, PathNameView};
use crate::path_type::{ObjectType, PathType, PathTypeView, RegistryView};
use crate::proc_thread_attribute_list::ProcThreadAttributeList;
use crate::sandbox::{
    AddAction, AddReply, AddReplyView, AddState, AddStateView, Destination, DestinationView,
    Exception, ExceptionView, PathEntry, PathEntryView, PathException, PathRequest,
    PathRequestView, SandboxView,
};
use crate::security::{OwnedAccessControlList, SecurityDescriptor};
use crate::sid::{Sid, SidPointer, SidView};
use crate::spawn::{
    Capability, CapabilityView, Launch, SpawnAction, SpawnPlan, SpawnPlanView, SpawnReply,
    SpawnReplyView, SpawnState, SpawnStateView,
};
use crate::wide::WideString;

verus! {

/// The rights to a file or directory, and to a registry key, are exactly those of reading and of
/// what was asked for: in a directory also to list and pass through it, and to delete what is in
/// it with writing alone.
pub proof fn rights_are_those_asked_for(write: bool, execute: bool, is_dir: bool)
    ensures
        crate::access::file_access_mask(write, execute, is_dir) == 0x12_0089u32 | (if write {
            0x12_0116u32
        } else {
            0
        }) | (if execute {
            0x12_00A0u32
        } else {
            0
        }) | (if is_dir {
            0x01u32 | 0x20u32
        } else {
            0
        }) | (if is_dir && write {
            0x40u32
        } else {
            0
        }),
        crate::access::registry_access_mask(write, execute) == 0x2_0019u32 | (if write {
            0x2_0006u32
        } else {
            0
        }) | (if execute {
            0x2_0019u32
        } else {
            0
        }),
{
}

/// The rights of two exceptions together are those of the one and those of the other.
pub proof fn rights_of_two_exceptions_unite(
    write: bool,
    execute: bool,
    more_write: bool,
    more_execute: bool,
    is_dir: bool,
)
    ensures
        crate::access::file_access_mask(write || more_write, execute || more_execute, is_dir)
            == crate::access::file_access_mask(write, execute, is_dir)
            | crate::access::file_access_mask(more_write, more_execute, is_dir),
        crate::access::registry_access_mask(write || more_write, execute || more_execute)
            == crate::access::registry_access_mask(write, execute)
            | crate::access::registry_access_mask(more_write, more_execute),
{
    let (r, w, x, l, d) = (0x12_0089u32, 0x12_0116u32, 0x12_00A0u32, 0x01u32 | 0x20u32, 0x40u32);
    let (a, c) = (if write { w } else { 0 }, if more_write { w } else { 0 });
    let (b, e) = (if execute { x } else { 0 }, if more_execute { x } else { 0 });
    let (ac, be) = (
        if write || more_write { w } else { 0 },
        if execute || more_execute { x } else { 0 },
    );
    let dir = if is_dir { l } else { 0 };
    let (f, g) = (
        if is_dir && write { d } else { 0 },
        if is_dir && more_write { d } else { 0 },
    );
    let fg = if is_dir && (write || more_write) { d } else { 0 };
    assert(w | w == w && w | 0 == w && 0 | w == w && x | x == x && x | 0 == x && 0 | x == x && d | d
        == d && d | 0 == d && 0 | d == d && 0u32 | 0u32 == 0) by (bit_vector);
    assert(ac == a | c && be == b | e && fg == f | g);
    assert(r | (a | c) | (b | e) | dir | (f | g) == (r | a | b | dir | f) | (r | c | e | dir | g))
        by (bit_vector);
    let (p, q) = (0x2_0019u32, 0x2_0006u32);
    let (h, i) = (if write { q } else { 0 }, if more_write { q } else { 0 });
    let (j, k) = (if execute { p } else { 0 }, if more_execute { p } else { 0 });
    let (hi, jk) = (
        if write || more_write { q } else { 0 },
        if execute || more_execute { p } else { 0 },
    );
    assert(q | q == q && q | 0 == q && 0 | q == q && p | p == p && p | 0 == p && 0 | p == p && 0u32
        | 0u32 == 0) by (bit_vector);
    assert(hi == h | i && jk == j | k);
    assert(p | (h | i) | (j | k) == (p | h | j) | (p | i | k)) by (bit_vector);
}

/// An entry sets the access of one identifier, a group, to the rights given; what is beneath is
/// reached if and only if that is asked for.
pub proof fn entries_set_access(
    sid: SidView,
    name: Seq<u16>,
    object_type: ObjectType,
    access_mask: u32,
    inherit: bool,
)
    ensures
        ({
            let target = crate::grant::grant_target(sid, name, object_type, access_mask, inherit);
            &&& target.name == name
            &&& target.object_type == object_type
            &&& target.entry == crate::access::explicit_access_entry(sid, access_mask, inherit)
            &&& target.entry.sid == sid
            &&& target.entry.access_permissions == access_mask
            &&& target.entry.inheritance == (if inherit {
                3u32
            } else {
                0
            })
            &&& target.entry.access_mode == 2
            &&& target.entry.multiple_trustee_operation == 0
            &&& target.entry.trustee_form == 0
            &&& target.entry.trustee_type == 2
        }),
{
}

/// A failed call on an object says that its path is invalid if and only if the object was not
/// found, and otherwise what the system reported.
pub proof fn failures_say_what_happened(code: i32, path: Seq<u16>)
    ensures
        code as int == 0x8007_0003 - 0x1_0000_0000 || code as int == 0x8007_0002 - 0x1_0000_0000
            ==> crate::error::object_error(code, path) == ErrorView::InvalidPath(path),
        code as int != 0x8007_0003 - 0x1_0000_0000 && code as int != 0x8007_0002 - 0x1_0000_0000
            ==> crate::error::object_error(code, path) == ErrorView::Io(code),
{
}

/// A status becomes a result code: zero stays zero, a positive one keeps its lower half, and any
/// other is a result code already.
pub proof fn statuses_are_result_codes(status: u32)
    ensures
        status == 0 ==> crate::win32::hresult(status) == 0,
        0 < status < 0x8000_0000 ==> crate::win32::hresult(status) as int + 0x1_0000_0000
            == 0x8007_0000 + status as int % 0x1_0000,
        status >= 0x8000_0000 ==> crate::win32::hresult(status) as int + 0x1_0000_0000
            == status as int,
        status != 0 ==> crate::win32::hresult(status) < 0,
{
}

/// A text names a view of the registry if and only if its upper case begins with the prefix of
/// that view.
pub proof fn paths_name_views_by_their_prefix(text: Seq<char>)
    ensures
        ({
            let view = crate::path_type::path_registry_view(crate::wide::encode_utf16(text));
            let upper = crate::path_type::uppercase(text);
            &&& (view == Some(RegistryView::Native) <==> "REGISTRY:"@.is_prefix_of(upper))
            &&& (view == Some(RegistryView::Wow64_32) <==> "REGISTRY+WOW64_32KEY:"@.is_prefix_of(
                upper,
            ))
            &&& (view == Some(RegistryView::Wow64_64) <==> "REGISTRY+WOW64_64KEY:"@.is_prefix_of(
                upper,
            ))
        }),
{
    let upper = crate::path_type::uppercase(text);
    crate::wide::decode_of_encode(text);
    assert forall|a: RegistryView, b: RegistryView| a != b implies !(
    #[trigger] crate::path_type::registry_prefix(a).is_prefix_of(upper)
        && #[trigger] crate::path_type::registry_prefix(b).is_prefix_of(upper)) by {
        if crate::path_type::registry_prefix(a).is_prefix_of(upper)
            && crate::path_type::registry_prefix(b).is_prefix_of(upper) {
            crate::path_type::registry_prefixes_exclude_each_other(upper, a, b);
        }
    }
    let (n, s, t) = (RegistryView::Native, RegistryView::Wow64_32, RegistryView::Wow64_64);
    assert(crate::path_type::registry_prefix(n) == "REGISTRY:"@);
    assert(crate::path_type::registry_prefix(s) == "REGISTRY+WOW64_32KEY:"@);
    assert(crate::path_type::registry_prefix(t) == "REGISTRY+WOW64_64KEY:"@);
}

/// A path that is not Unicode is one in the file system.
pub proof fn only_text_names_the_registry(path: Seq<u16>)
    requires
        forall|text: Seq<char>| #[trigger] crate::wide::encode_utf16(text) != path,
    ensures
        crate::path_type::path_registry_view(path) is None,
{
}

/// The name of a registry key is what is left of the path without as many units as the prefix
/// has, and a path in the file system is granted by itself.
pub proof fn names_of_objects(name: PathNameView, view: RegistryView)
    ensures
        crate::sandbox::launch_name(name, None) == name.units,
        ({
            let n = if view == RegistryView::Native {
                9int
            } else {
                21
            };
            let key = crate::sandbox::launch_name(name, Some(view));
            &&& name.units.len() >= n ==> key == name.units.skip(n)
            &&& name.units.len() < n ==> key.len() == 0
            &&& crate::path_type::registry_key_name(name.units, view) == key
        }),
{
    reveal_strlit("REGISTRY:");
    reveal_strlit("REGISTRY+WOW64_32KEY:");
    reveal_strlit("REGISTRY+WOW64_64KEY:");
}

/// The kinds of objects and their numbers.
pub proof fn kinds_of_objects()
    ensures
        crate::path_type::view_object_type(None) == ObjectType::FileObject,
        crate::path_type::view_object_type(Some(RegistryView::Native)) == ObjectType::RegistryKey,
        crate::path_type::view_object_type(Some(RegistryView::Wow64_32))
            == ObjectType::RegistryWow64_32Key,
        crate::path_type::view_object_type(Some(RegistryView::Wow64_64))
            == ObjectType::RegistryWow64_64Key,
        crate::path_type::object_type_code(ObjectType::FileObject) == 1,
        crate::path_type::object_type_code(ObjectType::RegistryKey) == 4,
        crate::path_type::object_type_code(ObjectType::RegistryWow64_32Key) == 12,
        crate::path_type::object_type_code(ObjectType::RegistryWow64_64Key) == 13,
        crate::win32::dacl_security_information() == 4,
        crate::win32::thread_attributes().handle_list == 0x2_0002,
        crate::win32::thread_attributes().security_capabilities == 0x2_0009,
{
}

/// A path in the file system leads to its canonical form, where it has one; a registry path stands
/// for itself. It has a target besides if and only if it is a symlink in the file system that
/// leads somewhere.
pub proof fn paths_lead_to_their_canonical_form(
    path: PathNameView,
    canonical: Option<PathNameView>,
    is_symlink: bool,
)
    ensures
        ({
            let to = crate::sandbox::destination(path, canonical, is_symlink);
            let registry = crate::path_type::path_registry_view(path.units);
            &&& to.path_type.registry == registry
            &&& registry is Some ==> to.path_type.path == path.units && to.link_target is None
            &&& registry is None && canonical is None ==> to.path_type.path == path.units
                && to.link_target is None
            &&& registry is None && canonical is Some ==> to.path_type.path == canonical->0.units
            &&& registry is None && canonical is Some && is_symlink ==> to.link_target == canonical
            &&& !is_symlink ==> to.link_target is None
        }),
        ({
            let form = match canonical {
                Some(canonical) => Some(canonical.units),
                None => None,
            };
            crate::path_type::exception_path_type(path.units, form)
                == crate::sandbox::destination(path, canonical, is_symlink).path_type
        }),
{
}

/// What an exception asks for.
pub proof fn exceptions_ask_for_what_they_say(path: PathNameView, name: Seq<char>)
    ensures
        crate::sandbox::path_request(ExceptionView::Read(path)) == Some(
            PathRequestView { path, exception: PathException { write: false, execute: false } },
        ),
        crate::sandbox::path_request(ExceptionView::WriteAndRead(path)) == Some(
            PathRequestView { path, exception: PathException { write: true, execute: false } },
        ),
        crate::sandbox::path_request(ExceptionView::ExecuteAndRead(path)) == Some(
            PathRequestView { path, exception: PathException { write: false, execute: true } },
        ),
        crate::sandbox::path_request(ExceptionView::Environment(name)) is None,
        crate::sandbox::path_request(ExceptionView::FullEnvironment) is None,
        crate::sandbox::path_request(ExceptionView::Networking) is None,
{
}

/// An exception that is not to a path changes what it is about, and nothing else.
pub proof fn plain_exceptions_change_their_own_field(sandbox: SandboxView, name: Seq<char>)
    ensures
        ({
            let after = crate::sandbox::with_plain_exception(sandbox, ExceptionView::Networking);
            &&& after.allow_networking
            &&& after.full_env == sandbox.full_env
            &&& after.env_exceptions == sandbox.env_exceptions
            &&& after.path_exceptions == sandbox.path_exceptions
            &&& after.app_container_name == sandbox.app_container_name
            &&& after.app_container_profile == sandbox.app_container_profile
        }),
        ({
            let after = crate::sandbox::with_plain_exception(
                sandbox,
                ExceptionView::FullEnvironment,
            );
            &&& after.full_env
            &&& after.allow_networking == sandbox.allow_networking
            &&& after.env_exceptions == sandbox.env_exceptions
            &&& after.path_exceptions == sandbox.path_exceptions
            &&& after.app_container_name == sandbox.app_container_name
            &&& after.app_container_profile == sandbox.app_container_profile
        }),
        ({
            let after = crate::sandbox::with_plain_exception(
                sandbox,
                ExceptionView::Environment(name),
            );
            &&& after.env_exceptions.len() == sandbox.env_exceptions.len() + 1
            &&& after.env_exceptions.last() == name
            &&& after.env_exceptions.drop_last() == sandbox.env_exceptions
            &&& after.full_env == sandbox.full_env
            &&& after.allow_networking == sandbox.allow_networking
            &&& after.path_exceptions == sandbox.path_exceptions
            &&& after.app_container_name == sandbox.app_container_name
            &&& after.app_container_profile == sandbox.app_container_profile
        }),
{
    let after = crate::sandbox::with_plain_exception(sandbox, ExceptionView::Environment(name));
    assert(after.env_exceptions.drop_last() =~= sandbox.env_exceptions);
}

/// A new sandbox has no exception, and the container that was made for it.
pub proof fn new_sandboxes_are_empty(name: Seq<u16>, sid: usize)
    ensures
        ({
            let sandbox = crate::sandbox::fresh_sandbox(name, sid);
            &&& sandbox.env_exceptions.len() == 0
            &&& sandbox.path_exceptions.len() == 0
            &&& !sandbox.allow_networking
            &&& !sandbox.full_env
            &&& sandbox.app_container_name == name
            &&& sandbox.app_container_profile.name == name
            &&& sandbox.app_container_profile.sid == SidView::Raw(sid)
        }),
{
}

/// Whether two paths are the same: objects of one kind, with the same components in full, or with
/// the same name of the object.
pub proof fn same_paths_agree_in_full(
    entry: PathEntryView,
    name: PathNameView,
    registry: Option<RegistryView>,
)
    ensures
        crate::sandbox::is_entry_of(entry, name, registry) <==> {
            &&& entry.path_type.registry == registry
            &&& {
                ||| {
                    &&& entry.name.components.len() == name.components.len()
                    &&& forall|i: int|
                        0 <= i < name.components.len() ==> entry.name.components[i]
                            == #[trigger] name.components[i]
                }
                ||| crate::sandbox::launch_name(entry.name, registry)
                    == crate::sandbox::launch_name(name, registry)
            }
        },
{
    if entry.name.components.len() == name.components.len() && forall|i: int|
        0 <= i < name.components.len() ==> entry.name.components[i]
            == #[trigger] name.components[i] {
        assert(entry.name.components =~= name.components);
    }
}

/// What adding an entry does to each of the others and to its own path. An entry is touched if and
/// only if it is of the same kind and has the components or the name of the new one: its rights
/// are then those of both. Where there is none such, the new entry goes to the end as it is.
pub proof fn adding_touches_the_same_path_only(entries: Seq<PathEntryView>, new: PathEntryView)
    ensures
        ({
            let after = crate::sandbox::insert_entry(entries, new);
            let kind = new.path_type.registry;
            let name = crate::sandbox::launch_name(new.name, kind);
            &&& after.len() == entries.len() || after.len() == entries.len() + 1
            &&& forall|i: int|
                0 <= i < entries.len() && entries[i].path_type.registry == kind && (
                entries[i].name.components == new.name.components || crate::sandbox::launch_name(
                    entries[i].name,
                    kind,
                ) == name) ==> {
                    &&& after.len() == entries.len()
                    &&& (#[trigger] after[i]).name == entries[i].name
                    &&& after[i].path_type == new.path_type
                    &&& after[i].exception.write == (entries[i].exception.write
                        || new.exception.write)
                    &&& after[i].exception.execute == (entries[i].exception.execute
                        || new.exception.execute)
                }
            &&& forall|i: int|
                0 <= i < entries.len() && !(entries[i].path_type.registry == kind && (
                entries[i].name.components == new.name.components || crate::sandbox::launch_name(
                    entries[i].name,
                    kind,
                ) == name)) ==> #[trigger] after[i] == entries[i]
            &&& (forall|i: int|
                0 <= i < entries.len() ==> !((#[trigger] entries[i]).path_type.registry == kind && (
                entries[i].name.components == new.name.components || crate::sandbox::launch_name(
                    entries[i].name,
                    kind,
                ) == name))) ==> after.len() == entries.len() + 1 && after.last() == new
            &&& after.len() == entries.len() + 1 ==> after.last() == new && after.drop_last()
                == entries
        }),
{
    let after = crate::sandbox::insert_entry(entries, new);
    let kind = new.path_type.registry;
    if crate::sandbox::has_path(entries, new.name, kind) {
        let i = choose|i: int|
            0 <= i < entries.len() && crate::sandbox::is_entry_of(
                #[trigger] entries[i],
                new.name,
                kind,
            );
        assert(entries[i].path_type.registry == kind);
    } else {
        assert forall|i: int| 0 <= i < entries.len() implies !crate::sandbox::is_entry_of(
            #[trigger] entries[i],
            new.name,
            kind,
        ) by {}
        assert(after.drop_last() =~= entries);
    }
}

/// An exception that has been added is kept for its path as it was given, and, where that is a
/// symlink, for the target as well, with the rights asked for; the rest of the sandbox stays.
pub proof fn exceptions_are_kept_for_path_and_target(
    sandbox: SandboxView,
    request: PathRequestView,
    to: DestinationView,
)
    ensures
        ({
            let after = crate::sandbox::with_path_exception(sandbox, request, to);
            let own = crate::sandbox::insert_entry(
                sandbox.path_exceptions,
                PathEntryView {
                    name: request.path,
                    path_type: to.path_type,
                    exception: request.exception,
                },
            );
            &&& to.link_target is None ==> after.path_exceptions == own
            &&& to.link_target is Some ==> after.path_exceptions == crate::sandbox::insert_entry(
                own,
                PathEntryView {
                    name: to.link_target->0,
                    path_type: PathTypeView { registry: None, path: to.link_target->0.units },
                    exception: request.exception,
                },
            )
            &&& after.env_exceptions == sandbox.env_exceptions
            &&& after.allow_networking == sandbox.allow_networking
            &&& after.full_env == sandbox.full_env
            &&& after.app_container_name == sandbox.app_container_name
            &&& after.app_container_profile == sandbox.app_container_profile
        }),
{
}

/// The entries that access is granted by are those that were kept, each with what all entries for
/// the same object allow, and no more.
pub proof fn entries_share_the_rights_to_their_object(entries: Seq<PathEntryView>)
    ensures
        ({
            let shared = crate::sandbox::launch_entries(entries);
            &&& shared.len() == entries.len()
            &&& forall|i: int|
                0 <= i < entries.len() ==> {
                    &&& (#[trigger] shared[i]).name == entries[i].name
                    &&& shared[i].path_type == entries[i].path_type
                    &&& shared[i].exception.write == exists|j: int|
                        {
                            &&& 0 <= j < entries.len()
                            &&& (#[trigger] entries[j]).path_type == entries[i].path_type
                            &&& entries[j].exception.write
                        }
                    &&& shared[i].exception.execute == exists|j: int|
                        {
                            &&& 0 <= j < entries.len()
                            &&& (#[trigger] entries[j]).path_type == entries[i].path_type
                            &&& entries[j].exception.execute
                        }
                }
        }),
{
}

/// How adding an exception begins: access to a registry key is granted at once, with the rights
/// asked for and everything beneath, and for the file system it is looked up where the path leads.
pub proof fn adding_begins(sid: SidView, request: PathRequestView)
    ensures
        ({
            let first = crate::sandbox::first_add_state(sid, request);
            let registry = crate::path_type::path_registry_view(request.path.units);
            &&& registry is None ==> first == AddStateView::Resolving(request)
            &&& registry is Some ==> {
                &&& first matches AddStateView::Granting(asked, to, grant)
                &&& asked == request
                &&& to.path_type == (PathTypeView { registry, path: request.path.units })
                &&& to.link_target is None
                &&& grant.phase == GrantPhaseView::Reading
                &&& grant.target.name == request.path.units
                &&& grant.target.object_type == crate::path_type::view_object_type(registry)
                &&& grant.target.entry.sid == sid
                &&& grant.target.entry.access_mode == 2
                &&& grant.target.entry.inheritance == 3
                &&& grant.target.entry.access_permissions == crate::access::registry_access_mask(
                    request.exception.write,
                    request.exception.execute,
                )
            }
        }),
{
}

/// How adding an exception goes on: what was looked up is passed on, access is granted to what
/// the path leads to, with the rights asked for and everything beneath, and the end of the grant
/// is the end of the addition. Any other reply changes nothing.
pub proof fn adding_goes_on(
    sid: SidView,
    request: PathRequestView,
    to: DestinationView,
    grant: GrantView,
    canonical: Option<PathNameView>,
    is_symlink: bool,
    is_dir: bool,
    reply: GrantReply,
    other: AddReplyView,
)
    ensures
        crate::sandbox::next_add_state(
            sid,
            AddStateView::Resolving(request),
            AddReplyView::Resolved(canonical, is_symlink),
        ) == AddStateView::Inspecting(
            request,
            crate::sandbox::destination(request.path, canonical, is_symlink),
        ),
        ({
            let next = crate::sandbox::next_add_state(
                sid,
                AddStateView::Inspecting(request, to),
                AddReplyView::IsDirectory(is_dir),
            );
            let (write, execute) = (request.exception.write, request.exception.execute);
            &&& next matches AddStateView::Granting(asked, reached, begun)
            &&& asked == request
            &&& reached == to
            &&& begun.phase == GrantPhaseView::Reading
            &&& begun.target.name == to.path_type.path
            &&& begun.target.object_type == crate::path_type::view_object_type(
                to.path_type.registry,
            )
            &&& begun.target.entry.sid == sid
            &&& begun.target.entry.access_mode == 2
            &&& begun.target.entry.inheritance == 3
            &&& to.path_type.registry is None ==> begun.target.entry.access_permissions
                == crate::access::file_access_mask(write, execute, is_dir)
            &&& to.path_type.registry is Some ==> begun.target.entry.access_permissions
                == crate::access::registry_access_mask(write, execute)
        }),
        ({
            let next = crate::sandbox::next_add_state(
                sid,
                AddStateView::Granting(request, to, grant),
                AddReplyView::Grant(reply),
            );
            match crate::grant::next_grant(grant, reply).phase {
                GrantPhaseView::Granted => next == AddStateView::Added,
                GrantPhaseView::Failed(err) => next == AddStateView::Failed(err),
                _ => next == AddStateView::Granting(
                    request,
                    to,
                    crate::grant::next_grant(grant, reply),
                ),
            }
        }),
        other !is Resolved ==> crate::sandbox::next_add_state(
            sid,
            AddStateView::Resolving(request),
            other,
        ) == AddStateView::Resolving(request),
        other !is IsDirectory ==> crate::sandbox::next_add_state(
            sid,
            AddStateView::Inspecting(request, to),
            other,
        ) == AddStateView::Inspecting(request, to),
        other !is Grant ==> crate::sandbox::next_add_state(
            sid,
            AddStateView::Granting(request, to, grant),
            other,
        ) == AddStateView::Granting(request, to, grant),
        crate::sandbox::next_add_state(sid, AddStateView::Added, other) == AddStateView::Added,
{
}

/// A failed addition stays failed.
pub proof fn failed_additions_stay_failed(sid: SidView, err: ErrorView, reply: AddReplyView)
    ensures
        crate::sandbox::next_add_state(sid, AddStateView::Failed(err), reply)
            == AddStateView::Failed(err),
{
}

/// A sandbox changes with the reply by which access becomes granted, by that exception, and with
/// no other.
pub proof fn sandboxes_change_when_access_is_granted(
    sandbox: SandboxView,
    before: AddStateView,
    after: AddStateView,
)
    ensures
        before is Granting && after is Added ==> crate::sandbox::next_sandbox(
            sandbox,
            before,
            after,
        ) == crate::sandbox::with_path_exception(
            sandbox,
            before->Granting_0,
            before->Granting_1,
        ),
        !(before is Granting && after is Added) ==> crate::sandbox::next_sandbox(
            sandbox,
            before,
            after,
        ) == sandbox,
{
}

/// How granting access goes on: a call that succeeded takes it one step further with what the call
/// gave, a failure ends it with the error that the system reported, the object and the entry stay,
/// and any other reply changes nothing.
pub proof fn grants_go_on(
    grant: GrantView,
    status: u32,
    descriptor: SecurityDescriptor,
    address: usize,
    other: GrantReply,
)
    ensures
        crate::grant::next_grant(grant, other).target == grant.target,
        grant.phase is Reading && status == 0 ==> crate::grant::next_grant(
            grant,
            GrantReply::SecurityInfo(status, descriptor),
        ).phase == GrantPhaseView::Merging(descriptor),
        grant.phase is Merging && status == 0 ==> crate::grant::next_grant(
            grant,
            GrantReply::Entries(status, address),
        ).phase == GrantPhaseView::Writing(OwnedAccessControlList(address)),
        grant.phase is Writing && status == 0 ==> crate::grant::next_grant(
            grant,
            GrantReply::Written(status),
        ).phase == GrantPhaseView::Granted,
        status != 0 ==> {
            let failed = GrantPhaseView::Failed(
                crate::error::object_error(crate::win32::hresult(status), grant.target.name),
            );
            &&& grant.phase is Reading ==> crate::grant::next_grant(
                grant,
                GrantReply::SecurityInfo(status, descriptor),
            ).phase == failed
            &&& grant.phase is Merging ==> crate::grant::next_grant(
                grant,
                GrantReply::Entries(status, address),
            ).phase == failed
            &&& grant.phase is Writing ==> crate::grant::next_grant(
                grant,
                GrantReply::Written(status),
            ).phase == failed
        },
        grant.phase is Reading && other !is SecurityInfo ==> crate::grant::next_grant(grant, other)
            == grant,
        grant.phase is Merging && other !is Entries ==> crate::grant::next_grant(grant, other)
            == grant,
        grant.phase is Writing && other !is Written ==> crate::grant::next_grant(grant, other)
            == grant,
        grant.phase is Granted || grant.phase is Failed ==> crate::grant::next_grant(grant, other)
            == grant,
{
}

/// What is asked of the system for a grant to an object of any kind: to read the access control
/// list of the object, to merge the entry into the very list that was read, and to write the very
/// list that came out to the same object.
pub proof fn grants_extend_the_list_of_the_object(grant: Grant, action: GrantAction<'_>)
    requires
        crate::grant::is_grant_action(grant, action),
    ensures
        grant.phase is Reading <==> action is GetNamedSecurityInfo,
        grant.phase is Merging <==> action is SetEntriesInAcl,
        grant.phase is Writing <==> action is SetNamedSecurityInfo,
        grant.phase is Granted <==> action is Finish,
        grant.phase is Failed <==> action is Fail,
        action matches GrantAction::GetNamedSecurityInfo(request) ==> {
            &&& request.name@ == grant.name@.push(0)
            &&& request.object_type == crate::path_type::object_type_code(grant.object_type)
            &&& request.security_info == 4
        },
        action matches GrantAction::SetEntriesInAcl(request) ==> {
            &&& request.old_acl == grant.phase->Merging_0.dacl
            &&& request.entries@ == grant.access@
            &&& request.entries@.len() == 1
            &&& request.entries@[0]@ == grant@.target.entry
        },
        action matches GrantAction::SetNamedSecurityInfo(request) ==> {
            &&& request.dacl == grant.phase->Writing_0.0
            &&& request.name@ == grant.name@.push(0)
            &&& request.object_type == crate::path_type::object_type_code(grant.object_type)
            &&& request.security_info == 4
        },
        action matches GrantAction::Fail(err) ==> *err == grant.phase->Failed_0,
{
}

/// What has to be done next to add an exception.
pub proof fn additions_ask_for_what_is_missing(state: AddState, action: AddAction<'_>)
    requires
        crate::sandbox::is_add_action(state, action),
    ensures
        state is Resolving <==> action is Resolve,
        state is Inspecting <==> action is IsDirectory,
        state is Granting <==> action is Grant,
        state is Added <==> action is Finish,
        state is Failed <==> action is Fail,
        action matches AddAction::Resolve(path) ==> *path == state->Resolving_0.path,
        action matches AddAction::IsDirectory(path) ==> path@
            == state->Inspecting_1.path_type@.path,
        action matches AddAction::Grant(grant) ==> *grant == state->Granting_2,
        action matches AddAction::Fail(err) ==> *err == state->Failed_0,
{
}

/// What has to be done next to start a program.
pub proof fn starts_ask_for_what_is_missing(state: SpawnState, action: SpawnAction<'_>)
    requires
        crate::spawn::is_spawn_action(state, action),
    ensures
        state is Sizing <==> action is SizeWellKnownSid,
        state is WritingSid <==> action is WriteWellKnownSid,
        state is Naming <==> action is DescribeContainer,
        state is CreatingProfile <==> action is CreateProfile,
        state is Inspecting <==> action is IsDirectory,
        state is Granting <==> action is Grant,
        state is ReadingEnvironment <==> action is ReadEnvironment,
        state is Ready <==> action is Launch,
        state is Failed <==> action is Fail,
        action matches SpawnAction::SizeWellKnownSid(kind) ==> kind == 85,
        action matches SpawnAction::WriteWellKnownSid(kind, buffer) ==> {
            &&& kind == 85
            &&& *buffer == state->WritingSid_1
        },
        action matches SpawnAction::CreateProfile(request) ==> {
            &&& request.name@ == state->CreatingProfile_1@.push(0)
            &&& request.display_name@ == crate::wide::encode_utf16("Birdcage Application"@).push(0)
            &&& request.description@ == crate::wide::encode_utf16(
                "Application container for Birdcage sandboxing"@,
            ).push(0)
        },
        action matches SpawnAction::IsDirectory(path) ==> {
            let entry = state->Inspecting_2;
            path@ == crate::sandbox::launch_name(entry.name@, entry.path_type@.registry)
        },
        action matches SpawnAction::Grant(grant) ==> *grant == state->Granting_2,
        action matches SpawnAction::Launch(launch) ==> *launch == state->Ready_0,
        action matches SpawnAction::Fail(err) ==> *err == state->Failed_0,
{
}

/// How starting a program begins: it fails in a process of more than one thread, and otherwise
/// carries on what the sandbox holds, with the network capability to be made if and only if
/// networking is an exception.
pub proof fn starting_begins(sandbox: SandboxView, threads: nat)
    ensures
        ({
            let first = crate::spawn::first_spawn_state(sandbox, threads);
            &&& threads > 1 ==> first == SpawnStateView::Failed(ErrorView::NotSingleThreaded)
            &&& threads <= 1 && sandbox.allow_networking ==> first is Sizing
            &&& threads <= 1 && !sandbox.allow_networking ==> first is Naming
            &&& threads <= 1 ==> {
                let plan = if sandbox.allow_networking {
                    first->Sizing_0
                } else {
                    first->Naming_0
                };
                &&& plan.env_exceptions == sandbox.env_exceptions
                &&& plan.full_env == sandbox.full_env
                &&& plan.capabilities.len() == 0
                &&& plan.remaining == crate::sandbox::launch_entries(sandbox.path_exceptions)
            }
        }),
{
}

/// How the network capability is made: of the identifier that the system writes to a buffer of the
/// size that it asked for.
pub proof fn starting_makes_the_capability(
    plan: SpawnPlanView,
    buffer: Seq<u8>,
    size: u32,
    data: Seq<u8>,
    code: i32,
)
    ensures
        ({
            let next = crate::spawn::next_spawn_state(
                SpawnStateView::Sizing(plan),
                SpawnReplyView::SidSize(size),
            );
            &&& next matches SpawnStateView::WritingSid(kept, zeros)
            &&& kept == plan
            &&& zeros.len() == size
            &&& forall|i: int| 0 <= i < zeros.len() ==> #[trigger] zeros[i] == 0
        }),
        ({
            let next = crate::spawn::next_spawn_state(
                SpawnStateView::WritingSid(plan, buffer),
                SpawnReplyView::SidWritten(Ok(data)),
            );
            &&& next matches SpawnStateView::Naming(more)
            &&& more.env_exceptions == plan.env_exceptions
            &&& more.full_env == plan.full_env
            &&& more.remaining == plan.remaining
            &&& more.capabilities.len() == plan.capabilities.len() + 1
            &&& more.capabilities.drop_last() == plan.capabilities
            &&& more.capabilities.last().sid == SidView::WellKnown(data)
            &&& more.capabilities.last().attributes == 4
        }),
        crate::spawn::next_spawn_state(
            SpawnStateView::WritingSid(plan, buffer),
            SpawnReplyView::SidWritten(Err(code)),
        ) == SpawnStateView::Failed(ErrorView::Io(code)),
{
    let more = crate::spawn::next_spawn_state(
        SpawnStateView::WritingSid(plan, buffer),
        SpawnReplyView::SidWritten(Ok(data)),
    )->Naming_0;
    assert(more.capabilities.drop_last() =~= plan.capabilities);
}

/// How the container of a program is made, and what it is granted: after the container come the
/// exceptions, one after the other, and then the environment, unless all of it is allowed.
pub proof fn starting_goes_through_the_exceptions(
    plan: SpawnPlanView,
    profile: ProfileView,
    name: Seq<u16>,
    sid: usize,
    code: i32,
)
    ensures
        crate::spawn::next_spawn_state(
            SpawnStateView::Naming(plan),
            SpawnReplyView::NameParts(name),
        ) == SpawnStateView::CreatingProfile(plan, name),
        crate::spawn::next_spawn_state(
            SpawnStateView::CreatingProfile(plan, name),
            SpawnReplyView::ProfileCreated(Err(code)),
        ) == SpawnStateView::Failed(ErrorView::Io(code)),
        crate::spawn::next_spawn_state(
            SpawnStateView::CreatingProfile(plan, name),
            SpawnReplyView::ProfileCreated(Ok(sid)),
        ) == crate::spawn::after_grants(plan, ProfileView { name, sid: SidView::Raw(sid) }),
        ({
            let next = crate::spawn::after_grants(plan, profile);
            &&& plan.remaining.len() == 0 && !plan.full_env ==> next
                == SpawnStateView::ReadingEnvironment(plan, profile)
            &&& plan.remaining.len() == 0 && plan.full_env ==> {
                &&& next matches SpawnStateView::Ready(launch)
                &&& launch.removed.len() == 0
                &&& launch.profile == profile
                &&& launch.capabilities == plan.capabilities
            }
            &&& plan.remaining.len() > 0 && plan.remaining[0].path_type.registry is None ==> {
                &&& next matches SpawnStateView::Inspecting(rest, kept, entry)
                &&& kept == profile
                &&& entry == plan.remaining[0]
                &&& rest.remaining == plan.remaining.skip(1)
                &&& rest.env_exceptions == plan.env_exceptions
                &&& rest.full_env == plan.full_env
                &&& rest.capabilities == plan.capabilities
            }
            &&& plan.remaining.len() > 0 && plan.remaining[0].path_type.registry is Some ==> {
                &&& next matches SpawnStateView::Granting(rest, kept, grant)
                &&& kept == profile
                &&& grant.phase == GrantPhaseView::Reading
                &&& grant.target == crate::spawn::entry_target(
                    profile.sid,
                    plan.remaining[0],
                    false,
                )
                &&& rest.remaining == plan.remaining.skip(1)
                &&& rest.env_exceptions == plan.env_exceptions
                &&& rest.full_env == plan.full_env
                &&& rest.capabilities == plan.capabilities
            }
        }),
{
}

/// What the container of a program is granted for an entry: exactly the rights that the entry
/// allows to exactly its object, with what is beneath it for a registry key or a directory.
pub proof fn entries_are_granted_exactly(sid: SidView, entry: PathEntryView, is_dir: bool)
    ensures
        ({
            let target = crate::spawn::entry_target(sid, entry, is_dir);
            let registry = entry.path_type.registry;
            let (write, execute) = (entry.exception.write, entry.exception.execute);
            &&& target.name == crate::sandbox::launch_name(entry.name, registry)
            &&& target.object_type == crate::path_type::view_object_type(registry)
            &&& target.entry.sid == sid
            &&& target.entry.access_mode == 2
            &&& target.entry.multiple_trustee_operation == 0
            &&& target.entry.trustee_form == 0
            &&& target.entry.trustee_type == 2
            &&& registry is Some ==> {
                &&& target.entry.inheritance == 3
                &&& target.entry.access_permissions == crate::access::registry_access_mask(
                    write,
                    execute,
                )
            }
            &&& registry is None ==> {
                &&& target.entry.inheritance == (if is_dir {
                    3u32
                } else {
                    0
                })
                &&& target.entry.access_permissions == crate::access::file_access_mask(
                    write,
                    execute,
                    is_dir,
                )
            }
        }),
{
}

/// How starting a program goes on with a grant and with the environment.
pub proof fn starting_goes_on(
    plan: SpawnPlanView,
    profile: ProfileView,
    entry: PathEntryView,
    grant: GrantView,
    is_dir: bool,
    reply: GrantReply,
    command: Seq<Seq<u16>>,
    process: Seq<Seq<u16>>,
)
    ensures
        ({
            let next = crate::spawn::next_spawn_state(
                SpawnStateView::Inspecting(plan, profile, entry),
                SpawnReplyView::IsDirectory(is_dir),
            );
            &&& next matches SpawnStateView::Granting(kept, same, begun)
            &&& kept == plan
            &&& same == profile
            &&& begun.phase == GrantPhaseView::Reading
            &&& begun.target == crate::spawn::entry_target(profile.sid, entry, is_dir)
        }),
        ({
            let next = crate::spawn::next_spawn_state(
                SpawnStateView::Granting(plan, profile, grant),
                SpawnReplyView::Grant(reply),
            );
            match crate::grant::next_grant(grant, reply).phase {
                GrantPhaseView::Granted => next == crate::spawn::after_grants(plan, profile),
                GrantPhaseView::Failed(err) => next == SpawnStateView::Failed(err),
                _ => next == SpawnStateView::Granting(
                    plan,
                    profile,
                    crate::grant::next_grant(grant, reply),
                ),
            }
        }),
        ({
            let next = crate::spawn::next_spawn_state(
                SpawnStateView::ReadingEnvironment(plan, profile),
                SpawnReplyView::Environment(command, process),
            );
            &&& next matches SpawnStateView::Ready(launch)
            &&& launch.profile == profile
            &&& launch.capabilities == plan.capabilities
            &&& launch.removed == crate::environment::removed_variables(
                command + process,
                plan.env_exceptions,
            )
        }),
{
}

/// Which variables are removed: the order is kept, and a variable goes if and only if it is
/// neither `LOCALAPPDATA` nor one of the exceptions.
pub proof fn variables_go_unless_allowed(
    names: Seq<Seq<u16>>,
    name: Seq<u16>,
    exceptions: Seq<Seq<char>>,
)
    ensures
        crate::environment::removed_variables(Seq::empty(), exceptions).len() == 0,
        ({
            let more = crate::environment::removed_variables(names.push(name), exceptions);
            let so_far = crate::environment::removed_variables(names, exceptions);
            if name != crate::wide::encode_utf16("LOCALAPPDATA"@) && forall|i: int|
                0 <= i < exceptions.len() ==> name != #[trigger] crate::wide::encode_utf16(
                    exceptions[i],
                ) {
                more == so_far.push(name)
            } else {
                more == so_far
            }
        }),
        crate::environment::removed_variables(names, exceptions).contains(name) <==> {
            &&& names.contains(name)
            &&& name != crate::wide::encode_utf16("LOCALAPPDATA"@)
            &&& forall|i: int|
                0 <= i < exceptions.len() ==> name != #[trigger] crate::wide::encode_utf16(
                    exceptions[i],
                )
        },
{
    reveal(Seq::filter);
    assert(names.push(name).drop_last() =~= names);
    crate::environment::removed_exactly_the_rest(names, exceptions, name);
}

/// Which variables of this process are removed: the order is kept, and a variable goes if and only
/// if it is none of the exceptions.
pub proof fn variables_of_the_process_go_unless_allowed(
    names: Seq<Seq<char>>,
    name: Seq<char>,
    exceptions: Seq<Seq<char>>,
)
    ensures
        crate::environment::restricted_variables(Seq::empty(), exceptions).len() == 0,
        ({
            let more = crate::environment::restricted_variables(names.push(name), exceptions);
            let so_far = crate::environment::restricted_variables(names, exceptions);
            if forall|i: int| 0 <= i < exceptions.len() ==> name != #[trigger] exceptions[i] {
                more == so_far.push(name)
            } else {
                more == so_far
            }
        }),
{
    reveal(Seq::filter);
    assert(names.push(name).drop_last() =~= names);
}

/// The decimal of a number: one digit for a number below ten, and otherwise the last digit behind
/// the decimal of the rest.
pub proof fn decimals_are_read_digit_by_digit(n: nat, d: nat)
    requires
        d < 10,
    ensures
        crate::container::decimal(d).len() == 1,
        crate::container::decimal(d)[0] as int == 0x30 + d,
        n > 0 ==> {
            let more = crate::container::decimal(10 * n + d);
            &&& more.drop_last() == crate::container::decimal(n)
            &&& more.last() as int == 0x30 + d
            &&& more.len() == crate::container::decimal(n).len() + 1
        },
{
    if n > 0 {
        assert((10 * n + d) / 10 == n && (10 * n + d) % 10 == d);
        assert(crate::container::decimal(10 * n + d).drop_last() =~= crate::container::decimal(n));
    }
}

/// The name of a container is made of the text of the executable, the process, the time and the
/// counter, in this order and with a dash before each.
pub proof fn names_hold_all_parts(parts: NameParts)
    ensures
        ({
            let executable = match parts.executable {
                Some(name) => crate::wide::decode_lossy(name@),
                None => Seq::empty(),
            };
            let time = match parts.timestamp {
                Some(time) => time as nat,
                None => 0,
            };
            crate::container::name_of_parts(parts) == crate::wide::encode_utf16(
                "Birdcage"@ + seq!['-'] + executable + seq!['-'] + crate::container::decimal(
                    parts.pid as nat,
                ) + seq!['-'] + crate::container::decimal(time) + seq!['-']
                    + crate::container::decimal(parts.counter as nat),
            )
        }),
{
    reveal_strlit("Birdcage-");
    reveal_strlit("Birdcage");
    assert("Birdcage-"@ =~= "Birdcage"@ + seq!['-']);
}

/// What creating or looking up a container gives.
pub proof fn profiles_are_what_the_system_made(
    name: Seq<u16>,
    address: usize,
    code: i32,
    r: Result<AppContainerProfile, Error>,
)
    ensures
        crate::container::profile_result(name, Ok(address), r) <==> r is Ok && r->Ok_0.name@ == name
            && r->Ok_0.sid@ == SidView::Raw(address),
        crate::container::profile_result(name, Err(code), r) <==> r == Err::<
            AppContainerProfile,
            Error,
        >(Error::Io(code)),
{
}

/// A list of attributes begins as zeroed memory of the size asked for, with nothing set.
pub proof fn new_lists_are_empty(size: usize)
    ensures
        ({
            let list = crate::proc_thread_attribute_list::empty_list(size);
            &&& list.buf.len() == size
            &&& forall|i: int| 0 <= i < size ==> #[trigger] list.buf[i] == 0
            &&& list.inherit_handles is None
            &&& list.app_container_sid is None
            &&& list.capabilities.len() == 0
            &&& list.capability_count == 0
        }),
{
}

/// A list of attributes is shown with all that it holds; it is well-formed if and only if its
/// capabilities are counted, and there are none without a container.
pub proof fn lists_are_shown_in_full(list: ProcThreadAttributeList)
    ensures
        list@.buf == list.buf@,
        list.inherit_handles is None ==> list@.inherit_handles is None,
        list.inherit_handles matches Some(handles) ==> list@.inherit_handles == Some(handles@),
        list.app_container_sid is None ==> list@.app_container_sid is None,
        list.app_container_sid matches Some(sid) ==> list@.app_container_sid == Some(sid@),
        list@.capabilities == crate::spawn::capability_views(list.capabilities@),
        list@.capability_count == list.capability_count,
        list.wf() <==> list.capability_count == list.capabilities@.len() && (
        list.app_container_sid is None ==> list.capabilities@.len() == 0),
{
}

/// A pointer to an identifier is its address, or its bytes.
pub proof fn pointers_lead_to_the_identifier(pointer: SidPointer<'_>, sid: Sid)
    ensures
        crate::sid::points_to(pointer, sid@) <==> match sid {
            Sid::Raw(address) => pointer == SidPointer::Address(address),
            Sid::WellKnown(data) => pointer is Bytes && pointer->Bytes_0@ == data@,
            Sid::String(address) => pointer == SidPointer::Address(address),
        },
{
}

/// Strings are shown one by one, and one that may be there is shown where it is.
pub proof fn lists_of_strings_are_shown_in_full(wide: Seq<WideString>, text: Seq<String>, i: int)
    ensures
        crate::path_type::optional_view(None) is None,
        0 <= i < wide.len() ==> crate::path_type::optional_view(Some(wide[i])) == Some(wide[i]@),
        crate::environment::wide_views(wide).len() == wide.len(),
        crate::environment::text_views(text).len() == text.len(),
        0 <= i < wide.len() ==> crate::environment::wide_views(wide)[i] == wide[i]@,
        0 <= i < text.len() ==> crate::environment::text_views(text)[i] == text[i]@,
{
}

/// Paths, entries and errors are shown with all that they hold.
pub proof fn paths_are_shown_in_full(
    name: PathName,
    path_type: PathType,
    entry: PathEntry,
    entries: Seq<PathEntry>,
    err: Error,
    exception: Exception,
    i: int,
)
    ensures
        name@.units == name.units@,
        name@.components == crate::environment::wide_views(name.components@),
        path_type@ == (match path_type {
            PathType::Filesystem(path) => PathTypeView { registry: None, path: path@ },
            PathType::Registry(path) => PathTypeView {
                registry: Some(RegistryView::Native),
                path: path@,
            },
            PathType::RegistryWow64_32(path) => PathTypeView {
                registry: Some(RegistryView::Wow64_32),
                path: path@,
            },
            PathType::RegistryWow64_64(path) => PathTypeView {
                registry: Some(RegistryView::Wow64_64),
                path: path@,
            },
        }),
        entry@.name == entry.name@,
        entry@.path_type == entry.path_type@,
        entry@.exception == entry.exception,
        crate::sandbox::entry_views(entries).len() == entries.len(),
        0 <= i < entries.len() ==> crate::sandbox::entry_views(entries)[i] == entries[i]@,
        err matches Error::InvalidPath(path) ==> err@ == ErrorView::InvalidPath(path@),
        err matches Error::Io(code) ==> err@ == ErrorView::Io(code),
        err is NotSingleThreaded ==> err@ == ErrorView::NotSingleThreaded,
        exception matches Exception::Read(path) ==> exception@ == ExceptionView::Read(path@),
        exception matches Exception::WriteAndRead(path) ==> exception@
            == ExceptionView::WriteAndRead(path@),
        exception matches Exception::ExecuteAndRead(path) ==> exception@
            == ExceptionView::ExecuteAndRead(path@),
        exception matches Exception::Environment(text) ==> exception@ == ExceptionView::Environment(
            text@,
        ),
        exception is FullEnvironment ==> exception@ == ExceptionView::FullEnvironment,
        exception is Networking ==> exception@ == ExceptionView::Networking,
{
}

/// Grants, and the additions that they belong to, are shown with all that they hold.
pub proof fn additions_are_shown_in_full(
    access: ExplicitAccess,
    grant: Grant,
    phase: GrantPhase,
    request: PathRequest,
    destination: Destination,
    state: AddState,
    reply: AddReply,
)
    ensures
        access@.access_permissions == access.access_permissions,
        access@.access_mode == access.access_mode,
        access@.inheritance == access.inheritance,
        access@.multiple_trustee_operation == access.trustee.multiple_trustee_operation,
        access@.trustee_form == access.trustee.trustee_form,
        access@.trustee_type == access.trustee.trustee_type,
        access@.sid == access.trustee.sid@,
        grant@.target.name == grant.name@,
        grant@.target.object_type == grant.object_type,
        grant@.target.entry == grant.access@[0]@,
        grant@.phase == grant.phase@,
        phase is Reading ==> phase@ == GrantPhaseView::Reading,
        phase matches GrantPhase::Merging(read) ==> phase@ == GrantPhaseView::Merging(read),
        phase matches GrantPhase::Writing(acl) ==> phase@ == GrantPhaseView::Writing(acl),
        phase is Granted ==> phase@ == GrantPhaseView::Granted,
        phase matches GrantPhase::Failed(err) ==> phase@ == GrantPhaseView::Failed(err@),
        request@.path == request.path@,
        request@.exception == request.exception,
        destination@.path_type == destination.path_type@,
        destination.link_target is None ==> destination@.link_target is None,
        destination.link_target matches Some(target) ==> destination@.link_target == Some(target@),
        state matches AddState::Resolving(r) ==> state@ == AddStateView::Resolving(r@),
        state matches AddState::Inspecting(r, to) ==> state@ == AddStateView::Inspecting(r@, to@),
        state matches AddState::Granting(r, to, g) ==> state@ == AddStateView::Granting(
            r@,
            to@,
            g@,
        ),
        state is Added ==> state@ == AddStateView::Added,
        state matches AddState::Failed(err) ==> state@ == AddStateView::Failed(err@),
        reply matches AddReply::Resolved(Some(path), link) ==> reply@ == AddReplyView::Resolved(
            Some(path@),
            link,
        ),
        reply matches AddReply::Resolved(None, link) ==> reply@ == AddReplyView::Resolved(
            None,
            link,
        ),
        reply matches AddReply::IsDirectory(is_dir) ==> reply@ == AddReplyView::IsDirectory(is_dir),
        reply matches AddReply::Grant(g) ==> reply@ == AddReplyView::Grant(g),
{
}

/// Identifiers, containers and capabilities, and the starts that they belong to, are shown with
/// all that they hold.
pub proof fn starts_are_shown_in_full(
    sid: Sid,
    profile: AppContainerProfile,
    capability: Capability,
    capabilities: Seq<Capability>,
    plan: SpawnPlan,
    launch: Launch,
    state: SpawnState,
    reply: SpawnReply,
    i: int,
)
    ensures
        sid matches Sid::Raw(address) ==> sid@ == SidView::Raw(address),
        sid matches Sid::WellKnown(data) ==> sid@ == SidView::WellKnown(data@),
        sid matches Sid::String(address) ==> sid@ == SidView::String(address),
        profile@.name == profile.name@,
        profile@.sid == profile.sid@,
        capability@ == (CapabilityView {
            sid: capability.sid@,
            attributes: capability.attributes,
        }),
        crate::spawn::capability_views(capabilities).len() == capabilities.len(),
        0 <= i < capabilities.len() ==> crate::spawn::capability_views(capabilities)[i]
            == capabilities[i]@,
        plan@.env_exceptions == crate::environment::text_views(plan.env_exceptions@),
        plan@.full_env == plan.full_env,
        plan@.remaining == crate::sandbox::entry_views(plan.remaining@),
        plan@.capabilities == crate::spawn::capability_views(plan.capabilities@),
        launch@.removed == crate::environment::wide_views(launch.removed@),
        launch@.profile == launch.profile@,
        launch@.capabilities == crate::spawn::capability_views(launch.capabilities@),
        state matches SpawnState::Sizing(p) ==> state@ == SpawnStateView::Sizing(p@),
        state matches SpawnState::WritingSid(p, b) ==> state@ == SpawnStateView::WritingSid(p@, b@),
        state matches SpawnState::Naming(p) ==> state@ == SpawnStateView::Naming(p@),
        state matches SpawnState::CreatingProfile(p, n) ==> state@
            == SpawnStateView::CreatingProfile(p@, n@),
        state matches SpawnState::Inspecting(p, c, e) ==> state@ == SpawnStateView::Inspecting(
            p@,
            c@,
            e@,
        ),
        state matches SpawnState::Granting(p, c, g) ==> state@ == SpawnStateView::Granting(
            p@,
            c@,
            g@,
        ),
        state matches SpawnState::ReadingEnvironment(p, c) ==> state@
            == SpawnStateView::ReadingEnvironment(p@, c@),
        state matches SpawnState::Ready(l) ==> state@ == SpawnStateView::Ready(l@),
        state matches SpawnState::Failed(err) ==> state@ == SpawnStateView::Failed(err@),
        reply matches SpawnReply::SidSize(size) ==> reply@ == SpawnReplyView::SidSize(size),
        reply matches SpawnReply::SidWritten(Ok(data)) ==> reply@ == SpawnReplyView::SidWritten(
            Ok(data@),
        ),
        reply matches SpawnReply::SidWritten(Err(code)) ==> reply@ == SpawnReplyView::SidWritten(
            Err(code),
        ),
        reply matches SpawnReply::NameParts(parts) ==> reply@ == SpawnReplyView::NameParts(
            crate::container::name_of_parts(parts),
        ),
        reply matches SpawnReply::ProfileCreated(created) ==> reply@
            == SpawnReplyView::ProfileCreated(created),
        reply matches SpawnReply::IsDirectory(is_dir) ==> reply@ == SpawnReplyView::IsDirectory(
            is_dir,
        ),
        reply matches SpawnReply::Grant(g) ==> reply@ == SpawnReplyView::Grant(g),
        reply matches SpawnReply::Environment(command, process) ==> reply@
            == SpawnReplyView::Environment(
            crate::environment::wide_views(command@),
            crate::environment::wide_views(process@),
        ),
{
}

} // verus!
