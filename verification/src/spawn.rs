//! Starting a sandboxed program: a container is made for it and granted access to every
//! exception before the program is launched in it.
use vstd::prelude::*;

use crate::access::{compute_file_access_masks, compute_registry_access_masks};
use crate::container::{AppContainerProfile, NameParts, ProfileRequest, ProfileView};
use crate::environment::variables_to_remove;
use crate::error::{Error, ErrorView};
use crate::grant::{
    grant_access, Grant, GrantPhase, GrantPhaseView, GrantReply, GrantTarget, GrantView,
};
use crate::path_type::ObjectType;
use crate::sandbox::{PathEntry, PathEntryView, SandboxView};
use crate::sid::{Sid, SidPointer, SidView};
use crate::wide::WideString;
use crate::win32::load_network_capability;

verus! {

/// A capability of a container.
#[derive(Debug)]
pub struct Capability {
    pub sid: Sid,
    pub attributes: u32,
}

/// What a `Capability` says.
pub struct CapabilityView {
    pub sid: SidView,
    pub attributes: u32,
}

impl View for Capability {
    type V = CapabilityView;

    open spec fn view(&self) -> CapabilityView {
        CapabilityView { sid: self.sid@, attributes: self.attributes }
    }
}

/// What each capability says.
pub open spec fn capability_views(capabilities: Seq<Capability>) -> Seq<CapabilityView> {
    capabilities.map_values(|capability: Capability| capability@)
}

/// What is left to do for a program that is being started.
#[derive(Debug)]
pub struct SpawnPlan {
    pub env_exceptions: Vec<String>,
    pub full_env: bool,
    /// Paths to which access has not been granted yet.
    pub remaining: Vec<PathEntry>,
    pub capabilities: Vec<Capability>,
}

/// What a `SpawnPlan` says.
#[verifier::ext_equal]
pub struct SpawnPlanView {
    pub env_exceptions: Seq<Seq<char>>,
    pub full_env: bool,
    pub remaining: Seq<PathEntryView>,
    pub capabilities: Seq<CapabilityView>,
}

impl View for SpawnPlan {
    type V = SpawnPlanView;

    open spec fn view(&self) -> SpawnPlanView {
        SpawnPlanView {
            env_exceptions: crate::environment::text_views(self.env_exceptions@),
            full_env: self.full_env,
            remaining: crate::sandbox::entry_views(self.remaining@),
            capabilities: capability_views(self.capabilities@),
        }
    }
}

/// How a program has to be launched.
#[derive(Debug)]
pub struct Launch {
    /// Variables to remove from its environment.
    pub removed: Vec<WideString>,
    /// The container to launch it in.
    pub profile: AppContainerProfile,
    pub capabilities: Vec<Capability>,
}

/// What a `Launch` says.
#[verifier::ext_equal]
pub struct LaunchView {
    pub removed: Seq<Seq<u16>>,
    pub profile: ProfileView,
    pub capabilities: Seq<CapabilityView>,
}

impl View for Launch {
    type V = LaunchView;

    open spec fn view(&self) -> LaunchView {
        LaunchView {
            removed: crate::environment::wide_views(self.removed@),
            profile: self.profile@,
            capabilities: capability_views(self.capabilities@),
        }
    }
}

/// Where starting a program stands.
#[derive(Debug)]
pub enum SpawnState {
    /// The size of the identifier of the network capability is being looked up.
    Sizing(SpawnPlan),
    /// The identifier of the network capability is being written to a buffer.
    WritingSid(SpawnPlan, Vec<u8>),
    /// What the name of the container is made of is being looked up.
    Naming(SpawnPlan),
    /// The container of this name is being created.
    CreatingProfile(SpawnPlan, WideString),
    /// Whether the path of an exception is a directory is being looked up.
    Inspecting(SpawnPlan, AppContainerProfile, PathEntry),
    /// The container is being granted access to the path of an exception.
    Granting(SpawnPlan, AppContainerProfile, Grant),
    /// The names of the environment variables are being looked up.
    ReadingEnvironment(SpawnPlan, AppContainerProfile),
    /// The program can be launched.
    Ready(Launch),
    /// The program cannot be started.
    Failed(Error),
}

/// Where starting a program stands.
pub enum SpawnStateView {
    Sizing(SpawnPlanView),
    WritingSid(SpawnPlanView, Seq<u8>),
    Naming(SpawnPlanView),
    CreatingProfile(SpawnPlanView, Seq<u16>),
    Inspecting(SpawnPlanView, ProfileView, PathEntryView),
    Granting(SpawnPlanView, ProfileView, GrantView),
    ReadingEnvironment(SpawnPlanView, ProfileView),
    Ready(LaunchView),
    Failed(ErrorView),
}

impl View for SpawnState {
    type V = SpawnStateView;

    open spec fn view(&self) -> SpawnStateView {
        match self {
            SpawnState::Sizing(plan) => SpawnStateView::Sizing(plan@),
            SpawnState::WritingSid(plan, buffer) => SpawnStateView::WritingSid(plan@, buffer@),
            SpawnState::Naming(plan) => SpawnStateView::Naming(plan@),
            SpawnState::CreatingProfile(plan, name) => SpawnStateView::CreatingProfile(
                plan@,
                name@,
            ),
            SpawnState::Inspecting(plan, profile, entry) => SpawnStateView::Inspecting(
                plan@,
                profile@,
                entry@,
            ),
            SpawnState::Granting(plan, profile, grant) => SpawnStateView::Granting(
                plan@,
                profile@,
                grant@,
            ),
            SpawnState::ReadingEnvironment(plan, profile) => SpawnStateView::ReadingEnvironment(
                plan@,
                profile@,
            ),
            SpawnState::Ready(launch) => SpawnStateView::Ready(launch@),
            SpawnState::Failed(err) => SpawnStateView::Failed(err@),
        }
    }
}

/// What was found out or done for a program that is being started.
#[derive(Debug)]
pub enum SpawnReply {
    /// The size of the identifier.
    SidSize(u32),
    /// The buffer with the identifier, or the result code of the failure.
    SidWritten(Result<Vec<u8>, i32>),
    /// What the name of the container is made of.
    NameParts(NameParts),
    /// The address of the identifier of the new container, or the result code of the failure.
    ProfileCreated(Result<usize, i32>),
    /// Whether the path is a directory.
    IsDirectory(bool),
    /// A system call on the way to granting access.
    Grant(GrantReply),
    /// The names of the environment variables set for the program itself, and of those of this
    /// process.
    Environment(Vec<WideString>, Vec<WideString>),
}

/// What a `SpawnReply` says.
pub enum SpawnReplyView {
    SidSize(u32),
    SidWritten(Result<Seq<u8>, i32>),
    NameParts(Seq<u16>),
    ProfileCreated(Result<usize, i32>),
    IsDirectory(bool),
    Grant(GrantReply),
    Environment(Seq<Seq<u16>>, Seq<Seq<u16>>),
}

impl View for SpawnReply {
    type V = SpawnReplyView;

    open spec fn view(&self) -> SpawnReplyView {
        match self {
            SpawnReply::SidSize(size) => SpawnReplyView::SidSize(*size),
            SpawnReply::SidWritten(Ok(data)) => SpawnReplyView::SidWritten(Ok(data@)),
            SpawnReply::SidWritten(Err(code)) => SpawnReplyView::SidWritten(Err(*code)),
            SpawnReply::NameParts(parts) => SpawnReplyView::NameParts(
                crate::container::name_of_parts(*parts),
            ),
            SpawnReply::ProfileCreated(created) => SpawnReplyView::ProfileCreated(*created),
            SpawnReply::IsDirectory(is_dir) => SpawnReplyView::IsDirectory(*is_dir),
            SpawnReply::Grant(reply) => SpawnReplyView::Grant(*reply),
            SpawnReply::Environment(command, process) => SpawnReplyView::Environment(
                crate::environment::wide_views(command@),
                crate::environment::wide_views(process@),
            ),
        }
    }
}

/// What has to be done next to start a program.
pub enum SpawnAction<'a> {
    /// Look up the size of the well-known identifier of this kind.
    SizeWellKnownSid(i32),
    /// Write the well-known identifier of this kind to a copy of this buffer.
    WriteWellKnownSid(i32, &'a Vec<u8>),
    /// Look up what the name of the container is made of.
    DescribeContainer,
    /// Create the container.
    CreateProfile(ProfileRequest),
    /// Look up whether this path is a directory.
    IsDirectory(WideString),
    /// Go on granting access.
    Grant(&'a Grant),
    /// Look up the names of the environment variables.
    ReadEnvironment,
    /// Launch the program.
    Launch(&'a Launch),
    /// The program cannot be started: nothing.
    Fail(&'a Error),
}

/// What the container is granted for an exception: access to a registry key by its name without
/// the prefix of its path, and to a file or directory by the path as it was given. What is beneath
/// it is included; for a path in the file system, where it is a directory.
pub open spec fn entry_target(sid: SidView, entry: PathEntryView, is_dir: bool) -> GrantTarget {
    let (write, execute) = (entry.exception.write, entry.exception.execute);
    let name = crate::sandbox::launch_name(entry.name, entry.path_type.registry);
    match entry.path_type.registry {
        Some(view) => crate::grant::grant_target(
            sid,
            name,
            crate::path_type::view_object_type(Some(view)),
            crate::access::registry_access_mask(write, execute),
            true,
        ),
        None => crate::grant::grant_target(
            sid,
            name,
            ObjectType::FileObject,
            crate::access::file_access_mask(write, execute, is_dir),
            is_dir,
        ),
    }
}

/// A grant that has not begun yet.
pub open spec fn new_grant(target: GrantTarget) -> GrantView {
    GrantView { target, phase: GrantPhaseView::Reading }
}

/// Where starting a program goes on once everything before the remaining exceptions is done:
/// with the first of them, or, after the last, with the environment.
pub open spec fn after_grants(plan: SpawnPlanView, profile: ProfileView) -> SpawnStateView {
    if plan.remaining.len() > 0 {
        let entry = plan.remaining[0];
        let rest = SpawnPlanView { remaining: plan.remaining.skip(1), ..plan };
        match entry.path_type.registry {
            Some(_) => SpawnStateView::Granting(
                rest,
                profile,
                new_grant(entry_target(profile.sid, entry, false)),
            ),
            None => SpawnStateView::Inspecting(rest, profile, entry),
        }
    } else if plan.full_env {
        SpawnStateView::Ready(
            LaunchView { removed: Seq::empty(), profile, capabilities: plan.capabilities },
        )
    } else {
        SpawnStateView::ReadingEnvironment(plan, profile)
    }
}

/// Where starting a program stands after a reply. A reply to another question changes nothing.
pub open spec fn next_spawn_state(state: SpawnStateView, reply: SpawnReplyView) -> SpawnStateView {
    match (state, reply) {
        (SpawnStateView::Sizing(plan), SpawnReplyView::SidSize(size)) => {
            SpawnStateView::WritingSid(plan, Seq::new(size as nat, |i: int| 0u8))
        },
        (SpawnStateView::WritingSid(plan, _), SpawnReplyView::SidWritten(written)) => {
            match written {
                Ok(data) => SpawnStateView::Naming(
                    SpawnPlanView {
                        capabilities: plan.capabilities.push(
                            CapabilityView {
                                sid: SidView::WellKnown(data),
                                attributes: crate::win32::network_capability().attributes,
                            },
                        ),
                        ..plan
                    },
                ),
                Err(code) => SpawnStateView::Failed(ErrorView::Io(code)),
            }
        },
        (SpawnStateView::Naming(plan), SpawnReplyView::NameParts(name)) => {
            SpawnStateView::CreatingProfile(plan, name)
        },
        (SpawnStateView::CreatingProfile(plan, name), SpawnReplyView::ProfileCreated(created)) => {
            match created {
                Ok(sid) => after_grants(plan, ProfileView { name, sid: SidView::Raw(sid) }),
                Err(code) => SpawnStateView::Failed(ErrorView::Io(code)),
            }
        },
        (
            SpawnStateView::Inspecting(plan, profile, entry),
            SpawnReplyView::IsDirectory(is_dir),
        ) => {
            SpawnStateView::Granting(
                plan,
                profile,
                new_grant(entry_target(profile.sid, entry, is_dir)),
            )
        },
        (SpawnStateView::Granting(plan, profile, grant), SpawnReplyView::Grant(reply)) => {
            let next = crate::grant::next_grant(grant, reply);
            match next.phase {
                GrantPhaseView::Granted => after_grants(plan, profile),
                GrantPhaseView::Failed(err) => SpawnStateView::Failed(err),
                _ => SpawnStateView::Granting(plan, profile, next),
            }
        },
        (
            SpawnStateView::ReadingEnvironment(plan, profile),
            SpawnReplyView::Environment(command, process),
        ) => {
            SpawnStateView::Ready(
                LaunchView {
                    removed: crate::environment::removed_variables(
                        command + process,
                        plan.env_exceptions,
                    ),
                    profile,
                    capabilities: plan.capabilities,
                },
            )
        },
        _ => state,
    }
}

/// Where starting a program in a sandbox begins, in a process of so many threads: with the
/// network capability where networking is an exception, and with the container otherwise. It
/// fails unless the process is single-threaded.
pub open spec fn first_spawn_state(sandbox: SandboxView, threads: nat) -> SpawnStateView {
    let plan = SpawnPlanView {
        env_exceptions: sandbox.env_exceptions,
        full_env: sandbox.full_env,
        remaining: crate::sandbox::launch_entries(sandbox.path_exceptions),
        capabilities: Seq::empty(),
    };
    if threads > 1 {
        SpawnStateView::Failed(ErrorView::NotSingleThreaded)
    } else if sandbox.allow_networking {
        SpawnStateView::Sizing(plan)
    } else {
        SpawnStateView::Naming(plan)
    }
}

/// Whether an action is what has to be done next to start a program.
pub open spec fn is_spawn_action(state: SpawnState, action: SpawnAction<'_>) -> bool {
    let sid_type = crate::win32::network_capability().sid_type;
    match state {
        SpawnState::Sizing(_) => action == SpawnAction::SizeWellKnownSid(sid_type),
        SpawnState::WritingSid(_, buffer) => {
            &&& action matches SpawnAction::WriteWellKnownSid(kind, into)
            &&& kind == sid_type
            &&& *into == buffer
        },
        SpawnState::Naming(_) => action is DescribeContainer,
        SpawnState::CreatingProfile(_, name) => {
            &&& action matches SpawnAction::CreateProfile(request)
            &&& request.name@ == name@.push(0)
            &&& request.display_name@ == crate::wide::encode_utf16("Birdcage Application"@).push(0)
            &&& request.description@ == crate::wide::encode_utf16(
                "Application container for Birdcage sandboxing"@,
            ).push(0)
        },
        SpawnState::Inspecting(_, _, entry) => {
            &&& action matches SpawnAction::IsDirectory(path)
            &&& path@ == crate::sandbox::launch_name(entry@.name, entry@.path_type.registry)
        },
        SpawnState::Granting(_, _, grant) => {
            &&& action matches SpawnAction::Grant(going_on)
            &&& *going_on == grant
        },
        SpawnState::ReadingEnvironment(_, _) => action is ReadEnvironment,
        SpawnState::Ready(launch) => {
            &&& action matches SpawnAction::Launch(ready)
            &&& *ready == launch
        },
        SpawnState::Failed(err) => {
            &&& action matches SpawnAction::Fail(failure)
            &&& *failure == err
        },
    }
}

/// What is handed over about the container when a program is launched in it.
pub struct SecurityCapabilities<'a> {
    /// The identifier of the container.
    pub app_container_sid: SidPointer<'a>,
    /// Its capabilities; where there are none, no list of them is handed over.
    pub capabilities: Option<&'a Vec<Capability>>,
    pub capability_count: u32,
}

impl Launch {
    /// What is handed over about the container.
    pub fn security_capabilities(&self) -> (r: SecurityCapabilities<'_>)
        ensures
            crate::sid::points_to(r.app_container_sid, self@.profile.sid),
            r.capabilities == (if self.capabilities@.len() == 0 {
                None
            } else {
                Some(&self.capabilities)
            }),
            r.capability_count == self.capabilities@.len() as u32,
    {
        SecurityCapabilities {
            app_container_sid: self.profile.sid().as_ptr(),
            capabilities: if self.capabilities.len() == 0 {
                None
            } else {
                Some(&self.capabilities)
            },
            capability_count: self.capabilities.len() as u32,
        }
    }
}

/// The grant for the path of an exception.
fn entry_grant(profile: &AppContainerProfile, entry: PathEntry, is_dir: bool) -> (r: Grant)
    ensures
        r@ == new_grant(entry_target(profile@.sid, entry@, is_dir)),
{
    let exception = entry.exception;
    let name = entry.launch_name();
    match entry.path_type.registry() {
        Some(view) => grant_access(
            profile.sid(),
            name,
            view.object_type(),
            compute_registry_access_masks(exception.write, exception.execute),
            true,
        ),
        None => grant_access(
            profile.sid(),
            name,
            ObjectType::FileObject,
            compute_file_access_masks(exception.write, exception.execute, is_dir),
            is_dir,
        ),
    }
}

impl SpawnPlan {
    /// Where starting the program goes on once everything before the remaining exceptions is
    /// done.
    fn after_grants(self, profile: AppContainerProfile) -> (r: SpawnState)
        ensures
            r@ == after_grants(self@, profile@),
    {
        let mut plan: SpawnPlan = self;
        if plan.remaining.len() > 0 {
            let ghost before = plan.remaining@;
            let entry: PathEntry = plan.remaining.remove(0);
            assert(crate::sandbox::entry_views(plan.remaining@) =~= crate::sandbox::entry_views(
                before,
            ).skip(1));
            match entry.path_type.registry() {
                Some(_) => {
                    let grant = entry_grant(&profile, entry, false);
                    SpawnState::Granting(plan, profile, grant)
                },
                None => SpawnState::Inspecting(plan, profile, entry),
            }
        } else if plan.full_env {
            let launch = Launch { removed: Vec::new(), profile, capabilities: plan.capabilities };
            assert(launch@.removed =~= Seq::<Seq<u16>>::empty());
            SpawnState::Ready(launch)
        } else {
            SpawnState::ReadingEnvironment(plan, profile)
        }
    }
}

impl SpawnState {
    /// What has to be done next.
    pub fn action(&self) -> (r: SpawnAction<'_>)
        ensures
            is_spawn_action(*self, r),
    {
        match self {
            SpawnState::Sizing(_) => SpawnAction::SizeWellKnownSid(
                load_network_capability().sid_type,
            ),
            SpawnState::WritingSid(_, buffer) => SpawnAction::WriteWellKnownSid(
                load_network_capability().sid_type,
                buffer,
            ),
            SpawnState::Naming(_) => SpawnAction::DescribeContainer,
            SpawnState::CreatingProfile(_, name) => SpawnAction::CreateProfile(
                AppContainerProfile::sandbox_request(name),
            ),
            SpawnState::Inspecting(_, _, entry) => SpawnAction::IsDirectory(
                entry.launch_name(),
            ),
            SpawnState::Granting(_, _, grant) => SpawnAction::Grant(grant),
            SpawnState::ReadingEnvironment(_, _) => SpawnAction::ReadEnvironment,
            SpawnState::Ready(launch) => SpawnAction::Launch(launch),
            SpawnState::Failed(err) => SpawnAction::Fail(err),
        }
    }

    /// Where starting the program stands after a reply. A reply to another question changes
    /// nothing.
    pub fn resume(self, reply: SpawnReply) -> (r: SpawnState)
        ensures
            r@ == next_spawn_state(self@, reply@),
    {
        match (self, reply) {
            (SpawnState::Sizing(plan), SpawnReply::SidSize(size)) => {
                SpawnState::WritingSid(plan, Sid::well_known_buffer(size))
            },
            (SpawnState::WritingSid(plan, _), SpawnReply::SidWritten(written)) => {
                match Sid::well_known(written) {
                    Ok(sid) => {
                        let mut plan: SpawnPlan = plan;
                        let ghost before = plan.capabilities@;
                        let capability = Capability {
                            sid,
                            attributes: load_network_capability().attributes,
                        };
                        plan.capabilities.push(capability);
                        assert(capability_views(plan.capabilities@) =~= capability_views(
                            before,
                        ).push(capability@));
                        SpawnState::Naming(plan)
                    },
                    Err(err) => SpawnState::Failed(err),
                }
            },
            (SpawnState::Naming(plan), SpawnReply::NameParts(parts)) => {
                SpawnState::CreatingProfile(plan, parts.name())
            },
            (SpawnState::CreatingProfile(plan, name), SpawnReply::ProfileCreated(created)) => {
                match AppContainerProfile::new(&name, created) {
                    Ok(profile) => plan.after_grants(profile),
                    Err(err) => SpawnState::Failed(err),
                }
            },
            (SpawnState::Inspecting(plan, profile, entry), SpawnReply::IsDirectory(is_dir)) => {
                let grant = entry_grant(&profile, entry, is_dir);
                SpawnState::Granting(plan, profile, grant)
            },
            (SpawnState::Granting(plan, profile, grant), SpawnReply::Grant(reply)) => {
                let next: Grant = grant.resume(reply);
                match next.phase {
                    GrantPhase::Granted => plan.after_grants(profile),
                    GrantPhase::Failed(err) => SpawnState::Failed(err),
                    _ => SpawnState::Granting(plan, profile, next),
                }
            },
            (
                SpawnState::ReadingEnvironment(plan, profile),
                SpawnReply::Environment(command, process),
            ) => {
                let removed = variables_to_remove(&command, &process, &plan.env_exceptions);
                SpawnState::Ready(Launch { removed, profile, capabilities: plan.capabilities })
            },
            (state, _) => state,
        }
    }
}

} // verus!
