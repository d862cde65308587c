//! Granting a container access to an object: its access control list is read, an entry is
//! merged into it, and the outcome is written back.
use vstd::prelude::*;

use crate::access::{explicit_access, ExplicitAccess, ExplicitAccessView};
use crate::error::{map_to_birdcage_error, status_result, Error, ErrorView};
use crate::path_type::ObjectType;
use crate::security::{
    AccessControlListExt, EntriesRequest, OwnedAccessControlList, SecurityDescriptor,
    SecurityInfoRequest, SecurityUpdateRequest,
};
use crate::sid::{Sid, SidView};
use crate::wide::WideString;

verus! {

/// Where granting access stands.
#[derive(Debug)]
pub enum GrantPhase {
    /// The descriptor of the object is being read.
    Reading,
    /// The entry is being merged into the list of the descriptor.
    Merging(SecurityDescriptor),
    /// The merged list is being written back.
    Writing(OwnedAccessControlList),
    /// Access is granted.
    Granted,
    /// A system call failed.
    Failed(Error),
}

/// Where granting access stands.
pub enum GrantPhaseView {
    Reading,
    Merging(SecurityDescriptor),
    Writing(OwnedAccessControlList),
    Granted,
    Failed(ErrorView),
}

impl View for GrantPhase {
    type V = GrantPhaseView;

    open spec fn view(&self) -> GrantPhaseView {
        match self {
            GrantPhase::Reading => GrantPhaseView::Reading,
            GrantPhase::Merging(descriptor) => GrantPhaseView::Merging(*descriptor),
            GrantPhase::Writing(acl) => GrantPhaseView::Writing(*acl),
            GrantPhase::Granted => GrantPhaseView::Granted,
            GrantPhase::Failed(err) => GrantPhaseView::Failed(err@),
        }
    }
}

/// Access that is being granted.
#[derive(Debug)]
pub struct Grant {
    /// The object.
    pub name: WideString,
    pub object_type: ObjectType,
    /// The entry that goes into its access control list.
    pub access: [ExplicitAccess; 1],
    pub phase: GrantPhase,
}

/// What access is granted to what object.
pub struct GrantTarget {
    pub name: Seq<u16>,
    pub object_type: ObjectType,
    pub entry: ExplicitAccessView,
}

/// What a `Grant` says.
pub struct GrantView {
    pub target: GrantTarget,
    pub phase: GrantPhaseView,
}

impl View for Grant {
    type V = GrantView;

    open spec fn view(&self) -> GrantView {
        GrantView {
            target: GrantTarget {
                name: self.name@,
                object_type: self.object_type,
                entry: self.access@[0]@,
            },
            phase: self.phase@,
        }
    }
}

/// What a system call on the way to granting access reported.
#[derive(Debug, Clone, Copy, PartialEq, Eq, Structural)]
pub enum GrantReply {
    /// The status of reading the security information, and what was read.
    SecurityInfo(u32, SecurityDescriptor),
    /// The status of merging the entry, and the address of the merged list.
    Entries(u32, usize),
    /// The status of writing the security information.
    Written(u32),
}

/// What has to be done next to grant access.
pub enum GrantAction<'a> {
    GetNamedSecurityInfo(SecurityInfoRequest),
    SetEntriesInAcl(EntriesRequest<'a>),
    SetNamedSecurityInfo(SecurityUpdateRequest),
    /// Access is granted: nothing.
    Finish,
    /// Access could not be granted: nothing.
    Fail(&'a Error),
}

/// What granting `sid` the rights `access_mask` to an object is about.
pub open spec fn grant_target(
    sid: SidView,
    name: Seq<u16>,
    object_type: ObjectType,
    access_mask: u32,
    inherit: bool,
) -> GrantTarget {
    GrantTarget {
        name,
        object_type,
        entry: crate::access::explicit_access_entry(sid, access_mask, inherit),
    }
}

/// The phase after a system call that succeeded, or failed with `status`.
pub open spec fn after_call(name: Seq<u16>, status: u32, next: GrantPhaseView) -> GrantPhaseView {
    if status == 0 {
        next
    } else {
        GrantPhaseView::Failed(crate::error::object_error(crate::win32::hresult(status), name))
    }
}

/// The phase after a reply. A reply to another question changes nothing.
pub open spec fn next_phase(grant: GrantView, reply: GrantReply) -> GrantPhaseView {
    let name = grant.target.name;
    match (grant.phase, reply) {
        (GrantPhaseView::Reading, GrantReply::SecurityInfo(status, read)) => after_call(
            name,
            status,
            GrantPhaseView::Merging(read),
        ),
        (GrantPhaseView::Merging(_), GrantReply::Entries(status, acl)) => after_call(
            name,
            status,
            GrantPhaseView::Writing(OwnedAccessControlList(acl)),
        ),
        (GrantPhaseView::Writing(_), GrantReply::Written(status)) => after_call(
            name,
            status,
            GrantPhaseView::Granted,
        ),
        _ => grant.phase,
    }
}

/// A grant after a reply.
pub open spec fn next_grant(grant: GrantView, reply: GrantReply) -> GrantView {
    GrantView { phase: next_phase(grant, reply), ..grant }
}

/// A grant after several replies.
pub open spec fn run_grant(grant: GrantView, replies: Seq<GrantReply>) -> GrantView
    decreases replies.len(),
{
    if replies.len() == 0 {
        grant
    } else {
        run_grant(next_grant(grant, replies[0]), replies.skip(1))
    }
}

/// Begins to grant `app_container_sid` the rights `access_mask` to the object `name`, and, where
/// `inherit` holds, to what is beneath it.
pub fn grant_access(
    app_container_sid: &Sid,
    name: WideString,
    object_type: ObjectType,
    access_mask: u32,
    inherit: bool,
) -> (r: Grant)
    ensures
        r@ == (GrantView {
            target: grant_target(app_container_sid@, name@, object_type, access_mask, inherit),
            phase: GrantPhaseView::Reading,
        }),
{
    Grant {
        name,
        object_type,
        access: [explicit_access(app_container_sid, access_mask, inherit)],
        phase: GrantPhase::Reading,
    }
}

/// Whether an action is what has to be done next for a grant.
pub open spec fn is_grant_action(grant: Grant, action: GrantAction<'_>) -> bool {
    let code = crate::path_type::object_type_code(grant.object_type);
    match grant.phase {
        GrantPhase::Reading => {
            &&& action matches GrantAction::GetNamedSecurityInfo(request)
            &&& request.name@ == grant.name@.push(0)
            &&& request.object_type == code
            &&& request.security_info == crate::win32::dacl_security_information()
        },
        GrantPhase::Merging(descriptor) => {
            &&& action matches GrantAction::SetEntriesInAcl(request)
            &&& request.entries@ == grant.access@
            &&& request.old_acl == descriptor.dacl
        },
        GrantPhase::Writing(acl) => {
            &&& action matches GrantAction::SetNamedSecurityInfo(request)
            &&& request.name@ == grant.name@.push(0)
            &&& request.object_type == code
            &&& request.security_info == crate::win32::dacl_security_information()
            &&& request.dacl == acl.0
        },
        GrantPhase::Granted => action is Finish,
        GrantPhase::Failed(err) => {
            &&& action matches GrantAction::Fail(failure)
            &&& *failure == err
        },
    }
}

impl Grant {
    /// What has to be done next.
    pub fn action(&self) -> (r: GrantAction<'_>)
        ensures
            is_grant_action(*self, r),
            self.phase matches GrantPhase::Merging(descriptor) ==> {
                &&& r matches GrantAction::SetEntriesInAcl(request)
                &&& request.old_acl == descriptor.dacl
                &&& request.entries@ == self.access@
            },
            self.phase matches GrantPhase::Writing(acl) ==> {
                &&& r matches GrantAction::SetNamedSecurityInfo(request)
                &&& request.dacl == acl.0
                &&& request.name@ == self.name@.push(0)
                &&& request.object_type == crate::path_type::object_type_code(self.object_type)
            },
    {
        match &self.phase {
            GrantPhase::Reading => GrantAction::GetNamedSecurityInfo(
                SecurityDescriptor::named_security_info_request(&self.name, self.object_type),
            ),
            GrantPhase::Merging(descriptor) => {
                let dacl = descriptor.discretionary_access_control_list();
                GrantAction::SetEntriesInAcl(
                    dacl.set_entries_in_acl(self.access.as_slice()),
                )
            },
            GrantPhase::Writing(acl) => GrantAction::SetNamedSecurityInfo(
                acl.set_named_security_info(&self.name, self.object_type),
            ),
            GrantPhase::Granted => GrantAction::Finish,
            GrantPhase::Failed(err) => GrantAction::Fail(err),
        }
    }

    /// The grant after a reply. A reply to another question changes nothing.
    pub fn resume(self, reply: GrantReply) -> (r: Grant)
        ensures
            r@ == next_grant(self@, reply),
    {
        let phase: GrantPhase = match (self.phase, reply) {
            (GrantPhase::Reading, GrantReply::SecurityInfo(status, read)) => {
                match SecurityDescriptor::named_security_info(status, read) {
                    Ok(descriptor) => GrantPhase::Merging(descriptor),
                    Err(code) => GrantPhase::Failed(map_to_birdcage_error(code, &self.name)),
                }
            },
            (GrantPhase::Merging(_), GrantReply::Entries(status, acl)) => {
                match OwnedAccessControlList::merged(status, acl) {
                    Ok(acl) => GrantPhase::Writing(acl),
                    Err(code) => GrantPhase::Failed(map_to_birdcage_error(code, &self.name)),
                }
            },
            (GrantPhase::Writing(_), GrantReply::Written(status)) => {
                match status_result(status) {
                    Ok(_) => GrantPhase::Granted,
                    Err(code) => GrantPhase::Failed(map_to_birdcage_error(code, &self.name)),
                }
            },
            (phase, _) => phase,
        };
        Grant { name: self.name, object_type: self.object_type, access: self.access, phase }
    }
}

/// Whether granting access has come to its end.
pub open spec fn is_settled(phase: GrantPhaseView) -> bool {
    phase is Granted || phase is Failed
}

/// Whatever is replied, the object and the access granted to it stay what they were; and once
/// access is granted, or could not be, no reply changes that.
pub proof fn grant_keeps_target_and_end(grant: GrantView, replies: Seq<GrantReply>)
    ensures
        run_grant(grant, replies).target == grant.target,
        is_settled(grant.phase) ==> run_grant(grant, replies) == grant,
    decreases replies.len(),
{
    if replies.len() > 0 {
        grant_keeps_target_and_end(next_grant(grant, replies[0]), replies.skip(1));
    }
}

/// The end of a grant whose three calls report these statuses: the first failure, with the name
/// of the object where it does not exist, or else success.
pub open spec fn grant_end(name: Seq<u16>, read: u32, merged: u32, written: u32) -> GrantPhaseView {
    after_call(
        name,
        read,
        after_call(name, merged, after_call(name, written, GrantPhaseView::Granted)),
    )
}

/// Reading, merging and writing back, one after the other, end as their statuses say.
pub proof fn grant_runs_to_its_end(
    target: GrantTarget,
    read: u32,
    descriptor: SecurityDescriptor,
    merged: u32,
    acl: usize,
    written: u32,
)
    ensures
        run_grant(
            GrantView { target, phase: GrantPhaseView::Reading },
            seq![
                GrantReply::SecurityInfo(read, descriptor),
                GrantReply::Entries(merged, acl),
                GrantReply::Written(written),
            ],
        ) == (GrantView { target, phase: grant_end(target.name, read, merged, written) }),
{
    let replies = seq![
        GrantReply::SecurityInfo(read, descriptor),
        GrantReply::Entries(merged, acl),
        GrantReply::Written(written),
    ];
    reveal_with_fuel(run_grant, 4);
    assert(replies.skip(1)[0] == replies[1]);
    assert(replies.skip(1).skip(1)[0] == replies[2]);
    assert(replies.skip(1).skip(1).skip(1).len() == 0);
}

/// That the security information was read.
pub open spec fn read_succeeded(reply: GrantReply) -> bool {
    reply matches GrantReply::SecurityInfo(status, _) && status == 0
}

/// That the entry was merged.
pub open spec fn merge_succeeded(reply: GrantReply) -> bool {
    reply matches GrantReply::Entries(status, _) && status == 0
}

/// That the merged list was written back.
pub open spec fn write_succeeded(reply: GrantReply) -> bool {
    reply matches GrantReply::Written(status) && status == 0
}

/// Whether the replies hold that reading, merging and writing succeeded, in this order.
pub open spec fn all_calls_succeeded(replies: Seq<GrantReply>) -> bool {
    exists|i: int, j: int, k: int|
        {
            &&& 0 <= i < j < k < replies.len()
            &&& #[trigger] read_succeeded(replies[i])
            &&& #[trigger] merge_succeeded(replies[j])
            &&& #[trigger] write_succeeded(replies[k])
        }
}

/// The calls that are still owed in a phase have succeeded, in this order.
pub open spec fn owed_calls_succeeded(phase: GrantPhaseView, replies: Seq<GrantReply>) -> bool {
    match phase {
        GrantPhaseView::Reading => all_calls_succeeded(replies),
        GrantPhaseView::Merging(_) => exists|j: int, k: int|
            {
                &&& 0 <= j < k < replies.len()
                &&& #[trigger] merge_succeeded(replies[j])
                &&& #[trigger] write_succeeded(replies[k])
            },
        GrantPhaseView::Writing(_) => exists|k: int|
            {
                &&& 0 <= k < replies.len()
                &&& #[trigger] write_succeeded(replies[k])
            },
        GrantPhaseView::Granted => true,
        GrantPhaseView::Failed(_) => false,
    }
}

/// Calls that succeeded in later replies also did in all of them.
pub(crate) proof fn lemma_owed_earlier(
    phase: GrantPhaseView,
    reply: GrantReply,
    rest: Seq<GrantReply>,
)
    requires
        owed_calls_succeeded(phase, rest),
    ensures
        owed_calls_succeeded(phase, seq![reply] + rest),
{
    let replies = seq![reply] + rest;
    assert forall|i: int| 0 <= i < rest.len() implies #[trigger] rest[i] == replies[i + 1] by {}
    match phase {
        GrantPhaseView::Reading => {
            let (i, j, k) = choose|i: int, j: int, k: int|
                {
                    &&& 0 <= i < j < k < rest.len()
                    &&& #[trigger] read_succeeded(rest[i])
                    &&& #[trigger] merge_succeeded(rest[j])
                    &&& #[trigger] write_succeeded(rest[k])
                };
            assert(read_succeeded(replies[i + 1]) && merge_succeeded(replies[j + 1])
                && write_succeeded(replies[k + 1]));
        },
        GrantPhaseView::Merging(_) => {
            let (j, k) = choose|j: int, k: int|
                {
                    &&& 0 <= j < k < rest.len()
                    &&& #[trigger] merge_succeeded(rest[j])
                    &&& #[trigger] write_succeeded(rest[k])
                };
            assert(merge_succeeded(replies[j + 1]) && write_succeeded(replies[k + 1]));
        },
        GrantPhaseView::Writing(_) => {
            let k = choose|k: int|
                {
                    &&& 0 <= k < rest.len()
                    &&& #[trigger] write_succeeded(rest[k])
                };
            assert(write_succeeded(replies[k + 1]));
        },
        _ => {},
    }
}

/// What is owed before a reply is what is owed after it and, where the reply took the grant a
/// step further, the call that was replied to.
pub(crate) proof fn lemma_owed_step(grant: GrantView, reply: GrantReply, rest: Seq<GrantReply>)
    requires
        owed_calls_succeeded(next_grant(grant, reply).phase, rest),
    ensures
        owed_calls_succeeded(grant.phase, seq![reply] + rest),
{
    let replies = seq![reply] + rest;
    let next = next_grant(grant, reply).phase;
    assert(replies[0] == reply);
    if next == grant.phase {
        lemma_owed_earlier(grant.phase, reply, rest);
    } else {
        lemma_owed_earlier(next, reply, rest);
        assert forall|i: int| 0 <= i < rest.len() implies #[trigger] rest[i] == replies[i + 1] by {}
        match next {
            GrantPhaseView::Merging(_) => {
                let (j, k) = choose|j: int, k: int|
                    {
                        &&& 0 <= j < k < rest.len()
                        &&& #[trigger] merge_succeeded(rest[j])
                        &&& #[trigger] write_succeeded(rest[k])
                    };
                assert(merge_succeeded(replies[j + 1]) && write_succeeded(replies[k + 1]));
                assert(read_succeeded(replies[0]));
            },
            GrantPhaseView::Writing(_) => {
                let k = choose|k: int|
                    {
                        &&& 0 <= k < rest.len()
                        &&& #[trigger] write_succeeded(rest[k])
                    };
                assert(write_succeeded(replies[k + 1]));
                assert(merge_succeeded(replies[0]));
            },
            _ => {
                assert(write_succeeded(replies[0]));
            },
        }
    }
}

proof fn lemma_owed_calls(grant: GrantView, replies: Seq<GrantReply>)
    requires
        run_grant(grant, replies).phase is Granted,
    ensures
        owed_calls_succeeded(grant.phase, replies),
    decreases replies.len(),
{
    if replies.len() > 0 {
        lemma_owed_calls(next_grant(grant, replies[0]), replies.skip(1));
        lemma_owed_step(grant, replies[0], replies.skip(1));
        assert(seq![replies[0]] + replies.skip(1) =~= replies);
    }
}

/// Access is never taken to be granted unless reading, merging and writing back all succeeded,
/// whatever else was replied.
pub proof fn granted_only_after_all_calls(target: GrantTarget, replies: Seq<GrantReply>)
    requires
        run_grant(GrantView { target, phase: GrantPhaseView::Reading }, replies).phase is Granted,
    ensures
        all_calls_succeeded(replies),
{
    lemma_owed_calls(GrantView { target, phase: GrantPhaseView::Reading }, replies);
}

/// The rights that an identifier has by entries of its own in an access control list, and what
/// is beneath the object they reach.
pub struct OwnRights {
    pub access_permissions: u32,
    pub inheritance: u32,
}

/// Whether the rights of a list may turn from `before` into `after` when an entry is merged into
/// it. By an entry that sets access, what its identifier had is replaced, and no other identifier
/// is affected; of entries in other modes nothing is said.
pub open spec fn merges_into(
    before: Map<SidView, OwnRights>,
    entry: ExplicitAccessView,
    after: Map<SidView, OwnRights>,
) -> bool {
    entry.access_mode == crate::win32::entry_codes().set_access ==> after == before.insert(
        entry.sid,
        OwnRights {
            access_permissions: entry.access_permissions,
            inheritance: entry.inheritance,
        },
    )
}

/// Of two grants in a row to one identifier on one object, the later rights stand alone: they are
/// set, and not added to the earlier ones. Granting the same again changes nothing.
pub proof fn later_grant_stands_alone(
    sid: SidView,
    name: Seq<u16>,
    object_type: ObjectType,
    first_mask: u32,
    second_mask: u32,
    inherit: bool,
    before: Map<SidView, OwnRights>,
    between: Map<SidView, OwnRights>,
    after: Map<SidView, OwnRights>,
)
    requires
        merges_into(
            before,
            grant_target(sid, name, object_type, first_mask, inherit).entry,
            between,
        ),
        merges_into(
            between,
            grant_target(sid, name, object_type, second_mask, inherit).entry,
            after,
        ),
    ensures
        after.contains_key(sid),
        after[sid].access_permissions == second_mask,
        after.remove(sid) == before.remove(sid),
        first_mask == second_mask ==> after == between,
{
    assert(after.remove(sid) =~= before.remove(sid));
    if first_mask == second_mask {
        assert(after =~= between);
    }
}

} // verus!
