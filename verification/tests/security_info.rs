use birdcage::access::explicit_access;
use birdcage::error::{map_to_birdcage_error, status_result};
use birdcage::grant::{grant_access, Grant, GrantAction, GrantPhase, GrantReply};
use birdcage::path_type::ObjectType;
use birdcage::security::{
    effective_rights, AccessControlListExt, OwnedAccessControlList, SecurityDescriptor,
};
use birdcage::sid::Sid;
use birdcage::wide::WideString;
use birdcage::Error;
use windows::Win32::Foundation::{
    ERROR_ACCESS_DENIED, ERROR_FILE_NOT_FOUND, ERROR_PATH_NOT_FOUND, WIN32_ERROR,
};
use windows::Win32::Security::DACL_SECURITY_INFORMATION;

fn wide(text: &str) -> WideString {
    WideString::from_text(text)
}

fn terminated(text: &str) -> Vec<u16> {
    text.encode_utf16().chain(std::iter::once(0)).collect()
}

fn hresult(status: WIN32_ERROR) -> i32 {
    status.to_hresult().0
}

const READ: SecurityDescriptor = SecurityDescriptor { descriptor: 0x100, dacl: 0x110 };

fn begin() -> Grant {
    grant_access(&Sid::new(0x40), wide("C:\\a"), ObjectType::FileObject, 0x12_0089, true)
}

#[test]
fn statuses_become_result_codes() {
    assert_eq!(status_result(0), Ok(()));
    assert_eq!(status_result(5), Err(hresult(ERROR_ACCESS_DENIED)));
    assert_eq!(status_result(5), Err(0x8007_0005u32 as i32));
    assert_eq!(status_result(0x1_0005), Err(0x8007_0005u32 as i32));
    assert_eq!(status_result(0x8007_0005), Err(0x8007_0005u32 as i32));
    assert_eq!(status_result(u32::MAX), Err(-1));
}

#[test]
fn missing_objects_are_invalid_paths() {
    let path = wide("C:\\gone");
    for missing in [ERROR_PATH_NOT_FOUND, ERROR_FILE_NOT_FOUND] {
        assert_eq!(
            map_to_birdcage_error(hresult(missing), &path),
            Error::InvalidPath(path.clone())
        );
    }
    let denied = hresult(ERROR_ACCESS_DENIED);
    assert_eq!(map_to_birdcage_error(denied, &path), Error::Io(denied));
    assert_eq!(map_to_birdcage_error(2, &path), Error::Io(2));
    assert_eq!(map_to_birdcage_error(3, &path), Error::Io(3));
}

#[test]
fn access_is_granted_in_three_calls() {
    let grant = begin();
    match grant.action() {
        GrantAction::GetNamedSecurityInfo(request) => {
            assert_eq!(request.name, terminated("C:\\a"));
            assert_eq!(request.object_type, 1);
            assert_eq!(request.security_info, DACL_SECURITY_INFORMATION.0);
        }
        _ => panic!(),
    }
    let grant = grant.resume(GrantReply::SecurityInfo(0, READ));
    match grant.action() {
        GrantAction::SetEntriesInAcl(request) => {
            assert_eq!(request.old_acl, 0x110);
            assert_eq!(request.entries.len(), 1);
            assert_eq!(request.entries[0].access_permissions, 0x12_0089);
            assert_eq!(request.entries[0].inheritance, 3);
            assert!(matches!(request.entries[0].trustee.sid, Sid::Raw(0x40)));
        }
        _ => panic!(),
    }
    let grant = grant.resume(GrantReply::Entries(0, 0x200));
    match grant.action() {
        GrantAction::SetNamedSecurityInfo(request) => {
            assert_eq!(request.name, terminated("C:\\a"));
            assert_eq!(request.object_type, 1);
            assert_eq!(request.security_info, DACL_SECURITY_INFORMATION.0);
            assert_eq!(request.dacl, 0x200);
        }
        _ => panic!(),
    }
    let grant = grant.resume(GrantReply::Written(0));
    assert!(matches!(grant.action(), GrantAction::Finish));
    let grant = grant.resume(GrantReply::Written(5));
    assert!(matches!(grant.phase, GrantPhase::Granted));
}

#[test]
fn any_failed_call_ends_a_grant() {
    let first = begin().resume(GrantReply::SecurityInfo(3, READ));
    assert!(matches!(first.action(), GrantAction::Fail(Error::InvalidPath(p)) if *p == wide("C:\\a")));
    let first = first.resume(GrantReply::SecurityInfo(0, READ));
    assert!(matches!(first.phase, GrantPhase::Failed(_)));

    let second = begin()
        .resume(GrantReply::SecurityInfo(0, READ))
        .resume(GrantReply::Entries(5, 0));
    let denied = hresult(ERROR_ACCESS_DENIED);
    assert!(matches!(second.phase, GrantPhase::Failed(Error::Io(code)) if code == denied));

    let third = begin()
        .resume(GrantReply::SecurityInfo(0, READ))
        .resume(GrantReply::Entries(0, 0x200))
        .resume(GrantReply::Written(2));
    assert!(matches!(third.phase, GrantPhase::Failed(Error::InvalidPath(_))));
}

#[test]
fn replies_to_other_questions_change_nothing() {
    let grant = begin().resume(GrantReply::Written(0)).resume(GrantReply::Entries(0, 0x200));
    assert!(matches!(grant.phase, GrantPhase::Reading));
    let grant = grant
        .resume(GrantReply::SecurityInfo(0, READ))
        .resume(GrantReply::SecurityInfo(5, READ))
        .resume(GrantReply::Written(0));
    assert!(matches!(grant.phase, GrantPhase::Merging(descriptor) if descriptor == READ));
}

#[test]
fn descriptors_hold_their_list() {
    assert_eq!(SecurityDescriptor::default(), SecurityDescriptor { descriptor: 0, dacl: 0 });
    let list = READ.discretionary_access_control_list();
    assert_eq!(list.as_ptr(), 0x110);
    assert_eq!(*list.owner, READ);
    let update = list.set_named_security_info(&wide("k"), ObjectType::RegistryKey);
    assert_eq!((update.name, update.object_type, update.dacl), (terminated("k"), 4, 0x110));
    assert_eq!(SecurityDescriptor::named_security_info(0, READ), Ok(READ));
    assert_eq!(
        SecurityDescriptor::named_security_info(5, READ),
        Err(hresult(ERROR_ACCESS_DENIED))
    );
}

#[test]
fn memory_is_freed_where_it_was_allocated() {
    assert_eq!(READ.release(), Some(0x100));
    assert_eq!(SecurityDescriptor::default().release(), None);
    assert_eq!(OwnedAccessControlList(0x200).release(), Some(0x200));
    assert_eq!(OwnedAccessControlList(0).release(), None);
    assert_eq!(OwnedAccessControlList::merged(0, 0x200), Ok(OwnedAccessControlList(0x200)));
    assert!(OwnedAccessControlList::merged(1, 0x200).is_err());
}

#[test]
fn effective_rights_can_be_asked_for() {
    let entry = explicit_access(&Sid::new(0x40), 1, false);
    let request = OwnedAccessControlList(0x200).get_effective_rights_from_acl(&entry.trustee);
    assert_eq!(request.acl, 0x200);
    assert_eq!(request.trustee.trustee_type, 2);
    assert_eq!(effective_rights(0, 7), Ok(7));
    assert_eq!(effective_rights(5, 7), Err(Error::Io(hresult(ERROR_ACCESS_DENIED))));
}

#[test]
fn descriptors_have_a_text() {
    assert_eq!(SecurityDescriptor::text(Ok(&wide("D:(A;;GA;;;WD)"))), "D:(A;;GA;;;WD)");
    assert_eq!(
        SecurityDescriptor::text(Err("no access")),
        "Error converting security descriptor to string: no access"
    );
    assert_eq!(
        SecurityDescriptor::text(Ok(&WideString::from_wide(vec![0xDC00]))),
        "Error converting security descriptor to string: invalid UTF-16"
    );
}
