use birdcage::environment::{restrict_env_variables, variables_to_remove};
use birdcage::grant::{Grant, GrantReply};
use birdcage::path_name::PathName;
use birdcage::path_type::ObjectType;
use birdcage::sandbox::{AddAction, AddReply, AddState};
use birdcage::security::SecurityDescriptor;
use birdcage::sid::{Sid, SidPointer};
use birdcage::container::NameParts;
use birdcage::spawn::{Launch, SpawnAction, SpawnReply, SpawnState};
use birdcage::wide::WideString;
use birdcage::{Birdcage, Error, Exception, Sandbox};
use windows::Win32::Security::WinCapabilityInternetClientSid;
use windows::Win32::System::SystemServices::SE_GROUP_ENABLED;

const READ: SecurityDescriptor = SecurityDescriptor { descriptor: 0x100, dacl: 0x110 };

fn wide(text: &str) -> WideString {
    WideString::from_text(text)
}

/// A path whose components are separated by slashes; empty ones do not count.
fn path(text: &str) -> PathName {
    PathName {
        units: wide(text),
        components: text.split('/').filter(|part| !part.is_empty()).map(wide).collect(),
    }
}

fn wides(texts: &[&str]) -> Vec<WideString> {
    texts.iter().map(|text| WideString::from_text(text)).collect()
}

fn sandbox() -> Birdcage {
    Birdcage::try_new(wide("box"), Ok(0x40)).unwrap()
}

/// The replies of the three calls of a grant that succeeds.
fn successes() -> [GrantReply; 3] {
    [GrantReply::SecurityInfo(0, READ), GrantReply::Entries(0, 0x200), GrantReply::Written(0)]
}

/// Adds an exception to a path in the file system, which is its own canonical form.
fn add(sandbox: &mut Birdcage, exception: Exception, is_dir: bool) -> AddState {
    let mut state = sandbox.add_exception(exception);
    if let AddState::Resolving(_) = state {
        state = sandbox.resume_exception(state, AddReply::Resolved(None, false));
        state = sandbox.resume_exception(state, AddReply::IsDirectory(is_dir));
    }
    for reply in successes() {
        state = sandbox.resume_exception(state, AddReply::Grant(reply));
    }
    state
}

/// What was granted to a container, as far as a test asks.
#[derive(Debug, PartialEq)]
struct Granted {
    name: WideString,
    object_type: ObjectType,
    permissions: u32,
    inheritance: u32,
}

fn granted(grant: &Grant) -> Granted {
    assert!(matches!(grant.access[0].trustee.sid, Sid::Raw(0x50)));
    Granted {
        name: grant.name.clone(),
        object_type: grant.object_type,
        permissions: grant.access[0].access_permissions,
        inheritance: grant.access[0].inheritance,
    }
}

/// Starts a program; every path that is asked for is a directory where its name ends in a
/// slash. Gives what was granted and how the program is launched.
fn launch(sandbox: Birdcage, command: &[&str], process: &[&str]) -> (Vec<Granted>, Launch) {
    let mut grants = Vec::new();
    let mut state = sandbox.spawn(1);
    loop {
        let mut replies = Vec::new();
        match state.action() {
            SpawnAction::SizeWellKnownSid(kind) => {
                assert_eq!(kind, WinCapabilityInternetClientSid.0);
                replies.push(SpawnReply::SidSize(4));
            }
            SpawnAction::WriteWellKnownSid(kind, buffer) => {
                assert_eq!(kind, WinCapabilityInternetClientSid.0);
                assert_eq!(buffer, &vec![0, 0, 0, 0]);
                replies.push(SpawnReply::SidWritten(Ok(vec![1, 2, 3, 4])));
            }
            SpawnAction::DescribeContainer => replies.push(SpawnReply::NameParts(NameParts {
                executable: Some(wide("tool")),
                pid: 1,
                timestamp: Some(2),
                counter: 3,
            })),
            SpawnAction::CreateProfile(request) => {
                let name: Vec<u16> = "Birdcage-tool-1-2-3\0".encode_utf16().collect();
                assert_eq!(request.name, name);
                replies.push(SpawnReply::ProfileCreated(Ok(0x50)));
            }
            SpawnAction::IsDirectory(path) => {
                let is_dir = path.to_str().unwrap().ends_with('/');
                replies.push(SpawnReply::IsDirectory(is_dir));
            }
            SpawnAction::Grant(grant) => {
                grants.push(granted(grant));
                for reply in successes() {
                    replies.push(SpawnReply::Grant(reply));
                }
            }
            SpawnAction::ReadEnvironment => {
                replies.push(SpawnReply::Environment(wides(command), wides(process)));
            }
            SpawnAction::Launch(_) => {}
            SpawnAction::Fail(err) => panic!("{:?}", err),
        }
        if replies.is_empty() {
            break;
        }
        for reply in replies {
            state = state.resume(reply);
        }
    }
    match state {
        SpawnState::Ready(launch) => (grants, launch),
        _ => unreachable!(),
    }
}

#[test]
fn a_sandbox_needs_its_container() {
    assert!(matches!(Birdcage::try_new(wide("box"), Err(-7)), Err(Error::Io(-7))));
    assert!(Birdcage::try_new(wide("box"), Ok(1)).is_ok());
}

#[test]
fn everything_is_prohibited_at_first() {
    let (grants, launch) = launch(sandbox(), &["A"], &["PATH", "LOCALAPPDATA", "localappdata"]);
    assert!(grants.is_empty());
    assert_eq!(launch.removed, wides(&["A", "PATH", "localappdata"]));
    let handed_over = launch.security_capabilities();
    assert!(matches!(handed_over.app_container_sid, SidPointer::Address(0x50)));
    assert!(handed_over.capabilities.is_none());
    assert_eq!(handed_over.capability_count, 0);
    assert_eq!(launch.profile.name, wide("Birdcage-tool-1-2-3"));
}

#[test]
fn networking_is_a_capability() {
    let mut sandbox = sandbox();
    assert!(matches!(sandbox.add_exception(Exception::Networking), AddState::Added));
    let (_, launch) = launch(sandbox, &[], &[]);
    let handed_over = launch.security_capabilities();
    assert_eq!(handed_over.capability_count, 1);
    let capability = &handed_over.capabilities.unwrap()[0];
    assert_eq!(capability.attributes, SE_GROUP_ENABLED as u32);
    assert!(matches!(&capability.sid, Sid::WellKnown(data) if data == &vec![1, 2, 3, 4]));
}

#[test]
fn environment_exceptions_are_kept() {
    let mut sandbox = sandbox();
    let exception = Exception::Environment("PATH".to_string());
    assert!(matches!(sandbox.add_exception(exception), AddState::Added));
    let exception = Exception::Environment("\u{1F426}".to_string());
    assert!(matches!(sandbox.add_exception(exception), AddState::Added));
    let (_, launch) = launch(sandbox, &["B", "PATH"], &["\u{1F426}", "Path", "A", "A"]);
    assert_eq!(launch.removed, wides(&["B", "Path", "A", "A"]));
}

#[test]
fn the_whole_environment_can_be_kept() {
    let mut sandbox = sandbox();
    assert!(matches!(sandbox.add_exception(Exception::FullEnvironment), AddState::Added));
    let (_, launch) = launch(sandbox, &["A"], &["PATH"]);
    assert!(launch.removed.is_empty());
}

#[test]
fn symlinks_stand_for_their_target() {
    let mut sandbox = sandbox();
    let state = sandbox.add_exception(Exception::Read(path("C:\\link")));
    assert!(matches!(state.action(), AddAction::Resolve(path) if path.units == wide("C:\\link")));
    let state = sandbox.resume_exception(state, AddReply::Resolved(Some(path("C:\\target")), true));
    assert!(matches!(state.action(), AddAction::IsDirectory(path) if path == wide("C:\\target")));
    let state = sandbox.resume_exception(state, AddReply::IsDirectory(true));
    match state.action() {
        AddAction::Grant(grant) => {
            assert_eq!(grant.name, wide("C:\\target"));
            assert_eq!(grant.object_type, ObjectType::FileObject);
            assert_eq!(grant.access[0].access_permissions, 0x12_00A9);
            assert_eq!(grant.access[0].inheritance, 3);
            assert!(matches!(grant.access[0].trustee.sid, Sid::Raw(0x40)));
        }
        _ => panic!(),
    }
}

#[test]
fn registry_exceptions_are_granted_at_once() {
    let mut sandbox = sandbox();
    let key = path("registry+wow64_32key:MACHINE\\A");
    let state = sandbox.add_exception(Exception::WriteAndRead(key.clone()));
    match state.action() {
        AddAction::Grant(grant) => {
            assert_eq!(grant.name, key.units);
            assert_eq!(grant.object_type, ObjectType::RegistryWow64_32Key);
            assert_eq!(grant.access[0].access_permissions, 0x2_001F);
        }
        _ => panic!(),
    }
    assert!(matches!(add(&mut sandbox, Exception::ExecuteAndRead(key), false), AddState::Added));
    let (grants, _) = launch(sandbox, &[], &[]);
    assert_eq!(
        grants,
        vec![Granted {
            name: wide("MACHINE\\A"),
            object_type: ObjectType::RegistryWow64_32Key,
            permissions: 0x2_0019,
            inheritance: 3,
        }]
    );
}

#[test]
fn every_exception_is_granted_before_the_launch() {
    let mut sandbox = sandbox();
    add(&mut sandbox, Exception::WriteAndRead(path("data/")), true);
    add(&mut sandbox, Exception::Read(path("readme")), false);
    add(&mut sandbox, Exception::Read(path("docs/")), true);
    add(&mut sandbox, Exception::ExecuteAndRead(path("tool")), false);
    let (grants, _) = launch(sandbox, &[], &[]);
    let told: Vec<(WideString, ObjectType, u32, u32)> = grants
        .into_iter()
        .map(|grant| (grant.name, grant.object_type, grant.permissions, grant.inheritance))
        .collect();
    assert_eq!(
        told,
        vec![
            (wide("data/"), ObjectType::FileObject, 0x12_01FF, 3),
            (wide("readme"), ObjectType::FileObject, 0x12_0089, 0),
            (wide("docs/"), ObjectType::FileObject, 0x12_00A9, 3),
            (wide("tool"), ObjectType::FileObject, 0x12_00A9, 0),
        ]
    );
}

/// The names and rights that were granted.
fn rights(grants: Vec<Granted>) -> Vec<(WideString, u32)> {
    grants.into_iter().map(|grant| (grant.name, grant.permissions)).collect()
}

/// Adds an exception to a path that leads elsewhere.
fn add_leading_to(
    sandbox: &mut Birdcage,
    exception: Exception,
    canonical: &str,
    is_symlink: bool,
) -> AddState {
    let mut state = sandbox.add_exception(exception);
    state = sandbox.resume_exception(state, AddReply::Resolved(Some(path(canonical)), is_symlink));
    state = sandbox.resume_exception(state, AddReply::IsDirectory(canonical.ends_with('/')));
    for reply in successes() {
        state = sandbox.resume_exception(state, AddReply::Grant(reply));
    }
    state
}

#[test]
fn exceptions_to_a_path_add_up() {
    let mut sandbox = sandbox();
    add(&mut sandbox, Exception::WriteAndRead(path("a")), false);
    add(&mut sandbox, Exception::WriteAndRead(path("b")), false);
    add(&mut sandbox, Exception::ExecuteAndRead(path("a")), false);
    add(&mut sandbox, Exception::Read(path("b")), false);
    add(&mut sandbox, Exception::Read(path("a")), false);
    let (grants, _) = launch(sandbox, &[], &[]);
    assert_eq!(rights(grants), vec![(wide("a"), 0x12_01BF), (wide("b"), 0x12_019F)]);
}

#[test]
fn paths_are_compared_by_their_components() {
    let mut sandbox = sandbox();
    add(&mut sandbox, Exception::WriteAndRead(path("x//a")), false);
    add(&mut sandbox, Exception::ExecuteAndRead(path("x/a")), false);
    add(&mut sandbox, Exception::Read(path("xa")), false);
    let (grants, _) = launch(sandbox, &[], &[]);
    assert_eq!(rights(grants), vec![(wide("x//a"), 0x12_01BF), (wide("xa"), 0x12_0089)]);
}

#[test]
fn registry_keys_are_compared_by_view_and_name() {
    let mut sandbox = sandbox();
    for exception in [
        Exception::WriteAndRead(path("REGISTRY:X")),
        Exception::Read(path("registry:X")),
        Exception::Read(path("registry:x")),
        Exception::Read(path("registry+wow64_32key:X")),
    ] {
        assert!(matches!(add(&mut sandbox, exception, false), AddState::Added));
    }
    let (grants, _) = launch(sandbox, &[], &[]);
    let told: Vec<(WideString, ObjectType, u32)> = grants
        .into_iter()
        .map(|grant| (grant.name, grant.object_type, grant.permissions))
        .collect();
    assert_eq!(
        told,
        vec![
            (wide("X"), ObjectType::RegistryKey, 0x2_001F),
            (wide("x"), ObjectType::RegistryKey, 0x2_0019),
            (wide("X"), ObjectType::RegistryWow64_32Key, 0x2_0019),
        ]
    );
}

#[test]
fn paths_are_granted_as_they_were_given() {
    let mut sandbox = sandbox();
    let exception = Exception::WriteAndRead(path("./a"));
    assert!(matches!(add_leading_to(&mut sandbox, exception, "C:/x/a", false), AddState::Added));
    let parts = NameParts { executable: None, pid: 1, timestamp: None, counter: 0 };
    let mut state = sandbox.spawn(1);
    state = state.resume(SpawnReply::NameParts(parts));
    state = state.resume(SpawnReply::ProfileCreated(Ok(0x50)));
    assert!(matches!(state.action(), SpawnAction::IsDirectory(asked) if asked == wide("./a")));
    state = state.resume(SpawnReply::IsDirectory(false));
    state = state.resume(SpawnReply::Grant(GrantReply::SecurityInfo(2, READ)));
    assert!(matches!(state.action(), SpawnAction::Fail(Error::InvalidPath(p)) if *p == wide("./a")));
}

#[test]
fn a_symlink_is_granted_with_its_target() {
    let mut sandbox = sandbox();
    add_leading_to(&mut sandbox, Exception::Read(path("link")), "target/", true);
    let (grants, _) = launch(sandbox, &[], &[]);
    assert_eq!(grants.len(), 2);
    assert_eq!((grants[0].name.clone(), grants[0].permissions), (wide("link"), 0x12_0089));
    assert_eq!((grants[1].name.clone(), grants[1].permissions), (wide("target/"), 0x12_00A9));
    assert_eq!(grants[1].inheritance, 3);
}

#[test]
fn no_grant_takes_from_another() {
    let mut sandbox = sandbox();
    add_leading_to(&mut sandbox, Exception::WriteAndRead(path("t")), "C:/t", false);
    add_leading_to(&mut sandbox, Exception::Read(path("link")), "C:/t", true);
    let (grants, _) = launch(sandbox, &[], &[]);
    assert_eq!(
        rights(grants),
        vec![(wide("t"), 0x12_019F), (wide("link"), 0x12_019F), (wide("C:/t"), 0x12_019F)]
    );
}

#[test]
fn a_symlink_that_was_turned_keeps_its_exceptions() {
    let mut sandbox = sandbox();
    add_leading_to(&mut sandbox, Exception::WriteAndRead(path("link")), "one", true);
    add_leading_to(&mut sandbox, Exception::ExecuteAndRead(path("link")), "two", true);
    let (grants, _) = launch(sandbox, &[], &[]);
    assert_eq!(
        rights(grants),
        vec![(wide("link"), 0x12_01BF), (wide("one"), 0x12_019F), (wide("two"), 0x12_01BF)]
    );
}

#[test]
fn a_canonical_form_is_never_a_registry_key() {
    let mut sandbox = sandbox();
    add_leading_to(&mut sandbox, Exception::Read(path("link")), "REGISTRY:A", true);
    let (grants, _) = launch(sandbox, &[], &[]);
    assert_eq!(grants[1].name, wide("REGISTRY:A"));
    assert_eq!(grants[1].object_type, ObjectType::FileObject);
}

#[test]
fn only_single_threaded_processes_start_programs() {
    let state = sandbox().spawn(2);
    assert!(matches!(state.action(), SpawnAction::Fail(Error::NotSingleThreaded)));
    let parts = NameParts { executable: None, pid: 1, timestamp: None, counter: 0 };
    let state = state.resume(SpawnReply::NameParts(parts));
    assert!(matches!(state, SpawnState::Failed(Error::NotSingleThreaded)));
    assert!(matches!(sandbox().spawn(1).action(), SpawnAction::DescribeContainer));
}

#[test]
fn a_failed_exception_changes_nothing() {
    let mut sandbox = sandbox();
    let mut state = sandbox.add_exception(Exception::WriteAndRead(path("gone")));
    state = sandbox.resume_exception(state, AddReply::Resolved(None, false));
    state = sandbox.resume_exception(state, AddReply::IsDirectory(false));
    state = sandbox.resume_exception(state, AddReply::Grant(GrantReply::SecurityInfo(2, READ)));
    assert!(matches!(state.action(), AddAction::Fail(Error::InvalidPath(p)) if *p == wide("gone")));
    for reply in successes() {
        state = sandbox.resume_exception(state, AddReply::Grant(reply));
    }
    assert!(matches!(state, AddState::Failed(_)));
    let (grants, _) = launch(sandbox, &[], &[]);
    assert!(grants.is_empty());
}

#[test]
fn an_exception_answers_its_own_questions_only() {
    let mut sandbox = sandbox();
    let state = sandbox.add_exception(Exception::ExecuteAndRead(path("a")));
    let state = sandbox.resume_exception(state, AddReply::IsDirectory(true));
    let state = sandbox.resume_exception(state, AddReply::Grant(GrantReply::Written(0)));
    assert!(matches!(state, AddState::Resolving(_)));
}

#[test]
fn nothing_is_launched_after_a_failure() {
    let mut sandbox = sandbox();
    add(&mut sandbox, Exception::WriteAndRead(path("a")), false);
    let parts = NameParts { executable: None, pid: 1, timestamp: None, counter: 0 };
    let mut state = sandbox.spawn(1);
    state = state.resume(SpawnReply::NameParts(parts));
    state = state.resume(SpawnReply::ProfileCreated(Ok(0x50)));
    state = state.resume(SpawnReply::IsDirectory(false));
    state = state.resume(SpawnReply::Grant(GrantReply::SecurityInfo(3, READ)));
    assert!(matches!(state.action(), SpawnAction::Fail(Error::InvalidPath(p)) if *p == wide("a")));
    for reply in successes() {
        state = state.resume(SpawnReply::Grant(reply));
    }
    state = state.resume(SpawnReply::Environment(vec![], vec![]));
    assert!(matches!(state, SpawnState::Failed(_)));
}

#[test]
fn a_container_that_cannot_be_made_ends_the_start() {
    let parts = NameParts { executable: None, pid: 1, timestamp: None, counter: 0 };
    let state = sandbox()
        .spawn(1)
        .resume(SpawnReply::NameParts(parts))
        .resume(SpawnReply::ProfileCreated(Err(-9)));
    assert!(matches!(state, SpawnState::Failed(Error::Io(-9))));
}

#[test]
fn a_capability_that_cannot_be_made_ends_the_start() {
    let mut sandbox = sandbox();
    sandbox.add_exception(Exception::Networking);
    let state = sandbox
        .spawn(1)
        .resume(SpawnReply::SidSize(2))
        .resume(SpawnReply::SidWritten(Err(-8)));
    assert!(matches!(state, SpawnState::Failed(Error::Io(-8))));
}

#[test]
fn exceptions_can_be_copied() {
    let name = path("C:/a");
    assert!(matches!(
        Exception::Read(name.clone()).clone(),
        Exception::Read(p) if p.units == name.units && p.components == name.components
    ));
    let exception = Exception::Environment("PATH".to_string());
    assert!(matches!(exception.clone(), Exception::Environment(name) if name == "PATH"));
    assert!(matches!(Exception::Networking.clone(), Exception::Networking));
}

#[test]
fn removed_variables_keep_their_order() {
    let removed = variables_to_remove(
        &wides(&["Z", "KEEP"]),
        &wides(&["LOCALAPPDATA", "A", "Z"]),
        &vec!["KEEP".to_string()],
    );
    assert_eq!(removed, wides(&["Z", "A", "Z"]));
}

#[test]
fn restricting_the_process_removes_all_but_the_exceptions() {
    let names: Vec<String> = ["A", "B", "LOCALAPPDATA"].iter().map(|s| s.to_string()).collect();
    let removed = restrict_env_variables(&names, &vec!["B".to_string(), "C".to_string()]);
    assert_eq!(removed, vec!["A".to_string(), "LOCALAPPDATA".to_string()]);
    assert!(restrict_env_variables(&names, &names).is_empty());
}
