use birdcage::container::{
    unique_app_container_name, AppContainerProfile, NameCounter, NameParts,
};
use birdcage::sid::{Sid, SidPointer, SidRelease};
use birdcage::wide::WideString;
use birdcage::Error;

fn wide(text: &str) -> WideString {
    WideString::from_text(text)
}

fn terminated(text: &str) -> Vec<u16> {
    text.encode_utf16().chain(std::iter::once(0)).collect()
}

#[test]
fn identifiers_go_back_where_they_came_from() {
    assert_eq!(Sid::new(0x10).release(), SidRelease::FreeSid(0x10));
    assert_eq!(Sid::new(0).release(), SidRelease::Nothing);
    assert_eq!(Sid::String(0x20).release(), SidRelease::LocalFree);
    assert_eq!(Sid::String(0).release(), SidRelease::Nothing);
    assert_eq!(Sid::WellKnown(vec![1, 2]).release(), SidRelease::Nothing);
}

#[test]
fn identifiers_point_to_their_bytes() {
    assert!(matches!(Sid::new(0x10).as_ptr(), SidPointer::Address(0x10)));
    assert!(matches!(Sid::String(0x20).as_ptr(), SidPointer::Address(0x20)));
    let sid = Sid::WellKnown(vec![1, 2]);
    assert!(matches!(sid.as_ptr(), SidPointer::Bytes(bytes) if bytes == &vec![1, 2]));
}

#[test]
fn copies_hold_the_same() {
    assert!(matches!(Sid::new(7).clone(), Sid::Raw(7)));
    assert!(matches!(Sid::String(8).clone(), Sid::String(8)));
    assert!(matches!(Sid::WellKnown(vec![9, 10]).clone(), Sid::WellKnown(d) if d == vec![9, 10]));
}

#[test]
fn well_known_identifiers_are_written_to_zeroed_memory() {
    assert_eq!(Sid::well_known_buffer(3), vec![0, 0, 0]);
    assert_eq!(Sid::well_known_buffer(0), Vec::<u8>::new());
    assert!(matches!(Sid::well_known(Ok(vec![5])), Ok(Sid::WellKnown(d)) if d == vec![5]));
    assert!(matches!(Sid::well_known(Err(-5)), Err(Error::Io(-5))));
}

#[test]
fn textual_identifiers_are_read_into_local_memory() {
    assert_eq!(Sid::string_request(&wide("S-1-5")), terminated("S-1-5"));
    assert!(matches!(Sid::try_from(Ok(0x30)), Ok(Sid::String(0x30))));
    assert!(matches!(Sid::try_from(Err(-1)), Err(Error::Io(-1))));
}

#[test]
fn identifiers_have_a_text() {
    assert_eq!(Sid::text(Some(&wide("S-1-15-2"))), "S-1-15-2");
    assert_eq!(Sid::text(None), "<Error converting SID to string representation>");
    assert_eq!(
        Sid::text(Some(&WideString::from_wide(vec![0xD800]))),
        "<Invalid SID string representation>"
    );
    assert_eq!(Sid::new(1).variant_name(), "Raw");
    assert_eq!(Sid::WellKnown(vec![]).variant_name(), "WellKnown");
    assert_eq!(Sid::String(1).variant_name(), "String");
}

fn name(executable: Option<&str>, pid: u32, timestamp: Option<u128>, counter: u64) -> WideString {
    NameParts { executable: executable.map(wide), pid, timestamp, counter }.name()
}

#[test]
fn container_names_hold_all_parts() {
    assert_eq!(
        name(Some("tool.exe"), 4711, Some(1700000000123), 0),
        wide("Birdcage-tool.exe-4711-1700000000123-0")
    );
    assert_eq!(name(None, 1, None, u64::MAX), wide("Birdcage--1-0-18446744073709551615"));
    assert_eq!(
        name(None, u32::MAX, Some(u128::MAX), 10),
        wide(&format!("Birdcage--{}-{}-10", u32::MAX, u128::MAX))
    );
}

#[test]
fn container_names_replace_what_is_not_unicode() {
    let executable = Some(WideString::from_wide(vec![0x61, 0xD800, 0x62]));
    let parts = NameParts { executable, pid: 1, timestamp: Some(2), counter: 3 };
    assert_eq!(parts.name(), wide("Birdcage-a\u{FFFD}b-1-2-3"));
}

#[test]
fn container_names_differ_with_any_part() {
    let names = [
        name(Some("a"), 1, Some(2), 3),
        name(Some("a"), 1, Some(2), 4),
        name(Some("a"), 1, Some(3), 3),
        name(Some("a"), 2, Some(2), 3),
        name(Some("a-1"), 1, Some(2), 3),
        name(Some("a"), 12, Some(2), 3),
    ];
    for i in 0..names.len() {
        for j in 0..i {
            assert!(names[i] != names[j]);
        }
    }
}

#[test]
fn container_names_never_repeat() {
    let mut counter = NameCounter { made: u64::MAX - 1 };
    let mut names = Vec::new();
    for _ in 0..4 {
        names.push(unique_app_container_name(&mut counter, Some(wide("a")), 1, Some(2)));
    }
    assert_eq!(counter.made, 2);
    assert_eq!(names[1], wide("Birdcage-a-1-2-18446744073709551615"));
    assert_eq!(names[2], wide("Birdcage-a-1-2-0"));
    for i in 0..names.len() {
        for j in 0..i {
            assert!(names[i] != names[j]);
        }
    }
    let parts = counter.next_parts(None, 7, None);
    assert_eq!((parts.pid, parts.counter, counter.made), (7, 2, 3));
}

#[test]
fn profiles_are_asked_for_by_name() {
    let request = AppContainerProfile::sandbox_request(&wide("Birdcage-x"));
    assert_eq!(request.name, terminated("Birdcage-x"));
    assert_eq!(request.display_name, terminated("Birdcage Application"));
    assert_eq!(
        request.description,
        terminated("Application container for Birdcage sandboxing")
    );
    let own = AppContainerProfile::new_request(&wide("a"), &wide("b"), &wide("c"));
    assert_eq!(own.name, terminated("a"));
    assert_eq!(own.display_name, terminated("b"));
    assert_eq!(own.description, terminated("c"));
    assert_eq!(AppContainerProfile::existing_request(&wide("a")), terminated("a"));
}

#[test]
fn profiles_hold_name_and_identifier() {
    let profile = AppContainerProfile::new(&wide("a"), Ok(0x40)).unwrap();
    assert_eq!(profile.name, wide("a"));
    assert!(matches!(profile.sid(), Sid::Raw(0x40)));
    assert_eq!(profile.delete_request(), terminated("a"));
    let copy = profile.clone();
    assert_eq!(copy.name, wide("a"));
    assert!(matches!(copy.sid, Sid::Raw(0x40)));
    assert!(matches!(profile.delete(Ok(())), Ok(())));
    let existing = AppContainerProfile::existing(&wide("b"), Ok(0x50)).unwrap();
    assert!(matches!(existing.sid(), Sid::Raw(0x50)));
    assert!(matches!(existing.delete(Err(-3)), Err(Error::Io(-3))));
    assert!(matches!(AppContainerProfile::new(&wide("a"), Err(-1)), Err(Error::Io(-1))));
    assert!(matches!(AppContainerProfile::existing(&wide("a"), Err(-2)), Err(Error::Io(-2))));
}
