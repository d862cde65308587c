use birdcage::access::{
    compute_file_access_masks, compute_registry_access_masks, explicit_access,
};
use birdcage::sid::Sid;
use windows::Win32::Security::Authorization::{
    NO_MULTIPLE_TRUSTEE, SET_ACCESS, TRUSTEE_IS_GROUP, TRUSTEE_IS_SID,
};
use windows::Win32::Security::{NO_INHERITANCE, SUB_CONTAINERS_AND_OBJECTS_INHERIT};
use windows::Win32::Storage::FileSystem::{
    DELETE, FILE_DELETE_CHILD, FILE_GENERIC_EXECUTE, FILE_GENERIC_READ, FILE_GENERIC_WRITE,
    FILE_LIST_DIRECTORY, FILE_TRAVERSE, WRITE_DAC, WRITE_OWNER,
};
use windows::Win32::System::Registry::{KEY_EXECUTE, KEY_READ, KEY_WRITE};

#[test]
fn registry_masks() {
    assert_eq!(compute_registry_access_masks(false, false), KEY_READ.0);
    assert_eq!(compute_registry_access_masks(false, true), KEY_READ.0 | KEY_EXECUTE.0);
    assert_eq!(compute_registry_access_masks(true, false), KEY_READ.0 | KEY_WRITE.0);
    assert_eq!(
        compute_registry_access_masks(true, true),
        KEY_READ.0 | KEY_WRITE.0 | KEY_EXECUTE.0
    );
    assert_eq!(compute_registry_access_masks(true, true), 0x2_001F);
}

#[test]
fn file_masks() {
    let read = FILE_GENERIC_READ.0;
    let write = FILE_GENERIC_WRITE.0;
    let execute = FILE_GENERIC_EXECUTE.0;
    let pass = FILE_LIST_DIRECTORY.0 | FILE_TRAVERSE.0;
    let delete = FILE_DELETE_CHILD.0;
    assert_eq!(compute_file_access_masks(false, false, false), read);
    assert_eq!(compute_file_access_masks(false, false, true), read | pass);
    assert_eq!(compute_file_access_masks(true, false, false), read | write);
    assert_eq!(compute_file_access_masks(true, false, true), read | write | pass | delete);
    assert_eq!(compute_file_access_masks(false, true, false), read | execute);
    assert_eq!(compute_file_access_masks(false, true, true), read | execute | pass);
    assert_eq!(compute_file_access_masks(true, true, false), read | write | execute);
    assert_eq!(
        compute_file_access_masks(true, true, true),
        read | write | execute | pass | delete
    );
    assert_eq!(compute_file_access_masks(false, false, false), 0x12_0089);
    assert_eq!(compute_file_access_masks(true, true, true), 0x12_01FF);
}

#[test]
fn every_mask_reads_and_none_writes_unasked() {
    for execute in [false, true] {
        for is_dir in [false, true] {
            for write in [false, true] {
                let mask = compute_file_access_masks(write, execute, is_dir);
                assert_eq!(mask & FILE_GENERIC_READ.0, FILE_GENERIC_READ.0);
                let writing = mask & (FILE_GENERIC_WRITE.0 & !FILE_GENERIC_READ.0);
                assert_eq!(writing != 0, write);
                let key = compute_registry_access_masks(write, execute);
                assert_eq!(key & KEY_READ.0, KEY_READ.0);
                assert_eq!(key & (KEY_WRITE.0 & !KEY_READ.0) != 0, write);
            }
        }
    }
}

#[test]
fn more_is_never_less() {
    let all = compute_file_access_masks(true, true, true);
    for is_dir in [false, true] {
        for (write, execute) in [(false, false), (false, true), (true, false), (true, true)] {
            let some = compute_file_access_masks(write, execute, is_dir);
            assert_eq!(all & some, some);
            let plain = compute_file_access_masks(write, execute, false);
            assert_eq!(some & plain, plain);
        }
    }
}

#[test]
fn no_mask_gives_control_of_the_object() {
    let control = (DELETE | WRITE_DAC | WRITE_OWNER).0;
    assert_eq!(control, 0x0D_0000);
    for write in [false, true] {
        for execute in [false, true] {
            assert_eq!(compute_registry_access_masks(write, execute) & control, 0);
            for is_dir in [false, true] {
                assert_eq!(compute_file_access_masks(write, execute, is_dir) & control, 0);
            }
        }
    }
}

#[test]
fn entries_name_one_group_by_its_identifier() {
    let entry = explicit_access(&Sid::new(0x1000), 0x12_0089, true);
    assert_eq!(entry.access_permissions, 0x12_0089);
    assert_eq!(entry.access_mode, SET_ACCESS.0);
    assert_eq!(entry.inheritance, SUB_CONTAINERS_AND_OBJECTS_INHERIT.0);
    assert_eq!(entry.trustee.multiple_trustee_operation, NO_MULTIPLE_TRUSTEE.0);
    assert_eq!(entry.trustee.trustee_form, TRUSTEE_IS_SID.0);
    assert_eq!(entry.trustee.trustee_type, TRUSTEE_IS_GROUP.0);
    assert!(matches!(entry.trustee.sid, Sid::Raw(0x1000)));
    let alone = explicit_access(&Sid::new(0x1000), 1, false);
    assert_eq!(alone.inheritance, NO_INHERITANCE.0);
    assert_eq!((entry.access_mode, entry.inheritance, alone.inheritance), (2, 3, 0));
}

#[test]
fn a_later_entry_sets_its_rights_alone() {
    let sid = Sid::new(0x1000);
    let entries = [explicit_access(&sid, 0x12_019F, true), explicit_access(&sid, 0x12_0089, true)];
    for entry in &entries {
        assert_eq!(entry.access_mode, SET_ACCESS.0);
    }
    assert_eq!(entries[1].access_permissions, 0x12_0089);
}
