//! Access rights that exceptions grant.
use vstd::prelude::*;

use crate::sid::{Sid, SidView};
use crate::win32::{load_entry_codes, load_file_rights, load_registry_rights};

verus! {

/// The rights to a registry key: reading always, writing and executing as asked for.
pub open spec fn registry_access_mask(write: bool, execute: bool) -> u32 {
    let rights = crate::win32::registry_rights();
    rights.read | (if write {
        rights.write
    } else {
        0
    }) | (if execute {
        rights.execute
    } else {
        0
    })
}

/// The rights to a file or directory: reading always, writing and executing as asked for; in a
/// directory also to list and to pass through it, and, with writing, to delete what is in it.
pub open spec fn file_access_mask(write: bool, execute: bool, is_dir: bool) -> u32 {
    let rights = crate::win32::file_rights();
    rights.generic_read | (if write {
        rights.generic_write
    } else {
        0
    }) | (if execute {
        rights.generic_execute
    } else {
        0
    }) | (if is_dir {
        rights.list_directory | rights.traverse
    } else {
        0
    }) | (if is_dir && write {
        rights.delete_child
    } else {
        0
    })
}

/// Whether every right of `smaller` is one of `larger`.
pub open spec fn mask_includes(larger: u32, smaller: u32) -> bool {
    larger & smaller == smaller
}

/// The rights to a registry key.
pub fn compute_registry_access_masks(write: bool, execute: bool) -> (r: u32)
    ensures
        r == registry_access_mask(write, execute),
{
    let rights = load_registry_rights();
    let (read, w, x): (u32, u32, u32) = (rights.read, rights.write, rights.execute);
    assert(read | 0 | 0 == read && read | w | 0 == read | w && read | 0 | x == read | x)
        by (bit_vector);
    match (write, execute) {
        (false, false) => read,
        (false, true) => read | x,
        (true, false) => read | w,
        (true, true) => read | w | x,
    }
}

/// The rights to a file or directory.
pub fn compute_file_access_masks(write: bool, execute: bool, is_dir: bool) -> (r: u32)
    ensures
        r == file_access_mask(write, execute, is_dir),
{
    let rights = load_file_rights();
    let read: u32 = rights.generic_read;
    let w: u32 = rights.generic_write;
    let x: u32 = rights.generic_execute;
    let list: u32 = rights.list_directory;
    let traverse: u32 = rights.traverse;
    let delete: u32 = rights.delete_child;
    proof {
        let a = if write { w } else { 0 };
        let b = if execute { x } else { 0 };
        assert(read | a | b | 0 | 0 == read | a | b) by (bit_vector);
        assert(read | a | b | (list | traverse) | 0 == read | a | b | list | traverse)
            by (bit_vector);
        assert(read | a | b | (list | traverse) | delete == read | a | b | list | traverse | delete)
            by (bit_vector);
        assert(read | 0 | b == read | b && read | a | 0 == read | a && read | 0 | 0 == read)
            by (bit_vector);
    }
    match (write, execute, is_dir) {
        (false, false, false) => read,
        (false, false, true) => read | list | traverse,
        (true, false, false) => read | w,
        (true, false, true) => read | w | list | traverse | delete,
        (false, true, false) => read | x,
        (false, true, true) => read | x | list | traverse,
        (true, true, false) => read | w | x,
        (true, true, true) => read | w | x | list | traverse | delete,
    }
}

/// The rights as numbers.
proof fn lemma_access_masks()
    ensures
        registry_access_mask(false, false) == 0x2_0019,
        registry_access_mask(false, true) == 0x2_0019,
        registry_access_mask(true, false) == 0x2_001F,
        registry_access_mask(true, true) == 0x2_001F,
        file_access_mask(false, false, false) == 0x12_0089,
        file_access_mask(false, false, true) == 0x12_00A9,
        file_access_mask(true, false, false) == 0x12_019F,
        file_access_mask(true, false, true) == 0x12_01FF,
        file_access_mask(false, true, false) == 0x12_00A9,
        file_access_mask(false, true, true) == 0x12_00A9,
        file_access_mask(true, true, false) == 0x12_01BF,
        file_access_mask(true, true, true) == 0x12_01FF,
{
    assert({
        &&& 0x2_0019u32 | 0 | 0 == 0x2_0019
        &&& 0x2_0019u32 | 0 | 0x2_0019 == 0x2_0019
        &&& 0x2_0019u32 | 0x2_0006 | 0 == 0x2_001F
        &&& 0x2_0019u32 | 0x2_0006 | 0x2_0019 == 0x2_001F
    }) by (bit_vector);
    assert({
        &&& 0x12_0089u32 | 0 | 0 | 0 | 0 == 0x12_0089
        &&& 0x12_0089u32 | 0 | 0 | (0x01u32 | 0x20u32) | 0 == 0x12_00A9
        &&& 0x12_0089u32 | 0x12_0116 | 0 | 0 | 0 == 0x12_019F
        &&& 0x12_0089u32 | 0x12_0116 | 0 | (0x01u32 | 0x20u32) | 0x40 == 0x12_01FF
        &&& 0x12_0089u32 | 0 | 0x12_00A0 | 0 | 0 == 0x12_00A9
        &&& 0x12_0089u32 | 0 | 0x12_00A0 | (0x01u32 | 0x20u32) | 0 == 0x12_00A9
        &&& 0x12_0089u32 | 0x12_0116 | 0x12_00A0 | 0 | 0 == 0x12_01BF
        &&& 0x12_0089u32 | 0x12_0116 | 0x12_00A0 | (0x01u32 | 0x20u32) | 0x40 == 0x12_01FF
    }) by (bit_vector);
}

/// Whatever an exception to a path allows, it allows reading.
pub proof fn every_mask_allows_reading(write: bool, execute: bool, is_dir: bool)
    ensures
        mask_includes(
            file_access_mask(write, execute, is_dir),
            crate::win32::file_rights().generic_read,
        ),
        mask_includes(registry_access_mask(write, execute), crate::win32::registry_rights().read),
{
    let (r, a, b, c, d) = (
        0x12_0089u32,
        if write { 0x12_0116u32 } else { 0 },
        if execute { 0x12_00A0u32 } else { 0 },
        if is_dir { 0x01u32 | 0x20u32 } else { 0 },
        if is_dir && write { 0x40u32 } else { 0 },
    );
    assert((r | a | b | c | d) & r == r) by (bit_vector);
    let (p, q, s) = (
        0x2_0019u32,
        if write { 0x2_0006u32 } else { 0 },
        if execute { 0x2_0019u32 } else { 0 },
    );
    assert((p | q | s) & p == p) by (bit_vector);
}

/// An exception for writing allows writing, and one for executing allows executing.
pub proof fn masks_allow_what_was_asked(write: bool, execute: bool, is_dir: bool)
    ensures
        write ==> mask_includes(
            file_access_mask(write, execute, is_dir),
            crate::win32::file_rights().generic_write,
        ),
        execute ==> mask_includes(
            file_access_mask(write, execute, is_dir),
            crate::win32::file_rights().generic_execute,
        ),
        write ==> mask_includes(
            registry_access_mask(write, execute),
            crate::win32::registry_rights().write,
        ),
        execute ==> mask_includes(
            registry_access_mask(write, execute),
            crate::win32::registry_rights().execute,
        ),
{
    lemma_access_masks();
    assert({
        &&& 0x12_019Fu32 & 0x12_0116u32 == 0x12_0116
        &&& 0x12_01BFu32 & 0x12_0116u32 == 0x12_0116
        &&& 0x12_01FFu32 & 0x12_0116u32 == 0x12_0116
        &&& 0x12_00A9u32 & 0x12_00A0u32 == 0x12_00A0
        &&& 0x12_01BFu32 & 0x12_00A0u32 == 0x12_00A0
        &&& 0x12_01FFu32 & 0x12_00A0u32 == 0x12_00A0
        &&& 0x2_001Fu32 & 0x2_0006u32 == 0x2_0006
        &&& 0x2_001Fu32 & 0x2_0019u32 == 0x2_0019
        &&& 0x2_0019u32 & 0x2_0019u32 == 0x2_0019
    }) by (bit_vector);
}

/// Without an exception for writing, none of the rights that writing adds to reading is granted,
/// nor that of deleting what is in a directory.
pub proof fn no_writing_unless_asked(execute: bool, is_dir: bool)
    ensures
        ({
            let rights = crate::win32::file_rights();
            &&& file_access_mask(false, execute, is_dir) & (rights.generic_write
                & !rights.generic_read) == 0
            &&& file_access_mask(false, execute, is_dir) & rights.delete_child == 0
        }),
        ({
            let rights = crate::win32::registry_rights();
            registry_access_mask(false, execute) & (rights.write & !rights.read) == 0
        }),
{
    lemma_access_masks();
    assert({
        &&& 0x12_0089u32 & (0x12_0116u32 & !0x12_0089u32) == 0
        &&& 0x12_00A9u32 & (0x12_0116u32 & !0x12_0089u32) == 0
        &&& 0x12_0089u32 & 0x40u32 == 0
        &&& 0x12_00A9u32 & 0x40u32 == 0
        &&& 0x2_0019u32 & (0x2_0006u32 & !0x2_0019u32) == 0
    }) by (bit_vector);
}

/// Without an exception for executing, a file is not granted the right that executing adds to
/// reading and writing.
pub proof fn no_executing_unless_asked(write: bool)
    ensures
        ({
            let rights = crate::win32::file_rights();
            file_access_mask(write, false, false) & (rights.generic_execute & !(
            rights.generic_read | rights.generic_write)) == 0
        }),
{
    lemma_access_masks();
    assert({
        &&& 0x12_0089u32 & (0x12_00A0u32 & !(0x12_0089u32 | 0x12_0116u32)) == 0
        &&& 0x12_019Fu32 & (0x12_00A0u32 & !(0x12_0089u32 | 0x12_0116u32)) == 0
    }) by (bit_vector);
}

/// Asking for more never takes a right away, nor does it that the path is a directory.
pub proof fn masks_grow(
    write: bool,
    execute: bool,
    is_dir: bool,
    more_write: bool,
    more_execute: bool,
    more_is_dir: bool,
)
    requires
        write ==> more_write,
        execute ==> more_execute,
        is_dir ==> more_is_dir,
    ensures
        mask_includes(
            file_access_mask(more_write, more_execute, more_is_dir),
            file_access_mask(write, execute, is_dir),
        ),
        mask_includes(
            registry_access_mask(more_write, more_execute),
            registry_access_mask(write, execute),
        ),
{
    lemma_access_masks();
    assert({
        &&& 0x12_0089u32 & 0x12_0089u32 == 0x12_0089
        &&& 0x12_00A9u32 & 0x12_0089u32 == 0x12_0089
        &&& 0x12_019Fu32 & 0x12_0089u32 == 0x12_0089
        &&& 0x12_01BFu32 & 0x12_0089u32 == 0x12_0089
        &&& 0x12_01FFu32 & 0x12_0089u32 == 0x12_0089
        &&& 0x12_00A9u32 & 0x12_00A9u32 == 0x12_00A9
        &&& 0x12_01BFu32 & 0x12_00A9u32 == 0x12_00A9
        &&& 0x12_01FFu32 & 0x12_00A9u32 == 0x12_00A9
        &&& 0x12_019Fu32 & 0x12_019Fu32 == 0x12_019F
        &&& 0x12_01BFu32 & 0x12_019Fu32 == 0x12_019F
        &&& 0x12_01FFu32 & 0x12_019Fu32 == 0x12_019F
        &&& 0x12_01BFu32 & 0x12_01BFu32 == 0x12_01BF
        &&& 0x12_01FFu32 & 0x12_01BFu32 == 0x12_01BF
        &&& 0x12_01FFu32 & 0x12_01FFu32 == 0x12_01FF
        &&& 0x2_0019u32 & 0x2_0019u32 == 0x2_0019
        &&& 0x2_001Fu32 & 0x2_0019u32 == 0x2_0019
        &&& 0x2_001Fu32 & 0x2_001Fu32 == 0x2_001F
    }) by (bit_vector);
}

/// The rights to delete an object, to change who may access it, and to change its owner.
pub open spec fn control_rights() -> u32 {
    0x0D_0000
}

/// No exception gives control of an object itself: to delete it, to change who may access it, or
/// to change its owner.
pub proof fn no_mask_gives_control(write: bool, execute: bool, is_dir: bool)
    ensures
        file_access_mask(write, execute, is_dir) & control_rights() == 0,
        registry_access_mask(write, execute) & control_rights() == 0,
{
    lemma_access_masks();
    assert({
        &&& 0x12_0089u32 & 0x0D_0000u32 == 0
        &&& 0x12_00A9u32 & 0x0D_0000u32 == 0
        &&& 0x12_019Fu32 & 0x0D_0000u32 == 0
        &&& 0x12_01BFu32 & 0x0D_0000u32 == 0
        &&& 0x12_01FFu32 & 0x0D_0000u32 == 0
        &&& 0x2_0019u32 & 0x0D_0000u32 == 0
        &&& 0x2_001Fu32 & 0x0D_0000u32 == 0
    }) by (bit_vector);
}

/// Who is granted access: one security identifier that names a group.
#[derive(Debug)]
pub struct Trustee {
    pub multiple_trustee_operation: i32,
    pub trustee_form: i32,
    pub trustee_type: i32,
    pub sid: Sid,
}

/// An entry of an access control list.
#[derive(Debug)]
pub struct ExplicitAccess {
    pub access_permissions: u32,
    pub access_mode: i32,
    pub inheritance: u32,
    pub trustee: Trustee,
}

/// What an `ExplicitAccess` says.
pub struct ExplicitAccessView {
    pub access_permissions: u32,
    pub access_mode: i32,
    pub inheritance: u32,
    pub multiple_trustee_operation: i32,
    pub trustee_form: i32,
    pub trustee_type: i32,
    pub sid: SidView,
}

impl View for ExplicitAccess {
    type V = ExplicitAccessView;

    open spec fn view(&self) -> ExplicitAccessView {
        ExplicitAccessView {
            access_permissions: self.access_permissions,
            access_mode: self.access_mode,
            inheritance: self.inheritance,
            multiple_trustee_operation: self.trustee.multiple_trustee_operation,
            trustee_form: self.trustee.trustee_form,
            trustee_type: self.trustee.trustee_type,
            sid: self.trustee.sid@,
        }
    }
}

/// The entry that sets the access of `sid` to exactly `access_mask`, for an object and, where
/// `inherit` holds, everything beneath it.
pub open spec fn explicit_access_entry(
    sid: SidView,
    access_mask: u32,
    inherit: bool,
) -> ExplicitAccessView {
    let codes = crate::win32::entry_codes();
    ExplicitAccessView {
        access_permissions: access_mask,
        access_mode: codes.set_access,
        inheritance: if inherit {
            codes.inherit_all
        } else {
            codes.no_inheritance
        },
        multiple_trustee_operation: codes.no_multiple_trustee,
        trustee_form: codes.trustee_is_sid,
        trustee_type: codes.trustee_is_group,
        sid,
    }
}

/// The entry that sets the access of `sid` to `access_mask`.
pub fn explicit_access(sid: &Sid, access_mask: u32, inherit: bool) -> (r: ExplicitAccess)
    ensures
        r@ == explicit_access_entry(sid@, access_mask, inherit),
{
    let codes = load_entry_codes();
    ExplicitAccess {
        access_permissions: access_mask,
        access_mode: codes.set_access,
        inheritance: if inherit {
            codes.inherit_all
        } else {
            codes.no_inheritance
        },
        trustee: Trustee {
            multiple_trustee_operation: codes.no_multiple_trustee,
            trustee_form: codes.trustee_is_sid,
            trustee_type: codes.trustee_is_group,
            sid: sid.clone(),
        },
    }
}

} // verus!
