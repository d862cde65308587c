//! What the library takes from the Windows API: its constants, and how it numbers errors.
//!
//! The numbers stand in the specification functions here; the running code reads them from the
//! `windows` crate.
use vstd::prelude::*;
use windows::Win32::Foundation::{ERROR_FILE_NOT_FOUND, ERROR_PATH_NOT_FOUND};
use windows::Win32::Security::Authorization::{
    NO_MULTIPLE_TRUSTEE, SET_ACCESS, SE_FILE_OBJECT, SE_REGISTRY_KEY, SE_REGISTRY_WOW64_32KEY,
    SE_REGISTRY_WOW64_64KEY, TRUSTEE_IS_GROUP, TRUSTEE_IS_SID,
};
use windows::Win32::Security::{
    WinCapabilityInternetClientSid, DACL_SECURITY_INFORMATION, NO_INHERITANCE,
    SUB_CONTAINERS_AND_OBJECTS_INHERIT,
};
use windows::Win32::Storage::FileSystem::{
    FILE_DELETE_CHILD, FILE_GENERIC_EXECUTE, FILE_GENERIC_READ, FILE_GENERIC_WRITE,
    FILE_LIST_DIRECTORY, FILE_TRAVERSE,
};
use windows::Win32::System::Registry::{KEY_EXECUTE, KEY_READ, KEY_WRITE};
use windows::Win32::System::SystemServices::SE_GROUP_ENABLED;
use windows::Win32::System::Threading::{
    PROC_THREAD_ATTRIBUTE_HANDLE_LIST, PROC_THREAD_ATTRIBUTE_SECURITY_CAPABILITIES,
};

verus! {

/// Access rights to a registry key.
pub struct RegistryRights {
    pub read: u32,
    pub write: u32,
    pub execute: u32,
}

/// `KEY_READ`, `KEY_WRITE` and `KEY_EXECUTE`.
pub open spec fn registry_rights() -> RegistryRights {
    RegistryRights { read: 0x2_0019, write: 0x2_0006, execute: 0x2_0019 }
}

/// Reads the constants `KEY_READ`, `KEY_WRITE` and `KEY_EXECUTE` of
/// `windows::Win32::System::Registry`: they have the values of `registry_rights`.
#[verifier::external_body]
pub(crate) fn load_registry_rights() -> (r: RegistryRights)
    ensures
        r == registry_rights(),
{
    RegistryRights { read: KEY_READ.0, write: KEY_WRITE.0, execute: KEY_EXECUTE.0 }
}

/// Access rights to a file or directory.
pub struct FileRights {
    pub generic_read: u32,
    pub generic_write: u32,
    pub generic_execute: u32,
    pub list_directory: u32,
    pub traverse: u32,
    pub delete_child: u32,
}

/// `FILE_GENERIC_READ`, `FILE_GENERIC_WRITE`, `FILE_GENERIC_EXECUTE`, `FILE_LIST_DIRECTORY`,
/// `FILE_TRAVERSE` and `FILE_DELETE_CHILD`.
pub open spec fn file_rights() -> FileRights {
    FileRights {
        generic_read: 0x12_0089,
        generic_write: 0x12_0116,
        generic_execute: 0x12_00A0,
        list_directory: 0x01,
        traverse: 0x20,
        delete_child: 0x40,
    }
}

/// Reads the constants `FILE_GENERIC_READ`, `FILE_GENERIC_WRITE`, `FILE_GENERIC_EXECUTE`,
/// `FILE_LIST_DIRECTORY`, `FILE_TRAVERSE` and `FILE_DELETE_CHILD` of
/// `windows::Win32::Storage::FileSystem`: they have the values of `file_rights`.
#[verifier::external_body]
pub(crate) fn load_file_rights() -> (r: FileRights)
    ensures
        r == file_rights(),
{
    FileRights {
        generic_read: FILE_GENERIC_READ.0,
        generic_write: FILE_GENERIC_WRITE.0,
        generic_execute: FILE_GENERIC_EXECUTE.0,
        list_directory: FILE_LIST_DIRECTORY.0,
        traverse: FILE_TRAVERSE.0,
        delete_child: FILE_DELETE_CHILD.0,
    }
}

/// Numbers of the kinds of securable objects.
pub struct ObjectTypeCodes {
    pub file_object: i32,
    pub registry_key: i32,
    pub registry_wow64_32key: i32,
    pub registry_wow64_64key: i32,
}

/// `SE_FILE_OBJECT`, `SE_REGISTRY_KEY`, `SE_REGISTRY_WOW64_32KEY` and
/// `SE_REGISTRY_WOW64_64KEY`.
pub open spec fn object_type_codes() -> ObjectTypeCodes {
    ObjectTypeCodes {
        file_object: 1,
        registry_key: 4,
        registry_wow64_32key: 12,
        registry_wow64_64key: 13,
    }
}

/// Reads the constants `SE_FILE_OBJECT`, `SE_REGISTRY_KEY`, `SE_REGISTRY_WOW64_32KEY` and
/// `SE_REGISTRY_WOW64_64KEY` of `windows::Win32::Security::Authorization`: they have the values
/// of `object_type_codes`.
#[verifier::external_body]
pub(crate) fn load_object_type_codes() -> (r: ObjectTypeCodes)
    ensures
        r == object_type_codes(),
{
    ObjectTypeCodes {
        file_object: SE_FILE_OBJECT.0,
        registry_key: SE_REGISTRY_KEY.0,
        registry_wow64_32key: SE_REGISTRY_WOW64_32KEY.0,
        registry_wow64_64key: SE_REGISTRY_WOW64_64KEY.0,
    }
}

/// Numbers that an entry of an access control list is made of.
pub struct EntryCodes {
    pub set_access: i32,
    pub no_multiple_trustee: i32,
    pub trustee_is_sid: i32,
    pub trustee_is_group: i32,
    pub inherit_all: u32,
    pub no_inheritance: u32,
}

/// `SET_ACCESS`, `NO_MULTIPLE_TRUSTEE`, `TRUSTEE_IS_SID`, `TRUSTEE_IS_GROUP`,
/// `SUB_CONTAINERS_AND_OBJECTS_INHERIT` and `NO_INHERITANCE`.
pub open spec fn entry_codes() -> EntryCodes {
    EntryCodes {
        set_access: 2,
        no_multiple_trustee: 0,
        trustee_is_sid: 0,
        trustee_is_group: 2,
        inherit_all: 3,
        no_inheritance: 0,
    }
}

/// Reads the constants `SET_ACCESS`, `NO_MULTIPLE_TRUSTEE`, `TRUSTEE_IS_SID` and
/// `TRUSTEE_IS_GROUP` of `windows::Win32::Security::Authorization`, and
/// `SUB_CONTAINERS_AND_OBJECTS_INHERIT` and `NO_INHERITANCE` of `windows::Win32::Security`: they
/// have the values of `entry_codes`.
#[verifier::external_body]
pub(crate) fn load_entry_codes() -> (r: EntryCodes)
    ensures
        r == entry_codes(),
{
    EntryCodes {
        set_access: SET_ACCESS.0,
        no_multiple_trustee: NO_MULTIPLE_TRUSTEE.0,
        trustee_is_sid: TRUSTEE_IS_SID.0,
        trustee_is_group: TRUSTEE_IS_GROUP.0,
        inherit_all: SUB_CONTAINERS_AND_OBJECTS_INHERIT.0,
        no_inheritance: NO_INHERITANCE.0,
    }
}

/// `DACL_SECURITY_INFORMATION`: the discretionary access control list is read or written.
pub open spec fn dacl_security_information() -> u32 {
    4
}

/// Reads the constant `DACL_SECURITY_INFORMATION` of `windows::Win32::Security`: it has the
/// value of `dacl_security_information`.
#[verifier::external_body]
pub(crate) fn load_dacl_security_information() -> (r: u32)
    ensures
        r == dacl_security_information(),
{
    DACL_SECURITY_INFORMATION.0
}

/// The capability to reach the internet as a client.
pub struct NetworkCapability {
    /// Kind of the well-known security identifier.
    pub sid_type: i32,
    /// Attributes that go with it.
    pub attributes: u32,
}

/// `WinCapabilityInternetClientSid` and `SE_GROUP_ENABLED`.
pub open spec fn network_capability() -> NetworkCapability {
    NetworkCapability { sid_type: 85, attributes: 4 }
}

/// Reads the constants `WinCapabilityInternetClientSid` of `windows::Win32::Security` and
/// `SE_GROUP_ENABLED` of `windows::Win32::System::SystemServices`: they have the values of
/// `network_capability`.
#[verifier::external_body]
pub(crate) fn load_network_capability() -> (r: NetworkCapability)
    ensures
        r == network_capability(),
{
    NetworkCapability {
        sid_type: WinCapabilityInternetClientSid.0,
        attributes: SE_GROUP_ENABLED as u32,
    }
}

/// Numbers of the attributes that a new process can be given.
pub struct ThreadAttributes {
    pub handle_list: usize,
    pub security_capabilities: usize,
}

/// `PROC_THREAD_ATTRIBUTE_HANDLE_LIST` and `PROC_THREAD_ATTRIBUTE_SECURITY_CAPABILITIES`.
pub open spec fn thread_attributes() -> ThreadAttributes {
    ThreadAttributes { handle_list: 0x2_0002, security_capabilities: 0x2_0009 }
}

/// Reads the constants `PROC_THREAD_ATTRIBUTE_HANDLE_LIST` and
/// `PROC_THREAD_ATTRIBUTE_SECURITY_CAPABILITIES` of `windows::Win32::System::Threading`: they
/// have the values of `thread_attributes`.
#[verifier::external_body]
pub(crate) fn load_thread_attributes() -> (r: ThreadAttributes)
    ensures
        r == thread_attributes(),
{
    ThreadAttributes {
        handle_list: PROC_THREAD_ATTRIBUTE_HANDLE_LIST as usize,
        security_capabilities: PROC_THREAD_ATTRIBUTE_SECURITY_CAPABILITIES as usize,
    }
}

/// Error numbers that say that an object does not exist.
pub struct MissingCodes {
    pub path: u32,
    pub file: u32,
}

/// `ERROR_PATH_NOT_FOUND` and `ERROR_FILE_NOT_FOUND`.
pub open spec fn missing_codes() -> MissingCodes {
    MissingCodes { path: 3, file: 2 }
}

/// Reads the constants `ERROR_PATH_NOT_FOUND` and `ERROR_FILE_NOT_FOUND` of
/// `windows::Win32::Foundation`: they have the values of `missing_codes`.
#[verifier::external_body]
pub(crate) fn load_missing_codes() -> (r: MissingCodes)
    ensures
        r == missing_codes(),
{
    MissingCodes { path: ERROR_PATH_NOT_FOUND.0, file: ERROR_FILE_NOT_FOUND.0 }
}

/// The result code of a Win32 status: a positive status is placed, with its upper half cut off,
/// in the Win32 facility of the failures; any other is a result code already.
pub open spec fn hresult(status: u32) -> i32 {
    if status == 0 {
        0
    } else if status < 0x8000_0000 {
        (0x8007_0000 + status % 0x1_0000 - 0x1_0000_0000) as i32
    } else {
        (status - 0x1_0000_0000) as i32
    }
}

/// `windows::core::HRESULT::from_win32`: the result code is that of `hresult`.
#[verifier::external_body]
pub(crate) fn hresult_from_win32(status: u32) -> (r: i32)
    ensures
        r == hresult(status),
{
    windows::core::HRESULT::from_win32(status).0
}

} // verus!
