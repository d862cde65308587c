//! Security descriptors and access control lists, by the addresses at which the system keeps
//! them.
use vstd::prelude::*;

use crate::access::{ExplicitAccess, Trustee};
use crate::error::{status_result, Error};
use crate::path_type::ObjectType;
use crate::wide::WideString;
use crate::win32::load_dacl_security_information;

verus! {

/// The descriptor of an object and its discretionary access control list. The list is a part of
/// the descriptor.
#[derive(Debug, Clone, Copy, PartialEq, Eq, Structural)]
pub struct SecurityDescriptor {
    pub descriptor: usize,
    pub dacl: usize,
}

/// An access control list of its own.
#[derive(Debug, Clone, Copy, PartialEq, Eq, Structural)]
pub struct OwnedAccessControlList(pub usize);

/// An access control list that is a part of a descriptor.
#[derive(Debug, Clone, Copy)]
pub struct ReferencedAccessControlList<'a> {
    pub acl: usize,
    pub owner: &'a SecurityDescriptor,
}

/// What is handed over to read the security information of an object.
#[derive(Debug)]
pub struct SecurityInfoRequest {
    /// Name of the object, with its terminating zero.
    pub name: Vec<u16>,
    /// Number of the kind of object.
    pub object_type: i32,
    /// What to read: the discretionary access control list.
    pub security_info: u32,
}

/// What is handed over to merge entries into an access control list.
pub struct EntriesRequest<'a> {
    pub entries: &'a [ExplicitAccess],
    pub old_acl: usize,
}

/// What is handed over to give an object a discretionary access control list.
#[derive(Debug)]
pub struct SecurityUpdateRequest {
    /// Name of the object, with its terminating zero.
    pub name: Vec<u16>,
    /// Number of the kind of object.
    pub object_type: i32,
    /// What to write: the discretionary access control list.
    pub security_info: u32,
    pub dacl: usize,
}

/// What is handed over to ask for the rights of a trustee.
pub struct RightsRequest<'a> {
    pub acl: usize,
    pub trustee: &'a Trustee,
}

impl Default for SecurityDescriptor {
    fn default() -> (r: Self)
        ensures
            r == (SecurityDescriptor { descriptor: 0, dacl: 0 }),
    {
        SecurityDescriptor { descriptor: 0, dacl: 0 }
    }
}

impl SecurityDescriptor {
    /// What is handed over to read the descriptor of the object `name`.
    pub fn named_security_info_request(
        name: &WideString,
        object_type: ObjectType,
    ) -> (r: SecurityInfoRequest)
        ensures
            r.name@ == name@.push(0),
            r.object_type == crate::path_type::object_type_code(object_type),
            r.security_info == crate::win32::dacl_security_information(),
    {
        SecurityInfoRequest {
            name: name.with_nul(),
            object_type: object_type.code(),
            security_info: load_dacl_security_information(),
        }
    }

    /// The descriptor that reading it gave, or the result code of the failure. `status` is the
    /// status of the call, `read` what it wrote.
    pub fn named_security_info(status: u32, read: SecurityDescriptor) -> (r: Result<
        SecurityDescriptor,
        i32,
    >)
        ensures
            r == (if status == 0 {
                Ok::<SecurityDescriptor, i32>(read)
            } else {
                Err(crate::win32::hresult(status))
            }),
    {
        match status_result(status) {
            Ok(_) => Ok(read),
            Err(code) => Err(code),
        }
    }

    /// The discretionary access control list of the descriptor.
    pub fn discretionary_access_control_list(&self) -> (r: ReferencedAccessControlList<'_>)
        ensures
            r.acl == self.dacl,
            *r.owner == *self,
    {
        ReferencedAccessControlList { acl: self.dacl, owner: self }
    }

    /// The local memory to free once the descriptor is no longer used: none where it was never
    /// read.
    pub fn release(&self) -> (r: Option<usize>)
        ensures
            r == (if self.descriptor != 0 {
                Some(self.descriptor)
            } else {
                None
            }),
    {
        if self.descriptor != 0 {
            Some(self.descriptor)
        } else {
            None
        }
    }

    /// The text of a descriptor, from the units that the system wrote for it, or from the
    /// message of the failure to write them.
    pub fn text(converted: Result<&WideString, &str>) -> (r: String)
        ensures
            match converted {
                Err(message) => r@ == "Error converting security descriptor to string: "@
                    + message@,
                Ok(units) => if crate::wide::is_unicode(units@) {
                    crate::wide::encode_utf16(r@) == units@
                } else {
                    r@ == "Error converting security descriptor to string: invalid UTF-16"@
                },
            },
    {
        match converted {
            Err(message) => {
                let mut text: String = "Error converting security descriptor to string: ".to_owned();
                text.append(message);
                text
            },
            Ok(units) => match units.to_str() {
                Some(text) => text,
                None => "Error converting security descriptor to string: invalid UTF-16".to_owned(),
            },
        }
    }
}

/// What can be asked of an access control list, whoever owns it.
pub trait AccessControlListExt {
    /// The address of the list.
    spec fn address(&self) -> usize;

    /// The address of the list.
    fn as_ptr(&self) -> (r: usize)
        ensures
            r == self.address(),
    ;

    /// What is handed over to make this the list of the object `name`.
    fn set_named_security_info(&self, name: &WideString, object_type: ObjectType) -> (r:
        SecurityUpdateRequest)
        ensures
            r.name@ == name@.push(0),
            r.object_type == crate::path_type::object_type_code(object_type),
            r.security_info == crate::win32::dacl_security_information(),
            r.dacl == self.address(),
    {
        SecurityUpdateRequest {
            name: name.with_nul(),
            object_type: object_type.code(),
            security_info: load_dacl_security_information(),
            dacl: self.as_ptr(),
        }
    }

    /// What is handed over to ask for the rights that the list gives a trustee.
    fn get_effective_rights_from_acl<'a>(&self, trustee: &'a Trustee) -> (r: RightsRequest<'a>)
        ensures
            r.acl == self.address(),
            *r.trustee == *trustee,
    {
        RightsRequest { acl: self.as_ptr(), trustee }
    }

    /// What is handed over to merge entries into the list.
    fn set_entries_in_acl<'a>(&self, entries: &'a [ExplicitAccess]) -> (r: EntriesRequest<'a>)
        ensures
            r.old_acl == self.address(),
            r.entries@ == entries@,
    {
        EntriesRequest { entries, old_acl: self.as_ptr() }
    }
}

impl AccessControlListExt for OwnedAccessControlList {
    open spec fn address(&self) -> usize {
        self.0
    }

    fn as_ptr(&self) -> (r: usize) {
        self.0
    }
}

impl<'a> AccessControlListExt for ReferencedAccessControlList<'a> {
    open spec fn address(&self) -> usize {
        self.acl
    }

    fn as_ptr(&self) -> (r: usize) {
        self.acl
    }
}

impl OwnedAccessControlList {
    /// The list that merging entries gave, or the result code of the failure. `status` is the
    /// status of the call, `address` what it wrote.
    pub fn merged(status: u32, address: usize) -> (r: Result<OwnedAccessControlList, i32>)
        ensures
            r == (if status == 0 {
                Ok::<OwnedAccessControlList, i32>(OwnedAccessControlList(address))
            } else {
                Err(crate::win32::hresult(status))
            }),
    {
        match status_result(status) {
            Ok(_) => Ok(OwnedAccessControlList(address)),
            Err(code) => Err(code),
        }
    }

    /// The local memory to free once the list is no longer used.
    pub fn release(&self) -> (r: Option<usize>)
        ensures
            r == (if self.0 != 0 {
                Some(self.0)
            } else {
                None
            }),
    {
        if self.0 != 0 {
            Some(self.0)
        } else {
            None
        }
    }
}

/// The rights of a trustee that asking for them gave. `status` is the status of the call,
/// `rights` what it wrote.
pub fn effective_rights(status: u32, rights: u32) -> (r: Result<u32, Error>)
    ensures
        r == (if status == 0 {
            Ok::<u32, Error>(rights)
        } else {
            Err(Error::Io(crate::win32::hresult(status)))
        }),
{
    match status_result(status) {
        Ok(_) => Ok(rights),
        Err(code) => Err(Error::Io(code)),
    }
}

} // verus!
