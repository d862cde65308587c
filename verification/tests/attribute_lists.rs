use birdcage::proc_thread_attribute_list::{AttributeUpdate, ProcThreadAttributeList};
use birdcage::sid::{Sid, SidPointer};
use birdcage::spawn::Capability;
use birdcage::Error;
use windows::Win32::System::Threading::{
    PROC_THREAD_ATTRIBUTE_HANDLE_LIST, PROC_THREAD_ATTRIBUTE_SECURITY_CAPABILITIES,
};

fn list() -> ProcThreadAttributeList {
    ProcThreadAttributeList::try_new(3)
}

#[test]
fn a_new_list_is_empty() {
    let list = list().initialized(Ok(())).unwrap();
    assert_eq!(list.buf, vec![0, 0, 0]);
    assert!(list.inherit_handles.is_none());
    assert!(list.security_capabilities().is_none());
    assert_eq!(list.capability_count, 0);
}

#[test]
fn a_list_has_to_be_set_up() {
    assert!(matches!(list().initialized(Err(-2)), Err(Error::Io(-2))));
}

#[test]
fn handles_can_be_inherited() {
    let mut list = list();
    let update = list.inherit_handles(vec![1, 2, 3]);
    let size = 3 * std::mem::size_of::<usize>();
    assert_eq!(
        update,
        AttributeUpdate::HandleList(PROC_THREAD_ATTRIBUTE_HANDLE_LIST as usize, size)
    );
    assert_eq!(list.inherit_handles, Some(vec![1, 2, 3]));
}

#[test]
fn a_container_can_be_set() {
    let mut list = list();
    let capability = Capability { sid: Sid::new(0x20), attributes: 4 };
    let update = list.set_security_capabilities(Sid::new(0x10), vec![capability]);
    assert_eq!(
        update,
        AttributeUpdate::SecurityCapabilities(PROC_THREAD_ATTRIBUTE_SECURITY_CAPABILITIES as usize)
    );
    let handed_over = list.security_capabilities().unwrap();
    assert!(matches!(handed_over.app_container_sid, SidPointer::Address(0x10)));
    assert_eq!(handed_over.capability_count, 1);
    assert_eq!(handed_over.capabilities.unwrap()[0].attributes, 4);
}

#[test]
fn a_container_needs_no_capabilities() {
    let mut list = list();
    list.set_security_capabilities(Sid::new(0x10), vec![]);
    let handed_over = list.security_capabilities().unwrap();
    assert!(handed_over.capabilities.is_none());
    assert_eq!(handed_over.capability_count, 0);
}
