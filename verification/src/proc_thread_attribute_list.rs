//! Attributes of a new process: the handles that it inherits, and the container that it runs
//! in.
use vstd::prelude::*;

use crate::error::Error;
use crate::sid::{Sid, SidView};
use crate::spawn::{Capability, CapabilityView, SecurityCapabilities};
use crate::win32::load_thread_attributes;

verus! {

/// A list of attributes.
#[derive(Debug)]
pub struct ProcThreadAttributeList {
    /// The memory that the system keeps the list in.
    pub buf: Vec<u8>,
    /// Handles that the process inherits.
    pub inherit_handles: Option<Vec<usize>>,
    /// The container that the process runs in.
    pub app_container_sid: Option<Sid>,
    pub capabilities: Vec<Capability>,
    pub capability_count: u32,
}

/// What a `ProcThreadAttributeList` says.
#[verifier::ext_equal]
pub struct AttributeListView {
    pub buf: Seq<u8>,
    pub inherit_handles: Option<Seq<usize>>,
    pub app_container_sid: Option<SidView>,
    pub capabilities: Seq<CapabilityView>,
    pub capability_count: u32,
}

impl View for ProcThreadAttributeList {
    type V = AttributeListView;

    open spec fn view(&self) -> AttributeListView {
        AttributeListView {
            buf: self.buf@,
            inherit_handles: match self.inherit_handles {
                Some(handles) => Some(handles@),
                None => None,
            },
            app_container_sid: match self.app_container_sid {
                Some(sid) => Some(sid@),
                None => None,
            },
            capabilities: crate::spawn::capability_views(self.capabilities@),
            capability_count: self.capability_count,
        }
    }
}

/// A list without attributes, in `size` bytes of memory.
pub open spec fn empty_list(size: usize) -> AttributeListView {
    AttributeListView {
        buf: Seq::new(size as nat, |i: int| 0u8),
        inherit_handles: None,
        app_container_sid: None,
        capabilities: Seq::empty(),
        capability_count: 0,
    }
}

/// What is handed over to set an attribute.
#[derive(Debug, Clone, Copy, PartialEq, Eq, Structural)]
pub enum AttributeUpdate {
    /// Set this attribute to the inherited handles, which take up this many bytes.
    HandleList(usize, usize),
    /// Set this attribute to the container and its capabilities.
    SecurityCapabilities(usize),
}

impl ProcThreadAttributeList {
    /// The capabilities are counted, and there are none before there is a container.
    pub open spec fn wf(&self) -> bool {
        &&& self.capability_count == self.capabilities@.len()
        &&& self.app_container_sid is None ==> self.capabilities@.len() == 0
    }

    /// A list in as much memory as the system asked for, which it has yet to set up. That asking
    /// for the size returns an error is expected: only the size counts.
    pub fn try_new(size: usize) -> (r: ProcThreadAttributeList)
        ensures
            r@ == empty_list(size),
            r.wf(),
            r.buf@.len() == size,
            r.inherit_handles is None,
            r.app_container_sid is None,
            r.capabilities@.len() == 0,
            r.capability_count == 0,
    {
        let mut buf: Vec<u8> = Vec::new();
        buf.resize(size, 0);
        let list = ProcThreadAttributeList {
            buf,
            inherit_handles: None,
            app_container_sid: None,
            capabilities: Vec::new(),
            capability_count: 0,
        };
        assert(list@ =~= empty_list(size));
        list
    }

    /// The list once the system has set up its memory, or the result code of the failure.
    pub fn initialized(self, result: Result<(), i32>) -> (r: Result<ProcThreadAttributeList, Error>)
        ensures
            r == (match result {
                Ok(_) => Ok::<ProcThreadAttributeList, Error>(self),
                Err(code) => Err(Error::Io(code)),
            }),
    {
        match result {
            Ok(_) => Ok(self),
            Err(code) => Err(Error::Io(code)),
        }
    }

    /// Sets the handles that the process inherits, and says what is handed over for that. This
    /// may be done once only.
    pub fn inherit_handles(&mut self, handles: Vec<usize>) -> (r: AttributeUpdate)
        requires
            old(self).inherit_handles is None,
            handles@.len() * vstd::layout::size_of::<usize>() <= usize::MAX,
        ensures
            final(self)@ == (AttributeListView { inherit_handles: Some(handles@), ..old(self)@ }),
            old(self).wf() ==> final(self).wf(),
            r == AttributeUpdate::HandleList(
                crate::win32::thread_attributes().handle_list,
                (handles@.len() * vstd::layout::size_of::<usize>()) as usize,
            ),
    {
        let size: usize = handles.len() * std::mem::size_of::<usize>();
        self.inherit_handles = Some(handles);
        AttributeUpdate::HandleList(load_thread_attributes().handle_list, size)
    }

    /// Sets the container that the process runs in, and its capabilities, and says what is
    /// handed over for that. This may be done once only.
    pub fn set_security_capabilities(
        &mut self,
        app_container_sid: Sid,
        capabilities: Vec<Capability>,
    ) -> (r: AttributeUpdate)
        requires
            old(self).wf(),
            old(self).app_container_sid is None,
            capabilities@.len() <= u32::MAX,
        ensures
            final(self).wf(),
            final(self)@ == (AttributeListView {
                app_container_sid: Some(app_container_sid@),
                capabilities: crate::spawn::capability_views(capabilities@),
                capability_count: capabilities@.len() as u32,
                ..old(self)@
            }),
            r == AttributeUpdate::SecurityCapabilities(
                crate::win32::thread_attributes().security_capabilities,
            ),
    {
        self.app_container_sid = Some(app_container_sid);
        self.capabilities = capabilities;
        self.capability_count = self.capabilities.len() as u32;
        AttributeUpdate::SecurityCapabilities(load_thread_attributes().security_capabilities)
    }

    /// What is handed over about the container, if one is set.
    pub fn security_capabilities(&self) -> (r: Option<SecurityCapabilities<'_>>)
        ensures
            r is Some <==> self@.app_container_sid is Some,
            r is Some ==> {
                &&& crate::sid::points_to(r->0.app_container_sid, self@.app_container_sid->0)
                &&& r->0.capabilities == (if self.capabilities@.len() == 0 {
                    None
                } else {
                    Some(&self.capabilities)
                })
                &&& r->0.capability_count == self.capability_count
            },
    {
        match &self.app_container_sid {
            Some(sid) => Some(
                SecurityCapabilities {
                    app_container_sid: sid.as_ptr(),
                    capabilities: if self.capabilities.len() == 0 {
                        None
                    } else {
                        Some(&self.capabilities)
                    },
                    capability_count: self.capability_count,
                },
            ),
            None => None,
        }
    }
}

} // verus!
