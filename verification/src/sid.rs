//! Security identifiers.
use vstd::prelude::*;

use crate::error::Error;
use crate::wide::WideString;

verus! {

/// A security identifier, by where its bytes are kept. An address of zero is no identifier.
#[derive(Debug)]
pub enum Sid {
    /// At an address that the system allocated for an identifier.
    Raw(usize),
    /// In a buffer of ours.
    WellKnown(Vec<u8>),
    /// At an address of local memory, the outcome of reading a textual identifier.
    String(usize),
}

/// What a `Sid` holds.
pub enum SidView {
    Raw(usize),
    WellKnown(Seq<u8>),
    String(usize),
}

impl View for Sid {
    type V = SidView;

    open spec fn view(&self) -> SidView {
        match self {
            Sid::Raw(address) => SidView::Raw(*address),
            Sid::WellKnown(data) => SidView::WellKnown(data@),
            Sid::String(address) => SidView::String(*address),
        }
    }
}

/// Where the bytes of an identifier begin.
pub enum SidPointer<'a> {
    /// At this address.
    Address(usize),
    /// At the first of these bytes.
    Bytes(&'a Vec<u8>),
}

/// Whether the bytes of an identifier begin where a pointer says.
pub open spec fn points_to(pointer: SidPointer<'_>, sid: SidView) -> bool {
    match sid {
        SidView::Raw(address) => pointer == SidPointer::Address(address),
        SidView::WellKnown(data) => pointer is Bytes && pointer->Bytes_0@ == data,
        SidView::String(address) => pointer == SidPointer::Address(address),
    }
}

/// What has to be called once an identifier is no longer used.
#[derive(Debug, Clone, Copy, PartialEq, Eq, Structural)]
pub enum SidRelease {
    /// `FreeSid` on this address.
    FreeSid(usize),
    /// `LocalFree`, for the local memory of the identifier.
    LocalFree,
    /// Nothing.
    Nothing,
}

impl Clone for Sid {
    fn clone(&self) -> (r: Self)
        ensures
            r@ == self@,
    {
        match self {
            Sid::Raw(address) => Sid::Raw(*address),
            Sid::WellKnown(data) => {
                let mut copy: Vec<u8> = Vec::new();
                let mut i: usize = 0;
                while i < data.len()
                    invariant
                        i <= data@.len(),
                        copy@ == data@.take(i as int),
                    decreases data@.len() - i,
                {
                    copy.push(data[i]);
                    assert(data@.take(i + 1) =~= data@.take(i as int).push(data@[i as int]));
                    i = i + 1;
                }
                assert(data@.take(i as int) =~= data@);
                Sid::WellKnown(copy)
            },
            Sid::String(address) => Sid::String(*address),
        }
    }
}

impl Sid {
    /// The identifier at an address that the system allocated.
    pub fn new(address: usize) -> (r: Sid)
        ensures
            r@ == SidView::Raw(address),
    {
        Sid::Raw(address)
    }

    /// The buffer that a well-known identifier of `size` bytes is written to.
    pub fn well_known_buffer(size: u32) -> (r: Vec<u8>)
        ensures
            r@ == Seq::new(size as nat, |i: int| 0u8),
    {
        let mut data: Vec<u8> = Vec::new();
        data.resize(size as usize, 0);
        assert(data@ =~= Seq::new(size as nat, |i: int| 0u8));
        data
    }

    /// The well-known identifier that writing to a buffer gave: `created` is the buffer
    /// afterwards, or the result code of the failure.
    pub fn well_known(created: Result<Vec<u8>, i32>) -> (r: Result<Sid, Error>)
        ensures
            match created {
                Ok(data) => r is Ok && r->Ok_0@ == SidView::WellKnown(data@),
                Err(code) => r == Err::<Sid, Error>(Error::Io(code)),
            },
    {
        match created {
            Ok(data) => Ok(Sid::WellKnown(data)),
            Err(code) => Err(Error::Io(code)),
        }
    }

    /// The units that are handed over to have the textual identifier `string` read.
    pub fn string_request(string: &WideString) -> (r: Vec<u16>)
        ensures
            r@ == string@.push(0),
    {
        string.with_nul()
    }

    /// The identifier that reading a textual one gave: its address, or the result code of the
    /// failure.
    pub fn try_from(converted: Result<usize, i32>) -> (r: Result<Sid, Error>)
        ensures
            match converted {
                Ok(address) => r == Ok::<Sid, Error>(Sid::String(address)),
                Err(code) => r == Err::<Sid, Error>(Error::Io(code)),
            },
    {
        match converted {
            Ok(address) => Ok(Sid::String(address)),
            Err(code) => Err(Error::Io(code)),
        }
    }

    /// Where the bytes of the identifier begin.
    pub fn as_ptr(&self) -> (r: SidPointer<'_>)
        ensures
            points_to(r, self@),
    {
        match self {
            Sid::Raw(address) => SidPointer::Address(*address),
            Sid::WellKnown(data) => SidPointer::Bytes(data),
            Sid::String(address) => SidPointer::Address(*address),
        }
    }

    /// What has to be called once the identifier is no longer used: memory goes back to where it
    /// came from, unless the address is zero. Which pointer `LocalFree` gets is up to the owner of
    /// the memory.
    pub fn release(&self) -> (r: SidRelease)
        ensures
            r == (match self@ {
                SidView::Raw(address) => if address != 0 {
                    SidRelease::FreeSid(address)
                } else {
                    SidRelease::Nothing
                },
                SidView::WellKnown(_) => SidRelease::Nothing,
                SidView::String(address) => if address != 0 {
                    SidRelease::LocalFree
                } else {
                    SidRelease::Nothing
                },
            }),
    {
        match self {
            Sid::Raw(address) => if *address != 0 {
                SidRelease::FreeSid(*address)
            } else {
                SidRelease::Nothing
            },
            Sid::WellKnown(_) => SidRelease::Nothing,
            Sid::String(address) => if *address != 0 {
                SidRelease::LocalFree
            } else {
                SidRelease::Nothing
            },
        }
    }

    /// The text of an identifier, from the units that the system wrote for it; `None` stands
    /// for a failure to write them.
    pub fn text(converted: Option<&WideString>) -> (r: String)
        ensures
            match converted {
                None => r@ == "<Error converting SID to string representation>"@,
                Some(units) => if crate::wide::is_unicode(units@) {
                    crate::wide::encode_utf16(r@) == units@
                } else {
                    r@ == "<Invalid SID string representation>"@
                },
            },
    {
        match converted {
            None => "<Error converting SID to string representation>".to_owned(),
            Some(units) => match units.to_str() {
                Some(text) => text,
                None => "<Invalid SID string representation>".to_owned(),
            },
        }
    }

    /// The name of the variant, which goes before the text of the identifier when it is shown
    /// to a programmer.
    pub fn variant_name(&self) -> (r: &'static str)
        ensures
            r@ == (match self@ {
                SidView::Raw(_) => "Raw"@,
                SidView::WellKnown(_) => "WellKnown"@,
                SidView::String(_) => "String"@,
            }),
    {
        match self {
            Sid::Raw(_) => "Raw",
            Sid::WellKnown(_) => "WellKnown",
            Sid::String(_) => "String",
        }
    }
}

} // verus!
