use vstd::prelude::*;

verus! {

pub const METHOD_BINDING: u16 = 0x001;
pub const METHOD_ALLOCATE: u16 = 0x003;
pub const METHOD_REFRESH: u16 = 0x004;
pub const METHOD_SEND: u16 = 0x006;
pub const METHOD_DATA: u16 = 0x007;
pub const METHOD_CREATE_PERMISSION: u16 = 0x008;
pub const METHOD_CHANNEL_BIND: u16 = 0x009;

/// The STUN methods this library knows.
#[derive(Debug, Clone, Copy, PartialEq, Eq, Structural, Hash)]
pub enum Method {
    Binding,
    Allocate,
    Refresh,
    Send,
    Data,
    CreatePermission,
    ChannelBind,
}

impl Method {
    pub open spec fn spec_as_u12(self) -> u16 {
        match self {
            Method::Binding => METHOD_BINDING,
            Method::Allocate => METHOD_ALLOCATE,
            Method::Refresh => METHOD_REFRESH,
            Method::Send => METHOD_SEND,
            Method::Data => METHOD_DATA,
            Method::CreatePermission => METHOD_CREATE_PERMISSION,
            Method::ChannelBind => METHOD_CHANNEL_BIND,
        }
    }

    /// The method with a given 12-bit code; `None` for a code this library does not know.
    pub fn from_u12(value: u16) -> (r: Option<Method>)
        ensures
            r is Some ==> r->0.spec_as_u12() == value,
            r is None ==> forall|m: Method| m.spec_as_u12() != value,
    {
        if value == METHOD_BINDING {
            Some(Method::Binding)
        } else if value == METHOD_ALLOCATE {
            Some(Method::Allocate)
        } else if value == METHOD_REFRESH {
            Some(Method::Refresh)
        } else if value == METHOD_SEND {
            Some(Method::Send)
        } else if value == METHOD_DATA {
            Some(Method::Data)
        } else if value == METHOD_CREATE_PERMISSION {
            Some(Method::CreatePermission)
        } else if value == METHOD_CHANNEL_BIND {
            Some(Method::ChannelBind)
        } else {
            None
        }
    }

    pub fn as_u12(&self) -> (r: u16)
        ensures
            r == self.spec_as_u12(),
    {
        match self {
            Method::Binding => METHOD_BINDING,
            Method::Allocate => METHOD_ALLOCATE,
            Method::Refresh => METHOD_REFRESH,
            Method::Send => METHOD_SEND,
            Method::Data => METHOD_DATA,
            Method::CreatePermission => METHOD_CREATE_PERMISSION,
            Method::ChannelBind => METHOD_CHANNEL_BIND,
        }
    }
}

/// ALLOCATE: asks the server for a relayed transport address.
#[derive(Debug, Clone, Copy, PartialEq, Eq, Structural, Hash)]
pub struct Allocate;

/// REFRESH: extends or ends an allocation.
#[derive(Debug, Clone, Copy, PartialEq, Eq, Structural, Hash)]
pub struct Refresh;

/// SEND: an indication from the client carrying data for a peer.
#[derive(Debug, Clone, Copy, PartialEq, Eq, Structural, Hash)]
pub struct Send;

/// DATA: an indication from the server carrying data from a peer.
#[derive(Debug, Clone, Copy, PartialEq, Eq, Structural, Hash)]
pub struct Data;

/// CREATE-PERMISSION: installs or refreshes a permission for a peer address.
#[derive(Debug, Clone, Copy, PartialEq, Eq, Structural, Hash)]
pub struct CreatePermission;

/// CHANNEL-BIND: binds a channel number to a peer address.
#[derive(Debug, Clone, Copy, PartialEq, Eq, Structural, Hash)]
pub struct ChannelBind;

impl Allocate {
    pub fn from_u12(value: u16) -> (r: Option<Allocate>)
        ensures
            r is Some <==> value == METHOD_ALLOCATE,
    {
        if value == METHOD_ALLOCATE {
            Some(Allocate)
        } else {
            None
        }
    }

    pub fn as_u12(&self) -> (r: u16)
        ensures
            r == METHOD_ALLOCATE,
    {
        METHOD_ALLOCATE
    }
}

impl Refresh {
    pub fn from_u12(value: u16) -> (r: Option<Refresh>)
        ensures
            r is Some <==> value == METHOD_REFRESH,
    {
        if value == METHOD_REFRESH {
            Some(Refresh)
        } else {
            None
        }
    }

    pub fn as_u12(&self) -> (r: u16)
        ensures
            r == METHOD_REFRESH,
    {
        METHOD_REFRESH
    }
}

impl Send {
    pub fn from_u12(value: u16) -> (r: Option<Send>)
        ensures
            r is Some <==> value == METHOD_SEND,
    {
        if value == METHOD_SEND {
            Some(Send)
        } else {
            None
        }
    }

    pub fn as_u12(&self) -> (r: u16)
        ensures
            r == METHOD_SEND,
    {
        METHOD_SEND
    }
}

impl Data {
    pub fn from_u12(value: u16) -> (r: Option<Data>)
        ensures
            r is Some <==> value == METHOD_DATA,
    {
        if value == METHOD_DATA {
            Some(Data)
        } else {
            None
        }
    }

    pub fn as_u12(&self) -> (r: u16)
        ensures
            r == METHOD_DATA,
    {
        METHOD_DATA
    }
}

impl CreatePermission {
    pub fn from_u12(value: u16) -> (r: Option<CreatePermission>)
        ensures
            r is Some <==> value == METHOD_CREATE_PERMISSION,
    {
        if value == METHOD_CREATE_PERMISSION {
            Some(CreatePermission)
        } else {
            None
        }
    }

    pub fn as_u12(&self) -> (r: u16)
        ensures
            r == METHOD_CREATE_PERMISSION,
    {
        METHOD_CREATE_PERMISSION
    }
}

impl ChannelBind {
    pub fn from_u12(value: u16) -> (r: Option<ChannelBind>)
        ensures
            r is Some <==> value == METHOD_CHANNEL_BIND,
    {
        if value == METHOD_CHANNEL_BIND {
            Some(ChannelBind)
        } else {
            None
        }
    }

    pub fn as_u12(&self) -> (r: u16)
        ensures
            r == METHOD_CHANNEL_BIND,
    {
        METHOD_CHANNEL_BIND
    }
}

} // verus!
