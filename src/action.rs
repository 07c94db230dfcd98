//! The four transport actions and the fixed (service, path, method) triple of each.

use vstd::prelude::*;

verus! {

/// A logical action that the engine asks the transport to perform.
#[derive(Clone, Copy, Debug, PartialEq, Eq, Structural)]
pub enum Action {
    /// List the references a fetch can ask for.
    AdvertiseUploadPack,
    /// Exchange pack data for a fetch.
    ExecuteUploadPack,
    /// List the references a push can update.
    AdvertiseReceivePack,
    /// Send pack data for a push.
    ExecuteReceivePack,
}

/// The HTTP method of an exchange.
#[derive(Clone, Copy, Debug, PartialEq, Eq, Structural)]
pub enum Method {
    Get,
    Post,
}

/// The service that an action talks to.
pub open spec fn service_of(a: Action) -> Seq<char> {
    match a {
        Action::AdvertiseUploadPack | Action::ExecuteUploadPack => "upload-pack"@,
        Action::AdvertiseReceivePack | Action::ExecuteReceivePack => "receive-pack"@,
    }
}

/// The suffix appended to the remote's base URL for an action.
pub open spec fn path_of(a: Action) -> Seq<char> {
    match a {
        Action::AdvertiseUploadPack => "/info/refs?service=git-upload-pack"@,
        Action::ExecuteUploadPack => "/git-upload-pack"@,
        Action::AdvertiseReceivePack => "/info/refs?service=git-receive-pack"@,
        Action::ExecuteReceivePack => "/git-receive-pack"@,
    }
}

/// The HTTP method used for an action: advertisements are fetched, pack data is posted.
pub open spec fn method_of(a: Action) -> Method {
    match a {
        Action::AdvertiseUploadPack | Action::AdvertiseReceivePack => Method::Get,
        Action::ExecuteUploadPack | Action::ExecuteReceivePack => Method::Post,
    }
}

/// The text of a method as it appears on the request line.
pub open spec fn method_text(m: Method) -> Seq<char> {
    match m {
        Method::Get => "GET"@,
        Method::Post => "POST"@,
    }
}

impl Method {
    /// The method's name, as sent on the wire.
    pub fn as_str(&self) -> (r: &'static str)
        ensures
            r@ == method_text(*self),
    {
        match self {
            Method::Get => "GET",
            Method::Post => "POST",
        }
    }
}

impl Action {
    /// The service name: `upload-pack` for fetches, `receive-pack` for pushes.
    pub fn service(&self) -> (r: &'static str)
        ensures
            r@ == service_of(*self),
    {
        match self {
            Action::AdvertiseUploadPack | Action::ExecuteUploadPack => "upload-pack",
            Action::AdvertiseReceivePack | Action::ExecuteReceivePack => "receive-pack",
        }
    }

    /// The path suffix of the action's endpoint.
    pub fn path(&self) -> (r: &'static str)
        ensures
            r@ == path_of(*self),
    {
        match self {
            Action::AdvertiseUploadPack => "/info/refs?service=git-upload-pack",
            Action::ExecuteUploadPack => "/git-upload-pack",
            Action::AdvertiseReceivePack => "/info/refs?service=git-receive-pack",
            Action::ExecuteReceivePack => "/git-receive-pack",
        }
    }

    /// The HTTP method of the action's exchange.
    pub fn method(&self) -> (r: Method)
        ensures
            r == method_of(*self),
    {
        match self {
            Action::AdvertiseUploadPack | Action::AdvertiseReceivePack => Method::Get,
            Action::ExecuteUploadPack | Action::ExecuteReceivePack => Method::Post,
        }
    }

    /// The whole (service, path, method) triple of the action.
    pub fn mapping(&self) -> (r: (&'static str, &'static str, Method))
        ensures
            r.0@ == service_of(*self),
            r.1@ == path_of(*self),
            r.2 == method_of(*self),
    {
        (self.service(), self.path(), self.method())
    }
}

} // verus!
