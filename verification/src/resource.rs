//! Browser resources: handles with a known kind.

use vstd::prelude::*;
use crate::ffi::PP_Resource;

verus! {

/// The kinds of resources the browser hands out.
#[derive(Clone, Copy, PartialEq, Eq, Structural, Debug)]
pub enum ResourceType {
    WheelInputEventRes,
    WebSocketRes,
    ViewRes,
    UrlResponseInfoRes,
    UrlRequestInfoRes,
    UrlLoaderRes,
    UdpSocketRes,
    TrueTypeFontRes,
    TouchInputEventRes,
    TcpSocketRes,
    NetworkMonitorRes,
    NetworkListRes,
    NetworkAddressRes,
    MouseInputEventRes,
    MessageLoopRes,
    KeyboardInputEventRes,
    ImageDataRes,
    IMEInputEventRes,
    HostResolverRes,
    Graphics3DRes,
    Graphics2DRes,
    FontRes,
    FileSystemRes,
    FileRefRes,
    FileIoRes,
    AudioConfigRes,
    AudioRes,
    VideoFrameRes,
    VideoDecoderRes,
}

/// A value that stands for a browser resource.
pub trait Resource {
    /// The handle of the resource.
    spec fn res(&self) -> PP_Resource;

    /// The kind of the resource.
    spec fn kind(&self) -> ResourceType;

    fn unwrap(&self) -> (r: PP_Resource)
        ensures
            r == self.res(),
    ;

    fn type_of(&self) -> (t: ResourceType)
        ensures
            t == self.kind(),
    ;
}

/// Conversion from a raw value that may stand for nothing.
pub trait ToOption<From>: Sized {
    fn to_option(from: &From) -> Option<Self>;
}

/// A graphics context that can be bound to an instance.
pub trait ContextResource {
    spec fn device(&self) -> PP_Resource;

    fn get_device(&self) -> (r: PP_Resource)
        ensures
            r == self.device(),
    ;
}

/// The resource that a handle stands for: none for the null handle.
pub open spec fn handle_option<T>(from: PP_Resource, wrap: spec_fn(PP_Resource) -> T) -> Option<T> {
    if from == 0 { None } else { Some(wrap(from)) }
}

/// A 2D graphics context.
#[derive(Clone, Copy, PartialEq, Eq, Structural, Debug, Hash)]
pub struct Context2d(pub PP_Resource);

impl Context2d {
    pub fn new(res: PP_Resource) -> (r: Context2d)
        ensures
            r.0 == res,
    {
        Context2d(res)
    }
}

impl Resource for Context2d {
    open spec fn res(&self) -> PP_Resource { self.0 }
    open spec fn kind(&self) -> ResourceType { ResourceType::Graphics2DRes }

    fn unwrap(&self) -> (r: PP_Resource) {
        self.0
    }

    fn type_of(&self) -> (t: ResourceType) {
        ResourceType::Graphics2DRes
    }
}

impl ToOption<PP_Resource> for Context2d {
    fn to_option(from: &PP_Resource) -> (r: Option<Context2d>)
        ensures
            r == handle_option(*from, |h: PP_Resource| Context2d(h)),
    {
        if *from == 0 { None } else { Some(Context2d(*from)) }
    }
}

impl ContextResource for Context2d {
    open spec fn device(&self) -> PP_Resource { self.0 }

    fn get_device(&self) -> (r: PP_Resource) {
        self.0
    }
}

} // verus!
