//! Plugin instances, their views and their message loops.
//!
//! Functions here that answer for a browser call take the browser's reply as
//! an argument; their documentation names the call.

use vstd::prelude::*;
use crate::ffi;
use crate::ffi::{PP_Bool, PP_Instance, PP_Resource, PP_InputEvent_Class};
use crate::code::{Code, code_of, is_known_code};
use crate::geometry::Rect;
use crate::resource::{Resource, ResourceType, ToOption, handle_option};

verus! {

/// A plugin instance: one embedding of the plugin in a page.
#[derive(Clone, Copy, PartialEq, Eq, Structural, Debug, Hash)]
pub struct Instance {
    pub instance: PP_Instance,
}

/// The browser console of an instance.
#[derive(Clone, Copy, PartialEq, Eq, Structural, Debug)]
pub struct Console(pub PP_Instance);

/// The page messaging channel of an instance.
#[derive(Clone, Copy, PartialEq, Eq, Structural, Debug)]
pub struct Messaging(pub PP_Instance);

/// The on-screen state of an instance.
#[derive(Clone, Copy, PartialEq, Eq, Structural, Debug, Hash)]
pub struct View(pub PP_Resource);

/// A queue of work bound to a thread.
#[derive(Clone, Copy, PartialEq, Eq, Structural, Debug, Hash)]
pub struct MessageLoop(pub PP_Resource);

/// A call into the browser about an instance, its view or a message loop,
/// with its arguments. The functions that read the answers take them as
/// arguments.
#[derive(Clone, Copy, PartialEq, Eq, Structural, Debug, Hash)]
pub enum BrowserCall {
    /// `PPB_InputEvent::RequestInputEvents(instance, classes)`.
    RequestInputEvents(PP_Instance, PP_InputEvent_Class),
    /// `PPB_InputEvent::RequestFilteringInputEvents(instance, classes)`.
    RequestFilteringInputEvents(PP_Instance, PP_InputEvent_Class),
    /// `PPB_InputEvent::ClearInputEventRequest(instance, classes)`.
    ClearInputEventRequest(PP_Instance, PP_InputEvent_Class),
    /// `PPB_View::GetRect(view, &rect)`.
    GetRect(PP_Resource),
    /// `PPB_View::IsFullscreen(view)`.
    IsFullscreen(PP_Resource),
    /// `PPB_View::IsVisible(view)`.
    IsVisible(PP_Resource),
    /// `PPB_View::IsPageVisible(view)`.
    IsPageVisible(PP_Resource),
    /// `PPB_View::GetClipRect(view, &rect)`.
    GetClipRect(PP_Resource),
    /// `PPB_MessageLoop::PostQuit(loop, should_destroy)`.
    PostQuit(PP_Resource, PP_Bool),
}

/// The value the browser's boolean answers stand for.
pub open spec fn pp_bool(b: PP_Bool) -> bool {
    b != ffi::PP_FALSE
}

/// The code that binding a graphics context yields for the browser's answer.
pub open spec fn bind_code(reply: PP_Bool) -> Code {
    if reply == ffi::PP_TRUE { Code::Success } else { Code::Failed }
}

impl Console {
    pub fn unwrap(&self) -> (i: PP_Instance)
        ensures i == self.0,
    {
        self.0
    }
}

impl Messaging {
    pub fn unwrap(&self) -> (i: PP_Instance)
        ensures i == self.0,
    {
        self.0
    }
}

impl Instance {
    pub fn new(inst: PP_Instance) -> (i: Instance)
        ensures i.instance == inst,
    {
        Instance { instance: inst }
    }

    pub fn unwrap(&self) -> (i: PP_Instance)
        ensures i == self.instance,
    {
        self.instance
    }

    /// The instance that the running thread serves; `slot` is the thread's
    /// record of it, which must be set.
    pub fn current(slot: &Option<Instance>) -> (i: Instance)
        requires
            slot.is_some(),
        ensures
            i == slot.unwrap(),
    {
        match slot {
            Some(i) => *i,
            None => Instance { instance: 0 },
        }
    }

    /// The instance that the running thread serves, if it serves one;
    /// `slot` is the thread's record of it.
    pub fn opt_current(slot: &Option<Instance>) -> (i: Option<Instance>)
        ensures i == *slot,
    {
        *slot
    }

    pub fn console(&self) -> (c: Console)
        ensures c.0 == self.instance,
    {
        Console(self.instance)
    }

    pub fn messaging(&self) -> (m: Messaging)
        ensures m.0 == self.instance,
    {
        Messaging(self.instance)
    }

    /// Binding a graphics context: `reply` is the answer of the browser's
    /// `PPB_Instance::BindGraphics(self, context)`. Only `PP_TRUE` succeeds.
    pub fn bind_context(&self, reply: PP_Bool) -> (c: Code)
        ensures c == bind_code(reply),
    {
        if reply == ffi::PP_TRUE {
            Code::Success
        } else {
            Code::Failed
        }
    }

    /// The call that asks for input event classes; `request_input_events`
    /// reads its answer.
    pub fn request_input_events_call(&self, classes: PP_InputEvent_Class) -> (c: BrowserCall)
        ensures c == BrowserCall::RequestInputEvents(self.instance, classes),
    {
        BrowserCall::RequestInputEvents(self.instance, classes)
    }

    /// The call that asks for filtered input event classes;
    /// `request_filtering_input_events` reads its answer.
    pub fn request_filtering_input_events_call(&self, classes: PP_InputEvent_Class) -> (c: BrowserCall)
        ensures c == BrowserCall::RequestFilteringInputEvents(self.instance, classes),
    {
        BrowserCall::RequestFilteringInputEvents(self.instance, classes)
    }

    /// The call that stops input events of some classes from coming; the
    /// browser gives no answer.
    pub fn clear_input_event_request(&self, classes: PP_InputEvent_Class) -> (c: BrowserCall)
        ensures c == BrowserCall::ClearInputEventRequest(self.instance, classes),
    {
        BrowserCall::ClearInputEventRequest(self.instance, classes)
    }

    /// Asking for input event classes: `reply` is the answer of the
    /// browser's `PPB_InputEvent::RequestInputEvents(self, classes)`.
    pub fn request_input_events(&self, reply: i32) -> (c: Code)
        requires is_known_code(reply),
        ensures c == code_of(reply),
    {
        Code::from_i32(reply)
    }

    /// Asking for filtered input event classes: `reply` is the answer of the
    /// browser's `PPB_InputEvent::RequestFilteringInputEvents(self, classes)`.
    pub fn request_filtering_input_events(&self, reply: i32) -> (c: Code)
        requires is_known_code(reply),
        ensures c == code_of(reply),
    {
        Code::from_i32(reply)
    }

    /// A new message loop: `created` is the handle that the browser's
    /// `PPB_MessageLoop::Create(self)` returned.
    pub fn create_msg_loop(&self, created: PP_Resource) -> (l: MessageLoop)
        ensures l.0 == created,
    {
        MessageLoop(created)
    }
}

/// Whether the running thread is the main thread: `main_loop` is the main
/// thread's loop, `current_loop` the running thread's (the null handle when it
/// has none).
pub fn is_main_thread(main_loop: PP_Resource, current_loop: PP_Resource) -> (b: bool)
    ensures
        b == (current_loop != 0 && current_loop == main_loop),
{
    let current = MessageLoop::current(current_loop);
    match current {
        Some(l) => l.0 == main_loop,
        None => false,
    }
}

impl View {
    pub fn new(res: PP_Resource) -> (v: View)
        ensures v.0 == res,
    {
        View(res)
    }

    /// The call whose answer `rect` reads.
    pub fn rect_call(&self) -> (c: BrowserCall)
        ensures c == BrowserCall::GetRect(self.0),
    {
        BrowserCall::GetRect(self.0)
    }

    /// The call whose answer `is_fullscreen` reads.
    pub fn is_fullscreen_call(&self) -> (c: BrowserCall)
        ensures c == BrowserCall::IsFullscreen(self.0),
    {
        BrowserCall::IsFullscreen(self.0)
    }

    /// The call whose answer `is_visible` reads.
    pub fn is_visible_call(&self) -> (c: BrowserCall)
        ensures c == BrowserCall::IsVisible(self.0),
    {
        BrowserCall::IsVisible(self.0)
    }

    /// The call whose answer `is_page_visible` reads: the page's visibility,
    /// whatever the instance's own.
    pub fn is_page_visible_call(&self) -> (c: BrowserCall)
        ensures c == BrowserCall::IsPageVisible(self.0),
    {
        BrowserCall::IsPageVisible(self.0)
    }

    /// The call whose answer `clip_rect` reads.
    pub fn clip_rect_call(&self) -> (c: BrowserCall)
        ensures c == BrowserCall::GetClipRect(self.0),
    {
        BrowserCall::GetClipRect(self.0)
    }

    /// The view's rectangle: `found` and `rect` are what the browser's
    /// `PPB_View::GetRect(self, &rect)` answered and filled in.
    pub fn rect(&self, found: PP_Bool, rect: Rect) -> (r: Option<Rect>)
        ensures
            r == if pp_bool(found) { Some(rect) } else { None::<Rect> },
    {
        if found != ffi::PP_FALSE { Some(rect) } else { None }
    }

    /// `reply` is the answer of the browser's `PPB_View::IsFullscreen(self)`.
    pub fn is_fullscreen(&self, reply: PP_Bool) -> (b: bool)
        ensures b == pp_bool(reply),
    {
        reply != ffi::PP_FALSE
    }

    /// `reply` is the answer of the browser's `PPB_View::IsVisible(self)`.
    pub fn is_visible(&self, reply: PP_Bool) -> (b: bool)
        ensures b == pp_bool(reply),
    {
        reply != ffi::PP_FALSE
    }

    /// `reply` is the answer of the browser's `PPB_View::IsPageVisible(self)`.
    pub fn is_page_visible(&self, reply: PP_Bool) -> (b: bool)
        ensures b == pp_bool(reply),
    {
        reply != ffi::PP_FALSE
    }

    /// The visible part of the view: `found` and `rect` are what the browser's
    /// `PPB_View::GetClipRect(self, &rect)` answered and filled in.
    pub fn clip_rect(&self, found: PP_Bool, rect: Rect) -> (r: Option<Rect>)
        ensures
            r == if pp_bool(found) { Some(rect) } else { None::<Rect> },
    {
        if found != ffi::PP_FALSE { Some(rect) } else { None }
    }
}

impl Resource for View {
    open spec fn res(&self) -> PP_Resource { self.0 }
    open spec fn kind(&self) -> ResourceType { ResourceType::ViewRes }
    fn unwrap(&self) -> (r: PP_Resource) { self.0 }
    fn type_of(&self) -> (t: ResourceType) { ResourceType::ViewRes }
}

impl ToOption<PP_Resource> for View {
    fn to_option(from: &PP_Resource) -> (r: Option<View>)
        ensures r == handle_option(*from, |h: PP_Resource| View(h)),
    {
        if *from == 0 { None } else { Some(View(*from)) }
    }
}

impl MessageLoop {
    pub fn new(res: PP_Resource) -> (l: MessageLoop)
        ensures l.0 == res,
    {
        MessageLoop(res)
    }

    /// The main thread's loop: `main_loop` is the handle the browser's
    /// `PPB_MessageLoop::GetForMainThread()` returned.
    pub fn get_main_loop(main_loop: PP_Resource) -> (l: MessageLoop)
        ensures l.0 == main_loop,
    {
        MessageLoop::new(main_loop)
    }

    /// Whether the running thread has a loop: `current_loop` is what the
    /// browser's `PPB_MessageLoop::GetCurrent()` returned.
    pub fn is_attached(current_loop: PP_Resource) -> (b: bool)
        ensures b == (current_loop != 0),
    {
        current_loop != 0
    }

    /// The running thread's loop, if it has one: `current_loop` is what the
    /// browser's `PPB_MessageLoop::GetCurrent()` returned.
    pub fn current(current_loop: PP_Resource) -> (l: Option<MessageLoop>)
        ensures
            l == handle_option(current_loop, |h: PP_Resource| MessageLoop(h)),
    {
        if current_loop == 0 { None } else { Some(MessageLoop::new(current_loop)) }
    }

    /// `reply` is the answer of `PPB_MessageLoop::AttachToCurrentThread(self)`.
    pub fn attach_to_current_thread(&self, reply: i32) -> (c: Code)
        requires is_known_code(reply),
        ensures c == code_of(reply),
    {
        Code::from_i32(reply)
    }

    /// Runs the loop until it is told to quit. `reply` is the answer of
    /// `PPB_MessageLoop::Run(self)`.
    pub fn run_loop(&self, reply: i32) -> (c: Code)
        requires is_known_code(reply),
        ensures c == code_of(reply),
    {
        Code::from_i32(reply)
    }

    /// Posting work to the loop: `reply` is the answer of
    /// `PPB_MessageLoop::PostWork(self, callback, delay)`. A refusal of the
    /// callback as a bad argument is an internal error.
    pub fn post_work(&self, reply: i32) -> (c: Code)
        requires
            is_known_code(reply),
            reply != ffi::PP_ERROR_BADARGUMENT,
        ensures c == code_of(reply),
    {
        Code::from_i32(reply)
    }

    /// Posting work to the running thread's own loop, which must exist:
    /// `current_loop` is what `PPB_MessageLoop::GetCurrent()` returned and
    /// `reply` the answer of the `PostWork` call on it.
    pub fn post_to_self(current_loop: PP_Resource, reply: i32) -> (c: Code)
        requires
            current_loop != 0,
            is_known_code(reply),
            reply != ffi::PP_ERROR_BADARGUMENT,
        ensures c == code_of(reply),
    {
        let l = MessageLoop::current(current_loop);
        match l {
            Some(l) => l.post_work(reply),
            None => Code::Failed,
        }
    }

    /// The call that stops the loop without destroying it, so that it can
    /// run again: the quit is posted with "should destroy" false.
    pub fn pause_loop_call(&self) -> (c: BrowserCall)
        ensures c == BrowserCall::PostQuit(self.0, ffi::PP_FALSE),
    {
        BrowserCall::PostQuit(self.0, ffi::PP_FALSE)
    }

    /// The call that stops and destroys the loop: the quit is posted with
    /// "should destroy" true.
    pub fn shutdown_call(&self) -> (c: BrowserCall)
        ensures c == BrowserCall::PostQuit(self.0, ffi::PP_TRUE),
    {
        BrowserCall::PostQuit(self.0, ffi::PP_TRUE)
    }

    /// Stops the loop without destroying it. `reply` is the answer of
    /// `PPB_MessageLoop::PostQuit(self, PP_FALSE)`.
    pub fn pause_loop(&self, reply: i32) -> (c: Code)
        requires is_known_code(reply),
        ensures c == code_of(reply),
    {
        Code::from_i32(reply)
    }

    /// Stops and destroys the loop. `reply` is the answer of
    /// `PPB_MessageLoop::PostQuit(self, PP_TRUE)`.
    pub fn shutdown(&self, reply: i32) -> (c: Code)
        requires is_known_code(reply),
        ensures c == code_of(reply),
    {
        Code::from_i32(reply)
    }
}

impl Resource for MessageLoop {
    open spec fn res(&self) -> PP_Resource { self.0 }
    open spec fn kind(&self) -> ResourceType { ResourceType::MessageLoopRes }
    fn unwrap(&self) -> (r: PP_Resource) { self.0 }
    fn type_of(&self) -> (t: ResourceType) { ResourceType::MessageLoopRes }
}

impl ToOption<PP_Resource> for MessageLoop {
    fn to_option(from: &PP_Resource) -> (r: Option<MessageLoop>)
        ensures r == handle_option(*from, |h: PP_Resource| MessageLoop(h)),
    {
        if *from == 0 { None } else { Some(MessageLoop(*from)) }
    }
}

} // verus!
