use ppapi::code::Code;
use ppapi::entry::{
    classify_input_event, document_load_answer, find_arg, input_event_answer, instance_thread_report, loop_exit,
    module_init_result, mount, parse_args, InputEventKind, Instances, LoopExit,
};
use ppapi::ffi;
use ppapi::instance::{BrowserCall, Instance, MessageLoop, View};

fn s(v: &str) -> String {
    v.to_string()
}

#[test]
fn args_later_pairs_replace_earlier() {
    let keys = vec![s("id"), s("src"), s("id")];
    let values = vec![s("a"), s("b"), s("c")];
    let args = parse_args(3, &keys, &values);
    assert_eq!(args.len(), 2);
    assert_eq!(find_arg(&args, &s("id")), Some(s("c")));
    assert_eq!(find_arg(&args, &s("src")), Some(s("b")));
    assert_eq!(find_arg(&args, &s("none")), None);
}

#[test]
fn args_with_zero_count_read_one_pair() {
    let keys = vec![s("id"), s("x")];
    let values = vec![s("1"), s("2")];
    let args = parse_args(0, &keys, &values);
    assert_eq!(args, vec![(s("id"), s("1"))]);
}

#[test]
fn instances_record_find_remove() {
    let mut m = Instances::new();
    let a = Instance::new(1);
    let b = Instance::new(2);
    assert_eq!(m.insert(a, MessageLoop::new(10)), None);
    assert_eq!(m.insert(b, MessageLoop::new(20)), None);
    assert_eq!(m.find(a), Some(MessageLoop::new(10)));
    assert_eq!(m.insert(a, MessageLoop::new(11)), Some(MessageLoop::new(10)));
    assert_eq!(m.find(a), Some(MessageLoop::new(11)));
    assert_eq!(m.remove(a), Some(MessageLoop::new(11)));
    assert_eq!(m.find(a), None);
    assert_eq!(m.find(b), Some(MessageLoop::new(20)));
}

#[test]
fn created_instances_are_recorded() {
    let mut m = Instances::new();
    let a = Instance::new(1);
    assert_eq!(m.record_created(a, None), (false, None));
    assert_eq!(m.find(a), None);
    assert_eq!(m.record_created(a, Some(MessageLoop::new(5))), (true, None));
    assert_eq!(m.record_created(a, Some(MessageLoop::new(6))), (true, Some(MessageLoop::new(5))));
}

#[test]
fn failed_callback_ends_only_its_instance() {
    let mut m = Instances::new();
    let a = Instance::new(1);
    let b = Instance::new(2);
    m.insert(a, MessageLoop::new(10));
    m.insert(b, MessageLoop::new(20));
    assert!(m.try_block(Some(a), true));
    assert_eq!(m.find(a), Some(MessageLoop::new(10)));
    assert!(!m.try_block(Some(a), false));
    assert_eq!(m.find(a), None);
    assert_eq!(m.find(b), Some(MessageLoop::new(20)));
    assert!(!m.try_block(None, false));
    assert_eq!(m.find(b), Some(MessageLoop::new(20)));
}

#[test]
fn instance_thread_decisions() {
    let ml = MessageLoop::new(3);
    assert_eq!(instance_thread_report(ml, Code::Success, true), Some(ml));
    assert_eq!(instance_thread_report(ml, Code::Success, false), None);
    assert_eq!(instance_thread_report(ml, Code::Failed, true), None);
    assert_eq!(loop_exit(Code::Success, false), LoopExit::RemoveInstance);
    assert_eq!(loop_exit(Code::Success, true), LoopExit::StillAttached);
    assert_eq!(loop_exit(Code::BadArgument, false), LoopExit::Failed(Code::BadArgument));
}

#[test]
fn input_events_classified_in_order() {
    assert_eq!(classify_input_event(1, 1, 0, 0, 0), Some(InputEventKind::Mouse));
    assert_eq!(classify_input_event(0, 1, 1, 0, 0), Some(InputEventKind::Keyboard));
    assert_eq!(classify_input_event(0, 0, 1, 1, 0), Some(InputEventKind::Wheel));
    assert_eq!(classify_input_event(0, 0, 0, 1, 1), Some(InputEventKind::Touch));
    assert_eq!(classify_input_event(0, 0, 0, 0, 1), Some(InputEventKind::IME));
    assert_eq!(classify_input_event(0, 0, 0, 0, 0), None);
    assert_eq!(input_event_answer(Some(true)), ffi::PP_TRUE);
    assert_eq!(input_event_answer(Some(false)), ffi::PP_FALSE);
    assert_eq!(input_event_answer(None), ffi::PP_FALSE);
}

#[test]
fn module_and_load_answers() {
    assert_eq!(module_init_result(true), ffi::PP_OK);
    assert_eq!(module_init_result(false), 1);
    assert_eq!(mount(0), Code::Success);
    assert_eq!(mount(-1), Code::Failed);
    assert_eq!(mount(-7), Code::Failed);
    assert_eq!(document_load_answer(false, Some(Some(true))), ffi::PP_FALSE);
    assert_eq!(document_load_answer(true, Some(Some(true))), ffi::PP_TRUE);
    assert_eq!(document_load_answer(true, Some(None)), ffi::PP_FALSE);
    assert_eq!(document_load_answer(true, None), ffi::PP_FALSE);
}

#[test]
fn failed_callback_with_value_ends_instance() {
    let mut m = Instances::new();
    let a = Instance::new(1);
    m.insert(a, MessageLoop::new(10));
    assert_eq!(m.try_block_with_ret(Some(a), Some(5)), Some(5));
    assert_eq!(m.find(a), Some(MessageLoop::new(10)));
    assert_eq!(m.try_block_with_ret::<i32>(Some(a), None), None);
    assert_eq!(m.find(a), None);
}

#[test]
fn browser_calls_name_their_query() {
    let v = View(7);
    assert_eq!(v.is_page_visible_call(), BrowserCall::IsPageVisible(7));
    assert_eq!(v.is_visible_call(), BrowserCall::IsVisible(7));
    assert_eq!(v.clip_rect_call(), BrowserCall::GetClipRect(7));
    assert_eq!(v.rect_call(), BrowserCall::GetRect(7));
    assert_eq!(v.is_fullscreen_call(), BrowserCall::IsFullscreen(7));
    let ml = MessageLoop(3);
    assert_eq!(ml.pause_loop_call(), BrowserCall::PostQuit(3, ffi::PP_FALSE));
    assert_eq!(ml.shutdown_call(), BrowserCall::PostQuit(3, ffi::PP_TRUE));
    let i = Instance::new(5);
    assert_eq!(i.request_input_events_call(1), BrowserCall::RequestInputEvents(5, 1));
    assert_eq!(i.request_filtering_input_events_call(2), BrowserCall::RequestFilteringInputEvents(5, 2));
    assert_eq!(i.clear_input_event_request(4), BrowserCall::ClearInputEventRequest(5, 4));
}
