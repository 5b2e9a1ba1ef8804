//! What the plugin decides when the browser calls into it: reading an
//! instance's arguments, keeping the table of live instances and their
//! message loops, and sorting input events into their classes.
//!
//! The calls themselves, the threads they start and the user callbacks they
//! run are made around these functions, which take what came back.

use vstd::prelude::*;
use std::collections::HashMap;
use crate::ffi;
use crate::ffi::{PP_Bool, PP_Instance};
use crate::code::Code;
use crate::instance::{Instance, MessageLoop};

verus! {

broadcast use vstd::std_specs::hash::group_hash_axioms;

/// How many argument pairs are read for a count the browser gives: the
/// count, and one pair when it is zero.
pub open spec fn arg_count(argc: u32) -> int {
    if argc == 0 { 1 } else { argc as int }
}

/// The arguments as a map from name to value: each pair in turn, a later
/// pair replacing an earlier one of the same name.
pub open spec fn args_map(keys: Seq<String>, values: Seq<String>, n: int) -> Map<Seq<char>, Seq<char>>
    decreases n,
{
    if n <= 0 {
        Map::empty()
    } else {
        args_map(keys, values, n - 1).insert(keys[n - 1]@, values[n - 1]@)
    }
}

/// Whether a list of name and value pairs is exactly a map, each name once.
pub open spec fn pairs_are_map(r: Seq<(String, String)>, m: Map<Seq<char>, Seq<char>>) -> bool {
    &&& forall|a: int, b: int| 0 <= a < b < r.len() ==> r[a].0@ != r[b].0@
    &&& forall|i: int| 0 <= i < r.len() ==> m.contains_key((#[trigger] r[i]).0@) && m[r[i].0@] == r[i].1@
    &&& forall|k: Seq<char>| #[trigger] m.contains_key(k) ==> exists|i: int| 0 <= i < r.len() && (#[trigger] r[i]).0@ == k
}

/// Where a name is in a list of pairs, if it is there.
fn key_index(r: &Vec<(String, String)>, key: &String) -> (j: Option<usize>)
    ensures
        match j {
            Some(j) => j < r@.len() && r@[j as int].0@ == key@,
            None => forall|a: int| 0 <= a < r@.len() ==> (#[trigger] r@[a]).0@ != key@,
        },
{
    let mut j: usize = 0;
    while j < r.len()
        invariant
            j <= r@.len(),
            forall|a: int| 0 <= a < j ==> (#[trigger] r@[a]).0@ != key@,
        decreases r@.len() - j,
    {
        if r[j].0 == *key {
            return Some(j);
        }
        j = j + 1;
    }
    None
}

/// The arguments of an instance: `keys` and `values` are the texts of the
/// names and values the browser gave with `argc`. When `argc` is zero the
/// first pair is still read.
pub fn parse_args(argc: u32, keys: &Vec<String>, values: &Vec<String>) -> (r: Vec<(String, String)>)
    requires
        keys@.len() >= arg_count(argc),
        values@.len() >= arg_count(argc),
    ensures
        pairs_are_map(r@, args_map(keys@, values@, arg_count(argc))),
{
    let n: usize = if argc == 0 { 1 } else { argc as usize };
    let mut r: Vec<(String, String)> = Vec::new();
    let mut i: usize = 0;
    while i < n
        invariant
            n == arg_count(argc),
            i <= n,
            keys@.len() >= n,
            values@.len() >= n,
            pairs_are_map(r@, args_map(keys@, values@, i as int)),
        decreases n - i,
    {
        let key = keys[i].clone();
        let value = values[i].clone();
        let ghost old_r = r@;
        let ghost old_m = args_map(keys@, values@, i as int);
        let ghost m = args_map(keys@, values@, i + 1);
        proof {
            assert(m == old_m.insert(key@, value@));
        }
        match key_index(&r, &key) {
            Some(j) => {
                r.set(j, (key, value));
                proof {
                    assert forall|a: int, b: int| 0 <= a < b < r@.len() implies r@[a].0@ != r@[b].0@ by {
                        assert(old_r[a].0@ != old_r[b].0@);
                    }
                    assert forall|x: int| 0 <= x < r@.len() implies
                        m.contains_key((#[trigger] r@[x]).0@) && m[r@[x].0@] == r@[x].1@ by {
                        if x != j {
                            assert(old_r[x].0@ != old_r[j as int].0@ || x == j);
                        }
                    }
                    assert forall|k: Seq<char>| #[trigger] m.contains_key(k) implies
                        exists|x: int| 0 <= x < r@.len() && (#[trigger] r@[x]).0@ == k by {
                        if k == key@ {
                            assert(r@[j as int].0@ == k);
                        } else {
                            assert(old_m.contains_key(k));
                            let x = choose|x: int| 0 <= x < old_r.len() && (#[trigger] old_r[x]).0@ == k;
                            assert(r@[x].0@ == k);
                        }
                    }
                }
            },
            None => {
                r.push((key, value));
                proof {
                    assert forall|a: int, b: int| 0 <= a < b < r@.len() implies r@[a].0@ != r@[b].0@ by {
                        if b < old_r.len() {
                            assert(old_r[a].0@ != old_r[b].0@);
                        }
                    }
                    assert forall|x: int| 0 <= x < r@.len() implies
                        m.contains_key((#[trigger] r@[x]).0@) && m[r@[x].0@] == r@[x].1@ by {
                        if x < old_r.len() {
                            assert(r@[x] == old_r[x]);
                            assert(old_m.contains_key(old_r[x].0@));
                        }
                    }
                    assert forall|k: Seq<char>| #[trigger] m.contains_key(k) implies
                        exists|x: int| 0 <= x < r@.len() && (#[trigger] r@[x]).0@ == k by {
                        if k == key@ {
                            assert(r@[r@.len() - 1].0@ == k);
                        } else {
                            assert(old_m.contains_key(k));
                            let x = choose|x: int| 0 <= x < old_r.len() && (#[trigger] old_r[x]).0@ == k;
                            assert(r@[x] == old_r[x]);
                        }
                    }
                }
            },
        }
        i = i + 1;
    }
    r
}

/// The value of an argument, if it was given.
pub fn find_arg(args: &Vec<(String, String)>, name: &String) -> (r: Option<String>)
    ensures
        match r {
            Some(v) => exists|i: int| 0 <= i < args@.len() && (#[trigger] args@[i]).0@ == name@ && args@[i].1@ == v@,
            None => forall|i: int| 0 <= i < args@.len() ==> (#[trigger] args@[i]).0@ != name@,
        },
{
    let mut i: usize = 0;
    while i < args.len()
        invariant
            i <= args@.len(),
            forall|a: int| 0 <= a < i ==> (#[trigger] args@[a]).0@ != name@,
        decreases args@.len() - i,
    {
        if args[i].0 == *name {
            let v = args[i].1.clone();
            assert(args@[i as int].0@ == name@);
            return Some(v);
        }
        i = i + 1;
    }
    None
}

/// The live instances, each with the message loop of its thread.
pub struct Instances {
    pub map: HashMap<PP_Instance, MessageLoop>,
}

impl View for Instances {
    type V = Map<PP_Instance, MessageLoop>;

    open spec fn view(&self) -> Map<PP_Instance, MessageLoop> {
        self.map@
    }
}

impl Instances {
    pub fn new() -> (s: Instances)
        ensures s@ == Map::<PP_Instance, MessageLoop>::empty(),
    {
        Instances { map: HashMap::new() }
    }

    /// Records an instance's loop, and gives back the loop it replaces.
    pub fn insert(&mut self, instance: Instance, ml: MessageLoop) -> (last: Option<MessageLoop>)
        ensures
            final(self)@ == old(self)@.insert(instance.instance, ml),
            match last {
                Some(l) => old(self)@.contains_key(instance.instance) && l == old(self)@[instance.instance],
                None => !old(self)@.contains_key(instance.instance),
            },
    {
        self.map.insert(instance.instance, ml)
    }

    /// Forgets an instance, and gives back its loop if it had one.
    pub fn remove(&mut self, instance: Instance) -> (last: Option<MessageLoop>)
        ensures
            final(self)@ == old(self)@.remove(instance.instance),
            match last {
                Some(l) => old(self)@.contains_key(instance.instance) && l == old(self)@[instance.instance],
                None => !old(self)@.contains_key(instance.instance),
            },
    {
        self.map.remove(&instance.instance)
    }

    /// The loop of an instance, if it is live.
    pub fn find(&self, instance: Instance) -> (l: Option<MessageLoop>)
        ensures
            match l {
                Some(l) => self@.contains_key(instance.instance) && l == self@[instance.instance],
                None => !self@.contains_key(instance.instance),
            },
    {
        match self.map.get(&instance.instance) {
            Some(l) => Some(*l),
            None => None,
        }
    }

    /// Records a new instance once its thread has reported: `created` is
    /// the loop the thread sent, none when the thread failed to start the
    /// instance. Answers whether the instance was created, and the loop of
    /// an instance of the same handle that it replaced (which is to be
    /// destroyed).
    pub fn record_created(&mut self, instance: Instance, created: Option<MessageLoop>)
        -> (r: (bool, Option<MessageLoop>))
        ensures
            match created {
                Some(ml) => {
                    &&& r.0
                    &&& final(self)@ == old(self)@.insert(instance.instance, ml)
                    &&& match r.1 {
                        Some(l) => old(self)@.contains_key(instance.instance) && l == old(self)@[instance.instance],
                        None => !old(self)@.contains_key(instance.instance),
                    }
                },
                None => !r.0 && r.1 is None && final(self)@ == old(self)@,
            },
    {
        match created {
            Some(ml) => {
                let last = self.insert(instance, ml);
                (true, last)
            },
            None => (false, None),
        }
    }
}

/// The live instances after a callback ran for the running thread's
/// instance (`current`): when the callback did not run to its end, that
/// instance is forgotten; otherwise nothing changes.
pub open spec fn after_callback(m: Map<PP_Instance, MessageLoop>, current: Option<Instance>, completed: bool) -> Map<PP_Instance, MessageLoop> {
    match current {
        Some(i) => if completed { m } else { m.remove(i.instance) },
        None => m,
    }
}

impl Instances {
    /// Guards a callback into the plugin: `completed` is whether it ran to
    /// its end. A callback that fails ends its instance, which is
    /// forgotten, so that it does not take the other instances with it.
    pub fn try_block(&mut self, current: Option<Instance>, completed: bool) -> (ok: bool)
        ensures
            ok == completed,
            final(self)@ == after_callback(old(self)@, current, completed),
    {
        if !completed {
            match current {
                Some(inst) => { self.remove(inst); },
                None => {},
            }
        }
        completed
    }
}

impl Instances {
    /// Guards a callback into the plugin that gives back a value: `outcome`
    /// is its value when it ran to its end, none when it failed; a failing
    /// callback ends its instance as `try_block` says.
    pub fn try_block_with_ret<U>(&mut self, current: Option<Instance>, outcome: Option<U>) -> (r: Option<U>)
        ensures
            r == outcome,
            final(self)@ == after_callback(old(self)@, current, outcome is Some),
    {
        let completed = outcome.is_some();
        self.try_block(current, completed);
        outcome
    }
}

/// A callback of an instance that fails ends that instance, and only it:
/// afterwards the instance is not live, and every other instance is as it
/// was.
pub proof fn lemma_failed_callback_ends_instance(m: Map<PP_Instance, MessageLoop>, i: Instance, j: PP_Instance)
    ensures
        !after_callback(m, Some(i), false).contains_key(i.instance),
        j != i.instance ==> after_callback(m, Some(i), false).contains_key(j) == m.contains_key(j),
        j != i.instance && m.contains_key(j) ==> after_callback(m, Some(i), false)[j] == m[j],
        after_callback(m, Some(i), true) == m,
{
}

/// A loop recorded for an instance is found for it, until it is removed;
/// recording or removing one instance leaves every other as it was.
pub proof fn lemma_instances_insert_find(m: Map<PP_Instance, MessageLoop>, i: PP_Instance, j: PP_Instance, ml: MessageLoop)
    ensures
        m.insert(i, ml).contains_key(i) && m.insert(i, ml)[i] == ml,
        !m.insert(i, ml).remove(i).contains_key(i),
        i != j ==> (m.insert(i, ml).contains_key(j) == m.contains_key(j)),
        i != j && m.contains_key(j) ==> m.insert(i, ml)[j] == m[j],
        i != j ==> (m.remove(i).contains_key(j) == m.contains_key(j)),
{
}

/// What the thread of a new instance reports: its loop when the loop was
/// attached to the thread and the plugin's set-up of the instance ran to
/// its end, nothing otherwise.
pub fn instance_thread_report(ml: MessageLoop, attach: Code, setup_completed: bool) -> (r: Option<MessageLoop>)
    ensures r == if attach == Code::Success && setup_completed { Some(ml) } else { None::<MessageLoop> },
{
    match attach {
        Code::Success => if setup_completed { Some(ml) } else { None },
        _ => None,
    }
}

/// What an instance's thread does once its loop stops running.
#[derive(Clone, Copy, PartialEq, Eq, Structural, Debug)]
pub enum LoopExit {
    /// The loop stopped with an error: a programming error.
    Failed(Code),
    /// The loop was paused rather than shut down: a programming error.
    StillAttached,
    /// The loop was shut down: the instance is to be forgotten, on the main
    /// thread.
    RemoveInstance,
}

/// What to do when an instance's loop stops: `code` is what its run
/// returned, `attached` whether the thread still has a loop.
pub fn loop_exit(code: Code, attached: bool) -> (e: LoopExit)
    ensures
        code != Code::Success ==> e == LoopExit::Failed(code),
        code == Code::Success && attached ==> e == LoopExit::StillAttached,
        code == Code::Success && !attached ==> e == LoopExit::RemoveInstance,
{
    match code {
        Code::Success => if attached { LoopExit::StillAttached } else { LoopExit::RemoveInstance },
        _ => LoopExit::Failed(code),
    }
}

/// The classes of input events, by the interface that recognizes them.
#[derive(Clone, Copy, PartialEq, Eq, Structural, Debug, Hash)]
pub enum InputEventKind {
    Mouse,
    Keyboard,
    Wheel,
    Touch,
    IME,
}

/// The class of an event: the first interface, in the order mouse,
/// keyboard, wheel, touch, IME, whose `Is...InputEvent(event)` answers
/// true; none when none does.
pub open spec fn event_kind(is_mouse: PP_Bool, is_keyboard: PP_Bool, is_wheel: PP_Bool, is_touch: PP_Bool, is_ime: PP_Bool) -> Option<InputEventKind> {
    if is_mouse != 0 { Some(InputEventKind::Mouse) }
    else if is_keyboard != 0 { Some(InputEventKind::Keyboard) }
    else if is_wheel != 0 { Some(InputEventKind::Wheel) }
    else if is_touch != 0 { Some(InputEventKind::Touch) }
    else if is_ime != 0 { Some(InputEventKind::IME) }
    else { None }
}

/// Sorts an input event into its class from the answers of the five
/// `Is...InputEvent(event)` calls. An event of no class is a programming
/// error of the browser.
pub fn classify_input_event(is_mouse: PP_Bool, is_keyboard: PP_Bool, is_wheel: PP_Bool, is_touch: PP_Bool, is_ime: PP_Bool) -> (k: Option<InputEventKind>)
    ensures k == event_kind(is_mouse, is_keyboard, is_wheel, is_touch, is_ime),
{
    if is_mouse != 0 {
        Some(InputEventKind::Mouse)
    } else if is_keyboard != 0 {
        Some(InputEventKind::Keyboard)
    } else if is_wheel != 0 {
        Some(InputEventKind::Wheel)
    } else if is_touch != 0 {
        Some(InputEventKind::Touch)
    } else if is_ime != 0 {
        Some(InputEventKind::IME)
    } else {
        None
    }
}

/// The browser's answer to an input event: whether the plugin's handler
/// (if it has one) handled it.
pub fn input_event_answer(handled: Option<bool>) -> (b: PP_Bool)
    ensures b == if handled == Some(true) { ffi::PP_TRUE } else { ffi::PP_FALSE },
{
    match handled {
        Some(true) => ffi::PP_TRUE,
        _ => ffi::PP_FALSE,
    }
}

/// The result of loading the module: zero when its set-up ran to its end,
/// one otherwise.
pub fn module_init_result(setup_completed: bool) -> (r: i32)
    ensures r == if setup_completed { ffi::PP_OK } else { 1i32 },
{
    if setup_completed { ffi::PP_OK } else { 1 }
}

/// The code of mounting a file system: `reply` is what the C library's
/// `mount(source, target, type, 0, data)` returned; any negative answer is
/// a failure.
pub fn mount(reply: i32) -> (c: Code)
    ensures c == if reply >= 0 { Code::Success } else { Code::Failed },
{
    if reply >= 0 { Code::Success } else { Code::Failed }
}

/// The browser's answer when a document was loaded into an instance:
/// whether the plugin has a handler for it, and what running the handler
/// gave (none when it failed, `Some(None)` when the instance is not live).
pub fn document_load_answer(has_handler: bool, outcome: Option<Option<bool>>) -> (b: PP_Bool)
    ensures b == if has_handler && outcome == Some(Some(true)) { ffi::PP_TRUE } else { ffi::PP_FALSE },
{
    if !has_handler {
        return ffi::PP_FALSE;
    }
    match outcome {
        Some(Some(true)) => ffi::PP_TRUE,
        _ => ffi::PP_FALSE,
    }
}

/// An event's class is the first interface, in the order mouse, keyboard,
/// wheel, touch, IME, that recognizes it: it is a mouse event exactly when
/// the mouse interface says so, a keyboard event exactly when the keyboard
/// interface says so and the mouse interface does not, and so on; it has no
/// class exactly when no interface recognizes it.
pub proof fn lemma_event_kind_first_recognizer(m: PP_Bool, k: PP_Bool, w: PP_Bool, t: PP_Bool, i: PP_Bool)
    ensures
        event_kind(m, k, w, t, i) == Some(InputEventKind::Mouse) <==> m != 0,
        event_kind(m, k, w, t, i) == Some(InputEventKind::Keyboard) <==> m == 0 && k != 0,
        event_kind(m, k, w, t, i) == Some(InputEventKind::Wheel) <==> m == 0 && k == 0 && w != 0,
        event_kind(m, k, w, t, i) == Some(InputEventKind::Touch) <==> m == 0 && k == 0 && w == 0 && t != 0,
        event_kind(m, k, w, t, i) == Some(InputEventKind::IME) <==> m == 0 && k == 0 && w == 0 && t == 0 && i != 0,
        event_kind(m, k, w, t, i) is None <==> m == 0 && k == 0 && w == 0 && t == 0 && i == 0,
{
}

} // verus!
