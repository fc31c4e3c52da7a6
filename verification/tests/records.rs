use chakra_context::context::Context;
use chakra_context::data::ContextData;
use chakra_context::error::{EngineError, NO_ERROR};
use chakra_context::runtime::Runtime;
use chakra_context::value::Function;

fn hosted(runtime: &mut Runtime, reference: usize) -> Context {
    let context = Context::from_raw(reference);
    assert_eq!(context.set_data(runtime, ContextData::new(), NO_ERROR), Ok(()));
    context
}

#[derive(Debug, PartialEq)]
struct Name(String);

#[test]
fn user_data_is_absent_until_inserted() {
    let mut runtime = Runtime::new();
    let context = hosted(&mut runtime, 0x1000);
    assert_eq!(context.get_user_data::<i32>(&runtime), None);
    assert_eq!(context.get_user_data_mut::<i32>(&mut runtime), None);
    assert_eq!(context.remove_user_data::<i32>(&mut runtime), None);
}

#[test]
fn insert_replaces_the_value_of_the_same_type() {
    let mut runtime = Runtime::new();
    let context = hosted(&mut runtime, 0x1000);
    assert_eq!(context.insert_user_data(&mut runtime, 1_i32), None);
    assert_eq!(context.insert_user_data(&mut runtime, 2_i32), Some(1));
    assert_eq!(context.get_user_data::<i32>(&runtime), Some(&2));
    assert_eq!(context.remove_user_data::<i32>(&mut runtime), Some(2));
    assert_eq!(context.remove_user_data::<i32>(&mut runtime), None);
    assert_eq!(context.get_user_data::<i32>(&runtime), None);
}

#[test]
fn values_of_different_types_do_not_touch_each_other() {
    let mut runtime = Runtime::new();
    let context = hosted(&mut runtime, 0x1000);
    assert_eq!(context.insert_user_data(&mut runtime, 7_i32), None);
    assert_eq!(context.insert_user_data(&mut runtime, 8_u32), None);
    assert_eq!(context.insert_user_data(&mut runtime, Name(String::from("a"))), None);

    assert_eq!(context.get_user_data::<i32>(&runtime), Some(&7));
    assert_eq!(context.get_user_data::<u32>(&runtime), Some(&8));
    assert_eq!(context.get_user_data::<Name>(&runtime), Some(&Name(String::from("a"))));

    assert_eq!(context.remove_user_data::<u32>(&mut runtime), Some(8));
    assert_eq!(context.get_user_data::<i32>(&runtime), Some(&7));
    assert_eq!(context.get_user_data::<u32>(&runtime), None);
    assert_eq!(
        context.insert_user_data(&mut runtime, Name(String::from("b"))),
        Some(Name(String::from("a")))
    );
    assert_eq!(context.get_user_data::<i32>(&runtime), Some(&7));
}

#[test]
fn user_data_can_be_changed_in_place() {
    let mut runtime = Runtime::new();
    let context = hosted(&mut runtime, 0x1000);
    context.insert_user_data(&mut runtime, Name(String::from("foo")));
    if let Some(name) = context.get_user_data_mut::<Name>(&mut runtime) {
        name.0.push('t');
    }
    assert_eq!(context.get_user_data::<Name>(&runtime), Some(&Name(String::from("foot"))));
    *context.get_user_data_mut::<Name>(&mut runtime).unwrap() = Name(String::from("bar"));
    assert_eq!(context.remove_user_data::<Name>(&mut runtime), Some(Name(String::from("bar"))));
}

#[test]
fn user_data_belongs_to_one_context() {
    let mut runtime = Runtime::new();
    let first = hosted(&mut runtime, 0x1000);
    let second = hosted(&mut runtime, 0x2000);
    assert_eq!(first.insert_user_data(&mut runtime, 1_i32), None);
    assert_eq!(second.get_user_data::<i32>(&runtime), None);
    assert_eq!(second.insert_user_data(&mut runtime, 2_i32), None);
    assert_eq!(first.get_user_data::<i32>(&runtime), Some(&1));
    assert_eq!(second.remove_user_data::<i32>(&mut runtime), Some(2));
    assert_eq!(first.get_user_data::<i32>(&runtime), Some(&1));
}

#[test]
fn user_data_is_seen_through_every_copy_of_the_handle() {
    let mut runtime = Runtime::new();
    let context = hosted(&mut runtime, 0x1000);
    context.insert_user_data(&mut runtime, 3.5_f64);
    let copy = Context::from_raw(context.as_raw());
    assert_eq!(copy.get_user_data::<f64>(&runtime), Some(&3.5));
}

#[test]
fn user_data_survives_make_current_cycles() {
    let mut runtime = Runtime::new();
    let context = hosted(&mut runtime, 0x1000);
    context.insert_user_data(&mut runtime, 99_u64);
    for _ in 0..3 {
        let guard = context.make_current(&mut runtime, NO_ERROR).unwrap();
        assert_eq!(guard.context().get_user_data::<u64>(&runtime), Some(&99));
        guard.release(&mut runtime, NO_ERROR);
    }
    assert_eq!(context.get_user_data::<u64>(&runtime), Some(&99));
}

#[test]
fn refused_attachment_leaves_the_context_without_a_record() {
    let mut runtime = Runtime::new();
    let context = Context::from_raw(0x1000);
    assert_eq!(
        context.set_data(&mut runtime, ContextData::new(), 0x10001),
        Err(EngineError { code: 0x10001 })
    );
    assert!(!runtime.is_hosted(&context));
    assert_eq!(context.set_data(&mut runtime, ContextData::new(), NO_ERROR), Ok(()));
    assert!(runtime.is_hosted(&context));
}

#[test]
fn attaching_again_replaces_the_record() {
    let mut runtime = Runtime::new();
    let context = hosted(&mut runtime, 0x1000);
    let other = hosted(&mut runtime, 0x2000);
    context.insert_user_data(&mut runtime, 1_i32);
    other.insert_user_data(&mut runtime, 2_i32);
    context.promise_handler(&mut runtime, Function::from_raw(1));

    let mut data = ContextData::new();
    data.push_task(Function::from_raw(9));
    assert_eq!(context.set_data(&mut runtime, data, NO_ERROR), Ok(()));

    assert_eq!(context.get_user_data::<i32>(&runtime), None);
    assert_eq!(other.get_user_data::<i32>(&runtime), Some(&2));
    let guard = context.make_current(&mut runtime, NO_ERROR).unwrap();
    assert_eq!(guard.next_task(&mut runtime), Some(Function::from_raw(9)));
    assert_eq!(guard.next_task(&mut runtime), None);
    guard.release(&mut runtime, NO_ERROR);
}

#[test]
fn record_queue_is_last_in_first_out() {
    let mut data = ContextData::new();
    assert_eq!(data.pop_task(), None);
    data.push_task(Function::from_raw(1));
    data.push_task(Function::from_raw(2));
    data.push_task(Function::from_raw(3));
    assert_eq!(data.pop_task(), Some(Function::from_raw(3)));
    data.push_task(Function::from_raw(4));
    assert_eq!(data.pop_task(), Some(Function::from_raw(4)));
    assert_eq!(data.pop_task(), Some(Function::from_raw(2)));
    assert_eq!(data.pop_task(), Some(Function::from_raw(1)));
    assert_eq!(data.pop_task(), None);
}

#[test]
fn record_keeps_user_data_apart_from_tasks() {
    let mut data = ContextData::new();
    assert_eq!(data.insert_user_data(10_i32), None);
    data.push_task(Function::from_raw(1));
    assert_eq!(data.insert_user_data(20_i32), Some(10));
    assert_eq!(data.get_user_data::<i32>(), Some(&20));
    assert_eq!(data.pop_task(), Some(Function::from_raw(1)));
    *data.get_user_data_mut::<i32>().unwrap() += 1;
    assert_eq!(data.remove_user_data::<i32>(), Some(21));
    assert_eq!(data.get_user_data::<i32>(), None);
}

#[test]
fn tasks_run_last_queued_first() {
    let mut runtime = Runtime::new();
    let context = hosted(&mut runtime, 0x1000);
    let t1 = Function::from_raw(0xa1);
    let t2 = Function::from_raw(0xa2);
    context.promise_handler(&mut runtime, t1);
    context.promise_handler(&mut runtime, t2);

    let guard = context.make_current(&mut runtime, NO_ERROR).unwrap();
    assert_eq!(guard.next_task(&mut runtime), Some(t2));
    assert_eq!(guard.next_task(&mut runtime), Some(t1));
    assert_eq!(guard.next_task(&mut runtime), None);
    assert_eq!(guard.next_task(&mut runtime), None);
    guard.release(&mut runtime, NO_ERROR);
}

#[test]
fn task_queued_by_a_running_task_runs_before_the_waiting_ones() {
    let mut runtime = Runtime::new();
    let context = hosted(&mut runtime, 0x1000);
    let t1 = Function::from_raw(0xa1);
    let t2 = Function::from_raw(0xa2);
    let t3 = Function::from_raw(0xa3);
    context.promise_handler(&mut runtime, t1);
    context.promise_handler(&mut runtime, t2);

    let guard = context.make_current(&mut runtime, NO_ERROR).unwrap();
    let mut ran: Vec<Function> = Vec::new();
    while let Some(task) = guard.next_task(&mut runtime) {
        ran.push(task);
        // Running `t2` queues `t3`.
        if task == t2 {
            guard.context().promise_handler(&mut runtime, t3);
        }
    }
    assert_eq!(ran, vec![t2, t3, t1]);
    assert_eq!(guard.next_task(&mut runtime), None);
    guard.release(&mut runtime, NO_ERROR);
}

#[test]
fn tasks_of_one_context_do_not_run_under_another() {
    let mut runtime = Runtime::new();
    let first = hosted(&mut runtime, 0x1000);
    let second = hosted(&mut runtime, 0x2000);
    first.promise_handler(&mut runtime, Function::from_raw(1));

    let guard = second.make_current(&mut runtime, NO_ERROR).unwrap();
    assert_eq!(guard.next_task(&mut runtime), None);
    guard.release(&mut runtime, NO_ERROR);

    let guard = first.make_current(&mut runtime, NO_ERROR).unwrap();
    assert_eq!(guard.next_task(&mut runtime), Some(Function::from_raw(1)));
    guard.release(&mut runtime, NO_ERROR);
}

#[test]
fn observing_guard_takes_tasks_too() {
    let mut runtime = Runtime::new();
    let context = hosted(&mut runtime, 0x1000);
    context.promise_handler(&mut runtime, Function::from_raw(5));
    let guard = context.make_current(&mut runtime, NO_ERROR).unwrap();
    let observer = Context::get_current(&runtime).unwrap();
    assert_eq!(observer.next_task(&mut runtime), Some(Function::from_raw(5)));
    observer.release(&mut runtime, NO_ERROR);
    guard.release(&mut runtime, NO_ERROR);
}

#[test]
fn function_handles_round_trip() {
    let function = Function::from_raw(0x1234);
    assert_eq!(function.as_raw(), 0x1234);
    assert_eq!(function, Function::from_raw(0x1234));
}

#[test]
fn get_data_reaches_the_record_of_the_context() {
    let mut runtime = Runtime::new();
    let first = hosted(&mut runtime, 0x1000);
    let second = hosted(&mut runtime, 0x2000);
    first.get_data(&mut runtime).push_task(Function::from_raw(1));
    second.get_data(&mut runtime).push_task(Function::from_raw(2));
    assert_eq!(first.get_data(&mut runtime).pop_task(), Some(Function::from_raw(1)));
    assert_eq!(first.get_data(&mut runtime).pop_task(), None);
    assert_eq!(second.get_data(&mut runtime).pop_task(), Some(Function::from_raw(2)));
}

#[test]
fn runtime_keeps_one_record_for_each_context() {
    let mut runtime = Runtime::new();
    let first = Context::from_raw(0x1000);
    let second = Context::from_raw(0x2000);

    let mut data = ContextData::new();
    data.push_task(Function::from_raw(1));
    runtime.attach(first, data);
    runtime.attach(second, ContextData::new());
    assert!(runtime.is_hosted(&first));
    assert!(runtime.is_hosted(&second));
    assert_eq!(runtime.data_mut(&second).pop_task(), None);
    assert_eq!(runtime.data(&first).get_user_data::<i32>(), None);

    let mut taken = runtime.detach(&first).unwrap();
    assert_eq!(taken.pop_task(), Some(Function::from_raw(1)));
    assert!(!runtime.is_hosted(&first));
    assert!(runtime.is_hosted(&second));
    assert!(runtime.detach(&first).is_none());
    assert!(runtime.detach(&second).is_some());
    assert!(!runtime.is_hosted(&second));
}

#[test]
fn runtime_follows_the_engine_slot() {
    let mut runtime = Runtime::new();
    runtime.set_current(0x3000);
    assert_eq!(runtime.current_context(), Some(Context::from_raw(0x3000)));
    runtime.set_current(0);
    assert_eq!(runtime.current_context(), None);
}
