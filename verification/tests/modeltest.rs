use grust::cast::AsInputStream;
use grust::object::AsObject;
use grust::error::{Error, Match, Quark};
use grust::flags::{FileAttributeInfoFlags, copy_when_moved, copy_with_file};
use grust::gio::{CANCELLED_CODE, Cancellable, File, FileInputStream, IOErrorEnum, InputStream};
use grust::gtype::TypeKey;
use grust::mainloop::LoopRunner;
use grust::object::{Object, ObjectType, Ref, cast};
use grust::runtime::Runtime;

#[test]
fn enum_round_trip() {
    assert_eq!(IOErrorEnum::from_int(IOErrorEnum::Failed.to_int()), Ok(IOErrorEnum::Failed));
    assert_eq!(IOErrorEnum::from_int(IOErrorEnum::NotFound.to_int()), Ok(IOErrorEnum::NotFound));
    assert_eq!(IOErrorEnum::from_int(IOErrorEnum::Exists.to_int()), Ok(IOErrorEnum::Exists));
}

#[test]
fn enum_unknown_keeps_code() {
    let e = IOErrorEnum::from_int(42).err().unwrap();
    assert_eq!(e.0, 42);
    let e = IOErrorEnum::from_int(-7).err().unwrap();
    assert_eq!(e.0, -7);
}

#[test]
fn enum_names() {
    assert_eq!(IOErrorEnum::Failed.name(), "failed");
    assert_eq!(IOErrorEnum::NotFound.name(), "not-found");
    assert_eq!(IOErrorEnum::Exists.name(), "exists");
}

#[test]
fn flags_debug_rendering() {
    assert_eq!(FileAttributeInfoFlags::empty().debug_string(), "FileAttributeInfoFlags()");
    assert_eq!(copy_with_file().debug_string(), "FileAttributeInfoFlags(COPY_WITH_FILE)");
    assert_eq!(copy_when_moved().debug_string(), "FileAttributeInfoFlags(COPY_WHEN_MOVED)");
    assert_eq!(
        copy_with_file().union(&copy_when_moved()).debug_string(),
        "FileAttributeInfoFlags(COPY_WITH_FILE|COPY_WHEN_MOVED)"
    );
}

#[test]
fn flags_round_trip_all_subsets() {
    for bits in 0u32..4 {
        let s = FileAttributeInfoFlags::from_uint(bits).unwrap();
        assert_eq!(FileAttributeInfoFlags::from_uint(s.to_uint()), Ok(s));
    }
}

#[test]
fn error_domain_outcomes_distinguishable() {
    let io = IOErrorEnum::error_domain();
    let same_domain_unknown = Error::new(io, 99, String::from("odd"));
    match IOErrorEnum::from_error(&same_domain_unknown) {
        Match::Unknown(code) => assert_eq!(code, 99),
        _ => unreachable!(),
    }
    let other = Error::new(Quark::from_name("g-file-error-quark"), 1, String::from("other"));
    assert!(matches!(IOErrorEnum::from_error(&other), Match::NotInDomain));
    let known = Error::new(IOErrorEnum::error_domain(), 2, String::from("exists"));
    assert!(matches!(IOErrorEnum::from_error(&known), Match::Known(IOErrorEnum::Exists)));
}

#[test]
fn refcount_clone_then_drop() {
    let mut rt = Runtime::new();
    let rf = File::new_for_path(&mut rt, "/dev/null");
    let id = rf.borrow().obj_id();
    assert_eq!(rt.objects[id].refcount, 1);
    let rg = rf.clone_ref(&mut rt);
    assert_eq!(rt.objects[id].refcount, 2);
    rf.unref(&mut rt);
    assert_eq!(rt.objects[id].refcount, 1);
    let path = rg.borrow().get_path(&rt);
    assert_eq!(path, "/dev/null");
    rg.unref(&mut rt);
    assert_eq!(rt.objects[id].refcount, 0);
}

#[test]
fn wrapped_view_reads_the_slot() {
    let mut rt = Runtime::new();
    let rf = File::new_for_path(&mut rt, "/tmp/somewhere");
    let raw = rf.borrow().obj_id();
    let view = File::wrap(raw);
    assert_eq!(view.get_path(&rt), "/tmp/somewhere");
    assert_eq!(rt.objects[raw].key, TypeKey::File);
}

#[test]
fn type_ids_memoized_and_distinct() {
    let mut rt = Runtime::new();
    let t1 = File::get_type(&mut rt);
    let t2 = File::get_type(&mut rt);
    assert_eq!(t1, t2);
    let s = InputStream::get_type(&mut rt);
    assert_ne!(t1, s);
    assert_eq!(File::get_type(&mut rt), t1);
}

#[test]
fn downcast_object_to_file() {
    let mut rt = Runtime::new();
    let rf = File::new_for_path(&mut rt, "/dev/null");
    let obj: Object = Object { id: rf.borrow().obj_id() };
    let back: Option<File> = cast(&rt, &obj);
    assert_eq!(back.unwrap().get_path(&rt), "/dev/null");
    let wrong: Option<Cancellable> = cast(&rt, &obj);
    assert!(wrong.is_none());
}

#[test]
fn capability_views_share_the_object() {
    let mut rt = Runtime::new();
    rt.provide_file("/dev/null");
    let runner = LoopRunner::new(&mut rt);
    let f = File::new_for_path(&mut rt, "/dev/null");
    f.borrow().read_async(&mut rt, 0, None);
    let events = runner.run_after(&mut rt);
    let stream: Ref<FileInputStream> =
        f.borrow().read_finish(&mut rt, &events[0].res).unwrap();
    let as_stream: InputStream = stream.borrow().as_input_stream();
    let as_obj: Object = stream.borrow().as_object();
    assert_eq!(as_stream.obj_id(), stream.borrow().obj_id());
    assert_eq!(as_obj.obj_id(), stream.borrow().obj_id());
    runner.destroy(&mut rt);
}

#[test]
fn completion_fires_exactly_once() {
    let mut rt = Runtime::new();
    rt.provide_file("/dev/null");
    let runner = LoopRunner::new(&mut rt);
    let mainloop = runner.main_loop();
    let f = File::new_for_path(&mut rt, "/dev/null");
    f.borrow().read_async(&mut rt, 0, None);
    let mut count = 0;
    let events = runner.run_after(&mut rt);
    for ev in &events {
        count += 1;
        let stream = f.borrow().read_finish(&mut rt, &ev.res).unwrap();
        stream.unref(&mut rt);
        mainloop.quit(&mut rt);
    }
    assert_eq!(count, 1);
    let again = runner.run_after(&mut rt);
    assert_eq!(again.len(), 0);
    runner.destroy(&mut rt);
}

#[test]
fn cancelled_read_surfaces_cancellation_error() {
    let mut rt = Runtime::new();
    rt.provide_file("/dev/null");
    let runner = LoopRunner::new(&mut rt);
    let f = File::new_for_path(&mut rt, "/dev/null");
    let c = Cancellable::new(&mut rt);
    f.borrow().read_async(&mut rt, 0, Some(&c.borrow()));
    c.borrow().cancel(&mut rt);
    let events = runner.run_after(&mut rt);
    assert_eq!(events.len(), 1);
    let err = f.borrow().read_finish(&mut rt, &events[0].res).err().unwrap();
    assert_eq!(err.code, CANCELLED_CODE);
    match IOErrorEnum::from_error(&err) {
        Match::Unknown(code) => assert_eq!(code, CANCELLED_CODE),
        _ => unreachable!(),
    }
    c.unref(&mut rt);
    runner.destroy(&mut rt);
}

#[test]
fn dispatch_preserves_start_order() {
    let mut rt = Runtime::new();
    rt.provide_file("/a");
    let runner = LoopRunner::new(&mut rt);
    let fa = File::new_for_path(&mut rt, "/a");
    let fb = File::new_for_path(&mut rt, "/b");
    fa.borrow().read_async(&mut rt, 0, None);
    fb.borrow().read_async(&mut rt, 1, None);
    let events = runner.run_after(&mut rt);
    assert_eq!(events.len(), 2);
    assert_eq!(events[0].source.obj_id(), fa.borrow().obj_id());
    assert_eq!(events[1].source.obj_id(), fb.borrow().obj_id());
    assert!(fa.borrow().read_finish(&mut rt, &events[0].res).is_ok());
    assert!(fb.borrow().read_finish(&mut rt, &events[1].res).is_err());
    runner.destroy(&mut rt);
}
