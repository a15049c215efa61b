use grust::cast::AsFile;
use grust::error::Match;
use grust::gio::{File, FileInputStream, IOErrorEnum, InputStream};
use grust::mainloop::LoopRunner;
use grust::object::{Ref, cast, is_instance_of};
use grust::runtime::Runtime;
use grust::value::Value;

#[test]
fn as_file() {
    let mut rt = Runtime::new();
    let f = File::new_for_path(&mut rt, "/dev/null");
    let g = f.borrow().as_file();
    let path = g.get_path(&rt);
    assert_eq!(path, "/dev/null");
}

#[test]
fn deref() {
    let mut rt = Runtime::new();
    let f = File::new_for_path(&mut rt, "/dev/null");
    let path = f.borrow().get_path(&rt);
    assert_eq!(path, "/dev/null");
}

#[test]
fn new_ref() {
    let mut rt = Runtime::new();
    let f = File::new_for_path(&mut rt, "/dev/null");
    let g = Ref::new(&mut rt, &f.borrow());
    let path = g.borrow().get_path(&rt);
    assert_eq!(path, "/dev/null");
}

#[test]
fn clone() {
    let mut rt = Runtime::new();
    let rf = File::new_for_path(&mut rt, "/dev/null");
    let rg = rf.clone_ref(&mut rt);
    let path = rg.borrow().get_path(&rt);
    assert_eq!(path, "/dev/null");
}

#[test]
fn cast_fail() {
    let mut rt = Runtime::new();
    let rf = File::new_for_path(&mut rt, "/dev/null");
    let r: Option<FileInputStream> = cast(&rt, &rf.borrow());
    assert!(r.is_none());
}

#[test]
fn async_read() {
    let mut rt = Runtime::new();
    rt.provide_file("/dev/null");
    let runner = LoopRunner::new(&mut rt);
    let mainloop = runner.main_loop();
    let f = File::new_for_path(&mut rt, "/dev/null");
    f.borrow().read_async(&mut rt, 0, None);
    let events = runner.run_after(&mut rt);
    assert_eq!(events.len(), 1);
    for ev in &events {
        let file: Option<File> = cast(&rt, &ev.source);
        let file = file.unwrap();
        match file.read_finish(&mut rt, &ev.res) {
            Ok(stream) => {
                assert!(is_instance_of::<FileInputStream, InputStream>(&rt, &stream.borrow()));
            }
            Err(e) => {
                println!("Error: {}", e.message());
            }
        }
        mainloop.quit(&mut rt);
    }
    runner.destroy(&mut rt);
}

#[test]
fn error_into_domain() {
    let mut rt = Runtime::new();
    let runner = LoopRunner::new(&mut rt);
    let mainloop = runner.main_loop();
    let f = File::new_for_path(&mut rt, "./does-not-exist");
    f.borrow().read_async(&mut rt, 0, None);
    let events = runner.run_after(&mut rt);
    assert_eq!(events.len(), 1);
    for ev in &events {
        let file: Option<File> = cast(&rt, &ev.source);
        let file = file.unwrap();
        match file.read_finish(&mut rt, &ev.res) {
            Ok(_) => unreachable!(),
            Err(e) => match IOErrorEnum::from_error(&e) {
                Match::Known(code) => {
                    assert_eq!(code, IOErrorEnum::NotFound);
                }
                _ => unreachable!(),
            },
        }
        mainloop.quit(&mut rt);
    }
    runner.destroy(&mut rt);
}

#[test]
fn value_enum() {
    let mut rt = Runtime::new();
    let runner = LoopRunner::new(&mut rt);
    let mainloop = runner.main_loop();
    let f = File::new_for_path(&mut rt, "./does-not-exist");
    f.borrow().read_async(&mut rt, 0, None);
    let events = runner.run_after(&mut rt);
    assert_eq!(events.len(), 1);
    let ev = events[0];
    let file: Option<File> = cast(&rt, &ev.source);
    let file = file.unwrap();
    let err = file.read_finish(&mut rt, &ev.res).err().unwrap();
    let code = match IOErrorEnum::from_error(&err) {
        Match::Known(c) => c,
        _ => unreachable!(),
    };
    let gtype = IOErrorEnum::get_type(&mut rt);
    let mut value = Value::new(&rt, gtype);
    value.set_enum(code);
    let value = value.clone();
    assert_eq!(value.get_enum(), Some(IOErrorEnum::NotFound));
    mainloop.quit(&mut rt);
    runner.destroy(&mut rt);
}
