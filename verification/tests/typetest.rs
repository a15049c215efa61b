use grust::flags::{FileAttributeInfoFlags, copy_when_moved, copy_with_file, none};
use grust::runtime::Runtime;
use grust::value::Value;

#[test]
fn flags() {
    assert_eq!(none(), FileAttributeInfoFlags::empty());
    let flags = FileAttributeInfoFlags::from_uint(
        copy_with_file().bits() | copy_when_moved().bits(),
    )
    .unwrap();
    assert_eq!(flags, copy_with_file().union(&copy_when_moved()));
}

#[test]
fn unknown_flags() {
    let a = copy_with_file().bits() | 0b10000;
    let unknown_flags = FileAttributeInfoFlags::from_uint(a).err().unwrap();
    assert_eq!(unknown_flags.actual(), a);
    assert_eq!(unknown_flags.known(), copy_with_file().bits());
    assert_eq!(unknown_flags.unknown(), 0b10000);
}

#[test]
#[should_panic]
fn flags_unknown_panic() {
    let a = copy_with_file().bits() | 0b10000;
    let _ = FileAttributeInfoFlags::from_uint(a).unwrap();
}

#[test]
fn value_flags() {
    let mut rt = Runtime::new();
    let gtype = FileAttributeInfoFlags::get_type(&mut rt);
    let mut value = Value::new(&rt, gtype);
    let flags = value.get_flags().unwrap();
    assert_eq!(flags, FileAttributeInfoFlags::empty());
    value.set_flags(copy_with_file().union(&copy_when_moved()));
    let value = value.clone();
    let flags = value.get_flags().unwrap();
    assert_eq!(flags, copy_with_file().union(&copy_when_moved()));
}
