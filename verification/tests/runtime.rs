use efi::runtime::{initialized, referenced, SystemTableWrapper};
use efi::types::Status;

#[test]
fn an_empty_slot_takes_the_table() {
    assert_eq!(initialized(None, 7u32), (Some(7), Ok(())));
}

#[test]
fn a_full_slot_keeps_its_table() {
    assert_eq!(initialized(Some(7u32), 8), (Some(7), Err(Status::AlreadyStarted)));
}

#[test]
fn a_read_before_a_table_was_stored_fails() {
    assert_eq!(referenced::<u32>(None), Err(Status::NotStarted));
    assert_eq!(referenced(Some(7u32)), Ok(7));
}

#[test]
fn wrapper_is_empty_until_set() {
    let wrapper: SystemTableWrapper<usize> = SystemTableWrapper::new();
    assert_eq!(wrapper.get(), Err(Status::NotStarted));
    assert_eq!(wrapper.get(), Err(Status::NotStarted));
}

#[test]
fn wrapper_is_set_once_and_read_many_times() {
    let wrapper: SystemTableWrapper<usize> = SystemTableWrapper::new();
    assert_eq!(wrapper.set(0x7000), Ok(()));
    assert_eq!(wrapper.get(), Ok(0x7000));
    assert_eq!(wrapper.get(), Ok(0x7000));
    assert_eq!(wrapper.set(0x8000), Err(Status::AlreadyStarted));
    assert_eq!(wrapper.get(), Ok(0x7000));
}

#[test]
fn wrapper_holds_a_reference() {
    let table = String::from("system table");
    let wrapper: SystemTableWrapper<&String> = SystemTableWrapper::new();
    assert_eq!(wrapper.set(&table), Ok(()));
    assert_eq!(wrapper.get().unwrap().as_str(), "system table");
}
