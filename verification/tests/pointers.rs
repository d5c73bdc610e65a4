use efi::pointers::{EfiBs, EfiRt, OwnedPtr};

#[test]
fn pointer_from_the_null_address_is_null_every_time() {
    for referent in 0u32..16 {
        let pointer = OwnedPtr::new_unchecked(0, referent);
        assert!(pointer.is_null());
        assert_eq!(pointer.address(), 0);
    }
    let again: OwnedPtr<&str> = OwnedPtr::new_unchecked(0, "anything");
    assert!(again.is_null());
    assert!(again.is_null());
}

#[test]
fn null_pointer_is_null() {
    let pointer: OwnedPtr<u64> = OwnedPtr::null();
    assert!(pointer.is_null());
    assert_eq!(pointer.address(), 0);
}

#[test]
fn pointer_from_an_address_gives_its_referent() {
    let pointer = OwnedPtr::new_unchecked(0x8000, 42u64);
    assert!(!pointer.is_null());
    assert_eq!(pointer.address(), 0x8000);
    assert_eq!(*pointer.deref(), 42);
    assert_eq!(*pointer.deref(), 42);
}

#[test]
fn boot_services_pointer() {
    let null: EfiBs<u8> = EfiBs::new();
    assert!(null.is_null());
    assert_eq!(null.address(), 0);
    let also_null = EfiBs::new_unchecked(0, 9u8);
    assert!(also_null.is_null());
    let pointer = EfiBs::new_unchecked(0x4000, 9u8);
    assert!(!pointer.is_null());
    assert_eq!(pointer.address(), 0x4000);
    assert_eq!(*pointer.deref(), 9);
}

#[test]
fn runtime_pointer() {
    let null = EfiRt::new_unchecked(0, 1u16);
    assert!(null.is_null());
    let pointer = EfiRt::new_unchecked(0x7000, 0x41u16);
    assert!(!pointer.is_null());
    assert_eq!(pointer.address(), 0x7000);
    assert_eq!(*pointer.deref(), 0x41);
}
