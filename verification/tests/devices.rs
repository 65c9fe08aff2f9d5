use primitiv::device::{device_ptr, set_default};
use primitiv::devices::{AnyDevice, Naive};
use primitiv::foreign::Kind;
use primitiv::library::Library;
use primitiv::status::{Code, Failure, NOT_SUPPORTED, OK};
use primitiv::wrap::{release, wrap_reply, Wrap};

#[test]
fn a_new_table_has_no_default_device() {
    let lib = Library::new();
    assert_eq!(lib.default_device(), 0);
}

#[test]
fn objects_get_addresses_in_order_from_one() {
    let mut lib = Library::new();
    let first = Naive::new(&mut lib).unwrap();
    let second = Naive::new(&mut lib).unwrap();
    assert_eq!(first.as_ptr(), 1);
    assert_eq!(second.as_ptr(), 2);
    assert!(first.is_owned());
    assert!(second.is_owned());
}

#[test]
fn set_default_installs_the_device() {
    let mut lib = Library::new();
    let mut device = Naive::new(&mut lib).unwrap();
    set_default(&mut lib, &mut device).unwrap();
    assert_eq!(lib.default_device(), device.as_ptr());
}

#[test]
fn a_later_default_takes_the_place_of_an_earlier_one() {
    let mut lib = Library::new();
    let mut first = Naive::new(&mut lib).unwrap();
    let mut second = Naive::new(&mut lib).unwrap();
    set_default(&mut lib, &mut first).unwrap();
    set_default(&mut lib, &mut second).unwrap();
    assert_eq!(lib.default_device(), second.as_ptr());
    set_default(&mut lib, &mut first).unwrap();
    assert_eq!(lib.default_device(), first.as_ptr());
}

#[test]
fn a_released_device_cannot_become_the_default() {
    let mut lib = Library::new();
    let mut kept = Naive::new(&mut lib).unwrap();
    let gone = Naive::new(&mut lib).unwrap();
    let addr = gone.as_ptr();
    set_default(&mut lib, &mut kept).unwrap();
    release(&mut lib, gone).unwrap();
    let mut dangling = AnyDevice::from_raw(addr, false).unwrap();
    match set_default(&mut lib, &mut dangling) {
        Err(Failure::Construction(status)) => {
            assert_eq!(status.raw(), NOT_SUPPORTED);
            assert_eq!(status.code(), Code::NotSupported);
            assert_eq!(
                status.message(),
                "the handle does not name a live object of the expected kind"
            );
        }
        other => panic!("{:?}", other),
    }
    assert_eq!(lib.default_device(), kept.as_ptr());
}

#[test]
fn an_object_of_another_kind_cannot_become_the_default() {
    let mut lib = Library::new();
    let param = primitiv::parameter::Parameter::new(&mut lib).unwrap();
    let mut wrong = AnyDevice::from_raw(param.as_ptr(), false).unwrap();
    assert!(matches!(
        set_default(&mut lib, &mut wrong),
        Err(Failure::Construction(_))
    ));
    assert_eq!(lib.default_device(), 0);
}

#[test]
fn releasing_an_owner_destroys_the_object_once() {
    let mut lib = Library::new();
    let device = Naive::new(&mut lib).unwrap();
    let addr = device.as_ptr();
    assert_eq!(lib.release_count(addr), 0);
    release(&mut lib, device).unwrap();
    assert_eq!(lib.release_count(addr), 1);
}

#[test]
fn releasing_a_view_destroys_nothing() {
    let mut lib = Library::new();
    let device = Naive::new(&mut lib).unwrap();
    let addr = device.as_ptr();
    let view = AnyDevice::from_raw(addr, false).unwrap();
    release(&mut lib, view).unwrap();
    assert_eq!(lib.release_count(addr), 0);
    let mut again = AnyDevice::from_raw(addr, false).unwrap();
    set_default(&mut lib, &mut again).unwrap();
    release(&mut lib, device).unwrap();
    assert_eq!(lib.release_count(addr), 1);
}

#[test]
fn a_second_destroy_is_refused_and_not_counted() {
    let mut lib = Library::new();
    let device = Naive::new(&mut lib).unwrap();
    let addr = device.as_ptr();
    release(&mut lib, device).unwrap();
    assert_eq!(lib.delete(addr, Kind::Device), NOT_SUPPORTED);
    assert_eq!(lib.release_count(addr), 1);
    let second_owner = AnyDevice::from_raw(addr, true).unwrap();
    assert!(matches!(
        release(&mut lib, second_owner),
        Err(Failure::Construction(_))
    ));
    assert_eq!(lib.release_count(addr), 1);
}

#[test]
fn releasing_one_object_leaves_the_others() {
    let mut lib = Library::new();
    let first = Naive::new(&mut lib).unwrap();
    let mut second = Naive::new(&mut lib).unwrap();
    release(&mut lib, first).unwrap();
    assert_eq!(lib.release_count(1), 1);
    assert_eq!(lib.release_count(2), 0);
    set_default(&mut lib, &mut second).unwrap();
}

#[test]
fn destroy_asks_for_the_right_kind() {
    let mut lib = Library::new();
    let device = Naive::new(&mut lib).unwrap();
    assert_eq!(lib.delete(device.as_ptr(), Kind::Parameter), NOT_SUPPORTED);
    assert_eq!(lib.delete(device.as_ptr(), Kind::Optimizer), NOT_SUPPORTED);
    assert_eq!(lib.delete(device.as_ptr(), Kind::Initializer), NOT_SUPPORTED);
    assert_eq!(lib.release_count(device.as_ptr()), 0);
    assert_eq!(lib.delete(device.as_ptr(), Kind::Device), OK);
    assert_eq!(lib.release_count(device.as_ptr()), 1);
}

#[test]
fn an_address_that_was_never_handed_out_is_refused() {
    let mut lib = Library::new();
    assert_eq!(lib.delete(0, Kind::Device), NOT_SUPPORTED);
    assert_eq!(lib.delete(1, Kind::Device), NOT_SUPPORTED);
    assert_eq!(lib.delete(usize::MAX, Kind::Device), NOT_SUPPORTED);
    assert_eq!(lib.release_count(0), 0);
    assert_eq!(lib.release_count(1), 0);
    assert_eq!(lib.release_count(usize::MAX), 0);
}

#[test]
fn no_device_travels_as_the_null_pointer() {
    let mut lib = Library::new();
    let device = Naive::new(&mut lib).unwrap();
    assert_eq!(device_ptr(Some(&device)), device.as_ptr());
    assert_eq!(device_ptr::<Naive>(None), 0);
}

#[test]
fn a_reply_is_wrapped_only_if_it_is_ok_and_not_null() {
    let owner: Naive = wrap_reply((OK, 5), true, "ignored").unwrap();
    assert_eq!(owner.as_ptr(), 5);
    assert!(owner.is_owned());
    let view: AnyDevice = wrap_reply((OK, 5), false, "ignored").unwrap();
    assert!(!view.is_owned());
    assert!(matches!(
        wrap_reply::<Naive>((OK, 0), true, "ignored"),
        Err(Failure::NullHandle)
    ));
    match wrap_reply::<Naive>((NOT_SUPPORTED, 5), true, "no such device") {
        Err(Failure::Construction(status)) => assert_eq!(status.message(), "no such device"),
        other => panic!("{:?}", other),
    }
}
