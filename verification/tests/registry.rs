//! Instances behind handles: resolve, release, free.
use shared_core::fault::Fault;
use shared_core::registry::Registry;

#[test]
fn a_new_instance_is_held_once() {
    let mut registry: Registry<&str> = Registry::new();
    let handle = registry.insert("vm").unwrap();
    assert_ne!(handle, 0);
    assert_eq!(registry.strong_count(handle), Some(1));
}

#[test]
fn handles_of_live_instances_differ() {
    let mut registry: Registry<u8> = Registry::new();
    let a = registry.insert(1).unwrap();
    let b = registry.insert(2).unwrap();
    assert_ne!(a, b);
    assert_eq!(*registry.instance_mut(a), 1);
    assert_eq!(*registry.instance_mut(b), 2);
}

#[test]
fn resolve_adds_one_and_release_gives_it_back() {
    let mut registry: Registry<u8> = Registry::new();
    let handle = registry.insert(1).unwrap();
    assert_eq!(registry.resolve(handle), Ok(()));
    assert_eq!(registry.strong_count(handle), Some(2));
    assert_eq!(registry.release(handle), Ok(()));
    assert_eq!(registry.strong_count(handle), Some(1));
}

#[test]
fn free_while_borrowed_is_refused() {
    let mut registry: Registry<u8> = Registry::new();
    let handle = registry.insert(1).unwrap();
    registry.resolve(handle).unwrap();
    assert_eq!(registry.free(handle), Err(Fault::StillBorrowed));
    // nothing was lost: the instance is still there, held twice
    assert_eq!(registry.strong_count(handle), Some(2));
    assert_eq!(*registry.instance_mut(handle), 1);
}

#[test]
fn free_after_balanced_borrow_succeeds_once() {
    let mut registry: Registry<String> = Registry::new();
    let handle = registry.insert("vm".to_string()).unwrap();
    registry.resolve(handle).unwrap();
    registry.release(handle).unwrap();
    assert_eq!(registry.free(handle), Ok("vm".to_string()));
    assert_eq!(registry.free(handle), Err(Fault::UnknownHandle));
    assert_eq!(registry.strong_count(handle), None);
}

#[test]
fn free_without_any_call_succeeds() {
    let mut registry: Registry<u8> = Registry::new();
    let handle = registry.insert(9).unwrap();
    assert_eq!(registry.free(handle), Ok(9));
}

#[test]
fn a_freed_instance_cannot_be_resolved_or_released() {
    let mut registry: Registry<u8> = Registry::new();
    let handle = registry.insert(9).unwrap();
    registry.free(handle).unwrap();
    assert_eq!(registry.resolve(handle), Err(Fault::UnknownHandle));
    assert_eq!(registry.release(handle), Err(Fault::UnknownHandle));
}

#[test]
fn the_null_handle_is_refused_everywhere() {
    let mut registry: Registry<u8> = Registry::new();
    registry.insert(1).unwrap();
    assert_eq!(registry.resolve(0), Err(Fault::NullPointer));
    assert_eq!(registry.release(0), Err(Fault::NullPointer));
    assert_eq!(registry.free(0), Err(Fault::NullPointer));
    assert_eq!(registry.strong_count(0), None);
}

#[test]
fn a_handle_that_was_never_given_out_is_refused() {
    let mut registry: Registry<u8> = Registry::new();
    let handle = registry.insert(1).unwrap();
    assert_eq!(registry.resolve(handle + 1), Err(Fault::UnknownHandle));
    assert_eq!(registry.free(handle + 1), Err(Fault::UnknownHandle));
    assert_eq!(registry.free(u32::MAX), Err(Fault::UnknownHandle));
}

#[test]
fn release_without_resolve_is_refused() {
    let mut registry: Registry<u8> = Registry::new();
    let handle = registry.insert(1).unwrap();
    assert_eq!(registry.release(handle), Err(Fault::NotBorrowed));
    assert_eq!(registry.strong_count(handle), Some(1));
}

#[test]
fn nested_resolves_need_as_many_releases() {
    let mut registry: Registry<u8> = Registry::new();
    let handle = registry.insert(1).unwrap();
    registry.resolve(handle).unwrap();
    registry.resolve(handle).unwrap();
    assert_eq!(registry.strong_count(handle), Some(3));
    registry.release(handle).unwrap();
    assert_eq!(registry.free(handle), Err(Fault::StillBorrowed));
    registry.release(handle).unwrap();
    assert_eq!(registry.free(handle), Ok(1));
}

#[test]
fn one_handle_does_not_touch_another() {
    let mut registry: Registry<u8> = Registry::new();
    let a = registry.insert(1).unwrap();
    let b = registry.insert(2).unwrap();
    registry.resolve(a).unwrap();
    assert_eq!(registry.strong_count(b), Some(1));
    assert_eq!(registry.free(b), Ok(2));
    assert_eq!(registry.strong_count(a), Some(2));
    registry.release(a).unwrap();
    assert_eq!(registry.free(a), Ok(1));
}

#[test]
fn instance_mut_changes_the_instance_in_place() {
    let mut registry: Registry<Vec<u8>> = Registry::new();
    let handle = registry.insert(vec![1]).unwrap();
    registry.instance_mut(handle).push(2);
    assert_eq!(registry.free(handle), Ok(vec![1, 2]));
}
