use std::sync::{Arc, Mutex};
use zedlib::resource_pool::{LanguageHandle, ResourceHandle, ResourcePool, RopeHandle};

// A resource type. Note that it is not Clone.
pub struct Values {
    values: Vec<u8>,
}

pub struct ValuesHandle(u32);

impl From<u32> for ValuesHandle {
    fn from(index: u32) -> Self {
        ValuesHandle(index)
    }
}

impl From<ValuesHandle> for u32 {
    fn from(handle: ValuesHandle) -> u32 {
        handle.0
    }
}

impl ResourceHandle for ValuesHandle {}

#[test]
fn test_resource_pool() {
    // Instantiate the resource type.
    // Wrap it in an Arc<Mutex<...>> to make it Clone.
    let my_values = Arc::new(Mutex::new(Values {
        values: vec![1, 2, 3],
    }));

    // Create a new ResourcePool.
    let mut resource_pool = ResourcePool::new();
    let handle: ValuesHandle = resource_pool.add(my_values.clone());

    // Emulate a callback.
    // Modify the resource in the resource pool.
    {
        let my_values_new: Arc<Mutex<Values>> = resource_pool.get(handle).unwrap();
        my_values_new.lock().unwrap().values.push(4);
    }

    // Clear the resource pool, releasing all resources.
    resource_pool.clear();

    // The resource should've been modified
    assert_eq!(my_values.lock().unwrap().values, vec![1, 2, 3, 4]);
}

#[test]
fn handles_count_up_from_zero() {
    let mut pool = ResourcePool::new();
    let a: RopeHandle = pool.add(7u8);
    let b: LanguageHandle = pool.add(String::from("rust"));
    let c: RopeHandle = pool.add(9u64);
    assert_eq!((a.0, b.0, c.0), (0, 1, 2));
    pool.clear();
    let d: RopeHandle = pool.add(1u8);
    assert_eq!(d.0, 0);
}

#[test]
fn get_checks_index_and_type() {
    let mut pool = ResourcePool::new();
    let _: RopeHandle = pool.add(7u8);
    let _: RopeHandle = pool.add(String::from("text"));
    let byte: Option<u8> = pool.get(RopeHandle(0));
    assert_eq!(byte, Some(7));
    let text: Option<String> = pool.get(RopeHandle(1));
    assert_eq!(text, Some(String::from("text")));
    let wrong: Option<u16> = pool.get(RopeHandle(0));
    assert_eq!(wrong, None);
    let past: Option<u8> = pool.get(RopeHandle(2));
    assert_eq!(past, None);
    pool.clear();
    let gone: Option<u8> = pool.get(RopeHandle(0));
    assert_eq!(gone, None);
}

#[test]
fn cleared_pool_gives_nothing_for_any_handle() {
    let mut pool = ResourcePool::new();
    let _: ValuesHandle = pool.add(3u8);
    pool.clear();
    for index in [0u32, 1, u32::MAX] {
        let found: Option<u8> = pool.get(ValuesHandle(index));
        assert_eq!(found, None);
    }
    let next: ValuesHandle = pool.add(4u8);
    assert_eq!(next.0, 0);
}
