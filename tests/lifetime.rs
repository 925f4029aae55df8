use playdate_rs::callback::CallbackRegistry;
use playdate_rs::error::{check_handle, check_message, check_status, Error};
use playdate_rs::handle::NativeHandle;
use playdate_rs::runtime::{check_c_string, player_finished, NativeRuntime, DISPLAY_BUFFER_HANDLE};

#[test]
fn every_allocation_freed_once() {
    let mut rt = NativeRuntime::new(8);
    let a = rt.new_bitmap().unwrap();
    let b = rt.new_bitmap().unwrap();
    let c = rt.copy_bitmap(&a).unwrap();
    assert_ne!(c.handle(), a.handle());
    assert_eq!(rt.alloc_count(), 3);
    assert_eq!(rt.live_count(), 3);
    rt.free_bitmap(b);
    rt.free_bitmap(a);
    rt.free_bitmap(c);
    assert_eq!(rt.alloc_count(), rt.free_count());
    assert_eq!(rt.live_count(), 0);
}

#[test]
fn early_release_cancels_and_frees() {
    let mut rt = NativeRuntime::new(4);
    let mut callbacks: CallbackRegistry<u32> = CallbackRegistry::new();
    let b = rt.new_bitmap().unwrap();
    let h = b.handle();
    assert_eq!(callbacks.register(h, 1), None);
    rt.destroy_bitmap(&mut callbacks, b);
    assert_eq!(rt.alloc_count(), 1);
    assert_eq!(rt.free_count(), 1);
    assert!(!rt.is_live_handle(h));
    // the completion signal arrives late: nothing runs
    assert_eq!(callbacks.take(h), None);
}

#[test]
fn freeing_an_unknown_object_does_nothing() {
    let mut rt = NativeRuntime::new(4);
    let mut other = NativeRuntime::new(4);
    let foreign = other.new_bitmap().unwrap();
    let _ = other.new_bitmap().unwrap();
    let second = other.new_bitmap().unwrap();
    rt.free_bitmap(second);
    assert_eq!(rt.free_count(), 0);
    rt.free_bitmap(foreign);
    assert_eq!(rt.free_count(), 0);
}

#[test]
fn dropped_owner_callback_never_runs() {
    let mut callbacks: CallbackRegistry<&'static str> = CallbackRegistry::new();
    let h = NativeHandle::from_raw(7);
    callbacks.register(h, "finished");
    callbacks.deregister(h);
    assert!(!callbacks.is_registered(h));
    assert_eq!(callbacks.take(h), None);
}

#[test]
fn double_registration_race() {
    let mut callbacks: CallbackRegistry<Box<dyn FnOnce(&mut Vec<char>)>> = CallbackRegistry::new();
    let h = NativeHandle::from_raw(42);
    let mut ran: Vec<char> = Vec::new();
    assert!(callbacks.register(h, Box::new(|log| log.push('A'))).is_none());
    let replaced = callbacks.register(h, Box::new(|log| log.push('B')));
    assert!(replaced.is_some());
    drop(replaced);
    if let Some(f) = callbacks.take(h) {
        f(&mut ran);
    }
    // a second completion signal finds nothing
    assert!(callbacks.take(h).is_none());
    assert_eq!(ran, vec!['B']);
}

#[test]
fn last_registration_wins_with_counter() {
    let mut callbacks: CallbackRegistry<u32> = CallbackRegistry::new();
    let h = NativeHandle::from_raw(3);
    callbacks.register(h, 1);
    assert_eq!(callbacks.register(h, 2), Some(1));
    assert_eq!(callbacks.len(), 1);
    assert_eq!(callbacks.take(h), Some(2));
    assert_eq!(callbacks.len(), 0);
}

#[test]
fn registrations_for_other_handles_are_kept() {
    let mut callbacks: CallbackRegistry<u32> = CallbackRegistry::new();
    let a = NativeHandle::from_raw(1);
    let b = NativeHandle::from_raw(2);
    callbacks.register(a, 10);
    callbacks.register(b, 20);
    callbacks.deregister(a);
    assert_eq!(callbacks.take(b), Some(20));
}

#[test]
fn sentinel_null_is_allocation_failure() {
    assert_eq!(
        check_handle(0, "newBitmap"),
        Err(Error::AllocationFailed { operation: "newBitmap".to_string() })
    );
    assert_eq!(check_handle(9, "newBitmap"), Ok(NativeHandle::from_raw(9)));
}

#[test]
fn sentinel_minus_one_is_native_message() {
    assert_eq!(
        check_status(-1, Some("message text".to_string())),
        Err(Error::NativeReported { message: "message text".to_string() })
    );
    assert_eq!(
        check_status(-1, None),
        Err(Error::NativeReported { message: String::new() })
    );
}

#[test]
fn sentinel_success_passes_through() {
    assert_eq!(check_status(0, None), Ok(0));
    assert_eq!(check_status(17, None), Ok(17));
    assert_eq!(check_message(5u8, None), Ok(5u8));
    assert_eq!(
        check_message(5u8, Some("bad".to_string())),
        Err(Error::NativeReported { message: "bad".to_string() })
    );
}

#[test]
fn load_missing_asset() {
    let mut rt = NativeRuntime::new(4);
    rt.add_file("assets/present.png");
    let r = rt.load_bitmap("assets/missing.png");
    assert_eq!(r, Err(Error::NotFound { path: "assets/missing.png".to_string() }));
    assert_eq!(rt.alloc_count(), 0);
}

#[test]
fn load_present_asset() {
    let mut rt = NativeRuntime::new(4);
    rt.add_file("assets/present.png");
    assert!(rt.has_file("assets/present.png"));
    let b = rt.load_bitmap("assets/present.png").unwrap();
    assert_eq!(b.handle().raw(), 1);
    assert!(rt.is_live_handle(b.handle()));
    rt.free_bitmap(b);
    assert_eq!(rt.free_count(), 1);
}

#[test]
fn load_with_nul_in_path_is_invalid() {
    let mut rt = NativeRuntime::new(4);
    rt.add_file("a\0b");
    assert_eq!(
        rt.load_bitmap("a\0b"),
        Err(Error::InvalidArgument { detail: "a\0b".to_string() })
    );
    assert_eq!(check_c_string("plain"), Ok(()));
}

#[test]
fn full_object_table_fails_allocation() {
    let mut rt = NativeRuntime::new(1);
    rt.add_file("x.png");
    let a = rt.new_bitmap().unwrap();
    assert_eq!(
        rt.new_bitmap(),
        Err(Error::AllocationFailed { operation: "newBitmap".to_string() })
    );
    assert_eq!(
        rt.load_bitmap("x.png"),
        Err(Error::AllocationFailed { operation: "loadBitmap".to_string() })
    );
    assert_eq!(
        rt.copy_bitmap(&a),
        Err(Error::AllocationFailed { operation: "copyBitmap".to_string() })
    );
    rt.free_bitmap(a);
    assert!(rt.new_bitmap().is_ok());
}

#[test]
fn borrowed_view_never_frees() {
    let rt = NativeRuntime::new(4);
    let before = rt.free_count();
    {
        let view = rt.get_display_buffer_bitmap();
        assert_eq!(view.get().handle().raw(), DISPLAY_BUFFER_HANDLE);
    }
    assert_eq!(rt.free_count(), before);
    assert_eq!(rt.alloc_count(), 0);
}

#[test]
fn copy_of_released_image_is_refused() {
    let mut rt = NativeRuntime::new(4);
    let mut other = NativeRuntime::new(4);
    let foreign = other.new_bitmap().unwrap();
    assert_eq!(
        rt.copy_bitmap(&foreign),
        Err(Error::InvalidArgument { detail: "copyBitmap".to_string() })
    );
    assert_eq!(rt.alloc_count(), 0);
}

#[test]
fn player_released_before_finish_never_calls_back() {
    let mut rt = NativeRuntime::new(4);
    let mut callbacks: CallbackRegistry<Box<dyn FnOnce(&mut u32)>> = CallbackRegistry::new();
    let p = rt.new_sample_player().unwrap();
    let h = p.handle();
    assert!(rt.set_finish_callback(&mut callbacks, &p, Box::new(|n| *n += 1)).is_none());
    rt.free_sample_player(&mut callbacks, p);
    let mut calls = 0u32;
    if let Some((f, _view)) = player_finished(&mut callbacks, h) {
        f(&mut calls);
    }
    assert_eq!(calls, 0);
    assert_eq!(rt.alloc_count(), rt.free_count());
}

#[test]
fn player_double_registration_runs_second_only() {
    let mut rt = NativeRuntime::new(4);
    let mut callbacks: CallbackRegistry<Box<dyn FnOnce(&mut Vec<char>)>> = CallbackRegistry::new();
    let p = rt.new_sample_player().unwrap();
    assert!(rt.set_finish_callback(&mut callbacks, &p, Box::new(|log| log.push('A'))).is_none());
    assert!(rt.set_finish_callback(&mut callbacks, &p, Box::new(|log| log.push('B'))).is_some());
    let mut log = Vec::new();
    match player_finished(&mut callbacks, p.handle()) {
        Some((f, view)) => {
            assert_eq!(view.get().handle(), p.handle());
            f(&mut log);
        }
        None => panic!("no callback waited"),
    }
    assert!(player_finished(&mut callbacks, p.handle()).is_none());
    assert_eq!(log, vec!['B']);
    rt.free_sample_player(&mut callbacks, p);
    assert_eq!(rt.free_count(), 1);
}

#[test]
fn callback_for_dead_player_is_handed_back() {
    let mut rt = NativeRuntime::new(1);
    let mut callbacks: CallbackRegistry<u32> = CallbackRegistry::new();
    let mut other = NativeRuntime::new(1);
    let foreign = other.new_sample_player().unwrap();
    assert_eq!(rt.set_finish_callback(&mut callbacks, &foreign, 9), Some(9));
    assert_eq!(callbacks.len(), 0);
    let _ = rt.new_bitmap().unwrap();
    assert_eq!(
        rt.new_sample_player(),
        Err(Error::AllocationFailed { operation: "newPlayer".to_string() })
    );
}
