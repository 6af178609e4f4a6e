use beatble::device::Event;
use beatble::input_state::KeyInput;
use beatble::shared_cell::create_state_cell;

#[test]
fn store_default_then_load_is_default() {
    let (mut cell, reader) = create_state_cell();
    cell.store(KeyInput::default());
    assert_eq!(reader.load(), KeyInput::default());
}

#[test]
fn load_returns_last_store() {
    let (mut cell, reader) = create_state_cell();
    assert_eq!(reader.load(), KeyInput::init());
    let a = KeyInput { scratch: 1, normal_button: 2, option_button: 3 };
    let b = KeyInput { scratch: 4, normal_button: 5, option_button: 6 };
    cell.store(a);
    assert_eq!(reader.load(), a);
    cell.store(b);
    assert_eq!(reader.load(), b);
    assert_eq!(reader.load(), b);
}

#[test]
fn apply_device_event_publishes_updated_state() {
    let (mut cell, reader) = create_state_cell();
    let mut working = KeyInput::init();
    beatble::shared_cell::apply_device_event(&mut cell, &mut working, Event::ButtonPressed(1));
    assert_eq!(working.normal_button, 0x02);
    assert_eq!(reader.load(), working);
    beatble::shared_cell::apply_device_event(&mut cell, &mut working, Event::AxisChanged(0, 0x0300));
    assert_eq!(working.scratch, 6);
    assert_eq!(reader.load(), working);
}

#[test]
fn concurrent_loads_never_observe_torn_values() {
    // One writer alternates two distinguishable sentinel snapshots while
    // several readers load; every observed value must be one of the two
    // sentinels (or the initial snapshot), never a mixture of their bytes.
    let sentinel_a = KeyInput { scratch: 0x11, normal_button: 0x22, option_button: 0x33 };
    let sentinel_b = KeyInput { scratch: 0x44, normal_button: 0x55, option_button: 0x66 };
    let (mut cell, reader) = create_state_cell();

    crossbeam::thread::scope(|scope| {
        let mut handles = Vec::new();
        for _ in 0..4 {
            let my_reader = reader.clone();
            handles.push(scope.spawn(move |_| {
                for _ in 0..20_000 {
                    let seen = my_reader.load();
                    assert!(
                        seen == sentinel_a || seen == sentinel_b || seen == KeyInput::init(),
                        "torn value observed: {:?}",
                        seen
                    );
                }
            }));
        }
        for round in 0..20_000 {
            cell.store(if round % 2 == 0 { sentinel_a } else { sentinel_b });
        }
        for handle in handles {
            handle.join().unwrap();
        }
    })
    .unwrap();
}
