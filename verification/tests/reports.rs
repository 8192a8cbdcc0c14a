use smart_house::devices::{DeviceState, SmartSocket, SmartThermometer};
use smart_house::house::{Room, SmartHouse};
use smart_house::providers::{BorrowingDeviceInfoProvider, OwningDeviceInfoProvider};

fn example_house() -> SmartHouse {
    let bedroom = Room {
        devices: vec![String::from("socket"), String::from("thermometer")],
    };
    let bathroom = Room {
        devices: vec![String::from("thermometer")],
    };
    SmartHouse::new(vec![
        (String::from("Bedroom"), bedroom),
        (String::from("Bathroom"), bathroom),
    ])
}

#[test]
fn example() {
    let socket1 = SmartSocket {
        name: "Socket one".to_string(),
        state: false,
    };
    let socket2 = SmartSocket {
        name: "Socket two".to_string(),
        state: true,
    };
    let thermo = SmartThermometer {
        name: "Smart thermometer".to_string(),
        state: true,
        temperature: -23,
    };

    let mut bedroom_devices = Vec::new();
    let mut bathroom_devices = Vec::new();

    bedroom_devices.push(String::from("socket"));
    bedroom_devices.push(String::from("thermometer"));

    bathroom_devices.push(String::from("thermometer"));

    let bedroom = Room {
        devices: bedroom_devices,
    };

    let bathroom = Room {
        devices: bathroom_devices,
    };

    let mut rooms = Vec::new();

    rooms.push((String::from("Bedroom"), bedroom));
    rooms.push((String::from("Bathroom"), bathroom));

    let house = SmartHouse::new(rooms);

    let info_provider_1 = OwningDeviceInfoProvider { socket: socket1 };

    let report1 = house.create_report(&info_provider_1);

    let info_provider_2 = BorrowingDeviceInfoProvider {
        socket: &socket2,
        thermo: &thermo,
    };

    let report2 = house.create_report(&info_provider_2);

    assert_eq!(report1, "Device: Socket one, state: false".to_string());
    assert_eq!(
        report2,
        "SOCKET - Device: Socket two, state: true \r\n           THERMO - Device: Smart thermometer, state: true, temperature: -23".to_string()
    );
}

#[test]
fn owning_report_equals_socket_status_when_socket_present() {
    let house = example_house();
    let provider = OwningDeviceInfoProvider {
        socket: SmartSocket {
            name: "Hall socket".to_string(),
            state: true,
        },
    };
    assert_eq!(
        house.create_report(&provider),
        "Device: Hall socket, state: true"
    );
}

#[test]
fn owning_report_falls_back_without_socket() {
    let house = SmartHouse::new(vec![(
        String::from("Bathroom"),
        Room {
            devices: vec![String::from("thermometer")],
        },
    )]);
    let provider = OwningDeviceInfoProvider {
        socket: SmartSocket {
            name: "Hall socket".to_string(),
            state: true,
        },
    };
    assert_eq!(
        house.create_report(&provider),
        "There aren't any available devices"
    );
}

#[test]
fn borrowing_report_falls_back_without_either_label() {
    let house = SmartHouse::new(vec![(
        String::from("Garage"),
        Room {
            devices: vec![String::from("lamp")],
        },
    )]);
    let socket = SmartSocket {
        name: "S".to_string(),
        state: false,
    };
    let thermo = SmartThermometer {
        name: "T".to_string(),
        state: false,
        temperature: 0,
    };
    let provider = BorrowingDeviceInfoProvider {
        socket: &socket,
        thermo: &thermo,
    };
    assert_eq!(
        house.create_report(&provider),
        "There aren't any available devices"
    );
}

#[test]
fn borrowing_report_includes_both_with_thermometer_only() {
    let house = SmartHouse::new(vec![(
        String::from("Bathroom"),
        Room {
            devices: vec![String::from("thermometer")],
        },
    )]);
    let socket = SmartSocket {
        name: "Idle socket".to_string(),
        state: false,
    };
    let thermo = SmartThermometer {
        name: "Wall thermometer".to_string(),
        state: true,
        temperature: 21,
    };
    let provider = BorrowingDeviceInfoProvider {
        socket: &socket,
        thermo: &thermo,
    };
    assert_eq!(
        house.create_report(&provider),
        "SOCKET - Device: Idle socket, state: false \r\n           THERMO - Device: Wall thermometer, state: true, temperature: 21"
    );
}

#[test]
fn rendering_is_deterministic() {
    let a = SmartThermometer {
        name: "Same".to_string(),
        state: true,
        temperature: -7,
    };
    let b = SmartThermometer {
        name: "Same".to_string(),
        state: true,
        temperature: -7,
    };
    assert_eq!(a.get_state(), a.get_state());
    assert_eq!(a.get_state(), b.get_state());
}

#[test]
fn exists_device_finds_labels_across_rooms() {
    let house = example_house();
    assert!(house.exists_device("socket"));
    assert!(house.exists_device("thermometer"));
    assert!(!house.exists_device("lamp"));
    assert!(!house.exists_device(""));
}

#[test]
fn exists_device_on_empty_house() {
    let house = SmartHouse::new(Vec::new());
    assert!(!house.exists_device("socket"));
}

#[test]
fn get_rooms_lists_all_room_names() {
    let house = example_house();
    let rooms = house.get_rooms();
    assert_eq!(
        rooms,
        vec![String::from("Bedroom"), String::from("Bathroom")]
    );
}

#[test]
fn devices_lists_room_labels() {
    let house = example_house();
    let labels = house.devices(&String::from("Bathroom"));
    assert_eq!(labels, vec![String::from("thermometer")]);
}

#[test]
fn device_state_strings_are_exact() {
    let socket = SmartSocket {
        name: "Socket one".to_string(),
        state: false,
    };
    assert_eq!(socket.get_state(), "Device: Socket one, state: false");
    let thermo = SmartThermometer {
        name: "Smart thermometer".to_string(),
        state: true,
        temperature: -23,
    };
    assert_eq!(
        thermo.get_state(),
        "Device: Smart thermometer, state: true, temperature: -23"
    );
}

#[test]
fn thermometer_temperature_extremes_render_exactly() {
    let coldest = SmartThermometer {
        name: "T".to_string(),
        state: true,
        temperature: i16::MIN,
    };
    assert_eq!(
        coldest.get_state(),
        "Device: T, state: true, temperature: -32768"
    );
    let hottest = SmartThermometer {
        name: "T".to_string(),
        state: false,
        temperature: i16::MAX,
    };
    assert_eq!(
        hottest.get_state(),
        "Device: T, state: false, temperature: 32767"
    );
}

#[test]
fn decimal_rendering_is_exact() {
    assert_eq!(smart_house::render::u32_to_string(0), "0");
    assert_eq!(smart_house::render::u32_to_string(10), "10");
    assert_eq!(smart_house::render::u32_to_string(4294967295), "4294967295");
    assert_eq!(smart_house::render::i16_to_string(0), "0");
    assert_eq!(smart_house::render::i16_to_string(-1), "-1");
    assert_eq!(smart_house::render::i16_to_string(100), "100");
    assert_eq!(smart_house::render::bool_to_string(true), "true");
    assert_eq!(smart_house::render::bool_to_string(false), "false");
}
