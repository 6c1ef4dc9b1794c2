use smart_house::devices::{SmartSocket, SmartThermometer};
use smart_house::house::SmartHouse;
use smart_house::reports::{BorrowingDeviceInfoProvider, OwningDeviceInfoProvider};

fn sample_house() -> SmartHouse {
    SmartHouse::builder()
        .add(SmartSocket::new(String::from("room1"), String::from("socket1")))
        .add(SmartSocket::new(String::from("room2"), String::from("socket2")))
        .add(SmartThermometer::new(String::from("room1"), String::from("thermo1")))
        .build()
}

#[test]
fn rooms_keep_insertion_order() {
    let house = SmartHouse::builder().add_room("kitchen").add_room("hall").add_room("kitchen").build();
    assert_eq!(house.get_rooms(), vec!["kitchen", "hall"]);
    assert_eq!(house.get_room(String::from("hall")).unwrap().len(), 0);
}

#[test]
fn same_device_name_kept_once() {
    let house = SmartHouse::builder()
        .add(SmartSocket::new(String::from("room1"), String::from("s")))
        .add(SmartThermometer::new(String::from("room1"), String::from("s")))
        .build();
    assert_eq!(house.devices(String::from("room1")).unwrap(), &vec![String::from("s")]);
}

#[test]
fn add_room_rejects_duplicate() {
    let mut house = sample_house();
    assert_eq!(house.add_room(String::from("room3")), Ok(()));
    assert_eq!(house.get_rooms(), vec!["room1", "room2", "room3"]);
    assert_eq!(house.add_room(String::from("room1")), Err("duplicate room. Can't add"));
    assert_eq!(house.get_rooms().len(), 3);
}

#[test]
fn add_device_needs_room() {
    let mut house = sample_house();
    let therm = SmartThermometer::new(String::from("room3"), String::from("therm2"));
    assert_eq!(house.add_device(String::from("room3"), therm.clone()), Err("room not found"));
    assert!(house.devices(String::from("room3")).is_none());
    house.add_room(String::from("room3")).unwrap();
    assert_eq!(house.add_device(String::from("room3"), therm), Ok(()));
    assert_eq!(house.devices(String::from("room3")).unwrap(), &vec![String::from("therm2")]);
}

#[test]
fn owning_report() {
    let house = sample_house();
    let provider = OwningDeviceInfoProvider::new(SmartSocket::new(
        String::from("room1"),
        String::from("socket1"),
    ));
    assert_eq!(
        house.create_report(&provider),
        Ok(String::from("device socket1 in room socket1 is active"))
    );
    let missing = OwningDeviceInfoProvider::new(SmartSocket::new(
        String::from("room2"),
        String::from("socket1"),
    ));
    assert_eq!(house.create_report(&missing), Err("cant find device"));
}

#[test]
fn borrowing_report() {
    let house = sample_house();
    let socket = SmartSocket::new(String::from("room2"), String::from("socket2"));
    let thermo = SmartThermometer::new(String::from("room1"), String::from("thermo1"));
    let provider = BorrowingDeviceInfoProvider::new(&socket, &thermo);
    assert_eq!(
        house.create_report(&provider),
        Ok(String::from(
            "device socket2 in room room2 is active\ndevice thermo1 in room room1 is active"
        ))
    );
    let lost_socket = SmartSocket::new(String::from("room9"), String::from("socket2"));
    let provider = BorrowingDeviceInfoProvider::new(&lost_socket, &thermo);
    assert_eq!(house.create_report(&provider), Err("device not found"));
    let lost_thermo = SmartThermometer::new(String::from("room2"), String::from("thermo1"));
    let provider = BorrowingDeviceInfoProvider::new(&socket, &lost_thermo);
    assert_eq!(house.create_report(&provider), Err("cant find device"));
}
