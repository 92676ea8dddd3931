use std::collections::HashMap;

use pipewire_device::device::Channel;
use pipewire_device::device::DeviceType;
use pipewire_device::device::PipewireDevice;
use pipewire_device::device::StreamConfig;
use pipewire_device::device::StreamDirection;
use pipewire_device::error::PipewireError;
use pipewire_device::properties::PropertyBag;
use pipewire_device::session::SessionEvent;
use pipewire_device::session::run_session;

fn speakers_bridge() -> Option<PropertyBag> {
    // Target 42 announces {"node.name": "Speakers"}; barrier token 7 is
    // acknowledged with token 7.
    let events = vec![
        SessionEvent::Global {
            id: 42,
            props: Some(vec![("node.name".to_string(), "Speakers".to_string())]),
        },
        SessionEvent::Done { id: 0, seq: 7 },
    ];
    let r = run_session(42, 7, &events);
    assert!(r.acknowledged);
    r.data
}

#[test]
fn name_of_announced_node() {
    let dev = PipewireDevice::new(Some(42), DeviceType::Output);
    assert_eq!(dev.name(Ok(speakers_bridge())), "Speakers");
}

#[test]
fn properties_of_announced_node() {
    let dev = PipewireDevice::new(Some(42), DeviceType::Output);
    let bag = dev
        .properties(Ok(speakers_bridge()))
        .expect("setup succeeded")
        .expect("the node announced");
    assert_eq!(bag.len(), 1);
    assert_eq!(bag.get("node.name").cloned(), Some("Speakers".to_string()));
}

#[test]
fn default_device_needs_no_bridge() {
    // No bridge session is run for the default device; whatever outcome is
    // supplied, the name is the fixed sentinel.
    let dev = PipewireDevice::new(None, DeviceType::Output);
    assert_eq!(dev.name(Err(PipewireError::ConnectionError)), "Default");
    assert_eq!(dev.name(Ok(None)), "Default");
    assert_eq!(dev.properties(Err(PipewireError::ConnectionError)), Ok(None));
}

#[test]
fn vanished_node_is_no_properties_not_an_error() {
    // Target 99 never announces; token 3 is acknowledged with token 3.
    let events = vec![SessionEvent::Done { id: 0, seq: 3 }];
    let r = run_session(99, 3, &events);
    assert!(r.acknowledged);
    let dev = PipewireDevice::new(Some(99), DeviceType::Input);
    assert_eq!(dev.properties(Ok(r.data)), Ok(None));
}

#[test]
fn name_swallows_bridge_failures() {
    let dev = PipewireDevice::new(Some(42), DeviceType::Output);
    assert_eq!(dev.name(Err(PipewireError::ConnectionError)), "Error");
}

#[test]
fn name_without_node_name_key_is_unknown() {
    let events = vec![
        SessionEvent::Global {
            id: 42,
            props: Some(vec![("media.class".to_string(), "Audio/Sink".to_string())]),
        },
        SessionEvent::Done { id: 0, seq: 7 },
    ];
    let r = run_session(42, 7, &events);
    let dev = PipewireDevice::new(Some(42), DeviceType::Output);
    assert_eq!(dev.name(Ok(r.data)), "Unknown");
    assert_eq!(dev.name(Ok(None)), "Unknown");
}

#[test]
fn properties_pass_bridge_errors_through() {
    let dev = PipewireDevice::new(Some(42), DeviceType::Output);
    assert_eq!(
        dev.properties(Err(PipewireError::ConnectionError)),
        Err(PipewireError::ConnectionError)
    );
}

#[test]
fn capability_surface() {
    let dev = PipewireDevice::new(Some(1), DeviceType::Duplex);
    assert_eq!(dev.device_type(), DeviceType::Duplex);
    assert_eq!(dev.channel_map(), Vec::<Channel>::new());
    let expected = StreamConfig {
        samplerate: 48000,
        channels: 0b11,
        exclusive: false,
        buffer_size_range: (None, None),
    };
    assert!(dev.is_config_supported(&expected));
    assert_eq!(dev.enumerate_configurations(), Some(Vec::new()));
    assert_eq!(dev.default_input_config(), Ok(expected));
    assert_eq!(dev.default_output_config(), Ok(expected));
}

#[test]
fn stream_requests_copy_the_facade_state() {
    let mut dev = PipewireDevice::new(Some(1), DeviceType::Duplex);
    dev.object_serial = Some("51".to_string());
    dev.with_stream_name("Capture".to_string());
    let mut props: HashMap<Vec<u8>, Vec<u8>> = HashMap::new();
    props.insert(b"media.role".to_vec(), b"Music".to_vec());
    dev.with_stream_properties(props.clone());

    let config = dev.default_input_config().unwrap();
    let input = dev.create_input_stream(config);
    assert!(matches!(input.direction, StreamDirection::Input));
    assert_eq!(input.object_serial, Some("51".to_string()));
    assert_eq!(input.stream_name, "Capture");
    assert_eq!(input.config, config);
    assert_eq!(input.properties, props);

    let output = dev.create_output_stream(config);
    assert!(matches!(output.direction, StreamDirection::Output));
    assert_eq!(output.stream_name, "Capture");

    // Mutating the facade afterwards never touches a request already made.
    dev.with_stream_name("Later".to_string());
    dev.with_stream_properties(HashMap::new());
    assert_eq!(input.stream_name, "Capture");
    assert_eq!(input.properties, props);
}

#[test]
fn error_description() {
    assert_eq!(
        PipewireError::ConnectionError.describe(),
        "connection to the audio server failed"
    );
}
