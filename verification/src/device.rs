//! The device facade: identity, capability queries and stream-creation entry
//! points of one PipeWire-backed audio device. Metadata lookups go through
//! one bridge session per call (see [`crate::session`]); this module decides
//! what the answers mean.

use vstd::prelude::*;

use std::collections::HashMap;

use crate::error::PipewireError;
use crate::properties::PropertyBag;

verus! {

/// The capability tag of a device.
#[derive(Clone, Copy, Debug, PartialEq, Eq, Structural)]
pub enum DeviceType {
    Input,
    Output,
    Duplex,
}

/// A named channel role a device can expose.
#[derive(Clone, Copy, Debug, PartialEq, Eq, Structural)]
pub enum Channel {
    FrontLeft,
    FrontRight,
}

/// A requested or reported stream configuration.
#[derive(Clone, Copy, Debug, PartialEq, Eq)]
pub struct StreamConfig {
    /// Sample rate in hertz.
    pub samplerate: u32,
    /// Bitmask over channel roles.
    pub channels: u32,
    /// Whether exclusive access to the device is requested.
    pub exclusive: bool,
    /// Optional lower and upper bounds on the buffer size, in frames.
    pub buffer_size_range: (Option<u32>, Option<u32>),
}

/// Which way a stream moves audio.
#[derive(Clone, Copy, Debug, PartialEq, Eq, Structural)]
pub enum StreamDirection {
    Input,
    Output,
}

/// Everything the facade hands to the stream lifecycle component when a
/// stream is created: the identity of the object to bind, the label and
/// properties captured on the device at that moment, and the requested
/// configuration. A request copies the device's fields by value: changing
/// the device afterwards never affects a request already made.
pub struct StreamRequest {
    pub direction: StreamDirection,
    pub object_serial: Option<String>,
    pub stream_name: String,
    pub config: StreamConfig,
    pub properties: HashMap<Vec<u8>, Vec<u8>>,
}

/// Copies the optional stable identifier.
fn clone_serial(serial: &Option<String>) -> (r: Option<String>)
    ensures
        r == *serial,
{
    match serial {
        Some(s) => Some(s.clone()),
        None => None,
    }
}

/// One PipeWire-backed audio device.
pub struct PipewireDevice {
    /// The server-side node this device stands for; absence means the system
    /// default device — a sentinel, not an error.
    pub target_node: Option<u32>,
    /// What the device is capable of.
    pub device_type: DeviceType,
    /// Stable identifier used when a stream must bind this exact object.
    pub object_serial: Option<String>,
    /// Label for the next stream created from this device.
    pub stream_name: String,
    /// Raw properties carried into the next stream created from this device.
    pub stream_properties: HashMap<Vec<u8>, Vec<u8>>,
}

impl PipewireDevice {
    /// A facade for a node, or for the system default device when no node is
    /// given, with the library-chosen stream label and no stream properties.
    pub fn new(target_node: Option<u32>, device_type: DeviceType) -> (r: Self)
        ensures
            r.target_node == target_node,
            r.device_type == device_type,
            r.object_serial is None,
            r.stream_name@ == "Audio Stream"@,
            r.stream_properties@ == Map::<Vec<u8>, Vec<u8>>::empty(),
    {
        PipewireDevice {
            target_node,
            device_type,
            object_serial: None,
            stream_name: "Audio Stream".to_owned(),
            stream_properties: HashMap::new(),
        }
    }

    /// The property bag of the device's node, given the outcome of one
    /// bridge session against the server. The system default device answers
    /// at once, with no session; a node that never announced is "no
    /// properties", not an error; only a failure to set the session up is
    /// one, and it is passed through untouched.
    pub fn properties(&self, bridge: Result<Option<PropertyBag>, PipewireError>) -> (r: Result<
        Option<PropertyBag>,
        PipewireError,
    >)
        ensures
            self.target_node is None ==> r == Ok::<Option<PropertyBag>, PipewireError>(None),
            self.target_node is Some ==> r == bridge,
    {
        if self.target_node.is_none() {
            return Ok(None);
        }
        bridge
    }

    /// The human-readable name of the device, given the outcome of one
    /// bridge session. The system default device is "Default" whatever the
    /// outcome — it needs no session. A node that announced a "node.name"
    /// yields that name; one that vanished, or announced no name, is
    /// "Unknown"; a session that could not be set up is reported as the
    /// sentinel "Error", never as a hard failure: a caller asking for a
    /// label must not crash.
    pub fn name(&self, bridge: Result<Option<PropertyBag>, PipewireError>) -> (r: String)
        requires
            bridge matches Ok(Some(bag)) ==> bag.wf(),
        ensures
            self.target_node is None ==> r@ == "Default"@,
            self.target_node is Some ==> match bridge {
                Ok(Some(bag)) => if bag.as_map().contains_key("node.name"@) {
                    r@ == bag.as_map()["node.name"@]
                } else {
                    r@ == "Unknown"@
                },
                Ok(None) => r@ == "Unknown"@,
                Err(_) => r@ == "Error"@,
            },
    {
        if self.target_node.is_none() {
            return "Default".to_owned();
        }
        match bridge {
            Ok(Some(bag)) => match bag.get("node.name") {
                Some(value) => value.clone(),
                None => "Unknown".to_owned(),
            },
            Ok(None) => "Unknown".to_owned(),
            Err(_) => "Error".to_owned(),
        }
    }

    /// What the device is capable of.
    pub fn device_type(&self) -> (r: DeviceType)
        ensures
            r == self.device_type,
    {
        self.device_type
    }

    /// The channel roles this backend reports for a device: none are known.
    pub fn channel_map(&self) -> (r: Vec<Channel>)
        ensures
            r@ == Seq::<Channel>::empty(),
    {
        Vec::new()
    }

    /// This backend accepts any requested configuration.
    pub fn is_config_supported(&self, _config: &StreamConfig) -> (r: bool)
        ensures
            r,
    {
        true
    }

    /// No discrete configuration list is enumerated for this backend: the
    /// answer is an empty enumeration, not its absence.
    pub fn enumerate_configurations(&self) -> (r: Option<Vec<StreamConfig>>)
        ensures
            r matches Some(cfgs) && cfgs@ == Seq::<StreamConfig>::empty(),
    {
        Some(Vec::new())
    }

    /// The library-chosen default input configuration: front left and right
    /// at 48 kHz, shared access, no buffer-size bounds.
    pub fn default_input_config(&self) -> (r: Result<StreamConfig, PipewireError>)
        ensures
            r matches Ok(c) && c == (StreamConfig {
                samplerate: 48000,
                channels: 0b11,
                exclusive: false,
                buffer_size_range: (None, None),
            }),
    {
        Ok(
            StreamConfig {
                samplerate: 48000,
                channels: 0b11,
                exclusive: false,
                buffer_size_range: (None, None),
            },
        )
    }

    /// The library-chosen default output configuration: front left and right
    /// at 48 kHz, shared access, no buffer-size bounds.
    pub fn default_output_config(&self) -> (r: Result<StreamConfig, PipewireError>)
        ensures
            r matches Ok(c) && c == (StreamConfig {
                samplerate: 48000,
                channels: 0b11,
                exclusive: false,
                buffer_size_range: (None, None),
            }),
    {
        Ok(
            StreamConfig {
                samplerate: 48000,
                channels: 0b11,
                exclusive: false,
                buffer_size_range: (None, None),
            },
        )
    }

    /// Name to be used for the next stream created from this device; a
    /// stream already created keeps the label it was given.
    pub fn with_stream_name(&mut self, name: String)
        ensures
            final(self).stream_name == name,
            final(self).target_node == old(self).target_node,
            final(self).device_type == old(self).device_type,
            final(self).object_serial == old(self).object_serial,
            final(self).stream_properties == old(self).stream_properties,
    {
        self.stream_name = name;
    }

    /// Properties for the next stream created from this device, replaced
    /// wholesale; a stream already created keeps the properties it was
    /// given.
    pub fn with_stream_properties(&mut self, properties: HashMap<Vec<u8>, Vec<u8>>)
        ensures
            final(self).stream_properties == properties,
            final(self).target_node == old(self).target_node,
            final(self).device_type == old(self).device_type,
            final(self).object_serial == old(self).object_serial,
            final(self).stream_name == old(self).stream_name,
    {
        self.stream_properties = properties;
    }

    /// Assembles what the stream lifecycle component needs to create an
    /// input stream from this device. The identity, label and properties are
    /// the ones captured on the facade now, copied by value.
    pub fn create_input_stream(&self, stream_config: StreamConfig) -> (r: StreamRequest)
        ensures
            r.direction is Input,
            r.object_serial == self.object_serial,
            r.stream_name == self.stream_name,
            r.config == stream_config,
            r.properties@ == self.stream_properties@,
    {
        StreamRequest {
            direction: StreamDirection::Input,
            object_serial: clone_serial(&self.object_serial),
            stream_name: self.stream_name.clone(),
            config: stream_config,
            properties: self.stream_properties.clone(),
        }
    }

    /// Assembles what the stream lifecycle component needs to create an
    /// output stream from this device. The identity, label and properties
    /// are the ones captured on the facade now, copied by value.
    pub fn create_output_stream(&self, stream_config: StreamConfig) -> (r: StreamRequest)
        ensures
            r.direction is Output,
            r.object_serial == self.object_serial,
            r.stream_name == self.stream_name,
            r.config == stream_config,
            r.properties@ == self.stream_properties@,
    {
        StreamRequest {
            direction: StreamDirection::Output,
            object_serial: clone_serial(&self.object_serial),
            stream_name: self.stream_name.clone(),
            config: stream_config,
            properties: self.stream_properties.clone(),
        }
    }
}

} // verus!
