use vstd::prelude::*;

verus! {

/// Persisted configuration: which audio capture source is managed and which
/// serial path reaches the device. Loaded once at startup; the bridge logic
/// treats it as an opaque input record.
pub struct Config {
    pub audio_device_name: String,
    pub serial_port: String,
}

impl Config {
    /// Builds the record from its two parts.
    pub fn new(audio_device_name: String, serial_port: String) -> (c: Config)
        ensures
            c.audio_device_name@ == audio_device_name@,
            c.serial_port@ == serial_port@,
    {
        Config { audio_device_name, serial_port }
    }
}

} // verus!
