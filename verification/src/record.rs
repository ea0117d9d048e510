//! The canonical record of a capture: every field as the device stored it.

use vstd::prelude::*;

verus! {

/// Samples in each coarse buffer.
pub const COARSE_SAMPLES: u32 = 1500;

/// Samples in each fine buffer.
pub const FINE_SAMPLES: u32 = 750;

/// The frequency of a channel as the measurements block stores it.
#[derive(Clone, Copy, Debug, PartialEq, Eq, Structural)]
pub enum RawFrequency {
    /// Two halves, each one field wide.
    Split { high: u16, low: u16 },
    /// One 32-bit field.
    Native { value: u32 },
}

/// Summary statistics of one channel, in device codes.
#[derive(Clone, Copy, Debug, PartialEq, Eq, Structural)]
pub struct Measurements {
    pub vmax: u16,
    pub vmin: u16,
    pub vavg: u16,
    pub vrms: u16,
    pub vpp: u16,
    pub vp: u16,
    pub frequency: RawFrequency,
    pub cycle_ns: u32,
    pub time_plus_ns: u32,
    pub time_minus_ns: u32,
    pub duty_plus_percentage: u32,
    pub duty_minus_percentage: u32,
}

/// Settings of the device at the time of the capture, in device codes.
#[derive(Clone, Copy, Debug, PartialEq, Eq, Structural)]
pub struct Header {
    pub channel1_scale: u16,
    pub channel1_coupling: u16,
    pub channel1_probe: u16,
    pub channel2_scale: u16,
    pub channel2_coupling: u16,
    pub channel2_probe: u16,
    pub time_scale: u16,
    pub scroll_speed: u16,
    pub trigger_type: u16,
    pub trigger_edge: u16,
    pub trigger_channel: u16,
    pub channel1_offset: u16,
    pub channel2_offset: u16,
    pub screen_brightness: u16,
    pub grid_brightness: u16,
    pub trigger_50: u16,
    pub channel1_measurements: Measurements,
    pub channel2_measurements: Measurements,
}

/// A decoded capture: the header and the four sample buffers, which hold the
/// coarse samples of channel 1 and of channel 2 and then the fine samples of
/// channel 1 and of channel 2.
#[derive(Clone, Debug, PartialEq, Eq)]
pub struct File {
    pub header: Header,
    pub channel11: Vec<u16>,
    pub channel21: Vec<u16>,
    pub channel12: Vec<u16>,
    pub channel22: Vec<u16>,
}

/// A [`File`] with its buffers as sequences.
pub struct FileView {
    pub header: Header,
    pub channel11: Seq<u16>,
    pub channel21: Seq<u16>,
    pub channel12: Seq<u16>,
    pub channel22: Seq<u16>,
}

impl View for File {
    type V = FileView;

    open spec fn view(&self) -> FileView {
        FileView {
            header: self.header,
            channel11: self.channel11@,
            channel21: self.channel21@,
            channel12: self.channel12@,
            channel22: self.channel22@,
        }
    }
}

} // verus!
