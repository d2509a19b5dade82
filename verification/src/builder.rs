use crate::settings::{default_settings, DataBits, FlowControl, Parity, Settings, StopBits};
use vstd::prelude::*;

verus! {

/// Collects the path and line settings of a serial port before it is opened.
#[must_use]
#[derive(Clone, Debug)]
pub struct SerialPortBuilder {
    path: Vec<u8>,
    settings: Settings,
}

impl SerialPortBuilder {
    /// The bytes of the path of the device to open.
    pub closed spec fn path_view(&self) -> Seq<u8> {
        self.path@
    }

    /// The settings the port will be opened with.
    pub closed spec fn settings_view(&self) -> Settings {
        self.settings
    }

    /// A builder for the device at `path` (the bytes of a Unix path) at `baud_rate`,
    /// with the 8N1 defaults and no flow control.
    pub fn new(path: &[u8], baud_rate: u32) -> (builder: Self)
        ensures
            builder.path_view() == path@,
            builder.settings_view() == default_settings(baud_rate),
    {
        Self { path: vstd::slice::slice_to_vec(path), settings: Settings::new(baud_rate) }
    }

    /// The bytes of the path of the device to open.
    pub fn path(&self) -> (path: &[u8])
        ensures
            path@ == self.path_view(),
    {
        self.path.as_slice()
    }

    /// The settings the port will be opened with.
    pub fn settings(&self) -> (settings: Settings)
        ensures
            settings == self.settings_view(),
    {
        self.settings
    }

    /// Sets the baud rate; the path and the other settings stay as they were.
    pub fn baud_rate(self, baud_rate: u32) -> (builder: Self)
        ensures
            builder.path_view() == self.path_view(),
            builder.settings_view() == self.settings_view().with_baud_rate(baud_rate),
            builder.settings_view().baud_rate == baud_rate,
    {
        let mut builder = self;
        builder.settings.baud_rate = baud_rate;
        builder
    }

    /// Sets the number of data bits; the path and the other settings stay as they were.
    pub fn data_bits(self, data_bits: DataBits) -> (builder: Self)
        ensures
            builder.path_view() == self.path_view(),
            builder.settings_view() == self.settings_view().with_data_bits(data_bits),
            builder.settings_view().data_bits == data_bits,
    {
        let mut builder = self;
        builder.settings.data_bits = data_bits;
        builder
    }

    /// Sets the flow control mode; the path and the other settings stay as they were.
    pub fn flow_control(self, flow_control: FlowControl) -> (builder: Self)
        ensures
            builder.path_view() == self.path_view(),
            builder.settings_view() == self.settings_view().with_flow_control(flow_control),
            builder.settings_view().flow_control == flow_control,
    {
        let mut builder = self;
        builder.settings.flow_control = flow_control;
        builder
    }

    /// Sets the parity mode; the path and the other settings stay as they were.
    pub fn parity(self, parity: Parity) -> (builder: Self)
        ensures
            builder.path_view() == self.path_view(),
            builder.settings_view() == self.settings_view().with_parity(parity),
            builder.settings_view().parity == parity,
    {
        let mut builder = self;
        builder.settings.parity = parity;
        builder
    }

    /// Sets the number of stop bits; the path and the other settings stay as they were.
    pub fn stop_bits(self, stop_bits: StopBits) -> (builder: Self)
        ensures
            builder.path_view() == self.path_view(),
            builder.settings_view() == self.settings_view().with_stop_bits(stop_bits),
            builder.settings_view().stop_bits == stop_bits,
    {
        let mut builder = self;
        builder.settings.stop_bits = stop_bits;
        builder
    }
}

} // verus!
