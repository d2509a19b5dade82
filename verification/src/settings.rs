use vstd::prelude::*;

verus! {

/// Number of data bits in each character.
#[derive(Clone, Copy, Debug, PartialEq, Eq, Structural)]
pub enum DataBits {
    Five,
    Six,
    Seven,
    Eight,
}

/// Parity checking mode.
#[derive(Clone, Copy, Debug, PartialEq, Eq, Structural)]
pub enum Parity {
    NoParity,
    Odd,
    Even,
}

/// Number of stop bits after each character.
#[derive(Clone, Copy, Debug, PartialEq, Eq, Structural)]
pub enum StopBits {
    One,
    Two,
}

/// Flow control mode.
#[derive(Clone, Copy, Debug, PartialEq, Eq, Structural)]
pub enum FlowControl {
    NoFlowControl,
    Software,
    Hardware,
}

/// The line settings a serial port is configured with.
#[derive(Clone, Copy, Debug, PartialEq, Eq, Structural)]
pub struct Settings {
    pub baud_rate: u32,
    pub data_bits: DataBits,
    pub parity: Parity,
    pub stop_bits: StopBits,
    pub flow_control: FlowControl,
}

/// The settings a port gets when only its baud rate is chosen: eight data bits,
/// no parity, one stop bit and no flow control ("8N1").
pub open spec fn default_settings(baud_rate: u32) -> Settings {
    Settings {
        baud_rate,
        data_bits: DataBits::Eight,
        parity: Parity::NoParity,
        stop_bits: StopBits::One,
        flow_control: FlowControl::NoFlowControl,
    }
}

impl Settings {
    /// These settings with the baud rate `baud_rate`.
    pub open spec fn with_baud_rate(self, baud_rate: u32) -> Settings {
        Settings { baud_rate, ..self }
    }

    /// These settings with `data_bits` data bits.
    pub open spec fn with_data_bits(self, data_bits: DataBits) -> Settings {
        Settings { data_bits, ..self }
    }

    /// These settings with parity mode `parity`.
    pub open spec fn with_parity(self, parity: Parity) -> Settings {
        Settings { parity, ..self }
    }

    /// These settings with `stop_bits` stop bits.
    pub open spec fn with_stop_bits(self, stop_bits: StopBits) -> Settings {
        Settings { stop_bits, ..self }
    }

    /// These settings with flow control mode `flow_control`.
    pub open spec fn with_flow_control(self, flow_control: FlowControl) -> Settings {
        Settings { flow_control, ..self }
    }

    /// Settings at `baud_rate` with the 8N1 defaults and no flow control.
    pub fn new(baud_rate: u32) -> (settings: Self)
        ensures
            settings == default_settings(baud_rate),
            settings.baud_rate == baud_rate,
            settings.data_bits == DataBits::Eight,
            settings.parity == Parity::NoParity,
            settings.stop_bits == StopBits::One,
            settings.flow_control == FlowControl::NoFlowControl,
    {
        Self {
            baud_rate,
            data_bits: DataBits::Eight,
            parity: Parity::NoParity,
            stop_bits: StopBits::One,
            flow_control: FlowControl::NoFlowControl,
        }
    }
}

/// Setting an option twice keeps only the second value, and setting two different
/// options gives the same settings in either order: each option of a builder is set on
/// its own.
pub proof fn lemma_options_are_independent(
    s: Settings,
    baud_rate: u32,
    baud_rate2: u32,
    data_bits: DataBits,
    data_bits2: DataBits,
    parity: Parity,
    parity2: Parity,
    stop_bits: StopBits,
    stop_bits2: StopBits,
    flow_control: FlowControl,
    flow_control2: FlowControl,
)
    ensures
        s.with_baud_rate(baud_rate).with_baud_rate(baud_rate2) == s.with_baud_rate(baud_rate2),
        s.with_data_bits(data_bits).with_data_bits(data_bits2) == s.with_data_bits(data_bits2),
        s.with_parity(parity).with_parity(parity2) == s.with_parity(parity2),
        s.with_stop_bits(stop_bits).with_stop_bits(stop_bits2) == s.with_stop_bits(stop_bits2),
        s.with_flow_control(flow_control).with_flow_control(flow_control2) == s.with_flow_control(
            flow_control2,
        ),
        s.with_baud_rate(baud_rate).with_data_bits(data_bits) == s.with_data_bits(
            data_bits,
        ).with_baud_rate(baud_rate),
        s.with_baud_rate(baud_rate).with_parity(parity) == s.with_parity(parity).with_baud_rate(
            baud_rate,
        ),
        s.with_baud_rate(baud_rate).with_stop_bits(stop_bits) == s.with_stop_bits(
            stop_bits,
        ).with_baud_rate(baud_rate),
        s.with_baud_rate(baud_rate).with_flow_control(flow_control) == s.with_flow_control(
            flow_control,
        ).with_baud_rate(baud_rate),
        s.with_data_bits(data_bits).with_parity(parity) == s.with_parity(parity).with_data_bits(
            data_bits,
        ),
        s.with_data_bits(data_bits).with_stop_bits(stop_bits) == s.with_stop_bits(
            stop_bits,
        ).with_data_bits(data_bits),
        s.with_data_bits(data_bits).with_flow_control(flow_control) == s.with_flow_control(
            flow_control,
        ).with_data_bits(data_bits),
        s.with_parity(parity).with_stop_bits(stop_bits) == s.with_stop_bits(stop_bits).with_parity(
            parity,
        ),
        s.with_parity(parity).with_flow_control(flow_control) == s.with_flow_control(
            flow_control,
        ).with_parity(parity),
        s.with_stop_bits(stop_bits).with_flow_control(flow_control) == s.with_flow_control(
            flow_control,
        ).with_stop_bits(stop_bits),
{
}

/// The defaults are eight data bits, no parity, one stop bit and no flow control, at
/// the baud rate asked for.
pub proof fn lemma_default_settings_are_8n1(baud_rate: u32)
    ensures
        default_settings(baud_rate).baud_rate == baud_rate,
        default_settings(baud_rate).data_bits == DataBits::Eight,
        default_settings(baud_rate).parity == Parity::NoParity,
        default_settings(baud_rate).stop_bits == StopBits::One,
        default_settings(baud_rate).flow_control == FlowControl::NoFlowControl,
{
}

/// Setting an option gives it exactly the value passed, and every other option keeps
/// its value.
pub proof fn lemma_options_read_back(
    s: Settings,
    baud_rate: u32,
    data_bits: DataBits,
    parity: Parity,
    stop_bits: StopBits,
    flow_control: FlowControl,
)
    ensures
        s.with_baud_rate(baud_rate).baud_rate == baud_rate,
        s.with_baud_rate(baud_rate).data_bits == s.data_bits,
        s.with_baud_rate(baud_rate).parity == s.parity,
        s.with_baud_rate(baud_rate).stop_bits == s.stop_bits,
        s.with_baud_rate(baud_rate).flow_control == s.flow_control,
        s.with_data_bits(data_bits).data_bits == data_bits,
        s.with_data_bits(data_bits).baud_rate == s.baud_rate,
        s.with_data_bits(data_bits).parity == s.parity,
        s.with_data_bits(data_bits).stop_bits == s.stop_bits,
        s.with_data_bits(data_bits).flow_control == s.flow_control,
        s.with_parity(parity).parity == parity,
        s.with_parity(parity).baud_rate == s.baud_rate,
        s.with_parity(parity).data_bits == s.data_bits,
        s.with_parity(parity).stop_bits == s.stop_bits,
        s.with_parity(parity).flow_control == s.flow_control,
        s.with_stop_bits(stop_bits).stop_bits == stop_bits,
        s.with_stop_bits(stop_bits).baud_rate == s.baud_rate,
        s.with_stop_bits(stop_bits).data_bits == s.data_bits,
        s.with_stop_bits(stop_bits).parity == s.parity,
        s.with_stop_bits(stop_bits).flow_control == s.flow_control,
        s.with_flow_control(flow_control).flow_control == flow_control,
        s.with_flow_control(flow_control).baud_rate == s.baud_rate,
        s.with_flow_control(flow_control).data_bits == s.data_bits,
        s.with_flow_control(flow_control).parity == s.parity,
        s.with_flow_control(flow_control).stop_bits == s.stop_bits,
{
}

} // verus!
