//! Port path, line settings and open options, gathered before a port is opened.
use std::borrow::Cow;

use vstd::prelude::*;

use crate::types::{ClearBuffer, DataBits, FlowControl, Parity, StopBits};

verus! {

/// `Cow::from` on a string slice: the text stays the same.
pub assume_specification<'a>[ <Cow<'a, str> as From<&'a str>>::from ](s: &'a str) -> (r: Cow<
    'a,
    str,
>)
    ensures
        r@ == s@,
;

/// `Cow::from` on an owned string: the text stays the same.
pub assume_specification<'a>[ <Cow<'a, str> as From<String>>::from ](s: String) -> (r: Cow<'a, str>)
    ensures
        r@ == s@,
;

/// `Cow::from` on a borrowed `String`: the text stays the same.
pub assume_specification<'a>[ <Cow<'a, str> as From<&'a String>>::from ](s: &'a String) -> (r: Cow<
    'a,
    str,
>)
    ensures
        r@ == s@,
;

/// `From::from` of a type into itself: the value stays the same.
pub assume_specification<X>[ <X as std::convert::From<X>>::from ](x: X) -> (r: X)
    ensures
        r == x,
;

/// Everything that a builder knows about a port.
pub struct PortSettings {
    pub path: Seq<char>,
    pub baud_rate: u32,
    pub data_bits: DataBits,
    pub flow_control: FlowControl,
    pub parity: Parity,
    pub stop_bits: StopBits,
    pub dtr_on_open: bool,
    pub clear_buffer: Option<ClearBuffer>,
}

/// One call of a builder method.
pub enum Setting {
    Path(Seq<char>),
    BaudRate(u32),
    DataBits(DataBits),
    FlowControl(FlowControl),
    Parity(Parity),
    StopBits(StopBits),
    DtrOnOpen(bool),
    Clear(ClearBuffer),
}

impl Setting {
    /// Both settings are about the same property of a port.
    pub open spec fn same_property(self, other: Setting) -> bool {
        match self {
            Setting::Path(_) => other is Path,
            Setting::BaudRate(_) => other is BaudRate,
            Setting::DataBits(_) => other is DataBits,
            Setting::FlowControl(_) => other is FlowControl,
            Setting::Parity(_) => other is Parity,
            Setting::StopBits(_) => other is StopBits,
            Setting::DtrOnOpen(_) => other is DtrOnOpen,
            Setting::Clear(_) => other is Clear,
        }
    }
}

impl PortSettings {
    /// 8N1, no flow control, DTR low, nothing to clear.
    pub open spec fn with_defaults(path: Seq<char>, baud_rate: u32) -> PortSettings {
        PortSettings {
            path,
            baud_rate,
            data_bits: DataBits::Eight,
            flow_control: FlowControl::Off,
            parity: Parity::Off,
            stop_bits: StopBits::One,
            dtr_on_open: false,
            clear_buffer: None,
        }
    }

    /// The settings with one property replaced.
    pub open spec fn set(self, setting: Setting) -> PortSettings {
        match setting {
            Setting::Path(path) => PortSettings { path, ..self },
            Setting::BaudRate(baud_rate) => PortSettings { baud_rate, ..self },
            Setting::DataBits(data_bits) => PortSettings { data_bits, ..self },
            Setting::FlowControl(flow_control) => PortSettings { flow_control, ..self },
            Setting::Parity(parity) => PortSettings { parity, ..self },
            Setting::StopBits(stop_bits) => PortSettings { stop_bits, ..self },
            Setting::DtrOnOpen(dtr_on_open) => PortSettings { dtr_on_open, ..self },
            Setting::Clear(buffer) => PortSettings { clear_buffer: Some(buffer), ..self },
        }
    }
}

/// Builder for serial port path, line settings, and one-shot open options.
///
/// Created with [`new()`] and configured with chained methods.
#[derive(Debug, PartialEq, Eq)]
pub struct SerialPortStreamBuilder {
    pub path: String,
    pub baud_rate: u32,
    pub data_bits: DataBits,
    pub flow_control: FlowControl,
    pub parity: Parity,
    pub stop_bits: StopBits,
    pub dtr_on_open: bool,
    pub clear_buffer: Option<ClearBuffer>,
}

impl Clone for SerialPortStreamBuilder {
    fn clone(&self) -> (r: Self)
        ensures
            r == *self,
    {
        SerialPortStreamBuilder { path: self.path.clone(), ..*self }
    }
}

impl View for SerialPortStreamBuilder {
    type V = PortSettings;

    open spec fn view(&self) -> PortSettings {
        PortSettings {
            path: self.path@,
            baud_rate: self.baud_rate,
            data_bits: self.data_bits,
            flow_control: self.flow_control,
            parity: self.parity,
            stop_bits: self.stop_bits,
            dtr_on_open: self.dtr_on_open,
            clear_buffer: self.clear_buffer,
        }
    }
}

/// `text` can be what the conversion of `path` into text gives.
pub open spec fn is_path_text<'a, P: Into<Cow<'a, str>>>(path: P, text: Seq<char>) -> bool {
    exists|cow: Cow<'a, str>| #[trigger]
        call_ensures(<P as Into<Cow<'a, str>>>::into, (path,), cow) && cow@ == text
}

/// The text that a path converts into, as an owned string.
fn owned_path<'a, P: Into<Cow<'a, str>>>(path: P) -> (r: String)
    ensures
        is_path_text(path, r@),
{
    let cow: Cow<'a, str> = path.into();
    let ghost text: Seq<char> = cow@;
    assert(call_ensures(<P as Into<Cow<'a, str>>>::into, (path,), cow) && cow@ == text);
    match cow {
        Cow::Borrowed(borrowed) => borrowed.to_owned(),
        Cow::Owned(owned) => owned,
    }
}

impl SerialPortStreamBuilder {
    /// Sets the path to the serial port device.
    ///
    /// # Examples
    /// - Unix: `"/dev/ttyUSB0"`, `"/dev/ttyACM0"`
    /// - Windows: `"COM3"`, `"COM10"`
    #[must_use]
    pub fn path<'a, P: Into<Cow<'a, str>>>(self, path: P) -> (r: Self)
        ensures
            is_path_text(path, r.path@),
            r@ == self@.set(Setting::Path(r.path@)),
    {
        SerialPortStreamBuilder { path: owned_path(path), ..self }
    }

    /// Sets the baud rate (bits per second).
    ///
    /// Common values: 9600, 19200, 38400, 57600, 115200
    #[must_use]
    pub fn baud_rate(self, baud_rate: u32) -> (r: Self)
        ensures
            r@ == self@.set(Setting::BaudRate(baud_rate)),
    {
        SerialPortStreamBuilder { baud_rate, ..self }
    }

    /// Sets the number of data bits per character.
    ///
    /// Default: `DataBits::Eight`
    #[must_use]
    pub fn data_bits(self, data_bits: DataBits) -> (r: Self)
        ensures
            r@ == self@.set(Setting::DataBits(data_bits)),
    {
        SerialPortStreamBuilder { data_bits, ..self }
    }

    /// Sets the flow control mode.
    ///
    /// Default: `FlowControl::Off`
    #[must_use]
    pub fn flow_control(self, flow_control: FlowControl) -> (r: Self)
        ensures
            r@ == self@.set(Setting::FlowControl(flow_control)),
    {
        SerialPortStreamBuilder { flow_control, ..self }
    }

    /// Sets the parity checking mode.
    ///
    /// Default: `Parity::Off`
    #[must_use]
    pub fn parity(self, parity: Parity) -> (r: Self)
        ensures
            r@ == self@.set(Setting::Parity(parity)),
    {
        SerialPortStreamBuilder { parity, ..self }
    }

    /// Sets the number of stop bits.
    ///
    /// Default: `StopBits::One`
    #[must_use]
    pub fn stop_bits(self, stop_bits: StopBits) -> (r: Self)
        ensures
            r@ == self@.set(Setting::StopBits(stop_bits)),
    {
        SerialPortStreamBuilder { stop_bits, ..self }
    }

    /// Sets the DTR (Data Terminal Ready) signal state applied when opening the port.
    ///
    /// Default: `false`
    #[must_use]
    pub fn dtr_on_open(self, state: bool) -> (r: Self)
        ensures
            r@ == self@.set(Setting::DtrOnOpen(state)),
    {
        SerialPortStreamBuilder { dtr_on_open: state, ..self }
    }

    /// Clears RX and/or TX driver buffers when the port is opened, before async I/O starts.
    ///
    /// See [`ClearBuffer`] (`Input`, `Output`, or `All`).
    #[must_use]
    pub fn clear(self, buffer: ClearBuffer) -> (r: Self)
        ensures
            r@ == self@.set(Setting::Clear(buffer)),
    {
        SerialPortStreamBuilder { clear_buffer: Some(buffer), ..self }
    }
}

/// Creates a [`SerialPortStreamBuilder`] with default line settings (8N1, no flow control).
pub fn new<'a, P: Into<Cow<'a, str>>>(path: P, baud_rate: u32) -> (r: SerialPortStreamBuilder)
    ensures
        is_path_text(path, r.path@),
        r@ == PortSettings::with_defaults(r.path@, baud_rate),
{
    SerialPortStreamBuilder {
        path: owned_path(path),
        baud_rate,
        data_bits: DataBits::Eight,
        flow_control: FlowControl::Off,
        parity: Parity::Off,
        stop_bits: StopBits::One,
        dtr_on_open: false,
        clear_buffer: None,
    }
}

/// A path is kept as it is, in whichever of the types of text it is given.
pub proof fn law_path_is_kept<'a>(
    borrowed: &'a str,
    owned: String,
    lent: &'a String,
    cow: Cow<'a, str>,
    text: Seq<char>,
)
    ensures
        is_path_text::<'a, &'a str>(borrowed, text) ==> text == borrowed@,
        is_path_text::<'a, String>(owned, text) ==> text == owned@,
        is_path_text::<'a, &'a String>(lent, text) ==> text == lent@,
        is_path_text::<'a, Cow<'a, str>>(cow, text) ==> text == cow@,
{
}

/// A path or a baud rate that is set later counts as if the builder had been created with it.
pub proof fn law_set_later_is_set_at_first(
    path: Seq<char>,
    baud_rate: u32,
    later_path: Seq<char>,
    later_baud_rate: u32,
)
    ensures
        PortSettings::with_defaults(path, baud_rate).set(Setting::Path(later_path))
            == PortSettings::with_defaults(later_path, baud_rate),
        PortSettings::with_defaults(path, baud_rate).set(Setting::BaudRate(later_baud_rate))
            == PortSettings::with_defaults(path, later_baud_rate),
{
}

/// Of two calls about one property the last one counts.
pub proof fn law_last_setting_counts(settings: PortSettings, first: Setting, second: Setting)
    requires
        first.same_property(second),
    ensures
        settings.set(first).set(second) == settings.set(second),
{
}

/// Calls about different properties can be made in any order.
pub proof fn law_settings_commute(settings: PortSettings, first: Setting, second: Setting)
    requires
        !first.same_property(second),
    ensures
        settings.set(first).set(second) == settings.set(second).set(first),
{
}

/// A call sets its property to the value that it was given, whatever that is, and leaves all
/// others as they were.
pub proof fn law_setting_takes_effect(settings: PortSettings, setting: Setting)
    ensures
        ({
            let after = settings.set(setting);
            &&& after.path == (if let Setting::Path(path) = setting {
                path
            } else {
                settings.path
            })
            &&& after.baud_rate == (if let Setting::BaudRate(baud_rate) = setting {
                baud_rate
            } else {
                settings.baud_rate
            })
            &&& after.data_bits == (if let Setting::DataBits(data_bits) = setting {
                data_bits
            } else {
                settings.data_bits
            })
            &&& after.flow_control == (if let Setting::FlowControl(flow_control) = setting {
                flow_control
            } else {
                settings.flow_control
            })
            &&& after.parity == (if let Setting::Parity(parity) = setting {
                parity
            } else {
                settings.parity
            })
            &&& after.stop_bits == (if let Setting::StopBits(stop_bits) = setting {
                stop_bits
            } else {
                settings.stop_bits
            })
            &&& after.dtr_on_open == (if let Setting::DtrOnOpen(state) = setting {
                state
            } else {
                settings.dtr_on_open
            })
            &&& after.clear_buffer == (if let Setting::Clear(buffer) = setting {
                Some(buffer)
            } else {
                settings.clear_buffer
            })
        }),
{
}

/// A new builder has the path and the rate that it was given and, whatever they are, eight data
/// bits, no parity, one stop bit, no flow control, DTR low and nothing to clear.
pub proof fn law_defaults_are_8n1(path: Seq<char>, baud_rate: u32)
    ensures
        ({
            let settings = PortSettings::with_defaults(path, baud_rate);
            &&& settings.path == path
            &&& settings.baud_rate == baud_rate
            &&& settings.data_bits.count() == 8
            &&& settings.parity is Off
            &&& settings.stop_bits.count() == 1
            &&& settings.flow_control is Off
            &&& !settings.dtr_on_open
            &&& settings.clear_buffer is None
        }),
{
}

/// The settings of a builder are its fields.
pub proof fn law_settings_are_the_fields(builder: SerialPortStreamBuilder)
    ensures
        builder@.path == builder.path@,
        builder@.baud_rate == builder.baud_rate,
        builder@.data_bits == builder.data_bits,
        builder@.flow_control == builder.flow_control,
        builder@.parity == builder.parity,
        builder@.stop_bits == builder.stop_bits,
        builder@.dtr_on_open == builder.dtr_on_open,
        builder@.clear_buffer == builder.clear_buffer,
{
}

} // verus!
