//! Serial line configuration types.
use vstd::prelude::*;

verus! {

/// Number of data bits per character.
#[derive(Debug, Clone, Copy, PartialEq, Eq, Hash, Structural)]
pub enum DataBits {
    Five,
    Six,
    Seven,
    Eight,
}

impl DataBits {
    /// The number of bits that the setting stands for.
    pub open spec fn count(self) -> u8 {
        match self {
            DataBits::Five => 5,
            DataBits::Six => 6,
            DataBits::Seven => 7,
            DataBits::Eight => 8,
        }
    }
}

impl From<DataBits> for u8 {
    fn from(bits: DataBits) -> (r: u8) {
        match bits {
            DataBits::Five => 5,
            DataBits::Six => 6,
            DataBits::Seven => 7,
            DataBits::Eight => 8,
        }
    }
}

impl vstd::std_specs::convert::FromSpecImpl<DataBits> for u8 {
    open spec fn obeys_from_spec() -> bool {
        true
    }

    open spec fn from_spec(bits: DataBits) -> u8 {
        bits.count()
    }
}

impl TryFrom<u8> for DataBits {
    type Error = ();

    fn try_from(value: u8) -> (r: Result<Self, Self::Error>) {
        match value {
            5 => Ok(DataBits::Five),
            6 => Ok(DataBits::Six),
            7 => Ok(DataBits::Seven),
            8 => Ok(DataBits::Eight),
            _ => Err(()),
        }
    }
}

impl vstd::std_specs::convert::TryFromSpecImpl<u8> for DataBits {
    open spec fn obeys_try_from_spec() -> bool {
        true
    }

    open spec fn try_from_spec(value: u8) -> Result<Self, Self::Error> {
        if value == 5 {
            Ok(DataBits::Five)
        } else if value == 6 {
            Ok(DataBits::Six)
        } else if value == 7 {
            Ok(DataBits::Seven)
        } else if value == 8 {
            Ok(DataBits::Eight)
        } else {
            Err(())
        }
    }
}

/// Parity checking mode.
#[derive(Debug, Clone, Copy, PartialEq, Eq, Hash, Structural)]
pub enum Parity {
    Off,
    Odd,
    Even,
}

/// Number of stop bits.
#[derive(Debug, Clone, Copy, PartialEq, Eq, Hash, Structural)]
pub enum StopBits {
    One,
    Two,
}

impl StopBits {
    /// The number of bits that the setting stands for.
    pub open spec fn count(self) -> u8 {
        match self {
            StopBits::One => 1,
            StopBits::Two => 2,
        }
    }
}

impl From<StopBits> for u8 {
    fn from(bits: StopBits) -> (r: u8) {
        match bits {
            StopBits::One => 1,
            StopBits::Two => 2,
        }
    }
}

impl vstd::std_specs::convert::FromSpecImpl<StopBits> for u8 {
    open spec fn obeys_from_spec() -> bool {
        true
    }

    open spec fn from_spec(bits: StopBits) -> u8 {
        bits.count()
    }
}

impl TryFrom<u8> for StopBits {
    type Error = ();

    fn try_from(value: u8) -> (r: Result<Self, Self::Error>) {
        match value {
            1 => Ok(StopBits::One),
            2 => Ok(StopBits::Two),
            _ => Err(()),
        }
    }
}

impl vstd::std_specs::convert::TryFromSpecImpl<u8> for StopBits {
    open spec fn obeys_try_from_spec() -> bool {
        true
    }

    open spec fn try_from_spec(value: u8) -> Result<Self, Self::Error> {
        if value == 1 {
            Ok(StopBits::One)
        } else if value == 2 {
            Ok(StopBits::Two)
        } else {
            Err(())
        }
    }
}

/// Flow control mode.
#[derive(Debug, Clone, Copy, PartialEq, Eq, Hash, Structural)]
pub enum FlowControl {
    Off,
    Software,
    Hardware,
}

/// Buffer(s) to clear.
#[derive(Debug, Clone, Copy, PartialEq, Eq, Hash, Structural)]
pub enum ClearBuffer {
    All,
    Input,
    Output,
}

/// Settings stand for the numbers that they are named after, and each such number for its setting.
pub proof fn law_numbers_are_the_names(data_bits: DataBits, stop_bits: StopBits, value: u8)
    ensures
        data_bits.count() == 5 <==> data_bits is Five,
        data_bits.count() == 6 <==> data_bits is Six,
        data_bits.count() == 7 <==> data_bits is Seven,
        data_bits.count() == 8 <==> data_bits is Eight,
        stop_bits.count() == 1 <==> stop_bits is One,
        stop_bits.count() == 2 <==> stop_bits is Two,
        <u8 as vstd::std_specs::convert::FromSpec<DataBits>>::from_spec(data_bits)
            == data_bits.count(),
        <u8 as vstd::std_specs::convert::FromSpec<StopBits>>::from_spec(stop_bits)
            == stop_bits.count(),
        <DataBits as vstd::std_specs::convert::TryFromSpec<u8>>::try_from_spec(value) is Ok <==> 5
            <= value <= 8,
        <DataBits as vstd::std_specs::convert::TryFromSpec<u8>>::try_from_spec(value) matches Ok(
            bits,
        ) ==> bits.count() == value,
        <StopBits as vstd::std_specs::convert::TryFromSpec<u8>>::try_from_spec(value) is Ok <==> 1
            <= value <= 2,
        <StopBits as vstd::std_specs::convert::TryFromSpec<u8>>::try_from_spec(value) matches Ok(
            bits,
        ) ==> bits.count() == value,
{
}

} // verus!
