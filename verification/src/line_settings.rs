//! Line settings from and to the notations that users write them in.
use vstd::prelude::*;
use vstd::std_specs::convert::{FromSpec, TryFromSpec};
use vstd::string::*;

use crate::error::{invalid_input, ErrorKind, PortError};
use crate::text::{
    decimal, digit, law_decimal_reads_back, lemma_decimal_digits, lemma_decimal_injective, number,
    push_decimal, same_text,
};
use crate::types::{DataBits, FlowControl, Parity, StopBits};

verus! {

/// `before`, a number, `after`.
fn around_number(before: &str, n: u32, after: &str) -> (r: String)
    ensures
        r@ == before@ + decimal(n as nat) + after@,
{
    let mut text: String = before.to_owned();
    push_decimal(&mut text, n);
    text.append(after);
    text
}

/// `before`, `value`, `after`.
fn around_text(before: &str, value: &str, after: &str) -> (r: String)
    ensures
        r@ == before@ + value@ + after@,
{
    let mut text: String = before.to_owned();
    text.append(value);
    text.append(after);
    text
}

/// Maps `5` to `8` to [`DataBits`].
///
/// Returns [`ErrorKind::InvalidInput`] when `value` is not in range.
pub fn data_bits_from_u8(value: u8) -> (r: Result<DataBits, PortError>)
    ensures
        r is Ok <==> 5 <= value <= 8,
        r matches Ok(bits) ==> bits.count() == value,
        r.ok() == DataBits::try_from_spec(value).ok(),
        r matches Err(e) ==> e.says(
            ErrorKind::InvalidInput,
            "invalid number of data bits: "@ + decimal(value as nat) + " (expected 5–8)"@,
        ),
{
    match value {
        5 => Ok(DataBits::Five),
        6 => Ok(DataBits::Six),
        7 => Ok(DataBits::Seven),
        8 => Ok(DataBits::Eight),
        _ => Err(
            invalid_input(
                around_number("invalid number of data bits: ", value as u32, " (expected 5–8)"),
            ),
        ),
    }
}

/// Maps `1` or `2` to [`StopBits`].
///
/// Returns [`ErrorKind::InvalidInput`] when `value` is not `1` or `2`.
pub fn stop_bits_from_u8(value: u8) -> (r: Result<StopBits, PortError>)
    ensures
        r is Ok <==> 1 <= value <= 2,
        r matches Ok(bits) ==> bits.count() == value,
        r.ok() == StopBits::try_from_spec(value).ok(),
        r matches Err(e) ==> e.says(
            ErrorKind::InvalidInput,
            "invalid number of stop bits: "@ + decimal(value as nat) + " (expected 1 or 2)"@,
        ),
{
    match value {
        1 => Ok(StopBits::One),
        2 => Ok(StopBits::Two),
        _ => Err(
            invalid_input(
                around_number("invalid number of stop bits: ", value as u32, " (expected 1 or 2)"),
            ),
        ),
    }
}

/// The token of a parity.
pub open spec fn parity_token(parity: Parity) -> Seq<char> {
    match parity {
        Parity::Off => "none"@,
        Parity::Even => "even"@,
        Parity::Odd => "odd"@,
    }
}

/// The token of a flow control mode.
pub open spec fn flow_control_token(flow_control: FlowControl) -> Seq<char> {
    match flow_control {
        FlowControl::Off => "none"@,
        FlowControl::Hardware => "hardware"@,
        FlowControl::Software => "software"@,
    }
}

/// Parses lowercase tokens: `none`, `even`, `odd`.
///
/// Returns [`ErrorKind::InvalidInput`] for unrecognized `value`.
pub fn parity_from_str(value: &str) -> (r: Result<Parity, PortError>)
    ensures
        r is Ok <==> exists|parity: Parity| value@ == #[trigger] parity_token(parity),
        forall|parity: Parity| value@ == #[trigger] parity_token(parity) ==> r == Ok::<
            Parity,
            PortError,
        >(parity),
        r matches Err(e) ==> e.says(
            ErrorKind::InvalidInput,
            "invalid parity value: "@ + value@ + " (expected none, even, odd)"@,
        ),
{
    proof {
        reveal_strlit("none");
        reveal_strlit("even");
        reveal_strlit("odd");
        assert("none"@[0] == 'n');
        assert("even"@[0] == 'e');
        assert("odd"@[0] == 'o');
    }
    if same_text(value, "none") {
        assert(value@ == parity_token(Parity::Off));
        Ok(Parity::Off)
    } else if same_text(value, "even") {
        assert(value@ == parity_token(Parity::Even));
        Ok(Parity::Even)
    } else if same_text(value, "odd") {
        assert(value@ == parity_token(Parity::Odd));
        Ok(Parity::Odd)
    } else {
        Err(
            invalid_input(
                around_text("invalid parity value: ", value, " (expected none, even, odd)"),
            ),
        )
    }
}

/// Parses lowercase tokens: `none`, `hardware`, `software`.
///
/// Returns [`ErrorKind::InvalidInput`] for unrecognized `value`.
pub fn flow_control_from_str(value: &str) -> (r: Result<FlowControl, PortError>)
    ensures
        r is Ok <==> exists|mode: FlowControl| value@ == #[trigger] flow_control_token(mode),
        forall|mode: FlowControl| value@ == #[trigger] flow_control_token(mode) ==> r == Ok::<
            FlowControl,
            PortError,
        >(mode),
        r matches Err(e) ==> e.says(
            ErrorKind::InvalidInput,
            "invalid flow control value: "@ + value@ + " (expected none, hardware, software)"@,
        ),
{
    proof {
        reveal_strlit("none");
        reveal_strlit("hardware");
        reveal_strlit("software");
        assert("none"@[0] == 'n');
        assert("hardware"@[0] == 'h');
        assert("software"@[0] == 's');
    }
    if same_text(value, "none") {
        assert(value@ == flow_control_token(FlowControl::Off));
        Ok(FlowControl::Off)
    } else if same_text(value, "hardware") {
        assert(value@ == flow_control_token(FlowControl::Hardware));
        Ok(FlowControl::Hardware)
    } else if same_text(value, "software") {
        assert(value@ == flow_control_token(FlowControl::Software));
        Ok(FlowControl::Software)
    } else {
        Err(
            invalid_input(
                around_text(
                    "invalid flow control value: ",
                    value,
                    " (expected none, hardware, software)",
                ),
            ),
        )
    }
}

/// The letter of a parity in conventional notation.
pub open spec fn parity_letter(parity: Parity) -> Seq<char> {
    match parity {
        Parity::Off => "N"@,
        Parity::Even => "E"@,
        Parity::Odd => "O"@,
    }
}

/// Single-letter parity in conventional notation (`N` / `E` / `O`).
pub fn parity_to_conventional_letter(parity: Parity) -> (r: &'static str)
    ensures
        r@ == parity_letter(parity),
{
    match parity {
        Parity::Off => "N",
        Parity::Even => "E",
        Parity::Odd => "O",
    }
}

/// The conventional notation of line settings.
pub open spec fn conventional_settings(
    baud_rate: u32,
    data_bits: DataBits,
    parity: Parity,
    stop_bits: StopBits,
) -> Seq<char> {
    decimal(baud_rate as nat) + "/"@ + decimal(data_bits.count() as nat) + "/"@ + parity_letter(
        parity,
    ) + "/"@ + decimal(stop_bits.count() as nat)
}

/// Formats `<baud>/<data bits>/<parity letter>/<stop bits count>`, e.g. `115200/8/N/1`.
pub fn format_conventional_settings(
    baud_rate: u32,
    data_bits: DataBits,
    parity: Parity,
    stop_bits: StopBits,
) -> (r: String)
    ensures
        r@ == conventional_settings(baud_rate, data_bits, parity, stop_bits),
{
    let data: u8 = u8::from(data_bits);
    let parity_ch: &'static str = parity_to_conventional_letter(parity);
    let stop: u8 = u8::from(stop_bits);
    let mut text: String = String::new();
    push_decimal(&mut text, baud_rate);
    text.append("/");
    push_decimal(&mut text, data as u32);
    text.append("/");
    text.append(parity_ch);
    text.append("/");
    push_decimal(&mut text, stop as u32);
    text
}

/// A number of bits that is accepted comes back when it is asked for, and a setting comes back
/// from its number of bits.
pub proof fn law_bits_round_trip(value: u8, data_bits: DataBits, stop_bits: StopBits)
    ensures
        DataBits::try_from_spec(value) matches Ok(bits) ==> u8::from_spec(bits) == value,
        StopBits::try_from_spec(value) matches Ok(bits) ==> u8::from_spec(bits) == value,
        DataBits::try_from_spec(u8::from_spec(data_bits)) == Ok::<DataBits, ()>(data_bits),
        StopBits::try_from_spec(u8::from_spec(stop_bits)) == Ok::<StopBits, ()>(stop_bits),
{
}

/// Different settings have different tokens and letters.
pub proof fn law_tokens_are_distinct(p: Parity, q: Parity, f: FlowControl, g: FlowControl)
    ensures
        parity_token(p) == parity_token(q) ==> p == q,
        parity_letter(p) == parity_letter(q) ==> p == q,
        flow_control_token(f) == flow_control_token(g) ==> f == g,
{
    reveal_strlit("none");
    reveal_strlit("even");
    reveal_strlit("odd");
    reveal_strlit("hardware");
    reveal_strlit("software");
    reveal_strlit("N");
    reveal_strlit("E");
    reveal_strlit("O");
    assert("none"@[0] == 'n' && "even"@[0] == 'e' && "odd"@[0] == 'o');
    assert("hardware"@[0] == 'h' && "software"@[0] == 's');
    assert("N"@[0] == 'N' && "E"@[0] == 'E' && "O"@[0] == 'O');
}

/// Texts that stay apart from what follows them by a slash are equal when the whole is.
proof fn lemma_first_part(a: Seq<char>, x: Seq<char>, b: Seq<char>, y: Seq<char>)
    requires
        a + "/"@ + x == b + "/"@ + y,
        forall|i: int| 0 <= i < a.len() ==> #[trigger] a[i] != '/',
        forall|i: int| 0 <= i < b.len() ==> #[trigger] b[i] != '/',
    ensures
        a == b,
        x == y,
{
    reveal_strlit("/");
    let s = a + "/"@ + x;
    let t = b + "/"@ + y;
    assert(s[a.len() as int] == '/');
    assert(t[b.len() as int] == '/');
    if a.len() < b.len() {
        assert(t[a.len() as int] == b[a.len() as int]);
    }
    if b.len() < a.len() {
        assert(s[b.len() as int] == a[b.len() as int]);
    }
    assert(s.take(a.len() as int) =~= a);
    assert(t.take(b.len() as int) =~= b);
    assert(s.skip(a.len() as int + 1) =~= x);
    assert(t.skip(b.len() as int + 1) =~= y);
}

/// The conventional notation says which line settings it stands for.
pub proof fn law_conventional_settings_tell(
    a: (u32, DataBits, Parity, StopBits),
    b: (u32, DataBits, Parity, StopBits),
)
    requires
        conventional_settings(a.0, a.1, a.2, a.3) == conventional_settings(b.0, b.1, b.2, b.3),
    ensures
        a == b,
{
    let (ar, br) = (decimal(a.0 as nat), decimal(b.0 as nat));
    let (ad, bd) = (decimal(a.1.count() as nat), decimal(b.1.count() as nat));
    let (ap, bp) = (parity_letter(a.2), parity_letter(b.2));
    let (asb, bsb) = (decimal(a.3.count() as nat), decimal(b.3.count() as nat));
    lemma_decimal_digits(a.0 as nat);
    lemma_decimal_digits(b.0 as nat);
    lemma_decimal_digits(a.1.count() as nat);
    lemma_decimal_digits(b.1.count() as nat);
    reveal_strlit("N");
    reveal_strlit("E");
    reveal_strlit("O");
    let slash = "/"@;
    let ax = ad + slash + (ap + slash + asb);
    let bx = bd + slash + (bp + slash + bsb);
    assert(conventional_settings(a.0, a.1, a.2, a.3) =~= ar + slash + ax);
    assert(conventional_settings(b.0, b.1, b.2, b.3) =~= br + slash + bx);
    lemma_first_part(ar, ax, br, bx);
    lemma_first_part(ad, ap + slash + asb, bd, bp + slash + bsb);
    lemma_first_part(ap, asb, bp, bsb);
    lemma_decimal_injective(a.0 as nat, b.0 as nat);
    lemma_decimal_injective(a.1.count() as nat, b.1.count() as nat);
    lemma_decimal_injective(a.3.count() as nat, b.3.count() as nat);
    law_tokens_are_distinct(a.2, b.2, FlowControl::Off, FlowControl::Off);
}

/// The conventional notation reads back, whatever the settings: four parts between slashes, which
/// are the rate, the number of data bits, the first letter of the parity's name (`N` for none),
/// and the number of stop bits.
pub proof fn law_conventional_settings_read_back(
    baud_rate: u32,
    data_bits: DataBits,
    parity: Parity,
    stop_bits: StopBits,
)
    ensures
        ({
            let text = conventional_settings(baud_rate, data_bits, parity, stop_bits);
            let n = text.len();
            let rate = text.take(n - 6);
            &&& n > 6
            &&& number(rate) == baud_rate
            &&& forall|i: int| 0 <= i < rate.len() ==> '0' <= #[trigger] rate[i] <= '9'
            &&& baud_rate > 0 ==> rate[0] != '0'
            &&& baud_rate == 0 ==> rate.len() == 1
            &&& text[n - 6] == '/' && text[n - 4] == '/' && text[n - 2] == '/'
            &&& text[n - 5] == '5' <==> data_bits is Five
            &&& text[n - 5] == '6' <==> data_bits is Six
            &&& text[n - 5] == '7' <==> data_bits is Seven
            &&& text[n - 5] == '8' <==> data_bits is Eight
            &&& text[n - 3] == 'N' <==> parity is Off
            &&& text[n - 3] == 'E' <==> parity is Even
            &&& text[n - 3] == 'O' <==> parity is Odd
            &&& text[n - 1] == '1' <==> stop_bits is One
            &&& text[n - 1] == '2' <==> stop_bits is Two
        }),
{
    let text = conventional_settings(baud_rate, data_bits, parity, stop_bits);
    let rate = decimal(baud_rate as nat);
    let data = digit(data_bits.count() as nat);
    let letter = parity_letter(parity)[0];
    let stop = digit(stop_bits.count() as nat);
    law_decimal_reads_back(baud_rate as nat);
    reveal_strlit("/");
    reveal_strlit("N");
    reveal_strlit("E");
    reveal_strlit("O");
    assert(text =~= rate + seq!['/', data, '/', letter, '/', stop]);
    assert(text.take(text.len() - 6) =~= rate);
}

/// The tokens are the lowercase names, and the letters their first letters (`N` for none).
pub proof fn law_tokens_are_the_names(parity: Parity, flow_control: FlowControl)
    ensures
        parity_token(parity) == "none"@ <==> parity is Off,
        parity_token(parity) == "even"@ <==> parity is Even,
        parity_token(parity) == "odd"@ <==> parity is Odd,
        flow_control_token(flow_control) == "none"@ <==> flow_control is Off,
        flow_control_token(flow_control) == "hardware"@ <==> flow_control is Hardware,
        flow_control_token(flow_control) == "software"@ <==> flow_control is Software,
        parity_letter(parity) == "N"@ <==> parity is Off,
        parity_letter(parity) == "E"@ <==> parity is Even,
        parity_letter(parity) == "O"@ <==> parity is Odd,
{
    law_tokens_are_distinct(parity, Parity::Off, flow_control, FlowControl::Off);
    law_tokens_are_distinct(parity, Parity::Even, flow_control, FlowControl::Hardware);
    law_tokens_are_distinct(parity, Parity::Odd, flow_control, FlowControl::Software);
}

} // verus!
