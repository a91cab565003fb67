//! The report protocol spoken with the keyboard: requests are encoded into
//! fixed-size reports, replies are decoded from them, and the outcome of a
//! write or a read on the device is turned into a response or a device error.

use crate::text::{contains, is_substring, optional_view, push_char};
use std::collections::HashMap;
use vstd::prelude::*;
use vstd::string::StringExecFns;

verus! {

/// Number of bytes in a report.
pub const REPORT_LENGTH: usize = 32;

/// Number of bytes written to the device: the report id, then the report.
pub const FRAME_LENGTH: usize = 33;

/// The report id that precedes every report written to the device.
pub const REPORT_ID: u8 = 0;

/// How long a read waits for the reply, in milliseconds.
pub const READ_TIMEOUT_MS: i32 = 1000;

pub const OPERATION_BOOTLOADER: u8 = 0x42;

pub const OPERATION_GET_LAYER: u8 = 0x43;

pub const OPERATION_CHANGE_LAYER: u8 = 0x44;

pub const OPERATION_GET_LAYERS: u8 = 0x46;

pub const OPERATION_GET_JIGGLER: u8 = 0x47;

pub const OPERATION_SET_JIGGLER: u8 = 0x48;

pub const KEYBOARD_RESPONSE_CURRENT_LAYER: u8 = 0x43;

pub const KEYBOARD_RESPONSE_CURRENT_LAYER_NUM: u8 = 0x44;

pub const KEYBOARD_RESPONSE_JIGGLER_STATUS: u8 = 0x47;

/// The identification by which the keyboard is found among the attached
/// devices.
#[derive(Debug, Clone, Copy, PartialEq, Eq)]
pub struct HidInfo {
    pub vendor_id: u16,
    pub product_id: u16,
    pub usage_page: u16,
    pub usage: u16,
}

impl HidInfo {
    /// `index` is the position of the first of the `attached` devices that
    /// has this identification.
    pub open spec fn is_first_among(self, attached: Seq<HidInfo>, index: int) -> bool {
        &&& 0 <= index < attached.len()
        &&& attached[index] == self
        &&& forall|earlier: int| 0 <= earlier < index ==> attached[earlier] != self
    }

    /// Whether a device with the identification `other` is the keyboard: all
    /// four numbers agree.
    pub fn matches(&self, other: &HidInfo) -> (r: bool)
        ensures
            r == (*self == *other),
    {
        self.vendor_id == other.vendor_id && self.product_id == other.product_id
            && self.usage_page == other.usage_page && self.usage == other.usage
    }

    /// Finds the keyboard among the attached devices, given by their
    /// identifications: the position of the first one that matches, or
    /// `NotFound` where none does.
    pub fn find_among(&self, attached: &Vec<HidInfo>) -> (r: Result<usize, DeviceError>)
        ensures
            match r {
                Ok(index) => self.is_first_among(attached@, index as int),
                Err(error) => error == DeviceError::NotFound && forall|i: int|
                    0 <= i < attached@.len() ==> attached@[i] != *self,
            },
    {
        let mut i: usize = 0;
        while i < attached.len()
            invariant
                i <= attached.len(),
                forall|k: int| 0 <= k < i ==> attached@[k] != *self,
            decreases attached.len() - i,
        {
            if self.matches(&attached[i]) {
                return Ok(i);
            }
            i += 1;
        }
        Err(DeviceError::NotFound)
    }
}

/// A request to the keyboard.
#[derive(Debug, Clone, Copy, PartialEq, Eq)]
pub enum Operation {
    Bootloader,
    GetLayer,
    ChangeLayer(u8),
    GetLayers,
    GetJiggler,
    SetJiggler(bool),
}

impl Operation {
    /// The first byte of the request's report.
    pub open spec fn opcode(self) -> u8 {
        match self {
            Operation::Bootloader => OPERATION_BOOTLOADER,
            Operation::GetLayer => OPERATION_GET_LAYER,
            Operation::ChangeLayer(_) => OPERATION_CHANGE_LAYER,
            Operation::GetLayers => OPERATION_GET_LAYERS,
            Operation::GetJiggler => OPERATION_GET_JIGGLER,
            Operation::SetJiggler(_) => OPERATION_SET_JIGGLER,
        }
    }

    /// The second byte of the request's report: the layer, the flag as 0 or
    /// 1, or 0 for a request without an argument.
    pub open spec fn argument(self) -> u8 {
        match self {
            Operation::ChangeLayer(layer) => layer,
            Operation::SetJiggler(value) => if value {
                1u8
            } else {
                0u8
            },
            _ => 0u8,
        }
    }

    /// The request's report: opcode, argument, then zeros.
    pub open spec fn encoded(self) -> Seq<u8> {
        Seq::new(
            REPORT_LENGTH as nat,
            |i: int|
                if i == 0 {
                    self.opcode()
                } else if i == 1 {
                    self.argument()
                } else {
                    0u8
                },
        )
    }

    /// What is written to the device: the report id, then the report.
    pub open spec fn framed(self) -> Seq<u8> {
        seq![REPORT_ID] + self.encoded()
    }

    /// Encodes the request into its report.
    pub fn report(&self) -> (ret: [u8; 32])
        ensures
            ret@ == self.encoded(),
    {
        let mut ret = [0u8;32];
        match self {
            Operation::Bootloader => {
                ret[0] = OPERATION_BOOTLOADER;
            },
            Operation::GetLayer => {
                ret[0] = OPERATION_GET_LAYER;
            },
            Operation::ChangeLayer(layer) => {
                ret[0] = OPERATION_CHANGE_LAYER;
                ret[1] = *layer;
            },
            Operation::GetLayers => {
                ret[0] = OPERATION_GET_LAYERS;
            },
            Operation::GetJiggler => {
                ret[0] = OPERATION_GET_JIGGLER;
            },
            Operation::SetJiggler(value) => {
                ret[0] = OPERATION_SET_JIGGLER;
                ret[1] = if *value {
                    1
                } else {
                    0
                };
            },
        }
        ret
    }

    /// The bytes to write to the device for this request.
    pub fn frame(&self) -> (ret: [u8; 33])
        ensures
            ret@ == self.framed(),
    {
        let report = self.report();
        let mut buffer = [0u8;33];
        let mut i: usize = 0;
        while i < REPORT_LENGTH
            invariant
                i <= REPORT_LENGTH,
                report@ == self.encoded(),
                buffer@[0] == REPORT_ID,
                forall|k: int| 0 <= k < i ==> buffer@[k + 1] == report@[k],
            decreases REPORT_LENGTH - i,
        {
            buffer[i + 1] = report[i];
            i += 1;
        }
        buffer
    }
}

/// A reply of the keyboard.
#[derive(Debug, Clone, PartialEq, Eq)]
pub enum KeyboardResponse {
    NoData,
    CurrentLayerNum(u8),
    CurrentLayer(u8, String),
    LayerNames(HashMap<u8, String>),
    JigglerStatus(bool),
}

/// A reply of the keyboard, as a mathematical value.
pub enum ResponseView {
    NoData,
    CurrentLayerNum(u8),
    CurrentLayer(u8, Seq<char>),
    LayerNames(Map<u8, Seq<char>>),
    JigglerStatus(bool),
}

impl View for KeyboardResponse {
    type V = ResponseView;

    open spec fn view(&self) -> ResponseView {
        match self {
            KeyboardResponse::NoData => ResponseView::NoData,
            KeyboardResponse::CurrentLayerNum(layer) => ResponseView::CurrentLayerNum(*layer),
            KeyboardResponse::CurrentLayer(layer, name) => ResponseView::CurrentLayer(
                *layer,
                name@,
            ),
            KeyboardResponse::LayerNames(names) => ResponseView::LayerNames(
                names@.map_values(|name: String| name@),
            ),
            KeyboardResponse::JigglerStatus(on) => ResponseView::JigglerStatus(*on),
        }
    }
}

/// A byte that stands for a printable character: a space or a visible ASCII
/// character.
pub open spec fn is_printable(byte: u8) -> bool {
    0x20 <= byte <= 0x7e
}

/// The end of the run of printable bytes that starts at `from`: the first
/// position at or after `from` that holds no printable byte, or the length.
pub open spec fn printable_end(bytes: Seq<u8>, from: int) -> int
    decreases bytes.len() - from,
{
    if from < 0 || from >= bytes.len() || !is_printable(bytes[from]) {
        from
    } else {
        printable_end(bytes, from + 1)
    }
}

/// The layer name carried by a report: the bytes from position 2 up to the
/// first one that is not printable, as characters.
pub open spec fn layer_name(report: Seq<u8>) -> Seq<char> {
    Seq::new((printable_end(report, 2) - 2) as nat, |i: int| report[i + 2] as char)
}

/// The reply that a report of `REPORT_LENGTH` bytes stands for.
pub open spec fn decoded(report: Seq<u8>) -> ResponseView {
    if report[0] == KEYBOARD_RESPONSE_CURRENT_LAYER {
        ResponseView::CurrentLayer(report[1], layer_name(report))
    } else if report[0] == KEYBOARD_RESPONSE_CURRENT_LAYER_NUM {
        ResponseView::CurrentLayerNum(report[1])
    } else if report[0] == KEYBOARD_RESPONSE_JIGGLER_STATUS {
        ResponseView::JigglerStatus(report[1] != 0)
    } else {
        ResponseView::NoData
    }
}

/// The run of printable bytes from `from` ends at or after `from` and within
/// the sequence; every byte in it is printable, and the byte at its end, if
/// there is one, is not.
pub proof fn lemma_printable_end(bytes: Seq<u8>, from: int)
    requires
        0 <= from <= bytes.len(),
    ensures
        from <= printable_end(bytes, from) <= bytes.len(),
        forall|k: int| from <= k < printable_end(bytes, from) ==> is_printable(bytes[k]),
        printable_end(bytes, from) < bytes.len() ==> !is_printable(
            bytes[printable_end(bytes, from)],
        ),
    decreases bytes.len() - from,
{
    if from < bytes.len() && is_printable(bytes[from]) {
        lemma_printable_end(bytes, from + 1);
    }
}

impl KeyboardResponse {
    /// Decodes a report read from the device. The first byte alone decides
    /// the kind of reply; a report of an unknown kind is no error and gives
    /// `NoData`.
    pub fn parse_response(buffer: [u8; 32]) -> (r: KeyboardResponse)
        ensures
            r@ == decoded(buffer@),
    {
        if buffer[0] == KEYBOARD_RESPONSE_CURRENT_LAYER {
            let mut name = String::new();
            let mut i: usize = 2;
            while i < REPORT_LENGTH && 0x20 <= buffer[i] && buffer[i] <= 0x7e
                invariant
                    2 <= i <= REPORT_LENGTH,
                    printable_end(buffer@, i as int) == printable_end(buffer@, 2),
                    name@ == Seq::new((i - 2) as nat, |k: int| buffer@[k + 2] as char),
                decreases REPORT_LENGTH - i,
            {
                push_char(&mut name, buffer[i] as char);
                i += 1;
            }
            KeyboardResponse::CurrentLayer(buffer[1], name)
        } else if buffer[0] == KEYBOARD_RESPONSE_CURRENT_LAYER_NUM {
            KeyboardResponse::CurrentLayerNum(buffer[1])
        } else if buffer[0] == KEYBOARD_RESPONSE_JIGGLER_STATUS {
            KeyboardResponse::JigglerStatus(buffer[1] != 0)
        } else {
            KeyboardResponse::NoData
        }
    }
}

/// Why an exchange with the keyboard failed.
#[derive(Debug, Clone, PartialEq, Eq)]
pub enum DeviceError {
    /// No attached device answers to the identification.
    NotFound,
    /// The report could not be written; the text is the device layer's.
    WriteFailed(String),
    /// The reply could not be read; the text is the device layer's.
    ReadFailed(String),
    /// No reply arrived within the waiting time.
    TimedOut,
    /// The device is no longer present.
    Disconnected,
}

/// Why an exchange with the keyboard failed, as a mathematical value.
pub enum DeviceErrorView {
    NotFound,
    WriteFailed(Seq<char>),
    ReadFailed(Seq<char>),
    TimedOut,
    Disconnected,
}

impl View for DeviceError {
    type V = DeviceErrorView;

    open spec fn view(&self) -> DeviceErrorView {
        match self {
            DeviceError::NotFound => DeviceErrorView::NotFound,
            DeviceError::WriteFailed(message) => DeviceErrorView::WriteFailed(message@),
            DeviceError::ReadFailed(message) => DeviceErrorView::ReadFailed(message@),
            DeviceError::TimedOut => DeviceErrorView::TimedOut,
            DeviceError::Disconnected => DeviceErrorView::Disconnected,
        }
    }
}

/// The words by which the device layer reports that the device is gone.
pub open spec fn disconnected_marker() -> Seq<char> {
    "device disconnected"@
}

/// The failure that a read error with this text stands for.
pub open spec fn read_failure(message: Seq<char>) -> DeviceErrorView {
    if is_substring(disconnected_marker(), message) {
        DeviceErrorView::Disconnected
    } else {
        DeviceErrorView::ReadFailed(message)
    }
}

/// The view of the outcome of an exchange.
pub open spec fn outcome_view(outcome: Result<KeyboardResponse, DeviceError>) -> Result<
    ResponseView,
    DeviceErrorView,
> {
    match outcome {
        Ok(response) => Ok(response@),
        Err(error) => Err(error@),
    }
}

/// What a finished read means: an error of the device layer is a failure,
/// `Disconnected` where its text says so; no byte read within the waiting
/// time is `TimedOut`; anything else is the decoded report.
pub open spec fn read_result(outcome: Result<usize, String>, report: Seq<u8>) -> Result<
    ResponseView,
    DeviceErrorView,
> {
    match outcome {
        Ok(count) => if count == 0 {
            Err(DeviceErrorView::TimedOut)
        } else {
            Ok(decoded(report))
        },
        Err(message) => Err(read_failure(message@)),
    }
}

/// Swaps the two sides of a result.
pub fn transpose<T, U>(result: Result<T, U>) -> (r: Result<U, T>)
    ensures
        r == match result {
            Ok(value) => Err::<U, T>(value),
            Err(error) => Ok::<U, T>(error),
        },
{
    match result {
        Ok(value) => Err(value),
        Err(error) => Ok(error),
    }
}

/// Judges the outcome of writing a frame to the device: the number of bytes
/// written, or the device layer's error text.
pub fn written(outcome: Result<usize, String>) -> (r: Result<(), DeviceError>)
    ensures
        match outcome {
            Ok(_) => r is Ok,
            Err(message) => r matches Err(error) && error@ == DeviceErrorView::WriteFailed(
                message@,
            ),
        },
{
    match outcome {
        Ok(_) => Ok(()),
        Err(message) => Err(DeviceError::WriteFailed(message)),
    }
}

/// Judges the outcome of reading the reply into `buffer`: the number of bytes
/// read, or the device layer's error text. A reply that arrived is always
/// decoded, whatever it holds.
pub fn received(outcome: Result<usize, String>, buffer: [u8; 32]) -> (r: Result<
    KeyboardResponse,
    DeviceError,
>)
    ensures
        outcome_view(r) == read_result(outcome, buffer@),
{
    match outcome {
        Ok(count) => {
            if count == 0 {
                Err(DeviceError::TimedOut)
            } else {
                Ok(KeyboardResponse::parse_response(buffer))
            }
        },
        Err(message) => {
            if contains(message.as_str(), "device disconnected") {
                Err(DeviceError::Disconnected)
            } else {
                Err(DeviceError::ReadFailed(message))
            }
        },
    }
}

/// The character of a decimal digit.
pub open spec fn digit(d: nat) -> char {
    ((48 + d) as u8) as char
}

/// A number in decimal notation.
pub open spec fn decimal(n: nat) -> Seq<char>
    decreases n,
{
    if n < 10 {
        seq![digit(n)]
    } else {
        decimal(n / 10).push(digit(n % 10))
    }
}

/// The line that tells the current layer: the layer's name, after `z ` when
/// the jiggler is on. There is a line only for a reply that names the layer.
pub open spec fn layer_text(layer: ResponseView, jiggler: ResponseView) -> Option<Seq<char>> {
    match layer {
        ResponseView::CurrentLayer(_, name) => if jiggler == ResponseView::JigglerStatus(true) {
            Some("z "@ + name)
        } else {
            Some(name)
        },
        _ => None,
    }
}

/// The line that tells the layer after a change. There is a line only for a
/// reply that gives the layer's number.
pub open spec fn changed_text(response: ResponseView) -> Option<Seq<char>> {
    match response {
        ResponseView::CurrentLayerNum(layer) => Some("Current layer: "@ + decimal(layer as nat)),
        _ => None,
    }
}

/// A number in decimal notation.
pub fn decimal_text(n: u8) -> (r: String)
    ensures
        r@ == decimal(n as nat),
{
    let mut text = String::new();
    if n >= 100 {
        push_char(&mut text, (48 + n / 100) as char);
    }
    if n >= 10 {
        push_char(&mut text, (48 + (n / 10) % 10) as char);
    }
    push_char(&mut text, (48 + n % 10) as char);
    proof {
        reveal_with_fuel(decimal, 3);
    }
    text
}

/// The line to print for the replies to a layer query and a jiggler query.
pub fn layer_line(layer: &KeyboardResponse, jiggler: &KeyboardResponse) -> (r: Option<String>)
    ensures
        optional_view(r) == layer_text(layer@, jiggler@),
{
    match layer {
        KeyboardResponse::CurrentLayer(_, name) => {
            let jiggling = match jiggler {
                KeyboardResponse::JigglerStatus(on) => *on,
                _ => false,
            };
            let mut line = if jiggling {
                String::from_str("z ")
            } else {
                String::new()
            };
            line.append(name.as_str());
            Some(line)
        },
        _ => None,
    }
}

/// The line to print for the reply to a layer change.
pub fn changed_line(response: &KeyboardResponse) -> (r: Option<String>)
    ensures
        optional_view(r) == changed_text(response@),
{
    match response {
        KeyboardResponse::CurrentLayerNum(layer) => {
            let mut line = String::from_str("Current layer: ");
            line.append(decimal_text(*layer).as_str());
            Some(line)
        },
        _ => None,
    }
}

} // verus!
