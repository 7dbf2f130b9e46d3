//! The operations a driver asks of its transport.

use vstd::prelude::*;
use vstd::slice::slice_to_vec;
use crate::command::Command;

verus! {

/// One operation on the panel's bus and control lines.
///
/// A display operation is a list of these, to be carried out in order. How a
/// transfer reaches the wires (chip select, the data/command line, the length of
/// the reset pulse) is the transport's business.
#[derive(Debug, PartialEq, Eq)]
pub enum Transfer {
    /// Pulse the reset line.
    Reset,
    /// Write one command byte, the command's address.
    Command(Command),
    /// Write parameter or pixel bytes for the command sent last.
    Data(Vec<u8>),
    /// Write the data byte `value` `times` times over.
    DataRepeated { value: u8, times: u32 },
    /// Sample the busy line until the controller is idle.
    WaitUntilIdle,
}

/// What a [`Transfer`] stands for in contracts.
pub enum TransferView {
    Reset,
    Command(Command),
    Data(Seq<u8>),
    DataRepeated { value: u8, times: u32 },
    WaitUntilIdle,
}

impl View for Transfer {
    type V = TransferView;

    open spec fn view(&self) -> TransferView {
        match *self {
            Transfer::Reset => TransferView::Reset,
            Transfer::Command(command) => TransferView::Command(command),
            Transfer::Data(bytes) => TransferView::Data(bytes@),
            Transfer::DataRepeated { value, times } => TransferView::DataRepeated { value, times },
            Transfer::WaitUntilIdle => TransferView::WaitUntilIdle,
        }
    }
}

impl DeepView for Transfer {
    type V = TransferView;

    open spec fn deep_view(&self) -> TransferView {
        self@
    }
}

/// A command that takes no parameters.
pub open spec fn cmd(command: Command) -> Seq<TransferView> {
    seq![TransferView::Command(command)]
}

/// A command followed by its parameter bytes.
pub open spec fn cmd_with_data(command: Command, data: Seq<u8>) -> Seq<TransferView> {
    seq![TransferView::Command(command), TransferView::Data(data)]
}

/// One data byte, written `times` times.
pub open spec fn data_x_times(value: u8, times: u32) -> Seq<TransferView> {
    seq![TransferView::DataRepeated { value, times }]
}

/// A pause until the controller reports idle.
pub open spec fn wait_until_idle() -> Seq<TransferView> {
    seq![TransferView::WaitUntilIdle]
}

/// Appends a command without parameters to `plan`.
pub(crate) fn push_cmd(plan: &mut Vec<Transfer>, command: Command)
    ensures
        final(plan).deep_view() == old(plan).deep_view() + cmd(command),
{
    plan.push(Transfer::Command(command));
}

/// Appends a command and a copy of its parameter bytes to `plan`.
pub(crate) fn push_cmd_with_data(plan: &mut Vec<Transfer>, command: Command, data: &[u8])
    ensures
        final(plan).deep_view() == old(plan).deep_view() + cmd_with_data(command, data@),
{
    plan.push(Transfer::Command(command));
    plan.push(Transfer::Data(slice_to_vec(data)));
}

/// Appends a repeated data byte to `plan`.
pub(crate) fn push_data_x_times(plan: &mut Vec<Transfer>, value: u8, times: u32)
    ensures
        final(plan).deep_view() == old(plan).deep_view() + data_x_times(value, times),
{
    plan.push(Transfer::DataRepeated { value, times });
}

/// Appends a wait for the idle level to `plan`.
pub(crate) fn push_wait_until_idle(plan: &mut Vec<Transfer>)
    ensures
        final(plan).deep_view() == old(plan).deep_view() + wait_until_idle(),
{
    plan.push(Transfer::WaitUntilIdle);
}

} // verus!
