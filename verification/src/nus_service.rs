//! The Nordic UART Service (NUS): deciding what a write from the central
//! to one of the service's attributes means.

use vstd::prelude::*;
use crate::byte_buf::ByteBuf;

verus! {

/// Largest payload of one NUS transfer.
pub const NUS_MAX_LEN: usize = 180;

/// Payload of one NUS transfer.
pub type NusData = ByteBuf<180>;

/// The attribute handles of the service.
pub struct NusService {
    rx_valh: u16,
    tx_valh: u16,
    tx_cccd: u16,
}

/// What a write to the service means.
pub enum NusServiceEvent {
    /// Data written to the RX characteristic.
    RxWrite(NusData),
    /// The central switched TX notifications on or off.
    TxCccdWrite { notifications: bool },
}

impl NusService {
    /// The service registered with these attribute handles: the RX value,
    /// the TX value and the TX client characteristic configuration.
    pub fn from_handles(rx_valh: u16, tx_valh: u16, tx_cccd: u16) -> (s: NusService)
        ensures
            s.rx_value_handle() == rx_valh,
            s.tx_value_handle() == tx_valh,
            s.tx_cccd_handle() == tx_cccd,
    {
        NusService { rx_valh: rx_valh, tx_valh: tx_valh, tx_cccd: tx_cccd }
    }

    /// The handle of the RX characteristic value.
    pub closed spec fn rx_value_handle(&self) -> u16 {
        self.rx_valh
    }

    /// The handle of the TX characteristic value.
    pub closed spec fn tx_value_handle(&self) -> u16 {
        self.tx_valh
    }

    /// The handle of the TX client characteristic configuration descriptor.
    pub closed spec fn tx_cccd_handle(&self) -> u16 {
        self.tx_cccd
    }

    /// The handle of the TX characteristic value, where notifications go.
    pub fn tx_handle(&self) -> (h: u16)
        ensures
            h == self.tx_value_handle(),
    {
        self.tx_valh
    }

    /// Interprets `data` written by the central to attribute `handle`:
    /// a write to the RX value is received data; a non-empty write to the
    /// TX configuration switches notifications by its lowest bit; anything
    /// else means nothing to this service.
    pub fn on_write(&self, handle: u16, data: &[u8]) -> (e: Option<NusServiceEvent>)
        requires
            handle == self.rx_value_handle() ==> data@.len() <= NUS_MAX_LEN,
        ensures
            handle == self.rx_value_handle() ==> (e matches Some(NusServiceEvent::RxWrite(d)) && d@ == data@),
            handle != self.rx_value_handle() && handle == self.tx_cccd_handle() && data@.len() > 0
                ==> (e matches Some(NusServiceEvent::TxCccdWrite { notifications: n })
                    && n == (data@[0] & 1u8 != 0)),
            handle != self.rx_value_handle() && !(handle == self.tx_cccd_handle() && data@.len() > 0)
                ==> e is None,
    {
        if handle == self.rx_valh {
            match NusData::from_slice(data) {
                Ok(d) => {
                    return Some(NusServiceEvent::RxWrite(d));
                },
                Err(()) => {
                    return None;
                },
            }
        }
        if handle == self.tx_cccd && data.len() != 0 {
            return Some(NusServiceEvent::TxCccdWrite { notifications: (data[0] & 0x01) != 0 });
        }
        None
    }
}

/// The letter that the test notifier sends in round `n`: `a` to `z` in turn.
pub fn notifier_letter(n: u32) -> (c: u8)
    ensures
        c == 0x61 + n % 26,
{
    0x61 + (n % 26) as u8
}

} // verus!
