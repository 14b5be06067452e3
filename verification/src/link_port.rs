//! The link port's registers. No second console is ever connected: the
//! registers keep what is written to them and nothing is ever received.

use vstd::prelude::*;

verus! {

/// The link port's state.
#[derive(Clone, Copy, Debug, PartialEq, Eq, Structural)]
pub struct LinkPortState {
    pub control: u8,
    pub aux: u8,
    pub transmit_data: u8,
    pub receive_data: u8,
}

impl LinkPortState {
    pub open spec fn initial() -> LinkPortState {
        LinkPortState { control: 0, aux: 0, transmit_data: 0, receive_data: 0 }
    }
}

pub struct LinkPort {
    control: u8,
    aux: u8,
    transmit_data: u8,
    receive_data: u8,
}

impl View for LinkPort {
    type V = LinkPortState;

    closed spec fn view(&self) -> LinkPortState {
        LinkPortState {
            control: self.control,
            aux: self.aux,
            transmit_data: self.transmit_data,
            receive_data: self.receive_data,
        }
    }
}

impl LinkPort {
    pub fn new() -> (port: LinkPort)
        ensures
            port@ == LinkPortState::initial(),
    {
        LinkPort { control: 0, aux: 0, transmit_data: 0, receive_data: 0 }
    }

    pub fn read_control_reg(&self) -> (r: u8)
        ensures
            r == self@.control,
    {
        self.control
    }

    pub fn write_control_reg(&mut self, value: u8)
        ensures
            final(self)@ == (LinkPortState { control: value, ..old(self)@ }),
    {
        self.control = value;
    }

    pub fn read_aux_reg(&self) -> (r: u8)
        ensures
            r == self@.aux,
    {
        self.aux
    }

    pub fn write_aux_reg(&mut self, value: u8)
        ensures
            final(self)@ == (LinkPortState { aux: value, ..old(self)@ }),
    {
        self.aux = value;
    }

    pub fn read_transmit_data_reg(&self) -> (r: u8)
        ensures
            r == self@.transmit_data,
    {
        self.transmit_data
    }

    pub fn write_transmit_data_reg(&mut self, value: u8)
        ensures
            final(self)@ == (LinkPortState { transmit_data: value, ..old(self)@ }),
    {
        self.transmit_data = value;
    }

    pub fn read_receive_data_reg(&self) -> (r: u8)
        ensures
            r == self@.receive_data,
    {
        self.receive_data
    }
}

} // verus!
