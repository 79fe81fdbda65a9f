//! Machine addresses: the network/node/unit triplet identifying a
//! device, laid out as three consecutive bytes with no padding.

use vstd::prelude::*;

verus! {

/// A machine address as laid out on the wire.
#[derive(Debug, Default, Copy, Clone, Eq, PartialEq, Structural)]
pub struct RawMachineAddress {
    pub network: u8,
    pub node: u8,
    pub unit: u8,
}

/// The three wire bytes of a machine address, in order.
pub open spec fn spec_machine_address_bytes(addr: MachineAddress) -> Seq<u8> {
    seq![addr.network, addr.node, addr.unit]
}

impl RawMachineAddress {
    /// Direct field copies; every byte value is structurally valid, so
    /// this cannot fail.
    pub fn deserialize(self) -> (r: MachineAddress)
        ensures
            r == (MachineAddress { network: self.network, node: self.node, unit: self.unit }),
    {
        let Self { network, node, unit } = self;
        MachineAddress { network, node, unit }
    }
}

/// A device on a FINS network: network number, node number, unit
/// number.  Node-address semantics are an application concern; any
/// byte values are structurally valid.
#[derive(Debug, Copy, Clone, Eq, PartialEq, Structural)]
pub struct MachineAddress {
    pub network: u8,
    pub node: u8,
    pub unit: u8,
}

impl MachineAddress {
    /// Direct field copies onto the wire layout.
    pub fn serialize(&self) -> (r: RawMachineAddress)
        ensures
            r == (RawMachineAddress {
                network: self.network,
                node: self.node,
                unit: self.unit,
            }),
    {
        RawMachineAddress { network: self.network, node: self.node, unit: self.unit }
    }
}

} // verus!
