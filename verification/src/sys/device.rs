//! Byte-stream device endpoints as the CPU sees them.
//!
//! A `TxDevice` collects every byte the CPU writes with `OUT`; an `RxDevice`
//! queues the bytes the CPU will read with `IN`.  The host moves bytes
//! between these queues and whatever real channel or console it runs.

use vstd::prelude::*;

verus! {

/// An output device: the ordered bytes sent to it, and the sentinel byte the
/// CPU emits on halt so the device's consumer can terminate.
#[derive(Debug)]
pub struct TxDevice {
    pub data: Vec<u8>,
    pub eot_byte: u8,
}

/// The ghost image of a [`TxDevice`].
pub ghost struct TxV {
    pub data: Seq<u8>,
    pub eot_byte: u8,
}

impl View for TxDevice {
    type V = TxV;

    open spec fn view(&self) -> TxV {
        TxV { data: self.data@, eot_byte: self.eot_byte }
    }
}

impl TxDevice {
    pub fn new(eot_byte: u8) -> (d: TxDevice)
        ensures
            d@.data == Seq::<u8>::empty(),
            d@.eot_byte == eot_byte,
    {
        let d = TxDevice { data: Vec::new(), eot_byte };
        proof {
            assert(d@.data =~= Seq::<u8>::empty());
        }
        d
    }
}

/// An input device: the bytes still waiting to be read, oldest first.
#[derive(Debug)]
pub struct RxDevice {
    pub data: Vec<u8>,
}

impl View for RxDevice {
    type V = Seq<u8>;

    open spec fn view(&self) -> Seq<u8> {
        self.data@
    }
}

impl RxDevice {
    pub fn new(data: Vec<u8>) -> (d: RxDevice)
        ensures
            d@ == data@,
    {
        RxDevice { data }
    }
}

} // verus!
