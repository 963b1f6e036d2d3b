use vstd::prelude::*;

verus! {

/// A write-only serial port. Every byte that the guest stores in its
/// transmit register is kept until the host takes it out.
pub struct DeviceUart {
    out: Vec<u8>,
}

impl View for DeviceUart {
    type V = Seq<u8>;

    /// The bytes written and not yet taken, oldest first.
    closed spec fn view(&self) -> Seq<u8> {
        self.out@
    }
}

impl DeviceUart {
    pub fn new() -> (u: Self)
        ensures
            u@ == Seq::<u8>::empty(),
    {
        DeviceUart { out: Vec::new() }
    }

    /// The name that a serial port goes by on a bus.
    pub fn get_name(&self) -> (name: &'static str)
        ensures
            name@ == "UART"@,
    {
        "UART"
    }

    /// A read of the port: it has no receiver, so every read gives zero.
    pub fn read(&self, off: u64, len: u64) -> (r: u64)
        ensures
            r == 0,
    {
        0
    }

    /// A store to the port transmits the low byte of `data`.
    pub fn write(&mut self, off: u64, data: u64, len: u64)
        ensures
            final(self)@ == old(self)@.push((data % 256) as u8),
    {
        self.out.push((data % 256) as u8);
    }

    /// Hands over what was transmitted since the last call.
    pub fn take_output(&mut self) -> (taken: Vec<u8>)
        ensures
            taken@ == old(self)@,
            final(self)@ == Seq::<u8>::empty(),
    {
        let mut taken: Vec<u8> = Vec::new();
        std::mem::swap(&mut taken, &mut self.out);
        taken
    }
}

} // verus!
