//! The memory bus: 64KB of byte-addressable space in which low RAM is
//! mirrored four times and a window of eight device registers is mirrored
//! through `0x3FFF`.
use vstd::prelude::*;

verus! {

/// First address of the device-register window.
pub const REGISTER_BASE: u16 = 0x2000;

/// First address above the device-register window.
pub const UPPER_BASE: u16 = 0x4000;

/// Bytes of physical RAM behind `0x0000..=0x1FFF`.
pub const RAM_SIZE: usize = 0x0800;

/// Bytes of plain storage behind `0x4000..=0xFFFF`.
pub const UPPER_SIZE: usize = 0xC000;

/// A memory-mapped device behind the register window.
///
/// The bus hands a device only the canonical register addresses
/// `0x2000..=0x2007`. What a read returns is a function of the device's
/// model, and a write moves the model as `afterWrite` says.
pub trait Device {
    /// The mathematical state of the device.
    type Model;

    /// The state that this device is in.
    spec fn model(&self) -> Self::Model;

    /// The byte that the register at `address` shows in state `model`.
    spec fn registerValue(model: Self::Model, address: u16) -> u8;

    /// The state that follows `model` once `data` was written to `address`.
    spec fn afterWrite(model: Self::Model, address: u16, data: u8) -> Self::Model;

    /// Reads the register at `address`.
    fn readRegister(&self, address: u16) -> (data: u8)
        requires
            REGISTER_BASE <= address < REGISTER_BASE + 8,
        ensures
            data == Self::registerValue(self.model(), address),
    ;

    /// Writes `data` to the register at `address`.
    fn writeRegister(&mut self, address: u16, data: u8)
        requires
            REGISTER_BASE <= address < REGISTER_BASE + 8,
        ensures
            final(self).model() == Self::afterWrite(old(self).model(), address, data),
    ;
}

/// The register window with no device behind it: a read returns the byte
/// last written into the window, and a write does nothing but leave that byte.
#[derive(Clone, Copy, Debug)]
pub struct Unattached {
    /// The byte that the window shows.
    pub lastWritten: u8,
}

impl Device for Unattached {
    type Model = u8;

    open spec fn model(&self) -> u8 {
        self.lastWritten
    }

    open spec fn registerValue(model: u8, address: u16) -> u8 {
        model
    }

    open spec fn afterWrite(model: u8, address: u16, data: u8) -> u8 {
        data
    }

    fn readRegister(&self, address: u16) -> (data: u8) {
        self.lastWritten
    }

    fn writeRegister(&mut self, address: u16, data: u8) {
        self.lastWritten = data;
    }
}

/// Whether `address` lies in the mirrored low RAM.
pub open spec fn inRam(address: u16) -> bool {
    address < REGISTER_BASE
}

/// Whether `address` lies in the device-register window.
pub open spec fn inRegisterWindow(address: u16) -> bool {
    REGISTER_BASE <= address < UPPER_BASE
}

/// The cell of physical RAM that a low address stands for.
pub open spec fn ramIndex(address: u16) -> int {
    address as int % 0x0800
}

/// The register that an address of the window stands for.
pub open spec fn registerAddress(address: u16) -> u16 {
    (0x2000 + address as int % 8) as u16
}

/// The cell of upper storage that an address from `0x4000` on stands for.
pub open spec fn upperIndex(address: u16) -> int {
    address as int - 0x4000
}

/// Whether two addresses stand for one cell of plain storage: two low
/// addresses that are mirrors of each other, or one address above the
/// register window.
pub open spec fn sameCell(first: u16, second: u16) -> bool {
    if inRam(first) {
        inRam(second) && ramIndex(first) == ramIndex(second)
    } else {
        !inRegisterWindow(first) && first == second
    }
}

/// What a bus holds: the physical RAM, the storage above the register
/// window, and the state of the device behind the window.
pub ghost struct BusModel<D: Device> {
    pub ram: Seq<u8>,
    pub upper: Seq<u8>,
    pub device: D::Model,
}

impl<D: Device> BusModel<D> {
    pub open spec fn wf(self) -> bool {
        &&& self.ram.len() == RAM_SIZE
        &&& self.upper.len() == UPPER_SIZE
    }

    /// The byte that a read of `address` returns.
    pub open spec fn value(self, address: u16) -> u8 {
        if inRam(address) {
            self.ram[ramIndex(address)]
        } else if inRegisterWindow(address) {
            D::registerValue(self.device, registerAddress(address))
        } else {
            self.upper[upperIndex(address)]
        }
    }

    /// The bus after `data` was written to `address`.
    pub open spec fn store(self, address: u16, data: u8) -> Self {
        if inRam(address) {
            BusModel { ram: self.ram.update(ramIndex(address), data), ..self }
        } else if inRegisterWindow(address) {
            BusModel {
                device: D::afterWrite(self.device, registerAddress(address), data),
                ..self
            }
        } else {
            BusModel { upper: self.upper.update(upperIndex(address), data), ..self }
        }
    }
}

impl<D: Device> BusModel<D> {
    /// A write keeps the sizes of the storage.
    pub proof fn lemma_store_keeps_wf(self, address: u16, data: u8)
        requires
            self.wf(),
        ensures
            self.store(address, data).wf(),
    {
    }

    /// A byte written to plain storage is read back at the address it was
    /// written to and at every mirror of that address.
    pub proof fn lemma_store_is_seen_at_every_alias(self, address: u16, alias: u16, data: u8)
        requires
            self.wf(),
            sameCell(address, alias),
        ensures
            self.store(address, data).value(alias) == data,
    {
    }

    /// A byte written to the first 2KB is read back at the three mirrors
    /// `0x0800`, `0x1000` and `0x1800` above its address.
    pub proof fn lemma_low_ram_is_mirrored(self, address: u16, data: u8)
        requires
            self.wf(),
            address < 0x0800,
        ensures
            self.store(address, data).value(address) == data,
            self.store(address, data).value((address + 0x0800) as u16) == data,
            self.store(address, data).value((address + 0x1000) as u16) == data,
            self.store(address, data).value((address + 0x1800) as u16) == data,
    {
    }

    /// A write, wherever it goes, leaves every other cell of plain storage
    /// as it was.
    pub proof fn lemma_store_keeps_other_cells(self, address: u16, other: u16, data: u8)
        requires
            self.wf(),
            !inRegisterWindow(other),
            !sameCell(address, other),
        ensures
            self.store(address, data).value(other) == self.value(other),
    {
    }

    /// A write outside the register window leaves the device as it was,
    /// and one inside it leaves the storage as it was.
    pub proof fn lemma_store_goes_one_way(self, address: u16, data: u8)
        ensures
            !inRegisterWindow(address) ==> self.store(address, data).device == self.device,
            inRegisterWindow(address) ==> self.store(address, data).ram == self.ram
                && self.store(address, data).upper == self.upper && self.store(
                address,
                data,
            ).device == D::afterWrite(self.device, registerAddress(address), data),
    {
    }
}

/// The memory bus with the device `D` behind its register window.
pub struct Bus<D: Device> {
    ram: [u8; 0x0800],
    upper: [u8; 0xC000],
    device: D,
}

impl<D: Device> View for Bus<D> {
    type V = BusModel<D>;

    closed spec fn view(&self) -> BusModel<D> {
        BusModel { ram: self.ram@, upper: self.upper@, device: self.device.model() }
    }
}

impl<D: Device> Bus<D> {
    /// A bus whose storage is all zero, with `device` behind the window.
    pub fn new(device: D) -> (bus: Self)
        ensures
            bus@.wf(),
            bus@.device == device.model(),
            forall|address: u16| !inRegisterWindow(address) ==> #[trigger] bus@.value(address) == 0,
    {
        Bus { ram: [0u8; 0x0800], upper: [0u8; 0xC000], device }
    }

    /// The device behind the register window.
    pub fn device(&self) -> (device: &D)
        ensures
            device.model() == self@.device,
    {
        &self.device
    }

    /// The device behind the register window, to work on between two steps.
    pub fn deviceMut(&mut self) -> (device: &mut D)
        ensures
            device.model() == old(self)@.device,
            final(self)@ == (BusModel::<D> { device: final(device).model(), ..old(self)@ }),
    {
        &mut self.device
    }

    /// Every bus holds 2KB of RAM and 48KB of upper storage.
    pub proof fn lemma_wf(self)
        ensures
            self@.wf(),
    {
    }
}

/// Reads the byte at `location`.
pub fn read<D: Device>(bus: &Bus<D>, location: u16) -> (data: u8)
    ensures
        data == bus@.value(location),
{
    if location < REGISTER_BASE {
        bus.ram[(location % 0x0800) as usize]
    } else if location < UPPER_BASE {
        bus.device.readRegister(REGISTER_BASE + location % 8)
    } else {
        bus.upper[(location - UPPER_BASE) as usize]
    }
}

/// Writes `data` to `location`.
pub fn write<D: Device>(bus: &mut Bus<D>, location: u16, data: u8)
    ensures
        final(bus)@ == old(bus)@.store(location, data),
{
    if location < REGISTER_BASE {
        bus.ram[(location % 0x0800) as usize] = data;
    } else if location < UPPER_BASE {
        bus.device.writeRegister(REGISTER_BASE + location % 8, data);
    } else {
        bus.upper[(location - UPPER_BASE) as usize] = data;
    }
}

} // verus!
