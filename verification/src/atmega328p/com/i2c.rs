//! The two-wire bus as the drivers see it: one register-mapped device that
//! answers at its address. A frame names a register in its first byte; a
//! read appends the content of that register and of those after it, a write
//! stores the rest of the frame there.

use crate::frame::{frame_as_slice, frame_capacity, frame_items, frame_push, frame_room};
use fixed_slice_vec::FixedSliceVec;
use vstd::prelude::*;

verus! {

/// Number of registers that a device on the bus has.
pub const REGISTER_COUNT: usize = 256;

/// The bus with its one device.
pub struct Twi {
    slave: u8,
    registers: [u8; 256],
}

impl View for Twi {
    type V = Seq<u8>;

    closed spec fn view(&self) -> Seq<u8> {
        self.registers@
    }
}

/// The registers after `frame` is written: the bytes behind the first go to
/// the register that the first byte names and to those after it.
pub open spec fn written(registers: Seq<u8>, frame: Seq<u8>) -> Seq<u8> {
    Seq::new(
        registers.len(),
        |i: int|
            if frame[0] <= i < frame[0] + frame.len() - 1 {
                frame[i - frame[0] + 1]
            } else {
                registers[i]
            },
    )
}

impl Twi {
    /// The address at which the device answers.
    pub closed spec fn slave(&self) -> u8 {
        self.slave
    }

    /// Whether a read of `length` bytes at `address` is answered: the
    /// address is the device's, the frame names a register, the registers
    /// asked for exist and the frame has room for them.
    pub open spec fn answers_read(
        &self,
        address: u8,
        length: usize,
        frame: Seq<u8>,
        capacity: nat,
    ) -> bool {
        &&& address == self.slave()
        &&& frame.len() >= 1
        &&& frame[0] + length <= REGISTER_COUNT
        &&& frame.len() + length <= capacity
    }

    /// Whether a write at `address` is answered: the address is the
    /// device's, the frame names a register and the registers written to
    /// exist.
    pub open spec fn answers_write(&self, address: u8, frame: Seq<u8>) -> bool {
        &&& address == self.slave()
        &&& frame.len() >= 1
        &&& frame[0] + frame.len() - 1 <= REGISTER_COUNT
    }

    /// The device has `REGISTER_COUNT` registers.
    pub proof fn lemma_register_count(&self)
        ensures
            self@.len() == REGISTER_COUNT,
    {
    }

    /// A bus whose device answers at `slave` and has every register cleared.
    pub fn new(slave: u8) -> (twi: Twi)
        ensures
            twi.slave() == slave,
            twi@ == Seq::new(REGISTER_COUNT as nat, |i: int| 0u8),
    {
        let registers: [u8; 256] = [0u8; 256];
        assert(registers@ =~= Seq::new(REGISTER_COUNT as nat, |i: int| 0u8));
        Twi { slave, registers }
    }

    /// Reads `length` registers, starting at the one that the frame names,
    /// and appends them to the frame. A read that is not answered leaves the
    /// frame as it was.
    pub fn read_from_slave(&self, address: u8, length: usize, data: &mut FixedSliceVec<u8>) -> (ok:
        bool)
        ensures
            ok == self.answers_read(
                address,
                length,
                frame_items(*old(data)),
                frame_capacity(*old(data)),
            ),
            ok ==> frame_items(*final(data)) == frame_items(*old(data)) + self@.subrange(
                frame_items(*old(data))[0] as int,
                frame_items(*old(data))[0] + length,
            ),
            !ok ==> frame_items(*final(data)) == frame_items(*old(data)),
            frame_capacity(*final(data)) == frame_capacity(*old(data)),
    {
        let held: usize = frame_as_slice(data).len();
        let room: usize = frame_room(data);
        if address != self.slave || held < 1 || held > room || length > room - held {
            return false;
        }
        let first: usize = frame_as_slice(data)[0] as usize;
        if length > REGISTER_COUNT - first {
            return false;
        }
        let mut done: usize = 0;
        while done < length
            invariant
                done <= length,
                first + length <= REGISTER_COUNT,
                held + length <= room,
                held == frame_items(*old(data)).len(),
                room == frame_capacity(*data),
                frame_capacity(*data) == frame_capacity(*old(data)),
                frame_items(*data) == frame_items(*old(data)) + self@.subrange(
                    first as int,
                    first + done,
                ),
            decreases length - done,
        {
            frame_push(data, self.registers[first + done]);
            done = done + 1;
            assert(frame_items(*data) =~= frame_items(*old(data)) + self@.subrange(
                first as int,
                first + done,
            ));
        }
        true
    }

    /// Writes the bytes behind the frame's first to the register that the
    /// first byte names and to those after it. A write that is not answered
    /// changes nothing.
    pub fn write_to_slave(&mut self, address: u8, data: &FixedSliceVec<u8>) -> (ok: bool)
        ensures
            ok == old(self).answers_write(address, frame_items(*data)),
            ok ==> final(self)@ == written(old(self)@, frame_items(*data)),
            !ok ==> final(self)@ == old(self)@,
            final(self).slave() == old(self).slave(),
    {
        let items: &[u8] = frame_as_slice(data);
        if address != self.slave || items.len() < 1 {
            return false;
        }
        let first: usize = items[0] as usize;
        if items.len() - 1 > REGISTER_COUNT - first {
            return false;
        }
        let mut done: usize = 0;
        while done < items.len() - 1
            invariant
                done <= items.len() - 1,
                items.len() >= 1,
                items@ == frame_items(*data),
                first == items@[0],
                first + items.len() - 1 <= REGISTER_COUNT,
                self.slave == old(self).slave,
                forall|i: int|
                    0 <= i < REGISTER_COUNT ==> self.registers@[i] == (if first <= i < first
                        + done {
                        items@[i - first + 1]
                    } else {
                        old(self).registers@[i]
                    }),
            decreases items.len() - 1 - done,
        {
            self.registers[first + done] = items[done + 1];
            done = done + 1;
        }
        assert(self.registers@ =~= written(old(self).registers@, items@));
        true
    }
}

} // verus!
