//! The in-memory data mapping a slave exposes: four independently sized
//! object spaces, all bounds-checked, with index 0 as the mapping's own
//! base. Turning a wire address into a mapping index is the dispatcher's
//! business, not the mapping's.

use vstd::prelude::*;
use crate::ModbusError;

verus! {

/// The mathematical shape of a mapping: four independent sequences.
pub struct MapModel {
    pub bits: Seq<bool>,
    pub input_bits: Seq<bool>,
    pub registers: Seq<u16>,
    pub input_registers: Seq<u16>,
}

/// The four Modbus object spaces of one slave: coils, discrete inputs,
/// holding registers and input registers.
#[derive(Debug, PartialEq, Eq)]
pub struct ModbusMapping {
    bits: Vec<bool>,
    input_bits: Vec<bool>,
    registers: Vec<u16>,
    input_registers: Vec<u16>,
}

impl View for ModbusMapping {
    type V = MapModel;

    closed spec fn view(&self) -> MapModel {
        MapModel {
            bits: self.bits@,
            input_bits: self.input_bits@,
            registers: self.registers@,
            input_registers: self.input_registers@,
        }
    }
}

/// `target` with `values` written at `start`, everything else kept.
pub open spec fn written<T>(target: Seq<T>, start: int, values: Seq<T>) -> Seq<T> {
    target.take(start) + values + target.skip(start + values.len())
}

fn zero_bools(n: usize) -> (v: Vec<bool>)
    ensures
        v@ == Seq::new(n as nat, |i: int| false),
{
    let mut v: Vec<bool> = Vec::new();
    let mut i: usize = 0;
    while i < n
        invariant
            i <= n,
            v@.len() == i,
            forall|k: int| 0 <= k < i ==> !v@[k],
        decreases n - i,
    {
        v.push(false);
        i += 1;
    }
    proof {
        assert(v@ =~= Seq::new(n as nat, |i: int| false));
    }
    v
}

fn zero_regs(n: usize) -> (v: Vec<u16>)
    ensures
        v@ == Seq::new(n as nat, |i: int| 0u16),
{
    let mut v: Vec<u16> = Vec::new();
    let mut i: usize = 0;
    while i < n
        invariant
            i <= n,
            v@.len() == i,
            forall|k: int| 0 <= k < i ==> v@[k] == 0u16,
        decreases n - i,
    {
        v.push(0);
        i += 1;
    }
    proof {
        assert(v@ =~= Seq::new(n as nat, |i: int| 0u16));
    }
    v
}

impl ModbusMapping {
    /// Allocates the four object spaces, each zero-initialised, with the
    /// sizes given; negative sizes are rejected.
    pub fn new(
        number_bits: i32,
        number_input_bits: i32,
        number_registers: i32,
        number_input_registers: i32,
    ) -> (r: Result<ModbusMapping, ModbusError>)
        ensures
            match r {
                Ok(m) => {
                    &&& number_bits >= 0
                    &&& number_input_bits >= 0
                    &&& number_registers >= 0
                    &&& number_input_registers >= 0
                    &&& m@.bits == Seq::new(number_bits as nat, |i: int| false)
                    &&& m@.input_bits == Seq::new(number_input_bits as nat, |i: int| false)
                    &&& m@.registers == Seq::new(number_registers as nat, |i: int| 0u16)
                    &&& m@.input_registers == Seq::new(number_input_registers as nat, |i: int| 0u16)
                },
                Err(e) => {
                    &&& e == ModbusError::InvalidConfiguration
                    &&& (number_bits < 0 || number_input_bits < 0 || number_registers < 0
                        || number_input_registers < 0)
                },
            },
    {
        if number_bits < 0 || number_input_bits < 0 || number_registers < 0
            || number_input_registers < 0 {
            return Err(ModbusError::InvalidConfiguration);
        }
        Ok(ModbusMapping {
            bits: zero_bools(number_bits as usize),
            input_bits: zero_bools(number_input_bits as usize),
            registers: zero_regs(number_registers as usize),
            input_registers: zero_regs(number_input_registers as usize),
        })
    }

    /// Releases the four object spaces, leaving every space empty.
    pub fn free(&mut self)
        ensures
            final(self)@.bits.len() == 0,
            final(self)@.input_bits.len() == 0,
            final(self)@.registers.len() == 0,
            final(self)@.input_registers.len() == 0,
    {
        self.bits.clear();
        self.input_bits.clear();
        self.registers.clear();
        self.input_registers.clear();
    }

    /// How many coils the mapping holds.
    pub fn nb_bits(&self) -> (n: usize)
        ensures
            n == self@.bits.len(),
    {
        self.bits.len()
    }

    /// How many discrete inputs the mapping holds.
    pub fn nb_input_bits(&self) -> (n: usize)
        ensures
            n == self@.input_bits.len(),
    {
        self.input_bits.len()
    }

    /// How many holding registers the mapping holds.
    pub fn nb_registers(&self) -> (n: usize)
        ensures
            n == self@.registers.len(),
    {
        self.registers.len()
    }

    /// How many input registers the mapping holds.
    pub fn nb_input_registers(&self) -> (n: usize)
        ensures
            n == self@.input_registers.len(),
    {
        self.input_registers.len()
    }

    /// Reads `count` coils starting at `start`.
    pub fn read_bits(&self, start: usize, count: usize) -> (r: Result<Vec<bool>, ModbusError>)
        ensures
            match r {
                Ok(v) => start + count <= self@.bits.len()
                    && v@ == self@.bits.subrange(start as int, start + count),
                Err(e) => e == ModbusError::OutOfRange && start + count > self@.bits.len(),
            },
    {
        if start > self.bits.len() || count > self.bits.len() - start {
            return Err(ModbusError::OutOfRange);
        }
        Ok(vstd::slice::slice_to_vec(
            vstd::slice::slice_subrange(self.bits.as_slice(), start, start + count),
        ))
    }

    /// Reads `count` discrete inputs starting at `start`.
    pub fn read_input_bits(&self, start: usize, count: usize) -> (r: Result<
        Vec<bool>,
        ModbusError,
    >)
        ensures
            match r {
                Ok(v) => start + count <= self@.input_bits.len()
                    && v@ == self@.input_bits.subrange(start as int, start + count),
                Err(e) => e == ModbusError::OutOfRange && start + count > self@.input_bits.len(),
            },
    {
        if start > self.input_bits.len() || count > self.input_bits.len() - start {
            return Err(ModbusError::OutOfRange);
        }
        Ok(vstd::slice::slice_to_vec(
            vstd::slice::slice_subrange(self.input_bits.as_slice(), start, start + count),
        ))
    }

    /// Reads `count` holding registers starting at `start`.
    pub fn read_registers(&self, start: usize, count: usize) -> (r: Result<Vec<u16>, ModbusError>)
        ensures
            match r {
                Ok(v) => start + count <= self@.registers.len()
                    && v@ == self@.registers.subrange(start as int, start + count),
                Err(e) => e == ModbusError::OutOfRange && start + count > self@.registers.len(),
            },
    {
        if start > self.registers.len() || count > self.registers.len() - start {
            return Err(ModbusError::OutOfRange);
        }
        Ok(vstd::slice::slice_to_vec(
            vstd::slice::slice_subrange(self.registers.as_slice(), start, start + count),
        ))
    }

    /// Reads `count` input registers starting at `start`.
    pub fn read_input_registers(&self, start: usize, count: usize) -> (r: Result<
        Vec<u16>,
        ModbusError,
    >)
        ensures
            match r {
                Ok(v) => start + count <= self@.input_registers.len()
                    && v@ == self@.input_registers.subrange(start as int, start + count),
                Err(e) => e == ModbusError::OutOfRange
                    && start + count > self@.input_registers.len(),
            },
    {
        if start > self.input_registers.len() || count > self.input_registers.len() - start {
            return Err(ModbusError::OutOfRange);
        }
        Ok(vstd::slice::slice_to_vec(
            vstd::slice::slice_subrange(self.input_registers.as_slice(), start, start + count),
        ))
    }

    /// Writes `values` over the coils starting at `start`; on failure the
    /// mapping is unchanged.
    pub fn write_bits(&mut self, start: usize, values: &[bool]) -> (r: Result<(), ModbusError>)
        ensures
            match r {
                Ok(()) => start + values@.len() <= old(self)@.bits.len()
                    && final(self)@.bits == written(old(self)@.bits, start as int, values@),
                Err(e) => e == ModbusError::OutOfRange
                    && start + values@.len() > old(self)@.bits.len()
                    && final(self)@.bits == old(self)@.bits,
            },
            final(self)@.input_bits == old(self)@.input_bits,
            final(self)@.registers == old(self)@.registers,
            final(self)@.input_registers == old(self)@.input_registers,
    {
        if start > self.bits.len() || values.len() > self.bits.len() - start {
            return Err(ModbusError::OutOfRange);
        }
        let mut i: usize = 0;
        while i < values.len()
            invariant
                i <= values@.len(),
                start + values@.len() <= self.bits@.len(),
                self.bits@.len() <= usize::MAX,
                self.bits@.len() == old(self)@.bits.len(),
                forall|k: int| 0 <= k < i ==> self.bits@[start + k] == values@[k],
                forall|k: int| 0 <= k < self.bits@.len() && !(start <= k < start + i)
                    ==> self.bits@[k] == old(self)@.bits[k],
                self.input_bits@ == old(self)@.input_bits,
                self.registers@ == old(self)@.registers,
                self.input_registers@ == old(self)@.input_registers,
            decreases values@.len() - i,
        {
            self.bits[start + i] = values[i];
            i += 1;
        }
        proof {
            assert(self.bits@ =~= written(old(self)@.bits, start as int, values@));
        }
        Ok(())
    }

    /// Writes `values` over the holding registers starting at `start`; on
    /// failure the mapping is unchanged.
    pub fn write_registers(&mut self, start: usize, values: &[u16]) -> (r: Result<(), ModbusError>)
        ensures
            match r {
                Ok(()) => start + values@.len() <= old(self)@.registers.len()
                    && final(self)@.registers == written(old(self)@.registers, start as int, values@),
                Err(e) => e == ModbusError::OutOfRange
                    && start + values@.len() > old(self)@.registers.len()
                    && final(self)@.registers == old(self)@.registers,
            },
            final(self)@.bits == old(self)@.bits,
            final(self)@.input_bits == old(self)@.input_bits,
            final(self)@.input_registers == old(self)@.input_registers,
    {
        if start > self.registers.len() || values.len() > self.registers.len() - start {
            return Err(ModbusError::OutOfRange);
        }
        let mut i: usize = 0;
        while i < values.len()
            invariant
                i <= values@.len(),
                start + values@.len() <= self.registers@.len(),
                self.registers@.len() <= usize::MAX,
                self.registers@.len() == old(self)@.registers.len(),
                forall|k: int| 0 <= k < i ==> self.registers@[start + k] == values@[k],
                forall|k: int| 0 <= k < self.registers@.len() && !(start <= k < start + i)
                    ==> self.registers@[k] == old(self)@.registers[k],
                self.bits@ == old(self)@.bits,
                self.input_bits@ == old(self)@.input_bits,
                self.input_registers@ == old(self)@.input_registers,
            decreases values@.len() - i,
        {
            self.registers[start + i] = values[i];
            i += 1;
        }
        proof {
            assert(self.registers@ =~= written(old(self)@.registers, start as int, values@));
        }
        Ok(())
    }

    /// Writes `values` over the discrete inputs starting at `start`; on
    /// failure the mapping is unchanged. Only the owning application writes
    /// this space; the dispatcher reads it.
    pub fn write_input_bits(&mut self, start: usize, values: &[bool]) -> (r: Result<
        (),
        ModbusError,
    >)
        ensures
            match r {
                Ok(()) => start + values@.len() <= old(self)@.input_bits.len()
                    && final(self)@.input_bits == written(
                        old(self)@.input_bits,
                        start as int,
                        values@,
                    ),
                Err(e) => e == ModbusError::OutOfRange
                    && start + values@.len() > old(self)@.input_bits.len()
                    && final(self)@.input_bits == old(self)@.input_bits,
            },
            final(self)@.bits == old(self)@.bits,
            final(self)@.registers == old(self)@.registers,
            final(self)@.input_registers == old(self)@.input_registers,
    {
        if start > self.input_bits.len() || values.len() > self.input_bits.len() - start {
            return Err(ModbusError::OutOfRange);
        }
        let mut i: usize = 0;
        while i < values.len()
            invariant
                i <= values@.len(),
                start + values@.len() <= self.input_bits@.len(),
                self.input_bits@.len() <= usize::MAX,
                self.input_bits@.len() == old(self)@.input_bits.len(),
                forall|k: int| 0 <= k < i ==> self.input_bits@[start + k] == values@[k],
                forall|k: int| 0 <= k < self.input_bits@.len() && !(start <= k < start + i)
                    ==> self.input_bits@[k] == old(self)@.input_bits[k],
                self.bits@ == old(self)@.bits,
                self.registers@ == old(self)@.registers,
                self.input_registers@ == old(self)@.input_registers,
            decreases values@.len() - i,
        {
            self.input_bits[start + i] = values[i];
            i += 1;
        }
        proof {
            assert(self.input_bits@ =~= written(old(self)@.input_bits, start as int, values@));
        }
        Ok(())
    }

    /// Writes `values` over the input registers starting at `start`; on
    /// failure the mapping is unchanged. Only the owning application writes
    /// this space; the dispatcher reads it.
    pub fn write_input_registers(&mut self, start: usize, values: &[u16]) -> (r: Result<
        (),
        ModbusError,
    >)
        ensures
            match r {
                Ok(()) => start + values@.len() <= old(self)@.input_registers.len()
                    && final(self)@.input_registers == written(
                        old(self)@.input_registers,
                        start as int,
                        values@,
                    ),
                Err(e) => e == ModbusError::OutOfRange
                    && start + values@.len() > old(self)@.input_registers.len()
                    && final(self)@.input_registers == old(self)@.input_registers,
            },
            final(self)@.bits == old(self)@.bits,
            final(self)@.input_bits == old(self)@.input_bits,
            final(self)@.registers == old(self)@.registers,
    {
        if start > self.input_registers.len() || values.len() > self.input_registers.len() - start {
            return Err(ModbusError::OutOfRange);
        }
        let mut i: usize = 0;
        while i < values.len()
            invariant
                i <= values@.len(),
                start + values@.len() <= self.input_registers@.len(),
                self.input_registers@.len() <= usize::MAX,
                self.input_registers@.len() == old(self)@.input_registers.len(),
                forall|k: int| 0 <= k < i ==> self.input_registers@[start + k] == values@[k],
                forall|k: int| 0 <= k < self.input_registers@.len() && !(start <= k < start + i)
                    ==> self.input_registers@[k] == old(self)@.input_registers[k],
                self.bits@ == old(self)@.bits,
                self.input_bits@ == old(self)@.input_bits,
                self.registers@ == old(self)@.registers,
            decreases values@.len() - i,
        {
            self.input_registers[start + i] = values[i];
            i += 1;
        }
        proof {
            assert(self.input_registers@ =~= written(
                old(self)@.input_registers,
                start as int,
                values@,
            ));
        }
        Ok(())
    }
}

} // verus!
