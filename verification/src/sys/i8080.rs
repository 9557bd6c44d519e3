//! The 8080 CPU: registers, flags, memory, device ports and the
//! decode-and-dispatch cycle.
//!
//! Every opcode's effect is stated by a spec function over the ghost CPU
//! image [`CpuV`]; [`spec_execute`] collects them into the full dispatch and
//! [`spec_cycle`] adds instruction fetch, the interrupt flip-flop, cycle
//! counting and the program-counter advance.

use vstd::prelude::*;
use vstd::string::StringSliceAdditionalSpecFns;

use crate::meta::{op_info, op_meta, spec_op_width};
use crate::sys::device::{RxDevice, TxDevice, TxV};
use crate::sys::flags::{spec_flags_from_byte, spec_flags_to_byte, spec_zsp, Flags};
use crate::sys::memory::{
    spec_load, spec_read, spec_read_word_be, spec_read_word_le, spec_write, spec_write_word_be,
    spec_write_word_le, Memory,
};
use crate::sys::registers::{spec_hi, spec_lo, spec_pair, Registers};

verus! {

pub struct I8080 {
    pub registers: Registers,
    pub flags: Flags,
    pub memory: Memory,
    pub cycles: u64,
    pub halted: bool,
    pub interrupt_flip_flop: bool,
    pub interrupt_op_code: Option<u8>,
    pub rx_devices: Vec<RxDevice>,
    pub tx_devices: Vec<TxDevice>,
}

/// The ghost image of the whole machine.
pub ghost struct CpuV {
    pub regs: Registers,
    pub flags: Flags,
    pub mem: Seq<u8>,
    pub cycles: u64,
    pub halted: bool,
    pub iff: bool,
    pub int_op: Option<u8>,
    pub rx: Seq<Seq<u8>>,
    pub tx: Seq<TxV>,
}

impl View for I8080 {
    type V = CpuV;

    open spec fn view(&self) -> CpuV {
        CpuV {
            regs: self.registers,
            flags: self.flags,
            mem: self.memory.mem@,
            cycles: self.cycles,
            halted: self.halted,
            iff: self.interrupt_flip_flop,
            int_op: self.interrupt_op_code,
            rx: Seq::new(self.rx_devices@.len(), |i: int| self.rx_devices@[i]@),
            tx: Seq::new(self.tx_devices@.len(), |i: int| self.tx_devices@[i]@),
        }
    }
}

/// The immediate byte of the instruction at PC.
pub open spec fn spec_argb(s: CpuV) -> u8 {
    spec_read(s.mem, s.regs.pc + 1)
}

/// The immediate word of the instruction at PC, little endian.
pub open spec fn spec_argw(s: CpuV) -> u16 {
    spec_read_word_le(s.mem, s.regs.pc + 1)
}

/// ADD/ADC: all five flags from the sum of A, the operand and carry-in.
pub open spec fn spec_add(s: CpuV, val: u8, cin: bool) -> CpuV {
    let c: int = if cin {
        1
    } else {
        0
    };
    let sum: int = s.regs.a + val + c;
    let r: u8 = (sum % 256) as u8;
    CpuV {
        regs: Registers { a: r, ..s.regs },
        flags: Flags {
            carry: sum > 0xff,
            aux_carry: (s.regs.a % 16) + (val % 16) + c > 0xf,
            ..spec_zsp(s.flags, r)
        },
        ..s
    }
}

/// SUB/SBB: borrow into carry, low-nibble no-borrow into aux-carry.
pub open spec fn spec_sub(s: CpuV, val: u8, cin: bool) -> CpuV {
    let c: int = if cin {
        1
    } else {
        0
    };
    let d: u16 = (s.regs.a as u16).wrapping_sub(val as u16).wrapping_sub(c as u16);
    let r: u8 = (d % 256) as u8;
    CpuV {
        regs: Registers { a: r, ..s.regs },
        flags: Flags {
            carry: (s.regs.a as int) < val.wrapping_add(c as u8),
            aux_carry: (s.regs.a % 16) >= (val % 16) + c,
            ..spec_zsp(s.flags, r)
        },
        ..s
    }
}

/// ANA: carry cleared; aux-carry from bit 3 of either operand.
pub open spec fn spec_ana(s: CpuV, val: u8) -> CpuV {
    let r: u8 = s.regs.a & val;
    CpuV {
        regs: Registers { a: r, ..s.regs },
        flags: Flags {
            carry: false,
            aux_carry: ((s.regs.a | val) & 0x08u8) != 0,
            ..spec_zsp(s.flags, r)
        },
        ..s
    }
}

/// XRA: carry and aux-carry cleared.
pub open spec fn spec_xra(s: CpuV, val: u8) -> CpuV {
    let r: u8 = s.regs.a ^ val;
    CpuV {
        regs: Registers { a: r, ..s.regs },
        flags: Flags { carry: false, aux_carry: false, ..spec_zsp(s.flags, r) },
        ..s
    }
}

/// ORA: carry and aux-carry cleared.
pub open spec fn spec_ora(s: CpuV, val: u8) -> CpuV {
    let r: u8 = s.regs.a | val;
    CpuV {
        regs: Registers { a: r, ..s.regs },
        flags: Flags { carry: false, aux_carry: false, ..spec_zsp(s.flags, r) },
        ..s
    }
}

/// CMP: a subtraction whose result byte is discarded.
pub open spec fn spec_cmp(s: CpuV, val: u8) -> CpuV {
    let t = spec_sub(s, val, false);
    CpuV { regs: Registers { a: s.regs.a, ..t.regs }, ..t }
}

/// Flags of INR: all but carry, aux-carry from the low nibble of the result.
pub open spec fn spec_inr_flags(f: Flags, r: u8) -> Flags {
    Flags { aux_carry: (r % 16) + 1 > 0xf, ..spec_zsp(f, r) }
}

/// Flags of DCR: all but carry.
pub open spec fn spec_dcr_flags(f: Flags, r: u8) -> Flags {
    Flags { aux_carry: (r % 16) != 0xf, ..spec_zsp(f, r) }
}

/// A jump: PC moves iff the condition held.
pub open spec fn spec_jmp(s: CpuV, addr: u16, condition: bool) -> CpuV {
    if condition {
        CpuV { regs: Registers { pc: addr, ..s.regs }, ..s }
    } else {
        s
    }
}

/// A push: SP drops by two, the word sits high byte first at the new SP.
pub open spec fn spec_push(s: CpuV, val: u16) -> CpuV {
    let sp = s.regs.sp.wrapping_sub(2);
    CpuV {
        regs: Registers { sp, ..s.regs },
        mem: spec_write_word_be(s.mem, sp as int, val),
        ..s
    }
}

/// The word a pop reads, and the state after it.
pub open spec fn spec_pop_val(s: CpuV) -> u16 {
    spec_read_word_be(s.mem, s.regs.sp as int)
}

pub open spec fn spec_pop(s: CpuV) -> CpuV {
    CpuV { regs: Registers { sp: s.regs.sp.wrapping_add(2), ..s.regs }, ..s }
}

pub open spec fn spec_push_psw(s: CpuV) -> CpuV {
    spec_push(s, spec_pair(s.regs.a, spec_flags_to_byte(s.flags)))
}

pub open spec fn spec_pop_psw(s: CpuV) -> CpuV {
    let v = spec_pop_val(s);
    let t = spec_pop(s);
    CpuV {
        regs: Registers { a: spec_hi(v), ..t.regs },
        flags: spec_flags_from_byte(spec_lo(v)),
        ..t
    }
}

/// XTHL: HL and the word at the top of the stack trade places.
pub open spec fn spec_xthl(s: CpuV) -> CpuV {
    let ind = spec_read_word_be(s.mem, s.regs.sp as int);
    CpuV {
        regs: Registers { h: spec_hi(ind), l: spec_lo(ind), ..s.regs },
        mem: spec_write_word_be(s.mem, s.regs.sp as int, s.regs.spec_hl()),
        ..s
    }
}

/// XCHG: HL and DE trade places.
pub open spec fn spec_xchg(s: CpuV) -> CpuV {
    CpuV {
        regs: Registers { h: s.regs.d, l: s.regs.e, d: s.regs.h, e: s.regs.l, ..s.regs },
        ..s
    }
}

/// CALL and the conditional calls: a taken conditional adds six cycles; a
/// taken call pushes the current PC and jumps.
pub open spec fn spec_call(s: CpuV, addr: u16, condition: Option<bool>) -> CpuV {
    let s1 = if condition == Some(true) {
        CpuV { cycles: s.cycles.wrapping_add(6), ..s }
    } else {
        s
    };
    if condition == None::<bool> || condition == Some(true) {
        spec_jmp(spec_push(s1, s1.regs.pc), addr, true)
    } else {
        s1
    }
}

/// RET and the conditional returns.
pub open spec fn spec_ret(s: CpuV, condition: Option<bool>) -> CpuV {
    let s1 = if condition == Some(true) {
        CpuV { cycles: s.cycles.wrapping_add(6), ..s }
    } else {
        s
    };
    if condition == None::<bool> || condition == Some(true) {
        let t = spec_pop(s1);
        CpuV { regs: Registers { pc: spec_pop_val(s1), ..t.regs }, ..t }
    } else {
        s1
    }
}

/// DAA: the BCD adjustment — low nibble plus six when it exceeds nine or
/// aux-carry stands, high nibble plus six when it exceeds nine, carry
/// stands, or the low-nibble rule rounds a nine up; carry is forced in the
/// latter case.
pub open spec fn spec_daa(s: CpuV) -> CpuV {
    let lo: u8 = s.regs.a % 16;
    let hi: u8 = s.regs.a / 16;
    let lo_adjust: bool = lo > 9 || s.flags.aux_carry;
    let hi_adjust: bool = hi > 9 || s.flags.carry || (hi >= 9 && lo > 9);
    let to_add: u8 = ((if lo_adjust {
        6int
    } else {
        0
    }) + (if hi_adjust {
        0x60int
    } else {
        0
    })) as u8;
    let carry: bool = s.flags.carry || hi_adjust;
    let t = spec_add(s, to_add, false);
    CpuV { flags: Flags { carry, ..t.flags }, ..t }
}

/// DAD: HL gains a register pair; only carry among the flags moves.
pub open spec fn spec_dad(s: CpuV, val: u16) -> CpuV {
    let hl = s.regs.spec_hl();
    let sum = hl.wrapping_add(val);
    CpuV {
        regs: Registers { h: spec_hi(sum), l: spec_lo(sum), ..s.regs },
        flags: Flags { carry: hl > 0xffffu16.wrapping_sub(val), ..s.flags },
        ..s
    }
}

/// RLC: rotate A left; carry mirrors the departing bit 7.
pub open spec fn spec_rlc(s: CpuV) -> CpuV {
    let carry = crate::util::spec_bit_set(s.regs.a, 7);
    CpuV {
        regs: Registers {
            a: (s.regs.a << 1) | (if carry {
                1u8
            } else {
                0u8
            }),
            ..s.regs
        },
        flags: Flags { carry, ..s.flags },
        ..s
    }
}

/// RRC: rotate A right; carry mirrors the departing bit 0.
pub open spec fn spec_rrc(s: CpuV) -> CpuV {
    let carry = crate::util::spec_bit_set(s.regs.a, 0);
    CpuV {
        regs: Registers {
            a: if carry {
                0x80u8 | (s.regs.a >> 1)
            } else {
                s.regs.a >> 1
            },
            ..s.regs
        },
        flags: Flags { carry, ..s.flags },
        ..s
    }
}

/// RAL: rotate A left through carry.
pub open spec fn spec_ral(s: CpuV) -> CpuV {
    let carry = crate::util::spec_bit_set(s.regs.a, 7);
    CpuV {
        regs: Registers {
            a: (s.regs.a << 1) | (if s.flags.carry {
                1u8
            } else {
                0u8
            }),
            ..s.regs
        },
        flags: Flags { carry, ..s.flags },
        ..s
    }
}

/// RAR: rotate A right through carry.
pub open spec fn spec_rar(s: CpuV) -> CpuV {
    let carry = crate::util::spec_bit_set(s.regs.a, 0);
    CpuV {
        regs: Registers {
            a: if s.flags.carry {
                0x80u8 | (s.regs.a >> 1)
            } else {
                s.regs.a >> 1
            },
            ..s.regs
        },
        flags: Flags { carry, ..s.flags },
        ..s
    }
}

/// OUT: the byte joins the named transmit queue; no device, no effect.
pub open spec fn spec_dev_out(s: CpuV, device: int, val: u8) -> CpuV {
    if 0 <= device < s.tx.len() {
        CpuV {
            tx: s.tx.update(
                device,
                TxV { data: s.tx[device].data.push(val), eot_byte: s.tx[device].eot_byte },
            ),
            ..s
        }
    } else {
        s
    }
}

/// IN: the oldest queued byte of the named receive queue, or 0xff when the
/// device is missing or empty.
pub open spec fn spec_dev_in_val(s: CpuV, device: int) -> u8 {
    if 0 <= device < s.rx.len() && s.rx[device].len() > 0 {
        s.rx[device][0]
    } else {
        0xffu8
    }
}

pub open spec fn spec_dev_in(s: CpuV, device: int) -> CpuV {
    if 0 <= device < s.rx.len() && s.rx[device].len() > 0 {
        CpuV { rx: s.rx.update(device, s.rx[device].drop_first()), ..s }
    } else {
        s
    }
}

/// HLT: the CPU halts and every transmit queue gains its end-of-transmission
/// sentinel.
pub open spec fn spec_halt(s: CpuV) -> CpuV {
    CpuV {
        halted: true,
        tx: Seq::new(
            s.tx.len(),
            |i: int| TxV { data: s.tx[i].data.push(s.tx[i].eot_byte), eot_byte: s.tx[i].eot_byte },
        ),
        ..s
    }
}

} // verus!

verus! {

impl I8080 {
    pub fn new(rx_devices: Vec<RxDevice>, tx_devices: Vec<TxDevice>) -> (cpu: I8080)
        ensures
            cpu@.regs == (Registers { a: 0, b: 0, c: 0, d: 0, e: 0, h: 0, l: 0, sp: 0, pc: 0 }),
            cpu@.flags == (Flags {
                sign: false,
                zero: false,
                aux_carry: false,
                parity: false,
                carry: false,
            }),
            cpu@.mem.len() == crate::sys::memory::MAX_MEM,
            forall|i: int| 0 <= i < cpu@.mem.len() ==> cpu@.mem[i] == 0u8,
            cpu@.cycles == 0 && !cpu@.halted && !cpu@.iff && cpu@.int_op == None::<u8>,
            cpu@.rx == Seq::new(rx_devices@.len(), |i: int| rx_devices@[i]@),
            cpu@.tx == Seq::new(tx_devices@.len(), |i: int| tx_devices@[i]@),
    {
        I8080 {
            registers: Registers::new(),
            memory: Memory::new(),
            flags: Flags::new(),
            cycles: 0,
            halted: false,
            interrupt_flip_flop: false,
            interrupt_op_code: None,
            rx_devices,
            tx_devices,
        }
    }

    pub fn issue_interrupt(&mut self, inst: u8)
        ensures
            final(self)@ == (CpuV { iff: true, int_op: Some(inst), ..old(self)@ }),
    {
        self.interrupt_flip_flop = true;
        self.interrupt_op_code = Some(inst);
    }

    pub fn load(&mut self, addr: u16, prog: Vec<u8>) -> (copied: usize)
        ensures
            final(self)@ == (CpuV { mem: spec_load(old(self)@.mem, addr as int, prog@), ..old(self)@ }),
    {
        self.memory.load(addr, prog)
    }

    pub fn get_memory_slice(&self, addr: u16, len: u16) -> (r: Vec<u8>)
        ensures
            r@ == self@.mem.subrange(
                if addr as int <= self@.mem.len() { addr as int } else { self@.mem.len() as int },
                if addr as int + len as int <= self@.mem.len() {
                    addr as int + len as int
                } else {
                    self@.mem.len() as int
                },
            ),
    {
        self.memory.get_slice(addr, len)
    }

    pub fn get_pc(&self) -> (pc: u16)
        ensures
            pc == self@.regs.pc,
    {
        self.registers.pc
    }

    /// The instruction byte at PC.
    pub fn pc_inst(&self) -> (b: u8)
        ensures
            b == spec_read(self@.mem, self@.regs.pc as int),
    {
        self.memory.read_byte(self.registers.pc)
    }

    /// The immediate byte at PC+1.
    fn pc_argb(&self) -> (b: u8)
        ensures
            b == spec_argb(self@),
    {
        self.memory.read_byte_at(self.registers.pc as usize + 1)
    }

    /// The immediate word at PC+1, little endian.
    fn pc_argw(&self) -> (w: u16)
        ensures
            w == spec_argw(self@),
    {
        self.memory.read_word_little_endian_at(self.registers.pc as usize + 1)
    }

    /// Writes a byte (usually A) to the given out-device; without such a
    /// device nothing happens.
    pub fn dev_out(&mut self, device: usize, val: u8)
        ensures
            final(self)@ == spec_dev_out(old(self)@, device as int, val),
    {
        if device < self.tx_devices.len() {
            let mut d = self.tx_devices.remove(device);
            d.data.push(val);
            self.tx_devices.insert(device, d);
            proof {
                assert(self@.tx =~= spec_dev_out(old(self)@, device as int, val).tx);
                assert(self@.rx =~= old(self)@.rx);
            }
        }
    }

    /// Reads a byte from the given in-device; without such a device, or with
    /// nothing queued, reads all ones.
    fn dev_in(&mut self, device: usize) -> (b: u8)
        ensures
            b == spec_dev_in_val(old(self)@, device as int),
            final(self)@ == spec_dev_in(old(self)@, device as int),
    {
        if device < self.rx_devices.len() && self.rx_devices[device].data.len() > 0 {
            let mut d = self.rx_devices.remove(device);
            let b = d.data.remove(0);
            self.rx_devices.insert(device, d);
            proof {
                assert(self@.rx =~= spec_dev_in(old(self)@, device as int).rx);
                assert(self@.tx =~= old(self)@.tx);
            }
            b
        } else {
            0xff
        }
    }

    /// Halts the CPU and sends the end-of-transmission byte to every
    /// out-device, so their consumers can terminate.
    pub fn halt(&mut self)
        ensures
            final(self)@ == spec_halt(old(self)@),
    {
        self.halted = true;
        let ghost mid = self@;
        let mut idx: usize = 0;
        while idx < self.tx_devices.len()
            invariant
                self@.tx.len() == mid.tx.len(),
                idx <= self@.tx.len(),
                forall|j: int|
                    0 <= j < idx ==> self@.tx[j] == (TxV {
                        data: mid.tx[j].data.push(mid.tx[j].eot_byte),
                        eot_byte: mid.tx[j].eot_byte,
                    }),
                forall|j: int| idx <= j < self@.tx.len() ==> self@.tx[j] == mid.tx[j],
                self@.regs == mid.regs && self@.flags == mid.flags && self@.mem == mid.mem,
                self@.cycles == mid.cycles && self@.halted == mid.halted,
                self@.iff == mid.iff && self@.int_op == mid.int_op && self@.rx == mid.rx,
            decreases self.tx_devices.len() - idx,
        {
            let e = self.tx_devices[idx].eot_byte;
            self.dev_out(idx, e);
            idx = idx + 1;
        }
        proof {
            assert(self@.tx =~= spec_halt(old(self)@).tx);
        }
    }

    /// Adds a value (plus carry-in) to A, setting all five flags.
    fn add(&mut self, val: u8, carry: bool)
        ensures
            final(self)@ == spec_add(old(self)@, val, carry),
    {
        let c: u8 = if carry {
            1
        } else {
            0
        };
        let result16: u16 = self.registers.a as u16 + val as u16 + c as u16;
        self.flags.carry = result16 > 0xff;
        self.flags.aux_carry = self.registers.a % 16 + val % 16 + c > 0xf;
        self.registers.a = (result16 % 256) as u8;
        let r = self.registers.a;
        self.flags.zero_sign_parity(r);
    }

    /// Subtracts a value (plus borrow-in) from A, setting all five flags.
    fn sub(&mut self, val: u8, carry: bool)
        ensures
            final(self)@ == spec_sub(old(self)@, val, carry),
    {
        let c: u8 = if carry {
            1
        } else {
            0
        };
        self.flags.carry = (self.registers.a as u16) < (val.wrapping_add(c)) as u16;
        self.flags.aux_carry = self.registers.a % 16 >= val % 16 + c;
        let d: u16 = (self.registers.a as u16).wrapping_sub(val as u16).wrapping_sub(c as u16);
        self.registers.a = (d % 256) as u8;
        let r = self.registers.a;
        self.flags.zero_sign_parity(r);
    }

    /// Bitwise AND into A: carry cleared, aux-carry from bit 3 of either
    /// operand.
    fn ana(&mut self, val: u8)
        ensures
            final(self)@ == spec_ana(old(self)@, val),
    {
        self.flags.carry = false;
        self.flags.aux_carry = ((self.registers.a | val) & 0x08u8) != 0;
        self.registers.a = self.registers.a & val;
        let r = self.registers.a;
        self.flags.zero_sign_parity(r);
    }

    /// Bitwise XOR into A: carry and aux-carry cleared.
    fn xra(&mut self, val: u8)
        ensures
            final(self)@ == spec_xra(old(self)@, val),
    {
        self.registers.a = self.registers.a ^ val;
        self.flags.carry = false;
        self.flags.aux_carry = false;
        let r = self.registers.a;
        self.flags.zero_sign_parity(r);
    }

    /// Bitwise OR into A: carry and aux-carry cleared.
    fn ora(&mut self, val: u8)
        ensures
            final(self)@ == spec_ora(old(self)@, val),
    {
        self.registers.a = self.registers.a | val;
        self.flags.carry = false;
        self.flags.aux_carry = false;
        let r = self.registers.a;
        self.flags.zero_sign_parity(r);
    }

    /// A subtraction whose result byte is discarded: only the flags move.
    fn cmp(&mut self, val: u8)
        ensures
            final(self)@ == spec_cmp(old(self)@, val),
    {
        let a: u8 = self.registers.a;
        self.sub(val, false);
        self.registers.a = a;
    }

    /// Increments a value, setting every flag but carry; returns the result.
    fn inr(&mut self, val: u8) -> (r: u8)
        ensures
            r == val.wrapping_add(1),
            final(self)@ == (CpuV { flags: spec_inr_flags(old(self)@.flags, r), ..old(self)@ }),
    {
        let result = val.wrapping_add(1);
        self.flags.aux_carry = (result % 16) + 1 > 0xf;
        self.flags.zero_sign_parity(result);
        result
    }

    /// Decrements a value, setting every flag but carry; returns the result.
    fn dcr(&mut self, val: u8) -> (r: u8)
        ensures
            r == val.wrapping_sub(1),
            final(self)@ == (CpuV { flags: spec_dcr_flags(old(self)@.flags, r), ..old(self)@ }),
    {
        let result = val.wrapping_sub(1);
        self.flags.aux_carry = (result % 16) != 0xf;
        self.flags.zero_sign_parity(result);
        result
    }

    /// Sets PC to an address iff the condition holds.
    fn jmp(&mut self, addr: u16, condition: bool)
        ensures
            final(self)@ == spec_jmp(old(self)@, addr, condition),
    {
        if condition {
            self.registers.pc = addr;
        }
    }

    /// Pushes a word: SP drops by two and the word sits high byte first.
    fn push(&mut self, val: u16)
        ensures
            final(self)@ == spec_push(old(self)@, val),
    {
        self.registers.sp = self.registers.sp.wrapping_sub(2);
        self.memory.write_word_big_endian(self.registers.sp, val);
    }

    /// Pops a word from the stack; SP rises by two.
    fn pop(&mut self) -> (r: u16)
        ensures
            r == spec_pop_val(old(self)@),
            final(self)@ == spec_pop(old(self)@),
    {
        let result = self.memory.read_word_big_endian(self.registers.sp);
        self.registers.sp = self.registers.sp.wrapping_add(2);
        result
    }

    /// Pushes A and the packed flag byte.
    fn push_psw(&mut self)
        ensures
            final(self)@ == spec_push_psw(old(self)@),
    {
        let f = self.flags.to_byte();
        let val: u16 = (self.registers.a as u16) << 8 | (f as u16);
        self.push(val);
    }

    /// Pops A and the packed flag byte.
    fn pop_psw(&mut self)
        ensures
            final(self)@ == spec_pop_psw(old(self)@),
    {
        let val: u16 = self.pop();
        self.registers.a = (val >> 8) as u8;
        self.flags.from_byte(val as u8);
    }

    /// Exchanges HL with the word at the top of the stack.
    fn xthl(&mut self)
        ensures
            final(self)@ == spec_xthl(old(self)@),
    {
        let indirect: u16 = self.memory.read_word_big_endian(self.registers.sp);
        let hl = self.registers.get_hl();
        self.memory.write_word_big_endian(self.registers.sp, hl);
        self.registers.set_hl(indirect);
    }

    /// Exchanges HL with DE.
    fn xchg(&mut self)
        ensures
            final(self)@ == spec_xchg(old(self)@),
    {
        let hl: u16 = self.registers.get_hl();
        let de: u16 = self.registers.get_de();
        self.registers.set_hl(de);
        self.registers.set_de(hl);
        proof {
            crate::sys::registers::lemma_pair_split(0, old(self)@.regs.d, old(self)@.regs.e);
            crate::sys::registers::lemma_pair_split(0, old(self)@.regs.h, old(self)@.regs.l);
        }
    }

    /// CALL and the conditional calls: a taken conditional costs six more
    /// cycles; a taken call pushes PC and jumps.
    fn call(&mut self, addr: u16, condition: Option<bool>)
        ensures
            final(self)@ == spec_call(old(self)@, addr, condition),
    {
        let mut cond = true;
        if let Some(inner_cond) = condition {
            if inner_cond {
                self.cycles = self.cycles.wrapping_add(6);
            }
            cond = inner_cond;
        }
        if cond {
            let pc = self.registers.pc;
            self.push(pc);
            self.jmp(addr, true);
        }
    }

    /// RET and the conditional returns.
    fn ret(&mut self, condition: Option<bool>)
        ensures
            final(self)@ == spec_ret(old(self)@, condition),
    {
        let mut cond = true;
        if let Some(inner_cond) = condition {
            if inner_cond {
                self.cycles = self.cycles.wrapping_add(6);
            }
            cond = inner_cond;
        }
        if cond {
            let pc = self.pop();
            self.registers.pc = pc;
        }
    }

    /// Decimal-adjust A: treats the byte as two packed decimal digits.
    fn daa(&mut self)
        ensures
            final(self)@ == spec_daa(old(self)@),
    {
        let mut to_add: u8 = 0;
        let mut carry = self.flags.carry;
        let lo = self.registers.a % 16;
        let hi = self.registers.a / 16;
        if lo > 9 || self.flags.aux_carry {
            to_add = to_add + 0x06;
        }
        if hi > 9 || self.flags.carry || (hi >= 9 && lo > 9) {
            to_add = to_add + 0x60;
            carry = true;
        }
        self.add(to_add, false);
        self.flags.carry = carry;
    }

    /// Double add: HL gains a word; only carry among the flags moves.
    fn dad(&mut self, val: u16)
        ensures
            final(self)@ == spec_dad(old(self)@, val),
    {
        let hl: u16 = self.registers.get_hl();
        self.flags.carry = hl > 0xffffu16.wrapping_sub(val);
        let sum = hl.wrapping_add(val);
        self.registers.set_hl(sum);
    }

    /// Rotate A left once; carry mirrors the departing bit.
    fn rlc(&mut self)
        ensures
            final(self)@ == spec_rlc(old(self)@),
    {
        self.flags.carry = crate::util::is_bit_set(self.registers.a, 7);
        self.registers.a = (self.registers.a << 1) | (if self.flags.carry {
            1u8
        } else {
            0u8
        });
    }

    /// Rotate A right once; carry mirrors the departing bit.
    fn rrc(&mut self)
        ensures
            final(self)@ == spec_rrc(old(self)@),
    {
        self.flags.carry = crate::util::is_bit_set(self.registers.a, 0);
        self.registers.a = if self.flags.carry {
            0x80u8 | (self.registers.a >> 1)
        } else {
            self.registers.a >> 1
        };
    }

    /// Rotate A left once through carry.
    fn ral(&mut self)
        ensures
            final(self)@ == spec_ral(old(self)@),
    {
        let carry = crate::util::is_bit_set(self.registers.a, 7);
        self.registers.a = (self.registers.a << 1) | (if self.flags.carry {
            1u8
        } else {
            0u8
        });
        self.flags.carry = carry;
    }

    /// Rotate A right once through carry.
    fn rar(&mut self)
        ensures
            final(self)@ == spec_rar(old(self)@),
    {
        let carry = crate::util::is_bit_set(self.registers.a, 0);
        self.registers.a = if self.flags.carry {
            0x80u8 | (self.registers.a >> 1)
        } else {
            self.registers.a >> 1
        };
        self.flags.carry = carry;
    }
}

} // verus!
verus! {

pub open spec fn spec_execute_0(s: CpuV, inst: u8) -> CpuV {
    match inst {
        0x0 => s,
        0x1 => CpuV { regs: Registers { b: spec_hi(spec_argw(s)), c: spec_lo(spec_argw(s)), ..s.regs }, ..s },
        0x2 => CpuV { mem: spec_write(s.mem, s.regs.spec_bc() as int, s.regs.a), ..s },
        0x3 => CpuV { regs: Registers { b: spec_hi(s.regs.spec_bc().wrapping_add(1)), c: spec_lo(s.regs.spec_bc().wrapping_add(1)), ..s.regs }, ..s },
        0x4 => CpuV { regs: Registers { b: s.regs.b.wrapping_add(1), ..s.regs }, flags: spec_inr_flags(s.flags, s.regs.b.wrapping_add(1)), ..s },
        0x5 => CpuV { regs: Registers { b: s.regs.b.wrapping_sub(1), ..s.regs }, flags: spec_dcr_flags(s.flags, s.regs.b.wrapping_sub(1)), ..s },
        0x6 => CpuV { regs: Registers { b: spec_argb(s), ..s.regs }, ..s },
        0x7 => spec_rlc(s),
        0x8 => s,
        0x9 => spec_dad(s, s.regs.spec_bc()),
        0xa => CpuV { regs: Registers { a: spec_read(s.mem, s.regs.spec_bc() as int), ..s.regs }, ..s },
        0xb => CpuV { regs: Registers { b: spec_hi(s.regs.spec_bc().wrapping_sub(1)), c: spec_lo(s.regs.spec_bc().wrapping_sub(1)), ..s.regs }, ..s },
        0xc => CpuV { regs: Registers { c: s.regs.c.wrapping_add(1), ..s.regs }, flags: spec_inr_flags(s.flags, s.regs.c.wrapping_add(1)), ..s },
        0xd => CpuV { regs: Registers { c: s.regs.c.wrapping_sub(1), ..s.regs }, flags: spec_dcr_flags(s.flags, s.regs.c.wrapping_sub(1)), ..s },
        0xe => CpuV { regs: Registers { c: spec_argb(s), ..s.regs }, ..s },
        0xf => spec_rrc(s),
        0x10 => s,
        0x11 => CpuV { regs: Registers { d: spec_hi(spec_argw(s)), e: spec_lo(spec_argw(s)), ..s.regs }, ..s },
        0x12 => CpuV { mem: spec_write(s.mem, s.regs.spec_de() as int, s.regs.a), ..s },
        0x13 => CpuV { regs: Registers { d: spec_hi(s.regs.spec_de().wrapping_add(1)), e: spec_lo(s.regs.spec_de().wrapping_add(1)), ..s.regs }, ..s },
        0x14 => CpuV { regs: Registers { d: s.regs.d.wrapping_add(1), ..s.regs }, flags: spec_inr_flags(s.flags, s.regs.d.wrapping_add(1)), ..s },
        0x15 => CpuV { regs: Registers { d: s.regs.d.wrapping_sub(1), ..s.regs }, flags: spec_dcr_flags(s.flags, s.regs.d.wrapping_sub(1)), ..s },
        0x16 => CpuV { regs: Registers { d: spec_argb(s), ..s.regs }, ..s },
        0x17 => spec_ral(s),
        0x18 => s,
        0x19 => spec_dad(s, s.regs.spec_de()),
        0x1a => CpuV { regs: Registers { a: spec_read(s.mem, s.regs.spec_de() as int), ..s.regs }, ..s },
        0x1b => CpuV { regs: Registers { d: spec_hi(s.regs.spec_de().wrapping_sub(1)), e: spec_lo(s.regs.spec_de().wrapping_sub(1)), ..s.regs }, ..s },
        0x1c => CpuV { regs: Registers { e: s.regs.e.wrapping_add(1), ..s.regs }, flags: spec_inr_flags(s.flags, s.regs.e.wrapping_add(1)), ..s },
        0x1d => CpuV { regs: Registers { e: s.regs.e.wrapping_sub(1), ..s.regs }, flags: spec_dcr_flags(s.flags, s.regs.e.wrapping_sub(1)), ..s },
        0x1e => CpuV { regs: Registers { e: spec_argb(s), ..s.regs }, ..s },
        0x1f => spec_rar(s),
        0x20 => s,
        0x21 => CpuV { regs: Registers { h: spec_hi(spec_argw(s)), l: spec_lo(spec_argw(s)), ..s.regs }, ..s },
        0x22 => CpuV { mem: spec_write_word_le(s.mem, spec_argw(s) as int, s.regs.spec_hl()), ..s },
        0x23 => CpuV { regs: Registers { h: spec_hi(s.regs.spec_hl().wrapping_add(1)), l: spec_lo(s.regs.spec_hl().wrapping_add(1)), ..s.regs }, ..s },
        0x24 => CpuV { regs: Registers { h: s.regs.h.wrapping_add(1), ..s.regs }, flags: spec_inr_flags(s.flags, s.regs.h.wrapping_add(1)), ..s },
        0x25 => CpuV { regs: Registers { h: s.regs.h.wrapping_sub(1), ..s.regs }, flags: spec_dcr_flags(s.flags, s.regs.h.wrapping_sub(1)), ..s },
        0x26 => CpuV { regs: Registers { h: spec_argb(s), ..s.regs }, ..s },
        0x27 => spec_daa(s),
        0x28 => s,
        0x29 => spec_dad(s, s.regs.spec_hl()),
        0x2a => CpuV { regs: Registers { h: spec_hi(spec_read_word_le(s.mem, spec_argw(s) as int)), l: spec_lo(spec_read_word_le(s.mem, spec_argw(s) as int)), ..s.regs }, ..s },
        0x2b => CpuV { regs: Registers { h: spec_hi(s.regs.spec_hl().wrapping_sub(1)), l: spec_lo(s.regs.spec_hl().wrapping_sub(1)), ..s.regs }, ..s },
        0x2c => CpuV { regs: Registers { l: s.regs.l.wrapping_add(1), ..s.regs }, flags: spec_inr_flags(s.flags, s.regs.l.wrapping_add(1)), ..s },
        0x2d => CpuV { regs: Registers { l: s.regs.l.wrapping_sub(1), ..s.regs }, flags: spec_dcr_flags(s.flags, s.regs.l.wrapping_sub(1)), ..s },
        0x2e => CpuV { regs: Registers { l: spec_argb(s), ..s.regs }, ..s },
        0x2f => CpuV { regs: Registers { a: !s.regs.a, ..s.regs }, ..s },
        0x30 => s,
        0x31 => CpuV { regs: Registers { sp: spec_argw(s), ..s.regs }, ..s },
        0x32 => CpuV { mem: spec_write(s.mem, spec_argw(s) as int, s.regs.a), ..s },
        0x33 => CpuV { regs: Registers { sp: s.regs.sp.wrapping_add(1), ..s.regs }, ..s },
        0x34 => CpuV { mem: spec_write(s.mem, s.regs.spec_hl() as int, spec_read(s.mem, s.regs.spec_hl() as int).wrapping_add(1)), flags: spec_inr_flags(s.flags, spec_read(s.mem, s.regs.spec_hl() as int).wrapping_add(1)), ..s },
        0x35 => CpuV { mem: spec_write(s.mem, s.regs.spec_hl() as int, spec_read(s.mem, s.regs.spec_hl() as int).wrapping_sub(1)), flags: spec_dcr_flags(s.flags, spec_read(s.mem, s.regs.spec_hl() as int).wrapping_sub(1)), ..s },
        0x36 => CpuV { mem: spec_write(s.mem, s.regs.spec_hl() as int, spec_argb(s)), ..s },
        0x37 => CpuV { flags: Flags { carry: true, ..s.flags }, ..s },
        0x38 => s,
        0x39 => spec_dad(s, s.regs.sp),
        0x3a => CpuV { regs: Registers { a: spec_read(s.mem, spec_argw(s) as int), ..s.regs }, ..s },
        0x3b => CpuV { regs: Registers { sp: s.regs.sp.wrapping_sub(1), ..s.regs }, ..s },
        0x3c => CpuV { regs: Registers { a: s.regs.a.wrapping_add(1), ..s.regs }, flags: spec_inr_flags(s.flags, s.regs.a.wrapping_add(1)), ..s },
        0x3d => CpuV { regs: Registers { a: s.regs.a.wrapping_sub(1), ..s.regs }, flags: spec_dcr_flags(s.flags, s.regs.a.wrapping_sub(1)), ..s },
        0x3e => CpuV { regs: Registers { a: spec_argb(s), ..s.regs }, ..s },
        0x3f => CpuV { flags: Flags { carry: !s.flags.carry, ..s.flags }, ..s },
        _ => s,
    }
}

pub open spec fn spec_execute_1(s: CpuV, inst: u8) -> CpuV {
    match inst {
        0x40 => CpuV { regs: Registers { b: s.regs.b, ..s.regs }, ..s },
        0x41 => CpuV { regs: Registers { b: s.regs.c, ..s.regs }, ..s },
        0x42 => CpuV { regs: Registers { b: s.regs.d, ..s.regs }, ..s },
        0x43 => CpuV { regs: Registers { b: s.regs.e, ..s.regs }, ..s },
        0x44 => CpuV { regs: Registers { b: s.regs.h, ..s.regs }, ..s },
        0x45 => CpuV { regs: Registers { b: s.regs.l, ..s.regs }, ..s },
        0x46 => CpuV { regs: Registers { b: spec_read(s.mem, s.regs.spec_hl() as int), ..s.regs }, ..s },
        0x47 => CpuV { regs: Registers { b: s.regs.a, ..s.regs }, ..s },
        0x48 => CpuV { regs: Registers { c: s.regs.b, ..s.regs }, ..s },
        0x49 => CpuV { regs: Registers { c: s.regs.c, ..s.regs }, ..s },
        0x4a => CpuV { regs: Registers { c: s.regs.d, ..s.regs }, ..s },
        0x4b => CpuV { regs: Registers { c: s.regs.e, ..s.regs }, ..s },
        0x4c => CpuV { regs: Registers { c: s.regs.h, ..s.regs }, ..s },
        0x4d => CpuV { regs: Registers { c: s.regs.l, ..s.regs }, ..s },
        0x4e => CpuV { regs: Registers { c: spec_read(s.mem, s.regs.spec_hl() as int), ..s.regs }, ..s },
        0x4f => CpuV { regs: Registers { c: s.regs.a, ..s.regs }, ..s },
        0x50 => CpuV { regs: Registers { d: s.regs.b, ..s.regs }, ..s },
        0x51 => CpuV { regs: Registers { d: s.regs.c, ..s.regs }, ..s },
        0x52 => CpuV { regs: Registers { d: s.regs.d, ..s.regs }, ..s },
        0x53 => CpuV { regs: Registers { d: s.regs.e, ..s.regs }, ..s },
        0x54 => CpuV { regs: Registers { d: s.regs.h, ..s.regs }, ..s },
        0x55 => CpuV { regs: Registers { d: s.regs.l, ..s.regs }, ..s },
        0x56 => CpuV { regs: Registers { d: spec_read(s.mem, s.regs.spec_hl() as int), ..s.regs }, ..s },
        0x57 => CpuV { regs: Registers { d: s.regs.a, ..s.regs }, ..s },
        0x58 => CpuV { regs: Registers { e: s.regs.b, ..s.regs }, ..s },
        0x59 => CpuV { regs: Registers { e: s.regs.c, ..s.regs }, ..s },
        0x5a => CpuV { regs: Registers { e: s.regs.d, ..s.regs }, ..s },
        0x5b => CpuV { regs: Registers { e: s.regs.e, ..s.regs }, ..s },
        0x5c => CpuV { regs: Registers { e: s.regs.h, ..s.regs }, ..s },
        0x5d => CpuV { regs: Registers { e: s.regs.l, ..s.regs }, ..s },
        0x5e => CpuV { regs: Registers { e: spec_read(s.mem, s.regs.spec_hl() as int), ..s.regs }, ..s },
        0x5f => CpuV { regs: Registers { e: s.regs.a, ..s.regs }, ..s },
        0x60 => CpuV { regs: Registers { h: s.regs.b, ..s.regs }, ..s },
        0x61 => CpuV { regs: Registers { h: s.regs.c, ..s.regs }, ..s },
        0x62 => CpuV { regs: Registers { h: s.regs.d, ..s.regs }, ..s },
        0x63 => CpuV { regs: Registers { h: s.regs.e, ..s.regs }, ..s },
        0x64 => CpuV { regs: Registers { h: s.regs.h, ..s.regs }, ..s },
        0x65 => CpuV { regs: Registers { h: s.regs.l, ..s.regs }, ..s },
        0x66 => CpuV { regs: Registers { h: spec_read(s.mem, s.regs.spec_hl() as int), ..s.regs }, ..s },
        0x67 => CpuV { regs: Registers { h: s.regs.a, ..s.regs }, ..s },
        0x68 => CpuV { regs: Registers { l: s.regs.b, ..s.regs }, ..s },
        0x69 => CpuV { regs: Registers { l: s.regs.c, ..s.regs }, ..s },
        0x6a => CpuV { regs: Registers { l: s.regs.d, ..s.regs }, ..s },
        0x6b => CpuV { regs: Registers { l: s.regs.e, ..s.regs }, ..s },
        0x6c => CpuV { regs: Registers { l: s.regs.h, ..s.regs }, ..s },
        0x6d => CpuV { regs: Registers { l: s.regs.l, ..s.regs }, ..s },
        0x6e => CpuV { regs: Registers { l: spec_read(s.mem, s.regs.spec_hl() as int), ..s.regs }, ..s },
        0x6f => CpuV { regs: Registers { l: s.regs.a, ..s.regs }, ..s },
        0x70 => CpuV { mem: spec_write(s.mem, s.regs.spec_hl() as int, s.regs.b), ..s },
        0x71 => CpuV { mem: spec_write(s.mem, s.regs.spec_hl() as int, s.regs.c), ..s },
        0x72 => CpuV { mem: spec_write(s.mem, s.regs.spec_hl() as int, s.regs.d), ..s },
        0x73 => CpuV { mem: spec_write(s.mem, s.regs.spec_hl() as int, s.regs.e), ..s },
        0x74 => CpuV { mem: spec_write(s.mem, s.regs.spec_hl() as int, s.regs.h), ..s },
        0x75 => CpuV { mem: spec_write(s.mem, s.regs.spec_hl() as int, s.regs.l), ..s },
        0x76 => spec_halt(s),
        0x77 => CpuV { mem: spec_write(s.mem, s.regs.spec_hl() as int, s.regs.a), ..s },
        0x78 => CpuV { regs: Registers { a: s.regs.b, ..s.regs }, ..s },
        0x79 => CpuV { regs: Registers { a: s.regs.c, ..s.regs }, ..s },
        0x7a => CpuV { regs: Registers { a: s.regs.d, ..s.regs }, ..s },
        0x7b => CpuV { regs: Registers { a: s.regs.e, ..s.regs }, ..s },
        0x7c => CpuV { regs: Registers { a: s.regs.h, ..s.regs }, ..s },
        0x7d => CpuV { regs: Registers { a: s.regs.l, ..s.regs }, ..s },
        0x7e => CpuV { regs: Registers { a: spec_read(s.mem, s.regs.spec_hl() as int), ..s.regs }, ..s },
        0x7f => CpuV { regs: Registers { a: s.regs.a, ..s.regs }, ..s },
        _ => s,
    }
}

pub open spec fn spec_execute_2(s: CpuV, inst: u8) -> CpuV {
    match inst {
        0x80 => spec_add(s, s.regs.b, false),
        0x81 => spec_add(s, s.regs.c, false),
        0x82 => spec_add(s, s.regs.d, false),
        0x83 => spec_add(s, s.regs.e, false),
        0x84 => spec_add(s, s.regs.h, false),
        0x85 => spec_add(s, s.regs.l, false),
        0x86 => spec_add(s, spec_read(s.mem, s.regs.spec_hl() as int), false),
        0x87 => spec_add(s, s.regs.a, false),
        0x88 => spec_add(s, s.regs.b, s.flags.carry),
        0x89 => spec_add(s, s.regs.c, s.flags.carry),
        0x8a => spec_add(s, s.regs.d, s.flags.carry),
        0x8b => spec_add(s, s.regs.e, s.flags.carry),
        0x8c => spec_add(s, s.regs.h, s.flags.carry),
        0x8d => spec_add(s, s.regs.l, s.flags.carry),
        0x8e => spec_add(s, spec_read(s.mem, s.regs.spec_hl() as int), s.flags.carry),
        0x8f => spec_add(s, s.regs.a, s.flags.carry),
        0x90 => spec_sub(s, s.regs.b, false),
        0x91 => spec_sub(s, s.regs.c, false),
        0x92 => spec_sub(s, s.regs.d, false),
        0x93 => spec_sub(s, s.regs.e, false),
        0x94 => spec_sub(s, s.regs.h, false),
        0x95 => spec_sub(s, s.regs.l, false),
        0x96 => spec_sub(s, spec_read(s.mem, s.regs.spec_hl() as int), false),
        0x97 => spec_sub(s, s.regs.a, false),
        0x98 => spec_sub(s, s.regs.b, s.flags.carry),
        0x99 => spec_sub(s, s.regs.c, s.flags.carry),
        0x9a => spec_sub(s, s.regs.d, s.flags.carry),
        0x9b => spec_sub(s, s.regs.e, s.flags.carry),
        0x9c => spec_sub(s, s.regs.h, s.flags.carry),
        0x9d => spec_sub(s, s.regs.l, s.flags.carry),
        0x9e => spec_sub(s, spec_read(s.mem, s.regs.spec_hl() as int), s.flags.carry),
        0x9f => spec_sub(s, s.regs.a, s.flags.carry),
        0xa0 => spec_ana(s, s.regs.b),
        0xa1 => spec_ana(s, s.regs.c),
        0xa2 => spec_ana(s, s.regs.d),
        0xa3 => spec_ana(s, s.regs.e),
        0xa4 => spec_ana(s, s.regs.h),
        0xa5 => spec_ana(s, s.regs.l),
        0xa6 => spec_ana(s, spec_read(s.mem, s.regs.spec_hl() as int)),
        0xa7 => spec_ana(s, s.regs.a),
        0xa8 => spec_xra(s, s.regs.b),
        0xa9 => spec_xra(s, s.regs.c),
        0xaa => spec_xra(s, s.regs.d),
        0xab => spec_xra(s, s.regs.e),
        0xac => spec_xra(s, s.regs.h),
        0xad => spec_xra(s, s.regs.l),
        0xae => spec_xra(s, spec_read(s.mem, s.regs.spec_hl() as int)),
        0xaf => spec_xra(s, s.regs.a),
        0xb0 => spec_ora(s, s.regs.b),
        0xb1 => spec_ora(s, s.regs.c),
        0xb2 => spec_ora(s, s.regs.d),
        0xb3 => spec_ora(s, s.regs.e),
        0xb4 => spec_ora(s, s.regs.h),
        0xb5 => spec_ora(s, s.regs.l),
        0xb6 => spec_ora(s, spec_read(s.mem, s.regs.spec_hl() as int)),
        0xb7 => spec_ora(s, s.regs.a),
        0xb8 => spec_cmp(s, s.regs.b),
        0xb9 => spec_cmp(s, s.regs.c),
        0xba => spec_cmp(s, s.regs.d),
        0xbb => spec_cmp(s, s.regs.e),
        0xbc => spec_cmp(s, s.regs.h),
        0xbd => spec_cmp(s, s.regs.l),
        0xbe => spec_cmp(s, spec_read(s.mem, s.regs.spec_hl() as int)),
        0xbf => spec_cmp(s, s.regs.a),
        _ => s,
    }
}

pub open spec fn spec_execute_3(s: CpuV, inst: u8) -> CpuV {
    match inst {
        0xc0 => spec_ret(s, Some(!s.flags.zero)),
        0xc1 => { let v = spec_pop_val(s); let t = spec_pop(s); CpuV { regs: Registers { b: spec_hi(v), c: spec_lo(v), ..t.regs }, ..t } },
        0xc2 => spec_jmp(s, spec_argw(s), !s.flags.zero),
        0xc3 => spec_jmp(s, spec_argw(s), true),
        0xc4 => spec_call(s, spec_argw(s), Some(!s.flags.zero)),
        0xc5 => spec_push(s, s.regs.spec_bc()),
        0xc6 => spec_add(s, spec_argb(s), false),
        0xc7 => spec_call(s, 0x0, None::<bool>),
        0xc8 => spec_ret(s, Some(s.flags.zero)),
        0xc9 => spec_ret(s, None::<bool>),
        0xca => spec_jmp(s, spec_argw(s), s.flags.zero),
        0xcb => s,
        0xcc => spec_call(s, spec_argw(s), Some(s.flags.zero)),
        0xcd => spec_call(s, spec_argw(s), None::<bool>),
        0xce => spec_add(s, spec_argb(s), s.flags.carry),
        0xcf => spec_call(s, 0x8, None::<bool>),
        0xd0 => spec_ret(s, Some(!s.flags.carry)),
        0xd1 => { let v = spec_pop_val(s); let t = spec_pop(s); CpuV { regs: Registers { d: spec_hi(v), e: spec_lo(v), ..t.regs }, ..t } },
        0xd2 => spec_jmp(s, spec_argw(s), !s.flags.carry),
        0xd3 => spec_dev_out(s, spec_argb(s) as int, s.regs.a),
        0xd4 => spec_call(s, spec_argw(s), Some(!s.flags.carry)),
        0xd5 => spec_push(s, s.regs.spec_de()),
        0xd6 => spec_sub(s, spec_argb(s), false),
        0xd7 => spec_call(s, 0x10, None::<bool>),
        0xd8 => spec_ret(s, Some(s.flags.carry)),
        0xd9 => s,
        0xda => spec_jmp(s, spec_argw(s), s.flags.carry),
        0xdb => { let v = spec_dev_in_val(s, spec_argb(s) as int); let t = spec_dev_in(s, spec_argb(s) as int); CpuV { regs: Registers { a: v, ..t.regs }, ..t } },
        0xdc => spec_call(s, spec_argw(s), Some(s.flags.carry)),
        0xdd => s,
        0xde => spec_sub(s, spec_argb(s), s.flags.carry),
        0xdf => spec_call(s, 0x18, None::<bool>),
        0xe0 => spec_ret(s, Some(!s.flags.parity)),
        0xe1 => { let v = spec_pop_val(s); let t = spec_pop(s); CpuV { regs: Registers { h: spec_hi(v), l: spec_lo(v), ..t.regs }, ..t } },
        0xe2 => spec_jmp(s, spec_argw(s), !s.flags.parity),
        0xe3 => spec_xthl(s),
        0xe4 => spec_call(s, spec_argw(s), Some(!s.flags.parity)),
        0xe5 => spec_push(s, s.regs.spec_hl()),
        0xe6 => spec_ana(s, spec_argb(s)),
        0xe7 => spec_call(s, 0x20, None::<bool>),
        0xe8 => spec_ret(s, Some(s.flags.parity)),
        0xe9 => CpuV { regs: Registers { pc: s.regs.spec_hl(), ..s.regs }, ..s },
        0xea => spec_jmp(s, spec_argw(s), s.flags.parity),
        0xeb => spec_xchg(s),
        0xec => spec_call(s, spec_argw(s), Some(s.flags.parity)),
        0xed => s,
        0xee => spec_xra(s, spec_argb(s)),
        0xef => spec_call(s, 0x28, None::<bool>),
        0xf0 => spec_ret(s, Some(!s.flags.sign)),
        0xf1 => spec_pop_psw(s),
        0xf2 => spec_jmp(s, spec_argw(s), !s.flags.sign),
        0xf3 => CpuV { iff: true, ..s },
        0xf4 => spec_call(s, spec_argw(s), Some(!s.flags.sign)),
        0xf5 => spec_push_psw(s),
        0xf6 => spec_ora(s, spec_argb(s)),
        0xf7 => spec_call(s, 0x30, None::<bool>),
        0xf8 => spec_ret(s, Some(s.flags.sign)),
        0xf9 => CpuV { regs: Registers { sp: s.regs.spec_hl(), ..s.regs }, ..s },
        0xfa => spec_jmp(s, spec_argw(s), s.flags.sign),
        0xfb => CpuV { iff: false, ..s },
        0xfc => spec_call(s, spec_argw(s), Some(s.flags.sign)),
        0xfd => s,
        0xfe => spec_cmp(s, spec_argb(s)),
        0xff => spec_call(s, 0x38, None::<bool>),
        _ => s,
    }
}

/// The effect of one opcode on the machine, PC advance aside.
pub open spec fn spec_execute(s: CpuV, inst: u8) -> CpuV {
    if inst < 0x40 {
        spec_execute_0(s, inst)
    } else if inst < 0x80 {
        spec_execute_1(s, inst)
    } else if inst < 0xc0 {
        spec_execute_2(s, inst)
    } else {
        spec_execute_3(s, inst)
    }
}

impl I8080 {

    #[verifier::rlimit(100)]
    fn execute_0(&mut self, inst: u8)
        requires
            inst < 0x40,
        ensures
            final(self)@ == spec_execute_0(old(self)@, inst),
    {
        match inst {
            0x0 => {},
            0x1 => { let w = self.pc_argw(); self.registers.set_bc(w); },
            0x2 => { let addr = self.registers.get_bc(); let v = self.registers.a; self.memory.write_byte(addr, v); },
            0x3 => { let v = self.registers.get_bc().wrapping_add(1); self.registers.set_bc(v); },
            0x4 => { let v = self.registers.b; let r = self.inr(v); self.registers.b = r; },
            0x5 => { let v = self.registers.b; let r = self.dcr(v); self.registers.b = r; },
            0x6 => { let v = self.pc_argb(); self.registers.b = v; },
            0x7 => { self.rlc(); },
            0x8 => {},
            0x9 => { let v = self.registers.get_bc(); self.dad(v); },
            0xa => { let addr = self.registers.get_bc(); self.registers.a = self.memory.read_byte(addr); },
            0xb => { let v = self.registers.get_bc().wrapping_sub(1); self.registers.set_bc(v); },
            0xc => { let v = self.registers.c; let r = self.inr(v); self.registers.c = r; },
            0xd => { let v = self.registers.c; let r = self.dcr(v); self.registers.c = r; },
            0xe => { let v = self.pc_argb(); self.registers.c = v; },
            0xf => { self.rrc(); },
            0x10 => {},
            0x11 => { let w = self.pc_argw(); self.registers.set_de(w); },
            0x12 => { let addr = self.registers.get_de(); let v = self.registers.a; self.memory.write_byte(addr, v); },
            0x13 => { let v = self.registers.get_de().wrapping_add(1); self.registers.set_de(v); },
            0x14 => { let v = self.registers.d; let r = self.inr(v); self.registers.d = r; },
            0x15 => { let v = self.registers.d; let r = self.dcr(v); self.registers.d = r; },
            0x16 => { let v = self.pc_argb(); self.registers.d = v; },
            0x17 => { self.ral(); },
            0x18 => {},
            0x19 => { let v = self.registers.get_de(); self.dad(v); },
            0x1a => { let addr = self.registers.get_de(); self.registers.a = self.memory.read_byte(addr); },
            0x1b => { let v = self.registers.get_de().wrapping_sub(1); self.registers.set_de(v); },
            0x1c => { let v = self.registers.e; let r = self.inr(v); self.registers.e = r; },
            0x1d => { let v = self.registers.e; let r = self.dcr(v); self.registers.e = r; },
            0x1e => { let v = self.pc_argb(); self.registers.e = v; },
            0x1f => { self.rar(); },
            0x20 => {},
            0x21 => { let w = self.pc_argw(); self.registers.set_hl(w); },
            0x22 => { let addr = self.pc_argw(); let hl = self.registers.get_hl(); self.memory.write_word_little_endian(addr, hl); },
            0x23 => { let v = self.registers.get_hl().wrapping_add(1); self.registers.set_hl(v); },
            0x24 => { let v = self.registers.h; let r = self.inr(v); self.registers.h = r; },
            0x25 => { let v = self.registers.h; let r = self.dcr(v); self.registers.h = r; },
            0x26 => { let v = self.pc_argb(); self.registers.h = v; },
            0x27 => { self.daa(); },
            0x28 => {},
            0x29 => { let v = self.registers.get_hl(); self.dad(v); },
            0x2a => { let addr = self.pc_argw(); let w = self.memory.read_word_little_endian(addr); self.registers.set_hl(w); },
            0x2b => { let v = self.registers.get_hl().wrapping_sub(1); self.registers.set_hl(v); },
            0x2c => { let v = self.registers.l; let r = self.inr(v); self.registers.l = r; },
            0x2d => { let v = self.registers.l; let r = self.dcr(v); self.registers.l = r; },
            0x2e => { let v = self.pc_argb(); self.registers.l = v; },
            0x2f => { self.registers.a = !self.registers.a; },
            0x30 => {},
            0x31 => { let w = self.pc_argw(); self.registers.sp = w; },
            0x32 => { let addr = self.pc_argw(); let v = self.registers.a; self.memory.write_byte(addr, v); },
            0x33 => { self.registers.sp = self.registers.sp.wrapping_add(1); },
            0x34 => { let hl = self.registers.get_hl(); let v = self.memory.read_byte(hl); let r = self.inr(v); self.memory.write_byte(hl, r); },
            0x35 => { let hl = self.registers.get_hl(); let v = self.memory.read_byte(hl); let r = self.dcr(v); self.memory.write_byte(hl, r); },
            0x36 => { let hl = self.registers.get_hl(); let v = self.pc_argb(); self.memory.write_byte(hl, v); },
            0x37 => { self.flags.carry = true; },
            0x38 => {},
            0x39 => { let v = self.registers.sp; self.dad(v); },
            0x3a => { let addr = self.pc_argw(); self.registers.a = self.memory.read_byte(addr); },
            0x3b => { self.registers.sp = self.registers.sp.wrapping_sub(1); },
            0x3c => { let v = self.registers.a; let r = self.inr(v); self.registers.a = r; },
            0x3d => { let v = self.registers.a; let r = self.dcr(v); self.registers.a = r; },
            0x3e => { let v = self.pc_argb(); self.registers.a = v; },
            0x3f => { self.flags.carry = !self.flags.carry; },
            _ => {},
        }
    }

    #[verifier::rlimit(100)]
    fn execute_1(&mut self, inst: u8)
        requires
            0x40 <= inst < 0x80,
        ensures
            final(self)@ == spec_execute_1(old(self)@, inst),
    {
        match inst {
            0x40 => { self.registers.b = self.registers.b; },
            0x41 => { self.registers.b = self.registers.c; },
            0x42 => { self.registers.b = self.registers.d; },
            0x43 => { self.registers.b = self.registers.e; },
            0x44 => { self.registers.b = self.registers.h; },
            0x45 => { self.registers.b = self.registers.l; },
            0x46 => { let hl = self.registers.get_hl(); let v = self.memory.read_byte(hl); self.registers.b = v; },
            0x47 => { self.registers.b = self.registers.a; },
            0x48 => { self.registers.c = self.registers.b; },
            0x49 => { self.registers.c = self.registers.c; },
            0x4a => { self.registers.c = self.registers.d; },
            0x4b => { self.registers.c = self.registers.e; },
            0x4c => { self.registers.c = self.registers.h; },
            0x4d => { self.registers.c = self.registers.l; },
            0x4e => { let hl = self.registers.get_hl(); let v = self.memory.read_byte(hl); self.registers.c = v; },
            0x4f => { self.registers.c = self.registers.a; },
            0x50 => { self.registers.d = self.registers.b; },
            0x51 => { self.registers.d = self.registers.c; },
            0x52 => { self.registers.d = self.registers.d; },
            0x53 => { self.registers.d = self.registers.e; },
            0x54 => { self.registers.d = self.registers.h; },
            0x55 => { self.registers.d = self.registers.l; },
            0x56 => { let hl = self.registers.get_hl(); let v = self.memory.read_byte(hl); self.registers.d = v; },
            0x57 => { self.registers.d = self.registers.a; },
            0x58 => { self.registers.e = self.registers.b; },
            0x59 => { self.registers.e = self.registers.c; },
            0x5a => { self.registers.e = self.registers.d; },
            0x5b => { self.registers.e = self.registers.e; },
            0x5c => { self.registers.e = self.registers.h; },
            0x5d => { self.registers.e = self.registers.l; },
            0x5e => { let hl = self.registers.get_hl(); let v = self.memory.read_byte(hl); self.registers.e = v; },
            0x5f => { self.registers.e = self.registers.a; },
            0x60 => { self.registers.h = self.registers.b; },
            0x61 => { self.registers.h = self.registers.c; },
            0x62 => { self.registers.h = self.registers.d; },
            0x63 => { self.registers.h = self.registers.e; },
            0x64 => { self.registers.h = self.registers.h; },
            0x65 => { self.registers.h = self.registers.l; },
            0x66 => { let hl = self.registers.get_hl(); let v = self.memory.read_byte(hl); self.registers.h = v; },
            0x67 => { self.registers.h = self.registers.a; },
            0x68 => { self.registers.l = self.registers.b; },
            0x69 => { self.registers.l = self.registers.c; },
            0x6a => { self.registers.l = self.registers.d; },
            0x6b => { self.registers.l = self.registers.e; },
            0x6c => { self.registers.l = self.registers.h; },
            0x6d => { self.registers.l = self.registers.l; },
            0x6e => { let hl = self.registers.get_hl(); let v = self.memory.read_byte(hl); self.registers.l = v; },
            0x6f => { self.registers.l = self.registers.a; },
            0x70 => { let hl = self.registers.get_hl(); let v = self.registers.b; self.memory.write_byte(hl, v); },
            0x71 => { let hl = self.registers.get_hl(); let v = self.registers.c; self.memory.write_byte(hl, v); },
            0x72 => { let hl = self.registers.get_hl(); let v = self.registers.d; self.memory.write_byte(hl, v); },
            0x73 => { let hl = self.registers.get_hl(); let v = self.registers.e; self.memory.write_byte(hl, v); },
            0x74 => { let hl = self.registers.get_hl(); let v = self.registers.h; self.memory.write_byte(hl, v); },
            0x75 => { let hl = self.registers.get_hl(); let v = self.registers.l; self.memory.write_byte(hl, v); },
            0x76 => { self.halt(); },
            0x77 => { let hl = self.registers.get_hl(); let v = self.registers.a; self.memory.write_byte(hl, v); },
            0x78 => { self.registers.a = self.registers.b; },
            0x79 => { self.registers.a = self.registers.c; },
            0x7a => { self.registers.a = self.registers.d; },
            0x7b => { self.registers.a = self.registers.e; },
            0x7c => { self.registers.a = self.registers.h; },
            0x7d => { self.registers.a = self.registers.l; },
            0x7e => { let hl = self.registers.get_hl(); let v = self.memory.read_byte(hl); self.registers.a = v; },
            0x7f => { self.registers.a = self.registers.a; },
            _ => {},
        }
    }

    #[verifier::rlimit(100)]
    fn execute_2(&mut self, inst: u8)
        requires
            0x80 <= inst < 0xc0,
        ensures
            final(self)@ == spec_execute_2(old(self)@, inst),
    {
        match inst {
            0x80 => { let v = self.registers.b; self.add(v, false); },
            0x81 => { let v = self.registers.c; self.add(v, false); },
            0x82 => { let v = self.registers.d; self.add(v, false); },
            0x83 => { let v = self.registers.e; self.add(v, false); },
            0x84 => { let v = self.registers.h; self.add(v, false); },
            0x85 => { let v = self.registers.l; self.add(v, false); },
            0x86 => { let hl = self.registers.get_hl(); let v = self.memory.read_byte(hl); self.add(v, false); },
            0x87 => { let v = self.registers.a; self.add(v, false); },
            0x88 => { let v = self.registers.b; let c = self.flags.carry; self.add(v, c); },
            0x89 => { let v = self.registers.c; let c = self.flags.carry; self.add(v, c); },
            0x8a => { let v = self.registers.d; let c = self.flags.carry; self.add(v, c); },
            0x8b => { let v = self.registers.e; let c = self.flags.carry; self.add(v, c); },
            0x8c => { let v = self.registers.h; let c = self.flags.carry; self.add(v, c); },
            0x8d => { let v = self.registers.l; let c = self.flags.carry; self.add(v, c); },
            0x8e => { let hl = self.registers.get_hl(); let v = self.memory.read_byte(hl); let c = self.flags.carry; self.add(v, c); },
            0x8f => { let v = self.registers.a; let c = self.flags.carry; self.add(v, c); },
            0x90 => { let v = self.registers.b; self.sub(v, false); },
            0x91 => { let v = self.registers.c; self.sub(v, false); },
            0x92 => { let v = self.registers.d; self.sub(v, false); },
            0x93 => { let v = self.registers.e; self.sub(v, false); },
            0x94 => { let v = self.registers.h; self.sub(v, false); },
            0x95 => { let v = self.registers.l; self.sub(v, false); },
            0x96 => { let hl = self.registers.get_hl(); let v = self.memory.read_byte(hl); self.sub(v, false); },
            0x97 => { let v = self.registers.a; self.sub(v, false); },
            0x98 => { let v = self.registers.b; let c = self.flags.carry; self.sub(v, c); },
            0x99 => { let v = self.registers.c; let c = self.flags.carry; self.sub(v, c); },
            0x9a => { let v = self.registers.d; let c = self.flags.carry; self.sub(v, c); },
            0x9b => { let v = self.registers.e; let c = self.flags.carry; self.sub(v, c); },
            0x9c => { let v = self.registers.h; let c = self.flags.carry; self.sub(v, c); },
            0x9d => { let v = self.registers.l; let c = self.flags.carry; self.sub(v, c); },
            0x9e => { let hl = self.registers.get_hl(); let v = self.memory.read_byte(hl); let c = self.flags.carry; self.sub(v, c); },
            0x9f => { let v = self.registers.a; let c = self.flags.carry; self.sub(v, c); },
            0xa0 => { let v = self.registers.b; self.ana(v); },
            0xa1 => { let v = self.registers.c; self.ana(v); },
            0xa2 => { let v = self.registers.d; self.ana(v); },
            0xa3 => { let v = self.registers.e; self.ana(v); },
            0xa4 => { let v = self.registers.h; self.ana(v); },
            0xa5 => { let v = self.registers.l; self.ana(v); },
            0xa6 => { let hl = self.registers.get_hl(); let v = self.memory.read_byte(hl); self.ana(v); },
            0xa7 => { let v = self.registers.a; self.ana(v); },
            0xa8 => { let v = self.registers.b; self.xra(v); },
            0xa9 => { let v = self.registers.c; self.xra(v); },
            0xaa => { let v = self.registers.d; self.xra(v); },
            0xab => { let v = self.registers.e; self.xra(v); },
            0xac => { let v = self.registers.h; self.xra(v); },
            0xad => { let v = self.registers.l; self.xra(v); },
            0xae => { let hl = self.registers.get_hl(); let v = self.memory.read_byte(hl); self.xra(v); },
            0xaf => { let v = self.registers.a; self.xra(v); },
            0xb0 => { let v = self.registers.b; self.ora(v); },
            0xb1 => { let v = self.registers.c; self.ora(v); },
            0xb2 => { let v = self.registers.d; self.ora(v); },
            0xb3 => { let v = self.registers.e; self.ora(v); },
            0xb4 => { let v = self.registers.h; self.ora(v); },
            0xb5 => { let v = self.registers.l; self.ora(v); },
            0xb6 => { let hl = self.registers.get_hl(); let v = self.memory.read_byte(hl); self.ora(v); },
            0xb7 => { let v = self.registers.a; self.ora(v); },
            0xb8 => { let v = self.registers.b; self.cmp(v); },
            0xb9 => { let v = self.registers.c; self.cmp(v); },
            0xba => { let v = self.registers.d; self.cmp(v); },
            0xbb => { let v = self.registers.e; self.cmp(v); },
            0xbc => { let v = self.registers.h; self.cmp(v); },
            0xbd => { let v = self.registers.l; self.cmp(v); },
            0xbe => { let hl = self.registers.get_hl(); let v = self.memory.read_byte(hl); self.cmp(v); },
            0xbf => { let v = self.registers.a; self.cmp(v); },
            _ => {},
        }
    }

    #[verifier::rlimit(100)]
    fn execute_3(&mut self, inst: u8)
        requires
            0xc0 <= inst < 0x100,
        ensures
            final(self)@ == spec_execute_3(old(self)@, inst),
    {
        match inst {
            0xc0 => { let c = !self.flags.zero; self.ret(Some(c)); },
            0xc1 => { let v = self.pop(); self.registers.set_bc(v); },
            0xc2 => { let a = self.pc_argw(); let c = !self.flags.zero; self.jmp(a, c); },
            0xc3 => { let a = self.pc_argw(); let c = true; self.jmp(a, c); },
            0xc4 => { let a = self.pc_argw(); let c = !self.flags.zero; self.call(a, Some(c)); },
            0xc5 => { let v = self.registers.get_bc(); self.push(v); },
            0xc6 => { let v = self.pc_argb(); self.add(v, false); },
            0xc7 => { self.call(0x0, None); },
            0xc8 => { let c = self.flags.zero; self.ret(Some(c)); },
            0xc9 => { self.ret(None); },
            0xca => { let a = self.pc_argw(); let c = self.flags.zero; self.jmp(a, c); },
            0xcb => {},
            0xcc => { let a = self.pc_argw(); let c = self.flags.zero; self.call(a, Some(c)); },
            0xcd => { let a = self.pc_argw(); self.call(a, None); },
            0xce => { let v = self.pc_argb(); let c = self.flags.carry; self.add(v, c); },
            0xcf => { self.call(0x8, None); },
            0xd0 => { let c = !self.flags.carry; self.ret(Some(c)); },
            0xd1 => { let v = self.pop(); self.registers.set_de(v); },
            0xd2 => { let a = self.pc_argw(); let c = !self.flags.carry; self.jmp(a, c); },
            0xd3 => { let d = self.pc_argb(); let v = self.registers.a; self.dev_out(d as usize, v); },
            0xd4 => { let a = self.pc_argw(); let c = !self.flags.carry; self.call(a, Some(c)); },
            0xd5 => { let v = self.registers.get_de(); self.push(v); },
            0xd6 => { let v = self.pc_argb(); self.sub(v, false); },
            0xd7 => { self.call(0x10, None); },
            0xd8 => { let c = self.flags.carry; self.ret(Some(c)); },
            0xd9 => {},
            0xda => { let a = self.pc_argw(); let c = self.flags.carry; self.jmp(a, c); },
            0xdb => { let d = self.pc_argb(); let v = self.dev_in(d as usize); self.registers.a = v; },
            0xdc => { let a = self.pc_argw(); let c = self.flags.carry; self.call(a, Some(c)); },
            0xdd => {},
            0xde => { let v = self.pc_argb(); let c = self.flags.carry; self.sub(v, c); },
            0xdf => { self.call(0x18, None); },
            0xe0 => { let c = !self.flags.parity; self.ret(Some(c)); },
            0xe1 => { let v = self.pop(); self.registers.set_hl(v); },
            0xe2 => { let a = self.pc_argw(); let c = !self.flags.parity; self.jmp(a, c); },
            0xe3 => { self.xthl(); },
            0xe4 => { let a = self.pc_argw(); let c = !self.flags.parity; self.call(a, Some(c)); },
            0xe5 => { let v = self.registers.get_hl(); self.push(v); },
            0xe6 => { let v = self.pc_argb(); self.ana(v); },
            0xe7 => { self.call(0x20, None); },
            0xe8 => { let c = self.flags.parity; self.ret(Some(c)); },
            0xe9 => { let hl = self.registers.get_hl(); self.registers.pc = hl; },
            0xea => { let a = self.pc_argw(); let c = self.flags.parity; self.jmp(a, c); },
            0xeb => { self.xchg(); },
            0xec => { let a = self.pc_argw(); let c = self.flags.parity; self.call(a, Some(c)); },
            0xed => {},
            0xee => { let v = self.pc_argb(); self.xra(v); },
            0xef => { self.call(0x28, None); },
            0xf0 => { let c = !self.flags.sign; self.ret(Some(c)); },
            0xf1 => { self.pop_psw(); },
            0xf2 => { let a = self.pc_argw(); let c = !self.flags.sign; self.jmp(a, c); },
            0xf3 => { self.interrupt_flip_flop = true; },
            0xf4 => { let a = self.pc_argw(); let c = !self.flags.sign; self.call(a, Some(c)); },
            0xf5 => { self.push_psw(); },
            0xf6 => { let v = self.pc_argb(); self.ora(v); },
            0xf7 => { self.call(0x30, None); },
            0xf8 => { let c = self.flags.sign; self.ret(Some(c)); },
            0xf9 => { let hl = self.registers.get_hl(); self.registers.sp = hl; },
            0xfa => { let a = self.pc_argw(); let c = self.flags.sign; self.jmp(a, c); },
            0xfb => { self.interrupt_flip_flop = false; },
            0xfc => { let a = self.pc_argw(); let c = self.flags.sign; self.call(a, Some(c)); },
            0xfd => {},
            0xfe => { let v = self.pc_argb(); self.cmp(v); },
            0xff => { self.call(0x38, None); },
            _ => {},
        }
    }

    /// Dispatch one opcode: the semantic action, not the PC advance.
    pub fn execute(&mut self, inst: u8)
        ensures
            final(self)@ == spec_execute(old(self)@, inst),
    {
        if inst < 0x40 {
            self.execute_0(inst)
        } else if inst < 0x80 {
            self.execute_1(inst)
        } else if inst < 0xc0 {
            self.execute_2(inst)
        } else {
            self.execute_3(inst)
        }
    }
}

} // verus!

verus! {

/// One decode-dispatch step: consume a pending interrupt or fetch at PC,
/// run the opcode, count its cycles, and advance PC by the opcode's width
/// when the handler left it alone and no interrupt was taken.  PC running
/// past the top of the address space halts the CPU.
pub open spec fn spec_cycle(s: CpuV) -> CpuV {
    let is_int = s.iff && s.int_op is Some;
    let inst = if is_int {
        match s.int_op {
            Some(i) => i,
            None => 0u8,
        }
    } else {
        spec_read(s.mem, s.regs.pc as int)
    };
    let s0 = if is_int {
        CpuV { iff: false, int_op: None, ..s }
    } else {
        s
    };
    let s1 = spec_execute(s0, inst);
    let s2 = CpuV { cycles: s1.cycles.wrapping_add(op_info(inst as u16).cycles as u64), ..s1 };
    let w = spec_op_width(op_info(inst as u16));
    if s1.regs.pc == s.regs.pc && !is_int {
        if s.regs.pc + w > 0xffff {
            spec_halt(s2)
        } else {
            CpuV { regs: Registers { pc: (s.regs.pc + w) as u16, ..s2.regs }, ..s2 }
        }
    } else {
        s2
    }
}

/// The machine after at most a given number of cycles, stopping at a halt.
pub open spec fn spec_run(s: CpuV, n: u64) -> CpuV
    decreases n,
{
    if s.halted || n == 0 {
        s
    } else {
        spec_run(spec_cycle(s), (n - 1) as u64)
    }
}

impl I8080 {
    /// One CPU cycle.
    pub fn cycle(&mut self)
        ensures
            final(self)@ == spec_cycle(old(self)@),
    {
        let is_interrupt: bool = self.interrupt_flip_flop && self.interrupt_op_code.is_some();
        let inst: u8 = if is_interrupt {
            self.interrupt_flip_flop = false;
            let inst = self.interrupt_op_code.unwrap();
            self.interrupt_op_code = None;
            inst
        } else {
            self.pc_inst()
        };
        let meta = op_meta(inst as u16);
        let pc = self.registers.pc;
        self.execute(inst);
        let pc_changed = self.registers.pc != pc;
        self.cycles = self.cycles.wrapping_add(meta.cycles as u64);
        if !pc_changed && !is_interrupt {
            let w = meta.width();
            if pc as u32 + w as u32 > 0xffff {
                self.halt();
            } else {
                self.registers.pc = pc + w as u16;
            }
        }
    }

    /// Run until the CPU halts, or at most the given number of cycles.
    /// Pacing the loop to a real clock rate is the host's concern.
    pub fn run(&mut self, max_cycles: u64)
        ensures
            final(self)@ == spec_run(old(self)@, max_cycles),
    {
        let mut n: u64 = max_cycles;
        while !self.halted && n > 0
            invariant
                spec_run(self@, n) == spec_run(old(self)@, max_cycles),
            decreases n,
        {
            self.cycle();
            n = n - 1;
        }
        proof {
            assert(spec_run(self@, n) == self@);
        }
    }

    /// Scramble flags, registers (PC aside) and memory with random values.
    pub fn randomize(&mut self)
        ensures
            final(self)@.regs.pc == old(self)@.regs.pc,
            final(self)@.mem.len() == old(self)@.mem.len(),
            final(self)@.cycles == old(self)@.cycles,
            final(self)@.halted == old(self)@.halted,
            final(self)@.iff == old(self)@.iff,
            final(self)@.int_op == old(self)@.int_op,
            final(self)@.rx == old(self)@.rx,
            final(self)@.tx == old(self)@.tx,
    {
        let b: u8 = rand::random();
        self.flags.from_byte(b);
        self.registers.randomize();
        self.memory.randomize();
        proof {
            assert(final(self)@.rx =~= old(self)@.rx);
            assert(final(self)@.tx =~= old(self)@.tx);
        }
    }
}

} // verus!

verus! {

/// Law: in a cycle that consumed no interrupt and whose handler left PC
/// alone, PC advances by exactly the fetched opcode's width — or the CPU
/// halts when that would run past the top of the address space.
pub proof fn lemma_cycle_advances_pc(s: CpuV)
    requires
        !(s.iff && s.int_op is Some),
        spec_execute(s, spec_read(s.mem, s.regs.pc as int)).regs.pc == s.regs.pc,
    ensures
        ({
            let w = spec_op_width(op_info(spec_read(s.mem, s.regs.pc as int) as u16));
            if s.regs.pc + w <= 0xffff {
                spec_cycle(s).regs.pc == s.regs.pc + w
            } else {
                spec_cycle(s).halted
            }
        }),
{
}

/// Law: INR and DCR leave the carry flag alone, on registers and on memory
/// through HL alike.
pub proof fn lemma_inr_dcr_preserve_carry(s: CpuV, inst: u8)
    requires
        inst == 0x04 || inst == 0x0c || inst == 0x14 || inst == 0x1c || inst == 0x24 || inst
            == 0x2c || inst == 0x34 || inst == 0x3c || inst == 0x05 || inst == 0x0d || inst
            == 0x15 || inst == 0x1d || inst == 0x25 || inst == 0x2d || inst == 0x35 || inst
            == 0x3d,
    ensures
        spec_execute(s, inst).flags.carry == s.flags.carry,
{
}

/// Law: ANA clears carry, whatever the operand.
pub proof fn lemma_ana_clears_carry(s: CpuV, inst: u8)
    requires
        inst == 0xa0 || inst == 0xa1 || inst == 0xa2 || inst == 0xa3 || inst == 0xa4 || inst
            == 0xa5 || inst == 0xa6 || inst == 0xa7 || inst == 0xe6,
    ensures
        !spec_execute(s, inst).flags.carry,
{
}

/// Law: XRA and ORA clear carry and aux-carry, whatever the operand.
pub proof fn lemma_xra_ora_clear_carry_aux(s: CpuV, inst: u8)
    requires
        inst == 0xa8 || inst == 0xa9 || inst == 0xaa || inst == 0xab || inst == 0xac || inst
            == 0xad || inst == 0xae || inst == 0xaf || inst == 0xb0 || inst == 0xb1 || inst
            == 0xb2 || inst == 0xb3 || inst == 0xb4 || inst == 0xb5 || inst == 0xb6 || inst
            == 0xb7 || inst == 0xee || inst == 0xf6,
    ensures
        !spec_execute(s, inst).flags.carry,
        !spec_execute(s, inst).flags.aux_carry,
{
}

/// Law: DAD touches carry and the HL pair, and nothing else.
pub proof fn lemma_dad_touches_only_carry(s: CpuV, inst: u8)
    requires
        inst == 0x09 || inst == 0x19 || inst == 0x29 || inst == 0x39,
    ensures
        ({
            let t = spec_execute(s, inst);
            t == (CpuV {
                regs: Registers { h: t.regs.h, l: t.regs.l, ..s.regs },
                flags: Flags { carry: t.flags.carry, ..s.flags },
                ..s
            })
        }),
{
}

/// Law: PUSH then POP of the same register pair (BC, DE or HL) restores
/// that pair and SP.  The one excluded stack pointer is 1: there the pushed
/// word would straddle the top of memory and its low byte be dropped.
pub proof fn lemma_push_pop_identity(s: CpuV, push_op: u8, pop_op: u8)
    requires
        s.mem.len() == 0x10000,
        s.regs.sp != 1,
        (push_op == 0xc5 && pop_op == 0xc1) || (push_op == 0xd5 && pop_op == 0xd1) || (push_op
            == 0xe5 && pop_op == 0xe1),
    ensures
        ({
            let t = spec_execute(spec_execute(s, push_op), pop_op);
            &&& t.regs.sp == s.regs.sp
            &&& push_op == 0xc5 ==> t.regs.b == s.regs.b && t.regs.c == s.regs.c
            &&& push_op == 0xd5 ==> t.regs.d == s.regs.d && t.regs.e == s.regs.e
            &&& push_op == 0xe5 ==> t.regs.h == s.regs.h && t.regs.l == s.regs.l
        }),
{
    let sp1 = s.regs.sp.wrapping_sub(2);
    assert(sp1 as int + 1 < 0x10000);
    crate::sys::registers::lemma_pair_split(0, s.regs.b, s.regs.c);
    crate::sys::registers::lemma_pair_split(0, s.regs.d, s.regs.e);
    crate::sys::registers::lemma_pair_split(0, s.regs.h, s.regs.l);
}

/// Law: PUSH PSW then POP PSW restores A and all five flags, and SP.  As
/// for the other pairs, a stack pointer of 1 is excluded.
pub proof fn lemma_push_pop_psw_identity(s: CpuV)
    requires
        s.mem.len() == 0x10000,
        s.regs.sp != 1,
    ensures
        ({
            let t = spec_execute(spec_execute(s, 0xf5), 0xf1);
            t.regs.sp == s.regs.sp && t.regs.a == s.regs.a && t.flags == s.flags
        }),
{
    let sp1 = s.regs.sp.wrapping_sub(2);
    assert(sp1 as int + 1 < 0x10000);
    crate::sys::registers::lemma_pair_split(0, s.regs.a, spec_flags_to_byte(s.flags));
    crate::sys::flags::lemma_flag_byte_round_trip(s.flags);
}

} // verus!

verus! {

/// One flag rendered as the digit 0 or 1.
pub open spec fn spec_flag_digit(b: bool) -> Seq<u8> {
    if b {
        seq![49u8]
    } else {
        seq![48u8]
    }
}

/// The text of [`I8080::describe_system`]: the two pointer registers, the
/// seven byte registers and the five flags, each in order.
pub open spec fn spec_describe_system(s: CpuV) -> Seq<u8> {
    "PC ".spec_bytes() + crate::assembler::disassemble::spec_hex_word(s.regs.pc)
        + "  SP ".spec_bytes() + crate::assembler::disassemble::spec_hex_word(s.regs.sp)
        + "\nB ".spec_bytes() + crate::assembler::disassemble::spec_hex_byte(s.regs.b)
        + " C ".spec_bytes() + crate::assembler::disassemble::spec_hex_byte(s.regs.c)
        + "  D ".spec_bytes() + crate::assembler::disassemble::spec_hex_byte(s.regs.d)
        + " E ".spec_bytes() + crate::assembler::disassemble::spec_hex_byte(s.regs.e)
        + "  H ".spec_bytes() + crate::assembler::disassemble::spec_hex_byte(s.regs.h)
        + " L ".spec_bytes() + crate::assembler::disassemble::spec_hex_byte(s.regs.l)
        + "  A ".spec_bytes() + crate::assembler::disassemble::spec_hex_byte(s.regs.a)
        + "\nS ".spec_bytes() + spec_flag_digit(s.flags.sign) + " Z ".spec_bytes()
        + spec_flag_digit(s.flags.zero) + " AC ".spec_bytes() + spec_flag_digit(
        s.flags.aux_carry,
    ) + " P ".spec_bytes() + spec_flag_digit(s.flags.parity) + " C ".spec_bytes()
        + spec_flag_digit(s.flags.carry)
}

impl I8080 {
    /// A text rendering of the registers and flags, for the debug prompt.
    pub fn describe_system(&self) -> (r: Vec<u8>)
        ensures
            r@ == spec_describe_system(self@),
    {
        let mut out: Vec<u8> = Vec::new();
        crate::util::push_bytes(&mut out, "PC ".as_bytes());
        Self::push_hex_word(&mut out, self.registers.pc);
        crate::util::push_bytes(&mut out, "  SP ".as_bytes());
        Self::push_hex_word(&mut out, self.registers.sp);
        crate::util::push_bytes(&mut out, "\nB ".as_bytes());
        Self::push_hex_byte(&mut out, self.registers.b);
        crate::util::push_bytes(&mut out, " C ".as_bytes());
        Self::push_hex_byte(&mut out, self.registers.c);
        crate::util::push_bytes(&mut out, "  D ".as_bytes());
        Self::push_hex_byte(&mut out, self.registers.d);
        crate::util::push_bytes(&mut out, " E ".as_bytes());
        Self::push_hex_byte(&mut out, self.registers.e);
        crate::util::push_bytes(&mut out, "  H ".as_bytes());
        Self::push_hex_byte(&mut out, self.registers.h);
        crate::util::push_bytes(&mut out, " L ".as_bytes());
        Self::push_hex_byte(&mut out, self.registers.l);
        crate::util::push_bytes(&mut out, "  A ".as_bytes());
        Self::push_hex_byte(&mut out, self.registers.a);
        crate::util::push_bytes(&mut out, "\nS ".as_bytes());
        Self::push_flag_digit(&mut out, self.flags.sign);
        crate::util::push_bytes(&mut out, " Z ".as_bytes());
        Self::push_flag_digit(&mut out, self.flags.zero);
        crate::util::push_bytes(&mut out, " AC ".as_bytes());
        Self::push_flag_digit(&mut out, self.flags.aux_carry);
        crate::util::push_bytes(&mut out, " P ".as_bytes());
        Self::push_flag_digit(&mut out, self.flags.parity);
        crate::util::push_bytes(&mut out, " C ".as_bytes());
        Self::push_flag_digit(&mut out, self.flags.carry);
        proof {
            assert(out@ =~= spec_describe_system(self@));
        }
        out
    }

    /// A byte appended as `0xnn`.
    fn push_hex_byte(out: &mut Vec<u8>, b: u8)
        ensures
            final(out)@ == old(out)@ + crate::assembler::disassemble::spec_hex_byte(b),
    {
        out.push(48);
        out.push(120);
        out.push(crate::assembler::disassemble::hex_digit(b / 16));
        out.push(crate::assembler::disassemble::hex_digit(b % 16));
        proof {
            assert(out@ =~= old(out)@ + crate::assembler::disassemble::spec_hex_byte(b));
        }
    }

    /// A word appended as `0xnnnn`.
    fn push_hex_word(out: &mut Vec<u8>, w: u16)
        ensures
            final(out)@ == old(out)@ + crate::assembler::disassemble::spec_hex_word(w),
    {
        out.push(48);
        out.push(120);
        out.push(crate::assembler::disassemble::hex_digit((w / 0x1000) as u8));
        out.push(crate::assembler::disassemble::hex_digit(((w / 0x100) % 16) as u8));
        out.push(crate::assembler::disassemble::hex_digit(((w / 16) % 16) as u8));
        out.push(crate::assembler::disassemble::hex_digit((w % 16) as u8));
        proof {
            assert(out@ =~= old(out)@ + crate::assembler::disassemble::spec_hex_word(w));
        }
    }

    /// A flag appended as the digit 0 or 1.
    fn push_flag_digit(out: &mut Vec<u8>, b: bool)
        ensures
            final(out)@ == old(out)@ + spec_flag_digit(b),
    {
        if b {
            out.push(49);
        } else {
            out.push(48);
        }
        proof {
            assert(out@ =~= old(out)@ + spec_flag_digit(b));
        }
    }
}

} // verus!
