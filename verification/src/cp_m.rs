//! The CP/M BDOS console conventions: programs call address 0x0005 with a
//! function number in C to print a single character (C = 2, character in E)
//! or a `$`-terminated string (C = 9, string address in DE) to the console,
//! which this emulator models as port 0.
//!
//! The CPU core does not run host handlers itself: [`add_cpm_bdos`]
//! registers the BDOS entry address for interception, and the host calls
//! [`cpm_bdos`] whenever a step reports an intercepted call to it.

use crate::cpu::spec_port_write;
use crate::cpu::spec_wrap_add16;
use crate::cpu::Cpu;
use crate::cpu::CpuView;
use crate::cpu::PortWrite;
use crate::memory::MemorySize;
use crate::registers::Register;
use crate::registers::RegisterValue;
use crate::utils;
use vstd::assert_seqs_equal;
use vstd::prelude::*;

verus! {

/// The address of the BDOS entry point in a CP/M memory map.
pub const BDOS_ENTRY: u16 = 0x0005;

/// The console output port.
pub const CONSOLE_PORT: u8 = 0;

/// The byte that terminates a BDOS print-string argument: `$`.
pub const STRING_TERMINATOR: u8 = 0x24;

/// The number of bytes before the first terminator byte, scanning from
/// `addr` and wrapping around the address space, with at most `fuel` bytes
/// examined; `None` when no terminator is found within the fuel.
pub open spec fn spec_terminator_distance(mem: Seq<u8>, addr: u16, fuel: nat) -> Option<nat>
    decreases fuel,
{
    if fuel == 0 {
        None
    } else if mem[addr as int] == STRING_TERMINATOR {
        Some(0nat)
    } else {
        match spec_terminator_distance(mem, spec_wrap_add16(addr, 1), (fuel - 1) as nat) {
            Some(d) => Some(d + 1),
            None => None,
        }
    }
}

/// A found terminator lies within the fuel spent finding it.
pub proof fn lemma_terminator_distance_bound(mem: Seq<u8>, addr: u16, fuel: nat)
    ensures
        spec_terminator_distance(mem, addr, fuel) matches Some(d) ==> d < fuel,
    decreases fuel,
{
    if fuel > 0 && mem[addr as int] != STRING_TERMINATOR {
        lemma_terminator_distance_bound(mem, spec_wrap_add16(addr, 1), (fuel - 1) as nat);
    }
}

/// The port writes a BDOS string print emits: one write to the console
/// port for each byte before the terminator, in address order.
pub open spec fn spec_bdos_output(mem: Seq<u8>, start: u16, count: nat) -> Seq<PortWrite> {
    Seq::new(
        count,
        |k: int| PortWrite { port: CONSOLE_PORT, value: mem[spec_wrap_add16(start, k as u16) as int] },
    )
}

/// Registers the BDOS entry address for subroutine interception, so that a
/// `CALL 0x0005` is reported to the host, which then runs [`cpm_bdos`].
pub fn add_cpm_bdos(cpu: &mut Cpu)
    ensures
        old(cpu)@.subroutines.contains(BDOS_ENTRY) ==> *final(cpu) == *old(cpu),
        !old(cpu)@.subroutines.contains(BDOS_ENTRY) ==> final(cpu)@ == (CpuView {
            subroutines: old(cpu)@.subroutines.push(BDOS_ENTRY),
            ..old(cpu)@
        }),
{
    cpu.add_subroutine_handler(BDOS_ENTRY);
}

/// Performs the BDOS console call the CPU just intercepted: with C = 2 the
/// character in E goes to the console port; with C = 9 every byte from the
/// address in DE up to the terminator goes to the console port, in order;
/// any other function number does nothing.
pub fn cpm_bdos(cpu: &mut Cpu)
    requires
        old(cpu).wf(),
        old(cpu)@.regs.reg_c == 9 ==> spec_terminator_distance(
            old(cpu)@.mem,
            utils::spec_combine(old(cpu)@.regs.reg_d, old(cpu)@.regs.reg_e),
            0x10000,
        ) is Some,
    ensures
        final(cpu).wf(),
        old(cpu)@.regs.reg_c == 2 ==> final(cpu)@ == spec_port_write(
            old(cpu)@,
            RegisterValue::Integer8(CONSOLE_PORT),
            RegisterValue::Integer8(old(cpu)@.regs.reg_e),
        ).1,
        old(cpu)@.regs.reg_c == 9 ==> ({
            let start = utils::spec_combine(old(cpu)@.regs.reg_d, old(cpu)@.regs.reg_e);
            let dist = spec_terminator_distance(old(cpu)@.mem, start, 0x10000).unwrap();
            final(cpu)@ == (CpuView {
                ports: if dist == 0 {
                    old(cpu)@.ports
                } else {
                    old(cpu)@.ports.update(
                        CONSOLE_PORT as int,
                        old(cpu)@.mem[spec_wrap_add16(start, (dist - 1) as u16) as int],
                    )
                },
                port_writes: old(cpu)@.port_writes + spec_bdos_output(
                    old(cpu)@.mem,
                    start,
                    dist,
                ),
                ..old(cpu)@
            })
        }),
        old(cpu)@.regs.reg_c != 2 && old(cpu)@.regs.reg_c != 9 ==> *final(cpu) == *old(cpu),
{
    let c_val = cpu.reg_array.read_reg(Register::C);
    let c = match c_val.try_to_u8() {
        Ok(c) => c,
        Err(_) => {
            return ;
        },
    };
    if c == 9 {
        let de_val = cpu.reg_array.read_reg(Register::DE);
        let start: u16 = de_val.to_u16();
        let ghost dist = spec_terminator_distance(old(cpu)@.mem, start, 0x10000).unwrap();
        proof {
            lemma_terminator_distance_bound(old(cpu)@.mem, start, 0x10000);
        }
        let mut scanned: usize = 0;
        let mut ptr: u16 = start;
        while cpu.memory.data[ptr as usize] != STRING_TERMINATOR
            invariant
                cpu.wf(),
                old(cpu).wf(),
                *cpu == *old(cpu),
                dist == spec_terminator_distance(old(cpu)@.mem, start, 0x10000).unwrap(),
                dist < 0x10000,
                scanned <= dist,
                ptr == spec_wrap_add16(start, scanned as u16),
                spec_terminator_distance(old(cpu)@.mem, ptr, (0x10000 - scanned) as nat)
                    == Some((dist - scanned) as nat),
            decreases dist - scanned,
        {
            ptr = ptr.wrapping_add(1);
            scanned += 1;
        }
        proof {
            assert(scanned == dist);
        }
        let count = scanned;
        let mut j: usize = 0;
        let mut p: u16 = start;
        while j < count
            invariant
                cpu.wf(),
                old(cpu).wf(),
                count == dist,
                dist < 0x10000,
                j <= count,
                p == spec_wrap_add16(start, j as u16),
                cpu.running == old(cpu).running,
                cpu.interrupts_enabled == old(cpu).interrupts_enabled,
                cpu.reg_array == old(cpu).reg_array,
                cpu.alu.accumulator == old(cpu).alu.accumulator,
                cpu.alu.flags == old(cpu).alu.flags,
                cpu@.mem == old(cpu)@.mem,
                cpu.subroutines@ == old(cpu).subroutines@,
                cpu.total_cycles == old(cpu).total_cycles,
                cpu@.port_writes == old(cpu)@.port_writes + spec_bdos_output(
                    old(cpu)@.mem,
                    start,
                    j as nat,
                ),
                cpu@.ports == if j == 0 {
                    old(cpu)@.ports
                } else {
                    old(cpu)@.ports.update(
                        CONSOLE_PORT as int,
                        old(cpu)@.mem[spec_wrap_add16(start, (j - 1) as u16) as int],
                    )
                },
            decreases count - j,
        {
            let current_char = match cpu.memory.read(
                RegisterValue::Integer16(p),
                MemorySize::Integer8,
            ) {
                Ok(v) => v,
                Err(_) => {
                    return ;
                },
            };
            match cpu.write_to_port(RegisterValue::Integer8(CONSOLE_PORT), current_char) {
                Ok(_) => {},
                Err(_) => {
                    return ;
                },
            }
            proof {
                assert(cpu@.port_writes =~= old(cpu)@.port_writes + spec_bdos_output(
                    old(cpu)@.mem,
                    start,
                    (j + 1) as nat,
                ));
                let target_val = old(cpu)@.mem[spec_wrap_add16(start, j as u16) as int];
                assert(cpu@.ports == (if j == 0 {
                    old(cpu)@.ports
                } else {
                    old(cpu)@.ports.update(
                        CONSOLE_PORT as int,
                        old(cpu)@.mem[spec_wrap_add16(start, (j - 1) as u16) as int],
                    )
                }).update(CONSOLE_PORT as int, target_val));
                assert_seqs_equal!(
                    cpu@.ports == old(cpu)@.ports.update(CONSOLE_PORT as int, target_val)
                );
            }
            p = p.wrapping_add(1);
            j += 1;
        }
    } else if c == 2 {
        let e_val = cpu.reg_array.read_reg(Register::E);
        match cpu.write_to_port(RegisterValue::Integer8(CONSOLE_PORT), e_val) {
            Ok(_) => {},
            Err(_) => {
                return ;
            },
        }
    }
}

} // verus!
