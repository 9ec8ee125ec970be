use crate::cpu::InterruptType;
use crate::memory::ioregisters::{IoRegister, IoRegisters, IoRegistersView};
use vstd::prelude::*;

verus! {

broadcast use crate::memory::ioregisters::lemma_io_registers_wf;

/// The number of 4 MiHz clock cycles elapsed, which drives DIV and TIMA.
#[derive(Debug, Clone, Copy, PartialEq, Eq, Structural)]
pub struct TimerCounter(pub u64);

impl TimerCounter {
    pub fn new() -> (r: Self)
        ensures
            r.0 == 0,
    {
        Self(0)
    }
}

pub const DIV_UPDATE_FREQUENCY: u64 = 256;

/// Read TMA (timer modulo), the value TIMA is reloaded with when it overflows.
pub fn read_timer_modulo(io_registers: &IoRegisters) -> (r: u8)
    ensures
        r == io_registers@.read_register(IoRegister::TMA),
{
    io_registers.read_register(IoRegister::TMA)
}

/// The number of clock cycles per TIMA increment selected by TAC bits 0-1.
pub open spec fn tima_period(tac: u8) -> u64 {
    let select = tac & 0x03;
    if select == 0 {
        1024
    } else if select == 1 {
        16
    } else if select == 2 {
        64
    } else {
        256
    }
}

/// TIMA incremented once: on overflow it is reloaded from TMA and a timer interrupt is
/// requested.
pub open spec fn tima_step(io: IoRegistersView, timer_modulo: u8) -> IoRegistersView {
    let old_tima = io.read_register(IoRegister::TIMA);
    if old_tima == 255 {
        let io1 = io.write_register(IoRegister::TIMA, timer_modulo);
        io1.with_byte(IoRegister::IF, io1.byte(IoRegister::IF) | InterruptType::Timer.spec_bit())
    } else {
        io.write_register(IoRegister::TIMA, (old_tima + 1) as u8)
    }
}

/// TIMA incremented `n` times.
pub open spec fn tima_steps(io: IoRegistersView, timer_modulo: u8, n: nat) -> IoRegistersView
    decreases n,
{
    if n == 0 {
        io
    } else {
        tima_steps(tima_step(io, timer_modulo), timer_modulo, (n - 1) as nat)
    }
}

/// The registers and the counter after `cycles` more clock cycles: DIV counts every 256 cycles
/// and, unless TAC bit 6 disables it, TIMA counts at the TAC-selected rate.
pub open spec fn spec_update_timer(
    io: IoRegistersView,
    counter: u64,
    timer_modulo: u8,
    cycles: u64,
) -> (IoRegistersView, u64) {
    let new_counter = (counter + cycles) as u64;
    let io1 = if counter / 256 != new_counter / 256 {
        io.with_byte(IoRegister::DIV, ((io.read_register(IoRegister::DIV) + 1) % 256) as u8)
    } else {
        io
    };
    let tac = io1.read_register(IoRegister::TAC);
    if tac & 0x40 != 0 {
        (io1, new_counter)
    } else {
        let period = tima_period(tac);
        (
            tima_steps(io1, timer_modulo, (new_counter / period - counter / period) as nat),
            new_counter,
        )
    }
}

proof fn lemma_period_diff_bound(old: u64, new: u64, period: u64)
    by (nonlinear_arith)
    requires
        period >= 16,
        old <= new,
        new - old <= 256,
    ensures
        0 <= new / period - old / period <= 17,
{
}

/// Advance the timer by up to 256 clock cycles, updating DIV and TIMA and requesting a timer
/// interrupt when TIMA overflows.
pub fn update_timer_registers(
    io_registers: &mut IoRegisters,
    counter: &mut TimerCounter,
    timer_modulo: u8,
    cycles: u64,
)
    requires
        cycles <= DIV_UPDATE_FREQUENCY,
        old(counter).0 + cycles <= u64::MAX,
    ensures
        (final(io_registers)@, final(counter).0) == spec_update_timer(
            old(io_registers)@,
            old(counter).0,
            timer_modulo,
            cycles,
        ),
{
    let old_cycles = counter.0;
    let new_cycles = old_cycles + cycles;
    counter.0 = new_cycles;
    if old_cycles / DIV_UPDATE_FREQUENCY != new_cycles / DIV_UPDATE_FREQUENCY {
        let old_div = io_registers.read_register(IoRegister::DIV);
        io_registers.privileged_set_div(old_div.wrapping_add(1));
    }
    let timer_control = io_registers.read_register(IoRegister::TAC);
    if timer_control & 0x40 != 0 {
        // TIMA updates are disabled
        return ;
    }
    let period: u64 = match timer_control & 0x03 {
        0x00 => 1024,
        0x01 => 16,
        0x02 => 64,
        _ => 256,
    };
    proof {
        lemma_period_diff_bound(old_cycles, new_cycles, period);
    }
    let tima_diff = new_cycles / period - old_cycles / period;
    let ghost start = io_registers@;
    let mut i: u64 = 0;
    // This is not the most efficient but generally this loop will only execute 0 or 1 times
    while i < tima_diff
        invariant
            i <= tima_diff,
            io_registers@ == tima_steps(start, timer_modulo, i as nat),
        decreases tima_diff - i,
    {
        proof {
            lemma_tima_steps_push(start, timer_modulo, i as nat);
        }
        let old_tima = io_registers.read_register(IoRegister::TIMA);
        if old_tima == 255 {
            io_registers.write_register(IoRegister::TIMA, timer_modulo);
            io_registers.request_interrupt(InterruptType::Timer);
        } else {
            io_registers.write_register(IoRegister::TIMA, old_tima + 1);
        }
        i += 1;
    }
}

/// Incrementing TIMA `n + 1` times is incrementing it `n` times and once more.
proof fn lemma_tima_steps_push(io: IoRegistersView, timer_modulo: u8, n: nat)
    ensures
        tima_steps(io, timer_modulo, n + 1) == tima_step(tima_steps(io, timer_modulo, n), timer_modulo),
    decreases n,
{
    let next = tima_step(io, timer_modulo);
    assert(tima_steps(io, timer_modulo, n + 1) == tima_steps(next, timer_modulo, n));
    if n > 0 {
        lemma_tima_steps_push(next, timer_modulo, (n - 1) as nat);
        assert(tima_steps(io, timer_modulo, n) == tima_steps(next, timer_modulo, (n - 1) as nat));
    }
}

/// With TAC bit 6 set the timer is off: TIMA stays as it was whatever the number of cycles, and
/// only DIV and the counter move.
pub proof fn law_timer_disabled_keeps_tima(
    io: IoRegistersView,
    counter: u64,
    timer_modulo: u8,
    cycles: u64,
)
    requires
        io.wf(),
        io.byte(IoRegister::TAC) & 0x40 != 0,
        counter + cycles <= u64::MAX,
    ensures
        ({
            let (io1, new_counter) = spec_update_timer(io, counter, timer_modulo, cycles);
            &&& io1.byte(IoRegister::TIMA) == io.byte(IoRegister::TIMA)
            &&& io1.byte(IoRegister::TMA) == io.byte(IoRegister::TMA)
            &&& io1.byte(IoRegister::IF) == io.byte(IoRegister::IF)
            &&& new_counter == counter + cycles
        }),
{
}

/// The counter advances by exactly the cycles run, and DIV steps up by one (wrapping) exactly
/// when the counter crosses a multiple of 256.
pub proof fn law_timer_counter_and_div(
    io: IoRegistersView,
    counter: u64,
    timer_modulo: u8,
    cycles: u64,
)
    requires
        io.wf(),
        counter + cycles <= u64::MAX,
    ensures
        ({
            let (io1, new_counter) = spec_update_timer(io, counter, timer_modulo, cycles);
            let div = io.byte(IoRegister::DIV);
            &&& new_counter == counter + cycles
            &&& io1.byte(IoRegister::DIV) == if counter / 256 != new_counter / 256 {
                ((div + 1) % 256) as u8
            } else {
                div
            }
        }),
{
    let new_counter = (counter + cycles) as u64;
    let io1 = if counter / 256 != new_counter / 256 {
        io.with_byte(IoRegister::DIV, ((io.read_register(IoRegister::DIV) + 1) % 256) as u8)
    } else {
        io
    };
    let tac = io1.read_register(IoRegister::TAC);
    if tac & 0x40 == 0 {
        let period = tima_period(tac);
        lemma_tima_steps_keep_div(io1, timer_modulo, (new_counter / period - counter / period) as nat);
    }
}

/// Counting TIMA leaves DIV alone.
proof fn lemma_tima_steps_keep_div(io: IoRegistersView, timer_modulo: u8, n: nat)
    requires
        io.wf(),
    ensures
        tima_steps(io, timer_modulo, n).byte(IoRegister::DIV) == io.byte(IoRegister::DIV),
        tima_steps(io, timer_modulo, n).wf(),
    decreases n,
{
    if n > 0 {
        lemma_tima_steps_keep_div(tima_step(io, timer_modulo), timer_modulo, (n - 1) as nat);
    }
}

} // verus!
