use vstd::prelude::*;
use crate::bus::{Bus, BusModel};
use crate::cartridge::{ines_error, ines_mirroring, ines_prg_len, HEADER_LEN};
use crate::cpu::Cpu;
use crate::err::EmuErr;
use crate::ppu::Ppu;
use crate::semantics::{CpuState, Interrupt, mach, power_on_state, reset_effect, step_outcome};

verus! {

/// The machine state that the CPU meets at its next step: an NMI that the
/// PPU raised is moved to the CPU at an instruction boundary.
pub open spec fn poll_nmi(c: CpuState, b: BusModel) -> (CpuState, BusModel) {
    if c.cycles == 0 && b.ppu.nmi_pending {
        (
            CpuState { pending: Some(Interrupt::Nmi), ..c },
            BusModel { ppu: Ppu { nmi_pending: false, ..b.ppu }, ..b },
        )
    } else {
        (c, b)
    }
}

/// A CPU wired to its bus.
pub struct Emulator {
    cpu: Cpu,
    bus: Bus,
}

impl Emulator {
    pub closed spec fn cpu_state(&self) -> CpuState {
        self.cpu@
    }

    pub closed spec fn bus_state(&self) -> BusModel {
        self.bus@
    }

    pub closed spec fn wf(&self) -> bool {
        self.bus.wf()
    }

    /// Whether a ROM has been loaded, so that the CPU can run.
    pub open spec fn ready(&self) -> bool {
        self.wf() && self.bus_state().prg is Some
    }

    /// A machine with no cartridge.
    pub fn new() -> (r: Emulator)
        ensures
            r.wf(),
            r.bus_state().prg is None,
    {
        Emulator { cpu: Cpu::new(), bus: Bus::new() }
    }

    pub fn cpu(&self) -> (r: &Cpu)
        ensures
            r@ == self.cpu_state(),
    {
        &self.cpu
    }

    pub fn bus(&self) -> (r: &Bus)
        ensures
            r@ == self.bus_state(),
    {
        &self.bus
    }

    /// Whether a ROM has been loaded.
    pub fn is_ready(&self) -> (r: bool)
        requires
            self.wf(),
        ensures
            r == self.ready(),
    {
        self.bus.has_mapper()
    }

    /// Loads an iNES image, then powers the CPU on and resets it. A load
    /// error is returned before the CPU is touched.
    pub fn init(&mut self, rom: &[u8]) -> (r: Result<(), EmuErr>)
        requires
            old(self).wf(),
        ensures
            final(self).wf(),
            ines_error(rom@) is Some <==> r is Err,
            r is Err ==> r == Err::<(), EmuErr>(ines_error(rom@)->0) && final(self).bus_state()
                == old(self).bus_state() && final(self).cpu_state() == old(self).cpu_state(),
            r is Ok ==> final(self).ready() && mach(final(self).cpu_state(), final(self).bus_state())
                == reset_effect(
                mach(
                    power_on_state(old(self).cpu_state()),
                    BusModel {
                        ppu: Ppu { mirror: ines_mirroring(rom@[6]), ..old(self).bus_state().ppu },
                        prg: Some(
                            rom@.subrange(HEADER_LEN as int, HEADER_LEN + ines_prg_len(rom@)),
                        ),
                        ..old(self).bus_state()
                    },
                ),
            ),
    {
        self.bus.load_rom(rom)?;
        self.cpu.power_on();
        self.cpu.reset(&mut self.bus);
        Ok(())
    }

    /// One CPU cycle followed by three PPU cycles. At an instruction
    /// boundary an NMI that the PPU raised is handed to the CPU and cleared.
    /// Returns `Ok(true)` once the CPU halts.
    pub fn step(&mut self) -> (r: Result<bool, EmuErr>)
        requires
            old(self).ready(),
        ensures
            final(self).ready(),
            (mach(final(self).cpu_state(), final(self).bus_state()), r) == ({
                let polled = poll_nmi(old(self).cpu_state(), old(self).bus_state());
                step_outcome(mach(polled.0, polled.1))
            }),
    {
        if self.cpu.cycles() == 0 && self.bus.ppu().nmi_pending {
            self.cpu.interrupt(Interrupt::Nmi);
            let ppu = self.bus.ppu_mut();
            ppu.nmi_pending = false;
        }
        let exit = self.cpu.step(&mut self.bus)?;
        self.bus.step()?;
        Ok(exit)
    }
}

} // verus!
