use vstd::prelude::*;

verus! {

/// One step of bringing the system up.
#[derive(Clone, Copy, PartialEq, Eq, Structural)]
pub enum InitStep {
    /// Set up the translation tables and turn the MMU on; failure is fatal.
    MmuInit,
    /// Bring up the serial UART as the console.
    SerialUart,
    /// Print the memory map on the console.
    PrintMemoryMap,
    /// Create the screen with its buffers at the given address.
    CreateScreen(usize),
    /// Create the framebuffer console with its buffers at the given address.
    FramebufferConsole(usize),
}

/// The start-up sequence for the configured features: the MMU, then the serial console
/// and a memory map on it, then the screen and the framebuffer console.
pub fn initialize(mmu: bool, serial_uart: bool, framebuffer: bool) -> (r: Vec<InitStep>)
    ensures
        r@ == (if mmu { seq![InitStep::MmuInit] } else { Seq::empty() })
            + (if serial_uart { seq![InitStep::SerialUart, InitStep::PrintMemoryMap] } else { Seq::empty() })
            + (if framebuffer { seq![InitStep::CreateScreen(0x50_0000), InitStep::FramebufferConsole(0x60_0000)] } else { Seq::empty() }),
{
    let mut steps: Vec<InitStep> = Vec::new();
    if mmu {
        steps.push(InitStep::MmuInit);
    }
    let ghost a = steps@;
    if serial_uart {
        steps.push(InitStep::SerialUart);
        steps.push(InitStep::PrintMemoryMap);
    }
    let ghost b = steps@;
    if framebuffer {
        steps.push(InitStep::CreateScreen(0x50_0000));
        steps.push(InitStep::FramebufferConsole(0x60_0000));
    }
    proof {
        let sa = if mmu { seq![InitStep::MmuInit] } else { Seq::<InitStep>::empty() };
        let sb = if serial_uart { seq![InitStep::SerialUart, InitStep::PrintMemoryMap] } else { Seq::<InitStep>::empty() };
        let sc = if framebuffer { seq![InitStep::CreateScreen(0x50_0000), InitStep::FramebufferConsole(0x60_0000)] } else { Seq::<InitStep>::empty() };
        assert(a =~= sa);
        assert(b =~= sa + sb);
        assert(steps@ =~= sa + sb + sc);
    }
    steps
}

} // verus!
