//! Host-fatal faults: configuration and invariant violations that indicate a
//! broken guest doing something impossible on real hardware.  They are never
//! surfaced to the guest; the embedding program is expected to abort with a
//! diagnostic when one is returned.

use vstd::prelude::*;

verus! {

/// A host-fatal fault, carrying what the guest did.
#[derive(Clone, Copy, Debug, PartialEq, Eq, Structural)]
pub enum Fault {
    /// An access ran past the end of its memory region.
    RegionOverrun { offset: u32 },
    /// A store hit the BIOS address range.
    BiosStore { offset: u32 },
    /// MemControl register 0 was written with other than the expansion 1
    /// base 0x1F000000.
    BadExpansion1Base { value: u32 },
    /// MemControl register 4 was written with other than the expansion 2
    /// base 0x1F802000.
    BadExpansion2Base { value: u32 },
    /// A load or store hit an IRQ-control offset other than STAT or MASK.
    UnhandledIrqRegister { offset: u32 },
    /// A DMA register was accessed with other than word width.
    UnhandledDmaWidth,
    /// A load hit a DMA register that is not readable.
    UnhandledDmaRead { offset: u32 },
    /// A store hit a DMA register that is not writable.
    UnhandledDmaWrite { offset: u32 },
    /// A channel control word named the reserved sync mode 3.
    UnknownDmaSyncMode,
    /// A block transfer was started on a port the engine cannot serve.
    UnhandledDmaPort { port: u32 },
    /// A block transfer was started in linked-list sync mode.
    DmaBlockSizeUnknown,
    /// A linked-list transfer was started towards RAM.
    DmaLinkedListToRam,
    /// A linked-list transfer was started on a port other than the GPU.
    DmaLinkedListPort { port: u32 },
    /// A linked-list walk exceeded the header budget without terminating.
    DmaLinkedListRunaway,
    /// GP0 received an opcode the command decoder does not know.
    UnknownGp0Opcode { value: u32 },
    /// GP1 received an opcode the control decoder does not know.
    UnknownGp1Opcode { value: u32 },
    /// A draw-mode word named the reserved texture depth 3.
    UnhandledTextureDepth,
    /// A display-mode word set the unsupported bit 7.
    UnhandledDisplayMode { value: u32 },
    /// A load or store hit a timer offset other than its three registers.
    UnhandledTimerRegister { offset: u32 },
    /// A load or store hit a joypad offset the controller does not decode.
    UnhandledJoypadRegister { offset: u32 },
    /// A CD-ROM command needed a parameter the FIFO does not hold.
    MissingCdRomParameter,
    /// The CD-ROM data FIFO was read past the end of the disc image, or
    /// with no disc present.
    DiscAccessOutOfRange,
    /// A COP0 instruction carried an opcode the coprocessor does not know.
    UnhandledCop0Opcode { value: u32 },
    /// A non-zero value was written to a reserved COP0 register.
    UnhandledCop0Write { register: u32 },
    /// A COP0 register the coprocessor does not expose was read.
    UnhandledCop0Read { register: u32 },
    /// An RFE-slot instruction other than RFE itself.
    InvalidCop0Rfe { value: u32 },
    /// CFC0 and CTC0 transfers are not implemented.
    UnsupportedCop0Transfer,
    /// The geometry coprocessor received a command word it does not
    /// implement.
    UnhandledGteInstruction { value: u32 },
    /// A geometry-coprocessor data register outside the implemented file.
    UnhandledGteRegister { register: u32 },
    /// LWC2 to the geometry coprocessor is not implemented.
    UnhandledGteLwc { value: u32 },
    /// SWC2 from the geometry coprocessor is not implemented.
    UnhandledGteSwc { value: u32 },
}

} // verus!
