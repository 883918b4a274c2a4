//! mcause register

use vstd::prelude::*;

verus! {

/// Number of the `mcause` register.
pub const CSR: u16 = 0x342;

/// mcause register
#[derive(Clone, Copy, Debug)]
pub struct Mcause {
    bits: usize,
}

impl View for Mcause {
    type V = usize;

    /// The raw bits of the register.
    closed spec fn view(&self) -> usize {
        self.bits
    }
}

/// Trap Cause
#[derive(Copy, Clone, Debug, PartialEq, Eq, Structural)]
pub enum Trap {
    Interrupt(Interrupt),
    Exception(Exception),
}

/// Interrupt
#[derive(Copy, Clone, Debug, PartialEq, Eq, Structural)]
pub enum Interrupt {
    SupervisorSoft,
    MachineSoft,
    SupervisorTimer,
    MachineTimer,
    SupervisorExternal,
    MachineExternal,
    RasLpInterrupt,
    RasHpInterrupt,
    Unknown,
}

/// Exception
#[derive(Copy, Clone, Debug, PartialEq, Eq, Structural)]
pub enum Exception {
    InstructionMisaligned,
    InstructionFault,
    IllegalInstruction,
    Breakpoint,
    LoadMisaligned,
    LoadFault,
    StoreMisaligned,
    StoreFault,
    UserEnvCall,
    SupervisorEnvCall,
    MachineEnvCall,
    InstructionPageFault,
    LoadPageFault,
    StorePageFault,
    SoftwareCheck,
    HardwareError,
    Unknown,
}

impl Interrupt {
    /// The interrupt that the cause number `nr` stands for. The software,
    /// timer and external interrupts of the supervisor and the machine have
    /// the odd numbers from 1 to 11; every other number is `Unknown`.
    pub open spec fn spec_from(nr: usize) -> Interrupt {
        if nr == 1 {
            Interrupt::SupervisorSoft
        } else if nr == 3 {
            Interrupt::MachineSoft
        } else if nr == 5 {
            Interrupt::SupervisorTimer
        } else if nr == 7 {
            Interrupt::MachineTimer
        } else if nr == 9 {
            Interrupt::SupervisorExternal
        } else if nr == 11 {
            Interrupt::MachineExternal
        } else {
            Interrupt::Unknown
        }
    }

    /// The interrupt that the cause number `nr` stands for.
    #[inline]
    pub fn from(nr: usize) -> (r: Interrupt)
        ensures
            r == Self::spec_from(nr),
    {
        match nr {
            1 => Interrupt::SupervisorSoft,
            3 => Interrupt::MachineSoft,
            5 => Interrupt::SupervisorTimer,
            7 => Interrupt::MachineTimer,
            9 => Interrupt::SupervisorExternal,
            11 => Interrupt::MachineExternal,
            _ => Interrupt::Unknown,
        }
    }
}

impl Exception {
    /// The exception that the cause number `nr` stands for; a number that
    /// stands for none is `Unknown`.
    pub open spec fn spec_from(nr: usize) -> Exception {
        if nr == 0 {
            Exception::InstructionMisaligned
        } else if nr == 1 {
            Exception::InstructionFault
        } else if nr == 2 {
            Exception::IllegalInstruction
        } else if nr == 3 {
            Exception::Breakpoint
        } else if nr == 4 {
            Exception::LoadMisaligned
        } else if nr == 5 {
            Exception::LoadFault
        } else if nr == 6 {
            Exception::StoreMisaligned
        } else if nr == 7 {
            Exception::StoreFault
        } else if nr == 8 {
            Exception::UserEnvCall
        } else if nr == 9 {
            Exception::SupervisorEnvCall
        } else if nr == 11 {
            Exception::MachineEnvCall
        } else if nr == 12 {
            Exception::InstructionPageFault
        } else if nr == 13 {
            Exception::LoadPageFault
        } else if nr == 15 {
            Exception::StorePageFault
        } else if nr == 18 {
            Exception::SoftwareCheck
        } else if nr == 19 {
            Exception::HardwareError
        } else {
            Exception::Unknown
        }
    }

    /// The exception that the cause number `nr` stands for.
    #[inline]
    pub fn from(nr: usize) -> (r: Exception)
        ensures
            r == Self::spec_from(nr),
    {
        match nr {
            0 => Exception::InstructionMisaligned,
            1 => Exception::InstructionFault,
            2 => Exception::IllegalInstruction,
            3 => Exception::Breakpoint,
            4 => Exception::LoadMisaligned,
            5 => Exception::LoadFault,
            6 => Exception::StoreMisaligned,
            7 => Exception::StoreFault,
            8 => Exception::UserEnvCall,
            9 => Exception::SupervisorEnvCall,
            11 => Exception::MachineEnvCall,
            12 => Exception::InstructionPageFault,
            13 => Exception::LoadPageFault,
            15 => Exception::StorePageFault,
            18 => Exception::SoftwareCheck,
            19 => Exception::HardwareError,
            _ => Exception::Unknown,
        }
    }
}

/// The top bit of a machine word, which marks an interrupt: the smallest
/// register value that stands for one.
pub open spec fn interrupt_bit() -> usize {
    1usize << ((usize::BITS - 1) as usize)
}

/// The top bit of a word and the bits below it, as numbers.
proof fn lemma_top_bit(bits: usize, top: usize)
    by (bit_vector)
    requires
        top == 1usize << ((usize::BITS - 1) as usize),
    ensures
        (bits & top == top) == (bits >= top),
        bits >= top ==> bits & !top == bits - top,
        bits < top ==> bits & !top == bits,
{
}

impl Mcause {
    /// The value of the register whose raw bits are `bits`.
    #[inline]
    pub fn from_bits(bits: usize) -> (r: Mcause)
        ensures
            r@ == bits,
    {
        Mcause { bits }
    }

    /// The cause number of a register value: the value without its top
    /// bit.
    pub open spec fn spec_code(self) -> int {
        if self@ >= interrupt_bit() {
            self@ - interrupt_bit()
        } else {
            self@ as int
        }
    }

    /// The trap that a register value stands for.
    pub open spec fn spec_cause(self) -> Trap {
        if self@ >= interrupt_bit() {
            Trap::Interrupt(Interrupt::spec_from(self.spec_code() as usize))
        } else {
            Trap::Exception(Exception::spec_from(self.spec_code() as usize))
        }
    }

    /// The top bit of a machine word.
    fn top_bit() -> (r: usize)
        ensures
            r == interrupt_bit(),
    {
        let shift: usize = crate::bits::word_bytes() * 8 - 1;
        1usize << shift
    }

    /// Returns the contents of the register as raw bits
    #[inline]
    pub fn bits(&self) -> (r: usize)
        ensures
            r == self@,
    {
        self.bits
    }

    /// Returns the code field
    #[inline]
    pub fn code(&self) -> (r: usize)
        ensures
            r == self.spec_code(),
    {
        let top = Self::top_bit();
        proof {
            lemma_top_bit(self.bits, top);
        }
        self.bits & !top
    }

    /// Trap Cause
    #[inline]
    pub fn cause(&self) -> (r: Trap)
        ensures
            r == self.spec_cause(),
    {
        if self.is_interrupt() {
            Trap::Interrupt(Interrupt::from(self.code()))
        } else {
            Trap::Exception(Exception::from(self.code()))
        }
    }

    /// Is trap cause an interrupt.
    #[inline]
    pub fn is_interrupt(&self) -> (r: bool)
        ensures
            r == (self@ >= interrupt_bit()),
    {
        let top = Self::top_bit();
        proof {
            lemma_top_bit(self.bits, top);
        }
        self.bits & top == top
    }

    /// Is trap cause an exception.
    #[inline]
    pub fn is_exception(&self) -> (r: bool)
        ensures
            r == (self@ < interrupt_bit()),
    {
        !self.is_interrupt()
    }
}

} // verus!
