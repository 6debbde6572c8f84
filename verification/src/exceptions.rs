//! x86 exception vectors.

use vstd::prelude::*;

verus! {

pub const DE: u32 = 0;

pub const DB: u32 = 1;

pub const NMI: u32 = 2;

pub const BP: u32 = 3;

pub const OF: u32 = 4;

pub const BR: u32 = 5;

pub const UD: u32 = 6;

pub const NM: u32 = 7;

pub const MO: u32 = 9;

pub const MF: u32 = 16;

pub const MC: u32 = 18;

pub const XF: u32 = 19;

pub const DF: u32 = 8;

pub const TS: u32 = 10;

pub const NP: u32 = 11;

pub const SS_FAULT: u32 = 12;

pub const GP: u32 = 13;

pub const PF: u32 = 14;

pub const AC: u32 = 17;

#[derive(Debug, Copy, Clone, PartialEq, Eq, Structural)]
pub enum Exception {
    DivideZero,
    Debug,
    NonMaskable,
    Breakpoint,
    Overflow,
    Bound,
    InvalidOpCode,
    DeviceNotAvailable,
    DoubleFault,
    Coprocessor,
    InvalidTSS,
    SegmentNotPresent,
    StackFault,
    GeneralProtection,
    PageFault,
    Reserved,
    FloatingPoint,
    Alignment,
    MachineCheck,
    SIMD,
    Virtualization,
}

pub open spec fn spec_exception_of(vector: u8) -> Result<Exception, u8> {
    match vector {
        0u8 => Ok(Exception::DivideZero),
        1u8 => Ok(Exception::Debug),
        2u8 => Ok(Exception::NonMaskable),
        3u8 => Ok(Exception::Breakpoint),
        4u8 => Ok(Exception::Overflow),
        5u8 => Ok(Exception::Bound),
        6u8 => Ok(Exception::InvalidOpCode),
        7u8 => Ok(Exception::DeviceNotAvailable),
        8u8 => Ok(Exception::DoubleFault),
        9u8 => Ok(Exception::Coprocessor),
        10u8 => Ok(Exception::InvalidTSS),
        11u8 => Ok(Exception::SegmentNotPresent),
        12u8 => Ok(Exception::StackFault),
        13u8 => Ok(Exception::GeneralProtection),
        14u8 => Ok(Exception::PageFault),
        16u8 => Ok(Exception::FloatingPoint),
        17u8 => Ok(Exception::Alignment),
        18u8 => Ok(Exception::MachineCheck),
        19u8 => Ok(Exception::SIMD),
        20u8 => Ok(Exception::Virtualization),
        n => if n == 15 || (21 <= n <= 31) {
            Ok(Exception::Reserved)
        } else {
            Err(n)
        },
    }
}

impl Exception {
    /// The CPU pushes an error code for this exception.
    pub fn has_code(&self) -> (r: bool)
        ensures
            r == matches!(
                *self,
                Exception::DoubleFault
                    | Exception::InvalidTSS
                    | Exception::SegmentNotPresent
                    | Exception::StackFault
                    | Exception::GeneralProtection
                    | Exception::PageFault
                    | Exception::Alignment
            ),
    {
        match *self {
            Exception::DoubleFault
            | Exception::InvalidTSS
            | Exception::SegmentNotPresent
            | Exception::StackFault
            | Exception::GeneralProtection
            | Exception::PageFault
            | Exception::Alignment => true,
            _ => false,
        }
    }

    /// Decode an exception vector; vectors above 31 are no exceptions.
    pub fn try_from(vector: u8) -> (r: Result<Exception, u8>)
        ensures
            r == spec_exception_of(vector),
    {
        match vector {
            0 => Ok(Exception::DivideZero),
            1 => Ok(Exception::Debug),
            2 => Ok(Exception::NonMaskable),
            3 => Ok(Exception::Breakpoint),
            4 => Ok(Exception::Overflow),
            5 => Ok(Exception::Bound),
            6 => Ok(Exception::InvalidOpCode),
            7 => Ok(Exception::DeviceNotAvailable),
            8 => Ok(Exception::DoubleFault),
            9 => Ok(Exception::Coprocessor),
            10 => Ok(Exception::InvalidTSS),
            11 => Ok(Exception::SegmentNotPresent),
            12 => Ok(Exception::StackFault),
            13 => Ok(Exception::GeneralProtection),
            14 => Ok(Exception::PageFault),
            16 => Ok(Exception::FloatingPoint),
            17 => Ok(Exception::Alignment),
            18 => Ok(Exception::MachineCheck),
            19 => Ok(Exception::SIMD),
            20 => Ok(Exception::Virtualization),
            n => {
                if n == 15 || (21 <= n && n <= 31) {
                    Ok(Exception::Reserved)
                } else {
                    Err(n)
                }
            },
        }
    }
}

} // verus!
