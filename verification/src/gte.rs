//! Geometry coprocessor (COP2) register file.  The emulator core holds
//! its data registers as plain values; the transform commands themselves
//! are not implemented, and receiving one is a host-fatal fault.

use vstd::prelude::*;

use crate::fault::Fault;
use crate::instruction::RegisterIndex;

verus! {

/// A matrix-selection field of an MVMVA command.
#[derive(Clone, Copy, Debug, PartialEq, Eq, Structural)]
pub enum MultiplyMatrixType {
    Rotation,
    Light,
    Color,
}

/// A vector-selection field of an MVMVA command.
#[derive(Clone, Copy, Debug, PartialEq, Eq, Structural)]
pub enum MultiplyVectorType {
    V0,
    V1,
    V2,
    IrLong,
}

/// A translation-selection field of an MVMVA command.
#[derive(Clone, Copy, Debug, PartialEq, Eq, Structural)]
pub enum TranslationVectorType {
    Tr,
    Bk,
    FcBugged,
    NoTranslation,
}

/// A geometry command word, 25 bits.
#[derive(Clone, Copy, Debug, PartialEq, Eq, Structural)]
pub struct GteInstruction(pub u32);

impl GteInstruction {
    /// The shift-fraction bit.
    pub fn op_sf(self) -> (r: bool)
        ensures
            r == (self.0 & 0x80000 > 0),
    {
        self.0 & 0x80000 > 0
    }

    /// The MVMVA matrix field, bits 18:17.
    pub fn op_mvmva_multiply_matrix(self) -> (r: MultiplyMatrixType)
        requires
            (self.0 >> 17) & 3 != 3,
        ensures
            (self.0 >> 17) & 3 == 0 ==> r == MultiplyMatrixType::Rotation,
            (self.0 >> 17) & 3 == 1 ==> r == MultiplyMatrixType::Light,
            (self.0 >> 17) & 3 == 2 ==> r == MultiplyMatrixType::Color,
    {
        match (self.0 >> 17) & 0b11 {
            0 => MultiplyMatrixType::Rotation,
            1 => MultiplyMatrixType::Light,
            _ => MultiplyMatrixType::Color,
        }
    }

    /// The MVMVA vector field, bits 16:15.
    pub fn op_mvmva_multiply_vector(self) -> (r: MultiplyVectorType)
        ensures
            (self.0 >> 15) & 3 == 0 ==> r == MultiplyVectorType::V0,
            (self.0 >> 15) & 3 == 1 ==> r == MultiplyVectorType::V1,
            (self.0 >> 15) & 3 == 2 ==> r == MultiplyVectorType::V2,
            (self.0 >> 15) & 3 == 3 ==> r == MultiplyVectorType::IrLong,
    {
        proof {
            let v = self.0;
            assert((v >> 15) & 3 < 4) by (bit_vector);
        }
        match (self.0 >> 15) & 0b11 {
            0 => MultiplyVectorType::V0,
            1 => MultiplyVectorType::V1,
            2 => MultiplyVectorType::V2,
            _ => MultiplyVectorType::IrLong,
        }
    }

    /// The MVMVA translation field, bits 14:13.
    pub fn op_mvmva_translation_vector(self) -> (r: TranslationVectorType)
        ensures
            (self.0 >> 13) & 3 == 0 ==> r == TranslationVectorType::Tr,
            (self.0 >> 13) & 3 == 1 ==> r == TranslationVectorType::Bk,
            (self.0 >> 13) & 3 == 2 ==> r == TranslationVectorType::FcBugged,
            (self.0 >> 13) & 3 == 3 ==> r == TranslationVectorType::NoTranslation,
    {
        proof {
            let v = self.0;
            assert((v >> 13) & 3 < 4) by (bit_vector);
        }
        match (self.0 >> 13) & 0b11 {
            0 => TranslationVectorType::Tr,
            1 => TranslationVectorType::Bk,
            2 => TranslationVectorType::FcBugged,
            _ => TranslationVectorType::NoTranslation,
        }
    }

    /// The saturation bit.
    pub fn op_saturate(self) -> (r: bool)
        ensures
            r == (self.0 & 0x400 > 0),
    {
        self.0 & 0x400 > 0
    }

    /// The command number, bits 5:0.
    pub fn op_command(self) -> (r: u32)
        ensures
            r == self.0 & 0x3F,
    {
        self.0 & 0x3F
    }
}

/// The geometry coprocessor's register file, held as plain values.
pub struct Gte {
    pub mac0: i32,
    pub mac1: i32,
    pub mac2: i32,
    pub mac3: i32,
    pub irgb: u16,
    pub orgb: u16,
    pub lzcs: i32,
    pub lzcr: i32,
}

impl Gte {
    pub fn new() -> (r: Gte)
        ensures
            r == (Gte {
                mac0: 0,
                mac1: 0,
                mac2: 0,
                mac3: 0,
                irgb: 0,
                orgb: 0,
                lzcs: 0,
                lzcr: 0,
            }),
    {
        Gte { mac0: 0, mac1: 0, mac2: 0, mac3: 0, irgb: 0, orgb: 0, lzcs: 0, lzcr: 0 }
    }

    /// MFC2: reads a data register.  Only the accumulator and conversion
    /// registers are implemented.
    pub fn load_data(&self, offset: RegisterIndex) -> (r: Result<u32, Fault>)
        ensures
            offset.0 == 24 ==> r == Ok::<u32, Fault>(self.mac0 as u32),
            offset.0 == 25 ==> r == Ok::<u32, Fault>(self.mac1 as u32),
            offset.0 == 26 ==> r == Ok::<u32, Fault>(self.mac2 as u32),
            offset.0 == 27 ==> r == Ok::<u32, Fault>(self.mac3 as u32),
            offset.0 == 28 ==> r == Ok::<u32, Fault>(self.irgb as u32),
            offset.0 == 29 ==> r == Ok::<u32, Fault>(self.orgb as u32),
            offset.0 == 30 ==> r == Ok::<u32, Fault>(self.lzcs as u32),
            offset.0 == 31 ==> r == Ok::<u32, Fault>(self.lzcr as u32),
            offset.0 < 24 ==> r == Err::<u32, Fault>(
                Fault::UnhandledGteRegister { register: offset.0 },
            ),
    {
        match offset.0 {
            24 => Ok(self.mac0 as u32),
            25 => Ok(self.mac1 as u32),
            26 => Ok(self.mac2 as u32),
            27 => Ok(self.mac3 as u32),
            28 => Ok(self.irgb as u32),
            29 => Ok(self.orgb as u32),
            30 => Ok(self.lzcs as u32),
            31 => Ok(self.lzcr as u32),
            _ => Err(Fault::UnhandledGteRegister { register: offset.0 }),
        }
    }

    /// MTC2: writes a data register.
    pub fn store_data(&mut self, offset: RegisterIndex, val: u32) -> (r: Result<(), Fault>)
        ensures
            offset.0 == 24 ==> r is Ok && *final(self) == (Gte {
                mac0: val as i32,
                ..*old(self)
            }),
            offset.0 == 25 ==> r is Ok && *final(self) == (Gte {
                mac1: val as i32,
                ..*old(self)
            }),
            offset.0 == 26 ==> r is Ok && *final(self) == (Gte {
                mac2: val as i32,
                ..*old(self)
            }),
            offset.0 == 27 ==> r is Ok && *final(self) == (Gte {
                mac3: val as i32,
                ..*old(self)
            }),
            offset.0 == 28 ==> r is Ok && *final(self) == (Gte {
                irgb: val as u16,
                ..*old(self)
            }),
            offset.0 == 29 ==> r is Ok && *final(self) == (Gte {
                orgb: val as u16,
                ..*old(self)
            }),
            offset.0 == 30 ==> r is Ok && *final(self) == (Gte {
                lzcs: val as i32,
                ..*old(self)
            }),
            offset.0 == 31 ==> r is Ok && *final(self) == (Gte {
                lzcr: val as i32,
                ..*old(self)
            }),
            offset.0 < 24 ==> r == Err::<(), Fault>(
                Fault::UnhandledGteRegister { register: offset.0 },
            ) && *final(self) == *old(self),
    {
        match offset.0 {
            24 => {
                self.mac0 = val as i32;
                Ok(())
            },
            25 => {
                self.mac1 = val as i32;
                Ok(())
            },
            26 => {
                self.mac2 = val as i32;
                Ok(())
            },
            27 => {
                self.mac3 = val as i32;
                Ok(())
            },
            28 => {
                self.irgb = val as u16;
                Ok(())
            },
            29 => {
                self.orgb = val as u16;
                Ok(())
            },
            30 => {
                self.lzcs = val as i32;
                Ok(())
            },
            31 => {
                self.lzcr = val as i32;
                Ok(())
            },
            _ => Err(Fault::UnhandledGteRegister { register: offset.0 }),
        }
    }

    /// CFC2: the control registers are not implemented; reads log and
    /// return zero.
    pub fn load_control(&self, offset: RegisterIndex) -> (r: u32)
        ensures
            r == 0,
    {
        let _ = offset;
        0
    }

    /// CTC2: control-register writes are dropped.
    pub fn store_control(&mut self, offset: RegisterIndex, val: u32)
        ensures
            *final(self) == *old(self),
    {
        let _ = offset;
        let _ = val;
    }

    /// A geometry command; none are implemented, so any command is a
    /// host-fatal fault.
    pub fn command(&mut self, command: u32) -> (r: Result<(), Fault>)
        ensures
            r == Err::<(), Fault>(Fault::UnhandledGteInstruction { value: command }),
            *final(self) == *old(self),
    {
        Err(Fault::UnhandledGteInstruction { value: command })
    }
}

} // verus!
