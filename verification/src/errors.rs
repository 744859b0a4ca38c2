//! Return codes of the native library, used as the error type of every
//! fallible operation.
//!
//! The native library reports the outcome of each call as an unsigned
//! integer: zero is success, every other value names a failure.

use crate::native::NativeCall;
use crate::text::{from_utf8_lossy, lossy_text};
use vstd::prelude::*;

verus! {

/// The outcome kinds that the native library reports.
///
/// `Success` stands for code zero. As an error value a `ReturnCode` is never
/// `Success`.
/// The variants are listed in the order of their codes, so the derived
/// ordering is the ordering of the codes.
#[derive(Debug, Clone, Copy, PartialEq, Eq, PartialOrd, Ord, Structural)]
#[non_exhaustive]
#[allow(missing_docs)]
pub enum ReturnCode {
    Success,
    Perm,
    NoEnt,
    Timeout,
    Interrupted,
    Io,
    NoMemory,
    Access,
    Fault,
    Busy,
    Exist,
    NotDir,
    IsDir,
    Invalid,
    NFile,
    MFile,
    NoSPC,
    FBig,
    ROFS,
    RO,
    Unsupported,
    InvalidArg,
    Again,
    NotEmpty,
    Duplicate,
    Unexpected,
    Eof,
    ConnRef,
    BadPassword,
    NoDev,
    Pipe,
    Resolv,
    NetUnavail,
    ConnReset,
    HostUnreach,
    WrongDevice,
    UnknownVal,
    NotAttached,
    InvalidPacket,
    TooBig,
    BadVersion,
    Closed,
    NotConfigured,
    KeepAlive,
    Failsafe,
    UnknownValHigh,
    UnknownValLow,
    BadPower,
    PowerCycle,
    HallSensor,
    BadCurrent,
    BadConnection,
    Nack,
}

impl ReturnCode {
    /// The native integer that stands for this kind.
    pub open spec fn spec_code(self) -> u32 {
        match self {
            ReturnCode::Success => 0,
            ReturnCode::Perm => 1,
            ReturnCode::NoEnt => 2,
            ReturnCode::Timeout => 3,
            ReturnCode::Interrupted => 4,
            ReturnCode::Io => 5,
            ReturnCode::NoMemory => 6,
            ReturnCode::Access => 7,
            ReturnCode::Fault => 8,
            ReturnCode::Busy => 9,
            ReturnCode::Exist => 10,
            ReturnCode::NotDir => 11,
            ReturnCode::IsDir => 12,
            ReturnCode::Invalid => 13,
            ReturnCode::NFile => 14,
            ReturnCode::MFile => 15,
            ReturnCode::NoSPC => 16,
            ReturnCode::FBig => 17,
            ReturnCode::ROFS => 18,
            ReturnCode::RO => 19,
            ReturnCode::Unsupported => 20,
            ReturnCode::InvalidArg => 21,
            ReturnCode::Again => 22,
            ReturnCode::NotEmpty => 26,
            ReturnCode::Duplicate => 27,
            ReturnCode::Unexpected => 28,
            ReturnCode::Eof => 31,
            ReturnCode::ConnRef => 35,
            ReturnCode::BadPassword => 37,
            ReturnCode::NoDev => 40,
            ReturnCode::Pipe => 41,
            ReturnCode::Resolv => 44,
            ReturnCode::NetUnavail => 45,
            ReturnCode::ConnReset => 46,
            ReturnCode::HostUnreach => 48,
            ReturnCode::WrongDevice => 50,
            ReturnCode::UnknownVal => 51,
            ReturnCode::NotAttached => 52,
            ReturnCode::InvalidPacket => 53,
            ReturnCode::TooBig => 54,
            ReturnCode::BadVersion => 55,
            ReturnCode::Closed => 56,
            ReturnCode::NotConfigured => 57,
            ReturnCode::KeepAlive => 58,
            ReturnCode::Failsafe => 59,
            ReturnCode::UnknownValHigh => 60,
            ReturnCode::UnknownValLow => 61,
            ReturnCode::BadPower => 62,
            ReturnCode::PowerCycle => 63,
            ReturnCode::HallSensor => 64,
            ReturnCode::BadCurrent => 65,
            ReturnCode::BadConnection => 66,
            ReturnCode::Nack => 67,
        }
    }

    /// Whether some kind stands for `code`.
    pub open spec fn is_known(code: u32) -> bool {
        exists|k: ReturnCode| k.spec_code() == code
    }

    /// The kind that a native integer names: the one with that code, and
    /// `Unexpected` for an integer that no kind stands for.
    pub open spec fn of_code(code: u32) -> ReturnCode {
        if Self::is_known(code) {
            choose|k: ReturnCode| k.spec_code() == code
        } else {
            ReturnCode::Unexpected
        }
    }

    /// What a native return code means for the caller: success for zero,
    /// otherwise the failure that the code names.
    pub open spec fn spec_result(rc: u32) -> Result<(), ReturnCode> {
        if rc == 0 {
            Ok(())
        } else {
            Err(Self::of_code(rc))
        }
    }

    /// The native integer that stands for this kind.
    #[verifier::when_used_as_spec(spec_code)]
    pub fn code(self) -> (c: u32)
        ensures
            c == self.spec_code(),
    {
        match self {
            ReturnCode::Success => 0,
            ReturnCode::Perm => 1,
            ReturnCode::NoEnt => 2,
            ReturnCode::Timeout => 3,
            ReturnCode::Interrupted => 4,
            ReturnCode::Io => 5,
            ReturnCode::NoMemory => 6,
            ReturnCode::Access => 7,
            ReturnCode::Fault => 8,
            ReturnCode::Busy => 9,
            ReturnCode::Exist => 10,
            ReturnCode::NotDir => 11,
            ReturnCode::IsDir => 12,
            ReturnCode::Invalid => 13,
            ReturnCode::NFile => 14,
            ReturnCode::MFile => 15,
            ReturnCode::NoSPC => 16,
            ReturnCode::FBig => 17,
            ReturnCode::ROFS => 18,
            ReturnCode::RO => 19,
            ReturnCode::Unsupported => 20,
            ReturnCode::InvalidArg => 21,
            ReturnCode::Again => 22,
            ReturnCode::NotEmpty => 26,
            ReturnCode::Duplicate => 27,
            ReturnCode::Unexpected => 28,
            ReturnCode::Eof => 31,
            ReturnCode::ConnRef => 35,
            ReturnCode::BadPassword => 37,
            ReturnCode::NoDev => 40,
            ReturnCode::Pipe => 41,
            ReturnCode::Resolv => 44,
            ReturnCode::NetUnavail => 45,
            ReturnCode::ConnReset => 46,
            ReturnCode::HostUnreach => 48,
            ReturnCode::WrongDevice => 50,
            ReturnCode::UnknownVal => 51,
            ReturnCode::NotAttached => 52,
            ReturnCode::InvalidPacket => 53,
            ReturnCode::TooBig => 54,
            ReturnCode::BadVersion => 55,
            ReturnCode::Closed => 56,
            ReturnCode::NotConfigured => 57,
            ReturnCode::KeepAlive => 58,
            ReturnCode::Failsafe => 59,
            ReturnCode::UnknownValHigh => 60,
            ReturnCode::UnknownValLow => 61,
            ReturnCode::BadPower => 62,
            ReturnCode::PowerCycle => 63,
            ReturnCode::HallSensor => 64,
            ReturnCode::BadCurrent => 65,
            ReturnCode::BadConnection => 66,
            ReturnCode::Nack => 67,
        }
    }

    /// Converts a native integer into a kind. Integers that the table does
    /// not hold become `Unexpected`; the conversion never fails.
    pub fn from(val: u32) -> (k: ReturnCode)
        ensures
            k == Self::of_code(val),
            Self::is_known(val) ==> k.spec_code() == val,
            !Self::is_known(val) ==> k == ReturnCode::Unexpected,
    {
        let k = match val {
            0 => ReturnCode::Success,
            1 => ReturnCode::Perm,
            2 => ReturnCode::NoEnt,
            3 => ReturnCode::Timeout,
            4 => ReturnCode::Interrupted,
            5 => ReturnCode::Io,
            6 => ReturnCode::NoMemory,
            7 => ReturnCode::Access,
            8 => ReturnCode::Fault,
            9 => ReturnCode::Busy,
            10 => ReturnCode::Exist,
            11 => ReturnCode::NotDir,
            12 => ReturnCode::IsDir,
            13 => ReturnCode::Invalid,
            14 => ReturnCode::NFile,
            15 => ReturnCode::MFile,
            16 => ReturnCode::NoSPC,
            17 => ReturnCode::FBig,
            18 => ReturnCode::ROFS,
            19 => ReturnCode::RO,
            20 => ReturnCode::Unsupported,
            21 => ReturnCode::InvalidArg,
            22 => ReturnCode::Again,
            26 => ReturnCode::NotEmpty,
            27 => ReturnCode::Duplicate,
            28 => ReturnCode::Unexpected,
            31 => ReturnCode::Eof,
            35 => ReturnCode::ConnRef,
            37 => ReturnCode::BadPassword,
            40 => ReturnCode::NoDev,
            41 => ReturnCode::Pipe,
            44 => ReturnCode::Resolv,
            45 => ReturnCode::NetUnavail,
            46 => ReturnCode::ConnReset,
            48 => ReturnCode::HostUnreach,
            50 => ReturnCode::WrongDevice,
            51 => ReturnCode::UnknownVal,
            52 => ReturnCode::NotAttached,
            53 => ReturnCode::InvalidPacket,
            54 => ReturnCode::TooBig,
            55 => ReturnCode::BadVersion,
            56 => ReturnCode::Closed,
            57 => ReturnCode::NotConfigured,
            58 => ReturnCode::KeepAlive,
            59 => ReturnCode::Failsafe,
            60 => ReturnCode::UnknownValHigh,
            61 => ReturnCode::UnknownValLow,
            62 => ReturnCode::BadPower,
            63 => ReturnCode::PowerCycle,
            64 => ReturnCode::HallSensor,
            65 => ReturnCode::BadCurrent,
            66 => ReturnCode::BadConnection,
            67 => ReturnCode::Nack,
            _ => ReturnCode::Unexpected,
        };
        proof {
            if k.spec_code() == val {
                Self::lemma_code_injective(k, Self::of_code(val));
            }
        }
        k
    }

    /// Converts the raw integer return code into a `Result`: zero is `Ok`,
    /// everything else is the error that the code names.
    pub fn result(rc: u32) -> (r: Result<(), ReturnCode>)
        ensures
            r == Self::spec_result(rc),
            r is Ok <==> rc == 0,
            r matches Err(e) ==> e != ReturnCode::Success,
    {
        proof {
            Self::lemma_zero_is_ok();
            Self::lemma_code_round_trip(rc);
        }
        match rc {
            0 => Ok(()),
            _ => Err(ReturnCode::from(rc)),
        }
    }

    /// The call that asks the native library to describe this kind; none for
    /// `Success`, whose description is fixed.
    pub fn description_call(self) -> (call: Option<NativeCall>)
        ensures
            call == (if self == ReturnCode::Success {
                None
            } else {
                Some(NativeCall::GetErrorDescription { code: self.spec_code() })
            }),
    {
        match self {
            ReturnCode::Success => None,
            _ => Some(NativeCall::GetErrorDescription { code: self.code() }),
        }
    }

    /// The text by which this kind is shown, given the answer to its
    /// description call: `OK` for `Success`; else the text that the native
    /// library gave, read leniently; else, where the call failed or gave no
    /// text, `Unknown`.
    pub fn describe(self, code: u32, text: Option<&[u8]>) -> (r: String)
        ensures
            r@ == (if self == ReturnCode::Success {
                "OK"@
            } else if code == 0 && text is Some {
                lossy_text(text->Some_0@)
            } else {
                "Unknown"@
            }),
    {
        match self {
            ReturnCode::Success => "OK".to_owned(),
            _ => match text {
                Some(bytes) => if code == 0 {
                    from_utf8_lossy(bytes)
                } else {
                    "Unknown".to_owned()
                },
                None => "Unknown".to_owned(),
            },
        }
    }

    /// No two kinds share a code.
    pub proof fn lemma_code_injective(a: ReturnCode, b: ReturnCode)
        requires
            a.spec_code() == b.spec_code(),
        ensures
            a == b,
    {
    }

    /// Every kind comes back from its own code.
    pub proof fn lemma_kind_round_trip(k: ReturnCode)
        ensures
            Self::is_known(k.spec_code()),
            Self::of_code(k.spec_code()) == k,
    {
        assert(Self::is_known(k.spec_code()));
        Self::lemma_code_injective(Self::of_code(k.spec_code()), k);
    }

    /// A code that the table holds comes back from the kind it names; a code
    /// that it does not hold names `Unexpected`.
    pub proof fn lemma_code_round_trip(code: u32)
        ensures
            Self::is_known(code) ==> Self::of_code(code).spec_code() == code,
            !Self::is_known(code) ==> Self::of_code(code) == ReturnCode::Unexpected,
            Self::of_code(code).spec_code() == code || Self::of_code(code).spec_code() == 28,
    {
    }

    /// Code zero is success, and it is the only code that is.
    pub proof fn lemma_zero_is_ok()
        ensures
            Self::of_code(0) == ReturnCode::Success,
            Self::spec_result(0) == Ok::<(), ReturnCode>(()),
            forall|rc: u32| rc != 0 ==> #[trigger] Self::spec_result(rc) is Err,
    {
        Self::lemma_kind_round_trip(ReturnCode::Success);
    }
}

} // verus!
