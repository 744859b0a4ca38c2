//! The enumerated types that the native library shares with its callers.
//!
//! Each type is a closed list of names. The native library passes them as
//! unsigned integers, whose values follow the vendor's `phidget22.h` header.

use crate::errors::ReturnCode;
use crate::text::{lowercase, str_eq, to_lowercase};
use vstd::prelude::*;

verus! {

/// The class of a channel: what kind of sensing or actuation it offers.
///
/// The variants are declared in the order of their native integers, so the
/// derived ordering is that of the integers.
#[derive(Debug, Clone, Copy, PartialEq, Eq, PartialOrd, Ord, Hash, Structural)]
#[allow(missing_docs)]
pub enum ChannelClass {
    Nothing,
    Accelerometer,
    CurrentInput,
    DataAdapter,
    DcMotor,
    DigitalInput,
    DigitalOutput,
    DistanceSensor,
    Encoder,
    FrequencyCounter,
    Gps,
    Lcd,
    Gyroscope,
    Hub,
    CaptiveTouch,
    HumiditySensor,
    Ir,
    LightSensor,
    Magnetometer,
    MeshDongle,
    PowerGuard,
    PressureSensor,
    RcServo,
    ResistanceInput,
    Rfid,
    SoundSensor,
    Spatial,
    Stepper,
    TemperatureSensor,
    VoltageInput,
    VoltageOutput,
    VoltageRatioInput,
    FirmwareUpgrade,
    Generic,
    MotorPositionController,
    BldcMotor,
    Dictionary,
    PhSensor,
    CurrentOutput,
    MotorVelocityController,
}

impl ChannelClass {
    /// The native integer that stands for this class.
    pub open spec fn spec_code(self) -> u32 {
        match self {
            ChannelClass::Nothing => 0,
            ChannelClass::Accelerometer => 1,
            ChannelClass::CurrentInput => 2,
            ChannelClass::DataAdapter => 3,
            ChannelClass::DcMotor => 4,
            ChannelClass::DigitalInput => 5,
            ChannelClass::DigitalOutput => 6,
            ChannelClass::DistanceSensor => 7,
            ChannelClass::Encoder => 8,
            ChannelClass::FrequencyCounter => 9,
            ChannelClass::Gps => 10,
            ChannelClass::Lcd => 11,
            ChannelClass::Gyroscope => 12,
            ChannelClass::Hub => 13,
            ChannelClass::CaptiveTouch => 14,
            ChannelClass::HumiditySensor => 15,
            ChannelClass::Ir => 16,
            ChannelClass::LightSensor => 17,
            ChannelClass::Magnetometer => 18,
            ChannelClass::MeshDongle => 19,
            ChannelClass::PowerGuard => 20,
            ChannelClass::PressureSensor => 21,
            ChannelClass::RcServo => 22,
            ChannelClass::ResistanceInput => 23,
            ChannelClass::Rfid => 24,
            ChannelClass::SoundSensor => 25,
            ChannelClass::Spatial => 26,
            ChannelClass::Stepper => 27,
            ChannelClass::TemperatureSensor => 28,
            ChannelClass::VoltageInput => 29,
            ChannelClass::VoltageOutput => 30,
            ChannelClass::VoltageRatioInput => 31,
            ChannelClass::FirmwareUpgrade => 32,
            ChannelClass::Generic => 33,
            ChannelClass::MotorPositionController => 34,
            ChannelClass::BldcMotor => 35,
            ChannelClass::Dictionary => 36,
            ChannelClass::PhSensor => 37,
            ChannelClass::CurrentOutput => 38,
            ChannelClass::MotorVelocityController => 39,
        }
    }

    /// Whether some class stands for `val`.
    pub open spec fn is_code(val: u32) -> bool {
        exists|c: ChannelClass| c.spec_code() == val
    }

    /// The class that a native integer names, or `InvalidArg` for an integer
    /// that names none.
    pub open spec fn of_code(val: u32) -> Result<ChannelClass, ReturnCode> {
        if Self::is_code(val) {
            Ok(choose|c: ChannelClass| c.spec_code() == val)
        } else {
            Err(ReturnCode::InvalidArg)
        }
    }

    /// The native integer that stands for this class.
    #[verifier::when_used_as_spec(spec_code)]
    pub fn code(self) -> (c: u32)
        ensures
            c == self.spec_code(),
    {
        match self {
            ChannelClass::Nothing => 0,
            ChannelClass::Accelerometer => 1,
            ChannelClass::CurrentInput => 2,
            ChannelClass::DataAdapter => 3,
            ChannelClass::DcMotor => 4,
            ChannelClass::DigitalInput => 5,
            ChannelClass::DigitalOutput => 6,
            ChannelClass::DistanceSensor => 7,
            ChannelClass::Encoder => 8,
            ChannelClass::FrequencyCounter => 9,
            ChannelClass::Gps => 10,
            ChannelClass::Lcd => 11,
            ChannelClass::Gyroscope => 12,
            ChannelClass::Hub => 13,
            ChannelClass::CaptiveTouch => 14,
            ChannelClass::HumiditySensor => 15,
            ChannelClass::Ir => 16,
            ChannelClass::LightSensor => 17,
            ChannelClass::Magnetometer => 18,
            ChannelClass::MeshDongle => 19,
            ChannelClass::PowerGuard => 20,
            ChannelClass::PressureSensor => 21,
            ChannelClass::RcServo => 22,
            ChannelClass::ResistanceInput => 23,
            ChannelClass::Rfid => 24,
            ChannelClass::SoundSensor => 25,
            ChannelClass::Spatial => 26,
            ChannelClass::Stepper => 27,
            ChannelClass::TemperatureSensor => 28,
            ChannelClass::VoltageInput => 29,
            ChannelClass::VoltageOutput => 30,
            ChannelClass::VoltageRatioInput => 31,
            ChannelClass::FirmwareUpgrade => 32,
            ChannelClass::Generic => 33,
            ChannelClass::MotorPositionController => 34,
            ChannelClass::BldcMotor => 35,
            ChannelClass::Dictionary => 36,
            ChannelClass::PhSensor => 37,
            ChannelClass::CurrentOutput => 38,
            ChannelClass::MotorVelocityController => 39,
        }
    }

    /// Converts a native integer into a class; an integer that names none
    /// is rejected with `InvalidArg`.
    pub fn try_from(val: u32) -> (r: Result<ChannelClass, ReturnCode>)
        ensures
            r == Self::of_code(val),
            r matches Ok(c) ==> c.spec_code() == val,
            r is Err <==> !Self::is_code(val),
    {
        let r = match val {
            0 => Ok(ChannelClass::Nothing),
            1 => Ok(ChannelClass::Accelerometer),
            35 => Ok(ChannelClass::BldcMotor),
            14 => Ok(ChannelClass::CaptiveTouch),
            2 => Ok(ChannelClass::CurrentInput),
            38 => Ok(ChannelClass::CurrentOutput),
            3 => Ok(ChannelClass::DataAdapter),
            4 => Ok(ChannelClass::DcMotor),
            36 => Ok(ChannelClass::Dictionary),
            5 => Ok(ChannelClass::DigitalInput),
            6 => Ok(ChannelClass::DigitalOutput),
            7 => Ok(ChannelClass::DistanceSensor),
            8 => Ok(ChannelClass::Encoder),
            32 => Ok(ChannelClass::FirmwareUpgrade),
            9 => Ok(ChannelClass::FrequencyCounter),
            33 => Ok(ChannelClass::Generic),
            10 => Ok(ChannelClass::Gps),
            12 => Ok(ChannelClass::Gyroscope),
            13 => Ok(ChannelClass::Hub),
            15 => Ok(ChannelClass::HumiditySensor),
            16 => Ok(ChannelClass::Ir),
            11 => Ok(ChannelClass::Lcd),
            17 => Ok(ChannelClass::LightSensor),
            18 => Ok(ChannelClass::Magnetometer),
            19 => Ok(ChannelClass::MeshDongle),
            34 => Ok(ChannelClass::MotorPositionController),
            39 => Ok(ChannelClass::MotorVelocityController),
            37 => Ok(ChannelClass::PhSensor),
            20 => Ok(ChannelClass::PowerGuard),
            21 => Ok(ChannelClass::PressureSensor),
            22 => Ok(ChannelClass::RcServo),
            23 => Ok(ChannelClass::ResistanceInput),
            24 => Ok(ChannelClass::Rfid),
            25 => Ok(ChannelClass::SoundSensor),
            26 => Ok(ChannelClass::Spatial),
            27 => Ok(ChannelClass::Stepper),
            28 => Ok(ChannelClass::TemperatureSensor),
            29 => Ok(ChannelClass::VoltageInput),
            30 => Ok(ChannelClass::VoltageOutput),
            31 => Ok(ChannelClass::VoltageRatioInput),
            _ => Err(ReturnCode::InvalidArg),
        };
        proof {
            if let Ok(c) = r {
                assert(c.spec_code() == val);
                Self::lemma_code_injective(c, Self::of_code(val)->Ok_0);
            }
        }
        r
    }

    /// Reads a reply that carries a class: the failure that `code` names, or
    /// else the class that `raw` names.
    pub fn from_reply(code: u32, raw: u32) -> (r: Result<ChannelClass, ReturnCode>)
        ensures
            r == (match ReturnCode::spec_result(code) {
                Err(e) => Err::<ChannelClass, ReturnCode>(e),
                Ok(_) => Self::of_code(raw),
            }),
    {
        match ReturnCode::result(code) {
            Err(e) => Err(e),
            Ok(_) => Self::try_from(raw),
        }
    }

    /// No two classes share a native integer.
    pub proof fn lemma_code_injective(a: ChannelClass, b: ChannelClass)
        requires
            a.spec_code() == b.spec_code(),
        ensures
            a == b,
    {
    }

    /// The native integer of a class converts back into that class.
    pub proof fn lemma_code_round_trip(c: ChannelClass)
        ensures
            Self::of_code(c.spec_code()) == Ok::<_, ReturnCode>(c),
    {
        assert(Self::is_code(c.spec_code()));
        Self::lemma_code_injective(Self::of_code(c.spec_code())->Ok_0, c);
    }

    /// The name of this class, as it is printed.
    pub open spec fn spec_name(self) -> Seq<char> {
        match self {
            ChannelClass::Nothing => "Nothing"@,
            ChannelClass::Accelerometer => "Accelerometer"@,
            ChannelClass::CurrentInput => "CurrentInput"@,
            ChannelClass::DataAdapter => "DataAdapter"@,
            ChannelClass::DcMotor => "DcMotor"@,
            ChannelClass::DigitalInput => "DigitalInput"@,
            ChannelClass::DigitalOutput => "DigitalOutput"@,
            ChannelClass::DistanceSensor => "DistanceSensor"@,
            ChannelClass::Encoder => "Encoder"@,
            ChannelClass::FrequencyCounter => "FrequencyCounter"@,
            ChannelClass::Gps => "Gps"@,
            ChannelClass::Lcd => "Lcd"@,
            ChannelClass::Gyroscope => "Gyroscope"@,
            ChannelClass::Hub => "Hub"@,
            ChannelClass::CaptiveTouch => "CaptiveTouch"@,
            ChannelClass::HumiditySensor => "HumiditySensor"@,
            ChannelClass::Ir => "Ir"@,
            ChannelClass::LightSensor => "LightSensor"@,
            ChannelClass::Magnetometer => "Magnetometer"@,
            ChannelClass::MeshDongle => "MeshDongle"@,
            ChannelClass::PowerGuard => "PowerGuard"@,
            ChannelClass::PressureSensor => "PressureSensor"@,
            ChannelClass::RcServo => "RcServo"@,
            ChannelClass::ResistanceInput => "ResistanceInput"@,
            ChannelClass::Rfid => "Rfid"@,
            ChannelClass::SoundSensor => "SoundSensor"@,
            ChannelClass::Spatial => "Spatial"@,
            ChannelClass::Stepper => "Stepper"@,
            ChannelClass::TemperatureSensor => "TemperatureSensor"@,
            ChannelClass::VoltageInput => "VoltageInput"@,
            ChannelClass::VoltageOutput => "VoltageOutput"@,
            ChannelClass::VoltageRatioInput => "VoltageRatioInput"@,
            ChannelClass::FirmwareUpgrade => "FirmwareUpgrade"@,
            ChannelClass::Generic => "Generic"@,
            ChannelClass::MotorPositionController => "MotorPositionController"@,
            ChannelClass::BldcMotor => "BldcMotor"@,
            ChannelClass::Dictionary => "Dictionary"@,
            ChannelClass::PhSensor => "PhSensor"@,
            ChannelClass::CurrentOutput => "CurrentOutput"@,
            ChannelClass::MotorVelocityController => "MotorVelocityController"@,
        }
    }

    /// The name of this class, as it is printed.
    pub fn name(self) -> (s: &'static str)
        ensures
            s@ == self.spec_name(),
    {
        match self {
            ChannelClass::Nothing => "Nothing",
            ChannelClass::Accelerometer => "Accelerometer",
            ChannelClass::CurrentInput => "CurrentInput",
            ChannelClass::DataAdapter => "DataAdapter",
            ChannelClass::DcMotor => "DcMotor",
            ChannelClass::DigitalInput => "DigitalInput",
            ChannelClass::DigitalOutput => "DigitalOutput",
            ChannelClass::DistanceSensor => "DistanceSensor",
            ChannelClass::Encoder => "Encoder",
            ChannelClass::FrequencyCounter => "FrequencyCounter",
            ChannelClass::Gps => "Gps",
            ChannelClass::Lcd => "Lcd",
            ChannelClass::Gyroscope => "Gyroscope",
            ChannelClass::Hub => "Hub",
            ChannelClass::CaptiveTouch => "CaptiveTouch",
            ChannelClass::HumiditySensor => "HumiditySensor",
            ChannelClass::Ir => "Ir",
            ChannelClass::LightSensor => "LightSensor",
            ChannelClass::Magnetometer => "Magnetometer",
            ChannelClass::MeshDongle => "MeshDongle",
            ChannelClass::PowerGuard => "PowerGuard",
            ChannelClass::PressureSensor => "PressureSensor",
            ChannelClass::RcServo => "RcServo",
            ChannelClass::ResistanceInput => "ResistanceInput",
            ChannelClass::Rfid => "Rfid",
            ChannelClass::SoundSensor => "SoundSensor",
            ChannelClass::Spatial => "Spatial",
            ChannelClass::Stepper => "Stepper",
            ChannelClass::TemperatureSensor => "TemperatureSensor",
            ChannelClass::VoltageInput => "VoltageInput",
            ChannelClass::VoltageOutput => "VoltageOutput",
            ChannelClass::VoltageRatioInput => "VoltageRatioInput",
            ChannelClass::FirmwareUpgrade => "FirmwareUpgrade",
            ChannelClass::Generic => "Generic",
            ChannelClass::MotorPositionController => "MotorPositionController",
            ChannelClass::BldcMotor => "BldcMotor",
            ChannelClass::Dictionary => "Dictionary",
            ChannelClass::PhSensor => "PhSensor",
            ChannelClass::CurrentOutput => "CurrentOutput",
            ChannelClass::MotorVelocityController => "MotorVelocityController",
        }
    }

    /// The lower-case word by which this class is found.
    pub open spec fn spec_key(self) -> Seq<char> {
        match self {
            ChannelClass::Nothing => "nothing"@,
            ChannelClass::Accelerometer => "accelerometer"@,
            ChannelClass::CurrentInput => "currentinput"@,
            ChannelClass::DataAdapter => "dataadapter"@,
            ChannelClass::DcMotor => "dcmotor"@,
            ChannelClass::DigitalInput => "digitalinput"@,
            ChannelClass::DigitalOutput => "digitaloutput"@,
            ChannelClass::DistanceSensor => "distancesensor"@,
            ChannelClass::Encoder => "encoder"@,
            ChannelClass::FrequencyCounter => "frequencycounter"@,
            ChannelClass::Gps => "gps"@,
            ChannelClass::Lcd => "lcd"@,
            ChannelClass::Gyroscope => "gyroscope"@,
            ChannelClass::Hub => "hub"@,
            ChannelClass::CaptiveTouch => "captivetouch"@,
            ChannelClass::HumiditySensor => "humiditysensor"@,
            ChannelClass::Ir => "ir"@,
            ChannelClass::LightSensor => "lightsensor"@,
            ChannelClass::Magnetometer => "magnetometer"@,
            ChannelClass::MeshDongle => "meshdongle"@,
            ChannelClass::PowerGuard => "powerguard"@,
            ChannelClass::PressureSensor => "pressuresensor"@,
            ChannelClass::RcServo => "rcservo"@,
            ChannelClass::ResistanceInput => "resistanceinput"@,
            ChannelClass::Rfid => "rfid"@,
            ChannelClass::SoundSensor => "soundsensor"@,
            ChannelClass::Spatial => "spatial"@,
            ChannelClass::Stepper => "stepper"@,
            ChannelClass::TemperatureSensor => "temperaturesensor"@,
            ChannelClass::VoltageInput => "voltageinput"@,
            ChannelClass::VoltageOutput => "voltageoutput"@,
            ChannelClass::VoltageRatioInput => "voltageratioinput"@,
            ChannelClass::FirmwareUpgrade => "firmwareupgrade"@,
            ChannelClass::Generic => "generic"@,
            ChannelClass::MotorPositionController => "motorpositioncontroller"@,
            ChannelClass::BldcMotor => "bldcmotor"@,
            ChannelClass::Dictionary => "dictionary"@,
            ChannelClass::PhSensor => "phsensor"@,
            ChannelClass::CurrentOutput => "currentoutput"@,
            ChannelClass::MotorVelocityController => "motorvelocitycontroller"@,
        }
    }

    /// Whether `word` is the lower-case word of some class.
    pub open spec fn is_key(word: Seq<char>) -> bool {
        exists|c: ChannelClass| c.spec_key() == word
    }

    /// The class that a lower-case word names, or `InvalidArg` for a word
    /// that names none.
    pub open spec fn of_key(word: Seq<char>) -> Result<ChannelClass, ReturnCode> {
        if Self::is_key(word) {
            Ok(choose|c: ChannelClass| c.spec_key() == word)
        } else {
            Err(ReturnCode::InvalidArg)
        }
    }

    /// Finds the class that a word names. The word must already be in lower
    /// case; any other word is rejected with `InvalidArg`.
    pub fn from_lowercase(word: &str) -> (r: Result<ChannelClass, ReturnCode>)
        ensures
            r == Self::of_key(word@),
            r matches Ok(c) ==> c.spec_key() == word@,
            r is Err <==> !Self::is_key(word@),
    {
        let r = if str_eq(word, "nothing") {
            Ok(ChannelClass::Nothing)
        } else if str_eq(word, "accelerometer") {
            Ok(ChannelClass::Accelerometer)
        } else if str_eq(word, "bldcmotor") {
            Ok(ChannelClass::BldcMotor)
        } else if str_eq(word, "captivetouch") {
            Ok(ChannelClass::CaptiveTouch)
        } else if str_eq(word, "currentinput") {
            Ok(ChannelClass::CurrentInput)
        } else if str_eq(word, "currentoutput") {
            Ok(ChannelClass::CurrentOutput)
        } else if str_eq(word, "dataadapter") {
            Ok(ChannelClass::DataAdapter)
        } else if str_eq(word, "dcmotor") {
            Ok(ChannelClass::DcMotor)
        } else if str_eq(word, "dictionary") {
            Ok(ChannelClass::Dictionary)
        } else if str_eq(word, "digitalinput") {
            Ok(ChannelClass::DigitalInput)
        } else if str_eq(word, "digitaloutput") {
            Ok(ChannelClass::DigitalOutput)
        } else if str_eq(word, "distancesensor") {
            Ok(ChannelClass::DistanceSensor)
        } else if str_eq(word, "encoder") {
            Ok(ChannelClass::Encoder)
        } else if str_eq(word, "firmwareupgrade") {
            Ok(ChannelClass::FirmwareUpgrade)
        } else if str_eq(word, "frequencycounter") {
            Ok(ChannelClass::FrequencyCounter)
        } else if str_eq(word, "generic") {
            Ok(ChannelClass::Generic)
        } else if str_eq(word, "gps") {
            Ok(ChannelClass::Gps)
        } else if str_eq(word, "gyroscope") {
            Ok(ChannelClass::Gyroscope)
        } else if str_eq(word, "hub") {
            Ok(ChannelClass::Hub)
        } else if str_eq(word, "humiditysensor") {
            Ok(ChannelClass::HumiditySensor)
        } else if str_eq(word, "ir") {
            Ok(ChannelClass::Ir)
        } else if str_eq(word, "lcd") {
            Ok(ChannelClass::Lcd)
        } else if str_eq(word, "lightsensor") {
            Ok(ChannelClass::LightSensor)
        } else if str_eq(word, "magnetometer") {
            Ok(ChannelClass::Magnetometer)
        } else if str_eq(word, "meshdongle") {
            Ok(ChannelClass::MeshDongle)
        } else if str_eq(word, "motorpositioncontroller") {
            Ok(ChannelClass::MotorPositionController)
        } else if str_eq(word, "motorvelocitycontroller") {
            Ok(ChannelClass::MotorVelocityController)
        } else if str_eq(word, "phsensor") {
            Ok(ChannelClass::PhSensor)
        } else if str_eq(word, "powerguard") {
            Ok(ChannelClass::PowerGuard)
        } else if str_eq(word, "pressuresensor") {
            Ok(ChannelClass::PressureSensor)
        } else if str_eq(word, "rcservo") {
            Ok(ChannelClass::RcServo)
        } else if str_eq(word, "resistanceinput") {
            Ok(ChannelClass::ResistanceInput)
        } else if str_eq(word, "rfid") {
            Ok(ChannelClass::Rfid)
        } else if str_eq(word, "soundsensor") {
            Ok(ChannelClass::SoundSensor)
        } else if str_eq(word, "spatial") {
            Ok(ChannelClass::Spatial)
        } else if str_eq(word, "stepper") {
            Ok(ChannelClass::Stepper)
        } else if str_eq(word, "temperaturesensor") {
            Ok(ChannelClass::TemperatureSensor)
        } else if str_eq(word, "voltageinput") {
            Ok(ChannelClass::VoltageInput)
        } else if str_eq(word, "voltageoutput") {
            Ok(ChannelClass::VoltageOutput)
        } else if str_eq(word, "voltageratioinput") {
            Ok(ChannelClass::VoltageRatioInput)
        } else {
            Err(ReturnCode::InvalidArg)
        };
        proof {
            if let Ok(c) = r {
                assert(c.spec_key() == word@);
                Self::lemma_key_injective(c, Self::of_key(word@)->Ok_0);
            }
        }
        r
    }

    /// Finds the class that a word names, whatever the case of its letters.
    /// A word that names none is rejected with `InvalidArg`.
    pub fn from_str(s: &str) -> (r: Result<ChannelClass, ReturnCode>)
        ensures
            r == Self::of_key(lowercase(s@)),
    {
        let lower = to_lowercase(s);
        Self::from_lowercase(lower.as_str())
    }

    /// No two classes share a lower-case word.
    pub proof fn lemma_key_injective(a: ChannelClass, b: ChannelClass)
        requires
            a.spec_key() == b.spec_key(),
        ensures
            a == b,
    {
        reveal_strlit("nothing");
        reveal_strlit("accelerometer");
        reveal_strlit("currentinput");
        reveal_strlit("dataadapter");
        reveal_strlit("dcmotor");
        reveal_strlit("digitalinput");
        reveal_strlit("digitaloutput");
        reveal_strlit("distancesensor");
        reveal_strlit("encoder");
        reveal_strlit("frequencycounter");
        reveal_strlit("gps");
        reveal_strlit("lcd");
        reveal_strlit("gyroscope");
        reveal_strlit("hub");
        reveal_strlit("captivetouch");
        reveal_strlit("humiditysensor");
        reveal_strlit("ir");
        reveal_strlit("lightsensor");
        reveal_strlit("magnetometer");
        reveal_strlit("meshdongle");
        reveal_strlit("powerguard");
        reveal_strlit("pressuresensor");
        reveal_strlit("rcservo");
        reveal_strlit("resistanceinput");
        reveal_strlit("rfid");
        reveal_strlit("soundsensor");
        reveal_strlit("spatial");
        reveal_strlit("stepper");
        reveal_strlit("temperaturesensor");
        reveal_strlit("voltageinput");
        reveal_strlit("voltageoutput");
        reveal_strlit("voltageratioinput");
        reveal_strlit("firmwareupgrade");
        reveal_strlit("generic");
        reveal_strlit("motorpositioncontroller");
        reveal_strlit("bldcmotor");
        reveal_strlit("dictionary");
        reveal_strlit("phsensor");
        reveal_strlit("currentoutput");
        reveal_strlit("motorvelocitycontroller");
        let ka = a.spec_key();
        let kb = b.spec_key();
        assert(ka.len() == kb.len());
        assert(ka[0] == kb[0]);
        assert(ka[1] == kb[1]);
        assert(ka[2] == kb[2]);
        assert(ka[3] == kb[3]);
        assert(ka[4] == kb[4]);
        assert(ka[5] == kb[5]);
        assert(ka[6] == kb[6]);
        assert(ka[7] == kb[7]);
        assert(ka[8] == kb[8]);
        assert(ka[9] == kb[9]);
        assert(ka[10] == kb[10]);
        assert(ka[11] == kb[11]);
        assert(ka[12] == kb[12]);
        assert(ka[13] == kb[13]);
        assert(ka[14] == kb[14]);
        assert(ka[15] == kb[15]);
        assert(ka[16] == kb[16]);
        assert(ka[17] == kb[17]);
        assert(ka[18] == kb[18]);
        assert(ka[19] == kb[19]);
        assert(ka[20] == kb[20]);
        assert(ka[21] == kb[21]);
        assert(ka[22] == kb[22]);
    }
}

/// The class of a device: the family of hardware that a channel belongs to.
///
/// The variants are declared in the order of their native integers, so the
/// derived ordering is that of the integers.
#[derive(Debug, Clone, Copy, PartialEq, Eq, PartialOrd, Ord, Hash, Structural)]
#[allow(missing_docs)]
pub enum DeviceClass {
    Nothing,
    Accelerometer,
    AdvancedServo,
    Analog,
    Bridge,
    Encoder,
    FrequencyCounter,
    Gps,
    Hub,
    InterfaceKit,
    Ir,
    Led,
    MeshDongle,
    MotorControl,
    PhSensor,
    Rfid,
    Servo,
    Spatial,
    Steper,
    TemperatreSensor,
    TextLcd,
    Vint,
    Generic,
    FirmwareUpgrade,
    Dictionary,
    DataAdapter,
}

impl DeviceClass {
    /// The native integer that stands for this class.
    pub open spec fn spec_code(self) -> u32 {
        match self {
            DeviceClass::Nothing => 0,
            DeviceClass::Accelerometer => 1,
            DeviceClass::AdvancedServo => 2,
            DeviceClass::Analog => 3,
            DeviceClass::Bridge => 4,
            DeviceClass::Encoder => 5,
            DeviceClass::FrequencyCounter => 6,
            DeviceClass::Gps => 7,
            DeviceClass::Hub => 8,
            DeviceClass::InterfaceKit => 9,
            DeviceClass::Ir => 10,
            DeviceClass::Led => 11,
            DeviceClass::MeshDongle => 12,
            DeviceClass::MotorControl => 13,
            DeviceClass::PhSensor => 14,
            DeviceClass::Rfid => 15,
            DeviceClass::Servo => 16,
            DeviceClass::Spatial => 17,
            DeviceClass::Steper => 18,
            DeviceClass::TemperatreSensor => 19,
            DeviceClass::TextLcd => 20,
            DeviceClass::Vint => 21,
            DeviceClass::Generic => 22,
            DeviceClass::FirmwareUpgrade => 23,
            DeviceClass::Dictionary => 24,
            DeviceClass::DataAdapter => 25,
        }
    }

    /// Whether some class stands for `val`.
    pub open spec fn is_code(val: u32) -> bool {
        exists|c: DeviceClass| c.spec_code() == val
    }

    /// The class that a native integer names, or `InvalidArg` for an integer
    /// that names none.
    pub open spec fn of_code(val: u32) -> Result<DeviceClass, ReturnCode> {
        if Self::is_code(val) {
            Ok(choose|c: DeviceClass| c.spec_code() == val)
        } else {
            Err(ReturnCode::InvalidArg)
        }
    }

    /// The native integer that stands for this class.
    #[verifier::when_used_as_spec(spec_code)]
    pub fn code(self) -> (c: u32)
        ensures
            c == self.spec_code(),
    {
        match self {
            DeviceClass::Nothing => 0,
            DeviceClass::Accelerometer => 1,
            DeviceClass::AdvancedServo => 2,
            DeviceClass::Analog => 3,
            DeviceClass::Bridge => 4,
            DeviceClass::Encoder => 5,
            DeviceClass::FrequencyCounter => 6,
            DeviceClass::Gps => 7,
            DeviceClass::Hub => 8,
            DeviceClass::InterfaceKit => 9,
            DeviceClass::Ir => 10,
            DeviceClass::Led => 11,
            DeviceClass::MeshDongle => 12,
            DeviceClass::MotorControl => 13,
            DeviceClass::PhSensor => 14,
            DeviceClass::Rfid => 15,
            DeviceClass::Servo => 16,
            DeviceClass::Spatial => 17,
            DeviceClass::Steper => 18,
            DeviceClass::TemperatreSensor => 19,
            DeviceClass::TextLcd => 20,
            DeviceClass::Vint => 21,
            DeviceClass::Generic => 22,
            DeviceClass::FirmwareUpgrade => 23,
            DeviceClass::Dictionary => 24,
            DeviceClass::DataAdapter => 25,
        }
    }

    /// Converts a native integer into a class; an integer that names none
    /// is rejected with `InvalidArg`.
    pub fn try_from(val: u32) -> (r: Result<DeviceClass, ReturnCode>)
        ensures
            r == Self::of_code(val),
            r matches Ok(c) ==> c.spec_code() == val,
            r is Err <==> !Self::is_code(val),
    {
        let r = match val {
            0 => Ok(DeviceClass::Nothing),
            1 => Ok(DeviceClass::Accelerometer),
            2 => Ok(DeviceClass::AdvancedServo),
            3 => Ok(DeviceClass::Analog),
            4 => Ok(DeviceClass::Bridge),
            25 => Ok(DeviceClass::DataAdapter),
            24 => Ok(DeviceClass::Dictionary),
            5 => Ok(DeviceClass::Encoder),
            23 => Ok(DeviceClass::FirmwareUpgrade),
            6 => Ok(DeviceClass::FrequencyCounter),
            22 => Ok(DeviceClass::Generic),
            7 => Ok(DeviceClass::Gps),
            8 => Ok(DeviceClass::Hub),
            9 => Ok(DeviceClass::InterfaceKit),
            10 => Ok(DeviceClass::Ir),
            11 => Ok(DeviceClass::Led),
            12 => Ok(DeviceClass::MeshDongle),
            13 => Ok(DeviceClass::MotorControl),
            14 => Ok(DeviceClass::PhSensor),
            15 => Ok(DeviceClass::Rfid),
            16 => Ok(DeviceClass::Servo),
            17 => Ok(DeviceClass::Spatial),
            18 => Ok(DeviceClass::Steper),
            19 => Ok(DeviceClass::TemperatreSensor),
            20 => Ok(DeviceClass::TextLcd),
            21 => Ok(DeviceClass::Vint),
            _ => Err(ReturnCode::InvalidArg),
        };
        proof {
            if let Ok(c) = r {
                assert(c.spec_code() == val);
                Self::lemma_code_injective(c, Self::of_code(val)->Ok_0);
            }
        }
        r
    }

    /// Reads a reply that carries a class: the failure that `code` names, or
    /// else the class that `raw` names.
    pub fn from_reply(code: u32, raw: u32) -> (r: Result<DeviceClass, ReturnCode>)
        ensures
            r == (match ReturnCode::spec_result(code) {
                Err(e) => Err::<DeviceClass, ReturnCode>(e),
                Ok(_) => Self::of_code(raw),
            }),
    {
        match ReturnCode::result(code) {
            Err(e) => Err(e),
            Ok(_) => Self::try_from(raw),
        }
    }

    /// No two classes share a native integer.
    pub proof fn lemma_code_injective(a: DeviceClass, b: DeviceClass)
        requires
            a.spec_code() == b.spec_code(),
        ensures
            a == b,
    {
    }

    /// The native integer of a class converts back into that class.
    pub proof fn lemma_code_round_trip(c: DeviceClass)
        ensures
            Self::of_code(c.spec_code()) == Ok::<_, ReturnCode>(c),
    {
        assert(Self::is_code(c.spec_code()));
        Self::lemma_code_injective(Self::of_code(c.spec_code())->Ok_0, c);
    }

    /// The name of this class, as it is printed.
    pub open spec fn spec_name(self) -> Seq<char> {
        match self {
            DeviceClass::Nothing => "Nothing"@,
            DeviceClass::Accelerometer => "Accelerometer"@,
            DeviceClass::AdvancedServo => "AdvancedServo"@,
            DeviceClass::Analog => "Analog"@,
            DeviceClass::Bridge => "Bridge"@,
            DeviceClass::Encoder => "Encoder"@,
            DeviceClass::FrequencyCounter => "FrequencyCounter"@,
            DeviceClass::Gps => "Gps"@,
            DeviceClass::Hub => "Hub"@,
            DeviceClass::InterfaceKit => "InterfaceKit"@,
            DeviceClass::Ir => "Ir"@,
            DeviceClass::Led => "Led"@,
            DeviceClass::MeshDongle => "MeshDongle"@,
            DeviceClass::MotorControl => "MotorControl"@,
            DeviceClass::PhSensor => "PhSensor"@,
            DeviceClass::Rfid => "Rfid"@,
            DeviceClass::Servo => "Servo"@,
            DeviceClass::Spatial => "Spatial"@,
            DeviceClass::Steper => "Steper"@,
            DeviceClass::TemperatreSensor => "TemperatreSensor"@,
            DeviceClass::TextLcd => "TextLcd"@,
            DeviceClass::Vint => "Vint"@,
            DeviceClass::Generic => "Generic"@,
            DeviceClass::FirmwareUpgrade => "FirmwareUpgrade"@,
            DeviceClass::Dictionary => "Dictionary"@,
            DeviceClass::DataAdapter => "DataAdapter"@,
        }
    }

    /// The name of this class, as it is printed.
    pub fn name(self) -> (s: &'static str)
        ensures
            s@ == self.spec_name(),
    {
        match self {
            DeviceClass::Nothing => "Nothing",
            DeviceClass::Accelerometer => "Accelerometer",
            DeviceClass::AdvancedServo => "AdvancedServo",
            DeviceClass::Analog => "Analog",
            DeviceClass::Bridge => "Bridge",
            DeviceClass::Encoder => "Encoder",
            DeviceClass::FrequencyCounter => "FrequencyCounter",
            DeviceClass::Gps => "Gps",
            DeviceClass::Hub => "Hub",
            DeviceClass::InterfaceKit => "InterfaceKit",
            DeviceClass::Ir => "Ir",
            DeviceClass::Led => "Led",
            DeviceClass::MeshDongle => "MeshDongle",
            DeviceClass::MotorControl => "MotorControl",
            DeviceClass::PhSensor => "PhSensor",
            DeviceClass::Rfid => "Rfid",
            DeviceClass::Servo => "Servo",
            DeviceClass::Spatial => "Spatial",
            DeviceClass::Steper => "Steper",
            DeviceClass::TemperatreSensor => "TemperatreSensor",
            DeviceClass::TextLcd => "TextLcd",
            DeviceClass::Vint => "Vint",
            DeviceClass::Generic => "Generic",
            DeviceClass::FirmwareUpgrade => "FirmwareUpgrade",
            DeviceClass::Dictionary => "Dictionary",
            DeviceClass::DataAdapter => "DataAdapter",
        }
    }

    /// The lower-case word by which this class is found.
    pub open spec fn spec_key(self) -> Seq<char> {
        match self {
            DeviceClass::Nothing => "nothing"@,
            DeviceClass::Accelerometer => "accelerometer"@,
            DeviceClass::AdvancedServo => "advancedservo"@,
            DeviceClass::Analog => "analog"@,
            DeviceClass::Bridge => "bridge"@,
            DeviceClass::Encoder => "encoder"@,
            DeviceClass::FrequencyCounter => "frequencycounter"@,
            DeviceClass::Gps => "gps"@,
            DeviceClass::Hub => "hub"@,
            DeviceClass::InterfaceKit => "interfacekit"@,
            DeviceClass::Ir => "ir"@,
            DeviceClass::Led => "led"@,
            DeviceClass::MeshDongle => "meshdongle"@,
            DeviceClass::MotorControl => "motorcontrol"@,
            DeviceClass::PhSensor => "phsensor"@,
            DeviceClass::Rfid => "rfid"@,
            DeviceClass::Servo => "servo"@,
            DeviceClass::Spatial => "spatial"@,
            DeviceClass::Steper => "stepper"@,
            DeviceClass::TemperatreSensor => "temperaturesensor"@,
            DeviceClass::TextLcd => "textlcd"@,
            DeviceClass::Vint => "vint"@,
            DeviceClass::Generic => "generic"@,
            DeviceClass::FirmwareUpgrade => "firmwareupgrade"@,
            DeviceClass::Dictionary => "dictionary"@,
            DeviceClass::DataAdapter => "dataadapter"@,
        }
    }

    /// Whether `word` is the lower-case word of some class.
    pub open spec fn is_key(word: Seq<char>) -> bool {
        exists|c: DeviceClass| c.spec_key() == word
    }

    /// The class that a lower-case word names, or `InvalidArg` for a word
    /// that names none.
    pub open spec fn of_key(word: Seq<char>) -> Result<DeviceClass, ReturnCode> {
        if Self::is_key(word) {
            Ok(choose|c: DeviceClass| c.spec_key() == word)
        } else {
            Err(ReturnCode::InvalidArg)
        }
    }

    /// Finds the class that a word names. The word must already be in lower
    /// case; any other word is rejected with `InvalidArg`.
    pub fn from_lowercase(word: &str) -> (r: Result<DeviceClass, ReturnCode>)
        ensures
            r == Self::of_key(word@),
            r matches Ok(c) ==> c.spec_key() == word@,
            r is Err <==> !Self::is_key(word@),
    {
        let r = if str_eq(word, "nothing") {
            Ok(DeviceClass::Nothing)
        } else if str_eq(word, "accelerometer") {
            Ok(DeviceClass::Accelerometer)
        } else if str_eq(word, "advancedservo") {
            Ok(DeviceClass::AdvancedServo)
        } else if str_eq(word, "analog") {
            Ok(DeviceClass::Analog)
        } else if str_eq(word, "bridge") {
            Ok(DeviceClass::Bridge)
        } else if str_eq(word, "dataadapter") {
            Ok(DeviceClass::DataAdapter)
        } else if str_eq(word, "dictionary") {
            Ok(DeviceClass::Dictionary)
        } else if str_eq(word, "encoder") {
            Ok(DeviceClass::Encoder)
        } else if str_eq(word, "firmwareupgrade") {
            Ok(DeviceClass::FirmwareUpgrade)
        } else if str_eq(word, "frequencycounter") {
            Ok(DeviceClass::FrequencyCounter)
        } else if str_eq(word, "generic") {
            Ok(DeviceClass::Generic)
        } else if str_eq(word, "gps") {
            Ok(DeviceClass::Gps)
        } else if str_eq(word, "hub") {
            Ok(DeviceClass::Hub)
        } else if str_eq(word, "interfacekit") {
            Ok(DeviceClass::InterfaceKit)
        } else if str_eq(word, "ir") {
            Ok(DeviceClass::Ir)
        } else if str_eq(word, "led") {
            Ok(DeviceClass::Led)
        } else if str_eq(word, "meshdongle") {
            Ok(DeviceClass::MeshDongle)
        } else if str_eq(word, "motorcontrol") {
            Ok(DeviceClass::MotorControl)
        } else if str_eq(word, "phsensor") {
            Ok(DeviceClass::PhSensor)
        } else if str_eq(word, "rfid") {
            Ok(DeviceClass::Rfid)
        } else if str_eq(word, "servo") {
            Ok(DeviceClass::Servo)
        } else if str_eq(word, "spatial") {
            Ok(DeviceClass::Spatial)
        } else if str_eq(word, "stepper") {
            Ok(DeviceClass::Steper)
        } else if str_eq(word, "temperaturesensor") {
            Ok(DeviceClass::TemperatreSensor)
        } else if str_eq(word, "textlcd") {
            Ok(DeviceClass::TextLcd)
        } else if str_eq(word, "vint") {
            Ok(DeviceClass::Vint)
        } else {
            Err(ReturnCode::InvalidArg)
        };
        proof {
            if let Ok(c) = r {
                assert(c.spec_key() == word@);
                Self::lemma_key_injective(c, Self::of_key(word@)->Ok_0);
            }
        }
        r
    }

    /// Finds the class that a word names, whatever the case of its letters.
    /// A word that names none is rejected with `InvalidArg`.
    pub fn from_str(s: &str) -> (r: Result<DeviceClass, ReturnCode>)
        ensures
            r == Self::of_key(lowercase(s@)),
    {
        let lower = to_lowercase(s);
        Self::from_lowercase(lower.as_str())
    }

    /// No two classes share a lower-case word.
    pub proof fn lemma_key_injective(a: DeviceClass, b: DeviceClass)
        requires
            a.spec_key() == b.spec_key(),
        ensures
            a == b,
    {
        reveal_strlit("nothing");
        reveal_strlit("accelerometer");
        reveal_strlit("advancedservo");
        reveal_strlit("analog");
        reveal_strlit("bridge");
        reveal_strlit("encoder");
        reveal_strlit("frequencycounter");
        reveal_strlit("gps");
        reveal_strlit("hub");
        reveal_strlit("interfacekit");
        reveal_strlit("ir");
        reveal_strlit("led");
        reveal_strlit("meshdongle");
        reveal_strlit("motorcontrol");
        reveal_strlit("phsensor");
        reveal_strlit("rfid");
        reveal_strlit("servo");
        reveal_strlit("spatial");
        reveal_strlit("stepper");
        reveal_strlit("temperaturesensor");
        reveal_strlit("textlcd");
        reveal_strlit("vint");
        reveal_strlit("generic");
        reveal_strlit("firmwareupgrade");
        reveal_strlit("dictionary");
        reveal_strlit("dataadapter");
        let ka = a.spec_key();
        let kb = b.spec_key();
        assert(ka.len() == kb.len());
        assert(ka[0] == kb[0]);
        assert(ka[1] == kb[1]);
        assert(ka[2] == kb[2]);
        assert(ka[3] == kb[3]);
        assert(ka[4] == kb[4]);
        assert(ka[5] == kb[5]);
        assert(ka[6] == kb[6]);
        assert(ka[7] == kb[7]);
        assert(ka[8] == kb[8]);
        assert(ka[9] == kb[9]);
        assert(ka[10] == kb[10]);
        assert(ka[11] == kb[11]);
        assert(ka[12] == kb[12]);
        assert(ka[13] == kb[13]);
        assert(ka[14] == kb[14]);
        assert(ka[15] == kb[15]);
        assert(ka[16] == kb[16]);
    }
}

/// The identifier of a device model.
///
/// The variants are declared in the order of their native integers, so the
/// derived ordering is that of the integers.
#[derive(Debug, Clone, Copy, PartialEq, Eq, PartialOrd, Ord, Hash, Structural)]
#[allow(missing_docs)]
pub enum DeviceId {
    Nothing,
    InterfaceKit4_8_8,
    Phidget1000,
    Phidget1001,
    Phidget1002,
    Phidget1008,
    Phidget1010_1013_1018_1019,
    Phidget1011,
    Phidget1012,
    Phidget1014,
    Phidget1015,
    Phidget1016,
    Phidget1017,
    Phidget1023,
    Phidget1024,
    Phidget1030,
    Phidget1031,
    Phidget1032,
    Phidget1040,
    Phidget1041,
    Phidget1042,
    Phidget1043,
    Phidget1044,
    Phidget1045,
    Phidget1046,
    Phidget1047,
    Phidget1048,
    Phidget1049,
    Phidget1051,
    Phidget1052,
    Phidget1053,
    Phidget1054,
    Phidget1055,
    Phidget1056,
    Phidget1057,
    Phidget1058,
    Phidget1059,
    Phidget1060,
    Phidget1061,
    Phidget1062,
    Phidget1063,
    Phidget1064,
    Phidget1065,
    Phidget1066,
    Phidget1067,
    Phidget1202_1203,
    Phidget1204,
    Phidget1215_1218,
    Phidget1219_1222,
    Adp1000,
    Daq1000,
    Daq1200,
    Daq1300,
    Daq1301,
    Daq1400,
    Daq1500,
    Dcc1000,
    Dst1000,
    Dst1200,
    Enc1000,
    Hin1000,
    Hin1001,
    Hin1100,
    Hub0000,
    Hub0004,
    Hum1000,
    Lcd1100,
    Led1000,
    Lux1000,
    Mot1100,
    Mot1101,
    Out1000,
    Out1001,
    Out1002,
    Out1100,
    Pre1000,
    Rcc1000,
    Rel1000,
    Rel1100,
    Rel1101,
    Saf1000,
    Snd1000,
    Stc1000,
    Tmp1000,
    Tmp1100,
    Tmp1101,
    Tmp1200,
    Vcp1000,
    Vcp1001,
    Vcp1002,
    DigitalInputPort,
    DigitalOutputPort,
    VoltageInputPort,
    VoltageRatioInputPort,
    FirmwareUpgradeUsb,
    FirmwareUpgradeStm32f0,
    FirmwareUpgradeStm8s,
    FirmwareUpgradeSpi,
    Vcp1100,
    Dcc1100,
    Hin1101,
    Dcc1001,
    Dictionary,
    Stc1001,
    Dcc1002,
    Stc1002,
    Stc1003,
    Dcc1003,
    Dst1001,
    Hub5000,
    Rcc0004,
    Unknown,
    Dst1002,
    Hum1001,
    Hum1100,
    Mot1102,
    Mot0109,
    Mot0110,
    Hub0001,
    FirmwareUpgradeStm32g0,
    FirmwareUpgradeStm32f3,
    Mot0100,
    Hub0002,
    Hub0007,
    Stc1005,
    Enc1001,
}

impl DeviceId {
    /// The native integer that stands for this id.
    pub open spec fn spec_code(self) -> u32 {
        match self {
            DeviceId::Nothing => 0,
            DeviceId::InterfaceKit4_8_8 => 1,
            DeviceId::Phidget1000 => 2,
            DeviceId::Phidget1001 => 3,
            DeviceId::Phidget1002 => 4,
            DeviceId::Phidget1008 => 5,
            DeviceId::Phidget1010_1013_1018_1019 => 6,
            DeviceId::Phidget1011 => 7,
            DeviceId::Phidget1012 => 8,
            DeviceId::Phidget1014 => 9,
            DeviceId::Phidget1015 => 10,
            DeviceId::Phidget1016 => 11,
            DeviceId::Phidget1017 => 12,
            DeviceId::Phidget1023 => 13,
            DeviceId::Phidget1024 => 14,
            DeviceId::Phidget1030 => 15,
            DeviceId::Phidget1031 => 16,
            DeviceId::Phidget1032 => 17,
            DeviceId::Phidget1040 => 18,
            DeviceId::Phidget1041 => 19,
            DeviceId::Phidget1042 => 20,
            DeviceId::Phidget1043 => 21,
            DeviceId::Phidget1044 => 22,
            DeviceId::Phidget1045 => 23,
            DeviceId::Phidget1046 => 24,
            DeviceId::Phidget1047 => 25,
            DeviceId::Phidget1048 => 26,
            DeviceId::Phidget1049 => 27,
            DeviceId::Phidget1051 => 28,
            DeviceId::Phidget1052 => 29,
            DeviceId::Phidget1053 => 30,
            DeviceId::Phidget1054 => 31,
            DeviceId::Phidget1055 => 32,
            DeviceId::Phidget1056 => 33,
            DeviceId::Phidget1057 => 34,
            DeviceId::Phidget1058 => 35,
            DeviceId::Phidget1059 => 36,
            DeviceId::Phidget1060 => 37,
            DeviceId::Phidget1061 => 38,
            DeviceId::Phidget1062 => 39,
            DeviceId::Phidget1063 => 40,
            DeviceId::Phidget1064 => 41,
            DeviceId::Phidget1065 => 42,
            DeviceId::Phidget1066 => 43,
            DeviceId::Phidget1067 => 44,
            DeviceId::Phidget1202_1203 => 45,
            DeviceId::Phidget1204 => 46,
            DeviceId::Phidget1215_1218 => 47,
            DeviceId::Phidget1219_1222 => 48,
            DeviceId::Adp1000 => 49,
            DeviceId::Daq1000 => 51,
            DeviceId::Daq1200 => 52,
            DeviceId::Daq1300 => 53,
            DeviceId::Daq1301 => 54,
            DeviceId::Daq1400 => 55,
            DeviceId::Daq1500 => 56,
            DeviceId::Dcc1000 => 57,
            DeviceId::Dst1000 => 58,
            DeviceId::Dst1200 => 59,
            DeviceId::Enc1000 => 60,
            DeviceId::Hin1000 => 61,
            DeviceId::Hin1001 => 62,
            DeviceId::Hin1100 => 63,
            DeviceId::Hub0000 => 64,
            DeviceId::Hub0004 => 67,
            DeviceId::Hum1000 => 69,
            DeviceId::Lcd1100 => 70,
            DeviceId::Led1000 => 71,
            DeviceId::Lux1000 => 72,
            DeviceId::Mot1100 => 73,
            DeviceId::Mot1101 => 74,
            DeviceId::Out1000 => 75,
            DeviceId::Out1001 => 76,
            DeviceId::Out1002 => 77,
            DeviceId::Out1100 => 78,
            DeviceId::Pre1000 => 79,
            DeviceId::Rcc1000 => 80,
            DeviceId::Rel1000 => 81,
            DeviceId::Rel1100 => 82,
            DeviceId::Rel1101 => 83,
            DeviceId::Saf1000 => 84,
            DeviceId::Snd1000 => 85,
            DeviceId::Stc1000 => 86,
            DeviceId::Tmp1000 => 87,
            DeviceId::Tmp1100 => 88,
            DeviceId::Tmp1101 => 89,
            DeviceId::Tmp1200 => 90,
            DeviceId::Vcp1000 => 92,
            DeviceId::Vcp1001 => 93,
            DeviceId::Vcp1002 => 94,
            DeviceId::DigitalInputPort => 95,
            DeviceId::DigitalOutputPort => 96,
            DeviceId::VoltageInputPort => 97,
            DeviceId::VoltageRatioInputPort => 98,
            DeviceId::FirmwareUpgradeUsb => 101,
            DeviceId::FirmwareUpgradeStm32f0 => 102,
            DeviceId::FirmwareUpgradeStm8s => 103,
            DeviceId::FirmwareUpgradeSpi => 104,
            DeviceId::Vcp1100 => 105,
            DeviceId::Dcc1100 => 108,
            DeviceId::Hin1101 => 109,
            DeviceId::Dcc1001 => 110,
            DeviceId::Dictionary => 111,
            DeviceId::Stc1001 => 115,
            DeviceId::Dcc1002 => 117,
            DeviceId::Stc1002 => 118,
            DeviceId::Stc1003 => 119,
            DeviceId::Dcc1003 => 120,
            DeviceId::Dst1001 => 121,
            DeviceId::Hub5000 => 123,
            DeviceId::Rcc0004 => 124,
            DeviceId::Unknown => 125,
            DeviceId::Dst1002 => 126,
            DeviceId::Hum1001 => 127,
            DeviceId::Hum1100 => 136,
            DeviceId::Mot1102 => 137,
            DeviceId::Mot0109 => 140,
            DeviceId::Mot0110 => 141,
            DeviceId::Hub0001 => 142,
            DeviceId::FirmwareUpgradeStm32g0 => 143,
            DeviceId::FirmwareUpgradeStm32f3 => 145,
            DeviceId::Mot0100 => 146,
            DeviceId::Hub0002 => 147,
            DeviceId::Hub0007 => 148,
            DeviceId::Stc1005 => 149,
            DeviceId::Enc1001 => 155,
        }
    }

    /// Whether some id stands for `val`.
    pub open spec fn is_code(val: u32) -> bool {
        exists|c: DeviceId| c.spec_code() == val
    }

    /// The id that a native integer names, or `InvalidArg` for an integer
    /// that names none.
    pub open spec fn of_code(val: u32) -> Result<DeviceId, ReturnCode> {
        if Self::is_code(val) {
            Ok(choose|c: DeviceId| c.spec_code() == val)
        } else {
            Err(ReturnCode::InvalidArg)
        }
    }

    /// The native integer that stands for this id.
    #[verifier::when_used_as_spec(spec_code)]
    pub fn code(self) -> (c: u32)
        ensures
            c == self.spec_code(),
    {
        match self {
            DeviceId::Nothing => 0,
            DeviceId::InterfaceKit4_8_8 => 1,
            DeviceId::Phidget1000 => 2,
            DeviceId::Phidget1001 => 3,
            DeviceId::Phidget1002 => 4,
            DeviceId::Phidget1008 => 5,
            DeviceId::Phidget1010_1013_1018_1019 => 6,
            DeviceId::Phidget1011 => 7,
            DeviceId::Phidget1012 => 8,
            DeviceId::Phidget1014 => 9,
            DeviceId::Phidget1015 => 10,
            DeviceId::Phidget1016 => 11,
            DeviceId::Phidget1017 => 12,
            DeviceId::Phidget1023 => 13,
            DeviceId::Phidget1024 => 14,
            DeviceId::Phidget1030 => 15,
            DeviceId::Phidget1031 => 16,
            DeviceId::Phidget1032 => 17,
            DeviceId::Phidget1040 => 18,
            DeviceId::Phidget1041 => 19,
            DeviceId::Phidget1042 => 20,
            DeviceId::Phidget1043 => 21,
            DeviceId::Phidget1044 => 22,
            DeviceId::Phidget1045 => 23,
            DeviceId::Phidget1046 => 24,
            DeviceId::Phidget1047 => 25,
            DeviceId::Phidget1048 => 26,
            DeviceId::Phidget1049 => 27,
            DeviceId::Phidget1051 => 28,
            DeviceId::Phidget1052 => 29,
            DeviceId::Phidget1053 => 30,
            DeviceId::Phidget1054 => 31,
            DeviceId::Phidget1055 => 32,
            DeviceId::Phidget1056 => 33,
            DeviceId::Phidget1057 => 34,
            DeviceId::Phidget1058 => 35,
            DeviceId::Phidget1059 => 36,
            DeviceId::Phidget1060 => 37,
            DeviceId::Phidget1061 => 38,
            DeviceId::Phidget1062 => 39,
            DeviceId::Phidget1063 => 40,
            DeviceId::Phidget1064 => 41,
            DeviceId::Phidget1065 => 42,
            DeviceId::Phidget1066 => 43,
            DeviceId::Phidget1067 => 44,
            DeviceId::Phidget1202_1203 => 45,
            DeviceId::Phidget1204 => 46,
            DeviceId::Phidget1215_1218 => 47,
            DeviceId::Phidget1219_1222 => 48,
            DeviceId::Adp1000 => 49,
            DeviceId::Daq1000 => 51,
            DeviceId::Daq1200 => 52,
            DeviceId::Daq1300 => 53,
            DeviceId::Daq1301 => 54,
            DeviceId::Daq1400 => 55,
            DeviceId::Daq1500 => 56,
            DeviceId::Dcc1000 => 57,
            DeviceId::Dst1000 => 58,
            DeviceId::Dst1200 => 59,
            DeviceId::Enc1000 => 60,
            DeviceId::Hin1000 => 61,
            DeviceId::Hin1001 => 62,
            DeviceId::Hin1100 => 63,
            DeviceId::Hub0000 => 64,
            DeviceId::Hub0004 => 67,
            DeviceId::Hum1000 => 69,
            DeviceId::Lcd1100 => 70,
            DeviceId::Led1000 => 71,
            DeviceId::Lux1000 => 72,
            DeviceId::Mot1100 => 73,
            DeviceId::Mot1101 => 74,
            DeviceId::Out1000 => 75,
            DeviceId::Out1001 => 76,
            DeviceId::Out1002 => 77,
            DeviceId::Out1100 => 78,
            DeviceId::Pre1000 => 79,
            DeviceId::Rcc1000 => 80,
            DeviceId::Rel1000 => 81,
            DeviceId::Rel1100 => 82,
            DeviceId::Rel1101 => 83,
            DeviceId::Saf1000 => 84,
            DeviceId::Snd1000 => 85,
            DeviceId::Stc1000 => 86,
            DeviceId::Tmp1000 => 87,
            DeviceId::Tmp1100 => 88,
            DeviceId::Tmp1101 => 89,
            DeviceId::Tmp1200 => 90,
            DeviceId::Vcp1000 => 92,
            DeviceId::Vcp1001 => 93,
            DeviceId::Vcp1002 => 94,
            DeviceId::DigitalInputPort => 95,
            DeviceId::DigitalOutputPort => 96,
            DeviceId::VoltageInputPort => 97,
            DeviceId::VoltageRatioInputPort => 98,
            DeviceId::FirmwareUpgradeUsb => 101,
            DeviceId::FirmwareUpgradeStm32f0 => 102,
            DeviceId::FirmwareUpgradeStm8s => 103,
            DeviceId::FirmwareUpgradeSpi => 104,
            DeviceId::Vcp1100 => 105,
            DeviceId::Dcc1100 => 108,
            DeviceId::Hin1101 => 109,
            DeviceId::Dcc1001 => 110,
            DeviceId::Dictionary => 111,
            DeviceId::Stc1001 => 115,
            DeviceId::Dcc1002 => 117,
            DeviceId::Stc1002 => 118,
            DeviceId::Stc1003 => 119,
            DeviceId::Dcc1003 => 120,
            DeviceId::Dst1001 => 121,
            DeviceId::Hub5000 => 123,
            DeviceId::Rcc0004 => 124,
            DeviceId::Unknown => 125,
            DeviceId::Dst1002 => 126,
            DeviceId::Hum1001 => 127,
            DeviceId::Hum1100 => 136,
            DeviceId::Mot1102 => 137,
            DeviceId::Mot0109 => 140,
            DeviceId::Mot0110 => 141,
            DeviceId::Hub0001 => 142,
            DeviceId::FirmwareUpgradeStm32g0 => 143,
            DeviceId::FirmwareUpgradeStm32f3 => 145,
            DeviceId::Mot0100 => 146,
            DeviceId::Hub0002 => 147,
            DeviceId::Hub0007 => 148,
            DeviceId::Stc1005 => 149,
            DeviceId::Enc1001 => 155,
        }
    }

    /// Converts a native integer into a id; an integer that names none
    /// is rejected with `InvalidArg`.
    pub fn try_from(val: u32) -> (r: Result<DeviceId, ReturnCode>)
        ensures
            r == Self::of_code(val),
            r matches Ok(c) ==> c.spec_code() == val,
            r is Err <==> !Self::is_code(val),
    {
        let r = match val {
            0 => Ok(DeviceId::Nothing),
            125 => Ok(DeviceId::Unknown),
            95 => Ok(DeviceId::DigitalInputPort),
            96 => Ok(DeviceId::DigitalOutputPort),
            97 => Ok(DeviceId::VoltageInputPort),
            98 => Ok(DeviceId::VoltageRatioInputPort),
            111 => Ok(DeviceId::Dictionary),
            2 => Ok(DeviceId::Phidget1000),
            3 => Ok(DeviceId::Phidget1001),
            4 => Ok(DeviceId::Phidget1002),
            5 => Ok(DeviceId::Phidget1008),
            6 => Ok(DeviceId::Phidget1010_1013_1018_1019),
            7 => Ok(DeviceId::Phidget1011),
            8 => Ok(DeviceId::Phidget1012),
            9 => Ok(DeviceId::Phidget1014),
            10 => Ok(DeviceId::Phidget1015),
            11 => Ok(DeviceId::Phidget1016),
            12 => Ok(DeviceId::Phidget1017),
            13 => Ok(DeviceId::Phidget1023),
            14 => Ok(DeviceId::Phidget1024),
            15 => Ok(DeviceId::Phidget1030),
            16 => Ok(DeviceId::Phidget1031),
            17 => Ok(DeviceId::Phidget1032),
            18 => Ok(DeviceId::Phidget1040),
            19 => Ok(DeviceId::Phidget1041),
            20 => Ok(DeviceId::Phidget1042),
            21 => Ok(DeviceId::Phidget1043),
            22 => Ok(DeviceId::Phidget1044),
            23 => Ok(DeviceId::Phidget1045),
            24 => Ok(DeviceId::Phidget1046),
            25 => Ok(DeviceId::Phidget1047),
            26 => Ok(DeviceId::Phidget1048),
            27 => Ok(DeviceId::Phidget1049),
            28 => Ok(DeviceId::Phidget1051),
            29 => Ok(DeviceId::Phidget1052),
            30 => Ok(DeviceId::Phidget1053),
            31 => Ok(DeviceId::Phidget1054),
            32 => Ok(DeviceId::Phidget1055),
            33 => Ok(DeviceId::Phidget1056),
            34 => Ok(DeviceId::Phidget1057),
            35 => Ok(DeviceId::Phidget1058),
            36 => Ok(DeviceId::Phidget1059),
            37 => Ok(DeviceId::Phidget1060),
            38 => Ok(DeviceId::Phidget1061),
            39 => Ok(DeviceId::Phidget1062),
            40 => Ok(DeviceId::Phidget1063),
            41 => Ok(DeviceId::Phidget1064),
            42 => Ok(DeviceId::Phidget1065),
            43 => Ok(DeviceId::Phidget1066),
            44 => Ok(DeviceId::Phidget1067),
            45 => Ok(DeviceId::Phidget1202_1203),
            46 => Ok(DeviceId::Phidget1204),
            47 => Ok(DeviceId::Phidget1215_1218),
            48 => Ok(DeviceId::Phidget1219_1222),
            49 => Ok(DeviceId::Adp1000),
            51 => Ok(DeviceId::Daq1000),
            52 => Ok(DeviceId::Daq1200),
            53 => Ok(DeviceId::Daq1300),
            54 => Ok(DeviceId::Daq1301),
            55 => Ok(DeviceId::Daq1400),
            56 => Ok(DeviceId::Daq1500),
            57 => Ok(DeviceId::Dcc1000),
            110 => Ok(DeviceId::Dcc1001),
            117 => Ok(DeviceId::Dcc1002),
            120 => Ok(DeviceId::Dcc1003),
            108 => Ok(DeviceId::Dcc1100),
            58 => Ok(DeviceId::Dst1000),
            121 => Ok(DeviceId::Dst1001),
            126 => Ok(DeviceId::Dst1002),
            59 => Ok(DeviceId::Dst1200),
            60 => Ok(DeviceId::Enc1000),
            155 => Ok(DeviceId::Enc1001),
            104 => Ok(DeviceId::FirmwareUpgradeSpi),
            102 => Ok(DeviceId::FirmwareUpgradeStm32f0),
            145 => Ok(DeviceId::FirmwareUpgradeStm32f3),
            143 => Ok(DeviceId::FirmwareUpgradeStm32g0),
            103 => Ok(DeviceId::FirmwareUpgradeStm8s),
            101 => Ok(DeviceId::FirmwareUpgradeUsb),
            61 => Ok(DeviceId::Hin1000),
            62 => Ok(DeviceId::Hin1001),
            63 => Ok(DeviceId::Hin1100),
            109 => Ok(DeviceId::Hin1101),
            64 => Ok(DeviceId::Hub0000),
            142 => Ok(DeviceId::Hub0001),
            147 => Ok(DeviceId::Hub0002),
            67 => Ok(DeviceId::Hub0004),
            148 => Ok(DeviceId::Hub0007),
            123 => Ok(DeviceId::Hub5000),
            69 => Ok(DeviceId::Hum1000),
            127 => Ok(DeviceId::Hum1001),
            136 => Ok(DeviceId::Hum1100),
            1 => Ok(DeviceId::InterfaceKit4_8_8),
            70 => Ok(DeviceId::Lcd1100),
            71 => Ok(DeviceId::Led1000),
            72 => Ok(DeviceId::Lux1000),
            146 => Ok(DeviceId::Mot0100),
            140 => Ok(DeviceId::Mot0109),
            141 => Ok(DeviceId::Mot0110),
            73 => Ok(DeviceId::Mot1100),
            74 => Ok(DeviceId::Mot1101),
            137 => Ok(DeviceId::Mot1102),
            75 => Ok(DeviceId::Out1000),
            76 => Ok(DeviceId::Out1001),
            77 => Ok(DeviceId::Out1002),
            78 => Ok(DeviceId::Out1100),
            79 => Ok(DeviceId::Pre1000),
            124 => Ok(DeviceId::Rcc0004),
            80 => Ok(DeviceId::Rcc1000),
            81 => Ok(DeviceId::Rel1000),
            82 => Ok(DeviceId::Rel1100),
            83 => Ok(DeviceId::Rel1101),
            84 => Ok(DeviceId::Saf1000),
            85 => Ok(DeviceId::Snd1000),
            86 => Ok(DeviceId::Stc1000),
            115 => Ok(DeviceId::Stc1001),
            118 => Ok(DeviceId::Stc1002),
            119 => Ok(DeviceId::Stc1003),
            149 => Ok(DeviceId::Stc1005),
            87 => Ok(DeviceId::Tmp1000),
            88 => Ok(DeviceId::Tmp1100),
            89 => Ok(DeviceId::Tmp1101),
            90 => Ok(DeviceId::Tmp1200),
            92 => Ok(DeviceId::Vcp1000),
            93 => Ok(DeviceId::Vcp1001),
            94 => Ok(DeviceId::Vcp1002),
            105 => Ok(DeviceId::Vcp1100),
            _ => Err(ReturnCode::InvalidArg),
        };
        proof {
            if let Ok(c) = r {
                assert(c.spec_code() == val);
                Self::lemma_code_injective(c, Self::of_code(val)->Ok_0);
            }
        }
        r
    }

    /// Reads a reply that carries a id: the failure that `code` names, or
    /// else the id that `raw` names.
    pub fn from_reply(code: u32, raw: u32) -> (r: Result<DeviceId, ReturnCode>)
        ensures
            r == (match ReturnCode::spec_result(code) {
                Err(e) => Err::<DeviceId, ReturnCode>(e),
                Ok(_) => Self::of_code(raw),
            }),
    {
        match ReturnCode::result(code) {
            Err(e) => Err(e),
            Ok(_) => Self::try_from(raw),
        }
    }

    /// No two ids share a native integer.
    pub proof fn lemma_code_injective(a: DeviceId, b: DeviceId)
        requires
            a.spec_code() == b.spec_code(),
        ensures
            a == b,
    {
    }

    /// The native integer of a id converts back into that id.
    pub proof fn lemma_code_round_trip(c: DeviceId)
        ensures
            Self::of_code(c.spec_code()) == Ok::<_, ReturnCode>(c),
    {
        assert(Self::is_code(c.spec_code()));
        Self::lemma_code_injective(Self::of_code(c.spec_code())->Ok_0, c);
    }
}

} // verus!
