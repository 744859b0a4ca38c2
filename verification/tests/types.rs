use phidget::errors::ReturnCode;
use phidget::types::{ChannelClass, DeviceClass, DeviceId};
use phidget::{
    ControlMode, HubPortMode, InputMode, PowerSupply, RtdType, RtdWireSetup, ServerType,
    ThermocoupleType,
};

#[test]
fn test_channel_class_from_str() {
    assert!(matches!(
        ChannelClass::from_str("gps"),
        Ok(ChannelClass::Gps)
    ));
    assert!(matches!(
        ChannelClass::from_str("Gps"),
        Ok(ChannelClass::Gps)
    ));
    assert!(matches!(
        ChannelClass::from_str("GPS"),
        Ok(ChannelClass::Gps)
    ));
}

#[test]
fn test_device_class_from_str() {
    assert!(matches!(DeviceClass::from_str("gps"), Ok(DeviceClass::Gps)));
    assert!(matches!(DeviceClass::from_str("Gps"), Ok(DeviceClass::Gps)));
    assert!(matches!(DeviceClass::from_str("GPS"), Ok(DeviceClass::Gps)));
}

#[test]
fn from_str_rejects_unknown_words() {
    assert_eq!(ChannelClass::from_str("gpsx"), Err(ReturnCode::InvalidArg));
    assert_eq!(ChannelClass::from_str(""), Err(ReturnCode::InvalidArg));
    assert_eq!(ChannelClass::from_str(" gps"), Err(ReturnCode::InvalidArg));
    assert_eq!(DeviceClass::from_str("stepperr"), Err(ReturnCode::InvalidArg));
    assert_eq!(DeviceClass::from_str("voltageinput"), Err(ReturnCode::InvalidArg));
}

#[test]
fn from_lowercase_takes_lower_case_only() {
    assert_eq!(ChannelClass::from_lowercase("gps"), Ok(ChannelClass::Gps));
    assert_eq!(ChannelClass::from_lowercase("GPS"), Err(ReturnCode::InvalidArg));
    assert_eq!(ChannelClass::from_lowercase("Gps"), Err(ReturnCode::InvalidArg));
    assert_eq!(DeviceClass::from_lowercase("vint"), Ok(DeviceClass::Vint));
    assert_eq!(DeviceClass::from_lowercase("Vint"), Err(ReturnCode::InvalidArg));
}

#[test]
fn from_str_finds_every_channel_class_by_its_name() {
    let mut found = 0;
    for code in 0u32..=64 {
        if let Ok(class) = ChannelClass::try_from(code) {
            assert_eq!(ChannelClass::from_str(class.name()), Ok(class));
            assert_eq!(
                ChannelClass::from_str(&class.name().to_uppercase()),
                Ok(class)
            );
            assert_eq!(format!("{:?}", class), class.name());
            found += 1;
        }
    }
    assert_eq!(found, 40);
}

#[test]
fn from_str_finds_device_classes_by_their_words() {
    assert_eq!(DeviceClass::from_str("Stepper"), Ok(DeviceClass::Steper));
    assert_eq!(
        DeviceClass::from_str("TemperatureSensor"),
        Ok(DeviceClass::TemperatreSensor)
    );
    assert_eq!(DeviceClass::from_str("TEXTLCD"), Ok(DeviceClass::TextLcd));
    assert_eq!(DeviceClass::from_str("interfacekit"), Ok(DeviceClass::InterfaceKit));
    assert_eq!(DeviceClass::Steper.name(), "Steper");
    let mut found = 0;
    for code in 0u32..=64 {
        if let Ok(class) = DeviceClass::try_from(code) {
            assert_eq!(format!("{:?}", class), class.name());
            found += 1;
        }
    }
    assert_eq!(found, 26);
}

#[test]
fn channel_class_from_native_integers() {
    assert_eq!(ChannelClass::try_from(0), Ok(ChannelClass::Nothing));
    assert_eq!(ChannelClass::try_from(5), Ok(ChannelClass::DigitalInput));
    assert_eq!(ChannelClass::try_from(10), Ok(ChannelClass::Gps));
    assert_eq!(ChannelClass::try_from(27), Ok(ChannelClass::Stepper));
    assert_eq!(ChannelClass::try_from(28), Ok(ChannelClass::TemperatureSensor));
    assert_eq!(ChannelClass::try_from(39), Ok(ChannelClass::MotorVelocityController));
    assert_eq!(ChannelClass::try_from(40), Err(ReturnCode::InvalidArg));
    assert_eq!(ChannelClass::try_from(u32::MAX), Err(ReturnCode::InvalidArg));
    assert_eq!(ChannelClass::Gps.code(), 10);
}

#[test]
fn device_class_from_native_integers() {
    assert_eq!(DeviceClass::try_from(0), Ok(DeviceClass::Nothing));
    assert_eq!(DeviceClass::try_from(8), Ok(DeviceClass::Hub));
    assert_eq!(DeviceClass::try_from(21), Ok(DeviceClass::Vint));
    assert_eq!(DeviceClass::try_from(25), Ok(DeviceClass::DataAdapter));
    assert_eq!(DeviceClass::try_from(26), Err(ReturnCode::InvalidArg));
    assert_eq!(DeviceClass::Vint.code(), 21);
}

#[test]
fn device_id_from_native_integers() {
    assert_eq!(DeviceId::try_from(0), Ok(DeviceId::Nothing));
    assert_eq!(DeviceId::try_from(1), Ok(DeviceId::InterfaceKit4_8_8));
    assert_eq!(DeviceId::try_from(2), Ok(DeviceId::Phidget1000));
    assert_eq!(DeviceId::try_from(64), Ok(DeviceId::Hub0000));
    assert_eq!(DeviceId::try_from(95), Ok(DeviceId::DigitalInputPort));
    assert_eq!(DeviceId::try_from(125), Ok(DeviceId::Unknown));
    assert_eq!(DeviceId::try_from(50), Err(ReturnCode::InvalidArg));
    assert_eq!(DeviceId::try_from(1000), Err(ReturnCode::InvalidArg));
}

#[test]
fn native_integers_round_trip() {
    let mut channel_classes = 0;
    let mut device_classes = 0;
    let mut device_ids = 0;
    for code in 0u32..=1000 {
        if let Ok(c) = ChannelClass::try_from(code) {
            assert_eq!(c.code(), code);
            channel_classes += 1;
        }
        if let Ok(c) = DeviceClass::try_from(code) {
            assert_eq!(c.code(), code);
            device_classes += 1;
        }
        if let Ok(c) = DeviceId::try_from(code) {
            assert_eq!(c.code(), code);
            device_ids += 1;
        }
    }
    assert_eq!(channel_classes, 40);
    assert_eq!(device_classes, 26);
    assert_eq!(device_ids, 126);
}

#[test]
fn classes_are_ordered_by_their_native_integers() {
    assert!(ChannelClass::Accelerometer < ChannelClass::CurrentInput);
    assert!(ChannelClass::CurrentInput < ChannelClass::BldcMotor);
    assert!(ChannelClass::VoltageRatioInput < ChannelClass::FirmwareUpgrade);
    assert!(DeviceClass::Vint < DeviceClass::Generic);
    assert!(DeviceId::InterfaceKit4_8_8 < DeviceId::Phidget1000);
}

#[test]
fn device_enums_from_native_integers() {
    assert_eq!(InputMode::try_from(1), Ok(InputMode::NPN));
    assert_eq!(InputMode::try_from(2), Ok(InputMode::PNP));
    assert_eq!(InputMode::try_from(0), Err(ReturnCode::UnknownVal));
    assert_eq!(InputMode::try_from(3), Err(ReturnCode::UnknownVal));
    assert_eq!(PowerSupply::try_from(1), Ok(PowerSupply::OFF));
    assert_eq!(PowerSupply::try_from(2), Ok(PowerSupply::V12));
    assert_eq!(PowerSupply::try_from(3), Ok(PowerSupply::V24));
    assert_eq!(PowerSupply::try_from(4), Err(ReturnCode::UnknownVal));
    assert_eq!(HubPortMode::try_from(0), Ok(HubPortMode::Vint));
    assert_eq!(HubPortMode::try_from(4), Ok(HubPortMode::VoltageRatioInput));
    assert_eq!(HubPortMode::try_from(5), Err(ReturnCode::InvalidArg));
    assert_eq!(ControlMode::try_from(0), Ok(ControlMode::Step));
    assert_eq!(ControlMode::try_from(1), Ok(ControlMode::Run));
    assert_eq!(ControlMode::try_from(2), Err(ReturnCode::UnknownVal));
    assert_eq!(RtdType::try_from(1), Ok(RtdType::Pt100_3850));
    assert_eq!(RtdType::try_from(4), Ok(RtdType::Pt1000_3920));
    assert_eq!(RtdType::try_from(0), Err(ReturnCode::InvalidArg));
    assert_eq!(RtdWireSetup::try_from(1), Ok(RtdWireSetup::TwoWire));
    assert_eq!(RtdWireSetup::try_from(3), Ok(RtdWireSetup::FourWire));
    assert_eq!(RtdWireSetup::try_from(4), Err(ReturnCode::InvalidArg));
    assert_eq!(ThermocoupleType::try_from(1), Ok(ThermocoupleType::TypeJ));
    assert_eq!(ThermocoupleType::try_from(4), Ok(ThermocoupleType::TypeT));
    assert_eq!(ThermocoupleType::try_from(5), Err(ReturnCode::InvalidArg));
    assert_eq!(ServerType::try_from(0), Ok(ServerType::Nothing));
    assert_eq!(ServerType::try_from(7), Ok(ServerType::Sbc));
    assert_eq!(ServerType::try_from(8), Err(ReturnCode::InvalidArg));
    assert_eq!(InputMode::PNP.code(), 2);
    assert_eq!(HubPortMode::DigitalOutput.code(), 2);
}
