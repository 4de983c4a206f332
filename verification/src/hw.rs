use vstd::prelude::*;
use async_hwi::DeviceKind;

verus! {

#[verifier::external_type_specification]
#[verifier::external_body]
pub struct ExDeviceKind(async_hwi::DeviceKind);

/// Why a connected device cannot be used with the wallet.
#[derive(Clone, Copy, Debug, PartialEq, Eq, Structural)]
pub enum UnsupportedReason {
    Version,
    Method,
    NotPartOfWallet(u32),
    WrongNetwork,
    AppIsNotOpen,
}

/// A connected signing device, as far as the screens' decisions read it.
#[derive(Clone, Copy, Debug)]
pub enum HardwareWallet {
    Supported { kind: DeviceKind, fingerprint: u32 },
    Unsupported { kind: DeviceKind, reason: UnsupportedReason },
    Locked { kind: DeviceKind },
}

impl HardwareWallet {
    pub fn is_supported(&self) -> (r: bool)
        ensures
            r == (*self is Supported),
    {
        matches!(self, HardwareWallet::Supported { .. })
    }

    /// The master key fingerprint of a supported device.
    pub fn fingerprint(&self) -> (r: Option<u32>)
        ensures
            r == hw_fingerprint(*self),
    {
        match self {
            HardwareWallet::Supported { fingerprint, .. } => Some(*fingerprint),
            _ => None,
        }
    }

    pub fn kind(&self) -> (r: DeviceKind)
        ensures
            r == hw_kind(*self),
    {
        match self {
            HardwareWallet::Supported { kind, .. } => *kind,
            HardwareWallet::Unsupported { kind, .. } => *kind,
            HardwareWallet::Locked { kind } => *kind,
        }
    }
}

pub open spec fn hw_fingerprint(h: HardwareWallet) -> Option<u32> {
    match h {
        HardwareWallet::Supported { fingerprint, .. } => Some(fingerprint),
        _ => None,
    }
}

pub open spec fn hw_kind(h: HardwareWallet) -> DeviceKind {
    match h {
        HardwareWallet::Supported { kind, .. } => kind,
        HardwareWallet::Unsupported { kind, .. } => kind,
        HardwareWallet::Locked { kind } => kind,
    }
}

/// How a device is drawn in a list of devices.
#[derive(Clone, Copy, Debug, PartialEq, Eq, Structural)]
pub enum DeviceLook {
    /// A supported device busy with the current operation.
    Processing,
    /// A supported device on which the operation already succeeded.
    RegistrationSuccess,
    Supported,
    /// A device holding none of the wallet's keys; its fingerprint is shown.
    Unrelated(u32),
    WrongNetwork,
    Unsupported,
    Locked,
}

/// The look of a device that is not supported, or of a supported device with
/// the given look.
pub open spec fn device_look_spec(h: HardwareWallet, supported_look: DeviceLook) -> DeviceLook {
    match h {
        HardwareWallet::Supported { .. } => supported_look,
        HardwareWallet::Unsupported { reason, .. } => match reason {
            UnsupportedReason::NotPartOfWallet(fg) => DeviceLook::Unrelated(fg),
            UnsupportedReason::WrongNetwork => DeviceLook::WrongNetwork,
            _ => DeviceLook::Unsupported,
        },
        HardwareWallet::Locked { .. } => DeviceLook::Locked,
    }
}

pub fn device_look(h: &HardwareWallet, supported_look: DeviceLook) -> (r: DeviceLook)
    ensures
        r == device_look_spec(*h, supported_look),
{
    match h {
        HardwareWallet::Supported { .. } => supported_look,
        HardwareWallet::Unsupported { reason, .. } => match reason {
            UnsupportedReason::NotPartOfWallet(fg) => DeviceLook::Unrelated(*fg),
            UnsupportedReason::WrongNetwork => DeviceLook::WrongNetwork,
            _ => DeviceLook::Unsupported,
        },
        HardwareWallet::Locked { .. } => DeviceLook::Locked,
    }
}

/// A device's button in a list: its position in the device list, its look,
/// and whether it can be pressed.
#[derive(Clone, Copy, Debug, PartialEq, Eq, Structural)]
pub struct DeviceButton {
    pub hw_index: usize,
    pub look: DeviceLook,
    pub pressable: bool,
}

} // verus!
