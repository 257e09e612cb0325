use vstd::prelude::*;

verus! {

/// Which physical half of a split keyboard a device is.
#[derive(Clone, Copy, Debug, PartialEq, Eq, Structural)]
pub enum Side {
    Left,
    Right,
}

/// Which role a half plays: the master is the half that the host sees, the
/// slave serves scans to it.
#[derive(Clone, Copy, Debug, PartialEq, Eq, Structural)]
pub enum Mode {
    Master,
    Slave,
}

/// The side that the side-detect line stands for: high is right, low is
/// left.
pub fn detect_side(side_pin_high: bool) -> (side: Side)
    ensures
        side == (if side_pin_high {
            Side::Right
        } else {
            Side::Left
        }),
{
    if side_pin_high {
        Side::Right
    } else {
        Side::Left
    }
}

/// The role of a half once the wait for the host is over: master where the
/// host was seen, slave where it was not.
pub fn detect_mode(usb_connected: bool) -> (mode: Mode)
    ensures
        mode == (if usb_connected {
            Mode::Master
        } else {
            Mode::Slave
        }),
{
    if usb_connected {
        Mode::Master
    } else {
        Mode::Slave
    }
}

} // verus!
