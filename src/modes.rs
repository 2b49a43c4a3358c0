//! Mode tags: zero-sized types, one for each electrical mode of a pin.

use vstd::prelude::*;
use crate::gpio::{Mode, OutputMode, PinMode};
use crate::sealed::Sealed;

verus! {

/// Disabled, no pull-up.
pub struct Disabled;

impl Sealed for Disabled {}

impl PinMode for Disabled {
    open spec fn spec_mode() -> Mode {
        Mode::Disabled
    }

    fn mode() -> (m: Mode) {
        Mode::Disabled
    }
}

/// Disabled, pulled up through the data-out latch.
pub struct DisabledPullUp;

impl Sealed for DisabledPullUp {}

impl PinMode for DisabledPullUp {
    open spec fn spec_mode() -> Mode {
        Mode::DisabledPullUp
    }

    fn mode() -> (m: Mode) {
        Mode::DisabledPullUp
    }
}

/// Input, no pull, no filter.
pub struct NoFilter;

impl Sealed for NoFilter {}

impl PinMode for NoFilter {
    open spec fn spec_mode() -> Mode {
        Mode::NoFilter
    }

    fn mode() -> (m: Mode) {
        Mode::NoFilter
    }
}

/// Input, no pull, with filter.
pub struct WithFilter;

impl Sealed for WithFilter {}

impl PinMode for WithFilter {
    open spec fn spec_mode() -> Mode {
        Mode::WithFilter
    }

    fn mode() -> (m: Mode) {
        Mode::WithFilter
    }
}

/// Input with pull-down, no filter.
pub struct PullDown;

impl Sealed for PullDown {}

impl PinMode for PullDown {
    open spec fn spec_mode() -> Mode {
        Mode::PullDown
    }

    fn mode() -> (m: Mode) {
        Mode::PullDown
    }
}

/// Input with pull-up, no filter.
pub struct PullUp;

impl Sealed for PullUp {}

impl PinMode for PullUp {
    open spec fn spec_mode() -> Mode {
        Mode::PullUp
    }

    fn mode() -> (m: Mode) {
        Mode::PullUp
    }
}

/// Input with pull-down and filter.
pub struct PullDownWithFilter;

impl Sealed for PullDownWithFilter {}

impl PinMode for PullDownWithFilter {
    open spec fn spec_mode() -> Mode {
        Mode::PullDownWithFilter
    }

    fn mode() -> (m: Mode) {
        Mode::PullDownWithFilter
    }
}

/// Input with pull-up and filter.
pub struct PullupWithFilter;

impl Sealed for PullupWithFilter {}

impl PinMode for PullupWithFilter {
    open spec fn spec_mode() -> Mode {
        Mode::PullupWithFilter
    }

    fn mode() -> (m: Mode) {
        Mode::PullupWithFilter
    }
}

/// Push-pull output.
pub struct PushPull;

impl Sealed for PushPull {}

impl PinMode for PushPull {
    open spec fn spec_mode() -> Mode {
        Mode::PushPull
    }

    fn mode() -> (m: Mode) {
        Mode::PushPull
    }
}

impl OutputMode for PushPull {
    proof fn lemma_drives() {
    }
}

/// Push-pull output with alternate drive strength.
pub struct PushPullDrive;

impl Sealed for PushPullDrive {}

impl PinMode for PushPullDrive {
    open spec fn spec_mode() -> Mode {
        Mode::PushPullDrive
    }

    fn mode() -> (m: Mode) {
        Mode::PushPullDrive
    }
}

impl OutputMode for PushPullDrive {
    proof fn lemma_drives() {
    }
}

/// Open-source output.
pub struct WiredOr;

impl Sealed for WiredOr {}

impl PinMode for WiredOr {
    open spec fn spec_mode() -> Mode {
        Mode::WiredOr
    }

    fn mode() -> (m: Mode) {
        Mode::WiredOr
    }
}

impl OutputMode for WiredOr {
    proof fn lemma_drives() {
    }
}

/// Open-source output with pull-down.
pub struct WiredOrPullDown;

impl Sealed for WiredOrPullDown {}

impl PinMode for WiredOrPullDown {
    open spec fn spec_mode() -> Mode {
        Mode::WiredOrPullDown
    }

    fn mode() -> (m: Mode) {
        Mode::WiredOrPullDown
    }
}

impl OutputMode for WiredOrPullDown {
    proof fn lemma_drives() {
    }
}

/// Open-drain output.
pub struct WiredAnd;

impl Sealed for WiredAnd {}

impl PinMode for WiredAnd {
    open spec fn spec_mode() -> Mode {
        Mode::WiredAnd
    }

    fn mode() -> (m: Mode) {
        Mode::WiredAnd
    }
}

impl OutputMode for WiredAnd {
    proof fn lemma_drives() {
    }
}

/// Open-drain output with input filter.
pub struct WiredAndWithFilter;

impl Sealed for WiredAndWithFilter {}

impl PinMode for WiredAndWithFilter {
    open spec fn spec_mode() -> Mode {
        Mode::WiredAndWithFilter
    }

    fn mode() -> (m: Mode) {
        Mode::WiredAndWithFilter
    }
}

impl OutputMode for WiredAndWithFilter {
    proof fn lemma_drives() {
    }
}

/// Open-drain output with pull-up.
pub struct WiredAndPullUp;

impl Sealed for WiredAndPullUp {}

impl PinMode for WiredAndPullUp {
    open spec fn spec_mode() -> Mode {
        Mode::WiredAndPullUp
    }

    fn mode() -> (m: Mode) {
        Mode::WiredAndPullUp
    }
}

impl OutputMode for WiredAndPullUp {
    proof fn lemma_drives() {
    }
}

/// Open-drain output with pull-up and input filter.
pub struct WiredAndPullUpWithFilter;

impl Sealed for WiredAndPullUpWithFilter {}

impl PinMode for WiredAndPullUpWithFilter {
    open spec fn spec_mode() -> Mode {
        Mode::WiredAndPullUpWithFilter
    }

    fn mode() -> (m: Mode) {
        Mode::WiredAndPullUpWithFilter
    }
}

impl OutputMode for WiredAndPullUpWithFilter {
    proof fn lemma_drives() {
    }
}

/// Open-drain output with alternate drive strength.
pub struct WiredAndDrive;

impl Sealed for WiredAndDrive {}

impl PinMode for WiredAndDrive {
    open spec fn spec_mode() -> Mode {
        Mode::WiredAndDrive
    }

    fn mode() -> (m: Mode) {
        Mode::WiredAndDrive
    }
}

impl OutputMode for WiredAndDrive {
    proof fn lemma_drives() {
    }
}

/// Open-drain output with alternate drive strength and input filter.
pub struct WiredAndDriveWithFilter;

impl Sealed for WiredAndDriveWithFilter {}

impl PinMode for WiredAndDriveWithFilter {
    open spec fn spec_mode() -> Mode {
        Mode::WiredAndDriveWithFilter
    }

    fn mode() -> (m: Mode) {
        Mode::WiredAndDriveWithFilter
    }
}

impl OutputMode for WiredAndDriveWithFilter {
    proof fn lemma_drives() {
    }
}

/// Open-drain output with alternate drive strength and pull-up.
pub struct WiredAndDrivePullUp;

impl Sealed for WiredAndDrivePullUp {}

impl PinMode for WiredAndDrivePullUp {
    open spec fn spec_mode() -> Mode {
        Mode::WiredAndDrivePullUp
    }

    fn mode() -> (m: Mode) {
        Mode::WiredAndDrivePullUp
    }
}

impl OutputMode for WiredAndDrivePullUp {
    proof fn lemma_drives() {
    }
}

/// Open-drain output with alternate drive strength, pull-up and input filter.
pub struct WiredAndDrivePullUpWithFilter;

impl Sealed for WiredAndDrivePullUpWithFilter {}

impl PinMode for WiredAndDrivePullUpWithFilter {
    open spec fn spec_mode() -> Mode {
        Mode::WiredAndDrivePullUpWithFilter
    }

    fn mode() -> (m: Mode) {
        Mode::WiredAndDrivePullUpWithFilter
    }
}

impl OutputMode for WiredAndDrivePullUpWithFilter {
    proof fn lemma_drives() {
    }
}

pub type OpenSource = WiredOr;
pub type OpenSourcePullDown = WiredOrPullDown;
pub type OpenDrain = WiredAnd;
pub type OpenDrainWithFilter = WiredAndWithFilter;
pub type OpenDrainPullUp = WiredAndPullUp;
pub type OpenDrainPullUpWithFilter = WiredAndPullUpWithFilter;
pub type OpenDrainDrive = WiredAndDrive;
pub type OpenDrainDriveWithFilter = WiredAndDriveWithFilter;
pub type OpenDrainDrivePullUp = WiredAndDrivePullUp;
pub type OpenDrainDrivePullUpWithFilter = WiredAndDrivePullUpWithFilter;

} // verus!
