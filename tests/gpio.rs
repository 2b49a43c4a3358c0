use tomu::clock::Cmu;
use tomu::gpio::{Mode, Pin, PinId, PinMode, GPIO};
use tomu::modes::{
    Disabled, DisabledPullUp, NoFilter, OpenDrain, PullDown, PullDownWithFilter, PullUp,
    PullupWithFilter, PushPull, PushPullDrive, WiredAnd, WiredAndDrive, WiredAndDrivePullUp,
    WiredAndDrivePullUpWithFilter, WiredAndDriveWithFilter, WiredAndPullUp,
    WiredAndPullUpWithFilter, WiredAndWithFilter, WiredOr, WiredOrPullDown, WithFilter,
};
use tomu::pins::{Pins, B8, C15};
use tomu::regs::{GpioRegs, Port, Reg, RegKind, RegWrite};

fn reg(port: Port, kind: RegKind) -> Reg {
    Reg { port, kind }
}

fn setup() -> (GPIO, Pins, GpioRegs) {
    let mut cmu = Cmu::new();
    let (gpio, pins) = GPIO::take(&mut cmu);
    (gpio, pins, GpioRegs::new())
}

#[test]
fn every_transition_but_disabled_pull_up_makes_one_write() {
    let (gpio, pins, mut regs) = setup();
    let p = gpio.split::<Pin<_, NoFilter>>(pins.c0, &mut regs);
    assert_eq!(regs.write_log(), vec![RegWrite { reg: reg(Port::C, RegKind::ModeL), value: 1 }]);
    let _p = p.into_mode::<WiredAnd>(&mut regs);
    assert_eq!(regs.write_log().len(), 2);
    assert_eq!(regs.read(reg(Port::C, RegKind::Dout)), 0);
    assert_eq!(regs.read(reg(Port::C, RegKind::DoutClr)), 0);
}

#[test]
fn take_turns_on_gpio_clock_only() {
    let mut cmu = Cmu::new();
    let _ = GPIO::take(&mut cmu);
    assert!(cmu.gpio_clock);
    assert!(!cmu.lfrco_enabled);
    assert!(!cmu.le_clock);
    assert!(!cmu.rtc_clock);
    assert_eq!(cmu.rtc_presc, 0);
}

#[test]
fn new_register_file_is_zero_and_unwritten() {
    let regs = GpioRegs::new();
    assert_eq!(regs.read(reg(Port::B, RegKind::ModeL)), 0);
    assert_eq!(regs.read(reg(Port::F, RegKind::PinLockN)), 0);
    assert!(regs.write_log().is_empty());
}

#[test]
fn data_out_writes_act_on_data_out() {
    let mut regs = GpioRegs::new();
    let dout = reg(Port::C, RegKind::Dout);
    regs.write(dout, 0b1010);
    regs.write(reg(Port::C, RegKind::DoutSet), 0b0101);
    assert_eq!(regs.read(dout), 0b1111);
    regs.write(reg(Port::C, RegKind::DoutClr), 0b0011);
    assert_eq!(regs.read(dout), 0b1100);
    regs.write(reg(Port::C, RegKind::DoutTgl), 0b0110);
    assert_eq!(regs.read(dout), 0b1010);
    assert_eq!(regs.read(reg(Port::B, RegKind::Dout)), 0);
    assert_eq!(regs.write_log().len(), 4);
}

#[test]
fn split_push_pull_b7_writes_high_nibble_of_model() {
    let (gpio, pins, mut regs) = setup();
    let _p = gpio.split::<Pin<_, PushPull>>(pins.b7, &mut regs);
    assert_eq!(regs.read(reg(Port::B, RegKind::ModeL)), 0x4000_0000);
    assert_eq!(
        regs.write_log(),
        vec![RegWrite { reg: reg(Port::B, RegKind::ModeL), value: 0x4000_0000 }]
    );
}

#[test]
fn split_b8_uses_modeh_slot_zero() {
    let (gpio, pins, mut regs) = setup();
    let _p = gpio.split::<Pin<_, WiredAnd>>(pins.b8, &mut regs);
    assert_eq!(regs.read(reg(Port::B, RegKind::ModeH)), 0x0000_0008);
    assert_eq!(regs.read(reg(Port::B, RegKind::ModeL)), 0);
}

#[test]
fn every_mode_writes_its_code_and_keeps_other_fields() {
    let cases: Vec<(Mode, u32)> = vec![
        (Mode::Disabled, 0),
        (Mode::DisabledPullUp, 0),
        (Mode::NoFilter, 1),
        (Mode::WithFilter, 1),
        (Mode::PullDown, 2),
        (Mode::PullUp, 2),
        (Mode::PullDownWithFilter, 3),
        (Mode::PullupWithFilter, 3),
        (Mode::PushPull, 4),
        (Mode::PushPullDrive, 5),
        (Mode::WiredOr, 6),
        (Mode::WiredOrPullDown, 7),
        (Mode::WiredAnd, 8),
        (Mode::WiredAndWithFilter, 9),
        (Mode::WiredAndPullUp, 10),
        (Mode::WiredAndPullUpWithFilter, 11),
        (Mode::WiredAndDrive, 12),
        (Mode::WiredAndDriveWithFilter, 13),
        (Mode::WiredAndDrivePullUp, 14),
        (Mode::WiredAndDrivePullUpWithFilter, 15),
    ];
    for (mode, code) in cases {
        assert_eq!(mode.code(), code);
    }
    let (gpio, pins, mut regs) = setup();
    let modeh = reg(Port::B, RegKind::ModeH);
    regs.write(modeh, 0xffff_ffff);
    let p = gpio.split::<Pin<_, WiredAndDrivePullUp>>(pins.b11, &mut regs);
    // B11 is slot 3 of MODEH.
    assert_eq!(regs.read(modeh), 0xffff_efff);
    let p = p.into_mode::<PushPullDrive>(&mut regs);
    assert_eq!(regs.read(modeh), 0xffff_5fff);
    let p = p.into_mode::<WiredOr>(&mut regs);
    assert_eq!(regs.read(modeh), 0xffff_6fff);
    let p = p.into_mode::<WiredOrPullDown>(&mut regs);
    assert_eq!(regs.read(modeh), 0xffff_7fff);
    let p = p.into_mode::<WiredAndWithFilter>(&mut regs);
    assert_eq!(regs.read(modeh), 0xffff_9fff);
    let p = p.into_mode::<WiredAndPullUp>(&mut regs);
    assert_eq!(regs.read(modeh), 0xffff_afff);
    let p = p.into_mode::<WiredAndPullUpWithFilter>(&mut regs);
    assert_eq!(regs.read(modeh), 0xffff_bfff);
    let p = p.into_mode::<WiredAndDrive>(&mut regs);
    assert_eq!(regs.read(modeh), 0xffff_cfff);
    let p = p.into_mode::<WiredAndDriveWithFilter>(&mut regs);
    assert_eq!(regs.read(modeh), 0xffff_dfff);
    let p = p.into_mode::<WiredAndDrivePullUpWithFilter>(&mut regs);
    assert_eq!(regs.read(modeh), 0xffff_ffff);
    let p = p.into_mode::<NoFilter>(&mut regs);
    assert_eq!(regs.read(modeh), 0xffff_1fff);
    let p = p.into_mode::<PullDownWithFilter>(&mut regs);
    assert_eq!(regs.read(modeh), 0xffff_3fff);
    let _p = p.into_mode::<Disabled>(&mut regs);
    assert_eq!(regs.read(modeh), 0xffff_0fff);
}

#[test]
fn input_modes_write_the_mode_field_alone() {
    let (gpio, pins, mut regs) = setup();
    let dout = reg(Port::F, RegKind::Dout);
    regs.write(dout, 0b10);
    let model = reg(Port::F, RegKind::ModeL);
    let p = gpio.split::<Pin<_, PullUp>>(pins.f1, &mut regs);
    assert_eq!(regs.read(model), 0x0000_0020);
    assert_eq!(regs.write_log()[1], RegWrite { reg: model, value: 0x0000_0020 });
    let p = p.into_mode::<PullDown>(&mut regs);
    assert_eq!(regs.read(model), 0x0000_0020);
    let p = p.into_mode::<WithFilter>(&mut regs);
    assert_eq!(regs.read(model), 0x0000_0010);
    let p = p.into_mode::<PullupWithFilter>(&mut regs);
    assert_eq!(regs.read(model), 0x0000_0030);
    let p = p.into_mode::<PullDownWithFilter>(&mut regs);
    assert_eq!(regs.read(model), 0x0000_0030);
    let _p = p.into_mode::<NoFilter>(&mut regs);
    assert_eq!(regs.read(model), 0x0000_0010);
    let log = regs.write_log();
    assert_eq!(log.len(), 7);
    assert!(log[1..].iter().all(|w| w.reg == model));
    assert_eq!(regs.read(dout), 0b10);
}

#[test]
fn disabled_pull_up_makes_two_writes_in_order() {
    let (gpio, pins, mut regs) = setup();
    let _p = gpio.split::<Pin<_, DisabledPullUp>>(pins.c15, &mut regs);
    assert_eq!(
        regs.write_log(),
        vec![
            RegWrite { reg: reg(Port::C, RegKind::ModeH), value: 0 },
            RegWrite { reg: reg(Port::C, RegKind::DoutSet), value: 1 << 15 },
        ]
    );
    assert_eq!(regs.read(reg(Port::C, RegKind::DoutSet)), 0x8000);
    assert_eq!(regs.read(reg(Port::C, RegKind::Dout)), 0x8000);
}

#[test]
fn disabled_without_pull_up_makes_one_write() {
    let (gpio, pins, mut regs) = setup();
    let p = gpio.split::<Pin<_, PushPull>>(pins.a0, &mut regs);
    let _p = p.into_mode::<Disabled>(&mut regs);
    assert_eq!(regs.write_log().len(), 2);
    assert_eq!(regs.read(reg(Port::A, RegKind::ModeL)), 0);
    assert_eq!(regs.read(reg(Port::A, RegKind::DoutSet)), 0);
    assert_eq!(regs.read(reg(Port::A, RegKind::Dout)), 0);
}

#[test]
fn set_high_then_low_write_set_then_clear() {
    let (gpio, pins, mut regs) = setup();
    let dout = reg(Port::B, RegKind::Dout);
    regs.write(dout, 0x0000_0180);
    let mut p = gpio.split::<Pin<_, OpenDrain>>(pins.b7, &mut regs);
    let before = regs.write_log().len();
    p.set_high(&mut regs);
    assert_eq!(regs.read(dout), 0x0000_0180);
    p.set_low(&mut regs);
    let log = regs.write_log();
    assert_eq!(log.len(), before + 2);
    assert_eq!(log[before], RegWrite { reg: reg(Port::B, RegKind::DoutSet), value: 0x80 });
    assert_eq!(log[before + 1], RegWrite { reg: reg(Port::B, RegKind::DoutClr), value: 0x80 });
    assert!(log[1..].iter().all(|w| w.reg.kind != RegKind::Dout && w.reg.kind != RegKind::DoutTgl));
    assert_eq!(regs.read(dout), 0x0000_0100);
}

#[test]
fn set_high_twice_writes_the_same_bit() {
    let (gpio, pins, mut regs) = setup();
    let mut p = gpio.split::<Pin<_, PushPull>>(pins.f2, &mut regs);
    p.set_high(&mut regs);
    p.set_high(&mut regs);
    assert_eq!(regs.read(reg(Port::F, RegKind::DoutSet)), 0x4);
    assert_eq!(regs.read(reg(Port::F, RegKind::Dout)), 0x4);
    assert_eq!(regs.write_log().len(), 3);
}

#[test]
fn pins_of_one_port_keep_to_their_own_bits() {
    let (gpio, pins, mut regs) = setup();
    let dout = reg(Port::B, RegKind::Dout);
    let mut b7 = gpio.split::<Pin<_, PushPull>>(pins.b7, &mut regs);
    let mut b8 = gpio.split::<Pin<_, PushPull>>(pins.b8, &mut regs);
    b7.set_high(&mut regs);
    assert_eq!(regs.read(reg(Port::B, RegKind::DoutSet)), 1 << 7);
    b8.set_high(&mut regs);
    assert_eq!(regs.read(reg(Port::B, RegKind::DoutSet)), 1 << 8);
    assert_eq!(regs.read(dout), (1 << 7) | (1 << 8));
    b8.set_low(&mut regs);
    assert_eq!(regs.read(reg(Port::B, RegKind::DoutClr)), 1 << 8);
    assert_eq!(regs.read(dout), 1 << 7);
    assert_eq!(regs.read(reg(Port::B, RegKind::ModeL)), 0x4000_0000);
    assert_eq!(regs.read(reg(Port::B, RegKind::ModeH)), 0x0000_0004);
}

#[test]
fn transition_of_one_pin_keeps_neighbour_mode() {
    let (gpio, pins, mut regs) = setup();
    let _e12 = gpio.split::<Pin<_, WiredAndPullUp>>(pins.e12, &mut regs);
    let modeh = reg(Port::E, RegKind::ModeH);
    assert_eq!(regs.read(modeh), 0x000a_0000);
    let e13 = gpio.split::<Pin<_, PushPull>>(pins.e13, &mut regs);
    assert_eq!(regs.read(modeh), 0x004a_0000);
    let _e13 = e13.into_mode::<DisabledPullUp>(&mut regs);
    assert_eq!(regs.read(modeh), 0x000a_0000);
    assert_eq!(regs.read(reg(Port::E, RegKind::DoutSet)), 1 << 13);
    assert_eq!(regs.read(reg(Port::E, RegKind::Dout)), 1 << 13);
}

#[test]
fn pin_ids_and_mode_tags() {
    assert_eq!(B8::loc().port, Port::B);
    assert_eq!(B8::loc().number, 8);
    assert_eq!(C15::loc().number, 15);
    assert_eq!(DisabledPullUp::mode(), Mode::DisabledPullUp);
    assert_eq!(WiredAnd::mode(), Mode::WiredAnd);
    assert_eq!(PullupWithFilter::mode(), Mode::PullupWithFilter);
    assert_eq!(PullDown::mode().code(), 2);
}
