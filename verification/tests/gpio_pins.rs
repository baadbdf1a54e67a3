//! GPIO pin configuration: field placement and the untouched-neighbour
//! guarantee on concrete register contents.

use soc_bringup::gpio::{self, PinFnSpec, PinPullSpec};

#[test]
fn set_function_places_three_bit_field() {
    let mut g = gpio::device();
    g.set_function(14, PinFnSpec::Alt5);
    // Pin 14 lives in fsel1 at bit offset (14 % 10) * 3 = 12; Alt5 encodes
    // as 0b010.
    assert_eq!(g.fsel_value(1), 2 << 12);
    assert_eq!(g.fsel_value(0), 0);
    assert_eq!(g.fsel_value(2), 0);
    assert_eq!(g.pull_value(0), 0);
}

#[test]
fn set_function_leaves_other_pins_of_same_register() {
    let mut g = gpio::device();
    g.set_function(10, PinFnSpec::Output);
    g.set_function(19, PinFnSpec::Alt3);
    g.set_function(14, PinFnSpec::Alt5);
    // Pins 10, 14 and 19 share fsel1; each keeps exactly its own field.
    assert_eq!(g.fsel_value(1), 1 | (2 << 12) | (7 << 27));
}

#[test]
fn set_function_overwrites_previous_value() {
    let mut g = gpio::device();
    g.set_function(14, PinFnSpec::Alt5);
    g.set_function(14, PinFnSpec::Input);
    assert_eq!(g.fsel_value(1), 0);
}

#[test]
fn set_function_last_pin() {
    let mut g = gpio::device();
    g.set_function(57, PinFnSpec::Output);
    // Pin 57 lives in fsel5 at bit offset (57 % 10) * 3 = 21.
    assert_eq!(g.fsel_value(5), 1 << 21);
}

#[test]
fn set_pull_places_two_bit_field() {
    let mut g = gpio::device();
    g.set_pull(14, PinPullSpec::Down);
    // Pin 14 lives in pull_cntrl0 at bit offset (14 % 16) * 2 = 28; Down
    // encodes as 0b10.
    assert_eq!(g.pull_value(0), 2 << 28);
    assert_eq!(g.pull_value(1), 0);
    assert_eq!(g.fsel_value(1), 0);
}

#[test]
fn set_pull_leaves_other_pins_of_same_register() {
    let mut g = gpio::device();
    g.set_pull(0, PinPullSpec::Up);
    g.set_pull(14, PinPullSpec::Down);
    g.set_pull(15, PinPullSpec::Down);
    assert_eq!(g.pull_value(0), 1 | (2 << 28) | (2 << 30));
}

#[test]
fn set_pull_last_pin() {
    let mut g = gpio::device();
    g.set_pull(57, PinPullSpec::Up);
    // Pin 57 lives in pull_cntrl3 at bit offset (57 % 16) * 2 = 18.
    assert_eq!(g.pull_value(3), 1 << 18);
}

#[test]
fn pull_and_function_do_not_disturb_each_other() {
    let mut g = gpio::device();
    g.set_function(3, PinFnSpec::Alt0);
    g.set_pull(3, PinPullSpec::Up);
    assert_eq!(g.fsel_value(0), 4 << 9);
    assert_eq!(g.pull_value(0), 1 << 6);
}
