//! The driver capability and the fixed-capacity driver registry.
//!
//! Every device driver implements [`DriverDescriptor`]; a boot-time
//! [`DriversManager`] records the drivers in registration order and runs
//! their phased initialization.  The registry is a bounded sequence: its
//! capacity is the number of drivers this board declares, and registering
//! past it is a programming error the caller must rule out.

use crate::console::{ConsoleId, SystemConsole};
use crate::gpio::{GpioView, GPIO};
use crate::uart;
use crate::uart::{spec_uart_init, spec_uart_pins, UartView, UART1};
use vstd::prelude::*;

verus! {

/// The ordered initialization stages.  Every `Hardware`-phase driver's
/// `init` completes before any `Protocol`-phase driver's `init` begins.
#[derive(Clone, Copy, Debug, PartialEq, Eq, Structural)]
pub enum InitPhase {
    /// Bare peripheral bring-up, with no dependency on other drivers.
    Hardware,
    /// Bring-up that may rely on `Hardware`-phase drivers and may publish
    /// system-wide capabilities, such as the console.
    Protocol,
}

/// The capability contract every device driver implements.
pub trait DriverDescriptor {
    /// Runs the driver's one-time initialization.  Called at most once per
    /// boot, in phase order, by the driver registry.
    fn init(&mut self) -> Result<(), &'static str>;
}

/// Which of the board's drivers a registry record stands for.  The board
/// declares a closed set of drivers, so the registry names them by this tag
/// and the initialization dispatch is total over it.
#[derive(Clone, Copy, Debug, PartialEq, Eq, Structural)]
pub enum DriverId {
    /// The GPIO pin-configuration driver.
    Gpio,
    /// The MiniUART serial driver.
    Uart,
}

/// One registered driver: a human-readable description, the driver it
/// stands for, and the phase in which it initializes.  Immutable once
/// registered.
#[derive(Clone, Copy)]
pub struct DeviceDriver {
    /// Human-readable name, used in fatal initialization reports.
    pub description: &'static str,
    /// The driver this record stands for.
    pub descriptor: DriverId,
    /// When the driver's `init` may safely run.
    pub phase: InitPhase,
}

/// How many drivers this board declares; the registry's fixed capacity.
pub const NUM_DRIVERS: usize = 2;

/// Fixed-capacity registry of device drivers.  Slots fill strictly in
/// registration order; there is no removal or reuse.
pub struct DriversManager {
    drivers: Vec<DeviceDriver>,
}

impl DriversManager {
    /// The registered drivers, in registration order.
    pub closed spec fn view(&self) -> Seq<DeviceDriver> {
        self.drivers@
    }

    /// The registry never outgrows its declared capacity.
    pub open spec fn wf(&self) -> bool {
        self@.len() <= NUM_DRIVERS
    }

    /// An empty registry.
    pub fn new() -> (r: Self)
        ensures
            r@ == Seq::<DeviceDriver>::empty(),
            r.wf(),
    {
        DriversManager { drivers: Vec::new() }
    }

    /// The boot-time registry value.  The kernel constructs exactly one,
    /// at the start of boot, and threads it through the initialization call
    /// chain.
    pub fn instance() -> (r: Self)
        ensures
            r@ == Seq::<DeviceDriver>::empty(),
            r.wf(),
    {
        Self::new()
    }

    /// How many drivers have been registered.
    pub fn num_registered(&self) -> (n: usize)
        ensures
            n == self@.len(),
    {
        self.drivers.len()
    }

    /// The driver record at position `i` in registration order.
    pub fn driver_at(&self, i: usize) -> (d: DeviceDriver)
        requires
            i < self@.len(),
        ensures
            d == self@[i as int],
    {
        self.drivers[i]
    }

    /// Appends `driver` to the registry.  Registering more drivers than the
    /// declared capacity is a programming error, fatal to the caller, and
    /// is ruled out here; registration past this call keeps every earlier
    /// record and its order.
    pub fn register_driver(&mut self, driver: DeviceDriver)
        requires
            old(self).wf(),
            old(self)@.len() < NUM_DRIVERS,
        ensures
            final(self)@ == old(self)@.push(driver),
            final(self).wf(),
    {
        self.drivers.push(driver);
    }

    /// Initializes the registered drivers.  With no phase given, every
    /// driver's `init` runs once, in registration order.  With a phase
    /// given, the registry first tallies how many registered drivers fall
    /// in each phase — so a phase with no drivers costs no pass over the
    /// list — and then initializes only the drivers of that phase, in
    /// registration order.  Any initialization failure is fatal; for this
    /// board's closed driver set, every `init` provably succeeds.
    pub fn init_drivers(
        &self,
        hw: &mut Peripherals,
        console: &mut SystemConsole,
        init_phase: Option<InitPhase>,
    )
        requires
            old(hw).gpio@.wf(),
        ensures
            sys_view(*final(hw), *final(console)) == run_drivers(
                sys_view(*old(hw), *old(console)),
                self@,
                init_phase,
            ),
            final(hw).gpio@.wf(),
    {
        let ghost s0 = sys_view(*hw, *console);
        match init_phase {
            None => {
                let n = self.drivers.len();
                for i in 0..n
                    invariant
                        n == self@.len(),
                        hw.gpio@.wf(),
                        sys_view(*hw, *console) == run_drivers(
                            s0,
                            self@.take(i as int),
                            None::<InitPhase>,
                        ),
                {
                    let driver = self.drivers[i];
                    dispatch_init(driver, hw, console);
                    proof {
                        assert(self@.take(i + 1).drop_last() =~= self@.take(i as int));
                    }
                }
                proof {
                    assert(self@.take(n as int) =~= self@);
                }
            },
            Some(phase) => {
                // Tally the registered drivers per phase, so phases with no
                // driver at all are skipped without another traversal.
                let mut hardware_count: usize = 0;
                let mut protocol_count: usize = 0;
                let n = self.drivers.len();
                for i in 0..n
                    invariant
                        n == self@.len(),
                        hardware_count == drivers_in_phase(
                            self@.take(i as int),
                            InitPhase::Hardware,
                        ).len(),
                        protocol_count == drivers_in_phase(
                            self@.take(i as int),
                            InitPhase::Protocol,
                        ).len(),
                        hardware_count <= i,
                        protocol_count <= i,
                {
                    let driver = self.drivers[i];
                    proof {
                        assert(self@.take(i + 1).drop_last() =~= self@.take(i as int));
                        lemma_drivers_in_phase_len(self@.take(i + 1), InitPhase::Hardware);
                        lemma_drivers_in_phase_len(self@.take(i + 1), InitPhase::Protocol);
                    }
                    match driver.phase {
                        InitPhase::Hardware => {
                            hardware_count = hardware_count + 1;
                        },
                        InitPhase::Protocol => {
                            protocol_count = protocol_count + 1;
                        },
                    }
                }
                proof {
                    assert(self@.take(n as int) =~= self@);
                }
                let num_drivers = match phase {
                    InitPhase::Hardware => hardware_count,
                    InitPhase::Protocol => protocol_count,
                };
                if num_drivers > 0 {
                    for i in 0..n
                        invariant
                            n == self@.len(),
                            hw.gpio@.wf(),
                            sys_view(*hw, *console) == run_drivers(
                                s0,
                                self@.take(i as int),
                                Some(phase),
                            ),
                    {
                        let driver = self.drivers[i];
                        if phase_matches(driver.phase, phase) {
                            dispatch_init(driver, hw, console);
                        }
                        proof {
                            assert(self@.take(i + 1).drop_last() =~= self@.take(i as int));
                        }
                    }
                    proof {
                        assert(self@.take(n as int) =~= self@);
                    }
                } else {
                    proof {
                        lemma_run_drivers_empty_phase(s0, self@, phase);
                    }
                }
            },
        }
    }
}

/// The board's peripheral driver instances, owned together so the phased
/// initialization can thread them through the drivers' cross-dependencies.
pub struct Peripherals {
    /// The GPIO pin-configuration driver.
    pub gpio: GPIO,
    /// The MiniUART serial driver.
    pub uart: UART1,
}

/// The abstract state the driver initialization protocol acts on: both
/// peripheral blocks and the active console.
#[verifier::ext_equal]
pub struct SystemView {
    /// The GPIO block's contents.
    pub gpio: GpioView,
    /// The MiniUART block's contents.
    pub uart: UartView,
    /// The currently active console.
    pub console: ConsoleId,
}

/// The abstract state of the given peripherals and console indirection.
pub open spec fn sys_view(hw: Peripherals, console: SystemConsole) -> SystemView {
    SystemView { gpio: hw.gpio@, uart: hw.uart@, console: console@ }
}

/// What one driver's initialization does to the system state.  The GPIO
/// block needs no priming, so its driver changes nothing; the MiniUART
/// driver configures its pins through the GPIO driver, programs its own
/// block, and publishes itself as the system console.
pub open spec fn driver_effect(s: SystemView, id: DriverId) -> SystemView {
    match id {
        DriverId::Gpio => s,
        DriverId::Uart => SystemView {
            gpio: spec_uart_pins(s.gpio),
            uart: spec_uart_init(s.uart),
            console: ConsoleId::Uart,
        },
    }
}

/// Whether a driver tagged `phase` is due when `selected` was asked for.
pub open spec fn spec_phase_matches(phase: InitPhase, selected: Option<InitPhase>) -> bool {
    match selected {
        Option::None => true,
        Option::Some(p) => phase == p,
    }
}

/// Whether a driver tagged `phase` is due when `selected` was asked for.
fn phase_matches(phase: InitPhase, selected: InitPhase) -> (b: bool)
    ensures
        b == spec_phase_matches(phase, Some(selected)),
{
    phase == selected
}

/// What initializing the drivers `ds` does to the system state, in order:
/// each driver whose phase the selection admits applies its effect, the
/// rest apply nothing.
pub open spec fn run_drivers(
    s: SystemView,
    ds: Seq<DeviceDriver>,
    selected: Option<InitPhase>,
) -> SystemView
    decreases ds.len(),
{
    if ds.len() == 0 {
        s
    } else {
        let prev = run_drivers(s, ds.drop_last(), selected);
        if spec_phase_matches(ds.last().phase, selected) {
            driver_effect(prev, ds.last().descriptor)
        } else {
            prev
        }
    }
}

/// The subsequence of `ds` tagged `phase`, in registration order.
pub open spec fn drivers_in_phase(ds: Seq<DeviceDriver>, phase: InitPhase) -> Seq<DeviceDriver>
    decreases ds.len(),
{
    if ds.len() == 0 {
        Seq::empty()
    } else if ds.last().phase == phase {
        drivers_in_phase(ds.drop_last(), phase).push(ds.last())
    } else {
        drivers_in_phase(ds.drop_last(), phase)
    }
}

/// The per-phase tally never exceeds the number of registered drivers.
proof fn lemma_drivers_in_phase_len(ds: Seq<DeviceDriver>, phase: InitPhase)
    ensures
        drivers_in_phase(ds, phase).len() <= ds.len(),
    decreases ds.len(),
{
    if ds.len() > 0 {
        lemma_drivers_in_phase_len(ds.drop_last(), phase);
    }
}

/// A phase with no registered drivers initializes nothing: running it
/// leaves the system state exactly as it was.
pub proof fn lemma_run_drivers_empty_phase(s: SystemView, ds: Seq<DeviceDriver>, phase: InitPhase)
    requires
        drivers_in_phase(ds, phase).len() == 0,
    ensures
        run_drivers(s, ds, Some(phase)) == s,
    decreases ds.len(),
{
    if ds.len() > 0 {
        lemma_drivers_in_phase_len(ds.drop_last(), phase);
        lemma_run_drivers_empty_phase(s, ds.drop_last(), phase);
    }
}

/// Initializing with a phase selected touches exactly the drivers tagged
/// with that phase: it equals initializing the phase's subsequence of the
/// registry, in registration order, and no other driver applies any
/// effect.
pub proof fn lemma_run_drivers_phase_filter(
    s: SystemView,
    ds: Seq<DeviceDriver>,
    phase: InitPhase,
)
    ensures
        run_drivers(s, ds, Some(phase)) == run_drivers(
            s,
            drivers_in_phase(ds, phase),
            None::<InitPhase>,
        ),
    decreases ds.len(),
{
    if ds.len() > 0 {
        lemma_run_drivers_phase_filter(s, ds.drop_last(), phase);
        if ds.last().phase == phase {
            let fprev = drivers_in_phase(ds.drop_last(), phase);
            assert(fprev.push(ds.last()).drop_last() =~= fprev);
        }
    }
}

/// Running one driver sequence after another equals running their
/// concatenation.
proof fn lemma_run_drivers_concat(s: SystemView, a: Seq<DeviceDriver>, b: Seq<DeviceDriver>)
    ensures
        run_drivers(run_drivers(s, a, None::<InitPhase>), b, None::<InitPhase>) == run_drivers(
            s,
            a + b,
            None::<InitPhase>,
        ),
    decreases b.len(),
{
    if b.len() == 0 {
        assert(a + b =~= a);
    } else {
        lemma_run_drivers_concat(s, a, b.drop_last());
        assert((a + b).drop_last() =~= a + b.drop_last());
        assert((a + b).last() == b.last());
    }
}

/// The only ordering the initialization protocol guarantees, and it is
/// total: initializing the `Hardware` phase and then the `Protocol` phase
/// runs every `Hardware`-phase driver's `init` before any
/// `Protocol`-phase driver's, each group in registration order.
pub proof fn lemma_run_drivers_phase_order(s: SystemView, ds: Seq<DeviceDriver>)
    ensures
        run_drivers(run_drivers(s, ds, Some(InitPhase::Hardware)), ds, Some(InitPhase::Protocol))
            == run_drivers(
            s,
            drivers_in_phase(ds, InitPhase::Hardware) + drivers_in_phase(
                ds,
                InitPhase::Protocol,
            ),
            None::<InitPhase>,
        ),
{
    lemma_run_drivers_phase_filter(s, ds, InitPhase::Hardware);
    let after_hw = run_drivers(s, drivers_in_phase(ds, InitPhase::Hardware), None::<InitPhase>);
    lemma_run_drivers_phase_filter(after_hw, ds, InitPhase::Protocol);
    lemma_run_drivers_concat(
        s,
        drivers_in_phase(ds, InitPhase::Hardware),
        drivers_in_phase(ds, InitPhase::Protocol),
    );
}

/// Runs one registered driver's initialization.  A failure would be fatal
/// to the whole boot; for this board's closed driver set, every `init`
/// provably succeeds, so the fatal path is unreachable.
fn dispatch_init(driver: DeviceDriver, hw: &mut Peripherals, console: &mut SystemConsole)
    requires
        old(hw).gpio@.wf(),
    ensures
        sys_view(*final(hw), *final(console)) == driver_effect(
            sys_view(*old(hw), *old(console)),
            driver.descriptor,
        ),
        final(hw).gpio@.wf(),
{
    match driver.descriptor {
        DriverId::Gpio => {
            match hw.gpio.init() {
                Ok(_) => (),
                Err(_) => vstd::pervasive::unreached(),
            }
        },
        DriverId::Uart => {
            match uart::init_device(&mut hw.gpio, &mut hw.uart, console) {
                Ok(_) => (),
                Err(_) => vstd::pervasive::unreached(),
            }
        },
    }
    proof {
        assert(sys_view(*hw, *console) =~= driver_effect(
            sys_view(*old(hw), *old(console)),
            driver.descriptor,
        ));
    }
}

} // verus!
