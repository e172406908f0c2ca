//! Physical pins, the signal roles they can fill, and the closed capability
//! relation between the two.
//!
//! A pin either can or cannot serve a given controller role; the relation is
//! a fixed table. Role binding is validated once, when a value is
//! constructed, so an invalid pin/role pair is rejected before any register
//! programming is reachable.

use vstd::prelude::*;

verus! {

/// GPIO ports that carry controller signals.
#[derive(Clone, Copy, PartialEq, Eq, Structural, Debug)]
pub enum GpioPort {
    B,
    C,
    D,
    E,
    F,
    G,
    H,
    I,
}

/// Identity of a physical pin: its port and its line on that port (0..=15).
#[derive(Clone, Copy, PartialEq, Eq, Structural, Debug)]
pub struct PinId {
    pub port: GpioPort,
    pub line: u8,
}

/// Slew-rate setting of a pin's output driver.
#[derive(Clone, Copy, PartialEq, Eq, Structural, Debug)]
pub enum PinSpeed {
    Low,
    Medium,
    High,
    VeryHigh,
}

/// A physical pin together with its electrical state.
///
/// The pin is assumed to be already bound to the controller's alternate
/// function by the caller; this crate only adjusts slew rate and pull-up.
#[derive(Clone, Copy, PartialEq, Eq, Structural, Debug)]
pub struct Pin {
    pub id: PinId,
    pub speed: PinSpeed,
    pub pull_up: bool,
}

impl Pin {
    /// The same pin configured for controller use: high-speed slew rate,
    /// internal pull-up disabled, identity unchanged.
    pub open spec fn prepared(self) -> Pin {
        Pin { id: self.id, speed: PinSpeed::High, pull_up: false }
    }

    /// Configures the pin's electrical characteristics for controller use.
    /// Idempotent; the pin's identity is untouched.
    pub fn prepare(self) -> (r: Pin)
        ensures
            r == self.prepared(),
    {
        Pin { id: self.id, speed: PinSpeed::High, pull_up: false }
    }
}

/// Controller signal roles a pin may fill. Indexed roles carry the line
/// number within the role (address line 0..=12, data line 0..=31, byte
/// enable 0..=3, bank select 0..=1); clock-enable and chip-select carry the
/// memory bank they serve (0 or 1).
#[derive(Clone, Copy, PartialEq, Eq, Structural, Debug)]
pub enum SignalRole {
    AddressLine(u8),
    DataLine(u8),
    ByteEnableLine(u8),
    BankSelect(u8),
    ClockEnable(u8),
    ChipSelect(u8),
    WriteEnable,
    Clock,
    RowStrobe,
    ColumnStrobe,
}

/// The one pin that can carry address line `i`:
/// lines 0..=5 sit on PF0..=PF5, 6..=9 on PF12..=PF15, 10..=12 on PG0..=PG2.
pub open spec fn address_line_id(i: int) -> PinId {
    if i < 6 {
        PinId { port: GpioPort::F, line: i as u8 }
    } else if i < 10 {
        PinId { port: GpioPort::F, line: (i + 6) as u8 }
    } else {
        PinId { port: GpioPort::G, line: (i - 10) as u8 }
    }
}

/// The one pin that can carry data line `i`.
pub open spec fn data_line_id(i: int) -> PinId {
    if i == 0 {
        PinId { port: GpioPort::D, line: 14 }
    } else if i == 1 {
        PinId { port: GpioPort::D, line: 15 }
    } else if i == 2 {
        PinId { port: GpioPort::D, line: 0 }
    } else if i == 3 {
        PinId { port: GpioPort::D, line: 1 }
    } else if i < 13 {
        PinId { port: GpioPort::E, line: (i + 3) as u8 }
    } else if i < 16 {
        PinId { port: GpioPort::D, line: (i - 5) as u8 }
    } else if i < 24 {
        PinId { port: GpioPort::H, line: (i - 8) as u8 }
    } else if i < 28 {
        PinId { port: GpioPort::I, line: (i - 24) as u8 }
    } else if i == 28 {
        PinId { port: GpioPort::I, line: 6 }
    } else if i == 29 {
        PinId { port: GpioPort::I, line: 7 }
    } else if i == 30 {
        PinId { port: GpioPort::I, line: 9 }
    } else {
        PinId { port: GpioPort::I, line: 10 }
    }
}

/// The one pin that can carry byte-enable line `i`.
pub open spec fn byte_enable_id(i: int) -> PinId {
    if i == 0 {
        PinId { port: GpioPort::E, line: 0 }
    } else if i == 1 {
        PinId { port: GpioPort::E, line: 1 }
    } else if i == 2 {
        PinId { port: GpioPort::I, line: 4 }
    } else {
        PinId { port: GpioPort::I, line: 5 }
    }
}

/// The one pin that can carry bank-select line `i` (PG4, PG5).
pub open spec fn bank_select_id(i: int) -> PinId {
    if i == 0 {
        PinId { port: GpioPort::G, line: 4 }
    } else {
        PinId { port: GpioPort::G, line: 5 }
    }
}

/// The closed capability relation: whether pin `id` can fill `role`.
/// Swappable roles (write-enable, clock-enable, chip-select) admit exactly
/// two pins; every other role admits exactly one.
pub open spec fn role_allows(role: SignalRole, id: PinId) -> bool {
    match role {
        SignalRole::AddressLine(i) => i < 13 && id == address_line_id(i as int),
        SignalRole::DataLine(i) => i < 32 && id == data_line_id(i as int),
        SignalRole::ByteEnableLine(i) => i < 4 && id == byte_enable_id(i as int),
        SignalRole::BankSelect(i) => i < 2 && id == bank_select_id(i as int),
        SignalRole::ClockEnable(b) => {
            ||| b == 0 && (id == (PinId { port: GpioPort::H, line: 2 }) || id == (PinId {
                port: GpioPort::C,
                line: 3,
            }))
            ||| b == 1 && (id == (PinId { port: GpioPort::H, line: 7 }) || id == (PinId {
                port: GpioPort::B,
                line: 5,
            }))
        },
        SignalRole::ChipSelect(b) => {
            ||| b == 0 && (id == (PinId { port: GpioPort::H, line: 3 }) || id == (PinId {
                port: GpioPort::C,
                line: 2,
            }))
            ||| b == 1 && (id == (PinId { port: GpioPort::H, line: 6 }) || id == (PinId {
                port: GpioPort::B,
                line: 6,
            }))
        },
        SignalRole::WriteEnable => id == (PinId { port: GpioPort::C, line: 0 }) || id == (PinId {
            port: GpioPort::H,
            line: 5,
        }),
        SignalRole::Clock => id == (PinId { port: GpioPort::G, line: 8 }),
        SignalRole::RowStrobe => id == (PinId { port: GpioPort::F, line: 11 }),
        SignalRole::ColumnStrobe => id == (PinId { port: GpioPort::G, line: 15 }),
    }
}

/// Identity of the pin carrying address line `i`.
pub fn address_line_pin(i: u8) -> (id: PinId)
    requires
        i < 13,
    ensures
        id == address_line_id(i as int),
{
    if i < 6 {
        PinId { port: GpioPort::F, line: i }
    } else if i < 10 {
        PinId { port: GpioPort::F, line: i + 6 }
    } else {
        PinId { port: GpioPort::G, line: i - 10 }
    }
}

/// Identity of the pin carrying data line `i`.
pub fn data_line_pin(i: u8) -> (id: PinId)
    requires
        i < 32,
    ensures
        id == data_line_id(i as int),
{
    if i == 0 {
        PinId { port: GpioPort::D, line: 14 }
    } else if i == 1 {
        PinId { port: GpioPort::D, line: 15 }
    } else if i == 2 {
        PinId { port: GpioPort::D, line: 0 }
    } else if i == 3 {
        PinId { port: GpioPort::D, line: 1 }
    } else if i < 13 {
        PinId { port: GpioPort::E, line: i + 3 }
    } else if i < 16 {
        PinId { port: GpioPort::D, line: i - 5 }
    } else if i < 24 {
        PinId { port: GpioPort::H, line: i - 8 }
    } else if i < 28 {
        PinId { port: GpioPort::I, line: i - 24 }
    } else if i == 28 {
        PinId { port: GpioPort::I, line: 6 }
    } else if i == 29 {
        PinId { port: GpioPort::I, line: 7 }
    } else if i == 30 {
        PinId { port: GpioPort::I, line: 9 }
    } else {
        PinId { port: GpioPort::I, line: 10 }
    }
}

/// Identity of the pin carrying byte-enable line `i`.
pub fn byte_enable_pin(i: u8) -> (id: PinId)
    requires
        i < 4,
    ensures
        id == byte_enable_id(i as int),
{
    if i == 0 {
        PinId { port: GpioPort::E, line: 0 }
    } else if i == 1 {
        PinId { port: GpioPort::E, line: 1 }
    } else if i == 2 {
        PinId { port: GpioPort::I, line: 4 }
    } else {
        PinId { port: GpioPort::I, line: 5 }
    }
}

/// Identity of the pin carrying bank-select line `i`.
pub fn bank_select_pin(i: u8) -> (id: PinId)
    requires
        i < 2,
    ensures
        id == bank_select_id(i as int),
{
    if i == 0 {
        PinId { port: GpioPort::G, line: 4 }
    } else {
        PinId { port: GpioPort::G, line: 5 }
    }
}

/// Decides the capability relation at run time.
pub fn check_role(role: SignalRole, id: PinId) -> (b: bool)
    ensures
        b == role_allows(role, id),
{
    match role {
        SignalRole::AddressLine(i) => i < 13 && id == address_line_pin(i),
        SignalRole::DataLine(i) => i < 32 && id == data_line_pin(i),
        SignalRole::ByteEnableLine(i) => i < 4 && id == byte_enable_pin(i),
        SignalRole::BankSelect(i) => i < 2 && id == bank_select_pin(i),
        SignalRole::ClockEnable(b) => {
            (b == 0 && (id == PinId { port: GpioPort::H, line: 2 } || id == PinId {
                port: GpioPort::C,
                line: 3,
            })) || (b == 1 && (id == PinId { port: GpioPort::H, line: 7 } || id == PinId {
                port: GpioPort::B,
                line: 5,
            }))
        },
        SignalRole::ChipSelect(b) => {
            (b == 0 && (id == PinId { port: GpioPort::H, line: 3 } || id == PinId {
                port: GpioPort::C,
                line: 2,
            })) || (b == 1 && (id == PinId { port: GpioPort::H, line: 6 } || id == PinId {
                port: GpioPort::B,
                line: 6,
            }))
        },
        SignalRole::WriteEnable => {
            id == PinId { port: GpioPort::C, line: 0 } || id == PinId {
                port: GpioPort::H,
                line: 5,
            }
        },
        SignalRole::Clock => id == PinId { port: GpioPort::G, line: 8 },
        SignalRole::RowStrobe => id == PinId { port: GpioPort::F, line: 11 },
        SignalRole::ColumnStrobe => id == PinId { port: GpioPort::G, line: 15 },
    }
}

/// A pin bound to a signal role it is allowed to fill. The only way to
/// obtain one is through [`RolePin::new`], which checks the capability
/// relation, so a `RolePin` is evidence that the wiring is valid.
pub struct RolePin {
    role: SignalRole,
    pin: Pin,
}

impl RolePin {
    /// The role this pin was bound to.
    pub closed spec fn role(&self) -> SignalRole {
        self.role
    }

    /// The bound pin.
    pub closed spec fn pin(&self) -> Pin {
        self.pin
    }

    /// The binding respects the capability relation.
    pub open spec fn wf(&self) -> bool {
        role_allows(self.role(), self.pin().id)
    }

    /// Binds `pin` to `role`, rejecting any pair outside the capability
    /// relation.
    pub fn new(role: SignalRole, pin: Pin) -> (r: Option<RolePin>)
        ensures
            r is Some <==> role_allows(role, pin.id),
            r matches Some(rp) ==> rp.role() == role && rp.pin() == pin && rp.wf(),
    {
        if check_role(role, pin.id) {
            Some(RolePin { role, pin })
        } else {
            None
        }
    }

    /// Configures the bound pin's electrical characteristics for controller
    /// use; the binding itself is untouched.
    pub fn prepare_pins(self) -> (r: RolePin)
        ensures
            r.role() == self.role(),
            r.pin() == self.pin().prepared(),
            self.wf() ==> r.wf(),
    {
        RolePin { role: self.role, pin: self.pin.prepare() }
    }
}

/// Prepares every pin of a group for controller use, in place of its
/// original: same length, each pin at position `i` the prepared form of the
/// pin that stood there.
pub fn prepare_all(pins: Vec<Pin>) -> (r: Vec<Pin>)
    ensures
        r@.len() == pins@.len(),
        forall|i: int| 0 <= i < pins@.len() ==> r@[i] == (#[trigger] pins@[i]).prepared(),
{
    let mut r: Vec<Pin> = Vec::new();
    let mut i: usize = 0;
    while i < pins.len()
        invariant
            i <= pins@.len(),
            r@.len() == i,
            forall|j: int| 0 <= j < i ==> r@[j] == (#[trigger] pins@[j]).prepared(),
        decreases pins@.len() - i,
    {
        r.push(pins[i].prepare());
        i = i + 1;
    }
    r
}

/// Two distinct address lines can never be served by the same pin.
pub proof fn lemma_address_lines_distinct(i: int, j: int)
    requires
        0 <= i < 13,
        0 <= j < 13,
        i != j,
    ensures
        address_line_id(i) != address_line_id(j),
{
}

/// Two distinct data lines can never be served by the same pin.
pub proof fn lemma_data_lines_distinct(i: int, j: int)
    requires
        0 <= i < 32,
        0 <= j < 32,
        i != j,
    ensures
        data_line_id(i) != data_line_id(j),
{
}

} // verus!
