//! The controller's address and data buses.
//!
//! One variant per supported width; a variant can only be constructed with
//! exactly the pins of that width, each on the one line it can serve, so a
//! constructed bus carries every constituent pin exactly once.

use vstd::prelude::*;

use crate::pins::{
    address_line_id, address_line_pin, data_line_id, data_line_pin, lemma_address_lines_distinct,
    lemma_data_lines_distinct, prepare_all, Pin,
};
use crate::registers::MWID_A;

verus! {

/// The controller's address bus: 11, 12 or 13 lines, pin `i` on address
/// line `i`.
pub enum SDRAMAddressBus {
    AddressBus11 { pins: Vec<Pin> },
    AddressBus12 { pins: Vec<Pin> },
    AddressBus13 { pins: Vec<Pin> },
}

impl SDRAMAddressBus {
    /// The constituent pins, lowest address line first.
    pub open spec fn pins(&self) -> Seq<Pin> {
        match self {
            SDRAMAddressBus::AddressBus11 { pins } => pins@,
            SDRAMAddressBus::AddressBus12 { pins } => pins@,
            SDRAMAddressBus::AddressBus13 { pins } => pins@,
        }
    }

    /// How many address lines the variant drives.
    pub open spec fn line_count(&self) -> int {
        match self {
            SDRAMAddressBus::AddressBus11 { .. } => 11,
            SDRAMAddressBus::AddressBus12 { .. } => 12,
            SDRAMAddressBus::AddressBus13 { .. } => 13,
        }
    }

    /// The bus holds one pin per line of its width, each on the one pin
    /// that can serve that line.
    pub open spec fn wf(&self) -> bool {
        &&& self.pins().len() == self.line_count()
        &&& forall|i: int|
            0 <= i < self.pins().len() ==> (#[trigger] self.pins()[i]).id == address_line_id(i)
    }

    /// Builds the bus whose width matches `pins`, rejecting any pin count
    /// other than 11, 12 or 13 and any pin on the wrong line.
    pub fn new(pins: Vec<Pin>) -> (r: Option<SDRAMAddressBus>)
        ensures
            r is Some <==> ((pins@.len() == 11 || pins@.len() == 12 || pins@.len() == 13)
                && (forall|i: int|
                0 <= i < pins@.len() ==> (#[trigger] pins@[i]).id == address_line_id(i))),
            r matches Some(bus) ==> bus.wf() && bus.pins() == pins@ && bus.line_count()
                == pins@.len(),
    {
        let n = pins.len();
        if !(n == 11 || n == 12 || n == 13) {
            return None;
        }
        let mut i: usize = 0;
        while i < n
            invariant
                i <= n,
                n == pins@.len(),
                n == 11 || n == 12 || n == 13,
                forall|j: int| 0 <= j < i ==> (#[trigger] pins@[j]).id == address_line_id(j),
            decreases n - i,
        {
            if !(pins[i].id == address_line_pin(i as u8)) {
                return None;
            }
            i = i + 1;
        }
        if n == 11 {
            Some(SDRAMAddressBus::AddressBus11 { pins })
        } else if n == 12 {
            Some(SDRAMAddressBus::AddressBus12 { pins })
        } else {
            Some(SDRAMAddressBus::AddressBus13 { pins })
        }
    }

    /// Configures every constituent pin for controller use; the variant and
    /// the pins' identities are untouched.
    pub fn prepare_pins(self) -> (r: Self)
        ensures
            r.line_count() == self.line_count(),
            r.pins().len() == self.pins().len(),
            forall|i: int|
                0 <= i < self.pins().len() ==> r.pins()[i] == (#[trigger] self.pins()[i]).prepared(),
            self.wf() ==> r.wf(),
    {
        let r = match self {
            SDRAMAddressBus::AddressBus11 { pins } => SDRAMAddressBus::AddressBus11 {
                pins: prepare_all(pins),
            },
            SDRAMAddressBus::AddressBus12 { pins } => SDRAMAddressBus::AddressBus12 {
                pins: prepare_all(pins),
            },
            SDRAMAddressBus::AddressBus13 { pins } => SDRAMAddressBus::AddressBus13 {
                pins: prepare_all(pins),
            },
        };
        proof {
            if self.wf() {
                assert forall|i: int|
                    0 <= i < r.pins().len() implies (#[trigger] r.pins()[i]).id
                    == address_line_id(i) by {
                    assert(r.pins()[i] == self.pins()[i].prepared());
                }
            }
        }
        r
    }
}

/// A constructed address bus carries one pin per line of its width and no
/// pin twice.
pub proof fn lemma_address_bus_pins_exact(bus: &SDRAMAddressBus)
    requires
        bus.wf(),
    ensures
        bus.pins().len() == bus.line_count(),
        forall|i: int, j: int|
            0 <= i < j < bus.pins().len() ==> bus.pins()[i].id != bus.pins()[j].id,
{
    assert forall|i: int, j: int|
        0 <= i < j < bus.pins().len() implies bus.pins()[i].id != bus.pins()[j].id by {
        assert(bus.pins()[i].id == address_line_id(i));
        assert(bus.pins()[j].id == address_line_id(j));
        lemma_address_lines_distinct(i, j);
    }
}

/// The controller's data bus: 8, 16 or 32 lines, pin `i` on data line `i`.
pub enum SDRAMDataBus {
    DataBus8 { pins: Vec<Pin> },
    DataBus16 { pins: Vec<Pin> },
    DataBus32 { pins: Vec<Pin> },
}

impl SDRAMDataBus {
    /// The constituent pins, lowest data line first.
    pub open spec fn pins(&self) -> Seq<Pin> {
        match self {
            SDRAMDataBus::DataBus8 { pins } => pins@,
            SDRAMDataBus::DataBus16 { pins } => pins@,
            SDRAMDataBus::DataBus32 { pins } => pins@,
        }
    }

    /// How many data lines the variant drives.
    pub open spec fn line_count(&self) -> int {
        match self {
            SDRAMDataBus::DataBus8 { .. } => 8,
            SDRAMDataBus::DataBus16 { .. } => 16,
            SDRAMDataBus::DataBus32 { .. } => 32,
        }
    }

    /// The memory-width register code matching the variant.
    pub open spec fn spec_mwid(&self) -> MWID_A {
        match self {
            SDRAMDataBus::DataBus8 { .. } => MWID_A::BITS8,
            SDRAMDataBus::DataBus16 { .. } => MWID_A::BITS16,
            SDRAMDataBus::DataBus32 { .. } => MWID_A::BITS32,
        }
    }

    /// The bus holds one pin per line of its width, each on the one pin
    /// that can serve that line.
    pub open spec fn wf(&self) -> bool {
        &&& self.pins().len() == self.line_count()
        &&& forall|i: int|
            0 <= i < self.pins().len() ==> (#[trigger] self.pins()[i]).id == data_line_id(i)
    }

    /// Builds the bus whose width matches `pins`, rejecting any pin count
    /// other than 8, 16 or 32 and any pin on the wrong line.
    pub fn new(pins: Vec<Pin>) -> (r: Option<SDRAMDataBus>)
        ensures
            r is Some <==> ((pins@.len() == 8 || pins@.len() == 16 || pins@.len() == 32)
                && (forall|i: int|
                0 <= i < pins@.len() ==> (#[trigger] pins@[i]).id == data_line_id(i))),
            r matches Some(bus) ==> bus.wf() && bus.pins() == pins@ && bus.line_count()
                == pins@.len(),
    {
        let n = pins.len();
        if !(n == 8 || n == 16 || n == 32) {
            return None;
        }
        let mut i: usize = 0;
        while i < n
            invariant
                i <= n,
                n == pins@.len(),
                n == 8 || n == 16 || n == 32,
                forall|j: int| 0 <= j < i ==> (#[trigger] pins@[j]).id == data_line_id(j),
            decreases n - i,
        {
            if !(pins[i].id == data_line_pin(i as u8)) {
                return None;
            }
            i = i + 1;
        }
        if n == 8 {
            Some(SDRAMDataBus::DataBus8 { pins })
        } else if n == 16 {
            Some(SDRAMDataBus::DataBus16 { pins })
        } else {
            Some(SDRAMDataBus::DataBus32 { pins })
        }
    }

    /// Configures every constituent pin for controller use; the variant,
    /// its width code and the pins' identities are untouched.
    pub fn prepare_pins(self) -> (r: Self)
        ensures
            r.line_count() == self.line_count(),
            r.spec_mwid() == self.spec_mwid(),
            r.pins().len() == self.pins().len(),
            forall|i: int|
                0 <= i < self.pins().len() ==> r.pins()[i] == (#[trigger] self.pins()[i]).prepared(),
            self.wf() ==> r.wf(),
    {
        let r = match self {
            SDRAMDataBus::DataBus8 { pins } => SDRAMDataBus::DataBus8 { pins: prepare_all(pins) },
            SDRAMDataBus::DataBus16 { pins } => SDRAMDataBus::DataBus16 { pins: prepare_all(pins) },
            SDRAMDataBus::DataBus32 { pins } => SDRAMDataBus::DataBus32 { pins: prepare_all(pins) },
        };
        proof {
            if self.wf() {
                assert forall|i: int|
                    0 <= i < r.pins().len() implies (#[trigger] r.pins()[i]).id == data_line_id(i) by {
                    assert(r.pins()[i] == self.pins()[i].prepared());
                }
            }
        }
        r
    }

    /// The memory-width register code matching the variant.
    pub fn mwid(&self) -> (w: MWID_A)
        ensures
            w == self.spec_mwid(),
    {
        match self {
            SDRAMDataBus::DataBus8 { .. } => MWID_A::BITS8,
            SDRAMDataBus::DataBus16 { .. } => MWID_A::BITS16,
            SDRAMDataBus::DataBus32 { .. } => MWID_A::BITS32,
        }
    }
}

/// A constructed data bus carries one pin per line of its width and no pin
/// twice.
pub proof fn lemma_data_bus_pins_exact(bus: &SDRAMDataBus)
    requires
        bus.wf(),
    ensures
        bus.pins().len() == bus.line_count(),
        forall|i: int, j: int|
            0 <= i < j < bus.pins().len() ==> bus.pins()[i].id != bus.pins()[j].id,
{
    assert forall|i: int, j: int|
        0 <= i < j < bus.pins().len() implies bus.pins()[i].id != bus.pins()[j].id by {
        assert(bus.pins()[i].id == data_line_id(i));
        assert(bus.pins()[j].id == data_line_id(j));
        lemma_data_lines_distinct(i, j);
    }
}

} // verus!
