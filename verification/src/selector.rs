//! Selection of the vendor-command interface.
//!
//! A composite device exposes several HID interfaces under one vendor and
//! product id. Only one of them accepts vendor commands, so an interface is
//! selected by vendor id, product id and interface number together, and only
//! when exactly one interface of the enumeration has all three.

use vstd::prelude::*;
use crate::error::{NotFoundReason, SyncError};

verus! {

/// Vendor id of the keyboard.
pub const TARGET_VID: u16 = 0x0c45;

/// Product id of the keyboard.
pub const TARGET_PID: u16 = 0x8009;

/// Number of the interface of the keyboard that accepts vendor commands.
pub const TARGET_INTERFACE: i32 = 3;

/// The identity of the interface that accepts vendor commands.
#[derive(Clone, Copy, Debug, PartialEq, Eq)]
pub struct DeviceIdentity {
    pub vendor_id: u16,
    pub product_id: u16,
    pub interface_number: i32,
}

/// One HID interface as the host's enumeration describes it.
#[derive(Clone, Debug, PartialEq, Eq)]
pub struct InterfaceDescriptor {
    pub vendor_id: u16,
    pub product_id: u16,
    pub interface_number: i32,
    pub usage_page: u16,
    pub usage: u16,
    pub product_string: Option<String>,
    pub manufacturer_string: Option<String>,
    pub serial_number: Option<String>,
    pub path: String,
}

impl DeviceIdentity {
    /// The interface belongs to the device: vendor and product ids agree.
    pub open spec fn same_device(self, interface: InterfaceDescriptor) -> bool {
        interface.vendor_id == self.vendor_id && interface.product_id == self.product_id
    }

    /// The interface is the one asked for: all three fields agree.
    pub open spec fn matches(self, interface: InterfaceDescriptor) -> bool {
        self.same_device(interface) && interface.interface_number == self.interface_number
    }

    /// Some interface of the enumeration belongs to the device.
    pub open spec fn device_present(self, interfaces: Seq<InterfaceDescriptor>) -> bool {
        exists|j: int| 0 <= j < interfaces.len() && self.same_device(#[trigger] interfaces[j])
    }

    /// No interface of the enumeration matches.
    pub open spec fn no_match(self, interfaces: Seq<InterfaceDescriptor>) -> bool {
        forall|j: int| 0 <= j < interfaces.len() ==> !self.matches(#[trigger] interfaces[j])
    }

    /// The interface at `i` matches, and no other does.
    pub open spec fn unique_match(self, interfaces: Seq<InterfaceDescriptor>, i: int) -> bool {
        &&& 0 <= i < interfaces.len()
        &&& self.matches(interfaces[i])
        &&& forall|j: int|
            0 <= j < interfaces.len() && self.matches(#[trigger] interfaces[j]) ==> j == i
    }

    /// Two different interfaces of the enumeration match.
    pub open spec fn ambiguous(self, interfaces: Seq<InterfaceDescriptor>) -> bool {
        exists|i: int, j: int|
            0 <= i < j < interfaces.len() && self.matches(#[trigger] interfaces[i])
                && self.matches(#[trigger] interfaces[j])
    }

    /// Exactly one interface of the enumeration matches.
    pub open spec fn has_unique_match(self, interfaces: Seq<InterfaceDescriptor>) -> bool {
        exists|i: int| self.unique_match(interfaces, i)
    }

    /// Why nothing is selected from an enumeration without a single match:
    /// several interfaces match, or the device shows other interfaces only, or
    /// it is not there at all.
    pub open spec fn not_found_reason(self, interfaces: Seq<InterfaceDescriptor>) -> NotFoundReason {
        if self.ambiguous(interfaces) {
            NotFoundReason::Ambiguous
        } else if self.device_present(interfaces) {
            NotFoundReason::WrongInterface
        } else {
            NotFoundReason::Absent
        }
    }

    /// What selection answers for an enumeration: the place of the single
    /// match, or `DeviceNotFound` with the reason why there is none.
    pub open spec fn selection(self, interfaces: Seq<InterfaceDescriptor>) -> Result<
        int,
        SyncError,
    > {
        if self.has_unique_match(interfaces) {
            Ok(choose|i: int| self.unique_match(interfaces, i))
        } else {
            Err(SyncError::DeviceNotFound(self.not_found_reason(interfaces)))
        }
    }

    /// The identity of the keyboard's vendor-command interface.
    pub fn target() -> (identity: DeviceIdentity)
        ensures
            identity == (DeviceIdentity {
                vendor_id: 0x0c45,
                product_id: 0x8009,
                interface_number: 3,
            }),
    {
        DeviceIdentity {
            vendor_id: TARGET_VID,
            product_id: TARGET_PID,
            interface_number: TARGET_INTERFACE,
        }
    }

    /// Tells whether the interface belongs to the device.
    pub fn is_same_device(&self, interface: &InterfaceDescriptor) -> (yes: bool)
        ensures
            yes == self.same_device(*interface),
    {
        interface.vendor_id == self.vendor_id && interface.product_id == self.product_id
    }

    /// Tells whether the interface is the one asked for.
    pub fn is_match(&self, interface: &InterfaceDescriptor) -> (yes: bool)
        ensures
            yes == self.matches(*interface),
    {
        self.is_same_device(interface) && interface.interface_number == self.interface_number
    }

    /// Selects the single interface of the enumeration that has the vendor id,
    /// the product id and the interface number of this identity, and returns
    /// its place in the enumeration.
    ///
    /// With no match, or with more than one, nothing is selected: the error
    /// says whether the device is absent, present on other interfaces only, or
    /// matched more than once.
    pub fn select_interface(&self, interfaces: &Vec<InterfaceDescriptor>) -> (selected: Result<
        usize,
        SyncError,
    >)
        ensures
            match selected {
                Ok(i) => self.unique_match(interfaces@, i as int),
                Err(e) => !self.has_unique_match(interfaces@) && e == SyncError::DeviceNotFound(
                    self.not_found_reason(interfaces@),
                ),
            },
            self.selection(interfaces@) == match selected {
                Ok(i) => Ok::<int, SyncError>(i as int),
                Err(e) => Err::<int, SyncError>(e),
            },
    {
        let mut first: Option<usize> = None;
        let mut second: Option<usize> = None;
        let mut present = false;
        let mut k: usize = 0;
        while k < interfaces.len()
            invariant
                k <= interfaces@.len(),
                present <==> exists|j: int|
                    0 <= j < k && self.same_device(#[trigger] interfaces@[j]),
                first is None ==> forall|j: int|
                    0 <= j < k ==> !self.matches(#[trigger] interfaces@[j]),
                first matches Some(a) ==> a < k && self.matches(interfaces@[a as int])
                    && forall|j: int| 0 <= j < a ==> !self.matches(#[trigger] interfaces@[j]),
                first is None ==> second is None,
                second is None ==> forall|j: int|
                    0 <= j < k && self.matches(#[trigger] interfaces@[j]) ==> first == Some(
                        j as usize,
                    ),
                second matches Some(b) ==> b < k && self.matches(interfaces@[b as int])
                    && first.is_some() && first != Some(b),
            decreases interfaces@.len() - k,
        {
            let interface = &interfaces[k];
            if self.is_same_device(interface) {
                present = true;
            }
            if self.is_match(interface) {
                if first.is_none() {
                    first = Some(k);
                } else if second.is_none() {
                    second = Some(k);
                }
            }
            k += 1;
        }
        match (first, second) {
            (Some(a), None) => {
                proof {
                    self.lemma_unique_match_is_selected(interfaces@, a as int);
                }
                Ok(a)
            },
            (Some(a), Some(b)) => {
                proof {
                    if a < b {
                        assert(self.matches(interfaces@[a as int]) && self.matches(
                            interfaces@[b as int],
                        ));
                    } else {
                        assert(self.matches(interfaces@[b as int]) && self.matches(
                            interfaces@[a as int],
                        ));
                    }
                    assert(self.ambiguous(interfaces@));
                    self.lemma_no_single_match_is_not_found(interfaces@);
                }
                Err(SyncError::DeviceNotFound(NotFoundReason::Ambiguous))
            },
            _ => {
                proof {
                    assert(self.no_match(interfaces@));
                    self.lemma_no_single_match_is_not_found(interfaces@);
                }
                if present {
                    Err(SyncError::DeviceNotFound(NotFoundReason::WrongInterface))
                } else {
                    Err(SyncError::DeviceNotFound(NotFoundReason::Absent))
                }
            },
        }
    }

    /// When exactly one interface has all three identifying fields, that
    /// interface is the selection, wherever it stands and whatever else the
    /// enumeration holds.
    pub proof fn lemma_unique_match_is_selected(self, interfaces: Seq<InterfaceDescriptor>, i: int)
        requires
            self.unique_match(interfaces, i),
        ensures
            self.selection(interfaces) == Ok::<int, SyncError>(i),
            !self.ambiguous(interfaces),
    {
        let chosen = choose|c: int| self.unique_match(interfaces, c);
        assert(chosen == i);
    }

    /// When no interface has all three identifying fields, or more than one
    /// has, the selection is `DeviceNotFound`: vendor and product ids alone
    /// select nothing, and neither does one match among several.
    pub proof fn lemma_no_single_match_is_not_found(self, interfaces: Seq<InterfaceDescriptor>)
        requires
            self.no_match(interfaces) || self.ambiguous(interfaces),
        ensures
            !self.has_unique_match(interfaces),
            self.selection(interfaces) == Err::<int, SyncError>(
                SyncError::DeviceNotFound(self.not_found_reason(interfaces)),
            ),
            self.no_match(interfaces) ==> self.not_found_reason(interfaces)
                != NotFoundReason::Ambiguous,
            self.ambiguous(interfaces) ==> self.not_found_reason(interfaces)
                == NotFoundReason::Ambiguous,
    {
        if self.has_unique_match(interfaces) {
            let c = choose|c: int| self.unique_match(interfaces, c);
            if self.ambiguous(interfaces) {
                let (a, b) = choose|a: int, b: int|
                    0 <= a < b < interfaces.len() && self.matches(#[trigger] interfaces[a])
                        && self.matches(#[trigger] interfaces[b]);
                assert(a == c && b == c);
            }
        }
    }

    /// Every enumeration has a single match, no match, or several: selection
    /// is decided for all of them.
    pub proof fn lemma_selection_is_total(self, interfaces: Seq<InterfaceDescriptor>)
        ensures
            self.has_unique_match(interfaces) || self.no_match(interfaces) || self.ambiguous(
                interfaces,
            ),
    {
        if !self.no_match(interfaces) {
            let a = choose|a: int|
                0 <= a < interfaces.len() && self.matches(#[trigger] interfaces[a]);
            if !self.unique_match(interfaces, a) {
                let b = choose|b: int|
                    0 <= b < interfaces.len() && self.matches(#[trigger] interfaces[b]) && b != a;
                if a < b {
                    assert(self.matches(interfaces[a]) && self.matches(interfaces[b]));
                } else {
                    assert(self.matches(interfaces[b]) && self.matches(interfaces[a]));
                }
            }
        }
    }
}

} // verus!
