//! Synthetic injector planning: from a logical key, an up/down flag and
//! the platform's scan-code mapping, compute the platform events to
//! submit so the injection is indistinguishable from hardware input.
//!
//! The primary path is a scan-code event (what most applications read
//! as real hardware); a virtual-key event is always submitted as well,
//! for applications that read virtual-key codes instead. The platform
//! calls themselves are made by the embedding layer; this module only
//! decides what to submit.

use vstd::prelude::*;

use crate::keys;
use crate::keys::KeyId;

verus! {

/// A scan-code-based synthetic key event.
#[derive(Clone, Copy, PartialEq, Eq, Structural, Debug)]
pub struct ScanCodeEvent {
    pub scan_code: u16,
    /// Set when the scan code carries an extended-key prefix.
    pub extended: bool,
    pub key_up: bool,
}

/// A virtual-key-code-based synthetic key event.
#[derive(Clone, Copy, PartialEq, Eq, Structural, Debug)]
pub struct VirtualKeyEvent {
    pub virtual_key: u16,
    pub key_up: bool,
}

/// The platform events to submit for one synthetic key transition.
#[derive(Clone, Copy, PartialEq, Eq, Structural, Debug)]
pub struct InjectionPlan {
    /// The primary, scan-code path; absent when the platform reported
    /// no scan-code mapping for the key.
    pub scan: Option<ScanCodeEvent>,
    /// The unconditional virtual-key fallback; absent only for keys
    /// with no virtual-key mapping, which cannot be injected at all.
    pub fallback: Option<VirtualKeyEvent>,
}

/// Plans the injection of one key transition. `scan_mapping` is the
/// platform's translation of the key's virtual key to a scan code with
/// extended-key prefix (zero when the platform has no translation); it
/// is only read when the key has a virtual-key mapping.
pub fn plan_injection(key: KeyId, key_up: bool, scan_mapping: u32) -> (r: InjectionPlan)
    ensures
        keys::spec_virtual_key(key) is None ==> r == (InjectionPlan {
            scan: Option::None,
            fallback: Option::None,
        }),
        (keys::spec_virtual_key(key) matches Some(vk) ==> {
            &&& r.fallback == Some((VirtualKeyEvent { virtual_key: vk, key_up }))
            &&& (scan_mapping == 0 ==> r.scan is None)
            &&& (scan_mapping != 0 ==> r.scan == Some(
                (ScanCodeEvent {
                    scan_code: (scan_mapping & 0xFF) as u16,
                    extended: (scan_mapping & 0xFF00) == 0xE000 || (scan_mapping & 0xFF00)
                        == 0xE100,
                    key_up,
                }),
            ))
        }),
{
    let vk = match keys::key_to_virtual_key(key) {
        Some(vk) => vk,
        Option::None => {
            return InjectionPlan { scan: Option::None, fallback: Option::None };
        },
    };
    let scan = if scan_mapping != 0 {
        assert((scan_mapping & 0xFF) < 0x100) by (bit_vector);
        let scan_code = (scan_mapping & 0xFF) as u16;
        let prefix = scan_mapping & 0xFF00;
        let extended = prefix == 0xE000 || prefix == 0xE100;
        Some(ScanCodeEvent { scan_code, extended, key_up })
    } else {
        Option::None
    };
    InjectionPlan { scan, fallback: Some(VirtualKeyEvent { virtual_key: vk, key_up }) }
}

} // verus!
