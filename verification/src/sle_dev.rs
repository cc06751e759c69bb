//! The controllers of a machine and what they are doing.

use vstd::arithmetic::power2::pow2;
use vstd::prelude::*;
use vstd::slice::slice_subrange;

use crate::bytes;
use crate::errno::Errno;
use crate::sle_dli::{SleBus, SleControllerInfo};
use crate::slots;
use crate::text;

verus! {

/// The device is in the registry.
pub const SLE_DEV_REGISTERED: u32 = 0x01;

/// The device is ready.
pub const SLE_DEV_UP: u32 = 0x02;

/// The device is being set up.
pub const SLE_DEV_SETUP: u32 = 0x04;

/// The device is being taken out.
pub const SLE_DEV_UNREGISTERING: u32 = 0x08;

/// The device advertises.
pub const SLE_DEV_ADVERTISING: u32 = 0x10;

/// The device scans.
pub const SLE_DEV_SCANNING: u32 = 0x20;

/// The device has a connection.
pub const SLE_DEV_CONNECTED: u32 = 0x40;

/// The radio of the device is off.
pub const SLE_DEV_SUSPENDED: u32 = 0x80;

/// Bytes of a device name.
pub const SLE_DEV_NAME_LEN: usize = 16;

/// Most devices.
pub const SLE_DEV_MAX: usize = 16;

/// What a device has done so far.
#[derive(Clone, Copy, Debug)]
pub struct SleDevStats {
    /// Commands sent.
    pub cmd_tx: u64,
    /// Events received.
    pub evt_rx: u64,
    /// Bytes of data sent.
    pub data_tx_bytes: u64,
    /// Bytes of data received.
    pub data_rx_bytes: u64,
    /// Hardware errors.
    pub hw_errors: u32,
    /// Commands without an answer.
    pub cmd_timeouts: u32,
}

impl Default for SleDevStats {
    fn default() -> (r: Self)
        ensures
            r == (SleDevStats {
                cmd_tx: 0,
                evt_rx: 0,
                data_tx_bytes: 0,
                data_rx_bytes: 0,
                hw_errors: 0,
                cmd_timeouts: 0,
            }),
    {
        SleDevStats {
            cmd_tx: 0,
            evt_rx: 0,
            data_tx_bytes: 0,
            data_rx_bytes: 0,
            hw_errors: 0,
            cmd_timeouts: 0,
        }
    }
}

/// The name of device `id`: "sle" and its number.
pub open spec fn device_name(id: u16) -> Seq<u8> {
    seq![0x73u8, 0x6C, 0x65] + text::digits(id as nat)
}

/// Whether `n` is the length of `s` up to the first zero.
pub open spec fn ends_at(s: Seq<u8>, n: int) -> bool {
    &&& 0 <= n <= s.len()
    &&& forall|i: int| 0 <= i < n ==> s[i] != 0
    &&& n < s.len() ==> s[n] == 0
}

/// A controller.
#[derive(Clone, Copy, Debug)]
pub struct SleDev {
    /// Number.
    pub id: u16,
    /// Name, then zeros.
    pub name: [u8; 16],
    /// Bus.
    pub bus: SleBus,
    /// Address.
    pub addr: [u8; 6],
    /// What it is doing, as flags.
    pub flags: u32,
    /// Version of its firmware.
    pub fw_version: u32,
    /// Its features.
    pub features: u64,
    /// Its most connections.
    pub max_connections: u8,
    /// What it has done so far.
    pub stats: SleDevStats,
}

/// The flags once a device is set up.
pub open spec fn set_up(f: u32) -> u32 {
    (f & !SLE_DEV_SETUP) | (SLE_DEV_UP | SLE_DEV_REGISTERED)
}

/// The flags once a device is being taken out.
pub open spec fn taken_out(f: u32) -> u32 {
    (f | SLE_DEV_UNREGISTERING) & !SLE_DEV_UP
}

/// Whether a device of these flags is ready: it is up, and neither being taken out nor
/// suspended.
pub open spec fn ready(f: u32) -> bool {
    (f & SLE_DEV_UP != 0) && (f & (SLE_DEV_UNREGISTERING | SLE_DEV_SUSPENDED) == 0)
}

/// A device that was being set up is ready once that is done.
pub proof fn set_up_is_ready(f: u32)
    requires
        f & (SLE_DEV_UNREGISTERING | SLE_DEV_SUSPENDED) == 0,
    ensures
        ready(set_up(f)),
        set_up(f) & SLE_DEV_SETUP == 0,
        set_up(f) & SLE_DEV_REGISTERED != 0,
{
    assert(f & (SLE_DEV_UNREGISTERING | SLE_DEV_SUSPENDED) == 0 ==> (set_up(f) & SLE_DEV_UP != 0)
        && (set_up(f) & (SLE_DEV_UNREGISTERING | SLE_DEV_SUSPENDED) == 0) && (set_up(f)
        & SLE_DEV_SETUP == 0) && (set_up(f) & SLE_DEV_REGISTERED != 0)) by (bit_vector);
}

/// A device that is being taken out is not ready, whatever else it was doing.
pub proof fn taken_out_is_not_ready(f: u32)
    ensures
        !ready(taken_out(f)),
{
    assert(taken_out(f) & SLE_DEV_UP == 0) by (bit_vector);
}

/// A flag that was set is set, and one that was cleared is not.
pub proof fn flags_set_and_cleared(f: u32, flag: u32)
    requires
        flag != 0,
    ensures
        (f | flag) & flag != 0,
        (f & !flag) & flag == 0,
{
    assert(flag != 0 ==> (f | flag) & flag != 0 && (f & !flag) & flag == 0) by (bit_vector);
}

impl SleDev {
    /// Whether this is a fresh device of number `id`, being set up.
    pub open spec fn fresh(self, id: u16, info: SleControllerInfo) -> bool {
        &&& self.id == id
        &&& self.name@ =~= bytes::padded(device_name(id), 16)
        &&& self.bus == info.bus
        &&& self.addr@ == info.addr@
        &&& self.flags == SLE_DEV_SETUP
        &&& self.fw_version == info.fw_version
        &&& self.features == info.features
        &&& self.max_connections == info.max_connections
        &&& self.stats == (SleDevStats {
            cmd_tx: 0,
            evt_rx: 0,
            data_tx_bytes: 0,
            data_rx_bytes: 0,
            hw_errors: 0,
            cmd_timeouts: 0,
        })
    }

    /// The device of a controller, being set up.
    pub fn new(id: u16, info: &SleControllerInfo) -> (r: Self)
        ensures
            r.fresh(id, *info),
    {
        let mut text: Vec<u8> = vec![0x73u8, 0x6C, 0x65];
        let mut number = text::to_digits(id as u32);
        text.append(&mut number);
        assert(text@ == device_name(id));
        let name: [u8; 16] = bytes::to_array(text.as_slice());
        SleDev {
            id,
            name,
            bus: info.bus,
            addr: info.addr,
            flags: SLE_DEV_SETUP,
            fw_version: info.fw_version,
            features: info.features,
            max_connections: info.max_connections,
            stats: SleDevStats::default(),
        }
    }

    /// Number.
    pub fn id(&self) -> (r: u16)
        ensures
            r == self.id,
    {
        self.id
    }

    /// Name without the zeros.
    pub fn name(&self) -> (r: &[u8])
        ensures
            ends_at(self.name@, r@.len() as int),
            r@ == self.name@.take(r@.len() as int),
    {
        let mut end: usize = 0;
        while end < SLE_DEV_NAME_LEN && self.name[end] != 0
            invariant
                end <= SLE_DEV_NAME_LEN,
                forall|i: int| 0 <= i < end ==> self.name@[i] != 0,
            decreases SLE_DEV_NAME_LEN - end,
        {
            end = end + 1;
        }
        slice_subrange(&self.name, 0, end)
    }

    /// Bus.
    pub fn bus(&self) -> (r: SleBus)
        ensures
            r == self.bus,
    {
        self.bus
    }

    /// Address.
    pub fn addr(&self) -> (r: &[u8; 6])
        ensures
            *r == self.addr,
    {
        &self.addr
    }

    /// Version of its firmware.
    pub fn fw_version(&self) -> (r: u32)
        ensures
            r == self.fw_version,
    {
        self.fw_version
    }

    /// Its features.
    pub fn features(&self) -> (r: u64)
        ensures
            r == self.features,
    {
        self.features
    }

    /// Its most connections.
    pub fn max_connections(&self) -> (r: u8)
        ensures
            r == self.max_connections,
    {
        self.max_connections
    }

    /// Takes in address and version as the hardware told them.
    pub fn update_hw_info(&mut self, addr: [u8; 6], fw_version: u32)
        ensures
            *final(self) == (SleDev { addr, fw_version, ..*old(self) }),
    {
        self.addr = addr;
        self.fw_version = fw_version;
    }

    /// Whether one of the flags of `flag` is set.
    pub fn test_flag(&self, flag: u32) -> (r: bool)
        ensures
            r == (self.flags & flag != 0),
    {
        self.flags & flag != 0
    }

    /// Sets flags and returns those before.
    pub fn set_flag(&mut self, flag: u32) -> (r: u32)
        ensures
            r == old(self).flags,
            *final(self) == (SleDev { flags: old(self).flags | flag, ..*old(self) }),
    {
        let f = self.flags;
        self.flags = f | flag;
        f
    }

    /// Clears flags and returns those before.
    pub fn clear_flag(&mut self, flag: u32) -> (r: u32)
        ensures
            r == old(self).flags,
            *final(self) == (SleDev { flags: old(self).flags & !flag, ..*old(self) }),
    {
        let f = self.flags;
        self.flags = f & !flag;
        f
    }

    /// The flags.
    pub fn flags(&self) -> (r: u32)
        ensures
            r == self.flags,
    {
        self.flags
    }

    /// The device is set up.
    pub fn setup_complete(&mut self)
        ensures
            *final(self) == (SleDev { flags: set_up(old(self).flags), ..*old(self) }),
    {
        self.flags = (self.flags & !SLE_DEV_SETUP) | (SLE_DEV_UP | SLE_DEV_REGISTERED);
    }

    /// Whether the device is ready.
    pub fn is_up(&self) -> (r: bool)
        ensures
            r == ready(self.flags),
    {
        let f = self.flags;
        (f & SLE_DEV_UP != 0) && (f & (SLE_DEV_UNREGISTERING | SLE_DEV_SUSPENDED) == 0)
    }

    /// The device is being taken out.
    pub fn begin_unregister(&mut self)
        ensures
            *final(self) == (SleDev { flags: taken_out(old(self).flags), ..*old(self) }),
    {
        self.flags = (self.flags | SLE_DEV_UNREGISTERING) & !SLE_DEV_UP;
    }
}

/// The name of a fresh device is "sle" and its number.
pub proof fn fresh_name(d: SleDev, id: u16, info: SleControllerInfo, n: int)
    requires
        d.fresh(id, info),
        ends_at(d.name@, n),
    ensures
        d.name@.take(n) == device_name(id),
{
    reveal_with_fuel(text::digits, 5);
    text::digits_are_digits(id as nat);
    let s = device_name(id);
    assert(s.len() <= 8);
    assert forall|i: int| 0 <= i < s.len() implies #[trigger] s[i] != 0 by {}
    assert forall|i: int| 0 <= i < s.len() implies d.name@[i] == s[i] by {}
    if n < s.len() {
        assert(s[n] != 0);
    }
    if n > s.len() {
        assert(d.name@[s.len() as int] == 0);
    }
    assert(d.name@.take(n) =~= s);
}

/// The taken slots as the bits of a number.
pub open spec fn mask<T>(s: Seq<Option<T>>, n: int) -> int
    decreases n,
{
    if n <= 0 {
        0
    } else {
        mask(s, n - 1) + if s[n - 1] is Some {
            pow2((n - 1) as nat) as int
        } else {
            0
        }
    }
}

/// Whether `i` is the first free slot.
pub open spec fn first_free<T>(s: Seq<Option<T>>, i: int) -> bool {
    &&& 0 <= i < s.len()
    &&& s[i] is None
    &&& forall|j: int| 0 <= j < i ==> (#[trigger] s[j]) is Some
}

/// The devices that there are, each in the slot of its number.
pub struct SleDevRegistry {
    slots: [Option<SleDev>; 16],
}

impl View for SleDevRegistry {
    type V = Seq<Option<SleDev>>;

    closed spec fn view(&self) -> Seq<Option<SleDev>> {
        self.slots@
    }
}

impl SleDevRegistry {
    /// There are 16 slots.
    pub proof fn size(self)
        ensures
            self@.len() == SLE_DEV_MAX,
    {
    }

    /// No devices.
    pub fn new() -> (r: Self)
        ensures
            r@ == Seq::new(16, |i: int| None::<SleDev>),
    {
        let r = SleDevRegistry {
            slots: [
                None,
                None,
                None,
                None,
                None,
                None,
                None,
                None,
                None,
                None,
                None,
                None,
                None,
                None,
                None,
                None,
            ],
        };
        assert(r@ =~= Seq::new(16, |i: int| None::<SleDev>));
        r
    }

    /// Adds the device of a controller in the first free slot, set up, and returns its
    /// number, or returns `ENOSPC` where no slot is free.
    pub fn register(&mut self, info: &SleControllerInfo) -> (r: Result<u16, Errno>)
        ensures
            match r {
                Ok(id) => {
                    &&& first_free(old(self)@, id as int)
                    &&& exists|d: SleDev| #[trigger]
                        d.fresh(id, *info) && final(self)@ == old(self)@.update(
                            id as int,
                            Some(SleDev { flags: set_up(SLE_DEV_SETUP), ..d }),
                        )
                },
                Err(e) => {
                    &&& e == Errno::ENOSPC
                    &&& forall|i: int| 0 <= i < 16 ==> (#[trigger] old(self)@[i]) is Some
                    &&& final(self)@ == old(self)@
                },
            },
    {
        let mut i: usize = 0;
        while i < SLE_DEV_MAX && self.slots[i].is_some()
            invariant
                i <= SLE_DEV_MAX,
                forall|j: int| 0 <= j < i ==> (#[trigger] self@[j]) is Some,
            decreases SLE_DEV_MAX - i,
        {
            i = i + 1;
        }
        if i >= SLE_DEV_MAX {
            return Err(Errno::ENOSPC);
        }
        let id = i as u16;
        let mut dev = SleDev::new(id, info);
        let ghost d = dev;
        dev.setup_complete();
        self.slots[i] = Some(dev);
        assert(d.fresh(id, *info));
        assert(self@ =~= old(self)@.update(
            id as int,
            Some(SleDev { flags: set_up(SLE_DEV_SETUP), ..d }),
        ));
        Ok(id)
    }

    /// Takes a device out, or returns `ENODEV` where there is none of that number.
    pub fn unregister(&mut self, id: u16) -> (r: Result<(), Errno>)
        ensures
            if id < SLE_DEV_MAX && old(self)@[id as int] is Some {
                r == Ok::<(), Errno>(()) && final(self)@ == old(self)@.update(id as int, None)
            } else {
                r == Err::<(), Errno>(Errno::ENODEV) && final(self)@ == old(self)@
            },
    {
        let idx = id as usize;
        if idx >= SLE_DEV_MAX || self.slots[idx].is_none() {
            return Err(Errno::ENODEV);
        }
        self.slots[idx] = None;
        Ok(())
    }

    /// The device of a number, if there is one.
    pub fn get(&self, id: u16) -> (r: Option<&SleDev>)
        ensures
            match r {
                Some(d) => id < SLE_DEV_MAX && self@[id as int] == Some(*d),
                None => id >= SLE_DEV_MAX || self@[id as int] is None,
            },
    {
        let idx = id as usize;
        if idx < SLE_DEV_MAX {
            match &self.slots[idx] {
                Some(d) => Some(d),
                None => None,
            }
        } else {
            None
        }
    }

    /// The device of a number, for changing.
    pub fn get_mut(&mut self, id: u16) -> (r: Option<&mut SleDev>)
        ensures
            match r {
                Some(d) => id < SLE_DEV_MAX && old(self)@[id as int] == Some(*d) && final(self)@
                    == old(self)@.update(id as int, Some(*final(d))),
                None => (id >= SLE_DEV_MAX || old(self)@[id as int] is None) && final(self)@ == old(
                    self,
                )@,
            },
    {
        let idx = id as usize;
        if idx < SLE_DEV_MAX {
            match &mut self.slots[idx] {
                Some(d) => Some(d),
                None => None,
            }
        } else {
            None
        }
    }

    /// Number of devices.
    pub fn count(&self) -> (r: usize)
        ensures
            r == slots::taken(self@, 16),
    {
        let mut n: usize = 0;
        let mut i: usize = 0;
        while i < SLE_DEV_MAX
            invariant
                i <= SLE_DEV_MAX,
                n <= i,
                n == slots::taken(self@, i as int),
            decreases SLE_DEV_MAX - i,
        {
            if self.slots[i].is_some() {
                n = n + 1;
            }
            i = i + 1;
        }
        n
    }

    /// The devices, in the order of their numbers.
    pub fn iter(&self) -> (r: Vec<SleDev>)
        ensures
            r@ == slots::held(self@),
    {
        let mut v: Vec<SleDev> = Vec::new();
        let mut i: usize = 0;
        while i < SLE_DEV_MAX
            invariant
                i <= SLE_DEV_MAX,
                v@ == slots::held(self@.take(i as int)),
            decreases SLE_DEV_MAX - i,
        {
            proof {
                let t = self@.take(i + 1);
                assert(t.drop_last() == self@.take(i as int));
                assert(t.last() == self@[i as int]);
            }
            if let Some(d) = self.slots[i] {
                v.push(d);
            }
            i = i + 1;
        }
        assert(self@.take(i as int) == self@);
        v
    }

    /// Takes in address and version of a device as the hardware told them.
    pub fn update_hw_info(&mut self, id: u16, addr: [u8; 6], fw_version: u32)
        ensures
            final(self)@ == (if id < SLE_DEV_MAX && old(self)@[id as int] is Some {
                old(self)@.update(
                    id as int,
                    Some(SleDev { addr, fw_version, ..old(self)@[id as int]->0 }),
                )
            } else {
                old(self)@
            }),
    {
        if let Some(dev) = self.get_mut(id) {
            dev.update_hw_info(addr, fw_version);
        }
    }

    /// The taken slots as the bits of a number.
    pub fn allocated_mask(&self) -> (r: u16)
        ensures
            r == mask(self@, 16),
    {
        let mut m: u16 = 0;
        let mut bit: u32 = 1;
        let mut i: usize = 0;
        proof {
            vstd::arithmetic::power2::lemma2_to64();
        }
        while i < SLE_DEV_MAX
            invariant
                i <= SLE_DEV_MAX,
                bit == pow2(i as nat),
                bit <= 0x1_0000,
                m < bit,
                m == mask(self@, i as int),
            decreases SLE_DEV_MAX - i,
        {
            proof {
                vstd::arithmetic::power2::lemma2_to64();
                vstd::arithmetic::power2::lemma_pow2_unfold((i + 1) as nat);
                if i < 15 {
                    vstd::arithmetic::power2::lemma_pow2_strictly_increases(i as nat, 15);
                }
            }
            if self.slots[i].is_some() {
                m = m + bit as u16;
            }
            bit = 2 * bit;
            i = i + 1;
        }
        m
    }
}

/// A device that was added is found under its number, and the number is free again
/// once it was taken out.
pub proof fn registered_then_gone(s: Seq<Option<SleDev>>, i: int, d: SleDev)
    requires
        first_free(s, i),
    ensures
        s.update(i, Some(d))[i] == Some(d),
        slots::taken(s.update(i, Some(d)), s.len() as int) == slots::taken(s, s.len() as int) + 1,
        s.update(i, Some(d)).update(i, None) == s,
        first_free(s.update(i, Some(d)).update(i, None), i),
{
    slots::taken_update(s, i, Some(d), s.len() as int);
    assert(s.update(i, Some(d)).update(i, None) =~= s);
}

} // verus!
