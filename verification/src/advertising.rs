//! BLE advertisement data: splitting the raw advertising payload into its
//! AD structures, looking fields up by type, decoding the readings of
//! Govee H5074 climate sensors, and building our own advertising payload.
//!
//! An AD structure is a length byte `len` followed by `len` bytes: the AD
//! type and `len - 1` bytes of data.

use vstd::prelude::*;
use crate::text::{utf8_text, str_from_utf8};

verus! {

/// AD type: flags.
pub const AD_TYPE_FLAGS: u32 = 0x01;
/// AD type: incomplete list of 16-bit service UUIDs.
pub const AD_TYPE_16BIT_SERVICE_UUID_MORE_AVAILABLE: u32 = 0x02;
/// AD type: complete list of 16-bit service UUIDs.
pub const AD_TYPE_16BIT_SERVICE_UUID_COMPLETE: u32 = 0x03;
/// AD type: complete list of 128-bit service UUIDs.
pub const AD_TYPE_128BIT_SERVICE_UUID_COMPLETE: u8 = 0x07;
/// AD type: shortened local name.
pub const AD_TYPE_SHORT_LOCAL_NAME: u32 = 0x08;
/// AD type: complete local name.
pub const AD_TYPE_COMPLETE_LOCAL_NAME: u32 = 0x09;
/// AD type: manufacturer specific data.
pub const AD_TYPE_MANUFACTURER_SPECIFIC_DATA: u32 = 0xff;
/// Flags value: LE only, general discoverable mode.
pub const ADV_FLAGS_LE_ONLY_GENERAL_DISC_MODE: u8 = 0x06;

/// How many AD fields a scan result keeps.
pub const SCAN_DATA_CAPACITY: usize = 6;

/// A BLE device address.
pub type BleMacAddress = [u8; 6];

#[verifier::external_type_specification]
#[verifier::external_body]
#[verifier::reject_recursive_types(K)]
#[verifier::reject_recursive_types(V)]
pub struct ExLinearMap<K, V, const N: usize>(heapless::LinearMap<K, V, N>);

/// The AD fields of one advertisement by AD type, at most
/// `SCAN_DATA_CAPACITY` of them, held in a `heapless::LinearMap`. The
/// contents are tracked as a ghost map; only the private trusted items
/// below touch the `LinearMap`.
pub struct ScanData<'a> {
    map: heapless::LinearMap<u32, &'a [u8], 6>,
    fields: Ghost<Map<u32, Seq<u8>>>,
}

impl<'a> View for ScanData<'a> {
    type V = Map<u32, Seq<u8>>;

    closed spec fn view(&self) -> Map<u32, Seq<u8>> {
        self.fields@
    }
}

/// The map of no fields.
pub open spec fn no_fields() -> Map<u32, Seq<u8>> {
    Map::empty()
}

/// `m` with `k` mapped to `v` when `k` is already a key or there is room
/// for one more key below `cap`; `m` unchanged otherwise.
pub open spec fn insert_within(m: Map<u32, Seq<u8>>, k: u32, v: Seq<u8>, cap: nat) -> Map<u32, Seq<u8>> {
    if m.contains_key(k) || m.dom().len() < cap {
        m.insert(k, v)
    } else {
        m
    }
}

impl<'a> ScanData<'a> {
    /// Finitely many keys, no more than the capacity.
    #[verifier::type_invariant]
    closed spec fn within_capacity(&self) -> bool {
        &&& self.fields@.dom().finite()
        &&& self.fields@.dom().len() <= SCAN_DATA_CAPACITY
    }

    /// `heapless::LinearMap::new`: an empty map.
    #[verifier::external_body]
    fn raw_new() -> (d: Self)
        ensures
            d@ == no_fields(),
    {
        ScanData { map: heapless::LinearMap::new(), fields: Ghost(Map::empty()) }
    }

    /// `heapless::LinearMap::insert`: replaces the value of a key present,
    /// else adds the key when fewer than 6 are held, else fails and changes
    /// nothing. Returns whether the value was stored.
    #[verifier::external_body]
    fn raw_insert(&mut self, key: u32, value: &'a [u8]) -> (stored: bool)
        ensures
            stored == (old(self)@.contains_key(key) || old(self)@.dom().len() < SCAN_DATA_CAPACITY),
            final(self)@ == insert_within(old(self)@, key, value@, SCAN_DATA_CAPACITY as nat),
    {
        self.map.insert(key, value).is_ok()
    }

    /// `heapless::LinearMap::get`: the value of `key`, if present.
    #[verifier::external_body]
    fn raw_get(&self, key: u32) -> (r: Option<&'a [u8]>)
        ensures
            r is Some <==> self@.contains_key(key),
            r is Some ==> r->Some_0@ == self@[key],
    {
        self.map.get(&key).copied()
    }

    /// No fields.
    pub fn new() -> (d: Self)
        ensures
            d@ == no_fields(),
    {
        Self::raw_new()
    }

    /// Stores `value` under `key` if `key` is present or there is room;
    /// returns whether it was stored.
    pub fn insert(&mut self, key: u32, value: &'a [u8]) -> (stored: bool)
        ensures
            stored == (old(self)@.contains_key(key) || old(self)@.dom().len() < SCAN_DATA_CAPACITY),
            final(self)@ == insert_within(old(self)@, key, value@, SCAN_DATA_CAPACITY as nat),
    {
        proof {
            use_type_invariant(&*self);
        }
        self.raw_insert(key, value)
    }

    /// The value stored under `key`, if any.
    pub fn get(&self, key: u32) -> (r: Option<&'a [u8]>)
        ensures
            r is Some <==> self@.contains_key(key),
            r is Some ==> r->Some_0@ == self@[key],
    {
        self.raw_get(key)
    }
}

/// The AD structures at the front of `data`, as (AD type, data) pairs, up
/// to the end or to the first one that is empty or runs past the end.
pub open spec fn ad_structures(data: Seq<u8>) -> Seq<(u8, Seq<u8>)>
    decreases data.len(),
{
    if data.len() == 0 {
        Seq::empty()
    } else {
        let len = data[0] as int;
        if len < 1 || data.len() < len + 1 {
            Seq::empty()
        } else {
            seq![(data[1], data.subrange(2, len + 1))] + ad_structures(data.subrange(len + 1, data.len() as int))
        }
    }
}

/// The map after storing each of `structures` in order, by
/// `insert_within` with capacity `cap`.
pub open spec fn stored_fields(m: Map<u32, Seq<u8>>, structures: Seq<(u8, Seq<u8>)>, cap: nat) -> Map<u32, Seq<u8>>
    decreases structures.len(),
{
    if structures.len() == 0 {
        m
    } else {
        stored_fields(insert_within(m, structures[0].0 as u32, structures[0].1, cap), structures.drop_first(), cap)
    }
}

/// The fields that a map of capacity `cap` keeps of the advertising
/// payload `data`.
pub open spec fn scan_fields(data: Seq<u8>, cap: nat) -> Map<u32, Seq<u8>> {
    stored_fields(no_fields(), ad_structures(data), cap)
}

/// The AD structures of the advertising payload `data`, in order, as
/// (AD type, data) pairs; reading stops at the end or at the first
/// structure that is empty or runs past the end.
pub fn ad_structure_list<'a>(data: &'a [u8]) -> (r: Vec<(u8, &'a [u8])>)
    ensures
        r@.len() == ad_structures(data@).len(),
        forall|i: int|
            0 <= i < r@.len() ==> (#[trigger] r@[i]).0 == ad_structures(data@)[i].0
                && r@[i].1@ == ad_structures(data@)[i].1,
{
    let mut out: Vec<(u8, &'a [u8])> = Vec::new();
    let mut rest: &'a [u8] = data;
    let ghost all = ad_structures(data@);
    while rest.len() != 0
        invariant
            out@.len() + ad_structures(rest@).len() == all.len(),
            forall|i: int|
                0 <= i < out@.len() ==> (#[trigger] out@[i]).0 == all[i].0 && out@[i].1@ == all[i].1,
            forall|i: int|
                0 <= i < ad_structures(rest@).len() ==> #[trigger] ad_structures(rest@)[i] == all[out@.len() + i],
        ensures
            out@.len() == all.len(),
            forall|i: int|
                0 <= i < out@.len() ==> (#[trigger] out@[i]).0 == all[i].0 && out@[i].1@ == all[i].1,
        decreases rest@.len(),
    {
        let len = rest[0] as usize;
        if len < 1 || rest.len() < len + 1 {
            break;
        }
        let key = rest[1];
        let value = &rest[2..len + 1];
        let (_, tail) = rest.split_at(len + 1);
        proof {
            let s = ad_structures(rest@);
            assert(s[0] == (key, value@));
            assert(s.drop_first() =~= ad_structures(tail@));
            assert(all[out@.len() as int] == s[0]);
            assert forall|i: int| 0 <= i < ad_structures(tail@).len() implies
                #[trigger] ad_structures(tail@)[i] == all[out@.len() + 1 + i] by {
                assert(ad_structures(tail@)[i] == s[i + 1]);
            }
        }
        out.push((key, value));
        rest = tail;
    }
    out
}

/// Storing AD structures never takes a map past its capacity.
pub proof fn lemma_stored_fields_within_capacity(m: Map<u32, Seq<u8>>, structures: Seq<(u8, Seq<u8>)>, cap: nat)
    requires
        m.dom().finite(),
        m.dom().len() <= cap,
    ensures
        stored_fields(m, structures, cap).dom().finite(),
        stored_fields(m, structures, cap).dom().len() <= cap,
    decreases structures.len(),
{
    if structures.len() > 0 {
        let m1 = insert_within(m, structures[0].0 as u32, structures[0].1, cap);
        if m.contains_key(structures[0].0 as u32) {
            assert(m1.dom() =~= m.dom());
        }
        lemma_stored_fields_within_capacity(m1, structures.drop_first(), cap);
    }
}

/// The result of one scan: who advertised, how strong, and which AD fields.
pub struct ScanResult<'a> {
    pub mac_address: BleMacAddress,
    pub rssi: i8,
    pub data: ScanData<'a>,
}

/// The text of the device name among `fields`: the complete local name if
/// present, else the shortened one; empty when absent or not UTF-8.
pub open spec fn name_text(fields: Map<u32, Seq<u8>>) -> Seq<char> {
    if fields.contains_key(AD_TYPE_COMPLETE_LOCAL_NAME) {
        match utf8_text(fields[AD_TYPE_COMPLETE_LOCAL_NAME]) {
            Some(t) => t,
            None => Seq::empty(),
        }
    } else if fields.contains_key(AD_TYPE_SHORT_LOCAL_NAME) {
        match utf8_text(fields[AD_TYPE_SHORT_LOCAL_NAME]) {
            Some(t) => t,
            None => Seq::empty(),
        }
    } else {
        Seq::empty()
    }
}

impl<'a> ScanResult<'a> {
    /// The scan result of the advertising payload `data` from `mac_address`
    /// received at `rssi`: its AD structures, read in order until one is
    /// empty or runs past the end, stored by AD type; a later structure of
    /// the same type replaces an earlier one, and structures of new types
    /// beyond `SCAN_DATA_CAPACITY` are dropped.
    pub fn from_advertisement(mac_address: BleMacAddress, rssi: i8, data: &'a [u8]) -> (sr: ScanResult<'a>)
        ensures
            sr.mac_address == mac_address,
            sr.rssi == rssi,
            sr.data@ == scan_fields(data@, SCAN_DATA_CAPACITY as nat),
    {
        let mut fields = ScanData::new();
        let mut rest: &'a [u8] = data;
        while rest.len() != 0
            invariant
                stored_fields(fields@, ad_structures(rest@), SCAN_DATA_CAPACITY as nat)
                    == scan_fields(data@, SCAN_DATA_CAPACITY as nat),
            ensures
                stored_fields(fields@, ad_structures(rest@), SCAN_DATA_CAPACITY as nat)
                    == scan_fields(data@, SCAN_DATA_CAPACITY as nat),
                ad_structures(rest@).len() == 0,
            decreases rest@.len(),
        {
            let len = rest[0] as usize;
            if len < 1 || rest.len() < len + 1 {
                break;
            }
            let key = rest[1];
            let value = &rest[2..len + 1];
            let (_, tail) = rest.split_at(len + 1);
            proof {
                let s = ad_structures(rest@);
                assert(s[0] == (key, value@));
                assert(s.drop_first() =~= ad_structures(tail@));
            }
            let _ = fields.insert(key as u32, value);
            rest = tail;
        }
        assert(stored_fields(fields@, ad_structures(rest@), SCAN_DATA_CAPACITY as nat) == fields@);
        ScanResult { mac_address: mac_address, rssi: rssi, data: fields }
    }

    /// The data of the AD field of type `key`, if present.
    pub fn val(&self, key: u32) -> (r: Option<&'a [u8]>)
        ensures
            r is Some <==> self.data@.contains_key(key),
            r is Some ==> r->Some_0@ == self.data@[key],
    {
        self.data.get(key)
    }

    /// The advertising flags; 0 when the advertisement has none.
    pub fn type_flags(&self) -> (f: u8)
        requires
            self.data@.contains_key(AD_TYPE_FLAGS) ==> self.data@[AD_TYPE_FLAGS].len() > 0,
        ensures
            f == (if self.data@.contains_key(AD_TYPE_FLAGS) { self.data@[AD_TYPE_FLAGS][0] } else { 0 }),
    {
        match self.val(AD_TYPE_FLAGS) {
            Some(v) => v[0],
            None => 0,
        }
    }

    /// The complete or else the shortened local name; empty when there is
    /// none or it is not valid UTF-8.
    pub fn name(&self) -> (s: &'a str)
        ensures
            s@ == name_text(self.data@),
    {
        proof {
            reveal_strlit("");
        }
        if let Some(v) = self.val(AD_TYPE_COMPLETE_LOCAL_NAME) {
            match str_from_utf8(v) {
                Some(s) => s,
                None => "",
            }
        } else if let Some(v) = self.val(AD_TYPE_SHORT_LOCAL_NAME) {
            match str_from_utf8(v) {
                Some(s) => s,
                None => "",
            }
        } else {
            ""
        }
    }

    /// The manufacturer specific data; empty when there is none.
    pub fn manufacturer_data(&self) -> (d: &'a [u8])
        ensures
            d@ == (if self.data@.contains_key(AD_TYPE_MANUFACTURER_SPECIFIC_DATA) {
                self.data@[AD_TYPE_MANUFACTURER_SPECIFIC_DATA]
            } else {
                Seq::empty()
            }),
    {
        match self.val(AD_TYPE_MANUFACTURER_SPECIFIC_DATA) {
            Some(v) => v,
            None => &[],
        }
    }

    /// The complete, else the incomplete, list of 16-bit service UUIDs;
    /// empty when there is neither.
    pub fn uuid_16(&self) -> (d: &'a [u8])
        ensures
            d@ == (if self.data@.contains_key(AD_TYPE_16BIT_SERVICE_UUID_COMPLETE) {
                self.data@[AD_TYPE_16BIT_SERVICE_UUID_COMPLETE]
            } else if self.data@.contains_key(AD_TYPE_16BIT_SERVICE_UUID_MORE_AVAILABLE) {
                self.data@[AD_TYPE_16BIT_SERVICE_UUID_MORE_AVAILABLE]
            } else {
                Seq::empty()
            }),
    {
        if let Some(v) = self.val(AD_TYPE_16BIT_SERVICE_UUID_COMPLETE) {
            v
        } else {
            match self.val(AD_TYPE_16BIT_SERVICE_UUID_MORE_AVAILABLE) {
                Some(v) => v,
                None => &[],
            }
        }
    }
}

/// Our advertising payload: the flags (LE only, general discoverable), the
/// complete list of 128-bit service UUIDs holding `service_uuid`, and the
/// complete local name `name`, each as an AD structure.
pub open spec fn advertising_payload_bytes(service_uuid: Seq<u8>, name: Seq<u8>) -> Seq<u8> {
    seq![2u8, AD_TYPE_FLAGS as u8, ADV_FLAGS_LE_ONLY_GENERAL_DISC_MODE]
        + seq![17u8, AD_TYPE_128BIT_SERVICE_UUID_COMPLETE]
        + service_uuid
        + seq![(name.len() + 1) as u8, AD_TYPE_COMPLETE_LOCAL_NAME as u8]
        + name
}

/// Builds our advertising payload for the service `service_uuid` (in
/// over-the-air byte order) and the device name `name`.
pub fn advertising_payload(service_uuid: &[u8; 16], name: &[u8]) -> (p: Vec<u8>)
    requires
        name@.len() < 255,
    ensures
        p@ == advertising_payload_bytes(service_uuid@, name@),
{
    let mut p: Vec<u8> = Vec::new();
    p.push(2);
    p.push(AD_TYPE_FLAGS as u8);
    p.push(ADV_FLAGS_LE_ONLY_GENERAL_DISC_MODE);
    p.push(17);
    p.push(AD_TYPE_128BIT_SERVICE_UUID_COMPLETE);
    let mut i: usize = 0;
    while i < 16
        invariant
            i <= 16,
            p@ == seq![2u8, AD_TYPE_FLAGS as u8, ADV_FLAGS_LE_ONLY_GENERAL_DISC_MODE]
                + seq![17u8, AD_TYPE_128BIT_SERVICE_UUID_COMPLETE]
                + service_uuid@.subrange(0, i as int),
        decreases 16 - i,
    {
        p.push(service_uuid[i]);
        i = i + 1;
    }
    p.push((name.len() + 1) as u8);
    p.push(AD_TYPE_COMPLETE_LOCAL_NAME as u8);
    let mut j: usize = 0;
    while j < name.len()
        invariant
            j <= name@.len(),
            p@ == seq![2u8, AD_TYPE_FLAGS as u8, ADV_FLAGS_LE_ONLY_GENERAL_DISC_MODE]
                + seq![17u8, AD_TYPE_128BIT_SERVICE_UUID_COMPLETE]
                + service_uuid@
                + seq![(name@.len() + 1) as u8, AD_TYPE_COMPLETE_LOCAL_NAME as u8]
                + name@.subrange(0, j as int),
        decreases name@.len() - j,
    {
        p.push(name[j]);
        j = j + 1;
    }
    p
}

/// A scanner that keeps at least three fields reads our advertising payload
/// back as exactly three: the flags, the 128-bit service UUID and the
/// complete local name.
pub proof fn lemma_advertising_payload_scans_back(service_uuid: Seq<u8>, name: Seq<u8>, cap: nat)
    requires
        service_uuid.len() == 16,
        name.len() < 255,
        cap >= 3,
    ensures
        scan_fields(advertising_payload_bytes(service_uuid, name), cap) == no_fields()
            .insert(AD_TYPE_FLAGS, seq![ADV_FLAGS_LE_ONLY_GENERAL_DISC_MODE])
            .insert(AD_TYPE_128BIT_SERVICE_UUID_COMPLETE as u32, service_uuid)
            .insert(AD_TYPE_COMPLETE_LOCAL_NAME, name),
{
    let p = advertising_payload_bytes(service_uuid, name);
    let r1 = p.subrange(3, p.len() as int);
    let r2 = r1.subrange(18, r1.len() as int);
    let r3 = r2.subrange((name.len() + 2) as int, r2.len() as int);
    assert(p.subrange(2, 3) =~= seq![ADV_FLAGS_LE_ONLY_GENERAL_DISC_MODE]);
    assert(r1.subrange(2, 18) =~= service_uuid);
    assert(r2.subrange(2, (name.len() + 2) as int) =~= name);
    assert(r3.len() == 0);
    assert(ad_structures(r3) =~= Seq::<(u8, Seq<u8>)>::empty());
    assert(ad_structures(r2) =~= seq![(AD_TYPE_COMPLETE_LOCAL_NAME as u8, name)]);
    assert(ad_structures(r1) =~= seq![
        (AD_TYPE_128BIT_SERVICE_UUID_COMPLETE, service_uuid),
        (AD_TYPE_COMPLETE_LOCAL_NAME as u8, name),
    ]);
    let s = ad_structures(p);
    assert(s =~= seq![
        (AD_TYPE_FLAGS as u8, seq![ADV_FLAGS_LE_ONLY_GENERAL_DISC_MODE]),
        (AD_TYPE_128BIT_SERVICE_UUID_COMPLETE, service_uuid),
        (AD_TYPE_COMPLETE_LOCAL_NAME as u8, name),
    ]);
    let m1 = no_fields().insert(AD_TYPE_FLAGS, seq![ADV_FLAGS_LE_ONLY_GENERAL_DISC_MODE]);
    let m2 = m1.insert(AD_TYPE_128BIT_SERVICE_UUID_COMPLETE as u32, service_uuid);
    let m3 = m2.insert(AD_TYPE_COMPLETE_LOCAL_NAME, name);
    assert(no_fields().dom().len() == 0);
    assert(m1.dom() =~= set![AD_TYPE_FLAGS]);
    assert(m2.dom() =~= set![AD_TYPE_FLAGS, AD_TYPE_128BIT_SERVICE_UUID_COMPLETE as u32]);
    assert(m1.dom().len() == 1);
    assert(m2.dom().len() == 2);
    assert(insert_within(no_fields(), s[0].0 as u32, s[0].1, cap) == m1);
    let t1 = s.drop_first();
    let t2 = t1.drop_first();
    let t3 = t2.drop_first();
    assert(t3.len() == 0);
    assert(insert_within(m1, t1[0].0 as u32, t1[0].1, cap) == m2);
    assert(insert_within(m2, t2[0].0 as u32, t2[0].1, cap) == m3);
    let c = cap;
    assert(stored_fields(m3, t3, c) == m3);
    assert(stored_fields(m2, t2, c) == m3);
    assert(stored_fields(m1, t1, c) == m3);
    assert(stored_fields(no_fields(), s, c) == m3);
}

} // verus!
