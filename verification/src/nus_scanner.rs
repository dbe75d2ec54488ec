//! Scan results of the NUS prototype: the AD fields of one advertisement
//! kept by AD type in a `heapless::FnvIndexMap` of 8 entries.

use vstd::prelude::*;
use crate::advertising::{
    BleMacAddress, ad_structures, stored_fields, scan_fields, insert_within, no_fields,
    AD_TYPE_FLAGS, AD_TYPE_COMPLETE_LOCAL_NAME, AD_TYPE_SHORT_LOCAL_NAME,
    AD_TYPE_MANUFACTURER_SPECIFIC_DATA, AD_TYPE_16BIT_SERVICE_UUID_COMPLETE,
    AD_TYPE_16BIT_SERVICE_UUID_MORE_AVAILABLE,
};
use crate::text::{utf8_text, str_from_utf8};

verus! {

/// How many AD fields a scan result keeps.
pub const NUS_SCAN_DATA_CAPACITY: usize = 8;

#[verifier::external_type_specification]
#[verifier::external_body]
#[verifier::reject_recursive_types(K)]
#[verifier::reject_recursive_types(V)]
#[verifier::reject_recursive_types(S)]
pub struct ExIndexMap<K, V, S, const N: usize>(heapless::IndexMap<K, V, S, N>);

#[verifier::external_type_specification]
#[verifier::external_body]
#[verifier::reject_recursive_types(H)]
pub struct ExBuildHasherDefault<H>(hash32::BuildHasherDefault<H>);

#[verifier::external_type_specification]
#[verifier::external_body]
pub struct ExFnvHasher(hash32::FnvHasher);

/// The AD fields of one advertisement by AD type, at most
/// `NUS_SCAN_DATA_CAPACITY` of them, held in a `heapless::FnvIndexMap`.
/// The contents are tracked as a ghost map; only the private trusted items
/// below touch the `FnvIndexMap`.
pub struct ScanData<'a> {
    map: heapless::FnvIndexMap<u32, &'a [u8], 8>,
    fields: Ghost<Map<u32, Seq<u8>>>,
}

impl<'a> View for ScanData<'a> {
    type V = Map<u32, Seq<u8>>;

    closed spec fn view(&self) -> Map<u32, Seq<u8>> {
        self.fields@
    }
}

impl<'a> ScanData<'a> {
    /// Finitely many keys, no more than the capacity.
    #[verifier::type_invariant]
    closed spec fn within_capacity(&self) -> bool {
        &&& self.fields@.dom().finite()
        &&& self.fields@.dom().len() <= NUS_SCAN_DATA_CAPACITY
    }

    /// `heapless::IndexMap::new`: an empty map.
    #[verifier::external_body]
    fn raw_new() -> (d: Self)
        ensures
            d@ == no_fields(),
    {
        ScanData { map: heapless::FnvIndexMap::new(), fields: Ghost(Map::empty()) }
    }

    /// `heapless::IndexMap::insert`: replaces the value of a key present,
    /// else adds the key when fewer than 8 are held, else fails and changes
    /// nothing. Returns whether the value was stored.
    #[verifier::external_body]
    fn raw_insert(&mut self, key: u32, value: &'a [u8]) -> (stored: bool)
        ensures
            stored == (old(self)@.contains_key(key) || old(self)@.dom().len() < NUS_SCAN_DATA_CAPACITY),
            final(self)@ == insert_within(old(self)@, key, value@, NUS_SCAN_DATA_CAPACITY as nat),
    {
        self.map.insert(key, value).is_ok()
    }

    /// `heapless::IndexMap::get`: the value of `key`, if present.
    #[verifier::external_body]
    fn raw_get(&self, key: u32) -> (r: Option<&'a [u8]>)
        ensures
            r is Some <==> self@.contains_key(key),
            r is Some ==> r->Some_0@ == self@[key],
    {
        self.map.get(&key).copied()
    }

    /// No fields.
    pub fn new() -> (d: Self)
        ensures
            d@ == no_fields(),
    {
        Self::raw_new()
    }

    /// Stores `value` under `key` if `key` is present or there is room;
    /// returns whether it was stored.
    pub fn insert(&mut self, key: u32, value: &'a [u8]) -> (stored: bool)
        ensures
            stored == (old(self)@.contains_key(key) || old(self)@.dom().len() < NUS_SCAN_DATA_CAPACITY),
            final(self)@ == insert_within(old(self)@, key, value@, NUS_SCAN_DATA_CAPACITY as nat),
    {
        proof {
            use_type_invariant(&*self);
        }
        self.raw_insert(key, value)
    }

    /// The value stored under `key`, if any.
    pub fn get(&self, key: u32) -> (r: Option<&'a [u8]>)
        ensures
            r is Some <==> self@.contains_key(key),
            r is Some ==> r->Some_0@ == self@[key],
    {
        self.raw_get(key)
    }
}

/// The result of one scan: who advertised, how strong, and which AD fields.
pub struct ScanResult<'a> {
    pub mac_address: BleMacAddress,
    pub rssi: i8,
    pub data: ScanData<'a>,
}

/// The text of `fields[key]` when that field is present and valid UTF-8.
pub open spec fn usable_text(fields: Map<u32, Seq<u8>>, key: u32) -> Option<Seq<char>> {
    if fields.contains_key(key) {
        utf8_text(fields[key])
    } else {
        None
    }
}

/// The device name among `fields`: the complete local name when it is
/// present and valid UTF-8, else the shortened name when it is present and
/// valid UTF-8, else empty.
pub open spec fn nus_name_text(fields: Map<u32, Seq<u8>>) -> Seq<char> {
    match usable_text(fields, AD_TYPE_COMPLETE_LOCAL_NAME) {
        Some(t) => t,
        None => match usable_text(fields, AD_TYPE_SHORT_LOCAL_NAME) {
            Some(t) => t,
            None => Seq::empty(),
        },
    }
}

impl<'a> ScanResult<'a> {
    /// The scan result of the advertising payload `data` from `mac_address`
    /// received at `rssi`: its AD structures, read in order until one is
    /// empty or runs past the end, stored by AD type; a later structure of
    /// the same type replaces an earlier one, and structures of new types
    /// beyond `NUS_SCAN_DATA_CAPACITY` are dropped.
    pub fn from_advertisement(mac_address: BleMacAddress, rssi: i8, data: &'a [u8]) -> (sr: ScanResult<'a>)
        ensures
            sr.mac_address == mac_address,
            sr.rssi == rssi,
            sr.data@ == scan_fields(data@, NUS_SCAN_DATA_CAPACITY as nat),
    {
        let mut fields = ScanData::new();
        let mut rest: &'a [u8] = data;
        while rest.len() != 0
            invariant
                stored_fields(fields@, ad_structures(rest@), NUS_SCAN_DATA_CAPACITY as nat)
                    == scan_fields(data@, NUS_SCAN_DATA_CAPACITY as nat),
            ensures
                stored_fields(fields@, ad_structures(rest@), NUS_SCAN_DATA_CAPACITY as nat)
                    == scan_fields(data@, NUS_SCAN_DATA_CAPACITY as nat),
                ad_structures(rest@).len() == 0,
            decreases rest@.len(),
        {
            let len = rest[0] as usize;
            if len < 1 || rest.len() < len + 1 {
                break;
            }
            let key = rest[1];
            let value = &rest[2..len + 1];
            let (_, tail) = rest.split_at(len + 1);
            proof {
                let s = ad_structures(rest@);
                assert(s[0] == (key, value@));
                assert(s.drop_first() =~= ad_structures(tail@));
            }
            let _ = fields.insert(key as u32, value);
            rest = tail;
        }
        assert(stored_fields(fields@, ad_structures(rest@), NUS_SCAN_DATA_CAPACITY as nat) == fields@);
        ScanResult { mac_address: mac_address, rssi: rssi, data: fields }
    }

    /// The data of the AD field of type `key`, if present.
    pub fn val(&self, key: u32) -> (r: Option<&'a [u8]>)
        ensures
            r is Some <==> self.data@.contains_key(key),
            r is Some ==> r->Some_0@ == self.data@[key],
    {
        self.data.get(key)
    }

    /// The advertising flags; 0 when the advertisement has none.
    pub fn type_flags(&self) -> (f: u8)
        requires
            self.data@.contains_key(AD_TYPE_FLAGS) ==> self.data@[AD_TYPE_FLAGS].len() > 0,
        ensures
            f == (if self.data@.contains_key(AD_TYPE_FLAGS) { self.data@[AD_TYPE_FLAGS][0] } else { 0 }),
    {
        if let Some(v) = self.val(AD_TYPE_FLAGS) {
            v[0]
        } else {
            0
        }
    }

    /// The complete local name; failing that (absent or not UTF-8), the
    /// shortened name; empty when neither is usable.
    pub fn name(&self) -> (s: &'a str)
        ensures
            s@ == nus_name_text(self.data@),
    {
        proof {
            reveal_strlit("");
        }
        if let Some(v) = self.val(AD_TYPE_COMPLETE_LOCAL_NAME) {
            if let Some(s) = str_from_utf8(v) {
                return s;
            }
        }
        if let Some(v) = self.val(AD_TYPE_SHORT_LOCAL_NAME) {
            if let Some(s) = str_from_utf8(v) {
                return s;
            }
        }
        ""
    }

    /// The manufacturer specific data; empty when there is none.
    pub fn manufacturer_data(&self) -> (d: &'a [u8])
        ensures
            d@ == (if self.data@.contains_key(AD_TYPE_MANUFACTURER_SPECIFIC_DATA) {
                self.data@[AD_TYPE_MANUFACTURER_SPECIFIC_DATA]
            } else {
                Seq::empty()
            }),
    {
        if let Some(v) = self.val(AD_TYPE_MANUFACTURER_SPECIFIC_DATA) {
            v
        } else {
            &[]
        }
    }

    /// The complete, else the incomplete, list of 16-bit service UUIDs;
    /// empty when there is neither.
    pub fn uuid_16(&self) -> (d: &'a [u8])
        ensures
            d@ == (if self.data@.contains_key(AD_TYPE_16BIT_SERVICE_UUID_COMPLETE) {
                self.data@[AD_TYPE_16BIT_SERVICE_UUID_COMPLETE]
            } else if self.data@.contains_key(AD_TYPE_16BIT_SERVICE_UUID_MORE_AVAILABLE) {
                self.data@[AD_TYPE_16BIT_SERVICE_UUID_MORE_AVAILABLE]
            } else {
                Seq::empty()
            }),
    {
        if let Some(v) = self.val(AD_TYPE_16BIT_SERVICE_UUID_COMPLETE) {
            return v;
        } else if let Some(v) = self.val(AD_TYPE_16BIT_SERVICE_UUID_MORE_AVAILABLE) {
            return v;
        }
        &[]
    }
}

} // verus!
