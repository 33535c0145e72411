//! The settings store: the connection parameters negotiated through
//! SETTINGS frames. A payload is a sequence of 6-byte entries (2-byte key,
//! 4-byte value, big-endian), applied in order; unrecognized keys are
//! accepted and ignored, as the negotiation protocol requires.

use vstd::prelude::*;

verus! {

pub const SETTINGS_ENABLE_PUSH: u16 = 0x02;
pub const SETTINGS_MAX_CONCURRENT_STREAMS: u16 = 0x03;
pub const SETTINGS_INITIAL_WINDOW_SIZE: u16 = 0x04;

/// The negotiated connection parameters, created with the protocol defaults
/// and updated in place by every accepted SETTINGS frame.
#[derive(Clone, Copy, Debug, PartialEq, Eq, Structural)]
pub struct ServerSettings {
    pub max_concurrent_streams: u32,
    pub initial_window_size: u32,
    pub enable_push: bool,
}

impl ServerSettings {
    /// The defaults a connection starts with.
    pub open spec fn default_spec() -> ServerSettings {
        ServerSettings { max_concurrent_streams: 100, initial_window_size: 65535, enable_push: true }
    }

    /// What applying one key/value entry does: the matching field changes,
    /// every other field keeps its value, and an unrecognized key changes
    /// nothing.
    pub open spec fn update_spec(self, key: u16, value: u32) -> ServerSettings {
        if key == SETTINGS_MAX_CONCURRENT_STREAMS {
            ServerSettings { max_concurrent_streams: value, ..self }
        } else if key == SETTINGS_INITIAL_WINDOW_SIZE {
            ServerSettings { initial_window_size: value, ..self }
        } else if key == SETTINGS_ENABLE_PUSH {
            ServerSettings { enable_push: value != 0, ..self }
        } else {
            self
        }
    }

    /// Creates the store with the protocol defaults.
    pub fn new() -> (r: Self)
        ensures
            r == Self::default_spec(),
    {
        ServerSettings { max_concurrent_streams: 100, initial_window_size: 65535, enable_push: true }
    }

    /// Applies one key/value entry: recognized keys mutate their field,
    /// unrecognized keys are ignored without error.
    pub fn update(&mut self, key: u16, value: u32)
        ensures
            *final(self) == old(self).update_spec(key, value),
    {
        if key == SETTINGS_MAX_CONCURRENT_STREAMS {
            self.max_concurrent_streams = value;
        } else if key == SETTINGS_INITIAL_WINDOW_SIZE {
            self.initial_window_size = value;
        } else if key == SETTINGS_ENABLE_PUSH {
            self.enable_push = value != 0;
        }
    }

    /// Applies a whole SETTINGS payload. Exactly the payloads whose length
    /// is a multiple of 6 are accepted; each 6-byte entry is then applied in
    /// order, and a rejected payload leaves the store untouched.
    pub fn apply_payload(&mut self, payload: &Vec<u8>) -> (accepted: bool)
        ensures
            accepted == (payload@.len() % 6 == 0),
            accepted ==> *final(self) == apply_entries_spec(*old(self), payload@),
            !accepted ==> *final(self) == *old(self),
    {
        if payload.len() % 6 != 0 {
            return false;
        }
        let ghost full = payload@;
        let ghost start = *self;
        proof {
            assert(full.skip(0) =~= full);
        }
        let mut i: usize = 0;
        while i < payload.len()
            invariant
                i % 6 == 0,
                i <= payload@.len(),
                payload@.len() % 6 == 0,
                full == payload@,
                apply_entries_spec(start, full) == apply_entries_spec(*self, full.skip(i as int)),
            decreases payload@.len() - i,
        {
            let key: u16 = (payload[i] as u16) * 0x100 + (payload[i + 1] as u16);
            let value: u32 = (payload[i + 2] as u32) * 0x1000000 + (payload[i + 3] as u32) * 0x10000
                + (payload[i + 4] as u32) * 0x100 + (payload[i + 5] as u32);
            let ghost rest = full.skip(i as int);
            proof {
                assert(rest.len() >= 6);
                assert(key == entry_key_spec(rest));
                assert(value == entry_value_spec(rest));
                assert(rest.skip(6) =~= full.skip(i + 6));
            }
            self.update(key, value);
            i = i + 6;
        }
        proof {
            assert(full.skip(full.len() as int) =~= Seq::<u8>::empty());
        }
        true
    }
}

/// The key of the first 6-byte entry of a payload: 2 bytes, big-endian.
pub open spec fn entry_key_spec(p: Seq<u8>) -> u16
    recommends
        p.len() >= 6,
{
    (p[0] * 0x100 + p[1]) as u16
}

/// The value of the first 6-byte entry of a payload: 4 bytes, big-endian.
pub open spec fn entry_value_spec(p: Seq<u8>) -> u32
    recommends
        p.len() >= 6,
{
    (p[2] * 0x1000000 + p[3] * 0x10000 + p[4] * 0x100 + p[5]) as u32
}

/// The store a SETTINGS payload leaves behind: its 6-byte entries applied
/// left to right, one `update` per entry.
pub open spec fn apply_entries_spec(s: ServerSettings, p: Seq<u8>) -> ServerSettings
    decreases p.len(),
{
    if p.len() < 6 {
        s
    } else {
        apply_entries_spec(s.update_spec(entry_key_spec(p), entry_value_spec(p)), p.skip(6))
    }
}

/// The keys of a payload's 6-byte entries, in order.
pub open spec fn entry_keys_spec(p: Seq<u8>) -> Seq<u16> {
    Seq::new((p.len() / 6) as nat, |j: int| entry_key_spec(p.skip(6 * j)))
}

/// A field that no entry of the payload addresses retains its prior value
/// across `apply_payload`.
pub proof fn lemma_unmentioned_fields_retained(s: ServerSettings, p: Seq<u8>)
    requires
        p.len() % 6 == 0,
    ensures
        !entry_keys_spec(p).contains(SETTINGS_MAX_CONCURRENT_STREAMS) ==> apply_entries_spec(
            s,
            p,
        ).max_concurrent_streams == s.max_concurrent_streams,
        !entry_keys_spec(p).contains(SETTINGS_INITIAL_WINDOW_SIZE) ==> apply_entries_spec(
            s,
            p,
        ).initial_window_size == s.initial_window_size,
        !entry_keys_spec(p).contains(SETTINGS_ENABLE_PUSH) ==> apply_entries_spec(s, p).enable_push
            == s.enable_push,
    decreases p.len(),
{
    if p.len() < 6 {
    } else {
        let k = entry_key_spec(p);
        let s1 = s.update_spec(k, entry_value_spec(p));
        let q = p.skip(6);
        assert(q.len() % 6 == 0);
        assert(entry_keys_spec(p)[0] == k);
        assert forall|key: u16| entry_keys_spec(q).contains(key) implies entry_keys_spec(
            p,
        ).contains(key) by {
            let j = choose|j: int|
                0 <= j < entry_keys_spec(q).len() && entry_keys_spec(q)[j] == key;
            assert(q.skip(6 * j) =~= p.skip(6 * (j + 1)));
            assert(entry_keys_spec(p)[j + 1] == key);
        }
        lemma_unmentioned_fields_retained(s1, q);
    }
}

} // verus!
