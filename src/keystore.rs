//! Session keys by device address, handed to the frame-payload pass.
use vstd::prelude::*;

verus! {

/// The key that the latest entry for `dev_addr` holds, if any.
pub open spec fn key_for(entries: Seq<(u32, [u8; 16])>, dev_addr: u32) -> Option<[u8; 16]>
    decreases entries.len(),
{
    if entries.len() == 0 {
        None
    } else if entries.last().0 == dev_addr {
        Some(entries.last().1)
    } else {
        key_for(entries.drop_last(), dev_addr)
    }
}

/// Application session keys, looked up by device address.
pub struct KeyStore {
    entries: Vec<(u32, [u8; 16])>,
}

impl View for KeyStore {
    type V = Seq<(u32, [u8; 16])>;

    closed spec fn view(&self) -> Seq<(u32, [u8; 16])> {
        self.entries@
    }
}

impl KeyStore {
    /// A keystore that holds no key.
    pub fn new() -> (r: KeyStore)
        ensures
            r@.len() == 0,
    {
        KeyStore { entries: Vec::new() }
    }

    /// Records `key` for `dev_addr`; it takes the place of any earlier key for that address.
    pub fn insert(&mut self, dev_addr: u32, key: [u8; 16])
        ensures
            final(self)@ == old(self)@.push((dev_addr, key)),
    {
        self.entries.push((dev_addr, key));
    }

    /// The key for `dev_addr`.
    pub fn lookup(&self, dev_addr: u32) -> (r: Option<[u8; 16]>)
        ensures
            r == key_for(self@, dev_addr),
    {
        let mut i: usize = self.entries.len();
        assert(self@.subrange(0, i as int) =~= self@);
        while i > 0
            invariant
                i <= self@.len(),
                key_for(self@, dev_addr) == key_for(self@.subrange(0, i as int), dev_addr),
            decreases i,
        {
            let e = self.entries[i - 1];
            assert(self@.subrange(0, i as int).drop_last() =~= self@.subrange(0, i - 1));
            if e.0 == dev_addr {
                return Some(e.1);
            }
            i = i - 1;
        }
        None
    }
}

} // verus!
