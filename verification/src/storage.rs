//! Persistent configuration store.
//!
//! The configuration record lives in one fixed, erase-block-aligned region
//! near the top of the persistent medium. The medium itself is an external
//! collaborator, reached through the [`Storage`] trait: a byte-addressable
//! region that must be erased block-wise before it is written. [`RamStorage`]
//! is an in-memory implementation with the same contract, used for testing
//! the core without hardware; a firmware build implements the trait over its
//! flash driver.
//!
//! Persistence is best-effort, never safety-blocking: loading a corrupt or
//! blank record yields the documented default configuration, and a failed
//! save is reported to the caller, who decides whether to retry or abort.

use vstd::prelude::*;
use vstd::assert_seqs_equal;
use crate::codec::{
    RECORD_BYTES, deserialize, lemma_round_trip, serialize, spec_deserialize, spec_serialize,
};
use crate::config::{Configuration, default_configuration};

verus! {

/// Byte offset of the configuration region on the medium.
pub const CONFIG_OFFSET: usize = 130048;

/// Size of the erase block that holds the configuration region.
pub const ERASE_BLOCK_BYTES: usize = 1024;

/// The value an erased byte reads as.
pub const ERASED_BYTE: u8 = 0xFF;

/// Error surfaced when the medium rejects a save.
#[derive(Clone, Copy, Debug, PartialEq, Eq, Structural)]
pub enum StoreError {
    /// The medium rejected the block erase.
    EraseFailed,
    /// The medium rejected the write.
    WriteFailed,
}

/// The medium's contents with one region erased.
pub open spec fn spec_erased(s: Seq<u8>, offset: int, len: int) -> Seq<u8> {
    Seq::new(s.len(), |i: int| if offset <= i < offset + len { ERASED_BYTE } else { s[i] })
}

/// The medium's contents with one region overwritten by `data`.
pub open spec fn spec_written(s: Seq<u8>, offset: int, data: Seq<u8>) -> Seq<u8> {
    Seq::new(
        s.len(),
        |i: int| if offset <= i < offset + data.len() { data[i - offset] } else { s[i] },
    )
}

/// A persistent, byte-addressable, block-erasable medium.
///
/// Erase and write may fail (a write-protected region, a worn block); the
/// contract promises nothing about the contents after a failure beyond the
/// medium keeping its size, which is exactly what flash hardware offers.
pub trait Storage: Sized {
    /// The bytes the medium currently holds.
    spec fn contents(&self) -> Seq<u8>;

    /// Size of the medium in bytes.
    fn media_size(&self) -> (n: usize)
        ensures
            n == self.contents().len(),
    ;

    /// Reads `len` bytes starting at `offset`.
    fn read(&self, offset: usize, len: usize) -> (bytes: Vec<u8>)
        requires
            offset + len <= self.contents().len(),
        ensures
            bytes@ == self.contents().subrange(offset as int, offset as int + len as int),
    ;

    /// Erases the region, leaving every byte [`ERASED_BYTE`] on success.
    fn erase(&mut self, offset: usize, len: usize) -> (r: Result<(), StoreError>)
        requires
            offset + len <= old(self).contents().len(),
        ensures
            final(self).contents().len() == old(self).contents().len(),
            r is Ok ==> final(self).contents() == spec_erased(
                old(self).contents(),
                offset as int,
                len as int,
            ),
            r is Err ==> r == Err::<(), StoreError>(StoreError::EraseFailed),
    ;

    /// Writes `data` starting at `offset`.
    fn write(&mut self, offset: usize, data: &[u8]) -> (r: Result<(), StoreError>)
        requires
            offset + data@.len() <= old(self).contents().len(),
        ensures
            final(self).contents().len() == old(self).contents().len(),
            r is Ok ==> final(self).contents() == spec_written(
                old(self).contents(),
                offset as int,
                data@,
            ),
            r is Err ==> r == Err::<(), StoreError>(StoreError::WriteFailed),
    ;
}

/// An in-memory medium with the [`Storage`] contract, for running the core
/// without hardware. The two failure switches make the error paths of a
/// save reachable in tests.
pub struct RamStorage {
    /// The bytes of the simulated medium.
    pub data: Vec<u8>,
    /// When set, every erase is rejected.
    pub fail_erase: bool,
    /// When set, every write is rejected.
    pub fail_write: bool,
}

impl RamStorage {
    /// A blank medium: `size` bytes, all reading as erased.
    pub fn new(size: usize) -> (s: RamStorage)
        ensures
            s.contents() == Seq::new(size as nat, |i: int| ERASED_BYTE),
            !s.fail_erase,
            !s.fail_write,
    {
        let mut data: Vec<u8> = Vec::new();
        let mut i: usize = 0;
        while i < size
            invariant
                i <= size,
                data@ == Seq::new(i as nat, |j: int| ERASED_BYTE),
            decreases size - i,
        {
            data.push(ERASED_BYTE);
            proof {
                assert_seqs_equal!(data@ == Seq::new((i + 1) as nat, |j: int| ERASED_BYTE));
            }
            i += 1;
        }
        RamStorage { data, fail_erase: false, fail_write: false }
    }
}

impl Storage for RamStorage {
    open spec fn contents(&self) -> Seq<u8> {
        self.data@
    }

    fn media_size(&self) -> (n: usize)
    {
        self.data.len()
    }

    fn read(&self, offset: usize, len: usize) -> (bytes: Vec<u8>) {
        let n = self.data.len();
        let mut bytes: Vec<u8> = Vec::new();
        let mut i: usize = 0;
        while i < len
            invariant
                i <= len,
                offset + len <= n == self.data@.len(),
                bytes@ == self.data@.subrange(offset as int, offset as int + i as int),
            decreases len - i,
        {
            bytes.push(self.data[offset + i]);
            proof {
                assert_seqs_equal!(bytes@ ==
                    self.data@.subrange(offset as int, offset as int + (i + 1) as int));
            }
            i += 1;
        }
        bytes
    }

    fn erase(&mut self, offset: usize, len: usize) -> (r: Result<(), StoreError>)
        ensures
            r is Err <==> old(self).fail_erase,
            final(self).fail_erase == old(self).fail_erase,
            final(self).fail_write == old(self).fail_write,
    {
        if self.fail_erase {
            return Err(StoreError::EraseFailed);
        }
        let n = self.data.len();
        let mut i: usize = 0;
        while i < len
            invariant
                i <= len,
                offset + len <= n == self.data@.len(),
                self.data@.len() == old(self).data@.len(),
                self.fail_write == old(self).fail_write,
                self.fail_erase == old(self).fail_erase,
                self.data@ == Seq::new(
                    old(self).data@.len(),
                    |j: int|
                        if offset <= j < offset + i {
                            ERASED_BYTE
                        } else {
                            old(self).data@[j]
                        },
                ),
            decreases len - i,
        {
            self.data.set(offset + i, ERASED_BYTE);
            proof {
                assert_seqs_equal!(self.data@ == Seq::new(old(self).data@.len(),
                    |j: int| if offset <= j < offset + (i + 1) as int { ERASED_BYTE }
                    else { old(self).data@[j] }));
            }
            i += 1;
        }
        proof {
            assert_seqs_equal!(self.data@ ==
                spec_erased(old(self).data@, offset as int, len as int));
        }
        Ok(())
    }

    fn write(&mut self, offset: usize, data: &[u8]) -> (r: Result<(), StoreError>)
        ensures
            r is Err <==> old(self).fail_write,
            final(self).fail_erase == old(self).fail_erase,
            final(self).fail_write == old(self).fail_write,
    {
        if self.fail_write {
            return Err(StoreError::WriteFailed);
        }
        let n = self.data.len();
        let mut i: usize = 0;
        while i < data.len()
            invariant
                i <= data@.len(),
                offset + data@.len() <= n == self.data@.len(),
                self.data@.len() == old(self).data@.len(),
                self.fail_write == old(self).fail_write,
                self.fail_erase == old(self).fail_erase,
                self.data@ == Seq::new(
                    old(self).data@.len(),
                    |j: int|
                        if offset <= j < offset + i {
                            data@[j - offset]
                        } else {
                            old(self).data@[j]
                        },
                ),
            decreases data@.len() - i,
        {
            let b = *vstd::slice::slice_index_get(data, i);
            self.data.set(offset + i, b);
            proof {
                assert_seqs_equal!(self.data@ == Seq::new(old(self).data@.len(),
                    |j: int| if offset <= j < offset + (i + 1) as int { data@[j - offset] }
                    else { old(self).data@[j] }));
            }
            i += 1;
        }
        proof {
            assert_seqs_equal!(self.data@ == spec_written(old(self).data@, offset as int, data@));
        }
        Ok(())
    }
}

/// The configuration region of the medium's contents.
pub open spec fn config_region(s: Seq<u8>) -> Seq<u8> {
    s.subrange(CONFIG_OFFSET as int, CONFIG_OFFSET as int + RECORD_BYTES as int)
}

/// What loading yields: the decoded record, or the documented default when
/// the region does not hold a valid record.
pub open spec fn load_spec(s: Seq<u8>) -> Configuration {
    match spec_deserialize(config_region(s)) {
        Some(c) => c,
        None => default_configuration(),
    }
}

/// Loads the configuration from the medium. Any deserialization failure —
/// corrupt or blank contents, a version mismatch — yields the documented
/// default configuration instead of an error: persistence must never block
/// the boot sequence.
pub fn load_from_flash<S: Storage>(store: &S) -> (c: Configuration)
    requires
        store.contents().len() >= CONFIG_OFFSET + ERASE_BLOCK_BYTES,
    ensures
        c == load_spec(store.contents()),
        c.wf(),
{
    let bytes = store.read(CONFIG_OFFSET, RECORD_BYTES);
    let r = deserialize(bytes.as_slice());
    proof {
        if spec_deserialize(config_region(store.contents())) is Some {
            crate::codec::lemma_decoded_wf(config_region(store.contents()));
        }
    }
    match r {
        Some(c) => c,
        None => Configuration::default(),
    }
}

/// Saves the configuration: erases the configuration block, then writes the
/// serialized record. On success the medium reads back as exactly this
/// configuration; on failure the error says which step the medium rejected.
pub fn save_to_flash<S: Storage>(store: &mut S, config: &Configuration) -> (r: Result<
    (),
    StoreError,
>)
    requires
        config.wf(),
        old(store).contents().len() >= CONFIG_OFFSET + ERASE_BLOCK_BYTES,
    ensures
        final(store).contents().len() == old(store).contents().len(),
        r is Ok ==> load_spec(final(store).contents()) == *config,
        r is Err ==> r == Err::<(), StoreError>(StoreError::EraseFailed) || r == Err::<(),
            StoreError,
        >(StoreError::WriteFailed),
{
    let record = serialize(config);
    match store.erase(CONFIG_OFFSET, ERASE_BLOCK_BYTES) {
        Err(e) => {
            return Err(e);
        },
        Ok(()) => {},
    }
    match store.write(CONFIG_OFFSET, record.as_slice()) {
        Err(e) => {
            return Err(e);
        },
        Ok(()) => {},
    }
    proof {
        lemma_round_trip(*config);
        assert_seqs_equal!(config_region(store.contents()) == spec_serialize(*config));
    }
    Ok(())
}

} // verus!
