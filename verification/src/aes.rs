//! AES-256 hardware-accelerator driver.
//!
//! The driver sequences a stateful cryptographic peripheral through
//! register-level handshakes: mode selection, key loading, FIFO push/pop
//! and flush. The register file is modelled as a typed mock
//! (`AesRegisters`) exposing the peripheral's read/modify/write contract:
//! control fields, status flags, the FIFO and the 32-word key register
//! window. The engine itself (what the hardware computes when a whole
//! block has been pushed) is the named cipher of [`crate::cipher`].

use vstd::prelude::*;

use crate::cipher::{aes256_decipher, aes256_encipher, hw_decipher, hw_encipher};
use crate::codec::{
    block_of_fifo_words, convert_u32_to_u8_array, convert_u8_to_u32_array, fifo_words_of_block,
    lemma_codec_round_trip,
};
use crate::gcr::GcrRegisters;

verus! {

/// One byte of an AES block.
pub type AesSubBlock = u8;

/// One AES block: exactly 16 bytes of plaintext or ciphertext.
pub type AesBlock = [AesSubBlock; 16];

/// One AES-256 key: exactly 32 bytes of raw key material.
pub type AesKey = [u8; 32];

/// The errors a block operation can return. Both are detected before any
/// FIFO word is transferred, so the peripheral state is unchanged on error.
#[derive(Debug, Clone, Copy, PartialEq, Eq, Structural)]
pub enum AesError {
    /// The input FIFO was not drained before a new block push was
    /// attempted: a caller sequencing violation.
    NotEmpty,
    /// The peripheral's live mode or key-size register does not match what
    /// the requested operation requires.
    Misconfigured,
}

/// The two operating modes this driver configures: the key always resides
/// in the dedicated key register window ("external key").
#[derive(Debug, Clone, Copy, PartialEq, Eq, Structural)]
pub enum OperatingMode {
    EncryptExternalKey,
    DecryptExternalKey,
}

/// The key sizes the hardware key-size field can report. This driver
/// always pins the field to [`KeySize::Aes256`]; any other reading is a
/// configuration fault.
#[derive(Debug, Clone, Copy, PartialEq, Eq, Structural)]
pub enum KeySize {
    Aes128,
    Aes192,
    Aes256,
}

/// The peripheral's register file, modelled as plain state: control
/// fields, status flags, both FIFOs and the key register window. A mock
/// with exactly the hardware's read/modify/write contract, so the
/// sequencing logic can be stated and proved over it.
pub struct AesRegisters {
    /// Control: peripheral enable.
    pub enabled: bool,
    /// Control: operating-type field. `None` models any encoding that is
    /// neither of the two external-key modes, such as the reset value.
    pub mode: Option<OperatingMode>,
    /// Control: key-size field.
    pub key_size: KeySize,
    /// Control: DMA receive path enable (always disabled by this driver).
    pub dma_rx_enabled: bool,
    /// Control: DMA transmit path enable (always disabled by this driver).
    pub dma_tx_enabled: bool,
    /// Status: engine busy flag.
    pub busy: bool,
    /// The input FIFO: words pushed toward the engine, oldest first.
    pub input_fifo: Vec<u32>,
    /// The output FIFO: words produced by the engine, oldest first.
    pub output_fifo: Vec<u32>,
    /// The key register window: 32 four-byte words (128 bytes) that alias
    /// the engine's key storage.
    pub key_window: Vec<u8>,
}

/// The key register window holds exactly its 32 four-byte words.
pub open spec fn key_window_wf(r: AesRegisters) -> bool {
    r.key_window@.len() == 128
}

/// The 32 bytes of live AES-256 key material: the first 32 bytes of the
/// key register window, in address order.
pub open spec fn key_bytes(r: AesRegisters) -> Seq<u8> {
    r.key_window@.subrange(0, 32)
}

/// Two register files agree on all control fields and the key window.
pub open spec fn same_ctrl(a: AesRegisters, b: AesRegisters) -> bool {
    &&& a.enabled == b.enabled
    &&& a.mode == b.mode
    &&& a.key_size == b.key_size
    &&& a.dma_rx_enabled == b.dma_rx_enabled
    &&& a.dma_tx_enabled == b.dma_tx_enabled
    &&& a.key_window@ == b.key_window@
}

/// Two register files agree on everything but the FIFOs.
pub open spec fn same_config(a: AesRegisters, b: AesRegisters) -> bool {
    same_ctrl(a, b) && a.busy == b.busy
}

/// The busy-wait's termination measure: how many polls remain before the
/// busy flag reads clear.
pub open spec fn busy_measure(r: AesRegisters) -> int {
    if r.busy {
        1
    } else {
        0
    }
}

/// What the engine computes on a 16-byte block `b` under mode `m` and key
/// `key`.
pub open spec fn cipher_apply(m: OperatingMode, key: Seq<u8>, b: Seq<u8>) -> Seq<u8> {
    match m {
        OperatingMode::EncryptExternalKey => aes256_encipher(key, b),
        OperatingMode::DecryptExternalKey => aes256_decipher(key, b),
    }
}

/// The opposite direction of [`cipher_apply`].
pub open spec fn cipher_unapply(m: OperatingMode, key: Seq<u8>, b: Seq<u8>) -> Seq<u8> {
    match m {
        OperatingMode::EncryptExternalKey => aes256_decipher(key, b),
        OperatingMode::DecryptExternalKey => aes256_encipher(key, b),
    }
}

/// The engine consumes a full input FIFO only when the peripheral is
/// enabled and the key-size field reads as 256 bits.
pub open spec fn engine_ready(r: AesRegisters) -> bool {
    r.enabled && r.key_size == KeySize::Aes256 && r.mode is Some
}

/// The mode and key-size preconditions of a block operation in direction
/// `m` hold, and the input FIFO is drained.
pub open spec fn block_op_ready(r: AesRegisters, m: OperatingMode) -> bool {
    &&& r.mode == Some(m)
    &&& r.key_size == KeySize::Aes256
    &&& r.input_fifo@.len() == 0
}

/// The AES peripheral driver: the sole owner of the register file.
pub struct Aes {
    pub regs: AesRegisters,
}

impl Aes {
    /// Create a new AES peripheral instance: invokes reset and clock
    /// enable exactly once, and places the peripheral into a known,
    /// disabled-until-configured state with both FIFOs flushed, DMA paths
    /// disabled and the key window zeroed.
    pub fn new(aes: AesRegisters, reg: &mut GcrRegisters) -> (s: Aes)
        ensures
            final(reg).aes_reset_done,
            final(reg).aes_clock_enabled,
            final(reg).wdt_reset_done == old(reg).wdt_reset_done,
            final(reg).wdt_clock_enabled == old(reg).wdt_clock_enabled,
            !s.regs.enabled,
            s.regs.mode is None,
            s.regs.key_size == KeySize::Aes128,
            !s.regs.dma_rx_enabled,
            !s.regs.dma_tx_enabled,
            !s.regs.busy,
            s.regs.input_fifo@.len() == 0,
            s.regs.output_fifo@.len() == 0,
            s.regs.key_window@.len() == 128,
            forall|i: int| 0 <= i < 128 ==> s.regs.key_window@[i] == 0,
    {
        reg.aes_reset_done = true;
        reg.aes_clock_enabled = true;
        let mut regs = aes;
        regs.enabled = false;
        regs.mode = None;
        regs.key_size = KeySize::Aes128;
        regs.dma_rx_enabled = false;
        regs.dma_tx_enabled = false;
        regs.busy = false;
        regs.input_fifo = Vec::new();
        regs.output_fifo = Vec::new();
        regs.key_window = zeroed_window();
        Aes { regs }
    }

    /// Busy-wait until the engine reports not-busy: polls the busy flag
    /// with no yield. The hardware contract that busy eventually clears
    /// appears in the model as the flag reading clear once polled.
    pub fn _wait(&mut self)
        ensures
            same_ctrl(final(self).regs, old(self).regs),
            final(self).regs.input_fifo@ == old(self).regs.input_fifo@,
            final(self).regs.output_fifo@ == old(self).regs.output_fifo@,
            !final(self).regs.busy,
    {
        while self._is_busy()
            invariant
                same_ctrl(self.regs, old(self).regs),
                self.regs.input_fifo@ == old(self).regs.input_fifo@,
                self.regs.output_fifo@ == old(self).regs.output_fifo@,
            decreases busy_measure(self.regs),
        {
            self.regs.busy = false;
        }
    }

    /// Live read of the status register's busy flag.
    pub fn _is_busy(&self) -> (r: bool)
        ensures
            r == self.regs.busy,
    {
        self.regs.busy
    }

    /// Live read of the status register's input-FIFO-empty flag.
    pub fn _in_fifo_empty(&self) -> (r: bool)
        ensures
            r == (self.regs.input_fifo@.len() == 0),
    {
        self.regs.input_fifo.len() == 0
    }

    /// Live read of the status register's output-FIFO-empty flag.
    pub fn _out_fifo_empty(&self) -> (r: bool)
        ensures
            r == (self.regs.output_fifo@.len() == 0),
    {
        self.regs.output_fifo.len() == 0
    }

    /// Live read of the status register's output-FIFO-full flag.
    pub fn _out_fifo_full(&self) -> (r: bool)
        ensures
            r == (self.regs.output_fifo@.len() >= 4),
    {
        self.regs.output_fifo.len() >= 4
    }

    /// Live read of the control register's key-size field.
    pub fn _get_key_size(&self) -> (r: KeySize)
        ensures
            r == self.regs.key_size,
    {
        self.regs.key_size
    }

    /// Live read of the control register's operating-type field.
    pub fn _get_mode(&self) -> (r: Option<OperatingMode>)
        ensures
            r == self.regs.mode,
    {
        self.regs.mode
    }

    /// Push one word into the input FIFO through the data register. When
    /// the word completes a four-word block and the engine is ready, the
    /// engine consumes the input FIFO and appends the processed block's
    /// four words to the output FIFO.
    pub fn _set_in_fifo(&mut self, subblock: u32)
        requires
            key_window_wf(old(self).regs),
            old(self).regs.input_fifo@.len() < 4,
        ensures
            same_config(final(self).regs, old(self).regs),
            ({
                let r0 = old(self).regs;
                let pushed = r0.input_fifo@.push(subblock);
                if engine_ready(r0) && pushed.len() == 4 {
                    let m = r0.mode->0;
                    let out = cipher_apply(m, key_bytes(r0), block_of_fifo_words(pushed));
                    &&& final(self).regs.input_fifo@.len() == 0
                    &&& final(self).regs.output_fifo@ == r0.output_fifo@
                        + fifo_words_of_block(out)
                    &&& out.len() == 16
                    &&& cipher_unapply(m, key_bytes(r0), out) == block_of_fifo_words(pushed)
                } else {
                    &&& final(self).regs.input_fifo@ == pushed
                    &&& final(self).regs.output_fifo@ == r0.output_fifo@
                }
            }),
    {
        let ghost r0 = self.regs;
        self.regs.input_fifo.push(subblock);
        let size_ok = match self.regs.key_size {
            KeySize::Aes256 => true,
            _ => false,
        };
        if self.regs.enabled && size_ok && self.regs.input_fifo.len() == 4 {
            match self.regs.mode {
                Some(m) => {
                    let key = self.read_key_bytes();
                    let w0 = self.regs.input_fifo[0];
                    let w1 = self.regs.input_fifo[1];
                    let w2 = self.regs.input_fifo[2];
                    let w3 = self.regs.input_fifo[3];
                    proof {
                        assert([w0, w1, w2, w3]@ =~= r0.input_fifo@.push(subblock));
                    }
                    let block_arr = convert_u32_to_u8_array([w0, w1, w2, w3]);
                    let out = match m {
                        OperatingMode::EncryptExternalKey => {
                            hw_encipher(key.as_slice(), block_arr)
                        },
                        OperatingMode::DecryptExternalKey => {
                            hw_decipher(key.as_slice(), block_arr)
                        },
                    };
                    let out_words = convert_u8_to_u32_array(out);
                    self.regs.input_fifo = Vec::new();
                    self.regs.output_fifo.push(out_words[0]);
                    self.regs.output_fifo.push(out_words[1]);
                    self.regs.output_fifo.push(out_words[2]);
                    self.regs.output_fifo.push(out_words[3]);
                    proof {
                        let pushed = r0.input_fifo@.push(subblock);
                        let o = cipher_apply(m, key_bytes(r0), block_of_fifo_words(pushed));
                        assert(self.regs.output_fifo@ =~= r0.output_fifo@
                            + fifo_words_of_block(o));
                    }
                },
                None => {},
            }
        }
    }

    /// Pop one word from the output FIFO through the data register. A read
    /// while the output FIFO is empty returns zero and moves nothing.
    pub fn _get_out_fifo(&mut self) -> (r: u32)
        ensures
            same_config(final(self).regs, old(self).regs),
            final(self).regs.input_fifo@ == old(self).regs.input_fifo@,
            old(self).regs.output_fifo@.len() > 0 ==> {
                &&& r == old(self).regs.output_fifo@[0]
                &&& final(self).regs.output_fifo@ == old(self).regs.output_fifo@.skip(1)
            },
            old(self).regs.output_fifo@.len() == 0 ==> {
                &&& r == 0
                &&& final(self).regs.output_fifo@ == old(self).regs.output_fifo@
            },
    {
        if self.regs.output_fifo.len() > 0 {
            let r = self.regs.output_fifo.remove(0);
            proof {
                assert(self.regs.output_fifo@ =~= old(self).regs.output_fifo@.skip(1));
            }
            r
        } else {
            0
        }
    }

    /// Flush each FIFO that is observed non-empty, then wait for idle.
    pub fn _flush(&mut self)
        ensures
            same_ctrl(final(self).regs, old(self).regs),
            final(self).regs.input_fifo@.len() == 0,
            final(self).regs.output_fifo@.len() == 0,
            !final(self).regs.busy,
    {
        if !self._in_fifo_empty() {
            self.regs.input_fifo = Vec::new();
        }
        if !self._out_fifo_empty() {
            self.regs.output_fifo = Vec::new();
        }
        self._wait();
    }

    /// Copy of the 32 bytes of live key material, in address order.
    fn read_key_bytes(&self) -> (k: Vec<u8>)
        requires
            key_window_wf(self.regs),
        ensures
            k@ == key_bytes(self.regs),
    {
        let mut k: Vec<u8> = Vec::new();
        let mut i: usize = 0;
        while i < 32
            invariant
                i <= 32,
                key_window_wf(self.regs),
                k@ =~= self.regs.key_window@.subrange(0, i as int),
            decreases 32 - i,
        {
            k.push(self.regs.key_window[i]);
            i += 1;
        }
        proof {
            assert(k@ =~= key_bytes(self.regs));
        }
        k
    }

    /// Switch the peripheral's operating mode: disables the peripheral,
    /// waits for idle, writes the new mode with the key size pinned to 256
    /// bits, flushes both FIFOs, keeps both DMA paths disabled, re-enables
    /// and waits until consistent. Cannot fail under correct hardware
    /// behavior, so it blocks rather than returning an error.
    pub fn set_mode(&mut self, mode: OperatingMode)
        ensures
            final(self).regs.mode == Some(mode),
            final(self).regs.key_size == KeySize::Aes256,
            final(self).regs.enabled,
            !final(self).regs.dma_rx_enabled,
            !final(self).regs.dma_tx_enabled,
            !final(self).regs.busy,
            final(self).regs.input_fifo@.len() == 0,
            final(self).regs.output_fifo@.len() == 0,
            final(self).regs.key_window@ == old(self).regs.key_window@,
    {
        self.regs.enabled = false;
        self._wait();
        self.regs.mode = Some(mode);
        self.regs.key_size = KeySize::Aes256;
        self.regs.input_fifo = Vec::new();
        self.regs.output_fifo = Vec::new();
        self.regs.dma_rx_enabled = false;
        self.regs.dma_tx_enabled = false;
        self.regs.enabled = true;
        self._wait();
    }

    /// Load a raw 256-bit key. Waits for idle, disables the peripheral,
    /// waits for idle again, flushes each FIFO that is non-empty, zeroes
    /// the whole key register window, copies the 32 key bytes verbatim in
    /// address order, re-enables and waits for idle. The zero-then-copy
    /// discipline guarantees that no bits of any earlier key survive in
    /// the window: afterwards the window holds exactly the new key
    /// followed by zeros, whatever it held before.
    pub fn set_key(&mut self, key: &AesKey)
        requires
            key_window_wf(old(self).regs),
        ensures
            key_window_wf(final(self).regs),
            forall|i: int| 0 <= i < 32 ==> final(self).regs.key_window@[i] == key@[i],
            forall|i: int| 32 <= i < 128 ==> final(self).regs.key_window@[i] == 0,
            key_bytes(final(self).regs) == key@,
            final(self).regs.mode == old(self).regs.mode,
            final(self).regs.key_size == old(self).regs.key_size,
            final(self).regs.dma_rx_enabled == old(self).regs.dma_rx_enabled,
            final(self).regs.dma_tx_enabled == old(self).regs.dma_tx_enabled,
            final(self).regs.enabled,
            !final(self).regs.busy,
            final(self).regs.input_fifo@.len() == 0,
            final(self).regs.output_fifo@.len() == 0,
    {
        self._wait();
        self.regs.enabled = false;
        self._wait();
        self._flush();
        let mut i: usize = 0;
        while i < 128
            invariant
                i <= 128,
                key_window_wf(self.regs),
                forall|j: int| 0 <= j < i ==> self.regs.key_window@[j] == 0,
                !self.regs.enabled,
                self.regs.mode == old(self).regs.mode,
                self.regs.key_size == old(self).regs.key_size,
                self.regs.dma_rx_enabled == old(self).regs.dma_rx_enabled,
                self.regs.dma_tx_enabled == old(self).regs.dma_tx_enabled,
                !self.regs.busy,
                self.regs.input_fifo@.len() == 0,
                self.regs.output_fifo@.len() == 0,
            decreases 128 - i,
        {
            self.regs.key_window[i] = 0;
            i += 1;
        }
        let mut i: usize = 0;
        while i < 32
            invariant
                i <= 32,
                key_window_wf(self.regs),
                forall|j: int| 0 <= j < i ==> self.regs.key_window@[j] == key@[j],
                forall|j: int| i <= j < 128 ==> self.regs.key_window@[j] == 0,
                !self.regs.enabled,
                self.regs.mode == old(self).regs.mode,
                self.regs.key_size == old(self).regs.key_size,
                self.regs.dma_rx_enabled == old(self).regs.dma_rx_enabled,
                self.regs.dma_tx_enabled == old(self).regs.dma_tx_enabled,
                !self.regs.busy,
                self.regs.input_fifo@.len() == 0,
                self.regs.output_fifo@.len() == 0,
            decreases 32 - i,
        {
            self.regs.key_window[i] = key[i];
            i += 1;
        }
        self.regs.enabled = true;
        self._wait();
        proof {
            assert(key_bytes(self.regs) =~= key@);
        }
    }

    /// One synchronous, blocking block operation in direction `m`:
    /// validates mode, key size and input-FIFO emptiness (in that order,
    /// first failure wins, nothing transferred on error), then pushes the
    /// four block words, waits until not-busy, and pops the four processed
    /// words.
    fn block_op(&mut self, m: OperatingMode, in_block: AesBlock) -> (r: Result<
        AesBlock,
        AesError,
    >)
        requires
            key_window_wf(old(self).regs),
        ensures
            old(self).regs.mode != Some(m) ==> r == Err::<AesBlock, AesError>(
                AesError::Misconfigured,
            ) && *final(self) == *old(self),
            old(self).regs.mode == Some(m) && old(self).regs.key_size != KeySize::Aes256 ==> r
                == Err::<AesBlock, AesError>(AesError::Misconfigured) && *final(self) == *old(
                self,
            ),
            old(self).regs.mode == Some(m) && old(self).regs.key_size == KeySize::Aes256 && old(
                self,
            ).regs.input_fifo@.len() != 0 ==> r == Err::<AesBlock, AesError>(AesError::NotEmpty)
                && *final(self) == *old(self),
            block_op_ready(old(self).regs, m) && old(self).regs.enabled && old(
                self,
            ).regs.output_fifo@.len() == 0 ==> ({
                let kb = key_bytes(old(self).regs);
                &&& r matches Ok(out)
                &&& out@ == cipher_apply(m, kb, in_block@)
                &&& cipher_unapply(m, kb, out@) == in_block@
                &&& same_ctrl(final(self).regs, old(self).regs)
                &&& !final(self).regs.busy
                &&& final(self).regs.input_fifo@.len() == 0
                &&& final(self).regs.output_fifo@.len() == 0
            }),
    {
        let in_block_32: [u32; 4] = convert_u8_to_u32_array(in_block);

        let mode_ok = match self._get_mode() {
            Some(current) => match (current, m) {
                (OperatingMode::EncryptExternalKey, OperatingMode::EncryptExternalKey) => true,
                (OperatingMode::DecryptExternalKey, OperatingMode::DecryptExternalKey) => true,
                _ => false,
            },
            None => false,
        };
        if !mode_ok {
            return Err(AesError::Misconfigured);
        }

        let size_ok = match self._get_key_size() {
            KeySize::Aes256 => true,
            _ => false,
        };
        if !size_ok {
            return Err(AesError::Misconfigured);
        }

        if !self._in_fifo_empty() {
            return Err(AesError::NotEmpty);
        }

        self._set_in_fifo(in_block_32[0]);
        self._set_in_fifo(in_block_32[1]);
        self._set_in_fifo(in_block_32[2]);
        self._set_in_fifo(in_block_32[3]);

        self._wait();

        let w0 = self._get_out_fifo();
        let w1 = self._get_out_fifo();
        let w2 = self._get_out_fifo();
        let w3 = self._get_out_fifo();

        let ghost kb = key_bytes(old(self).regs);
        let ghost processed = cipher_apply(m, kb, in_block@);
        proof {
            if old(self).regs.enabled && old(self).regs.output_fifo@.len() == 0 {
                assert(old(self).regs.input_fifo@ =~= Seq::<u32>::empty());
                assert(in_block_32@ =~= Seq::<u32>::empty().push(in_block_32@[0]).push(
                    in_block_32@[1],
                ).push(in_block_32@[2]).push(in_block_32@[3]));
                lemma_codec_round_trip(in_block@);
                assert(old(self).regs.output_fifo@ + fifo_words_of_block(processed)
                    =~= fifo_words_of_block(processed));
                assert([w0, w1, w2, w3]@ =~= fifo_words_of_block(processed));
                lemma_codec_round_trip(processed);
            }
        }
        let out_block = convert_u32_to_u8_array([w0, w1, w2, w3]);
        Ok(out_block)
    }

    /// Encrypt one 16-byte block with the loaded 256-bit key.
    ///
    /// Fails with `Misconfigured` if the live mode is not
    /// `EncryptExternalKey` or the key size does not read as 256 bits, and
    /// with `NotEmpty` if the input FIFO was not drained — in that order,
    /// before any FIFO word is transferred, leaving the peripheral's
    /// observable state unchanged. On success the returned block is the
    /// engine's AES-256 ciphertext of the input under the key window's
    /// live key, all four words round-tripped through the FIFO.
    pub fn encrypt_block(&mut self, in_block: AesBlock) -> (r: Result<AesBlock, AesError>)
        requires
            key_window_wf(old(self).regs),
        ensures
            old(self).regs.mode != Some(OperatingMode::EncryptExternalKey) ==> r == Err::<
                AesBlock,
                AesError,
            >(AesError::Misconfigured) && *final(self) == *old(self),
            old(self).regs.mode == Some(OperatingMode::EncryptExternalKey) && old(
                self,
            ).regs.key_size != KeySize::Aes256 ==> r == Err::<AesBlock, AesError>(
                AesError::Misconfigured,
            ) && *final(self) == *old(self),
            old(self).regs.mode == Some(OperatingMode::EncryptExternalKey) && old(
                self,
            ).regs.key_size == KeySize::Aes256 && old(self).regs.input_fifo@.len() != 0 ==> r
                == Err::<AesBlock, AesError>(AesError::NotEmpty) && *final(self) == *old(self),
            block_op_ready(old(self).regs, OperatingMode::EncryptExternalKey) && old(
                self,
            ).regs.enabled && old(self).regs.output_fifo@.len() == 0 ==> ({
                let kb = key_bytes(old(self).regs);
                &&& r matches Ok(out)
                &&& out@ == aes256_encipher(kb, in_block@)
                &&& aes256_decipher(kb, out@) == in_block@
                &&& same_ctrl(final(self).regs, old(self).regs)
                &&& !final(self).regs.busy
                &&& final(self).regs.input_fifo@.len() == 0
                &&& final(self).regs.output_fifo@.len() == 0
            }),
    {
        self.block_op(OperatingMode::EncryptExternalKey, in_block)
    }

    /// Decrypt one 16-byte block with the loaded 256-bit key.
    ///
    /// Fails with `Misconfigured` if the live mode is not
    /// `DecryptExternalKey` or the key size does not read as 256 bits, and
    /// with `NotEmpty` if the input FIFO was not drained — in that order,
    /// before any FIFO word is transferred, leaving the peripheral's
    /// observable state unchanged. On success the returned block is the
    /// engine's AES-256 plaintext of the input under the key window's live
    /// key; in particular it recovers whatever block the input was
    /// enciphered from under the same key.
    pub fn decrypt_block(&mut self, in_block: AesBlock) -> (r: Result<AesBlock, AesError>)
        requires
            key_window_wf(old(self).regs),
        ensures
            old(self).regs.mode != Some(OperatingMode::DecryptExternalKey) ==> r == Err::<
                AesBlock,
                AesError,
            >(AesError::Misconfigured) && *final(self) == *old(self),
            old(self).regs.mode == Some(OperatingMode::DecryptExternalKey) && old(
                self,
            ).regs.key_size != KeySize::Aes256 ==> r == Err::<AesBlock, AesError>(
                AesError::Misconfigured,
            ) && *final(self) == *old(self),
            old(self).regs.mode == Some(OperatingMode::DecryptExternalKey) && old(
                self,
            ).regs.key_size == KeySize::Aes256 && old(self).regs.input_fifo@.len() != 0 ==> r
                == Err::<AesBlock, AesError>(AesError::NotEmpty) && *final(self) == *old(self),
            block_op_ready(old(self).regs, OperatingMode::DecryptExternalKey) && old(
                self,
            ).regs.enabled && old(self).regs.output_fifo@.len() == 0 ==> ({
                let kb = key_bytes(old(self).regs);
                &&& r matches Ok(out)
                &&& out@ == aes256_decipher(kb, in_block@)
                &&& aes256_encipher(kb, out@) == in_block@
                &&& same_ctrl(final(self).regs, old(self).regs)
                &&& !final(self).regs.busy
                &&& final(self).regs.input_fifo@.len() == 0
                &&& final(self).regs.output_fifo@.len() == 0
            }),
    {
        self.block_op(OperatingMode::DecryptExternalKey, in_block)
    }
}

/// Round trip, verified for every 32-byte key and every 16-byte block:
/// loading the key, encrypting the block in `EncryptExternalKey` mode,
/// switching to `DecryptExternalKey` mode and decrypting the ciphertext
/// recovers the original block exactly.
pub fn encrypt_then_decrypt(aes: &mut Aes, key: &AesKey, block: AesBlock) -> (r: AesBlock)
    requires
        key_window_wf(old(aes).regs),
    ensures
        r@ == block@,
{
    aes.set_key(key);
    aes.set_mode(OperatingMode::EncryptExternalKey);
    let c = aes.encrypt_block(block);
    let ciphertext = c.unwrap();
    aes.set_mode(OperatingMode::DecryptExternalKey);
    let p = aes.decrypt_block(ciphertext);
    p.unwrap()
}

/// A key register window of 32 four-byte words, all zero.
fn zeroed_window() -> (v: Vec<u8>)
    ensures
        v@.len() == 128,
        forall|i: int| 0 <= i < 128 ==> v@[i] == 0,
{
    let mut v: Vec<u8> = Vec::new();
    let mut i: usize = 0;
    while i < 128
        invariant
            i <= 128,
            v@.len() == i,
            forall|j: int| 0 <= j < i ==> v@[j] == 0,
        decreases 128 - i,
    {
        v.push(0);
        i += 1;
    }
    v
}

} // verus!
