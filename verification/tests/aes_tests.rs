use periph_hal::aes::{
    encrypt_then_decrypt, Aes, AesError, AesRegisters, KeySize, OperatingMode,
};
use periph_hal::gcr::GcrRegisters;

fn fresh_registers() -> AesRegisters {
    AesRegisters {
        enabled: false,
        mode: None,
        key_size: KeySize::Aes128,
        dma_rx_enabled: false,
        dma_tx_enabled: false,
        busy: false,
        input_fifo: vec![],
        output_fifo: vec![],
        key_window: vec![0u8; 128],
    }
}

fn make_driver() -> Aes {
    let mut gcr = GcrRegisters::new();
    Aes::new(fresh_registers(), &mut gcr)
}

// The standard AES-256 known-answer ciphertext for an all-zero key and an
// all-zero plaintext block.
const ZERO_KEY_ZERO_BLOCK_CIPHERTEXT: [u8; 16] = [
    0xdc, 0x95, 0xc0, 0x78, 0xa2, 0x40, 0x89, 0x89, 0xad, 0x48, 0xa2, 0x14, 0x92, 0x84, 0x20,
    0x87,
];

#[test]
fn construction_resets_and_enables_clock() {
    let mut gcr = GcrRegisters::new();
    let drv = Aes::new(fresh_registers(), &mut gcr);
    assert!(gcr.aes_reset_done);
    assert!(gcr.aes_clock_enabled);
    assert!(!gcr.wdt_reset_done);
    assert!(!drv.regs.enabled);
    assert!(drv._get_mode().is_none());
    assert_eq!(drv.regs.key_window, vec![0u8; 128]);
    assert!(drv._in_fifo_empty());
    assert!(drv._out_fifo_empty());
    assert!(!drv._out_fifo_full());
    assert!(!drv._is_busy());
}

#[test]
fn encrypt_zero_key_zero_block_matches_known_answer() {
    let mut drv = make_driver();
    drv.set_mode(OperatingMode::EncryptExternalKey);
    drv.set_key(&[0u8; 32]);
    let ct = drv.encrypt_block([0u8; 16]).unwrap();
    assert_eq!(ct, ZERO_KEY_ZERO_BLOCK_CIPHERTEXT);
}

#[test]
fn decrypt_known_answer_recovers_zero_block() {
    let mut drv = make_driver();
    drv.set_mode(OperatingMode::EncryptExternalKey);
    drv.set_key(&[0u8; 32]);
    let ct = drv.encrypt_block([0u8; 16]).unwrap();
    drv.set_mode(OperatingMode::DecryptExternalKey);
    let pt = drv.decrypt_block(ct).unwrap();
    assert_eq!(pt, [0u8; 16]);
}

#[test]
fn decrypt_right_after_construction_is_misconfigured() {
    let mut drv = make_driver();
    let r = drv.decrypt_block([0u8; 16]);
    assert_eq!(r.unwrap_err(), AesError::Misconfigured);
}

#[test]
fn encrypt_right_after_construction_is_misconfigured() {
    let mut drv = make_driver();
    let r = drv.encrypt_block([7u8; 16]);
    assert_eq!(r.unwrap_err(), AesError::Misconfigured);
}

#[test]
fn encrypt_in_decrypt_mode_is_misconfigured_and_leaves_fifos_alone() {
    let mut drv = make_driver();
    drv.set_mode(OperatingMode::DecryptExternalKey);
    drv.set_key(&[9u8; 32]);
    let r = drv.encrypt_block([1u8; 16]);
    assert_eq!(r.unwrap_err(), AesError::Misconfigured);
    assert!(drv._in_fifo_empty());
    assert!(drv._out_fifo_empty());
    assert_eq!(drv._get_mode(), Some(OperatingMode::DecryptExternalKey));
}

#[test]
fn decrypt_in_encrypt_mode_is_misconfigured_and_leaves_fifos_alone() {
    let mut drv = make_driver();
    drv.set_mode(OperatingMode::EncryptExternalKey);
    drv.set_key(&[9u8; 32]);
    let r = drv.decrypt_block([1u8; 16]);
    assert_eq!(r.unwrap_err(), AesError::Misconfigured);
    assert!(drv._in_fifo_empty());
    assert!(drv._out_fifo_empty());
    assert_eq!(drv._get_mode(), Some(OperatingMode::EncryptExternalKey));
}

#[test]
fn wrong_key_size_is_misconfigured() {
    let mut drv = make_driver();
    // Simulate a key-size field that never got pinned to 256 bits.
    drv.regs.mode = Some(OperatingMode::EncryptExternalKey);
    assert_eq!(drv._get_key_size(), KeySize::Aes128);
    let r = drv.encrypt_block([0u8; 16]);
    assert_eq!(r.unwrap_err(), AesError::Misconfigured);
}

#[test]
fn undrained_input_fifo_is_not_empty_error() {
    let mut drv = make_driver();
    drv.set_mode(OperatingMode::EncryptExternalKey);
    drv.set_key(&[3u8; 32]);
    // A prior push without a matching pop leaves the input FIFO non-empty.
    drv._set_in_fifo(0x1234_5678);
    assert!(!drv._in_fifo_empty());
    let r = drv.encrypt_block([0u8; 16]);
    assert_eq!(r.unwrap_err(), AesError::NotEmpty);
    // The word is still queued: the failed call transferred nothing.
    assert_eq!(drv.regs.input_fifo, vec![0x1234_5678]);
    assert!(drv._out_fifo_empty());
}

#[test]
fn flush_drains_both_fifos() {
    let mut drv = make_driver();
    drv._set_in_fifo(1);
    drv.regs.output_fifo.push(2);
    drv._flush();
    assert!(drv._in_fifo_empty());
    assert!(drv._out_fifo_empty());
}

#[test]
fn set_key_overwrites_every_bit_of_the_previous_key() {
    let mut drv = make_driver();
    drv.set_mode(OperatingMode::EncryptExternalKey);
    drv.set_key(&[0xFFu8; 32]);
    let mut k2 = [0u8; 32];
    k2[0] = 1;
    k2[1] = 2;
    k2[2] = 3;
    drv.set_key(&k2);
    let mut expected = vec![0u8; 128];
    expected[0] = 1;
    expected[1] = 2;
    expected[2] = 3;
    assert_eq!(drv.regs.key_window, expected);
}

#[test]
fn set_mode_flushes_and_pins_key_size() {
    let mut drv = make_driver();
    drv._set_in_fifo(0xAB);
    drv.regs.output_fifo.push(0xCD);
    drv.set_mode(OperatingMode::DecryptExternalKey);
    assert_eq!(drv._get_mode(), Some(OperatingMode::DecryptExternalKey));
    assert_eq!(drv._get_key_size(), KeySize::Aes256);
    assert!(drv.regs.enabled);
    assert!(!drv.regs.dma_rx_enabled);
    assert!(!drv.regs.dma_tx_enabled);
    assert!(drv._in_fifo_empty());
    assert!(drv._out_fifo_empty());
}

#[test]
fn round_trip_recovers_arbitrary_block() {
    let mut drv = make_driver();
    let mut key = [0u8; 32];
    for (i, b) in key.iter_mut().enumerate() {
        *b = (37 * i + 11) as u8;
    }
    let mut block = [0u8; 16];
    for (i, b) in block.iter_mut().enumerate() {
        *b = (91 * i + 5) as u8;
    }
    drv.set_key(&key);
    drv.set_mode(OperatingMode::EncryptExternalKey);
    let ct = drv.encrypt_block(block).unwrap();
    assert_ne!(ct, block);
    drv.set_mode(OperatingMode::DecryptExternalKey);
    let pt = drv.decrypt_block(ct).unwrap();
    assert_eq!(pt, block);
}

#[test]
fn round_trip_helper_recovers_block() {
    let mut drv = make_driver();
    let key = [0x42u8; 32];
    let block = [0x17u8; 16];
    let recovered = encrypt_then_decrypt(&mut drv, &key, block);
    assert_eq!(recovered, block);
}

#[test]
fn different_keys_give_different_ciphertexts() {
    let mut drv = make_driver();
    drv.set_mode(OperatingMode::EncryptExternalKey);
    drv.set_key(&[0u8; 32]);
    let c1 = drv.encrypt_block([0u8; 16]).unwrap();
    let mut k2 = [0u8; 32];
    k2[31] = 1;
    drv.set_key(&k2);
    let c2 = drv.encrypt_block([0u8; 16]).unwrap();
    assert_ne!(c1, c2);
}
