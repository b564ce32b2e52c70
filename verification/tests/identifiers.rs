use creditcoin::encode::{enc_bytes, enc_u64};
use creditcoin::ids;
use creditcoin::types::Blockchain;

#[test]
fn integers_encode_little_endian_fixed_width() {
    let mut out: Vec<u8> = Vec::new();
    enc_u64(1, &mut out);
    assert_eq!(out, vec![1, 0, 0, 0, 0, 0, 0, 0]);

    let mut out: Vec<u8> = Vec::new();
    enc_u64(0x0102030405060708, &mut out);
    assert_eq!(out, vec![8, 7, 6, 5, 4, 3, 2, 1]);
}

#[test]
fn byte_strings_encode_length_prefixed() {
    let mut out: Vec<u8> = Vec::new();
    enc_bytes(&vec![0xaa, 0xbb], &mut out);
    assert_eq!(out, vec![2, 0, 0, 0, 0, 0, 0, 0, 0xaa, 0xbb]);
}

#[test]
fn derive_id_is_deterministic() {
    let g = b"guid".to_vec();
    assert_eq!(ids::ask_order_hash(50, &g), ids::ask_order_hash(50, &g));
    assert_eq!(
        ids::transfer_id(Blockchain::Rinkeby, &vec![1, 2, 3]),
        ids::transfer_id(Blockchain::Rinkeby, &vec![1, 2, 3])
    );
    assert_eq!(
        ids::address_id(Blockchain::Ethereum, &vec![0x11; 20]),
        ids::address_id(Blockchain::Ethereum, &vec![0x11; 20])
    );
}

#[test]
fn derive_id_separates_fields_kinds_and_chains() {
    let g1 = b"guid-1".to_vec();
    let g2 = b"guid-2".to_vec();

    // Any single field change yields a different id.
    assert_ne!(ids::ask_order_hash(50, &g1), ids::ask_order_hash(50, &g2));
    assert_ne!(ids::ask_order_hash(50, &g1), ids::ask_order_hash(51, &g1));

    // The same fields under different entity kinds yield different ids.
    assert_ne!(ids::ask_order_hash(50, &g1), ids::bid_order_hash(50, &g1));

    // The same transaction on different chains yields different ids.
    assert_ne!(
        ids::transfer_id(Blockchain::Rinkeby, &vec![1, 2, 3]),
        ids::transfer_id(Blockchain::Ethereum, &vec![1, 2, 3])
    );

    // Field boundaries matter: shifting a byte between adjacent fields
    // cannot alias, because fields are length-prefixed.
    assert_ne!(
        ids::offer_hash(50, 50, &vec![1, 2], 50, &vec![3]),
        ids::offer_hash(50, 50, &vec![1], 50, &vec![2, 3])
    );
}
