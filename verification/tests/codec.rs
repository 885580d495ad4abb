use dyncert::codec::extract_cert_from_pem_str;
use dyncert::codec::extract_priv_key_from_pem;
use dyncert::errors::CodecError;

fn generated_material() -> (String, String, Vec<u8>, Vec<u8>) {
    let generated =
        rcgen::generate_simple_self_signed(vec![String::from("example.test")]).unwrap();
    let cert_pem = generated.cert.pem();
    let key_pem = generated.signing_key.serialize_pem();
    let cert_der = generated.cert.der().as_ref().to_vec();
    let key_der = generated.signing_key.serialize_der();
    (cert_pem, key_pem, cert_der, key_der)
}

#[test]
fn single_cert_chain_parses_to_its_der() {
    let (cert_pem, _, cert_der, _) = generated_material();
    let chain = extract_cert_from_pem_str(cert_pem.as_bytes());
    assert_eq!(chain.len(), 1);
    assert_eq!(chain[0], cert_der);
}

#[test]
fn two_cert_sections_parse_to_two_certs_in_order() {
    let (cert_pem_a, _, cert_der_a, _) = generated_material();
    let (cert_pem_b, _, cert_der_b, _) = generated_material();
    let blob = format!("{}{}", cert_pem_a, cert_pem_b);
    let chain = extract_cert_from_pem_str(blob.as_bytes());
    assert_eq!(chain.len(), 2);
    assert_eq!(chain[0], cert_der_a);
    assert_eq!(chain[1], cert_der_b);
}

#[test]
fn malformed_block_before_valid_block_is_skipped() {
    let (cert_pem, _, cert_der, _) = generated_material();
    let malformed = "-----BEGIN CERTIFICATE-----\n!!!not base64!!!\n-----END CERTIFICATE-----\n";
    let blob = format!("{}{}", malformed, cert_pem);
    let chain = extract_cert_from_pem_str(blob.as_bytes());
    assert_eq!(chain.len(), 1);
    assert_eq!(chain[0], cert_der);
}

#[test]
fn empty_text_parses_to_empty_chain() {
    let chain = extract_cert_from_pem_str(b"");
    assert_eq!(chain.len(), 0);
}

#[test]
fn one_key_parses_to_its_der() {
    let (_, key_pem, _, key_der) = generated_material();
    let key = extract_priv_key_from_pem(key_pem.as_bytes()).unwrap();
    assert_eq!(key, key_der);
}

#[test]
fn zero_keys_fail_with_no_key_found() {
    let (cert_pem, _, _, _) = generated_material();
    let out = extract_priv_key_from_pem(cert_pem.as_bytes());
    assert_eq!(out, Err(CodecError::NoKeyFound));
    let out = extract_priv_key_from_pem(b"");
    assert_eq!(out, Err(CodecError::NoKeyFound));
}

#[test]
fn two_keys_fail_with_ambiguous_key() {
    let (_, key_pem_a, _, _) = generated_material();
    let (_, key_pem_b, _, _) = generated_material();
    let blob = format!("{}{}", key_pem_a, key_pem_b);
    let out = extract_priv_key_from_pem(blob.as_bytes());
    assert_eq!(out, Err(CodecError::AmbiguousKey));
}
